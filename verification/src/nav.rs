//! Navigation HTML: the pages grouped into a category tree, rendered as a
//! horizontal bar with drop-down menus or as a vertical sidebar.

use vstd::prelude::*;
use crate::pages::{Page, nav_category, nav_entry};
use crate::text::{push_char, str_chars, str_eq};
use vstd::multiset::Multiset;

verus! {

// ── The category tree ───────────────────────────────────────────────────────

/// A node of the navigation tree: a category (or the root), its pages as
/// `(slug, label)` and its sub-categories, each in insertion order.
#[verifier::ext_equal]
pub struct NodeModel {
    pub label: Seq<char>,
    pub pages: Seq<(Seq<char>, Seq<char>)>,
    pub children: Seq<NodeModel>,
}

/// A category with no pages and no sub-categories.
pub open spec fn empty_node(label: Seq<char>) -> NodeModel {
    NodeModel { label, pages: Seq::empty(), children: Seq::empty() }
}

/// The position of the first `/` in `path`, or its length if there is none.
pub open spec fn slash_pos(path: Seq<char>) -> nat
    decreases path.len(),
{
    if path.len() == 0 {
        0
    } else if path[0] == '/' {
        0
    } else {
        1 + slash_pos(path.drop_first())
    }
}

/// Whether `i` is the first child labelled `label`.
pub open spec fn is_first_child(children: Seq<NodeModel>, label: Seq<char>, i: int) -> bool {
    &&& 0 <= i < children.len()
    &&& children[i].label == label
    &&& forall|k: int| 0 <= k < i ==> #[trigger] children[k].label != label
}

/// Insert a page under the category path `path` below `node`: the part
/// before the first `/` names a child (the first one with that label, or a
/// new last child), and the rest of the path, if any, is inserted below it.
pub open spec fn tree_insert(node: NodeModel, path: Seq<char>, page: (Seq<char>, Seq<char>)) -> NodeModel
    decreases path.len(),
{
    let p = slash_pos(path);
    let head = path.take(p as int);
    let found = exists|i: int| is_first_child(node.children, head, i);
    let idx = if found {
        choose|i: int| is_first_child(node.children, head, i)
    } else {
        node.children.len() as int
    };
    let child = if found { node.children[idx] } else { empty_node(head) };
    let new_child = if p < path.len() {
        tree_insert(child, path.skip(p + 1 as int), page)
    } else {
        NodeModel { label: child.label, pages: child.pages.push(page), children: child.children }
    };
    NodeModel {
        label: node.label,
        pages: node.pages,
        children: if found { node.children.update(idx, new_child) } else { node.children.push(new_child) },
    }
}

/// The navigation tree of a list of pages: pages without a category sit at
/// the root, the others under their category path, in page order.
pub open spec fn nav_tree(pages: Seq<Page>) -> NodeModel
    decreases pages.len(),
{
    if pages.len() == 0 {
        empty_node(Seq::empty())
    } else {
        let t = nav_tree(pages.drop_last());
        let p = pages.last();
        match nav_category(p) {
            None => NodeModel { label: t.label, pages: t.pages.push(nav_entry(p)), children: t.children },
            Some(c) => tree_insert(t, c, nav_entry(p)),
        }
    }
}

struct NavPage {
    slug: String,
    label: String,
}

struct NavNode {
    label: String,
    pages: Vec<NavPage>,
    children: Vec<NavNode>,
}

spec fn page_view(p: NavPage) -> (Seq<char>, Seq<char>) {
    (p.slug@, p.label@)
}

spec fn pages_view(s: Seq<NavPage>) -> Seq<(Seq<char>, Seq<char>)> {
    s.map_values(|p: NavPage| page_view(p))
}

spec fn view_node(n: NavNode) -> NodeModel
    decreases n,
{
    NodeModel { label: n.label@, pages: pages_view(n.pages@), children: view_nodes(n.children@) }
}

spec fn view_nodes(s: Seq<NavNode>) -> Seq<NodeModel>
    decreases s,
{
    if s.len() == 0 {
        Seq::empty()
    } else {
        view_nodes(s.drop_last()).push(view_node(s.last()))
    }
}

proof fn lemma_view_nodes_index(s: Seq<NavNode>)
    ensures
        view_nodes(s).len() == s.len(),
        forall|i: int| 0 <= i < s.len() ==> #[trigger] view_nodes(s)[i] == view_node(s[i]),
    decreases s.len(),
{
    if s.len() > 0 {
        lemma_view_nodes_index(s.drop_last());
    }
}

proof fn lemma_view_nodes_update(s: Seq<NavNode>, j: int, x: NavNode)
    requires
        0 <= j < s.len(),
    ensures
        view_nodes(s.update(j, x)) == view_nodes(s).update(j, view_node(x)),
{
    lemma_view_nodes_index(s);
    lemma_view_nodes_index(s.update(j, x));
    assert(view_nodes(s.update(j, x)) =~= view_nodes(s).update(j, view_node(x)));
}

proof fn lemma_view_nodes_push(s: Seq<NavNode>, x: NavNode)
    ensures
        view_nodes(s.push(x)) == view_nodes(s).push(view_node(x)),
{
    assert(s.push(x).drop_last() =~= s);
}

proof fn lemma_slash_pos(path: Seq<char>, j: int)
    requires
        0 <= j <= path.len(),
        forall|k: int| 0 <= k < j ==> path[k] != '/',
        j == path.len() || path[j] == '/',
    ensures
        slash_pos(path) == j,
    decreases j,
{
    if j > 0 {
        lemma_slash_pos(path.drop_first(), j - 1);
    }
}

/// The position of the first `/` in `path`, or its length.
fn find_slash(path: &Vec<char>) -> (p: usize)
    ensures
        p == slash_pos(path@),
        p <= path@.len(),
{
    let n = path.len();
    let mut i: usize = 0;
    while i < n
        invariant
            n == path@.len(),
            i <= n,
            forall|k: int| 0 <= k < i ==> path@[k] != '/',
        decreases n - i,
    {
        if path[i] == '/' {
            proof {
                lemma_slash_pos(path@, i as int);
            }
            return i;
        }
        i = i + 1;
    }
    proof {
        lemma_slash_pos(path@, n as int);
    }
    n
}

/// The characters `from..to` of `chars` as a string.
fn string_of(chars: &Vec<char>, from: usize, to: usize) -> (s: String)
    requires
        from <= to <= chars@.len(),
    ensures
        s@ == chars@.subrange(from as int, to as int),
{
    let mut s = String::new();
    let mut i = from;
    while i < to
        invariant
            from <= i <= to,
            to <= chars@.len(),
            s@ == chars@.subrange(from as int, i as int),
        decreases to - i,
    {
        push_char(&mut s, chars[i]);
        proof {
            assert(chars@.subrange(from as int, i + 1) =~= chars@.subrange(from as int, i as int).push(chars@[i as int]));
        }
        i = i + 1;
    }
    s
}

/// The characters of `chars` from `from` on.
fn chars_from(chars: &Vec<char>, from: usize) -> (r: Vec<char>)
    requires
        from <= chars@.len(),
    ensures
        r@ == chars@.skip(from as int),
{
    let mut r: Vec<char> = Vec::new();
    let n = chars.len();
    let mut i = from;
    while i < n
        invariant
            from <= i <= n,
            n == chars@.len(),
            r@ == chars@.subrange(from as int, i as int),
        decreases n - i,
    {
        r.push(chars[i]);
        proof {
            assert(chars@.subrange(from as int, i + 1) =~= chars@.subrange(from as int, i as int).push(chars@[i as int]));
        }
        i = i + 1;
    }
    proof {
        assert(chars@.subrange(from as int, n as int) =~= chars@.skip(from as int));
    }
    r
}

/// The first child labelled `label`, if any.
fn find_child(children: &Vec<NavNode>, label: &String) -> (r: Option<usize>)
    ensures
        r matches Some(i) ==> is_first_child(view_nodes(children@), label@, i as int),
        r is None ==> !exists|i: int| is_first_child(view_nodes(children@), label@, i),
{
    let n = children.len();
    proof {
        lemma_view_nodes_index(children@);
    }
    for i in 0..n
        invariant
            n == children@.len(),
            view_nodes(children@).len() == n,
            forall|j: int| 0 <= j < n ==> #[trigger] view_nodes(children@)[j] == view_node(children@[j]),
            forall|k: int| 0 <= k < i ==> #[trigger] view_nodes(children@)[k].label != label@,
    {
        if str_eq(children[i].label.as_str(), label.as_str()) {
            return Some(i);
        }
    }
    None
}

/// Inserts `page` below `node` under the category path `path`.
fn insert_into_tree(node: &mut NavNode, path: &Vec<char>, page: NavPage)
    ensures
        view_node(*final(node)) == tree_insert(view_node(*old(node)), path@, page_view(page)),
    decreases path@.len(),
{
    let ghost n0 = view_node(*node);
    let ghost pv = page_view(page);
    let p = find_slash(path);
    let head = string_of(path, 0, p);
    proof {
        assert(head@ =~= path@.take(p as int));
        lemma_view_nodes_index(node.children@);
    }
    let found = find_child(&node.children, &head);
    let ghost head_v = path@.take(p as int);
    let ghost found_b = found is Some;
    let j: usize = match found {
        Some(j) => {
            proof {
                assert(is_first_child(n0.children, head_v, j as int));
                let c = choose|i: int| is_first_child(n0.children, head_v, i);
                assert(is_first_child(n0.children, head_v, c));
                if c < j {
                    assert(n0.children[c].label != head_v);
                } else if c > j {
                    assert(n0.children[j as int].label != head_v);
                }
                assert(c == j);
            }
            j
        },
        None => {
            let ghost c0 = node.children@;
            let fresh = NavNode { label: head, pages: Vec::new(), children: Vec::new() };
            proof {
                assert(pages_view(fresh.pages@) =~= Seq::<(Seq<char>, Seq<char>)>::empty());
                assert(view_nodes(fresh.children@) =~= Seq::<NodeModel>::empty());
                assert(view_node(fresh) =~= empty_node(head_v));
                lemma_view_nodes_push(c0, fresh);
            }
            node.children.push(fresh);
            node.children.len() - 1
        },
    };
    let ghost c1 = node.children@;
    let ghost child0 = view_node(c1[j as int]);
    proof {
        lemma_view_nodes_index(c1);
        if found_b {
            assert(view_nodes(c1) == n0.children);
            assert(child0 == n0.children[j as int]);
        } else {
            assert(view_nodes(c1) == n0.children.push(empty_node(head_v)));
            assert(j == n0.children.len());
            assert(child0 == empty_node(head_v));
        }
    }
    let ghost new_child: NodeModel;
    if p < path.len() {
        let rest = chars_from(path, p + 1);
        insert_into_tree(&mut node.children[j], &rest, page);
        proof {
            new_child = tree_insert(child0, path@.skip(p + 1 as int), pv);
            assert(view_node(node.children@[j as int]) == new_child);
        }
    } else {
        let ghost before = node.children@[j as int];
        node.children[j].pages.push(page);
        proof {
            let after = node.children@[j as int];
            assert(pages_view(after.pages@) =~= pages_view(before.pages@).push(pv));
            new_child = NodeModel { label: child0.label, pages: child0.pages.push(pv), children: child0.children };
            assert(view_node(after) =~= new_child);
        }
    }
    proof {
        assert(node.children@ =~= c1.update(j as int, node.children@[j as int]));
        lemma_view_nodes_update(c1, j as int, node.children@[j as int]);
        let kids = view_nodes(node.children@);
        if found_b {
            assert(kids =~= n0.children.update(j as int, new_child));
        } else {
            assert(kids =~= n0.children.push(new_child));
        }
        assert(view_node(*node) =~= tree_insert(n0, path@, pv));
    }
}

/// The category tree of `pages`.
fn build_tree(pages: &[Page]) -> (t: NavNode)
    ensures
        view_node(t) == nav_tree(pages@),
{
    let mut root = NavNode { label: String::new(), pages: Vec::new(), children: Vec::new() };
    proof {
        assert(pages_view(root.pages@) =~= Seq::<(Seq<char>, Seq<char>)>::empty());
        assert(view_nodes(root.children@) =~= Seq::<NodeModel>::empty());
        assert(view_node(root) =~= nav_tree(pages@.take(0)));
    }
    let n = pages.len();
    for i in 0..n
        invariant
            n == pages@.len(),
            view_node(root) == nav_tree(pages@.take(i as int)),
    {
        let page = &pages[i];
        let np = NavPage { slug: page.slug.clone(), label: page.nav_label.clone() };
        proof {
            assert(pages@.take(i + 1).drop_last() =~= pages@.take(i as int));
            assert(pages@.take(i + 1).last() == pages@[i as int]);
        }
        match &page.category {
            None => {
                let ghost before = root.pages@;
                root.pages.push(np);
                proof {
                    assert(pages_view(root.pages@) =~= pages_view(before).push(nav_entry(pages@[i as int])));
                }
            },
            Some(cat) => {
                let path = str_chars(cat.as_str());
                insert_into_tree(&mut root, &path, np);
            },
        }
    }
    proof {
        assert(pages@.take(n as int) =~= pages@);
    }
    root
}


// ── HTML fragments ─────────────────────────────────────────────────────────

/// Opening of the horizontal bar.
pub const NAV_H_OPEN: &'static str = r#"<nav class="nav-horizontal"><div class="nav-header">"#;
/// Opening of the report title.
pub const TITLE_OPEN: &'static str = r#"<div class="nav-report-title">"#;
/// Closing of a `div`.
pub const DIV_CLOSE: &'static str = r#"</div>"#;
/// Opening of the scrolling tab row.
pub const TABS_OPEN: &'static str = r#"<div class="nav-tabs-scroll">"#;
/// Opening of a page link, before the slug.
pub const LINK_OPEN: &'static str = r#"<a href=""#;
/// Between the slug and the class suffix of a tab link.
pub const TAB_MID: &'static str = r#".html" class="nav-tab"#;
/// Between the slug and the class suffix of a menu item.
pub const ITEM_MID: &'static str = r#".html" class="nav-dd-item"#;
/// End of a link's class attribute and tag.
pub const ATTR_CLOSE: &'static str = r#"">"#;
/// Closing of a link.
pub const LINK_CLOSE: &'static str = r#"</a>"#;
/// Class suffix of the current page's tab or item.
pub const ACTIVE: &'static str = r#" active"#;
/// Closing of the horizontal bar.
pub const NAV_H_CLOSE: &'static str = r#"</div></div></nav>"#;
/// Opening of a top-level drop-down.
pub const DD_OPEN: &'static str = r#"<div class="nav-dd"#;
/// Class suffix of a menu that holds the current page.
pub const HAS_ACTIVE: &'static str = r#" has-active"#;
/// Before the label of a drop-down trigger.
pub const DD_TRIGGER: &'static str = r#""><button class="nav-dd-trigger">"#;
/// After the label of a drop-down trigger.
pub const DD_CARET: &'static str = r#"<span class="caret">▾</span></button><div class="nav-dd-menu">"#;
/// Divider between a menu's pages and its sub-menus.
pub const DIVIDER: &'static str = r#"<hr class="nav-dd-divider">"#;
/// Closing of a menu.
pub const BLOCK_CLOSE: &'static str = r#"</div></div>"#;
/// Opening of a nested menu.
pub const SUB_OPEN: &'static str = r#"<div class="nav-dd-sub"#;
/// Before the label of a nested menu's trigger.
pub const SUB_TRIGGER: &'static str = r#""><button class="nav-dd-sub-trigger">"#;
/// After the label of a nested menu's trigger.
pub const SUB_CARET: &'static str = r#"<span class="caret">▸</span></button><div class="nav-dd-sub-menu">"#;
/// Opening of the sidebar.
pub const NAV_V_OPEN: &'static str = r#"<nav class="nav-vertical">"#;
/// Between the home slug and the title in the sidebar heading.
pub const HOME_MID: &'static str = r#".html" style="color:inherit;text-decoration:none;">"#;
/// The sidebar's search box.
pub const SEARCH_BOX: &'static str = r#"<div class="nav-search"><input type="search" id="nav-search-input" class="nav-search-input" placeholder="Search&#x2026;" autocomplete="off"></div>"#;
/// Opening of the sidebar's uncategorized links.
pub const UNCAT_OPEN: &'static str = r#"<div class="nav-uncategorized">"#;
/// After the slug of a sidebar link.
pub const SIDE_MID: &'static str = r#".html""#;
/// Attribute of the current page's sidebar link.
pub const ACTIVE_CLASS: &'static str = r#" class="active""#;
/// End of a tag.
pub const TAG_END: &'static str = r#">"#;
/// Closing of the sidebar.
pub const NAV_V_CLOSE: &'static str = r#"</nav>"#;
/// Opening of a sidebar category.
pub const DETAILS_OPEN: &'static str = r#"<details"#;
/// Attribute of a sidebar category that holds the current page.
pub const OPEN_ATTR: &'static str = r#" open"#;
/// Before a sidebar category's label.
pub const SUMMARY_OPEN: &'static str = r#"><summary>"#;
/// After a sidebar category's label.
pub const SUMMARY_CLOSE: &'static str = r#"</summary><div class="nav-indent">"#;
/// Closing of a sidebar category.
pub const DETAILS_CLOSE: &'static str = r#"</div></details>"#;

// ── HTML ─────────────────────────────────────────────────────────────────────

/// How HTML text writes one character: `&`, `<`, `>` and `"` become
/// entities, every other character stands for itself.
pub open spec fn html_escape_char(c: char) -> Seq<char> {
    if c == '&' {
        "&amp;"@
    } else if c == '<' {
        "&lt;"@
    } else if c == '>' {
        "&gt;"@
    } else if c == '"' {
        "&quot;"@
    } else {
        seq![c]
    }
}

/// `s` escaped for HTML text.
pub open spec fn html_escape(s: Seq<char>) -> Seq<char>
    decreases s.len(),
{
    if s.len() == 0 {
        Seq::empty()
    } else {
        html_escape(s.drop_last()) + html_escape_char(s.last())
    }
}

/// Escape `&`, `<`, `>` and `"` in `s` for HTML text.
pub fn escape_html(s: &str) -> (r: String)
    ensures
        r@ == html_escape(s@),
{
    let mut out = String::new();
    let ghost sv = s@;
    for c in it: s.chars()
        invariant
            it.seq() == sv,
            out@ == html_escape(sv.take(it.index())),
    {
        let ghost k = it.index();
        proof {
            assert(sv.take(k + 1).drop_last() =~= sv.take(k));
            assert(sv.take(k + 1).last() == c);
        }
        if c == '&' {
            out.append("&amp;");
        } else if c == '<' {
            out.append("&lt;");
        } else if c == '>' {
            out.append("&gt;");
        } else if c == '"' {
            out.append("&quot;");
        } else {
            push_char(&mut out, c);
        }
        proof {
            assert(out@ =~= html_escape(sv.take(k)) + html_escape_char(c));
        }
    }
    proof {
        assert(sv.take(sv.len() as int) =~= sv);
    }
    out
}

/// The three ways a page link is drawn.
#[derive(Clone, Copy, PartialEq, Eq, Structural)]
pub enum LinkKind {
    /// A tab of the horizontal bar.
    Tab,
    /// An item of a drop-down menu.
    Item,
    /// A link of the sidebar.
    Side,
}

/// The empty text.
pub open spec fn nothing() -> Seq<char> {
    Seq::empty()
}

/// The link to one page; the current page's link is marked active.
pub open spec fn link_html(kind: LinkKind, p: (Seq<char>, Seq<char>), cur: Seq<char>) -> Seq<char> {
    let active = p.0 == cur;
    match kind {
        LinkKind::Tab => LINK_OPEN@ + p.0 + TAB_MID@ + (if active { ACTIVE@ } else { nothing() })
            + ATTR_CLOSE@ + html_escape(p.1) + LINK_CLOSE@,
        LinkKind::Item => LINK_OPEN@ + p.0 + ITEM_MID@ + (if active { ACTIVE@ } else { nothing() })
            + ATTR_CLOSE@ + html_escape(p.1) + LINK_CLOSE@,
        LinkKind::Side => LINK_OPEN@ + p.0 + SIDE_MID@ + (if active { ACTIVE_CLASS@ } else { nothing() })
            + TAG_END@ + html_escape(p.1) + LINK_CLOSE@,
    }
}

/// The links to a list of pages, in order.
pub open spec fn links_html(kind: LinkKind, pages: Seq<(Seq<char>, Seq<char>)>, cur: Seq<char>) -> Seq<char>
    decreases pages.len(),
{
    if pages.len() == 0 {
        Seq::empty()
    } else {
        links_html(kind, pages.drop_last(), cur) + link_html(kind, pages.last(), cur)
    }
}

/// Whether the current page is one of `pages`.
pub open spec fn lists_page(pages: Seq<(Seq<char>, Seq<char>)>, cur: Seq<char>) -> bool {
    exists|i: int| 0 <= i < pages.len() && #[trigger] pages[i].0 == cur
}

/// Whether the current page sits anywhere below the node.
pub open spec fn active_below(n: NodeModel, cur: Seq<char>) -> bool
    decreases n,
{
    lists_page(n.pages, cur) || kids_have_active(n.children, cur)
}

/// Whether the current page sits below one of the nodes.
pub open spec fn kids_have_active(cs: Seq<NodeModel>, cur: Seq<char>) -> bool
    decreases cs,
{
    if cs.len() == 0 {
        false
    } else {
        kids_have_active(cs.drop_last(), cur) || active_below(cs.last(), cur)
    }
}

/// The divider of a menu that has both pages and sub-menus.
pub open spec fn divider_html(n: NodeModel) -> Seq<char> {
    if n.pages.len() > 0 && n.children.len() > 0 { DIVIDER@ } else { nothing() }
}

/// A nested drop-down menu and everything below it.
pub open spec fn sub_menu_html(n: NodeModel, cur: Seq<char>) -> Seq<char>
    decreases n,
{
    SUB_OPEN@ + (if active_below(n, cur) { HAS_ACTIVE@ } else { nothing() }) + SUB_TRIGGER@
        + html_escape(n.label) + SUB_CARET@ + links_html(LinkKind::Item, n.pages, cur) + divider_html(n)
        + sub_menus_html(n.children, cur) + BLOCK_CLOSE@
}

/// Nested drop-down menus, in order.
pub open spec fn sub_menus_html(cs: Seq<NodeModel>, cur: Seq<char>) -> Seq<char>
    decreases cs,
{
    if cs.len() == 0 {
        Seq::empty()
    } else {
        sub_menus_html(cs.drop_last(), cur) + sub_menu_html(cs.last(), cur)
    }
}

/// A top-level drop-down menu of the horizontal bar.
pub open spec fn menu_html(n: NodeModel, cur: Seq<char>) -> Seq<char> {
    DD_OPEN@ + (if active_below(n, cur) { HAS_ACTIVE@ } else { nothing() }) + DD_TRIGGER@
        + html_escape(n.label) + DD_CARET@ + links_html(LinkKind::Item, n.pages, cur) + divider_html(n)
        + sub_menus_html(n.children, cur) + BLOCK_CLOSE@
}

/// Top-level drop-down menus, in order.
pub open spec fn menus_html(cs: Seq<NodeModel>, cur: Seq<char>) -> Seq<char>
    decreases cs.len(),
{
    if cs.len() == 0 {
        Seq::empty()
    } else {
        menus_html(cs.drop_last(), cur) + menu_html(cs.last(), cur)
    }
}

/// The horizontal bar: title, tabs for the uncategorized pages, then one
/// drop-down per top-level category.
pub open spec fn horizontal_nav_html(tree: NodeModel, title: Seq<char>, cur: Seq<char>) -> Seq<char> {
    NAV_H_OPEN@ + (if title.len() > 0 { TITLE_OPEN@ + html_escape(title) + DIV_CLOSE@ } else { nothing() })
        + TABS_OPEN@ + links_html(LinkKind::Tab, tree.pages, cur) + menus_html(tree.children, cur) + NAV_H_CLOSE@
}

/// A collapsible sidebar category and everything below it; it starts open
/// when it holds the current page.
pub open spec fn side_node_html(n: NodeModel, cur: Seq<char>) -> Seq<char>
    decreases n,
{
    DETAILS_OPEN@ + (if active_below(n, cur) { OPEN_ATTR@ } else { nothing() }) + SUMMARY_OPEN@
        + html_escape(n.label) + SUMMARY_CLOSE@ + links_html(LinkKind::Side, n.pages, cur)
        + side_nodes_html(n.children, cur) + DETAILS_CLOSE@
}

/// Sidebar categories, in order.
pub open spec fn side_nodes_html(cs: Seq<NodeModel>, cur: Seq<char>) -> Seq<char>
    decreases cs,
{
    if cs.len() == 0 {
        Seq::empty()
    } else {
        side_nodes_html(cs.drop_last(), cur) + side_node_html(cs.last(), cur)
    }
}

/// The sidebar heading: the title, linked to the home page when there is one.
pub open spec fn side_title_html(title: Seq<char>, home: Seq<char>) -> Seq<char> {
    if title.len() == 0 {
        nothing()
    } else {
        TITLE_OPEN@ + (if home.len() > 0 {
            LINK_OPEN@ + home + HOME_MID@ + html_escape(title) + LINK_CLOSE@
        } else {
            html_escape(title)
        }) + DIV_CLOSE@
    }
}

/// The vertical sidebar: heading, search box, uncategorized links, then one
/// collapsible section per top-level category.
pub open spec fn vertical_nav_html(tree: NodeModel, title: Seq<char>, cur: Seq<char>, home: Seq<char>) -> Seq<char> {
    NAV_V_OPEN@ + side_title_html(title, home) + SEARCH_BOX@ + UNCAT_OPEN@
        + links_html(LinkKind::Side, tree.pages, cur) + DIV_CLOSE@ + side_nodes_html(tree.children, cur)
        + NAV_V_CLOSE@
}

/// The slug of the first page, or nothing when there are no pages.
pub open spec fn home_slug(pages: Seq<Page>) -> Seq<char> {
    if pages.len() > 0 { pages[0].slug@ } else { nothing() }
}

/// The navigation of a set of pages for the page `cur`: the sidebar when the
/// style is `vertical`, the horizontal bar otherwise.
pub open spec fn nav_html(pages: Seq<Page>, title: Seq<char>, style: Seq<char>, cur: Seq<char>) -> Seq<char> {
    if style == "vertical"@ {
        vertical_nav_html(nav_tree(pages), title, cur, home_slug(pages))
    } else {
        horizontal_nav_html(nav_tree(pages), title, cur)
    }
}

fn push_link(out: &mut String, kind: LinkKind, p: &NavPage, cur: &str)
    ensures
        final(out)@ == old(out)@ + link_html(kind, page_view(*p), cur@),
{
    let active = str_eq(p.slug.as_str(), cur);
    out.append(LINK_OPEN);
    out.append(p.slug.as_str());
    match kind {
        LinkKind::Tab => {
            out.append(TAB_MID);
            if active {
                out.append(ACTIVE);
            }
            out.append(ATTR_CLOSE);
        },
        LinkKind::Item => {
            out.append(ITEM_MID);
            if active {
                out.append(ACTIVE);
            }
            out.append(ATTR_CLOSE);
        },
        LinkKind::Side => {
            out.append(SIDE_MID);
            if active {
                out.append(ACTIVE_CLASS);
            }
            out.append(TAG_END);
        },
    }
    let label = escape_html(p.label.as_str());
    out.append(label.as_str());
    out.append(LINK_CLOSE);
    proof {
        assert(final(out)@ =~= old(out)@ + link_html(kind, page_view(*p), cur@));
    }
}

fn push_links(out: &mut String, kind: LinkKind, pages: &Vec<NavPage>, cur: &str)
    ensures
        final(out)@ == old(out)@ + links_html(kind, pages_view(pages@), cur@),
{
    let n = pages.len();
    for i in 0..n
        invariant
            n == pages@.len(),
            out@ == old(out)@ + links_html(kind, pages_view(pages@.take(i as int)), cur@),
    {
        push_link(out, kind, &pages[i], cur);
        proof {
            let pv = pages_view(pages@.take(i + 1));
            assert(pv.drop_last() =~= pages_view(pages@.take(i as int)));
            assert(pv.last() == page_view(pages@[i as int]));
            assert(out@ =~= old(out)@ + links_html(kind, pv, cur@));
        }
    }
    proof {
        assert(pages@.take(n as int) =~= pages@);
    }
}

fn has_page(pages: &Vec<NavPage>, cur: &str) -> (r: bool)
    ensures
        r == lists_page(pages_view(pages@), cur@),
{
    let n = pages.len();
    for i in 0..n
        invariant
            n == pages@.len(),
            forall|k: int| 0 <= k < i ==> #[trigger] pages@[k].slug@ != cur@,
    {
        if str_eq(pages[i].slug.as_str(), cur) {
            proof {
                assert(pages_view(pages@)[i as int].0 == cur@);
            }
            return true;
        }
    }
    proof {
        assert forall|k: int| 0 <= k < n implies #[trigger] pages_view(pages@)[k].0 != cur@ by {
            assert(pages_view(pages@)[k] == page_view(pages@[k]));
        }
    }
    false
}

/// Whether the current page sits anywhere below `node`.
fn node_has_active(node: &NavNode, cur: &str) -> (r: bool)
    ensures
        r == active_below(view_node(*node), cur@),
    decreases node,
{
    if has_page(&node.pages, cur) {
        return true;
    }
    let n = node.children.len();
    proof {
        lemma_view_nodes_index(node.children@);
    }
    for i in 0..n
        invariant
            n == node.children@.len(),
            view_nodes(node.children@).len() == n,
            forall|j: int| 0 <= j < n ==> #[trigger] view_nodes(node.children@)[j] == view_node(node.children@[j]),
            !kids_have_active(view_nodes(node.children@).take(i as int), cur@),
    {
        let ghost vs = view_nodes(node.children@);
        proof {
            assert(vs.take(i + 1).drop_last() =~= vs.take(i as int));
            assert(vs.take(i + 1).last() == vs[i as int]);
        }
        if node_has_active(&node.children[i], cur) {
            proof {
                assert(kids_have_active(vs.take(i + 1), cur@));
                lemma_kids_active_prefix(vs, cur@, i + 1);
            }
            return true;
        }
    }
    proof {
        assert(view_nodes(node.children@).take(n as int) =~= view_nodes(node.children@));
    }
    false
}

proof fn lemma_kids_active_prefix(cs: Seq<NodeModel>, cur: Seq<char>, k: int)
    requires
        0 <= k <= cs.len(),
        kids_have_active(cs.take(k), cur),
    ensures
        kids_have_active(cs, cur),
    decreases cs.len() - k,
{
    if k < cs.len() {
        assert(cs.take(k + 1).drop_last() =~= cs.take(k));
        lemma_kids_active_prefix(cs, cur, k + 1);
    } else {
        assert(cs.take(k) =~= cs);
    }
}

#[verifier::spinoff_prover]
#[verifier::rlimit(40)]
fn build_h_dd_sub_node(out: &mut String, node: &NavNode, cur: &str)
    ensures
        final(out)@ == old(out)@ + sub_menu_html(view_node(*node), cur@),
    decreases node,
{
    let active = node_has_active(node, cur);
    out.append(SUB_OPEN);
    if active {
        out.append(HAS_ACTIVE);
    }
    out.append(SUB_TRIGGER);
    let label = escape_html(node.label.as_str());
    out.append(label.as_str());
    out.append(SUB_CARET);
    push_links(out, LinkKind::Item, &node.pages, cur);
    if node.pages.len() > 0 && node.children.len() > 0 {
        out.append(DIVIDER);
    }
    push_sub_menus(out, &node.children, cur);
    out.append(BLOCK_CLOSE);
    proof {
        lemma_view_nodes_index(node.children@);
        assert(final(out)@ =~= old(out)@ + sub_menu_html(view_node(*node), cur@));
    }
}

fn push_sub_menus(out: &mut String, children: &Vec<NavNode>, cur: &str)
    ensures
        final(out)@ == old(out)@ + sub_menus_html(view_nodes(children@), cur@),
    decreases children,
{
    let n = children.len();
    proof {
        lemma_view_nodes_index(children@);
    }
    for i in 0..n
        invariant
            n == children@.len(),
            view_nodes(children@).len() == n,
            forall|j: int| 0 <= j < n ==> #[trigger] view_nodes(children@)[j] == view_node(children@[j]),
            out@ == old(out)@ + sub_menus_html(view_nodes(children@).take(i as int), cur@),
    {
        let ghost vs = view_nodes(children@);
        build_h_dd_sub_node(out, &children[i], cur);
        proof {
            assert(vs.take(i + 1).drop_last() =~= vs.take(i as int));
            assert(vs.take(i + 1).last() == vs[i as int]);
            assert(out@ =~= old(out)@ + sub_menus_html(vs.take(i + 1), cur@));
        }
    }
    proof {
        assert(view_nodes(children@).take(n as int) =~= view_nodes(children@));
    }
}

fn build_h_dd_node(out: &mut String, node: &NavNode, cur: &str)
    ensures
        final(out)@ == old(out)@ + menu_html(view_node(*node), cur@),
{
    let active = node_has_active(node, cur);
    out.append(DD_OPEN);
    if active {
        out.append(HAS_ACTIVE);
    }
    out.append(DD_TRIGGER);
    let label = escape_html(node.label.as_str());
    out.append(label.as_str());
    out.append(DD_CARET);
    push_links(out, LinkKind::Item, &node.pages, cur);
    if node.pages.len() > 0 && node.children.len() > 0 {
        out.append(DIVIDER);
    }
    push_sub_menus(out, &node.children, cur);
    out.append(BLOCK_CLOSE);
    proof {
        lemma_view_nodes_index(node.children@);
        assert(final(out)@ =~= old(out)@ + menu_html(view_node(*node), cur@));
    }
}

fn build_v_node(out: &mut String, node: &NavNode, cur: &str)
    ensures
        final(out)@ == old(out)@ + side_node_html(view_node(*node), cur@),
    decreases node,
{
    let active = node_has_active(node, cur);
    out.append(DETAILS_OPEN);
    if active {
        out.append(OPEN_ATTR);
    }
    out.append(SUMMARY_OPEN);
    let label = escape_html(node.label.as_str());
    out.append(label.as_str());
    out.append(SUMMARY_CLOSE);
    push_links(out, LinkKind::Side, &node.pages, cur);
    push_side_nodes(out, &node.children, cur);
    out.append(DETAILS_CLOSE);
    proof {
        assert(final(out)@ =~= old(out)@ + side_node_html(view_node(*node), cur@));
    }
}

fn push_side_nodes(out: &mut String, children: &Vec<NavNode>, cur: &str)
    ensures
        final(out)@ == old(out)@ + side_nodes_html(view_nodes(children@), cur@),
    decreases children,
{
    let n = children.len();
    proof {
        lemma_view_nodes_index(children@);
    }
    for i in 0..n
        invariant
            n == children@.len(),
            view_nodes(children@).len() == n,
            forall|j: int| 0 <= j < n ==> #[trigger] view_nodes(children@)[j] == view_node(children@[j]),
            out@ == old(out)@ + side_nodes_html(view_nodes(children@).take(i as int), cur@),
    {
        let ghost vs = view_nodes(children@);
        build_v_node(out, &children[i], cur);
        proof {
            assert(vs.take(i + 1).drop_last() =~= vs.take(i as int));
            assert(vs.take(i + 1).last() == vs[i as int]);
            assert(out@ =~= old(out)@ + side_nodes_html(vs.take(i + 1), cur@));
        }
    }
    proof {
        assert(view_nodes(children@).take(n as int) =~= view_nodes(children@));
    }
}

fn build_horizontal_nav(tree: &NavNode, report_title: &str, current_slug: &str) -> (r: String)
    ensures
        r@ == horizontal_nav_html(view_node(*tree), report_title@, current_slug@),
{
    let mut html = String::from_str(NAV_H_OPEN);
    if !report_title.is_empty() {
        html.append(TITLE_OPEN);
        let t = escape_html(report_title);
        html.append(t.as_str());
        html.append(DIV_CLOSE);
    }
    html.append(TABS_OPEN);
    push_links(&mut html, LinkKind::Tab, &tree.pages, current_slug);
    let n = tree.children.len();
    let ghost start = html@;
    proof {
        lemma_view_nodes_index(tree.children@);
    }
    for i in 0..n
        invariant
            n == tree.children@.len(),
            view_nodes(tree.children@).len() == n,
            forall|j: int| 0 <= j < n ==> #[trigger] view_nodes(tree.children@)[j] == view_node(tree.children@[j]),
            html@ == start + menus_html(view_nodes(tree.children@).take(i as int), current_slug@),
    {
        let ghost vs = view_nodes(tree.children@);
        build_h_dd_node(&mut html, &tree.children[i], current_slug);
        proof {
            assert(vs.take(i + 1).drop_last() =~= vs.take(i as int));
            assert(vs.take(i + 1).last() == vs[i as int]);
            assert(html@ =~= start + menus_html(vs.take(i + 1), current_slug@));
        }
    }
    html.append(NAV_H_CLOSE);
    proof {
        assert(view_nodes(tree.children@).take(n as int) =~= view_nodes(tree.children@));
        assert(html@ =~= horizontal_nav_html(view_node(*tree), report_title@, current_slug@));
    }
    html
}

fn build_vertical_nav(tree: &NavNode, report_title: &str, current_slug: &str, home_slug: &str) -> (r: String)
    ensures
        r@ == vertical_nav_html(view_node(*tree), report_title@, current_slug@, home_slug@),
{
    let mut html = String::from_str(NAV_V_OPEN);
    if !report_title.is_empty() {
        html.append(TITLE_OPEN);
        let t = escape_html(report_title);
        if !home_slug.is_empty() {
            html.append(LINK_OPEN);
            html.append(home_slug);
            html.append(HOME_MID);
            html.append(t.as_str());
            html.append(LINK_CLOSE);
        } else {
            html.append(t.as_str());
        }
        html.append(DIV_CLOSE);
    }
    html.append(SEARCH_BOX);
    html.append(UNCAT_OPEN);
    push_links(&mut html, LinkKind::Side, &tree.pages, current_slug);
    html.append(DIV_CLOSE);
    push_side_nodes(&mut html, &tree.children, current_slug);
    html.append(NAV_V_CLOSE);
    proof {
        assert(html@ =~= vertical_nav_html(view_node(*tree), report_title@, current_slug@, home_slug@));
    }
    html
}

/// Build the navigation HTML for all pages, highlighting `current_slug`:
/// the sidebar when `nav_style` is `vertical`, the horizontal bar otherwise.
pub fn build_nav_html(pages: &[Page], report_title: &str, nav_style: &str, current_slug: &str) -> (r: String)
    ensures
        r@ == nav_html(pages@, report_title@, nav_style@, current_slug@),
{
    let tree = build_tree(pages);
    let home: &str = if pages.len() > 0 { pages[0].slug.as_str() } else { "" };
    proof {
        reveal_strlit("");
        assert(home@ == home_slug(pages@));
    }
    if str_eq(nav_style, "vertical") {
        build_vertical_nav(&tree, report_title, current_slug, home)
    } else {
        build_horizontal_nav(&tree, report_title, current_slug)
    }
}


// ── Laws ─────────────────────────────────────────────────────────────────────

/// The `(slug, label)` entries listed anywhere in the node's subtree.
pub open spec fn node_entries(n: NodeModel) -> Multiset<(Seq<char>, Seq<char>)>
    decreases n,
{
    n.pages.to_multiset().add(kids_entries(n.children))
}

/// The entries listed anywhere below a list of nodes.
pub open spec fn kids_entries(cs: Seq<NodeModel>) -> Multiset<(Seq<char>, Seq<char>)>
    decreases cs,
{
    if cs.len() == 0 {
        Multiset::empty()
    } else {
        kids_entries(cs.drop_last()).add(node_entries(cs.last()))
    }
}

proof fn lemma_kids_entries_update(cs: Seq<NodeModel>, i: int, x: NodeModel)
    requires
        0 <= i < cs.len(),
    ensures
        kids_entries(cs.update(i, x)).add(node_entries(cs[i])) == kids_entries(cs).add(node_entries(x)),
    decreases cs.len(),
{
    broadcast use vstd::multiset::group_multiset_axioms;
    let u = cs.update(i, x);
    let c = node_entries(cs[i]);
    let xe = node_entries(x);
    if i == cs.len() - 1 {
        assert(u.drop_last() =~= cs.drop_last());
        assert(kids_entries(u) == kids_entries(cs.drop_last()).add(xe));
        assert(kids_entries(cs) == kids_entries(cs.drop_last()).add(c));
        assert(kids_entries(u).add(c) =~= kids_entries(cs).add(xe));
    } else {
        let d = cs.drop_last();
        assert(u.drop_last() =~= d.update(i, x));
        assert(u.last() == cs.last());
        assert(d[i] == cs[i]);
        lemma_kids_entries_update(d, i, x);
        let a = kids_entries(d.update(i, x));
        let b = kids_entries(d);
        let l = node_entries(cs.last());
        assert(kids_entries(u) == a.add(l));
        assert(kids_entries(cs) == b.add(l));
        assert forall|e: (Seq<char>, Seq<char>)| #[trigger] kids_entries(u).add(c).count(e) == kids_entries(cs).add(xe).count(e) by {
            assert(a.add(c).count(e) == b.add(xe).count(e));
        }
        assert(kids_entries(u).add(c) =~= kids_entries(cs).add(xe));
    }
}

proof fn lemma_tree_insert_entries(n: NodeModel, path: Seq<char>, page: (Seq<char>, Seq<char>))
    ensures
        node_entries(tree_insert(n, path, page)) == node_entries(n).insert(page),
    decreases path.len(),
{
    broadcast use vstd::multiset::group_multiset_axioms;
    broadcast use vstd::seq_lib::group_to_multiset_ensures;
    let p = slash_pos(path);
    let head = path.take(p as int);
    let found = exists|i: int| is_first_child(n.children, head, i);
    let idx = if found {
        choose|i: int| is_first_child(n.children, head, i)
    } else {
        n.children.len() as int
    };
    let child = if found { n.children[idx] } else { empty_node(head) };
    let new_child = if p < path.len() {
        tree_insert(child, path.skip(p + 1 as int), page)
    } else {
        NodeModel { label: child.label, pages: child.pages.push(page), children: child.children }
    };
    if p < path.len() {
        lemma_tree_insert_entries(child, path.skip(p + 1 as int), page);
    } else {
        assert(node_entries(new_child) =~= node_entries(child).insert(page));
    }
    assert(node_entries(new_child) == node_entries(child).insert(page));
    let t = tree_insert(n, path, page);
    if found {
        lemma_kids_entries_update(n.children, idx, new_child);
        assert(t.children == n.children.update(idx, new_child));
        assert(child == n.children[idx]);
        let ce = node_entries(child);
        assert forall|e: (Seq<char>, Seq<char>)| #[trigger] kids_entries(t.children).count(e) == kids_entries(n.children).insert(page).count(e) by {
            assert(kids_entries(t.children).add(ce).count(e) == kids_entries(n.children).add(node_entries(new_child)).count(e));
        }
        assert(kids_entries(t.children) =~= kids_entries(n.children).insert(page));
        assert(node_entries(t) =~= node_entries(n).insert(page));
    } else {
        assert(t.children == n.children.push(new_child));
        assert(t.children.drop_last() =~= n.children);
        assert(node_entries(child) =~= Multiset::empty()) by {
            assert(child.pages.to_multiset() =~= Multiset::empty());
        }
        assert(node_entries(t) =~= node_entries(n).insert(page));
    }
}

/// The navigation lists every page exactly once: the entries of the tree
/// are the pages' `(slug, label)` pairs, counted with multiplicity.
pub proof fn law_nav_tree_lists_each_page_once(pages: Seq<Page>)
    ensures
        node_entries(nav_tree(pages)) == pages.map_values(|p: Page| nav_entry(p)).to_multiset(),
    decreases pages.len(),
{
    broadcast use vstd::multiset::group_multiset_axioms;
    broadcast use vstd::seq_lib::group_to_multiset_ensures;
    if pages.len() == 0 {
        assert(node_entries(nav_tree(pages)) =~= Multiset::empty()) by {
            assert(nav_tree(pages).pages.to_multiset() =~= Multiset::empty());
        }
        assert(pages.map_values(|p: Page| nav_entry(p)) =~= Seq::<(Seq<char>, Seq<char>)>::empty());
    } else {
        let prev = pages.drop_last();
        law_nav_tree_lists_each_page_once(prev);
        let t = nav_tree(prev);
        let p = pages.last();
        assert(pages.map_values(|q: Page| nav_entry(q)) =~= prev.map_values(|q: Page| nav_entry(q)).push(nav_entry(p)));
        match nav_category(p) {
            None => {
                assert(node_entries(nav_tree(pages)) =~= node_entries(t).insert(nav_entry(p)));
            },
            Some(c) => {
                lemma_tree_insert_entries(t, c, nav_entry(p));
            },
        }
    }
}

proof fn lemma_lists_page_iff(pages: Seq<(Seq<char>, Seq<char>)>, cur: Seq<char>)
    ensures
        lists_page(pages, cur) == exists|e: (Seq<char>, Seq<char>)| #[trigger] pages.to_multiset().contains(e) && e.0 == cur,
{
    broadcast use vstd::seq_lib::group_to_multiset_ensures;
    if lists_page(pages, cur) {
        let i = choose|i: int| 0 <= i < pages.len() && #[trigger] pages[i].0 == cur;
        assert(pages.contains(pages[i]));
        assert(pages.to_multiset().contains(pages[i]));
    }
    if exists|e: (Seq<char>, Seq<char>)| #[trigger] pages.to_multiset().contains(e) && e.0 == cur {
        let e = choose|e: (Seq<char>, Seq<char>)| #[trigger] pages.to_multiset().contains(e) && e.0 == cur;
        assert(pages.contains(e));
        let i = choose|i: int| 0 <= i < pages.len() && pages[i] == e;
        assert(pages[i].0 == cur);
    }
}

proof fn lemma_node_active_iff(n: NodeModel, cur: Seq<char>)
    ensures
        active_below(n, cur) == exists|e: (Seq<char>, Seq<char>)| #[trigger] node_entries(n).contains(e) && e.0 == cur,
    decreases n,
{
    broadcast use vstd::multiset::group_multiset_axioms;
    lemma_lists_page_iff(n.pages, cur);
    lemma_kids_active_iff(n.children, cur);
    let m = node_entries(n);
    if active_below(n, cur) {
        if lists_page(n.pages, cur) {
            let e = choose|e: (Seq<char>, Seq<char>)| #[trigger] n.pages.to_multiset().contains(e) && e.0 == cur;
            assert(m.contains(e));
        } else {
            let e = choose|e: (Seq<char>, Seq<char>)| #[trigger] kids_entries(n.children).contains(e) && e.0 == cur;
            assert(m.contains(e));
        }
    }
    if exists|e: (Seq<char>, Seq<char>)| #[trigger] m.contains(e) && e.0 == cur {
        let e = choose|e: (Seq<char>, Seq<char>)| #[trigger] m.contains(e) && e.0 == cur;
        if n.pages.to_multiset().contains(e) {
            assert(lists_page(n.pages, cur));
        } else {
            assert(kids_entries(n.children).contains(e));
            assert(kids_have_active(n.children, cur));
        }
    }
}

proof fn lemma_kids_active_iff(cs: Seq<NodeModel>, cur: Seq<char>)
    ensures
        kids_have_active(cs, cur) == exists|e: (Seq<char>, Seq<char>)| #[trigger] kids_entries(cs).contains(e) && e.0 == cur,
    decreases cs,
{
    broadcast use vstd::multiset::group_multiset_axioms;
    if cs.len() > 0 {
        lemma_kids_active_iff(cs.drop_last(), cur);
        lemma_node_active_iff(cs.last(), cur);
        let m = kids_entries(cs);
        if kids_have_active(cs, cur) {
            if kids_have_active(cs.drop_last(), cur) {
                let e = choose|e: (Seq<char>, Seq<char>)| #[trigger] kids_entries(cs.drop_last()).contains(e) && e.0 == cur;
                assert(m.contains(e));
            } else {
                let e = choose|e: (Seq<char>, Seq<char>)| #[trigger] node_entries(cs.last()).contains(e) && e.0 == cur;
                assert(m.contains(e));
            }
        }
        if exists|e: (Seq<char>, Seq<char>)| #[trigger] m.contains(e) && e.0 == cur {
            let e = choose|e: (Seq<char>, Seq<char>)| #[trigger] m.contains(e) && e.0 == cur;
            if kids_entries(cs.drop_last()).contains(e) {
                assert(kids_have_active(cs.drop_last(), cur));
            } else {
                assert(node_entries(cs.last()).contains(e));
            }
        }
    } else {
        assert(!(exists|e: (Seq<char>, Seq<char>)| #[trigger] kids_entries(cs).contains(e) && e.0 == cur)) by {
            assert(kids_entries(cs) =~= Multiset::empty());
        }
    }
}

/// A category is highlighted (`has-active`, or open in the sidebar) exactly
/// when the current page is listed somewhere below it.
pub proof fn law_active_iff_current_page_below(n: NodeModel, cur: Seq<char>)
    ensures
        active_below(n, cur) <==> exists|e: (Seq<char>, Seq<char>)| #[trigger] node_entries(n).contains(e) && e.0 == cur,
{
    lemma_node_active_iff(n, cur);
}

/// Escaped HTML text holds no `<`, `>` or `"`, so it cannot open a tag or
/// close an attribute.
pub proof fn law_escaped_html_has_no_markup(s: Seq<char>)
    ensures
        forall|i: int| 0 <= i < html_escape(s).len() ==> {
            let c = #[trigger] html_escape(s)[i];
            c != '<' && c != '>' && c != '"'
        },
    decreases s.len(),
{
    reveal_strlit("&amp;");
    reveal_strlit("&lt;");
    reveal_strlit("&gt;");
    reveal_strlit("&quot;");
    if s.len() > 0 {
        law_escaped_html_has_no_markup(s.drop_last());
        let a = html_escape(s.drop_last());
        let b = html_escape_char(s.last());
        assert forall|i: int| 0 <= i < b.len() implies b[i] != '<' && b[i] != '>' && b[i] != '"' by {}
        assert forall|i: int| 0 <= i < html_escape(s).len() implies {
            let c = #[trigger] html_escape(s)[i];
            c != '<' && c != '>' && c != '"'
        } by {
            if i < a.len() {
                assert(html_escape(s)[i] == a[i]);
            } else {
                assert(html_escape(s)[i] == b[i - a.len()]);
            }
        }
    }
}


/// Whether `needle` occurs as a contiguous piece of `hay`.
pub open spec fn occurs_in(needle: Seq<char>, hay: Seq<char>) -> bool {
    exists|i: int| 0 <= i && i + needle.len() <= hay.len() && #[trigger] hay.subrange(i, i + needle.len()) == needle
}

proof fn lemma_occurs_self(s: Seq<char>)
    ensures
        occurs_in(s, s),
{
    let z: int = 0;
    assert(s.subrange(z, z + s.len()) =~= s);
}

proof fn lemma_occurs_within(needle: Seq<char>, pre: Seq<char>, a: Seq<char>, post: Seq<char>)
    requires
        occurs_in(needle, a),
    ensures
        occurs_in(needle, pre + a + post),
{
    let i = choose|i: int| 0 <= i && i + needle.len() <= a.len() && #[trigger] a.subrange(i, i + needle.len()) == needle;
    let j = i + pre.len();
    assert((pre + a + post).subrange(j, j + needle.len()) =~= a.subrange(i, i + needle.len()));
}

proof fn lemma_link_in_links(kind: LinkKind, pages: Seq<(Seq<char>, Seq<char>)>, cur: Seq<char>, j: int)
    requires
        0 <= j < pages.len(),
    ensures
        occurs_in(link_html(kind, pages[j], cur), links_html(kind, pages, cur)),
    decreases pages.len(),
{
    let l = link_html(kind, pages[j], cur);
    let prev = links_html(kind, pages.drop_last(), cur);
    if j == pages.len() - 1 {
        lemma_occurs_self(l);
        lemma_occurs_within(l, prev, l, Seq::empty());
        assert(prev + l + Seq::<char>::empty() =~= links_html(kind, pages, cur));
    } else {
        assert(pages.drop_last()[j] == pages[j]);
        lemma_link_in_links(kind, pages.drop_last(), cur, j);
        let last = link_html(kind, pages.last(), cur);
        lemma_occurs_within(l, Seq::empty(), prev, last);
        assert(Seq::<char>::empty() + prev + last =~= links_html(kind, pages, cur));
    }
}

proof fn lemma_entry_in_side_node(n: NodeModel, cur: Seq<char>, e: (Seq<char>, Seq<char>))
    requires
        node_entries(n).count(e) > 0,
    ensures
        occurs_in(link_html(LinkKind::Side, e, cur), side_node_html(n, cur)),
    decreases n, 1nat,
{
    broadcast use vstd::multiset::group_multiset_axioms;
    broadcast use vstd::seq_lib::group_to_multiset_ensures;
    let l = link_html(LinkKind::Side, e, cur);
    let head = DETAILS_OPEN@ + (if active_below(n, cur) { OPEN_ATTR@ } else { nothing() }) + SUMMARY_OPEN@
        + html_escape(n.label) + SUMMARY_CLOSE@;
    let links = links_html(LinkKind::Side, n.pages, cur);
    let kids = side_nodes_html(n.children, cur);
    assert(side_node_html(n, cur) =~= head + links + kids + DETAILS_CLOSE@);
    if n.pages.to_multiset().count(e) > 0 {
        assert(n.pages.contains(e));
        let j = choose|j: int| 0 <= j < n.pages.len() && n.pages[j] == e;
        lemma_link_in_links(LinkKind::Side, n.pages, cur, j);
        lemma_occurs_within(l, head, links, kids + DETAILS_CLOSE@);
        assert(head + links + (kids + DETAILS_CLOSE@) =~= head + links + kids + DETAILS_CLOSE@);
    } else {
        assert(kids_entries(n.children).count(e) > 0);
        lemma_entry_in_side_nodes(n.children, cur, e);
        lemma_occurs_within(l, head + links, kids, DETAILS_CLOSE@);
    }
}

proof fn lemma_entry_in_side_nodes(cs: Seq<NodeModel>, cur: Seq<char>, e: (Seq<char>, Seq<char>))
    requires
        kids_entries(cs).count(e) > 0,
    ensures
        occurs_in(link_html(LinkKind::Side, e, cur), side_nodes_html(cs, cur)),
    decreases cs, 0nat,
{
    broadcast use vstd::multiset::group_multiset_axioms;
    let l = link_html(LinkKind::Side, e, cur);
    if cs.len() > 0 {
        let prev = side_nodes_html(cs.drop_last(), cur);
        let last = side_node_html(cs.last(), cur);
        if kids_entries(cs.drop_last()).count(e) > 0 {
            lemma_entry_in_side_nodes(cs.drop_last(), cur, e);
            lemma_occurs_within(l, Seq::empty(), prev, last);
            assert(Seq::<char>::empty() + prev + last =~= side_nodes_html(cs, cur));
        } else {
            assert(node_entries(cs.last()).count(e) > 0);
            lemma_entry_in_side_node(cs.last(), cur, e);
            lemma_occurs_within(l, prev, last, Seq::empty());
            assert(prev + last + Seq::<char>::empty() =~= side_nodes_html(cs, cur));
        }
    }
}

/// Every page can be reached from the vertical sidebar, whatever page is
/// showing: the sidebar holds a link to each page (its slug and label),
/// however deep its category sits and whether or not that category holds
/// the current page.
pub proof fn law_sidebar_links_every_page(pages: Seq<Page>, title: Seq<char>, cur: Seq<char>, j: int)
    requires
        0 <= j < pages.len(),
    ensures
        occurs_in(link_html(LinkKind::Side, nav_entry(pages[j]), cur), nav_html(pages, title, "vertical"@, cur)),
{
    broadcast use vstd::multiset::group_multiset_axioms;
    broadcast use vstd::seq_lib::group_to_multiset_ensures;
    let e = nav_entry(pages[j]);
    let l = link_html(LinkKind::Side, e, cur);
    let tree = nav_tree(pages);
    law_nav_tree_lists_each_page_once(pages);
    let es = pages.map_values(|p: Page| nav_entry(p));
    assert(es[j] == e);
    assert(es.contains(e));
    assert(node_entries(tree).count(e) > 0);
    let pre = NAV_V_OPEN@ + side_title_html(title, home_slug(pages)) + SEARCH_BOX@ + UNCAT_OPEN@;
    let links = links_html(LinkKind::Side, tree.pages, cur);
    let kids = side_nodes_html(tree.children, cur);
    assert(nav_html(pages, title, "vertical"@, cur) =~= pre + links + DIV_CLOSE@ + kids + NAV_V_CLOSE@);
    if tree.pages.to_multiset().count(e) > 0 {
        assert(tree.pages.contains(e));
        let i = choose|i: int| 0 <= i < tree.pages.len() && tree.pages[i] == e;
        lemma_link_in_links(LinkKind::Side, tree.pages, cur, i);
        lemma_occurs_within(l, pre, links, DIV_CLOSE@ + kids + NAV_V_CLOSE@);
        assert(pre + links + (DIV_CLOSE@ + kids + NAV_V_CLOSE@) =~= pre + links + DIV_CLOSE@ + kids + NAV_V_CLOSE@);
    } else {
        assert(kids_entries(tree.children).count(e) > 0);
        lemma_entry_in_side_nodes(tree.children, cur, e);
        lemma_occurs_within(l, pre + links + DIV_CLOSE@, kids, NAV_V_CLOSE@);
    }
}


proof fn lemma_entry_in_sub_menu(n: NodeModel, cur: Seq<char>, e: (Seq<char>, Seq<char>))
    requires
        node_entries(n).count(e) > 0,
    ensures
        occurs_in(link_html(LinkKind::Item, e, cur), sub_menu_html(n, cur)),
    decreases n, 1nat,
{
    broadcast use vstd::multiset::group_multiset_axioms;
    broadcast use vstd::seq_lib::group_to_multiset_ensures;
    let l = link_html(LinkKind::Item, e, cur);
    let head = SUB_OPEN@ + (if active_below(n, cur) { HAS_ACTIVE@ } else { nothing() }) + SUB_TRIGGER@
        + html_escape(n.label) + SUB_CARET@;
    let links = links_html(LinkKind::Item, n.pages, cur);
    let kids = sub_menus_html(n.children, cur);
    assert(sub_menu_html(n, cur) =~= head + links + divider_html(n) + kids + BLOCK_CLOSE@);
    if n.pages.to_multiset().count(e) > 0 {
        assert(n.pages.contains(e));
        let j = choose|j: int| 0 <= j < n.pages.len() && n.pages[j] == e;
        lemma_link_in_links(LinkKind::Item, n.pages, cur, j);
        lemma_occurs_within(l, head, links, divider_html(n) + kids + BLOCK_CLOSE@);
        assert(head + links + (divider_html(n) + kids + BLOCK_CLOSE@) =~= head + links + divider_html(n) + kids
            + BLOCK_CLOSE@);
    } else {
        assert(kids_entries(n.children).count(e) > 0);
        lemma_entry_in_sub_menus(n.children, cur, e);
        lemma_occurs_within(l, head + links + divider_html(n), kids, BLOCK_CLOSE@);
    }
}

proof fn lemma_entry_in_sub_menus(cs: Seq<NodeModel>, cur: Seq<char>, e: (Seq<char>, Seq<char>))
    requires
        kids_entries(cs).count(e) > 0,
    ensures
        occurs_in(link_html(LinkKind::Item, e, cur), sub_menus_html(cs, cur)),
    decreases cs, 0nat,
{
    broadcast use vstd::multiset::group_multiset_axioms;
    let l = link_html(LinkKind::Item, e, cur);
    if cs.len() > 0 {
        let prev = sub_menus_html(cs.drop_last(), cur);
        let last = sub_menu_html(cs.last(), cur);
        if kids_entries(cs.drop_last()).count(e) > 0 {
            lemma_entry_in_sub_menus(cs.drop_last(), cur, e);
            lemma_occurs_within(l, Seq::empty(), prev, last);
            assert(Seq::<char>::empty() + prev + last =~= sub_menus_html(cs, cur));
        } else {
            assert(node_entries(cs.last()).count(e) > 0);
            lemma_entry_in_sub_menu(cs.last(), cur, e);
            lemma_occurs_within(l, prev, last, Seq::empty());
            assert(prev + last + Seq::<char>::empty() =~= sub_menus_html(cs, cur));
        }
    }
}

proof fn lemma_entry_in_menus(cs: Seq<NodeModel>, cur: Seq<char>, e: (Seq<char>, Seq<char>))
    requires
        kids_entries(cs).count(e) > 0,
    ensures
        occurs_in(link_html(LinkKind::Item, e, cur), menus_html(cs, cur)),
    decreases cs.len(),
{
    broadcast use vstd::multiset::group_multiset_axioms;
    broadcast use vstd::seq_lib::group_to_multiset_ensures;
    let l = link_html(LinkKind::Item, e, cur);
    if cs.len() > 0 {
        let prev = menus_html(cs.drop_last(), cur);
        let n = cs.last();
        let last = menu_html(n, cur);
        if kids_entries(cs.drop_last()).count(e) > 0 {
            lemma_entry_in_menus(cs.drop_last(), cur, e);
            lemma_occurs_within(l, Seq::empty(), prev, last);
            assert(Seq::<char>::empty() + prev + last =~= menus_html(cs, cur));
        } else {
            assert(node_entries(n).count(e) > 0);
            let head = DD_OPEN@ + (if active_below(n, cur) { HAS_ACTIVE@ } else { nothing() }) + DD_TRIGGER@
                + html_escape(n.label) + DD_CARET@;
            let links = links_html(LinkKind::Item, n.pages, cur);
            let kids = sub_menus_html(n.children, cur);
            assert(last =~= head + links + divider_html(n) + kids + BLOCK_CLOSE@);
            if n.pages.to_multiset().count(e) > 0 {
                assert(n.pages.contains(e));
                let j = choose|j: int| 0 <= j < n.pages.len() && n.pages[j] == e;
                lemma_link_in_links(LinkKind::Item, n.pages, cur, j);
                lemma_occurs_within(l, head, links, divider_html(n) + kids + BLOCK_CLOSE@);
                assert(head + links + (divider_html(n) + kids + BLOCK_CLOSE@) =~= last);
            } else {
                assert(kids_entries(n.children).count(e) > 0);
                lemma_entry_in_sub_menus(n.children, cur, e);
                lemma_occurs_within(l, head + links + divider_html(n), kids, BLOCK_CLOSE@);
            }
            lemma_occurs_within(l, prev, last, Seq::empty());
            assert(prev + last + Seq::<char>::empty() =~= menus_html(cs, cur));
        }
    }
}

/// Every page can be reached from the horizontal bar too, whatever page is
/// showing: a page without a category has a tab, and every other page an
/// item in its category's drop-down, however deeply nested.
pub proof fn law_top_bar_links_every_page(pages: Seq<Page>, title: Seq<char>, style: Seq<char>, cur: Seq<char>, j: int)
    requires
        0 <= j < pages.len(),
        style != "vertical"@,
    ensures
        occurs_in(link_html(LinkKind::Tab, nav_entry(pages[j]), cur), nav_html(pages, title, style, cur))
            || occurs_in(link_html(LinkKind::Item, nav_entry(pages[j]), cur), nav_html(pages, title, style, cur)),
{
    broadcast use vstd::multiset::group_multiset_axioms;
    broadcast use vstd::seq_lib::group_to_multiset_ensures;
    let e = nav_entry(pages[j]);
    let tree = nav_tree(pages);
    law_nav_tree_lists_each_page_once(pages);
    let es = pages.map_values(|p: Page| nav_entry(p));
    assert(es[j] == e);
    assert(es.contains(e));
    assert(node_entries(tree).count(e) > 0);
    let pre = NAV_H_OPEN@ + (if title.len() > 0 { TITLE_OPEN@ + html_escape(title) + DIV_CLOSE@ } else { nothing() })
        + TABS_OPEN@;
    let tabs = links_html(LinkKind::Tab, tree.pages, cur);
    let menus = menus_html(tree.children, cur);
    assert(nav_html(pages, title, style, cur) =~= pre + tabs + menus + NAV_H_CLOSE@);
    if tree.pages.to_multiset().count(e) > 0 {
        assert(tree.pages.contains(e));
        let i = choose|i: int| 0 <= i < tree.pages.len() && tree.pages[i] == e;
        lemma_link_in_links(LinkKind::Tab, tree.pages, cur, i);
        lemma_occurs_within(link_html(LinkKind::Tab, e, cur), pre, tabs, menus + NAV_H_CLOSE@);
        assert(pre + tabs + (menus + NAV_H_CLOSE@) =~= pre + tabs + menus + NAV_H_CLOSE@);
    } else {
        assert(kids_entries(tree.children).count(e) > 0);
        lemma_entry_in_menus(tree.children, cur, e);
        lemma_occurs_within(link_html(LinkKind::Item, e, cur), pre + tabs, menus, NAV_H_CLOSE@);
    }
}

} // verus!
