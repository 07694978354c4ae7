//! Assembling one page from its parts: where the page is written, the
//! filter each chart's view applies, the real data-source ids patched into
//! the filter widgets, the document roots in the order BokehJS decodes
//! them, and the page's grid items. The chart figures themselves are built
//! apart and handed in.

use vstd::prelude::*;
use crate::chart_config::ChartSpec;
use crate::document::{BokehDocument, DocumentView, add_step};
use crate::filters::{FilterOutput, cds_placeholder, combine_filters, combined_filter, models_of, placeholder_id};
use crate::id_gen::IdGen;
use crate::model::{BokehObject, BokehValue, ModelObject};
use crate::modules_html::{ParagraphSpec, paragraph_module_html, render_paragraph_html};
use crate::pages::{Page, PageModule};
use crate::placeholder::{all_renderers, extract_first_cds_id, first_cds_id, replace_placeholder_in_obj, subst_object};
use crate::text::{str_eq, strs};

verus! {

// ── Where a page is written ──────────────────────────────────────────────────

/// The file a page is written to: `<output_dir>/<slug>.html`.
pub open spec fn page_file_text(output_dir: Seq<char>, slug: Seq<char>) -> Seq<char> {
    output_dir + "/"@ + slug + ".html"@
}

/// The path of the HTML file of the page with the given slug.
pub fn page_file_path(output_dir: &str, slug: &str) -> (r: String)
    ensures
        r@ == page_file_text(output_dir@, slug@),
{
    let mut r = String::from_str(output_dir);
    r.append("/");
    r.append(slug);
    r.append(".html");
    r
}

// ── The filter of a chart ────────────────────────────────────────────────────

/// The filter models of `outs` on the data source `key`, in order.
pub open spec fn filters_on(outs: Seq<FilterOutput>, key: Seq<char>) -> Seq<ModelObject>
    decreases outs.len(),
{
    if outs.len() == 0 {
        Seq::empty()
    } else {
        filters_on(outs.drop_last(), key) + if outs.last().source_key@ == key {
            seq![outs.last().filter_obj@]
        } else {
            Seq::<ModelObject>::empty()
        }
    }
}

fn collect_filters(outs: &[FilterOutput], key: &str, acc: &mut Vec<BokehObject>)
    ensures
        models_of(final(acc)@) == models_of(old(acc)@) + filters_on(outs@, key@),
{
    let n = outs.len();
    for i in 0..n
        invariant
            n == outs@.len(),
            models_of(acc@) == models_of(old(acc)@) + filters_on(outs@.take(i as int), key@),
    {
        let ghost before = acc@;
        proof {
            let t = outs@.take(i + 1);
            assert(t.drop_last() =~= outs@.take(i as int));
            assert(t.last() == outs@[i as int]);
        }
        if str_eq(outs[i].source_key.as_str(), key) {
            acc.push(outs[i].filter_obj.clone());
            proof {
                assert(models_of(acc@) =~= models_of(before).push(outs@[i as int].filter_obj@));
            }
        }
        proof {
            assert(models_of(acc@) =~= models_of(old(acc)@) + filters_on(outs@.take(i + 1), key@));
        }
    }
    proof {
        assert(outs@.take(n as int) =~= outs@);
    }
}

/// The filter of a chart's view: none for a chart that does not take part
/// in filtering, else the combination of every filter on the chart's data
/// source, the widget filters first, then the range tools'.
pub fn chart_filter_ref(
    id_gen: &mut IdGen,
    spec: &ChartSpec,
    cds_filters: &[FilterOutput],
    range_tools: &[FilterOutput],
) -> (r: Option<BokehValue>)
    requires
        old(id_gen).can_issue(1),
    ensures
        !spec.filtered ==> r is None && final(id_gen)@ == old(id_gen)@,
        spec.filtered ==> {
            let fs = filters_on(cds_filters@, spec.source_key@) + filters_on(range_tools@, spec.source_key@);
            &&& r matches Some(v) && v@ == combined_filter(old(id_gen)@, fs)
            &&& final(id_gen)@ == old(id_gen)@ + if fs.len() == 1 { 0int } else { 1int }
        },
{
    if !spec.filtered {
        return None;
    }
    let mut objs: Vec<BokehObject> = Vec::new();
    proof {
        assert(models_of(objs@) =~= Seq::<ModelObject>::empty());
    }
    collect_filters(cds_filters, spec.source_key.as_str(), &mut objs);
    collect_filters(range_tools, spec.source_key.as_str(), &mut objs);
    proof {
        let fs = filters_on(cds_filters@, spec.source_key@) + filters_on(range_tools@, spec.source_key@);
        assert(models_of(objs@) =~= fs);
    }
    Some(combine_filters(id_gen, objs.as_slice()))
}

// ── Real data-source ids ─────────────────────────────────────────────────────

/// The id of the first data source among a figure's renderers.
pub open spec fn fig_cds_id(o: ModelObject) -> Option<Seq<char>> {
    first_cds_id(all_renderers(o.attrs))
}

/// The data-source id the widgets on `key` are wired to: that of the first
/// chart on `key` (in page order) whose figure has a data source. `keys`
/// are the charts' source keys, `ids` their figures' first data-source ids.
pub open spec fn first_cds(keys: Seq<Seq<char>>, ids: Seq<Option<Seq<char>>>, key: Seq<char>) -> Option<Seq<char>>
    decreases keys.len(),
{
    if keys.len() == 0 {
        None
    } else {
        match first_cds(keys.drop_last(), ids.drop_last(), key) {
            Some(x) => Some(x),
            None => if keys.last() == key {
                ids[keys.len() - 1]
            } else {
                None
            },
        }
    }
}

/// The views of optional strings.
pub open spec fn opt_strs(v: Seq<Option<String>>) -> Seq<Option<Seq<char>>> {
    v.map_values(|o: Option<String>| match o {
        Some(s) => Some(s@),
        None => None,
    })
}

fn find_cds(keys: &Vec<String>, ids: &Vec<Option<String>>, key: &str) -> (r: Option<String>)
    requires
        keys@.len() == ids@.len(),
    ensures
        opt_strs(seq![r])[0] == first_cds(strs(keys@), opt_strs(ids@), key@),
{
    let n = keys.len();
    for i in 0..n
        invariant
            n == keys@.len(),
            n == ids@.len(),
            first_cds(strs(keys@.take(i as int)), opt_strs(ids@.take(i as int)), key@) is None,
    {
        proof {
            assert(strs(keys@.take(i + 1)).drop_last() =~= strs(keys@.take(i as int)));
            assert(opt_strs(ids@.take(i + 1)).drop_last() =~= opt_strs(ids@.take(i as int)));
            assert(strs(keys@.take(i + 1)).last() == keys@[i as int]@);
            assert(opt_strs(ids@.take(i + 1))[i as int] == opt_strs(ids@)[i as int]);
        }
        if str_eq(keys[i].as_str(), key) {
            match &ids[i] {
                Some(id) => {
                    let r = Some(id.clone());
                    proof {
                        let kt = strs(keys@.take(i + 1));
                        let it = opt_strs(ids@.take(i + 1));
                        assert(opt_strs(ids@)[i as int] == Some(id@));
                        assert(it[kt.len() - 1] == Some(id@));
                        assert(kt.last() == key@);
                        assert(first_cds(kt, it, key@) == Some(id@));
                        assert(strs(keys@).take(i + 1) =~= kt);
                        assert(opt_strs(ids@).take(i + 1) =~= it);
                        lemma_first_cds_prefix(strs(keys@), opt_strs(ids@), key@, i + 1);
                        assert(opt_strs(seq![r])[0] == Some(id@));
                    }
                    return r;
                },
                None => {},
            }
        }
    }
    proof {
        assert(keys@.take(n as int) =~= keys@);
        assert(ids@.take(n as int) =~= ids@);
        assert(opt_strs(seq![None::<String>])[0] == None::<Seq<char>>);
    }
    None
}

/// Once a prefix settles the lookup, the whole sequence gives the same.
proof fn lemma_first_cds_prefix(keys: Seq<Seq<char>>, ids: Seq<Option<Seq<char>>>, key: Seq<char>, i: int)
    requires
        keys.len() == ids.len(),
        0 <= i <= keys.len(),
        first_cds(keys.take(i), ids.take(i), key) is Some,
    ensures
        first_cds(keys, ids, key) == first_cds(keys.take(i), ids.take(i), key),
    decreases keys.len() - i,
{
    if i < keys.len() {
        assert(keys.take(i + 1).drop_last() =~= keys.take(i));
        assert(ids.take(i + 1).drop_last() =~= ids.take(i));
        assert(keys.take(i + 1).len() > 0);
        lemma_first_cds_prefix(keys, ids, key, i + 1);
    } else {
        assert(keys.take(i) =~= keys);
        assert(ids.take(i) =~= ids);
    }
}

/// A filter widget once its data-source placeholder is replaced by the
/// real id, when one is known.
pub open spec fn patched(w: ModelObject, key: Seq<char>, id: Option<Seq<char>>) -> ModelObject {
    match id {
        Some(r) => subst_object(w, cds_placeholder(key), r),
        None => w,
    }
}

/// The widgets of `outs`, each patched with the data-source id of its key.
pub open spec fn patched_widgets(outs: Seq<FilterOutput>, keys: Seq<Seq<char>>, ids: Seq<Option<Seq<char>>>) -> Seq<ModelObject> {
    outs.map_values(|o: FilterOutput| patched(o.widget@, o.source_key@, first_cds(keys, ids, o.source_key@)))
}

fn patch_widgets(outs: &mut Vec<FilterOutput>, keys: &Vec<String>, ids: &Vec<Option<String>>)
    requires
        keys@.len() == ids@.len(),
    ensures
        final(outs)@.len() == old(outs)@.len(),
        forall|i: int| #![trigger final(outs)@[i]] 0 <= i < final(outs)@.len() ==> {
            &&& final(outs)@[i].widget@ == patched(old(outs)@[i].widget@, old(outs)@[i].source_key@,
                first_cds(strs(keys@), opt_strs(ids@), old(outs)@[i].source_key@))
            &&& final(outs)@[i].source_key == old(outs)@[i].source_key
            &&& final(outs)@[i].switch_label == old(outs)@[i].switch_label
            &&& final(outs)@[i].filter_obj == old(outs)@[i].filter_obj
            &&& final(outs)@[i].range_tool_overview == old(outs)@[i].range_tool_overview
        },
{
    let n = outs.len();
    for i in 0..n
        invariant
            n == outs@.len(),
            outs@.len() == old(outs)@.len(),
            keys@.len() == ids@.len(),
            forall|j: int| #![trigger outs@[j]] i <= j < n ==> outs@[j] == old(outs)@[j],
            forall|j: int| #![trigger outs@[j]] 0 <= j < i ==> {
                &&& outs@[j].widget@ == patched(old(outs)@[j].widget@, old(outs)@[j].source_key@,
                    first_cds(strs(keys@), opt_strs(ids@), old(outs)@[j].source_key@))
                &&& outs@[j].source_key == old(outs)@[j].source_key
                &&& outs@[j].switch_label == old(outs)@[j].switch_label
                &&& outs@[j].filter_obj == old(outs)@[j].filter_obj
                &&& outs@[j].range_tool_overview == old(outs)@[j].range_tool_overview
            },
    {
        let found = find_cds(keys, ids, outs[i].source_key.as_str());
        match found {
            Some(real_id) => {
                let ph = placeholder_id(outs[i].source_key.as_str());
                let mut o = outs.remove(i);
                replace_placeholder_in_obj(&mut o.widget, ph.as_str(), real_id.as_str());
                outs.insert(i, o);
            },
            None => {},
        }
        proof {
            assert(outs@[i as int].source_key == old(outs)@[i as int].source_key);
        }
    }
}

// ── The page's modules ──────────────────────────────────────────────────────

/// The charts among a page's modules, in order.
pub open spec fn chart_specs(mods: Seq<PageModule>) -> Seq<ChartSpec>
    decreases mods.len(),
{
    if mods.len() == 0 {
        Seq::empty()
    } else {
        chart_specs(mods.drop_last()) + match mods.last() {
            PageModule::Chart(c) => seq![c],
            _ => Seq::<ChartSpec>::empty(),
        }
    }
}

/// The paragraph modules of a page, in order.
pub open spec fn paragraph_specs(mods: Seq<PageModule>) -> Seq<ParagraphSpec>
    decreases mods.len(),
{
    if mods.len() == 0 {
        Seq::empty()
    } else {
        paragraph_specs(mods.drop_last()) + match mods.last() {
            PageModule::Paragraph(p) => seq![p],
            _ => Seq::<ParagraphSpec>::empty(),
        }
    }
}

/// The source keys of charts.
pub open spec fn chart_keys(cs: Seq<ChartSpec>) -> Seq<Seq<char>> {
    cs.map_values(|c: ChartSpec| c.source_key@)
}

/// The first data-source ids of figures.
pub open spec fn figure_cds_ids(figs: Seq<BokehObject>) -> Seq<Option<Seq<char>>> {
    figs.map_values(|f: BokehObject| fig_cds_id(f@))
}

fn chart_keys_ids(page: &Page, figures: &Vec<BokehObject>) -> (r: (Vec<String>, Vec<Option<String>>))
    requires
        figures@.len() == chart_specs(page.modules@).len(),
    ensures
        strs(r.0@) == chart_keys(chart_specs(page.modules@)),
        opt_strs(r.1@) == figure_cds_ids(figures@),
        r.0@.len() == r.1@.len(),
{
    let mut keys: Vec<String> = Vec::new();
    let mut ids: Vec<Option<String>> = Vec::new();
    let mut fi: usize = 0;
    let n = page.modules.len();
    let nf = figures.len();
    for i in 0..n
        invariant
            n == page.modules@.len(),
            nf == figures@.len(),
            figures@.len() == chart_specs(page.modules@).len(),
            fi == chart_specs(page.modules@.take(i as int)).len(),
            fi <= figures@.len(),
            strs(keys@) == chart_keys(chart_specs(page.modules@.take(i as int))),
            opt_strs(ids@) == figure_cds_ids(figures@.take(fi as int)),
    {
        proof {
            let t = page.modules@.take(i + 1);
            assert(t.drop_last() =~= page.modules@.take(i as int));
            assert(t.last() == page.modules@[i as int]);
            lemma_chart_specs_prefix_len(page.modules@, i + 1);
        }
        match &page.modules[i] {
            PageModule::Chart(c) => {
                proof {
                    assert(chart_specs(page.modules@.take(i + 1)) =~= chart_specs(page.modules@.take(i as int)).push(*c));
                }
                let id = extract_first_cds_id(&figures[fi]);
                let ghost k0 = keys@;
                let ghost i0 = ids@;
                keys.push(c.source_key.clone());
                ids.push(id);
                proof {
                    assert(strs(keys@) =~= strs(k0).push(c.source_key@));
                    assert(chart_keys(chart_specs(page.modules@.take(i + 1))) =~= chart_keys(
                        chart_specs(page.modules@.take(i as int)),
                    ).push(c.source_key@));
                    assert(figures@.take(fi + 1) =~= figures@.take(fi as int).push(figures@[fi as int]));
                    assert(opt_strs(ids@) =~= opt_strs(i0).push(fig_cds_id(figures@[fi as int]@)));
                    assert(figure_cds_ids(figures@.take(fi + 1)) =~= figure_cds_ids(figures@.take(fi as int)).push(
                        fig_cds_id(figures@[fi as int]@),
                    ));
                }
                fi = fi + 1;
            },
            _ => {
                proof {
                    assert(chart_specs(page.modules@.take(i + 1)) =~= chart_specs(page.modules@.take(i as int)));
                }
            },
        }
    }
    proof {
        assert(page.modules@.take(n as int) =~= page.modules@);
        assert(figures@.take(fi as int) =~= figures@);
    }
    (keys, ids)
}

proof fn lemma_chart_specs_prefix_len(mods: Seq<PageModule>, i: int)
    requires
        0 <= i <= mods.len(),
    ensures
        chart_specs(mods.take(i)).len() <= chart_specs(mods).len(),
    decreases mods.len() - i,
{
    if i < mods.len() {
        lemma_chart_specs_prefix_len(mods, i + 1);
        assert(mods.take(i + 1).drop_last() =~= mods.take(i));
    } else {
        assert(mods.take(i) =~= mods);
    }
}

// ── Document roots ───────────────────────────────────────────────────────────

/// The widgets of filter outputs.
pub open spec fn widget_models(outs: Seq<FilterOutput>) -> Seq<ModelObject> {
    outs.map_values(|o: FilterOutput| o.widget@)
}

/// The overview figures of range-tool outputs that have one, in order.
pub open spec fn overview_models(outs: Seq<FilterOutput>) -> Seq<ModelObject>
    decreases outs.len(),
{
    if outs.len() == 0 {
        Seq::empty()
    } else {
        overview_models(outs.drop_last()) + match outs.last().range_tool_overview {
            Some(o) => seq![o@],
            None => Seq::<ModelObject>::empty(),
        }
    }
}

/// `(root id, div id)` pairs of models and their div ids.
pub open spec fn div_pairs(objs: Seq<ModelObject>, divs: Seq<Seq<char>>) -> Seq<(Seq<char>, Seq<char>)> {
    Seq::new(objs.len(), |i: int| (objs[i].id, divs[i]))
}

proof fn lemma_div_pairs_push(objs: Seq<ModelObject>, divs: Seq<Seq<char>>, o: ModelObject, d: Seq<char>)
    requires
        objs.len() == divs.len(),
    ensures
        div_pairs(objs.push(o), divs.push(d)) == div_pairs(objs, divs).push((o.id, d)),
{
    assert(div_pairs(objs.push(o), divs.push(d)) =~= div_pairs(objs, divs).push((o.id, d)));
}

fn add_roots(doc: &mut BokehDocument, objs: &Vec<BokehObject>, hidden: bool) -> (divs: Vec<String>)
    ensures
        divs@.len() == objs@.len(),
        final(doc)@.doc_id == old(doc)@.doc_id,
        final(doc)@.roots == old(doc)@.roots + models_of(objs@),
        final(doc)@.divs == old(doc)@.divs + div_pairs(models_of(objs@), strs(divs@)),
        old(doc)@.divs_align() ==> final(doc)@.divs_align(),
{
    let mut divs: Vec<String> = Vec::new();
    let n = objs.len();
    for i in 0..n
        invariant
            n == objs@.len(),
            divs@.len() == i,
            doc@.doc_id == old(doc)@.doc_id,
            doc@.roots == old(doc)@.roots + models_of(objs@.take(i as int)),
            doc@.divs == old(doc)@.divs + div_pairs(models_of(objs@.take(i as int)), strs(divs@)),
            old(doc)@.divs_align() ==> doc@.divs_align(),
    {
        let ghost d0 = divs@;
        let o = objs[i].clone();
        let d = if hidden { doc.add_hidden_root(o) } else { doc.add_root(o) };
        proof {
            let m = models_of(objs@.take(i as int));
            assert(models_of(objs@.take(i + 1)) =~= m.push(objs@[i as int]@));
            lemma_div_pairs_push(m, strs(d0), objs@[i as int]@, d@);
        }
        divs.push(d);
        proof {
            assert(strs(divs@) =~= strs(d0).push(d@));
        }
    }
    proof {
        assert(objs@.take(n as int) =~= objs@);
    }
    divs
}

fn widgets_of(outs: &Vec<FilterOutput>) -> (r: Vec<BokehObject>)
    ensures
        models_of(r@) == widget_models(outs@),
{
    let mut r: Vec<BokehObject> = Vec::new();
    let n = outs.len();
    for i in 0..n
        invariant
            n == outs@.len(),
            models_of(r@) == widget_models(outs@.take(i as int)),
    {
        let ghost r0 = r@;
        r.push(outs[i].widget.clone());
        proof {
            assert(models_of(r@) =~= models_of(r0).push(outs@[i as int].widget@));
            assert(widget_models(outs@.take(i + 1)) =~= widget_models(outs@.take(i as int)).push(outs@[i as int].widget@));
        }
    }
    proof {
        assert(outs@.take(n as int) =~= outs@);
    }
    r
}

fn overviews_of(outs: &Vec<FilterOutput>) -> (r: Vec<BokehObject>)
    ensures
        models_of(r@) == overview_models(outs@),
{
    let mut r: Vec<BokehObject> = Vec::new();
    let n = outs.len();
    for i in 0..n
        invariant
            n == outs@.len(),
            models_of(r@) == overview_models(outs@.take(i as int)),
    {
        let ghost r0 = r@;
        proof {
            let t = outs@.take(i + 1);
            assert(t.drop_last() =~= outs@.take(i as int));
            assert(t.last() == outs@[i as int]);
        }
        match &outs[i].range_tool_overview {
            Some(o) => {
                r.push(o.clone());
                proof {
                    assert(models_of(r@) =~= models_of(r0).push(o@));
                }
            },
            None => {
                proof {
                    assert(overview_models(outs@.take(i + 1)) =~= overview_models(outs@.take(i as int)));
                }
            },
        }
    }
    proof {
        assert(outs@.take(n as int) =~= outs@);
    }
    r
}

// ── The assembled page ──────────────────────────────────────────────────────

/// One cell of the page grid, at 1-based row and column.
pub struct GridItem {
    pub grid_row: usize,
    pub grid_col: usize,
    pub grid_col_span: usize,
    pub title: String,
    /// The cell's HTML: a chart's div, or a text module's markup.
    pub content: String,
    pub is_chart: bool,
}

/// A filter widget's div and the label shown beside it.
pub struct FilterWidgetItem {
    pub div: String,
    pub label: Option<String>,
}

/// What a page is rendered from: its document, its grid cells (charts,
/// then text modules), its filter widgets and its range-tool overviews.
pub struct PageAssembly {
    pub doc: BokehDocument,
    pub grid_items: Vec<GridItem>,
    pub filter_items: Vec<FilterWidgetItem>,
    pub overview_divs: Vec<String>,
}

/// The empty div a root is rendered into.
pub open spec fn div_html(id: Seq<char>) -> Seq<char> {
    "<div id=\""@ + id + "\"></div>"@
}

/// The grid cell of a chart rendered into the div `div`.
pub open spec fn chart_item_ok(it: GridItem, c: ChartSpec, div: Seq<char>) -> bool {
    &&& it.grid_row == c.grid.row + 1
    &&& it.grid_col == c.grid.col + 1
    &&& it.grid_col_span == c.grid.col_span
    &&& it.title@ == c.title@
    &&& it.content@ == div_html(div)
    &&& it.is_chart
}

/// The grid cell of a paragraph module.
pub open spec fn paragraph_item_ok(it: GridItem, p: ParagraphSpec) -> bool {
    &&& it.grid_row == p.grid.row + 1
    &&& it.grid_col == p.grid.col + 1
    &&& it.grid_col_span == p.grid.col_span
    &&& it.title@ == match p.title {
        Some(t) => t@,
        None => Seq::<char>::empty(),
    }
    &&& it.content@ == paragraph_module_html(p.text@)
    &&& !it.is_chart
}

/// Whether every grid position of the page's charts and paragraphs can be
/// made 1-based.
pub open spec fn grid_fits(page: Page) -> bool {
    &&& forall|i: int| 0 <= i < chart_specs(page.modules@).len() ==> {
        let c = #[trigger] chart_specs(page.modules@)[i];
        c.grid.row < usize::MAX && c.grid.col < usize::MAX
    }
    &&& forall|i: int| 0 <= i < paragraph_specs(page.modules@).len() ==> {
        let p = #[trigger] paragraph_specs(page.modules@)[i];
        p.grid.row < usize::MAX && p.grid.col < usize::MAX
    }
}

fn push_chart_items(page: &Page, chart_divs: &Vec<String>, items: &mut Vec<GridItem>)
    requires
        grid_fits(*page),
        chart_divs@.len() == chart_specs(page.modules@).len(),
        old(items)@.len() == 0,
    ensures
        final(items)@.len() == chart_specs(page.modules@).len(),
        forall|i: int| 0 <= i < final(items)@.len() ==> chart_item_ok(#[trigger] final(items)@[i],
            chart_specs(page.modules@)[i], chart_divs@[i]@),
{
    let n = page.modules.len();
    let mut ci: usize = 0;
    let nd = chart_divs.len();
    for i in 0..n
        invariant
            n == page.modules@.len(),
            nd == chart_divs@.len(),
            grid_fits(*page),
            chart_divs@.len() == chart_specs(page.modules@).len(),
            ci == chart_specs(page.modules@.take(i as int)).len(),
            items@.len() == ci,
            forall|j: int| 0 <= j < ci ==> chart_item_ok(#[trigger] items@[j],
                chart_specs(page.modules@.take(i as int))[j], chart_divs@[j]@),
    {
        proof {
            let t = page.modules@.take(i + 1);
            assert(t.drop_last() =~= page.modules@.take(i as int));
            assert(t.last() == page.modules@[i as int]);
            lemma_chart_specs_prefix_len(page.modules@, i + 1);
            lemma_chart_specs_prefix(page.modules@, i + 1);
        }
        match &page.modules[i] {
            PageModule::Chart(c) => {
                proof {
                    assert(chart_specs(page.modules@.take(i + 1)) =~= chart_specs(page.modules@.take(i as int)).push(*c));
                    let b = chart_specs(page.modules@.take(i + 1));
                    assert(b.len() == ci + 1);
                    assert(b == chart_specs(page.modules@).take(ci + 1));
                    assert(b[ci as int] == *c);
                    assert(chart_specs(page.modules@).take(ci + 1)[ci as int] == chart_specs(page.modules@)[ci as int]);
                    assert(chart_specs(page.modules@)[ci as int] == *c);
                }
                let mut content = String::from_str("<div id=\"");
                content.append(chart_divs[ci].as_str());
                content.append("\"></div>");
                let ghost i0 = items@;
                items.push(GridItem {
                    grid_row: c.grid.row + 1,
                    grid_col: c.grid.col + 1,
                    grid_col_span: c.grid.col_span,
                    title: c.title.clone(),
                    content,
                    is_chart: true,
                });
                proof {
                    assert forall|j: int| 0 <= j < ci + 1 implies chart_item_ok(#[trigger] items@[j],
                        chart_specs(page.modules@.take(i + 1))[j], chart_divs@[j]@) by {
                        if j < ci {
                            assert(items@[j] == i0[j]);
                        }
                    }
                }
                ci = ci + 1;
            },
            _ => {
                proof {
                    assert(chart_specs(page.modules@.take(i + 1)) =~= chart_specs(page.modules@.take(i as int)));
                }
            },
        }
    }
    proof {
        assert(page.modules@.take(n as int) =~= page.modules@);
    }
}

/// The charts of a prefix of the modules are a prefix of all the charts.
proof fn lemma_chart_specs_prefix(mods: Seq<PageModule>, i: int)
    requires
        0 <= i <= mods.len(),
    ensures
        chart_specs(mods.take(i)) == chart_specs(mods).take(chart_specs(mods.take(i)).len() as int),
    decreases mods.len() - i,
{
    if i < mods.len() {
        lemma_chart_specs_prefix(mods, i + 1);
        let t = mods.take(i + 1);
        assert(t.drop_last() =~= mods.take(i));
        let a = chart_specs(mods.take(i));
        let b = chart_specs(t);
        let all = chart_specs(mods);
        lemma_chart_specs_prefix_len(mods, i + 1);
        assert(b.len() >= a.len());
        assert(b.take(a.len() as int) =~= a);
        assert(all.take(a.len() as int) =~= all.take(b.len() as int).take(a.len() as int));
    } else {
        assert(mods.take(i) =~= mods);
        let a = chart_specs(mods);
        assert(a.take(a.len() as int) =~= a);
    }
}

proof fn lemma_paragraph_specs_prefix_len(mods: Seq<PageModule>, i: int)
    requires
        0 <= i <= mods.len(),
    ensures
        paragraph_specs(mods.take(i)).len() <= paragraph_specs(mods).len(),
    decreases mods.len() - i,
{
    if i < mods.len() {
        lemma_paragraph_specs_prefix_len(mods, i + 1);
        assert(mods.take(i + 1).drop_last() =~= mods.take(i));
    } else {
        assert(mods.take(i) =~= mods);
    }
}

proof fn lemma_paragraph_specs_prefix(mods: Seq<PageModule>, i: int)
    requires
        0 <= i <= mods.len(),
    ensures
        paragraph_specs(mods.take(i)) == paragraph_specs(mods).take(paragraph_specs(mods.take(i)).len() as int),
    decreases mods.len() - i,
{
    if i < mods.len() {
        lemma_paragraph_specs_prefix(mods, i + 1);
        let t = mods.take(i + 1);
        assert(t.drop_last() =~= mods.take(i));
        let a = paragraph_specs(mods.take(i));
        let b = paragraph_specs(t);
        let all = paragraph_specs(mods);
        lemma_paragraph_specs_prefix_len(mods, i + 1);
        assert(b.len() >= a.len());
        assert(b.take(a.len() as int) =~= a);
        assert(all.take(a.len() as int) =~= all.take(b.len() as int).take(a.len() as int));
    } else {
        assert(mods.take(i) =~= mods);
        let a = paragraph_specs(mods);
        assert(a.take(a.len() as int) =~= a);
    }
}

fn push_paragraph_items(page: &Page, items: &mut Vec<GridItem>)
    requires
        grid_fits(*page),
    ensures
        final(items)@.len() == old(items)@.len() + paragraph_specs(page.modules@).len(),
        forall|i: int| 0 <= i < old(items)@.len() ==> #[trigger] final(items)@[i] == old(items)@[i],
        forall|j: int| 0 <= j < paragraph_specs(page.modules@).len() ==> paragraph_item_ok(
            #[trigger] final(items)@[old(items)@.len() + j],
            paragraph_specs(page.modules@)[j],
        ),
{
    let n = page.modules.len();
    let ghost base = old(items)@.len();
    let mut pi: usize = 0;
    for i in 0..n
        invariant
            n == page.modules@.len(),
            grid_fits(*page),
            base == old(items)@.len(),
            pi == paragraph_specs(page.modules@.take(i as int)).len(),
            items@.len() == base + pi,
            forall|k: int| 0 <= k < base ==> #[trigger] items@[k] == old(items)@[k],
            forall|j: int| 0 <= j < pi ==> paragraph_item_ok(#[trigger] items@[base + j],
                paragraph_specs(page.modules@.take(i as int))[j]),
    {
        proof {
            let t = page.modules@.take(i + 1);
            assert(t.drop_last() =~= page.modules@.take(i as int));
            assert(t.last() == page.modules@[i as int]);
            lemma_paragraph_specs_prefix_len(page.modules@, i + 1);
            lemma_paragraph_specs_prefix(page.modules@, i + 1);
        }
        match &page.modules[i] {
            PageModule::Paragraph(p) => {
                proof {
                    assert(paragraph_specs(page.modules@.take(i + 1)) =~= paragraph_specs(page.modules@.take(i as int)).push(*p));
                    let b = paragraph_specs(page.modules@.take(i + 1));
                    assert(b == paragraph_specs(page.modules@).take(pi + 1));
                    assert(b[pi as int] == *p);
                    assert(paragraph_specs(page.modules@).take(pi + 1)[pi as int] == paragraph_specs(page.modules@)[pi as int]);
                }
                let content = render_paragraph_html(p);
                let title = match &p.title {
                    Some(t) => t.clone(),
                    None => String::new(),
                };
                let ghost i0 = items@;
                items.push(GridItem {
                    grid_row: p.grid.row + 1,
                    grid_col: p.grid.col + 1,
                    grid_col_span: p.grid.col_span,
                    title,
                    content,
                    is_chart: false,
                });
                proof {
                    assert forall|j: int| 0 <= j < pi + 1 implies paragraph_item_ok(#[trigger] items@[base + j],
                        paragraph_specs(page.modules@.take(i + 1))[j]) by {
                        if j < pi {
                            assert(items@[base + j] == i0[base + j]);
                        }
                    }
                    assert forall|k: int| 0 <= k < base implies #[trigger] items@[k] == old(items)@[k] by {
                        assert(items@[k] == i0[k]);
                    }
                }
                let l = items.len();
                assert(pi + 1 <= l);
                pi = pi + 1;
            },
            _ => {
                proof {
                    assert(paragraph_specs(page.modules@.take(i + 1)) =~= paragraph_specs(page.modules@.take(i as int)));
                }
            },
        }
    }
    proof {
        assert(page.modules@.take(n as int) =~= page.modules@);
    }
}

/// The view of an optional string.
pub open spec fn opt_str(o: Option<String>) -> Option<Seq<char>> {
    match o {
        Some(s) => Some(s@),
        None => None,
    }
}

/// The roots of an assembled page, in decoding order: the range tools'
/// shared ranges, the charts, the range tools' overviews, then the filter
/// widgets, every widget patched with its data source's real id.
pub open spec fn page_roots(page: Page, cds: Seq<FilterOutput>, rts: Seq<FilterOutput>, figs: Seq<BokehObject>) -> Seq<ModelObject> {
    let keys = chart_keys(chart_specs(page.modules@));
    let ids = figure_cds_ids(figs);
    patched_widgets(rts, keys, ids) + models_of(figs) + overview_models(rts) + patched_widgets(cds, keys, ids)
}

proof fn lemma_overview_models_eq(a: Seq<FilterOutput>, b: Seq<FilterOutput>)
    requires
        a.len() == b.len(),
        forall|i: int| 0 <= i < a.len() ==> #[trigger] a[i].range_tool_overview == b[i].range_tool_overview,
    ensures
        overview_models(a) == overview_models(b),
    decreases a.len(),
{
    if a.len() > 0 {
        assert forall|i: int| 0 <= i < a.drop_last().len() implies #[trigger] a.drop_last()[i].range_tool_overview
            == b.drop_last()[i].range_tool_overview by {
            assert(a[i].range_tool_overview == b[i].range_tool_overview);
        }
        lemma_overview_models_eq(a.drop_last(), b.drop_last());
        assert(a.last().range_tool_overview == b[b.len() - 1].range_tool_overview);
    }
}

fn filter_items_of(cds: &Vec<FilterOutput>, divs: &Vec<String>) -> (r: Vec<FilterWidgetItem>)
    requires
        divs@.len() == cds@.len(),
    ensures
        r@.len() == cds@.len(),
        forall|i: int| 0 <= i < r@.len() ==> (#[trigger] r@[i]).div@ == div_html(divs@[i]@)
            && opt_str(r@[i].label) == opt_str(cds@[i].switch_label),
{
    let mut r: Vec<FilterWidgetItem> = Vec::new();
    let n = cds.len();
    for i in 0..n
        invariant
            n == cds@.len(),
            divs@.len() == n,
            r@.len() == i,
            forall|j: int| 0 <= j < i ==> (#[trigger] r@[j]).div@ == div_html(divs@[j]@)
                && opt_str(r@[j].label) == opt_str(cds@[j].switch_label),
    {
        let mut div = String::from_str("<div id=\"");
        div.append(divs[i].as_str());
        div.append("\"></div>");
        let label = match &cds[i].switch_label {
            Some(l) => Some(l.clone()),
            None => None,
        };
        r.push(FilterWidgetItem { div, label });
    }
    r
}

fn div_htmls(divs: &Vec<String>) -> (r: Vec<String>)
    ensures
        r@.len() == divs@.len(),
        forall|i: int| 0 <= i < r@.len() ==> (#[trigger] r@[i])@ == div_html(divs@[i]@),
{
    let mut r: Vec<String> = Vec::new();
    let n = divs.len();
    for i in 0..n
        invariant
            n == divs@.len(),
            r@.len() == i,
            forall|j: int| 0 <= j < i ==> (#[trigger] r@[j])@ == div_html(divs@[j]@),
    {
        let mut div = String::from_str("<div id=\"");
        div.append(divs[i].as_str());
        div.append("\"></div>");
        r.push(div);
    }
    r
}


// ── Grid order ───────────────────────────────────────────────────────────────

/// Whether `a` sits at or before `b` in the grid: by row, then column.
pub open spec fn at_or_before(a: GridItem, b: GridItem) -> bool {
    a.grid_row < b.grid_row || (a.grid_row == b.grid_row && a.grid_col <= b.grid_col)
}

/// `s` with `x` placed after the last item that sits at or before it.
pub open spec fn insert_by_position(s: Seq<GridItem>, x: GridItem) -> Seq<GridItem>
    decreases s.len(),
{
    if s.len() == 0 {
        seq![x]
    } else if at_or_before(s.last(), x) {
        s.push(x)
    } else {
        insert_by_position(s.drop_last(), x).push(s.last())
    }
}

/// `s` sorted by grid position, items at the same position keeping their
/// order (a stable sort by `(row, column)`).
pub open spec fn sort_by_position(s: Seq<GridItem>) -> Seq<GridItem>
    decreases s.len(),
{
    if s.len() == 0 {
        Seq::empty()
    } else {
        insert_by_position(sort_by_position(s.drop_last()), s.last())
    }
}

proof fn lemma_insert_at(s: Seq<GridItem>, x: GridItem, q: int)
    requires
        0 <= q <= s.len(),
        forall|j: int| q <= j < s.len() ==> !at_or_before(#[trigger] s[j], x),
        q > 0 ==> at_or_before(s[q - 1], x),
    ensures
        insert_by_position(s, x) == s.take(q) + seq![x] + s.skip(q),
    decreases s.len(),
{
    if s.len() == 0 {
        assert(s.take(q) + seq![x] + s.skip(q) =~= seq![x]);
    } else if q == s.len() {
        assert(s.take(q) + seq![x] + s.skip(q) =~= s.push(x));
    } else {
        assert(!at_or_before(s[s.len() - 1], x));
        let d = s.drop_last();
        assert forall|j: int| q <= j < d.len() implies !at_or_before(#[trigger] d[j], x) by {
            assert(d[j] == s[j]);
        }
        if q > 0 {
            assert(d[q - 1] == s[q - 1]);
        }
        lemma_insert_at(d, x, q);
        assert(d.take(q) + seq![x] + d.skip(q) + seq![s.last()] =~= s.take(q) + seq![x] + s.skip(q));
    }
}

fn before_or_at(a: &GridItem, b: &GridItem) -> (r: bool)
    ensures
        r == at_or_before(*a, *b),
{
    a.grid_row < b.grid_row || (a.grid_row == b.grid_row && a.grid_col <= b.grid_col)
}

fn sort_items(items: Vec<GridItem>) -> (r: Vec<GridItem>)
    ensures
        r@ == sort_by_position(items@),
{
    let ghost all = items@;
    let mut src = items;
    let mut out: Vec<GridItem> = Vec::new();
    let mut k: usize = 0;
    let n = src.len();
    proof {
        assert(all.skip(0) =~= all);
        assert(sort_by_position(all.take(0)) =~= Seq::<GridItem>::empty());
    }
    while src.len() > 0
        invariant
            n == all.len(),
            k <= n,
            src@ == all.skip(k as int),
            out@ == sort_by_position(all.take(k as int)),
        decreases src@.len(),
    {
        let x = src.remove(0);
        proof {
            assert(x == all[k as int]);
            assert(src@ =~= all.skip(k + 1));
        }
        let mut p = out.len();
        while p > 0 && !before_or_at(&out[p - 1], &x)
            invariant
                p <= out@.len(),
                forall|j: int| p <= j < out@.len() ==> !at_or_before(#[trigger] out@[j], x),
            decreases p,
        {
            p = p - 1;
        }
        proof {
            lemma_insert_at(out@, x, p as int);
            assert(all.take(k + 1).drop_last() =~= all.take(k as int));
            assert(all.take(k + 1).last() == x);
        }
        let ghost o0 = out@;
        out.insert(p, x);
        proof {
            assert(out@ =~= o0.take(p as int) + seq![x] + o0.skip(p as int));
        }
        k = k + 1;
    }
    proof {
        assert(all.take(k as int) =~= all);
    }
    out
}

/// Assemble a page from its built parts: the widget and range-tool filter
/// outputs and the figures of its charts, in page order. Every widget's
/// data-source placeholder is replaced by the id of the first chart figure
/// on that source; the document's roots come in decoding order (see
/// [`page_roots`]: a chart's data source must be decoded before a widget
/// refers to it); and the grid holds the charts, then the paragraph
/// modules, at 1-based positions, then sorted by position (row, then
/// column), items at the same position keeping that order.
pub fn assemble_page(
    page: &Page,
    cds_filters: Vec<FilterOutput>,
    range_tools: Vec<FilterOutput>,
    figures: Vec<BokehObject>,
) -> (r: PageAssembly)
    requires
        figures@.len() == chart_specs(page.modules@).len(),
        grid_fits(*page),
    ensures
        r.doc@.roots == page_roots(*page, cds_filters@, range_tools@, figures@),
        r.doc@.divs_align(),
        exists|u: Seq<GridItem>| {
            &&& #[trigger] sort_by_position(u) == r.grid_items@
            &&& u.len() == figures@.len() + paragraph_specs(page.modules@).len()
            &&& forall|i: int| 0 <= i < figures@.len() ==> chart_item_ok(#[trigger] u[i],
                chart_specs(page.modules@)[i], r.doc@.divs[range_tools@.len() + i].1)
            &&& forall|j: int| 0 <= j < paragraph_specs(page.modules@).len() ==> paragraph_item_ok(
                #[trigger] u[figures@.len() + j], paragraph_specs(page.modules@)[j])
        },
        r.overview_divs@.len() == overview_models(range_tools@).len(),
        forall|i: int| 0 <= i < r.overview_divs@.len() ==> (#[trigger] r.overview_divs@[i])@ == div_html(
            r.doc@.divs[range_tools@.len() + figures@.len() + i].1),
        r.filter_items@.len() == cds_filters@.len(),
        forall|i: int| 0 <= i < r.filter_items@.len() ==> (#[trigger] r.filter_items@[i]).div@ == div_html(
            r.doc@.divs[range_tools@.len() + figures@.len() + overview_models(range_tools@).len() + i].1)
            && opt_str(r.filter_items@[i].label) == opt_str(cds_filters@[i].switch_label),
{
    let ghost keys = chart_keys(chart_specs(page.modules@));
    let ghost ids = figure_cds_ids(figures@);
    let (ks, is) = chart_keys_ids(page, &figures);
    let mut cds = cds_filters;
    patch_widgets(&mut cds, &ks, &is);
    let mut rts = range_tools;
    patch_widgets(&mut rts, &ks, &is);
    let rw = widgets_of(&rts);
    let ov = overviews_of(&rts);
    let cw = widgets_of(&cds);
    proof {
        assert(models_of(rw@) =~= patched_widgets(range_tools@, keys, ids));
        assert(models_of(cw@) =~= patched_widgets(cds_filters@, keys, ids));
        lemma_overview_models_eq(rts@, range_tools@);
    }
    let mut doc = BokehDocument::new();
    let ghost d_empty = doc@;
    let rt_divs = add_roots(&mut doc, &rw, true);
    let ghost d1 = doc@;
    let chart_divs = add_roots(&mut doc, &figures, false);
    let ghost d2 = doc@;
    let ov_divs = add_roots(&mut doc, &ov, false);
    let ghost d3 = doc@;
    let cds_divs = add_roots(&mut doc, &cw, false);
    let mut items: Vec<GridItem> = Vec::new();
    push_chart_items(page, &chart_divs, &mut items);
    let ghost ci = items@;
    push_paragraph_items(page, &mut items);
    let filter_items = filter_items_of(&cds, &cds_divs);
    let overview_divs = div_htmls(&ov_divs);
    let ghost unsorted = items@;
    let items = sort_items(items);
    proof {
        let nr = range_tools@.len() as int;
        let nc = figures@.len() as int;
        let no = overview_models(range_tools@).len() as int;
        assert(doc@.roots =~= page_roots(*page, cds_filters@, range_tools@, figures@));
        assert(d1.divs.len() == nr);
        assert(d2.divs.len() == nr + nc);
        assert(d3.divs.len() == nr + nc + no);
        assert forall|i: int| 0 <= i < nc implies chart_item_ok(#[trigger] unsorted[i],
            chart_specs(page.modules@)[i], doc@.divs[nr + i].1) by {
            assert(unsorted[i] == ci[i]);
            assert(doc@.divs[nr + i] == d2.divs[nr + i]);
            assert(d2.divs[nr + i] == div_pairs(models_of(figures@), strs(chart_divs@))[i]);
        }
        assert forall|i: int| 0 <= i < no implies (#[trigger] overview_divs@[i])@ == div_html(doc@.divs[nr + nc + i].1) by {
            assert(doc@.divs[nr + nc + i] == d3.divs[nr + nc + i]);
            assert(d3.divs[nr + nc + i] == div_pairs(models_of(ov@), strs(ov_divs@))[i]);
        }
        assert forall|i: int| 0 <= i < cds_filters@.len() implies (#[trigger] filter_items@[i]).div@ == div_html(
            doc@.divs[nr + nc + no + i].1) && opt_str(filter_items@[i].label) == opt_str(cds_filters@[i].switch_label) by {
            assert(doc@.divs[nr + nc + no + i] == div_pairs(models_of(cw@), strs(cds_divs@))[i]);
            assert(cds@[i].switch_label == cds_filters@[i].switch_label);
        }
    }
    proof {
        assert(sort_by_position(unsorted) == items@);
    }
    PageAssembly { doc, grid_items: items, filter_items, overview_divs }
}

} // verus!
