//! A Bokeh document: the root models of one page, the HTML div each is
//! rendered into, and the JSON text handed to BokehJS.

use vstd::prelude::*;
use crate::doc_verify::{VerifyReport, dup_view, law_no_roots_is_ok, law_report_is_determined_by_roots, report_describes, verify_document};
use crate::id_gen::{IdGen, id_for};
use crate::json_text::{escape_for_js_single_quotes, js_single_quote_escape, json_quote, json_string};
use crate::model::{BokehObject, ModelObject, mobj, mval};
use crate::order::str_pairs;
use crate::text::{join_strings, seq_join, strs};

verus! {

// ── Div ids ──────────────────────────────────────────────────────────────────

/// Whether `c` is a lowercase hexadecimal digit.
pub open spec fn is_lower_hex(c: char) -> bool {
    (48 <= (c as u32) && (c as u32) <= 57) || (97 <= (c as u32) && (c as u32) <= 102)
}

/// Whether `s` is a random (version 4) UUID in its hyphenated lowercase
/// text form: 36 characters, hyphens at 8, 13, 18 and 23, lowercase hex
/// digits elsewhere, version digit `4` and variant digit `8`..`b`.
pub open spec fn is_v4_uuid_text(s: Seq<char>) -> bool {
    &&& s.len() == 36
    &&& forall|i: int| 0 <= i < 36 ==> (if i == 8 || i == 13 || i == 18 || i == 23 {
        #[trigger] s[i] == '-'
    } else {
        is_lower_hex(s[i])
    })
    &&& s[14] == '4'
    &&& (s[19] == '8' || s[19] == '9' || s[19] == 'a' || s[19] == 'b')
}

/// A fresh random UUID as text; calls `uuid::Uuid::new_v4` and its
/// `to_string`. `new_v4` sets the version nibble to 4 and the variant bits
/// to `10`, and the `Display` impl writes the hyphenated lowercase form.
/// The contract claims only that shape: the value is random. `new_v4`
/// panics when the operating system cannot supply random bytes.
#[verifier::external_body]
fn new_uuid_text() -> (s: String)
    ensures
        is_v4_uuid_text(s@),
{
    uuid::Uuid::new_v4().to_string()
}

// ── The document ─────────────────────────────────────────────────────────────

/// The mathematical value of a document.
pub struct DocumentView {
    /// The document id.
    pub doc_id: Seq<char>,
    /// The root models, in the order they were added.
    pub roots: Seq<ModelObject>,
    /// `(root model id, div id)` for each root, in the same order.
    pub divs: Seq<(Seq<char>, Seq<char>)>,
}

impl DocumentView {
    /// Every root is paired, index by index, with a div under its own id.
    pub open spec fn divs_align(self) -> bool {
        &&& self.divs.len() == self.roots.len()
        &&& forall|i: int| 0 <= i < self.roots.len() ==> #[trigger] self.divs[i].0 == self.roots[i].id
    }
}

/// The models of a list of objects.
pub open spec fn objects_models(s: Seq<BokehObject>) -> Seq<ModelObject> {
    s.map_values(|o: BokehObject| o@)
}

/// The views of a list of owned string pairs.
pub open spec fn owned_pairs(v: Seq<(String, String)>) -> Seq<(Seq<char>, Seq<char>)> {
    v.map_values(|p: (String, String)| (p.0@, p.1@))
}

/// A Bokeh document containing all model roots for one page.
pub struct BokehDocument {
    doc_id: String,
    roots: Vec<BokehObject>,
    /// Root model id and HTML div id of each root, in root order.
    root_div_map: Vec<(String, String)>,
}

impl View for BokehDocument {
    type V = DocumentView;

    closed spec fn view(&self) -> DocumentView {
        DocumentView {
            doc_id: self.doc_id@,
            roots: objects_models(self.roots@),
            divs: owned_pairs(self.root_div_map@),
        }
    }
}

impl BokehDocument {
    /// An empty document with a fresh random id.
    pub fn new() -> (d: Self)
        ensures
            d@.roots == Seq::<ModelObject>::empty(),
            d@.divs == Seq::<(Seq<char>, Seq<char>)>::empty(),
            is_v4_uuid_text(d@.doc_id),
            d@.divs_align(),
            d.roots_spec() == Seq::<BokehObject>::empty(),
    {
        let d = BokehDocument { doc_id: new_uuid_text(), roots: Vec::new(), root_div_map: Vec::new() };
        proof {
            assert(objects_models(d.roots@) =~= Seq::<ModelObject>::empty());
            assert(owned_pairs(d.root_div_map@) =~= Seq::<(Seq<char>, Seq<char>)>::empty());
        }
        d
    }

    fn push_root(&mut self, obj: BokehObject) -> (div_id: String)
        ensures
            final(self)@.doc_id == old(self)@.doc_id,
            final(self)@.roots == old(self)@.roots.push(obj@),
            final(self)@.divs == old(self)@.divs.push((obj@.id, div_id@)),
            is_v4_uuid_text(div_id@),
            final(self).roots_spec() == old(self).roots_spec().push(obj),
    {
        let div_id = new_uuid_text();
        let ghost r0 = self.roots@;
        let ghost m0 = self.root_div_map@;
        self.root_div_map.push((obj.id.clone(), div_id.clone()));
        self.roots.push(obj);
        proof {
            assert(objects_models(self.roots@) =~= objects_models(r0).push(obj@));
            assert(owned_pairs(self.root_div_map@) =~= owned_pairs(m0).push((obj@.id, div_id@)));
        }
        div_id
    }

    /// Add a root model (figure, widget, ...) and return the id of the div
    /// it is rendered into.
    pub fn add_root(&mut self, obj: BokehObject) -> (div_id: String)
        ensures
            final(self)@.doc_id == old(self)@.doc_id,
            final(self)@.roots == old(self)@.roots.push(obj@),
            final(self)@.divs == old(self)@.divs.push((obj@.id, div_id@)),
            is_v4_uuid_text(div_id@),
            old(self)@.divs_align() ==> final(self)@.divs_align(),
            final(self).roots_spec() == old(self).roots_spec().push(obj),
            add_step(old(self)@, final(self)@, obj@, div_id@),
    {
        self.push_root(obj)
    }

    /// Add a root model that is not a view (a filter, a hoisted data
    /// source, ...). It still gets a div id, which the page must emit as a
    /// hidden div, so that roots and divs stay aligned index by index.
    pub fn add_hidden_root(&mut self, obj: BokehObject) -> (div_id: String)
        ensures
            final(self)@.doc_id == old(self)@.doc_id,
            final(self)@.roots == old(self)@.roots.push(obj@),
            final(self)@.divs == old(self)@.divs.push((obj@.id, div_id@)),
            is_v4_uuid_text(div_id@),
            old(self)@.divs_align() ==> final(self)@.divs_align(),
            final(self).roots_spec() == old(self).roots_spec().push(obj),
            add_step(old(self)@, final(self)@, obj@, div_id@),
    {
        self.push_root(obj)
    }

    /// The document id.
    pub fn doc_id(&self) -> (r: &str)
        ensures
            r@ == self@.doc_id,
    {
        self.doc_id.as_str()
    }

    /// The root models, in the order they were added.
    pub fn roots(&self) -> (r: &[BokehObject])
        ensures
            objects_models(r@) == self@.roots,
    {
        self.roots.as_slice()
    }

    /// All `(root_id, div_id)` pairs, for building the HTML div containers.
    pub fn root_divs(&self) -> (r: &[(String, String)])
        ensures
            owned_pairs(r@) == self@.divs,
    {
        self.root_div_map.as_slice()
    }

    /// Number of roots in the document.
    pub fn root_count(&self) -> (n: usize)
        ensures
            n == self@.roots.len(),
    {
        self.roots.len()
    }

    /// Check that every model id is defined inline at most once, every
    /// reference resolves to an inline definition, and no root refers to a
    /// model defined only in a later root.
    pub fn verify(&self) -> (r: VerifyReport)
        ensures
            report_describes(r, self.roots_spec()),
            objects_models(self.roots_spec()) == self@.roots,
    {
        verify_document(self.roots.as_slice())
    }

    /// The root objects themselves, in the order they were added.
    pub closed spec fn roots_spec(&self) -> Seq<BokehObject> {
        self.roots@
    }

    /// The `render_items` JSON text: the document id, the roots as an
    /// ordered object from model id to div id, and the root ids in order.
    pub fn to_render_items(&self) -> (r: String)
        ensures
            r@ == render_items_text(self@.doc_id, self@.divs),
    {
        render_items_json(self.doc_id.as_str(), &self.root_div_map)
    }
}

impl Default for BokehDocument {
    fn default() -> (d: Self)
        ensures
            d@.roots == Seq::<ModelObject>::empty(),
            d@.divs == Seq::<(Seq<char>, Seq<char>)>::empty(),
            is_v4_uuid_text(d@.doc_id),
    {
        Self::new()
    }
}

// ── render_items ─────────────────────────────────────────────────────────────

/// Whether `k` is a key of the entries.
pub open spec fn has_key(entries: Seq<(Seq<char>, Seq<char>)>, k: Seq<char>) -> bool {
    exists|i: int| 0 <= i < entries.len() && #[trigger] entries[i].0 == k
}

/// Insert into an insertion-ordered map: an existing key keeps its place
/// and takes the new value; a new key goes last.
pub open spec fn map_insert(entries: Seq<(Seq<char>, Seq<char>)>, k: Seq<char>, v: Seq<char>) -> Seq<(Seq<char>, Seq<char>)> {
    if has_key(entries, k) {
        entries.update(choose|i: int| 0 <= i < entries.len() && #[trigger] entries[i].0 == k, (k, v))
    } else {
        entries.push((k, v))
    }
}

/// The insertion-ordered map built by inserting the pairs in order.
pub open spec fn ordered_map(pairs: Seq<(Seq<char>, Seq<char>)>) -> Seq<(Seq<char>, Seq<char>)>
    decreases pairs.len(),
{
    if pairs.len() == 0 {
        Seq::empty()
    } else {
        map_insert(ordered_map(pairs.drop_last()), pairs.last().0, pairs.last().1)
    }
}

/// No key occurs twice.
pub open spec fn keys_distinct(entries: Seq<(Seq<char>, Seq<char>)>) -> bool {
    forall|i: int, j: int| 0 <= i < j < entries.len() ==> #[trigger] entries[i].0 != #[trigger] entries[j].0
}

/// `"k":"v"` for each entry, separated by commas.
pub open spec fn json_members(entries: Seq<(Seq<char>, Seq<char>)>) -> Seq<char> {
    seq_join(entries.map_values(|e: (Seq<char>, Seq<char>)| json_string(e.0) + ":"@ + json_string(e.1)), ","@)
}

/// The JSON strings of the first components, separated by commas.
pub open spec fn json_key_list(pairs: Seq<(Seq<char>, Seq<char>)>) -> Seq<char> {
    seq_join(pairs.map_values(|e: (Seq<char>, Seq<char>)| json_string(e.0)), ","@)
}

/// The `render_items` text of a document.
pub open spec fn render_items_text(doc_id: Seq<char>, divs: Seq<(Seq<char>, Seq<char>)>) -> Seq<char> {
    "[{\"docid\":"@ + json_string(doc_id) + ",\"roots\":{"@ + json_members(ordered_map(divs))
        + "},\"root_ids\":["@ + json_key_list(divs) + "]}]"@
}

proof fn lemma_map_insert_distinct(entries: Seq<(Seq<char>, Seq<char>)>, k: Seq<char>, v: Seq<char>)
    requires
        keys_distinct(entries),
    ensures
        keys_distinct(map_insert(entries, k, v)),
{
    if has_key(entries, k) {
        let i = choose|i: int| 0 <= i < entries.len() && #[trigger] entries[i].0 == k;
        let u = entries.update(i, (k, v));
        assert forall|a: int, b: int| 0 <= a < b < u.len() implies #[trigger] u[a].0 != #[trigger] u[b].0 by {
            assert(entries[a].0 != entries[b].0);
        }
    } else {
        let u = entries.push((k, v));
        assert forall|a: int, b: int| 0 <= a < b < u.len() implies #[trigger] u[a].0 != #[trigger] u[b].0 by {
            if b == entries.len() {
                assert(!(0 <= a < entries.len() && entries[a].0 == k));
            } else {
                assert(entries[a].0 != entries[b].0);
            }
        }
    }
}

/// The position of key `k` in the entries, if present.
fn find_key(entries: &Vec<(String, String)>, k: &str) -> (r: Option<usize>)
    ensures
        r matches Some(i) ==> i < entries@.len() && entries@[i as int].0@ == k@,
        r is None ==> !has_key(owned_pairs(entries@), k@),
{
    let n = entries.len();
    for i in 0..n
        invariant
            n == entries@.len(),
            forall|j: int| 0 <= j < i ==> #[trigger] entries@[j].0@ != k@,
    {
        if crate::text::str_eq(entries[i].0.as_str(), k) {
            return Some(i);
        }
    }
    proof {
        let e = owned_pairs(entries@);
        assert forall|j: int| 0 <= j < e.len() implies #[trigger] e[j].0 != k@ by {
            assert(e[j] == (entries@[j].0@, entries@[j].1@));
        }
    }
    None
}

fn ordered_entries(pairs: &Vec<(String, String)>) -> (r: Vec<(String, String)>)
    ensures
        owned_pairs(r@) == ordered_map(owned_pairs(pairs@)),
{
    let mut entries: Vec<(String, String)> = Vec::new();
    let n = pairs.len();
    for i in 0..n
        invariant
            n == pairs@.len(),
            owned_pairs(entries@) == ordered_map(owned_pairs(pairs@.take(i as int))),
            keys_distinct(owned_pairs(entries@)),
    {
        let ghost e0 = owned_pairs(entries@);
        let ghost p = owned_pairs(pairs@.take(i + 1));
        proof {
            assert(pairs@.take(i + 1).drop_last() =~= pairs@.take(i as int));
            assert(p.drop_last() =~= owned_pairs(pairs@.take(i as int)));
            assert(p.last() == (pairs@[i as int].0@, pairs@[i as int].1@));
            lemma_map_insert_distinct(e0, pairs@[i as int].0@, pairs@[i as int].1@);
        }
        let k = pairs[i].0.clone();
        let v = pairs[i].1.clone();
        match find_key(&entries, k.as_str()) {
            Some(j) => {
                proof {
                    let c = choose|x: int| 0 <= x < e0.len() && #[trigger] e0[x].0 == k@;
                    assert(e0[j as int].0 == k@);
                    assert(0 <= c < e0.len() && e0[c].0 == k@);
                    assert(c == j);
                }
                entries.set(j, (k, v));
                proof {
                    assert(owned_pairs(entries@) =~= e0.update(j as int, (k@, v@)));
                }
            },
            None => {
                entries.push((k, v));
                proof {
                    assert(owned_pairs(entries@) =~= e0.push((k@, v@)));
                }
            },
        }
    }
    proof {
        assert(pairs@.take(n as int) =~= pairs@);
    }
    entries
}

/// The `render_items` JSON text for a document id and its root/div pairs.
pub fn render_items_json(doc_id: &str, divs: &Vec<(String, String)>) -> (r: String)
    ensures
        r@ == render_items_text(doc_id@, owned_pairs(divs@)),
{
    let entries = ordered_entries(divs);
    let mut members: Vec<String> = Vec::new();
    let n = entries.len();
    for i in 0..n
        invariant
            n == entries@.len(),
            strs(members@) == owned_pairs(entries@).take(i as int).map_values(
                |e: (Seq<char>, Seq<char>)| json_string(e.0) + ":"@ + json_string(e.1),
            ),
    {
        let mut m = json_quote(entries[i].0.as_str());
        m.append(":");
        let q = json_quote(entries[i].1.as_str());
        m.append(q.as_str());
        let ghost s0 = strs(members@);
        members.push(m);
        proof {
            assert(strs(members@) =~= s0.push(m@));
            let e = owned_pairs(entries@);
            assert(e[i as int] == (entries@[i as int].0@, entries@[i as int].1@));
            assert(e.take(i + 1) =~= e.take(i as int).push(e[i as int]));
        }
    }
    let mut ids: Vec<String> = Vec::new();
    let m = divs.len();
    for i in 0..m
        invariant
            m == divs@.len(),
            strs(ids@) == owned_pairs(divs@).take(i as int).map_values(|e: (Seq<char>, Seq<char>)| json_string(e.0)),
    {
        let q = json_quote(divs[i].0.as_str());
        let ghost s0 = strs(ids@);
        ids.push(q);
        proof {
            assert(strs(ids@) =~= s0.push(q@));
            let e = owned_pairs(divs@);
            assert(e[i as int] == (divs@[i as int].0@, divs@[i as int].1@));
            assert(e.take(i + 1) =~= e.take(i as int).push(e[i as int]));
        }
    }
    let mut out = String::from_str("[{\"docid\":");
    let q = json_quote(doc_id);
    out.append(q.as_str());
    out.append(",\"roots\":{");
    let mj = join_strings(&members, ",");
    out.append(mj.as_str());
    out.append("},\"root_ids\":[");
    let ij = join_strings(&ids, ",");
    out.append(ij.as_str());
    out.append("]}]");
    proof {
        assert(owned_pairs(entries@).take(n as int) =~= owned_pairs(entries@));
        assert(owned_pairs(divs@).take(m as int) =~= owned_pairs(divs@));
        assert(out@ =~= render_items_text(doc_id@, owned_pairs(divs@)));
    }
    out
}


proof fn lemma_ordered_map_keys(pairs: Seq<(Seq<char>, Seq<char>)>)
    ensures
        keys_distinct(ordered_map(pairs)),
        forall|k: Seq<char>| has_key(ordered_map(pairs), k) <==> exists|i: int| 0 <= i < pairs.len() && #[trigger] pairs[i].0 == k,
    decreases pairs.len(),
{
    if pairs.len() > 0 {
        let d = pairs.drop_last();
        lemma_ordered_map_keys(d);
        let m0 = ordered_map(d);
        let (k0, v0) = pairs.last();
        lemma_map_insert_distinct(m0, k0, v0);
        let m = ordered_map(pairs);
        assert forall|k: Seq<char>| has_key(m, k) <==> exists|i: int| 0 <= i < pairs.len() && #[trigger] pairs[i].0 == k by {
            if has_key(m0, k0) {
                let c = choose|i: int| 0 <= i < m0.len() && #[trigger] m0[i].0 == k0;
                assert(m == m0.update(c, (k0, v0)));
                if has_key(m, k) {
                    let j = choose|j: int| 0 <= j < m.len() && #[trigger] m[j].0 == k;
                    if j == c {
                        assert(pairs[pairs.len() - 1].0 == k);
                    } else {
                        assert(m0[j].0 == k);
                        assert(has_key(m0, k));
                        let i = choose|i: int| 0 <= i < d.len() && #[trigger] d[i].0 == k;
                        assert(d[i] == pairs[i]);
                        assert(pairs[i].0 == k);
                    }
                }
                if exists|i: int| 0 <= i < pairs.len() && #[trigger] pairs[i].0 == k {
                    let i = choose|i: int| 0 <= i < pairs.len() && #[trigger] pairs[i].0 == k;
                    if i == pairs.len() - 1 {
                        assert(m[c].0 == k);
                    } else {
                        assert(d[i] == pairs[i]);
                        assert(d[i].0 == k);
                        assert(has_key(m0, k));
                        let j = choose|j: int| 0 <= j < m0.len() && #[trigger] m0[j].0 == k;
                        assert(m[j].0 == k);
                    }
                }
            } else {
                assert(m == m0.push((k0, v0)));
                if has_key(m, k) {
                    let j = choose|j: int| 0 <= j < m.len() && #[trigger] m[j].0 == k;
                    if j == m0.len() {
                        assert(pairs[pairs.len() - 1].0 == k);
                    } else {
                        assert(m0[j].0 == k);
                        assert(has_key(m0, k));
                        let i = choose|i: int| 0 <= i < d.len() && #[trigger] d[i].0 == k;
                        assert(d[i] == pairs[i]);
                        assert(pairs[i].0 == k);
                    }
                }
                if exists|i: int| 0 <= i < pairs.len() && #[trigger] pairs[i].0 == k {
                    let i = choose|i: int| 0 <= i < pairs.len() && #[trigger] pairs[i].0 == k;
                    if i == pairs.len() - 1 {
                        assert(m[m0.len() as int].0 == k);
                    } else {
                        assert(d[i] == pairs[i]);
                        assert(d[i].0 == k);
                        assert(has_key(m0, k));
                        let j = choose|j: int| 0 <= j < m0.len() && #[trigger] m0[j].0 == k;
                        assert(m[j].0 == k);
                    }
                }
            }
        }
    }
}

/// In `render_items`, the `roots` object names each root model exactly
/// once: its keys are distinct and are exactly the ids of the roots added.
pub proof fn law_render_roots_name_each_model_once(divs: Seq<(Seq<char>, Seq<char>)>)
    ensures
        keys_distinct(ordered_map(divs)),
        forall|k: Seq<char>| has_key(ordered_map(divs), k) <==> exists|i: int| 0 <= i < divs.len() && #[trigger] divs[i].0 == k,
{
    lemma_ordered_map_keys(divs);
}


/// When no root id repeats, the `roots` object of `render_items` lists the
/// roots exactly in the order they were added, each with its own div.
pub proof fn law_render_roots_follow_root_order(divs: Seq<(Seq<char>, Seq<char>)>)
    requires
        keys_distinct(divs),
    ensures
        ordered_map(divs) == divs,
    decreases divs.len(),
{
    if divs.len() > 0 {
        let d = divs.drop_last();
        assert(keys_distinct(d)) by {
            assert forall|i: int, j: int| 0 <= i < j < d.len() implies #[trigger] d[i].0 != #[trigger] d[j].0 by {
                assert(d[i] == divs[i] && d[j] == divs[j]);
            }
        }
        law_render_roots_follow_root_order(d);
        let k = divs.last().0;
        assert(!has_key(d, k)) by {
            if has_key(d, k) {
                let i = choose|i: int| 0 <= i < d.len() && #[trigger] d[i].0 == k;
                assert(divs[i].0 != divs[divs.len() - 1].0);
            }
        }
        assert(ordered_map(divs) =~= divs);
    }
}

// ── docs_json ────────────────────────────────────────────────────────────────

/// The `DocumentConfig` model of a document whose config id is drawn at
/// counter `k` and its `Notifications` at `k + 1`.
pub open spec fn document_config_model(k: nat) -> ModelObject {
    mobj("DocumentConfig"@, id_for(k), seq![
        ("notifications"@, mval(mobj("Notifications"@, id_for(k + 1), seq![]))),
    ])
}

/// The `DocumentConfig` model embedded in `docs_json`.
pub fn document_config(id_gen: &mut IdGen) -> (r: BokehObject)
    requires
        old(id_gen).can_issue(2),
    ensures
        final(id_gen)@ == old(id_gen)@ + 2,
        r@ == document_config_model(old(id_gen)@),
{
    let config_id = id_gen.next();
    let notif_id = id_gen.next();
    let notifications = BokehObject::new("Notifications", notif_id);
    let r = BokehObject::new("DocumentConfig", config_id).attr("notifications", notifications.into_value());
    proof {
        assert(r@.attrs =~= document_config_model(old(id_gen)@).attrs);
    }
    r
}

/// The `docs_json` text (before escaping) of a document, given the JSON of
/// its config model and of each root.
pub open spec fn docs_json_raw(doc_id: Seq<char>, config_json: Seq<char>, roots_json: Seq<Seq<char>>) -> Seq<char> {
    "{"@ + json_string(doc_id) + ":{\"version\":\"3.9.0\",\"title\":\"Bokeh Application\",\"config\":"@
        + config_json + ",\"roots\":["@ + seq_join(roots_json, ","@) + "]}}"@
}

/// Frame the `docs_json` text of a document from the JSON of its config
/// model and of each root, escaped for a single-quoted JavaScript string.
pub fn frame_docs_json(doc_id: &str, config_json: &str, roots_json: &Vec<String>) -> (r: String)
    ensures
        r@ == js_single_quote_escape(docs_json_raw(doc_id@, config_json@, strs(roots_json@))),
{
    let mut out = String::from_str("{");
    let q = json_quote(doc_id);
    out.append(q.as_str());
    out.append(":{\"version\":\"3.9.0\",\"title\":\"Bokeh Application\",\"config\":");
    out.append(config_json);
    out.append(",\"roots\":[");
    let joined = join_strings(roots_json, ",");
    out.append(joined.as_str());
    out.append("]}}");
    proof {
        assert(out@ =~= docs_json_raw(doc_id@, config_json@, strs(roots_json@)));
    }
    escape_for_js_single_quotes(out.as_str())
}

// ── Embed script ─────────────────────────────────────────────────────────────

/// The script text before the `docs_json` literal.
pub const EMBED_HEAD: &'static str = r#"
(function() {
  const fn = function() {
    Bokeh.safely(function() {
      (function(root) {
        function embed_document(root) {
        const docs_json = '"#;
/// The script text between `docs_json` and `render_items`.
pub const EMBED_MIDDLE: &'static str = r#"';
        const render_items = "#;
/// The script text after `render_items`.
pub const EMBED_TAIL: &'static str = r#";
        root.Bokeh.embed.embed_items(docs_json, render_items);
        }
        if (root.Bokeh !== undefined) {
          embed_document(root);
        } else {
          let attempts = 0;
          const timer = setInterval(function(root) {
            if (root.Bokeh !== undefined) {
              clearInterval(timer);
              embed_document(root);
            } else {
              attempts++;
              if (attempts > 100) {
                clearInterval(timer);
                console.log("Bokeh: ERROR: Unable to run BokehJS code because BokehJS library is missing");
              }
            }
          }, 10, root)
        }
      })(window);
    });
  };
  if (document.readyState != "loading") fn();
  else document.addEventListener("DOMContentLoaded", fn);
})();"#;

/// Build the JavaScript block that embeds a page's document: it waits for
/// the page and for BokehJS, then calls `embed_items` with the two texts.
pub fn build_embed_script(docs_json: &str, render_items: &str) -> (r: String)
    ensures
        r@ == EMBED_HEAD@ + docs_json@ + EMBED_MIDDLE@ + render_items@ + EMBED_TAIL@,
{
    let mut out = String::from_str(EMBED_HEAD);
    out.append(docs_json);
    out.append(EMBED_MIDDLE);
    out.append(render_items);
    out.append(EMBED_TAIL);
    out
}

/// One `add_root` / `add_hidden_root` step: `after` is `before` with `obj`
/// appended as a root and `(obj.id, div)` appended to the div pairs.
pub open spec fn add_step(before: DocumentView, after: DocumentView, obj: ModelObject, div: Seq<char>) -> bool {
    &&& after.doc_id == before.doc_id
    &&& after.roots == before.roots.push(obj)
    &&& after.divs == before.divs.push((obj.id, div))
}

proof fn lemma_added_prefix(docs: Seq<DocumentView>, objs: Seq<ModelObject>, divs: Seq<Seq<char>>, i: int)
    requires
        docs.len() == objs.len() + 1,
        divs.len() == objs.len(),
        docs[0].roots == Seq::<ModelObject>::empty(),
        docs[0].divs == Seq::<(Seq<char>, Seq<char>)>::empty(),
        forall|j: int| 0 <= j < objs.len() ==> #[trigger] add_step(docs[j], docs[j + 1], objs[j], divs[j]),
        0 <= i <= objs.len(),
    ensures
        docs[i].roots == objs.take(i),
        docs[i].divs == Seq::new(i as nat, |j: int| (objs[j].id, divs[j])),
        docs[i].doc_id == docs[0].doc_id,
    decreases i,
{
    if i == 0 {
        assert(objs.take(0) =~= Seq::<ModelObject>::empty());
        assert(Seq::new(0, |j: int| (objs[j].id, divs[j])) =~= Seq::<(Seq<char>, Seq<char>)>::empty());
    } else {
        lemma_added_prefix(docs, objs, divs, i - 1);
        assert(add_step(docs[(i - 1)], docs[(i - 1) + 1], objs[i - 1], divs[i - 1]));
        assert(objs.take(i) =~= objs.take(i - 1).push(objs[i - 1]));
        assert(Seq::new(i as nat, |j: int| (objs[j].id, divs[j])) =~= Seq::new((i - 1) as nat, |j: int| (objs[j].id, divs[j])).push((objs[i - 1].id, divs[i - 1])));
    }
}

/// Roots and div pairs stay aligned one for one: starting from
/// [`BokehDocument::new`] (no roots, no divs), after `k` calls of
/// `add_root` / `add_hidden_root` (each an [`add_step`] adding `objs[j]` and
/// returning `divs[j]`), the document holds the `k` objects in call order,
/// hidden ones included, `root_count` is `k`, and `root_divs` is
/// `[(objs[0].id, divs[0]), ..., (objs[k-1].id, divs[k-1])]`.
pub proof fn law_roots_and_divs_follow_add_calls(docs: Seq<DocumentView>, objs: Seq<ModelObject>, divs: Seq<Seq<char>>)
    requires
        docs.len() == objs.len() + 1,
        divs.len() == objs.len(),
        docs[0].roots == Seq::<ModelObject>::empty(),
        docs[0].divs == Seq::<(Seq<char>, Seq<char>)>::empty(),
        forall|j: int| 0 <= j < objs.len() ==> #[trigger] add_step(docs[j], docs[j + 1], objs[j], divs[j]),
    ensures
        docs[objs.len() as int].roots == objs,
        docs[objs.len() as int].roots.len() == objs.len(),
        docs[objs.len() as int].divs.len() == objs.len(),
        forall|j: int| 0 <= j < objs.len() ==> #[trigger] docs[objs.len() as int].divs[j] == (objs[j].id, divs[j]),
        docs[objs.len() as int].divs_align(),
        docs[objs.len() as int].doc_id == docs[0].doc_id,
{
    let k = objs.len() as int;
    lemma_added_prefix(docs, objs, divs, k);
    assert(objs.take(k) =~= objs);
}

/// Checking a document reports exactly what checking the objects added to
/// it reports. `new` followed by `add_root` / `add_hidden_root` of
/// `o_1, ..., o_k`, in that order, leaves a document whose roots are
/// `objs = [o_1, ..., o_k]`; a report of its `verify` and a report of
/// `verify_document(objs)` then hold the same lists, and for no objects the
/// report is clean.
pub proof fn law_document_verify_is_verify_of_added(
    doc: BokehDocument,
    objs: Seq<BokehObject>,
    r: VerifyReport,
    s: VerifyReport,
)
    requires
        doc.roots_spec() == objs,
        report_describes(r, doc.roots_spec()),
        report_describes(s, objs),
    ensures
        dup_view(r) == dup_view(s),
        strs(r.dangling_refs@) == strs(s.dangling_refs@),
        str_pairs(r.forward_refs@) == str_pairs(s.forward_refs@),
        objs.len() == 0 ==> r.ok(),
{
    law_report_is_determined_by_roots(r, s, objs);
    if objs.len() == 0 {
        assert(objs =~= Seq::<BokehObject>::empty());
        law_no_roots_is_ok(r);
    }
}

} // verus!
