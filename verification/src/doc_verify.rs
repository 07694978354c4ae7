//! Document invariant checks.
//!
//! BokehJS rejects a document when the same model id is defined inline more
//! than once, when a reference `{"id": ...}` names an id that is defined
//! nowhere, or when a root refers to a model that is defined only in a later
//! root (roots are decoded in order). [`verify_document`] reports all three.

use vstd::prelude::*;
use crate::model::{BokehObject, BokehValue};
use crate::text::{decimal, join_strings, push_decimal, seq_join, strs};
use crate::order::{
    insert_sorted_pair, insert_sorted_unique, lemma_sorted_pairs_unique, lemma_sorted_strict_unique, sorted_pairs,
    sorted_strict, str_pairs,
};

verus! {

// ── The document as a stream of definitions and references ──────────────────

/// One step of the depth-first walk of a document: an inline model
/// definition, or a reference to a model id.
pub enum DocEvent {
    Def(Seq<char>),
    Use(Seq<char>),
}

/// The definitions and references met while walking `v`, in walk order.
pub open spec fn events_value(v: BokehValue) -> Seq<DocEvent>
    decreases v,
{
    match v {
        BokehValue::Object(o) => events_object(*o),
        BokehValue::Ref(id) => seq![DocEvent::Use(id@)],
        BokehValue::Array(a) => events_values(a@),
        BokehValue::Entries(e) => events_attrs(e@),
        BokehValue::Value(b) => events_value(*b),
        BokehValue::FieldTransform { field, transform } => events_value(*transform),
        _ => Seq::empty(),
    }
}

pub open spec fn events_values(s: Seq<BokehValue>) -> Seq<DocEvent>
    decreases s,
{
    if s.len() == 0 {
        Seq::empty()
    } else {
        events_values(s.drop_last()) + events_value(s.last())
    }
}

pub open spec fn events_attrs(s: Seq<(String, BokehValue)>) -> Seq<DocEvent>
    decreases s,
{
    if s.len() == 0 {
        Seq::empty()
    } else {
        events_attrs(s.drop_last()) + events_value(s.last().1)
    }
}

/// A model is defined, then its attributes are walked in order.
pub open spec fn events_object(o: BokehObject) -> Seq<DocEvent>
    decreases o,
{
    seq![DocEvent::Def(o.id@)] + events_attrs(o.attributes@)
}

/// The walk of all roots, in root order.
pub open spec fn events_roots(roots: Seq<BokehObject>) -> Seq<DocEvent>
    decreases roots.len(),
{
    if roots.len() == 0 {
        Seq::empty()
    } else {
        events_roots(roots.drop_last()) + events_object(roots.last())
    }
}

/// The ids defined inline in `evs`, in order, with repetitions.
pub open spec fn def_ids(evs: Seq<DocEvent>) -> Seq<Seq<char>>
    decreases evs.len(),
{
    if evs.len() == 0 {
        Seq::empty()
    } else {
        match evs.last() {
            DocEvent::Def(id) => def_ids(evs.drop_last()).push(id),
            DocEvent::Use(_) => def_ids(evs.drop_last()),
        }
    }
}

/// The ids referenced in `evs`, in order, with repetitions.
pub open spec fn use_ids(evs: Seq<DocEvent>) -> Seq<Seq<char>>
    decreases evs.len(),
{
    if evs.len() == 0 {
        Seq::empty()
    } else {
        match evs.last() {
            DocEvent::Def(_) => use_ids(evs.drop_last()),
            DocEvent::Use(id) => use_ids(evs.drop_last()).push(id),
        }
    }
}

/// The references among `ts` whose target is defined somewhere in the
/// document (`all`) but in no root up to and including the referring one
/// (`upto`), each tagged with that root's id `root`.
pub open spec fn later_uses(
    ts: Seq<Seq<char>>,
    upto: Set<Seq<char>>,
    all: Set<Seq<char>>,
    root: Seq<char>,
) -> Seq<(Seq<char>, Seq<char>)>
    decreases ts.len(),
{
    if ts.len() == 0 {
        Seq::empty()
    } else {
        later_uses(ts.drop_last(), upto, all, root) + if all.contains(ts.last()) && !upto.contains(ts.last()) {
            seq![(root, ts.last())]
        } else {
            Seq::empty()
        }
    }
}

/// The forward references of the roots, given the ids defined anywhere in
/// the document (`all`): `(root id, target id)` for every reference inside
/// a root whose target is first defined inline in a later root. A target
/// defined nowhere, or in the same or an earlier root, is not a forward
/// reference.
pub open spec fn forward_refs_of(roots: Seq<BokehObject>, all: Set<Seq<char>>) -> Seq<(Seq<char>, Seq<char>)>
    decreases roots.len(),
{
    if roots.len() == 0 {
        Seq::empty()
    } else {
        forward_refs_of(roots.drop_last(), all) + later_uses(
            use_ids(events_object(roots.last())),
            def_ids(events_roots(roots)).to_set(),
            all,
            roots.last().id@,
        )
    }
}

// ── Lemmas on the event stream ───────────────────────────────────────────────

pub proof fn lemma_def_ids_concat(a: Seq<DocEvent>, b: Seq<DocEvent>)
    ensures
        def_ids(a + b) == def_ids(a) + def_ids(b),
    decreases b.len(),
{
    if b.len() == 0 {
        assert(a + b =~= a);
        assert(def_ids(a) + def_ids(b) =~= def_ids(a));
    } else {
        assert((a + b).drop_last() =~= a + b.drop_last());
        assert((a + b).last() == b.last());
        lemma_def_ids_concat(a, b.drop_last());
        match b.last() {
            DocEvent::Def(id) => {
                assert(def_ids(a) + def_ids(b) =~= (def_ids(a) + def_ids(b.drop_last())).push(id));
            },
            DocEvent::Use(_) => {},
        }
    }
}

pub proof fn lemma_use_ids_concat(a: Seq<DocEvent>, b: Seq<DocEvent>)
    ensures
        use_ids(a + b) == use_ids(a) + use_ids(b),
    decreases b.len(),
{
    if b.len() == 0 {
        assert(a + b =~= a);
        assert(use_ids(a) + use_ids(b) =~= use_ids(a));
    } else {
        assert((a + b).drop_last() =~= a + b.drop_last());
        assert((a + b).last() == b.last());
        lemma_use_ids_concat(a, b.drop_last());
        match b.last() {
            DocEvent::Use(id) => {
                assert(use_ids(a) + use_ids(b) =~= (use_ids(a) + use_ids(b.drop_last())).push(id));
            },
            DocEvent::Def(_) => {},
        }
    }
}

/// The ids of a single event.
pub proof fn lemma_ids_single(e: DocEvent)
    ensures
        def_ids(seq![e]) == (match e {
            DocEvent::Def(id) => seq![id],
            DocEvent::Use(_) => Seq::<Seq<char>>::empty(),
        }),
        use_ids(seq![e]) == (match e {
            DocEvent::Def(_) => Seq::<Seq<char>>::empty(),
            DocEvent::Use(id) => seq![id],
        }),
{
    reveal_with_fuel(def_ids, 2);
    reveal_with_fuel(use_ids, 2);
    assert(seq![e].drop_last() =~= Seq::<DocEvent>::empty());
    assert(Seq::<Seq<char>>::empty().push(e->Def_0) =~= seq![e->Def_0]);
    assert(Seq::<Seq<char>>::empty().push(e->Use_0) =~= seq![e->Use_0]);
}

proof fn lemma_strs_push(v: Seq<String>, s: String)
    ensures
        strs(v.push(s)) == strs(v).push(s@),
{
    assert(strs(v.push(s)) =~= strs(v).push(s@));
}

proof fn lemma_str_pairs_push(v: Seq<(String, String)>, p: (String, String))
    ensures
        str_pairs(v.push(p)) == str_pairs(v).push((p.0@, p.1@)),
{
    assert(str_pairs(v.push(p)) =~= str_pairs(v).push((p.0@, p.1@)));
}

// ── Collecting definitions and references ────────────────────────────────────

/// Records, in walk order, every inline id of `obj` in `inline_ids` and every
/// reference target in `ref_targets`.
fn walk_object(obj: &BokehObject, inline_ids: &mut Vec<String>, ref_targets: &mut Vec<String>)
    ensures
        strs(final(inline_ids)@) == strs(old(inline_ids)@) + def_ids(events_object(*obj)),
        strs(final(ref_targets)@) == strs(old(ref_targets)@) + use_ids(events_object(*obj)),
    decreases obj,
{
    proof {
        lemma_strs_push(inline_ids@, obj.id);
    }
    inline_ids.push(obj.id.clone());
    let ghost mid_ids = inline_ids@;
    let ghost mid_refs = ref_targets@;
    let n = obj.attributes.len();
    for i in 0..n
        invariant
            n == obj.attributes@.len(),
            strs(inline_ids@) == strs(mid_ids) + def_ids(events_attrs(obj.attributes@.take(i as int))),
            strs(ref_targets@) == strs(mid_refs) + use_ids(events_attrs(obj.attributes@.take(i as int))),
    {
        let ghost before_ids = inline_ids@;
        let ghost before_refs = ref_targets@;
        walk_value(&obj.attributes[i].1, inline_ids, ref_targets);
        proof {
            let t = obj.attributes@.take(i as int);
            let t1 = obj.attributes@.take(i + 1);
            assert(t1.drop_last() =~= t);
            lemma_def_ids_concat(events_attrs(t), events_value(obj.attributes@[i as int].1));
            lemma_use_ids_concat(events_attrs(t), events_value(obj.attributes@[i as int].1));
        }
    }
    proof {
        assert(obj.attributes@.take(n as int) =~= obj.attributes@);
        let e = seq![DocEvent::Def(obj.id@)];
        lemma_def_ids_concat(e, events_attrs(obj.attributes@));
        lemma_use_ids_concat(e, events_attrs(obj.attributes@));
        lemma_ids_single(DocEvent::Def(obj.id@));
        assert(strs(mid_ids) =~= strs(old(inline_ids)@) + def_ids(e));
    }
}

/// Records the inline ids and reference targets met while walking `val`.
fn walk_value(val: &BokehValue, inline_ids: &mut Vec<String>, ref_targets: &mut Vec<String>)
    ensures
        strs(final(inline_ids)@) == strs(old(inline_ids)@) + def_ids(events_value(*val)),
        strs(final(ref_targets)@) == strs(old(ref_targets)@) + use_ids(events_value(*val)),
    decreases val,
{
    match val {
        BokehValue::Object(o) => walk_object(o, inline_ids, ref_targets),
        BokehValue::Ref(id) => {
            proof {
                lemma_strs_push(ref_targets@, *id);
                lemma_ids_single(DocEvent::Use(id@));
            }
            ref_targets.push(id.clone());
            proof {
                assert(strs(inline_ids@) =~= strs(old(inline_ids)@) + def_ids(events_value(*val)));
            }
        },
        BokehValue::Array(arr) => walk_values(arr, inline_ids, ref_targets),
        BokehValue::Entries(entries) => walk_entries(entries, inline_ids, ref_targets),
        BokehValue::Value(boxed) => walk_value(boxed, inline_ids, ref_targets),
        BokehValue::FieldTransform { transform, .. } => walk_value(transform, inline_ids, ref_targets),
        _ => {
            proof {
                assert(strs(inline_ids@) =~= strs(old(inline_ids)@) + def_ids(events_value(*val)));
                assert(strs(ref_targets@) =~= strs(old(ref_targets)@) + use_ids(events_value(*val)));
            }
        },
    }
}

fn walk_values(arr: &Vec<BokehValue>, inline_ids: &mut Vec<String>, ref_targets: &mut Vec<String>)
    ensures
        strs(final(inline_ids)@) == strs(old(inline_ids)@) + def_ids(events_values(arr@)),
        strs(final(ref_targets)@) == strs(old(ref_targets)@) + use_ids(events_values(arr@)),
    decreases arr,
{
    let n = arr.len();
    for i in 0..n
        invariant
            n == arr@.len(),
            strs(inline_ids@) == strs(old(inline_ids)@) + def_ids(events_values(arr@.take(i as int))),
            strs(ref_targets@) == strs(old(ref_targets)@) + use_ids(events_values(arr@.take(i as int))),
    {
        walk_value(&arr[i], inline_ids, ref_targets);
        proof {
            let t = arr@.take(i as int);
            assert(arr@.take(i + 1).drop_last() =~= t);
            lemma_def_ids_concat(events_values(t), events_value(arr@[i as int]));
            lemma_use_ids_concat(events_values(t), events_value(arr@[i as int]));
        }
    }
    proof {
        assert(arr@.take(n as int) =~= arr@);
        assert(arr@.take(0) =~= Seq::<BokehValue>::empty());
    }
}

fn walk_entries(entries: &Vec<(String, BokehValue)>, inline_ids: &mut Vec<String>, ref_targets: &mut Vec<String>)
    ensures
        strs(final(inline_ids)@) == strs(old(inline_ids)@) + def_ids(events_attrs(entries@)),
        strs(final(ref_targets)@) == strs(old(ref_targets)@) + use_ids(events_attrs(entries@)),
    decreases entries,
{
    let n = entries.len();
    for i in 0..n
        invariant
            n == entries@.len(),
            strs(inline_ids@) == strs(old(inline_ids)@) + def_ids(events_attrs(entries@.take(i as int))),
            strs(ref_targets@) == strs(old(ref_targets)@) + use_ids(events_attrs(entries@.take(i as int))),
    {
        walk_value(&entries[i].1, inline_ids, ref_targets);
        proof {
            let t = entries@.take(i as int);
            assert(entries@.take(i + 1).drop_last() =~= t);
            lemma_def_ids_concat(events_attrs(t), events_value(entries@[i as int].1));
            lemma_use_ids_concat(events_attrs(t), events_value(entries@[i as int].1));
        }
    }
    proof {
        assert(entries@.take(n as int) =~= entries@);
        assert(entries@.take(0) =~= Seq::<(String, BokehValue)>::empty());
    }
}


/// Whether `k` is among the strings of `v`.
fn contains_str(v: &Vec<String>, k: &String) -> (r: bool)
    ensures
        r == strs(v@).contains(k@),
{
    let n = v.len();
    for i in 0..n
        invariant
            n == v@.len(),
            forall|j: int| 0 <= j < i ==> v@[j]@ != k@,
    {
        if v[i] == *k {
            proof {
                assert(strs(v@)[i as int] == k@);
            }
            return true;
        }
    }
    proof {
        if strs(v@).contains(k@) {
            let j = choose|j: int| 0 <= j < strs(v@).len() && strs(v@)[j] == k@;
            assert(v@[j]@ == k@);
        }
    }
    false
}

// ── The report ───────────────────────────────────────────────────────────────

/// Result of a document invariant check.
#[derive(Debug, Default, PartialEq, Eq)]
pub struct VerifyReport {
    /// Ids that appear as a full inline model more than once, with the number
    /// of definitions, sorted by id.
    pub duplicate_inline: Vec<(String, usize)>,
    /// Ids referenced via `Ref` that have no inline definition, sorted.
    pub dangling_refs: Vec<String>,
    /// `(referrer_root_id, target_id)` for every reference whose target is
    /// defined inline only in a root after the one holding the reference,
    /// sorted.
    pub forward_refs: Vec<(String, String)>,
}

/// The number of inline definitions of `id` in `evs`.
pub open spec fn def_count(evs: Seq<DocEvent>, id: Seq<char>) -> nat {
    def_ids(evs).to_multiset().count(id)
}

/// What `verify_document` reports about `roots`: the exact contents of each
/// list of a [`VerifyReport`].
pub open spec fn report_describes(r: VerifyReport, roots: Seq<BokehObject>) -> bool {
    let evs = events_roots(roots);
    let dup_ids = r.duplicate_inline@.map_values(|p: (String, usize)| p.0@);
    &&& sorted_strict(dup_ids)
    &&& forall|i: int|
        0 <= i < r.duplicate_inline@.len() ==> r.duplicate_inline@[i].1 == def_count(
            evs,
            #[trigger] r.duplicate_inline@[i].0@,
        )
    &&& forall|id: Seq<char>| #[trigger] dup_ids.contains(id) <==> def_count(evs, id) > 1
    &&& sorted_strict(strs(r.dangling_refs@))
    &&& forall|id: Seq<char>|
        #[trigger] strs(r.dangling_refs@).contains(id) <==> (use_ids(evs).contains(id)
            && !def_ids(evs).contains(id))
    &&& sorted_pairs(str_pairs(r.forward_refs@))
    &&& str_pairs(r.forward_refs@).to_multiset() == forward_refs_of(roots, def_ids(evs).to_set()).to_multiset()
}

/// The number of occurrences of `k` among the strings of `v`.
fn count_str(v: &Vec<String>, k: &String) -> (r: usize)
    ensures
        r == strs(v@).to_multiset().count(k@),
{
    let n = v.len();
    let mut c: usize = 0;
    proof {
        assert(strs(v@.take(0)) =~= Seq::<Seq<char>>::empty());
        vstd::seq_lib::to_multiset_contains(strs(v@.take(0)), k@);
    }
    for i in 0..n
        invariant
            n == v@.len(),
            c == strs(v@.take(i as int)).to_multiset().count(k@),
            c <= i,
    {
        proof {
            assert(v@.take(i + 1) =~= v@.take(i as int).push(v@[i as int]));
            assert(strs(v@.take(i + 1)) =~= strs(v@.take(i as int)).push(v@[i as int]@));
            vstd::seq_lib::to_multiset_build(strs(v@.take(i as int)), v@[i as int]@);
        }
        if v[i] == *k {
            c = c + 1;
        }
    }
    proof {
        assert(v@.take(n as int) =~= v@);
    }
    c
}

/// Walk the roots and report duplicate inline models, dangling references
/// and forward references (references to targets defined only later in
/// root order).
pub fn verify_document(roots: &[BokehObject]) -> (report: VerifyReport)
    ensures
        report_describes(report, roots@),
{
    let mut inline_ids: Vec<String> = Vec::new();
    let mut ref_targets: Vec<String> = Vec::new();
    let n = roots.len();
    for i in 0..n
        invariant
            n == roots@.len(),
            strs(inline_ids@) == def_ids(events_roots(roots@.take(i as int))),
            strs(ref_targets@) == use_ids(events_roots(roots@.take(i as int))),
    {
        walk_object(&roots[i], &mut inline_ids, &mut ref_targets);
        proof {
            let t = roots@.take(i as int);
            assert(roots@.take(i + 1).drop_last() =~= t);
            lemma_def_ids_concat(events_roots(t), events_object(roots@[i as int]));
            lemma_use_ids_concat(events_roots(t), events_object(roots@[i as int]));
        }
    }
    proof {
        assert(roots@.take(n as int) =~= roots@);
    }
    let ghost evs = events_roots(roots@);

    // Ids defined more than once.
    let mut dup_ids: Vec<String> = Vec::new();
    let m = inline_ids.len();
    for i in 0..m
        invariant
            m == inline_ids@.len(),
            strs(inline_ids@) == def_ids(evs),
            sorted_strict(strs(dup_ids@)),
            forall|id: Seq<char>|
                #[trigger] strs(dup_ids@).contains(id) <==> (strs(inline_ids@).take(i as int).contains(id)
                    && def_count(evs, id) > 1),
    {
        let c = count_str(&inline_ids, &inline_ids[i]);
        let ghost before = strs(dup_ids@);
        if c > 1 {
            insert_sorted_unique(&mut dup_ids, inline_ids[i].clone());
        }
        proof {
            let s = strs(inline_ids@);
            assert(s[i as int] == inline_ids@[i as int]@);
            assert(c == def_count(evs, s[i as int]));
            assert(s.take(i + 1)[i as int] == s[i as int]);
            assert forall|id: Seq<char>|
                #[trigger] strs(dup_ids@).contains(id) <==> (s.take(i + 1).contains(id) && def_count(evs, id) > 1) by {
                let t0 = s.take(i as int);
                let t1 = s.take(i + 1);
                if t1.contains(id) && !t0.contains(id) {
                    let k = choose|k: int| 0 <= k < t1.len() && t1[k] == id;
                    if k < i {
                        assert(t0[k] == id);
                    }
                }
                if t0.contains(id) {
                    let k = choose|k: int| 0 <= k < t0.len() && t0[k] == id;
                    assert(t1[k] == id);
                }
            }
        }
    }
    let mut duplicate_inline: Vec<(String, usize)> = Vec::new();
    let d = dup_ids.len();
    for i in 0..d
        invariant
            d == dup_ids@.len(),
            strs(inline_ids@) == def_ids(evs),
            duplicate_inline@.len() == i,
            forall|j: int| 0 <= j < i ==> #[trigger] duplicate_inline@[j].0@ == dup_ids@[j]@,
            forall|j: int|
                0 <= j < i ==> #[trigger] duplicate_inline@[j].1 == def_count(evs, duplicate_inline@[j].0@),
    {
        let c = count_str(&inline_ids, &dup_ids[i]);
        duplicate_inline.push((dup_ids[i].clone(), c));
    }
    proof {
        let dv = duplicate_inline@.map_values(|p: (String, usize)| p.0@);
        assert(dv =~= strs(dup_ids@));
        assert forall|id: Seq<char>| #[trigger] dv.contains(id) <==> def_count(evs, id) > 1 by {
            if def_count(evs, id) > 1 {
                vstd::seq_lib::to_multiset_contains(def_ids(evs), id);
                assert(def_ids(evs).contains(id));
                assert(strs(inline_ids@).take(m as int) =~= strs(inline_ids@));
            }
            assert(strs(inline_ids@).take(m as int) =~= strs(inline_ids@));
        }
    }

    // Referenced ids with no definition.
    let mut dangling_refs: Vec<String> = Vec::new();
    let r = ref_targets.len();
    for i in 0..r
        invariant
            r == ref_targets@.len(),
            strs(inline_ids@) == def_ids(evs),
            strs(ref_targets@) == use_ids(evs),
            sorted_strict(strs(dangling_refs@)),
            forall|id: Seq<char>|
                #[trigger] strs(dangling_refs@).contains(id) <==> (strs(ref_targets@).take(i as int).contains(id)
                    && !def_ids(evs).contains(id)),
    {
        let c = count_str(&inline_ids, &ref_targets[i]);
        proof {
            vstd::seq_lib::to_multiset_contains(def_ids(evs), ref_targets@[i as int]@);
        }
        if c == 0 {
            insert_sorted_unique(&mut dangling_refs, ref_targets[i].clone());
        }
        proof {
            let s = strs(ref_targets@);
            assert(s[i as int] == ref_targets@[i as int]@);
            assert(s.take(i + 1)[i as int] == s[i as int]);
            assert forall|id: Seq<char>|
                #[trigger] strs(dangling_refs@).contains(id) <==> (s.take(i + 1).contains(id) && !def_ids(evs).contains(id)) by {
                let t0 = s.take(i as int);
                let t1 = s.take(i + 1);
                if t1.contains(id) && !t0.contains(id) {
                    let k = choose|k: int| 0 <= k < t1.len() && t1[k] == id;
                    if k < i {
                        assert(t0[k] == id);
                    }
                }
                if t0.contains(id) {
                    let k = choose|k: int| 0 <= k < t0.len() && t0[k] == id;
                    assert(t1[k] == id);
                }
            }
        }
    }
    proof {
        assert(strs(ref_targets@).take(r as int) =~= strs(ref_targets@));
    }

    // Second pass: root by root, flag the references of a root whose target
    // is defined in the document but not in that root or an earlier one.
    let ghost all = def_ids(evs).to_set();
    let mut seen: Vec<String> = Vec::new();
    let mut forward_list: Vec<(String, String)> = Vec::new();
    for i in 0..n
        invariant
            n == roots@.len(),
            strs(inline_ids@) == def_ids(evs),
            all == def_ids(evs).to_set(),
            strs(seen@) == def_ids(events_roots(roots@.take(i as int))),
            str_pairs(forward_list@) == forward_refs_of(roots@.take(i as int), all),
    {
        let mut uses: Vec<String> = Vec::new();
        walk_object(&roots[i], &mut seen, &mut uses);
        proof {
            let t = roots@.take(i as int);
            assert(roots@.take(i + 1).drop_last() =~= t);
            assert(roots@.take(i + 1).last() == roots@[i as int]);
            lemma_def_ids_concat(events_roots(t), events_object(roots@[i as int]));
            assert(strs(uses@) =~= use_ids(events_object(roots@[i as int])));
        }
        let ghost base = forward_list@;
        let ghost upto = strs(seen@).to_set();
        let ghost root_id = roots@[i as int].id@;
        let u = uses.len();
        for j in 0..u
            invariant
                u == uses@.len(),
                strs(inline_ids@) == def_ids(evs),
                all == def_ids(evs).to_set(),
                upto == strs(seen@).to_set(),
                root_id == roots@[i as int].id@,
                i < n,
                n == roots@.len(),
                str_pairs(forward_list@) == str_pairs(base) + later_uses(strs(uses@).take(j as int), upto, all, root_id),
        {
            let later = contains_str(&inline_ids, &uses[j]) && !contains_str(&seen, &uses[j]);
            let ghost before = forward_list@;
            if later {
                let p = (roots[i].id.clone(), uses[j].clone());
                proof {
                    lemma_str_pairs_push(forward_list@, p);
                }
                forward_list.push(p);
            }
            proof {
                let su = strs(uses@);
                assert(su.take(j + 1).drop_last() =~= su.take(j as int));
                assert(su.take(j + 1).last() == uses@[j as int]@);
                assert(strs(inline_ids@).to_set().contains(uses@[j as int]@) == strs(inline_ids@).contains(uses@[j as int]@));
                assert(upto.contains(uses@[j as int]@) == strs(seen@).contains(uses@[j as int]@));
                assert(str_pairs(forward_list@) =~= str_pairs(base) + later_uses(su.take(j + 1), upto, all, root_id));
            }
        }
        proof {
            assert(strs(uses@).take(u as int) =~= strs(uses@));
            let t1 = roots@.take(i + 1);
            assert(t1.drop_last() =~= roots@.take(i as int));
            assert(t1.last() == roots@[i as int]);
        }
    }
    proof {
        assert(roots@.take(n as int) =~= roots@);
    }
    let mut forward_refs: Vec<(String, String)> = Vec::new();
    let f = forward_list.len();
    proof {
        assert(str_pairs(forward_list@.take(0)) =~= str_pairs(forward_refs@));
    }
    for i in 0..f
        invariant
            f == forward_list@.len(),
            sorted_pairs(str_pairs(forward_refs@)),
            str_pairs(forward_refs@).to_multiset() == str_pairs(forward_list@.take(i as int)).to_multiset(),
    {
        let p = (forward_list[i].0.clone(), forward_list[i].1.clone());
        insert_sorted_pair(&mut forward_refs, p);
        proof {
            assert(forward_list@.take(i + 1) =~= forward_list@.take(i as int).push(forward_list@[i as int]));
            assert(str_pairs(forward_list@.take(i + 1)) =~= str_pairs(forward_list@.take(i as int)).push(
                (forward_list@[i as int].0@, forward_list@[i as int].1@),
            ));
            vstd::seq_lib::to_multiset_build(
                str_pairs(forward_list@.take(i as int)),
                (forward_list@[i as int].0@, forward_list@[i as int].1@),
            );
        }
    }
    proof {
        assert(forward_list@.take(f as int) =~= forward_list@);
    }
    VerifyReport { duplicate_inline, dangling_refs, forward_refs }
}


/// `id x<count>`, one entry of the duplicate list in a summary.
pub open spec fn dup_entry(p: (String, usize)) -> Seq<char> {
    p.0@ + " x"@ + decimal(p.1 as nat)
}

/// `referrer->target`, one entry of the forward-reference list in a summary.
pub open spec fn fwd_entry(p: (String, String)) -> Seq<char> {
    p.0@ + "->"@ + p.1@
}

/// The one-line summary of a report: a part per non-empty list, joined by `; `.
pub open spec fn summary_text(r: VerifyReport) -> Seq<char> {
    let dup_part: Seq<Seq<char>> = if r.duplicate_inline@.len() == 0 {
        Seq::empty()
    } else {
        seq!["duplicate inline objects: "@ + seq_join(r.duplicate_inline@.map_values(|p: (String, usize)| dup_entry(p)), ", "@)]
    };
    let dangling_part: Seq<Seq<char>> = if r.dangling_refs@.len() == 0 {
        Seq::empty()
    } else {
        seq!["dangling refs: "@ + seq_join(strs(r.dangling_refs@), ", "@)]
    };
    let fwd_part: Seq<Seq<char>> = if r.forward_refs@.len() == 0 {
        Seq::empty()
    } else {
        seq!["forward refs: "@ + seq_join(r.forward_refs@.map_values(|p: (String, String)| fwd_entry(p)), ", "@)]
    };
    seq_join(dup_part + dangling_part + fwd_part, "; "@)
}

impl VerifyReport {
    /// Whether no problem was found.
    pub open spec fn ok(&self) -> bool {
        &&& self.duplicate_inline@.len() == 0
        &&& self.dangling_refs@.len() == 0
        &&& self.forward_refs@.len() == 0
    }

    /// Whether no problem was found.
    pub fn is_ok(&self) -> (r: bool)
        ensures
            r == self.ok(),
    {
        self.duplicate_inline.is_empty() && self.dangling_refs.is_empty() && self.forward_refs.is_empty()
    }

    /// One-line summary suitable for an error message.
    pub fn summary(&self) -> (s: String)
        ensures
            s@ == summary_text(*self),
    {
        let mut parts: Vec<String> = Vec::new();
        if !self.duplicate_inline.is_empty() {
            let mut dups: Vec<String> = Vec::new();
            let n = self.duplicate_inline.len();
            for i in 0..n
                invariant
                    n == self.duplicate_inline@.len(),
                    strs(dups@) == self.duplicate_inline@.take(i as int).map_values(
                        |p: (String, usize)| dup_entry(p),
                    ),
            {
                let mut e = self.duplicate_inline[i].0.clone();
                e.append(" x");
                push_decimal(&mut e, self.duplicate_inline[i].1 as u64);
                let ghost prev = strs(dups@);
                let ghost ev = e@;
                proof {
                    assert(ev =~= dup_entry(self.duplicate_inline@[i as int]));
                }
                dups.push(e);
                proof {
                    assert(strs(dups@) =~= prev.push(ev));
                    assert(self.duplicate_inline@.take(i + 1) =~= self.duplicate_inline@.take(i as int).push(
                        self.duplicate_inline@[i as int],
                    ));
                    assert(strs(dups@) =~= self.duplicate_inline@.take(i + 1).map_values(
                        |p: (String, usize)| dup_entry(p),
                    ));
                }
            }
            proof {
                assert(self.duplicate_inline@.take(n as int) =~= self.duplicate_inline@);
            }
            let mut part = String::from_str("duplicate inline objects: ");
            let joined = join_strings(&dups, ", ");
            part.append(joined.as_str());
            parts.push(part);
        }
        let ghost after_dup = strs(parts@);
        if !self.dangling_refs.is_empty() {
            let mut part = String::from_str("dangling refs: ");
            let joined = join_strings(&self.dangling_refs, ", ");
            part.append(joined.as_str());
            parts.push(part);
        }
        let ghost after_dangling = strs(parts@);
        if !self.forward_refs.is_empty() {
            let mut fwds: Vec<String> = Vec::new();
            let n = self.forward_refs.len();
            for i in 0..n
                invariant
                    n == self.forward_refs@.len(),
                    strs(fwds@) == self.forward_refs@.take(i as int).map_values(
                        |p: (String, String)| fwd_entry(p),
                    ),
            {
                let mut e = self.forward_refs[i].0.clone();
                e.append("->");
                e.append(self.forward_refs[i].1.as_str());
                let ghost prev = strs(fwds@);
                let ghost ev = e@;
                proof {
                    assert(ev =~= fwd_entry(self.forward_refs@[i as int]));
                }
                fwds.push(e);
                proof {
                    assert(strs(fwds@) =~= prev.push(ev));
                    assert(self.forward_refs@.take(i + 1) =~= self.forward_refs@.take(i as int).push(
                        self.forward_refs@[i as int],
                    ));
                    assert(strs(fwds@) =~= self.forward_refs@.take(i + 1).map_values(
                        |p: (String, String)| fwd_entry(p),
                    ));
                }
            }
            proof {
                assert(self.forward_refs@.take(n as int) =~= self.forward_refs@);
            }
            let mut part = String::from_str("forward refs: ");
            let joined = join_strings(&fwds, ", ");
            part.append(joined.as_str());
            parts.push(part);
        }
        let r = join_strings(&parts, "; ");
        proof {
            let r0 = *self;
            let dup_part: Seq<Seq<char>> = if r0.duplicate_inline@.len() == 0 {
                Seq::empty()
            } else {
                seq!["duplicate inline objects: "@ + seq_join(r0.duplicate_inline@.map_values(|p: (String, usize)| dup_entry(p)), ", "@)]
            };
            let dangling_part: Seq<Seq<char>> = if r0.dangling_refs@.len() == 0 {
                Seq::empty()
            } else {
                seq!["dangling refs: "@ + seq_join(strs(r0.dangling_refs@), ", "@)]
            };
            let fwd_part: Seq<Seq<char>> = if r0.forward_refs@.len() == 0 {
                Seq::empty()
            } else {
                seq!["forward refs: "@ + seq_join(r0.forward_refs@.map_values(|p: (String, String)| fwd_entry(p)), ", "@)]
            };
            assert(after_dup =~= dup_part);
            assert(after_dangling =~= dup_part + dangling_part);
            assert(strs(parts@) =~= dup_part + dangling_part + fwd_part);
        }
        r
    }
}


// ── Laws ─────────────────────────────────────────────────────────────────────

/// A report is clean exactly when no model id is defined inline more than
/// once, every referenced id is defined somewhere, and no reference names a
/// model first defined in a later root.
pub proof fn law_report_ok_iff_document_sound(r: VerifyReport, roots: Seq<BokehObject>)
    requires
        report_describes(r, roots),
    ensures
        r.ok() <==> ((forall|id: Seq<char>| #[trigger] def_count(events_roots(roots), id) <= 1)
            && (forall|t: Seq<char>| #[trigger] use_ids(events_roots(roots)).contains(t)
                ==> def_ids(events_roots(roots)).contains(t))
            && forward_refs_of(roots, def_ids(events_roots(roots)).to_set()).len() == 0),
{
    let evs = events_roots(roots);
    let dup_ids = r.duplicate_inline@.map_values(|p: (String, usize)| p.0@);
    vstd::seq_lib::to_multiset_len(str_pairs(r.forward_refs@));
    vstd::seq_lib::to_multiset_len(forward_refs_of(roots, def_ids(evs).to_set()));
    if r.ok() {
        assert forall|id: Seq<char>| #[trigger] def_count(evs, id) <= 1 by {
            if def_count(evs, id) > 1 {
                assert(dup_ids.contains(id));
            }
        }
        assert forall|t: Seq<char>| #[trigger] use_ids(evs).contains(t) implies def_ids(evs).contains(t) by {
            if !def_ids(evs).contains(t) {
                assert(strs(r.dangling_refs@).contains(t));
            }
        }
    }
    if (forall|id: Seq<char>| #[trigger] def_count(evs, id) <= 1)
        && (forall|t: Seq<char>| #[trigger] use_ids(evs).contains(t) ==> def_ids(evs).contains(t))
        && forward_refs_of(roots, def_ids(evs).to_set()).len() == 0 {
        if r.duplicate_inline@.len() > 0 {
            assert(dup_ids.contains(dup_ids[0]));
            assert(def_count(evs, dup_ids[0]) <= 1);
        }
        if r.dangling_refs@.len() > 0 {
            let t = strs(r.dangling_refs@)[0];
            assert(strs(r.dangling_refs@).contains(t));
        }
    }
}

/// The duplicate list of a report as `(id, count)` values.
pub open spec fn dup_view(r: VerifyReport) -> Seq<(Seq<char>, usize)> {
    r.duplicate_inline@.map_values(|p: (String, usize)| (p.0@, p.1))
}

/// A report is a function of the roots it describes: two reports that both
/// describe the same roots hold the same lists.
pub proof fn law_report_is_determined_by_roots(r1: VerifyReport, r2: VerifyReport, roots: Seq<BokehObject>)
    requires
        report_describes(r1, roots),
        report_describes(r2, roots),
    ensures
        dup_view(r1) == dup_view(r2),
        strs(r1.dangling_refs@) == strs(r2.dangling_refs@),
        str_pairs(r1.forward_refs@) == str_pairs(r2.forward_refs@),
{
    let evs = events_roots(roots);
    let d1 = r1.duplicate_inline@.map_values(|p: (String, usize)| p.0@);
    let d2 = r2.duplicate_inline@.map_values(|p: (String, usize)| p.0@);
    assert forall|x: Seq<char>| d1.contains(x) <==> d2.contains(x) by {
        assert(d1.contains(x) <==> def_count(evs, x) > 1);
        assert(d2.contains(x) <==> def_count(evs, x) > 1);
    }
    lemma_sorted_strict_unique(d1, d2);
    assert forall|i: int| 0 <= i < dup_view(r1).len() implies dup_view(r1)[i] == dup_view(r2)[i] by {
        assert(d1[i] == r1.duplicate_inline@[i].0@);
        assert(d2[i] == r2.duplicate_inline@[i].0@);
        assert(r1.duplicate_inline@[i].1 == def_count(evs, r1.duplicate_inline@[i].0@));
        assert(r2.duplicate_inline@[i].1 == def_count(evs, r2.duplicate_inline@[i].0@));
    }
    assert(dup_view(r1) =~= dup_view(r2));
    let s1 = strs(r1.dangling_refs@);
    let s2 = strs(r2.dangling_refs@);
    assert forall|x: Seq<char>| s1.contains(x) <==> s2.contains(x) by {
        assert(s1.contains(x) <==> (use_ids(evs).contains(x) && !def_ids(evs).contains(x)));
        assert(s2.contains(x) <==> (use_ids(evs).contains(x) && !def_ids(evs).contains(x)));
    }
    lemma_sorted_strict_unique(s1, s2);
    lemma_sorted_pairs_unique(str_pairs(r1.forward_refs@), str_pairs(r2.forward_refs@));
}

/// A document without roots is sound: its report is clean.
pub proof fn law_no_roots_is_ok(r: VerifyReport)
    requires
        report_describes(r, Seq::<BokehObject>::empty()),
    ensures
        r.ok(),
{
    let roots = Seq::<BokehObject>::empty();
    assert(events_roots(roots) =~= Seq::<DocEvent>::empty());
    assert(def_ids(events_roots(roots)) =~= Seq::<Seq<char>>::empty());
    assert(use_ids(events_roots(roots)) =~= Seq::<Seq<char>>::empty());
    assert(forward_refs_of(roots, def_ids(events_roots(roots)).to_set()) =~= Seq::<(Seq<char>, Seq<char>)>::empty());
    assert forall|id: Seq<char>| #[trigger] def_count(events_roots(roots), id) <= 1 by {
        vstd::seq_lib::to_multiset_contains(def_ids(events_roots(roots)), id);
    }
    law_report_ok_iff_document_sound(r, roots);
}


proof fn lemma_join_nonempty(list: Seq<Seq<char>>, sep: Seq<char>)
    requires
        list.len() > 0,
        list.last().len() > 0,
    ensures
        seq_join(list, sep).len() > 0,
{
}

/// The summary is empty exactly when the report is clean.
pub proof fn law_summary_empty_iff_ok(r: VerifyReport)
    ensures
        summary_text(r).len() == 0 <==> r.ok(),
{
    reveal_strlit("duplicate inline objects: ");
    reveal_strlit("dangling refs: ");
    reveal_strlit("forward refs: ");
    let dup_part: Seq<Seq<char>> = if r.duplicate_inline@.len() == 0 {
        Seq::empty()
    } else {
        seq!["duplicate inline objects: "@ + seq_join(r.duplicate_inline@.map_values(|p: (String, usize)| dup_entry(p)), ", "@)]
    };
    let dangling_part: Seq<Seq<char>> = if r.dangling_refs@.len() == 0 {
        Seq::empty()
    } else {
        seq!["dangling refs: "@ + seq_join(strs(r.dangling_refs@), ", "@)]
    };
    let fwd_part: Seq<Seq<char>> = if r.forward_refs@.len() == 0 {
        Seq::empty()
    } else {
        seq!["forward refs: "@ + seq_join(r.forward_refs@.map_values(|p: (String, String)| fwd_entry(p)), ", "@)]
    };
    let parts = dup_part + dangling_part + fwd_part;
    if r.ok() {
        assert(parts =~= Seq::<Seq<char>>::empty());
    } else {
        assert(parts.len() > 0);
        assert(parts.last().len() > 0);
        lemma_join_nonempty(parts, "; "@);
    }
}

} // verus!
