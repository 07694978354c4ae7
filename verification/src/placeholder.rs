//! Placeholder rewriting and `ColumnDataSource` hoisting.
//!
//! Filter widgets carry a placeholder reference `__cds_<source_key>` in their
//! callback arguments. Once charts are built and the real data-source ids are
//! known, those references are patched in place.

use vstd::prelude::*;
use crate::model::{BokehObject, BokehValue, ModelObject, ModelValue, lemma_view_attrs_index, lemma_view_values_index, view_attrs, view_object, view_value, view_values};
use crate::text::str_eq;

verus! {

// ── Finding the data source of a figure ──────────────────────────────────────

/// The id of the data source named by the first `data_source` attribute.
pub open spec fn data_source_id(attrs: Seq<(Seq<char>, ModelValue)>) -> Option<Seq<char>>
    decreases attrs.len(),
{
    if attrs.len() == 0 {
        None
    } else if attrs[0].0 == "data_source"@ {
        match attrs[0].1 {
            ModelValue::Object(cds) => Some(cds.id),
            ModelValue::Ref(id) => Some(id),
            _ => None,
        }
    } else {
        data_source_id(attrs.drop_first())
    }
}

/// The data-source id of a renderer value: only a `GlyphRenderer` model has one.
pub open spec fn renderer_cds_id(v: ModelValue) -> Option<Seq<char>> {
    match v {
        ModelValue::Object(o) => if o.name == "GlyphRenderer"@ {
            data_source_id(o.attrs)
        } else {
            None
        },
        _ => None,
    }
}

/// The first data-source id among `renderers`, in order.
pub open spec fn first_cds_id(renderers: Seq<ModelValue>) -> Option<Seq<char>>
    decreases renderers.len(),
{
    if renderers.len() == 0 {
        None
    } else {
        match renderer_cds_id(renderers[0]) {
            Some(id) => Some(id),
            None => first_cds_id(renderers.drop_first()),
        }
    }
}

/// The renderers listed by every `renderers` attribute holding an array, in order.
pub open spec fn all_renderers(attrs: Seq<(Seq<char>, ModelValue)>) -> Seq<ModelValue>
    decreases attrs.len(),
{
    if attrs.len() == 0 {
        Seq::empty()
    } else {
        let rest = all_renderers(attrs.drop_first());
        if attrs[0].0 == "renderers"@ {
            match attrs[0].1 {
                ModelValue::Array(rs) => rs + rest,
                _ => rest,
            }
        } else {
            rest
        }
    }
}

proof fn lemma_first_cds_id_concat(a: Seq<ModelValue>, b: Seq<ModelValue>)
    ensures
        first_cds_id(a + b) == (match first_cds_id(a) {
            Some(id) => Some(id),
            None => first_cds_id(b),
        }),
    decreases a.len(),
{
    if a.len() == 0 {
        assert(a + b =~= b);
    } else {
        assert((a + b).drop_first() =~= a.drop_first() + b);
        lemma_first_cds_id_concat(a.drop_first(), b);
    }
}

/// The data-source id of `val` if it is a `GlyphRenderer` model.
pub fn find_cds_id_in_value(val: &BokehValue) -> (r: Option<String>)
    ensures
        r matches Some(s) ==> renderer_cds_id(val@) == Some(s@),
        r is None ==> renderer_cds_id(val@) is None,
{
    if let BokehValue::Object(obj) = val {
        proof {
            assert(val@ == ModelValue::Object(Box::new(view_object(**obj))));
        }
        if str_eq(obj.name.as_str(), "GlyphRenderer") {
            let n = obj.attributes.len();
            proof {
                lemma_view_attrs_index(obj.attributes@);
            }
            let ghost attrs = view_attrs(obj.attributes@);
            proof {
                assert(attrs.skip(0) =~= attrs);
            }
            for i in 0..n
                invariant
                    n == obj.attributes@.len(),
                    attrs == view_attrs(obj.attributes@),
                    renderer_cds_id(val@) == data_source_id(attrs),
                    attrs.len() == n,
                    forall|j: int| 0 <= j < n ==> #[trigger] attrs[j] == (obj.attributes@[j].0@, view_value(obj.attributes@[j].1)),
                    data_source_id(attrs) == data_source_id(attrs.skip(i as int)),
            {
                proof {
                    assert(attrs.skip(i as int)[0] == attrs[i as int]);
                    assert(attrs.skip(i as int).drop_first() =~= attrs.skip(i + 1));
                }
                if str_eq(obj.attributes[i].0.as_str(), "data_source") {
                    proof {
                        let v = obj.attributes@[i as int].1;
                        assert(attrs[i as int].1 == view_value(v));
                        match v {
                            BokehValue::Object(c) => {
                                assert(view_value(v) == ModelValue::Object(Box::new(view_object(*c))));
                            },
                            _ => {},
                        }
                    }
                    return match &obj.attributes[i].1 {
                        BokehValue::Object(cds) => Some(cds.id.clone()),
                        BokehValue::Ref(id) => Some(id.clone()),
                        _ => None,
                    };
                }
            }
            proof {
                assert(attrs.skip(n as int) =~= Seq::<(Seq<char>, ModelValue)>::empty());
            }
            return None;
        }
    }
    None
}

/// The id of the first `ColumnDataSource` among a figure's renderers.
pub fn extract_first_cds_id(fig: &BokehObject) -> (r: Option<String>)
    ensures
        r matches Some(s) ==> first_cds_id(all_renderers(fig@.attrs)) == Some(s@),
        r is None ==> first_cds_id(all_renderers(fig@.attrs)) is None,
{
    let n = fig.attributes.len();
    proof {
        lemma_view_attrs_index(fig.attributes@);
        assert(fig@.attrs.skip(0) =~= fig@.attrs);
    }
    let ghost attrs = fig@.attrs;
    let ghost target = first_cds_id(all_renderers(attrs));
    for i in 0..n
        invariant
            target == first_cds_id(all_renderers(attrs)),
            n == fig.attributes@.len(),
            attrs == fig@.attrs,
            attrs.len() == n,
            forall|j: int| 0 <= j < n ==> #[trigger] attrs[j] == (fig.attributes@[j].0@, view_value(fig.attributes@[j].1)),
            first_cds_id(all_renderers(attrs)) == first_cds_id(all_renderers(attrs.skip(i as int))),
    {
        let ghost rest = attrs.skip(i as int);
        proof {
            assert(rest[0] == attrs[i as int]);
            assert(rest.drop_first() =~= attrs.skip(i + 1));
        }
        if str_eq(fig.attributes[i].0.as_str(), "renderers") {
            if let BokehValue::Array(renderers) = &fig.attributes[i].1 {
                let m = renderers.len();
                proof {
                    lemma_view_values_index(renderers@);
                    lemma_first_cds_id_concat(view_values(renderers@), all_renderers(attrs.skip(i + 1)));
                    assert(view_values(renderers@).skip(0) =~= view_values(renderers@));
                }
                let ghost rs = view_values(renderers@);
                proof {
                    assert(rest[0].1 == ModelValue::Array(rs));
                    assert(all_renderers(rest) == rs + all_renderers(attrs.skip(i + 1)));
                }
                let ghost after = first_cds_id(all_renderers(attrs.skip(i + 1)));
                for j in 0..m
                    invariant
                        m == renderers@.len(),
                        target == first_cds_id(all_renderers(fig@.attrs)),
                        target == (match first_cds_id(rs.skip(j as int)) {
                            Some(id) => Some(id),
                            None => after,
                        }),
                        rs == view_values(renderers@),
                        rs.len() == m,
                        forall|k: int| 0 <= k < m ==> #[trigger] rs[k] == view_value(renderers@[k]),
                        first_cds_id(rs) == first_cds_id(rs.skip(j as int)),
                {
                    proof {
                        assert(rs.skip(j as int)[0] == rs[j as int]);
                        assert(rs.skip(j as int).drop_first() =~= rs.skip(j + 1));
                    }
                    let found = find_cds_id_in_value(&renderers[j]);
                    if found.is_some() {
                        proof {
                            assert(rs[j as int] == view_value(renderers@[j as int]));
                        }
                        return found;
                    }
                }
                proof {
                    assert(rs.skip(m as int) =~= Seq::<ModelValue>::empty());
                }
            }
        }
    }
    proof {
        assert(attrs.skip(n as int) =~= Seq::<(Seq<char>, ModelValue)>::empty());
    }
    None
}


// ── Replacing placeholder references ─────────────────────────────────────────

/// `v` with every reference to `ph` replaced by a reference to `rid`, inside
/// arrays, maps, inline models, value wrappers and field transforms.
pub open spec fn subst_value(v: ModelValue, ph: Seq<char>, rid: Seq<char>) -> ModelValue
    decreases v,
{
    match v {
        ModelValue::Ref(id) => if id == ph {
            ModelValue::Ref(rid)
        } else {
            v
        },
        ModelValue::Array(a) => ModelValue::Array(subst_values(a, ph, rid)),
        ModelValue::Entries(e) => ModelValue::Entries(subst_attrs(e, ph, rid)),
        ModelValue::Object(o) => ModelValue::Object(Box::new(subst_object(*o, ph, rid))),
        ModelValue::Value(inner) => ModelValue::Value(Box::new(subst_value(*inner, ph, rid))),
        ModelValue::FieldTransform(f, t) => ModelValue::FieldTransform(f, Box::new(subst_value(*t, ph, rid))),
        _ => v,
    }
}

pub open spec fn subst_values(s: Seq<ModelValue>, ph: Seq<char>, rid: Seq<char>) -> Seq<ModelValue>
    decreases s,
{
    if s.len() == 0 {
        s
    } else {
        subst_values(s.drop_last(), ph, rid).push(subst_value(s.last(), ph, rid))
    }
}

pub open spec fn subst_attrs(s: Seq<(Seq<char>, ModelValue)>, ph: Seq<char>, rid: Seq<char>) -> Seq<(Seq<char>, ModelValue)>
    decreases s,
{
    if s.len() == 0 {
        s
    } else {
        subst_attrs(s.drop_last(), ph, rid).push((s.last().0, subst_value(s.last().1, ph, rid)))
    }
}

pub open spec fn subst_object(o: ModelObject, ph: Seq<char>, rid: Seq<char>) -> ModelObject
    decreases o,
{
    ModelObject { name: o.name, id: o.id, attrs: subst_attrs(o.attrs, ph, rid) }
}

pub proof fn lemma_subst_values_index(s: Seq<ModelValue>, ph: Seq<char>, rid: Seq<char>)
    ensures
        subst_values(s, ph, rid).len() == s.len(),
        forall|i: int| 0 <= i < s.len() ==> #[trigger] subst_values(s, ph, rid)[i] == subst_value(s[i], ph, rid),
    decreases s.len(),
{
    if s.len() > 0 {
        lemma_subst_values_index(s.drop_last(), ph, rid);
    }
}

pub proof fn lemma_subst_attrs_index(s: Seq<(Seq<char>, ModelValue)>, ph: Seq<char>, rid: Seq<char>)
    ensures
        subst_attrs(s, ph, rid).len() == s.len(),
        forall|i: int| 0 <= i < s.len() ==> #[trigger] subst_attrs(s, ph, rid)[i] == (s[i].0, subst_value(s[i].1, ph, rid)),
    decreases s.len(),
{
    if s.len() > 0 {
        lemma_subst_attrs_index(s.drop_last(), ph, rid);
    }
}

/// Recursively replace every reference to `placeholder` inside `obj`'s
/// attributes with a reference to `real_id`.
pub fn replace_placeholder_in_obj(obj: &mut BokehObject, placeholder: &str, real_id: &str)
    ensures
        final(obj)@ == subst_object(old(obj)@, placeholder@, real_id@),
    decreases *old(obj),
{
    replace_in_attrs(&mut obj.attributes, placeholder, real_id);
}

fn replace_in_attrs(attrs: &mut Vec<(String, BokehValue)>, placeholder: &str, real_id: &str)
    ensures
        view_attrs(final(attrs)@) == subst_attrs(view_attrs(old(attrs)@), placeholder@, real_id@),
    decreases *old(attrs),
{
    let n = attrs.len();
    for i in 0..n
        invariant
            n == attrs@.len(),
            attrs@.len() == old(attrs)@.len(),
            forall|j: int| 0 <= j < i ==> #[trigger] attrs@[j].0 == old(attrs)@[j].0,
            forall|j: int| 0 <= j < i ==> #[trigger] view_value(attrs@[j].1) == subst_value(view_value(old(attrs)@[j].1), placeholder@, real_id@),
            forall|j: int| i <= j < n ==> #[trigger] attrs@[j] == old(attrs)@[j],
    {
        replace_placeholder(&mut attrs[i].1, placeholder, real_id);
    }
    proof {
        lemma_view_attrs_index(attrs@);
        lemma_view_attrs_index(old(attrs)@);
        lemma_subst_attrs_index(view_attrs(old(attrs)@), placeholder@, real_id@);
        assert(view_attrs(attrs@) =~= subst_attrs(view_attrs(old(attrs)@), placeholder@, real_id@));
    }
}

fn replace_in_values(arr: &mut Vec<BokehValue>, placeholder: &str, real_id: &str)
    ensures
        view_values(final(arr)@) == subst_values(view_values(old(arr)@), placeholder@, real_id@),
    decreases *old(arr),
{
    let n = arr.len();
    for i in 0..n
        invariant
            n == arr@.len(),
            arr@.len() == old(arr)@.len(),
            forall|j: int| 0 <= j < i ==> #[trigger] view_value(arr@[j]) == subst_value(view_value(old(arr)@[j]), placeholder@, real_id@),
            forall|j: int| i <= j < n ==> #[trigger] arr@[j] == old(arr)@[j],
    {
        replace_placeholder(&mut arr[i], placeholder, real_id);
    }
    proof {
        lemma_view_values_index(arr@);
        lemma_view_values_index(old(arr)@);
        lemma_subst_values_index(view_values(old(arr)@), placeholder@, real_id@);
        assert(view_values(arr@) =~= subst_values(view_values(old(arr)@), placeholder@, real_id@));
    }
}

/// Replace every reference to `placeholder` inside `val` with one to `real_id`.
pub fn replace_placeholder(val: &mut BokehValue, placeholder: &str, real_id: &str)
    ensures
        final(val)@ == subst_value(old(val)@, placeholder@, real_id@),
    decreases *old(val),
{
    match val {
        BokehValue::Ref(id) => {
            if str_eq(id.as_str(), placeholder) {
                *id = String::from_str(real_id);
            }
        },
        BokehValue::Array(arr) => replace_in_values(arr, placeholder, real_id),
        BokehValue::Entries(entries) => replace_in_attrs(entries, placeholder, real_id),
        BokehValue::Object(obj) => replace_placeholder_in_obj(obj, placeholder, real_id),
        BokehValue::Value(inner) => replace_placeholder(inner, placeholder, real_id),
        BokehValue::FieldTransform { transform, .. } => replace_placeholder(transform, placeholder, real_id),
        _ => {},
    }
}


/// Replacing a placeholder by itself changes nothing.
pub proof fn law_subst_self_is_identity(v: ModelValue, ph: Seq<char>)
    ensures
        subst_value(v, ph, ph) == v,
    decreases v,
{
    match v {
        ModelValue::Array(a) => {
            law_subst_values_self(a, ph);
            assert(subst_value(v, ph, ph) == ModelValue::Array(subst_values(a, ph, ph)));
            assert(subst_values(a, ph, ph) == a);
            assert(v == ModelValue::Array(a));
            assert(subst_value(v, ph, ph) == v);
        },
        ModelValue::Object(o) => {
            law_subst_attrs_self(o.attrs, ph);
            assert(subst_object(*o, ph, ph) =~= *o);
            assert(subst_value(v, ph, ph) == v);
        },
        ModelValue::Value(inner) => {
            law_subst_self_is_identity(*inner, ph);
            assert(subst_value(v, ph, ph) == v);
        },
        ModelValue::FieldTransform(f, t) => {
            law_subst_self_is_identity(*t, ph);
            assert(subst_value(v, ph, ph) == v);
        },
        ModelValue::Entries(e) => {
            law_subst_attrs_self(e, ph);
            assert(subst_value(v, ph, ph) == v);
        },
        _ => {
            assert(subst_value(v, ph, ph) == v);
        },
    }
}

proof fn law_subst_values_self(s: Seq<ModelValue>, ph: Seq<char>)
    ensures
        subst_values(s, ph, ph) == s,
    decreases s,
{
    if s.len() > 0 {
        law_subst_values_self(s.drop_last(), ph);
        law_subst_self_is_identity(s.last(), ph);
        assert(s.drop_last().push(s.last()) =~= s);
    }
}

proof fn law_subst_attrs_self(s: Seq<(Seq<char>, ModelValue)>, ph: Seq<char>)
    ensures
        subst_attrs(s, ph, ph) == s,
    decreases s,
{
    if s.len() > 0 {
        law_subst_attrs_self(s.drop_last(), ph);
        law_subst_self_is_identity(s.last().1, ph);
        assert(s.drop_last().push((s.last().0, s.last().1)) =~= s);
    }
}

/// Replacing a placeholder twice is the same as replacing it once: after the
/// first pass no reference to it is left where the rewrite reaches.
pub proof fn law_subst_idempotent(v: ModelValue, ph: Seq<char>, rid: Seq<char>)
    requires
        ph != rid,
    ensures
        subst_value(subst_value(v, ph, rid), ph, rid) == subst_value(v, ph, rid),
    decreases v,
{
    match v {
        ModelValue::Array(a) => {
            law_subst_values_idempotent(a, ph, rid);
            assert(subst_value(v, ph, rid) == ModelValue::Array(subst_values(a, ph, rid)));
            assert(subst_value(subst_value(v, ph, rid), ph, rid) == ModelValue::Array(
                subst_values(subst_values(a, ph, rid), ph, rid),
            ));
        },
        ModelValue::Entries(e) => law_subst_attrs_idempotent(e, ph, rid),
        ModelValue::Object(o) => {
            law_subst_attrs_idempotent(o.attrs, ph, rid);
            let o1 = subst_object(*o, ph, rid);
            assert(subst_object(o1, ph, rid) =~= o1);
            assert(subst_value(subst_value(v, ph, rid), ph, rid) == subst_value(v, ph, rid));
        },
        ModelValue::Value(inner) => law_subst_idempotent(*inner, ph, rid),
        ModelValue::FieldTransform(f, t) => law_subst_idempotent(*t, ph, rid),
        _ => {},
    }
}

proof fn law_subst_values_idempotent(s: Seq<ModelValue>, ph: Seq<char>, rid: Seq<char>)
    requires
        ph != rid,
    ensures
        subst_values(subst_values(s, ph, rid), ph, rid) == subst_values(s, ph, rid),
    decreases s,
{
    if s.len() > 0 {
        law_subst_values_idempotent(s.drop_last(), ph, rid);
        law_subst_idempotent(s.last(), ph, rid);
        let t = subst_values(s, ph, rid);
        assert(t.drop_last() =~= subst_values(s.drop_last(), ph, rid));
    }
}

proof fn law_subst_attrs_idempotent(s: Seq<(Seq<char>, ModelValue)>, ph: Seq<char>, rid: Seq<char>)
    requires
        ph != rid,
    ensures
        subst_attrs(subst_attrs(s, ph, rid), ph, rid) == subst_attrs(s, ph, rid),
    decreases s,
{
    if s.len() > 0 {
        law_subst_attrs_idempotent(s.drop_last(), ph, rid);
        law_subst_idempotent(s.last().1, ph, rid);
        let t = subst_attrs(s, ph, rid);
        assert(t.drop_last() =~= subst_attrs(s.drop_last(), ph, rid));
    }
}


// ── Hoisting an inline data source out of a figure ───────────────────────────

/// The first `data_source` attribute holding the inline model with id `t`.
pub open spec fn cds_slot(attrs: Seq<(Seq<char>, ModelValue)>, t: Seq<char>) -> Option<int>
    decreases attrs.len(),
{
    if attrs.len() == 0 {
        None
    } else if attrs[0].0 == "data_source"@ && (attrs[0].1 matches ModelValue::Object(c) && c.id == t) {
        Some(0)
    } else {
        match cds_slot(attrs.drop_first(), t) {
            Some(k) => Some(k + 1),
            None => None,
        }
    }
}

/// A `GlyphRenderer` whose data source is the inline model `t`, with that
/// model replaced by a reference to it; and the model taken out.
pub open spec fn hoist_value(v: ModelValue, t: Seq<char>) -> (ModelValue, Option<ModelObject>) {
    match v {
        ModelValue::Object(o) => if o.name == "GlyphRenderer"@ {
            match cds_slot(o.attrs, t) {
                Some(k) => (
                    ModelValue::Object(Box::new(ModelObject {
                        name: o.name,
                        id: o.id,
                        attrs: o.attrs.update(k, (o.attrs[k].0, ModelValue::Ref(t))),
                    })),
                    Some(*(o.attrs[k].1->Object_0)),
                ),
                None => (v, None),
            }
        } else {
            (v, None)
        },
        _ => (v, None),
    }
}

/// The first renderer of `rs` that can be hoisted from, hoisted.
pub open spec fn hoist_renderers(rs: Seq<ModelValue>, t: Seq<char>) -> (Seq<ModelValue>, Option<ModelObject>)
    decreases rs.len(),
{
    if rs.len() == 0 {
        (rs, None)
    } else if hoist_value(rs[0], t).1 is Some {
        (rs.update(0, hoist_value(rs[0], t).0), hoist_value(rs[0], t).1)
    } else {
        let r = hoist_renderers(rs.drop_first(), t);
        (seq![rs[0]] + r.0, r.1)
    }
}

/// The first renderer, over every `renderers` array in order, that can be
/// hoisted from, hoisted.
pub open spec fn hoist_attrs(attrs: Seq<(Seq<char>, ModelValue)>, t: Seq<char>) -> (Seq<(Seq<char>, ModelValue)>, Option<ModelObject>)
    decreases attrs.len(),
{
    if attrs.len() == 0 {
        (attrs, None)
    } else if attrs[0].0 == "renderers"@ && attrs[0].1 is Array && hoist_renderers(
        attrs[0].1->Array_0,
        t,
    ).1 is Some {
        let h = hoist_renderers(attrs[0].1->Array_0, t);
        (attrs.update(0, (attrs[0].0, ModelValue::Array(h.0))), h.1)
    } else {
        let r = hoist_attrs(attrs.drop_first(), t);
        (seq![attrs[0]] + r.0, r.1)
    }
}

/// If `val` is a `GlyphRenderer` whose data source is the inline model
/// `target_id`, replace that model by a reference to it and return it.
pub fn hoist_from_renderer(val: &mut BokehValue, target_id: &str) -> (r: Option<BokehObject>)
    ensures
        final(val)@ == hoist_value(old(val)@, target_id@).0,
        r matches Some(c) ==> hoist_value(old(val)@, target_id@).1 == Some(c@),
        r is None ==> hoist_value(old(val)@, target_id@).1 is None,
{
    let mut taken = BokehValue::Null;
    std::mem::swap(&mut taken, val);
    match taken {
        BokehValue::Object(mut obj) => {
            let ghost o0 = view_object(*obj);
            if str_eq(obj.name.as_str(), "GlyphRenderer") {
                let n = obj.attributes.len();
                proof {
                    lemma_view_attrs_index(obj.attributes@);
                    assert(o0.attrs.skip(0) =~= o0.attrs);
                }
                for i in 0..n
                    invariant
                        n == obj.attributes@.len(),
                        o0 == view_object(*obj),
                        old(val)@ == ModelValue::Object(Box::new(o0)),
                        o0.name == "GlyphRenderer"@,
                        o0.attrs.len() == n,
                        forall|j: int| 0 <= j < n ==> #[trigger] o0.attrs[j] == (obj.attributes@[j].0@, view_value(obj.attributes@[j].1)),
                        cds_slot(o0.attrs, target_id@) == (match cds_slot(o0.attrs.skip(i as int), target_id@) {
                            Some(k) => Some(k + i),
                            None => None,
                        }),
                {
                    let ghost rest = o0.attrs.skip(i as int);
                    proof {
                        assert(rest[0] == o0.attrs[i as int]);
                        assert(rest.drop_first() =~= o0.attrs.skip(i + 1));
                        let v = obj.attributes@[i as int].1;
                        match v {
                            BokehValue::Object(c) => {
                                assert(view_value(v) == ModelValue::Object(Box::new(view_object(*c))));
                            },
                            _ => {},
                        }
                    }
                    if str_eq(obj.attributes[i].0.as_str(), "data_source") {
                        let mut extracted: Option<BokehObject> = None;
                        if let BokehValue::Object(cds) = &obj.attributes[i].1 {
                            if str_eq(cds.id.as_str(), target_id) {
                                extracted = Some((**cds).clone());
                            }
                        }
                        if extracted.is_some() {
                            let new_ref = BokehValue::Ref(String::from_str(target_id));
                            let ghost nr = new_ref;
                            let ghost before = obj.attributes@;
                            obj.attributes[i].1 = new_ref;
                            proof {
                                assert(obj.attributes@ =~= before.update(i as int, (before[i as int].0, nr)));
                                assert(view_value(nr) == ModelValue::Ref(target_id@));
                                lemma_view_attrs_index(obj.attributes@);
                                let upd = o0.attrs.update(i as int, (o0.attrs[i as int].0, ModelValue::Ref(target_id@)));
                                assert forall|j: int| 0 <= j < n implies #[trigger] view_attrs(obj.attributes@)[j] == upd[j] by {
                                    if j != i {
                                        assert(obj.attributes@[j] == before[j]);
                                        assert(o0.attrs[j] == (before[j].0@, view_value(before[j].1)));
                                    }
                                }
                                assert(view_attrs(obj.attributes@) =~= upd);
                                assert(cds_slot(o0.attrs, target_id@) == Some(i as int));
                                lemma_view_attrs_index(obj.attributes@);
                                assert(view_object(*obj) =~= (ModelObject {
                                    name: o0.name,
                                    id: o0.id,
                                    attrs: o0.attrs.update(i as int, (o0.attrs[i as int].0, ModelValue::Ref(target_id@))),
                                }));
                            }
                            *val = BokehValue::Object(obj);
                            return extracted;
                        }
                    }
                }
                proof {
                    assert(o0.attrs.skip(n as int) =~= Seq::<(Seq<char>, ModelValue)>::empty());
                }
            }
            *val = BokehValue::Object(obj);
            None
        },
        other => {
            *val = other;
            None
        },
    }
}


proof fn lemma_hoist_none_unchanged(v: ModelValue, t: Seq<char>)
    requires
        hoist_value(v, t).1 is None,
    ensures
        hoist_value(v, t).0 == v,
{
}

proof fn lemma_hoist_renderers_skip(rs: Seq<ModelValue>, t: Seq<char>, j: int)
    requires
        0 <= j <= rs.len(),
        forall|k: int| 0 <= k < j ==> #[trigger] hoist_value(rs[k], t).1 is None,
    ensures
        hoist_renderers(rs, t) == (rs.take(j) + hoist_renderers(rs.skip(j), t).0, hoist_renderers(rs.skip(j), t).1),
    decreases j,
{
    if j == 0 {
        assert(rs.skip(0) =~= rs);
        assert(rs.take(0) + hoist_renderers(rs, t).0 =~= hoist_renderers(rs, t).0);
    } else {
        let d = rs.drop_first();
        assert forall|k: int| 0 <= k < j - 1 implies #[trigger] hoist_value(d[k], t).1 is None by {
            assert(d[k] == rs[k + 1]);
        }
        lemma_hoist_renderers_skip(d, t, j - 1);
        assert(d.skip(j - 1) =~= rs.skip(j));
        assert(seq![rs[0]] + (d.take(j - 1) + hoist_renderers(rs.skip(j), t).0) =~= rs.take(j) + hoist_renderers(rs.skip(j), t).0);
    }
}

proof fn lemma_hoist_renderers_none(rs: Seq<ModelValue>, t: Seq<char>)
    requires
        hoist_renderers(rs, t).1 is None,
    ensures
        hoist_renderers(rs, t).0 == rs,
    decreases rs.len(),
{
    if rs.len() > 0 {
        lemma_hoist_renderers_none(rs.drop_first(), t);
        assert(seq![rs[0]] + rs.drop_first() =~= rs);
    }
}

/// Hoists from the first renderer of `rs` that has the inline data source.
fn hoist_in_renderers(rs: &mut Vec<BokehValue>, target_id: &str) -> (r: Option<BokehObject>)
    ensures
        view_values(final(rs)@) == hoist_renderers(view_values(old(rs)@), target_id@).0,
        r matches Some(c) ==> hoist_renderers(view_values(old(rs)@), target_id@).1 == Some(c@),
        r is None ==> hoist_renderers(view_values(old(rs)@), target_id@).1 is None,
{
    let ghost s0 = view_values(rs@);
    let n = rs.len();
    proof {
        lemma_view_values_index(rs@);
    }
    for j in 0..n
        invariant
            n == rs@.len(),
            s0 == view_values(old(rs)@),
            s0.len() == n,
            view_values(rs@) == s0,
            forall|k: int| 0 <= k < j ==> #[trigger] hoist_value(s0[k], target_id@).1 is None,
    {
        proof {
            lemma_view_values_index(rs@);
        }
        let ghost before = rs@;
        let found = hoist_from_renderer(&mut rs[j], target_id);
        proof {
            lemma_view_values_index(rs@);
            lemma_hoist_renderers_skip(s0, target_id@, j as int);
            let sk = s0.skip(j as int);
            assert(sk[0] == s0[j as int]);
        }
        if found.is_some() {
            proof {
                let h = hoist_value(s0[j as int], target_id@);
                assert(view_values(rs@) =~= s0.update(j as int, h.0));
                let sk = s0.skip(j as int);
                assert(s0.take(j as int) + sk.update(0, h.0) =~= s0.update(j as int, h.0));
            }
            return found;
        }
        proof {
            lemma_hoist_none_unchanged(s0[j as int], target_id@);
            assert(view_values(rs@) =~= s0);
        }
    }
    proof {
        lemma_hoist_renderers_skip(s0, target_id@, n as int);
        assert(s0.skip(n as int) =~= Seq::<ModelValue>::empty());
        assert(s0.take(n as int) =~= s0);
    }
    None
}

proof fn lemma_hoist_attrs_skip(attrs: Seq<(Seq<char>, ModelValue)>, t: Seq<char>, i: int)
    requires
        0 <= i <= attrs.len(),
        forall|k: int| 0 <= k < i ==> !(#[trigger] attrs[k].0 == "renderers"@ && attrs[k].1 is Array
            && hoist_renderers(attrs[k].1->Array_0, t).1 is Some),
    ensures
        hoist_attrs(attrs, t) == (attrs.take(i) + hoist_attrs(attrs.skip(i), t).0, hoist_attrs(attrs.skip(i), t).1),
    decreases i,
{
    if i == 0 {
        assert(attrs.skip(0) =~= attrs);
        assert(attrs.take(0) + hoist_attrs(attrs, t).0 =~= hoist_attrs(attrs, t).0);
    } else {
        let d = attrs.drop_first();
        assert forall|k: int| 0 <= k < i - 1 implies !(#[trigger] d[k].0 == "renderers"@ && d[k].1 is Array
            && hoist_renderers(d[k].1->Array_0, t).1 is Some) by {
            assert(d[k] == attrs[k + 1]);
        }
        lemma_hoist_attrs_skip(d, t, i - 1);
        assert(d.skip(i - 1) =~= attrs.skip(i));
        assert(seq![attrs[0]] + (d.take(i - 1) + hoist_attrs(attrs.skip(i), t).0) =~= attrs.take(i) + hoist_attrs(attrs.skip(i), t).0);
    }
}

/// Find the inline data source with id `target_id` in the first renderer of
/// the figure that holds it, take it out, leave a reference to it in its
/// place and return it. `None` (and the figure unchanged) when there is none.
pub fn hoist_inline_cds_with_id(fig: &mut BokehObject, target_id: &str) -> (r: Option<BokehObject>)
    ensures
        final(fig)@ == (ModelObject {
            name: old(fig)@.name,
            id: old(fig)@.id,
            attrs: hoist_attrs(old(fig)@.attrs, target_id@).0,
        }),
        r matches Some(c) ==> hoist_attrs(old(fig)@.attrs, target_id@).1 == Some(c@),
        r is None ==> hoist_attrs(old(fig)@.attrs, target_id@).1 is None,
{
    let ghost a0 = old(fig)@.attrs;
    let n = fig.attributes.len();
    proof {
        lemma_view_attrs_index(fig.attributes@);
    }
    for i in 0..n
        invariant
            n == fig.attributes@.len(),
            a0 == old(fig)@.attrs,
            a0.len() == n,
            view_attrs(fig.attributes@) == a0,
            fig.name == old(fig).name,
            fig.id == old(fig).id,
            forall|k: int| 0 <= k < i ==> !(#[trigger] a0[k].0 == "renderers"@ && a0[k].1 is Array
                && hoist_renderers(a0[k].1->Array_0, target_id@).1 is Some),
    {
        proof {
            lemma_view_attrs_index(fig.attributes@);
        }
        if str_eq(fig.attributes[i].0.as_str(), "renderers") {
            let ghost before = fig.attributes@;
            let mut v = BokehValue::Null;
            std::mem::swap(&mut v, &mut fig.attributes[i].1);
            match v {
                BokehValue::Array(mut rs) => {
                    let ghost rs0 = rs@;
                    proof {
                        assert(a0[i as int].1 == ModelValue::Array(view_values(rs0)));
                    }
                    let found = hoist_in_renderers(&mut rs, target_id);
                    let ghost nv = BokehValue::Array(rs);
                    fig.attributes[i].1 = BokehValue::Array(rs);
                    proof {
                        assert(fig.attributes@ =~= before.update(i as int, (before[i as int].0, nv)));
                        lemma_view_attrs_index(fig.attributes@);
                        lemma_hoist_attrs_skip(a0, target_id@, i as int);
                        let sk = a0.skip(i as int);
                        assert(sk[0] == a0[i as int]);
                    }
                    if found.is_some() {
                        proof {
                            let h = hoist_renderers(view_values(rs0), target_id@);
                            let upd = a0.update(i as int, (a0[i as int].0, ModelValue::Array(h.0)));
                            assert forall|k: int| 0 <= k < n implies #[trigger] view_attrs(fig.attributes@)[k] == upd[k] by {
                                if k != i {
                                    assert(fig.attributes@[k] == before[k]);
                                }
                            }
                            assert(view_attrs(fig.attributes@) =~= upd);
                            let sk = a0.skip(i as int);
                            assert(a0.take(i as int) + sk.update(0, (sk[0].0, ModelValue::Array(h.0))) =~= upd);
                            assert(fig@ =~= (ModelObject {
                                name: old(fig)@.name,
                                id: old(fig)@.id,
                                attrs: hoist_attrs(old(fig)@.attrs, target_id@).0,
                            }));
                        }
                        return found;
                    }
                    proof {
                        lemma_hoist_renderers_none(view_values(rs0), target_id@);
                        assert forall|k: int| 0 <= k < n implies #[trigger] view_attrs(fig.attributes@)[k] == a0[k] by {
                            if k != i {
                                assert(fig.attributes@[k] == before[k]);
                            }
                        }
                        assert(view_attrs(fig.attributes@) =~= a0);
                    }
                },
                other => {
                    let ghost ov = other;
                    fig.attributes[i].1 = other;
                    proof {
                        assert(fig.attributes@ =~= before);
                    }
                },
            }
        }
    }
    proof {
        lemma_hoist_attrs_skip(a0, target_id@, n as int);
        assert(a0.skip(n as int) =~= Seq::<(Seq<char>, ModelValue)>::empty());
        assert(a0.take(n as int) =~= a0);
        assert(fig@ =~= (ModelObject {
            name: old(fig)@.name,
            id: old(fig)@.id,
            attrs: hoist_attrs(old(fig)@.attrs, target_id@).0,
        }));
    }
    None
}

} // verus!
