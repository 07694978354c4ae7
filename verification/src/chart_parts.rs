//! Pieces of the chart builders: whisker segments and hover tools of box
//! plots, group legends, pie legend items, the range-tool overlay, grid and
//! axis hiding, and the seeded jitter generator of density plots.

use vstd::prelude::*;
use crate::chart_helpers::{append_to_list, add_legend, col_ref, is_list_slot, objects_view};
use crate::figure::{build_glyph_renderer, build_hover_tool, glyph_renderer_model, hover_tool_model, opt_value_view, pair_views};
use crate::id_gen::{IdGen, id_for};
use crate::model::{
    BokehObject, BokehValue, ModelObject, ModelValue, lemma_view_attrs_index, lemma_view_attrs_push,
    lemma_view_values_index, lemma_view_values_push, mobj, mstr, mval, view_attrs, view_value, view_values,
};
use crate::text::{str_eq, strs};
use vstd::string::StringSliceAdditionalSpecFns;

verus! {

/// Bit pattern of the `f64` number 1.5.
pub const F64_ONE_AND_HALF: u64 = 0x3FF8_0000_0000_0000;
/// Bit pattern of the `f64` number 0.1.
pub const F64_TENTH: u64 = 0x3FB9_9999_9999_999A;
/// Bit pattern of the `f64` number 0.2.
pub const F64_FIFTH: u64 = 0x3FC9_9999_9999_999A;

/// A literal number wrapper.
pub open spec fn num_value(bits: u64) -> ModelValue {
    ModelValue::Value(Box::new(ModelValue::Float(bits)))
}

// ── Box plot whiskers ────────────────────────────────────────────────────────

/// The four whisker segments of a box plot, as `(x0, y0, x1, y1)` columns:
/// upper stem, lower stem, upper cap, lower cap.
pub open spec fn whisker_columns(i: int) -> (Seq<char>, Seq<char>, Seq<char>, Seq<char>) {
    if i == 0 {
        ("x"@, "upper_y0"@, "x"@, "upper_y1"@)
    } else if i == 1 {
        ("x"@, "lower_y0"@, "x"@, "lower_y1"@)
    } else if i == 2 {
        ("cap_upper_x0"@, "upper_val"@, "cap_upper_x1"@, "upper_val"@)
    } else {
        ("cap_lower_x0"@, "lower_val"@, "cap_lower_x1"@, "lower_val"@)
    }
}

/// A segment glyph with id `k` between the given columns, drawn in `color`
/// with width 1.5.
pub open spec fn segment_model(k: nat, c: (Seq<char>, Seq<char>, Seq<char>, Seq<char>), color: Seq<char>) -> ModelObject {
    mobj("Segment"@, id_for(k), seq![
        ("x0"@, ModelValue::Field(c.0)),
        ("y0"@, ModelValue::Field(c.1)),
        ("x1"@, ModelValue::Field(c.2)),
        ("y1"@, ModelValue::Field(c.3)),
        ("line_color"@, ModelValue::Value(Box::new(mstr(color)))),
        ("line_width"@, num_value(F64_ONE_AND_HALF)),
    ])
}

/// The faded segment glyph (alpha 0.1) shown for unselected rows.
pub open spec fn segment_nonsel_model(k: nat, c: (Seq<char>, Seq<char>, Seq<char>, Seq<char>)) -> ModelObject {
    mobj("Segment"@, id_for(k), seq![
        ("x0"@, ModelValue::Field(c.0)),
        ("y0"@, ModelValue::Field(c.1)),
        ("x1"@, ModelValue::Field(c.2)),
        ("y1"@, ModelValue::Field(c.3)),
        ("line_alpha"@, num_value(F64_TENTH)),
    ])
}

/// A segment glyph between the columns `x0, y0` and `x1, y1`.
pub fn build_segment_glyph(id_gen: &mut IdGen, x0: &str, y0: &str, x1: &str, y1: &str, color: &str) -> (r: BokehObject)
    requires
        old(id_gen).can_issue(1),
    ensures
        final(id_gen)@ == old(id_gen)@ + 1,
        r@ == segment_model(old(id_gen)@, (x0@, y0@, x1@, y1@), color@),
{
    let r = BokehObject::new("Segment", id_gen.next())
        .attr("x0", BokehValue::field(x0))
        .attr("y0", BokehValue::field(y0))
        .attr("x1", BokehValue::field(x1))
        .attr("y1", BokehValue::field(y1))
        .attr("line_color", BokehValue::value_of(BokehValue::Str(String::from_str(color))))
        .attr("line_width", BokehValue::value_of(BokehValue::Float(F64_ONE_AND_HALF)));
    proof {
        assert(r@.attrs =~= segment_model(old(id_gen)@, (x0@, y0@, x1@, y1@), color@).attrs);
    }
    r
}

/// The faded segment glyph between the columns `x0, y0` and `x1, y1`.
pub fn build_segment_glyph_nonsel(id_gen: &mut IdGen, x0: &str, y0: &str, x1: &str, y1: &str) -> (r: BokehObject)
    requires
        old(id_gen).can_issue(1),
    ensures
        final(id_gen)@ == old(id_gen)@ + 1,
        r@ == segment_nonsel_model(old(id_gen)@, (x0@, y0@, x1@, y1@)),
{
    let r = BokehObject::new("Segment", id_gen.next())
        .attr("x0", BokehValue::field(x0))
        .attr("y0", BokehValue::field(y0))
        .attr("x1", BokehValue::field(x1))
        .attr("y1", BokehValue::field(y1))
        .attr("line_alpha", BokehValue::value_of(BokehValue::Float(F64_TENTH)));
    proof {
        assert(r@.attrs =~= segment_nonsel_model(old(id_gen)@, (x0@, y0@, x1@, y1@)).attrs);
    }
    r
}

/// The `i`-th whisker renderer of a box plot whose first whisker id is `k`:
/// its glyph takes `k + 5i`, its faded glyph `k + 5i + 1`, and the renderer
/// and its view the next three ids. The first one holds the whisker data
/// source inline, the others refer to it by id.
pub open spec fn whisker_renderer_model(k: nat, i: int, cds: ModelObject, cds_id: Seq<char>, filter: Option<ModelValue>) -> ModelObject {
    let base = (k + 5 * i) as nat;
    let c = whisker_columns(i);
    glyph_renderer_model(
        base + 2,
        if i == 0 { mval(cds) } else { ModelValue::Ref(cds_id) },
        segment_model(base, c, "#666666"@),
        Some(segment_nonsel_model(base + 1, c)),
        filter,
    )
}

fn whisker_cols(i: usize) -> (r: (&'static str, &'static str, &'static str, &'static str))
    requires
        i < 4,
    ensures
        (r.0@, r.1@, r.2@, r.3@) == whisker_columns(i as int),
{
    if i == 0 {
        ("x", "upper_y0", "x", "upper_y1")
    } else if i == 1 {
        ("x", "lower_y0", "x", "lower_y1")
    } else if i == 2 {
        ("cap_upper_x0", "upper_val", "cap_upper_x1", "upper_val")
    } else {
        ("cap_lower_x0", "lower_val", "cap_lower_x1", "lower_val")
    }
}

/// The four whisker renderers of a box plot (upper and lower stems, upper
/// and lower caps), all drawing from the whisker data source.
pub fn build_whisker_renderers(
    id_gen: &mut IdGen,
    whisker_cds: BokehObject,
    whisker_cds_id: &str,
    filter_ref: Option<BokehValue>,
) -> (r: Vec<BokehObject>)
    requires
        old(id_gen).can_issue(20),
    ensures
        final(id_gen)@ == old(id_gen)@ + 20,
        r@.len() == 4,
        forall|i: int| 0 <= i < 4 ==> #[trigger] r@[i]@ == whisker_renderer_model(
            old(id_gen)@,
            i,
            whisker_cds@,
            whisker_cds_id@,
            opt_value_view(filter_ref),
        ),
{
    let ghost k = id_gen@;
    let ghost fv = opt_value_view(filter_ref);
    let ghost cv = whisker_cds@;
    let mut out: Vec<BokehObject> = Vec::new();
    for i in 0..4usize
        invariant
            id_gen@ == k + 5 * i,
            k + 20 <= u64::MAX,
            out@.len() == i,
            opt_value_view(filter_ref) == fv,
            whisker_cds@ == cv,
            forall|j: int| 0 <= j < i ==> #[trigger] out@[j]@ == whisker_renderer_model(k, j, cv, whisker_cds_id@, fv),
    {
        let (x0, y0, x1, y1) = whisker_cols(i);
        let glyph = build_segment_glyph(id_gen, x0, y0, x1, y1, "#666666");
        let nonsel = build_segment_glyph_nonsel(id_gen, x0, y0, x1, y1);
        let cds_ref = if i == 0 {
            whisker_cds.clone().into_value()
        } else {
            BokehValue::ref_of(whisker_cds_id)
        };
        let f = match &filter_ref {
            Some(v) => Some(v.clone()),
            None => None,
        };
        proof {
            assert(opt_value_view(f) == fv);
        }
        let r = build_glyph_renderer(id_gen, cds_ref, glyph, Some(nonsel), f);
        proof {
            assert(r@ == whisker_renderer_model(k, i as int, cv, whisker_cds_id@, fv));
        }
        out.push(r);
    }
    out
}

// ── Hover and toolbar ────────────────────────────────────────────────────────

/// Whether `i` is the first attribute named `key`.
pub open spec fn is_first_key(attrs: Seq<(Seq<char>, ModelValue)>, key: Seq<char>, i: int) -> bool {
    &&& 0 <= i < attrs.len()
    &&& attrs[i].0 == key
    &&& forall|k: int| 0 <= k < i ==> #[trigger] attrs[k].0 != key
}

/// The attributes with the first one named `key` set to `v` (unchanged
/// when there is none).
pub open spec fn set_first(attrs: Seq<(Seq<char>, ModelValue)>, key: Seq<char>, v: ModelValue) -> Seq<(Seq<char>, ModelValue)> {
    if exists|i: int| is_first_key(attrs, key, i) {
        attrs.update(choose|i: int| is_first_key(attrs, key, i), (key, v))
    } else {
        attrs
    }
}

fn set_first_attr(obj: &mut BokehObject, key: &str, v: BokehValue)
    ensures
        final(obj)@ == mobj(old(obj)@.name, old(obj)@.id, set_first(old(obj)@.attrs, key@, v@)),
{
    let ghost a0 = old(obj)@.attrs;
    let n = obj.attributes.len();
    proof {
        lemma_view_attrs_index(obj.attributes@);
    }
    for i in 0..n
        invariant
            n == obj.attributes@.len(),
            a0 == old(obj)@.attrs,
            a0.len() == n,
            obj.attributes@ == old(obj).attributes@,
            obj.name == old(obj).name,
            obj.id == old(obj).id,
            forall|k: int| 0 <= k < i ==> #[trigger] a0[k].0 != key@,
    {
        proof {
            lemma_view_attrs_index(obj.attributes@);
        }
        if str_eq(obj.attributes[i].0.as_str(), key) {
            let ghost before = obj.attributes@;
            let ghost vv = v@;
            obj.attributes[i].1 = v;
            proof {
                assert(is_first_key(a0, key@, i as int));
                assert forall|j: int| is_first_key(a0, key@, j) implies j == i by {
                    if j > i {
                        assert(a0[i as int].0 != key@);
                    }
                }
                let upd = a0.update(i as int, (key@, vv));
                lemma_view_attrs_index(obj.attributes@);
                assert forall|k: int| 0 <= k < n implies #[trigger] view_attrs(obj.attributes@)[k] == upd[k] by {
                    if k != i {
                        assert(obj.attributes@[k] == before[k]);
                    }
                }
                assert(view_attrs(obj.attributes@) =~= upd);
                assert(obj@ =~= mobj(old(obj)@.name, old(obj)@.id, set_first(a0, key@, vv)));
            }
            return;
        }
    }
    proof {
        assert(!exists|i: int| is_first_key(a0, key@, i));
        assert(obj@ =~= mobj(old(obj)@.name, old(obj)@.id, set_first(a0, key@, v@)));
    }
}

/// The hover tool of a box plot's outlier points, with id `k`: it shows
/// the category and the outlier value, and only for the outlier renderer.
pub open spec fn outlier_hover_model(k: nat, category_col: Seq<char>, value_label: Seq<char>, renderer_id: Seq<char>) -> ModelObject {
    let h = hover_tool_model(k, seq![(category_col, col_ref(category_col)), (value_label, "@{value}"@)], Seq::empty());
    mobj(h.name, h.id, set_first(h.attrs, "renderers"@, ModelValue::Array(seq![ModelValue::Ref(renderer_id)])))
}

/// The hover tool for a box plot's outliers, limited to `renderer_id`.
pub fn build_outlier_hover(id_gen: &mut IdGen, category_col: &str, value_label: &str, renderer_id: &str) -> (r: BokehObject)
    requires
        old(id_gen).can_issue(1),
    ensures
        final(id_gen)@ == old(id_gen)@ + 1,
        r@ == outlier_hover_model(old(id_gen)@, category_col@, value_label@, renderer_id@),
{
    let mut cat_tip = String::new();
    cat_tip.append("@{");
    cat_tip.append(category_col);
    cat_tip.append("}");
    proof {
        reveal_strlit("@{");
        reveal_strlit("}");
        assert(cat_tip@ =~= col_ref(category_col@));
    }
    let val_tip = String::from_str("@{value}");
    let tips: Vec<(&str, &str)> = vec![(category_col, cat_tip.as_str()), (value_label, val_tip.as_str())];
    let none: Vec<(&str, &str)> = Vec::new();
    let mut ht = build_hover_tool(id_gen, tips.as_slice(), none.as_slice());
    proof {
        assert(pair_views(tips@) =~= seq![(category_col@, col_ref(category_col@)), (value_label@, "@{value}"@)]);
        assert(pair_views(none@) =~= Seq::<(Seq<char>, Seq<char>)>::empty());
    }
    let mut refs: Vec<BokehValue> = Vec::new();
    refs.push(BokehValue::ref_of(renderer_id));
    proof {
        lemma_view_values_index(refs@);
        assert(view_values(refs@) =~= seq![ModelValue::Ref(renderer_id@)]);
    }
    set_first_attr(&mut ht, "renderers", BokehValue::Array(refs));
    ht
}

/// Whether `i` is the first `toolbar` attribute holding an inline model
/// with a `tools` list.
pub open spec fn is_toolbar_slot(attrs: Seq<(Seq<char>, ModelValue)>, i: int) -> bool {
    &&& 0 <= i < attrs.len()
    &&& has_tools_list(attrs[i])
    &&& forall|k: int| 0 <= k < i ==> !has_tools_list(#[trigger] attrs[k])
}

/// Whether an attribute is a `toolbar` model with a `tools` list.
pub open spec fn has_tools_list(a: (Seq<char>, ModelValue)) -> bool {
    &&& a.0 == "toolbar"@
    &&& a.1 is Object
    &&& exists|j: int| is_list_slot(a.1->Object_0.attrs, "tools"@, j)
}

/// The figure attributes with `tool` added to the toolbar's tools.
pub open spec fn add_tool_attrs(attrs: Seq<(Seq<char>, ModelValue)>, tool: ModelObject) -> Seq<(Seq<char>, ModelValue)> {
    if exists|i: int| is_toolbar_slot(attrs, i) {
        let i = choose|i: int| is_toolbar_slot(attrs, i);
        let tb = attrs[i].1->Object_0;
        attrs.update(i, ("toolbar"@, mval(mobj(tb.name, tb.id, append_to_list(tb.attrs, "tools"@, seq![mval(tool)])))))
    } else {
        attrs
    }
}

fn has_list_named(obj: &BokehObject, key: &str) -> (r: bool)
    ensures
        r == exists|j: int| is_list_slot(obj@.attrs, key@, j),
{
    let ghost a = obj@.attrs;
    let n = obj.attributes.len();
    proof {
        lemma_view_attrs_index(obj.attributes@);
    }
    for i in 0..n
        invariant
            n == obj.attributes@.len(),
            a == obj@.attrs,
            a.len() == n,
            forall|k: int| 0 <= k < i ==> !(#[trigger] a[k].0 == key@ && a[k].1 is Array),
    {
        proof {
            lemma_view_attrs_index(obj.attributes@);
        }
        let is_arr = match &obj.attributes[i].1 {
            BokehValue::Array(_) => true,
            _ => false,
        };
        if str_eq(obj.attributes[i].0.as_str(), key) && is_arr {
            proof {
                assert(is_list_slot(a, key@, i as int));
            }
            return true;
        }
    }
    false
}

fn is_toolbar_with_tools(a: &(String, BokehValue)) -> (r: bool)
    ensures
        r == has_tools_list((a.0@, view_value(a.1))),
{
    if str_eq(a.0.as_str(), "toolbar") {
        match &a.1 {
            BokehValue::Object(tb) => {
                let r = has_list_named(tb, "tools");
                proof {
                    assert(view_value(a.1) == mval(tb@));
                    assert(view_value(a.1)->Object_0 == tb@);
                }
                r
            },
            _ => false,
        }
    } else {
        false
    }
}

fn push_tool_into(v: &mut BokehValue, tool: BokehObject)
    requires
        *old(v) is Object,
    ensures
        *final(v) is Object,
        final(v)@ == mval(mobj(
            old(v)@->Object_0.name,
            old(v)@->Object_0.id,
            append_to_list(old(v)@->Object_0.attrs, "tools"@, seq![mval(tool@)]),
        )),
{
    match v {
        BokehValue::Object(tb) => {
            let ghost tv = tool@;
            let mut items: Vec<BokehObject> = Vec::new();
            items.push(tool);
            proof {
                assert(objects_view(items@) =~= seq![mval(tv)]);
            }
            crate::chart_helpers::append_to_list_attr(tb, "tools", items);
        },
        _ => {},
    }
}

/// Add a tool to the figure's toolbar: to the `tools` list of the first
/// `toolbar` model that has one (nothing when there is none).
pub fn add_tool_to_toolbar(figure: &mut BokehObject, tool: BokehObject)
    ensures
        final(figure)@ == mobj(old(figure)@.name, old(figure)@.id, add_tool_attrs(old(figure)@.attrs, tool@)),
{
    let ghost a0 = old(figure)@.attrs;
    let n = figure.attributes.len();
    proof {
        lemma_view_attrs_index(figure.attributes@);
    }
    for i in 0..n
        invariant
            n == figure.attributes@.len(),
            a0 == old(figure)@.attrs,
            a0.len() == n,
            figure.attributes@ == old(figure).attributes@,
            figure.name == old(figure).name,
            figure.id == old(figure).id,
            forall|k: int| 0 <= k < i ==> !has_tools_list(#[trigger] a0[k]),
    {
        proof {
            lemma_view_attrs_index(figure.attributes@);
        }
        if is_toolbar_with_tools(&figure.attributes[i]) {
            let ghost before = figure.attributes@;
            let ghost tv = tool@;
            push_tool_into(&mut figure.attributes[i].1, tool);
            proof {
                assert(is_toolbar_slot(a0, i as int));
                assert forall|j: int| is_toolbar_slot(a0, j) implies j == i by {
                    if j > i {
                        assert(!has_tools_list(a0[i as int]));
                    }
                }
                let tb = a0[i as int].1->Object_0;
                let upd = a0.update(i as int, ("toolbar"@, mval(mobj(tb.name, tb.id, append_to_list(tb.attrs, "tools"@, seq![mval(tv)])))));
                lemma_view_attrs_index(figure.attributes@);
                assert forall|k: int| 0 <= k < n implies #[trigger] view_attrs(figure.attributes@)[k] == upd[k] by {
                    if k != i {
                        assert(figure.attributes@[k] == before[k]);
                    }
                }
                assert(view_attrs(figure.attributes@) =~= upd);
                assert(figure@ =~= mobj(old(figure)@.name, old(figure)@.id, add_tool_attrs(a0, tv)));
            }
            return;
        }
    }
    proof {
        assert(!exists|i: int| is_toolbar_slot(a0, i));
        assert(figure@ =~= mobj(old(figure)@.name, old(figure)@.id, add_tool_attrs(a0, tool@)));
    }
}


// ── Legends and overlays ─────────────────────────────────────────────────────

/// The shaded overlay of a range tool, with id `k`.
pub open spec fn range_tool_overlay_model(k: nat) -> ModelObject {
    mobj("BoxAnnotation"@, id_for(k), seq![
        ("fill_color"@, mstr("navy"@)),
        ("fill_alpha"@, ModelValue::Float(F64_FIFTH)),
        ("line_color"@, ModelValue::Null),
        ("level"@, mstr("underlay"@)),
    ])
}

/// The shaded box a range tool draws over the selected range.
pub fn build_range_tool_overlay(id_gen: &mut IdGen) -> (r: BokehObject)
    requires
        old(id_gen).can_issue(1),
    ensures
        final(id_gen)@ == old(id_gen)@ + 1,
        r@ == range_tool_overlay_model(old(id_gen)@),
{
    let r = BokehObject::new("BoxAnnotation", id_gen.next())
        .attr("fill_color", BokehValue::Str(String::from_str("navy")))
        .attr("fill_alpha", BokehValue::Float(F64_FIFTH))
        .attr("line_color", BokehValue::Null)
        .attr("level", BokehValue::Str(String::from_str("underlay")));
    proof {
        assert(r@.attrs =~= range_tool_overlay_model(old(id_gen)@).attrs);
    }
    r
}

/// A legend entry with id `k` labelled `label`, standing for one renderer.
pub open spec fn slice_legend_item_model(k: nat, label: Seq<char>, renderer_id: Seq<char>) -> ModelObject {
    mobj("LegendItem"@, id_for(k), seq![
        ("label"@, ModelValue::Value(Box::new(mstr(label)))),
        ("renderers"@, ModelValue::Array(seq![ModelValue::Ref(renderer_id)])),
    ])
}

/// The legend entry of one pie slice.
pub fn build_slice_legend_item(id_gen: &mut IdGen, label: &str, renderer_id: &str) -> (r: BokehObject)
    requires
        old(id_gen).can_issue(1),
    ensures
        final(id_gen)@ == old(id_gen)@ + 1,
        r@ == slice_legend_item_model(old(id_gen)@, label@, renderer_id@),
{
    let mut refs: Vec<BokehValue> = Vec::new();
    refs.push(BokehValue::ref_of(renderer_id));
    proof {
        lemma_view_values_index(refs@);
        assert(view_values(refs@) =~= seq![ModelValue::Ref(renderer_id@)]);
    }
    let r = BokehObject::new("LegendItem", id_gen.next())
        .attr("label", BokehValue::value_of(BokehValue::Str(String::from_str(label))))
        .attr("renderers", BokehValue::Array(refs));
    proof {
        assert(r@.attrs =~= slice_legend_item_model(old(id_gen)@, label@, renderer_id@).attrs);
    }
    r
}

/// The first occurrence of each value, in order.
pub open spec fn unique_in_order(vals: Seq<Seq<char>>) -> Seq<Seq<char>>
    decreases vals.len(),
{
    if vals.len() == 0 {
        Seq::empty()
    } else {
        let prev = unique_in_order(vals.drop_last());
        if prev.contains(vals.last()) { prev } else { prev.push(vals.last()) }
    }
}

fn contains_string(v: &Vec<String>, s: &String) -> (r: bool)
    ensures
        r == strs(v@).contains(s@),
{
    let n = v.len();
    for i in 0..n
        invariant
            n == v@.len(),
            forall|k: int| 0 <= k < i ==> #[trigger] v@[k]@ != s@,
    {
        if str_eq(v[i].as_str(), s.as_str()) {
            proof {
                assert(strs(v@)[i as int] == s@);
            }
            return true;
        }
    }
    proof {
        if strs(v@).contains(s@) {
            let k = choose|k: int| 0 <= k < strs(v@).len() && strs(v@)[k] == s@;
            assert(v@[k]@ == s@);
        }
    }
    false
}

/// The distinct values of `vals`, each at the place of its first occurrence.
pub fn unique_preserve_order(vals: &[String]) -> (r: Vec<String>)
    ensures
        strs(r@) == unique_in_order(strs(vals@)),
{
    let mut out: Vec<String> = Vec::new();
    let n = vals.len();
    for i in 0..n
        invariant
            n == vals@.len(),
            strs(out@) == unique_in_order(strs(vals@.take(i as int))),
    {
        proof {
            assert(strs(vals@.take(i + 1)).drop_last() =~= strs(vals@.take(i as int)));
            assert(strs(vals@.take(i + 1)).last() == vals@[i as int]@);
        }
        if !contains_string(&out, &vals[i]) {
            let ghost o0 = strs(out@);
            out.push(vals[i].clone());
            proof {
                assert(strs(out@) =~= o0.push(vals@[i as int]@));
            }
        }
    }
    proof {
        assert(vals@.take(n as int) =~= vals@);
    }
    out
}


/// The distinct values keep one copy of each value and nothing else: no
/// value occurs twice, and a value occurs in the result exactly when it
/// occurs in the input.
pub proof fn law_unique_in_order_keeps_each_value_once(vals: Seq<Seq<char>>)
    ensures
        forall|i: int, j: int| 0 <= i < j < unique_in_order(vals).len() ==>
            #[trigger] unique_in_order(vals)[i] != #[trigger] unique_in_order(vals)[j],
        forall|x: Seq<char>| unique_in_order(vals).contains(x) <==> vals.contains(x),
    decreases vals.len(),
{
    if vals.len() > 0 {
        let d = vals.drop_last();
        law_unique_in_order_keeps_each_value_once(d);
        let prev = unique_in_order(d);
        let r = unique_in_order(vals);
        assert forall|x: Seq<char>| r.contains(x) <==> vals.contains(x) by {
            if vals.contains(x) {
                let k = choose|k: int| 0 <= k < vals.len() && vals[k] == x;
                if k < vals.len() - 1 {
                    assert(d[k] == x);
                    assert(d.contains(x));
                    assert(prev.contains(x));
                    let m = choose|m: int| 0 <= m < prev.len() && prev[m] == x;
                    assert(r[m] == x);
                } else if !prev.contains(x) {
                    assert(r[prev.len() as int] == x);
                } else {
                    let m = choose|m: int| 0 <= m < prev.len() && prev[m] == x;
                    assert(r[m] == x);
                }
            }
            if r.contains(x) {
                let k = choose|k: int| 0 <= k < r.len() && r[k] == x;
                if k < prev.len() {
                    assert(prev[k] == x);
                    assert(prev.contains(x));
                    assert(d.contains(x));
                    let m = choose|m: int| 0 <= m < d.len() && d[m] == x;
                    assert(vals[m] == x);
                } else {
                    assert(vals[vals.len() - 1] == x);
                }
            }
        }
    }
}

/// The legend items of the groups of a grouped bar chart, with ids from `k`.
pub open spec fn group_legend_items(k: nat, groups: Seq<Seq<char>>) -> Seq<ModelValue> {
    Seq::new(groups.len(), |i: int| mval(mobj("LegendItem"@, id_for((k + i) as nat), seq![
        ("label"@, ModelValue::Value(Box::new(mstr(groups[i])))),
    ])))
}

/// The legend of a grouped bar chart: its items take ids `k..k+n`, the
/// legend itself `k + n`.
pub open spec fn group_legend_model(k: nat, groups: Seq<Seq<char>>) -> ModelObject {
    mobj("Legend"@, id_for(k + groups.len()), seq![
        ("items"@, ModelValue::Array(group_legend_items(k, groups))),
        ("location"@, mstr("top_right"@)),
        ("click_policy"@, mstr("hide"@)),
    ])
}

/// Add a legend with one entry per group to the figure's `center` list;
/// nothing when there are no groups.
pub fn add_group_legend(id_gen: &mut IdGen, figure: &mut BokehObject, groups: &[String])
    requires
        old(id_gen)@ + groups@.len() + 1 <= u64::MAX,
    ensures
        groups@.len() == 0 ==> final(id_gen)@ == old(id_gen)@ && *final(figure) == *old(figure),
        groups@.len() > 0 ==> final(id_gen)@ == old(id_gen)@ + groups@.len() + 1,
        groups@.len() > 0 ==> final(figure)@ == mobj(
            old(figure)@.name,
            old(figure)@.id,
            append_to_list(old(figure)@.attrs, "center"@, seq![mval(group_legend_model(old(id_gen)@, strs(groups@)))]),
        ),
{
    if groups.len() == 0 {
        return;
    }
    let ghost k = id_gen@;
    let mut items: Vec<BokehValue> = Vec::new();
    let n = groups.len();
    for i in 0..n
        invariant
            n == groups@.len(),
            id_gen@ == k + i,
            k + n + 1 <= u64::MAX,
            view_values(items@) == group_legend_items(k, strs(groups@.take(i as int))),
    {
        let item = BokehObject::new("LegendItem", id_gen.next())
            .attr("label", BokehValue::value_of(BokehValue::Str(groups[i].clone())))
            .into_value();
        proof {
            lemma_view_values_push(items@, item);
            assert(strs(groups@.take(i + 1)) =~= strs(groups@.take(i as int)).push(groups@[i as int]@));
            assert(item@->Object_0.attrs =~= seq![("label"@, ModelValue::Value(Box::new(mstr(groups@[i as int]@))))]);
            assert(group_legend_items(k, strs(groups@.take(i + 1))) =~= group_legend_items(k, strs(groups@.take(i as int))).push(item@));
        }
        items.push(item);
    }
    proof {
        assert(groups@.take(n as int) =~= groups@);
    }
    let legend = BokehObject::new("Legend", id_gen.next())
        .attr("items", BokehValue::Array(items))
        .attr("location", BokehValue::Str(String::from_str("top_right")))
        .attr("click_policy", BokehValue::Str(String::from_str("hide")));
    proof {
        assert(legend@.attrs =~= group_legend_model(k, strs(groups@)).attrs);
    }
    add_legend(figure, legend);
}

// ── Grid and axis hiding ─────────────────────────────────────────────────────

/// Whether a model is the x grid: a `Grid` with `dimension` 0.
pub open spec fn is_x_grid(o: ModelObject) -> bool {
    &&& o.name == "Grid"@
    &&& exists|j: int| 0 <= j < o.attrs.len() && #[trigger] o.attrs[j] == ("dimension"@, ModelValue::Int(0))
}

/// A model with one more attribute.
pub open spec fn with_attr(o: ModelObject, key: Seq<char>, v: ModelValue) -> ModelObject {
    mobj(o.name, o.id, o.attrs.push((key, v)))
}

/// A `center` item after hiding the x grid's lines.
pub open spec fn hide_x_grid_item(v: ModelValue) -> ModelValue {
    match v {
        ModelValue::Object(o) => if is_x_grid(*o) { mval(with_attr(*o, "grid_line_color"@, ModelValue::Null)) } else { v },
        _ => v,
    }
}

/// A `center` item after hiding every grid's lines.
pub open spec fn hide_grid_item(v: ModelValue) -> ModelValue {
    match v {
        ModelValue::Object(o) => if o.name == "Grid"@ { mval(with_attr(*o, "grid_line_color"@, ModelValue::Null)) } else { v },
        _ => v,
    }
}

/// An axis after hiding it.
pub open spec fn hide_axis_item(v: ModelValue) -> ModelValue {
    match v {
        ModelValue::Object(o) => mval(with_attr(*o, "visible"@, ModelValue::Bool(false))),
        _ => v,
    }
}

/// An attribute of a figure after hiding its x grid lines.
pub open spec fn hide_x_grid_attr(a: (Seq<char>, ModelValue)) -> (Seq<char>, ModelValue) {
    if a.0 == "center"@ && a.1 is Array {
        (a.0, ModelValue::Array(a.1->Array_0.map_values(|v: ModelValue| edit_item(ItemEdit::HideXGrid, v))))
    } else {
        a
    }
}

/// An attribute of a figure after hiding its axes and grid lines.
pub open spec fn hide_axes_attr(a: (Seq<char>, ModelValue)) -> (Seq<char>, ModelValue) {
    if (a.0 == "below"@ || a.0 == "left"@) && a.1 is Array {
        (a.0, ModelValue::Array(a.1->Array_0.map_values(|v: ModelValue| edit_item(ItemEdit::HideAxis, v))))
    } else if a.0 == "center"@ && a.1 is Array {
        (a.0, ModelValue::Array(a.1->Array_0.map_values(|v: ModelValue| edit_item(ItemEdit::HideGrid, v))))
    } else {
        a
    }
}

fn push_attr(obj: &mut BokehObject, key: &str, v: BokehValue)
    ensures
        final(obj)@ == with_attr(old(obj)@, key@, v@),
{
    let k = String::from_str(key);
    proof {
        lemma_view_attrs_push(obj.attributes@, k, v);
    }
    obj.attributes.push((k, v));
}

fn has_dimension_zero(obj: &BokehObject) -> (r: bool)
    ensures
        r == exists|j: int| 0 <= j < obj@.attrs.len() && #[trigger] obj@.attrs[j] == ("dimension"@, ModelValue::Int(0)),
{
    let n = obj.attributes.len();
    proof {
        lemma_view_attrs_index(obj.attributes@);
    }
    for i in 0..n
        invariant
            n == obj.attributes@.len(),
            obj@.attrs.len() == n,
            forall|j: int| 0 <= j < n ==> #[trigger] obj@.attrs[j] == (obj.attributes@[j].0@, view_value(obj.attributes@[j].1)),
            forall|j: int| 0 <= j < i ==> #[trigger] obj@.attrs[j] != ("dimension"@, ModelValue::Int(0)),
    {
        let is_zero = match &obj.attributes[i].1 {
            BokehValue::Int(d) => *d == 0,
            _ => false,
        };
        if str_eq(obj.attributes[i].0.as_str(), "dimension") && is_zero {
            proof {
                assert(obj@.attrs[i as int] == ("dimension"@, ModelValue::Int(0)));
            }
            return true;
        }
    }
    false
}

/// What is done to the items of one list attribute.
#[derive(Clone, Copy, PartialEq, Eq, Structural)]
pub enum ItemEdit {
    /// Hide the lines of the x grid.
    HideXGrid,
    /// Hide the lines of every grid.
    HideGrid,
    /// Hide every axis.
    HideAxis,
}

/// One item after an edit.
pub open spec fn edit_item(e: ItemEdit, v: ModelValue) -> ModelValue {
    match e {
        ItemEdit::HideXGrid => hide_x_grid_item(v),
        ItemEdit::HideGrid => hide_grid_item(v),
        ItemEdit::HideAxis => hide_axis_item(v),
    }
}

fn edit_object(e: ItemEdit, obj: &mut BokehObject)
    ensures
        mval(final(obj)@) == edit_item(e, mval(old(obj)@)),
{
    match e {
        ItemEdit::HideXGrid => {
            if str_eq(obj.name.as_str(), "Grid") && has_dimension_zero(obj) {
                push_attr(obj, "grid_line_color", BokehValue::Null);
            }
        },
        ItemEdit::HideGrid => {
            if str_eq(obj.name.as_str(), "Grid") {
                push_attr(obj, "grid_line_color", BokehValue::Null);
            }
        },
        ItemEdit::HideAxis => {
            push_attr(obj, "visible", BokehValue::Bool(false));
        },
    }
}

fn edit_value(e: ItemEdit, v: &mut BokehValue)
    ensures
        final(v)@ == edit_item(e, old(v)@),
{
    match v {
        BokehValue::Object(obj) => edit_object(e, obj),
        _ => {},
    }
}

fn edit_all(e: ItemEdit, items: &mut Vec<BokehValue>)
    ensures
        view_values(final(items)@) == view_values(old(items)@).map_values(|x: ModelValue| edit_item(e, x)),
{
    let n = items.len();
    for i in 0..n
        invariant
            n == items@.len(),
            items@.len() == old(items)@.len(),
            forall|j: int| 0 <= j < i ==> #[trigger] view_value(items@[j]) == edit_item(e, view_value(old(items)@[j])),
            forall|j: int| i <= j < n ==> #[trigger] items@[j] == old(items)@[j],
    {
        edit_value(e, &mut items[i]);
    }
    proof {
        lemma_view_values_index(items@);
        lemma_view_values_index(old(items)@);
        assert(view_values(items@) =~= view_values(old(items)@).map_values(|x: ModelValue| edit_item(e, x)));
    }
}

fn edit_items(e: ItemEdit, v: &mut BokehValue)
    ensures
        *old(v) is Array ==> final(v)@ == ModelValue::Array(old(v)@->Array_0.map_values(|x: ModelValue| edit_item(e, x))),
        !(*old(v) is Array) ==> *final(v) == *old(v),
{
    match v {
        BokehValue::Array(items) => edit_all(e, items),
        _ => {},
    }
}

/// Hide the lines of the figure's x grid (the `Grid` with dimension 0 in
/// each `center` list).
pub fn hide_x_grid(fig: &mut BokehObject)
    ensures
        final(fig)@ == mobj(old(fig)@.name, old(fig)@.id, old(fig)@.attrs.map_values(|a: (Seq<char>, ModelValue)| hide_x_grid_attr(a))),
{
    let n = fig.attributes.len();
    for i in 0..n
        invariant
            n == fig.attributes@.len(),
            fig.name == old(fig).name,
            fig.id == old(fig).id,
            fig.attributes@.len() == old(fig).attributes@.len(),
            forall|j: int| 0 <= j < i ==> (#[trigger] fig.attributes@[j].0@, view_value(fig.attributes@[j].1))
                == hide_x_grid_attr((old(fig).attributes@[j].0@, view_value(old(fig).attributes@[j].1))),
            forall|j: int| i <= j < n ==> #[trigger] fig.attributes@[j] == old(fig).attributes@[j],
    {
        if str_eq(fig.attributes[i].0.as_str(), "center") {
            edit_items(ItemEdit::HideXGrid, &mut fig.attributes[i].1);
        }
        proof {
            assert((fig.attributes@[i as int].0@, view_value(fig.attributes@[i as int].1))
                =~= hide_x_grid_attr((old(fig).attributes@[i as int].0@, view_value(old(fig).attributes@[i as int].1))));
        }
    }
    proof {
        lemma_view_attrs_index(fig.attributes@);
        lemma_view_attrs_index(old(fig).attributes@);
        assert(fig@.attrs =~= old(fig)@.attrs.map_values(|a: (Seq<char>, ModelValue)| hide_x_grid_attr(a)));
    }
}

/// Hide the figure's axes (those under `below` and `left`) and the lines
/// of every grid in its `center` lists.
pub fn hide_axes(fig: &mut BokehObject)
    ensures
        final(fig)@ == mobj(old(fig)@.name, old(fig)@.id, old(fig)@.attrs.map_values(|a: (Seq<char>, ModelValue)| hide_axes_attr(a))),
{
    let n = fig.attributes.len();
    for i in 0..n
        invariant
            n == fig.attributes@.len(),
            fig.name == old(fig).name,
            fig.id == old(fig).id,
            fig.attributes@.len() == old(fig).attributes@.len(),
            forall|j: int| 0 <= j < i ==> (#[trigger] fig.attributes@[j].0@, view_value(fig.attributes@[j].1))
                == hide_axes_attr((old(fig).attributes@[j].0@, view_value(old(fig).attributes@[j].1))),
            forall|j: int| i <= j < n ==> #[trigger] fig.attributes@[j] == old(fig).attributes@[j],
    {
        let is_axis = str_eq(fig.attributes[i].0.as_str(), "below") || str_eq(fig.attributes[i].0.as_str(), "left");
        let is_center = str_eq(fig.attributes[i].0.as_str(), "center");
        if is_axis {
            edit_items(ItemEdit::HideAxis, &mut fig.attributes[i].1);
        } else if is_center {
            edit_items(ItemEdit::HideGrid, &mut fig.attributes[i].1);
        }
        proof {
            assert((fig.attributes@[i as int].0@, view_value(fig.attributes@[i as int].1))
                =~= hide_axes_attr((old(fig).attributes@[i as int].0@, view_value(old(fig).attributes@[i as int].1))));
        }
    }
    proof {
        lemma_view_attrs_index(fig.attributes@);
        lemma_view_attrs_index(old(fig).attributes@);
        assert(fig@.attrs =~= old(fig)@.attrs.map_values(|a: (Seq<char>, ModelValue)| hide_axes_attr(a)));
    }
}

// ── Jitter generator ─────────────────────────────────────────────────────────

/// One step of the generator: `state * 6364136223846793005 + 1442695040888963407`,
/// wrapping at 2^64.
pub open spec fn lcg_step(state: u64) -> u64 {
    vstd::wrapping::u64_specs::wrapping_add(
        vstd::wrapping::u64_specs::wrapping_mul(state, 6364136223846793005),
        1442695040888963407,
    )
}

/// The seed of a name: starting from 12345, each byte `b` of its UTF-8
/// text turns `acc` into `acc * 31 + b`, wrapping at 2^64.
pub open spec fn lcg_seed(bytes: Seq<u8>) -> u64
    decreases bytes.len(),
{
    if bytes.len() == 0 {
        12345
    } else {
        vstd::wrapping::u64_specs::wrapping_add(
            vstd::wrapping::u64_specs::wrapping_mul(lcg_seed(bytes.drop_last()), 31),
            bytes.last() as u64,
        )
    }
}

/// A small linear congruential generator, seeded from a name so that the
/// jitter of a density plot is the same on every render.
pub struct LcgRng(pub u64);

impl LcgRng {
    /// The generator seeded from the bytes of `s`.
    pub fn from_str(s: &str) -> (r: Self)
        ensures
            r.0 == lcg_seed(s.spec_bytes()),
    {
        let bytes = s.as_bytes();
        let mut acc: u64 = 12345;
        let n = bytes.len();
        for i in 0..n
            invariant
                n == bytes@.len(),
                bytes@ == s.spec_bytes(),
                acc == lcg_seed(bytes@.take(i as int)),
        {
            proof {
                assert(bytes@.take(i + 1).drop_last() =~= bytes@.take(i as int));
                assert(bytes@.take(i + 1).last() == bytes@[i as int]);
            }
            acc = acc.wrapping_mul(31).wrapping_add(bytes[i] as u64);
        }
        proof {
            assert(bytes@.take(n as int) =~= bytes@);
        }
        LcgRng(acc)
    }

    /// Advance the generator and return its new state.
    pub fn next_u64(&mut self) -> (r: u64)
        ensures
            r == lcg_step(old(self).0),
            final(self).0 == r,
    {
        self.0 = self.0.wrapping_mul(6364136223846793005).wrapping_add(1442695040888963407);
        self.0
    }
}

} // verus!
