//! Helpers shared by the chart builders: tooltip formatting, hover tools,
//! axis labels, and adding renderers and legends to a figure.

use vstd::prelude::*;
use crate::chart_spec::{FieldView, TooltipFormat, TooltipSpec, fields_view};
use crate::customization::{TimeScale, time_scale_format};
use crate::figure::{build_hover_tool, hover_tool_model, pair_views};
use crate::id_gen::IdGen;
use crate::model::{
    BokehObject, BokehValue, ModelObject, ModelValue, lemma_view_attrs_index,
    lemma_view_values_index, lemma_view_values_push, mobj, mstr, mval, view_attrs, view_value,
    view_values,
};
use crate::text::{push_char, str_eq};

verus! {

// ── Tooltip formats ──────────────────────────────────────────────────────────

/// `@{col}`: the hover-tool reference to a column.
pub open spec fn col_ref(col: Seq<char>) -> Seq<char> {
    seq!['@', '{'] + col + seq!['}']
}

/// `d` zeros.
pub open spec fn zeros(d: nat) -> Seq<char> {
    Seq::new(d, |i: int| '0')
}

/// The tooltip pattern of a column shown in a given format.
pub open spec fn format_pattern(col: Seq<char>, fmt: TooltipFormat) -> Seq<char> {
    match fmt {
        TooltipFormat::Text => col_ref(col),
        TooltipFormat::Number(dec) => col_ref(col) + seq!['{', '0', '.'] + zeros(
            match dec { Some(d) => d as nat, None => 2 },
        ) + seq!['}'],
        TooltipFormat::Percent(dec) => col_ref(col) + seq!['{', '0', '.'] + zeros(
            match dec { Some(d) => d as nat, None => 1 },
        ) + seq!['%', '}'],
        TooltipFormat::Currency => col_ref(col) + seq!['{', '$', '0', ',', '0', '}'],
        TooltipFormat::DateTime(s) => col_ref(col) + seq!['{'] + time_scale_format(s) + seq!['}'],
    }
}

/// The formatter a format asks for: `datetime` for dates, none otherwise.
pub open spec fn formatter_kind(fmt: TooltipFormat) -> Option<Seq<char>> {
    match fmt {
        TooltipFormat::DateTime(_) => Some("datetime"@),
        _ => None,
    }
}

/// The `(label, pattern)` rows of a tooltip definition.
pub open spec fn tooltip_pairs(fields: Seq<FieldView>) -> Seq<(Seq<char>, Seq<char>)> {
    fields.map_values(|f: FieldView| (f.1, format_pattern(f.0, f.2)))
}

/// The `(@{column}, formatter)` pairs of the rows that need a formatter,
/// in row order.
pub open spec fn formatter_pairs(fields: Seq<FieldView>) -> Seq<(Seq<char>, Seq<char>)>
    decreases fields.len(),
{
    if fields.len() == 0 {
        Seq::empty()
    } else {
        let prev = formatter_pairs(fields.drop_last());
        let f = fields.last();
        match formatter_kind(f.2) {
            Some(k) => prev.push((col_ref(f.0), k)),
            None => prev,
        }
    }
}

/// The views of a list of owned string pairs.
pub open spec fn string_pairs(v: Seq<(String, String)>) -> Seq<(Seq<char>, Seq<char>)> {
    v.map_values(|p: (String, String)| (p.0@, p.1@))
}

fn push_col_ref(s: &mut String, col: &str)
    ensures
        final(s)@ == old(s)@ + col_ref(col@),
{
    push_char(s, '@');
    push_char(s, '{');
    s.append(col);
    push_char(s, '}');
    proof {
        assert(final(s)@ =~= old(s)@ + col_ref(col@));
    }
}

fn push_zeros(s: &mut String, d: u8)
    ensures
        final(s)@ == old(s)@ + zeros(d as nat),
{
    let mut i: u8 = 0;
    while i < d
        invariant
            i <= d,
            s@ == old(s)@ + zeros(i as nat),
        decreases d - i,
    {
        push_char(s, '0');
        proof {
            assert(old(s)@ + zeros((i + 1) as nat) =~= old(s)@ + zeros(i as nat) + seq!['0']);
        }
        i = i + 1;
    }
}

/// The strftime pattern used in tooltips for a time scale.
fn time_scale_strftime(scale: &TimeScale) -> (s: &'static str)
    ensures
        s@ == time_scale_format(*scale),
{
    scale.format_str()
}

/// The tooltip pattern of one row and the formatter it needs, if any.
fn format_tooltip_field(column: &str, format: TooltipFormat) -> (r: (String, Option<String>))
    ensures
        r.0@ == format_pattern(column@, format),
        r.1 matches Some(k) ==> formatter_kind(format) == Some(k@),
        r.1 is None ==> formatter_kind(format) is None,
{
    let mut s = String::new();
    push_col_ref(&mut s, column);
    match format {
        TooltipFormat::Text => {
            proof {
                assert(s@ =~= format_pattern(column@, format));
            }
            (s, None)
        },
        TooltipFormat::Number(dec) => {
            let d: u8 = match dec {
                Some(d) => d,
                None => 2,
            };
            push_char(&mut s, '{');
            push_char(&mut s, '0');
            push_char(&mut s, '.');
            push_zeros(&mut s, d);
            push_char(&mut s, '}');
            proof {
                assert(s@ =~= format_pattern(column@, format));
            }
            (s, None)
        },
        TooltipFormat::Percent(dec) => {
            let d: u8 = match dec {
                Some(d) => d,
                None => 1,
            };
            push_char(&mut s, '{');
            push_char(&mut s, '0');
            push_char(&mut s, '.');
            push_zeros(&mut s, d);
            push_char(&mut s, '%');
            push_char(&mut s, '}');
            proof {
                assert(s@ =~= format_pattern(column@, format));
            }
            (s, None)
        },
        TooltipFormat::Currency => {
            push_char(&mut s, '{');
            push_char(&mut s, '$');
            push_char(&mut s, '0');
            push_char(&mut s, ',');
            push_char(&mut s, '0');
            push_char(&mut s, '}');
            proof {
                assert(s@ =~= format_pattern(column@, format));
            }
            (s, None)
        },
        TooltipFormat::DateTime(scale) => {
            let fmt = time_scale_strftime(&scale);
            push_char(&mut s, '{');
            s.append(fmt);
            push_char(&mut s, '}');
            proof {
                assert(s@ =~= format_pattern(column@, format));
            }
            (s, Some(String::from_str("datetime")))
        },
    }
}

/// Convert a tooltip definition to the `(tooltips, formatters)` rows taken
/// by the hover tool builder.
pub fn tooltip_arrays(spec: &TooltipSpec) -> (r: (Vec<(String, String)>, Vec<(String, String)>))
    ensures
        string_pairs(r.0@) == tooltip_pairs(spec@),
        string_pairs(r.1@) == formatter_pairs(spec@),
{
    let mut tooltips: Vec<(String, String)> = Vec::new();
    let mut formatters: Vec<(String, String)> = Vec::new();
    let n = spec.fields.len();
    for i in 0..n
        invariant
            n == spec.fields@.len(),
            string_pairs(tooltips@) == tooltip_pairs(fields_view(spec.fields@.take(i as int))),
            string_pairs(formatters@) == formatter_pairs(fields_view(spec.fields@.take(i as int))),
    {
        let field = &spec.fields[i];
        let (fmt_str, fmt_type) = format_tooltip_field(field.column.as_str(), field.format);
        let ghost fv = fields_view(spec.fields@.take(i + 1));
        proof {
            assert(spec.fields@.take(i + 1) =~= spec.fields@.take(i as int).push(spec.fields@[i as int]));
            assert(fv.drop_last() =~= fields_view(spec.fields@.take(i as int)));
            assert(fv.last() == field@);
        }
        let ghost t0 = tooltips@;
        tooltips.push((field.label.clone(), fmt_str));
        proof {
            assert(string_pairs(tooltips@) =~= string_pairs(t0).push((field.label@, format_pattern(field.column@, field.format))));
            assert(tooltip_pairs(fv) =~= tooltip_pairs(fv.drop_last()).push((field.label@, format_pattern(field.column@, field.format))));
        }
        match fmt_type {
            Some(ft) => {
                let mut key = String::new();
                push_col_ref(&mut key, field.column.as_str());
                let ghost f0 = formatters@;
                formatters.push((key, ft));
                proof {
                    assert(string_pairs(formatters@) =~= string_pairs(f0).push((col_ref(field.column@), ft@)));
                }
            },
            None => {},
        }
    }
    proof {
        assert(spec.fields@.take(n as int) =~= spec.fields@);
    }
    (tooltips, formatters)
}

/// Borrow each owned pair as a pair of string slices.
fn borrow_pairs(v: &Vec<(String, String)>) -> (r: Vec<(&str, &str)>)
    ensures
        pair_views(r@) == string_pairs(v@),
{
    let mut out: Vec<(&str, &str)> = Vec::new();
    let n = v.len();
    for i in 0..n
        invariant
            n == v@.len(),
            pair_views(out@) == string_pairs(v@.take(i as int)),
    {
        let ghost o0 = out@;
        out.push((v[i].0.as_str(), v[i].1.as_str()));
        proof {
            assert(pair_views(out@) =~= pair_views(o0).push((v@[i as int].0@, v@[i as int].1@)));
            assert(v@.take(i + 1) =~= v@.take(i as int).push(v@[i as int]));
            assert(string_pairs(v@.take(i + 1)) =~= string_pairs(v@.take(i as int)).push((v@[i as int].0@, v@[i as int].1@)));
        }
    }
    proof {
        assert(v@.take(n as int) =~= v@);
    }
    out
}

/// The default tooltip rows for a list of columns: each column labelled by
/// its name and shown as text.
pub open spec fn default_tooltips(cols: Seq<&str>) -> Seq<(Seq<char>, Seq<char>)> {
    cols.map_values(|c: &str| (c@, col_ref(c@)))
}

/// A hover tool showing each of `cols` as text, labelled by its name.
pub fn default_hover_tool(id_gen: &mut IdGen, cols: &[&str]) -> (r: BokehObject)
    requires
        old(id_gen).can_issue(1),
    ensures
        final(id_gen)@ == old(id_gen)@ + 1,
        r@ == hover_tool_model(old(id_gen)@, default_tooltips(cols@), Seq::empty()),
{
    let mut tips: Vec<(String, String)> = Vec::new();
    let n = cols.len();
    for i in 0..n
        invariant
            n == cols@.len(),
            string_pairs(tips@) == default_tooltips(cols@.take(i as int)),
    {
        let c = cols[i];
        let mut v = String::new();
        push_col_ref(&mut v, c);
        let ghost t0 = tips@;
        tips.push((String::from_str(c), v));
        proof {
            assert(string_pairs(tips@) =~= string_pairs(t0).push((c@, col_ref(c@))));
            assert(cols@.take(i + 1) =~= cols@.take(i as int).push(c));
            assert(default_tooltips(cols@.take(i + 1)) =~= default_tooltips(cols@.take(i as int)).push((c@, col_ref(c@))));
        }
    }
    proof {
        assert(cols@.take(n as int) =~= cols@);
    }
    let tip_refs = borrow_pairs(&tips);
    let none: Vec<(&str, &str)> = Vec::new();
    let r = build_hover_tool(id_gen, tip_refs.as_slice(), none.as_slice());
    proof {
        assert(pair_views(none@) =~= Seq::<(Seq<char>, Seq<char>)>::empty());
    }
    r
}

/// A hover tool from a tooltip definition, or the default one for
/// `default_cols` when there is none.
pub fn make_hover_tool(id_gen: &mut IdGen, tt: Option<&TooltipSpec>, default_cols: &[&str]) -> (r: BokehObject)
    requires
        old(id_gen).can_issue(1),
    ensures
        final(id_gen)@ == old(id_gen)@ + 1,
        tt matches Some(spec) ==> r@ == hover_tool_model(
            old(id_gen)@,
            tooltip_pairs(spec@),
            formatter_pairs(spec@),
        ),
        tt is None ==> r@ == hover_tool_model(old(id_gen)@, default_tooltips(default_cols@), Seq::empty()),
{
    match tt {
        Some(spec) => {
            let (tooltips, formatters) = tooltip_arrays(spec);
            let t_refs = borrow_pairs(&tooltips);
            let f_refs = borrow_pairs(&formatters);
            build_hover_tool(id_gen, t_refs.as_slice(), f_refs.as_slice())
        },
        None => default_hover_tool(id_gen, default_cols),
    }
}

// ── Figure edits ─────────────────────────────────────────────────────────────

/// An axis with the label added (when the label is not empty); values that
/// are not inline models are left as they are.
pub open spec fn label_axis(v: ModelValue, label: Seq<char>) -> ModelValue {
    match v {
        ModelValue::Object(o) => if label.len() == 0 {
            v
        } else {
            mval(mobj(o.name, o.id, o.attrs.push(("axis_label"@, mstr(label)))))
        },
        _ => v,
    }
}

/// An attribute after labelling: the axes under `below` get `x`, those
/// under `left` get `y`; other attributes are unchanged.
pub open spec fn label_attr(a: (Seq<char>, ModelValue), x: Seq<char>, y: Seq<char>) -> (Seq<char>, ModelValue) {
    if a.0 == "below"@ && a.1 is Array {
        (a.0, ModelValue::Array(a.1->Array_0.map_values(|v: ModelValue| label_axis(v, x))))
    } else if a.0 == "left"@ && a.1 is Array {
        (a.0, ModelValue::Array(a.1->Array_0.map_values(|v: ModelValue| label_axis(v, y))))
    } else {
        a
    }
}

fn add_axis_label(obj: &mut BokehObject, label: &str)
    ensures
        final(obj)@ == mobj(old(obj)@.name, old(obj)@.id, old(obj)@.attrs.push(("axis_label"@, mstr(label@)))),
{
    let k = String::from_str("axis_label");
    let val = BokehValue::Str(String::from_str(label));
    proof {
        crate::model::lemma_view_attrs_push(obj.attributes@, k, val);
    }
    obj.attributes.push((k, val));
}

fn label_axis_value(v: &mut BokehValue, label: &str)
    ensures
        final(v)@ == label_axis(old(v)@, label@),
{
    if !label.is_empty() {
        match v {
            BokehValue::Object(obj) => add_axis_label(obj, label),
            _ => {},
        }
    }
}

fn label_axes(axes: &mut Vec<BokehValue>, label: &str)
    ensures
        view_values(final(axes)@) == view_values(old(axes)@).map_values(|v: ModelValue| label_axis(v, label@)),
{
    let n = axes.len();
    for i in 0..n
        invariant
            n == axes@.len(),
            axes@.len() == old(axes)@.len(),
            forall|j: int| 0 <= j < i ==> #[trigger] view_value(axes@[j]) == label_axis(view_value(old(axes)@[j]), label@),
            forall|j: int| i <= j < n ==> #[trigger] axes@[j] == old(axes)@[j],
    {
        label_axis_value(&mut axes[i], label);
    }
    proof {
        lemma_view_values_index(axes@);
        lemma_view_values_index(old(axes)@);
        assert(view_values(axes@) =~= view_values(old(axes)@).map_values(|v: ModelValue| label_axis(v, label@)));
    }
}

fn label_axes_in(v: &mut BokehValue, label: &str)
    ensures
        *old(v) is Array ==> final(v)@ == ModelValue::Array(old(v)@->Array_0.map_values(|a: ModelValue| label_axis(a, label@))),
        !(*old(v) is Array) ==> *final(v) == *old(v),
{
    match v {
        BokehValue::Array(axes) => label_axes(axes, label),
        _ => {},
    }
}

/// Add `x_label` to the axes under the figure's `below` attribute and
/// `y_label` to those under `left`; an empty label adds nothing.
pub fn set_axis_labels(fig: &mut BokehObject, x_label: &str, y_label: &str)
    ensures
        final(fig)@ == mobj(
            old(fig)@.name,
            old(fig)@.id,
            old(fig)@.attrs.map_values(|a: (Seq<char>, ModelValue)| label_attr(a, x_label@, y_label@)),
        ),
{
    let n = fig.attributes.len();
    for i in 0..n
        invariant
            n == fig.attributes@.len(),
            fig.name == old(fig).name,
            fig.id == old(fig).id,
            fig.attributes@.len() == old(fig).attributes@.len(),
            forall|j: int| 0 <= j < i ==> #[trigger] fig.attributes@[j].0 == old(fig).attributes@[j].0,
            forall|j: int| 0 <= j < i ==> (#[trigger] fig.attributes@[j].0@, view_value(fig.attributes@[j].1))
                == label_attr((old(fig).attributes@[j].0@, view_value(old(fig).attributes@[j].1)), x_label@, y_label@),
            forall|j: int| i <= j < n ==> #[trigger] fig.attributes@[j] == old(fig).attributes@[j],
    {
        let is_below = str_eq(fig.attributes[i].0.as_str(), "below");
        let is_left = str_eq(fig.attributes[i].0.as_str(), "left");
        if is_below {
            label_axes_in(&mut fig.attributes[i].1, x_label);
        } else if is_left {
            label_axes_in(&mut fig.attributes[i].1, y_label);
        }
        proof {
            let a = old(fig).attributes@[i as int];
            if !is_below && !is_left {
                assert(label_attr((a.0@, view_value(a.1)), x_label@, y_label@) == (a.0@, view_value(a.1)));
            }
        }
    }
    proof {
        lemma_view_attrs_index(fig.attributes@);
        lemma_view_attrs_index(old(fig).attributes@);
        assert(fig@.attrs =~= old(fig)@.attrs.map_values(|a: (Seq<char>, ModelValue)| label_attr(a, x_label@, y_label@)));
    }
}

/// Whether `i` is the first attribute named `key` that holds a list.
pub open spec fn is_list_slot(attrs: Seq<(Seq<char>, ModelValue)>, key: Seq<char>, i: int) -> bool {
    &&& 0 <= i < attrs.len()
    &&& attrs[i].0 == key
    &&& attrs[i].1 is Array
    &&& forall|k: int| 0 <= k < i ==> !(#[trigger] attrs[k].0 == key && attrs[k].1 is Array)
}

/// The attributes with `extra` appended to the first list named `key`;
/// unchanged when there is no such list.
pub open spec fn append_to_list(
    attrs: Seq<(Seq<char>, ModelValue)>,
    key: Seq<char>,
    extra: Seq<ModelValue>,
) -> Seq<(Seq<char>, ModelValue)> {
    if exists|i: int| is_list_slot(attrs, key, i) {
        let i = choose|i: int| is_list_slot(attrs, key, i);
        attrs.update(i, (key, ModelValue::Array(attrs[i].1->Array_0 + extra)))
    } else {
        attrs
    }
}

/// The inline values of a list of models.
pub open spec fn objects_view(s: Seq<BokehObject>) -> Seq<ModelValue> {
    s.map_values(|o: BokehObject| mval(o@))
}

fn is_list(v: &BokehValue) -> (r: bool)
    ensures
        r == (v is Array),
{
    match v {
        BokehValue::Array(_) => true,
        _ => false,
    }
}

fn push_objects(v: &mut BokehValue, items: Vec<BokehObject>)
    requires
        *old(v) is Array,
    ensures
        final(v)@ == ModelValue::Array(old(v)@->Array_0 + objects_view(items@)),
{
    match v {
        BokehValue::Array(arr) => {
            let ghost a0 = arr@;
            let mut rest = items;
            let ghost all = rest@;
            while rest.len() > 0
                invariant
                    rest@ == all.skip(all.len() - rest@.len()),
                    rest@.len() <= all.len(),
                    view_values(arr@) == view_values(a0) + objects_view(all.take(all.len() - rest@.len())),
                decreases rest@.len(),
            {
                let ghost done = all.len() - rest@.len();
                let o = rest.remove(0);
                let v = o.into_value();
                proof {
                    lemma_view_values_push(arr@, v);
                    assert(all.take(done + 1) =~= all.take(done).push(o));
                    assert(objects_view(all.take(done + 1)) =~= objects_view(all.take(done)).push(mval(o@)));
                    assert(rest@ =~= all.skip(all.len() - rest@.len()));
                }
                arr.push(v);
            }
            proof {
                assert(all.take(all.len() as int) =~= all);
            }
        },
        _ => {},
    }
}

/// Appends `items` to the first list attribute named `key`.
pub(crate) fn append_to_list_attr(fig: &mut BokehObject, key: &str, items: Vec<BokehObject>)
    ensures
        final(fig)@ == mobj(old(fig)@.name, old(fig)@.id, append_to_list(old(fig)@.attrs, key@, objects_view(items@))),
{
    let ghost a0 = old(fig)@.attrs;
    let n = fig.attributes.len();
    proof {
        lemma_view_attrs_index(fig.attributes@);
    }
    for i in 0..n
        invariant
            n == fig.attributes@.len(),
            a0 == old(fig)@.attrs,
            a0.len() == n,
            fig.attributes@ == old(fig).attributes@,
            fig.name == old(fig).name,
            fig.id == old(fig).id,
            forall|k: int| 0 <= k < i ==> !(#[trigger] a0[k].0 == key@ && a0[k].1 is Array),
    {
        proof {
            lemma_view_attrs_index(fig.attributes@);
        }
        if str_eq(fig.attributes[i].0.as_str(), key) && is_list(&fig.attributes[i].1) {
            let ghost before = fig.attributes@;
            let ghost extra = objects_view(items@);
            push_objects(&mut fig.attributes[i].1, items);
            proof {
                assert(is_list_slot(a0, key@, i as int));
                assert forall|j: int| is_list_slot(a0, key@, j) implies j == i by {
                    if j < i {
                    } else if j > i {
                        assert(!(a0[i as int].0 == key@ && a0[i as int].1 is Array));
                    }
                }
                let upd = a0.update(i as int, (key@, ModelValue::Array(a0[i as int].1->Array_0 + extra)));
                lemma_view_attrs_index(fig.attributes@);
                assert forall|k: int| 0 <= k < n implies #[trigger] view_attrs(fig.attributes@)[k] == upd[k] by {
                    if k != i {
                        assert(fig.attributes@[k] == before[k]);
                    }
                }
                assert(view_attrs(fig.attributes@) =~= upd);
                assert(fig@ =~= mobj(old(fig)@.name, old(fig)@.id, append_to_list(a0, key@, extra)));
            }
            return;
        }
    }
    proof {
        assert(!exists|i: int| is_list_slot(a0, key@, i));
        assert(fig@ =~= mobj(old(fig)@.name, old(fig)@.id, append_to_list(a0, key@, objects_view(items@))));
    }
}

/// Add glyph renderers to the figure's `renderers` list (the first
/// `renderers` attribute that holds a list; nothing when there is none).
pub fn add_renderers(fig: &mut BokehObject, renderers: Vec<BokehObject>)
    ensures
        final(fig)@ == mobj(
            old(fig)@.name,
            old(fig)@.id,
            append_to_list(old(fig)@.attrs, "renderers"@, objects_view(renderers@)),
        ),
{
    append_to_list_attr(fig, "renderers", renderers);
}

/// Add a legend to the figure's `center` list (the first `center`
/// attribute that holds a list; nothing when there is none).
pub fn add_legend(fig: &mut BokehObject, legend: BokehObject)
    ensures
        final(fig)@ == mobj(
            old(fig)@.name,
            old(fig)@.id,
            append_to_list(old(fig)@.attrs, "center"@, seq![mval(legend@)]),
        ),
{
    let ghost lv = legend@;
    let mut items: Vec<BokehObject> = Vec::new();
    items.push(legend);
    proof {
        assert(objects_view(items@) =~= seq![mval(lv)]);
    }
    append_to_list_attr(fig, "center", items);
}

} // verus!
