//! Filter widgets: the models that let a page's charts be narrowed down
//! interactively, and the combined filter a chart's view applies.

use vstd::prelude::*;
use crate::id_gen::{IdGen, id_for};
use crate::model::{
    BokehObject, BokehValue, ModelObject, ModelValue, lemma_view_attrs_index, lemma_view_values_index,
    lemma_view_values_push, mobj, mstr, mval, view_attrs, view_values,
};
use crate::text::strs;

verus! {

/// Output of building one filter widget.
pub struct FilterOutput {
    /// The widget root (RangeSlider, Select, Slider, Switch, ...).
    pub widget: BokehObject,
    /// Id of the filter model (BooleanFilter, IndexFilter, GroupFilter).
    pub filter_id: String,
    /// The filter model itself, added as a document root so that references
    /// to it from charts resolve.
    pub filter_obj: BokehObject,
    /// Key of the data source the filter applies to.
    pub source_key: String,
    /// Label shown next to a Switch widget.
    pub switch_label: Option<String>,
    /// Whether this is a RangeTool navigator (no view filter).
    pub is_range_tool: bool,
    /// For a RangeTool: the id of the shared Range1d.
    pub range_tool_range_id: Option<String>,
    /// For a RangeTool: the overview figure.
    pub range_tool_overview: Option<BokehObject>,
}

/// The inline values of a list of models.
pub open spec fn inline_models(s: Seq<BokehObject>) -> Seq<ModelValue> {
    s.map_values(|o: BokehObject| mval(o@))
}

/// The filter a chart view applies for the given filter models, whose own
/// id (when one is needed) is drawn at counter `k`: everything when there
/// are none, the one filter itself, or the intersection of all of them.
pub open spec fn combined_filter(k: nat, filters: Seq<ModelObject>) -> ModelValue {
    if filters.len() == 0 {
        mval(mobj("AllIndices"@, id_for(k), seq![]))
    } else if filters.len() == 1 {
        mval(filters[0])
    } else {
        mval(mobj("IntersectionFilter"@, id_for(k), seq![
            ("operands"@, ModelValue::Array(filters.map_values(|f: ModelObject| mval(f)))),
        ]))
    }
}

/// The models of a list of objects.
pub open spec fn models_of(s: Seq<BokehObject>) -> Seq<ModelObject> {
    s.map_values(|o: BokehObject| o@)
}

/// Combine the filters on one data source into the value of a view's
/// `filter`: `AllIndices` for none, the filter inline for one, an
/// `IntersectionFilter` over all of them otherwise.
pub fn combine_filters(id_gen: &mut IdGen, filter_objs: &[BokehObject]) -> (r: BokehValue)
    requires
        old(id_gen).can_issue(1),
    ensures
        r@ == combined_filter(old(id_gen)@, models_of(filter_objs@)),
        final(id_gen)@ == old(id_gen)@ + if filter_objs@.len() == 1 { 0int } else { 1int },
{
    let n = filter_objs.len();
    if n == 0 {
        let aid = id_gen.next();
        let r = BokehObject::new("AllIndices", aid).into_value();
        proof {
            assert(r@->Object_0.attrs =~= Seq::<(Seq<char>, ModelValue)>::empty());
        }
        r
    } else if n == 1 {
        filter_objs[0].clone().into_value()
    } else {
        let isect_id = id_gen.next();
        let mut operands: Vec<BokehValue> = Vec::new();
        for i in 0..n
            invariant
                n == filter_objs@.len(),
                view_values(operands@) == models_of(filter_objs@.take(i as int)).map_values(|f: ModelObject| mval(f)),
        {
            let v = filter_objs[i].clone().into_value();
            proof {
                lemma_view_values_push(operands@, v);
                assert(filter_objs@.take(i + 1) =~= filter_objs@.take(i as int).push(filter_objs@[i as int]));
                assert(models_of(filter_objs@.take(i + 1)).map_values(|f: ModelObject| mval(f)) =~= models_of(
                    filter_objs@.take(i as int),
                ).map_values(|f: ModelObject| mval(f)).push(v@));
            }
            operands.push(v);
        }
        proof {
            assert(filter_objs@.take(n as int) =~= filter_objs@);
        }
        let r = BokehObject::new("IntersectionFilter", isect_id)
            .attr("operands", BokehValue::Array(operands))
            .into_value();
        proof {
            assert(r@->Object_0.attrs =~= combined_filter(old(id_gen)@, models_of(filter_objs@))->Object_0.attrs);
        }
        r
    }
}

/// The reference a filter callback holds to the data source with key `key`,
/// before the source's real id is known.
pub open spec fn cds_placeholder(key: Seq<char>) -> Seq<char> {
    "__cds_"@ + key
}

pub(crate) fn placeholder_id(key: &str) -> (r: String)
    ensures
        r@ == cds_placeholder(key@),
{
    let mut s = String::from_str("__cds_");
    s.append(key);
    s
}

/// The views of a list of strings as string values.
pub open spec fn str_values(s: Seq<Seq<char>>) -> Seq<ModelValue> {
    s.map_values(|x: Seq<char>| mstr(x))
}

fn string_values(items: &[String]) -> (r: Vec<BokehValue>)
    ensures
        view_values(r@) == str_values(strs(items@)),
{
    let mut out: Vec<BokehValue> = Vec::new();
    let n = items.len();
    for i in 0..n
        invariant
            n == items@.len(),
            view_values(out@) == str_values(strs(items@.take(i as int))),
    {
        let v = BokehValue::Str(items[i].clone());
        proof {
            lemma_view_values_push(out@, v);
            assert(items@.take(i + 1) =~= items@.take(i as int).push(items@[i as int]));
            assert(str_values(strs(items@.take(i + 1))) =~= str_values(strs(items@.take(i as int))).push(v@));
        }
        out.push(v);
    }
    proof {
        assert(items@.take(n as int) =~= items@);
    }
    out
}

/// The widget-side attributes shared by the filter widgets: title, current
/// value and options, width mode and the change callback.
pub open spec fn select_widget_model(
    id: Seq<char>,
    label: Seq<char>,
    value: Seq<char>,
    options: Seq<ModelValue>,
    callback: ModelObject,
) -> ModelObject {
    mobj("Select"@, id, seq![
        ("title"@, mstr(label)),
        ("value"@, mstr(value)),
        ("options"@, ModelValue::Array(options)),
        ("sizing_mode"@, mstr("stretch_width"@)),
        ("js_property_callbacks"@, ModelValue::Entries(seq![
            ("change:value"@, ModelValue::Array(seq![mval(callback)])),
        ])),
    ])
}

/// The group filter at counter `k`: a `GroupFilter` on the column showing
/// the first option (or nothing when there are none), its callback at
/// `k + 1` and the `Select` widget at `k + 2`.
pub open spec fn group_filter_models(
    k: nat,
    source_key: Seq<char>,
    column: Seq<char>,
    label: Seq<char>,
    options: Seq<Seq<char>>,
) -> (ModelObject, ModelObject) {
    let default_val = if options.len() > 0 { options[0] } else { Seq::empty() };
    let gf = mobj("GroupFilter"@, id_for(k), seq![
        ("column_name"@, mstr(column)),
        ("group"@, mstr(default_val)),
    ]);
    let callback = mobj("CustomJS"@, id_for(k + 1), seq![
        ("args"@, ModelValue::Entries(seq![
            ("gf"@, ModelValue::Ref(id_for(k))),
            ("source"@, ModelValue::Ref(cds_placeholder(source_key))),
        ])),
        ("code"@, mstr("gf.group = cb_obj.value; source.change.emit();"@)),
    ]);
    (gf, select_widget_model(id_for(k + 2), label, default_val, str_values(options), callback))
}

/// What a filter builder hands back, as plain values.
pub open spec fn filter_output_is(
    out: FilterOutput,
    widget: ModelObject,
    filter_obj: ModelObject,
    source_key: Seq<char>,
) -> bool {
    &&& out.widget@ == widget
    &&& out.filter_obj@ == filter_obj
    &&& out.filter_id@ == filter_obj.id
    &&& out.source_key@ == source_key
    &&& out.switch_label is None
    &&& !out.is_range_tool
    &&& out.range_tool_range_id is None
    &&& out.range_tool_overview is None
}

/// Build a group filter: a drop-down of `options` driving a `GroupFilter`
/// on `column` (no "all" choice; the first option is selected).
pub fn build_group_filter(
    id_gen: &mut IdGen,
    source_key: &str,
    column: &str,
    label: &str,
    options: &[String],
) -> (r: FilterOutput)
    requires
        old(id_gen).can_issue(3),
    ensures
        final(id_gen)@ == old(id_gen)@ + 3,
        filter_output_is(
            r,
            group_filter_models(old(id_gen)@, source_key@, column@, label@, strs(options@)).1,
            group_filter_models(old(id_gen)@, source_key@, column@, label@, strs(options@)).0,
            source_key@,
        ),
{
    let ghost k = id_gen@;
    let gf_id = id_gen.next();
    let default_val: String = if options.len() > 0 { options[0].clone() } else { String::new() };
    let gf = BokehObject::new("GroupFilter", gf_id.clone())
        .attr("column_name", BokehValue::Str(String::from_str(column)))
        .attr("group", BokehValue::Str(default_val.clone()));
    let opts = string_values(options);

    let cb_id = id_gen.next();
    let mut args: Vec<(String, BokehValue)> = Vec::new();
    args.push((String::from_str("gf"), BokehValue::ref_of(gf_id.as_str())));
    args.push((String::from_str("source"), BokehValue::Ref(placeholder_id(source_key))));
    proof {
        lemma_view_attrs_index(args@);
    }
    let callback = BokehObject::new("CustomJS", cb_id)
        .attr("args", BokehValue::Entries(args))
        .attr("code", BokehValue::Str(String::from_str("gf.group = cb_obj.value; source.change.emit();")));

    proof {
        let m = group_filter_models(k, source_key@, column@, label@, strs(options@));
        assert(gf@.attrs =~= m.0.attrs);
        assert(view_attrs(args@) =~= seq![
            ("gf"@, ModelValue::Ref(id_for(k))),
            ("source"@, ModelValue::Ref(cds_placeholder(source_key@))),
        ]);
        let mcb = mobj("CustomJS"@, id_for(k + 1), seq![
            ("args"@, ModelValue::Entries(seq![
                ("gf"@, ModelValue::Ref(id_for(k))),
                ("source"@, ModelValue::Ref(cds_placeholder(source_key@))),
            ])),
            ("code"@, mstr("gf.group = cb_obj.value; source.change.emit();"@)),
        ]);
        assert(callback@.attrs =~= mcb.attrs);
        assert(callback@ == mcb);
    }
    let widget_id = id_gen.next();
    let widget = select_widget(widget_id, label, default_val, opts, callback);
    FilterOutput {
        widget,
        filter_id: gf_id,
        filter_obj: gf,
        source_key: String::from_str(source_key),
        switch_label: None,
        is_range_tool: false,
        range_tool_range_id: None,
        range_tool_overview: None,
    }
}

fn select_widget(id: String, label: &str, value: String, options: Vec<BokehValue>, callback: BokehObject) -> (r: BokehObject)
    ensures
        r@ == select_widget_model(id@, label@, value@, view_values(options@), callback@),
{
    let ghost cv = callback@;
    let mut cbs: Vec<BokehValue> = Vec::new();
    cbs.push(callback.into_value());
    let mut handlers: Vec<(String, BokehValue)> = Vec::new();
    handlers.push((String::from_str("change:value"), BokehValue::Array(cbs)));
    proof {
        lemma_view_values_index(cbs@);
        assert(view_values(cbs@) =~= seq![mval(cv)]);
        lemma_view_attrs_index(handlers@);
        assert(view_attrs(handlers@) =~= seq![("change:value"@, ModelValue::Array(seq![mval(cv)]))]);
    }
    let r = BokehObject::new("Select", id)
        .attr("title", BokehValue::Str(String::from_str(label)))
        .attr("value", BokehValue::Str(value))
        .attr("options", BokehValue::Array(options))
        .attr("sizing_mode", BokehValue::Str(String::from_str("stretch_width")))
        .attr("js_property_callbacks", BokehValue::Entries(handlers));
    proof {
        assert(r@.attrs =~= select_widget_model(id@, label@, value@, view_values(options@), cv).attrs);
    }
    r
}


/// Start of the select filter's callback code, before the column name.
pub const SELECT_CODE_HEAD: &'static str = "const val = cb_obj.value;const data = source.data['";
/// End of the select filter's callback code, after the column name.
pub const SELECT_CODE_TAIL: &'static str = "'];if (val === '(All)') {bf.booleans = data.map(() => true);} else {bf.booleans = data.map(v => v === val);}source.change.emit();";
/// Start of the top-N filter's callback code, before the column name.
pub const TOP_N_CODE_HEAD: &'static str = "const n = cb_obj.value;const data = source.data['";
/// The top-N code between the column name and the sort direction.
pub const TOP_N_CODE_MID: &'static str = "'];const indexed = data.map((v, i) => ({v: v, i: i}));if (";
/// End of the top-N filter's callback code, after the sort direction.
pub const TOP_N_CODE_TAIL: &'static str = ") {indexed.sort((a, b) => b.v - a.v);} else {indexed.sort((a, b) => a.v - b.v);}idx_filter.indices = indexed.slice(0, n).map(x => x.i);source.change.emit();";

/// `n` copies of `true`.
pub open spec fn all_true(n: nat) -> Seq<ModelValue> {
    Seq::new(n, |i: int| ModelValue::Bool(true))
}

/// The select filter at counter `k`: a `BooleanFilter` over the `n` rows
/// (all shown), its callback at `k + 1` and the `Select` widget at `k + 2`,
/// whose options are "(All)" followed by `options`.
pub open spec fn select_filter_models(
    k: nat,
    n: nat,
    source_key: Seq<char>,
    column: Seq<char>,
    label: Seq<char>,
    options: Seq<Seq<char>>,
) -> (ModelObject, ModelObject) {
    let bf = mobj("BooleanFilter"@, id_for(k), seq![("booleans"@, ModelValue::Array(all_true(n)))]);
    let callback = mobj("CustomJS"@, id_for(k + 1), seq![
        ("args"@, ModelValue::Entries(seq![
            ("bf"@, mval(bf)),
            ("source"@, ModelValue::Ref(cds_placeholder(source_key))),
            ("col"@, mstr(column)),
        ])),
        ("code"@, mstr(SELECT_CODE_HEAD@ + column + SELECT_CODE_TAIL@)),
    ]);
    (bf, select_widget_model(id_for(k + 2), label, "(All)"@, seq![mstr("(All)"@)] + str_values(options), callback))
}

fn bools_true(n: usize) -> (r: Vec<BokehValue>)
    ensures
        view_values(r@) == all_true(n as nat),
{
    let mut out: Vec<BokehValue> = Vec::new();
    for i in 0..n
        invariant
            view_values(out@) == all_true(i as nat),
    {
        proof {
            lemma_view_values_push(out@, BokehValue::Bool(true));
            assert(all_true((i + 1) as nat) =~= all_true(i as nat).push(ModelValue::Bool(true)));
        }
        out.push(BokehValue::Bool(true));
    }
    out
}

/// Build a select filter over `n` rows: a drop-down with "(All)" and the
/// options, driving a `BooleanFilter` on `column`.
pub fn build_select_filter(
    id_gen: &mut IdGen,
    source_key: &str,
    column: &str,
    label: &str,
    n: usize,
    options: &[String],
) -> (r: FilterOutput)
    requires
        old(id_gen).can_issue(3),
    ensures
        final(id_gen)@ == old(id_gen)@ + 3,
        filter_output_is(
            r,
            select_filter_models(old(id_gen)@, n as nat, source_key@, column@, label@, strs(options@)).1,
            select_filter_models(old(id_gen)@, n as nat, source_key@, column@, label@, strs(options@)).0,
            source_key@,
        ),
{
    let ghost k = id_gen@;
    let bf_id = id_gen.next();
    let bf = BokehObject::new("BooleanFilter", bf_id.clone()).attr("booleans", BokehValue::Array(bools_true(n)));
    let ghost bfv = bf@;

    let mut all_opts: Vec<BokehValue> = Vec::new();
    all_opts.push(BokehValue::Str(String::from_str("(All)")));
    let rest = string_values(options);
    let ghost a0 = all_opts@;
    let ghost r0 = rest@;
    let mut rest = rest;
    all_opts.append(&mut rest);
    proof {
        assert(all_opts@ =~= a0 + r0);
        lemma_view_values_index(all_opts@);
        lemma_view_values_index(a0);
        lemma_view_values_index(r0);
        assert(view_values(all_opts@) =~= seq![mstr("(All)"@)] + str_values(strs(options@)));
    }

    let cb_id = id_gen.next();
    let mut code = String::from_str(SELECT_CODE_HEAD);
    code.append(column);
    code.append(SELECT_CODE_TAIL);
    let mut args: Vec<(String, BokehValue)> = Vec::new();
    args.push((String::from_str("bf"), bf.clone().into_value()));
    args.push((String::from_str("source"), BokehValue::Ref(placeholder_id(source_key))));
    args.push((String::from_str("col"), BokehValue::Str(String::from_str(column))));
    let callback = BokehObject::new("CustomJS", cb_id)
        .attr("args", BokehValue::Entries(args))
        .attr("code", BokehValue::Str(code));
    proof {
        let m = select_filter_models(k, n as nat, source_key@, column@, label@, strs(options@));
        assert(bfv.attrs =~= m.0.attrs);
        lemma_view_attrs_index(args@);
        let mcb = mobj("CustomJS"@, id_for(k + 1), seq![
            ("args"@, ModelValue::Entries(seq![
                ("bf"@, mval(m.0)),
                ("source"@, ModelValue::Ref(cds_placeholder(source_key@))),
                ("col"@, mstr(column@)),
            ])),
            ("code"@, mstr(SELECT_CODE_HEAD@ + column@ + SELECT_CODE_TAIL@)),
        ]);
        assert(view_attrs(args@) =~= mcb.attrs[0].1->Entries_0);
        assert(callback@.attrs =~= mcb.attrs);
    }
    let widget_id = id_gen.next();
    let widget = select_widget(widget_id, label, String::from_str("(All)"), all_opts, callback);
    FilterOutput {
        widget,
        filter_id: bf_id,
        filter_obj: bf,
        source_key: String::from_str(source_key),
        switch_label: None,
        is_range_tool: false,
        range_tool_range_id: None,
        range_tool_overview: None,
    }
}

/// The row indices `0..n` as integer values.
pub open spec fn row_indices(n: nat) -> Seq<ModelValue> {
    Seq::new(n, |i: int| ModelValue::Int(i as i64))
}

/// The top-N filter at counter `k`: an `IndexFilter` holding all `n` rows,
/// its callback at `k + 1` (sorting by `column`, descending or not) and the
/// `Slider` widget at `k + 2`, from 1 to `max_n` and set to `max_n`.
pub open spec fn top_n_filter_models(
    k: nat,
    n: nat,
    max_n: usize,
    descending: bool,
    source_key: Seq<char>,
    column: Seq<char>,
    label: Seq<char>,
) -> (ModelObject, ModelObject) {
    let idx = mobj("IndexFilter"@, id_for(k), seq![("indices"@, ModelValue::Array(row_indices(n)))]);
    let dir = if descending { "true"@ } else { "false"@ };
    let callback = mobj("CustomJS"@, id_for(k + 1), seq![
        ("args"@, ModelValue::Entries(seq![
            ("idx_filter"@, ModelValue::Ref(id_for(k))),
            ("source"@, ModelValue::Ref(cds_placeholder(source_key))),
            ("col"@, mstr(column)),
            ("descending"@, ModelValue::Bool(descending)),
        ])),
        ("code"@, mstr(TOP_N_CODE_HEAD@ + column + TOP_N_CODE_MID@ + dir + TOP_N_CODE_TAIL@)),
    ]);
    let widget = mobj("Slider"@, id_for(k + 2), seq![
        ("title"@, mstr(label)),
        ("start"@, ModelValue::Int(1)),
        ("end"@, ModelValue::Int(max_n as i64)),
        ("value"@, ModelValue::Int(max_n as i64)),
        ("step"@, ModelValue::Int(1)),
        ("sizing_mode"@, mstr("stretch_width"@)),
        ("js_property_callbacks"@, ModelValue::Entries(seq![
            ("change:value"@, ModelValue::Array(seq![mval(callback)])),
        ])),
    ]);
    (idx, widget)
}

fn index_values(n: usize) -> (r: Vec<BokehValue>)
    ensures
        view_values(r@) == row_indices(n as nat),
{
    let mut out: Vec<BokehValue> = Vec::new();
    for i in 0..n
        invariant
            view_values(out@) == row_indices(i as nat),
    {
        let v = BokehValue::Int(i as i64);
        proof {
            lemma_view_values_push(out@, v);
            assert(row_indices((i + 1) as nat) =~= row_indices(i as nat).push(ModelValue::Int(i as i64)));
        }
        out.push(v);
    }
    out
}

/// Build a top-N filter over `n` rows: a slider from 1 to `max_n` driving
/// an `IndexFilter` that keeps the first rows by `column`.
pub fn build_top_n_filter(
    id_gen: &mut IdGen,
    source_key: &str,
    column: &str,
    label: &str,
    n: usize,
    max_n: usize,
    descending: bool,
) -> (r: FilterOutput)
    requires
        old(id_gen).can_issue(3),
    ensures
        final(id_gen)@ == old(id_gen)@ + 3,
        filter_output_is(
            r,
            top_n_filter_models(old(id_gen)@, n as nat, max_n, descending, source_key@, column@, label@).1,
            top_n_filter_models(old(id_gen)@, n as nat, max_n, descending, source_key@, column@, label@).0,
            source_key@,
        ),
{
    let ghost k = id_gen@;
    let idx_id = id_gen.next();
    let idx_filter = BokehObject::new("IndexFilter", idx_id.clone()).attr("indices", BokehValue::Array(index_values(n)));
    let desc_str = if descending { "true" } else { "false" };

    let cb_id = id_gen.next();
    let mut code = String::from_str(TOP_N_CODE_HEAD);
    code.append(column);
    code.append(TOP_N_CODE_MID);
    code.append(desc_str);
    code.append(TOP_N_CODE_TAIL);
    let mut args: Vec<(String, BokehValue)> = Vec::new();
    args.push((String::from_str("idx_filter"), BokehValue::ref_of(idx_id.as_str())));
    args.push((String::from_str("source"), BokehValue::Ref(placeholder_id(source_key))));
    args.push((String::from_str("col"), BokehValue::Str(String::from_str(column))));
    args.push((String::from_str("descending"), BokehValue::Bool(descending)));
    let callback = BokehObject::new("CustomJS", cb_id)
        .attr("args", BokehValue::Entries(args))
        .attr("code", BokehValue::Str(code));
    let ghost cbv = callback@;

    let mut cbs: Vec<BokehValue> = Vec::new();
    cbs.push(callback.into_value());
    let mut handlers: Vec<(String, BokehValue)> = Vec::new();
    handlers.push((String::from_str("change:value"), BokehValue::Array(cbs)));

    let widget_id = id_gen.next();
    let widget = BokehObject::new("Slider", widget_id)
        .attr("title", BokehValue::Str(String::from_str(label)))
        .attr("start", BokehValue::Int(1))
        .attr("end", BokehValue::Int(max_n as i64))
        .attr("value", BokehValue::Int(max_n as i64))
        .attr("step", BokehValue::Int(1))
        .attr("sizing_mode", BokehValue::Str(String::from_str("stretch_width")))
        .attr("js_property_callbacks", BokehValue::Entries(handlers));
    proof {
        let m = top_n_filter_models(k, n as nat, max_n, descending, source_key@, column@, label@);
        assert(idx_filter@.attrs =~= m.0.attrs);
        lemma_view_attrs_index(args@);
        let dir = if descending { "true"@ } else { "false"@ };
        let mcb = mobj("CustomJS"@, id_for(k + 1), seq![
            ("args"@, ModelValue::Entries(seq![
                ("idx_filter"@, ModelValue::Ref(id_for(k))),
                ("source"@, ModelValue::Ref(cds_placeholder(source_key@))),
                ("col"@, mstr(column@)),
                ("descending"@, ModelValue::Bool(descending)),
            ])),
            ("code"@, mstr(TOP_N_CODE_HEAD@ + column@ + TOP_N_CODE_MID@ + dir + TOP_N_CODE_TAIL@)),
        ]);
        assert(view_attrs(args@) =~= mcb.attrs[0].1->Entries_0);
        assert(cbv.attrs =~= mcb.attrs);
        lemma_view_values_index(cbs@);
        assert(view_values(cbs@) =~= seq![mval(cbv)]);
        lemma_view_attrs_index(handlers@);
        assert(view_attrs(handlers@) =~= seq![("change:value"@, ModelValue::Array(seq![mval(cbv)]))]);
        assert(widget@.attrs =~= m.1.attrs);
    }
    FilterOutput {
        widget,
        filter_id: idx_id,
        filter_obj: idx_filter,
        source_key: String::from_str(source_key),
        switch_label: None,
        is_range_tool: false,
        range_tool_range_id: None,
        range_tool_overview: None,
    }
}


/// Start of the range filters' callback code, before the column name.
pub const RANGE_CODE_HEAD: &'static str = "const [lo, hi] = cb_obj.value;const data = source.data['";
/// End of the range filters' callback code, after the column name.
pub const RANGE_CODE_TAIL: &'static str = "'];bf.booleans = data.map(v => v >= lo && v <= hi);source.change.emit();";
/// Start of the threshold filter's callback code, before the column name.
pub const THRESHOLD_CODE_HEAD: &'static str = "const data = source.data['";
/// The threshold code between the column name and the direction.
pub const THRESHOLD_CODE_MID: &'static str = "'];if (cb_obj.active) {bf.booleans = data.map(v => ";
/// End of the threshold filter's callback code, after the direction.
pub const THRESHOLD_CODE_TAIL: &'static str = " ? v > threshold : v < threshold);} else {bf.booleans = data.map(() => true);}source.change.emit();";

/// The slider filter at counter `k` over `n` rows: a `BooleanFilter` (all
/// shown), its callback at `k + 1` keeping the rows whose `column` lies in
/// the selected range, and the slider `slider` at `k + 2` spanning
/// `min..max` in steps of `step` (numbers given by their `f64` bits). The
/// callback holds the filter inline when `inline_filter`, else by id.
pub open spec fn range_filter_models(
    k: nat,
    n: nat,
    slider: Seq<char>,
    inline_filter: bool,
    source_key: Seq<char>,
    column: Seq<char>,
    label: Seq<char>,
    min: u64,
    max: u64,
    step: u64,
) -> (ModelObject, ModelObject) {
    let bf = mobj("BooleanFilter"@, id_for(k), seq![("booleans"@, ModelValue::Array(all_true(n)))]);
    let callback = mobj("CustomJS"@, id_for(k + 1), seq![
        ("args"@, ModelValue::Entries(seq![
            ("bf"@, if inline_filter { mval(bf) } else { ModelValue::Ref(id_for(k)) }),
            ("source"@, ModelValue::Ref(cds_placeholder(source_key))),
            ("col"@, mstr(column)),
        ])),
        ("code"@, mstr(RANGE_CODE_HEAD@ + column + RANGE_CODE_TAIL@)),
    ]);
    let widget = mobj(slider, id_for(k + 2), seq![
        ("title"@, mstr(label)),
        ("start"@, ModelValue::Float(min)),
        ("end"@, ModelValue::Float(max)),
        ("value"@, ModelValue::Array(seq![ModelValue::Float(min), ModelValue::Float(max)])),
        ("step"@, ModelValue::Float(step)),
        ("sizing_mode"@, mstr("stretch_width"@)),
        ("js_property_callbacks"@, ModelValue::Entries(seq![
            ("change:value"@, ModelValue::Array(seq![mval(callback)])),
        ])),
    ]);
    (bf, widget)
}

fn change_handlers(event: &str, callback: BokehObject) -> (r: BokehValue)
    ensures
        r@ == ModelValue::Entries(seq![(event@, ModelValue::Array(seq![mval(callback@)]))]),
{
    let ghost cv = callback@;
    let mut cbs: Vec<BokehValue> = Vec::new();
    cbs.push(callback.into_value());
    let mut handlers: Vec<(String, BokehValue)> = Vec::new();
    handlers.push((String::from_str(event), BokehValue::Array(cbs)));
    proof {
        lemma_view_values_index(cbs@);
        assert(view_values(cbs@) =~= seq![mval(cv)]);
        lemma_view_attrs_index(handlers@);
        assert(view_attrs(handlers@) =~= seq![(event@, ModelValue::Array(seq![mval(cv)]))]);
    }
    BokehValue::Entries(handlers)
}

fn build_slider_range_filter(
    id_gen: &mut IdGen,
    slider: &str,
    inline_filter: bool,
    source_key: &str,
    column: &str,
    label: &str,
    n: usize,
    min: u64,
    max: u64,
    step: u64,
) -> (r: FilterOutput)
    requires
        old(id_gen).can_issue(3),
    ensures
        final(id_gen)@ == old(id_gen)@ + 3,
        filter_output_is(
            r,
            range_filter_models(old(id_gen)@, n as nat, slider@, inline_filter, source_key@, column@, label@, min, max, step).1,
            range_filter_models(old(id_gen)@, n as nat, slider@, inline_filter, source_key@, column@, label@, min, max, step).0,
            source_key@,
        ),
{
    let ghost k = id_gen@;
    let bf_id = id_gen.next();
    let bf = BokehObject::new("BooleanFilter", bf_id.clone()).attr("booleans", BokehValue::Array(bools_true(n)));
    let ghost bfv = bf@;
    let cb_id = id_gen.next();
    let mut code = String::from_str(RANGE_CODE_HEAD);
    code.append(column);
    code.append(RANGE_CODE_TAIL);
    let bf_arg = if inline_filter { bf.clone().into_value() } else { BokehValue::ref_of(bf_id.as_str()) };
    let mut args: Vec<(String, BokehValue)> = Vec::new();
    args.push((String::from_str("bf"), bf_arg));
    args.push((String::from_str("source"), BokehValue::Ref(placeholder_id(source_key))));
    args.push((String::from_str("col"), BokehValue::Str(String::from_str(column))));
    let callback = BokehObject::new("CustomJS", cb_id)
        .attr("args", BokehValue::Entries(args))
        .attr("code", BokehValue::Str(code));
    let ghost cbv = callback@;
    let handlers = change_handlers("change:value", callback);
    let mut bounds: Vec<BokehValue> = Vec::new();
    bounds.push(BokehValue::Float(min));
    bounds.push(BokehValue::Float(max));
    proof {
        lemma_view_values_index(bounds@);
        assert(view_values(bounds@) =~= seq![ModelValue::Float(min), ModelValue::Float(max)]);
    }
    let widget_id = id_gen.next();
    let widget = BokehObject::new(slider, widget_id)
        .attr("title", BokehValue::Str(String::from_str(label)))
        .attr("start", BokehValue::Float(min))
        .attr("end", BokehValue::Float(max))
        .attr("value", BokehValue::Array(bounds))
        .attr("step", BokehValue::Float(step))
        .attr("sizing_mode", BokehValue::Str(String::from_str("stretch_width")))
        .attr("js_property_callbacks", handlers);
    proof {
        let m = range_filter_models(k, n as nat, slider@, inline_filter, source_key@, column@, label@, min, max, step);
        assert(bfv.attrs =~= m.0.attrs);
        lemma_view_attrs_index(args@);
        let mcb = mobj("CustomJS"@, id_for(k + 1), seq![
            ("args"@, ModelValue::Entries(seq![
                ("bf"@, if inline_filter { mval(m.0) } else { ModelValue::Ref(id_for(k)) }),
                ("source"@, ModelValue::Ref(cds_placeholder(source_key@))),
                ("col"@, mstr(column@)),
            ])),
            ("code"@, mstr(RANGE_CODE_HEAD@ + column@ + RANGE_CODE_TAIL@)),
        ]);
        assert(view_attrs(args@) =~= mcb.attrs[0].1->Entries_0);
        assert(cbv.attrs =~= mcb.attrs);
        assert(widget@.attrs =~= m.1.attrs);
    }
    FilterOutput {
        widget,
        filter_id: bf_id,
        filter_obj: bf,
        source_key: String::from_str(source_key),
        switch_label: None,
        is_range_tool: false,
        range_tool_range_id: None,
        range_tool_overview: None,
    }
}

/// Build a range filter over `n` rows: a `RangeSlider` from `min` to `max`
/// (numbers given by their `f64` bits) driving a `BooleanFilter` on
/// `column`.
pub fn build_range_filter(
    id_gen: &mut IdGen,
    source_key: &str,
    column: &str,
    label: &str,
    n: usize,
    min: u64,
    max: u64,
    step: u64,
) -> (r: FilterOutput)
    requires
        old(id_gen).can_issue(3),
    ensures
        final(id_gen)@ == old(id_gen)@ + 3,
        filter_output_is(
            r,
            range_filter_models(old(id_gen)@, n as nat, "RangeSlider"@, false, source_key@, column@, label@, min, max, step).1,
            range_filter_models(old(id_gen)@, n as nat, "RangeSlider"@, false, source_key@, column@, label@, min, max, step).0,
            source_key@,
        ),
{
    build_slider_range_filter(id_gen, "RangeSlider", false, source_key, column, label, n, min, max, step)
}

/// Build a date range filter over `n` rows: a `DatetimeRangeSlider` from
/// `min_ms` to `max_ms` in steps of `step_ms` (numbers given by their `f64`
/// bits) driving a `BooleanFilter` on `column`.
pub fn build_date_range_filter(
    id_gen: &mut IdGen,
    source_key: &str,
    column: &str,
    label: &str,
    n: usize,
    min_ms: u64,
    max_ms: u64,
    step_ms: u64,
) -> (r: FilterOutput)
    requires
        old(id_gen).can_issue(3),
    ensures
        final(id_gen)@ == old(id_gen)@ + 3,
        filter_output_is(
            r,
            range_filter_models(old(id_gen)@, n as nat, "DatetimeRangeSlider"@, true, source_key@, column@, label@, min_ms, max_ms, step_ms).1,
            range_filter_models(old(id_gen)@, n as nat, "DatetimeRangeSlider"@, true, source_key@, column@, label@, min_ms, max_ms, step_ms).0,
            source_key@,
        ),
{
    build_slider_range_filter(id_gen, "DatetimeRangeSlider", true, source_key, column, label, n, min_ms, max_ms, step_ms)
}

/// The threshold filter at counter `k` over `n` rows: a `BooleanFilter`
/// (all shown), its callback at `k + 1` keeping, while the switch is on,
/// the rows strictly above (or strictly below) `value` (given by its `f64`
/// bits),
/// and the `Switch` at `k + 2`, initially off.
pub open spec fn threshold_filter_models(
    k: nat,
    n: nat,
    source_key: Seq<char>,
    column: Seq<char>,
    value: u64,
    above: bool,
) -> (ModelObject, ModelObject) {
    let bf = mobj("BooleanFilter"@, id_for(k), seq![("booleans"@, ModelValue::Array(all_true(n)))]);
    let dir = if above { "true"@ } else { "false"@ };
    let callback = mobj("CustomJS"@, id_for(k + 1), seq![
        ("args"@, ModelValue::Entries(seq![
            ("bf"@, mval(bf)),
            ("source"@, ModelValue::Ref(cds_placeholder(source_key))),
            ("col"@, mstr(column)),
            ("threshold"@, ModelValue::Float(value)),
            ("above"@, ModelValue::Bool(above)),
        ])),
        ("code"@, mstr(THRESHOLD_CODE_HEAD@ + column + THRESHOLD_CODE_MID@ + dir + THRESHOLD_CODE_TAIL@)),
    ]);
    let widget = mobj("Switch"@, id_for(k + 2), seq![
        ("active"@, ModelValue::Bool(false)),
        ("js_property_callbacks"@, ModelValue::Entries(seq![
            ("change:active"@, ModelValue::Array(seq![mval(callback)])),
        ])),
    ]);
    (bf, widget)
}

/// Build a threshold filter over `n` rows: a `Switch` that, when on, keeps
/// the rows whose `column` is greater than `value` (`above`) or less than it.
pub fn build_threshold_filter(
    id_gen: &mut IdGen,
    source_key: &str,
    column: &str,
    label: &str,
    n: usize,
    value: u64,
    above: bool,
) -> (r: FilterOutput)
    requires
        old(id_gen).can_issue(3),
    ensures
        final(id_gen)@ == old(id_gen)@ + 3,
        r.widget@ == threshold_filter_models(old(id_gen)@, n as nat, source_key@, column@, value, above).1,
        r.filter_obj@ == threshold_filter_models(old(id_gen)@, n as nat, source_key@, column@, value, above).0,
        r.filter_id@ == id_for(old(id_gen)@),
        r.source_key@ == source_key@,
        r.switch_label matches Some(l) && l@ == label@,
        !r.is_range_tool,
        r.range_tool_range_id is None,
        r.range_tool_overview is None,
{
    let ghost k = id_gen@;
    let bf_id = id_gen.next();
    let bf = BokehObject::new("BooleanFilter", bf_id.clone()).attr("booleans", BokehValue::Array(bools_true(n)));
    let ghost bfv = bf@;
    let above_str = if above { "true" } else { "false" };
    let cb_id = id_gen.next();
    let mut code = String::from_str(THRESHOLD_CODE_HEAD);
    code.append(column);
    code.append(THRESHOLD_CODE_MID);
    code.append(above_str);
    code.append(THRESHOLD_CODE_TAIL);
    let mut args: Vec<(String, BokehValue)> = Vec::new();
    args.push((String::from_str("bf"), bf.clone().into_value()));
    args.push((String::from_str("source"), BokehValue::Ref(placeholder_id(source_key))));
    args.push((String::from_str("col"), BokehValue::Str(String::from_str(column))));
    args.push((String::from_str("threshold"), BokehValue::Float(value)));
    args.push((String::from_str("above"), BokehValue::Bool(above)));
    let callback = BokehObject::new("CustomJS", cb_id)
        .attr("args", BokehValue::Entries(args))
        .attr("code", BokehValue::Str(code));
    let ghost cbv = callback@;
    let handlers = change_handlers("change:active", callback);
    let widget_id = id_gen.next();
    let widget = BokehObject::new("Switch", widget_id)
        .attr("active", BokehValue::Bool(false))
        .attr("js_property_callbacks", handlers);
    proof {
        let m = threshold_filter_models(k, n as nat, source_key@, column@, value, above);
        assert(bfv.attrs =~= m.0.attrs);
        lemma_view_attrs_index(args@);
        let dir = if above { "true"@ } else { "false"@ };
        let mcb = mobj("CustomJS"@, id_for(k + 1), seq![
            ("args"@, ModelValue::Entries(seq![
                ("bf"@, mval(m.0)),
                ("source"@, ModelValue::Ref(cds_placeholder(source_key@))),
                ("col"@, mstr(column@)),
                ("threshold"@, ModelValue::Float(value)),
                ("above"@, ModelValue::Bool(above)),
            ])),
            ("code"@, mstr(THRESHOLD_CODE_HEAD@ + column@ + THRESHOLD_CODE_MID@ + dir + THRESHOLD_CODE_TAIL@)),
        ]);
        assert(view_attrs(args@) =~= mcb.attrs[0].1->Entries_0);
        assert(cbv.attrs =~= mcb.attrs);
        assert(widget@.attrs =~= m.1.attrs);
    }
    FilterOutput {
        widget,
        filter_id: bf_id,
        filter_obj: bf,
        source_key: String::from_str(source_key),
        switch_label: Some(String::from_str(label)),
        is_range_tool: false,
        range_tool_range_id: None,
        range_tool_overview: None,
    }
}

/// Start of the range tool's callback code, before the column name.
pub const RANGE_TOOL_CODE_HEAD: &'static str = "const lo = cb_obj.start;const hi = cb_obj.end;const data = source.data['";
/// End of the range tool's callback code, after the column name.
pub const RANGE_TOOL_CODE_TAIL: &'static str = "'];bf.booleans = data.map(v => v >= lo && v <= hi);source.change.emit();";

/// The callback with id `j` that refilters the rows of `source_key` to
/// those whose `column` lies in the shared range; `bf` is the filter,
/// inline or by reference.
pub open spec fn range_tool_callback_model(j: nat, bf: ModelValue, source_key: Seq<char>, column: Seq<char>) -> ModelObject {
    mobj("CustomJS"@, id_for(j), seq![
        ("args"@, ModelValue::Entries(seq![
            ("bf"@, bf),
            ("source"@, ModelValue::Ref(cds_placeholder(source_key))),
            ("col"@, mstr(column)),
        ])),
        ("code"@, mstr(RANGE_TOOL_CODE_HEAD@ + column + RANGE_TOOL_CODE_TAIL@)),
    ])
}

/// The range-tool filter at counter `k` over `n` rows: the shared `Range1d`
/// at `k` spanning `start..end` (`f64` bits), the `BooleanFilter` at
/// `k + 1` (all shown), and the callbacks at `k + 2` (on a new start, with
/// the filter inline) and `k + 3` (on a new end, referring to it).
pub open spec fn range_tool_filter_models(
    k: nat,
    n: nat,
    source_key: Seq<char>,
    column: Seq<char>,
    start: u64,
    end: u64,
) -> (ModelObject, ModelObject) {
    let bf = mobj("BooleanFilter"@, id_for(k + 1), seq![("booleans"@, ModelValue::Array(all_true(n)))]);
    let start_cb = range_tool_callback_model(k + 2, mval(bf), source_key, column);
    let end_cb = range_tool_callback_model(k + 3, ModelValue::Ref(id_for(k + 1)), source_key, column);
    let widget = mobj("Range1d"@, id_for(k), seq![
        ("start"@, ModelValue::Float(start)),
        ("end"@, ModelValue::Float(end)),
        ("js_property_callbacks"@, ModelValue::Entries(seq![
            ("change:start"@, ModelValue::Array(seq![mval(start_cb)])),
            ("change:end"@, ModelValue::Array(seq![mval(end_cb)])),
        ])),
    ]);
    (bf, widget)
}

fn range_tool_callback(id: String, bf: BokehValue, source_key: &str, column: &str) -> (r: BokehObject)
    ensures
        r@ == mobj("CustomJS"@, id@, seq![
            ("args"@, ModelValue::Entries(seq![
                ("bf"@, bf@),
                ("source"@, ModelValue::Ref(cds_placeholder(source_key@))),
                ("col"@, mstr(column@)),
            ])),
            ("code"@, mstr(RANGE_TOOL_CODE_HEAD@ + column@ + RANGE_TOOL_CODE_TAIL@)),
        ]),
{
    let ghost bv = bf@;
    let mut code = String::from_str(RANGE_TOOL_CODE_HEAD);
    code.append(column);
    code.append(RANGE_TOOL_CODE_TAIL);
    let mut args: Vec<(String, BokehValue)> = Vec::new();
    args.push((String::from_str("bf"), bf));
    args.push((String::from_str("source"), BokehValue::Ref(placeholder_id(source_key))));
    args.push((String::from_str("col"), BokehValue::Str(String::from_str(column))));
    let r = BokehObject::new("CustomJS", id)
        .attr("args", BokehValue::Entries(args))
        .attr("code", BokehValue::Str(code));
    proof {
        lemma_view_attrs_index(args@);
        assert(view_attrs(args@) =~= seq![
            ("bf"@, bv),
            ("source"@, ModelValue::Ref(cds_placeholder(source_key@))),
            ("col"@, mstr(column@)),
        ]);
        assert(r@.attrs =~= seq![
            ("args"@, ModelValue::Entries(seq![
                ("bf"@, bv),
                ("source"@, ModelValue::Ref(cds_placeholder(source_key@))),
                ("col"@, mstr(column@)),
            ])),
            ("code"@, mstr(RANGE_TOOL_CODE_HEAD@ + column@ + RANGE_TOOL_CODE_TAIL@)),
        ]);
    }
    r
}

/// Build the range-tool filter over `n` rows: a shared `Range1d` spanning
/// `start..end` whose start and end callbacks keep the rows whose `column`
/// lies in the range. Charts drawn against the range share its id; the
/// overview figure with the draggable tool is built apart from it.
pub fn build_range_tool_filter(
    id_gen: &mut IdGen,
    source_key: &str,
    column: &str,
    n: usize,
    start: u64,
    end: u64,
) -> (r: FilterOutput)
    requires
        old(id_gen).can_issue(4),
    ensures
        final(id_gen)@ == old(id_gen)@ + 4,
        r.widget@ == range_tool_filter_models(old(id_gen)@, n as nat, source_key@, column@, start, end).1,
        r.filter_obj@ == range_tool_filter_models(old(id_gen)@, n as nat, source_key@, column@, start, end).0,
        r.filter_id@ == id_for(old(id_gen)@ + 1),
        r.source_key@ == source_key@,
        r.switch_label is None,
        r.is_range_tool,
        r.range_tool_range_id matches Some(rid) && rid@ == id_for(old(id_gen)@),
        r.range_tool_overview is None,
{
    let ghost k = id_gen@;
    let range_id = id_gen.next();
    let bf_id = id_gen.next();
    let bf = BokehObject::new("BooleanFilter", bf_id.clone()).attr("booleans", BokehValue::Array(bools_true(n)));
    let ghost bfv = bf@;
    let start_cb = range_tool_callback(id_gen.next(), bf.clone().into_value(), source_key, column);
    let end_cb = range_tool_callback(id_gen.next(), BokehValue::ref_of(bf_id.as_str()), source_key, column);
    let ghost sv = start_cb@;
    let ghost ev = end_cb@;
    let mut starts: Vec<BokehValue> = Vec::new();
    starts.push(start_cb.into_value());
    let mut ends: Vec<BokehValue> = Vec::new();
    ends.push(end_cb.into_value());
    let mut handlers: Vec<(String, BokehValue)> = Vec::new();
    handlers.push((String::from_str("change:start"), BokehValue::Array(starts)));
    handlers.push((String::from_str("change:end"), BokehValue::Array(ends)));
    let widget = BokehObject::new("Range1d", range_id.clone())
        .attr("start", BokehValue::Float(start))
        .attr("end", BokehValue::Float(end))
        .attr("js_property_callbacks", BokehValue::Entries(handlers));
    proof {
        let m = range_tool_filter_models(k, n as nat, source_key@, column@, start, end);
        assert(bfv.attrs =~= m.0.attrs);
        assert(sv == range_tool_callback_model((k + 2) as nat, mval(m.0), source_key@, column@));
        assert(ev == range_tool_callback_model((k + 3) as nat, ModelValue::Ref(id_for(k + 1)), source_key@, column@));
        lemma_view_values_index(starts@);
        lemma_view_values_index(ends@);
        assert(view_values(starts@) =~= seq![mval(sv)]);
        assert(view_values(ends@) =~= seq![mval(ev)]);
        lemma_view_attrs_index(handlers@);
        assert(view_attrs(handlers@) =~= seq![
            ("change:start"@, ModelValue::Array(seq![mval(sv)])),
            ("change:end"@, ModelValue::Array(seq![mval(ev)])),
        ]);
        assert(widget@.attrs =~= m.1.attrs);
    }
    FilterOutput {
        widget,
        filter_id: bf_id,
        filter_obj: bf,
        source_key: String::from_str(source_key),
        switch_label: None,
        is_range_tool: true,
        range_tool_range_id: Some(range_id),
        range_tool_overview: None,
    }
}


// ── Laws ─────────────────────────────────────────────────────────────────────

/// The code of the callback a widget runs when its value changes: the
/// first handler of its `js_property_callbacks`.
pub open spec fn value_change_code(widget: ModelObject) -> ModelValue {
    widget.attrs[6].1->Entries_0[0].1->Array_0[0]->Object_0.attrs[1].1
}

/// The arguments the callback a widget runs when its value changes is given.
pub open spec fn value_change_args(widget: ModelObject) -> Seq<(Seq<char>, ModelValue)> {
    widget.attrs[6].1->Entries_0[0].1->Array_0[0]->Object_0.attrs[0].1->Entries_0
}

/// A top-N slider sorts in the direction asked for: the condition that picks
/// the descending sort (`b.v - a.v`, so that `slice(0, n)` keeps the `n`
/// largest values) is the literal `true` exactly when `descending` is set,
/// and `false` (the ascending sort, keeping the `n` smallest) otherwise; the
/// flag is also handed to the callback as its `descending` argument. Before
/// the slider moves, the filter keeps every row (indices `0..n` in order),
/// and the slider runs from 1 to `max_n`, starting at `max_n`.
pub proof fn law_top_n_sorts_in_the_asked_direction(
    k: nat,
    n: nat,
    max_n: usize,
    descending: bool,
    source_key: Seq<char>,
    column: Seq<char>,
    label: Seq<char>,
)
    ensures
        ({
            let w = top_n_filter_models(k, n, max_n, descending, source_key, column, label).1;
            let head = TOP_N_CODE_HEAD@ + column + "'];const indexed = data.map((v, i) => ({v: v, i: i}));if ("@;
            let tail = ") {indexed.sort((a, b) => b.v - a.v);} else {indexed.sort((a, b) => a.v - b.v);}idx_filter.indices = indexed.slice(0, n).map(x => x.i);source.change.emit();"@;
            &&& descending ==> value_change_code(w) == mstr(head + "true"@ + tail)
            &&& !descending ==> value_change_code(w) == mstr(head + "false"@ + tail)
            &&& value_change_args(w)[3] == ("descending"@, ModelValue::Bool(descending))
        }),
        ({
            let (f, w) = top_n_filter_models(k, n, max_n, descending, source_key, column, label);
            &&& f.name == "IndexFilter"@
            &&& f.attrs[0].0 == "indices"@
            &&& f.attrs[0].1->Array_0.len() == n
            &&& forall|i: int| 0 <= i < n ==> #[trigger] f.attrs[0].1->Array_0[i] == ModelValue::Int(i as i64)
            &&& w.name == "Slider"@
            &&& w.attrs[1] == ("start"@, ModelValue::Int(1))
            &&& w.attrs[2] == ("end"@, ModelValue::Int(max_n as i64))
            &&& w.attrs[3] == ("value"@, ModelValue::Int(max_n as i64))
        }),
{
}

/// Every filter on a data source takes part in a chart's view: with two or
/// more filters the view's filter is an `IntersectionFilter` whose operands
/// are exactly the given filters, in order; a single filter is used as it
/// is, and no filter at all shows every row.
pub proof fn law_every_filter_takes_part(k: nat, filters: Seq<ModelObject>)
    ensures
        filters.len() == 0 ==> combined_filter(k, filters) == mval(mobj("AllIndices"@, id_for(k), seq![])),
        filters.len() == 1 ==> combined_filter(k, filters) == mval(filters[0]),
        filters.len() >= 2 ==> {
            let f = combined_filter(k, filters)->Object_0;
            &&& combined_filter(k, filters) is Object
            &&& f.name == "IntersectionFilter"@
            &&& f.attrs.len() == 1
            &&& f.attrs[0].0 == "operands"@
            &&& f.attrs[0].1->Array_0.len() == filters.len()
            &&& forall|i: int| 0 <= i < filters.len() ==> #[trigger] f.attrs[0].1->Array_0[i] == mval(filters[i])
        },
{
}

} // verus!
