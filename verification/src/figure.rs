//! Toolbar tool builders and the `GlyphRenderer` helper.
//!
//! Every builder draws its model ids from an [`IdGen`]; the contracts give
//! the exact model produced, with the ids in the order they are drawn.

use vstd::prelude::*;
use crate::id_gen::{IdGen, id_for};
use crate::model::{BokehObject, BokehValue, ModelObject, ModelValue, mobj, mstr, mval, opt_view};

verus! {

/// Bit pattern of the `f64` number 1.0.
pub const F64_ONE: u64 = 0x3FF0_0000_0000_0000;
/// Bit pattern of the `f64` number 0.5.
pub const F64_HALF: u64 = 0x3FE0_0000_0000_0000;


/// What building a figure hands back: the figure and the ids of its ranges,
/// axes and grids.
pub struct FigureOutput {
    pub figure: BokehObject,
    pub x_range_id: String,
    pub y_range_id: String,
    pub x_axis_id: String,
    pub y_axis_id: String,
    pub x_grid_id: String,
    pub y_grid_id: String,
}

// ── The models produced ──────────────────────────────────────────────────────

/// The selection box overlay drawn by the box zoom and box select tools;
/// its handles, visuals and annotation take the ids `k`, `k + 1`, `k + 2`.
pub open spec fn box_annotation_model(k: nat, editable: bool) -> ModelObject {
    let visuals = mobj("AreaVisuals"@, id_for(k + 1), seq![
        ("fill_color"@, mstr("white"@)),
        ("hover_fill_color"@, mstr("lightgray"@)),
    ]);
    let handles = mobj("BoxInteractionHandles"@, id_for(k), seq![("all"@, mval(visuals))]);
    let attrs = seq![
        ("syncable"@, ModelValue::Bool(false)),
        ("line_color"@, mstr("black"@)),
        ("line_alpha"@, ModelValue::Float(F64_ONE)),
        ("line_width"@, ModelValue::Int(2)),
        ("line_dash"@, ModelValue::Array(seq![ModelValue::Int(4), ModelValue::Int(4)])),
        ("fill_color"@, mstr("lightgrey"@)),
        ("fill_alpha"@, ModelValue::Float(F64_HALF)),
        ("level"@, mstr("overlay"@)),
        ("visible"@, ModelValue::Bool(false)),
        ("left"@, ModelValue::NaN),
        ("right"@, ModelValue::NaN),
        ("top"@, ModelValue::NaN),
        ("bottom"@, ModelValue::NaN),
        ("left_units"@, mstr("canvas"@)),
        ("right_units"@, mstr("canvas"@)),
        ("top_units"@, mstr("canvas"@)),
        ("bottom_units"@, mstr("canvas"@)),
        ("handles"@, mval(handles)),
    ];
    mobj("BoxAnnotation"@, id_for(k + 2), if editable {
        attrs.push(("editable"@, ModelValue::Bool(true)))
    } else {
        attrs
    })
}

pub open spec fn pan_tool_model(k: nat) -> ModelObject {
    mobj("PanTool"@, id_for(k), seq![])
}

pub open spec fn wheel_zoom_tool_model(k: nat) -> ModelObject {
    mobj("WheelZoomTool"@, id_for(k), seq![("renderers"@, mstr("auto"@))])
}

/// The box zoom tool: its overlay takes ids `k..k+2`, the tool `k + 3`.
pub open spec fn box_zoom_tool_model(k: nat) -> ModelObject {
    mobj("BoxZoomTool"@, id_for(k + 3), seq![
        ("dimensions"@, mstr("both"@)),
        ("overlay"@, mval(box_annotation_model(k, false))),
    ])
}

/// The box select tool: its overlay takes ids `k..k+2`, the tool `k + 3`.
pub open spec fn box_select_tool_model(k: nat) -> ModelObject {
    mobj("BoxSelectTool"@, id_for(k + 3), seq![
        ("renderers"@, mstr("auto"@)),
        ("overlay"@, mval(box_annotation_model(k, true))),
    ])
}

pub open spec fn tap_tool_model(k: nat) -> ModelObject {
    mobj("TapTool"@, id_for(k), seq![("renderers"@, mstr("auto"@))])
}

pub open spec fn reset_tool_model(k: nat) -> ModelObject {
    mobj("ResetTool"@, id_for(k), seq![])
}

pub open spec fn save_tool_model(k: nat) -> ModelObject {
    mobj("SaveTool"@, id_for(k), seq![])
}

// ── Builders ─────────────────────────────────────────────────────────────────

fn build_box_annotation_inner(id_gen: &mut IdGen, editable: bool) -> (r: BokehObject)
    requires
        old(id_gen).can_issue(3),
    ensures
        final(id_gen)@ == old(id_gen)@ + 3,
        r@ == box_annotation_model(old(id_gen)@, editable),
{
    let handles_id = id_gen.next();
    let visuals_id = id_gen.next();
    let ann_id = id_gen.next();

    let visuals = BokehObject::new("AreaVisuals", visuals_id)
        .attr("fill_color", BokehValue::Str(String::from_str("white")))
        .attr("hover_fill_color", BokehValue::Str(String::from_str("lightgray")));

    let ghost vv = visuals@;
    let handles = BokehObject::new("BoxInteractionHandles", handles_id)
        .attr("all", visuals.into_value());
    proof {
        assert(handles@ =~= mobj("BoxInteractionHandles"@, id_for(old(id_gen)@), seq![("all"@, mval(vv))]));
    }

    proof {
        let k = old(id_gen)@;
        assert(visuals@.attrs =~= seq![
            ("fill_color"@, mstr("white"@)),
            ("hover_fill_color"@, mstr("lightgray"@)),
        ]);
        assert(visuals@ == mobj("AreaVisuals"@, id_for(k + 1), seq![
            ("fill_color"@, mstr("white"@)),
            ("hover_fill_color"@, mstr("lightgray"@)),
        ]));
    }
    let dash = vec![BokehValue::Int(4), BokehValue::Int(4)];
    proof {
        crate::model::lemma_view_values_index(dash@);
        assert(crate::model::view_values(dash@) =~= seq![ModelValue::Int(4), ModelValue::Int(4)]);
    }
    let mut ann = BokehObject::new("BoxAnnotation", ann_id)
        .attr("syncable", BokehValue::Bool(false))
        .attr("line_color", BokehValue::Str(String::from_str("black")))
        .attr("line_alpha", BokehValue::Float(F64_ONE))
        .attr("line_width", BokehValue::Int(2))
        .attr("line_dash", BokehValue::Array(dash))
        .attr("fill_color", BokehValue::Str(String::from_str("lightgrey")))
        .attr("fill_alpha", BokehValue::Float(F64_HALF))
        .attr("level", BokehValue::Str(String::from_str("overlay")))
        .attr("visible", BokehValue::Bool(false))
        .attr("left", BokehValue::NaN)
        .attr("right", BokehValue::NaN)
        .attr("top", BokehValue::NaN)
        .attr("bottom", BokehValue::NaN)
        .attr("left_units", BokehValue::Str(String::from_str("canvas")))
        .attr("right_units", BokehValue::Str(String::from_str("canvas")))
        .attr("top_units", BokehValue::Str(String::from_str("canvas")))
        .attr("bottom_units", BokehValue::Str(String::from_str("canvas")))
        .attr("handles", handles.into_value());

    if editable {
        ann = ann.attr("editable", BokehValue::Bool(true));
    }
    proof {
        let k = old(id_gen)@;
        assert(ann@.attrs =~= box_annotation_model(k, editable).attrs);
    }
    ann
}


fn build_pan_tool(id_gen: &mut IdGen) -> (r: BokehObject)
    requires
        old(id_gen).can_issue(1),
    ensures
        final(id_gen)@ == old(id_gen)@ + 1,
        r@ == pan_tool_model(old(id_gen)@),
{
    let r = BokehObject::new("PanTool", id_gen.next());
    proof {
        assert(r@.attrs =~= pan_tool_model(old(id_gen)@).attrs);
    }
    r
}

fn build_wheel_zoom_tool(id_gen: &mut IdGen) -> (r: BokehObject)
    requires
        old(id_gen).can_issue(1),
    ensures
        final(id_gen)@ == old(id_gen)@ + 1,
        r@ == wheel_zoom_tool_model(old(id_gen)@),
{
    let r = BokehObject::new("WheelZoomTool", id_gen.next())
        .attr("renderers", BokehValue::Str(String::from_str("auto")));
    proof {
        assert(r@.attrs =~= wheel_zoom_tool_model(old(id_gen)@).attrs);
    }
    r
}

/// A box zoom tool with its (non-editable) selection overlay.
pub fn build_box_zoom_tool(id_gen: &mut IdGen) -> (r: BokehObject)
    requires
        old(id_gen).can_issue(4),
    ensures
        final(id_gen)@ == old(id_gen)@ + 4,
        r@ == box_zoom_tool_model(old(id_gen)@),
{
    let ann = build_box_annotation_inner(id_gen, false);
    let r = BokehObject::new("BoxZoomTool", id_gen.next())
        .attr("dimensions", BokehValue::Str(String::from_str("both")))
        .attr("overlay", ann.into_value());
    proof {
        assert(r@.attrs =~= box_zoom_tool_model(old(id_gen)@).attrs);
    }
    r
}

/// A box select tool with its editable selection overlay.
pub fn build_box_select_tool(id_gen: &mut IdGen) -> (r: BokehObject)
    requires
        old(id_gen).can_issue(4),
    ensures
        final(id_gen)@ == old(id_gen)@ + 4,
        r@ == box_select_tool_model(old(id_gen)@),
{
    let ann = build_box_annotation_inner(id_gen, true);
    let r = BokehObject::new("BoxSelectTool", id_gen.next())
        .attr("renderers", BokehValue::Str(String::from_str("auto")))
        .attr("overlay", ann.into_value());
    proof {
        assert(r@.attrs =~= box_select_tool_model(old(id_gen)@).attrs);
    }
    r
}

fn build_tap_tool(id_gen: &mut IdGen) -> (r: BokehObject)
    requires
        old(id_gen).can_issue(1),
    ensures
        final(id_gen)@ == old(id_gen)@ + 1,
        r@ == tap_tool_model(old(id_gen)@),
{
    let r = BokehObject::new("TapTool", id_gen.next())
        .attr("renderers", BokehValue::Str(String::from_str("auto")));
    proof {
        assert(r@.attrs =~= tap_tool_model(old(id_gen)@).attrs);
    }
    r
}

fn build_reset_tool(id_gen: &mut IdGen) -> (r: BokehObject)
    requires
        old(id_gen).can_issue(1),
    ensures
        final(id_gen)@ == old(id_gen)@ + 1,
        r@ == reset_tool_model(old(id_gen)@),
{
    let r = BokehObject::new("ResetTool", id_gen.next());
    proof {
        assert(r@.attrs =~= reset_tool_model(old(id_gen)@).attrs);
    }
    r
}

fn build_save_tool(id_gen: &mut IdGen) -> (r: BokehObject)
    requires
        old(id_gen).can_issue(1),
    ensures
        final(id_gen)@ == old(id_gen)@ + 1,
        r@ == save_tool_model(old(id_gen)@),
{
    let r = BokehObject::new("SaveTool", id_gen.next());
    proof {
        assert(r@.attrs =~= save_tool_model(old(id_gen)@).attrs);
    }
    r
}

/// The tools of the standard toolbar whose first id is `k`: pan, wheel zoom,
/// box zoom, reset, save, the hover tool if any, box select and tap.
pub open spec fn toolbar_tools(k: nat, hover: Option<ModelObject>) -> Seq<ModelValue> {
    seq![
        mval(pan_tool_model(k + 1)),
        mval(wheel_zoom_tool_model(k + 2)),
        mval(box_zoom_tool_model(k + 3)),
        mval(reset_tool_model(k + 7)),
        mval(save_tool_model(k + 8)),
    ] + (match hover {
        Some(h) => seq![mval(h)],
        None => Seq::empty(),
    }) + seq![mval(box_select_tool_model(k + 9)), mval(tap_tool_model(k + 13))]
}

/// The standard toolbar; it takes the id `k` and its tools the next 13.
pub open spec fn toolbar_model(k: nat, hover: Option<ModelObject>) -> ModelObject {
    mobj("Toolbar"@, id_for(k), seq![("tools"@, ModelValue::Array(toolbar_tools(k, hover)))])
}

/// Build the standard `Toolbar` with pan/zoom/reset/save + box-select + tap,
/// optionally including a `HoverTool`.
pub fn build_toolbar(id_gen: &mut IdGen, hover_tool: Option<BokehObject>) -> (r: BokehObject)
    requires
        old(id_gen).can_issue(14),
    ensures
        final(id_gen)@ == old(id_gen)@ + 14,
        r@ == toolbar_model(old(id_gen)@, opt_view(hover_tool)),
{
    let ghost hv = opt_view(hover_tool);
    let toolbar_id = id_gen.next();
    let mut tools: Vec<BokehValue> = Vec::new();
    tools.push(build_pan_tool(id_gen).into_value());
    tools.push(build_wheel_zoom_tool(id_gen).into_value());
    tools.push(build_box_zoom_tool(id_gen).into_value());
    tools.push(build_reset_tool(id_gen).into_value());
    tools.push(build_save_tool(id_gen).into_value());
    if let Some(ht) = hover_tool {
        tools.push(ht.into_value());
    }
    tools.push(build_box_select_tool(id_gen).into_value());
    tools.push(build_tap_tool(id_gen).into_value());
    proof {
        let k = old(id_gen)@;
        crate::model::lemma_view_values_index(tools@);
        assert(crate::model::view_values(tools@) =~= toolbar_tools(k, hv));
    }
    let r = BokehObject::new("Toolbar", toolbar_id).attr("tools", BokehValue::Array(tools));
    proof {
        let k = old(id_gen)@;
        assert(r@.attrs =~= toolbar_model(k, hv).attrs);
    }
    r
}


/// The views of a list of string-slice pairs.
pub open spec fn pair_views(s: Seq<(&str, &str)>) -> Seq<(Seq<char>, Seq<char>)> {
    s.map_values(|p: (&str, &str)| (p.0@, p.1@))
}

/// The `tooltips` value of a hover tool: one `[label, format]` pair per row.
pub open spec fn tooltip_rows(tips: Seq<(Seq<char>, Seq<char>)>) -> Seq<ModelValue> {
    tips.map_values(|p: (Seq<char>, Seq<char>)| ModelValue::Array(seq![mstr(p.0), mstr(p.1)]))
}

/// The `formatters` entries of a hover tool.
pub open spec fn formatter_entries(fmts: Seq<(Seq<char>, Seq<char>)>) -> Seq<(Seq<char>, ModelValue)> {
    fmts.map_values(|p: (Seq<char>, Seq<char>)| (p.0, mstr(p.1)))
}

/// A hover tool with id `k`; `formatters` is only present when non-empty.
pub open spec fn hover_tool_model(k: nat, tips: Seq<(Seq<char>, Seq<char>)>, fmts: Seq<(Seq<char>, Seq<char>)>) -> ModelObject {
    let base = seq![
        ("renderers"@, mstr("auto"@)),
        ("tooltips"@, ModelValue::Array(tooltip_rows(tips))),
    ];
    mobj("HoverTool"@, id_for(k), if fmts.len() == 0 {
        base
    } else {
        base.push(("formatters"@, ModelValue::Entries(formatter_entries(fmts))))
    })
}

/// Build a `HoverTool` from `(label, format)` rows and `(field, formatter)`
/// pairs.
pub fn build_hover_tool(id_gen: &mut IdGen, tooltips: &[(&str, &str)], formatters: &[(&str, &str)]) -> (r: BokehObject)
    requires
        old(id_gen).can_issue(1),
    ensures
        final(id_gen)@ == old(id_gen)@ + 1,
        r@ == hover_tool_model(old(id_gen)@, pair_views(tooltips@), pair_views(formatters@)),
{
    let mut tooltip_array: Vec<BokehValue> = Vec::new();
    let n = tooltips.len();
    for i in 0..n
        invariant
            n == tooltips@.len(),
            crate::model::view_values(tooltip_array@) == tooltip_rows(pair_views(tooltips@.take(i as int))),
    {
        let (label, fmt) = tooltips[i];
        let mut row: Vec<BokehValue> = Vec::new();
        row.push(BokehValue::Str(String::from_str(label)));
        row.push(BokehValue::Str(String::from_str(fmt)));
        proof {
            crate::model::lemma_view_values_index(row@);
            assert(crate::model::view_values(row@) =~= seq![mstr(label@), mstr(fmt@)]);
        }
        let v = BokehValue::Array(row);
        proof {
            crate::model::lemma_view_values_push(tooltip_array@, v);
            assert(tooltips@.take(i + 1) =~= tooltips@.take(i as int).push(tooltips@[i as int]));
            assert(tooltip_rows(pair_views(tooltips@.take(i + 1))) =~= tooltip_rows(pair_views(tooltips@.take(i as int))).push(v@));
        }
        tooltip_array.push(v);
    }
    proof {
        assert(tooltips@.take(n as int) =~= tooltips@);
    }
    let mut fmt_entries: Vec<(String, BokehValue)> = Vec::new();
    let m = formatters.len();
    for i in 0..m
        invariant
            m == formatters@.len(),
            crate::model::view_attrs(fmt_entries@) == formatter_entries(pair_views(formatters@.take(i as int))),
    {
        let (k, v) = formatters[i];
        let key = String::from_str(k);
        let val = BokehValue::Str(String::from_str(v));
        proof {
            crate::model::lemma_view_attrs_push(fmt_entries@, key, val);
            assert(formatters@.take(i + 1) =~= formatters@.take(i as int).push(formatters@[i as int]));
            assert(formatter_entries(pair_views(formatters@.take(i + 1))) =~= formatter_entries(
                pair_views(formatters@.take(i as int)),
            ).push((k@, val@)));
        }
        fmt_entries.push((key, val));
    }
    proof {
        assert(formatters@.take(m as int) =~= formatters@);
    }
    let has_formatters = m > 0;
    let mut tool = BokehObject::new("HoverTool", id_gen.next())
        .attr("renderers", BokehValue::Str(String::from_str("auto")))
        .attr("tooltips", BokehValue::Array(tooltip_array));
    if has_formatters {
        tool = tool.attr("formatters", BokehValue::Entries(fmt_entries));
    }
    proof {
        assert(tool@.attrs =~= hover_tool_model(old(id_gen)@, pair_views(tooltips@), pair_views(formatters@)).attrs);
    }
    tool
}

/// A glyph renderer with id `k + 2`: its view takes `k`, the default
/// `AllIndices` filter `k + 1`, and the default non-selection glyph `k + 3`.
pub open spec fn glyph_renderer_model(
    k: nat,
    source: ModelValue,
    glyph: ModelObject,
    nonsel: Option<ModelObject>,
    filter: Option<ModelValue>,
) -> ModelObject {
    let filter_val = match filter {
        Some(f) => f,
        None => mval(mobj("AllIndices"@, id_for(k + 1), seq![])),
    };
    let view = mobj("CDSView"@, id_for(k), seq![("filter"@, filter_val)]);
    let ns = match nonsel {
        Some(g) => g,
        None => mobj("Line"@, id_for(k + 3), seq![]),
    };
    mobj("GlyphRenderer"@, id_for(k + 2), seq![
        ("data_source"@, source),
        ("view"@, mval(view)),
        ("glyph"@, mval(glyph)),
        ("nonselection_glyph"@, mval(ns)),
    ])
}

/// The view of an optional value.
pub open spec fn opt_value_view(o: Option<BokehValue>) -> Option<ModelValue> {
    match o {
        Some(x) => Some(x@),
        None => None,
    }
}

/// Build a `GlyphRenderer` with a given glyph and optional `CDSView` filter
/// (`AllIndices` when none is given).
pub fn build_glyph_renderer(
    id_gen: &mut IdGen,
    source_ref: BokehValue,
    glyph: BokehObject,
    nonselection_glyph: Option<BokehObject>,
    filter_ref: Option<BokehValue>,
) -> (r: BokehObject)
    requires
        old(id_gen).can_issue(if nonselection_glyph is Some { 3 } else { 4 }),
    ensures
        final(id_gen)@ == old(id_gen)@ + if nonselection_glyph is Some { 3int } else { 4int },
        r@ == glyph_renderer_model(
            old(id_gen)@,
            source_ref@,
            glyph@,
            opt_view(nonselection_glyph),
            opt_value_view(filter_ref),
        ),
{
    let ghost k = id_gen@;
    let ghost ns_view = opt_view(nonselection_glyph);
    let ghost f_view = opt_value_view(filter_ref);
    let view_id = id_gen.next();
    let all_indices_id = id_gen.next();
    let renderer_id = id_gen.next();

    let filter_val = match filter_ref {
        Some(f) => f,
        None => BokehObject::new("AllIndices", all_indices_id).into_value(),
    };
    proof {
        let fv = filter_val@;
        assert(fv == (match f_view {
            Some(f) => f,
            None => mval(mobj("AllIndices"@, id_for(k + 1), seq![])),
        })) by {
            if f_view is None {
                assert(fv->Object_0.attrs =~= Seq::<(Seq<char>, ModelValue)>::empty());
            }
        }
    }

    let view = BokehObject::new("CDSView", view_id).attr("filter", filter_val);

    let nonsel = match nonselection_glyph {
        Some(g) => g,
        None => {
            let id = id_gen.next();
            BokehObject::new("Line", id)
        },
    };
    let r = BokehObject::new("GlyphRenderer", renderer_id)
        .attr("data_source", source_ref)
        .attr("view", view.into_value())
        .attr("glyph", glyph.into_value())
        .attr("nonselection_glyph", nonsel.into_value());
    proof {
        assert(r@.attrs =~= glyph_renderer_model(k, source_ref@, glyph@, ns_view, f_view).attrs);
    }
    r
}

} // verus!
