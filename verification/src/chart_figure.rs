//! The figure every chart is drawn on: scales, title, axes with grids, the
//! standard toolbar, and the two ranges, which the caller builds (their id
//! is drawn before the figure's own).

use vstd::prelude::*;
use crate::axis::{AxisBuilder, AxisType, axis_model, format_view, grid_model, replaces_formatter};
use crate::customization::TimeScale;
use crate::figure::{FigureOutput, build_toolbar, toolbar_model};
use crate::id_gen::{IdGen, id_for};
use crate::model::{
    BokehObject, BokehValue, ModelObject, ModelValue, lemma_view_values_index, mobj, mstr, mval, opt_view,
    view_values,
};

verus! {

/// The ids an axis with its grid takes: five when its settings replace the
/// default formatter, else four.
pub open spec fn axis_ids(f: Option<(Option<TimeScale>, Option<Seq<char>>)>) -> nat {
    if replaces_formatter(f) { 5 } else { 4 }
}

/// The scale model name of an axis type.
pub open spec fn scale_of(t: AxisType) -> Seq<char> {
    if t == AxisType::Categorical { "CategoricalScale"@ } else { "LinearScale"@ }
}

/// The size attributes of a figure: a fixed width when one is given,
/// else stretching to the width of its cell.
pub open spec fn size_attrs(height: u32, width: Option<u32>) -> Seq<(Seq<char>, ModelValue)> {
    match width {
        Some(w) => seq![
            ("height"@, ModelValue::Int(height as i64)),
            ("width"@, ModelValue::Int(w as i64)),
            ("sizing_mode"@, mstr("fixed"@)),
        ],
        None => seq![("height"@, ModelValue::Int(height as i64)), ("sizing_mode"@, mstr("stretch_width"@))],
    }
}

/// An axis builder's settings as the figure reads them.
pub struct AxisPlan {
    pub axis_type: AxisType,
    pub format: Option<(Option<TimeScale>, Option<Seq<char>>)>,
    pub dimension: u8,
}

/// The plan of an axis builder.
pub open spec fn plan_of(b: AxisBuilder) -> AxisPlan {
    AxisPlan { axis_type: b.axis_type, format: format_view(b.format), dimension: b.dimension }
}

/// The figure built at counter `k`: the x and y scales at `k` and `k + 1`,
/// the title at `k + 2`, the x axis from `k + 3`, the y axis after it, the
/// toolbar after that, and the figure itself last.
pub open spec fn figure_model(
    k: nat,
    title: Seq<char>,
    height: u32,
    width: Option<u32>,
    x_range: ModelValue,
    y_range: ModelValue,
    xa: AxisPlan,
    ya: AxisPlan,
    hover: Option<ModelObject>,
) -> ModelObject {
    let kx = k + 3;
    let ky = kx + axis_ids(xa.format);
    let kt = ky + axis_ids(ya.format);
    mobj("Figure"@, id_for(kt + 14), size_attrs(height, width) + seq![
        ("x_range"@, x_range),
        ("y_range"@, y_range),
        ("x_scale"@, mval(mobj(scale_of(xa.axis_type), id_for(k), seq![]))),
        ("y_scale"@, mval(mobj(scale_of(ya.axis_type), id_for(k + 1), seq![]))),
        ("title"@, mval(mobj("Title"@, id_for(k + 2), seq![("text"@, mstr(title))]))),
        ("renderers"@, ModelValue::Array(Seq::empty())),
        ("toolbar"@, mval(toolbar_model(kt, hover))),
        ("toolbar_location"@, mstr("above"@)),
        ("left"@, ModelValue::Array(seq![mval(axis_model(ya.axis_type, ky, ya.format))])),
        ("below"@, ModelValue::Array(seq![mval(axis_model(xa.axis_type, kx, xa.format))])),
        ("center"@, ModelValue::Array(seq![
            mval(grid_model(kx + 2, xa.dimension)),
            mval(grid_model(ky + 2, ya.dimension)),
        ])),
    ])
}

/// The ids a figure takes: scales and title, both axes, the toolbar and
/// the figure.
pub open spec fn figure_ids(xa: AxisPlan, ya: AxisPlan) -> nat {
    3 + axis_ids(xa.format) + axis_ids(ya.format) + 15
}

/// The figure's attributes around its parts, in the order BokehJS is given
/// them.
pub open spec fn figure_attrs(
    height: u32,
    width: Option<u32>,
    x_range: ModelValue,
    y_range: ModelValue,
    x_scale: ModelObject,
    y_scale: ModelObject,
    title: ModelObject,
    toolbar: ModelObject,
    x_axis: ModelObject,
    y_axis: ModelObject,
    x_grid: ModelObject,
    y_grid: ModelObject,
) -> Seq<(Seq<char>, ModelValue)> {
    size_attrs(height, width) + seq![
        ("x_range"@, x_range),
        ("y_range"@, y_range),
        ("x_scale"@, mval(x_scale)),
        ("y_scale"@, mval(y_scale)),
        ("title"@, mval(title)),
        ("renderers"@, ModelValue::Array(Seq::empty())),
        ("toolbar"@, mval(toolbar)),
        ("toolbar_location"@, mstr("above"@)),
        ("left"@, ModelValue::Array(seq![mval(y_axis)])),
        ("below"@, ModelValue::Array(seq![mval(x_axis)])),
        ("center"@, ModelValue::Array(seq![mval(x_grid), mval(y_grid)])),
    ]
}

#[verifier::rlimit(40)]
fn put_together(
    fig_id: String,
    height: u32,
    width: Option<u32>,
    x_range: BokehValue,
    y_range: BokehValue,
    x_scale: BokehObject,
    y_scale: BokehObject,
    title: BokehObject,
    toolbar: BokehObject,
    x_axis: BokehObject,
    y_axis: BokehObject,
    x_grid: BokehObject,
    y_grid: BokehObject,
) -> (r: BokehObject)
    ensures
        r@ == mobj("Figure"@, fig_id@, figure_attrs(height, width, x_range@, y_range@, x_scale@, y_scale@,
            title@, toolbar@, x_axis@, y_axis@, x_grid@, y_grid@)),
{
    let ghost m = figure_attrs(height, width, x_range@, y_range@, x_scale@, y_scale@, title@, toolbar@,
        x_axis@, y_axis@, x_grid@, y_grid@);
    let ghost (yav, xav, xgv, ygv) = (y_axis@, x_axis@, x_grid@, y_grid@);
    let mut fig = BokehObject::new("Figure", fig_id).attr("height", BokehValue::Int(height as i64));
    match width {
        Some(w) => {
            fig = fig.attr("width", BokehValue::Int(w as i64)).attr(
                "sizing_mode",
                BokehValue::Str(String::from_str("fixed")),
            );
        },
        None => {
            fig = fig.attr("sizing_mode", BokehValue::Str(String::from_str("stretch_width")));
        },
    }
    let left = vec![y_axis.into_value()];
    let below = vec![x_axis.into_value()];
    let center = vec![x_grid.into_value(), y_grid.into_value()];
    let renderers: Vec<BokehValue> = Vec::new();
    proof {
        lemma_view_values_index(left@);
        lemma_view_values_index(below@);
        lemma_view_values_index(center@);
        lemma_view_values_index(renderers@);
        assert(view_values(left@) =~= seq![mval(yav)]);
        assert(view_values(below@) =~= seq![mval(xav)]);
        assert(view_values(center@) =~= seq![mval(xgv), mval(ygv)]);
        assert(view_values(renderers@) =~= Seq::<ModelValue>::empty());
    }
    let fig = fig
        .attr("x_range", x_range)
        .attr("y_range", y_range)
        .attr("x_scale", x_scale.into_value())
        .attr("y_scale", y_scale.into_value())
        .attr("title", title.into_value())
        .attr("renderers", BokehValue::Array(renderers))
        .attr("toolbar", toolbar.into_value())
        .attr("toolbar_location", BokehValue::Str(String::from_str("above")))
        .attr("left", BokehValue::Array(left))
        .attr("below", BokehValue::Array(below))
        .attr("center", BokehValue::Array(center));
    proof {
        assert(fig@.attrs =~= m);
    }
    fig
}

/// Build a `Figure` with the given ranges (the x range inline or, when it
/// is shared with a range tool, by reference), axes and optional hover
/// tool, and hand back the ids of its ranges, axes and grids.
#[verifier::rlimit(40)]
pub fn build_figure(
    id_gen: &mut IdGen,
    title: &str,
    height: u32,
    width: Option<u32>,
    x_range: BokehValue,
    x_range_id: String,
    y_range: BokehValue,
    y_range_id: String,
    x_axis: AxisBuilder,
    y_axis: AxisBuilder,
    hover_tool: Option<BokehObject>,
) -> (r: FigureOutput)
    requires
        old(id_gen).can_issue(28),
    ensures
        final(id_gen)@ == old(id_gen)@ + figure_ids(plan_of(x_axis), plan_of(y_axis)),
        r.figure@ == figure_model(old(id_gen)@, title@, height, width, x_range@, y_range@, plan_of(x_axis),
            plan_of(y_axis), opt_view(hover_tool)),
        r.x_range_id == x_range_id,
        r.y_range_id == y_range_id,
        r.x_axis_id@ == id_for(old(id_gen)@ + 5),
        r.x_grid_id@ == id_for(old(id_gen)@ + 6),
        r.y_axis_id@ == id_for(old(id_gen)@ + 3 + axis_ids(plan_of(x_axis).format) + 2),
        r.y_grid_id@ == id_for(old(id_gen)@ + 3 + axis_ids(plan_of(x_axis).format) + 3),
{
    let ghost k = id_gen@;
    let ghost xp = plan_of(x_axis);
    let ghost yp = plan_of(y_axis);
    let ghost hv = opt_view(hover_tool);
    let ghost xr = x_range@;
    let ghost yr = y_range@;
    let x_scale = BokehObject::new(x_axis.scale_name(), id_gen.next());
    let y_scale = BokehObject::new(y_axis.scale_name(), id_gen.next());
    let title_obj = BokehObject::new("Title", id_gen.next()).attr("text", BokehValue::Str(String::from_str(title)));
    let (x_axis_obj, x_axis_id, x_grid_obj, x_grid_id) = x_axis.build(id_gen);
    let (y_axis_obj, y_axis_id, y_grid_obj, y_grid_id) = y_axis.build(id_gen);
    let toolbar = build_toolbar(id_gen, hover_tool);
    let fig_id = id_gen.next();
    let fig = put_together(fig_id, height, width, x_range, y_range, x_scale, y_scale, title_obj, toolbar,
        x_axis_obj, y_axis_obj, x_grid_obj, y_grid_obj);
    proof {
        let kx = k + 3;
        let ky = kx + axis_ids(xp.format);
        assert(figure_attrs(height, width, xr, yr, mobj(scale_of(xp.axis_type), id_for(k), seq![]),
            mobj(scale_of(yp.axis_type), id_for(k + 1), seq![]), mobj("Title"@, id_for(k + 2), seq![("text"@, mstr(title@))]),
            toolbar_model(ky + axis_ids(yp.format), hv), axis_model(xp.axis_type, kx, xp.format),
            axis_model(yp.axis_type, ky, yp.format), grid_model(kx + 2, xp.dimension), grid_model(ky + 2, yp.dimension))
            =~= figure_model(k, title@, height, width, xr, yr, xp, yp, hv).attrs);
    }
    FigureOutput { figure: fig, x_range_id, y_range_id, x_axis_id, y_axis_id, x_grid_id, y_grid_id }
}

} // verus!
