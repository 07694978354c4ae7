//! The scatter chart: one marker per row at `(x, y)`.
//!
//! The caller hands in the frame's columns for the data source and builds
//! the two ranges from the data (the x range is the range tool's range,
//! by reference, when one is attached to the chart).

use vstd::prelude::*;
use crate::axis::{AxisBuilder, AxisType, copy_config};
use crate::chart_config::{ChartSpec, ScatterConfig};
use crate::chart_figure::{AxisPlan, build_figure, figure_ids, figure_model, plan_of};
use crate::chart_helpers::{
    add_renderers, append_to_list, col_ref, default_tooltips, formatter_pairs, label_attr, make_hover_tool,
    objects_view, set_axis_labels, tooltip_pairs,
};
use crate::chart_parts::{F64_TENTH, num_value};
use crate::customization::marker_name;
use crate::figure::{build_glyph_renderer, glyph_renderer_model, hover_tool_model, opt_value_view};
use crate::histogram::chart_height;
use crate::id_gen::{IdGen, id_for};
use crate::model::{BokehObject, BokehValue, ModelObject, ModelValue, mobj, mval, view_attrs};
use crate::renderers::str_value;
use crate::source::{build_source, source_model};

verus! {

/// Bit pattern of the `f64` number 10.0, the default marker size.
pub const F64_MARKER_SIZE: u64 = 0x4024_0000_0000_0000;
/// Bit pattern of the `f64` number 0.7, the default marker opacity.
pub const F64_MARKER_ALPHA: u64 = 0x3FE6_6666_6666_6666;

/// The marker colour; `#4C72B0` unless set.
pub open spec fn scatter_color(cfg: ScatterConfig) -> Seq<char> {
    match cfg.color {
        Some(c) => c@,
        None => "#4C72B0"@,
    }
}

/// The marker shape; a circle unless set.
pub open spec fn scatter_marker(cfg: ScatterConfig) -> Seq<char> {
    match cfg.marker {
        Some(m) => marker_name(m),
        None => "circle"@,
    }
}

/// The marker size; 10.0 unless set.
pub open spec fn scatter_size(cfg: ScatterConfig) -> u64 {
    match cfg.marker_size {
        Some(s) => s,
        None => F64_MARKER_SIZE,
    }
}

/// The marker opacity; 0.7 unless set.
pub open spec fn scatter_alpha(cfg: ScatterConfig) -> u64 {
    match cfg.alpha {
        Some(a) => a,
        None => F64_MARKER_ALPHA,
    }
}

/// A marker glyph with id `k`; the faded one (fill alpha 0.1) when `faded`.
pub open spec fn scatter_glyph_model(k: nat, cfg: ScatterConfig, faded: bool) -> ModelObject {
    mobj("Scatter"@, id_for(k), seq![
        ("x"@, ModelValue::Field(cfg.x_col@)),
        ("y"@, ModelValue::Field(cfg.y_col@)),
        ("size"@, num_value(scatter_size(cfg))),
        ("fill_color"@, str_value(scatter_color(cfg))),
        ("fill_alpha"@, num_value(if faded { F64_TENTH } else { scatter_alpha(cfg) })),
        ("line_color"@, str_value("white"@)),
        ("marker"@, str_value(scatter_marker(cfg))),
    ])
}

/// The hover tool at counter `k`: the configured tooltips, else x and y.
pub open spec fn scatter_hover(k: nat, cfg: ScatterConfig) -> ModelObject {
    match cfg.tooltips {
        Some(t) => hover_tool_model(k, tooltip_pairs(t@), formatter_pairs(t@)),
        None => hover_tool_model(k, seq![(cfg.x_col@, col_ref(cfg.x_col@)), (cfg.y_col@, col_ref(cfg.y_col@))],
            Seq::empty()),
    }
}

/// The x axis is a datetime axis when its settings give a time scale.
pub open spec fn scatter_x_plan(cfg: ScatterConfig) -> AxisPlan {
    let t = if cfg.x_axis matches Some(a) && a.time_scale is Some { AxisType::Datetime } else { AxisType::Linear };
    plan_of(AxisBuilder { axis_type: t, format: cfg.x_axis, dimension: 0 })
}

/// The linear y axis with the configured settings.
pub open spec fn scatter_y_plan(cfg: ScatterConfig) -> AxisPlan {
    plan_of(AxisBuilder { axis_type: AxisType::Linear, format: cfg.y_axis, dimension: 1 })
}

/// The ids a scatter chart takes.
pub open spec fn scatter_ids(cfg: ScatterConfig) -> nat {
    1 + figure_ids(scatter_x_plan(cfg), scatter_y_plan(cfg)) + 3 + 5
}

/// The scatter figure built at counter `k` over the frame's columns `data`:
/// the hover tool at `k`, the figure from `k + 1`, then the data source and
/// the marker renderer.
pub open spec fn scatter_figure(
    k: nat,
    spec: ChartSpec,
    cfg: ScatterConfig,
    x_range: ModelValue,
    y_range: ModelValue,
    data: Seq<(Seq<char>, ModelValue)>,
    filter: Option<ModelValue>,
) -> ModelObject {
    let fig = figure_model(k + 1, spec.title@, chart_height(spec), spec.width, x_range, y_range,
        scatter_x_plan(cfg), scatter_y_plan(cfg), Some(scatter_hover(k, cfg)));
    let kc = k + 1 + figure_ids(scatter_x_plan(cfg), scatter_y_plan(cfg));
    let r = glyph_renderer_model(kc + 5, mval(source_model(kc, data)), scatter_glyph_model(kc + 3, cfg, false),
        Some(scatter_glyph_model(kc + 4, cfg, true)), filter);
    let f1 = mobj(fig.name, fig.id, append_to_list(fig.attrs, "renderers"@, seq![mval(r)]));
    mobj(f1.name, f1.id, f1.attrs.map_values(|a: (Seq<char>, ModelValue)| label_attr(a, cfg.x_label@, cfg.y_label@)))
}

fn scatter_glyph(id_gen: &mut IdGen, cfg: &ScatterConfig, faded: bool) -> (r: BokehObject)
    requires
        old(id_gen).can_issue(1),
    ensures
        final(id_gen)@ == old(id_gen)@ + 1,
        r@ == scatter_glyph_model(old(id_gen)@, *cfg, faded),
{
    let color: &str = match &cfg.color {
        Some(c) => c.as_str(),
        None => "#4C72B0",
    };
    let marker: &str = match &cfg.marker {
        Some(m) => m.as_str(),
        None => "circle",
    };
    let size: u64 = match cfg.marker_size {
        Some(s) => s,
        None => F64_MARKER_SIZE,
    };
    let alpha: u64 = if faded {
        F64_TENTH
    } else {
        match cfg.alpha {
            Some(a) => a,
            None => F64_MARKER_ALPHA,
        }
    };
    let g = BokehObject::new("Scatter", id_gen.next())
        .attr("x", BokehValue::field(cfg.x_col.as_str()))
        .attr("y", BokehValue::field(cfg.y_col.as_str()))
        .attr("size", BokehValue::value_of(BokehValue::Float(size)))
        .attr("fill_color", BokehValue::value_of(BokehValue::Str(String::from_str(color))))
        .attr("fill_alpha", BokehValue::value_of(BokehValue::Float(alpha)))
        .attr("line_color", BokehValue::value_of(BokehValue::Str(String::from_str("white"))))
        .attr("marker", BokehValue::value_of(BokehValue::Str(String::from_str(marker))));
    proof {
        assert(g@.attrs =~= scatter_glyph_model(old(id_gen)@, *cfg, faded).attrs);
    }
    g
}

/// Build a scatter chart: a marker at `(x, y)` for each row of the frame
/// whose columns `data` holds. The x axis is a datetime axis when its
/// settings give a time scale.
#[verifier::rlimit(60)]
pub fn build_scatter(
    id_gen: &mut IdGen,
    spec: &ChartSpec,
    cfg: &ScatterConfig,
    data: Vec<(String, BokehValue)>,
    x_range: BokehValue,
    y_range: BokehValue,
    filter_ref: Option<BokehValue>,
) -> (r: BokehObject)
    requires
        old(id_gen).can_issue(40),
    ensures
        final(id_gen)@ == old(id_gen)@ + scatter_ids(*cfg),
        r@ == scatter_figure(old(id_gen)@, *spec, *cfg, x_range@, y_range@, view_attrs(data@),
            opt_value_view(filter_ref)),
{
    let ghost k = id_gen@;
    let mut cols: Vec<&str> = Vec::new();
    cols.push(cfg.x_col.as_str());
    cols.push(cfg.y_col.as_str());
    let tips = match &cfg.tooltips {
        Some(t) => Some(t),
        None => None,
    };
    let ht = make_hover_tool(id_gen, tips, cols.as_slice());
    proof {
        assert(default_tooltips(cols@) =~= seq![(cfg.x_col@, col_ref(cfg.x_col@)), (cfg.y_col@, col_ref(cfg.y_col@))]);
        assert(ht@ == scatter_hover(k, *cfg));
    }
    let is_datetime = match &cfg.x_axis {
        Some(a) => a.time_scale.is_some(),
        None => false,
    };
    let x_type = if is_datetime { AxisType::Datetime } else { AxisType::Linear };
    let height: u32 = match spec.height {
        Some(h) => h,
        None => 400,
    };
    let out = build_figure(
        id_gen,
        spec.title.as_str(),
        height,
        spec.width,
        x_range,
        String::new(),
        y_range,
        String::new(),
        AxisBuilder::x(x_type).config(copy_config(&cfg.x_axis)),
        AxisBuilder::y(AxisType::Linear).config(copy_config(&cfg.y_axis)),
        Some(ht),
    );
    let mut figure = out.figure;
    let cds = build_source(id_gen, data);
    let glyph = scatter_glyph(id_gen, cfg, false);
    let nonsel = scatter_glyph(id_gen, cfg, true);
    let renderer = build_glyph_renderer(id_gen, cds.into_value(), glyph, Some(nonsel), filter_ref);
    let ghost rv = renderer@;
    let mut rs: Vec<BokehObject> = Vec::new();
    rs.push(renderer);
    proof {
        assert(objects_view(rs@) =~= seq![mval(rv)]);
    }
    add_renderers(&mut figure, rs);
    set_axis_labels(&mut figure, cfg.x_label.as_str(), cfg.y_label.as_str());
    figure
}

} // verus!
