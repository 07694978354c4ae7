//! The horizontal bar chart: one bar per row, the categories on the y axis
//! with the first row at the top.
//!
//! The caller reads the category column (or the reason it could not be
//! read), hands in the frame's columns for the data source, and builds the
//! two ranges; the y range is a factor range over [`hbar_factors`].

use vstd::prelude::*;
use crate::axis::{AxisBuilder, AxisType, copy_config};
use crate::chart_config::{ChartSpec, HBarConfig};
use crate::chart_figure::{AxisPlan, build_figure, figure_ids, figure_model, plan_of};
use crate::chart_helpers::{
    add_renderers, append_to_list, col_ref, default_tooltips, formatter_pairs, label_attr, make_hover_tool,
    objects_view, set_axis_labels, tooltip_pairs,
};
use crate::chart_parts::{F64_TENTH, hide_x_grid, hide_x_grid_attr, num_value};
use crate::error::ChartError;
use crate::figure::{build_glyph_renderer, glyph_renderer_model, hover_tool_model, opt_value_view};
use crate::histogram::chart_height;
use crate::id_gen::{IdGen, id_for};
use crate::model::{BokehObject, BokehValue, ModelObject, ModelValue, lemma_view_values_push, mobj, mstr, mval,
    view_attrs, view_values};
use crate::renderers::{F64_ZERO, str_value};
use crate::source::{build_source, source_model};
use crate::text::strs;

verus! {

/// Bit pattern of the `f64` number 0.7, the bar height.
pub const F64_BAR_HEIGHT: u64 = 0x3FE6_6666_6666_6666;

/// The factors of the y range: the categories in reverse row order, so
/// that the first row is drawn at the top.
pub open spec fn reversed_factors(cats: Seq<Seq<char>>) -> Seq<ModelValue> {
    Seq::new(cats.len(), |i: int| mstr(cats[cats.len() - 1 - i]))
}

/// The bar colour; `#4C72B0` unless set.
pub open spec fn hbar_color(cfg: HBarConfig) -> Seq<char> {
    match cfg.color {
        Some(c) => c@,
        None => "#4C72B0"@,
    }
}

/// A bar glyph with id `k`; the faded one (fill alpha 0.1) when `faded`.
pub open spec fn hbar_glyph_model(k: nat, cfg: HBarConfig, faded: bool) -> ModelObject {
    let head = seq![
        ("y"@, ModelValue::Field(cfg.category_col@)),
        ("right"@, ModelValue::Field(cfg.value_col@)),
        ("left"@, num_value(F64_ZERO)),
        ("height"@, num_value(F64_BAR_HEIGHT)),
        ("fill_color"@, str_value(hbar_color(cfg))),
    ];
    mobj("HBar"@, id_for(k), if faded {
        head + seq![("fill_alpha"@, num_value(F64_TENTH)), ("line_color"@, str_value("white"@))]
    } else {
        head + seq![("line_color"@, str_value("white"@))]
    })
}

/// The hover tool at counter `k`: the configured tooltips, else the
/// category and the value.
pub open spec fn hbar_hover(k: nat, cfg: HBarConfig) -> ModelObject {
    match cfg.tooltips {
        Some(t) => hover_tool_model(k, tooltip_pairs(t@), formatter_pairs(t@)),
        None => hover_tool_model(k, seq![
            (cfg.category_col@, col_ref(cfg.category_col@)),
            (cfg.value_col@, col_ref(cfg.value_col@)),
        ], Seq::empty()),
    }
}

/// The linear x axis with the configured settings.
pub open spec fn hbar_x_plan(cfg: HBarConfig) -> AxisPlan {
    plan_of(AxisBuilder { axis_type: AxisType::Linear, format: cfg.x_axis, dimension: 0 })
}

/// The categorical y axis with the configured settings.
pub open spec fn hbar_y_plan(cfg: HBarConfig) -> AxisPlan {
    plan_of(AxisBuilder { axis_type: AxisType::Categorical, format: cfg.y_axis, dimension: 1 })
}

/// Whether the x axis settings turn the x grid off.
pub open spec fn hides_x_grid(cfg: HBarConfig) -> bool {
    cfg.x_axis matches Some(a) && !a.show_grid
}

/// The ids a horizontal bar chart takes.
pub open spec fn hbar_ids(cfg: HBarConfig) -> nat {
    1 + figure_ids(hbar_x_plan(cfg), hbar_y_plan(cfg)) + 3 + 5
}

/// The horizontal bar figure built at counter `k` over the frame's columns
/// `data`: the hover tool at `k`, the figure from `k + 1`, then the data
/// source and the bar renderer; the y axis is unlabelled, and the x grid
/// is hidden when its settings say so.
pub open spec fn hbar_figure(
    k: nat,
    spec: ChartSpec,
    cfg: HBarConfig,
    x_range: ModelValue,
    y_range: ModelValue,
    data: Seq<(Seq<char>, ModelValue)>,
    filter: Option<ModelValue>,
) -> ModelObject {
    let fig = figure_model(k + 1, spec.title@, chart_height(spec), spec.width, x_range, y_range, hbar_x_plan(cfg),
        hbar_y_plan(cfg), Some(hbar_hover(k, cfg)));
    let kc = k + 1 + figure_ids(hbar_x_plan(cfg), hbar_y_plan(cfg));
    let r = glyph_renderer_model(kc + 5, mval(source_model(kc, data)), hbar_glyph_model(kc + 3, cfg, false),
        Some(hbar_glyph_model(kc + 4, cfg, true)), filter);
    let f1 = mobj(fig.name, fig.id, append_to_list(fig.attrs, "renderers"@, seq![mval(r)]));
    let f2 = mobj(f1.name, f1.id, f1.attrs.map_values(|a: (Seq<char>, ModelValue)| label_attr(a, cfg.x_label@, ""@)));
    if hides_x_grid(cfg) {
        mobj(f2.name, f2.id, f2.attrs.map_values(|a: (Seq<char>, ModelValue)| hide_x_grid_attr(a)))
    } else {
        f2
    }
}

/// The factors of the y range of a horizontal bar chart over the category
/// column `cats`: the categories in reverse order.
pub fn hbar_factors(cats: &Vec<String>) -> (r: Vec<BokehValue>)
    ensures
        view_values(r@) == reversed_factors(strs(cats@)),
{
    let mut out: Vec<BokehValue> = Vec::new();
    let n = cats.len();
    for i in 0..n
        invariant
            n == cats@.len(),
            view_values(out@) == Seq::new(i as nat, |j: int| mstr(cats@[n - 1 - j]@)),
    {
        let x = BokehValue::Str(cats[n - 1 - i].clone());
        proof {
            lemma_view_values_push(out@, x);
            assert(Seq::new((i + 1) as nat, |j: int| mstr(cats@[n - 1 - j]@)) =~= Seq::new(
                i as nat,
                |j: int| mstr(cats@[n - 1 - j]@),
            ).push(x@));
        }
        out.push(x);
    }
    proof {
        assert(view_values(out@) =~= reversed_factors(strs(cats@)));
    }
    out
}

fn hbar_glyph(id_gen: &mut IdGen, cfg: &HBarConfig, faded: bool) -> (r: BokehObject)
    requires
        old(id_gen).can_issue(1),
    ensures
        final(id_gen)@ == old(id_gen)@ + 1,
        r@ == hbar_glyph_model(old(id_gen)@, *cfg, faded),
{
    let color: &str = match &cfg.color {
        Some(c) => c.as_str(),
        None => "#4C72B0",
    };
    let g = BokehObject::new("HBar", id_gen.next())
        .attr("y", BokehValue::field(cfg.category_col.as_str()))
        .attr("right", BokehValue::field(cfg.value_col.as_str()))
        .attr("left", BokehValue::value_of(BokehValue::Float(F64_ZERO)))
        .attr("height", BokehValue::value_of(BokehValue::Float(F64_BAR_HEIGHT)))
        .attr("fill_color", BokehValue::value_of(BokehValue::Str(String::from_str(color))));
    let g = if faded {
        g.attr("fill_alpha", BokehValue::value_of(BokehValue::Float(F64_TENTH)))
    } else {
        g
    };
    let g = g.attr("line_color", BokehValue::value_of(BokehValue::Str(String::from_str("white"))));
    proof {
        assert(g@.attrs =~= hbar_glyph_model(old(id_gen)@, *cfg, faded).attrs);
    }
    g
}

/// Build a horizontal bar chart: a bar from 0 to the value column for each
/// row, at its category on the y axis. `categories` is the category column
/// as read by the caller (or why it could not be read), `data` the frame's
/// columns for the data source; the x range is built from the data and the
/// y range is a factor range over [`hbar_factors`].
///
/// Fails, before any id is drawn, when the category column could not be
/// read.
#[verifier::rlimit(60)]
pub fn build_hbar(
    id_gen: &mut IdGen,
    spec: &ChartSpec,
    cfg: &HBarConfig,
    categories: &Result<Vec<String>, String>,
    data: Vec<(String, BokehValue)>,
    x_range: BokehValue,
    y_range: BokehValue,
    filter_ref: Option<BokehValue>,
) -> (r: Result<BokehObject, ChartError>)
    requires
        old(id_gen).can_issue(40),
    ensures
        categories is Err ==> r == Err::<BokehObject, ChartError>(ChartError::NativeRender(categories->Err_0))
            && final(id_gen)@ == old(id_gen)@,
        r is Ok <==> categories is Ok,
        r matches Ok(fig) ==> {
            &&& final(id_gen)@ == old(id_gen)@ + hbar_ids(*cfg)
            &&& fig@ == hbar_figure(old(id_gen)@, *spec, *cfg, x_range@, y_range@, view_attrs(data@),
                opt_value_view(filter_ref))
        },
{
    let ghost k = id_gen@;
    let ghost dv = view_attrs(data@);
    match categories {
        Ok(_) => {},
        Err(e) => {
            return Err(ChartError::NativeRender(e.clone()));
        },
    }
    let mut cols: Vec<&str> = Vec::new();
    cols.push(cfg.category_col.as_str());
    cols.push(cfg.value_col.as_str());
    let tips = match &cfg.tooltips {
        Some(t) => Some(t),
        None => None,
    };
    let ht = make_hover_tool(id_gen, tips, cols.as_slice());
    proof {
        assert(default_tooltips(cols@) =~= seq![
            (cfg.category_col@, col_ref(cfg.category_col@)),
            (cfg.value_col@, col_ref(cfg.value_col@)),
        ]);
        assert(ht@ == hbar_hover(k, *cfg));
    }
    let height: u32 = match spec.height {
        Some(h) => h,
        None => 400,
    };
    let out = build_figure(
        id_gen,
        spec.title.as_str(),
        height,
        spec.width,
        x_range,
        String::new(),
        y_range,
        String::new(),
        AxisBuilder::x(AxisType::Linear).config(copy_config(&cfg.x_axis)),
        AxisBuilder::y(AxisType::Categorical).config(copy_config(&cfg.y_axis)),
        Some(ht),
    );
    let mut figure = out.figure;
    let cds = build_source(id_gen, data);
    let glyph = hbar_glyph(id_gen, cfg, false);
    let nonsel = hbar_glyph(id_gen, cfg, true);
    let renderer = build_glyph_renderer(id_gen, cds.into_value(), glyph, Some(nonsel), filter_ref);
    let ghost rv = renderer@;
    let mut rs: Vec<BokehObject> = Vec::new();
    rs.push(renderer);
    proof {
        assert(objects_view(rs@) =~= seq![mval(rv)]);
    }
    add_renderers(&mut figure, rs);
    set_axis_labels(&mut figure, cfg.x_label.as_str(), "");
    match &cfg.x_axis {
        Some(a) => {
            if !a.show_grid {
                hide_x_grid(&mut figure);
            }
        },
        None => {},
    }
    Ok(figure)
}

} // verus!
