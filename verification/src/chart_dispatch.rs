//! Building a chart from its specification: the registered data source is
//! looked up, then the builder of the chart's type runs on what the caller
//! read from that source for it.

use vstd::prelude::*;
use crate::chart_config::{ChartConfig, ChartSpec};
use crate::chart_parts::unique_in_order;
use crate::density::{DensityShape, KDE_GRID_POINTS, build_density, density_figure, density_x_plan, density_y_plan,
    has_number, ids_upto, shapes_fit};
use crate::error::ChartError;
use crate::chart_figure::figure_ids;
use crate::figure::opt_value_view;
use crate::grouped_bar::{build_grouped_bar, grouped_bar_figure, grouped_bar_ids};
use crate::hbar::{build_hbar, hbar_figure, hbar_ids};
use crate::histogram::{build_histogram, hist_display, hist_head_ids, hist_renderer_ids, histogram_figure};
use crate::customization::HistogramDisplay;
use crate::id_gen::IdGen;
use crate::line_chart::{build_line, line_figure, line_ids};
use crate::model::{BokehObject, BokehValue, ModelObject, ModelValue, view_attrs};
use crate::scatter::{build_scatter, scatter_figure, scatter_ids};
use crate::text::{push_chars, str_chars, str_eq, strs};

verus! {

/// What the caller read, for one chart, from its registered data source
/// (each column as read, or why it could not be read), with the palette
/// resolved for the chart and, for the density chart, the floating-point
/// work done.
pub enum ChartInputs {
    Histogram {
        data: Vec<(String, BokehValue)>,
        first_left: Option<u64>,
        right: Result<Vec<u64>, String>,
        cdf: Result<Vec<u64>, String>,
    },
    GroupedBar {
        x_vals: Result<Vec<String>, String>,
        group_vals: Result<Vec<String>, String>,
        values: Result<Vec<u64>, String>,
        colors: Vec<String>,
    },
    HBar { categories: Result<Vec<String>, String>, data: Vec<(String, BokehValue)> },
    Scatter { data: Vec<(String, BokehValue)> },
    Line { data: Vec<(String, BokehValue)>, x_is_text: bool, colors: Vec<String> },
    Density {
        cat_vals: Result<Vec<String>, String>,
        num_vals: Result<Vec<u64>, String>,
        palette: Vec<String>,
        shapes: Vec<DensityShape>,
        y_grid: Vec<u64>,
    },
}

/// The values read, or none when the column could not be read.
pub open spec fn ok_or_empty<T>(r: Result<Vec<T>, String>) -> Seq<T> {
    match r {
        Ok(v) => v@,
        Err(_) => Seq::empty(),
    }
}

/// Whether the inputs are for the chart's type and meet what its builder
/// needs, with the id counter at `k`.
pub open spec fn inputs_fit(spec: ChartSpec, inputs: ChartInputs, k: nat) -> bool {
    match inputs {
        ChartInputs::Histogram { .. } => spec.config is Histogram && k + 50 <= u64::MAX,
        ChartInputs::GroupedBar { x_vals, group_vals, values, colors } => {
            &&& spec.config is GroupedBar
            &&& x_vals is Ok && group_vals is Ok && values is Ok ==> x_vals->Ok_0@.len() == group_vals->Ok_0@.len()
                && values->Ok_0@.len() == group_vals->Ok_0@.len()
            &&& group_vals is Ok ==> colors@.len() >= unique_in_order(strs(group_vals->Ok_0@)).len()
            &&& k + 40 + ok_or_empty(group_vals).len() <= u64::MAX
        },
        ChartInputs::HBar { .. } => spec.config is HBar && k + 40 <= u64::MAX,
        ChartInputs::Scatter { .. } => spec.config is Scatter && k + 40 <= u64::MAX,
        ChartInputs::Line { colors, .. } => {
            &&& spec.config is Line
            &&& colors@.len() >= spec.config->Line_0.y_cols@.len()
            &&& k + 40 + 11 * spec.config->Line_0.y_cols@.len() <= u64::MAX
        },
        ChartInputs::Density { cat_vals, num_vals, palette, shapes, y_grid } => {
            let cfg = spec.config->Density_0;
            &&& spec.config is Density
            &&& cat_vals is Ok && num_vals is Ok ==> {
                let cats = strs(cat_vals->Ok_0@);
                &&& cat_vals->Ok_0@.len() == num_vals->Ok_0@.len()
                &&& shapes_fit(cats, num_vals->Ok_0@, shapes@)
                &&& (cfg.palette is Some || cfg.color is None) ==> palette@.len() >= unique_in_order(cats).len()
                &&& y_grid@.len() == KDE_GRID_POINTS
            }
            &&& k + 30 + 16 * ok_or_empty(cat_vals).len() <= u64::MAX
        },
    }
}

/// What the chart's builder makes of the inputs at counter `k`: the figure,
/// or the text of the error (the first column that could not be read).
pub open spec fn chart_outcome(
    k: nat,
    spec: ChartSpec,
    inputs: ChartInputs,
    x_range: ModelValue,
    y_range: ModelValue,
    filter: Option<ModelValue>,
) -> Result<ModelObject, Seq<char>> {
    match inputs {
        ChartInputs::Histogram { data, first_left, right, cdf } => {
            let cfg = spec.config->Histogram_0;
            if hist_display(cfg) == HistogramDisplay::Cdf && right is Err {
                Err(right->Err_0@)
            } else if hist_display(cfg) == HistogramDisplay::Cdf && cdf is Err {
                Err(cdf->Err_0@)
            } else {
                Ok(histogram_figure(k, spec, cfg, x_range, y_range, view_attrs(data@), first_left,
                    ok_or_empty(right), ok_or_empty(cdf), filter))
            }
        },
        ChartInputs::GroupedBar { x_vals, group_vals, values, colors } => {
            if x_vals is Err {
                Err(x_vals->Err_0@)
            } else if group_vals is Err {
                Err(group_vals->Err_0@)
            } else if values is Err {
                Err(values->Err_0@)
            } else {
                Ok(grouped_bar_figure(k, spec, spec.config->GroupedBar_0, x_range, y_range, strs(x_vals->Ok_0@),
                    strs(group_vals->Ok_0@), values->Ok_0@, strs(colors@), filter))
            }
        },
        ChartInputs::HBar { categories, data } => {
            if categories is Err {
                Err(categories->Err_0@)
            } else {
                Ok(hbar_figure(k, spec, spec.config->HBar_0, x_range, y_range, view_attrs(data@), filter))
            }
        },
        ChartInputs::Scatter { data } => Ok(
            scatter_figure(k, spec, spec.config->Scatter_0, x_range, y_range, view_attrs(data@), filter),
        ),
        ChartInputs::Line { data, x_is_text, colors } => Ok(
            line_figure(k, spec, spec.config->Line_0, x_is_text, x_range, y_range, view_attrs(data@), strs(colors@),
                filter),
        ),
        ChartInputs::Density { cat_vals, num_vals, palette, shapes, y_grid } => {
            if cat_vals is Err {
                Err(cat_vals->Err_0@)
            } else if num_vals is Err {
                Err(num_vals->Err_0@)
            } else {
                Ok(density_figure(k, spec, spec.config->Density_0, x_range, y_range, strs(cat_vals->Ok_0@),
                    num_vals->Ok_0@, strs(palette@), shapes@, y_grid@, filter))
            }
        },
    }
}

/// The ids the chart's builder draws from counter `k` on.
pub open spec fn chart_ids(spec: ChartSpec, inputs: ChartInputs) -> nat {
    match inputs {
        ChartInputs::Histogram { right, cdf, .. } => {
            let cfg = spec.config->Histogram_0;
            if hist_display(cfg) == HistogramDisplay::Cdf && (right is Err || cdf is Err) {
                hist_head_ids(cfg)
            } else {
                hist_head_ids(cfg) + hist_renderer_ids(cfg)
            }
        },
        ChartInputs::GroupedBar { x_vals, group_vals, values, .. } => {
            if x_vals is Ok && group_vals is Ok && values is Ok {
                grouped_bar_ids(spec.config->GroupedBar_0, unique_in_order(strs(group_vals->Ok_0@)).len())
            } else {
                0
            }
        },
        ChartInputs::HBar { categories, .. } => if categories is Ok { hbar_ids(spec.config->HBar_0) } else { 0 },
        ChartInputs::Scatter { .. } => scatter_ids(spec.config->Scatter_0),
        ChartInputs::Line { x_is_text, .. } => line_ids(spec.config->Line_0, x_is_text),
        ChartInputs::Density { cat_vals, num_vals, .. } => {
            let cfg = spec.config->Density_0;
            if cat_vals is Ok && num_vals is Ok {
                let cats = strs(cat_vals->Ok_0@);
                let vals = num_vals->Ok_0@;
                1 + figure_ids(density_x_plan(), density_y_plan(cfg)) + if has_number(vals) {
                    ids_upto(unique_in_order(cats).len(), cfg, cats, vals)
                } else {
                    0
                }
            } else {
                0
            }
        },
    }
}

/// The error text for a data source key that is not registered.
pub open spec fn unregistered_text(key: Seq<char>) -> Seq<char> {
    "source_key '"@ + key + "' not registered"@
}

fn has_key(keys: &Vec<String>, key: &String) -> (r: bool)
    ensures
        r == strs(keys@).contains(key@),
{
    let n = keys.len();
    for i in 0..n
        invariant
            n == keys@.len(),
            forall|j: int| 0 <= j < i ==> #[trigger] keys@[j]@ != key@,
    {
        if str_eq(keys[i].as_str(), key.as_str()) {
            proof {
                assert(strs(keys@)[i as int] == key@);
            }
            return true;
        }
    }
    proof {
        if strs(keys@).contains(key@) {
            let j = choose|j: int| 0 <= j < strs(keys@).len() && strs(keys@)[j] == key@;
            assert(keys@[j]@ == key@);
        }
    }
    false
}

fn unregistered(key: &String) -> (r: String)
    ensures
        r@ == unregistered_text(key@),
{
    let mut s = String::from_str("source_key '");
    push_chars(&mut s, &str_chars(key.as_str()));
    push_chars(&mut s, &str_chars("' not registered"));
    s
}

/// Build the figure of a chart whose data source is registered under one of
/// `keys`, from what the caller read from that source (`inputs`, which
/// must be for the chart's type) and the figure's two ranges.
///
/// Fails, before any id is drawn, when the chart's data source key is not
/// registered; otherwise fails exactly when the chart's builder does.
#[verifier::rlimit(80)]
pub fn build_chart_obj(
    id_gen: &mut IdGen,
    spec: &ChartSpec,
    keys: &Vec<String>,
    inputs: ChartInputs,
    x_range: BokehValue,
    y_range: BokehValue,
    filter_ref: Option<BokehValue>,
) -> (r: Result<BokehObject, ChartError>)
    requires
        inputs_fit(*spec, inputs, old(id_gen)@),
    ensures
        !strs(keys@).contains(spec.source_key@) ==> {
            &&& r matches Err(ChartError::NativeRender(m)) && m@ == unregistered_text(spec.source_key@)
            &&& final(id_gen)@ == old(id_gen)@
        },
        strs(keys@).contains(spec.source_key@) ==> {
            &&& final(id_gen)@ == old(id_gen)@ + chart_ids(*spec, inputs)
            &&& match chart_outcome(old(id_gen)@, *spec, inputs, x_range@, y_range@, opt_value_view(filter_ref)) {
                Ok(m) => r matches Ok(fig) && fig@ == m,
                Err(e) => r matches Err(ChartError::NativeRender(s)) && s@ == e,
            }
        },
{
    if !has_key(keys, &spec.source_key) {
        return Err(ChartError::NativeRender(unregistered(&spec.source_key)));
    }
    match inputs {
        ChartInputs::Histogram { data, first_left, right, cdf } => match &spec.config {
            ChartConfig::Histogram(c) => build_histogram(id_gen, spec, c, data, x_range, y_range, first_left, right,
                cdf, filter_ref),
            _ => {
                proof {
                    assert(false);
                }
                Err(ChartError::MissingField("config"))
            },
        },
        ChartInputs::GroupedBar { x_vals, group_vals, values, colors } => match &spec.config {
            ChartConfig::GroupedBar(c) => build_grouped_bar(id_gen, spec, c, x_vals, group_vals, values, &colors,
                x_range, y_range, filter_ref),
            _ => {
                proof {
                    assert(false);
                }
                Err(ChartError::MissingField("config"))
            },
        },
        ChartInputs::HBar { categories, data } => match &spec.config {
            ChartConfig::HBar(c) => build_hbar(id_gen, spec, c, &categories, data, x_range, y_range, filter_ref),
            _ => {
                proof {
                    assert(false);
                }
                Err(ChartError::MissingField("config"))
            },
        },
        ChartInputs::Scatter { data } => match &spec.config {
            ChartConfig::Scatter(c) => Ok(build_scatter(id_gen, spec, c, data, x_range, y_range, filter_ref)),
            _ => {
                proof {
                    assert(false);
                }
                Err(ChartError::MissingField("config"))
            },
        },
        ChartInputs::Line { data, x_is_text, colors } => match &spec.config {
            ChartConfig::Line(c) => Ok(build_line(id_gen, spec, c, data, x_is_text, &colors, x_range, y_range,
                filter_ref)),
            _ => {
                proof {
                    assert(false);
                }
                Err(ChartError::MissingField("config"))
            },
        },
        ChartInputs::Density { cat_vals, num_vals, palette, shapes, y_grid } => match &spec.config {
            ChartConfig::Density(c) => build_density(id_gen, spec, c, cat_vals, num_vals, &palette, &shapes, &y_grid,
                x_range, y_range, filter_ref),
            _ => {
                proof {
                    assert(false);
                }
                Err(ChartError::MissingField("config"))
            },
        },
    }
}

} // verus!
