//! The histogram chart: bars per bin for counts and densities, a step line
//! for the cumulative fraction. The caller hands in the bins' data source
//! and the two ranges, built from the data; the bin edges and cumulative
//! fractions are passed as `f64` bit patterns.

use vstd::prelude::*;
use crate::axis::{AxisBuilder, AxisType, copy_config};
use crate::chart_config::{ChartSpec, HistogramConfig};
use crate::error::ChartError;
use crate::chart_figure::{AxisPlan, build_figure, figure_ids, figure_model, plan_of};
use crate::chart_helpers::{
    add_renderers, append_to_list, col_ref, default_tooltips, formatter_pairs, label_attr, make_hover_tool,
    objects_view, set_axis_labels, tooltip_pairs,
};
use crate::chart_parts::{F64_TENTH, num_value};
use crate::customization::HistogramDisplay;
use crate::figure::{build_glyph_renderer, glyph_renderer_model, hover_tool_model, opt_value_view};
use crate::id_gen::{IdGen, id_for};
use crate::model::{
    BokehObject, BokehValue, ModelObject, ModelValue, lemma_view_values_index, lemma_view_values_push, mobj,
    mval, view_attrs, view_values,
};
use crate::renderers::{F64_ZERO, str_value};
use crate::source::{build_source, source_model};

verus! {

/// Bit pattern of the `f64` number 0.8, the default bar opacity.
pub const F64_BAR_ALPHA: u64 = 0x3FE9_9999_9999_999A;
/// Bit pattern of the `f64` number 2.0, the width of the step line.
pub const F64_TWO: u64 = 0x4000_0000_0000_0000;

/// The statistic a histogram shows; counts unless set.
pub open spec fn hist_display(cfg: HistogramConfig) -> HistogramDisplay {
    match cfg.display {
        Some(d) => d,
        None => HistogramDisplay::Count,
    }
}

/// The column holding the statistic shown.
pub open spec fn stat_column(d: HistogramDisplay) -> Seq<char> {
    match d {
        HistogramDisplay::Count => "count"@,
        HistogramDisplay::Pdf => "pdf"@,
        HistogramDisplay::Cdf => "cdf"@,
    }
}

/// The y-axis label: the configured one, else one naming the statistic.
pub open spec fn hist_y_label(cfg: HistogramConfig) -> Seq<char> {
    match cfg.y_label {
        Some(l) => l@,
        None => match hist_display(cfg) {
            HistogramDisplay::Count => "Count"@,
            HistogramDisplay::Pdf => "Density"@,
            HistogramDisplay::Cdf => "Cumulative Fraction"@,
        },
    }
}

/// The bar and line colour; `#4C72B0` unless set.
pub open spec fn hist_color(cfg: HistogramConfig) -> Seq<char> {
    match cfg.color {
        Some(c) => c@,
        None => "#4C72B0"@,
    }
}

/// The bar outline colour; white unless set.
pub open spec fn hist_line_color(cfg: HistogramConfig) -> Seq<char> {
    match cfg.line_color {
        Some(c) => c@,
        None => "white"@,
    }
}

/// The bar opacity; 0.8 unless set.
pub open spec fn hist_alpha(cfg: HistogramConfig) -> u64 {
    match cfg.alpha {
        Some(a) => a,
        None => F64_BAR_ALPHA,
    }
}

/// The hover tool of a histogram at counter `k`: the configured tooltips,
/// else the bin edges and the statistic.
pub open spec fn hist_hover(k: nat, cfg: HistogramConfig) -> ModelObject {
    match cfg.tooltips {
        Some(t) => hover_tool_model(k, tooltip_pairs(t@), formatter_pairs(t@)),
        None => hover_tool_model(k, seq![
            ("left"@, col_ref("left"@)),
            ("right"@, col_ref("right"@)),
            (stat_column(hist_display(cfg)), col_ref(stat_column(hist_display(cfg)))),
        ], Seq::empty()),
    }
}

/// A bar glyph with id `k`; the faded one (alpha 0.1) when `faded`.
pub open spec fn quad_model(k: nat, cfg: HistogramConfig, faded: bool) -> ModelObject {
    let y = stat_column(hist_display(cfg));
    let head = seq![
        ("left"@, ModelValue::Field("left"@)),
        ("right"@, ModelValue::Field("right"@)),
        ("top"@, ModelValue::Field(y)),
        ("bottom"@, num_value(F64_ZERO)),
        ("fill_color"@, str_value(hist_color(cfg))),
    ];
    mobj("Quad"@, id_for(k), if faded {
        head + seq![("fill_alpha"@, num_value(F64_TENTH))]
    } else {
        head + seq![("fill_alpha"@, num_value(hist_alpha(cfg))), ("line_color"@, str_value(hist_line_color(cfg)))]
    })
}

/// The x values of the cumulative step line: the first bin's left edge (when
/// known), then the right edges, as far as there are fractions for them.
pub open spec fn step_xs(first_left: Option<u64>, right: Seq<u64>, cdf: Seq<u64>) -> Seq<ModelValue> {
    let m = if right.len() <= cdf.len() { right.len() } else { cdf.len() };
    (match first_left {
        Some(l) => seq![ModelValue::Float(l)],
        None => Seq::<ModelValue>::empty(),
    }) + right.take(m as int).map_values(|b: u64| ModelValue::Float(b))
}

/// The y values of the cumulative step line: 0 first (when the left edge is
/// known), then the cumulative fractions.
pub open spec fn step_ys(first_left: Option<u64>, right: Seq<u64>, cdf: Seq<u64>) -> Seq<ModelValue> {
    let m = if right.len() <= cdf.len() { right.len() } else { cdf.len() };
    (match first_left {
        Some(_) => seq![ModelValue::Float(F64_ZERO)],
        None => Seq::<ModelValue>::empty(),
    }) + cdf.take(m as int).map_values(|b: u64| ModelValue::Float(b))
}

/// The columns of the step line.
pub open spec fn step_data(xs: Seq<ModelValue>, ys: Seq<ModelValue>) -> Seq<(Seq<char>, ModelValue)> {
    seq![("x"@, ModelValue::Array(xs)), ("y"@, ModelValue::Array(ys))]
}

/// A step-line glyph with id `k`; the faded one (alpha 0.1) when `faded`.
pub open spec fn step_line_model(k: nat, color: Seq<char>, faded: bool) -> ModelObject {
    let head = seq![
        ("x"@, ModelValue::Field("x"@)),
        ("y"@, ModelValue::Field("y"@)),
        ("line_color"@, str_value(color)),
    ];
    mobj("Line"@, id_for(k), if faded {
        head + seq![("line_alpha"@, num_value(F64_TENTH))]
    } else {
        head + seq![("line_width"@, num_value(F64_TWO))]
    })
}

/// The renderer of a histogram whose first id is `k`: for counts and
/// densities, bars over the given data source; for the cumulative
/// fraction, a step line over a data source of its own.
pub open spec fn hist_renderer(
    k: nat,
    cfg: HistogramConfig,
    cds: ModelObject,
    first_left: Option<u64>,
    right: Seq<u64>,
    cdf: Seq<u64>,
    filter: Option<ModelValue>,
) -> ModelObject {
    if hist_display(cfg) == HistogramDisplay::Cdf {
        let c = hist_color(cfg);
        glyph_renderer_model(
            k + 5,
            mval(source_model(k, step_data(step_xs(first_left, right, cdf), step_ys(first_left, right, cdf)))),
            step_line_model(k + 3, c, false),
            Some(step_line_model(k + 4, c, true)),
            filter,
        )
    } else {
        glyph_renderer_model(k + 2, mval(cds), quad_model(k, cfg, false), Some(quad_model(k + 1, cfg, true)), filter)
    }
}

/// The ids the renderer takes.
pub open spec fn hist_renderer_ids(cfg: HistogramConfig) -> nat {
    if hist_display(cfg) == HistogramDisplay::Cdf { 8 } else { 5 }
}

/// The axis plans of a histogram: linear axes with the configured settings.
pub open spec fn hist_x_plan(cfg: HistogramConfig) -> AxisPlan {
    plan_of(AxisBuilder { axis_type: AxisType::Linear, format: cfg.x_axis, dimension: 0 })
}

/// The linear y axis with the configured settings.
pub open spec fn hist_y_plan(cfg: HistogramConfig) -> AxisPlan {
    plan_of(AxisBuilder { axis_type: AxisType::Linear, format: cfg.y_axis, dimension: 1 })
}

/// `o` with `rs` added to its renderers and the axis labels set.
pub open spec fn finish_figure(o: ModelObject, rs: Seq<ModelValue>, x_label: Seq<char>, y_label: Seq<char>) -> ModelObject {
    mobj(o.name, o.id, append_to_list(o.attrs, "renderers"@, rs).map_values(
        |a: (Seq<char>, ModelValue)| label_attr(a, x_label, y_label),
    ))
}

/// The histogram figure built at counter `k` over the bins' columns
/// `data`: its hover tool at `k`, the figure from `k + 1`, then the bins'
/// data source and the renderer.
pub open spec fn histogram_figure(
    k: nat,
    spec: ChartSpec,
    cfg: HistogramConfig,
    x_range: ModelValue,
    y_range: ModelValue,
    data: Seq<(Seq<char>, ModelValue)>,
    first_left: Option<u64>,
    right: Seq<u64>,
    cdf: Seq<u64>,
    filter: Option<ModelValue>,
) -> ModelObject {
    let xp = hist_x_plan(cfg);
    let yp = hist_y_plan(cfg);
    let fig = figure_model(k + 1, spec.title@, chart_height(spec), spec.width, x_range, y_range, xp, yp,
        Some(hist_hover(k, cfg)));
    let kc = k + 1 + figure_ids(xp, yp);
    finish_figure(fig, seq![mval(hist_renderer(kc + 3, cfg, source_model(kc, data), first_left, right, cdf, filter))],
        cfg.x_label@, hist_y_label(cfg))
}

/// The ids a histogram takes before its renderer.
pub open spec fn hist_head_ids(cfg: HistogramConfig) -> nat {
    1 + figure_ids(hist_x_plan(cfg), hist_y_plan(cfg)) + 3
}

/// A chart's height: 400 unless set.
pub open spec fn chart_height(spec: ChartSpec) -> u32 {
    match spec.height {
        Some(h) => h,
        None => 400u32,
    }
}

pub(crate) fn push_floats(v: &Vec<u64>, m: usize, out: &mut Vec<BokehValue>)
    requires
        m <= v@.len(),
    ensures
        view_values(final(out)@) == view_values(old(out)@) + v@.take(m as int).map_values(|b: u64| ModelValue::Float(b)),
{
    for i in 0..m
        invariant
            m <= v@.len(),
            view_values(out@) == view_values(old(out)@) + v@.take(i as int).map_values(|b: u64| ModelValue::Float(b)),
    {
        let x = BokehValue::Float(v[i]);
        proof {
            lemma_view_values_push(out@, x);
            assert(v@.take(i + 1).map_values(|b: u64| ModelValue::Float(b)) =~= v@.take(i as int).map_values(
                |b: u64| ModelValue::Float(b),
            ).push(ModelValue::Float(v@[i as int])));
        }
        out.push(x);
    }
}

fn step_renderer(
    id_gen: &mut IdGen,
    color: &str,
    first_left: Option<u64>,
    right: &Vec<u64>,
    cdf: &Vec<u64>,
    filter_ref: Option<BokehValue>,
) -> (r: BokehObject)
    requires
        old(id_gen).can_issue(8),
    ensures
        final(id_gen)@ == old(id_gen)@ + 8,
        r@ == glyph_renderer_model(
            old(id_gen)@ + 5,
            mval(source_model(old(id_gen)@, step_data(step_xs(first_left, right@, cdf@), step_ys(first_left, right@, cdf@)))),
            step_line_model((old(id_gen)@ + 3) as nat, color@, false),
            Some(step_line_model((old(id_gen)@ + 4) as nat, color@, true)),
            opt_value_view(filter_ref),
        ),
{
    let ghost k = id_gen@;
    let m = if right.len() <= cdf.len() { right.len() } else { cdf.len() };
    let mut xs: Vec<BokehValue> = Vec::new();
    let mut ys: Vec<BokehValue> = Vec::new();
    match first_left {
        Some(l) => {
            xs.push(BokehValue::Float(l));
            ys.push(BokehValue::Float(F64_ZERO));
        },
        None => {},
    }
    proof {
        lemma_view_values_index(xs@);
        lemma_view_values_index(ys@);
        assert(view_values(xs@) =~= match first_left {
            Some(l) => seq![ModelValue::Float(l)],
            None => Seq::<ModelValue>::empty(),
        });
        assert(view_values(ys@) =~= match first_left {
            Some(_) => seq![ModelValue::Float(F64_ZERO)],
            None => Seq::<ModelValue>::empty(),
        });
    }
    push_floats(right, m, &mut xs);
    push_floats(cdf, m, &mut ys);
    let ghost xv = view_values(xs@);
    let ghost yv = view_values(ys@);
    let mut data: Vec<(String, BokehValue)> = Vec::new();
    data.push((String::from_str("x"), BokehValue::Array(xs)));
    data.push((String::from_str("y"), BokehValue::Array(ys)));
    proof {
        crate::model::lemma_view_attrs_index(data@);
        assert(crate::model::view_attrs(data@) =~= step_data(xv, yv));
    }
    let step_cds = build_source(id_gen, data);
    let glyph = BokehObject::new("Line", id_gen.next())
        .attr("x", BokehValue::field("x"))
        .attr("y", BokehValue::field("y"))
        .attr("line_color", BokehValue::value_of(BokehValue::Str(String::from_str(color))))
        .attr("line_width", BokehValue::value_of(BokehValue::Float(F64_TWO)));
    let nonsel = BokehObject::new("Line", id_gen.next())
        .attr("x", BokehValue::field("x"))
        .attr("y", BokehValue::field("y"))
        .attr("line_color", BokehValue::value_of(BokehValue::Str(String::from_str(color))))
        .attr("line_alpha", BokehValue::value_of(BokehValue::Float(F64_TENTH)));
    proof {
        assert(glyph@.attrs =~= step_line_model((k + 3) as nat, color@, false).attrs);
        assert(nonsel@.attrs =~= step_line_model((k + 4) as nat, color@, true).attrs);
    }
    build_glyph_renderer(id_gen, step_cds.into_value(), glyph, Some(nonsel), filter_ref)
}

fn quad_glyph(id_gen: &mut IdGen, y_col: &str, color: &str, line_color: &str, alpha: u64, faded: bool) -> (r: BokehObject)
    requires
        old(id_gen).can_issue(1),
    ensures
        final(id_gen)@ == old(id_gen)@ + 1,
        r@.name == "Quad"@,
        r@.id == id_for(old(id_gen)@),
        r@.attrs == seq![
            ("left"@, ModelValue::Field("left"@)),
            ("right"@, ModelValue::Field("right"@)),
            ("top"@, ModelValue::Field(y_col@)),
            ("bottom"@, num_value(F64_ZERO)),
            ("fill_color"@, str_value(color@)),
        ] + if faded {
            seq![("fill_alpha"@, num_value(F64_TENTH))]
        } else {
            seq![("fill_alpha"@, num_value(alpha)), ("line_color"@, str_value(line_color@))]
        },
{
    let mut g = BokehObject::new("Quad", id_gen.next())
        .attr("left", BokehValue::field("left"))
        .attr("right", BokehValue::field("right"))
        .attr("top", BokehValue::field(y_col))
        .attr("bottom", BokehValue::value_of(BokehValue::Float(F64_ZERO)))
        .attr("fill_color", BokehValue::value_of(BokehValue::Str(String::from_str(color))));
    if faded {
        g = g.attr("fill_alpha", BokehValue::value_of(BokehValue::Float(F64_TENTH)));
    } else {
        g = g.attr("fill_alpha", BokehValue::value_of(BokehValue::Float(alpha))).attr(
            "line_color",
            BokehValue::value_of(BokehValue::Str(String::from_str(line_color))),
        );
    }
    proof {
        assert(g@.attrs =~= seq![
            ("left"@, ModelValue::Field("left"@)),
            ("right"@, ModelValue::Field("right"@)),
            ("top"@, ModelValue::Field(y_col@)),
            ("bottom"@, num_value(F64_ZERO)),
            ("fill_color"@, str_value(color@)),
        ] + if faded {
            seq![("fill_alpha"@, num_value(F64_TENTH))]
        } else {
            seq![("fill_alpha"@, num_value(alpha)), ("line_color"@, str_value(line_color@))]
        });
    }
    g
}


/// The statistic a histogram shows (the executable form of [`hist_display`]).
fn display_of(cfg: &HistogramConfig) -> (d: HistogramDisplay)
    ensures
        d == hist_display(*cfg),
{
    match cfg.display {
        Some(d) => d,
        None => HistogramDisplay::Count,
    }
}

/// The y-axis label (the executable form of [`hist_y_label`]).
fn y_label_of(cfg: &HistogramConfig) -> (l: &str)
    ensures
        l@ == hist_y_label(*cfg),
{
    match &cfg.y_label {
        Some(l) => l.as_str(),
        None => match display_of(cfg) {
            HistogramDisplay::Count => "Count",
            HistogramDisplay::Pdf => "Density",
            HistogramDisplay::Cdf => "Cumulative Fraction",
        },
    }
}

/// The bars of a count or density histogram over `source`, with the
/// renderer's ids from `k` on.
fn bar_renderer(
    id_gen: &mut IdGen,
    cfg: &HistogramConfig,
    y_col: &str,
    source: BokehValue,
    filter_ref: Option<BokehValue>,
) -> (r: BokehObject)
    requires
        old(id_gen).can_issue(5),
        y_col@ == stat_column(hist_display(*cfg)),
        hist_display(*cfg) != HistogramDisplay::Cdf,
    ensures
        final(id_gen)@ == old(id_gen)@ + 5,
        r@ == glyph_renderer_model(
            old(id_gen)@ + 2,
            source@,
            quad_model(old(id_gen)@, *cfg, false),
            Some(quad_model(old(id_gen)@ + 1, *cfg, true)),
            opt_value_view(filter_ref),
        ),
{
    let ghost k = id_gen@;
    let color: &str = match &cfg.color {
        Some(c) => c.as_str(),
        None => "#4C72B0",
    };
    let line_color: &str = match &cfg.line_color {
        Some(c) => c.as_str(),
        None => "white",
    };
    let alpha: u64 = match cfg.alpha {
        Some(a) => a,
        None => F64_BAR_ALPHA,
    };
    let glyph = quad_glyph(id_gen, y_col, color, line_color, alpha, false);
    let nonsel = quad_glyph(id_gen, y_col, color, line_color, alpha, true);
    proof {
        assert(glyph@ == quad_model(k, *cfg, false));
        assert(nonsel@ == quad_model(k + 1, *cfg, true));
    }
    build_glyph_renderer(id_gen, source, glyph, Some(nonsel), filter_ref)
}

/// Build a histogram over a pre-computed bin table: bars from `left` to
/// `right` up to the statistic's column for counts and densities; for the
/// cumulative fraction a step line through the right edges, starting at 0
/// at the first bin's left edge. `data` holds the bin table's columns for
/// the data source, `first_left` the first left edge (none when the table
/// has no readable `left` column), `right` and `cdf` those columns as `f64`
/// bit patterns or the reason they could not be read. The figure's ranges
/// are built from the data by the caller.
///
/// Fails only for the cumulative fraction, when `right` (first) or `cdf`
/// could not be read.
#[verifier::rlimit(60)]
pub fn build_histogram(
    id_gen: &mut IdGen,
    spec: &ChartSpec,
    cfg: &HistogramConfig,
    data: Vec<(String, BokehValue)>,
    x_range: BokehValue,
    y_range: BokehValue,
    first_left: Option<u64>,
    right: Result<Vec<u64>, String>,
    cdf: Result<Vec<u64>, String>,
    filter_ref: Option<BokehValue>,
) -> (r: Result<BokehObject, ChartError>)
    requires
        old(id_gen).can_issue(50),
    ensures
        hist_display(*cfg) == HistogramDisplay::Cdf && right is Err ==> r == Err::<BokehObject, ChartError>(
            ChartError::NativeRender(right->Err_0),
        ),
        hist_display(*cfg) == HistogramDisplay::Cdf && right is Ok && cdf is Err ==> r == Err::<
            BokehObject,
            ChartError,
        >(ChartError::NativeRender(cdf->Err_0)),
        r is Err ==> final(id_gen)@ == old(id_gen)@ + hist_head_ids(*cfg),
        r is Ok <==> (hist_display(*cfg) != HistogramDisplay::Cdf || (right is Ok && cdf is Ok)),
        r matches Ok(fig) ==> {
            &&& final(id_gen)@ == old(id_gen)@ + hist_head_ids(*cfg) + hist_renderer_ids(*cfg)
            &&& fig@ == histogram_figure(
                old(id_gen)@,
                *spec,
                *cfg,
                x_range@,
                y_range@,
                view_attrs(data@),
                first_left,
                match right {
                    Ok(v) => v@,
                    Err(_) => Seq::empty(),
                },
                match cdf {
                    Ok(v) => v@,
                    Err(_) => Seq::empty(),
                },
                opt_value_view(filter_ref),
            )
        },
{
    let ghost k = id_gen@;
    let ghost dv = view_attrs(data@);
    let display = display_of(cfg);
    let y_col = display.as_str();
    let y_label = y_label_of(cfg);
    let mut cols: Vec<&str> = Vec::new();
    cols.push("left");
    cols.push("right");
    cols.push(y_col);
    let tips = match &cfg.tooltips {
        Some(t) => Some(t),
        None => None,
    };
    let ht = make_hover_tool(id_gen, tips, cols.as_slice());
    proof {
        assert(default_tooltips(cols@) =~= seq![
            ("left"@, col_ref("left"@)),
            ("right"@, col_ref("right"@)),
            (stat_column(hist_display(*cfg)), col_ref(stat_column(hist_display(*cfg)))),
        ]);
        assert(ht@ == hist_hover(k, *cfg));
    }
    let height: u32 = match spec.height {
        Some(h) => h,
        None => 400,
    };
    let out = build_figure(
        id_gen,
        spec.title.as_str(),
        height,
        spec.width,
        x_range,
        String::new(),
        y_range,
        String::new(),
        AxisBuilder::x(AxisType::Linear).config(copy_config(&cfg.x_axis)),
        AxisBuilder::y(AxisType::Linear).config(copy_config(&cfg.y_axis)),
        Some(ht),
    );
    let mut figure = out.figure;
    let ghost kc = id_gen@;
    let cds = build_source(id_gen, data);
    let renderer = match display {
        HistogramDisplay::Cdf => {
            let rv = match right {
                Ok(v) => v,
                Err(e) => {
                    return Err(ChartError::NativeRender(e));
                },
            };
            let cv = match cdf {
                Ok(v) => v,
                Err(e) => {
                    return Err(ChartError::NativeRender(e));
                },
            };
            let color: &str = match &cfg.color {
                Some(c) => c.as_str(),
                None => "#4C72B0",
            };
            step_renderer(id_gen, color, first_left, &rv, &cv, filter_ref)
        },
        _ => bar_renderer(id_gen, cfg, y_col, cds.into_value(), filter_ref),
    };
    let ghost rv = renderer@;
    let mut rs: Vec<BokehObject> = Vec::new();
    rs.push(renderer);
    proof {
        assert(objects_view(rs@) =~= seq![mval(rv)]);
    }
    add_renderers(&mut figure, rs);
    set_axis_labels(&mut figure, cfg.x_label.as_str(), y_label);
    Ok(figure)
}


/// The bars of a count or density histogram read the column of the chosen
/// statistic (`count` for counts, `pdf` for densities): the top of every
/// bar, selected or faded, is that column, and without configured tooltips
/// the hover tool shows the bin edges and that column.
pub proof fn law_histogram_bars_show_the_chosen_statistic(
    k: nat,
    cfg: HistogramConfig,
    cds: ModelObject,
    first_left: Option<u64>,
    right: Seq<u64>,
    cdf: Seq<u64>,
    filter: Option<ModelValue>,
)
    ensures
        ({
            let name = match hist_display(cfg) {
                HistogramDisplay::Count => "count"@,
                HistogramDisplay::Pdf => "pdf"@,
                HistogramDisplay::Cdf => "cdf"@,
            };
            let r = hist_renderer(k, cfg, cds, first_left, right, cdf, filter);
            &&& hist_display(cfg) != HistogramDisplay::Cdf ==> {
                &&& r.attrs[2].0 == "glyph"@
                &&& r.attrs[2].1->Object_0.name == "Quad"@
                &&& r.attrs[2].1->Object_0.attrs[2] == ("top"@, ModelValue::Field(name))
                &&& r.attrs[3].1->Object_0.attrs[2] == ("top"@, ModelValue::Field(name))
            }
            &&& cfg.tooltips is None ==> hist_hover(k, cfg) == hover_tool_model(k, seq![
                ("left"@, col_ref("left"@)),
                ("right"@, col_ref("right"@)),
                (name, col_ref(name)),
            ], Seq::empty())
        }),
{
}


/// The renderers a finished figure lists are exactly the ones added to it,
/// at the place of its (first) `renderers` list.
pub(crate) proof fn lemma_finished_renderers(
    k: nat,
    title: Seq<char>,
    height: u32,
    width: Option<u32>,
    x_range: ModelValue,
    y_range: ModelValue,
    xa: AxisPlan,
    ya: AxisPlan,
    hover: Option<ModelObject>,
    rs: Seq<ModelValue>,
    x_label: Seq<char>,
    y_label: Seq<char>,
)
    ensures
        finish_figure(figure_model(k, title, height, width, x_range, y_range, xa, ya, hover), rs, x_label, y_label).attrs[
            (crate::chart_figure::size_attrs(height, width).len() + 5) as int] == ("renderers"@, ModelValue::Array(rs)),
{
    reveal_strlit("renderers");
    reveal_strlit("height");
    reveal_strlit("width");
    reveal_strlit("sizing_mode");
    reveal_strlit("x_range");
    reveal_strlit("y_range");
    reveal_strlit("x_scale");
    reveal_strlit("y_scale");
    reveal_strlit("title");
    reveal_strlit("below");
    reveal_strlit("left");
    let a = figure_model(k, title, height, width, x_range, y_range, xa, ya, hover).attrs;
    let s = crate::chart_figure::size_attrs(height, width).len() as int;
    assert(a[s + 5] == ("renderers"@, ModelValue::Array(Seq::empty())));
    assert forall|j: int| 0 <= j < s + 5 implies #[trigger] a[j].0 != "renderers"@ by {
        assert(a[j].0.len() != "renderers"@.len());
    }
    assert(crate::chart_helpers::is_list_slot(a, "renderers"@, s + 5));
    let i = choose|i: int| crate::chart_helpers::is_list_slot(a, "renderers"@, i);
    assert(i == s + 5) by {
        if i < s + 5 {
            assert(a[i].0 != "renderers"@);
        } else if i > s + 5 {
            assert(!(a[s + 5].0 == "renderers"@ && a[s + 5].1 is Array));
        }
    }
    let b = append_to_list(a, "renderers"@, rs);
    assert(b[s + 5] == ("renderers"@, ModelValue::Array(Seq::<ModelValue>::empty() + rs)));
    assert(Seq::<ModelValue>::empty() + rs =~= rs);
}

/// A count or density histogram draws one renderer: bars whose tops (and
/// those of the faded bars) read the column of the chosen statistic.
pub proof fn law_histogram_figure_bars_show_the_chosen_statistic(
    k: nat,
    spec: ChartSpec,
    cfg: HistogramConfig,
    x_range: ModelValue,
    y_range: ModelValue,
    data: Seq<(Seq<char>, ModelValue)>,
    first_left: Option<u64>,
    right: Seq<u64>,
    cdf: Seq<u64>,
    filter: Option<ModelValue>,
)
    requires
        hist_display(cfg) != HistogramDisplay::Cdf,
    ensures
        ({
            let name = match hist_display(cfg) {
                HistogramDisplay::Count => "count"@,
                HistogramDisplay::Pdf => "pdf"@,
                HistogramDisplay::Cdf => "cdf"@,
            };
            let f = histogram_figure(k, spec, cfg, x_range, y_range, data, first_left, right, cdf, filter);
            let slot = f.attrs[(crate::chart_figure::size_attrs(chart_height(spec), spec.width).len() + 5) as int];
            let r = slot.1->Array_0[0]->Object_0;
            &&& slot.0 == "renderers"@
            &&& slot.1->Array_0.len() == 1
            &&& r.attrs[2].0 == "glyph"@
            &&& r.attrs[2].1->Object_0.name == "Quad"@
            &&& r.attrs[2].1->Object_0.attrs[2] == ("top"@, ModelValue::Field(name))
            &&& r.attrs[3].1->Object_0.attrs[2] == ("top"@, ModelValue::Field(name))
        }),
{
    let kc = k + 1 + figure_ids(hist_x_plan(cfg), hist_y_plan(cfg));
    let r = hist_renderer(kc + 3, cfg, source_model(kc, data), first_left, right, cdf, filter);
    lemma_finished_renderers(k + 1, spec.title@, chart_height(spec), spec.width, x_range, y_range, hist_x_plan(cfg),
        hist_y_plan(cfg), Some(hist_hover(k, cfg)), seq![mval(r)], cfg.x_label@, hist_y_label(cfg));
    law_histogram_bars_show_the_chosen_statistic(kc + 3, cfg, source_model(kc, data), first_left, right, cdf, filter);
}


/// The y axis names the statistic shown unless a label is configured:
/// "Count", "Density" or "Cumulative Fraction".
pub proof fn law_histogram_y_label_names_the_statistic(cfg: HistogramConfig)
    ensures
        cfg.y_label matches Some(l) ==> hist_y_label(cfg) == l@,
        cfg.y_label is None ==> hist_y_label(cfg) == match hist_display(cfg) {
            HistogramDisplay::Count => "Count"@,
            HistogramDisplay::Pdf => "Density"@,
            HistogramDisplay::Cdf => "Cumulative Fraction"@,
        },
{
}

/// The cumulative histogram is a step line over a data source of its own
/// that starts at 0 on the first bin's left edge (when that is known) and
/// then passes through each bin's right edge at its cumulative fraction,
/// pairing the two columns as far as both go.
pub proof fn law_cumulative_step_line_follows_the_bins(
    k: nat,
    cfg: HistogramConfig,
    cds: ModelObject,
    first_left: Option<u64>,
    right: Seq<u64>,
    cdf: Seq<u64>,
    filter: Option<ModelValue>,
)
    requires
        hist_display(cfg) == HistogramDisplay::Cdf,
    ensures
        ({
            let r = hist_renderer(k, cfg, cds, first_left, right, cdf, filter);
            let src = r.attrs[0].1->Object_0;
            let data = src.attrs[2].1->Entries_0;
            let xs = data[0].1->Array_0;
            let ys = data[1].1->Array_0;
            let m = if right.len() <= cdf.len() { right.len() } else { cdf.len() };
            let o: int = if first_left is Some { 1 } else { 0 };
            &&& r.attrs[0].0 == "data_source"@
            &&& src.name == "ColumnDataSource"@
            &&& src.attrs[2].0 == "data"@
            &&& data.len() == 2 && data[0].0 == "x"@ && data[1].0 == "y"@
            &&& xs.len() == o + m && ys.len() == o + m
            &&& first_left matches Some(l) ==> xs[0] == ModelValue::Float(l) && ys[0] == ModelValue::Float(F64_ZERO)
            &&& forall|j: int| 0 <= j < m ==> #[trigger] xs[o + j] == ModelValue::Float(right[j]) && ys[o + j]
                == ModelValue::Float(cdf[j])
            &&& r.attrs[2].1->Object_0.name == "Line"@
        }),
{
    let m = if right.len() <= cdf.len() { right.len() } else { cdf.len() };
    let xs = step_xs(first_left, right, cdf);
    let ys = step_ys(first_left, right, cdf);
    let o: int = if first_left is Some { 1 } else { 0 };
    assert forall|j: int| 0 <= j < m implies #[trigger] xs[o + j] == ModelValue::Float(right[j]) && ys[o + j]
        == ModelValue::Float(cdf[j]) by {
        assert(right.take(m as int)[j] == right[j]);
        assert(cdf.take(m as int)[j] == cdf[j]);
    }
}

} // verus!
