//! The density chart: per category, in first-seen order, a sina plot (each
//! value as a point, jittered within the density envelope) when the
//! category has at most `point_threshold` values, else a violin (the
//! mirrored density outline) with a line at the median.
//!
//! The density estimate, the jitter, the medians and the value grid are
//! floating point and computed by the caller; they arrive here as `f64` bit
//! patterns, one [`DensityShape`] per category.

use vstd::prelude::*;
use crate::axis::{AxisBuilder, AxisType, copy_config};
use crate::chart_config::{ChartSpec, DensityConfig};
use crate::chart_figure::{AxisPlan, build_figure, figure_ids, figure_model, plan_of};
use crate::chart_helpers::{add_renderers, append_to_list, col_ref, default_tooltips, label_attr, make_hover_tool,
    objects_view, set_axis_labels};
use crate::chart_parts::{F64_TENTH, num_value, unique_in_order, unique_preserve_order};
use crate::error::ChartError;
use crate::figure::{build_glyph_renderer, glyph_renderer_model, hover_tool_model, opt_value_view};
use crate::histogram::{F64_TWO, chart_height};
use crate::id_gen::{IdGen, id_for};
use crate::model::{
    BokehObject, BokehValue, ModelObject, ModelValue, lemma_view_attrs_index, lemma_view_values_index,
    lemma_view_values_push, mobj, mstr, mval, view_attrs, view_values,
};
use crate::renderers::str_value;
use crate::source::{build_source, source_model};
use crate::text::{str_eq, strs};

verus! {

/// The number of points of the value grid the density is estimated on.
pub const KDE_GRID_POINTS: usize = 80;
/// Bit pattern of the `f64` number 0.65, the default fill opacity.
pub const F64_DENSITY_ALPHA: u64 = 0x3FE4_CCCC_CCCC_CCCD;
/// Bit pattern of the `f64` number 6.0, the size of a sina point.
pub const F64_SIX: u64 = 0x4018_0000_0000_0000;
/// Bit patterns of the `f64` numbers -0.2 and 0.2, the ends of a median line.
pub const F64_MINUS_FIFTH: u64 = 0xBFC9_9999_9999_999A;
pub const F64_FIFTH: u64 = 0x3FC9_9999_9999_999A;

/// What the caller computed, in floating point, for one category: the
/// jitter of each of its values (sina), the outline's offsets on the right
/// and on the left at each grid point (violin), and its median.
pub struct DensityShape {
    pub jitter: Vec<u64>,
    pub right: Vec<u64>,
    pub left: Vec<u64>,
    pub median: u64,
}

/// Whether an `f64` bit pattern is a NaN: all exponent bits set and a
/// non-zero fraction.
pub open spec fn is_nan_bits(b: u64) -> bool {
    (b & 0x7FF0_0000_0000_0000u64) == 0x7FF0_0000_0000_0000u64 && (b & 0x000F_FFFF_FFFF_FFFFu64) != 0
}

/// Whether any value is a number (not NaN).
pub open spec fn has_number(vals: Seq<u64>) -> bool {
    exists|i: int| 0 <= i < vals.len() && !is_nan_bits(#[trigger] vals[i])
}

/// The values of the rows whose category is `c`, in row order.
pub open spec fn group_values(cats: Seq<Seq<char>>, vals: Seq<u64>, c: Seq<char>) -> Seq<u64>
    decreases cats.len(),
{
    if cats.len() == 0 || vals.len() == 0 {
        Seq::empty()
    } else {
        let prev = group_values(cats.drop_last(), vals.drop_last(), c);
        if cats.last() == c { prev.push(vals.last()) } else { prev }
    }
}

/// The colour of each category: the palette when one is configured, else
/// the configured single colour for every category, else the default
/// palette (resolved by the caller in both palette cases).
pub open spec fn density_colors(cfg: DensityConfig, palette: Seq<Seq<char>>, n: nat) -> Seq<Seq<char>> {
    if cfg.palette is Some {
        palette
    } else if cfg.color is Some {
        Seq::new(n, |i: int| cfg.color->Some_0@)
    } else {
        palette
    }
}

/// The fill opacity; 0.65 unless set.
pub open spec fn density_alpha(cfg: DensityConfig) -> u64 {
    match cfg.alpha {
        Some(a) => a,
        None => F64_DENSITY_ALPHA,
    }
}

/// The most values a category may have to be drawn as a sina plot; 50 unless set.
pub open spec fn density_threshold(cfg: DensityConfig) -> nat {
    match cfg.point_threshold {
        Some(t) => t as nat,
        None => 50,
    }
}

/// The point `[category, offset]` on a categorical axis.
pub open spec fn offset_point(cat: Seq<char>, off: u64) -> ModelValue {
    ModelValue::Array(seq![mstr(cat), ModelValue::Float(off)])
}

/// Numbers given as `f64` bit patterns, as model values.
pub open spec fn floats_view(s: Seq<u64>) -> Seq<ModelValue> {
    s.map_values(|b: u64| ModelValue::Float(b))
}

/// The sina points' glyph with id `k`; the faded one when `faded`.
pub open spec fn sina_glyph_model(k: nat, color: Seq<char>, alpha: u64, faded: bool) -> ModelObject {
    mobj("Scatter"@, id_for(k), if faded {
        seq![
            ("x"@, ModelValue::Field("x"@)),
            ("y"@, ModelValue::Field("y"@)),
            ("size"@, num_value(F64_SIX)),
            ("fill_alpha"@, num_value(F64_TENTH)),
            ("marker"@, str_value("circle"@)),
        ]
    } else {
        seq![
            ("x"@, ModelValue::Field("x"@)),
            ("y"@, ModelValue::Field("y"@)),
            ("size"@, num_value(F64_SIX)),
            ("fill_color"@, str_value(color)),
            ("fill_alpha"@, num_value(alpha)),
            ("line_color"@, ModelValue::Value(Box::new(ModelValue::Null))),
            ("marker"@, str_value("circle"@)),
        ]
    })
}

/// The violin outline's glyph with id `k`; the faded one when `faded`.
pub open spec fn patch_model(k: nat, color: Seq<char>, alpha: u64, faded: bool) -> ModelObject {
    mobj("Patch"@, id_for(k), if faded {
        seq![("x"@, ModelValue::Field("x"@)), ("y"@, ModelValue::Field("y"@)), ("fill_alpha"@, num_value(F64_TENTH))]
    } else {
        seq![
            ("x"@, ModelValue::Field("x"@)),
            ("y"@, ModelValue::Field("y"@)),
            ("fill_color"@, str_value(color)),
            ("fill_alpha"@, num_value(alpha)),
            ("line_color"@, str_value(color)),
        ]
    })
}

/// The median line's glyph with id `k`; the faded one when `faded`.
pub open spec fn median_line_model(k: nat, faded: bool) -> ModelObject {
    mobj("Line"@, id_for(k), if faded {
        seq![("x"@, ModelValue::Field("x"@)), ("y"@, ModelValue::Field("y"@)), ("line_alpha"@, num_value(F64_TENTH))]
    } else {
        seq![
            ("x"@, ModelValue::Field("x"@)),
            ("y"@, ModelValue::Field("y"@)),
            ("line_color"@, str_value("white"@)),
            ("line_width"@, num_value(F64_TWO)),
        ]
    })
}

/// The xy columns of a data source.
pub open spec fn xy_data(xs: Seq<ModelValue>, ys: Seq<ModelValue>) -> Seq<(Seq<char>, ModelValue)> {
    seq![("x"@, ModelValue::Array(xs)), ("y"@, ModelValue::Array(ys))]
}

/// The sina renderer of category `cat` built at counter `k`.
pub open spec fn sina_model(
    k: nat,
    cat: Seq<char>,
    group: Seq<u64>,
    jitter: Seq<u64>,
    color: Seq<char>,
    alpha: u64,
    filter: Option<ModelValue>,
) -> ModelObject {
    let xs = Seq::new(group.len(), |j: int| offset_point(cat, jitter[j]));
    glyph_renderer_model(k + 5, mval(source_model(k, xy_data(xs, floats_view(group)))),
        sina_glyph_model(k + 3, color, alpha, false), Some(sina_glyph_model(k + 4, color, alpha, true)), filter)
}

/// The outline of a violin: up the right side, then down the left side.
pub open spec fn violin_xs(cat: Seq<char>, right: Seq<u64>, left: Seq<u64>) -> Seq<ModelValue> {
    Seq::new(KDE_GRID_POINTS as nat, |j: int| offset_point(cat, right[j])) + Seq::new(
        KDE_GRID_POINTS as nat,
        |j: int| offset_point(cat, left[KDE_GRID_POINTS - 1 - j]),
    )
}

pub open spec fn violin_ys(grid: Seq<u64>) -> Seq<ModelValue> {
    Seq::new(KDE_GRID_POINTS as nat, |j: int| ModelValue::Float(grid[j])) + Seq::new(
        KDE_GRID_POINTS as nat,
        |j: int| ModelValue::Float(grid[KDE_GRID_POINTS - 1 - j]),
    )
}

/// The violin renderer of category `cat` built at counter `k`.
pub open spec fn violin_model(
    k: nat,
    cat: Seq<char>,
    shape: DensityShape,
    grid: Seq<u64>,
    color: Seq<char>,
    alpha: u64,
    filter: Option<ModelValue>,
) -> ModelObject {
    glyph_renderer_model(k + 5, mval(source_model(k, xy_data(violin_xs(cat, shape.right@, shape.left@), violin_ys(grid)))),
        patch_model(k + 3, color, alpha, false), Some(patch_model(k + 4, color, alpha, true)), filter)
}

/// The median line of category `cat` built at counter `k`, unfiltered.
pub open spec fn median_model(k: nat, cat: Seq<char>, median: u64) -> ModelObject {
    glyph_renderer_model(k + 5, mval(source_model(k, xy_data(
        seq![offset_point(cat, F64_MINUS_FIFTH), offset_point(cat, F64_FIFTH)],
        seq![ModelValue::Float(median), ModelValue::Float(median)],
    ))), median_line_model(k + 3, false), Some(median_line_model(k + 4, true)), None)
}

/// The renderers of one category built at counter `k`.
pub open spec fn category_renderers(
    k: nat,
    cfg: DensityConfig,
    cat: Seq<char>,
    group: Seq<u64>,
    shape: DensityShape,
    grid: Seq<u64>,
    color: Seq<char>,
    filter: Option<ModelValue>,
) -> Seq<ModelValue> {
    if group.len() <= density_threshold(cfg) {
        seq![mval(sina_model(k, cat, group, shape.jitter@, color, density_alpha(cfg), filter))]
    } else {
        seq![
            mval(violin_model(k, cat, shape, grid, color, density_alpha(cfg), filter)),
            mval(median_model(k + 8, cat, shape.median)),
        ]
    }
}

/// The ids the renderers of a category with `n` values take.
pub open spec fn category_ids(cfg: DensityConfig, n: nat) -> nat {
    if n <= density_threshold(cfg) { 8 } else { 16 }
}

/// The ids the renderers of the first `m` categories take.
pub open spec fn ids_upto(m: nat, cfg: DensityConfig, cats: Seq<Seq<char>>, vals: Seq<u64>) -> nat
    decreases m,
{
    if m == 0 {
        0
    } else {
        let c = unique_in_order(cats)[m - 1];
        ids_upto((m - 1) as nat, cfg, cats, vals) + category_ids(cfg, group_values(cats, vals, c).len())
    }
}

/// The renderers of the first `m` categories, the first built at counter `k`.
pub open spec fn renderers_upto(
    k: nat,
    m: nat,
    cfg: DensityConfig,
    cats: Seq<Seq<char>>,
    vals: Seq<u64>,
    shapes: Seq<DensityShape>,
    grid: Seq<u64>,
    colors: Seq<Seq<char>>,
    filter: Option<ModelValue>,
) -> Seq<ModelValue>
    decreases m,
{
    if m == 0 {
        Seq::empty()
    } else {
        let i = (m - 1) as nat;
        let c = unique_in_order(cats)[i as int];
        renderers_upto(k, i, cfg, cats, vals, shapes, grid, colors, filter) + category_renderers(
            k + ids_upto(i, cfg, cats, vals),
            cfg,
            c,
            group_values(cats, vals, c),
            shapes[i as int],
            grid,
            colors[i as int],
            filter,
        )
    }
}

/// The categorical x axis, without settings.
pub open spec fn density_x_plan() -> AxisPlan {
    plan_of(AxisBuilder { axis_type: AxisType::Categorical, format: None, dimension: 0 })
}

/// The linear y axis with the configured settings.
pub open spec fn density_y_plan(cfg: DensityConfig) -> AxisPlan {
    plan_of(AxisBuilder { axis_type: AxisType::Linear, format: cfg.y_axis, dimension: 1 })
}

/// The hover tool at counter `k`, showing the category and the value.
pub open spec fn density_hover(k: nat, cfg: DensityConfig) -> ModelObject {
    hover_tool_model(k, seq![
        (cfg.category_col@, col_ref(cfg.category_col@)),
        (cfg.value_col@, col_ref(cfg.value_col@)),
    ], Seq::empty())
}

/// The density figure built at counter `k` over the columns `cats` and
/// `vals`: the hover tool at `k`, the figure from `k + 1`, then the
/// renderers of each category in first-seen order. Without a single number
/// among the values the figure stays empty and unlabelled.
pub open spec fn density_figure(
    k: nat,
    spec: ChartSpec,
    cfg: DensityConfig,
    x_range: ModelValue,
    y_range: ModelValue,
    cats: Seq<Seq<char>>,
    vals: Seq<u64>,
    palette: Seq<Seq<char>>,
    shapes: Seq<DensityShape>,
    grid: Seq<u64>,
    filter: Option<ModelValue>,
) -> ModelObject {
    let fig = figure_model(k + 1, spec.title@, chart_height(spec), spec.width, x_range, y_range, density_x_plan(),
        density_y_plan(cfg), Some(density_hover(k, cfg)));
    if !has_number(vals) {
        fig
    } else {
        let n = unique_in_order(cats).len();
        let colors = density_colors(cfg, palette, n);
        let kr = k + 1 + figure_ids(density_x_plan(), density_y_plan(cfg));
        let f1 = mobj(fig.name, fig.id, append_to_list(fig.attrs, "renderers"@,
            renderers_upto(kr, n, cfg, cats, vals, shapes, grid, colors, filter)));
        mobj(f1.name, f1.id, f1.attrs.map_values(|a: (Seq<char>, ModelValue)| label_attr(a, ""@, cfg.y_label@)))
    }
}

fn point_value(cat: &String, off: u64) -> (r: BokehValue)
    ensures
        r@ == offset_point(cat@, off),
{
    let mut pair: Vec<BokehValue> = Vec::new();
    pair.push(BokehValue::Str(cat.clone()));
    pair.push(BokehValue::Float(off));
    proof {
        lemma_view_values_index(pair@);
        assert(view_values(pair@) =~= seq![mstr(cat@), ModelValue::Float(off)]);
    }
    BokehValue::Array(pair)
}

fn is_nan_bits_exec(b: u64) -> (r: bool)
    ensures
        r == is_nan_bits(b),
{
    (b & 0x7FF0_0000_0000_0000u64) == 0x7FF0_0000_0000_0000u64 && (b & 0x000F_FFFF_FFFF_FFFFu64) != 0
}

fn any_number(vals: &Vec<u64>) -> (r: bool)
    ensures
        r == has_number(vals@),
{
    let n = vals.len();
    for i in 0..n
        invariant
            n == vals@.len(),
            forall|j: int| 0 <= j < i ==> is_nan_bits(#[trigger] vals@[j]),
    {
        if !is_nan_bits_exec(vals[i]) {
            return true;
        }
    }
    false
}

/// The values of the rows in category `c`.
fn group_of(cats: &Vec<String>, vals: &Vec<u64>, c: &String) -> (r: Vec<u64>)
    requires
        cats@.len() == vals@.len(),
    ensures
        r@ == group_values(strs(cats@), vals@, c@),
{
    let mut out: Vec<u64> = Vec::new();
    let n = cats.len();
    proof {
        assert(strs(cats@.take(0)).len() == 0);
    }
    for i in 0..n
        invariant
            n == cats@.len(),
            n == vals@.len(),
            out@ == group_values(strs(cats@.take(i as int)), vals@.take(i as int), c@),
    {
        proof {
            let ct = strs(cats@.take(i + 1));
            let vt = vals@.take(i + 1);
            assert(ct.drop_last() =~= strs(cats@.take(i as int)));
            assert(vt.drop_last() =~= vals@.take(i as int));
            assert(ct.last() == cats@[i as int]@);
            assert(vt.last() == vals@[i as int]);
        }
        if str_eq(cats[i].as_str(), c.as_str()) {
            out.push(vals[i]);
        }
    }
    proof {
        assert(cats@.take(n as int) =~= cats@);
        assert(vals@.take(n as int) =~= vals@);
    }
    out
}

fn sina_glyph(id_gen: &mut IdGen, color: &str, alpha: u64, faded: bool) -> (r: BokehObject)
    requires
        old(id_gen).can_issue(1),
    ensures
        final(id_gen)@ == old(id_gen)@ + 1,
        r@ == sina_glyph_model(old(id_gen)@, color@, alpha, faded),
{
    let g = BokehObject::new("Scatter", id_gen.next())
        .attr("x", BokehValue::field("x"))
        .attr("y", BokehValue::field("y"))
        .attr("size", BokehValue::value_of(BokehValue::Float(F64_SIX)));
    let g = if faded {
        g.attr("fill_alpha", BokehValue::value_of(BokehValue::Float(F64_TENTH)))
    } else {
        g.attr("fill_color", BokehValue::value_of(BokehValue::Str(String::from_str(color))))
            .attr("fill_alpha", BokehValue::value_of(BokehValue::Float(alpha)))
            .attr("line_color", BokehValue::value_of(BokehValue::Null))
    };
    let g = g.attr("marker", BokehValue::value_of(BokehValue::Str(String::from_str("circle"))));
    proof {
        assert(g@.attrs =~= sina_glyph_model(old(id_gen)@, color@, alpha, faded).attrs);
    }
    g
}

fn patch_glyph(id_gen: &mut IdGen, color: &str, alpha: u64, faded: bool) -> (r: BokehObject)
    requires
        old(id_gen).can_issue(1),
    ensures
        final(id_gen)@ == old(id_gen)@ + 1,
        r@ == patch_model(old(id_gen)@, color@, alpha, faded),
{
    let g = BokehObject::new("Patch", id_gen.next()).attr("x", BokehValue::field("x")).attr("y", BokehValue::field("y"));
    let g = if faded {
        g.attr("fill_alpha", BokehValue::value_of(BokehValue::Float(F64_TENTH)))
    } else {
        g.attr("fill_color", BokehValue::value_of(BokehValue::Str(String::from_str(color))))
            .attr("fill_alpha", BokehValue::value_of(BokehValue::Float(alpha)))
            .attr("line_color", BokehValue::value_of(BokehValue::Str(String::from_str(color))))
    };
    proof {
        assert(g@.attrs =~= patch_model(old(id_gen)@, color@, alpha, faded).attrs);
    }
    g
}

fn median_glyph(id_gen: &mut IdGen, faded: bool) -> (r: BokehObject)
    requires
        old(id_gen).can_issue(1),
    ensures
        final(id_gen)@ == old(id_gen)@ + 1,
        r@ == median_line_model(old(id_gen)@, faded),
{
    let g = BokehObject::new("Line", id_gen.next()).attr("x", BokehValue::field("x")).attr("y", BokehValue::field("y"));
    let g = if faded {
        g.attr("line_alpha", BokehValue::value_of(BokehValue::Float(F64_TENTH)))
    } else {
        g.attr("line_color", BokehValue::value_of(BokehValue::Str(String::from_str("white"))))
            .attr("line_width", BokehValue::value_of(BokehValue::Float(F64_TWO)))
    };
    proof {
        assert(g@.attrs =~= median_line_model(old(id_gen)@, faded).attrs);
    }
    g
}

fn xy_source(id_gen: &mut IdGen, xs: Vec<BokehValue>, ys: Vec<BokehValue>) -> (r: BokehObject)
    requires
        old(id_gen).can_issue(3),
    ensures
        final(id_gen)@ == old(id_gen)@ + 3,
        r@ == source_model(old(id_gen)@, xy_data(view_values(xs@), view_values(ys@))),
{
    let ghost xv = view_values(xs@);
    let ghost yv = view_values(ys@);
    let mut data: Vec<(String, BokehValue)> = Vec::new();
    data.push((String::from_str("x"), BokehValue::Array(xs)));
    data.push((String::from_str("y"), BokehValue::Array(ys)));
    proof {
        lemma_view_attrs_index(data@);
        assert(view_attrs(data@) =~= xy_data(xv, yv));
    }
    build_source(id_gen, data)
}

fn sina_renderer(
    id_gen: &mut IdGen,
    cat: &String,
    group: &Vec<u64>,
    jitter: &Vec<u64>,
    color: &str,
    alpha: u64,
    filter_ref: Option<BokehValue>,
) -> (r: BokehObject)
    requires
        old(id_gen).can_issue(8),
        jitter@.len() == group@.len(),
    ensures
        final(id_gen)@ == old(id_gen)@ + 8,
        r@ == sina_model(old(id_gen)@, cat@, group@, jitter@, color@, alpha, opt_value_view(filter_ref)),
{
    let ghost k = id_gen@;
    let mut xs: Vec<BokehValue> = Vec::new();
    let n = group.len();
    for j in 0..n
        invariant
            n == group@.len(),
            n == jitter@.len(),
            view_values(xs@) == Seq::new(j as nat, |t: int| offset_point(cat@, jitter@[t])),
    {
        let p = point_value(cat, jitter[j]);
        proof {
            lemma_view_values_push(xs@, p);
            assert(Seq::new((j + 1) as nat, |t: int| offset_point(cat@, jitter@[t])) =~= Seq::new(
                j as nat,
                |t: int| offset_point(cat@, jitter@[t]),
            ).push(p@));
        }
        xs.push(p);
    }
    let mut ys: Vec<BokehValue> = Vec::new();
    proof {
        assert(view_values(ys@) =~= Seq::<ModelValue>::empty());
    }
    crate::histogram::push_floats(group, n, &mut ys);
    proof {
        assert(group@.take(n as int) =~= group@);
        assert(view_values(ys@) =~= floats_view(group@));
    }
    let cds = xy_source(id_gen, xs, ys);
    let glyph = sina_glyph(id_gen, color, alpha, false);
    let nonsel = sina_glyph(id_gen, color, alpha, true);
    build_glyph_renderer(id_gen, cds.into_value(), glyph, Some(nonsel), filter_ref)
}

fn outline_xs(cat: &String, right: &Vec<u64>, left: &Vec<u64>) -> (r: Vec<BokehValue>)
    requires
        right@.len() == KDE_GRID_POINTS,
        left@.len() == KDE_GRID_POINTS,
    ensures
        view_values(r@) == violin_xs(cat@, right@, left@),
{
    let mut xs: Vec<BokehValue> = Vec::new();
    for j in 0..KDE_GRID_POINTS
        invariant
            right@.len() == KDE_GRID_POINTS,
            view_values(xs@) == Seq::new(j as nat, |t: int| offset_point(cat@, right@[t])),
    {
        let p = point_value(cat, right[j]);
        proof {
            lemma_view_values_push(xs@, p);
            assert(Seq::new((j + 1) as nat, |t: int| offset_point(cat@, right@[t])) =~= Seq::new(
                j as nat,
                |t: int| offset_point(cat@, right@[t]),
            ).push(p@));
        }
        xs.push(p);
    }
    let ghost up = view_values(xs@);
    for j in 0..KDE_GRID_POINTS
        invariant
            left@.len() == KDE_GRID_POINTS,
            view_values(xs@) == up + Seq::new(j as nat, |t: int| offset_point(cat@, left@[KDE_GRID_POINTS - 1 - t])),
    {
        let p = point_value(cat, left[KDE_GRID_POINTS - 1 - j]);
        proof {
            lemma_view_values_push(xs@, p);
            assert(Seq::new((j + 1) as nat, |t: int| offset_point(cat@, left@[KDE_GRID_POINTS - 1 - t])) =~= Seq::new(
                j as nat,
                |t: int| offset_point(cat@, left@[KDE_GRID_POINTS - 1 - t]),
            ).push(p@));
            assert(up + Seq::new((j + 1) as nat, |t: int| offset_point(cat@, left@[KDE_GRID_POINTS - 1 - t])) =~= (up
                + Seq::new(j as nat, |t: int| offset_point(cat@, left@[KDE_GRID_POINTS - 1 - t]))).push(p@));
        }
        xs.push(p);
    }
    xs
}

fn outline_ys(grid: &Vec<u64>) -> (r: Vec<BokehValue>)
    requires
        grid@.len() == KDE_GRID_POINTS,
    ensures
        view_values(r@) == violin_ys(grid@),
{
    let mut ys: Vec<BokehValue> = Vec::new();
    for j in 0..KDE_GRID_POINTS
        invariant
            grid@.len() == KDE_GRID_POINTS,
            view_values(ys@) == Seq::new(j as nat, |t: int| ModelValue::Float(grid@[t])),
    {
        let p = BokehValue::Float(grid[j]);
        proof {
            lemma_view_values_push(ys@, p);
            assert(Seq::new((j + 1) as nat, |t: int| ModelValue::Float(grid@[t])) =~= Seq::new(
                j as nat,
                |t: int| ModelValue::Float(grid@[t]),
            ).push(p@));
        }
        ys.push(p);
    }
    let ghost up = view_values(ys@);
    for j in 0..KDE_GRID_POINTS
        invariant
            grid@.len() == KDE_GRID_POINTS,
            view_values(ys@) == up + Seq::new(j as nat, |t: int| ModelValue::Float(grid@[KDE_GRID_POINTS - 1 - t])),
    {
        let p = BokehValue::Float(grid[KDE_GRID_POINTS - 1 - j]);
        proof {
            lemma_view_values_push(ys@, p);
            assert(up + Seq::new((j + 1) as nat, |t: int| ModelValue::Float(grid@[KDE_GRID_POINTS - 1 - t])) =~= (up
                + Seq::new(j as nat, |t: int| ModelValue::Float(grid@[KDE_GRID_POINTS - 1 - t]))).push(p@));
        }
        ys.push(p);
    }
    ys
}

fn median_renderer(id_gen: &mut IdGen, cat: &String, median: u64) -> (r: BokehObject)
    requires
        old(id_gen).can_issue(8),
    ensures
        final(id_gen)@ == old(id_gen)@ + 8,
        r@ == median_model(old(id_gen)@, cat@, median),
{
    let mut xs: Vec<BokehValue> = Vec::new();
    xs.push(point_value(cat, F64_MINUS_FIFTH));
    xs.push(point_value(cat, F64_FIFTH));
    let mut ys: Vec<BokehValue> = Vec::new();
    ys.push(BokehValue::Float(median));
    ys.push(BokehValue::Float(median));
    proof {
        lemma_view_values_index(xs@);
        lemma_view_values_index(ys@);
        assert(view_values(xs@) =~= seq![offset_point(cat@, F64_MINUS_FIFTH), offset_point(cat@, F64_FIFTH)]);
        assert(view_values(ys@) =~= seq![ModelValue::Float(median), ModelValue::Float(median)]);
    }
    let cds = xy_source(id_gen, xs, ys);
    let glyph = median_glyph(id_gen, false);
    let nonsel = median_glyph(id_gen, true);
    build_glyph_renderer(id_gen, cds.into_value(), glyph, Some(nonsel), None)
}

/// Append the renderers of one category to `out`.
fn category(
    id_gen: &mut IdGen,
    cfg: &DensityConfig,
    cat: &String,
    group: &Vec<u64>,
    shape: &DensityShape,
    grid: &Vec<u64>,
    color: &str,
    filter_ref: &Option<BokehValue>,
    out: &mut Vec<BokehObject>,
)
    requires
        old(id_gen).can_issue(16),
        shape.jitter@.len() == group@.len(),
        shape.right@.len() == KDE_GRID_POINTS,
        shape.left@.len() == KDE_GRID_POINTS,
        grid@.len() == KDE_GRID_POINTS,
    ensures
        final(id_gen)@ == old(id_gen)@ + category_ids(*cfg, group@.len()),
        objects_view(final(out)@) == objects_view(old(out)@) + category_renderers(
            old(id_gen)@,
            *cfg,
            cat@,
            group@,
            *shape,
            grid@,
            color@,
            opt_value_view(*filter_ref),
        ),
{
    let ghost k = id_gen@;
    let alpha: u64 = match cfg.alpha {
        Some(a) => a,
        None => F64_DENSITY_ALPHA,
    };
    let threshold: u64 = match cfg.point_threshold {
        Some(t) => t as u64,
        None => 50,
    };
    let filter = match filter_ref {
        Some(f) => Some(f.clone()),
        None => None,
    };
    if group.len() as u64 <= threshold {
        let r = sina_renderer(id_gen, cat, group, &shape.jitter, color, alpha, filter);
        let ghost rv = r@;
        let ghost o0 = out@;
        out.push(r);
        proof {
            assert(objects_view(out@) =~= objects_view(o0) + seq![mval(rv)]);
        }
    } else {
        let cds = xy_source(id_gen, outline_xs(cat, &shape.right, &shape.left), outline_ys(grid));
        let glyph = patch_glyph(id_gen, color, alpha, false);
        let nonsel = patch_glyph(id_gen, color, alpha, true);
        let r = build_glyph_renderer(id_gen, cds.into_value(), glyph, Some(nonsel), filter);
        let m = median_renderer(id_gen, cat, shape.median);
        let ghost rv = r@;
        let ghost mv = m@;
        let ghost o0 = out@;
        out.push(r);
        out.push(m);
        proof {
            assert(objects_view(out@) =~= objects_view(o0) + seq![mval(rv), mval(mv)]);
        }
    }
}

proof fn lemma_ids_bound(m: nat, cfg: DensityConfig, cats: Seq<Seq<char>>, vals: Seq<u64>)
    ensures
        ids_upto(m, cfg, cats, vals) <= 16 * m,
    decreases m,
{
    if m > 0 {
        lemma_ids_bound((m - 1) as nat, cfg, cats, vals);
    }
}

/// The colour of category `i`.
fn color_at<'a>(cfg: &'a DensityConfig, palette: &'a Vec<String>, i: usize) -> (r: &'a str)
    requires
        (cfg.palette is Some || cfg.color is None) ==> i < palette@.len(),
    ensures
        (cfg.palette is Some || cfg.color is None) ==> r@ == palette@[i as int]@,
        (cfg.palette is None && cfg.color is Some) ==> r@ == cfg.color->Some_0@,
{
    if cfg.palette.is_some() {
        palette[i].as_str()
    } else {
        match &cfg.color {
            Some(c) => c.as_str(),
            None => palette[i].as_str(),
        }
    }
}

/// What the caller must hand in for each category: the jitter of each of
/// its values and the outline offsets at each grid point.
pub open spec fn shapes_fit(cats: Seq<Seq<char>>, vals: Seq<u64>, shapes: Seq<DensityShape>) -> bool {
    let order = unique_in_order(cats);
    &&& shapes.len() == order.len()
    &&& forall|i: int| 0 <= i < order.len() ==> {
        &&& (#[trigger] shapes[i]).jitter@.len() == group_values(cats, vals, order[i]).len()
        &&& shapes[i].right@.len() == KDE_GRID_POINTS
        &&& shapes[i].left@.len() == KDE_GRID_POINTS
    }
}

/// Build a density chart from the category and value columns (`f64` bit
/// patterns) of the data frame, each read by the caller or the reason it
/// could not be read. The categories are taken in first-seen order;
/// `palette` is the palette resolved for their number, `shapes` holds the
/// floating-point work for each of them and `y_grid` the grid of
/// [`KDE_GRID_POINTS`] values the densities were estimated on. The x range
/// is a factor range over the categories in that order; the y range is
/// built from the data.
///
/// Fails, before any id is drawn, when a column could not be read: the
/// category column first.
#[verifier::rlimit(80)]
pub fn build_density(
    id_gen: &mut IdGen,
    spec: &ChartSpec,
    cfg: &DensityConfig,
    cat_vals: Result<Vec<String>, String>,
    num_vals: Result<Vec<u64>, String>,
    palette: &Vec<String>,
    shapes: &Vec<DensityShape>,
    y_grid: &Vec<u64>,
    x_range: BokehValue,
    y_range: BokehValue,
    filter_ref: Option<BokehValue>,
) -> (r: Result<BokehObject, ChartError>)
    requires
        cat_vals is Ok && num_vals is Ok ==> {
            let cats = strs(cat_vals->Ok_0@);
            &&& cat_vals->Ok_0@.len() == num_vals->Ok_0@.len()
            &&& shapes_fit(cats, num_vals->Ok_0@, shapes@)
            &&& (cfg.palette is Some || cfg.color is None) ==> palette@.len() >= unique_in_order(cats).len()
            &&& y_grid@.len() == KDE_GRID_POINTS
        },
        old(id_gen).can_issue(30 + 16 * match cat_vals {
            Ok(c) => c@.len(),
            Err(_) => 0,
        }),
    ensures
        cat_vals is Err ==> r == Err::<BokehObject, ChartError>(ChartError::NativeRender(cat_vals->Err_0)),
        cat_vals is Ok && num_vals is Err ==> r == Err::<BokehObject, ChartError>(
            ChartError::NativeRender(num_vals->Err_0),
        ),
        r is Err ==> final(id_gen)@ == old(id_gen)@,
        r is Ok <==> (cat_vals is Ok && num_vals is Ok),
        r matches Ok(fig) ==> {
            let cats = strs(cat_vals->Ok_0@);
            let vals = num_vals->Ok_0@;
            &&& final(id_gen)@ == old(id_gen)@ + 1 + figure_ids(density_x_plan(), density_y_plan(*cfg)) + if has_number(
                vals,
            ) {
                ids_upto(unique_in_order(cats).len(), *cfg, cats, vals)
            } else {
                0
            }
            &&& fig@ == density_figure(
                old(id_gen)@,
                *spec,
                *cfg,
                x_range@,
                y_range@,
                cats,
                vals,
                strs(palette@),
                shapes@,
                y_grid@,
                opt_value_view(filter_ref),
            )
        },
{
    let ghost k = id_gen@;
    let cv = match cat_vals {
        Ok(v) => v,
        Err(e) => {
            return Err(ChartError::NativeRender(e));
        },
    };
    let vv = match num_vals {
        Ok(v) => v,
        Err(e) => {
            return Err(ChartError::NativeRender(e));
        },
    };
    let ghost cats = strs(cv@);
    let order = unique_preserve_order(cv.as_slice());
    let n = order.len();
    proof {
        crate::grouped_bar::lemma_unique_len(cats);
    }
    let mut cols: Vec<&str> = Vec::new();
    cols.push(cfg.category_col.as_str());
    cols.push(cfg.value_col.as_str());
    let ht = make_hover_tool(id_gen, None, cols.as_slice());
    proof {
        assert(default_tooltips(cols@) =~= seq![
            (cfg.category_col@, col_ref(cfg.category_col@)),
            (cfg.value_col@, col_ref(cfg.value_col@)),
        ]);
    }
    let height: u32 = match spec.height {
        Some(h) => h,
        None => 400,
    };
    let out = build_figure(
        id_gen,
        spec.title.as_str(),
        height,
        spec.width,
        x_range,
        String::new(),
        y_range,
        String::new(),
        AxisBuilder::x(AxisType::Categorical),
        AxisBuilder::y(AxisType::Linear).config(copy_config(&cfg.y_axis)),
        Some(ht),
    );
    let mut figure = out.figure;
    if !any_number(&vv) {
        return Ok(figure);
    }
    let ghost kr = id_gen@;
    let ghost colors = density_colors(*cfg, strs(palette@), n as nat);
    let ghost fv = opt_value_view(filter_ref);
    let mut rs: Vec<BokehObject> = Vec::new();
    proof {
        assert(objects_view(rs@) =~= Seq::<ModelValue>::empty());
    }
    for i in 0..n
        invariant
            n == order@.len(),
            strs(order@) == unique_in_order(cats),
            cats == strs(cv@),
            cv@.len() == vv@.len(),
            n <= cv@.len(),
            shapes_fit(cats, vv@, shapes@),
            (cfg.palette is Some || cfg.color is None) ==> palette@.len() >= n,
            y_grid@.len() == KDE_GRID_POINTS,
            colors == density_colors(*cfg, strs(palette@), n as nat),
            fv == opt_value_view(filter_ref),
            kr + 16 * cv@.len() <= u64::MAX,
            id_gen@ == kr + ids_upto(i as nat, *cfg, cats, vv@),
            objects_view(rs@) == renderers_upto(kr, i as nat, *cfg, cats, vv@, shapes@, y_grid@, colors, fv),
    {
        proof {
            lemma_ids_bound(i as nat, *cfg, cats, vv@);
            assert(unique_in_order(cats)[i as int] == order@[i as int]@);
        }
        let group = group_of(&cv, &vv, &order[i]);
        let color = color_at(cfg, palette, i);
        proof {
            assert(color@ == colors[i as int]);
        }
        category(id_gen, cfg, &order[i], &group, &shapes[i], y_grid, color, &filter_ref, &mut rs);
    }
    let ghost rv = objects_view(rs@);
    add_renderers(&mut figure, rs);
    set_axis_labels(&mut figure, "", cfg.y_label.as_str());
    Ok(figure)
}


/// The renderers of the first `m` categories begin with those of the first
/// `i`, followed by those of category `i` drawn in colour `i`.
proof fn lemma_category_renderers_in_place(
    k: nat,
    m: nat,
    i: nat,
    cfg: DensityConfig,
    cats: Seq<Seq<char>>,
    vals: Seq<u64>,
    shapes: Seq<DensityShape>,
    grid: Seq<u64>,
    colors: Seq<Seq<char>>,
    filter: Option<ModelValue>,
)
    requires
        i < m,
    ensures
        ({
            let l = renderers_upto(k, i, cfg, cats, vals, shapes, grid, colors, filter).len();
            let c = unique_in_order(cats)[i as int];
            let rs = category_renderers(k + ids_upto(i, cfg, cats, vals), cfg, c, group_values(cats, vals, c),
                shapes[i as int], grid, colors[i as int], filter);
            let all = renderers_upto(k, m, cfg, cats, vals, shapes, grid, colors, filter);
            &&& l + rs.len() <= all.len()
            &&& all.subrange(l as int, (l + rs.len()) as int) == rs
        }),
    decreases m,
{
    let l = renderers_upto(k, i, cfg, cats, vals, shapes, grid, colors, filter).len();
    let c = unique_in_order(cats)[i as int];
    let rs = category_renderers(k + ids_upto(i, cfg, cats, vals), cfg, c, group_values(cats, vals, c),
        shapes[i as int], grid, colors[i as int], filter);
    let all = renderers_upto(k, m, cfg, cats, vals, shapes, grid, colors, filter);
    if m == i + 1 {
        assert(all.subrange(l as int, (l + rs.len()) as int) =~= rs);
    } else {
        lemma_category_renderers_in_place(k, (m - 1) as nat, i, cfg, cats, vals, shapes, grid, colors, filter);
        let prev = renderers_upto(k, (m - 1) as nat, cfg, cats, vals, shapes, grid, colors, filter);
        assert(all.subrange(l as int, (l + rs.len()) as int) =~= prev.subrange(l as int, (l + rs.len()) as int));
    }
}

/// Whether a renderer draws category `cat`: every x position of its data
/// source is a point `[cat, offset]` on the category axis.
pub open spec fn draws_category(r: ModelObject, cat: Seq<char>) -> bool {
    let xs = r.attrs[0].1->Object_0.attrs[2].1->Entries_0[0].1->Array_0;
    &&& r.attrs[0].0 == "data_source"@
    &&& forall|j: int| 0 <= j < xs.len() ==> (#[trigger] xs[j])->Array_0[0] == mstr(cat)
}

/// Whether a renderer's data source plots exactly `vals` as its y values,
/// in order.
pub open spec fn plots_values(r: ModelObject, vals: Seq<u64>) -> bool {
    let ys = r.attrs[0].1->Object_0.attrs[2].1->Entries_0[1].1->Array_0;
    &&& ys.len() == vals.len()
    &&& forall|j: int| 0 <= j < vals.len() ==> #[trigger] ys[j] == ModelValue::Float(vals[j])
}

/// The first renderer of a category fills its glyph with the category's colour.
proof fn lemma_first_renderer_colour(
    k: nat,
    cfg: DensityConfig,
    cat: Seq<char>,
    group: Seq<u64>,
    shape: DensityShape,
    grid: Seq<u64>,
    color: Seq<char>,
    filter: Option<ModelValue>,
)
    ensures
        ({
            let rs = category_renderers(k, cfg, cat, group, shape, grid, color, filter);
            let g = rs[0]->Object_0.attrs[2].1->Object_0;
            &&& rs.len() >= 1
            &&& rs[0]->Object_0.attrs[2].0 == "glyph"@
            &&& g.name == (if group.len() <= density_threshold(cfg) { "Scatter"@ } else { "Patch"@ })
            &&& exists|a: int| 0 <= a < g.attrs.len() && #[trigger] g.attrs[a] == ("fill_color"@, str_value(color))
            &&& draws_category(*rs[0]->Object_0, cat)
            &&& group.len() <= density_threshold(cfg) ==> plots_values(*rs[0]->Object_0, group)
        }),
{
    let r = category_renderers(k, cfg, cat, group, shape, grid, color, filter)[0]->Object_0;
    let xs = r.attrs[0].1->Object_0.attrs[2].1->Entries_0[0].1->Array_0;
    assert forall|j: int| 0 <= j < xs.len() implies (#[trigger] xs[j])->Array_0[0] == mstr(cat) by {
        if group.len() > density_threshold(cfg) && j >= KDE_GRID_POINTS {
            assert(xs[j] == offset_point(cat, shape.left@[KDE_GRID_POINTS - 1 - (j - KDE_GRID_POINTS)]));
        }
    }
    let rs = category_renderers(k, cfg, cat, group, shape, grid, color, filter);
    let g = rs[0]->Object_0.attrs[2].1->Object_0;
    if group.len() <= density_threshold(cfg) {
        assert(g.attrs[3] == ("fill_color"@, str_value(color)));
    } else {
        assert(g.attrs[2] == ("fill_color"@, str_value(color)));
    }
}

/// Each category is drawn in its own colour of the palette: in a density
/// chart over the categories of `cats` (taken in first-seen order), the
/// first renderer of category `i` (the one right after those of the
/// categories before it) fills its glyph with the palette's colour `i`, or
/// with the configured single colour when one is set and no palette is; it
/// draws points (sina) when the category has at most `point_threshold`
/// values (50 unless set), plotting exactly that category's values in row
/// order, and the violin outline otherwise; either way at the category's
/// place on the x axis.
#[verifier::rlimit(40)]
pub proof fn law_density_category_drawn_in_its_colour(
    k: nat,
    i: nat,
    cfg: DensityConfig,
    cats: Seq<Seq<char>>,
    vals: Seq<u64>,
    palette: Seq<Seq<char>>,
    shapes: Seq<DensityShape>,
    grid: Seq<u64>,
    filter: Option<ModelValue>,
)
    requires
        i < unique_in_order(cats).len(),
    ensures
        ({
            let n = unique_in_order(cats).len();
            let colors = density_colors(cfg, palette, n);
            let l = renderers_upto(k, i, cfg, cats, vals, shapes, grid, colors, filter).len();
            let all = renderers_upto(k, n, cfg, cats, vals, shapes, grid, colors, filter);
            let g = all[l as int]->Object_0.attrs[2].1->Object_0;
            let expected = if cfg.palette is None && cfg.color is Some { cfg.color->Some_0@ } else { palette[i as int] };
            let group = group_values(cats, vals, unique_in_order(cats)[i as int]);
            let threshold = match cfg.point_threshold {
                Some(t) => t as nat,
                None => 50nat,
            };
            &&& l < all.len()
            &&& all[l as int]->Object_0.attrs[2].0 == "glyph"@
            &&& g.name == (if group.len() <= threshold { "Scatter"@ } else { "Patch"@ })
            &&& exists|a: int| 0 <= a < g.attrs.len() && #[trigger] g.attrs[a] == ("fill_color"@, str_value(expected))
            &&& draws_category(*all[l as int]->Object_0, unique_in_order(cats)[i as int])
            &&& group.len() <= threshold ==> plots_values(*all[l as int]->Object_0, group)
        }),
{
    let n = unique_in_order(cats).len();
    let colors = density_colors(cfg, palette, n);
    lemma_category_renderers_in_place(k, n, i, cfg, cats, vals, shapes, grid, colors, filter);
    let l = renderers_upto(k, i, cfg, cats, vals, shapes, grid, colors, filter).len();
    let c = unique_in_order(cats)[i as int];
    let rs = category_renderers(k + ids_upto(i, cfg, cats, vals), cfg, c, group_values(cats, vals, c),
        shapes[i as int], grid, colors[i as int], filter);
    let all = renderers_upto(k, n, cfg, cats, vals, shapes, grid, colors, filter);
    assert(all[l as int] == all.subrange(l as int, (l + rs.len()) as int)[0]);
    lemma_first_renderer_colour(k + ids_upto(i, cfg, cats, vals), cfg, c, group_values(cats, vals, c),
        shapes[i as int], grid, colors[i as int], filter);
    let expected = if cfg.palette is None && cfg.color is Some { cfg.color->Some_0@ } else { palette[i as int] };
    assert(colors[i as int] == expected);
    let threshold = match cfg.point_threshold {
        Some(t) => t as nat,
        None => 50nat,
    };
    assert(threshold == density_threshold(cfg));
}


/// In the density figure itself (when there is a number to draw), the
/// renderer list holds, right after the renderers of the first `i`
/// categories, a renderer drawing category `i` filled with its own colour: the
/// palette's colour `i`, or the configured single colour when one is set
/// and no palette is.
pub proof fn law_density_figure_draws_each_category_in_its_colour(
    k: nat,
    i: nat,
    spec: ChartSpec,
    cfg: DensityConfig,
    x_range: ModelValue,
    y_range: ModelValue,
    cats: Seq<Seq<char>>,
    vals: Seq<u64>,
    palette: Seq<Seq<char>>,
    shapes: Seq<DensityShape>,
    grid: Seq<u64>,
    filter: Option<ModelValue>,
)
    requires
        i < unique_in_order(cats).len(),
        has_number(vals),
    ensures
        ({
            let f = density_figure(k, spec, cfg, x_range, y_range, cats, vals, palette, shapes, grid, filter);
            let slot = f.attrs[(crate::chart_figure::size_attrs(chart_height(spec), spec.width).len() + 5) as int];
            let kr = k + 1 + figure_ids(density_x_plan(), density_y_plan(cfg));
            let n = unique_in_order(cats).len();
            let l = renderers_upto(kr, i, cfg, cats, vals, shapes, grid, density_colors(cfg, palette, n), filter).len();
            let g = slot.1->Array_0[l as int]->Object_0.attrs[2].1->Object_0;
            let expected = if cfg.palette is None && cfg.color is Some { cfg.color->Some_0@ } else { palette[i as int] };
            &&& slot.0 == "renderers"@
            &&& l < slot.1->Array_0.len()
            &&& exists|a: int| 0 <= a < g.attrs.len() && #[trigger] g.attrs[a] == ("fill_color"@, str_value(expected))
            &&& draws_category(*slot.1->Array_0[l as int]->Object_0, unique_in_order(cats)[i as int])
        }),
{
    let n = unique_in_order(cats).len();
    let colors = density_colors(cfg, palette, n);
    let kr = k + 1 + figure_ids(density_x_plan(), density_y_plan(cfg));
    let rs = renderers_upto(kr, n, cfg, cats, vals, shapes, grid, colors, filter);
    let fig = figure_model(k + 1, spec.title@, chart_height(spec), spec.width, x_range, y_range, density_x_plan(),
        density_y_plan(cfg), Some(density_hover(k, cfg)));
    crate::histogram::lemma_finished_renderers(k + 1, spec.title@, chart_height(spec), spec.width, x_range, y_range,
        density_x_plan(), density_y_plan(cfg), Some(density_hover(k, cfg)), rs, ""@, cfg.y_label@);
    assert(density_figure(k, spec, cfg, x_range, y_range, cats, vals, palette, shapes, grid, filter)
        == crate::histogram::finish_figure(fig, rs, ""@, cfg.y_label@));
    law_density_category_drawn_in_its_colour(kr, i, cfg, cats, vals, palette, shapes, grid, filter);
}

} // verus!
