//! Glyph renderers of the chart types: the line and marker series of line
//! charts, the bars of grouped bar charts, the boxes of box plots and the
//! slices of pie charts.

use vstd::prelude::*;
use crate::chart_parts::{num_value, F64_TENTH};
use crate::figure::{build_glyph_renderer, glyph_renderer_model, opt_value_view};
use crate::id_gen::{IdGen, id_for};
use crate::model::{
    BokehObject, BokehValue, ModelObject, ModelValue, lemma_view_values_index, mobj, mstr, mval, view_values,
};

verus! {

/// Bit pattern of the `f64` number 0.
pub const F64_ZERO: u64 = 0x0000_0000_0000_0000;
/// Bit pattern of the `f64` number 0.3.
pub const F64_THREE_TENTHS: u64 = 0x3FD3_3333_3333_3333;
/// Bit pattern of the `f64` number 0.6, the width of a box-plot box.
pub const F64_BOX_WIDTH: u64 = 0x3FE3_3333_3333_3333;

/// A literal string wrapper.
pub open spec fn str_value(s: Seq<char>) -> ModelValue {
    ModelValue::Value(Box::new(mstr(s)))
}

// ── Line series ──────────────────────────────────────────────────────────────

/// The line glyph of a series, id `k`.
pub open spec fn line_glyph_model(k: nat, x: Seq<char>, y: Seq<char>, color: Seq<char>, width: u64) -> ModelObject {
    mobj("Line"@, id_for(k), seq![
        ("x"@, ModelValue::Field(x)),
        ("y"@, ModelValue::Field(y)),
        ("line_color"@, str_value(color)),
        ("line_width"@, num_value(width)),
    ])
}

/// The faded line glyph (alpha 0.1) of a series, id `k`.
pub open spec fn line_nonsel_model(k: nat, x: Seq<char>, y: Seq<char>, color: Seq<char>, width: u64) -> ModelObject {
    mobj("Line"@, id_for(k), seq![
        ("x"@, ModelValue::Field(x)),
        ("y"@, ModelValue::Field(y)),
        ("line_color"@, str_value(color)),
        ("line_alpha"@, num_value(F64_TENTH)),
        ("line_width"@, num_value(width)),
    ])
}

/// The circle markers of a series, id `k`.
pub open spec fn circle_glyph_model(k: nat, x: Seq<char>, y: Seq<char>, color: Seq<char>, size: u64) -> ModelObject {
    mobj("Scatter"@, id_for(k), seq![
        ("x"@, ModelValue::Field(x)),
        ("y"@, ModelValue::Field(y)),
        ("size"@, num_value(size)),
        ("fill_color"@, str_value(color)),
        ("line_color"@, str_value("white"@)),
        ("marker"@, str_value("circle"@)),
    ])
}

/// The faded circle markers (fill alpha 0.1) of a series, id `k`.
pub open spec fn circle_nonsel_model(k: nat, x: Seq<char>, y: Seq<char>, color: Seq<char>, size: u64) -> ModelObject {
    mobj("Scatter"@, id_for(k), seq![
        ("x"@, ModelValue::Field(x)),
        ("y"@, ModelValue::Field(y)),
        ("size"@, num_value(size)),
        ("fill_color"@, str_value(color)),
        ("fill_alpha"@, num_value(F64_TENTH)),
        ("line_color"@, str_value("white"@)),
        ("marker"@, str_value("circle"@)),
    ])
}

/// The three parts of a line series built at counter `k`: the line
/// renderer (glyphs `k`, `k + 1`, renderer id `k + 4`), the circle renderer
/// (glyphs `k + 5`, `k + 6`, renderer id `k + 9`), and the legend entry
/// `k + 10` labelled with the y column and standing for both renderers.
pub open spec fn line_series_model(
    k: nat,
    x: Seq<char>,
    y: Seq<char>,
    color: Seq<char>,
    width: u64,
    size: u64,
    line_src: ModelValue,
    circle_src: ModelValue,
    filter: Option<ModelValue>,
) -> (ModelObject, ModelObject, ModelValue) {
    (
        glyph_renderer_model(k + 2, line_src, line_glyph_model(k, x, y, color, width),
            Some(line_nonsel_model(k + 1, x, y, color, width)), filter),
        glyph_renderer_model(k + 7, circle_src, circle_glyph_model(k + 5, x, y, color, size),
            Some(circle_nonsel_model(k + 6, x, y, color, size)), filter),
        mval(mobj("LegendItem"@, id_for(k + 10), seq![
            ("label"@, str_value(y)),
            ("renderers"@, ModelValue::Array(seq![ModelValue::Ref(id_for(k + 4)), ModelValue::Ref(id_for(k + 9))])),
        ])),
    )
}

fn copy_filter(f: &Option<BokehValue>) -> (r: Option<BokehValue>)
    ensures
        opt_value_view(r) == opt_value_view(*f),
{
    match f {
        Some(v) => Some(v.clone()),
        None => None,
    }
}

/// One y column of a line chart: a line renderer, a circle-marker renderer
/// (both in `color`, faded when unselected) and the legend entry that
/// toggles both. `line_width` and `point_size` are `f64` bit patterns.
pub fn build_line_series(
    id_gen: &mut IdGen,
    x_col: &str,
    y_col: &str,
    color: &str,
    line_width: u64,
    point_size: u64,
    line_cds_ref: BokehValue,
    circle_cds_ref: BokehValue,
    filter_ref: Option<BokehValue>,
) -> (r: (BokehObject, BokehObject, BokehValue))
    requires
        old(id_gen).can_issue(11),
    ensures
        final(id_gen)@ == old(id_gen)@ + 11,
        (r.0@, r.1@, r.2@) == line_series_model(old(id_gen)@, x_col@, y_col@, color@, line_width, point_size,
            line_cds_ref@, circle_cds_ref@, opt_value_view(filter_ref)),
{
    let ghost k = id_gen@;
    let ghost fv = opt_value_view(filter_ref);
    let line_glyph = BokehObject::new("Line", id_gen.next())
        .attr("x", BokehValue::field(x_col))
        .attr("y", BokehValue::field(y_col))
        .attr("line_color", BokehValue::value_of(BokehValue::Str(String::from_str(color))))
        .attr("line_width", BokehValue::value_of(BokehValue::Float(line_width)));
    let line_nonsel = BokehObject::new("Line", id_gen.next())
        .attr("x", BokehValue::field(x_col))
        .attr("y", BokehValue::field(y_col))
        .attr("line_color", BokehValue::value_of(BokehValue::Str(String::from_str(color))))
        .attr("line_alpha", BokehValue::value_of(BokehValue::Float(F64_TENTH)))
        .attr("line_width", BokehValue::value_of(BokehValue::Float(line_width)));
    proof {
        assert(line_glyph@.attrs =~= line_glyph_model(k, x_col@, y_col@, color@, line_width).attrs);
        assert(line_nonsel@.attrs =~= line_nonsel_model(k + 1, x_col@, y_col@, color@, line_width).attrs);
    }
    let f1 = copy_filter(&filter_ref);
    let line_renderer = build_glyph_renderer(id_gen, line_cds_ref, line_glyph, Some(line_nonsel), f1);
    let line_renderer_id = line_renderer.id.clone();

    let circle_glyph = BokehObject::new("Scatter", id_gen.next())
        .attr("x", BokehValue::field(x_col))
        .attr("y", BokehValue::field(y_col))
        .attr("size", BokehValue::value_of(BokehValue::Float(point_size)))
        .attr("fill_color", BokehValue::value_of(BokehValue::Str(String::from_str(color))))
        .attr("line_color", BokehValue::value_of(BokehValue::Str(String::from_str("white"))))
        .attr("marker", BokehValue::value_of(BokehValue::Str(String::from_str("circle"))));
    let circle_nonsel = BokehObject::new("Scatter", id_gen.next())
        .attr("x", BokehValue::field(x_col))
        .attr("y", BokehValue::field(y_col))
        .attr("size", BokehValue::value_of(BokehValue::Float(point_size)))
        .attr("fill_color", BokehValue::value_of(BokehValue::Str(String::from_str(color))))
        .attr("fill_alpha", BokehValue::value_of(BokehValue::Float(F64_TENTH)))
        .attr("line_color", BokehValue::value_of(BokehValue::Str(String::from_str("white"))))
        .attr("marker", BokehValue::value_of(BokehValue::Str(String::from_str("circle"))));
    proof {
        assert(circle_glyph@.attrs =~= circle_glyph_model((k + 5) as nat, x_col@, y_col@, color@, point_size).attrs);
        assert(circle_nonsel@.attrs =~= circle_nonsel_model((k + 6) as nat, x_col@, y_col@, color@, point_size).attrs);
    }
    let circle_renderer = build_glyph_renderer(id_gen, circle_cds_ref, circle_glyph, Some(circle_nonsel), filter_ref);
    let circle_renderer_id = circle_renderer.id.clone();

    let refs = vec![BokehValue::ref_of(line_renderer_id.as_str()), BokehValue::ref_of(circle_renderer_id.as_str())];
    proof {
        lemma_view_values_index(refs@);
        assert(view_values(refs@) =~= seq![ModelValue::Ref(id_for(k + 4)), ModelValue::Ref(id_for(k + 9))]);
    }
    let item = BokehObject::new("LegendItem", id_gen.next())
        .attr("label", BokehValue::value_of(BokehValue::Str(String::from_str(y_col))))
        .attr("renderers", BokehValue::Array(refs));
    let ghost lm = line_series_model(k, x_col@, y_col@, color@, line_width, point_size,
        line_cds_ref@, circle_cds_ref@, fv);
    proof {
        assert(item@.attrs =~= lm.2->Object_0.attrs);
    }
    (line_renderer, circle_renderer, item.into_value())
}

// ── Grouped bars ─────────────────────────────────────────────────────────────

/// A vertical bar glyph with id `k`, filled from the `_fill_color` column;
/// the faded one (fill alpha 0.1) when `faded`.
pub open spec fn bar_glyph_model(k: nat, factor: Seq<char>, value: Seq<char>, width: u64, faded: bool) -> ModelObject {
    let head = seq![
        ("x"@, ModelValue::Field(factor)),
        ("top"@, ModelValue::Field(value)),
        ("bottom"@, num_value(F64_ZERO)),
        ("width"@, num_value(width)),
        ("fill_color"@, ModelValue::Field("_fill_color"@)),
    ];
    mobj("VBar"@, id_for(k), if faded {
        head + seq![("fill_alpha"@, num_value(F64_TENTH)), ("line_color"@, str_value("white"@))]
    } else {
        head + seq![("line_color"@, str_value("white"@))]
    })
}

/// The bar renderer built at counter `k`: glyphs `k` and `k + 1`, renderer
/// id `k + 4`, drawing from the data source given inline.
pub open spec fn bar_renderer_model(k: nat, cds: ModelObject, factor: Seq<char>, value: Seq<char>, width: u64, filter: Option<ModelValue>) -> ModelObject {
    glyph_renderer_model(k + 2, mval(cds), bar_glyph_model(k, factor, value, width, false),
        Some(bar_glyph_model(k + 1, factor, value, width, true)), filter)
}

fn bar_glyph(id_gen: &mut IdGen, factor_col: &str, value_col: &str, bar_width: u64, faded: bool) -> (r: BokehObject)
    requires
        old(id_gen).can_issue(1),
    ensures
        final(id_gen)@ == old(id_gen)@ + 1,
        r@ == bar_glyph_model(old(id_gen)@, factor_col@, value_col@, bar_width, faded),
{
    let mut g = BokehObject::new("VBar", id_gen.next())
        .attr("x", BokehValue::field(factor_col))
        .attr("top", BokehValue::field(value_col))
        .attr("bottom", BokehValue::value_of(BokehValue::Float(F64_ZERO)))
        .attr("width", BokehValue::value_of(BokehValue::Float(bar_width)))
        .attr("fill_color", BokehValue::field("_fill_color"));
    if faded {
        g = g.attr("fill_alpha", BokehValue::value_of(BokehValue::Float(F64_TENTH)));
    }
    let g = g.attr("line_color", BokehValue::value_of(BokehValue::Str(String::from_str("white"))));
    proof {
        assert(g@.attrs =~= bar_glyph_model(old(id_gen)@, factor_col@, value_col@, bar_width, faded).attrs);
    }
    g
}

/// The renderer of one group of a grouped bar chart: vertical bars at the
/// factors of `factor_col`, as tall as `value_col`, `bar_width` wide (an
/// `f64` bit pattern), coloured from the `_fill_color` column.
pub fn build_bar_renderer(
    id_gen: &mut IdGen,
    cds: BokehObject,
    factor_col: &str,
    value_col: &str,
    bar_width: u64,
    filter_ref: Option<BokehValue>,
) -> (r: BokehObject)
    requires
        old(id_gen).can_issue(5),
    ensures
        final(id_gen)@ == old(id_gen)@ + 5,
        r@ == bar_renderer_model(old(id_gen)@, cds@, factor_col@, value_col@, bar_width, opt_value_view(filter_ref)),
{
    let glyph = bar_glyph(id_gen, factor_col, value_col, bar_width, false);
    let nonsel = bar_glyph(id_gen, factor_col, value_col, bar_width, true);
    build_glyph_renderer(id_gen, cds.into_value(), glyph, Some(nonsel), filter_ref)
}

// ── Box plot boxes ───────────────────────────────────────────────────────────

/// The box glyph of a box plot with id `k`: from `q1` to `q3`, 0.6 wide,
/// filled from `_fill_color` with `alpha` and outlined in dark grey.
pub open spec fn box_glyph_model(k: nat, category: Seq<char>, alpha: u64) -> ModelObject {
    mobj("VBar"@, id_for(k), seq![
        ("x"@, ModelValue::Field(category)),
        ("top"@, ModelValue::Field("q3"@)),
        ("bottom"@, ModelValue::Field("q1"@)),
        ("width"@, num_value(F64_BOX_WIDTH)),
        ("fill_color"@, ModelValue::Field("_fill_color"@)),
        ("fill_alpha"@, num_value(alpha)),
        ("line_color"@, str_value("#333333"@)),
    ])
}

/// The faded box glyph (fill alpha 0.1) with id `k`.
pub open spec fn box_nonsel_model(k: nat, category: Seq<char>) -> ModelObject {
    mobj("VBar"@, id_for(k), seq![
        ("x"@, ModelValue::Field(category)),
        ("top"@, ModelValue::Field("q3"@)),
        ("bottom"@, ModelValue::Field("q1"@)),
        ("width"@, num_value(F64_BOX_WIDTH)),
        ("fill_color"@, ModelValue::Field("_fill_color"@)),
        ("fill_alpha"@, num_value(F64_TENTH)),
    ])
}

/// The box renderer of a box plot: the interquartile boxes of each
/// category, filled with `alpha` (an `f64` bit pattern).
pub fn build_box_renderer(
    id_gen: &mut IdGen,
    box_cds: BokehObject,
    category_col: &str,
    alpha: u64,
    filter_ref: Option<BokehValue>,
) -> (r: BokehObject)
    requires
        old(id_gen).can_issue(5),
    ensures
        final(id_gen)@ == old(id_gen)@ + 5,
        r@ == glyph_renderer_model(old(id_gen)@ + 2, mval(box_cds@), box_glyph_model(old(id_gen)@, category_col@, alpha),
            Some(box_nonsel_model(old(id_gen)@ + 1, category_col@)), opt_value_view(filter_ref)),
{
    let ghost k = id_gen@;
    let glyph = BokehObject::new("VBar", id_gen.next())
        .attr("x", BokehValue::field(category_col))
        .attr("top", BokehValue::field("q3"))
        .attr("bottom", BokehValue::field("q1"))
        .attr("width", BokehValue::value_of(BokehValue::Float(F64_BOX_WIDTH)))
        .attr("fill_color", BokehValue::field("_fill_color"))
        .attr("fill_alpha", BokehValue::value_of(BokehValue::Float(alpha)))
        .attr("line_color", BokehValue::value_of(BokehValue::Str(String::from_str("#333333"))));
    let nonsel = BokehObject::new("VBar", id_gen.next())
        .attr("x", BokehValue::field(category_col))
        .attr("top", BokehValue::field("q3"))
        .attr("bottom", BokehValue::field("q1"))
        .attr("width", BokehValue::value_of(BokehValue::Float(F64_BOX_WIDTH)))
        .attr("fill_color", BokehValue::field("_fill_color"))
        .attr("fill_alpha", BokehValue::value_of(BokehValue::Float(F64_TENTH)));
    proof {
        assert(glyph@.attrs =~= box_glyph_model(k, category_col@, alpha).attrs);
        assert(nonsel@.attrs =~= box_nonsel_model((k + 1) as nat, category_col@).attrs);
    }
    build_glyph_renderer(id_gen, box_cds.into_value(), glyph, Some(nonsel), filter_ref)
}

// ── Pie slices ───────────────────────────────────────────────────────────────

/// An annular wedge glyph with id `k` centred at the origin, its angles
/// and colour read from the `start_angle`, `end_angle` and `color` columns;
/// the faded one (fill alpha 0.3) when `faded`.
pub open spec fn wedge_model(k: nat, inner: u64, outer: u64, faded: bool) -> ModelObject {
    let head = seq![
        ("x"@, num_value(F64_ZERO)),
        ("y"@, num_value(F64_ZERO)),
        ("outer_radius"@, num_value(outer)),
        ("inner_radius"@, num_value(inner)),
        ("start_angle"@, ModelValue::Field("start_angle"@)),
        ("end_angle"@, ModelValue::Field("end_angle"@)),
        ("fill_color"@, ModelValue::Field("color"@)),
    ];
    mobj("AnnularWedge"@, id_for(k), if faded {
        head + seq![("fill_alpha"@, num_value(F64_THREE_TENTHS)), ("line_color"@, str_value("white"@))]
    } else {
        head + seq![("line_color"@, str_value("white"@))]
    })
}

/// The renderer of pie slice `idx` built at counter `k`: an `IndexFilter`
/// `k` that keeps only row `idx`, the wedge glyphs `k + 1` and `k + 2`, and
/// the renderer `k + 5`.
pub open spec fn slice_renderer_model(k: nat, src: ModelValue, idx: i64, inner: u64, outer: u64) -> ModelObject {
    glyph_renderer_model(k + 3, src, wedge_model(k + 1, inner, outer, false), Some(wedge_model(k + 2, inner, outer, true)),
        Some(mval(mobj("IndexFilter"@, id_for(k), seq![("indices"@, ModelValue::Array(seq![ModelValue::Int(idx)]))]))))
}

fn wedge_glyph(id_gen: &mut IdGen, inner_r: u64, outer_r: u64, faded: bool) -> (r: BokehObject)
    requires
        old(id_gen).can_issue(1),
    ensures
        final(id_gen)@ == old(id_gen)@ + 1,
        r@ == wedge_model(old(id_gen)@, inner_r, outer_r, faded),
{
    let mut g = BokehObject::new("AnnularWedge", id_gen.next())
        .attr("x", BokehValue::value_of(BokehValue::Float(F64_ZERO)))
        .attr("y", BokehValue::value_of(BokehValue::Float(F64_ZERO)))
        .attr("outer_radius", BokehValue::value_of(BokehValue::Float(outer_r)))
        .attr("inner_radius", BokehValue::value_of(BokehValue::Float(inner_r)))
        .attr("start_angle", BokehValue::field("start_angle"))
        .attr("end_angle", BokehValue::field("end_angle"))
        .attr("fill_color", BokehValue::field("color"));
    if faded {
        g = g.attr("fill_alpha", BokehValue::value_of(BokehValue::Float(F64_THREE_TENTHS)));
    }
    let g = g.attr("line_color", BokehValue::value_of(BokehValue::Str(String::from_str("white"))));
    proof {
        assert(g@.attrs =~= wedge_model(old(id_gen)@, inner_r, outer_r, faded).attrs);
    }
    g
}

/// The renderer of one pie slice: the wedge of row `slice_idx` of the
/// data source, between the radii `inner_r` and `outer_r` (`f64` bit
/// patterns), shown through an `IndexFilter` of that row alone.
pub fn build_slice_renderer(
    id_gen: &mut IdGen,
    cds_ref: BokehValue,
    slice_idx: usize,
    inner_r: u64,
    outer_r: u64,
) -> (r: BokehObject)
    requires
        old(id_gen).can_issue(6),
    ensures
        final(id_gen)@ == old(id_gen)@ + 6,
        r@ == slice_renderer_model(old(id_gen)@, cds_ref@, slice_idx as i64, inner_r, outer_r),
{
    let ghost k = id_gen@;
    let indices = vec![BokehValue::Int(slice_idx as i64)];
    proof {
        lemma_view_values_index(indices@);
        assert(view_values(indices@) =~= seq![ModelValue::Int(slice_idx as i64)]);
    }
    let filter = BokehObject::new("IndexFilter", id_gen.next()).attr("indices", BokehValue::Array(indices));
    let glyph = wedge_glyph(id_gen, inner_r, outer_r, false);
    let nonsel = wedge_glyph(id_gen, inner_r, outer_r, true);
    proof {
        assert(filter@.attrs =~= seq![("indices"@, ModelValue::Array(seq![ModelValue::Int(slice_idx as i64)]))]);
    }
    build_glyph_renderer(id_gen, cds_ref, glyph, Some(nonsel), Some(filter.into_value()))
}

} // verus!
