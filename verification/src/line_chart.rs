//! The multi-line chart: for each y column a line and its point markers,
//! coloured from the palette, with a legend entry toggling both.
//!
//! The caller hands in the frame's columns for the data source, says
//! whether the x column holds text (a categorical x axis), resolves the
//! palette for the number of y columns, and builds the two ranges (the x
//! range is the range tool's range, by reference, when one is attached;
//! else a factor range over the x values when they are text).

use vstd::prelude::*;
use crate::axis::{AxisBuilder, AxisType, copy_config};
use crate::chart_config::{ChartSpec, LineConfig};
use crate::chart_figure::{AxisPlan, build_figure, figure_ids, figure_model, plan_of};
use crate::chart_helpers::{
    add_legend, add_renderers, append_to_list, col_ref, default_tooltips, formatter_pairs, label_attr,
    make_hover_tool, objects_view, set_axis_labels, tooltip_pairs,
};
use crate::figure::{hover_tool_model, opt_value_view};
use crate::histogram::chart_height;
use crate::id_gen::{IdGen, id_for};
use crate::model::{BokehObject, BokehValue, ModelObject, ModelValue, lemma_view_values_push, mobj, mstr, mval,
    view_attrs, view_values};
use crate::renderers::{build_line_series, line_series_model};
use crate::source::{build_source, source_model};
use crate::text::strs;

verus! {

/// Bit patterns of the `f64` numbers 2.5 and 7.0, the default line width
/// and point size.
pub const F64_LINE_WIDTH: u64 = 0x4004_0000_0000_0000;
pub const F64_POINT_SIZE: u64 = 0x401C_0000_0000_0000;

/// The line width; 2.5 unless set.
pub open spec fn line_width(cfg: LineConfig) -> u64 {
    match cfg.line_width {
        Some(w) => w,
        None => F64_LINE_WIDTH,
    }
}

/// The point size; 7.0 unless set.
pub open spec fn point_size(cfg: LineConfig) -> u64 {
    match cfg.point_size {
        Some(s) => s,
        None => F64_POINT_SIZE,
    }
}

/// The x axis: a datetime axis when its settings give a time scale, else a
/// categorical one when the x values are text, else a linear one.
pub open spec fn line_x_plan(cfg: LineConfig, x_is_text: bool) -> AxisPlan {
    let t = if cfg.x_axis matches Some(a) && a.time_scale is Some {
        AxisType::Datetime
    } else if x_is_text {
        AxisType::Categorical
    } else {
        AxisType::Linear
    };
    plan_of(AxisBuilder { axis_type: t, format: cfg.x_axis, dimension: 0 })
}

/// The linear y axis with the configured settings.
pub open spec fn line_y_plan(cfg: LineConfig) -> AxisPlan {
    plan_of(AxisBuilder { axis_type: AxisType::Linear, format: cfg.y_axis, dimension: 1 })
}

/// The hover tool at counter `k`: the configured tooltips, else the x
/// column and each y column.
pub open spec fn line_hover(k: nat, cfg: LineConfig) -> ModelObject {
    match cfg.tooltips {
        Some(t) => hover_tool_model(k, tooltip_pairs(t@), formatter_pairs(t@)),
        None => hover_tool_model(k, seq![(cfg.x_col@, col_ref(cfg.x_col@))] + strs(cfg.y_cols@).map_values(
            |c: Seq<char>| (c, col_ref(c)),
        ), Seq::empty()),
    }
}

/// Series `i` of a line chart whose data source was built at counter `kc`.
pub open spec fn series_at(
    kc: nat,
    i: nat,
    cfg: LineConfig,
    data: Seq<(Seq<char>, ModelValue)>,
    colors: Seq<Seq<char>>,
    filter: Option<ModelValue>,
) -> (ModelObject, ModelObject, ModelValue) {
    let src = if i == 0 { mval(source_model(kc, data)) } else { ModelValue::Ref(id_for(kc)) };
    line_series_model(kc + 3 + 11 * i, cfg.x_col@, cfg.y_cols@[i as int]@, colors[i as int], line_width(cfg),
        point_size(cfg), src, ModelValue::Ref(id_for(kc)), filter)
}

/// The renderers of the first `m` series: each line, then its markers.
pub open spec fn series_renderers(
    kc: nat,
    m: nat,
    cfg: LineConfig,
    data: Seq<(Seq<char>, ModelValue)>,
    colors: Seq<Seq<char>>,
    filter: Option<ModelValue>,
) -> Seq<ModelValue>
    decreases m,
{
    if m == 0 {
        Seq::empty()
    } else {
        let s = series_at(kc, (m - 1) as nat, cfg, data, colors, filter);
        series_renderers(kc, (m - 1) as nat, cfg, data, colors, filter) + seq![mval(s.0), mval(s.1)]
    }
}

/// The legend entries of the first `m` series.
pub open spec fn series_items(
    kc: nat,
    m: nat,
    cfg: LineConfig,
    data: Seq<(Seq<char>, ModelValue)>,
    colors: Seq<Seq<char>>,
    filter: Option<ModelValue>,
) -> Seq<ModelValue>
    decreases m,
{
    if m == 0 {
        Seq::empty()
    } else {
        series_items(kc, (m - 1) as nat, cfg, data, colors, filter).push(
            series_at(kc, (m - 1) as nat, cfg, data, colors, filter).2,
        )
    }
}

/// The ids a line chart takes.
pub open spec fn line_ids(cfg: LineConfig, x_is_text: bool) -> nat {
    1 + figure_ids(line_x_plan(cfg, x_is_text), line_y_plan(cfg)) + 3 + 11 * cfg.y_cols@.len() + 1
}

/// The line figure built at counter `k` over the frame's columns `data`:
/// the hover tool at `k`, the figure from `k + 1`, the data source, each y
/// column's series, and the legend; the x axis is unlabelled.
pub open spec fn line_figure(
    k: nat,
    spec: ChartSpec,
    cfg: LineConfig,
    x_is_text: bool,
    x_range: ModelValue,
    y_range: ModelValue,
    data: Seq<(Seq<char>, ModelValue)>,
    colors: Seq<Seq<char>>,
    filter: Option<ModelValue>,
) -> ModelObject {
    let xp = line_x_plan(cfg, x_is_text);
    let fig = figure_model(k + 1, spec.title@, chart_height(spec), spec.width, x_range, y_range, xp,
        line_y_plan(cfg), Some(line_hover(k, cfg)));
    let kc = k + 1 + figure_ids(xp, line_y_plan(cfg));
    let n = cfg.y_cols@.len();
    let legend = mobj("Legend"@, id_for(kc + 3 + 11 * n), seq![
        ("items"@, ModelValue::Array(series_items(kc, n, cfg, data, colors, filter))),
        ("location"@, mstr("top_right"@)),
        ("click_policy"@, mstr("hide"@)),
    ]);
    let f1 = mobj(fig.name, fig.id, append_to_list(fig.attrs, "renderers"@,
        series_renderers(kc, n, cfg, data, colors, filter)));
    let f2 = mobj(f1.name, f1.id, append_to_list(f1.attrs, "center"@, seq![mval(legend)]));
    mobj(f2.name, f2.id, f2.attrs.map_values(|a: (Seq<char>, ModelValue)| label_attr(a, ""@, cfg.y_label@)))
}

/// Build a multi-line chart: for each y column, in order, a line through
/// its values and circle markers at them, in the palette's colour for that
/// column, and a legend entry toggling both. The first series carries the
/// data source inline; the others refer to it by id.
#[verifier::rlimit(80)]
pub fn build_line(
    id_gen: &mut IdGen,
    spec: &ChartSpec,
    cfg: &LineConfig,
    data: Vec<(String, BokehValue)>,
    x_is_text: bool,
    colors: &Vec<String>,
    x_range: BokehValue,
    y_range: BokehValue,
    filter_ref: Option<BokehValue>,
) -> (r: BokehObject)
    requires
        colors@.len() >= cfg.y_cols@.len(),
        old(id_gen).can_issue(40 + 11 * cfg.y_cols@.len()),
    ensures
        final(id_gen)@ == old(id_gen)@ + line_ids(*cfg, x_is_text),
        r@ == line_figure(old(id_gen)@, *spec, *cfg, x_is_text, x_range@, y_range@, view_attrs(data@),
            strs(colors@), opt_value_view(filter_ref)),
{
    let ghost k = id_gen@;
    let ghost dv = view_attrs(data@);
    let ghost fv = opt_value_view(filter_ref);
    let mut cols: Vec<&str> = Vec::new();
    cols.push(cfg.x_col.as_str());
    let ny = cfg.y_cols.len();
    for i in 0..ny
        invariant
            ny == cfg.y_cols@.len(),
            cols@.len() == i + 1,
            cols@[0]@ == cfg.x_col@,
            forall|j: int| 0 <= j < i ==> (#[trigger] cols@[j + 1])@ == cfg.y_cols@[j]@,
    {
        cols.push(cfg.y_cols[i].as_str());
    }
    let tips = match &cfg.tooltips {
        Some(t) => Some(t),
        None => None,
    };
    let ht = make_hover_tool(id_gen, tips, cols.as_slice());
    proof {
        assert(default_tooltips(cols@) =~= seq![(cfg.x_col@, col_ref(cfg.x_col@))] + strs(cfg.y_cols@).map_values(
            |c: Seq<char>| (c, col_ref(c)),
        )) by {
            assert forall|j: int| 1 <= j < cols@.len() implies cols@[j]@ == cfg.y_cols@[j - 1]@ by {
                assert(cols@[(j - 1) + 1]@ == cfg.y_cols@[j - 1]@);
            }
        }
        assert(ht@ == line_hover(k, *cfg));
    }
    let is_datetime = match &cfg.x_axis {
        Some(a) => a.time_scale.is_some(),
        None => false,
    };
    let x_type = if is_datetime {
        AxisType::Datetime
    } else if x_is_text {
        AxisType::Categorical
    } else {
        AxisType::Linear
    };
    let height: u32 = match spec.height {
        Some(h) => h,
        None => 400,
    };
    let out = build_figure(
        id_gen,
        spec.title.as_str(),
        height,
        spec.width,
        x_range,
        String::new(),
        y_range,
        String::new(),
        AxisBuilder::x(x_type).config(copy_config(&cfg.x_axis)),
        AxisBuilder::y(AxisType::Linear).config(copy_config(&cfg.y_axis)),
        Some(ht),
    );
    let mut figure = out.figure;
    let ghost kc = id_gen@;
    let cds = build_source(id_gen, data);
    let cds_id = cds.id.clone();
    let cds_value = cds.into_value();
    let width: u64 = match cfg.line_width {
        Some(w) => w,
        None => F64_LINE_WIDTH,
    };
    let size: u64 = match cfg.point_size {
        Some(s) => s,
        None => F64_POINT_SIZE,
    };
    let mut rs: Vec<BokehObject> = Vec::new();
    let mut items: Vec<BokehValue> = Vec::new();
    proof {
        assert(objects_view(rs@) =~= Seq::<ModelValue>::empty());
        assert(view_values(items@) =~= Seq::<ModelValue>::empty());
    }
    for i in 0..ny
        invariant
            ny == cfg.y_cols@.len(),
            colors@.len() >= ny,
            kc + 3 + 11 * ny + 1 <= u64::MAX,
            id_gen@ == kc + 3 + 11 * i,
            cds_id@ == id_for(kc),
            cds_value@ == mval(source_model(kc, dv)),
            fv == opt_value_view(filter_ref),
            width == line_width(*cfg),
            size == point_size(*cfg),
            objects_view(rs@) == series_renderers(kc, i as nat, *cfg, dv, strs(colors@), fv),
            view_values(items@) == series_items(kc, i as nat, *cfg, dv, strs(colors@), fv),
    {
        let src = if i == 0 { cds_value.clone() } else { BokehValue::ref_of(cds_id.as_str()) };
        let filter = match &filter_ref {
            Some(f) => Some(f.clone()),
            None => None,
        };
        let (line_r, circle_r, item) = build_line_series(
            id_gen,
            cfg.x_col.as_str(),
            cfg.y_cols[i].as_str(),
            colors[i].as_str(),
            width,
            size,
            src,
            BokehValue::ref_of(cds_id.as_str()),
            filter,
        );
        let ghost s = series_at(kc, i as nat, *cfg, dv, strs(colors@), fv);
        proof {
            assert(strs(colors@)[i as int] == colors@[i as int]@);
            assert((line_r@, circle_r@, item@) == s);
            lemma_view_values_push(items@, item);
        }
        let ghost r0 = rs@;
        rs.push(line_r);
        rs.push(circle_r);
        items.push(item);
        proof {
            assert(objects_view(rs@) =~= objects_view(r0) + seq![mval(s.0), mval(s.1)]);
        }
    }
    let ghost items_v = view_values(items@);
    let legend = BokehObject::new("Legend", id_gen.next())
        .attr("items", BokehValue::Array(items))
        .attr("location", BokehValue::Str(String::from_str("top_right")))
        .attr("click_policy", BokehValue::Str(String::from_str("hide")));
    let ghost iv = items_v;
    proof {
        assert(legend@.attrs =~= seq![
            ("items"@, ModelValue::Array(iv)),
            ("location"@, mstr("top_right"@)),
            ("click_policy"@, mstr("hide"@)),
        ]);
        assert(legend@.id == id_for(kc + 3 + 11 * cfg.y_cols@.len()));
    }
    add_renderers(&mut figure, rs);
    add_legend(&mut figure, legend);
    set_axis_labels(&mut figure, "", cfg.y_label.as_str());
    figure
}

} // verus!
