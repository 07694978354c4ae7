//! The grouped vertical bar chart: one bar per row at the factor
//! `(x, group)`, coloured by its group, with a legend of the groups.
//!
//! The caller reads the three columns from the data frame (or the reason one
//! could not be read), resolves the palette for the number of groups, and
//! builds the two ranges; the x range is a factor range over
//! [`grouped_bar_factors`].

use vstd::prelude::*;
use crate::axis::{AxisBuilder, AxisType, copy_config};
use crate::chart_config::{ChartSpec, GroupedBarConfig};
use crate::chart_figure::{AxisPlan, build_figure, figure_ids, figure_model, plan_of};
use crate::chart_helpers::{
    add_renderers, append_to_list, default_tooltips, formatter_pairs, label_attr, make_hover_tool, objects_view,
    set_axis_labels, tooltip_pairs,
};
use crate::chart_parts::{add_group_legend, group_legend_model, unique_in_order, unique_preserve_order};
use crate::error::ChartError;
use crate::figure::{hover_tool_model, opt_value_view};
use crate::histogram::{chart_height, push_floats};
use crate::id_gen::IdGen;
use crate::model::{
    BokehObject, BokehValue, ModelObject, ModelValue, lemma_view_attrs_index, lemma_view_values_push, mobj, mstr,
    mval, view_attrs, view_values,
};
use crate::renderers::{bar_renderer_model, build_bar_renderer};
use crate::source::{build_source, source_model};
use crate::text::{push_chars, str_chars, str_eq, strs};

verus! {

/// Bit pattern of the `f64` number 0.9, the default bar width.
pub const F64_BAR_WIDTH: u64 = 0x3FEC_CCCC_CCCC_CCCD;

/// The factor `[x, group]` of a bar.
pub open spec fn factor_tuple(x: Seq<char>, g: Seq<char>) -> ModelValue {
    ModelValue::Array(seq![mstr(x), mstr(g)])
}

/// Every `[x, group]` combination, the categories outermost, each in the
/// given order.
pub open spec fn cross_factors(cats: Seq<Seq<char>>, groups: Seq<Seq<char>>) -> Seq<ModelValue>
    decreases cats.len(),
{
    if cats.len() == 0 {
        Seq::empty()
    } else {
        cross_factors(cats.drop_last(), groups) + groups.map_values(|g: Seq<char>| factor_tuple(cats.last(), g))
    }
}

/// The factors of the x range of a grouped bar chart over the columns `xs`
/// and `gs`: every combination of a distinct x value and a distinct group,
/// each in first-seen order.
pub open spec fn range_factors(xs: Seq<Seq<char>>, gs: Seq<Seq<char>>) -> Seq<ModelValue> {
    cross_factors(unique_in_order(xs), unique_in_order(gs))
}

/// The colour of group `g`: the colour at the place of its first
/// occurrence in `groups` (the fallback `#4C72B0` when it has none).
pub open spec fn color_of(groups: Seq<Seq<char>>, colors: Seq<Seq<char>>, g: Seq<char>) -> Seq<char>
    decreases groups.len(),
{
    if groups.len() == 0 || colors.len() == 0 {
        "#4C72B0"@
    } else if groups[0] == g {
        colors[0]
    } else {
        color_of(groups.drop_first(), colors.drop_first(), g)
    }
}

/// The columns of the chart's data source: the three input columns, the
/// factor of each row and the fill colour of each row.
pub open spec fn grouped_bar_data(
    cfg: GroupedBarConfig,
    xs: Seq<Seq<char>>,
    gs: Seq<Seq<char>>,
    values: Seq<u64>,
    colors: Seq<Seq<char>>,
) -> Seq<(Seq<char>, ModelValue)> {
    seq![
        (cfg.x_col@, ModelValue::Array(xs.map_values(|s: Seq<char>| mstr(s)))),
        (cfg.group_col@, ModelValue::Array(gs.map_values(|s: Seq<char>| mstr(s)))),
        (cfg.value_col@, ModelValue::Array(values.map_values(|b: u64| ModelValue::Float(b)))),
        (factor_col(cfg), ModelValue::Array(Seq::new(xs.len(), |i: int| factor_tuple(xs[i], gs[i])))),
        ("_fill_color"@, ModelValue::Array(gs.map_values(
            |g: Seq<char>| mstr(color_of(unique_in_order(gs), colors, g)),
        ))),
    ]
}

/// The name of the factor column: `_factors_<x>_<group>`.
pub open spec fn factor_col(cfg: GroupedBarConfig) -> Seq<char> {
    "_factors_"@ + cfg.x_col@ + "_"@ + cfg.group_col@
}

/// The hover tool at counter `k`: the configured tooltips, else the three
/// columns.
pub open spec fn grouped_bar_hover(k: nat, cfg: GroupedBarConfig) -> ModelObject {
    match cfg.tooltips {
        Some(t) => hover_tool_model(k, tooltip_pairs(t@), formatter_pairs(t@)),
        None => hover_tool_model(k, seq![
            (cfg.x_col@, crate::chart_helpers::col_ref(cfg.x_col@)),
            (cfg.group_col@, crate::chart_helpers::col_ref(cfg.group_col@)),
            (cfg.value_col@, crate::chart_helpers::col_ref(cfg.value_col@)),
        ], Seq::empty()),
    }
}

/// The bar width; 0.9 unless set.
pub open spec fn bar_width(cfg: GroupedBarConfig) -> u64 {
    match cfg.bar_width {
        Some(w) => w,
        None => F64_BAR_WIDTH,
    }
}

/// The categorical x axis with the configured settings.
pub open spec fn gb_x_plan(cfg: GroupedBarConfig) -> AxisPlan {
    plan_of(AxisBuilder { axis_type: AxisType::Categorical, format: cfg.x_axis, dimension: 0 })
}

/// The linear y axis with the configured settings.
pub open spec fn gb_y_plan(cfg: GroupedBarConfig) -> AxisPlan {
    plan_of(AxisBuilder { axis_type: AxisType::Linear, format: cfg.y_axis, dimension: 1 })
}

/// The ids a grouped bar chart over `n_groups` groups takes.
pub open spec fn grouped_bar_ids(cfg: GroupedBarConfig, n_groups: nat) -> nat {
    1 + figure_ids(gb_x_plan(cfg), gb_y_plan(cfg)) + 3 + 5 + if n_groups > 0 { n_groups + 1 } else { 0 }
}

/// The grouped bar figure built at counter `k`: the hover tool at `k`, the
/// figure from `k + 1`, then the data source, the bar renderer and the
/// legend of the groups (none when there are no groups); the x axis is
/// unlabelled.
pub open spec fn grouped_bar_figure(
    k: nat,
    spec: ChartSpec,
    cfg: GroupedBarConfig,
    x_range: ModelValue,
    y_range: ModelValue,
    xs: Seq<Seq<char>>,
    gs: Seq<Seq<char>>,
    values: Seq<u64>,
    colors: Seq<Seq<char>>,
    filter: Option<ModelValue>,
) -> ModelObject {
    let fig = figure_model(k + 1, spec.title@, chart_height(spec), spec.width, x_range, y_range, gb_x_plan(cfg),
        gb_y_plan(cfg), Some(grouped_bar_hover(k, cfg)));
    let kc = k + 1 + figure_ids(gb_x_plan(cfg), gb_y_plan(cfg));
    let cds = source_model(kc, grouped_bar_data(cfg, xs, gs, values, colors));
    let r = bar_renderer_model(kc + 3, cds, factor_col(cfg), cfg.value_col@, bar_width(cfg), filter);
    let f1 = mobj(fig.name, fig.id, append_to_list(fig.attrs, "renderers"@, seq![mval(r)]));
    let groups = unique_in_order(gs);
    let f2 = if groups.len() > 0 {
        mobj(f1.name, f1.id, append_to_list(f1.attrs, "center"@, seq![mval(group_legend_model(kc + 8, groups))]))
    } else {
        f1
    };
    mobj(f2.name, f2.id, f2.attrs.map_values(|a: (Seq<char>, ModelValue)| label_attr(a, ""@, cfg.y_label@)))
}

fn str_values(v: &Vec<String>) -> (r: Vec<BokehValue>)
    ensures
        view_values(r@) == strs(v@).map_values(|s: Seq<char>| mstr(s)),
{
    let mut out: Vec<BokehValue> = Vec::new();
    let n = v.len();
    for i in 0..n
        invariant
            n == v@.len(),
            view_values(out@) == strs(v@.take(i as int)).map_values(|s: Seq<char>| mstr(s)),
    {
        let x = BokehValue::Str(v[i].clone());
        proof {
            lemma_view_values_push(out@, x);
            assert(strs(v@.take(i + 1)).map_values(|s: Seq<char>| mstr(s)) =~= strs(v@.take(i as int)).map_values(
                |s: Seq<char>| mstr(s),
            ).push(mstr(v@[i as int]@)));
        }
        out.push(x);
    }
    proof {
        assert(v@.take(n as int) =~= v@);
    }
    out
}

fn tuple_value(x: &String, g: &String) -> (r: BokehValue)
    ensures
        r@ == factor_tuple(x@, g@),
{
    let mut pair: Vec<BokehValue> = Vec::new();
    pair.push(BokehValue::Str(x.clone()));
    pair.push(BokehValue::Str(g.clone()));
    proof {
        crate::model::lemma_view_values_index(pair@);
        assert(view_values(pair@) =~= seq![mstr(x@), mstr(g@)]);
    }
    BokehValue::Array(pair)
}

/// The factor of each row.
fn row_factors(xs: &Vec<String>, gs: &Vec<String>) -> (r: Vec<BokehValue>)
    requires
        xs@.len() == gs@.len(),
    ensures
        view_values(r@) == Seq::new(xs@.len(), |i: int| factor_tuple(xs@[i]@, gs@[i]@)),
{
    let mut out: Vec<BokehValue> = Vec::new();
    let n = xs.len();
    for i in 0..n
        invariant
            n == xs@.len(),
            n == gs@.len(),
            view_values(out@) == Seq::new(i as nat, |j: int| factor_tuple(xs@[j]@, gs@[j]@)),
    {
        let t = tuple_value(&xs[i], &gs[i]);
        proof {
            lemma_view_values_push(out@, t);
            assert(Seq::new((i + 1) as nat, |j: int| factor_tuple(xs@[j]@, gs@[j]@)) =~= Seq::new(
                i as nat,
                |j: int| factor_tuple(xs@[j]@, gs@[j]@),
            ).push(t@));
        }
        out.push(t);
    }
    out
}

/// The factors of the x range of a grouped bar chart over the columns `xs`
/// and `gs`: every combination of a distinct x value with a distinct group.
pub fn grouped_bar_factors(xs: &Vec<String>, gs: &Vec<String>) -> (r: Vec<BokehValue>)
    ensures
        view_values(r@) == range_factors(strs(xs@), strs(gs@)),
{
    let cats = unique_preserve_order(xs.as_slice());
    let groups = unique_preserve_order(gs.as_slice());
    let ghost cv = strs(cats@);
    let ghost gv = strs(groups@);
    let mut out: Vec<BokehValue> = Vec::new();
    let nc = cats.len();
    let ng = groups.len();
    for i in 0..nc
        invariant
            nc == cats@.len(),
            ng == groups@.len(),
            cv == strs(cats@),
            gv == strs(groups@),
            view_values(out@) == cross_factors(cv.take(i as int), gv),
    {
        let ghost before = view_values(out@);
        for j in 0..ng
            invariant
                nc == cats@.len(),
                ng == groups@.len(),
                i < nc,
                cv == strs(cats@),
                gv == strs(groups@),
                view_values(out@) == before + gv.take(j as int).map_values(|g: Seq<char>| factor_tuple(cv[i as int], g)),
        {
            let t = tuple_value(&cats[i], &groups[j]);
            proof {
                lemma_view_values_push(out@, t);
                assert(gv.take(j + 1).map_values(|g: Seq<char>| factor_tuple(cv[i as int], g)) =~= gv.take(
                    j as int,
                ).map_values(|g: Seq<char>| factor_tuple(cv[i as int], g)).push(t@));
            }
            out.push(t);
        }
        proof {
            assert(gv.take(ng as int) =~= gv);
            assert(cv.take(i + 1).drop_last() =~= cv.take(i as int));
            assert(cv.take(i + 1).last() == cv[i as int]);
        }
    }
    proof {
        assert(cv.take(nc as int) =~= cv);
    }
    out
}

/// There are no more distinct values than values.
pub proof fn lemma_unique_len(vals: Seq<Seq<char>>)
    ensures
        unique_in_order(vals).len() <= vals.len(),
    decreases vals.len(),
{
    if vals.len() > 0 {
        lemma_unique_len(vals.drop_last());
    }
}

/// The colour of group `g` (the executable form of [`color_of`]).
fn lookup_color(groups: &Vec<String>, colors: &Vec<String>, g: &String) -> (r: String)
    ensures
        r@ == color_of(strs(groups@), strs(colors@), g@),
{
    let n = if groups.len() <= colors.len() { groups.len() } else { colors.len() };
    proof {
        assert(strs(groups@).skip(0) =~= strs(groups@));
        assert(strs(colors@).skip(0) =~= strs(colors@));
    }
    for i in 0..n
        invariant
            n <= groups@.len(),
            n <= colors@.len(),
            n == groups@.len() || n == colors@.len(),
            color_of(strs(groups@), strs(colors@), g@) == color_of(
                strs(groups@).skip(i as int),
                strs(colors@).skip(i as int),
                g@,
            ),
    {
        let ghost gs = strs(groups@).skip(i as int);
        let ghost cs = strs(colors@).skip(i as int);
        proof {
            assert(gs[0] == groups@[i as int]@);
            assert(cs[0] == colors@[i as int]@);
            assert(gs.drop_first() =~= strs(groups@).skip(i + 1));
            assert(cs.drop_first() =~= strs(colors@).skip(i + 1));
        }
        if str_eq(groups[i].as_str(), g.as_str()) {
            return colors[i].clone();
        }
    }
    proof {
        assert(strs(groups@).skip(n as int).len() == 0 || strs(colors@).skip(n as int).len() == 0);
    }
    String::from_str("#4C72B0")
}

fn fill_colors(gs: &Vec<String>, groups: &Vec<String>, colors: &Vec<String>) -> (r: Vec<BokehValue>)
    ensures
        view_values(r@) == strs(gs@).map_values(|g: Seq<char>| mstr(color_of(strs(groups@), strs(colors@), g))),
{
    let mut out: Vec<BokehValue> = Vec::new();
    let n = gs.len();
    for i in 0..n
        invariant
            n == gs@.len(),
            view_values(out@) == strs(gs@.take(i as int)).map_values(
                |g: Seq<char>| mstr(color_of(strs(groups@), strs(colors@), g)),
            ),
    {
        let x = BokehValue::Str(lookup_color(groups, colors, &gs[i]));
        proof {
            lemma_view_values_push(out@, x);
            assert(strs(gs@.take(i + 1)).map_values(|g: Seq<char>| mstr(color_of(strs(groups@), strs(colors@), g)))
                =~= strs(gs@.take(i as int)).map_values(
                |g: Seq<char>| mstr(color_of(strs(groups@), strs(colors@), g)),
            ).push(x@));
        }
        out.push(x);
    }
    proof {
        assert(gs@.take(n as int) =~= gs@);
    }
    out
}

fn factor_col_name(cfg: &GroupedBarConfig) -> (r: String)
    ensures
        r@ == factor_col(*cfg),
{
    let mut s = String::from_str("_factors_");
    push_chars(&mut s, &str_chars(cfg.x_col.as_str()));
    push_chars(&mut s, &str_chars("_"));
    push_chars(&mut s, &str_chars(cfg.group_col.as_str()));
    s
}


/// Build a grouped vertical bar chart from the columns `x_vals`, `group_vals`
/// and `values` (`f64` bit patterns) of the data frame, each read by the
/// caller or the reason it could not be read. `colors` is the palette
/// resolved for the number of distinct groups; the x range is a factor
/// range over [`grouped_bar_factors`], the y range is built from the data.
///
/// Fails, before any id is drawn, when a column could not be read: the x
/// column first, then the group column, then the value column.
#[verifier::rlimit(80)]
pub fn build_grouped_bar(
    id_gen: &mut IdGen,
    spec: &ChartSpec,
    cfg: &GroupedBarConfig,
    x_vals: Result<Vec<String>, String>,
    group_vals: Result<Vec<String>, String>,
    values: Result<Vec<u64>, String>,
    colors: &Vec<String>,
    x_range: BokehValue,
    y_range: BokehValue,
    filter_ref: Option<BokehValue>,
) -> (r: Result<BokehObject, ChartError>)
    requires
        x_vals is Ok && group_vals is Ok && values is Ok ==> x_vals->Ok_0@.len() == group_vals->Ok_0@.len()
            && values->Ok_0@.len() == group_vals->Ok_0@.len(),
        group_vals is Ok ==> colors@.len() >= unique_in_order(strs(group_vals->Ok_0@)).len(),
        old(id_gen).can_issue(40 + match group_vals {
            Ok(g) => g@.len(),
            Err(_) => 0,
        }),
    ensures
        x_vals is Err ==> r == Err::<BokehObject, ChartError>(ChartError::NativeRender(x_vals->Err_0)),
        x_vals is Ok && group_vals is Err ==> r == Err::<BokehObject, ChartError>(
            ChartError::NativeRender(group_vals->Err_0),
        ),
        x_vals is Ok && group_vals is Ok && values is Err ==> r == Err::<BokehObject, ChartError>(
            ChartError::NativeRender(values->Err_0),
        ),
        r is Err ==> final(id_gen)@ == old(id_gen)@,
        r is Ok <==> (x_vals is Ok && group_vals is Ok && values is Ok),
        r matches Ok(fig) ==> {
            &&& final(id_gen)@ == old(id_gen)@ + grouped_bar_ids(
                *cfg,
                unique_in_order(strs(group_vals->Ok_0@)).len(),
            )
            &&& fig@ == grouped_bar_figure(
                old(id_gen)@,
                *spec,
                *cfg,
                x_range@,
                y_range@,
                strs(x_vals->Ok_0@),
                strs(group_vals->Ok_0@),
                values->Ok_0@,
                strs(colors@),
                opt_value_view(filter_ref),
            )
        },
{
    let ghost k = id_gen@;
    let xv = match x_vals {
        Ok(v) => v,
        Err(e) => {
            return Err(ChartError::NativeRender(e));
        },
    };
    let gv = match group_vals {
        Ok(v) => v,
        Err(e) => {
            return Err(ChartError::NativeRender(e));
        },
    };
    let vv = match values {
        Ok(v) => v,
        Err(e) => {
            return Err(ChartError::NativeRender(e));
        },
    };
    let groups = unique_preserve_order(gv.as_slice());
    let fills = fill_colors(&gv, &groups, colors);
    let tuples = row_factors(&xv, &gv);
    proof {
        lemma_unique_len(strs(gv@));
        assert(view_values(tuples@) =~= Seq::new(strs(xv@).len(), |i: int| factor_tuple(strs(xv@)[i], strs(gv@)[i])));
    }
    let mut cols: Vec<&str> = Vec::new();
    cols.push(cfg.x_col.as_str());
    cols.push(cfg.group_col.as_str());
    cols.push(cfg.value_col.as_str());
    let tips = match &cfg.tooltips {
        Some(t) => Some(t),
        None => None,
    };
    let ht = make_hover_tool(id_gen, tips, cols.as_slice());
    proof {
        assert(default_tooltips(cols@) =~= seq![
            (cfg.x_col@, crate::chart_helpers::col_ref(cfg.x_col@)),
            (cfg.group_col@, crate::chart_helpers::col_ref(cfg.group_col@)),
            (cfg.value_col@, crate::chart_helpers::col_ref(cfg.value_col@)),
        ]);
        assert(ht@ == grouped_bar_hover(k, *cfg));
    }
    let height: u32 = match spec.height {
        Some(h) => h,
        None => 400,
    };
    let out = build_figure(
        id_gen,
        spec.title.as_str(),
        height,
        spec.width,
        x_range,
        String::new(),
        y_range,
        String::new(),
        AxisBuilder::x(AxisType::Categorical).config(copy_config(&cfg.x_axis)),
        AxisBuilder::y(AxisType::Linear).config(copy_config(&cfg.y_axis)),
        Some(ht),
    );
    let mut figure = out.figure;
    let ghost kc = id_gen@;
    let fcol = factor_col_name(cfg);
    let mut nums: Vec<BokehValue> = Vec::new();
    push_floats(&vv, vv.len(), &mut nums);
    proof {
        assert(vv@.take(vv@.len() as int) =~= vv@);
        assert(view_values(Seq::<BokehValue>::empty()) =~= Seq::<ModelValue>::empty());
    }
    let mut data: Vec<(String, BokehValue)> = Vec::new();
    data.push((cfg.x_col.clone(), BokehValue::Array(str_values(&xv))));
    data.push((cfg.group_col.clone(), BokehValue::Array(str_values(&gv))));
    data.push((cfg.value_col.clone(), BokehValue::Array(nums)));
    data.push((fcol.clone(), BokehValue::Array(tuples)));
    data.push((String::from_str("_fill_color"), BokehValue::Array(fills)));
    proof {
        lemma_view_attrs_index(data@);
        assert(view_attrs(data@) =~= grouped_bar_data(*cfg, strs(xv@), strs(gv@), vv@, strs(colors@)));
    }
    let cds = build_source(id_gen, data);
    let width: u64 = match cfg.bar_width {
        Some(w) => w,
        None => F64_BAR_WIDTH,
    };
    let renderer = build_bar_renderer(id_gen, cds, fcol.as_str(), cfg.value_col.as_str(), width, filter_ref);
    let ghost rv = renderer@;
    let mut rs: Vec<BokehObject> = Vec::new();
    rs.push(renderer);
    proof {
        assert(objects_view(rs@) =~= seq![mval(rv)]);
    }
    add_renderers(&mut figure, rs);
    add_group_legend(id_gen, &mut figure, groups.as_slice());
    set_axis_labels(&mut figure, "", cfg.y_label.as_str());
    Ok(figure)
}

} // verus!
