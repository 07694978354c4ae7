//! Filter definitions of a page: which data source, column and widget, with
//! numbers held as the bit patterns of `f64` values.

use vstd::prelude::*;
use crate::customization::TimeScale;
use crate::error::ChartError;
use crate::filters::{
    FilterOutput, build_date_range_filter, build_group_filter, build_range_filter, build_select_filter,
    build_range_tool_filter, build_threshold_filter, build_top_n_filter, filter_output_is, group_filter_models,
    range_filter_models, range_tool_filter_models, select_filter_models, threshold_filter_models, top_n_filter_models,
};
use crate::id_gen::{IdGen, id_for};
use crate::text::{str_eq, strs};

verus! {

/// Step size of a date range slider.
#[derive(Clone, Copy, Debug, PartialEq, Eq)]
pub enum DateStep {
    /// 1 ms
    Millisecond,
    /// 1 000 ms
    Second,
    /// 60 000 ms
    Minute,
    /// 3 600 000 ms
    Hour,
    /// 86 400 000 ms
    Day,
    /// 604 800 000 ms (7 days)
    Week,
    /// 2 592 000 000 ms (30 days)
    Month,
    /// 31 536 000 000 ms (365 days)
    Year,
    /// An exact step in milliseconds, given by its `f64` bits.
    Custom(u64),
}

/// The `f64` bits of a step's size in milliseconds.
pub open spec fn date_step_ms(s: DateStep) -> u64 {
    match s {
        DateStep::Millisecond => 0x3ff0_0000_0000_0000,
        DateStep::Second => 0x408f_4000_0000_0000,
        DateStep::Minute => 0x40ed_4c00_0000_0000,
        DateStep::Hour => 0x414b_7740_0000_0000,
        DateStep::Day => 0x4194_9970_0000_0000,
        DateStep::Week => 0x41c2_0642_0000_0000,
        DateStep::Month => 0x41e3_4fd9_0000_0000,
        DateStep::Year => 0x421d_5ec4_b000_0000,
        DateStep::Custom(ms) => ms,
    }
}

impl DateStep {
    /// The step size in milliseconds, as `f64` bits.
    pub fn as_ms(&self) -> (r: u64)
        ensures
            r == date_step_ms(*self),
    {
        match self {
            DateStep::Millisecond => 0x3ff0_0000_0000_0000,
            DateStep::Second => 0x408f_4000_0000_0000,
            DateStep::Minute => 0x40ed_4c00_0000_0000,
            DateStep::Hour => 0x414b_7740_0000_0000,
            DateStep::Day => 0x4194_9970_0000_0000,
            DateStep::Week => 0x41c2_0642_0000_0000,
            DateStep::Month => 0x41e3_4fd9_0000_0000,
            DateStep::Year => 0x421d_5ec4_b000_0000,
            DateStep::Custom(ms) => *ms,
        }
    }
}

/// The filter type and its parameters.
pub enum FilterConfig {
    /// A range slider keeping rows whose value lies in `[min, max]`.
    Range { min: u64, max: u64, step: u64 },
    /// A drop-down with an "(All)" choice keeping rows equal to the choice.
    Select { options: Vec<String> },
    /// A drop-down over `GroupFilter` groups, without an "(All)" choice.
    Group { options: Vec<String> },
    /// A switch keeping, while it is on, the rows strictly greater than `value`
    /// (`above`) or strictly less than it.
    Threshold { value: u64, above: bool },
    /// A slider keeping the top (or bottom) N rows by the column.
    TopN { max_n: usize, descending: bool },
    /// A datetime range slider over milliseconds since the epoch.
    DateRange { min_ms: u64, max_ms: u64, step: DateStep, scale: TimeScale },
    /// A navigator that moves the shared x range of the page's charts.
    RangeTool { y_column: String, start: u64, end: u64, time_scale: Option<TimeScale> },
}

/// A filter attached to a page: the data source and column it acts on, the
/// widget label, and its type.
pub struct FilterSpec {
    pub source_key: String,
    pub column: String,
    pub label: String,
    pub config: FilterConfig,
}

/// Owned copies of a list of string slices.
pub fn owned_strings(items: &[&str]) -> (r: Vec<String>)
    ensures
        strs(r@) == items@.map_values(|s: &str| s@),
{
    let mut out: Vec<String> = Vec::new();
    let n = items.len();
    for i in 0..n
        invariant
            n == items@.len(),
            strs(out@) == items@.take(i as int).map_values(|s: &str| s@),
    {
        let ghost o0 = strs(out@);
        out.push(String::from_str(items[i]));
        proof {
            assert(strs(out@) =~= o0.push(items@[i as int]@));
            assert(items@.take(i + 1) =~= items@.take(i as int).push(items@[i as int]));
        }
    }
    proof {
        assert(items@.take(n as int) =~= items@);
    }
    out
}

/// Whether a filter names the given source, column and label.
pub open spec fn names(f: FilterSpec, source_key: Seq<char>, column: Seq<char>, label: Seq<char>) -> bool {
    f.source_key@ == source_key && f.column@ == column && f.label@ == label
}

impl FilterSpec {
    /// A range slider filter over `[min, max]` moving by `step`.
    pub fn range(source_key: &str, column: &str, label: &str, min: u64, max: u64, step: u64) -> (f: Self)
        ensures
            names(f, source_key@, column@, label@),
            f.config == (FilterConfig::Range { min, max, step }),
    {
        FilterSpec {
            source_key: String::from_str(source_key),
            column: String::from_str(column),
            label: String::from_str(label),
            config: FilterConfig::Range { min, max, step },
        }
    }

    /// A drop-down filter with an "(All)" choice and the given options.
    pub fn select(source_key: &str, column: &str, label: &str, options: Vec<&str>) -> (f: Self)
        ensures
            names(f, source_key@, column@, label@),
            f.config matches FilterConfig::Select { options: o } && strs(o@) == options@.map_values(|s: &str| s@),
    {
        FilterSpec {
            source_key: String::from_str(source_key),
            column: String::from_str(column),
            label: String::from_str(label),
            config: FilterConfig::Select { options: owned_strings(options.as_slice()) },
        }
    }

    /// A group filter (drop-down without an "(All)" choice).
    pub fn group(source_key: &str, column: &str, label: &str, options: Vec<&str>) -> (f: Self)
        ensures
            names(f, source_key@, column@, label@),
            f.config matches FilterConfig::Group { options: o } && strs(o@) == options@.map_values(|s: &str| s@),
    {
        FilterSpec {
            source_key: String::from_str(source_key),
            column: String::from_str(column),
            label: String::from_str(label),
            config: FilterConfig::Group { options: owned_strings(options.as_slice()) },
        }
    }

    /// A threshold switch keeping rows above (or below) `value`.
    pub fn threshold(source_key: &str, column: &str, label: &str, value: u64, above: bool) -> (f: Self)
        ensures
            names(f, source_key@, column@, label@),
            f.config == (FilterConfig::Threshold { value, above }),
    {
        FilterSpec {
            source_key: String::from_str(source_key),
            column: String::from_str(column),
            label: String::from_str(label),
            config: FilterConfig::Threshold { value, above },
        }
    }

    /// A top-N slider up to `max_n`, keeping the highest values when
    /// `descending`.
    pub fn top_n(source_key: &str, column: &str, label: &str, max_n: usize, descending: bool) -> (f: Self)
        ensures
            names(f, source_key@, column@, label@),
            f.config == (FilterConfig::TopN { max_n, descending }),
    {
        FilterSpec {
            source_key: String::from_str(source_key),
            column: String::from_str(column),
            label: String::from_str(label),
            config: FilterConfig::TopN { max_n, descending },
        }
    }

    /// A date range slider between `min_ms` and `max_ms` (milliseconds since
    /// the epoch) moving by `step`, labelled at `scale`.
    pub fn date_range(
        source_key: &str,
        column: &str,
        label: &str,
        min_ms: u64,
        max_ms: u64,
        step: DateStep,
        scale: TimeScale,
    ) -> (f: Self)
        ensures
            names(f, source_key@, column@, label@),
            f.config == (FilterConfig::DateRange { min_ms, max_ms, step, scale }),
    {
        FilterSpec {
            source_key: String::from_str(source_key),
            column: String::from_str(column),
            label: String::from_str(label),
            config: FilterConfig::DateRange { min_ms, max_ms, step, scale },
        }
    }

    /// A range-tool navigator over `x_column`, drawing `y_column` in its
    /// overview and starting at the window `start..end`.
    pub fn range_tool(
        source_key: &str,
        x_column: &str,
        y_column: &str,
        label: &str,
        start: u64,
        end: u64,
        time_scale: Option<TimeScale>,
    ) -> (f: Self)
        ensures
            names(f, source_key@, x_column@, label@),
            f.config matches FilterConfig::RangeTool { y_column: y, start: s, end: e, time_scale: t }
                && y@ == y_column@ && s == start && e == end && t == time_scale,
    {
        FilterSpec {
            source_key: String::from_str(source_key),
            column: String::from_str(x_column),
            label: String::from_str(label),
            config: FilterConfig::RangeTool { y_column: String::from_str(y_column), start, end, time_scale },
        }
    }
}

/// What the widget builder hands back for a filter that is not a range
/// tool, over `n` rows, with ids drawn from counter `k`.
pub open spec fn cds_filter_built(out: FilterOutput, k: nat, n: nat, f: FilterSpec) -> bool {
    let (sk, col, label) = (f.source_key@, f.column@, f.label@);
    match f.config {
        FilterConfig::Range { min, max, step } => {
            let m = range_filter_models(k, n, "RangeSlider"@, false, sk, col, label, min, max, step);
            filter_output_is(out, m.1, m.0, sk)
        },
        FilterConfig::Select { options } => {
            let m = select_filter_models(k, n, sk, col, label, strs(options@));
            filter_output_is(out, m.1, m.0, sk)
        },
        FilterConfig::Group { options } => {
            let m = group_filter_models(k, sk, col, label, strs(options@));
            filter_output_is(out, m.1, m.0, sk)
        },
        FilterConfig::Threshold { value, above } => {
            let m = threshold_filter_models(k, n, sk, col, value, above);
            &&& out.widget@ == m.1
            &&& out.filter_obj@ == m.0
            &&& out.filter_id@ == id_for(k)
            &&& out.source_key@ == sk
            &&& out.switch_label matches Some(l) && l@ == label
            &&& !out.is_range_tool
            &&& out.range_tool_range_id is None
            &&& out.range_tool_overview is None
        },
        FilterConfig::TopN { max_n, descending } => {
            let m = top_n_filter_models(k, n, max_n, descending, sk, col, label);
            filter_output_is(out, m.1, m.0, sk)
        },
        FilterConfig::DateRange { min_ms, max_ms, step, scale } => {
            let m = range_filter_models(k, n, "DatetimeRangeSlider"@, true, sk, col, label, min_ms, max_ms, date_step_ms(step));
            filter_output_is(out, m.1, m.0, sk)
        },
        FilterConfig::RangeTool { .. } => false,
    }
}

/// Build the widget and filter model of a filter over `n` rows; range tools
/// are built separately, from their data.
pub fn build_cds_filter(id_gen: &mut IdGen, filter: &FilterSpec, n: usize) -> (r: Result<FilterOutput, ChartError>)
    requires
        old(id_gen).can_issue(3),
        !(filter.config is RangeTool),
    ensures
        final(id_gen)@ == old(id_gen)@ + 3,
        r matches Ok(out) && cds_filter_built(out, old(id_gen)@, n as nat, *filter),
{
    let sk = filter.source_key.as_str();
    let col = filter.column.as_str();
    let label = filter.label.as_str();
    match &filter.config {
        FilterConfig::Range { min, max, step } => Ok(build_range_filter(id_gen, sk, col, label, n, *min, *max, *step)),
        FilterConfig::Select { options } => Ok(build_select_filter(id_gen, sk, col, label, n, options.as_slice())),
        FilterConfig::Group { options } => Ok(build_group_filter(id_gen, sk, col, label, options.as_slice())),
        FilterConfig::Threshold { value, above } => Ok(build_threshold_filter(id_gen, sk, col, label, n, *value, *above)),
        FilterConfig::TopN { max_n, descending } => Ok(build_top_n_filter(id_gen, sk, col, label, n, *max_n, *descending)),
        FilterConfig::DateRange { min_ms, max_ms, step, .. } => {
            Ok(build_date_range_filter(id_gen, sk, col, label, n, *min_ms, *max_ms, step.as_ms()))
        },
        FilterConfig::RangeTool { .. } => {
            proof {
                assert(false);
            }
            Err(ChartError::NativeRender(String::new()))
        },
    }
}

/// What `build_range_tool_filter` gives for a range-tool filter at counter
/// `k` over `n` rows (its overview figure is built apart).
pub open spec fn range_tool_built(out: FilterOutput, k: nat, n: nat, f: FilterSpec) -> bool {
    match f.config {
        FilterConfig::RangeTool { start, end, .. } => {
            let m = range_tool_filter_models(k, n, f.source_key@, f.column@, start, end);
            &&& out.widget@ == m.1
            &&& out.filter_obj@ == m.0
            &&& out.filter_id@ == id_for(k + 1)
            &&& out.source_key@ == f.source_key@
            &&& out.switch_label is None
            &&& out.is_range_tool
            &&& out.range_tool_range_id matches Some(rid) && rid@ == id_for(k)
            &&& out.range_tool_overview is None
        },
        _ => false,
    }
}

/// The number of ids the widget of filter `f` takes.
pub open spec fn filter_ids(f: FilterSpec) -> nat {
    if f.config is RangeTool { 4 } else { 3 }
}

/// The ids taken by the widgets of the filters before position `i`.
pub open spec fn ids_before(filters: Seq<FilterSpec>, i: int) -> nat
    decreases i,
{
    if i <= 0 {
        0
    } else {
        ids_before(filters, i - 1) + filter_ids(filters[i - 1])
    }
}

/// The row count of the frame registered under `key`: the last entry with
/// that key.
pub open spec fn rows_of(frames: Seq<(String, usize)>, key: Seq<char>) -> Option<usize>
    decreases frames.len(),
{
    if frames.len() == 0 {
        None
    } else if frames.last().0@ == key {
        Some(frames.last().1)
    } else {
        rows_of(frames.drop_last(), key)
    }
}

/// The error for a filter whose data source is not registered.
pub open spec fn missing_source_text(key: Seq<char>) -> Seq<char> {
    "source_key '"@ + key + "' not found"@
}

/// The outputs among `all` of the filters whose range-tool flag is `rt`.
pub open spec fn outputs_where(all: Seq<FilterOutput>, filters: Seq<FilterSpec>, rt: bool) -> Seq<FilterOutput>
    decreases all.len(),
{
    if all.len() == 0 {
        Seq::empty()
    } else {
        outputs_where(all.drop_last(), filters, rt) + if (filters[all.len() - 1].config is RangeTool) == rt {
            seq![all.last()]
        } else {
            Seq::<FilterOutput>::empty()
        }
    }
}

/// Whether `all[i]` is what the filter at position `i` builds, the ids
/// drawn from `k` on.
pub open spec fn widgets_built(all: Seq<FilterOutput>, filters: Seq<FilterSpec>, frames: Seq<(String, usize)>, k: nat) -> bool {
    forall|i: int| #![trigger all[i]] 0 <= i < all.len() ==> {
        let f = filters[i];
        let n = rows_of(frames, f.source_key@).unwrap() as nat;
        if f.config is RangeTool {
            range_tool_built(all[i], k + ids_before(filters, i), n, f)
        } else {
            cds_filter_built(all[i], k + ids_before(filters, i), n, f)
        }
    }
}

fn find_rows(frames: &Vec<(String, usize)>, key: &str) -> (r: Option<usize>)
    ensures
        r == rows_of(frames@, key@),
{
    let mut i = frames.len();
    proof {
        assert(frames@.take(i as int) =~= frames@);
    }
    while i > 0
        invariant
            i <= frames@.len(),
            rows_of(frames@, key@) == rows_of(frames@.take(i as int), key@),
        decreases i,
    {
        proof {
            assert(frames@.take(i as int).drop_last() =~= frames@.take(i - 1));
            assert(frames@.take(i as int).last() == frames@[i - 1]);
        }
        if str_eq(frames[i - 1].0.as_str(), key) {
            return Some(frames[i - 1].1);
        }
        i = i - 1;
    }
    proof {
        assert(frames@.take(0) =~= Seq::<(String, usize)>::empty());
    }
    None
}

/// Build every filter widget of a page, given the row count of each
/// registered frame: the widget filters and the range tools, each in page
/// order. A filter whose data source is not registered fails the whole page
/// with `source_key '<key>' not found`.
pub fn build_filter_widgets(
    id_gen: &mut IdGen,
    filters: &[FilterSpec],
    frames: &Vec<(String, usize)>,
) -> (r: Result<(Vec<FilterOutput>, Vec<FilterOutput>), ChartError>)
    requires
        old(id_gen).can_issue(4 * filters@.len()),
    ensures
        r is Ok <==> forall|i: int| 0 <= i < filters@.len() ==> #[trigger] rows_of(frames@, filters@[i].source_key@) is Some,
        r matches Ok(p) ==> {
            &&& final(id_gen)@ == old(id_gen)@ + ids_before(filters@, filters@.len() as int)
            &&& exists|all: Seq<FilterOutput>| {
                &&& all.len() == filters@.len()
                &&& widgets_built(all, filters@, frames@, old(id_gen)@)
                &&& p.0@ == #[trigger] outputs_where(all, filters@, false)
                &&& p.1@ == outputs_where(all, filters@, true)
            }
        },
        r matches Err(e) ==> (e matches ChartError::NativeRender(m) && exists|i: int| {
            &&& 0 <= i < filters@.len()
            &&& #[trigger] rows_of(frames@, filters@[i].source_key@) is None
            &&& m@ == missing_source_text(filters@[i].source_key@)
            &&& forall|j: int| 0 <= j < i ==> #[trigger] rows_of(frames@, filters@[j].source_key@) is Some
        }),
{
    let ghost k = id_gen@;
    let mut cds: Vec<FilterOutput> = Vec::new();
    let mut rts: Vec<FilterOutput> = Vec::new();
    let ghost mut all: Seq<FilterOutput> = Seq::empty();
    let n = filters.len();
    for i in 0..n
        invariant
            n == filters@.len(),
            k + 4 * n <= u64::MAX,
            all.len() == i,
            id_gen@ == k + ids_before(filters@, i as int),
            ids_before(filters@, i as int) <= 4 * i,
            forall|j: int| 0 <= j < i ==> #[trigger] rows_of(frames@, filters@[j].source_key@) is Some,
            widgets_built(all, filters@, frames@, k),
            cds@ == outputs_where(all, filters@, false),
            rts@ == outputs_where(all, filters@, true),
    {
        let f = &filters[i];
        let rows = find_rows(frames, f.source_key.as_str());
        match rows {
            None => {
                let mut m = String::from_str("source_key '");
                m.append(f.source_key.as_str());
                m.append("' not found");
                proof {
                    assert(m@ =~= missing_source_text(filters@[i as int].source_key@));
                    assert(!(forall|j: int| 0 <= j < filters@.len() ==> #[trigger] rows_of(frames@, filters@[j].source_key@) is Some)) by {
                        assert(rows_of(frames@, filters@[i as int].source_key@) is None);
                    }
                }
                let err = ChartError::NativeRender(m);
                proof {
                    assert(err matches ChartError::NativeRender(mm) && mm@ == m@);
                }
                return Err(err);
            },
            Some(nrows) => {
                proof {
                    assert(id_gen@ + 4 <= u64::MAX);
                }
                let is_rt = match &f.config {
                    FilterConfig::RangeTool { .. } => true,
                    _ => false,
                };
                let ghost all0 = all;
                if is_rt {
                    let (start, end) = match &f.config {
                        FilterConfig::RangeTool { start, end, .. } => (*start, *end),
                        _ => (0, 0),
                    };
                    let out = build_range_tool_filter(id_gen, f.source_key.as_str(), f.column.as_str(), nrows, start, end);
                    proof {
                        assert(range_tool_built(out, (k + ids_before(filters@, i as int)) as nat, nrows as nat, *f));
                        all = all.push(out);
                    }
                    rts.push(out);
                } else {
                    let out = match build_cds_filter(id_gen, f, nrows) {
                        Ok(o) => o,
                        Err(e) => {
                            proof {
                                assert(false);
                            }
                            return Err(e);
                        },
                    };
                    proof {
                        all = all.push(out);
                    }
                    cds.push(out);
                }
                proof {
                    assert(all.drop_last() =~= all0);
                    assert forall|j: int| #![trigger all[j]] 0 <= j < all.len() implies {
                        let g = filters@[j];
                        let nr = rows_of(frames@, g.source_key@).unwrap() as nat;
                        if g.config is RangeTool {
                            range_tool_built(all[j], k + ids_before(filters@, j), nr, g)
                        } else {
                            cds_filter_built(all[j], k + ids_before(filters@, j), nr, g)
                        }
                    } by {
                        if j < i {
                            assert(all[j] == all0[j]);
                        }
                    }
                }
            },
        }
    }
    proof {
        assert(forall|i: int| 0 <= i < filters@.len() ==> #[trigger] rows_of(frames@, filters@[i].source_key@) is Some);
    }
    Ok((cds, rts))
}

} // verus!
