//! Axis builder: an axis with its ticker and tick formatter, and its grid.

use vstd::prelude::*;
use crate::chart_config::AxisConfig;
use crate::customization::{TimeScale, time_scale_format};
use crate::id_gen::{IdGen, id_for};
use crate::model::{BokehObject, BokehValue, ModelObject, ModelValue, lemma_view_values_index, mobj, mstr, mval, view_values};

verus! {

/// Scale type of a chart axis.
#[derive(Clone, Copy, Debug, PartialEq, Eq, Structural)]
pub enum AxisType {
    Categorical,
    Linear,
    Datetime,
}

/// The strftime pattern used for axis tick labels at a time scale.
pub fn time_scale_to_fmt(ts: &TimeScale) -> (r: String)
    ensures
        r@ == time_scale_format(*ts),
{
    String::from_str(ts.format_str())
}

/// The `(axis, ticker, formatter)` model names of an axis type.
pub open spec fn axis_names(t: AxisType) -> (Seq<char>, Seq<char>, Seq<char>) {
    match t {
        AxisType::Categorical => ("CategoricalAxis"@, "CategoricalTicker"@, "CategoricalTickFormatter"@),
        AxisType::Datetime => ("DatetimeAxis"@, "DatetimeTicker"@, "DatetimeTickFormatter"@),
        AxisType::Linear => ("LinearAxis"@, "BasicTicker"@, "BasicTickFormatter"@),
    }
}

/// The ticker with id `k`; a linear ticker steps by 1, 2 and 5.
pub open spec fn ticker_model(t: AxisType, k: nat) -> ModelObject {
    mobj(axis_names(t).1, id_for(k), if t == AxisType::Linear {
        seq![("mantissas"@, ModelValue::Array(seq![ModelValue::Int(1), ModelValue::Int(2), ModelValue::Int(5)]))]
    } else {
        seq![]
    })
}

/// A datetime formatter with id `k` writing every resolution as `fmt`.
pub open spec fn datetime_formatter_model(k: nat, fmt: Seq<char>) -> ModelObject {
    mobj("DatetimeTickFormatter"@, id_for(k), seq![
        ("milliseconds"@, mstr(fmt)),
        ("seconds"@, mstr(fmt)),
        ("minsec"@, mstr(fmt)),
        ("minutes"@, mstr(fmt)),
        ("hourmin"@, mstr(fmt)),
        ("hours"@, mstr(fmt)),
        ("days"@, mstr(fmt)),
        ("months"@, mstr(fmt)),
        ("years"@, mstr(fmt)),
    ])
}

/// What the builder reads of optional axis settings: the time scale and the
/// tick format.
pub open spec fn format_view(f: Option<AxisConfig>) -> Option<(Option<TimeScale>, Option<Seq<char>>)> {
    match f {
        Some(a) => Some((a.time_scale, match a.tick_format {
            Some(s) => Some(s@),
            None => None,
        })),
        None => None,
    }
}

/// The formatter of an axis whose default formatter has id `k`: a time
/// scale takes precedence over a tick format, and either one replaces the
/// default by a new formatter with id `k + 3`.
pub open spec fn formatter_model(t: AxisType, k: nat, f: Option<(Option<TimeScale>, Option<Seq<char>>)>) -> ModelObject {
    match f {
        Some((Some(ts), _)) => datetime_formatter_model(k + 3, time_scale_format(ts)),
        Some((None, Some(fmt))) => mobj("NumeralTickFormatter"@, id_for(k + 3), seq![("format"@, mstr(fmt))]),
        _ => mobj(axis_names(t).2, id_for(k), seq![]),
    }
}

/// Whether the settings replace the default formatter.
pub open spec fn replaces_formatter(f: Option<(Option<TimeScale>, Option<Seq<char>>)>) -> bool {
    match f {
        Some((Some(_), _)) => true,
        Some((None, Some(_))) => true,
        _ => false,
    }
}

/// The axis and grid built at counter `k`: ticker `k`, default formatter
/// `k + 1`, axis `k + 2`, grid `k + 3` (on `dimension`), and a replacing
/// formatter `k + 4` when the settings ask for one.
pub open spec fn axis_model(t: AxisType, k: nat, f: Option<(Option<TimeScale>, Option<Seq<char>>)>) -> ModelObject {
    mobj(axis_names(t).0, id_for(k + 2), seq![
        ("ticker"@, mval(ticker_model(t, k))),
        ("formatter"@, mval(formatter_model(t, k + 1, f))),
    ])
}

/// The grid of an axis with id `axis_k`.
pub open spec fn grid_model(axis_k: nat, dimension: u8) -> ModelObject {
    mobj("Grid"@, id_for(axis_k + 1), seq![
        ("axis"@, ModelValue::Ref(id_for(axis_k))),
        ("dimension"@, ModelValue::Int(dimension as i64)),
    ])
}

/// Replace the default formatter as the settings ask: a time scale gives a
/// `DatetimeTickFormatter` with its format at every resolution, else a tick
/// format gives a `NumeralTickFormatter`; either takes the next id. Without
/// either the formatter is kept.
fn apply_formatter_config(id_gen: &mut IdGen, formatter: BokehObject, cfg: &AxisConfig) -> (r: BokehObject)
    requires
        old(id_gen).can_issue(1),
    ensures
        match cfg.time_scale {
            Some(ts) => r@ == datetime_formatter_model(old(id_gen)@, time_scale_format(ts))
                && final(id_gen)@ == old(id_gen)@ + 1,
            None => match cfg.tick_format {
                Some(fmt) => r@ == mobj("NumeralTickFormatter"@, id_for(old(id_gen)@), seq![("format"@, mstr(fmt@))])
                    && final(id_gen)@ == old(id_gen)@ + 1,
                None => r == formatter && final(id_gen)@ == old(id_gen)@,
            },
        },
{
    let ghost k = id_gen@;
    match &cfg.time_scale {
        Some(ts) => {
            let f = time_scale_to_fmt(ts);
            let r = BokehObject::new("DatetimeTickFormatter", id_gen.next())
                .attr("milliseconds", BokehValue::Str(f.clone()))
                .attr("seconds", BokehValue::Str(f.clone()))
                .attr("minsec", BokehValue::Str(f.clone()))
                .attr("minutes", BokehValue::Str(f.clone()))
                .attr("hourmin", BokehValue::Str(f.clone()))
                .attr("hours", BokehValue::Str(f.clone()))
                .attr("days", BokehValue::Str(f.clone()))
                .attr("months", BokehValue::Str(f.clone()))
                .attr("years", BokehValue::Str(f));
            proof {
                assert(r@.attrs =~= datetime_formatter_model(k, time_scale_format(*ts)).attrs);
            }
            r
        },
        None => {
            match &cfg.tick_format {
                Some(fmt) => {
                    let r = BokehObject::new("NumeralTickFormatter", id_gen.next())
                        .attr("format", BokehValue::Str(fmt.clone()));
                    proof {
                        assert(r@.attrs =~= seq![("format"@, mstr(fmt@))]);
                    }
                    r
                },
                None => formatter,
            }
        },
    }
}

/// A copy of optional axis settings, the same as far as the axis builder
/// reads them.
pub fn copy_config(f: &Option<AxisConfig>) -> (r: Option<AxisConfig>)
    ensures
        format_view(r) == format_view(*f),
{
    match f {
        Some(a) => Some(AxisConfig {
            start: a.start,
            end: a.end,
            bounds_min: a.bounds_min,
            bounds_max: a.bounds_max,
            label_rotation: a.label_rotation,
            tick_format: match &a.tick_format {
                Some(t) => Some(t.clone()),
                None => None,
            },
            time_scale: a.time_scale,
            show_grid: a.show_grid,
        }),
        None => None,
    }
}

/// Builder for an axis with its ticker, formatter and grid.
pub struct AxisBuilder {
    pub axis_type: AxisType,
    pub format: Option<AxisConfig>,
    /// 0 for the x axis (below), 1 for the y axis (left).
    pub dimension: u8,
}

impl AxisBuilder {
    /// An x-axis builder (grid dimension 0).
    pub fn x(axis_type: AxisType) -> (b: Self)
        ensures
            b.axis_type == axis_type,
            b.format is None,
            b.dimension == 0,
    {
        AxisBuilder { axis_type, format: None, dimension: 0 }
    }

    /// A y-axis builder (grid dimension 1).
    pub fn y(axis_type: AxisType) -> (b: Self)
        ensures
            b.axis_type == axis_type,
            b.format is None,
            b.dimension == 1,
    {
        AxisBuilder { axis_type, format: None, dimension: 1 }
    }

    /// Attach tick-label settings.
    pub fn config(self, format: Option<AxisConfig>) -> (b: Self)
        ensures
            b.axis_type == self.axis_type,
            b.dimension == self.dimension,
            format_view(b.format) == format_view(format),
    {
        AxisBuilder { axis_type: self.axis_type, format, dimension: self.dimension }
    }

    /// The Bokeh scale model for this axis type.
    pub fn scale_name(&self) -> (s: &'static str)
        ensures
            self.axis_type == AxisType::Categorical ==> s@ == "CategoricalScale"@,
            self.axis_type != AxisType::Categorical ==> s@ == "LinearScale"@,
    {
        if self.axis_type == AxisType::Categorical {
            "CategoricalScale"
        } else {
            "LinearScale"
        }
    }

    /// Build the axis (with its ticker and formatter) and its grid; returns
    /// `(axis, axis_id, grid, grid_id)`.
    pub fn build(self, id_gen: &mut IdGen) -> (r: (BokehObject, String, BokehObject, String))
        requires
            old(id_gen).can_issue(5),
        ensures
            final(id_gen)@ == old(id_gen)@ + if replaces_formatter(format_view(self.format)) { 5int } else { 4int },
            r.0@ == axis_model(self.axis_type, old(id_gen)@, format_view(self.format)),
            r.1@ == id_for(old(id_gen)@ + 2),
            r.2@ == grid_model(old(id_gen)@ + 2, self.dimension),
            r.3@ == id_for(old(id_gen)@ + 3),
    {
        let ghost k = id_gen@;
        let ghost fv = format_view(self.format);
        let (axis_name, ticker_name, formatter_name) = match self.axis_type {
            AxisType::Categorical => ("CategoricalAxis", "CategoricalTicker", "CategoricalTickFormatter"),
            AxisType::Datetime => ("DatetimeAxis", "DatetimeTicker", "DatetimeTickFormatter"),
            AxisType::Linear => ("LinearAxis", "BasicTicker", "BasicTickFormatter"),
        };
        let ticker_id = id_gen.next();
        let fmt_id = id_gen.next();
        let axis_id = id_gen.next();
        let grid_id = id_gen.next();

        let ticker = match self.axis_type {
            AxisType::Linear => {
                let mantissas = vec![BokehValue::Int(1), BokehValue::Int(2), BokehValue::Int(5)];
                proof {
                    lemma_view_values_index(mantissas@);
                    assert(view_values(mantissas@) =~= seq![ModelValue::Int(1), ModelValue::Int(2), ModelValue::Int(5)]);
                }
                BokehObject::new(ticker_name, ticker_id.clone()).attr("mantissas", BokehValue::Array(mantissas))
            },
            _ => BokehObject::new(ticker_name, ticker_id.clone()),
        };
        proof {
            assert(ticker@.attrs =~= ticker_model(self.axis_type, k).attrs);
        }

        let mut formatter = BokehObject::new(formatter_name, fmt_id.clone());
        match &self.format {
            Some(cfg) => {
                formatter = apply_formatter_config(id_gen, formatter, cfg);
            },
            None => {},
        }
        proof {
            assert(formatter@.attrs =~= formatter_model(self.axis_type, k + 1, fv).attrs);
        }

        let axis = BokehObject::new(axis_name, axis_id.clone())
            .attr("ticker", ticker.into_value())
            .attr("formatter", formatter.into_value());
        let grid = BokehObject::new("Grid", grid_id.clone())
            .attr("axis", BokehValue::ref_of(axis_id.as_str()))
            .attr("dimension", BokehValue::Int(self.dimension as i64));
        proof {
            assert(axis@.attrs =~= axis_model(self.axis_type, k, fv).attrs);
            assert(grid@.attrs =~= grid_model(k + 2, self.dimension).attrs);
        }
        (axis, axis_id, grid, grid_id)
    }
}

} // verus!
