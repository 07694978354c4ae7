//! Chart configurations and their builders, and the chart specification
//! that places a chart on a page. Numbers are held as `f64` bit patterns.

use vstd::prelude::*;
use crate::chart_spec::{GridCell, PaletteSpec, TooltipSpec};
use crate::customization::{HistogramDisplay, MarkerType, TimeScale};
use crate::error::ChartError;
use crate::filter_spec::owned_strings;
use crate::text::strs;

verus! {

/// Per-axis display settings: initial visible range, pan/zoom bounds, tick
/// label rotation (degrees) and format, datetime scale and grid lines.
pub struct AxisConfig {
    pub start: Option<u64>,
    pub end: Option<u64>,
    pub bounds_min: Option<u64>,
    pub bounds_max: Option<u64>,
    pub label_rotation: Option<u64>,
    pub tick_format: Option<String>,
    pub time_scale: Option<TimeScale>,
    pub show_grid: bool,
}

/// Builder for [`AxisConfig`]; its view is the configuration so far.
pub struct AxisConfigBuilder {
    cfg: AxisConfig,
}

impl View for AxisConfigBuilder {
    type V = AxisConfig;

    closed spec fn view(&self) -> AxisConfig {
        self.cfg
    }
}

impl AxisConfig {
    /// A builder with nothing set and grid lines shown.
    pub fn builder() -> (b: AxisConfigBuilder)
        ensures
            b@ == (AxisConfig {
                start: None,
                end: None,
                bounds_min: None,
                bounds_max: None,
                label_rotation: None,
                tick_format: None,
                time_scale: None,
                show_grid: true,
            }),
    {
        AxisConfigBuilder {
            cfg: AxisConfig {
                start: None,
                end: None,
                bounds_min: None,
                bounds_max: None,
                label_rotation: None,
                tick_format: None,
                time_scale: None,
                show_grid: true,
            },
        }
    }
}

impl AxisConfigBuilder {
    /// Set the initial visible range.
    pub fn range(self, start: u64, end: u64) -> (b: Self)
        ensures
            b@ == (AxisConfig { start: Some(start), end: Some(end), ..self@ }),
    {
        let mut b = self;
        b.cfg.start = Some(start);
        b.cfg.end = Some(end);
        b
    }

    /// Set the pan/zoom bounds.
    pub fn bounds(self, min: u64, max: u64) -> (b: Self)
        ensures
            b@ == (AxisConfig { bounds_min: Some(min), bounds_max: Some(max), ..self@ }),
    {
        let mut b = self;
        b.cfg.bounds_min = Some(min);
        b.cfg.bounds_max = Some(max);
        b
    }

    /// Rotate the tick labels (degrees, as `f64` bits).
    pub fn label_rotation(self, degrees: u64) -> (b: Self)
        ensures
            b@ == (AxisConfig { label_rotation: Some(degrees), ..self@ }),
    {
        let mut b = self;
        b.cfg.label_rotation = Some(degrees);
        b
    }

    /// Set a Numeral.js tick label format (e.g. `"$0,0"`).
    pub fn tick_format(self, fmt: &str) -> (b: Self)
        ensures
            b@.tick_format matches Some(s) && s@ == fmt@,
            b@ == (AxisConfig { tick_format: b@.tick_format, ..self@ }),
    {
        let mut b = self;
        b.cfg.tick_format = Some(String::from_str(fmt));
        b
    }

    /// Format tick labels as dates at the given scale.
    pub fn time_scale(self, scale: TimeScale) -> (b: Self)
        ensures
            b@ == (AxisConfig { time_scale: Some(scale), ..self@ }),
    {
        let mut b = self;
        b.cfg.time_scale = Some(scale);
        b
    }

    /// Show or hide the grid lines.
    pub fn show_grid(self, show: bool) -> (b: Self)
        ensures
            b@ == (AxisConfig { show_grid: show, ..self@ }),
    {
        let mut b = self;
        b.cfg.show_grid = show;
        b
    }

    /// The configuration.
    pub fn build(self) -> (c: AxisConfig)
        ensures
            c == self@,
    {
        self.cfg
    }
}

/// Configuration of a grouped (clustered) bar chart.
pub struct GroupedBarConfig {
    pub x_col: String,
    pub group_col: String,
    pub value_col: String,
    pub y_label: String,
    pub palette: Option<PaletteSpec>,
    pub bar_width: Option<u64>,
    pub tooltips: Option<TooltipSpec>,
    pub x_axis: Option<AxisConfig>,
    pub y_axis: Option<AxisConfig>,
}

/// The settings of a [`GroupedBarConfigBuilder`] so far; each is `None` until set.
pub struct GroupedBarConfigDraft {
    pub x_col: Option<String>,
    pub group_col: Option<String>,
    pub value_col: Option<String>,
    pub y_label: Option<String>,
    pub palette: Option<PaletteSpec>,
    pub bar_width: Option<u64>,
    pub tooltips: Option<TooltipSpec>,
    pub x_axis: Option<AxisConfig>,
    pub y_axis: Option<AxisConfig>,
}

/// Builder for [`GroupedBarConfig`].
pub struct GroupedBarConfigBuilder {
    draft: GroupedBarConfigDraft,
}

impl View for GroupedBarConfigBuilder {
    type V = GroupedBarConfigDraft;

    closed spec fn view(&self) -> GroupedBarConfigDraft {
        self.draft
    }
}

impl GroupedBarConfig {
    /// A builder with nothing set.
    pub fn builder() -> (b: GroupedBarConfigBuilder)
        ensures
            b@.x_col is None,
            b@.group_col is None,
            b@.value_col is None,
            b@.y_label is None,
            b@.palette is None,
            b@.bar_width is None,
            b@.tooltips is None,
            b@.x_axis is None,
            b@.y_axis is None,
    {
        GroupedBarConfigBuilder { draft: GroupedBarConfigDraft { x_col: None, group_col: None, value_col: None, y_label: None, palette: None, bar_width: None, tooltips: None, x_axis: None, y_axis: None } }
    }
}

impl GroupedBarConfigBuilder {
    /// Set the x-axis category column.
    pub fn x(self, col: &str) -> (b: Self)
        ensures
            b@.x_col matches Some(s) && s@ == col@,
            b@ == (GroupedBarConfigDraft { x_col: b@.x_col, ..self@ }),
    {
        let mut b = self;
        b.draft.x_col = Some(String::from_str(col));
        b
    }

    /// Set the grouping column (one bar per group within each category).
    pub fn group(self, col: &str) -> (b: Self)
        ensures
            b@.group_col matches Some(s) && s@ == col@,
            b@ == (GroupedBarConfigDraft { group_col: b@.group_col, ..self@ }),
    {
        let mut b = self;
        b.draft.group_col = Some(String::from_str(col));
        b
    }

    /// Set the bar height column.
    pub fn value(self, col: &str) -> (b: Self)
        ensures
            b@.value_col matches Some(s) && s@ == col@,
            b@ == (GroupedBarConfigDraft { value_col: b@.value_col, ..self@ }),
    {
        let mut b = self;
        b.draft.value_col = Some(String::from_str(col));
        b
    }

    /// Set the y-axis label.
    pub fn y_label(self, label: &str) -> (b: Self)
        ensures
            b@.y_label matches Some(s) && s@ == label@,
            b@ == (GroupedBarConfigDraft { y_label: b@.y_label, ..self@ }),
    {
        let mut b = self;
        b.draft.y_label = Some(String::from_str(label));
        b
    }

    /// Set the color palette.
    pub fn palette(self, palette: PaletteSpec) -> (b: Self)
        ensures
            b@.palette == Some(palette),
            b@ == (GroupedBarConfigDraft { palette: b@.palette, ..self@ }),
    {
        let mut b = self;
        b.draft.palette = Some(palette);
        b
    }

    /// Set the bar width (the `f64` bits of a fraction of the category slot).
    pub fn bar_width(self, width: u64) -> (b: Self)
        ensures
            b@.bar_width == Some(width),
            b@ == (GroupedBarConfigDraft { bar_width: b@.bar_width, ..self@ }),
    {
        let mut b = self;
        b.draft.bar_width = Some(width);
        b
    }

    /// Set custom tooltips.
    pub fn tooltips(self, tooltips: TooltipSpec) -> (b: Self)
        ensures
            b@.tooltips == Some(tooltips),
            b@ == (GroupedBarConfigDraft { tooltips: b@.tooltips, ..self@ }),
    {
        let mut b = self;
        b.draft.tooltips = Some(tooltips);
        b
    }

    /// Set the x-axis display settings.
    pub fn x_axis(self, axis: AxisConfig) -> (b: Self)
        ensures
            b@.x_axis == Some(axis),
            b@ == (GroupedBarConfigDraft { x_axis: b@.x_axis, ..self@ }),
    {
        let mut b = self;
        b.draft.x_axis = Some(axis);
        b
    }

    /// Set the y-axis display settings.
    pub fn y_axis(self, axis: AxisConfig) -> (b: Self)
        ensures
            b@.y_axis == Some(axis),
            b@ == (GroupedBarConfigDraft { y_axis: b@.y_axis, ..self@ }),
    {
        let mut b = self;
        b.draft.y_axis = Some(axis);
        b
    }

    /// The configuration; the first required setting that was not made is
    /// reported as missing.
    pub fn build(self) -> (r: Result<GroupedBarConfig, ChartError>)
        ensures
            self@.x_col is None ==> (r matches Err(ChartError::MissingField(f)) && f@ == "x_col"@),
            self@.x_col is Some && self@.group_col is None ==> (r matches Err(ChartError::MissingField(f)) && f@ == "group_col"@),
            self@.x_col is Some && self@.group_col is Some && self@.value_col is None ==> (r matches Err(ChartError::MissingField(f)) && f@ == "value_col"@),
            self@.x_col is Some && self@.group_col is Some && self@.value_col is Some && self@.y_label is None ==> (r matches Err(ChartError::MissingField(f)) && f@ == "y_label"@),
            (self@.x_col is Some && self@.group_col is Some && self@.value_col is Some && self@.y_label is Some) ==> (r matches Ok(c) && c.x_col == self@.x_col->0 && c.group_col == self@.group_col->0 && c.value_col == self@.value_col->0 && c.y_label == self@.y_label->0 && c.palette == self@.palette && c.bar_width == self@.bar_width && c.tooltips == self@.tooltips && c.x_axis == self@.x_axis && c.y_axis == self@.y_axis),
    {
        let d = self.draft;
        let x_col = match d.x_col {
            Some(v) => v,
            None => {
                return Err(ChartError::MissingField("x_col"));
            },
        };
        let group_col = match d.group_col {
            Some(v) => v,
            None => {
                return Err(ChartError::MissingField("group_col"));
            },
        };
        let value_col = match d.value_col {
            Some(v) => v,
            None => {
                return Err(ChartError::MissingField("value_col"));
            },
        };
        let y_label = match d.y_label {
            Some(v) => v,
            None => {
                return Err(ChartError::MissingField("y_label"));
            },
        };
        Ok(GroupedBarConfig {
            x_col,
            group_col,
            value_col,
            y_label,
            palette: d.palette,
            bar_width: d.bar_width,
            tooltips: d.tooltips,
            x_axis: d.x_axis,
            y_axis: d.y_axis,
        })
    }
}

/// Configuration of a multi-series line chart.
pub struct LineConfig {
    pub x_col: String,
    pub y_cols: Vec<String>,
    pub y_label: String,
    pub palette: Option<PaletteSpec>,
    pub line_width: Option<u64>,
    pub point_size: Option<u64>,
    pub tooltips: Option<TooltipSpec>,
    pub x_axis: Option<AxisConfig>,
    pub y_axis: Option<AxisConfig>,
}

/// The settings of a [`LineConfigBuilder`] so far; each is `None` until set.
pub struct LineConfigDraft {
    pub x_col: Option<String>,
    pub y_cols: Option<Vec<String>>,
    pub y_label: Option<String>,
    pub palette: Option<PaletteSpec>,
    pub line_width: Option<u64>,
    pub point_size: Option<u64>,
    pub tooltips: Option<TooltipSpec>,
    pub x_axis: Option<AxisConfig>,
    pub y_axis: Option<AxisConfig>,
}

/// Builder for [`LineConfig`].
pub struct LineConfigBuilder {
    draft: LineConfigDraft,
}

impl View for LineConfigBuilder {
    type V = LineConfigDraft;

    closed spec fn view(&self) -> LineConfigDraft {
        self.draft
    }
}

impl LineConfig {
    /// A builder with nothing set.
    pub fn builder() -> (b: LineConfigBuilder)
        ensures
            b@.x_col is None,
            b@.y_cols is None,
            b@.y_label is None,
            b@.palette is None,
            b@.line_width is None,
            b@.point_size is None,
            b@.tooltips is None,
            b@.x_axis is None,
            b@.y_axis is None,
    {
        LineConfigBuilder { draft: LineConfigDraft { x_col: None, y_cols: None, y_label: None, palette: None, line_width: None, point_size: None, tooltips: None, x_axis: None, y_axis: None } }
    }
}

impl LineConfigBuilder {
    /// Set the x-axis column.
    pub fn x(self, col: &str) -> (b: Self)
        ensures
            b@.x_col matches Some(s) && s@ == col@,
            b@ == (LineConfigDraft { x_col: b@.x_col, ..self@ }),
    {
        let mut b = self;
        b.draft.x_col = Some(String::from_str(col));
        b
    }

    /// Set the columns drawn as lines, one series each.
    pub fn y_cols(self, cols: &[&str]) -> (b: Self)
        ensures
            b@.y_cols matches Some(v) && strs(v@) == cols@.map_values(|s: &str| s@),
            b@ == (LineConfigDraft { y_cols: b@.y_cols, ..self@ }),
    {
        let mut b = self;
        b.draft.y_cols = Some(owned_strings(cols));
        b
    }

    /// Set the y-axis label.
    pub fn y_label(self, label: &str) -> (b: Self)
        ensures
            b@.y_label matches Some(s) && s@ == label@,
            b@ == (LineConfigDraft { y_label: b@.y_label, ..self@ }),
    {
        let mut b = self;
        b.draft.y_label = Some(String::from_str(label));
        b
    }

    /// Set the color palette.
    pub fn palette(self, palette: PaletteSpec) -> (b: Self)
        ensures
            b@.palette == Some(palette),
            b@ == (LineConfigDraft { palette: b@.palette, ..self@ }),
    {
        let mut b = self;
        b.draft.palette = Some(palette);
        b
    }

    /// Set the line width (`f64` bits).
    pub fn line_width(self, width: u64) -> (b: Self)
        ensures
            b@.line_width == Some(width),
            b@ == (LineConfigDraft { line_width: b@.line_width, ..self@ }),
    {
        let mut b = self;
        b.draft.line_width = Some(width);
        b
    }

    /// Set the point marker size (`f64` bits).
    pub fn point_size(self, size: u64) -> (b: Self)
        ensures
            b@.point_size == Some(size),
            b@ == (LineConfigDraft { point_size: b@.point_size, ..self@ }),
    {
        let mut b = self;
        b.draft.point_size = Some(size);
        b
    }

    /// Set custom tooltips.
    pub fn tooltips(self, tooltips: TooltipSpec) -> (b: Self)
        ensures
            b@.tooltips == Some(tooltips),
            b@ == (LineConfigDraft { tooltips: b@.tooltips, ..self@ }),
    {
        let mut b = self;
        b.draft.tooltips = Some(tooltips);
        b
    }

    /// Set the x-axis display settings.
    pub fn x_axis(self, axis: AxisConfig) -> (b: Self)
        ensures
            b@.x_axis == Some(axis),
            b@ == (LineConfigDraft { x_axis: b@.x_axis, ..self@ }),
    {
        let mut b = self;
        b.draft.x_axis = Some(axis);
        b
    }

    /// Set the y-axis display settings.
    pub fn y_axis(self, axis: AxisConfig) -> (b: Self)
        ensures
            b@.y_axis == Some(axis),
            b@ == (LineConfigDraft { y_axis: b@.y_axis, ..self@ }),
    {
        let mut b = self;
        b.draft.y_axis = Some(axis);
        b
    }

    /// The configuration; the first required setting that was not made is
    /// reported as missing.
    pub fn build(self) -> (r: Result<LineConfig, ChartError>)
        ensures
            self@.x_col is None ==> (r matches Err(ChartError::MissingField(f)) && f@ == "x_col"@),
            self@.x_col is Some && self@.y_cols is None ==> (r matches Err(ChartError::MissingField(f)) && f@ == "y_cols"@),
            self@.x_col is Some && self@.y_cols is Some && self@.y_label is None ==> (r matches Err(ChartError::MissingField(f)) && f@ == "y_label"@),
            (self@.x_col is Some && self@.y_cols is Some && self@.y_label is Some) ==> (r matches Ok(c) && c.x_col == self@.x_col->0 && c.y_cols == self@.y_cols->0 && c.y_label == self@.y_label->0 && c.palette == self@.palette && c.line_width == self@.line_width && c.point_size == self@.point_size && c.tooltips == self@.tooltips && c.x_axis == self@.x_axis && c.y_axis == self@.y_axis),
    {
        let d = self.draft;
        let x_col = match d.x_col {
            Some(v) => v,
            None => {
                return Err(ChartError::MissingField("x_col"));
            },
        };
        let y_cols = match d.y_cols {
            Some(v) => v,
            None => {
                return Err(ChartError::MissingField("y_cols"));
            },
        };
        let y_label = match d.y_label {
            Some(v) => v,
            None => {
                return Err(ChartError::MissingField("y_label"));
            },
        };
        Ok(LineConfig {
            x_col,
            y_cols,
            y_label,
            palette: d.palette,
            line_width: d.line_width,
            point_size: d.point_size,
            tooltips: d.tooltips,
            x_axis: d.x_axis,
            y_axis: d.y_axis,
        })
    }
}

/// Configuration of a horizontal bar chart.
pub struct HBarConfig {
    pub category_col: String,
    pub value_col: String,
    pub x_label: String,
    pub color: Option<String>,
    pub tooltips: Option<TooltipSpec>,
    pub x_axis: Option<AxisConfig>,
    pub y_axis: Option<AxisConfig>,
}

/// The settings of a [`HBarConfigBuilder`] so far; each is `None` until set.
pub struct HBarConfigDraft {
    pub category_col: Option<String>,
    pub value_col: Option<String>,
    pub x_label: Option<String>,
    pub color: Option<String>,
    pub tooltips: Option<TooltipSpec>,
    pub x_axis: Option<AxisConfig>,
    pub y_axis: Option<AxisConfig>,
}

/// Builder for [`HBarConfig`].
pub struct HBarConfigBuilder {
    draft: HBarConfigDraft,
}

impl View for HBarConfigBuilder {
    type V = HBarConfigDraft;

    closed spec fn view(&self) -> HBarConfigDraft {
        self.draft
    }
}

impl HBarConfig {
    /// A builder with nothing set.
    pub fn builder() -> (b: HBarConfigBuilder)
        ensures
            b@.category_col is None,
            b@.value_col is None,
            b@.x_label is None,
            b@.color is None,
            b@.tooltips is None,
            b@.x_axis is None,
            b@.y_axis is None,
    {
        HBarConfigBuilder { draft: HBarConfigDraft { category_col: None, value_col: None, x_label: None, color: None, tooltips: None, x_axis: None, y_axis: None } }
    }
}

impl HBarConfigBuilder {
    /// Set the category column (one bar per value).
    pub fn category(self, col: &str) -> (b: Self)
        ensures
            b@.category_col matches Some(s) && s@ == col@,
            b@ == (HBarConfigDraft { category_col: b@.category_col, ..self@ }),
    {
        let mut b = self;
        b.draft.category_col = Some(String::from_str(col));
        b
    }

    /// Set the bar length column.
    pub fn value(self, col: &str) -> (b: Self)
        ensures
            b@.value_col matches Some(s) && s@ == col@,
            b@ == (HBarConfigDraft { value_col: b@.value_col, ..self@ }),
    {
        let mut b = self;
        b.draft.value_col = Some(String::from_str(col));
        b
    }

    /// Set the x-axis label.
    pub fn x_label(self, label: &str) -> (b: Self)
        ensures
            b@.x_label matches Some(s) && s@ == label@,
            b@ == (HBarConfigDraft { x_label: b@.x_label, ..self@ }),
    {
        let mut b = self;
        b.draft.x_label = Some(String::from_str(label));
        b
    }

    /// Set the bar color.
    pub fn color(self, color: &str) -> (b: Self)
        ensures
            b@.color matches Some(s) && s@ == color@,
            b@ == (HBarConfigDraft { color: b@.color, ..self@ }),
    {
        let mut b = self;
        b.draft.color = Some(String::from_str(color));
        b
    }

    /// Set custom tooltips.
    pub fn tooltips(self, tooltips: TooltipSpec) -> (b: Self)
        ensures
            b@.tooltips == Some(tooltips),
            b@ == (HBarConfigDraft { tooltips: b@.tooltips, ..self@ }),
    {
        let mut b = self;
        b.draft.tooltips = Some(tooltips);
        b
    }

    /// Set the x-axis display settings.
    pub fn x_axis(self, axis: AxisConfig) -> (b: Self)
        ensures
            b@.x_axis == Some(axis),
            b@ == (HBarConfigDraft { x_axis: b@.x_axis, ..self@ }),
    {
        let mut b = self;
        b.draft.x_axis = Some(axis);
        b
    }

    /// Set the y-axis display settings.
    pub fn y_axis(self, axis: AxisConfig) -> (b: Self)
        ensures
            b@.y_axis == Some(axis),
            b@ == (HBarConfigDraft { y_axis: b@.y_axis, ..self@ }),
    {
        let mut b = self;
        b.draft.y_axis = Some(axis);
        b
    }

    /// The configuration; the first required setting that was not made is
    /// reported as missing.
    pub fn build(self) -> (r: Result<HBarConfig, ChartError>)
        ensures
            self@.category_col is None ==> (r matches Err(ChartError::MissingField(f)) && f@ == "category_col"@),
            self@.category_col is Some && self@.value_col is None ==> (r matches Err(ChartError::MissingField(f)) && f@ == "value_col"@),
            self@.category_col is Some && self@.value_col is Some && self@.x_label is None ==> (r matches Err(ChartError::MissingField(f)) && f@ == "x_label"@),
            (self@.category_col is Some && self@.value_col is Some && self@.x_label is Some) ==> (r matches Ok(c) && c.category_col == self@.category_col->0 && c.value_col == self@.value_col->0 && c.x_label == self@.x_label->0 && c.color == self@.color && c.tooltips == self@.tooltips && c.x_axis == self@.x_axis && c.y_axis == self@.y_axis),
    {
        let d = self.draft;
        let category_col = match d.category_col {
            Some(v) => v,
            None => {
                return Err(ChartError::MissingField("category_col"));
            },
        };
        let value_col = match d.value_col {
            Some(v) => v,
            None => {
                return Err(ChartError::MissingField("value_col"));
            },
        };
        let x_label = match d.x_label {
            Some(v) => v,
            None => {
                return Err(ChartError::MissingField("x_label"));
            },
        };
        Ok(HBarConfig {
            category_col,
            value_col,
            x_label,
            color: d.color,
            tooltips: d.tooltips,
            x_axis: d.x_axis,
            y_axis: d.y_axis,
        })
    }
}

/// Configuration of a scatter chart.
pub struct ScatterConfig {
    pub x_col: String,
    pub y_col: String,
    pub x_label: String,
    pub y_label: String,
    pub color: Option<String>,
    pub marker: Option<MarkerType>,
    pub marker_size: Option<u64>,
    pub alpha: Option<u64>,
    pub tooltips: Option<TooltipSpec>,
    pub x_axis: Option<AxisConfig>,
    pub y_axis: Option<AxisConfig>,
}

/// The settings of a [`ScatterConfigBuilder`] so far; each is `None` until set.
pub struct ScatterConfigDraft {
    pub x_col: Option<String>,
    pub y_col: Option<String>,
    pub x_label: Option<String>,
    pub y_label: Option<String>,
    pub color: Option<String>,
    pub marker: Option<MarkerType>,
    pub marker_size: Option<u64>,
    pub alpha: Option<u64>,
    pub tooltips: Option<TooltipSpec>,
    pub x_axis: Option<AxisConfig>,
    pub y_axis: Option<AxisConfig>,
}

/// Builder for [`ScatterConfig`].
pub struct ScatterConfigBuilder {
    draft: ScatterConfigDraft,
}

impl View for ScatterConfigBuilder {
    type V = ScatterConfigDraft;

    closed spec fn view(&self) -> ScatterConfigDraft {
        self.draft
    }
}

impl ScatterConfig {
    /// A builder with nothing set.
    pub fn builder() -> (b: ScatterConfigBuilder)
        ensures
            b@.x_col is None,
            b@.y_col is None,
            b@.x_label is None,
            b@.y_label is None,
            b@.color is None,
            b@.marker is None,
            b@.marker_size is None,
            b@.alpha is None,
            b@.tooltips is None,
            b@.x_axis is None,
            b@.y_axis is None,
    {
        ScatterConfigBuilder { draft: ScatterConfigDraft { x_col: None, y_col: None, x_label: None, y_label: None, color: None, marker: None, marker_size: None, alpha: None, tooltips: None, x_axis: None, y_axis: None } }
    }
}

impl ScatterConfigBuilder {
    /// Set the x column.
    pub fn x(self, col: &str) -> (b: Self)
        ensures
            b@.x_col matches Some(s) && s@ == col@,
            b@ == (ScatterConfigDraft { x_col: b@.x_col, ..self@ }),
    {
        let mut b = self;
        b.draft.x_col = Some(String::from_str(col));
        b
    }

    /// Set the y column.
    pub fn y(self, col: &str) -> (b: Self)
        ensures
            b@.y_col matches Some(s) && s@ == col@,
            b@ == (ScatterConfigDraft { y_col: b@.y_col, ..self@ }),
    {
        let mut b = self;
        b.draft.y_col = Some(String::from_str(col));
        b
    }

    /// Set the x-axis label.
    pub fn x_label(self, label: &str) -> (b: Self)
        ensures
            b@.x_label matches Some(s) && s@ == label@,
            b@ == (ScatterConfigDraft { x_label: b@.x_label, ..self@ }),
    {
        let mut b = self;
        b.draft.x_label = Some(String::from_str(label));
        b
    }

    /// Set the y-axis label.
    pub fn y_label(self, label: &str) -> (b: Self)
        ensures
            b@.y_label matches Some(s) && s@ == label@,
            b@ == (ScatterConfigDraft { y_label: b@.y_label, ..self@ }),
    {
        let mut b = self;
        b.draft.y_label = Some(String::from_str(label));
        b
    }

    /// Set the marker color.
    pub fn color(self, color: &str) -> (b: Self)
        ensures
            b@.color matches Some(s) && s@ == color@,
            b@ == (ScatterConfigDraft { color: b@.color, ..self@ }),
    {
        let mut b = self;
        b.draft.color = Some(String::from_str(color));
        b
    }

    /// Set the marker shape.
    pub fn marker(self, marker: MarkerType) -> (b: Self)
        ensures
            b@.marker == Some(marker),
            b@ == (ScatterConfigDraft { marker: b@.marker, ..self@ }),
    {
        let mut b = self;
        b.draft.marker = Some(marker);
        b
    }

    /// Set the marker size (`f64` bits).
    pub fn marker_size(self, size: u64) -> (b: Self)
        ensures
            b@.marker_size == Some(size),
            b@ == (ScatterConfigDraft { marker_size: b@.marker_size, ..self@ }),
    {
        let mut b = self;
        b.draft.marker_size = Some(size);
        b
    }

    /// Set the marker opacity (`f64` bits).
    pub fn alpha(self, alpha: u64) -> (b: Self)
        ensures
            b@.alpha == Some(alpha),
            b@ == (ScatterConfigDraft { alpha: b@.alpha, ..self@ }),
    {
        let mut b = self;
        b.draft.alpha = Some(alpha);
        b
    }

    /// Set custom tooltips.
    pub fn tooltips(self, tooltips: TooltipSpec) -> (b: Self)
        ensures
            b@.tooltips == Some(tooltips),
            b@ == (ScatterConfigDraft { tooltips: b@.tooltips, ..self@ }),
    {
        let mut b = self;
        b.draft.tooltips = Some(tooltips);
        b
    }

    /// Set the x-axis display settings.
    pub fn x_axis(self, axis: AxisConfig) -> (b: Self)
        ensures
            b@.x_axis == Some(axis),
            b@ == (ScatterConfigDraft { x_axis: b@.x_axis, ..self@ }),
    {
        let mut b = self;
        b.draft.x_axis = Some(axis);
        b
    }

    /// Set the y-axis display settings.
    pub fn y_axis(self, axis: AxisConfig) -> (b: Self)
        ensures
            b@.y_axis == Some(axis),
            b@ == (ScatterConfigDraft { y_axis: b@.y_axis, ..self@ }),
    {
        let mut b = self;
        b.draft.y_axis = Some(axis);
        b
    }

    /// The configuration; the first required setting that was not made is
    /// reported as missing.
    pub fn build(self) -> (r: Result<ScatterConfig, ChartError>)
        ensures
            self@.x_col is None ==> (r matches Err(ChartError::MissingField(f)) && f@ == "x_col"@),
            self@.x_col is Some && self@.y_col is None ==> (r matches Err(ChartError::MissingField(f)) && f@ == "y_col"@),
            self@.x_col is Some && self@.y_col is Some && self@.x_label is None ==> (r matches Err(ChartError::MissingField(f)) && f@ == "x_label"@),
            self@.x_col is Some && self@.y_col is Some && self@.x_label is Some && self@.y_label is None ==> (r matches Err(ChartError::MissingField(f)) && f@ == "y_label"@),
            (self@.x_col is Some && self@.y_col is Some && self@.x_label is Some && self@.y_label is Some) ==> (r matches Ok(c) && c.x_col == self@.x_col->0 && c.y_col == self@.y_col->0 && c.x_label == self@.x_label->0 && c.y_label == self@.y_label->0 && c.color == self@.color && c.marker == self@.marker && c.marker_size == self@.marker_size && c.alpha == self@.alpha && c.tooltips == self@.tooltips && c.x_axis == self@.x_axis && c.y_axis == self@.y_axis),
    {
        let d = self.draft;
        let x_col = match d.x_col {
            Some(v) => v,
            None => {
                return Err(ChartError::MissingField("x_col"));
            },
        };
        let y_col = match d.y_col {
            Some(v) => v,
            None => {
                return Err(ChartError::MissingField("y_col"));
            },
        };
        let x_label = match d.x_label {
            Some(v) => v,
            None => {
                return Err(ChartError::MissingField("x_label"));
            },
        };
        let y_label = match d.y_label {
            Some(v) => v,
            None => {
                return Err(ChartError::MissingField("y_label"));
            },
        };
        Ok(ScatterConfig {
            x_col,
            y_col,
            x_label,
            y_label,
            color: d.color,
            marker: d.marker,
            marker_size: d.marker_size,
            alpha: d.alpha,
            tooltips: d.tooltips,
            x_axis: d.x_axis,
            y_axis: d.y_axis,
        })
    }
}

/// Configuration of a pie or donut chart.
pub struct PieConfig {
    pub label_col: String,
    pub value_col: String,
    pub inner_radius: Option<u64>,
    pub palette: Option<PaletteSpec>,
    pub tooltips: Option<TooltipSpec>,
    pub show_legend: Option<bool>,
}

/// The settings of a [`PieConfigBuilder`] so far; each is `None` until set.
pub struct PieConfigDraft {
    pub label_col: Option<String>,
    pub value_col: Option<String>,
    pub inner_radius: Option<u64>,
    pub palette: Option<PaletteSpec>,
    pub tooltips: Option<TooltipSpec>,
    pub show_legend: Option<bool>,
}

/// Builder for [`PieConfig`].
pub struct PieConfigBuilder {
    draft: PieConfigDraft,
}

impl View for PieConfigBuilder {
    type V = PieConfigDraft;

    closed spec fn view(&self) -> PieConfigDraft {
        self.draft
    }
}

impl PieConfig {
    /// A builder with nothing set.
    pub fn builder() -> (b: PieConfigBuilder)
        ensures
            b@.label_col is None,
            b@.value_col is None,
            b@.inner_radius is None,
            b@.palette is None,
            b@.tooltips is None,
            b@.show_legend is None,
    {
        PieConfigBuilder { draft: PieConfigDraft { label_col: None, value_col: None, inner_radius: None, palette: None, tooltips: None, show_legend: None } }
    }
}

impl PieConfigBuilder {
    /// Set the slice label column.
    pub fn label(self, col: &str) -> (b: Self)
        ensures
            b@.label_col matches Some(s) && s@ == col@,
            b@ == (PieConfigDraft { label_col: b@.label_col, ..self@ }),
    {
        let mut b = self;
        b.draft.label_col = Some(String::from_str(col));
        b
    }

    /// Set the slice size column.
    pub fn value(self, col: &str) -> (b: Self)
        ensures
            b@.value_col matches Some(s) && s@ == col@,
            b@ == (PieConfigDraft { value_col: b@.value_col, ..self@ }),
    {
        let mut b = self;
        b.draft.value_col = Some(String::from_str(col));
        b
    }

    /// Set the inner radius (`f64` bits); a positive one makes a donut.
    pub fn inner_radius(self, radius: u64) -> (b: Self)
        ensures
            b@.inner_radius == Some(radius),
            b@ == (PieConfigDraft { inner_radius: b@.inner_radius, ..self@ }),
    {
        let mut b = self;
        b.draft.inner_radius = Some(radius);
        b
    }

    /// Set the color palette.
    pub fn palette(self, palette: PaletteSpec) -> (b: Self)
        ensures
            b@.palette == Some(palette),
            b@ == (PieConfigDraft { palette: b@.palette, ..self@ }),
    {
        let mut b = self;
        b.draft.palette = Some(palette);
        b
    }

    /// Set custom tooltips.
    pub fn tooltips(self, tooltips: TooltipSpec) -> (b: Self)
        ensures
            b@.tooltips == Some(tooltips),
            b@ == (PieConfigDraft { tooltips: b@.tooltips, ..self@ }),
    {
        let mut b = self;
        b.draft.tooltips = Some(tooltips);
        b
    }

    /// Show or hide the legend.
    pub fn show_legend(self, show: bool) -> (b: Self)
        ensures
            b@.show_legend == Some(show),
            b@ == (PieConfigDraft { show_legend: b@.show_legend, ..self@ }),
    {
        let mut b = self;
        b.draft.show_legend = Some(show);
        b
    }

    /// The configuration; the first required setting that was not made is
    /// reported as missing.
    pub fn build(self) -> (r: Result<PieConfig, ChartError>)
        ensures
            self@.label_col is None ==> (r matches Err(ChartError::MissingField(f)) && f@ == "label_col"@),
            self@.label_col is Some && self@.value_col is None ==> (r matches Err(ChartError::MissingField(f)) && f@ == "value_col"@),
            (self@.label_col is Some && self@.value_col is Some) ==> (r matches Ok(c) && c.label_col == self@.label_col->0 && c.value_col == self@.value_col->0 && c.inner_radius == self@.inner_radius && c.palette == self@.palette && c.tooltips == self@.tooltips && c.show_legend == self@.show_legend),
    {
        let d = self.draft;
        let label_col = match d.label_col {
            Some(v) => v,
            None => {
                return Err(ChartError::MissingField("label_col"));
            },
        };
        let value_col = match d.value_col {
            Some(v) => v,
            None => {
                return Err(ChartError::MissingField("value_col"));
            },
        };
        Ok(PieConfig {
            label_col,
            value_col,
            inner_radius: d.inner_radius,
            palette: d.palette,
            tooltips: d.tooltips,
            show_legend: d.show_legend,
        })
    }
}

/// Configuration of a histogram drawn from a pre-computed bin table.
pub struct HistogramConfig {
    pub x_label: String,
    pub display: Option<HistogramDisplay>,
    pub y_label: Option<String>,
    pub color: Option<String>,
    pub line_color: Option<String>,
    pub alpha: Option<u64>,
    pub tooltips: Option<TooltipSpec>,
    pub x_axis: Option<AxisConfig>,
    pub y_axis: Option<AxisConfig>,
}

/// The settings of a [`HistogramConfigBuilder`] so far; each is `None` until set.
pub struct HistogramConfigDraft {
    pub x_label: Option<String>,
    pub display: Option<HistogramDisplay>,
    pub y_label: Option<String>,
    pub color: Option<String>,
    pub line_color: Option<String>,
    pub alpha: Option<u64>,
    pub tooltips: Option<TooltipSpec>,
    pub x_axis: Option<AxisConfig>,
    pub y_axis: Option<AxisConfig>,
}

/// Builder for [`HistogramConfig`].
pub struct HistogramConfigBuilder {
    draft: HistogramConfigDraft,
}

impl View for HistogramConfigBuilder {
    type V = HistogramConfigDraft;

    closed spec fn view(&self) -> HistogramConfigDraft {
        self.draft
    }
}

impl HistogramConfig {
    /// A builder with nothing set.
    pub fn builder() -> (b: HistogramConfigBuilder)
        ensures
            b@.x_label is None,
            b@.display is None,
            b@.y_label is None,
            b@.color is None,
            b@.line_color is None,
            b@.alpha is None,
            b@.tooltips is None,
            b@.x_axis is None,
            b@.y_axis is None,
    {
        HistogramConfigBuilder { draft: HistogramConfigDraft { x_label: None, display: None, y_label: None, color: None, line_color: None, alpha: None, tooltips: None, x_axis: None, y_axis: None } }
    }
}

impl HistogramConfigBuilder {
    /// Set the x-axis label.
    pub fn x_label(self, label: &str) -> (b: Self)
        ensures
            b@.x_label matches Some(s) && s@ == label@,
            b@ == (HistogramConfigDraft { x_label: b@.x_label, ..self@ }),
    {
        let mut b = self;
        b.draft.x_label = Some(String::from_str(label));
        b
    }

    /// Choose the statistic shown.
    pub fn display(self, mode: HistogramDisplay) -> (b: Self)
        ensures
            b@.display == Some(mode),
            b@ == (HistogramConfigDraft { display: b@.display, ..self@ }),
    {
        let mut b = self;
        b.draft.display = Some(mode);
        b
    }

    /// Set the y-axis label.
    pub fn y_label(self, label: &str) -> (b: Self)
        ensures
            b@.y_label matches Some(s) && s@ == label@,
            b@ == (HistogramConfigDraft { y_label: b@.y_label, ..self@ }),
    {
        let mut b = self;
        b.draft.y_label = Some(String::from_str(label));
        b
    }

    /// Set the bar fill color.
    pub fn color(self, color: &str) -> (b: Self)
        ensures
            b@.color matches Some(s) && s@ == color@,
            b@ == (HistogramConfigDraft { color: b@.color, ..self@ }),
    {
        let mut b = self;
        b.draft.color = Some(String::from_str(color));
        b
    }

    /// Set the bar outline color.
    pub fn line_color(self, color: &str) -> (b: Self)
        ensures
            b@.line_color matches Some(s) && s@ == color@,
            b@ == (HistogramConfigDraft { line_color: b@.line_color, ..self@ }),
    {
        let mut b = self;
        b.draft.line_color = Some(String::from_str(color));
        b
    }

    /// Set the fill opacity (`f64` bits).
    pub fn alpha(self, alpha: u64) -> (b: Self)
        ensures
            b@.alpha == Some(alpha),
            b@ == (HistogramConfigDraft { alpha: b@.alpha, ..self@ }),
    {
        let mut b = self;
        b.draft.alpha = Some(alpha);
        b
    }

    /// Set custom tooltips.
    pub fn tooltips(self, tooltips: TooltipSpec) -> (b: Self)
        ensures
            b@.tooltips == Some(tooltips),
            b@ == (HistogramConfigDraft { tooltips: b@.tooltips, ..self@ }),
    {
        let mut b = self;
        b.draft.tooltips = Some(tooltips);
        b
    }

    /// Set the x-axis display settings.
    pub fn x_axis(self, axis: AxisConfig) -> (b: Self)
        ensures
            b@.x_axis == Some(axis),
            b@ == (HistogramConfigDraft { x_axis: b@.x_axis, ..self@ }),
    {
        let mut b = self;
        b.draft.x_axis = Some(axis);
        b
    }

    /// Set the y-axis display settings.
    pub fn y_axis(self, axis: AxisConfig) -> (b: Self)
        ensures
            b@.y_axis == Some(axis),
            b@ == (HistogramConfigDraft { y_axis: b@.y_axis, ..self@ }),
    {
        let mut b = self;
        b.draft.y_axis = Some(axis);
        b
    }

    /// The configuration; the first required setting that was not made is
    /// reported as missing.
    pub fn build(self) -> (r: Result<HistogramConfig, ChartError>)
        ensures
            self@.x_label is None ==> (r matches Err(ChartError::MissingField(f)) && f@ == "x_label"@),
            (self@.x_label is Some) ==> (r matches Ok(c) && c.x_label == self@.x_label->0 && c.display == self@.display && c.y_label == self@.y_label && c.color == self@.color && c.line_color == self@.line_color && c.alpha == self@.alpha && c.tooltips == self@.tooltips && c.x_axis == self@.x_axis && c.y_axis == self@.y_axis),
    {
        let d = self.draft;
        let x_label = match d.x_label {
            Some(v) => v,
            None => {
                return Err(ChartError::MissingField("x_label"));
            },
        };
        Ok(HistogramConfig {
            x_label,
            display: d.display,
            y_label: d.y_label,
            color: d.color,
            line_color: d.line_color,
            alpha: d.alpha,
            tooltips: d.tooltips,
            x_axis: d.x_axis,
            y_axis: d.y_axis,
        })
    }
}

/// Configuration of a density (violin) chart.
pub struct DensityConfig {
    pub category_col: String,
    pub value_col: String,
    pub y_label: String,
    pub palette: Option<PaletteSpec>,
    pub color: Option<String>,
    pub alpha: Option<u64>,
    pub y_axis: Option<AxisConfig>,
    pub point_threshold: Option<u32>,
}

/// The settings of a [`DensityConfigBuilder`] so far; each is `None` until set.
pub struct DensityConfigDraft {
    pub category_col: Option<String>,
    pub value_col: Option<String>,
    pub y_label: Option<String>,
    pub palette: Option<PaletteSpec>,
    pub color: Option<String>,
    pub alpha: Option<u64>,
    pub y_axis: Option<AxisConfig>,
    pub point_threshold: Option<u32>,
}

/// Builder for [`DensityConfig`].
pub struct DensityConfigBuilder {
    draft: DensityConfigDraft,
}

impl View for DensityConfigBuilder {
    type V = DensityConfigDraft;

    closed spec fn view(&self) -> DensityConfigDraft {
        self.draft
    }
}

impl DensityConfig {
    /// A builder with nothing set.
    pub fn builder() -> (b: DensityConfigBuilder)
        ensures
            b@.category_col is None,
            b@.value_col is None,
            b@.y_label is None,
            b@.palette is None,
            b@.color is None,
            b@.alpha is None,
            b@.y_axis is None,
            b@.point_threshold is None,
    {
        DensityConfigBuilder { draft: DensityConfigDraft { category_col: None, value_col: None, y_label: None, palette: None, color: None, alpha: None, y_axis: None, point_threshold: None } }
    }
}

impl DensityConfigBuilder {
    /// Set the category column (one violin per value).
    pub fn category(self, col: &str) -> (b: Self)
        ensures
            b@.category_col matches Some(s) && s@ == col@,
            b@ == (DensityConfigDraft { category_col: b@.category_col, ..self@ }),
    {
        let mut b = self;
        b.draft.category_col = Some(String::from_str(col));
        b
    }

    /// Set the numeric value column.
    pub fn value(self, col: &str) -> (b: Self)
        ensures
            b@.value_col matches Some(s) && s@ == col@,
            b@ == (DensityConfigDraft { value_col: b@.value_col, ..self@ }),
    {
        let mut b = self;
        b.draft.value_col = Some(String::from_str(col));
        b
    }

    /// Set the y-axis label.
    pub fn y_label(self, label: &str) -> (b: Self)
        ensures
            b@.y_label matches Some(s) && s@ == label@,
            b@ == (DensityConfigDraft { y_label: b@.y_label, ..self@ }),
    {
        let mut b = self;
        b.draft.y_label = Some(String::from_str(label));
        b
    }

    /// Set the color palette.
    pub fn palette(self, palette: PaletteSpec) -> (b: Self)
        ensures
            b@.palette == Some(palette),
            b@ == (DensityConfigDraft { palette: b@.palette, ..self@ }),
    {
        let mut b = self;
        b.draft.palette = Some(palette);
        b
    }

    /// Set a single fill color.
    pub fn color(self, color: &str) -> (b: Self)
        ensures
            b@.color matches Some(s) && s@ == color@,
            b@ == (DensityConfigDraft { color: b@.color, ..self@ }),
    {
        let mut b = self;
        b.draft.color = Some(String::from_str(color));
        b
    }

    /// Set the fill opacity (`f64` bits).
    pub fn alpha(self, alpha: u64) -> (b: Self)
        ensures
            b@.alpha == Some(alpha),
            b@ == (DensityConfigDraft { alpha: b@.alpha, ..self@ }),
    {
        let mut b = self;
        b.draft.alpha = Some(alpha);
        b
    }

    /// Set the y-axis display settings.
    pub fn y_axis(self, axis: AxisConfig) -> (b: Self)
        ensures
            b@.y_axis == Some(axis),
            b@ == (DensityConfigDraft { y_axis: b@.y_axis, ..self@ }),
    {
        let mut b = self;
        b.draft.y_axis = Some(axis);
        b
    }

    /// Set the number of points below which a category is drawn as jittered points.
    pub fn point_threshold(self, n: u32) -> (b: Self)
        ensures
            b@.point_threshold == Some(n),
            b@ == (DensityConfigDraft { point_threshold: b@.point_threshold, ..self@ }),
    {
        let mut b = self;
        b.draft.point_threshold = Some(n);
        b
    }

    /// The configuration; the first required setting that was not made is
    /// reported as missing.
    pub fn build(self) -> (r: Result<DensityConfig, ChartError>)
        ensures
            self@.category_col is None ==> (r matches Err(ChartError::MissingField(f)) && f@ == "category_col"@),
            self@.category_col is Some && self@.value_col is None ==> (r matches Err(ChartError::MissingField(f)) && f@ == "value_col"@),
            self@.category_col is Some && self@.value_col is Some && self@.y_label is None ==> (r matches Err(ChartError::MissingField(f)) && f@ == "y_label"@),
            (self@.category_col is Some && self@.value_col is Some && self@.y_label is Some) ==> (r matches Ok(c) && c.category_col == self@.category_col->0 && c.value_col == self@.value_col->0 && c.y_label == self@.y_label->0 && c.palette == self@.palette && c.color == self@.color && c.alpha == self@.alpha && c.y_axis == self@.y_axis && c.point_threshold == self@.point_threshold),
    {
        let d = self.draft;
        let category_col = match d.category_col {
            Some(v) => v,
            None => {
                return Err(ChartError::MissingField("category_col"));
            },
        };
        let value_col = match d.value_col {
            Some(v) => v,
            None => {
                return Err(ChartError::MissingField("value_col"));
            },
        };
        let y_label = match d.y_label {
            Some(v) => v,
            None => {
                return Err(ChartError::MissingField("y_label"));
            },
        };
        Ok(DensityConfig {
            category_col,
            value_col,
            y_label,
            palette: d.palette,
            color: d.color,
            alpha: d.alpha,
            y_axis: d.y_axis,
            point_threshold: d.point_threshold,
        })
    }
}

/// The configuration of one chart.
pub enum ChartConfig {
    GroupedBar(GroupedBarConfig),
    Line(LineConfig),
    HBar(HBarConfig),
    Scatter(ScatterConfig),
    Pie(PieConfig),
    Histogram(HistogramConfig),
    Density(DensityConfig),
}

/// The renderer's name for a chart type.
pub open spec fn chart_type_name(c: ChartConfig) -> Seq<char> {
    match c {
        ChartConfig::GroupedBar(_) => "grouped_bar"@,
        ChartConfig::Line(_) => "line_multi"@,
        ChartConfig::HBar(_) => "hbar"@,
        ChartConfig::Scatter(_) => "scatter"@,
        ChartConfig::Pie(_) => "pie"@,
        ChartConfig::Histogram(_) => "histogram"@,
        ChartConfig::Density(_) => "density"@,
    }
}

impl ChartConfig {
    /// The renderer's name for this chart type.
    pub fn chart_type_str(&self) -> (s: &'static str)
        ensures
            s@ == chart_type_name(*self),
    {
        match self {
            ChartConfig::GroupedBar(_) => "grouped_bar",
            ChartConfig::Line(_) => "line_multi",
            ChartConfig::HBar(_) => "hbar",
            ChartConfig::Scatter(_) => "scatter",
            ChartConfig::Pie(_) => "pie",
            ChartConfig::Histogram(_) => "histogram",
            ChartConfig::Density(_) => "density",
        }
    }
}

/// A chart placed on a page: title, data source key, configuration, grid
/// cell, whether page filters apply to it, and optional pixel size.
pub struct ChartSpec {
    pub title: String,
    pub source_key: String,
    pub config: ChartConfig,
    pub grid: GridCell,
    pub filtered: bool,
    pub width: Option<u32>,
    pub height: Option<u32>,
}

/// Builder for [`ChartSpec`]; its view is the specification so far.
pub struct ChartSpecBuilder {
    spec: ChartSpec,
}

impl View for ChartSpecBuilder {
    type V = ChartSpec;

    closed spec fn view(&self) -> ChartSpec {
        self.spec
    }
}

impl ChartSpecBuilder {
    /// A chart at row 0, column 0, spanning one column, not filtered, with
    /// the default size.
    pub fn new(title: &str, source_key: &str, config: ChartConfig) -> (b: Self)
        ensures
            b@.title@ == title@,
            b@.source_key@ == source_key@,
            b@.config == config,
            b@.grid == (GridCell { row: 0, col: 0, col_span: 1 }),
            !b@.filtered,
            b@.width is None,
            b@.height is None,
    {
        ChartSpecBuilder {
            spec: ChartSpec {
                title: String::from_str(title),
                source_key: String::from_str(source_key),
                config,
                grid: GridCell { row: 0, col: 0, col_span: 1 },
                filtered: false,
                width: None,
                height: None,
            },
        }
    }

    /// A grouped bar chart.
    pub fn bar(title: &str, key: &str, config: GroupedBarConfig) -> (b: Self)
        ensures
            b@.title@ == title@,
            b@.source_key@ == key@,
            b@.config == ChartConfig::GroupedBar(config),
            b@.grid == (GridCell { row: 0, col: 0, col_span: 1 }),
            !b@.filtered,
            b@.width is None,
            b@.height is None,
    {
        Self::new(title, key, ChartConfig::GroupedBar(config))
    }

    /// A line chart.
    pub fn line(title: &str, key: &str, config: LineConfig) -> (b: Self)
        ensures
            b@.title@ == title@,
            b@.source_key@ == key@,
            b@.config == ChartConfig::Line(config),
            b@.grid == (GridCell { row: 0, col: 0, col_span: 1 }),
            !b@.filtered,
            b@.width is None,
            b@.height is None,
    {
        Self::new(title, key, ChartConfig::Line(config))
    }

    /// A horizontal bar chart.
    pub fn hbar(title: &str, key: &str, config: HBarConfig) -> (b: Self)
        ensures
            b@.title@ == title@,
            b@.source_key@ == key@,
            b@.config == ChartConfig::HBar(config),
            b@.grid == (GridCell { row: 0, col: 0, col_span: 1 }),
            !b@.filtered,
            b@.width is None,
            b@.height is None,
    {
        Self::new(title, key, ChartConfig::HBar(config))
    }

    /// A scatter chart.
    pub fn scatter(title: &str, key: &str, config: ScatterConfig) -> (b: Self)
        ensures
            b@.title@ == title@,
            b@.source_key@ == key@,
            b@.config == ChartConfig::Scatter(config),
            b@.grid == (GridCell { row: 0, col: 0, col_span: 1 }),
            !b@.filtered,
            b@.width is None,
            b@.height is None,
    {
        Self::new(title, key, ChartConfig::Scatter(config))
    }

    /// A pie or donut chart.
    pub fn pie(title: &str, key: &str, config: PieConfig) -> (b: Self)
        ensures
            b@.title@ == title@,
            b@.source_key@ == key@,
            b@.config == ChartConfig::Pie(config),
            b@.grid == (GridCell { row: 0, col: 0, col_span: 1 }),
            !b@.filtered,
            b@.width is None,
            b@.height is None,
    {
        Self::new(title, key, ChartConfig::Pie(config))
    }

    /// A histogram.
    pub fn histogram(title: &str, key: &str, config: HistogramConfig) -> (b: Self)
        ensures
            b@.title@ == title@,
            b@.source_key@ == key@,
            b@.config == ChartConfig::Histogram(config),
            b@.grid == (GridCell { row: 0, col: 0, col_span: 1 }),
            !b@.filtered,
            b@.width is None,
            b@.height is None,
    {
        Self::new(title, key, ChartConfig::Histogram(config))
    }

    /// A density (violin) chart.
    pub fn density(title: &str, key: &str, config: DensityConfig) -> (b: Self)
        ensures
            b@.title@ == title@,
            b@.source_key@ == key@,
            b@.config == ChartConfig::Density(config),
            b@.grid == (GridCell { row: 0, col: 0, col_span: 1 }),
            !b@.filtered,
            b@.width is None,
            b@.height is None,
    {
        Self::new(title, key, ChartConfig::Density(config))
    }

    /// Place the chart at a grid row and column, spanning `span` columns.
    pub fn at(self, row: usize, col: usize, span: usize) -> (b: Self)
        ensures
            b@ == (ChartSpec { grid: GridCell { row, col, col_span: span }, ..self@ }),
    {
        let mut b = self;
        b.spec.grid = GridCell { row, col, col_span: span };
        b
    }

    /// Let the page's filters apply to this chart.
    pub fn filtered(self) -> (b: Self)
        ensures
            b@ == (ChartSpec { filtered: true, ..self@ }),
    {
        let mut b = self;
        b.spec.filtered = true;
        b
    }

    /// Fix the chart's size in pixels.
    pub fn dimensions(self, width: u32, height: u32) -> (b: Self)
        ensures
            b@ == (ChartSpec { width: Some(width), height: Some(height), ..self@ }),
    {
        let mut b = self;
        b.spec.width = Some(width);
        b.spec.height = Some(height);
        b
    }

    /// The chart specification.
    pub fn build(self) -> (s: ChartSpec)
        ensures
            s == self@,
    {
        self.spec
    }
}

} // verus!
