use rust_to_bokeh::chart_config::{
    AxisConfig, ChartConfig, ChartSpecBuilder, DensityConfig, GroupedBarConfig, HBarConfig, HistogramConfig, LineConfig,
    PieConfig, ScatterConfig,
};
use rust_to_bokeh::chart_spec::{PaletteSpec, TooltipFormat, TooltipSpec};
use rust_to_bokeh::customization::{HistogramDisplay, MarkerType};
use rust_to_bokeh::error::ChartError;

// histogram.rs

#[test]
fn build_minimal() {
    let config = HistogramConfig::builder()
        .x_label("Salary (k)")
        .build()
        .unwrap();
    assert_eq!(config.x_label, "Salary (k)");
    assert!(config.display.is_none());
    assert!(config.y_label.is_none());
    assert!(config.color.is_none());
    assert!(config.line_color.is_none());
    assert!(config.alpha.is_none());
    assert!(config.tooltips.is_none());
    assert!(config.x_axis.is_none());
    assert!(config.y_axis.is_none());
}

#[test]
fn build_with_display_modes() {
    for (mode, expected) in [
        (HistogramDisplay::Count, "count"),
        (HistogramDisplay::Pdf, "pdf"),
        (HistogramDisplay::Cdf, "cdf"),
    ] {
        let config = HistogramConfig::builder()
            .x_label("X")
            .display(mode.clone())
            .build()
            .unwrap();
        assert_eq!(config.display.unwrap().as_str(), expected);
    }
}

#[test]
fn build_all_optional_fields() {
    let config = HistogramConfig::builder()
        .x_label("Age")
        .y_label("Frequency")
        .display(HistogramDisplay::Pdf)
        .color("#e74c3c")
        .line_color("#333333")
        .alpha(0.85f64.to_bits())
        .build()
        .unwrap();
    assert_eq!(config.x_label, "Age");
    assert_eq!(config.y_label.as_deref(), Some("Frequency"));
    assert_eq!(config.color.as_deref(), Some("#e74c3c"));
    assert_eq!(config.line_color.as_deref(), Some("#333333"));
    assert_eq!(config.alpha.map(f64::from_bits), Some(0.85));
}

#[test]
fn missing_x_label_returns_error() {
    assert!(matches!(
        HistogramConfig::builder().build(),
        Err(ChartError::MissingField("x_label"))
    ));
}

#[test]
fn pie_missing_label_col() {
    assert!(matches!(
        PieConfig::builder().value("amount").build(),
        Err(ChartError::MissingField("label_col"))
    ));
}

#[test]
fn pie_missing_value_col() {
    assert!(matches!(
        PieConfig::builder().label("category").build(),
        Err(ChartError::MissingField("value_col"))
    ));
}

#[test]
fn pie_build_success() {
    let cfg = PieConfig::builder()
        .label("company")
        .value("share")
        .build()
        .unwrap();
    assert_eq!(cfg.label_col, "company");
    assert_eq!(cfg.value_col, "share");
}

// ── Optional fields ───────────────────────────────────────────────────────

#[test]
fn pie_optional_fields_default_none() {
    let cfg = PieConfig::builder()
        .label("l")
        .value("v")
        .build()
        .unwrap();
    assert!(cfg.inner_radius.is_none());
    assert!(cfg.palette.is_none());
    assert!(cfg.tooltips.is_none());
    assert!(cfg.show_legend.is_none());
}

#[test]
fn pie_with_inner_radius() {
    let cfg = PieConfig::builder()
        .label("l")
        .value("v")
        .inner_radius(0.45f64.to_bits())
        .build()
        .unwrap();
    assert_eq!(cfg.inner_radius.map(f64::from_bits), Some(0.45));
}

#[test]
fn pie_with_named_palette() {
    let cfg = PieConfig::builder()
        .label("l")
        .value("v")
        .palette(PaletteSpec::Named("Viridis".into()))
        .build()
        .unwrap();
    assert!(matches!(cfg.palette, Some(PaletteSpec::Named(_))));
}

#[test]
fn pie_with_custom_palette() {
    let colors = vec!["#ff0000".into(), "#00ff00".into()];
    let cfg = PieConfig::builder()
        .label("l")
        .value("v")
        .palette(PaletteSpec::Custom(colors))
        .build()
        .unwrap();
    assert!(matches!(cfg.palette, Some(PaletteSpec::Custom(_))));
}

#[test]
fn pie_with_tooltips() {
    let tt = TooltipSpec::builder()
        .field("share", "Share", TooltipFormat::Percent(Some(1)))
        .build();
    let cfg = PieConfig::builder()
        .label("l")
        .value("v")
        .tooltips(tt)
        .build()
        .unwrap();
    let fields = &cfg.tooltips.as_ref().unwrap().fields;
    assert_eq!(fields.len(), 1);
    assert!(matches!(fields[0].format, TooltipFormat::Percent(Some(1))));
}

#[test]
fn pie_with_show_legend_false() {
    let cfg = PieConfig::builder()
        .label("l")
        .value("v")
        .show_legend(false)
        .build()
        .unwrap();
    assert_eq!(cfg.show_legend, Some(false));
}

#[test]
fn pie_with_show_legend_true() {
    let cfg = PieConfig::builder()
        .label("l")
        .value("v")
        .show_legend(true)
        .build()
        .unwrap();
    assert_eq!(cfg.show_legend, Some(true));
}

// density.rs

fn minimal() -> DensityConfig {
    DensityConfig::builder()
        .category("department")
        .value("salary_k")
        .y_label("Salary (k USD)")
        .build()
        .unwrap()
}

// ── Required field validation ─────────────────────────────────────────────

#[test]
fn missing_category_col() {
    assert!(matches!(
        DensityConfig::builder()
            .value("salary_k")
            .y_label("Salary")
            .build(),
        Err(ChartError::MissingField("category_col"))
    ));
}

#[test]
fn missing_value_col() {
    assert!(matches!(
        DensityConfig::builder()
            .category("department")
            .y_label("Salary")
            .build(),
        Err(ChartError::MissingField("value_col"))
    ));
}

#[test]
fn missing_y_label() {
    assert!(matches!(
        DensityConfig::builder()
            .category("department")
            .value("salary_k")
            .build(),
        Err(ChartError::MissingField("y_label"))
    ));
}

// ── Build success ─────────────────────────────────────────────────────────

#[test]
fn build_success() {
    let cfg = minimal();
    assert_eq!(cfg.category_col, "department");
    assert_eq!(cfg.value_col, "salary_k");
    assert_eq!(cfg.y_label, "Salary (k USD)");
}

// ── Optional fields default to None ──────────────────────────────────────

#[test]
fn optional_fields_default_none() {
    let cfg = minimal();
    assert!(cfg.palette.is_none());
    assert!(cfg.color.is_none());
    assert!(cfg.alpha.is_none());
    assert!(cfg.y_axis.is_none());
    assert!(cfg.point_threshold.is_none());
}

// ── Optional field setters ────────────────────────────────────────────────

#[test]
fn with_palette() {
    let cfg = DensityConfig::builder()
        .category("dept").value("val").y_label("Y")
        .palette(PaletteSpec::Named("Set2".into()))
        .build()
        .unwrap();
    assert!(matches!(cfg.palette, Some(PaletteSpec::Named(_))));
}

#[test]
fn with_custom_palette() {
    let cfg = DensityConfig::builder()
        .category("dept").value("val").y_label("Y")
        .palette(PaletteSpec::Custom(vec!["#ff0000".into(), "#00ff00".into()]))
        .build()
        .unwrap();
    assert!(matches!(cfg.palette, Some(PaletteSpec::Custom(_))));
}

#[test]
fn with_color() {
    let cfg = DensityConfig::builder()
        .category("dept").value("val").y_label("Y")
        .color("#e74c3c")
        .build()
        .unwrap();
    assert_eq!(cfg.color.as_deref(), Some("#e74c3c"));
}

#[test]
fn with_alpha() {
    let cfg = DensityConfig::builder()
        .category("dept").value("val").y_label("Y")
        .alpha(0.5f64.to_bits())
        .build()
        .unwrap();
    assert_eq!(cfg.alpha.map(f64::from_bits), Some(0.5));
}

#[test]
fn with_y_axis() {
    let ax = AxisConfig::builder().tick_format("0.0").show_grid(false).build();
    let cfg = DensityConfig::builder()
        .category("dept").value("val").y_label("Y")
        .y_axis(ax)
        .build()
        .unwrap();
    let y = cfg.y_axis.as_ref().unwrap();
    assert_eq!(y.tick_format.as_deref(), Some("0.0"));
    assert!(!y.show_grid);
}

#[test]
fn with_point_threshold() {
    let cfg = DensityConfig::builder()
        .category("dept").value("val").y_label("Y")
        .point_threshold(50)
        .build()
        .unwrap();
    assert_eq!(cfg.point_threshold, Some(50));
}

#[test]
fn with_all_optional_fields() {
    let cfg = DensityConfig::builder()
        .category("dept").value("val").y_label("Y")
        .palette(PaletteSpec::Named("Category10".into()))
        .alpha(0.7f64.to_bits())
        .point_threshold(20)
        .build()
        .unwrap();
    assert!(cfg.palette.is_some());
    assert_eq!(cfg.alpha.map(f64::from_bits), Some(0.7));
    assert_eq!(cfg.point_threshold, Some(20));
}

// scatter.rs

// ── ScatterConfig builder ─────────────────────────────────────────────────

#[test]
fn scatter_scatter_missing_x_col() {
    assert!(matches!(
        ScatterConfig::builder()
            .y("y")
            .x_label("X")
            .y_label("Y")
            .build(),
        Err(ChartError::MissingField("x_col"))
    ));
}

#[test]
fn scatter_scatter_missing_y_col() {
    assert!(matches!(
        ScatterConfig::builder()
            .x("x")
            .x_label("X")
            .y_label("Y")
            .build(),
        Err(ChartError::MissingField("y_col"))
    ));
}

#[test]
fn scatter_scatter_missing_x_label() {
    assert!(matches!(
        ScatterConfig::builder().x("x").y("y").y_label("Y").build(),
        Err(ChartError::MissingField("x_label"))
    ));
}

#[test]
fn scatter_scatter_missing_y_label() {
    assert!(matches!(
        ScatterConfig::builder().x("x").y("y").x_label("X").build(),
        Err(ChartError::MissingField("y_label"))
    ));
}

#[test]
fn scatter_scatter_build_success() {
    let cfg = ScatterConfig::builder()
        .x("revenue")
        .y("profit")
        .x_label("Revenue")
        .y_label("Profit")
        .build()
        .unwrap();
    assert_eq!(cfg.x_col, "revenue");
    assert_eq!(cfg.y_col, "profit");
    assert_eq!(cfg.x_label, "Revenue");
    assert_eq!(cfg.y_label, "Profit");
}

// ── ScatterConfig optional fields ─────────────────────────────────────────

#[test]
fn scatter_optional_fields_default_none() {
    let cfg = ScatterConfig::builder()
        .x("x").y("y").x_label("X").y_label("Y")
        .build().unwrap();
    assert!(cfg.color.is_none());
    assert!(cfg.marker.is_none());
    assert!(cfg.marker_size.is_none());
    assert!(cfg.alpha.is_none());
    assert!(cfg.tooltips.is_none());
    assert!(cfg.x_axis.is_none());
    assert!(cfg.y_axis.is_none());
}

#[test]
fn scatter_with_color() {
    let cfg = ScatterConfig::builder()
        .x("x").y("y").x_label("X").y_label("Y")
        .color("#9b59b6")
        .build().unwrap();
    assert_eq!(cfg.color.as_deref(), Some("#9b59b6"));
}

#[test]
fn scatter_with_marker() {
    let cfg = ScatterConfig::builder()
        .x("x").y("y").x_label("X").y_label("Y")
        .marker(MarkerType::Diamond)
        .build().unwrap();
    assert_eq!(cfg.marker, Some(MarkerType::Diamond));
}

#[test]
fn scatter_with_marker_size() {
    let cfg = ScatterConfig::builder()
        .x("x").y("y").x_label("X").y_label("Y")
        .marker_size(14.0f64.to_bits())
        .build().unwrap();
    assert_eq!(cfg.marker_size.map(f64::from_bits), Some(14.0));
}

#[test]
fn scatter_with_alpha() {
    let cfg = ScatterConfig::builder()
        .x("x").y("y").x_label("X").y_label("Y")
        .alpha(0.5f64.to_bits())
        .build().unwrap();
    assert_eq!(cfg.alpha.map(f64::from_bits), Some(0.5));
}

#[test]
fn scatter_with_tooltips() {
    let tt = TooltipSpec::builder()
        .field("x", "X Axis", TooltipFormat::Currency)
        .field("y", "Y Axis", TooltipFormat::Percent(Some(1)))
        .build();
    let cfg = ScatterConfig::builder()
        .x("x").y("y").x_label("X").y_label("Y")
        .tooltips(tt)
        .build().unwrap();
    let fields = &cfg.tooltips.as_ref().unwrap().fields;
    assert_eq!(fields.len(), 2);
    assert!(matches!(fields[0].format, TooltipFormat::Currency));
    assert!(matches!(fields[1].format, TooltipFormat::Percent(Some(1))));
}

#[test]
fn scatter_with_x_axis_range_and_bounds() {
    let ax = AxisConfig::builder()
        .range(0.0f64.to_bits(), 500.0f64.to_bits())
        .bounds(0.0f64.to_bits(), 600.0f64.to_bits())
        .build();
    let cfg = ScatterConfig::builder()
        .x("x").y("y").x_label("X").y_label("Y")
        .x_axis(ax)
        .build().unwrap();
    let x = cfg.x_axis.as_ref().unwrap();
    assert_eq!(x.start.map(f64::from_bits), Some(0.0));
    assert_eq!(x.end.map(f64::from_bits), Some(500.0));
    assert_eq!(x.bounds_min.map(f64::from_bits), Some(0.0));
    assert_eq!(x.bounds_max.map(f64::from_bits), Some(600.0));
}

#[test]
fn scatter_with_y_axis() {
    let ax = AxisConfig::builder().tick_format("0.00").show_grid(false).build();
    let cfg = ScatterConfig::builder()
        .x("x").y("y").x_label("X").y_label("Y")
        .y_axis(ax)
        .build().unwrap();
    let y = cfg.y_axis.as_ref().unwrap();
    assert_eq!(y.tick_format.as_deref(), Some("0.00"));
    assert!(!y.show_grid);
}

// spec.rs

// ── ChartConfig::chart_type_str ───────────────────────────────────────────

#[test]
fn spec_chart_type_str_grouped_bar() {
    let cfg = ChartConfig::GroupedBar(
        GroupedBarConfig::builder()
            .x("x")
            .group("g")
            .value("v")
            .y_label("Y")
            .build()
            .unwrap(),
    );
    assert_eq!(cfg.chart_type_str(), "grouped_bar");
}

#[test]
fn spec_chart_type_str_line() {
    let cfg = ChartConfig::Line(
        LineConfig::builder()
            .x("x")
            .y_cols(&["a"])
            .y_label("Y")
            .build()
            .unwrap(),
    );
    assert_eq!(cfg.chart_type_str(), "line_multi");
}

#[test]
fn spec_chart_type_str_hbar() {
    let cfg = ChartConfig::HBar(
        HBarConfig::builder()
            .category("c")
            .value("v")
            .x_label("X")
            .build()
            .unwrap(),
    );
    assert_eq!(cfg.chart_type_str(), "hbar");
}

#[test]
fn spec_chart_type_str_scatter() {
    let cfg = ChartConfig::Scatter(
        ScatterConfig::builder()
            .x("x")
            .y("y")
            .x_label("X")
            .y_label("Y")
            .build()
            .unwrap(),
    );
    assert_eq!(cfg.chart_type_str(), "scatter");
}

#[test]
fn chart_type_str_pie() {
    let cfg = ChartConfig::Pie(
        PieConfig::builder()
            .label("category")
            .value("amount")
            .build()
            .unwrap(),
    );
    assert_eq!(cfg.chart_type_str(), "pie");
}

#[test]
fn chart_spec_builder_pie_constructor() {
    let cfg = PieConfig::builder()
        .label("category")
        .value("amount")
        .build()
        .unwrap();
    let spec = ChartSpecBuilder::pie("Market Share", "market_share", cfg).build();
    assert_eq!(spec.config.chart_type_str(), "pie");
    assert_eq!(spec.title, "Market Share");
    assert_eq!(spec.source_key, "market_share");
}

// ── ChartSpecBuilder ──────────────────────────────────────────────────────

#[test]
fn spec_chart_spec_builder_defaults() {
    let cfg = HBarConfig::builder()
        .category("c")
        .value("v")
        .x_label("X")
        .build()
        .unwrap();
    let spec = ChartSpecBuilder::hbar("My Chart", "my_data", cfg).build();
    assert_eq!(spec.title, "My Chart");
    assert_eq!(spec.source_key, "my_data");
    assert_eq!(spec.grid.row, 0);
    assert_eq!(spec.grid.col, 0);
    assert_eq!(spec.grid.col_span, 1);
    assert!(!spec.filtered);
}

#[test]
fn spec_chart_spec_builder_at_sets_grid() {
    let cfg = HBarConfig::builder()
        .category("c")
        .value("v")
        .x_label("X")
        .build()
        .unwrap();
    let spec = ChartSpecBuilder::hbar("Chart", "data", cfg)
        .at(2, 1, 3)
        .build();
    assert_eq!(spec.grid.row, 2);
    assert_eq!(spec.grid.col, 1);
    assert_eq!(spec.grid.col_span, 3);
}

#[test]
fn spec_chart_spec_builder_filtered_flag() {
    let cfg = HBarConfig::builder()
        .category("c")
        .value("v")
        .x_label("X")
        .build()
        .unwrap();
    let spec = ChartSpecBuilder::hbar("Chart", "data", cfg)
        .filtered()
        .build();
    assert!(spec.filtered);
}

#[test]
fn spec_chart_spec_builder_bar_constructor() {
    let cfg = GroupedBarConfig::builder()
        .x("x")
        .group("g")
        .value("v")
        .y_label("Y")
        .build()
        .unwrap();
    let spec = ChartSpecBuilder::bar("Bar Chart", "src", cfg).build();
    assert_eq!(spec.config.chart_type_str(), "grouped_bar");
}

#[test]
fn spec_chart_spec_builder_line_constructor() {
    let cfg = LineConfig::builder()
        .x("x")
        .y_cols(&["a"])
        .y_label("Y")
        .build()
        .unwrap();
    let spec = ChartSpecBuilder::line("Line Chart", "src", cfg).build();
    assert_eq!(spec.config.chart_type_str(), "line_multi");
}

#[test]
fn spec_chart_spec_builder_scatter_constructor() {
    let cfg = ScatterConfig::builder()
        .x("x")
        .y("y")
        .x_label("X")
        .y_label("Y")
        .build()
        .unwrap();
    let spec = ChartSpecBuilder::scatter("Scatter", "src", cfg).build();
    assert_eq!(spec.config.chart_type_str(), "scatter");
}

// ── ChartSpecBuilder::density ─────────────────────────────────────────────

#[test]
fn chart_type_str_density() {
    let cfg = ChartConfig::Density(
        DensityConfig::builder()
            .category("dept")
            .value("salary_k")
            .y_label("Salary")
            .build()
            .unwrap(),
    );
    assert_eq!(cfg.chart_type_str(), "density");
}

#[test]
fn chart_spec_builder_density_constructor() {
    let cfg = DensityConfig::builder()
        .category("dept")
        .value("salary_k")
        .y_label("Salary (k USD)")
        .build()
        .unwrap();
    let spec = ChartSpecBuilder::density("Salary by Dept", "salary_raw", cfg).build();
    assert_eq!(spec.config.chart_type_str(), "density");
    assert_eq!(spec.title, "Salary by Dept");
    assert_eq!(spec.source_key, "salary_raw");
}

// ── ChartSpecBuilder::dimensions ──────────────────────────────────────────

#[test]
fn chart_spec_dimensions_default_none() {
    let cfg = HBarConfig::builder()
        .category("c").value("v").x_label("X")
        .build().unwrap();
    let spec = ChartSpecBuilder::hbar("Chart", "data", cfg).build();
    assert!(spec.width.is_none());
    assert!(spec.height.is_none());
}

#[test]
fn chart_spec_dimensions_sets_width_and_height() {
    let cfg = HBarConfig::builder()
        .category("c").value("v").x_label("X")
        .build().unwrap();
    let spec = ChartSpecBuilder::hbar("Chart", "data", cfg)
        .dimensions(800, 600)
        .build();
    assert_eq!(spec.width, Some(800));
    assert_eq!(spec.height, Some(600));
}

#[test]
fn chart_spec_dimensions_independent_of_filtered_and_grid() {
    let cfg = HBarConfig::builder()
        .category("c").value("v").x_label("X")
        .build().unwrap();
    let spec = ChartSpecBuilder::hbar("Chart", "data", cfg)
        .at(1, 0, 2)
        .filtered()
        .dimensions(1200, 400)
        .build();
    assert_eq!(spec.grid.row, 1);
    assert_eq!(spec.grid.col_span, 2);
    assert!(spec.filtered);
    assert_eq!(spec.width, Some(1200));
    assert_eq!(spec.height, Some(400));
}
