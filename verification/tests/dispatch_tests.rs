use rust_to_bokeh::chart_config::{
    ChartConfig, ChartSpec, ChartSpecBuilder, DensityConfig, GroupedBarConfig, HBarConfig, HistogramConfig, LineConfig,
    ScatterConfig,
};
use rust_to_bokeh::density::{DensityShape, KDE_GRID_POINTS};
use rust_to_bokeh::chart_dispatch::{build_chart_obj, ChartInputs};
use rust_to_bokeh::chart_spec::GridCell;
use rust_to_bokeh::error::ChartError;
use rust_to_bokeh::id_gen::IdGen;
use rust_to_bokeh::model::{BokehObject, BokehValue};

fn spec(key: &str, config: ChartConfig) -> ChartSpec {
    ChartSpec {
        title: "Chart".into(),
        source_key: key.into(),
        config,
        grid: GridCell { row: 0, col: 0, col_span: 1 },
        filtered: false,
        width: None,
        height: None,
    }
}

fn scatter_cfg() -> ScatterConfig {
    ScatterConfig::builder().x("x").y("y").x_label("X").y_label("Y").build().unwrap()
}

fn ranges() -> (BokehValue, BokehValue) {
    (
        BokehObject::new("DataRange1d", "xr".into()).into_value(),
        BokehObject::new("DataRange1d", "yr".into()).into_value(),
    )
}

#[test]
fn unregistered_source_key_is_refused_before_any_id_is_drawn() {
    let mut id_gen = IdGen::new();
    let (xr, yr) = ranges();
    let r = build_chart_obj(
        &mut id_gen,
        &spec("sales", ChartConfig::Scatter(scatter_cfg())),
        &vec!["costs".to_string()],
        ChartInputs::Scatter { data: vec![] },
        xr,
        yr,
        None,
    );
    assert!(matches!(r, Err(ChartError::NativeRender(m)) if m == "source_key 'sales' not registered"));
    assert_eq!(id_gen.next(), "p1001");
}

#[test]
fn registered_scatter_is_built_by_the_scatter_builder() {
    let mut id_gen = IdGen::new();
    let (xr, yr) = ranges();
    let fig = build_chart_obj(
        &mut id_gen,
        &spec("sales", ChartConfig::Scatter(scatter_cfg())),
        &vec!["costs".to_string(), "sales".to_string()],
        ChartInputs::Scatter { data: vec![] },
        xr,
        yr,
        None,
    )
    .unwrap();
    assert_eq!(fig.name, "Figure");
    let glyph = match fig.attributes.iter().find(|(k, _)| k == "renderers") {
        Some((_, BokehValue::Array(a))) => match &a[0] {
            BokehValue::Object(r) => match r.attributes.iter().find(|(k, _)| k == "glyph") {
                Some((_, BokehValue::Object(g))) => g.name.clone(),
                _ => panic!(),
            },
            _ => panic!(),
        },
        _ => panic!(),
    };
    assert_eq!(glyph, "Scatter");
}

#[test]
fn builder_errors_come_through_the_dispatch() {
    let cfg = HistogramConfig::builder()
        .x_label("X")
        .display(rust_to_bokeh::customization::HistogramDisplay::Cdf)
        .build()
        .unwrap();
    let mut id_gen = IdGen::new();
    let (xr, yr) = ranges();
    let r = build_chart_obj(
        &mut id_gen,
        &spec("bins", ChartConfig::Histogram(cfg)),
        &vec!["bins".to_string()],
        ChartInputs::Histogram { data: vec![], first_left: None, right: Ok(vec![]), cdf: Err("no cdf".into()) },
        xr,
        yr,
        None,
    );
    assert!(matches!(r, Err(ChartError::NativeRender(m)) if m == "no cdf"));
}

fn floats(v: &[f64]) -> BokehValue {
    BokehValue::Array(v.iter().map(|x| BokehValue::Float(x.to_bits())).collect())
}

fn texts(v: &[&str]) -> BokehValue {
    BokehValue::Array(v.iter().map(|x| BokehValue::Str(x.to_string())).collect())
}

fn dispatch(spec: &ChartSpec, key: &str, inputs: ChartInputs) -> Result<BokehObject, ChartError> {
    let mut id_gen = IdGen::new();
    let (xr, yr) = ranges();
    build_chart_obj(&mut id_gen, spec, &vec![key.to_string()], inputs, xr, yr, None)
}

#[test]
fn dispatch_scatter() {
    let spec = ChartSpecBuilder::scatter("T", "s", scatter_cfg()).build();
    let data = vec![("x".to_string(), floats(&[1.0])), ("y".to_string(), floats(&[2.0]))];
    let fig = dispatch(&spec, "s", ChartInputs::Scatter { data }).unwrap();
    assert_eq!(fig.name, "Figure");
}

#[test]
fn dispatch_line() {
    let spec = ChartSpecBuilder::line("T", "l", LineConfig::builder().x("x").y_cols(&["a"]).y_label("Y").build().unwrap())
        .build();
    let data = vec![("x".to_string(), floats(&[1.0])), ("a".to_string(), floats(&[2.0]))];
    let inputs = ChartInputs::Line { data, x_is_text: false, colors: vec!["#1f77b4".to_string()] };
    let fig = dispatch(&spec, "l", inputs).unwrap();
    assert_eq!(fig.name, "Figure");
}

#[test]
fn dispatch_hbar() {
    let spec = ChartSpecBuilder::hbar("T", "h", HBarConfig::builder().category("c").value("v").x_label("X").build().unwrap())
        .build();
    let data = vec![("c".to_string(), texts(&["A"])), ("v".to_string(), floats(&[10.0]))];
    let fig = dispatch(&spec, "h", ChartInputs::HBar { categories: Ok(vec!["A".to_string()]), data }).unwrap();
    assert_eq!(fig.name, "Figure");
}

#[test]
fn dispatch_histogram() {
    let spec = ChartSpecBuilder::histogram("T", "hi", HistogramConfig::builder().x_label("X").build().unwrap()).build();
    let data = vec![
        ("left".to_string(), floats(&[0.0])),
        ("right".to_string(), floats(&[10.0])),
        ("count".to_string(), floats(&[5.0])),
        ("pdf".to_string(), floats(&[0.1])),
        ("cdf".to_string(), floats(&[1.0])),
    ];
    let inputs = ChartInputs::Histogram {
        data,
        first_left: Some(0.0f64.to_bits()),
        right: Ok(vec![10.0f64.to_bits()]),
        cdf: Ok(vec![1.0f64.to_bits()]),
    };
    let fig = dispatch(&spec, "hi", inputs).unwrap();
    assert_eq!(fig.name, "Figure");
}

#[test]
fn dispatch_grouped_bar() {
    let spec = ChartSpecBuilder::bar(
        "T",
        "gb",
        GroupedBarConfig::builder().x("q").group("p").value("v").y_label("Y").build().unwrap(),
    )
    .build();
    let inputs = ChartInputs::GroupedBar {
        x_vals: Ok(vec!["Q1".to_string(), "Q1".to_string()]),
        group_vals: Ok(vec!["A".to_string(), "B".to_string()]),
        values: Ok(vec![10.0f64.to_bits(), 20.0f64.to_bits()]),
        colors: vec!["#1f77b4".to_string(), "#ff7f0e".to_string()],
    };
    let fig = dispatch(&spec, "gb", inputs).unwrap();
    assert_eq!(fig.name, "Figure");
}

#[test]
fn dispatch_density() {
    let spec = ChartSpecBuilder::density(
        "T",
        "d",
        DensityConfig::builder().category("cat").value("val").y_label("Y").build().unwrap(),
    )
    .build();
    let shape = || DensityShape {
        jitter: vec![0u64],
        right: vec![0u64; KDE_GRID_POINTS],
        left: vec![0u64; KDE_GRID_POINTS],
        median: 0,
    };
    let inputs = ChartInputs::Density {
        cat_vals: Ok(vec!["A".to_string(), "B".to_string()]),
        num_vals: Ok(vec![10.0f64.to_bits(), 20.0f64.to_bits()]),
        palette: vec!["#1f77b4".to_string(), "#ff7f0e".to_string()],
        shapes: vec![shape(), shape()],
        y_grid: vec![0u64; KDE_GRID_POINTS],
    };
    let fig = dispatch(&spec, "d", inputs).unwrap();
    assert_eq!(fig.name, "Figure");
}

#[test]
fn dispatch_missing_source_key_returns_error() {
    let spec = ChartSpecBuilder::scatter("T", "missing", scatter_cfg()).build();
    let mut id_gen = IdGen::new();
    let (xr, yr) = ranges();
    let result = build_chart_obj(&mut id_gen, &spec, &vec![], ChartInputs::Scatter { data: vec![] }, xr, yr, None);
    assert!(result.is_err());
}
