use rust_to_bokeh::chart_config::{ChartConfig, ChartSpec, HistogramConfig};
use rust_to_bokeh::chart_spec::GridCell;
use rust_to_bokeh::customization::HistogramDisplay;
use rust_to_bokeh::error::ChartError;
use rust_to_bokeh::histogram::build_histogram;
use rust_to_bokeh::id_gen::IdGen;
use rust_to_bokeh::model::{BokehObject, BokehValue};

fn find_attr<'a>(obj: &'a BokehObject, key: &str) -> Option<&'a BokehValue> {
    obj.attributes.iter().find(|(k, _)| k == key).map(|(_, v)| v)
}

fn value_mentions(v: &BokehValue, s: &str) -> bool {
    match v {
        BokehValue::Str(x) | BokehValue::Ref(x) | BokehValue::Field(x) => x == s,
        BokehValue::Value(b) => value_mentions(b, s),
        BokehValue::Array(a) => a.iter().any(|x| value_mentions(x, s)),
        BokehValue::Entries(e) => e.iter().any(|(k, x)| k == s || value_mentions(x, s)),
        BokehValue::Object(o) => mentions(o, s),
        _ => false,
    }
}

/// Whether `s` occurs as a name, id, key or string anywhere in `obj`.
fn mentions(obj: &BokehObject, s: &str) -> bool {
    obj.name == s || obj.id == s || obj.attributes.iter().any(|(k, v)| k == s || value_mentions(v, s))
}

fn floats(v: &[f64]) -> Vec<BokehValue> {
    v.iter().map(|x| BokehValue::Float(x.to_bits())).collect()
}

fn bits(v: &[f64]) -> Vec<u64> {
    v.iter().map(|x| x.to_bits()).collect()
}

fn float_bits(v: &[BokehValue]) -> Vec<u64> {
    v.iter()
        .map(|x| match x {
            BokehValue::Float(b) => *b,
            _ => panic!("not a number"),
        })
        .collect()
}

fn hist_data() -> Vec<(String, BokehValue)> {
    vec![
        ("left".to_string(), BokehValue::Array(floats(&[0.0, 10.0, 20.0, 30.0]))),
        ("right".to_string(), BokehValue::Array(floats(&[10.0, 20.0, 30.0, 40.0]))),
        ("count".to_string(), BokehValue::Array(floats(&[5.0, 10.0, 8.0, 3.0]))),
        ("pdf".to_string(), BokehValue::Array(floats(&[0.05, 0.10, 0.08, 0.03]))),
        ("cdf".to_string(), BokehValue::Array(floats(&[0.19, 0.58, 0.88, 1.0]))),
    ]
}

fn test_spec(title: &str) -> ChartSpec {
    ChartSpec {
        title: title.into(),
        source_key: "test".into(),
        config: ChartConfig::Histogram(HistogramConfig::builder().x_label("X").build().unwrap()),
        grid: GridCell { row: 0, col: 0, col_span: 1 },
        filtered: false,
        width: None,
        height: None,
    }
}

fn build(cfg: &HistogramConfig, title: &str, filter: Option<BokehValue>) -> Result<BokehObject, ChartError> {
    let mut id_gen = IdGen::new();
    build_histogram(
        &mut id_gen,
        &test_spec(title),
        cfg,
        hist_data(),
        BokehObject::new("DataRange1d", "xr".into()).into_value(),
        BokehObject::new("DataRange1d", "yr".into()).into_value(),
        Some(0.0f64.to_bits()),
        Ok(bits(&[10.0, 20.0, 30.0, 40.0])),
        Ok(bits(&[0.19, 0.58, 0.88, 1.0])),
        filter,
    )
}

fn only_glyph(fig: &BokehObject) -> String {
    match find_attr(fig, "renderers") {
        Some(BokehValue::Array(arr)) => {
            assert_eq!(arr.len(), 1);
            match &arr[0] {
                BokehValue::Object(r) => match find_attr(r, "glyph") {
                    Some(BokehValue::Object(g)) => g.name.clone(),
                    _ => panic!("no glyph"),
                },
                _ => panic!("renderer is not inline"),
            }
        },
        _ => panic!("no renderers"),
    }
}

#[test]
fn histogram_count_mode_uses_quad_glyph() {
    let cfg = HistogramConfig::builder().x_label("X").build().unwrap();
    let fig = build(&cfg, "Count", None).unwrap();
    assert_eq!(fig.name, "Figure");
    assert_eq!(only_glyph(&fig), "Quad");
}

#[test]
fn histogram_pdf_mode_uses_quad_glyph() {
    let cfg = HistogramConfig::builder().x_label("X").display(HistogramDisplay::Pdf).build().unwrap();
    let fig = build(&cfg, "PDF", None).unwrap();
    assert!(mentions(&fig, "Quad"));
}

#[test]
fn histogram_cdf_mode_uses_line_glyph() {
    let cfg = HistogramConfig::builder().x_label("X").display(HistogramDisplay::Cdf).build().unwrap();
    let fig = build(&cfg, "CDF", None).unwrap();
    assert_eq!(only_glyph(&fig), "Line");
}

#[test]
fn histogram_with_filter_ref() {
    let cfg = HistogramConfig::builder().x_label("X").build().unwrap();
    let filter = BokehObject::new("BooleanFilter", "bf1".into())
        .attr("booleans", BokehValue::Array(vec![BokehValue::Bool(true); 4]));
    let fig = build(&cfg, "Filtered", Some(filter.into_value())).unwrap();
    assert!(mentions(&fig, "BooleanFilter"));
}

#[test]
fn histogram_custom_color() {
    let cfg = HistogramConfig::builder().x_label("X").color("#2ecc71").build().unwrap();
    let fig = build(&cfg, "Color", None).unwrap();
    assert!(mentions(&fig, "#2ecc71"));
}

#[test]
fn histogram_ids_follow_hover_figure_source_renderer() {
    let cfg = HistogramConfig::builder().x_label("X").build().unwrap();
    let mut id_gen = IdGen::new();
    let fig = build_histogram(
        &mut id_gen,
        &test_spec("Ids"),
        &cfg,
        hist_data(),
        BokehValue::ref_of("xr"),
        BokehValue::ref_of("yr"),
        None,
        Err("no right".into()),
        Err("no cdf".into()),
        None,
    )
    .unwrap();
    // hover p1001, scales, title, axes (4 ids each), toolbar: figure is p1027
    assert_eq!(fig.id, "p1027");
    let renderer = match find_attr(&fig, "renderers") {
        Some(BokehValue::Array(a)) => match &a[0] {
            BokehValue::Object(r) => r.clone(),
            _ => panic!(),
        },
        _ => panic!(),
    };
    // source p1028..p1030, quads p1031 and p1032, then the view, its filter and the renderer p1035
    assert_eq!(renderer.id, "p1035");
    match find_attr(&renderer, "data_source") {
        Some(BokehValue::Object(s)) => {
            assert_eq!(s.name, "ColumnDataSource");
            assert_eq!(s.id, "p1028");
        },
        _ => panic!("no inline source"),
    }
    assert!(mentions(&fig, "Count"));
}

#[test]
fn histogram_cdf_step_line_starts_at_zero_on_the_first_left_edge() {
    let cfg = HistogramConfig::builder().x_label("X").display(HistogramDisplay::Cdf).build().unwrap();
    let fig = build(&cfg, "Step", None).unwrap();
    let renderer = match find_attr(&fig, "renderers") {
        Some(BokehValue::Array(a)) => match &a[0] {
            BokehValue::Object(r) => r.clone(),
            _ => panic!(),
        },
        _ => panic!(),
    };
    let src = match find_attr(&renderer, "data_source") {
        Some(BokehValue::Object(s)) => s.clone(),
        _ => panic!(),
    };
    let data = match find_attr(&src, "data") {
        Some(BokehValue::Entries(e)) => e.clone(),
        _ => panic!(),
    };
    assert_eq!(data[0].0, "x");
    assert_eq!(data[1].0, "y");
    let ys = match &data[1].1 {
        BokehValue::Array(a) => a.clone(),
        _ => panic!(),
    };
    let xs = match &data[0].1 {
        BokehValue::Array(a) => a.clone(),
        _ => panic!(),
    };
    assert_eq!(float_bits(&xs), bits(&[0.0, 10.0, 20.0, 30.0, 40.0]));
    assert_eq!(float_bits(&ys), bits(&[0.0, 0.19, 0.58, 0.88, 1.0]));
    assert!(mentions(&fig, "Cumulative Fraction"));
}

#[test]
fn histogram_cdf_without_right_column_fails() {
    let cfg = HistogramConfig::builder().x_label("X").display(HistogramDisplay::Cdf).build().unwrap();
    let mut id_gen = IdGen::new();
    let r = build_histogram(
        &mut id_gen,
        &test_spec("Bad"),
        &cfg,
        hist_data(),
        BokehValue::ref_of("xr"),
        BokehValue::ref_of("yr"),
        None,
        Err("column 'right' not found".into()),
        Ok(vec![]),
        None,
    );
    assert!(matches!(r, Err(ChartError::NativeRender(m)) if m == "column 'right' not found"));
}
