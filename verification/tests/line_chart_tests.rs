use rust_to_bokeh::chart_config::{ChartConfig, ChartSpec, LineConfig};
use rust_to_bokeh::chart_spec::GridCell;
use rust_to_bokeh::id_gen::IdGen;
use rust_to_bokeh::line_chart::build_line;
use rust_to_bokeh::model::{BokehObject, BokehValue};

fn find_attr<'a>(obj: &'a BokehObject, key: &str) -> Option<&'a BokehValue> {
    obj.attributes.iter().find(|(k, _)| k == key).map(|(_, v)| v)
}

fn value_mentions(v: &BokehValue, s: &str) -> bool {
    match v {
        BokehValue::Str(x) | BokehValue::Ref(x) | BokehValue::Field(x) => x == s,
        BokehValue::Value(b) => value_mentions(b, s),
        BokehValue::Array(a) => a.iter().any(|x| value_mentions(x, s)),
        BokehValue::Entries(e) => e.iter().any(|(k, x)| k == s || value_mentions(x, s)),
        BokehValue::Object(o) => mentions(o, s),
        _ => false,
    }
}

/// Whether `s` occurs as a name, id, key or string anywhere in `obj`.
fn mentions(obj: &BokehObject, s: &str) -> bool {
    obj.name == s || obj.id == s || obj.attributes.iter().any(|(k, v)| k == s || value_mentions(v, s))
}

fn floats(v: &[f64]) -> BokehValue {
    BokehValue::Array(v.iter().map(|x| BokehValue::Float(x.to_bits())).collect())
}

fn numeric_data() -> Vec<(String, BokehValue)> {
    vec![
        ("x".to_string(), floats(&[1.0, 2.0, 3.0])),
        ("a".to_string(), floats(&[10.0, 20.0, 30.0])),
        ("b".to_string(), floats(&[5.0, 15.0, 25.0])),
    ]
}

fn text_data() -> Vec<(String, BokehValue)> {
    vec![
        (
            "month".to_string(),
            BokehValue::Array(["Jan", "Feb", "Mar"].iter().map(|s| BokehValue::Str(s.to_string())).collect()),
        ),
        ("rev".to_string(), floats(&[10.0, 20.0, 30.0])),
        ("exp".to_string(), floats(&[5.0, 10.0, 15.0])),
    ]
}

fn test_spec(title: &str) -> ChartSpec {
    ChartSpec {
        title: title.into(),
        source_key: "test".into(),
        config: ChartConfig::Line(LineConfig::builder().x("x").y_cols(&["a"]).y_label("Y").build().unwrap()),
        grid: GridCell { row: 0, col: 0, col_span: 1 },
        filtered: false,
        width: None,
        height: None,
    }
}

fn palette() -> Vec<String> {
    vec!["#1f77b4".to_string(), "#ff7f0e".to_string(), "#2ca02c".to_string()]
}

fn build(
    cfg: &LineConfig,
    data: Vec<(String, BokehValue)>,
    x_is_text: bool,
    x_range: BokehValue,
    filter: Option<BokehValue>,
) -> BokehObject {
    let mut id_gen = IdGen::new();
    build_line(
        &mut id_gen,
        &test_spec("Line"),
        cfg,
        data,
        x_is_text,
        &palette(),
        x_range,
        BokehObject::new("DataRange1d", "yr".into()).into_value(),
        filter,
    )
}

fn data_range() -> BokehValue {
    BokehObject::new("DataRange1d", "xr".into()).into_value()
}

fn renderers(fig: &BokehObject) -> Vec<BokehObject> {
    match find_attr(fig, "renderers") {
        Some(BokehValue::Array(a)) => a
            .iter()
            .map(|v| match v {
                BokehValue::Object(o) => (**o).clone(),
                _ => panic!(),
            })
            .collect(),
        _ => panic!("no renderers"),
    }
}

#[test]
fn line_single_series_has_line_and_scatter_renderers() {
    let cfg = LineConfig::builder().x("x").y_cols(&["a"]).y_label("Y").build().unwrap();
    let fig = build(&cfg, numeric_data(), false, data_range(), None);
    assert_eq!(fig.name, "Figure");
    let rs = renderers(&fig);
    assert_eq!(rs.len(), 2);
    let names: Vec<String> = rs
        .iter()
        .map(|r| match find_attr(r, "glyph") {
            Some(BokehValue::Object(g)) => g.name.clone(),
            _ => panic!(),
        })
        .collect();
    assert!(names.contains(&"Line".to_string()), "should have Line glyph");
    assert!(names.contains(&"Scatter".to_string()), "should have Scatter circle marker");
}

#[test]
fn line_multi_series_has_correct_renderer_count() {
    let cfg = LineConfig::builder().x("x").y_cols(&["a", "b"]).y_label("Y").build().unwrap();
    let fig = build(&cfg, numeric_data(), false, data_range(), None);
    assert_eq!(renderers(&fig).len(), 4);
}

#[test]
fn line_has_legend() {
    let cfg = LineConfig::builder().x("x").y_cols(&["a", "b"]).y_label("Y").build().unwrap();
    let fig = build(&cfg, numeric_data(), false, data_range(), None);
    assert!(mentions(&fig, "Legend"));
    assert!(mentions(&fig, "LegendItem"));
    assert!(mentions(&fig, "hide"), "click_policy should be hide");
}

#[test]
fn line_categorical_x_uses_factor_range() {
    let cfg = LineConfig::builder().x("month").y_cols(&["rev"]).y_label("Y").build().unwrap();
    let factors: Vec<BokehValue> = ["Jan", "Feb", "Mar"].iter().map(|s| BokehValue::Str(s.to_string())).collect();
    let x_range = BokehObject::new("FactorRange", "xr".into()).attr("factors", BokehValue::Array(factors));
    let fig = build(&cfg, text_data(), true, x_range.into_value(), None);
    assert!(mentions(&fig, "FactorRange"));
    assert!(mentions(&fig, "Jan"));
    assert!(mentions(&fig, "CategoricalAxis"));
}

#[test]
fn line_with_filter_ref() {
    let cfg = LineConfig::builder().x("x").y_cols(&["a"]).y_label("Y").build().unwrap();
    let filter = BokehObject::new("BooleanFilter", "bf1".into())
        .attr("booleans", BokehValue::Array(vec![BokehValue::Bool(true); 3]));
    let fig = build(&cfg, numeric_data(), false, data_range(), Some(filter.into_value()));
    assert!(mentions(&fig, "BooleanFilter"));
}

#[test]
fn line_with_range_tool_x_range() {
    let cfg = LineConfig::builder().x("x").y_cols(&["a"]).y_label("Y").build().unwrap();
    let fig = build(&cfg, numeric_data(), false, BokehValue::ref_of("shared_range"), None);
    assert!(mentions(&fig, "shared_range"));
}

#[test]
fn line_cds_embeds_data() {
    let cfg = LineConfig::builder().x("x").y_cols(&["a"]).y_label("Y").build().unwrap();
    let fig = build(&cfg, numeric_data(), false, data_range(), None);
    assert!(mentions(&fig, "ColumnDataSource"));
}

#[test]
fn line_later_series_refer_to_the_first_series_source() {
    let cfg = LineConfig::builder().x("x").y_cols(&["a", "b"]).y_label("Y").build().unwrap();
    let fig = build(&cfg, numeric_data(), false, data_range(), None);
    let rs = renderers(&fig);
    let cds_id = match find_attr(&rs[0], "data_source") {
        Some(BokehValue::Object(s)) => s.id.clone(),
        _ => panic!("first series carries the source inline"),
    };
    for r in &rs[1..] {
        assert!(matches!(find_attr(r, "data_source"), Some(BokehValue::Ref(id)) if *id == cds_id));
    }
    // each series takes its palette colour
    assert!(mentions(&fig, "#1f77b4"));
    assert!(mentions(&fig, "#ff7f0e"));
}
