use rust_to_bokeh::chart_config::{AxisConfig, ChartConfig, ChartSpec, HBarConfig};
use rust_to_bokeh::chart_spec::GridCell;
use rust_to_bokeh::error::ChartError;
use rust_to_bokeh::hbar::{build_hbar, hbar_factors};
use rust_to_bokeh::id_gen::IdGen;
use rust_to_bokeh::model::{BokehObject, BokehValue};

fn find_attr<'a>(obj: &'a BokehObject, key: &str) -> Option<&'a BokehValue> {
    obj.attributes.iter().find(|(k, _)| k == key).map(|(_, v)| v)
}

fn value_mentions(v: &BokehValue, s: &str) -> bool {
    match v {
        BokehValue::Str(x) | BokehValue::Ref(x) | BokehValue::Field(x) => x == s,
        BokehValue::Value(b) => value_mentions(b, s),
        BokehValue::Array(a) => a.iter().any(|x| value_mentions(x, s)),
        BokehValue::Entries(e) => e.iter().any(|(k, x)| k == s || value_mentions(x, s)),
        BokehValue::Object(o) => mentions(o, s),
        _ => false,
    }
}

/// Whether `s` occurs as a name, id, key or string anywhere in `obj`.
fn mentions(obj: &BokehObject, s: &str) -> bool {
    obj.name == s || obj.id == s || obj.attributes.iter().any(|(k, v)| k == s || value_mentions(v, s))
}

fn strings(v: &[&str]) -> Vec<String> {
    v.iter().map(|s| s.to_string()).collect()
}

fn test_spec(title: &str) -> ChartSpec {
    ChartSpec {
        title: title.into(),
        source_key: "test".into(),
        config: ChartConfig::HBar(HBarConfig::builder().category("dept").value("headcount").x_label("X").build().unwrap()),
        grid: GridCell { row: 0, col: 0, col_span: 1 },
        filtered: false,
        width: None,
        height: None,
    }
}

fn build(cfg: &HBarConfig, title: &str, filter: Option<BokehValue>) -> BokehObject {
    let cats = strings(&["Eng", "Sales", "HR"]);
    let y_range = BokehObject::new("FactorRange", "yr".into()).attr("factors", BokehValue::Array(hbar_factors(&cats)));
    let data = vec![
        ("dept".to_string(), BokehValue::Array(cats.iter().map(|s| BokehValue::Str(s.clone())).collect())),
        (
            "headcount".to_string(),
            BokehValue::Array([50.0f64, 30.0, 20.0].iter().map(|v| BokehValue::Float(v.to_bits())).collect()),
        ),
    ];
    let mut id_gen = IdGen::new();
    build_hbar(
        &mut id_gen,
        &test_spec(title),
        cfg,
        &Ok(cats),
        data,
        BokehObject::new("DataRange1d", "xr".into()).into_value(),
        y_range.into_value(),
        filter,
    )
    .unwrap()
}

fn cfg() -> HBarConfig {
    HBarConfig::builder().category("dept").value("headcount").x_label("X").build().unwrap()
}

#[test]
fn hbar_produces_figure_with_hbar_glyph() {
    let fig = build(&cfg(), "HBar", None);
    assert_eq!(fig.name, "Figure");
    match find_attr(&fig, "renderers") {
        Some(BokehValue::Array(arr)) => {
            assert_eq!(arr.len(), 1);
            match &arr[0] {
                BokehValue::Object(r) => match find_attr(r, "glyph") {
                    Some(BokehValue::Object(g)) => assert_eq!(g.name, "HBar"),
                    _ => panic!("no glyph"),
                },
                _ => panic!(),
            }
        },
        _ => panic!("no renderers"),
    }
}

#[test]
fn hbar_uses_factor_range_for_y_axis() {
    let fig = build(&cfg(), "Factors", None);
    assert!(mentions(&fig, "FactorRange"));
    assert!(mentions(&fig, "HR"));
    assert!(mentions(&fig, "Sales"));
    assert!(mentions(&fig, "Eng"));
}

#[test]
fn hbar_custom_color() {
    let cfg = HBarConfig::builder().category("dept").value("headcount").x_label("X").color("#e74c3c").build().unwrap();
    let fig = build(&cfg, "Color", None);
    assert!(mentions(&fig, "#e74c3c"));
}

#[test]
fn hbar_with_filter_ref() {
    let filter = BokehObject::new("BooleanFilter", "bf1".into())
        .attr("booleans", BokehValue::Array(vec![BokehValue::Bool(true); 3]));
    let fig = build(&cfg(), "Filtered", Some(filter.into_value()));
    assert!(mentions(&fig, "BooleanFilter"));
}

#[test]
fn hbar_hide_x_grid_when_configured() {
    let cfg = HBarConfig::builder()
        .category("dept")
        .value("headcount")
        .x_label("X")
        .x_axis(AxisConfig::builder().show_grid(false).build())
        .build()
        .unwrap();
    let fig = build(&cfg, "NoGrid", None);
    assert!(mentions(&fig, "grid_line_color"));
}

#[test]
fn hbar_factors_put_the_first_row_on_top() {
    let f = hbar_factors(&strings(&["Eng", "Sales", "HR"]));
    let names: Vec<String> = f
        .iter()
        .map(|v| match v {
            BokehValue::Str(s) => s.clone(),
            _ => panic!(),
        })
        .collect();
    assert_eq!(names, strings(&["HR", "Sales", "Eng"]));
}

#[test]
fn hbar_missing_category_column_fails() {
    let mut id_gen = IdGen::new();
    let r = build_hbar(
        &mut id_gen,
        &test_spec("Bad"),
        &cfg(),
        &Err("column 'dept' not found".into()),
        vec![],
        BokehValue::ref_of("xr"),
        BokehValue::ref_of("yr"),
        None,
    );
    assert!(matches!(r, Err(ChartError::NativeRender(m)) if m == "column 'dept' not found"));
    assert_eq!(id_gen.next(), "p1001");
}
