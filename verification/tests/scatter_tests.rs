use rust_to_bokeh::chart_config::{ChartConfig, ChartSpec, ScatterConfig};
use rust_to_bokeh::chart_spec::GridCell;
use rust_to_bokeh::customization::MarkerType;
use rust_to_bokeh::id_gen::IdGen;
use rust_to_bokeh::model::{BokehObject, BokehValue};
use rust_to_bokeh::scatter::build_scatter;

fn find_attr<'a>(obj: &'a BokehObject, key: &str) -> Option<&'a BokehValue> {
    obj.attributes.iter().find(|(k, _)| k == key).map(|(_, v)| v)
}

fn value_mentions(v: &BokehValue, s: &str) -> bool {
    match v {
        BokehValue::Str(x) | BokehValue::Ref(x) | BokehValue::Field(x) => x == s,
        BokehValue::Value(b) => value_mentions(b, s),
        BokehValue::Array(a) => a.iter().any(|x| value_mentions(x, s)),
        BokehValue::Entries(e) => e.iter().any(|(k, x)| k == s || value_mentions(x, s)),
        BokehValue::Object(o) => mentions(o, s),
        _ => false,
    }
}

/// Whether `s` occurs as a name, id, key or string anywhere in `obj`.
fn mentions(obj: &BokehObject, s: &str) -> bool {
    obj.name == s || obj.id == s || obj.attributes.iter().any(|(k, v)| k == s || value_mentions(v, s))
}

fn value_has_number(v: &BokehValue, pred: &dyn Fn(&BokehValue) -> bool) -> bool {
    pred(v)
        || match v {
            BokehValue::Value(b) => value_has_number(b, pred),
            BokehValue::Array(a) => a.iter().any(|x| value_has_number(x, pred)),
            BokehValue::Entries(e) => e.iter().any(|(_, x)| value_has_number(x, pred)),
            BokehValue::Object(o) => has_number(o, pred),
            _ => false,
        }
}

fn has_number(obj: &BokehObject, pred: &dyn Fn(&BokehValue) -> bool) -> bool {
    obj.attributes.iter().any(|(_, v)| value_has_number(v, pred))
}

fn cfg() -> ScatterConfig {
    ScatterConfig::builder().x("x").y("y").x_label("X").y_label("Y").build().unwrap()
}

fn test_spec(title: &str) -> ChartSpec {
    ChartSpec {
        title: title.into(),
        source_key: "test".into(),
        config: ChartConfig::Scatter(cfg()),
        grid: GridCell { row: 0, col: 0, col_span: 1 },
        filtered: false,
        width: None,
        height: None,
    }
}

fn data() -> Vec<(String, BokehValue)> {
    let col = |v: [f64; 3]| BokehValue::Array(v.iter().map(|x| BokehValue::Float(x.to_bits())).collect());
    vec![("x".to_string(), col([1.0, 2.0, 3.0])), ("y".to_string(), col([4.0, 5.0, 6.0]))]
}

fn build_with(spec: &ChartSpec, cfg: &ScatterConfig, filter: Option<BokehValue>, x_range: BokehValue) -> BokehObject {
    let mut id_gen = IdGen::new();
    build_scatter(
        &mut id_gen,
        spec,
        cfg,
        data(),
        x_range,
        BokehObject::new("DataRange1d", "yr".into()).into_value(),
        filter,
    )
}

fn build(cfg: &ScatterConfig, filter: Option<BokehValue>) -> BokehObject {
    build_with(&test_spec("Scatter"), cfg, filter, BokehObject::new("DataRange1d", "xr".into()).into_value())
}

fn renderer(fig: &BokehObject) -> BokehObject {
    match find_attr(fig, "renderers") {
        Some(BokehValue::Array(arr)) => {
            assert_eq!(arr.len(), 1);
            match &arr[0] {
                BokehValue::Object(r) => (**r).clone(),
                _ => panic!(),
            }
        },
        _ => panic!("no renderers"),
    }
}

#[test]
fn scatter_produces_figure_with_scatter_glyph() {
    let fig = build(&cfg(), None);
    assert_eq!(fig.name, "Figure");
    let r = renderer(&fig);
    assert_eq!(r.name, "GlyphRenderer");
    match find_attr(&r, "glyph") {
        Some(BokehValue::Object(g)) => assert_eq!(g.name, "Scatter"),
        _ => panic!("no glyph"),
    }
}

#[test]
fn scatter_default_color_and_marker() {
    let fig = build(&cfg(), None);
    assert!(mentions(&fig, "#4C72B0"), "default color");
    assert!(mentions(&fig, "circle"), "default marker");
}

#[test]
fn scatter_custom_color_marker_size_alpha() {
    let cfg = ScatterConfig::builder()
        .x("x")
        .y("y")
        .x_label("X")
        .y_label("Y")
        .color("#ff0000")
        .marker(MarkerType::Square)
        .marker_size(15.0f64.to_bits())
        .alpha(0.5f64.to_bits())
        .build()
        .unwrap();
    let fig = build(&cfg, None);
    assert!(mentions(&fig, "#ff0000"));
    assert!(mentions(&fig, "square"));
    assert!(has_number(&fig, &|v| matches!(v, BokehValue::Float(b) if *b == 15.0f64.to_bits())));
}

#[test]
fn scatter_with_filter_ref_embeds_filter_in_view() {
    let filter = BokehObject::new("BooleanFilter", "bf1".into())
        .attr("booleans", BokehValue::Array(vec![BokehValue::Bool(true); 3]));
    let fig = build(&cfg(), Some(filter.into_value()));
    assert!(mentions(&fig, "BooleanFilter"));
    assert!(mentions(&fig, "CDSView"));
}

#[test]
fn scatter_without_filter_uses_all_indices() {
    let fig = build(&cfg(), None);
    assert!(mentions(&fig, "AllIndices"));
}

#[test]
fn scatter_with_fixed_dimensions() {
    let mut spec = test_spec("Sized");
    spec.width = Some(800);
    spec.height = Some(600);
    let fig = build_with(&spec, &cfg(), None, BokehObject::new("DataRange1d", "xr".into()).into_value());
    assert!(mentions(&fig, "fixed"));
    assert!(has_number(&fig, &|v| matches!(v, BokehValue::Int(800))));
    assert!(has_number(&fig, &|v| matches!(v, BokehValue::Int(600))));
}

#[test]
fn scatter_has_hover_tool() {
    let fig = build(&cfg(), None);
    assert!(mentions(&fig, "HoverTool"));
}

#[test]
fn scatter_cds_contains_data_columns() {
    let fig = build(&cfg(), None);
    assert!(mentions(&fig, "ColumnDataSource"));
    assert!(mentions(&fig, "x"));
    assert!(mentions(&fig, "y"));
}

#[test]
fn scatter_nonselection_glyph_has_low_alpha() {
    let fig = build(&cfg(), None);
    match find_attr(&renderer(&fig), "nonselection_glyph") {
        Some(BokehValue::Object(ns)) => {
            assert_eq!(ns.name, "Scatter");
            assert!(has_number(ns, &|v| matches!(v, BokehValue::Float(b) if *b == 0.1f64.to_bits())));
        },
        _ => panic!("no nonselection glyph"),
    }
}

#[test]
fn scatter_with_range_tool_x_range() {
    let fig = build_with(&test_spec("RT"), &cfg(), None, BokehValue::ref_of("rt_range_1"));
    assert!(mentions(&fig, "rt_range_1"));
}

#[test]
fn scatter_axis_labels_applied() {
    let cfg = ScatterConfig::builder().x("x").y("y").x_label("Revenue").y_label("Profit").build().unwrap();
    let fig = build(&cfg, None);
    assert!(mentions(&fig, "Revenue"));
    assert!(mentions(&fig, "Profit"));
}
