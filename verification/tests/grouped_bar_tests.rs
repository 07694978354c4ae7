use rust_to_bokeh::chart_config::{ChartConfig, ChartSpec, GroupedBarConfig};
use rust_to_bokeh::chart_spec::GridCell;
use rust_to_bokeh::error::ChartError;
use rust_to_bokeh::grouped_bar::{build_grouped_bar, grouped_bar_factors};
use rust_to_bokeh::id_gen::IdGen;
use rust_to_bokeh::model::{BokehObject, BokehValue};

fn find_attr<'a>(obj: &'a BokehObject, key: &str) -> Option<&'a BokehValue> {
    obj.attributes.iter().find(|(k, _)| k == key).map(|(_, v)| v)
}

fn value_mentions(v: &BokehValue, s: &str) -> bool {
    match v {
        BokehValue::Str(x) | BokehValue::Ref(x) | BokehValue::Field(x) => x == s,
        BokehValue::Value(b) => value_mentions(b, s),
        BokehValue::Array(a) => a.iter().any(|x| value_mentions(x, s)),
        BokehValue::Entries(e) => e.iter().any(|(k, x)| k == s || value_mentions(x, s)),
        BokehValue::Object(o) => mentions(o, s),
        _ => false,
    }
}

/// Whether `s` occurs as a name, id, key or string anywhere in `obj`.
fn mentions(obj: &BokehObject, s: &str) -> bool {
    obj.name == s || obj.id == s || obj.attributes.iter().any(|(k, v)| k == s || value_mentions(v, s))
}

fn strings(v: &[&str]) -> Vec<String> {
    v.iter().map(|s| s.to_string()).collect()
}

fn cfg() -> GroupedBarConfig {
    GroupedBarConfig::builder().x("quarter").group("product").value("revenue").y_label("Rev").build().unwrap()
}

fn test_spec(title: &str) -> ChartSpec {
    ChartSpec {
        title: title.into(),
        source_key: "test".into(),
        config: ChartConfig::GroupedBar(cfg()),
        grid: GridCell { row: 0, col: 0, col_span: 1 },
        filtered: false,
        width: None,
        height: None,
    }
}

fn build(title: &str, filter: Option<BokehValue>) -> BokehObject {
    let xs = strings(&["Q1", "Q1", "Q2", "Q2"]);
    let gs = strings(&["A", "B", "A", "B"]);
    let factors = grouped_bar_factors(&xs, &gs);
    let x_range = BokehObject::new("FactorRange", "xr".into()).attr("factors", BokehValue::Array(factors));
    let mut id_gen = IdGen::new();
    build_grouped_bar(
        &mut id_gen,
        &test_spec(title),
        &cfg(),
        Ok(xs),
        Ok(gs),
        Ok([100.0f64, 80.0, 120.0, 90.0].iter().map(|v| v.to_bits()).collect()),
        &strings(&["#1f77b4", "#ff7f0e"]),
        x_range.into_value(),
        BokehObject::new("DataRange1d", "yr".into()).into_value(),
        filter,
    )
    .unwrap()
}

fn renderer(fig: &BokehObject) -> BokehObject {
    match find_attr(fig, "renderers") {
        Some(BokehValue::Array(arr)) => {
            assert_eq!(arr.len(), 1);
            match &arr[0] {
                BokehValue::Object(r) => (**r).clone(),
                _ => panic!("renderer is not inline"),
            }
        },
        _ => panic!("no renderers"),
    }
}

#[test]
fn grouped_bar_produces_figure_with_vbar_glyph() {
    let fig = build("Grouped", None);
    assert_eq!(fig.name, "Figure");
    match find_attr(&renderer(&fig), "glyph") {
        Some(BokehValue::Object(g)) => assert_eq!(g.name, "VBar"),
        _ => panic!("no glyph"),
    }
}

#[test]
fn grouped_bar_uses_factor_range_with_tuples() {
    let fig = build("Factors", None);
    assert!(mentions(&fig, "FactorRange"));
    assert!(mentions(&fig, "Q1"));
    assert!(mentions(&fig, "Q2"));
}

#[test]
fn grouped_bar_has_legend() {
    let fig = build("Legend", None);
    assert!(mentions(&fig, "Legend"));
    assert!(mentions(&fig, "LegendItem"));
}

#[test]
fn grouped_bar_cds_has_fill_color_column() {
    let fig = build("FillColor", None);
    assert!(mentions(&fig, "_fill_color"));
}

#[test]
fn grouped_bar_with_filter_ref() {
    let filter = BokehObject::new("BooleanFilter", "bf1".into())
        .attr("booleans", BokehValue::Array(vec![BokehValue::Bool(true); 4]));
    let fig = build("Filtered", Some(filter.into_value()));
    assert!(mentions(&fig, "BooleanFilter"));
}

fn pair(v: &BokehValue) -> (String, String) {
    match v {
        BokehValue::Array(a) => match (&a[0], &a[1]) {
            (BokehValue::Str(x), BokehValue::Str(g)) => (x.clone(), g.clone()),
            _ => panic!("not a pair of strings"),
        },
        _ => panic!("not a pair"),
    }
}

#[test]
fn grouped_bar_factors_cross_categories_with_groups_in_first_seen_order() {
    let f = grouped_bar_factors(&strings(&["Q2", "Q1", "Q2"]), &strings(&["B", "A", "B"]));
    let pairs: Vec<(String, String)> = f.iter().map(pair).collect();
    let expected: Vec<(String, String)> = [("Q2", "B"), ("Q2", "A"), ("Q1", "B"), ("Q1", "A")]
        .iter()
        .map(|(x, g)| (x.to_string(), g.to_string()))
        .collect();
    assert_eq!(pairs, expected);
}

#[test]
fn grouped_bar_rows_take_the_colour_of_their_group_and_legend_lists_groups() {
    let fig = build("Colors", None);
    let r = renderer(&fig);
    let src = match find_attr(&r, "data_source") {
        Some(BokehValue::Object(s)) => (**s).clone(),
        _ => panic!(),
    };
    let data = match find_attr(&src, "data") {
        Some(BokehValue::Entries(e)) => e.clone(),
        _ => panic!(),
    };
    let names: Vec<&str> = data.iter().map(|(k, _)| k.as_str()).collect();
    assert_eq!(names, vec!["quarter", "product", "revenue", "_factors_quarter_product", "_fill_color"]);
    let fills: Vec<String> = match &data[4].1 {
        BokehValue::Array(a) => a
            .iter()
            .map(|v| match v {
                BokehValue::Str(s) => s.clone(),
                _ => panic!(),
            })
            .collect(),
        _ => panic!(),
    };
    assert_eq!(fills, strings(&["#1f77b4", "#ff7f0e", "#1f77b4", "#ff7f0e"]));
    // the x axis carries no label, the y axis the configured one
    assert!(mentions(&fig, "Rev"));
}

#[test]
fn grouped_bar_missing_group_column_fails_without_drawing_ids() {
    let mut id_gen = IdGen::new();
    let r = build_grouped_bar(
        &mut id_gen,
        &test_spec("Bad"),
        &cfg(),
        Ok(strings(&["Q1"])),
        Err("column 'product' not found".into()),
        Err("column 'revenue' not found".into()),
        &vec![],
        BokehValue::ref_of("xr"),
        BokehValue::ref_of("yr"),
        None,
    );
    assert!(matches!(r, Err(ChartError::NativeRender(m)) if m == "column 'product' not found"));
    assert_eq!(id_gen.next(), "p1001");
}
