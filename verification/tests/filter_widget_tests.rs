use rust_to_bokeh::customization::TimeScale;
use rust_to_bokeh::error::ChartError;
use rust_to_bokeh::filter_spec::{build_filter_widgets, DateStep, FilterSpec};
use rust_to_bokeh::filters::FilterOutput;
use rust_to_bokeh::id_gen::IdGen;
use rust_to_bokeh::model::{BokehObject, BokehValue};

fn find_attr<'a>(obj: &'a BokehObject, key: &str) -> Option<&'a BokehValue> {
    obj.attributes.iter().find(|(k, _)| k == key).map(|(_, v)| v)
}

fn bits(x: f64) -> u64 {
    x.to_bits()
}

/// Every string held anywhere in a model: names, ids, keys, texts,
/// fields and references.
fn texts_of_obj(o: &BokehObject, out: &mut Vec<String>) {
    out.push(o.name.clone());
    out.push(o.id.clone());
    for (k, v) in &o.attributes {
        out.push(k.clone());
        texts_of_value(v, out);
    }
}

fn texts_of_value(v: &BokehValue, out: &mut Vec<String>) {
    match v {
        BokehValue::Str(s) | BokehValue::Field(s) | BokehValue::Ref(s) => out.push(s.clone()),
        BokehValue::Array(a) => a.iter().for_each(|x| texts_of_value(x, out)),
        BokehValue::Entries(e) => e.iter().for_each(|(k, x)| {
            out.push(k.clone());
            texts_of_value(x, out)
        }),
        BokehValue::Object(o) => texts_of_obj(o, out),
        BokehValue::Value(b) => texts_of_value(b, out),
        BokehValue::FieldTransform { field, transform } => {
            out.push(field.clone());
            texts_of_value(transform, out)
        }
        _ => {}
    }
}

fn mentions(o: &BokehObject, needle: &str) -> bool {
    let mut t = Vec::new();
    texts_of_obj(o, &mut t);
    t.iter().any(|s| s.contains(needle))
}

fn frames(key: &str) -> Vec<(String, usize)> {
    vec![(key.to_string(), 5)]
}

fn widgets(filters: &[FilterSpec], key: &str) -> (Vec<FilterOutput>, Vec<FilterOutput>) {
    let mut id_gen = IdGen::new();
    build_filter_widgets(&mut id_gen, filters, &frames(key)).unwrap()
}

#[test]
fn range_filter_produces_range_slider_and_boolean_filter() {
    let filters = vec![FilterSpec::range("src", "value", "Value Range", bits(10.0), bits(50.0), bits(5.0))];
    let (cds_filters, rt_filters) = widgets(&filters, "src");
    assert_eq!(cds_filters.len(), 1);
    assert!(rt_filters.is_empty());
    let f = &cds_filters[0];
    assert_eq!(f.widget.name, "RangeSlider");
    assert_eq!(f.filter_obj.name, "BooleanFilter");
    assert_eq!(f.source_key, "src");
    assert!(!f.is_range_tool);
    assert!(f.switch_label.is_none());
}

#[test]
fn range_filter_slider_has_correct_bounds() {
    let filters = vec![FilterSpec::range("src", "value", "Range", bits(10.0), bits(50.0), bits(5.0))];
    let (cds, _) = widgets(&filters, "src");
    assert!(matches!(find_attr(&cds[0].widget, "start"), Some(BokehValue::Float(b)) if f64::from_bits(*b) == 10.0));
    assert!(matches!(find_attr(&cds[0].widget, "end"), Some(BokehValue::Float(b)) if f64::from_bits(*b) == 50.0));
}

#[test]
fn range_filter_boolean_array_all_true_initially() {
    let filters = vec![FilterSpec::range("src", "value", "Range", bits(0.0), bits(100.0), bits(1.0))];
    let (cds, _) = widgets(&filters, "src");
    if let Some(BokehValue::Array(bools)) = find_attr(&cds[0].filter_obj, "booleans") {
        assert_eq!(bools.len(), 5);
        for b in bools {
            assert!(matches!(b, BokehValue::Bool(true)));
        }
    } else {
        panic!("expected booleans array");
    }
}

#[test]
fn range_filter_customjs_references_column() {
    let filters = vec![FilterSpec::range("src", "value", "Range", bits(0.0), bits(100.0), bits(1.0))];
    let (cds, _) = widgets(&filters, "src");
    assert!(mentions(&cds[0].widget, "CustomJS"));
    assert!(mentions(&cds[0].widget, "value"), "JS code should reference column");
}

#[test]
fn select_filter_produces_select_widget_and_boolean_filter() {
    let filters = vec![FilterSpec::select("src", "category", "Category", vec!["A", "B"])];
    let (cds, _) = widgets(&filters, "src");
    assert_eq!(cds[0].widget.name, "Select");
    assert_eq!(cds[0].filter_obj.name, "BooleanFilter");
}

#[test]
fn select_filter_has_all_option() {
    let filters = vec![FilterSpec::select("src", "category", "Cat", vec!["A", "B"])];
    let (cds, _) = widgets(&filters, "src");
    assert!(mentions(&cds[0].widget, "(All)"));
}

#[test]
fn select_filter_default_value_is_all() {
    let filters = vec![FilterSpec::select("src", "category", "Cat", vec!["X"])];
    let (cds, _) = widgets(&filters, "src");
    if let Some(BokehValue::Str(val)) = find_attr(&cds[0].widget, "value") {
        assert_eq!(val, "(All)");
    }
}

#[test]
fn group_filter_produces_select_widget_and_group_filter() {
    let filters = vec![FilterSpec::group("src", "category", "Group", vec!["A", "B"])];
    let (cds, _) = widgets(&filters, "src");
    assert_eq!(cds[0].widget.name, "Select");
    assert_eq!(cds[0].filter_obj.name, "GroupFilter");
}

#[test]
fn group_filter_default_is_first_option() {
    let filters = vec![FilterSpec::group("src", "category", "Grp", vec!["A", "B"])];
    let (cds, _) = widgets(&filters, "src");
    if let Some(BokehValue::Str(val)) = find_attr(&cds[0].widget, "value") {
        assert_eq!(val, "A");
    }
}

#[test]
fn group_filter_has_column_name() {
    let filters = vec![FilterSpec::group("src", "category", "Grp", vec!["A"])];
    let (cds, _) = widgets(&filters, "src");
    if let Some(BokehValue::Str(col)) = find_attr(&cds[0].filter_obj, "column_name") {
        assert_eq!(col, "category");
    }
}

#[test]
fn group_filter_no_all_option() {
    let filters = vec![FilterSpec::group("src", "category", "Grp", vec!["A", "B"])];
    let (cds, _) = widgets(&filters, "src");
    assert!(!mentions(&cds[0].widget, "(All)"), "GroupFilter should not have All option");
}

#[test]
fn threshold_filter_produces_switch_and_boolean_filter() {
    let filters = vec![FilterSpec::threshold("src", "value", "High Only", bits(30.0), true)];
    let (cds, _) = widgets(&filters, "src");
    assert_eq!(cds[0].widget.name, "Switch");
    assert_eq!(cds[0].filter_obj.name, "BooleanFilter");
    assert_eq!(cds[0].switch_label.as_deref(), Some("High Only"));
}

#[test]
fn threshold_switch_starts_inactive() {
    let filters = vec![FilterSpec::threshold("src", "value", "T", bits(30.0), true)];
    let (cds, _) = widgets(&filters, "src");
    if let Some(BokehValue::Bool(active)) = find_attr(&cds[0].widget, "active") {
        assert!(!active);
    }
}

#[test]
fn top_n_filter_produces_slider_and_index_filter() {
    let filters = vec![FilterSpec::top_n("src", "value", "Top N", 5, true)];
    let (cds, _) = widgets(&filters, "src");
    assert_eq!(cds[0].widget.name, "Slider");
    assert_eq!(cds[0].filter_obj.name, "IndexFilter");
}

#[test]
fn top_n_index_filter_initially_includes_all_rows() {
    let filters = vec![FilterSpec::top_n("src", "value", "Top N", 5, true)];
    let (cds, _) = widgets(&filters, "src");
    if let Some(BokehValue::Array(indices)) = find_attr(&cds[0].filter_obj, "indices") {
        assert_eq!(indices.len(), 5);
    }
}

#[test]
fn top_n_slider_max_is_correct() {
    let filters = vec![FilterSpec::top_n("src", "value", "Top N", 10, false)];
    let (cds, _) = widgets(&filters, "src");
    if let Some(BokehValue::Int(end)) = find_attr(&cds[0].widget, "end") {
        assert_eq!(*end, 10);
    }
}

#[test]
fn date_range_filter_produces_datetime_slider_and_boolean_filter() {
    let filters = vec![FilterSpec::date_range(
        "src",
        "timestamp_ms",
        "Date Range",
        bits(1000.0),
        bits(3000.0),
        DateStep::Day,
        TimeScale::Days,
    )];
    let mut id_gen = IdGen::new();
    let (cds, _) = build_filter_widgets(&mut id_gen, &filters, &vec![("src".to_string(), 3)]).unwrap();
    assert_eq!(cds[0].widget.name, "DatetimeRangeSlider");
    assert_eq!(cds[0].filter_obj.name, "BooleanFilter");
}

#[test]
fn range_tool_has_boolean_filter_for_filtered_charts() {
    let filters = vec![FilterSpec::range_tool("src", "x", "y", "Nav", bits(1.0), bits(2.0), None)];
    let mut id_gen = IdGen::new();
    let (cds, rt) = build_filter_widgets(&mut id_gen, &filters, &vec![("src".to_string(), 2)]).unwrap();
    assert!(cds.is_empty());
    assert_eq!(rt[0].filter_obj.name, "BooleanFilter");
    assert!(rt[0].is_range_tool);
    assert_eq!(rt[0].widget.name, "Range1d");
    assert!(rt[0].range_tool_range_id.is_some());
}

#[test]
fn missing_source_key_returns_error() {
    let filters = vec![FilterSpec::range("missing", "value", "R", bits(0.0), bits(1.0), bits(0.1))];
    let mut id_gen = IdGen::new();
    let result = build_filter_widgets(&mut id_gen, &filters, &vec![]);
    assert!(result.is_err());
    assert!(matches!(result, Err(ChartError::NativeRender(m)) if m == "source_key 'missing' not found"));
}

#[test]
fn multiple_filter_types_on_same_source() {
    let filters = vec![
        FilterSpec::range("src", "value", "Range", bits(0.0), bits(100.0), bits(1.0)),
        FilterSpec::select("src", "category", "Category", vec!["A", "B"]),
        FilterSpec::threshold("src", "value", "High", bits(30.0), true),
    ];
    let (cds, _) = widgets(&filters, "src");
    assert_eq!(cds.len(), 3);
    assert_eq!(cds[0].widget.name, "RangeSlider");
    assert_eq!(cds[1].widget.name, "Select");
    assert_eq!(cds[2].widget.name, "Switch");
}

#[test]
fn filter_callbacks_reference_cds_placeholder() {
    let filters = vec![FilterSpec::range("mydata", "value", "R", bits(0.0), bits(100.0), bits(1.0))];
    let (cds, _) = widgets(&filters, "mydata");
    assert!(mentions(&cds[0].widget, "__cds_mydata"), "CustomJS should ref CDS placeholder");
}

#[test]
fn widget_ids_follow_filter_order_and_later_frames_win() {
    let filters = vec![
        FilterSpec::range_tool("src", "x", "y", "Nav", bits(1.0), bits(2.0), None),
        FilterSpec::threshold("src", "value", "High", bits(30.0), true),
    ];
    let mut id_gen = IdGen::new();
    let data = vec![("src".to_string(), 1), ("src".to_string(), 4)];
    let (cds, rt) = build_filter_widgets(&mut id_gen, &filters, &data).unwrap();
    assert_eq!(rt[0].widget.id, "p1001");
    assert_eq!(cds[0].filter_id, "p1005");
    match find_attr(&cds[0].filter_obj, "booleans") {
        Some(BokehValue::Array(b)) => assert_eq!(b.len(), 4),
        _ => panic!("no booleans"),
    }
}
