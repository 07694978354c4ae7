use rust_to_bokeh::filters::{build_group_filter, build_select_filter, build_top_n_filter, combine_filters};
use rust_to_bokeh::id_gen::IdGen;
use rust_to_bokeh::model::{BokehObject, BokehValue};

fn find_attr<'a>(obj: &'a BokehObject, key: &str) -> Option<&'a BokehValue> {
    obj.attributes.iter().find(|(k, _)| k == key).map(|(_, v)| v)
}

#[test]
fn combine_zero_filters_produces_all_indices() {
    let mut id_gen = IdGen::new();
    let result = combine_filters(&mut id_gen, &[]);
    if let BokehValue::Object(obj) = result {
        assert_eq!(obj.name, "AllIndices");
    } else {
        panic!("expected AllIndices object");
    }
}

#[test]
fn combine_one_filter_returns_inline_filter() {
    let mut id_gen = IdGen::new();
    let bf = BokehObject::new("BooleanFilter", "bf1".into()).attr("booleans", BokehValue::Array(vec![BokehValue::Bool(true)]));
    let result = combine_filters(&mut id_gen, &[bf]);
    if let BokehValue::Object(obj) = result {
        assert_eq!(obj.name, "BooleanFilter");
    } else {
        panic!("expected BooleanFilter object");
    }
}

#[test]
fn combine_two_filters_produces_intersection_filter() {
    let mut id_gen = IdGen::new();
    let bf1 = BokehObject::new("BooleanFilter", "bf1".into());
    let bf2 = BokehObject::new("BooleanFilter", "bf2".into());
    let result = combine_filters(&mut id_gen, &[bf1, bf2]);
    if let BokehValue::Object(obj) = result {
        assert_eq!(obj.name, "IntersectionFilter");
        if let Some(BokehValue::Array(operands)) = find_attr(&obj, "operands") {
            assert_eq!(operands.len(), 2);
        } else {
            panic!("expected operands array");
        }
    } else {
        panic!("expected IntersectionFilter object");
    }
}

#[test]
fn combine_three_filters_intersection_has_three_operands() {
    let mut id_gen = IdGen::new();
    let filters: Vec<BokehObject> = (0..3).map(|i| BokehObject::new("BooleanFilter", format!("bf{i}"))).collect();
    let result = combine_filters(&mut id_gen, &filters);
    if let BokehValue::Object(obj) = result {
        assert_eq!(obj.name, "IntersectionFilter");
        if let Some(BokehValue::Array(operands)) = find_attr(&obj, "operands") {
            assert_eq!(operands.len(), 3);
        }
    }
}

#[test]
fn combine_ids_follow_draw_order() {
    let mut id_gen = IdGen::new();
    let one = combine_filters(&mut id_gen, &[BokehObject::new("BooleanFilter", "x".into())]);
    assert!(matches!(one, BokehValue::Object(o) if o.id == "x"));
    let none = combine_filters(&mut id_gen, &[]);
    assert!(matches!(none, BokehValue::Object(o) if o.id == "p1001"));
}

#[test]
fn group_filter_defaults_to_first_option() {
    let mut id_gen = IdGen::new();
    let out = build_group_filter(&mut id_gen, "sales", "region", "Region", &["EU".to_string(), "US".to_string()]);
    assert_eq!(out.filter_obj.name, "GroupFilter");
    assert_eq!(out.filter_id, "p1001");
    assert!(matches!(find_attr(&out.filter_obj, "group"), Some(BokehValue::Str(s)) if s == "EU"));
    assert_eq!(out.widget.name, "Select");
    assert_eq!(out.widget.id, "p1003");
    assert!(matches!(find_attr(&out.widget, "value"), Some(BokehValue::Str(s)) if s == "EU"));
    assert_eq!(out.source_key, "sales");
    assert!(!out.is_range_tool);
}

#[test]
fn select_filter_has_all_option_and_true_booleans() {
    let mut id_gen = IdGen::new();
    let out = build_select_filter(&mut id_gen, "s", "col", "Col", 3, &["x".to_string()]);
    match find_attr(&out.filter_obj, "booleans") {
        Some(BokehValue::Array(b)) => {
            assert_eq!(b.len(), 3);
            assert!(b.iter().all(|v| matches!(v, BokehValue::Bool(true))));
        }
        _ => panic!("missing booleans"),
    }
    match find_attr(&out.widget, "options") {
        Some(BokehValue::Array(o)) => {
            assert_eq!(o.len(), 2);
            assert!(matches!(&o[0], BokehValue::Str(s) if s == "(All)"));
        }
        _ => panic!("missing options"),
    }
    assert!(matches!(find_attr(&out.widget, "value"), Some(BokehValue::Str(s)) if s == "(All)"));
}

#[test]
fn top_n_filter_slider_and_indices() {
    let mut id_gen = IdGen::new();
    let out = build_top_n_filter(&mut id_gen, "s", "rev", "Top", 4, 10, true);
    match find_attr(&out.filter_obj, "indices") {
        Some(BokehValue::Array(ix)) => {
            let got: Vec<i64> = ix.iter().map(|v| if let BokehValue::Int(i) = v { *i } else { -1 }).collect();
            assert_eq!(got, vec![0, 1, 2, 3]);
        }
        _ => panic!("missing indices"),
    }
    assert_eq!(out.widget.name, "Slider");
    assert!(matches!(find_attr(&out.widget, "end"), Some(BokehValue::Int(10))));
    assert!(matches!(find_attr(&out.widget, "start"), Some(BokehValue::Int(1))));
}
