use rust_to_bokeh::doc_verify::verify_document;
use rust_to_bokeh::model::{BokehObject, BokehValue};

fn obj(name: &'static str, id: &str) -> BokehObject {
    BokehObject::new(name, id.into())
}

#[test]
fn empty_roots_is_ok() {
    let report = verify_document(&[]);
    assert!(report.is_ok());
}

#[test]
fn single_root_no_refs_is_ok() {
    let r = obj("PanTool", "p1");
    let report = verify_document(&[r]);
    assert!(report.is_ok(), "{}", report.summary());
}

#[test]
fn ref_to_existing_root_is_ok() {
    let target = obj("BooleanFilter", "p1").attr("booleans", BokehValue::Array(vec![BokehValue::Bool(true)]));
    let user = obj("CDSView", "p2").attr("filter", BokehValue::ref_of("p1"));
    let report = verify_document(&[target, user]);
    assert!(report.is_ok(), "{}", report.summary());
}

#[test]
fn ref_to_nested_inline_object_is_ok() {
    let nested = obj("Selection", "p2");
    let parent = obj("ColumnDataSource", "p1").attr("selected", nested.into_value());
    let user = obj("Other", "p3").attr("ref_to_nested", BokehValue::ref_of("p2"));
    let report = verify_document(&[parent, user]);
    assert!(report.is_ok(), "{}", report.summary());
}

#[test]
fn dangling_ref_is_reported() {
    let user = obj("CDSView", "p2").attr("filter", BokehValue::ref_of("does_not_exist"));
    let report = verify_document(&[user]);
    assert!(!report.is_ok());
    assert_eq!(report.dangling_refs, vec!["does_not_exist".to_string()]);
}

#[test]
fn duplicate_root_inline_is_reported() {
    let a = obj("Range1d", "p1").attr("start", BokehValue::Float(0.0f64.to_bits()));
    let b = obj("Range1d", "p1").attr("start", BokehValue::Float(10.0f64.to_bits()));
    let report = verify_document(&[a, b]);
    assert!(!report.is_ok());
    assert_eq!(report.duplicate_inline, vec![("p1".to_string(), 2)]);
}

#[test]
fn duplicate_inline_in_nested_attr_is_reported() {
    let bf_root = obj("BooleanFilter", "p2").attr("booleans", BokehValue::Array(vec![BokehValue::Bool(true)]));
    let bf_inline = obj("BooleanFilter", "p2").attr("booleans", BokehValue::Array(vec![BokehValue::Bool(true)]));
    let view = obj("CDSView", "p3").attr("filter", bf_inline.into_value());
    let report = verify_document(&[bf_root, view]);
    assert!(!report.is_ok());
    assert_eq!(report.duplicate_inline, vec![("p2".to_string(), 2)]);
}

#[test]
fn ref_in_map_is_resolved() {
    let target = obj("ColumnDataSource", "p1");
    let cb = obj("CustomJS", "p2").attr("args", BokehValue::Entries(vec![("source".into(), BokehValue::ref_of("p1"))]));
    let report = verify_document(&[target, cb]);
    assert!(report.is_ok(), "{}", report.summary());
}

#[test]
fn ref_in_array_is_resolved() {
    let f1 = obj("BooleanFilter", "f1");
    let f2 = obj("BooleanFilter", "f2");
    let isect = obj("IntersectionFilter", "i1")
        .attr("operands", BokehValue::Array(vec![BokehValue::ref_of("f1"), BokehValue::ref_of("f2")]));
    let report = verify_document(&[f1, f2, isect]);
    assert!(report.is_ok(), "{}", report.summary());
}

#[test]
fn ref_inside_value_spec_is_resolved() {
    let mapper = obj("CategoricalColorMapper", "m1");
    let glyph = obj("VBar", "g1").attr("fill_color", BokehValue::value_of(BokehValue::ref_of("m1")));
    let report = verify_document(&[mapper, glyph]);
    assert!(report.is_ok(), "{}", report.summary());
}

#[test]
fn ref_inside_field_transform_is_resolved() {
    let mapper = obj("CategoricalColorMapper", "m1");
    let glyph = obj("VBar", "g1")
        .attr("fill_color", BokehValue::field_transform("category", BokehValue::ref_of("m1")));
    let report = verify_document(&[mapper, glyph]);
    assert!(report.is_ok(), "{}", report.summary());
}

#[test]
fn forward_ref_in_root_order_is_reported() {
    let cb = obj("CustomJS", "cb").attr("args", BokehValue::Entries(vec![("bf".into(), BokehValue::ref_of("bf"))]));
    let bf = obj("BooleanFilter", "bf").attr("booleans", BokehValue::Array(vec![BokehValue::Bool(true)]));
    let report = verify_document(&[cb, bf]);
    assert!(!report.is_ok(), "{}", report.summary());
    assert_eq!(report.forward_refs, vec![("cb".to_string(), "bf".to_string())]);
}

#[test]
fn ref_inside_same_root_after_inline_def_is_ok() {
    let nested = obj("Selection", "s1");
    let parent = obj("ColumnDataSource", "cds")
        .attr("selected", nested.into_value())
        .attr("self_ref", BokehValue::ref_of("s1"));
    let report = verify_document(&[parent]);
    assert!(report.is_ok(), "{}", report.summary());
}

#[test]
fn backward_ref_across_roots_is_ok() {
    let bf = obj("BooleanFilter", "bf").attr("booleans", BokehValue::Array(vec![BokehValue::Bool(true)]));
    let cb = obj("CustomJS", "cb").attr("args", BokehValue::Entries(vec![("bf".into(), BokehValue::ref_of("bf"))]));
    let report = verify_document(&[bf, cb]);
    assert!(report.is_ok(), "{}", report.summary());
}

#[test]
fn summary_lists_both_classes() {
    let dup = obj("X", "d1");
    let dup2 = obj("X", "d1");
    let bad_ref = obj("Y", "d2").attr("r", BokehValue::ref_of("missing"));
    let report = verify_document(&[dup, dup2, bad_ref]);
    let s = report.summary();
    assert!(s.contains("duplicate inline objects"));
    assert!(s.contains("d1"));
    assert!(s.contains("dangling refs"));
    assert!(s.contains("missing"));
}

#[test]
fn report_lists_are_sorted_and_counted() {
    let a = obj("X", "zz");
    let b = obj("X", "zz");
    let c = obj("X", "aa");
    let d = obj("X", "aa").attr("r1", BokehValue::ref_of("q")).attr("r2", BokehValue::ref_of("b"));
    let e = obj("X", "aa");
    let report = verify_document(&[a, b, c, d, e]);
    assert_eq!(report.duplicate_inline, vec![("aa".to_string(), 3), ("zz".to_string(), 2)]);
    assert_eq!(report.dangling_refs, vec!["b".to_string(), "q".to_string()]);
    assert_eq!(report.summary().is_empty(), false);
}

#[test]
fn summary_of_sound_document_is_empty() {
    let report = verify_document(&[obj("PanTool", "p1")]);
    assert_eq!(report.summary(), "");
}

#[test]
fn dangling_ref_is_not_a_forward_ref() {
    let user = BokehObject::new("CDSView", "p2".into()).attr("filter", BokehValue::ref_of("does_not_exist"));
    let report = verify_document(&[user]);
    assert!(!report.is_ok());
    assert_eq!(report.dangling_refs, vec!["does_not_exist".to_string()]);
    assert!(report.duplicate_inline.is_empty());
    assert!(report.forward_refs.is_empty());
}

#[test]
fn ref_to_later_model_in_same_root_is_not_forward() {
    let inner = BokehObject::new("BooleanFilter", "bf".into());
    let root = BokehObject::new("Column", "c".into())
        .attr("first", BokehValue::ref_of("bf"))
        .attr("second", inner.into_value());
    let report = verify_document(&[root]);
    assert!(report.is_ok());
}
