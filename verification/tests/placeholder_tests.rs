use rust_to_bokeh::id_gen::IdGen;
use rust_to_bokeh::model::{BokehObject, BokehValue};
use rust_to_bokeh::placeholder::{extract_first_cds_id, hoist_inline_cds_with_id, replace_placeholder, replace_placeholder_in_obj};

fn renderer(cds_id: &str) -> BokehValue {
    let cds = BokehObject::new("ColumnDataSource", cds_id.into());
    BokehObject::new("GlyphRenderer", "r".into()).attr("data_source", cds.into_value()).into_value()
}

#[test]
fn placeholder_refs_are_replaced_everywhere() {
    let inner = BokehObject::new("CustomJS", "cb".into())
        .attr("args", BokehValue::Entries(vec![("source".into(), BokehValue::Ref("__cds_k".into()))]));
    let mut obj = BokehObject::new("Select", "w".into())
        .attr("callbacks", BokehValue::Array(vec![inner.into_value(), BokehValue::Ref("other".into())]))
        .attr("v", BokehValue::value_of(BokehValue::Ref("__cds_k".into())));
    replace_placeholder_in_obj(&mut obj, "__cds_k", "p1042");
    let cbs = match &obj.attributes[0].1 {
        BokehValue::Array(a) => a,
        _ => panic!("not a list"),
    };
    match &cbs[0] {
        BokehValue::Object(o) => match &o.attributes[0].1 {
            BokehValue::Entries(e) => assert!(matches!(&e[0].1, BokehValue::Ref(s) if s == "p1042")),
            _ => panic!("args not a map"),
        },
        _ => panic!("callback not inline"),
    }
    assert!(matches!(&cbs[1], BokehValue::Ref(s) if s == "other"));
    match &obj.attributes[1].1 {
        BokehValue::Value(inner) => assert!(matches!(&**inner, BokehValue::Ref(s) if s == "p1042")),
        _ => panic!("value lost"),
    }
}

#[test]
fn first_cds_id_is_found_and_hoisted() {
    let mut fig = BokehObject::new("Figure", "f".into()).attr("renderers", BokehValue::Array(vec![renderer("c1"), renderer("c2")]));
    assert_eq!(extract_first_cds_id(&fig), Some("c1".to_string()));
    let hoisted = hoist_inline_cds_with_id(&mut fig, "c2").unwrap();
    assert_eq!(hoisted.id, "c2");
    match &fig.attributes[0].1 {
        BokehValue::Array(rs) => match &rs[1] {
            BokehValue::Object(r) => assert!(matches!(&r.attributes[0].1, BokehValue::Ref(s) if s == "c2")),
            _ => panic!("renderer not inline"),
        },
        _ => panic!("renderers not a list"),
    }
    assert!(hoist_inline_cds_with_id(&mut fig, "zz").is_none());
}

#[test]
fn ids_are_sequential_and_distinct() {
    let mut g = IdGen::new();
    let a = g.next();
    let b = g.next();
    assert_eq!(a, "p1001");
    assert_eq!(b, "p1002");
    assert_ne!(a, b);
}

#[test]
fn placeholder_inside_field_transform_is_replaced() {
    let mut v = BokehValue::FieldTransform {
        field: "x".to_string(),
        transform: Box::new(BokehValue::Array(vec![BokehValue::ref_of("__cds_a"), BokehValue::ref_of("other")])),
    };
    replace_placeholder(&mut v, "__cds_a", "p1005");
    match v {
        BokehValue::FieldTransform { field, transform } => {
            assert_eq!(field, "x");
            match *transform {
                BokehValue::Array(a) => {
                    assert!(matches!(&a[0], BokehValue::Ref(s) if s == "p1005"));
                    assert!(matches!(&a[1], BokehValue::Ref(s) if s == "other"));
                }
                _ => panic!("transform changed shape"),
            }
        }
        _ => panic!("value changed shape"),
    }
}
