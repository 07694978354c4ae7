use rust_to_bokeh::id_gen::IdGen;
use rust_to_bokeh::model::{BokehObject, BokehValue};
use rust_to_bokeh::renderers::{build_bar_renderer, build_box_renderer, build_line_series, build_slice_renderer};

fn find_attr<'a>(obj: &'a BokehObject, key: &str) -> Option<&'a BokehValue> {
    obj.attributes.iter().find(|(k, _)| k == key).map(|(_, v)| v)
}

fn object<'a>(obj: &'a BokehObject, key: &str) -> &'a BokehObject {
    match find_attr(obj, key) {
        Some(BokehValue::Object(o)) => o,
        _ => panic!("no object under {key}"),
    }
}

fn float_of(obj: &BokehObject, key: &str) -> f64 {
    match find_attr(obj, key) {
        Some(BokehValue::Value(v)) => match **v {
            BokehValue::Float(b) => f64::from_bits(b),
            _ => panic!("not a float"),
        },
        _ => panic!("no value under {key}"),
    }
}

fn keys(obj: &BokehObject) -> Vec<&str> {
    obj.attributes.iter().map(|(k, _)| k.as_str()).collect()
}

#[test]
fn line_series_has_two_renderers_and_a_legend_entry() {
    let mut g = IdGen::new();
    let (line, circle, item) = build_line_series(
        &mut g,
        "month",
        "rev",
        "#1f77b4",
        2.5f64.to_bits(),
        7.0f64.to_bits(),
        BokehObject::new("ColumnDataSource", "cds".into()).into_value(),
        BokehValue::ref_of("cds"),
        None,
    );
    assert_eq!(line.name, "GlyphRenderer");
    assert_eq!(line.id, "p1005");
    assert_eq!(circle.id, "p1010");
    assert_eq!(g.next(), "p1012");

    let lg = object(&line, "glyph");
    assert_eq!(lg.name, "Line");
    assert_eq!(float_of(lg, "line_width"), 2.5);
    assert_eq!(keys(object(&line, "nonselection_glyph")), vec!["x", "y", "line_color", "line_alpha", "line_width"]);
    assert_eq!(float_of(object(&line, "nonselection_glyph"), "line_alpha"), 0.1);
    assert!(matches!(find_attr(&line, "data_source"), Some(BokehValue::Object(o)) if o.id == "cds"));

    let cg = object(&circle, "glyph");
    assert_eq!(cg.name, "Scatter");
    assert_eq!(float_of(cg, "size"), 7.0);
    assert!(matches!(find_attr(&circle, "data_source"), Some(BokehValue::Ref(s)) if s == "cds"));

    match item {
        BokehValue::Object(o) => {
            assert_eq!(o.name, "LegendItem");
            assert_eq!(o.id, "p1011");
            match find_attr(&o, "renderers") {
                Some(BokehValue::Array(a)) => {
                    assert!(matches!(&a[0], BokehValue::Ref(s) if s == "p1005"));
                    assert!(matches!(&a[1], BokehValue::Ref(s) if s == "p1010"));
                }
                _ => panic!("no renderers"),
            }
            match find_attr(&o, "label") {
                Some(BokehValue::Value(v)) => assert!(matches!(&**v, BokehValue::Str(s) if s == "rev")),
                _ => panic!("no label"),
            }
        }
        _ => panic!("legend entry is not an object"),
    }
}

#[test]
fn bar_renderer_uses_fill_color_column() {
    let mut g = IdGen::new();
    let cds = BokehObject::new("ColumnDataSource", "c".into());
    let filter = BokehObject::new("BooleanFilter", "bf".into()).into_value();
    let r = build_bar_renderer(&mut g, cds, "quarter", "revenue", 0.25f64.to_bits(), Some(filter));
    assert_eq!(r.id, "p1005");
    assert_eq!(g.next(), "p1006");
    let glyph = object(&r, "glyph");
    assert_eq!(glyph.name, "VBar");
    assert_eq!(keys(glyph), vec!["x", "top", "bottom", "width", "fill_color", "line_color"]);
    assert_eq!(float_of(glyph, "width"), 0.25);
    assert_eq!(float_of(glyph, "bottom"), 0.0);
    assert!(matches!(find_attr(glyph, "fill_color"), Some(BokehValue::Field(f)) if f == "_fill_color"));
    let nonsel = object(&r, "nonselection_glyph");
    assert_eq!(float_of(nonsel, "fill_alpha"), 0.1);
    let view = object(&r, "view");
    assert!(matches!(find_attr(view, "filter"), Some(BokehValue::Object(o)) if o.id == "bf"));
}

#[test]
fn box_renderer_spans_the_quartiles() {
    let mut g = IdGen::new();
    let r = build_box_renderer(&mut g, BokehObject::new("ColumnDataSource", "b".into()), "dept", 0.7f64.to_bits(), None);
    let glyph = object(&r, "glyph");
    assert!(matches!(find_attr(glyph, "top"), Some(BokehValue::Field(f)) if f == "q3"));
    assert!(matches!(find_attr(glyph, "bottom"), Some(BokehValue::Field(f)) if f == "q1"));
    assert_eq!(float_of(glyph, "width"), 0.6);
    assert_eq!(float_of(glyph, "fill_alpha"), 0.7);
    assert_eq!(float_of(object(&r, "nonselection_glyph"), "fill_alpha"), 0.1);
    assert_eq!(object(object(&r, "view"), "filter").name, "AllIndices");
}

#[test]
fn slice_renderer_filters_one_row() {
    let mut g = IdGen::new();
    let r = build_slice_renderer(&mut g, BokehValue::ref_of("pie"), 3, 0.4f64.to_bits(), 0.9f64.to_bits());
    assert_eq!(r.id, "p1006");
    assert_eq!(g.next(), "p1007");
    let filter = object(object(&r, "view"), "filter");
    assert_eq!(filter.name, "IndexFilter");
    assert_eq!(filter.id, "p1001");
    assert!(matches!(find_attr(filter, "indices"), Some(BokehValue::Array(a)) if matches!(a[..], [BokehValue::Int(3)])));
    let glyph = object(&r, "glyph");
    assert_eq!(glyph.name, "AnnularWedge");
    assert_eq!(float_of(glyph, "inner_radius"), 0.4);
    assert_eq!(float_of(glyph, "outer_radius"), 0.9);
    assert_eq!(float_of(object(&r, "nonselection_glyph"), "fill_alpha"), 0.3);
}
