use rust_to_bokeh::figure::{build_box_select_tool, build_box_zoom_tool, build_glyph_renderer, build_hover_tool, build_toolbar};
use rust_to_bokeh::id_gen::IdGen;
use rust_to_bokeh::model::{BokehObject, BokehValue};

fn find_attr<'a>(obj: &'a BokehObject, key: &str) -> Option<&'a BokehValue> {
    obj.attributes.iter().find(|(k, _)| k == key).map(|(_, v)| v)
}

fn dump_value(v: &BokehValue, out: &mut String) {
    match v {
        BokehValue::Str(s) | BokehValue::Ref(s) | BokehValue::Field(s) => {
            out.push_str(s);
            out.push(' ');
        }
        BokehValue::FieldTransform { field, transform } => {
            out.push_str(field);
            out.push(' ');
            dump_value(transform, out);
        }
        BokehValue::Value(inner) => dump_value(inner, out),
        BokehValue::Array(items) => items.iter().for_each(|x| dump_value(x, out)),
        BokehValue::Entries(entries) => entries.iter().for_each(|(k, x)| {
            out.push_str(k);
            out.push(' ');
            dump_value(x, out);
        }),
        BokehValue::Object(o) => dump_object(o, out),
        _ => {}
    }
}

fn dump_object(o: &BokehObject, out: &mut String) {
    out.push_str(&o.name);
    out.push(' ');
    out.push_str(&o.id);
    out.push(' ');
    for (k, v) in &o.attributes {
        out.push_str(k);
        out.push(' ');
        dump_value(v, out);
    }
}

fn dump(o: &BokehObject) -> String {
    let mut s = String::new();
    dump_object(o, &mut s);
    s
}

#[test]
fn glyph_renderer_without_filter_uses_all_indices() {
    let mut id_gen = IdGen::new();
    let glyph = BokehObject::new("Scatter", id_gen.next());
    let source_ref = BokehValue::Ref("cds1".into());
    let renderer = build_glyph_renderer(&mut id_gen, source_ref, glyph, None, None);
    assert_eq!(renderer.name, "GlyphRenderer");
    let json = dump(&renderer);
    assert!(json.contains("AllIndices"));
    assert!(json.contains("CDSView"));
}

#[test]
fn glyph_renderer_with_filter_embeds_filter() {
    let mut id_gen = IdGen::new();
    let glyph = BokehObject::new("Scatter", id_gen.next());
    let source_ref = BokehValue::Ref("cds1".into());
    let filter = BokehObject::new("BooleanFilter", "bf1".into()).into_value();
    let renderer = build_glyph_renderer(&mut id_gen, source_ref, glyph, None, Some(filter));
    let json = dump(&renderer);
    assert!(json.contains("BooleanFilter"));
}

#[test]
fn glyph_renderer_has_nonselection_glyph() {
    let mut id_gen = IdGen::new();
    let glyph = BokehObject::new("Scatter", id_gen.next());
    let nonsel = BokehObject::new("Scatter", id_gen.next()).attr("fill_alpha", BokehValue::Float(0.1f64.to_bits()));
    let source_ref = BokehValue::Ref("cds1".into());
    let renderer = build_glyph_renderer(&mut id_gen, source_ref, glyph, Some(nonsel), None);
    if let Some(BokehValue::Object(ns)) = find_attr(&renderer, "nonselection_glyph") {
        assert_eq!(ns.name, "Scatter");
    }
}

#[test]
fn hover_tool_with_formatters() {
    let mut id_gen = IdGen::new();
    let ht = build_hover_tool(&mut id_gen, &[("Time", "@{ts}{%Y-%m-%d}")], &[("@{ts}", "datetime")]);
    assert_eq!(ht.name, "HoverTool");
    let json = dump(&ht);
    assert!(json.contains("datetime"));
    assert!(json.contains("formatters"));
}

#[test]
fn hover_tool_without_formatters() {
    let mut id_gen = IdGen::new();
    let ht = build_hover_tool(&mut id_gen, &[("X", "@{x}")], &[]);
    let json = dump(&ht);
    assert!(!json.contains("formatters"), "no formatters should be emitted");
}

#[test]
fn glyph_renderer_ids_follow_draw_order() {
    let mut id_gen = IdGen::new();
    let glyph = BokehObject::new("Scatter", "g".into());
    let renderer = build_glyph_renderer(&mut id_gen, BokehValue::Ref("cds1".into()), glyph, None, None);
    assert_eq!(renderer.id, "p1003");
    match find_attr(&renderer, "view") {
        Some(BokehValue::Object(view)) => {
            assert_eq!(view.id, "p1001");
            match find_attr(view, "filter") {
                Some(BokehValue::Object(f)) => assert_eq!(f.id, "p1002"),
                _ => panic!("missing filter"),
            }
        }
        _ => panic!("missing view"),
    }
    match find_attr(&renderer, "nonselection_glyph") {
        Some(BokehValue::Object(ns)) => {
            assert_eq!(ns.name, "Line");
            assert_eq!(ns.id, "p1004");
        }
        _ => panic!("missing nonselection glyph"),
    }
    assert_eq!(id_gen.next(), "p1005");
}

#[test]
fn box_zoom_tool_overlay_precedes_tool_id() {
    let mut id_gen = IdGen::new();
    let t = build_box_zoom_tool(&mut id_gen);
    assert_eq!(t.name, "BoxZoomTool");
    assert_eq!(t.id, "p1004");
    match find_attr(&t, "overlay") {
        Some(BokehValue::Object(o)) => {
            assert_eq!(o.name, "BoxAnnotation");
            assert_eq!(o.id, "p1003");
            assert!(find_attr(o, "editable").is_none());
        }
        _ => panic!("missing overlay"),
    }
}

#[test]
fn box_select_overlay_is_editable() {
    let mut id_gen = IdGen::new();
    let t = build_box_select_tool(&mut id_gen);
    match find_attr(&t, "overlay") {
        Some(BokehValue::Object(o)) => assert!(matches!(find_attr(o, "editable"), Some(BokehValue::Bool(true)))),
        _ => panic!("missing overlay"),
    }
}

#[test]
fn toolbar_lists_tools_in_order() {
    let mut id_gen = IdGen::new();
    let hover = BokehObject::new("HoverTool", "h".into());
    let tb = build_toolbar(&mut id_gen, Some(hover));
    assert_eq!(tb.id, "p1001");
    let names: Vec<String> = match find_attr(&tb, "tools") {
        Some(BokehValue::Array(ts)) => ts
            .iter()
            .map(|t| match t {
                BokehValue::Object(o) => o.name.clone(),
                _ => String::new(),
            })
            .collect(),
        _ => vec![],
    };
    assert_eq!(
        names,
        vec!["PanTool", "WheelZoomTool", "BoxZoomTool", "ResetTool", "SaveTool", "HoverTool", "BoxSelectTool", "TapTool"]
    );
    assert_eq!(id_gen.next(), "p1015");
}
