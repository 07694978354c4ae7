use rust_to_bokeh::document::{build_embed_script, document_config, frame_docs_json, render_items_json, BokehDocument};
use rust_to_bokeh::id_gen::IdGen;
use rust_to_bokeh::json_text::escape_for_js_single_quotes;
use rust_to_bokeh::model::{BokehObject, BokehValue};

fn is_v4_uuid(s: &str) -> bool {
    let b: Vec<char> = s.chars().collect();
    b.len() == 36
        && b.iter().enumerate().all(|(i, c)| {
            if [8, 13, 18, 23].contains(&i) {
                *c == '-'
            } else {
                c.is_ascii_digit() || ('a'..='f').contains(c)
            }
        })
        && b[14] == '4'
        && "89ab".contains(b[19])
}

#[test]
fn render_items_contains_docid_and_roots() {
    let mut doc = BokehDocument::new();
    let root = BokehObject::new("PanTool", "p1001".into());
    doc.add_root(root);
    let items = doc.to_render_items();
    assert!(items.contains("docid"));
    assert!(items.contains("p1001"));
    assert!(items.contains("root_ids"));
}

#[test]
fn framed_docs_json_escapes_single_quotes() {
    let doc = BokehDocument::new();
    let mut id_gen = IdGen::new();
    let config = document_config(&mut id_gen);
    assert_eq!(config.name, "DocumentConfig");
    let json = frame_docs_json(doc.doc_id(), "{\"it's\":\"a\\\\b\"}", &vec![]);
    let parts: Vec<&str> = json.split('\'').collect();
    assert!(!parts.contains(&"'"));
    assert!(json.contains("it\\'s"));
    assert!(json.contains("a\\\\\\\\b"));
}

#[test]
fn docs_json_frames_version_title_config_and_roots() {
    let json = frame_docs_json("d1", "{}", &vec!["{\"a\":1}".to_string(), "[]".to_string()]);
    assert_eq!(
        json,
        "{\"d1\":{\"version\":\"3.9.0\",\"title\":\"Bokeh Application\",\"config\":{},\"roots\":[{\"a\":1},[]]}}"
    );
}

#[test]
fn render_items_exact_text_and_duplicate_ids() {
    let divs = vec![
        ("m1".to_string(), "d1".to_string()),
        ("m2".to_string(), "d2".to_string()),
        ("m1".to_string(), "d3".to_string()),
    ];
    let text = render_items_json("doc", &divs);
    assert_eq!(
        text,
        "[{\"docid\":\"doc\",\"roots\":{\"m1\":\"d3\",\"m2\":\"d2\"},\"root_ids\":[\"m1\",\"m2\",\"m1\"]}]"
    );
}

#[test]
fn documents_get_random_uuid_ids_and_aligned_divs() {
    let mut doc = BokehDocument::new();
    assert!(is_v4_uuid(doc.doc_id()));
    let d1 = doc.add_root(BokehObject::new("Figure", "p1".into()));
    let d2 = doc.add_hidden_root(BokehObject::new("BooleanFilter", "p2".into()));
    assert!(is_v4_uuid(&d1));
    assert!(is_v4_uuid(&d2));
    assert_ne!(d1, d2);
    assert_eq!(doc.root_count(), 2);
    assert_eq!(doc.root_divs(), &[("p1".to_string(), d1), ("p2".to_string(), d2)]);
    assert!(doc.verify().is_ok());
}

#[test]
fn document_verify_reports_dangling_refs() {
    let mut doc = BokehDocument::default();
    doc.add_root(BokehObject::new("CDSView", "v".into()).attr("filter", BokehValue::ref_of("nope")));
    assert_eq!(doc.verify().dangling_refs, vec!["nope".to_string()]);
}

#[test]
fn json_quote_escapes_controls() {
    let divs: Vec<(String, String)> = vec![];
    assert_eq!(
        render_items_json("a\"b\\c\n\u{1}", &divs),
        "[{\"docid\":\"a\\\"b\\\\c\\n\\u0001\",\"roots\":{},\"root_ids\":[]}]"
    );
    assert_eq!(render_items_json("é", &divs), "[{\"docid\":\"é\",\"roots\":{},\"root_ids\":[]}]");
}

#[test]
fn js_escape_doubles_backslashes_then_quotes() {
    assert_eq!(escape_for_js_single_quotes("a'b\\c"), "a\\'b\\\\c");
}

#[test]
fn embed_script_wraps_both_texts() {
    let s = build_embed_script("DOCS", "[ITEMS]");
    assert!(s.starts_with("\n(function() {"));
    assert!(s.contains("const docs_json = 'DOCS';"));
    assert!(s.contains("const render_items = [ITEMS];"));
    assert!(s.ends_with("})();"));
}
