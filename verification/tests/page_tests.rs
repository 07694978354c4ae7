use rust_to_bokeh::chart_config::{ChartSpecBuilder, HBarConfig};
use rust_to_bokeh::chart_spec::GridCell;
use rust_to_bokeh::filters::{build_range_tool_filter, build_threshold_filter};
use rust_to_bokeh::id_gen::IdGen;
use rust_to_bokeh::model::{BokehObject, BokehValue};
use rust_to_bokeh::modules_html::ParagraphSpec;
use rust_to_bokeh::page::{assemble_page, chart_filter_ref, page_file_path};
use rust_to_bokeh::pages::PageBuilder;

fn figure(id: &str, cds_id: &str) -> BokehObject {
    let cds = BokehObject::new("ColumnDataSource", cds_id.into());
    let r = BokehObject::new("GlyphRenderer", format!("r_{id}")).attr("data_source", cds.into_value());
    BokehObject::new("Figure", id.into()).attr("renderers", BokehValue::Array(vec![r.into_value()]))
}

fn hbar_cfg() -> HBarConfig {
    HBarConfig::builder().category("c").value("v").x_label("X").build().unwrap()
}

fn contains_ref(v: &BokehValue, id: &str) -> bool {
    match v {
        BokehValue::Ref(s) => s == id,
        BokehValue::Array(a) => a.iter().any(|x| contains_ref(x, id)),
        BokehValue::Entries(e) => e.iter().any(|(_, x)| contains_ref(x, id)),
        BokehValue::Object(o) => o.attributes.iter().any(|(_, x)| contains_ref(x, id)),
        BokehValue::Value(b) => contains_ref(b, id),
        BokehValue::FieldTransform { transform, .. } => contains_ref(transform, id),
        _ => false,
    }
}

#[test]
fn page_files_sit_in_the_output_dir() {
    assert_eq!(page_file_path("out", "overview"), "out/overview.html");
}

#[test]
fn chart_filter_combines_filters_on_its_source() {
    let mut g = IdGen::new();
    let t1 = build_threshold_filter(&mut g, "sales", "v", "Hi", 3, 1.0f64.to_bits(), true);
    let t2 = build_threshold_filter(&mut g, "other", "v", "Hi", 3, 1.0f64.to_bits(), true);
    let rt = build_range_tool_filter(&mut g, "sales", "t", 3, 0, 10);
    let spec = ChartSpecBuilder::hbar("C", "sales", hbar_cfg()).at(0, 0, 1).filtered().build();
    let plain = ChartSpecBuilder::hbar("C", "sales", hbar_cfg()).at(0, 0, 1).build();
    assert!(chart_filter_ref(&mut g, &plain, &[], &[]).is_none());
    match chart_filter_ref(&mut g, &spec, &[t1, t2], &[rt]) {
        Some(BokehValue::Object(o)) => {
            assert_eq!(o.name, "IntersectionFilter");
            match &o.attributes[0].1 {
                BokehValue::Array(a) => assert_eq!(a.len(), 2),
                _ => panic!("no operands"),
            }
        }
        _ => panic!("no combined filter"),
    }
}

#[test]
fn range_tool_filter_wires_its_range() {
    let mut g = IdGen::new();
    let rt = build_range_tool_filter(&mut g, "s", "t", 2, 1.0f64.to_bits(), 5.0f64.to_bits());
    assert_eq!(rt.widget.name, "Range1d");
    assert_eq!(rt.widget.id, "p1001");
    assert_eq!(rt.filter_id, "p1002");
    assert_eq!(rt.range_tool_range_id, Some("p1001".to_string()));
    assert!(rt.is_range_tool);
    assert!(contains_ref(&rt.widget.attributes[2].1, "__cds_s"));
    assert!(contains_ref(&rt.widget.attributes[2].1, "p1002"));
}

#[test]
fn assembled_page_patches_widgets_and_orders_roots() {
    let mut g = IdGen::new();
    let widget = build_threshold_filter(&mut g, "sales", "v", "High", 3, 1.0f64.to_bits(), true);
    let rt = build_range_tool_filter(&mut g, "sales", "t", 3, 0, 10);
    let page = PageBuilder::new("p", "P", "P", 2)
        .chart(ChartSpecBuilder::hbar("First", "sales", hbar_cfg()).at(0, 1, 1).build())
        .chart(ChartSpecBuilder::hbar("Second", "sales", hbar_cfg()).at(1, 0, 2).build())
        .paragraph(ParagraphSpec {
            text: "Hello".to_string(),
            title: Some("Notes".to_string()),
            grid: GridCell { row: 2, col: 0, col_span: 2 },
        })
        .build()
        .unwrap();
    let a = assemble_page(&page, vec![widget], vec![rt], vec![figure("f1", "c1"), figure("f2", "c2")]);
    let roots = a.doc.roots();
    let names: Vec<&str> = roots.iter().map(|r| r.name.as_str()).collect();
    assert_eq!(names, vec!["Range1d", "Figure", "Figure", "Switch"]);
    let w = &roots[3];
    let cbs = BokehValue::Array(w.attributes.iter().map(|(_, v)| v.clone()).collect());
    assert!(contains_ref(&cbs, "c1"));
    assert!(!contains_ref(&cbs, "__cds_sales"));
    let rtw = BokehValue::Array(roots[0].attributes.iter().map(|(_, v)| v.clone()).collect());
    assert!(contains_ref(&rtw, "c1"));
    assert_eq!(a.grid_items.len(), 3);
    assert_eq!((a.grid_items[0].grid_row, a.grid_items[0].grid_col), (1, 2));
    assert_eq!(a.grid_items[0].title, "First");
    assert_eq!(a.grid_items[0].content, format!("<div id=\"{}\"></div>", a.doc.root_divs()[1].1));
    assert!(a.grid_items[1].is_chart);
    assert_eq!(a.grid_items[2].title, "Notes");
    assert!(!a.grid_items[2].is_chart);
    assert_eq!(a.grid_items[2].content, "<div class=\"paragraph-module\"><p>Hello</p></div>");
    assert_eq!(a.filter_items.len(), 1);
    assert_eq!(a.filter_items[0].label, Some("High".to_string()));
    assert_eq!(a.filter_items[0].div, format!("<div id=\"{}\"></div>", a.doc.root_divs()[3].1));
    assert!(a.overview_divs.is_empty());
}

#[test]
fn grid_items_are_sorted_by_row_then_column() {
    let page = PageBuilder::new("p", "P", "P", 2)
        .chart(ChartSpecBuilder::hbar("Low", "sales", hbar_cfg()).at(1, 0, 1).build())
        .chart(ChartSpecBuilder::hbar("Right", "sales", hbar_cfg()).at(0, 1, 1).build())
        .paragraph(ParagraphSpec {
            text: "Top".to_string(),
            title: None,
            grid: GridCell { row: 0, col: 0, col_span: 1 },
        })
        .build()
        .unwrap();
    let a = assemble_page(&page, vec![], vec![], vec![figure("f1", "c1"), figure("f2", "c2")]);
    let order: Vec<(usize, usize)> = a.grid_items.iter().map(|g| (g.grid_row, g.grid_col)).collect();
    assert_eq!(order, vec![(1, 1), (1, 2), (2, 1)]);
    assert!(!a.grid_items[0].is_chart);
    assert_eq!(a.grid_items[1].title, "Right");
    assert_eq!(a.grid_items[2].title, "Low");
}
