use rust_to_bokeh::axis::{time_scale_to_fmt, AxisBuilder, AxisType};
use rust_to_bokeh::chart_config::AxisConfig;
use rust_to_bokeh::chart_parts::{
    add_group_legend, add_tool_to_toolbar, build_outlier_hover, build_range_tool_overlay, build_segment_glyph,
    build_segment_glyph_nonsel, build_slice_legend_item, build_whisker_renderers, hide_axes, hide_x_grid,
    unique_preserve_order, LcgRng,
};
use rust_to_bokeh::customization::TimeScale;
use rust_to_bokeh::id_gen::IdGen;
use rust_to_bokeh::model::{BokehObject, BokehValue};
use rust_to_bokeh::chart_spec::GridCell;
use rust_to_bokeh::modules_html::{group_thousands, render_paragraph_html, render_table_html, ParagraphSpec};

fn find_attr<'a>(obj: &'a BokehObject, key: &str) -> Option<&'a BokehValue> {
    obj.attributes.iter().find(|(k, _)| k == key).map(|(_, v)| v)
}

#[test]
fn segment_glyph_widths_and_alpha() {
    let mut g = IdGen::new();
    let s = build_segment_glyph(&mut g, "a", "b", "c", "d", "#666666");
    assert_eq!(s.id, "p1001");
    match find_attr(&s, "line_width") {
        Some(BokehValue::Value(v)) => assert!(matches!(**v, BokehValue::Float(b) if f64::from_bits(b) == 1.5)),
        _ => panic!("missing width"),
    }
    let n = build_segment_glyph_nonsel(&mut g, "a", "b", "c", "d");
    match find_attr(&n, "line_alpha") {
        Some(BokehValue::Value(v)) => assert!(matches!(**v, BokehValue::Float(b) if f64::from_bits(b) == 0.1)),
        _ => panic!("missing alpha"),
    }
}

#[test]
fn whisker_renderers_share_one_source() {
    let mut g = IdGen::new();
    let cds = BokehObject::new("ColumnDataSource", "w".into());
    let rs = build_whisker_renderers(&mut g, cds, "w", None);
    assert_eq!(rs.len(), 4);
    assert!(matches!(find_attr(&rs[0], "data_source"), Some(BokehValue::Object(o)) if o.id == "w"));
    for r in &rs[1..] {
        assert!(matches!(find_attr(r, "data_source"), Some(BokehValue::Ref(s)) if s == "w"));
    }
    assert_eq!(rs[0].id, "p1005");
    assert_eq!(rs[3].id, "p1020");
    assert_eq!(g.next(), "p1021");
}

#[test]
fn outlier_hover_targets_one_renderer() {
    let mut g = IdGen::new();
    let h = build_outlier_hover(&mut g, "cat", "Value", "r9");
    match find_attr(&h, "renderers") {
        Some(BokehValue::Array(a)) => assert!(matches!(&a[0], BokehValue::Ref(s) if s == "r9")),
        _ => panic!("renderers not limited"),
    }
    match find_attr(&h, "tooltips") {
        Some(BokehValue::Array(rows)) => {
            assert_eq!(rows.len(), 2);
            match &rows[0] {
                BokehValue::Array(p) => assert!(matches!(&p[1], BokehValue::Str(s) if s == "@{cat}")),
                _ => panic!(),
            }
        }
        _ => panic!("missing tooltips"),
    }
}

#[test]
fn tool_goes_into_toolbar_tools() {
    let tb = BokehObject::new("Toolbar", "tb".into()).attr("tools", BokehValue::Array(vec![]));
    let mut fig = BokehObject::new("Figure", "f".into()).attr("toolbar", tb.into_value());
    add_tool_to_toolbar(&mut fig, BokehObject::new("HoverTool", "h".into()));
    match find_attr(&fig, "toolbar") {
        Some(BokehValue::Object(tb)) => match find_attr(tb, "tools") {
            Some(BokehValue::Array(t)) => assert_eq!(t.len(), 1),
            _ => panic!(),
        },
        _ => panic!(),
    }
}

#[test]
fn legends_overlays_and_hiding() {
    let mut g = IdGen::new();
    let o = build_range_tool_overlay(&mut g);
    assert_eq!(o.name, "BoxAnnotation");
    let item = build_slice_legend_item(&mut g, "A", "r1");
    assert_eq!(item.id, "p1002");
    let grid_x = BokehObject::new("Grid", "gx".into()).attr("dimension", BokehValue::Int(0));
    let grid_y = BokehObject::new("Grid", "gy".into()).attr("dimension", BokehValue::Int(1));
    let mut fig = BokehObject::new("Figure", "f".into())
        .attr("center", BokehValue::Array(vec![grid_x.into_value(), grid_y.into_value()]))
        .attr("below", BokehValue::Array(vec![BokehObject::new("LinearAxis", "a".into()).into_value()]));
    hide_x_grid(&mut fig);
    match find_attr(&fig, "center") {
        Some(BokehValue::Array(items)) => {
            assert!(matches!(&items[0], BokehValue::Object(o) if o.attributes.len() == 2));
            assert!(matches!(&items[1], BokehValue::Object(o) if o.attributes.len() == 1));
        }
        _ => panic!(),
    }
    hide_axes(&mut fig);
    match find_attr(&fig, "below") {
        Some(BokehValue::Array(items)) => assert!(matches!(&items[0], BokehValue::Object(o)
            if matches!(find_attr(o, "visible"), Some(BokehValue::Bool(false))))),
        _ => panic!(),
    }
    add_group_legend(&mut g, &mut fig, &["x".to_string(), "y".to_string()]);
    match find_attr(&fig, "center") {
        Some(BokehValue::Array(items)) => assert!(matches!(items.last(), Some(BokehValue::Object(o)) if o.name == "Legend" && o.id == "p1005")),
        _ => panic!(),
    }
}

#[test]
fn unique_keeps_first_occurrences() {
    let v: Vec<String> = ["b", "a", "b", "c", "a"].iter().map(|s| s.to_string()).collect();
    assert_eq!(unique_preserve_order(&v), vec!["b", "a", "c"]);
}

#[test]
fn lcg_is_reproducible() {
    let mut a = LcgRng::from_str("North");
    let mut b = LcgRng::from_str("North");
    let seed = "North".bytes().fold(12345u64, |acc, x| acc.wrapping_mul(31).wrapping_add(x as u64));
    assert_eq!(a.0, seed);
    let x = a.next_u64();
    assert_eq!(x, seed.wrapping_mul(6364136223846793005).wrapping_add(1442695040888963407));
    assert_eq!(x, b.next_u64());
    assert_ne!(LcgRng::from_str("South").0, seed);
}

#[test]
fn axis_builder_ids_and_formatters() {
    assert_eq!(time_scale_to_fmt(&TimeScale::Days), "%Y-%m-%d");
    let mut g = IdGen::new();
    let (axis, axis_id, grid, grid_id) = AxisBuilder::x(AxisType::Linear).build(&mut g);
    assert_eq!(axis.name, "LinearAxis");
    assert_eq!(axis_id, "p1003");
    assert_eq!(grid_id, "p1004");
    assert!(matches!(find_attr(&grid, "dimension"), Some(BokehValue::Int(0))));
    let fmt = AxisConfig::builder().tick_format("$0").time_scale(TimeScale::Months).build();
    let (axis2, _, _, _) = AxisBuilder::y(AxisType::Datetime).config(Some(fmt)).build(&mut g);
    match find_attr(&axis2, "formatter") {
        Some(BokehValue::Object(f)) => {
            assert_eq!(f.name, "DatetimeTickFormatter");
            assert_eq!(f.id, "p1009");
        }
        _ => panic!(),
    }
    assert_eq!(AxisBuilder::x(AxisType::Categorical).scale_name(), "CategoricalScale");
    assert_eq!(AxisBuilder::x(AxisType::Linear).scale_name(), "LinearScale");
}

#[test]
fn paragraphs_split_on_blank_lines() {
    let p = ParagraphSpec { text: "  First <b>\n\n\n  \n\nSecond & third\n".to_string(), title: None, grid: GridCell { row: 0, col: 0, col_span: 1 } };
    assert_eq!(
        render_paragraph_html(&p),
        "<div class=\"paragraph-module\"><p>First &lt;b&gt;</p><p>Second &amp; third</p></div>"
    );
    let empty = ParagraphSpec { text: String::new(), title: None, grid: GridCell { row: 0, col: 0, col_span: 1 } };
    assert_eq!(render_paragraph_html(&empty), "<div class=\"paragraph-module\"></div>");
}

#[test]
fn table_module_escapes_headings_and_keeps_cells() {
    let labels = vec!["Region".to_string(), "A<B".to_string()];
    let rows = vec![
        vec!["North".to_string(), "$1,200.50".to_string()],
        vec!["South".to_string(), "".to_string()],
    ];
    assert_eq!(
        render_table_html(&labels, &rows),
        "<div class=\"table-module\"><div class=\"table-wrapper\"><table><thead><tr>\
<th>Region</th><th>A&lt;B</th></tr></thead><tbody>\
<tr><td>North</td><td>$1,200.50</td></tr><tr><td>South</td><td></td></tr>\
</tbody></table></div></div>"
    );
}

#[test]
fn empty_table_module_has_head_and_body() {
    assert_eq!(
        render_table_html(&vec![], &vec![]),
        "<div class=\"table-module\"><div class=\"table-wrapper\"><table><thead><tr></tr></thead><tbody></tbody></table></div></div>"
    );
}

#[test]
fn thousands_are_grouped_from_the_right() {
    assert_eq!(group_thousands(0), "0");
    assert_eq!(group_thousands(999), "999");
    assert_eq!(group_thousands(1000), "1,000");
    assert_eq!(group_thousands(1234567), "1,234,567");
    assert_eq!(group_thousands(18446744073709551615), "18,446,744,073,709,551,615");
}

#[test]
fn paragraph_trims_every_unicode_whitespace() {
    let mut count = 0;
    for u in 0u32..=0x10FFFF {
        if let Some(c) = char::from_u32(u) {
            if c.is_whitespace() {
                count += 1;
                let p = ParagraphSpec { text: format!("{c}x{c}"), title: None, grid: GridCell { row: 0, col: 0, col_span: 1 } };
                assert_eq!(render_paragraph_html(&p), "<div class=\"paragraph-module\"><p>x</p></div>");
            }
        }
    }
    assert_eq!(count, 25);
    let kept = ParagraphSpec { text: "\u{200B}x\u{FEFF}".to_string(), title: None, grid: GridCell { row: 0, col: 0, col_span: 1 } };
    assert_eq!(render_paragraph_html(&kept), "<div class=\"paragraph-module\"><p>\u{200B}x\u{FEFF}</p></div>");
}
