use rust_to_bokeh::chart_helpers::{add_legend, add_renderers, default_hover_tool, make_hover_tool, set_axis_labels, tooltip_arrays};
use rust_to_bokeh::chart_spec::{TooltipFormat, TooltipSpec};
use rust_to_bokeh::customization::{HistogramDisplay, MarkerType, TimeScale};
use rust_to_bokeh::id_gen::IdGen;
use rust_to_bokeh::model::{BokehObject, BokehValue};

fn find_attr<'a>(obj: &'a BokehObject, key: &str) -> Option<&'a BokehValue> {
    obj.attributes.iter().find(|(k, _)| k == key).map(|(_, v)| v)
}

fn strings_in(v: &BokehValue, out: &mut Vec<String>) {
    match v {
        BokehValue::Str(s) | BokehValue::Ref(s) | BokehValue::Field(s) => out.push(s.clone()),
        BokehValue::Array(items) => items.iter().for_each(|x| strings_in(x, out)),
        BokehValue::Entries(entries) => entries.iter().for_each(|(k, x)| {
            out.push(k.clone());
            strings_in(x, out);
        }),
        BokehValue::Object(o) => {
            out.push(o.name.clone());
            for (k, x) in &o.attributes {
                out.push(k.clone());
                strings_in(x, out);
            }
        }
        BokehValue::Value(inner) => strings_in(inner, out),
        _ => {}
    }
}

fn dump(o: &BokehObject) -> String {
    let mut v = Vec::new();
    strings_in(&BokehValue::Object(Box::new(o.clone())), &mut v);
    v.join(" ")
}

#[test]
fn tooltip_text_format() {
    let spec = TooltipSpec::builder().field("name", "Name", TooltipFormat::Text).build();
    let (tips, fmts) = tooltip_arrays(&spec);
    assert_eq!(tips.len(), 1);
    assert_eq!(tips[0].0, "Name");
    assert_eq!(tips[0].1, "@{name}");
    assert!(fmts.is_empty());
}

#[test]
fn tooltip_number_format() {
    let spec = TooltipSpec::builder().field("revenue", "Revenue", TooltipFormat::Number(Some(2))).build();
    let (tips, _) = tooltip_arrays(&spec);
    assert_eq!(tips[0].1, "@{revenue}{0.00}");
}

#[test]
fn tooltip_percent_format() {
    let spec = TooltipSpec::builder().field("rate", "Rate", TooltipFormat::Percent(Some(1))).build();
    let (tips, _) = tooltip_arrays(&spec);
    assert_eq!(tips[0].1, "@{rate}{0.0%}");
}

#[test]
fn tooltip_currency_format() {
    let spec = TooltipSpec::builder().field("price", "Price", TooltipFormat::Currency).build();
    let (tips, _) = tooltip_arrays(&spec);
    assert_eq!(tips[0].1, "@{price}{$0,0}");
}

#[test]
fn tooltip_datetime_format_and_formatter() {
    let spec = TooltipSpec::builder().field("ts", "Time", TooltipFormat::DateTime(TimeScale::Days)).build();
    let (tips, fmts) = tooltip_arrays(&spec);
    assert!(tips[0].1.contains("%Y-%m-%d"));
    assert_eq!(fmts.len(), 1);
    assert_eq!(fmts[0].1, "datetime");
}

#[test]
fn tooltip_defaults_and_order() {
    let spec = TooltipSpec::builder()
        .field("a", "A", TooltipFormat::Number(None))
        .field("b", "B", TooltipFormat::Percent(None))
        .field("c", "C", TooltipFormat::DateTime(TimeScale::Months))
        .field("d", "D", TooltipFormat::Number(Some(0)))
        .build();
    let (tips, fmts) = tooltip_arrays(&spec);
    assert_eq!(
        tips,
        vec![
            ("A".to_string(), "@{a}{0.00}".to_string()),
            ("B".to_string(), "@{b}{0.0%}".to_string()),
            ("C".to_string(), "@{c}{%b %Y}".to_string()),
            ("D".to_string(), "@{d}{0.}".to_string()),
        ]
    );
    assert_eq!(fmts, vec![("@{c}".to_string(), "datetime".to_string())]);
}

#[test]
fn default_hover_tool_creates_hovertool() {
    let mut id_gen = IdGen::new();
    let ht = default_hover_tool(&mut id_gen, &["x", "y"]);
    assert_eq!(ht.name, "HoverTool");
    let json = dump(&ht);
    assert!(json.contains("@{x}"));
    assert!(json.contains("@{y}"));
}

#[test]
fn make_hover_tool_prefers_spec() {
    let mut id_gen = IdGen::new();
    let spec = TooltipSpec::builder().field("ts", "When", TooltipFormat::DateTime(TimeScale::Hours)).build();
    let ht = make_hover_tool(&mut id_gen, Some(&spec), &["x"]);
    let json = dump(&ht);
    assert!(json.contains("@{ts}{%m/%d %H:%M}"));
    assert!(json.contains("formatters"));
    assert!(!json.contains("@{x}"));
    let fallback = make_hover_tool(&mut id_gen, None, &["x"]);
    assert!(dump(&fallback).contains("@{x}"));
    assert_eq!(fallback.id, "p1002");
}

#[test]
fn add_renderers_appends_to_empty() {
    let mut fig = BokehObject::new("Figure", "f1".into()).attr("renderers", BokehValue::Array(vec![]));
    let r = BokehObject::new("GlyphRenderer", "r1".into());
    add_renderers(&mut fig, vec![r]);
    if let Some(BokehValue::Array(arr)) = find_attr(&fig, "renderers") {
        assert_eq!(arr.len(), 1);
    }
}

#[test]
fn add_renderers_appends_multiple() {
    let mut fig = BokehObject::new("Figure", "f1".into()).attr("renderers", BokehValue::Array(vec![]));
    let r1 = BokehObject::new("GlyphRenderer", "r1".into());
    let r2 = BokehObject::new("GlyphRenderer", "r2".into());
    add_renderers(&mut fig, vec![r1, r2]);
    if let Some(BokehValue::Array(arr)) = find_attr(&fig, "renderers") {
        assert_eq!(arr.len(), 2);
    }
}

#[test]
fn add_renderers_skips_non_list_and_keeps_order() {
    let mut fig = BokehObject::new("Figure", "f1".into())
        .attr("renderers", BokehValue::Str("auto".into()))
        .attr("renderers", BokehValue::Array(vec![BokehValue::Int(7)]));
    add_renderers(&mut fig, vec![BokehObject::new("A", "a".into()), BokehObject::new("B", "b".into())]);
    assert!(matches!(&fig.attributes[0].1, BokehValue::Str(s) if s == "auto"));
    match &fig.attributes[1].1 {
        BokehValue::Array(arr) => {
            assert_eq!(arr.len(), 3);
            assert!(matches!(&arr[1], BokehValue::Object(o) if o.id == "a"));
            assert!(matches!(&arr[2], BokehValue::Object(o) if o.id == "b"));
        }
        _ => panic!("renderers not a list"),
    }
}

#[test]
fn add_renderers_without_list_changes_nothing() {
    let mut fig = BokehObject::new("Figure", "f1".into()).attr("center", BokehValue::Array(vec![]));
    add_renderers(&mut fig, vec![BokehObject::new("A", "a".into())]);
    assert_eq!(fig.attributes.len(), 1);
    assert!(matches!(&fig.attributes[0].1, BokehValue::Array(a) if a.is_empty()));
}

#[test]
fn set_axis_labels_adds_to_axes() {
    let x_axis = BokehObject::new("LinearAxis", "xa".into());
    let y_axis = BokehObject::new("LinearAxis", "ya".into());
    let mut fig = BokehObject::new("Figure", "f1".into())
        .attr("below", BokehValue::Array(vec![x_axis.into_value()]))
        .attr("left", BokehValue::Array(vec![y_axis.into_value()]));
    set_axis_labels(&mut fig, "X Label", "Y Label");
    let json = dump(&fig);
    assert!(json.contains("X Label"));
    assert!(json.contains("Y Label"));
}

#[test]
fn set_axis_labels_empty_label_adds_nothing() {
    let x_axis = BokehObject::new("LinearAxis", "xa".into());
    let mut fig = BokehObject::new("Figure", "f1".into()).attr("below", BokehValue::Array(vec![x_axis.into_value()]));
    set_axis_labels(&mut fig, "", "Y");
    match &fig.attributes[0].1 {
        BokehValue::Array(axes) => match &axes[0] {
            BokehValue::Object(o) => assert!(o.attributes.is_empty()),
            _ => panic!("axis not inline"),
        },
        _ => panic!("below not a list"),
    }
}

#[test]
fn add_legend_appends_to_center() {
    let mut fig = BokehObject::new("Figure", "f1".into()).attr("center", BokehValue::Array(vec![]));
    let legend = BokehObject::new("Legend", "lg1".into());
    add_legend(&mut fig, legend);
    if let Some(BokehValue::Array(arr)) = find_attr(&fig, "center") {
        assert_eq!(arr.len(), 1);
        if let BokehValue::Object(o) = &arr[0] {
            assert_eq!(o.name, "Legend");
        }
    }
}

#[test]
fn display_as_str() {
    assert_eq!(HistogramDisplay::Count.as_str(), "count");
    assert_eq!(HistogramDisplay::Pdf.as_str(), "pdf");
    assert_eq!(HistogramDisplay::Cdf.as_str(), "cdf");
}

#[test]
fn as_str_basic_variants() {
    assert_eq!(MarkerType::Circle.as_str(), "circle");
    assert_eq!(MarkerType::Square.as_str(), "square");
    assert_eq!(MarkerType::Diamond.as_str(), "diamond");
    assert_eq!(MarkerType::Triangle.as_str(), "triangle");
    assert_eq!(MarkerType::InvertedTriangle.as_str(), "inverted_triangle");
    assert_eq!(MarkerType::Hex.as_str(), "hex");
    assert_eq!(MarkerType::Star.as_str(), "star");
}

#[test]
fn as_str_compound_variants() {
    assert_eq!(MarkerType::CircleCross.as_str(), "circle_cross");
    assert_eq!(MarkerType::CircleDot.as_str(), "circle_dot");
    assert_eq!(MarkerType::CircleX.as_str(), "circle_x");
    assert_eq!(MarkerType::HexDot.as_str(), "hex_dot");
    assert_eq!(MarkerType::SquareCross.as_str(), "square_cross");
    assert_eq!(MarkerType::StarDot.as_str(), "star_dot");
    assert_eq!(MarkerType::TriangleDot.as_str(), "triangle_dot");
    assert_eq!(MarkerType::TrianglePin.as_str(), "triangle_pin");
}

#[test]
fn time_scale_formats_and_names() {
    assert_eq!(TimeScale::Milliseconds.format_str(), "%H:%M:%S.%3N");
    assert_eq!(TimeScale::Seconds.format_str(), "%H:%M:%S");
    assert_eq!(TimeScale::Minutes.format_str(), "%H:%M");
    assert_eq!(TimeScale::Hours.format_str(), "%m/%d %H:%M");
    assert_eq!(TimeScale::Days.format_str(), "%Y-%m-%d");
    assert_eq!(TimeScale::Months.format_str(), "%b %Y");
    assert_eq!(TimeScale::Years.format_str(), "%Y");
    assert_eq!(TimeScale::Milliseconds.as_str(), "milliseconds");
    assert_eq!(TimeScale::Years.as_str(), "years");
}
