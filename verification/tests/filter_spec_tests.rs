use rust_to_bokeh::customization::TimeScale;
use rust_to_bokeh::filter_spec::{build_cds_filter, DateStep, FilterConfig, FilterSpec};
use rust_to_bokeh::id_gen::IdGen;
use rust_to_bokeh::model::{BokehObject, BokehValue};

fn bits(x: f64) -> u64 {
    x.to_bits()
}

fn find_attr<'a>(obj: &'a BokehObject, key: &str) -> Option<&'a BokehValue> {
    obj.attributes.iter().find(|(k, _)| k == key).map(|(_, v)| v)
}

#[test]
fn filters_filter_spec_range_stores_config() {
    let f = FilterSpec::range("src", "col", "Label", bits(10.0), bits(100.0), bits(5.0));
    assert_eq!(f.source_key, "src");
    assert_eq!(f.column, "col");
    assert_eq!(f.label, "Label");
    match f.config {
        FilterConfig::Range { min, max, step } => {
            assert_eq!(f64::from_bits(min), 10.0);
            assert_eq!(f64::from_bits(max), 100.0);
            assert_eq!(f64::from_bits(step), 5.0);
        }
        _ => panic!("expected Range config"),
    }
}

#[test]
fn filters_filter_spec_select_stores_config() {
    let f = FilterSpec::select("src", "col", "Label", vec!["A", "B", "C"]);
    match f.config {
        FilterConfig::Select { options } => assert_eq!(options, vec!["A", "B", "C"]),
        _ => panic!("expected Select config"),
    }
}

#[test]
fn filters_filter_spec_group_stores_config() {
    let f = FilterSpec::group("src", "col", "Label", vec!["X", "Y"]);
    match f.config {
        FilterConfig::Group { options } => assert_eq!(options, vec!["X", "Y"]),
        _ => panic!("expected Group config"),
    }
}

#[test]
fn filters_filter_spec_threshold_stores_config() {
    let f = FilterSpec::threshold("src", "col", "Label", bits(50.0), true);
    match f.config {
        FilterConfig::Threshold { value, above } => {
            assert_eq!(f64::from_bits(value), 50.0);
            assert!(above);
        }
        _ => panic!("expected Threshold config"),
    }
}

#[test]
fn filters_filter_spec_top_n_stores_config() {
    let f = FilterSpec::top_n("src", "col", "Label", 10, false);
    match f.config {
        FilterConfig::TopN { max_n, descending } => {
            assert_eq!(max_n, 10);
            assert!(!descending);
        }
        _ => panic!("expected TopN config"),
    }
}

#[test]
fn filter_spec_range_tool_stores_config() {
    let f = FilterSpec::range_tool("sensor_events", "timestamp_ms", "temperature", "Navigator", bits(1_000.0), bits(9_000.0), Some(TimeScale::Days));
    assert_eq!(f.source_key, "sensor_events");
    assert_eq!(f.column, "timestamp_ms");
    assert_eq!(f.label, "Navigator");
    match f.config {
        FilterConfig::RangeTool { y_column, start, end, time_scale } => {
            assert_eq!(y_column, "temperature");
            assert_eq!(f64::from_bits(start), 1_000.0);
            assert_eq!(f64::from_bits(end), 9_000.0);
            assert!(matches!(time_scale, Some(TimeScale::Days)));
        }
        _ => panic!("expected RangeTool config"),
    }
}

#[test]
fn date_step_named_variants_as_ms() {
    assert_eq!(f64::from_bits(DateStep::Millisecond.as_ms()), 1.0);
    assert_eq!(f64::from_bits(DateStep::Second.as_ms()), 1_000.0);
    assert_eq!(f64::from_bits(DateStep::Minute.as_ms()), 60_000.0);
    assert_eq!(f64::from_bits(DateStep::Hour.as_ms()), 3_600_000.0);
    assert_eq!(f64::from_bits(DateStep::Day.as_ms()), 86_400_000.0);
    assert_eq!(f64::from_bits(DateStep::Week.as_ms()), 604_800_000.0);
    assert_eq!(f64::from_bits(DateStep::Month.as_ms()), 2_592_000_000.0);
    assert_eq!(f64::from_bits(DateStep::Year.as_ms()), 31_536_000_000.0);
}

#[test]
fn date_step_custom_returns_supplied_value() {
    assert_eq!(f64::from_bits(DateStep::Custom(bits(12345.0)).as_ms()), 12345.0);
}

#[test]
fn cds_filters_dispatch_by_type() {
    let mut g = IdGen::new();
    let r = build_cds_filter(&mut g, &FilterSpec::range("s", "v", "V", bits(1.0), bits(9.0), bits(0.5)), 5).unwrap();
    assert_eq!(r.widget.name, "RangeSlider");
    assert!(matches!(find_attr(&r.widget, "step"), Some(BokehValue::Float(b)) if f64::from_bits(*b) == 0.5));
    let t = build_cds_filter(&mut g, &FilterSpec::threshold("s", "v", "Hot", bits(30.0), true), 5).unwrap();
    assert_eq!(t.widget.name, "Switch");
    assert_eq!(t.switch_label, Some("Hot".to_string()));
    let d = build_cds_filter(
        &mut g,
        &FilterSpec::date_range("s", "ts", "When", bits(0.0), bits(1e9), DateStep::Day, TimeScale::Days),
        2,
    )
    .unwrap();
    assert_eq!(d.widget.name, "DatetimeRangeSlider");
    assert!(matches!(find_attr(&d.widget, "step"), Some(BokehValue::Float(b)) if f64::from_bits(*b) == 86_400_000.0));
    assert_eq!(d.filter_id, "p1007");
    let s = build_cds_filter(&mut g, &FilterSpec::select("s", "c", "C", vec!["a"]), 1).unwrap();
    assert_eq!(s.widget.name, "Select");
    let n = build_cds_filter(&mut g, &FilterSpec::top_n("s", "c", "N", 3, true), 4).unwrap();
    assert_eq!(n.widget.name, "Slider");
    let gr = build_cds_filter(&mut g, &FilterSpec::group("s", "c", "G", vec!["x"]), 4).unwrap();
    assert_eq!(gr.filter_obj.name, "GroupFilter");
}

fn callback_code(widget: &rust_to_bokeh::model::BokehObject) -> String {
    let cbs = match find_attr(widget, "js_property_callbacks") {
        Some(BokehValue::Entries(e)) => e,
        _ => panic!("no callbacks"),
    };
    let cb = match &cbs[0].1 {
        BokehValue::Array(a) => match &a[0] {
            BokehValue::Object(o) => o,
            _ => panic!("callback not inline"),
        },
        _ => panic!("callbacks not a list"),
    };
    match find_attr(cb, "code") {
        Some(BokehValue::Str(s)) => s.clone(),
        _ => panic!("no code"),
    }
}

#[test]
fn threshold_callback_compares_strictly() {
    let mut g = IdGen::new();
    let t = build_cds_filter(&mut g, &FilterSpec::threshold("src", "value", "High Only", bits(30.0), true), 5).unwrap();
    assert_eq!(t.switch_label, Some("High Only".to_string()));
    assert!(matches!(find_attr(&t.widget, "active"), Some(BokehValue::Bool(false))));
    let code = callback_code(&t.widget);
    assert!(code.contains("v > threshold : v < threshold"));
    assert!(!code.contains(">="));
}
