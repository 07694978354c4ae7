use rust_to_bokeh::chart_config::{ChartConfig, ChartSpec, DensityConfig};
use rust_to_bokeh::chart_parts::LcgRng;
use rust_to_bokeh::chart_spec::GridCell;
use rust_to_bokeh::density::{build_density, DensityShape, KDE_GRID_POINTS};
use rust_to_bokeh::error::ChartError;
use rust_to_bokeh::id_gen::IdGen;
use rust_to_bokeh::model::{BokehObject, BokehValue};

fn find_attr<'a>(obj: &'a BokehObject, key: &str) -> Option<&'a BokehValue> {
    obj.attributes.iter().find(|(k, _)| k == key).map(|(_, v)| v)
}

fn value_mentions(v: &BokehValue, s: &str) -> bool {
    match v {
        BokehValue::Str(x) | BokehValue::Ref(x) | BokehValue::Field(x) => x == s,
        BokehValue::Value(b) => value_mentions(b, s),
        BokehValue::Array(a) => a.iter().any(|x| value_mentions(x, s)),
        BokehValue::Entries(e) => e.iter().any(|(k, x)| k == s || value_mentions(x, s)),
        BokehValue::Object(o) => mentions(o, s),
        _ => false,
    }
}

/// Whether `s` occurs as a name, id, key or string anywhere in `obj`.
fn mentions(obj: &BokehObject, s: &str) -> bool {
    obj.name == s || obj.id == s || obj.attributes.iter().any(|(k, v)| k == s || value_mentions(v, s))
}

fn test_spec(title: &str) -> ChartSpec {
    ChartSpec {
        title: title.into(),
        source_key: "test".into(),
        config: ChartConfig::Density(
            DensityConfig::builder().category("cat").value("val").y_label("Y").build().unwrap(),
        ),
        grid: GridCell { row: 0, col: 0, col_span: 1 },
        filtered: false,
        width: None,
        height: None,
    }
}

/// Distinct categories in first-seen order and the size of each group.
fn groups(cats: &[&str]) -> Vec<(String, usize)> {
    let mut out: Vec<(String, usize)> = Vec::new();
    for c in cats {
        match out.iter_mut().find(|(k, _)| k == c) {
            Some(e) => e.1 += 1,
            None => out.push((c.to_string(), 1)),
        }
    }
    out
}

fn shape(n: usize) -> DensityShape {
    DensityShape {
        jitter: (0..n).map(|i| (0.01 * i as f64).to_bits()).collect(),
        right: (0..KDE_GRID_POINTS).map(|j| (0.004 * j as f64).to_bits()).collect(),
        left: (0..KDE_GRID_POINTS).map(|j| (-0.004 * j as f64).to_bits()).collect(),
        median: 42.0f64.to_bits(),
    }
}

fn build(cfg: &DensityConfig, cats: &[&str], vals: &[f64], filter: Option<BokehValue>) -> BokehObject {
    let gs = groups(cats);
    let shapes: Vec<DensityShape> = gs.iter().map(|(_, n)| shape(*n)).collect();
    let factors: Vec<BokehValue> = gs.iter().map(|(c, _)| BokehValue::Str(c.clone())).collect();
    let palette: Vec<String> = gs.iter().map(|_| "#4C72B0".to_string()).collect();
    let mut id_gen = IdGen::new();
    build_density(
        &mut id_gen,
        &test_spec("Density"),
        cfg,
        Ok(cats.iter().map(|s| s.to_string()).collect()),
        Ok(vals.iter().map(|v| v.to_bits()).collect()),
        &palette,
        &shapes,
        &(0..KDE_GRID_POINTS).map(|j| (j as f64).to_bits()).collect(),
        BokehObject::new("FactorRange", "xr".into()).attr("factors", BokehValue::Array(factors)).into_value(),
        BokehObject::new("DataRange1d", "yr".into()).into_value(),
        filter,
    )
    .unwrap()
}

fn cfg() -> DensityConfig {
    DensityConfig::builder().category("cat").value("val").y_label("Y").build().unwrap()
}

fn renderers(fig: &BokehObject) -> Vec<BokehObject> {
    match find_attr(fig, "renderers") {
        Some(BokehValue::Array(a)) => a
            .iter()
            .map(|v| match v {
                BokehValue::Object(o) => (**o).clone(),
                _ => panic!("renderer is not inline"),
            })
            .collect(),
        _ => panic!("no renderers"),
    }
}

#[test]
fn density_sina_for_few_points() {
    let fig = build(&cfg(), &["A", "A", "A", "B", "B", "B"], &[10.0, 20.0, 30.0, 15.0, 25.0, 35.0], None);
    assert_eq!(fig.name, "Figure");
    assert!(mentions(&fig, "Scatter"));
    assert!(!mentions(&fig, "Patch"));
}

#[test]
fn density_violin_for_many_points() {
    let cats: Vec<&str> = (0..100).map(|_| "X").collect();
    let vals: Vec<f64> = (0..100).map(|i| i as f64).collect();
    let cfg = DensityConfig::builder().category("cat").value("val").y_label("Y").point_threshold(50).build().unwrap();
    let fig = build(&cfg, &cats, &vals, None);
    assert!(mentions(&fig, "Patch"), "violin should use Patch glyph");
    assert!(mentions(&fig, "Line"));
}

#[test]
fn density_uses_factor_range() {
    let fig = build(&cfg(), &["A", "B"], &[10.0, 20.0], None);
    assert!(mentions(&fig, "FactorRange"));
}

#[test]
fn density_with_filter_ref() {
    let filter = BokehObject::new("BooleanFilter", "bf1".into())
        .attr("booleans", BokehValue::Array(vec![BokehValue::Bool(true); 2]));
    let fig = build(&cfg(), &["A", "B"], &[10.0, 20.0], Some(filter.into_value()));
    assert!(mentions(&fig, "BooleanFilter"));
}

#[test]
fn density_empty_data_returns_figure() {
    let fig = build(&cfg(), &[], &[], None);
    assert_eq!(fig.name, "Figure");
    assert!(renderers(&fig).is_empty());
}

#[test]
fn density_all_nan_values_leave_the_figure_without_renderers() {
    let fig = build(&cfg(), &["A", "B"], &[f64::NAN, f64::NAN], None);
    assert!(renderers(&fig).is_empty());
    assert!(!mentions(&fig, "Y"));
}

#[test]
fn density_categories_in_first_seen_order_with_sina_or_violin_by_threshold() {
    let mut cats: Vec<&str> = vec!["B"; 4];
    cats.extend(vec!["A"; 3]);
    let vals: Vec<f64> = (0..7).map(|i| i as f64).collect();
    let cfg = DensityConfig::builder().category("cat").value("val").y_label("Y").point_threshold(3).build().unwrap();
    let fig = build(&cfg, &cats, &vals, None);
    let rs = renderers(&fig);
    // B has 4 values: violin and median line; A has 3: sina points
    assert_eq!(rs.len(), 3);
    let glyph = |r: &BokehObject| match find_attr(r, "glyph") {
        Some(BokehValue::Object(g)) => g.name.clone(),
        _ => panic!(),
    };
    assert_eq!(glyph(&rs[0]), "Patch");
    assert_eq!(glyph(&rs[1]), "Line");
    assert_eq!(glyph(&rs[2]), "Scatter");
    let data = |r: &BokehObject| match find_attr(r, "data_source") {
        Some(BokehValue::Object(s)) => match find_attr(s, "data") {
            Some(BokehValue::Entries(e)) => e.clone(),
            _ => panic!(),
        },
        _ => panic!(),
    };
    // the violin outline goes up the right side and back down the left side
    match &data(&rs[0])[0].1 {
        BokehValue::Array(a) => assert_eq!(a.len(), 2 * KDE_GRID_POINTS),
        _ => panic!(),
    }
    // the sina points are A's values, in row order
    match &data(&rs[2])[1].1 {
        BokehValue::Array(a) => {
            let ys: Vec<u64> = a
                .iter()
                .map(|v| match v {
                    BokehValue::Float(b) => *b,
                    _ => panic!(),
                })
                .collect();
            assert_eq!(ys, vec![4.0f64.to_bits(), 5.0f64.to_bits(), 6.0f64.to_bits()]);
        },
        _ => panic!(),
    }
}

#[test]
fn density_missing_value_column_fails() {
    let mut id_gen = IdGen::new();
    let r = build_density(
        &mut id_gen,
        &test_spec("Bad"),
        &cfg(),
        Ok(vec!["A".to_string()]),
        Err("column 'val' not found".into()),
        &vec![],
        &vec![],
        &vec![],
        BokehValue::ref_of("xr"),
        BokehValue::ref_of("yr"),
        None,
    );
    assert!(matches!(r, Err(ChartError::NativeRender(m)) if m == "column 'val' not found"));
}

#[test]
fn lcg_rng_produces_values_in_range() {
    let mut rng = LcgRng::from_str("test");
    for _ in 0..100 {
        let v = (rng.next_u64() >> 11) as f64 / (1u64 << 53) as f64;
        assert!(v >= 0.0 && v < 1.0);
    }
}
