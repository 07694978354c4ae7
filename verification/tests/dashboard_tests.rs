use polars::io::ipc::IpcReader;
use polars::io::SerReader;
use polars::prelude::{Column, DataFrame, NamedFrom, Series};
use std::io::Cursor;
use rust_to_bokeh::dashboard::{decode_frames, frame_index, serialize_df, Dashboard};
use rust_to_bokeh::handle::DfHandle;
use rust_to_bokeh::pages::{Page, PageBuilder, PageModule, MAX_GRID_COLS};
use rust_to_bokeh::chart_config::{ChartSpecBuilder, HBarConfig};
use rust_to_bokeh::error::ChartError;
use rust_to_bokeh::filter_spec::FilterSpec;
use rust_to_bokeh::{BokehResources, NavStyle};

fn frame_i64(name: &str, values: &[i64]) -> DataFrame {
    DataFrame::new_infer_height(vec![Column::from(Series::new(name.into(), values))]).unwrap()
}

fn page(slug: &str, title: &str, label: &str) -> Page {
    PageBuilder::new(slug, title, label, 1).build().unwrap()
}

#[test]
fn dashboard_new_defaults() {
    let dash = Dashboard::new();
    assert_eq!(dash.output_path(), "output");
    assert_eq!(dash.report_title(), "");
    assert_eq!(dash.style(), NavStyle::Horizontal);
    assert!(dash.frames().is_empty());
    assert!(dash.pages().is_empty());
}

#[test]
fn dashboard_default_matches_new() {
    let a = Dashboard::new();
    let b = Dashboard::default();
    assert_eq!(a.output_path(), b.output_path());
    assert_eq!(a.report_title(), b.report_title());
}

#[test]
fn dashboard_title_sets_title() {
    let dash = Dashboard::new().title("My Report");
    assert_eq!(dash.report_title(), "My Report");
}

#[test]
fn dashboard_output_dir_sets_dir() {
    let dash = Dashboard::new().output_dir("/tmp/test-output");
    assert_eq!(dash.output_path(), "/tmp/test-output");
}

#[test]
fn dashboard_nav_style_sets_style() {
    let dash = Dashboard::new().nav_style(NavStyle::Vertical);
    assert_eq!(dash.style(), NavStyle::Vertical);
}

#[test]
fn dashboard_add_df_stores_frame() {
    let mut df = frame_i64("a", &[1, 2]);
    let mut dash = Dashboard::new();
    dash.add_df("my_data", &mut df).unwrap();
    assert_eq!(dash.frames().len(), 1);
    assert_eq!(dash.frames()[0].0, "my_data");
    assert!(!dash.frames()[0].1.is_empty());
}

#[test]
fn dashboard_add_df_multiple_keys() {
    let mut df1 = frame_i64("a", &[1]);
    let mut df2 = frame_i64("b", &[2]);
    let mut dash = Dashboard::new();
    dash.add_df("first", &mut df1).unwrap();
    dash.add_df("second", &mut df2).unwrap();
    assert_eq!(dash.frames().len(), 2);
    assert_eq!(dash.frames()[0].0, "first");
    assert_eq!(dash.frames()[1].0, "second");
}

#[test]
fn dashboard_add_df_returns_self_for_chaining() {
    let mut df = frame_i64("a", &[1]);
    let mut dash = Dashboard::new();
    dash.add_df("k1", &mut df).unwrap().add_df("k2", &mut df).unwrap();
    assert_eq!(dash.frames().len(), 2);
}

#[test]
fn dashboard_add_page_stores_page() {
    let mut dash = Dashboard::new();
    dash.add_page(page("overview", "Overview", "Ov"));
    assert_eq!(dash.pages().len(), 1);
    assert_eq!(dash.pages()[0].slug, "overview");
}

#[test]
fn dashboard_add_page_multiple() {
    let mut dash = Dashboard::new();
    dash.add_page(page("page-one", "Title", "Label"));
    dash.add_page(page("page-two", "Title", "Label"));
    assert_eq!(dash.pages().len(), 2);
}

#[test]
fn dashboard_output_dir_used_in_render_config() {
    let dash = Dashboard::new().output_dir("/custom/path").title("Test").nav_style(NavStyle::Vertical);
    assert_eq!(dash.output_path(), "/custom/path");
    assert_eq!(dash.report_title(), "Test");
    assert_eq!(dash.style(), NavStyle::Vertical);
}

#[test]
fn nav_style_default_is_horizontal() {
    assert_eq!(NavStyle::default(), NavStyle::Horizontal);
}

#[test]
fn nav_style_horizontal_str() {
    assert_eq!(NavStyle::Horizontal.as_str(), "horizontal");
}

#[test]
fn nav_style_vertical_str() {
    assert_eq!(NavStyle::Vertical.as_str(), "vertical");
}

#[test]
fn bokeh_resources_default_is_cdn() {
    assert_eq!(BokehResources::default(), BokehResources::Cdn);
}

#[test]
fn serialize_df_produces_nonempty_bytes() {
    let mut df = DataFrame::new_infer_height(vec![
        Column::from(Series::new("x".into(), &[1i64, 2, 3])),
        Column::from(Series::new("y".into(), &[4.0f64, 5.0, 6.0])),
    ])
    .unwrap();
    let bytes = serialize_df(&mut df).unwrap();
    assert!(!bytes.is_empty());
}

#[test]
fn serialize_df_bytes_are_valid_ipc() {
    let mut df = DataFrame::new_infer_height(vec![
        Column::from(Series::new("name".into(), &["Alice", "Bob"])),
        Column::from(Series::new("score".into(), &[95.0f64, 87.5])),
    ])
    .unwrap();
    let bytes = serialize_df(&mut df).unwrap();

    let restored = IpcReader::new(Cursor::new(bytes)).finish().unwrap();
    assert_eq!(restored.height(), 2);
    assert_eq!(restored.width(), 2);
    let names: Vec<&str> = restored.get_column_names().iter().map(|s| s.as_str()).collect();
    assert!(names.contains(&"name"));
    assert!(names.contains(&"score"));
}

#[test]
fn serialize_df_empty_dataframe() {
    let mut df = frame_i64("a", &[]);
    let bytes = serialize_df(&mut df).unwrap();
    assert!(!bytes.is_empty());
}

#[test]
fn df_handle_name_and_equality() {
    let a = DfHandle::new("sales");
    let b = DfHandle::new("sales");
    let c = DfHandle::new("costs");
    assert_eq!(a.name(), "sales");
    assert!(a == b);
    assert!(a != c);
    assert_eq!(a.clone().name(), "sales");
}

#[test]
fn serialize_df_bytes_are_framed_by_arrow_magic() {
    let mut df = frame_i64("a", &[1, 2, 3]);
    let bytes = serialize_df(&mut df).unwrap();
    assert!(bytes.len() >= 14);
    assert_eq!(&bytes[..8], b"ARROW1\0\0");
    assert_eq!(&bytes[bytes.len() - 6..], b"ARROW1");
    let mut dash = Dashboard::new();
    dash.add_df("k", &mut df).unwrap();
    assert_eq!(&dash.frames()[0].1[..6], b"ARROW1");
}

#[test]
fn page_builder_collects_modules_and_filters() {
    let cfg = HBarConfig::builder().category("c").value("v").x_label("X").build().unwrap();
    let page = PageBuilder::new("overview", "Overview", "Ov", 2)
        .category("Reports/Q1")
        .chart(ChartSpecBuilder::hbar("Chart", "data", cfg).at(0, 0, 1).build())
        .filter(FilterSpec::select("data", "c", "C", vec!["a", "b"]))
        .build()
        .unwrap();
    assert_eq!(page.slug, "overview");
    assert_eq!(page.category, Some("Reports/Q1".to_string()));
    assert_eq!(page.grid_cols, 2);
    assert_eq!(page.modules.len(), 1);
    assert!(matches!(&page.modules[0], PageModule::Chart(c) if c.title == "Chart"));
    assert_eq!(page.filters.len(), 1);
}

#[test]
fn page_builder_rejects_too_wide_grid() {
    assert!(PageBuilder::new("p", "P", "P", MAX_GRID_COLS).build().is_ok());
    assert!(matches!(
        PageBuilder::new("p", "P", "P", MAX_GRID_COLS + 1).build(),
        Err(ChartError::GridValidation(7))
    ));
}

#[test]
fn decode_frames_reads_back_serialized_frames() {
    let mut a = frame_i64("x", &[1, 2, 3]);
    let mut b = frame_i64("y", &[4]);
    let data = vec![
        ("a".to_string(), serialize_df(&mut a).unwrap()),
        ("b".to_string(), serialize_df(&mut b).unwrap()),
    ];
    let frames = decode_frames(&data).unwrap();
    assert_eq!(frames.len(), 2);
    assert_eq!(frames[0].0, "a");
    assert_eq!(frames[0].1.height(), 3);
    assert_eq!(frames[1].0, "b");
    assert_eq!(frames[1].1.height(), 1);
}

#[test]
fn registered_frames_decode_and_later_keys_win() {
    let mut a = frame_i64("x", &[1, 2]);
    let mut b = frame_i64("x", &[1, 2, 3]);
    let mut dash = Dashboard::new();
    dash.add_df("k", &mut a).unwrap().add_df("k", &mut b).unwrap();
    let frames = decode_frames(dash.frames()).unwrap();
    let i = frame_index(&frames, "k").unwrap();
    assert_eq!(i, 1);
    assert_eq!(frames[i].1.height(), 3);
    assert!(frame_index(&frames, "missing").is_none());
}
