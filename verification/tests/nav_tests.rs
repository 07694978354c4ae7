use rust_to_bokeh::nav::{build_nav_html, escape_html};
use rust_to_bokeh::pages::{Page, PageBuilder};

fn page(slug: &str, label: &str, category: Option<&str>) -> Page {
    let b = PageBuilder::new(slug, label, label, 2);
    let b = match category {
        Some(c) => b.category(c),
        None => b,
    };
    b.build().unwrap()
}

#[test]
fn horizontal_nav_marks_current_tab() {
    let pages = vec![page("home", "Home", None), page("about", "About", None)];
    let html = build_nav_html(&pages, "Report", "horizontal", "about");
    assert_eq!(
        html,
        "<nav class=\"nav-horizontal\"><div class=\"nav-header\"><div class=\"nav-report-title\">Report</div>\
<div class=\"nav-tabs-scroll\"><a href=\"home.html\" class=\"nav-tab\">Home</a>\
<a href=\"about.html\" class=\"nav-tab active\">About</a></div></div></nav>"
    );
}

#[test]
fn horizontal_nav_nests_categories() {
    let pages = vec![
        page("a", "A", Some("Sales")),
        page("b", "B", Some("Sales/EMEA")),
        page("c", "C", Some("Ops")),
    ];
    let html = build_nav_html(&pages, "", "horizontal", "b");
    assert_eq!(
        html,
        "<nav class=\"nav-horizontal\"><div class=\"nav-header\"><div class=\"nav-tabs-scroll\">\
<div class=\"nav-dd has-active\"><button class=\"nav-dd-trigger\">Sales<span class=\"caret\">▾</span></button><div class=\"nav-dd-menu\">\
<a href=\"a.html\" class=\"nav-dd-item\">A</a><hr class=\"nav-dd-divider\">\
<div class=\"nav-dd-sub has-active\"><button class=\"nav-dd-sub-trigger\">EMEA<span class=\"caret\">▸</span></button><div class=\"nav-dd-sub-menu\">\
<a href=\"b.html\" class=\"nav-dd-item active\">B</a></div></div></div></div>\
<div class=\"nav-dd\"><button class=\"nav-dd-trigger\">Ops<span class=\"caret\">▾</span></button><div class=\"nav-dd-menu\">\
<a href=\"c.html\" class=\"nav-dd-item\">C</a></div></div></div></div></nav>"
    );
}

#[test]
fn vertical_nav_links_title_to_home_and_opens_active_section() {
    let pages = vec![page("home", "Home", None), page("x", "X & Y", Some("Cat"))];
    let html = build_nav_html(&pages, "R<1>", "vertical", "x");
    assert_eq!(
        html,
        "<nav class=\"nav-vertical\"><div class=\"nav-report-title\"><a href=\"home.html\" style=\"color:inherit;text-decoration:none;\">R&lt;1&gt;</a></div>\
<div class=\"nav-search\"><input type=\"search\" id=\"nav-search-input\" class=\"nav-search-input\" placeholder=\"Search&#x2026;\" autocomplete=\"off\"></div>\
<div class=\"nav-uncategorized\"><a href=\"home.html\">Home</a></div>\
<details open><summary>Cat</summary><div class=\"nav-indent\"><a href=\"x.html\" class=\"active\">X &amp; Y</a></div></details></nav>"
    );
}

#[test]
fn vertical_nav_without_pages_has_plain_title() {
    let html = build_nav_html(&[], "T", "vertical", "");
    assert!(html.starts_with("<nav class=\"nav-vertical\"><div class=\"nav-report-title\">T</div>"));
}

#[test]
fn categories_with_same_name_share_a_menu() {
    let pages = vec![page("a", "A", Some("S")), page("b", "B", Some("S"))];
    let html = build_nav_html(&pages, "", "horizontal", "zzz");
    assert_eq!(html.matches("nav-dd-trigger").count(), 1);
    assert!(!html.contains("active"));
}

#[test]
fn escape_html_replaces_specials() {
    assert_eq!(escape_html("a&b<c>\"d'"), "a&amp;b&lt;c&gt;&quot;d'");
}
