//! Building blocks for multi-page Bokeh dashboards: the Bokeh document model,
//! figure/tool builders, navigation HTML, document invariant checks and the
//! chart configuration types, each with a machine-checked contract.

use vstd::prelude::*;

pub mod customization;
pub mod model;
pub mod text;
pub mod order;
pub mod id_gen;
pub mod doc_verify;
pub mod placeholder;
pub mod figure;
pub mod chart_spec;
pub mod chart_config;
pub mod chart_helpers;
pub mod json_text;
pub mod document;
pub mod pages;
pub mod nav;
pub mod handle;
pub mod error;
pub mod dashboard;
pub mod filters;
pub mod filter_spec;
pub mod chart_parts;
pub mod axis;
pub mod modules_html;
pub mod renderers;
pub mod page;
pub mod chart_figure;
pub mod source;
pub mod histogram;
pub mod grouped_bar;
pub mod density;
pub mod hbar;
pub mod scatter;
pub mod line_chart;
pub mod chart_dispatch;

verus! {

/// Navigation bar orientation for the rendered dashboard.
///
/// - `Horizontal` (default): sticky top bar with page links laid out in a row.
/// - `Vertical`: fixed left sidebar with categories as section headings.
#[derive(Clone, Copy, Debug, PartialEq, Eq, Structural)]
pub enum NavStyle {
    Horizontal,
    Vertical,
}

impl NavStyle {
    /// The identifier of this style used by the page templates.
    pub fn as_str(self) -> (s: &'static str)
        ensures
            self == NavStyle::Horizontal ==> s@ == "horizontal"@,
            self == NavStyle::Vertical ==> s@ == "vertical"@,
    {
        match self {
            NavStyle::Horizontal => "horizontal",
            NavStyle::Vertical => "vertical",
        }
    }
}

/// How Bokeh's JavaScript and CSS are delivered in the generated HTML.
///
/// - `Cdn` (default): loaded from cdn.bokeh.org; small files that need a
///   network connection to show the charts.
/// - `Inline`: embedded in each page; larger files that work offline.
#[derive(Clone, Copy, Debug, PartialEq, Eq, Structural)]
pub enum BokehResources {
    Cdn,
    Inline,
}

impl Default for BokehResources {
    fn default() -> (r: Self)
        ensures
            r == BokehResources::Cdn,
    {
        BokehResources::Cdn
    }
}

impl Default for NavStyle {
    fn default() -> (s: Self)
        ensures
            s == NavStyle::Horizontal,
    {
        NavStyle::Horizontal
    }
}

} // verus!
