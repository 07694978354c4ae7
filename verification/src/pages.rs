//! Dashboard pages: their place in the navigation, their grid, the charts
//! and text modules they show, and their filters.

use vstd::prelude::*;
use crate::chart_config::ChartSpec;
use crate::error::ChartError;
use crate::filter_spec::FilterSpec;
use crate::modules_html::ParagraphSpec;

verus! {

/// The widest page grid allowed, in columns.
pub const MAX_GRID_COLS: usize = 6;

/// One module shown on a page.
pub enum PageModule {
    /// A chart.
    Chart(ChartSpec),
    /// A block of text.
    Paragraph(ParagraphSpec),
}

/// One page of the dashboard.
pub struct Page {
    /// File name stem of the page (`<slug>.html`) and its key in navigation.
    pub slug: String,
    /// Title shown on the page.
    pub title: String,
    /// Label of the page's link in the navigation bar.
    pub nav_label: String,
    /// Navigation category; `"A/B"` nests the page under `A`, then `B`.
    pub category: Option<String>,
    /// Number of columns of the page's chart grid.
    pub grid_cols: usize,
    /// The page's modules, in the order they were added.
    pub modules: Vec<PageModule>,
    /// The page's filter widgets, in the order they were added.
    pub filters: Vec<FilterSpec>,
}

/// Builder for a [`Page`]; its draft is the page so far.
pub struct PageBuilder {
    page: Page,
}

impl PageBuilder {
    /// The page built so far.
    pub closed spec fn draft(&self) -> Page {
        self.page
    }

    /// A page with the given slug, title, navigation label and grid width,
    /// no category, and no modules or filters yet.
    pub fn new(slug: &str, title: &str, nav_label: &str, grid_cols: usize) -> (b: Self)
        ensures
            b.draft().slug@ == slug@,
            b.draft().title@ == title@,
            b.draft().nav_label@ == nav_label@,
            b.draft().category is None,
            b.draft().grid_cols == grid_cols,
            b.draft().modules@.len() == 0,
            b.draft().filters@.len() == 0,
    {
        PageBuilder {
            page: Page {
                slug: String::from_str(slug),
                title: String::from_str(title),
                nav_label: String::from_str(nav_label),
                category: None,
                grid_cols,
                modules: Vec::new(),
                filters: Vec::new(),
            },
        }
    }

    /// Place the page under a navigation category (`"A/B"` nests it).
    pub fn category(self, category: &str) -> (b: Self)
        ensures
            b.draft() == (Page { category: Some(b.draft().category->0), ..self.draft() }),
            b.draft().category matches Some(c) && c@ == category@,
    {
        let mut b = self;
        b.page.category = Some(String::from_str(category));
        b
    }

    /// Add a chart after the modules added so far.
    pub fn chart(self, spec: ChartSpec) -> (b: Self)
        ensures
            b.draft() == (Page { modules: b.draft().modules, ..self.draft() }),
            b.draft().modules@ == self.draft().modules@.push(PageModule::Chart(spec)),
    {
        let mut b = self;
        b.page.modules.push(PageModule::Chart(spec));
        b
    }

    /// Add a paragraph module after the modules added so far.
    pub fn paragraph(self, para: ParagraphSpec) -> (b: Self)
        ensures
            b.draft() == (Page { modules: b.draft().modules, ..self.draft() }),
            b.draft().modules@ == self.draft().modules@.push(PageModule::Paragraph(para)),
    {
        let mut b = self;
        b.page.modules.push(PageModule::Paragraph(para));
        b
    }

    /// Add a filter widget after the filters added so far.
    pub fn filter(self, f: FilterSpec) -> (b: Self)
        ensures
            b.draft() == (Page { filters: b.draft().filters, ..self.draft() }),
            b.draft().filters@ == self.draft().filters@.push(f),
    {
        let mut b = self;
        b.page.filters.push(f);
        b
    }

    /// The page, or [`ChartError::GridValidation`] with the requested width
    /// when the grid is wider than [`MAX_GRID_COLS`] columns.
    pub fn build(self) -> (r: Result<Page, ChartError>)
        ensures
            self.draft().grid_cols <= MAX_GRID_COLS ==> r == Ok::<Page, ChartError>(self.draft()),
            self.draft().grid_cols > MAX_GRID_COLS ==> (r matches Err(ChartError::GridValidation(n))
                && n == self.draft().grid_cols),
    {
        if self.page.grid_cols > MAX_GRID_COLS {
            Err(ChartError::GridValidation(self.page.grid_cols))
        } else {
            Ok(self.page)
        }
    }
}

/// The `(slug, label)` a page contributes to the navigation.
pub open spec fn nav_entry(p: Page) -> (Seq<char>, Seq<char>) {
    (p.slug@, p.nav_label@)
}

/// The category path of a page, if any.
pub open spec fn nav_category(p: Page) -> Option<Seq<char>> {
    match p.category {
        Some(c) => Some(c@),
        None => None,
    }
}

} // verus!
