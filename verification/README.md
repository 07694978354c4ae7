# rust_to_bokeh

Building blocks for multi-page Bokeh dashboards, written in Verus: the Bokeh
document model and the JSON text handed to BokehJS, figure tools and glyph
renderers, filter widgets, navigation and paragraph HTML, and a checker for
the document's reference invariants. Every function in `src/` carries a
contract; Verus proves all of them but the few small wrappers that call the
standard library, `serde_json`, `uuid` or `polars`, whose contracts restate
what those libraries document.

Layout:

- `src/model.rs`, `src/id_gen.rs`: models, values, and sequential model ids.
- `src/figure.rs`, `src/axis.rs`, `src/chart_helpers.rs`, `src/chart_parts.rs`,
  `src/renderers.rs`: tools, glyph renderers of each chart type, axes,
  tooltips, legends and other figure edits.
- `src/filters.rs`, `src/filter_spec.rs`: filter definitions and widgets.
- `src/document.rs`, `src/json_text.rs`: documents, `render_items`,
  `docs_json` framing and the embed script.
- `src/doc_verify.rs`, `src/placeholder.rs`: reference checks and rewriting
  of data-source placeholders.
- `src/nav.rs`, `src/modules_html.rs`, `src/pages.rs`: navigation, paragraph
  and table modules, pages and their builder.
- `src/page.rs`: page assembly: the filter of each chart's view, data-source
  ids patched into filter widgets, document roots in decoding order, grid
  items, and the page's file path.
- `src/chart_figure.rs`, `src/source.rs`: the figure every chart is drawn on
  and the data source its glyphs read.
- `src/histogram.rs`, `src/grouped_bar.rs`, `src/density.rs`, `src/hbar.rs`,
  `src/scatter.rs`, `src/line_chart.rs`: the chart builders: histogram (bars
  or cumulative step line), grouped bars (factors, colours per group,
  legend), density (sina or violin with median per category, in first-seen
  order), horizontal bars, scatter, and multi-line with legend.
- `src/chart_dispatch.rs`: the registered-source check and the dispatch
  from a chart's type to its builder.
- `src/dashboard.rs`, `src/handle.rs`, `src/error.rs`: the dashboard builder.
- `app/`: JSON serialization of models, reading chart columns from data
  frames, the floating-point work of the charts (density estimates, jitter,
  medians), error display and file I/O, which Verus does not check.

Numbers that the charts carry as data (`f64`) are held as their IEEE-754
bit patterns; `f64::to_bits` and `f64::from_bits` convert at the edges.

The chart builders take the data frame's columns as plain values, read by
the caller, and the figure's two ranges, built by the caller from the data.

What is not here: the pie and box plot builders, the range-tool overview
figure and the HTML template a page is rendered into. What they depend on
(the pie's legend panel and legend side, the box plot's configuration and
whisker source, the page template, palettes and axis ranges) is not
defined in this crate, so they are left out rather than guessed. The JSON encoding of
models stays outside `src/` because every number in it is a float.
