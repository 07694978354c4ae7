//! Chart configuration types shared by the chart builders: palettes,
//! tooltip definitions and grid placement.

use vstd::prelude::*;
use crate::customization::TimeScale;

verus! {

/// Color palette for multi-series and categorical charts.
///
/// - `Named`: one of Bokeh's built-in palettes (e.g. `"Category10"`).
/// - `Custom`: a list of hex colors, cycled when fewer colors than groups
///   are supplied.
pub enum PaletteSpec {
    Named(String),
    Custom(Vec<String>),
}

/// Format applied to a single tooltip field.
#[derive(Clone, Copy, Debug, PartialEq, Eq)]
pub enum TooltipFormat {
    /// Plain text: the value as-is.
    Text,
    /// Fixed-point number; decimal places default to `2` when `None`.
    Number(Option<u8>),
    /// Percentage; decimal places default to `1` when `None`.
    Percent(Option<u8>),
    /// Currency: `$` prefix and thousand separators.
    Currency,
    /// Date/time, formatted for the given scale.
    DateTime(TimeScale),
}

/// A single row in a chart tooltip.
pub struct TooltipField {
    /// Column name in the data source.
    pub column: String,
    /// Human-readable label shown before the value.
    pub label: String,
    /// How to format the column value.
    pub format: TooltipFormat,
}

/// The mathematical value of a tooltip row: column, label and format.
pub type FieldView = (Seq<char>, Seq<char>, TooltipFormat);

impl View for TooltipField {
    type V = FieldView;

    open spec fn view(&self) -> FieldView {
        (self.column@, self.label@, self.format)
    }
}

/// The views of a list of tooltip rows.
pub open spec fn fields_view(s: Seq<TooltipField>) -> Seq<FieldView> {
    s.map_values(|f: TooltipField| f@)
}

/// Custom tooltip definition for a chart: the rows, in the order added.
pub struct TooltipSpec {
    pub fields: Vec<TooltipField>,
}

impl View for TooltipSpec {
    type V = Seq<FieldView>;

    open spec fn view(&self) -> Seq<FieldView> {
        fields_view(self.fields@)
    }
}

/// Builder for [`TooltipSpec`]: one [`field`](TooltipSpecBuilder::field)
/// call per row, then [`build`](TooltipSpecBuilder::build).
pub struct TooltipSpecBuilder {
    fields: Vec<TooltipField>,
}

impl View for TooltipSpecBuilder {
    type V = Seq<FieldView>;

    closed spec fn view(&self) -> Seq<FieldView> {
        fields_view(self.fields@)
    }
}

impl TooltipSpec {
    /// A builder with no rows yet.
    pub fn builder() -> (b: TooltipSpecBuilder)
        ensures
            b@ == Seq::<FieldView>::empty(),
    {
        let b = TooltipSpecBuilder { fields: Vec::new() };
        proof {
            assert(fields_view(b.fields@) =~= Seq::<FieldView>::empty());
        }
        b
    }
}

impl TooltipSpecBuilder {
    /// Add a row; rows appear in the order they are added.
    pub fn field(self, column: &str, label: &str, format: TooltipFormat) -> (b: Self)
        ensures
            b@ == self@.push((column@, label@, format)),
    {
        let mut b = self;
        let ghost before = b.fields@;
        b.fields.push(TooltipField {
            column: String::from_str(column),
            label: String::from_str(label),
            format,
        });
        proof {
            assert(b.fields@ == before.push(b.fields@.last()));
            assert(fields_view(b.fields@) =~= fields_view(before).push((column@, label@, format)));
        }
        b
    }

    /// The tooltip with the rows added so far.
    pub fn build(self) -> (t: TooltipSpec)
        ensures
            t@ == self@,
    {
        TooltipSpec { fields: self.fields }
    }
}

proof fn lemma_rows_prefix(steps: Seq<Seq<FieldView>>, rows: Seq<FieldView>, i: int)
    requires
        steps.len() == rows.len() + 1,
        steps[0] == Seq::<FieldView>::empty(),
        forall|j: int| 0 <= j < rows.len() ==> #[trigger] steps[j + 1] == steps[j].push(rows[j]),
        0 <= i <= rows.len(),
    ensures
        steps[i] == rows.take(i),
    decreases i,
{
    if i == 0 {
        assert(rows.take(0) =~= Seq::<FieldView>::empty());
    } else {
        lemma_rows_prefix(steps, rows, i - 1);
        assert(steps[(i - 1) + 1] == steps[i - 1].push(rows[i - 1]));
        assert(rows.take(i) =~= rows.take(i - 1).push(rows[i - 1]));
    }
}

/// Rows come out in the order they were added: starting from
/// [`TooltipSpec::builder`] (no rows), each [`field`](TooltipSpecBuilder::field)
/// call appends its row (as `steps[j + 1] == steps[j].push(rows[j])`), and
/// [`build`](TooltipSpecBuilder::build) keeps the rows; after `k` calls the
/// tooltip holds exactly the `k` rows, in call order.
pub proof fn law_tooltip_rows_in_order(steps: Seq<Seq<FieldView>>, rows: Seq<FieldView>)
    requires
        steps.len() == rows.len() + 1,
        steps[0] == Seq::<FieldView>::empty(),
        forall|j: int| 0 <= j < rows.len() ==> #[trigger] steps[j + 1] == steps[j].push(rows[j]),
    ensures
        steps[rows.len() as int] == rows,
        steps[rows.len() as int].len() == rows.len(),
{
    lemma_rows_prefix(steps, rows, rows.len() as int);
    assert(rows.take(rows.len() as int) =~= rows);
}

/// Position and span of a chart within the page's grid layout.
#[derive(Clone, Copy, Debug, PartialEq, Eq, Structural)]
pub struct GridCell {
    /// Zero-based row index.
    pub row: usize,
    /// Zero-based column index.
    pub col: usize,
    /// Number of grid columns the chart spans (minimum 1).
    pub col_span: usize,
}

} // verus!
