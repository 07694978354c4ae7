//! The error type of the library.

use vstd::prelude::*;

verus! {

/// The polars error type, carried as it is.
#[verifier::external_type_specification]
#[verifier::external_body]
pub struct ExPolarsError(polars::error::PolarsError);

/// Errors that can occur when building chart configurations, serializing
/// data frames or rendering dashboards.
#[derive(Debug)]
pub enum ChartError {
    /// A required field was not set on a config builder; the name of the
    /// missing field.
    MissingField(&'static str),
    /// Data frame serialization to Arrow IPC failed.
    Serialization(polars::error::PolarsError),
    /// Rendering the dashboard without Python failed.
    NativeRender(String),
    /// A page grid is wider than `MAX_GRID_COLS`; the requested width.
    GridValidation(usize),
}

} // verus!
