//! Report formats.
use vstd::prelude::*;

verus! {

/// Formats a profiling report can be exported in.
#[derive(Debug, Clone, Copy, PartialEq, Eq, Structural)]
pub enum ReportFormat {
    /// JSON format.
    Json,
    /// Human-readable text format.
    Text,
    /// Markdown format.
    Markdown,
    /// CSV format (for data analysis).
    Csv,
}

} // verus!
