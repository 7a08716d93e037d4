//! Correlation matrices over the numeric columns.

use vstd::prelude::*;
use crate::data_type::{DataType};
use crate::query::QueryResult;
use super::{PlotColumns, ColumnValidationError, validate_plot_columns, outcome, column_issue};

verus! {

pub struct CorrelationPlot;

/// The Y column types a correlation matrix accepts.
pub open spec fn correlation_required_y() -> Seq<DataType> {
    seq![DataType::Float64]
}

impl CorrelationPlot {
    /// The plot's display name.
    pub fn name(&self) -> (r: &'static str)
        ensures
            r@ == "Correlation Matrix"@,
    {
        "Correlation Matrix"
    }

    /// The plot needs no X column.
    pub fn required_x_types(&self) -> (r: Option<Vec<DataType>>)
        ensures
            r is None,
    {
        None
    }

    /// The Y column types the plot accepts.
    pub fn required_y_types(&self) -> (r: Vec<DataType>)
        ensures
            r@ == correlation_required_y(),
    {
        let v = vec![DataType::Float64];
        assert(v@ =~= correlation_required_y());
        v
    }

    /// Whether the plot draws several series at once.
    pub fn supports_multiple_series(&self) -> (r: bool)
        ensures
            r == false,
    {
        false
    }

    /// Whether the plot maps a column to colors.
    pub fn supports_color_mapping(&self) -> (r: bool)
        ensures
            r == false,
    {
        false
    }

    /// Checks the chosen columns against the plot's requirements.
    pub fn validate_columns(&self, query_result: &QueryResult, config: &PlotColumns) -> (r: Result<
        (),
        ColumnValidationError,
    >)
        ensures
            outcome(r) == column_issue(
                "Correlation Matrix"@,
                None,
                correlation_required_y(),
                *query_result,
                *config,
            ),
    {
        validate_plot_columns(self.name(), self.required_x_types(), self.required_y_types(), query_result, config)
    }

}

} // verus!
