//! Box plots of a numeric column, optionally grouped.

use vstd::prelude::*;
use crate::data_type::{DataType};
use crate::query::QueryResult;
use super::{PlotColumns, ColumnValidationError, validate_plot_columns, outcome, column_issue};

verus! {

pub struct BoxPlotImpl;

/// The X column types a box plot accepts.
pub open spec fn box_plot_required_x() -> Seq<DataType> {
    seq![DataType::Utf8, DataType::LargeUtf8, DataType::Int8, DataType::Int16, DataType::Int32, DataType::Int64]
}

/// The Y column types a box plot accepts.
pub open spec fn box_plot_required_y() -> Seq<DataType> {
    seq![DataType::Int8, DataType::Int16, DataType::Int32, DataType::Int64, DataType::UInt8, DataType::UInt16, DataType::UInt32, DataType::UInt64, DataType::Float16, DataType::Float32, DataType::Float64]
}

impl BoxPlotImpl {
    /// The plot's display name.
    pub fn name(&self) -> (r: &'static str)
        ensures
            r@ == "Box Plot"@,
    {
        "Box Plot"
    }

    /// The X column types the plot accepts.
    pub fn required_x_types(&self) -> (r: Option<Vec<DataType>>)
        ensures
            r matches Some(v) && v@ == box_plot_required_x(),
    {
        let v = vec![DataType::Utf8, DataType::LargeUtf8, DataType::Int8, DataType::Int16, DataType::Int32, DataType::Int64];
        assert(v@ =~= box_plot_required_x());
        Some(v)
    }

    /// The Y column types the plot accepts.
    pub fn required_y_types(&self) -> (r: Vec<DataType>)
        ensures
            r@ == box_plot_required_y(),
    {
        let v = vec![DataType::Int8, DataType::Int16, DataType::Int32, DataType::Int64, DataType::UInt8, DataType::UInt16, DataType::UInt32, DataType::UInt64, DataType::Float16, DataType::Float32, DataType::Float64];
        assert(v@ =~= box_plot_required_y());
        v
    }

    /// Whether the plot draws several series at once.
    pub fn supports_multiple_series(&self) -> (r: bool)
        ensures
            r == true,
    {
        true
    }

    /// Whether the plot maps a column to colors.
    pub fn supports_color_mapping(&self) -> (r: bool)
        ensures
            r == false,
    {
        false
    }

    /// Checks the chosen columns against the plot's requirements.
    pub fn validate_columns(&self, query_result: &QueryResult, config: &PlotColumns) -> (r: Result<
        (),
        ColumnValidationError,
    >)
        ensures
            outcome(r) == column_issue(
                "Box Plot"@,
                Some(box_plot_required_x()),
                box_plot_required_y(),
                *query_result,
                *config,
            ),
    {
        validate_plot_columns(self.name(), self.required_x_types(), self.required_y_types(), query_result, config)
    }

}

} // verus!
