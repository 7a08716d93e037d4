//! Histograms of one numeric column.

use vstd::prelude::*;
use crate::data_type::{DataType};
use crate::query::QueryResult;
use super::{PlotColumns, ColumnValidationError};

verus! {

pub struct HistogramPlot;

/// The Y column types a histogram accepts.
pub open spec fn histogram_required_y() -> Seq<DataType> {
    seq![DataType::Int8, DataType::Int16, DataType::Int32, DataType::Int64, DataType::UInt8, DataType::UInt16, DataType::UInt32, DataType::UInt64, DataType::Float16, DataType::Float32, DataType::Float64]
}

impl HistogramPlot {
    /// The plot's display name.
    pub fn name(&self) -> (r: &'static str)
        ensures
            r@ == "Histogram"@,
    {
        "Histogram"
    }

    /// The plot needs no X column.
    pub fn required_x_types(&self) -> (r: Option<Vec<DataType>>)
        ensures
            r is None,
    {
        None
    }

    /// The Y column types the plot accepts.
    pub fn required_y_types(&self) -> (r: Vec<DataType>)
        ensures
            r@ == histogram_required_y(),
    {
        let v = vec![DataType::Int8, DataType::Int16, DataType::Int32, DataType::Int64, DataType::UInt8, DataType::UInt16, DataType::UInt32, DataType::UInt64, DataType::Float16, DataType::Float32, DataType::Float64];
        assert(v@ =~= histogram_required_y());
        v
    }

    /// Whether the plot draws several series at once.
    pub fn supports_multiple_series(&self) -> (r: bool)
        ensures
            r == true,
    {
        true
    }

    /// Whether the plot maps a column to colors.
    pub fn supports_color_mapping(&self) -> (r: bool)
        ensures
            r == false,
    {
        false
    }

    /// Checks the chosen columns: a histogram only needs a Y column.
    pub fn validate_columns(&self, _query_result: &QueryResult, config: &PlotColumns) -> (r: Result<
        (),
        ColumnValidationError,
    >)
        ensures
            config.y_column@.len() == 0 ==> r matches Err(ColumnValidationError::HistogramYColumnRequired),
            config.y_column@.len() != 0 ==> r is Ok,
    {
        if config.y_column.as_str().is_empty() {
            return Err(ColumnValidationError::HistogramYColumnRequired);
        }
        Ok(())
    }

}

} // verus!
