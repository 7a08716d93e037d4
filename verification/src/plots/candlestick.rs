//! Candlestick charts of open/high/low/close prices.

use vstd::prelude::*;
use crate::data_type::{DataType};
use crate::query::QueryResult;
use super::{PlotColumns, ColumnValidationError, validate_plot_columns, outcome, column_issue};

verus! {

pub struct CandlestickPlot;

/// The X column types a candlestick chart accepts.
pub open spec fn candlestick_required_x() -> Seq<DataType> {
    seq![DataType::Utf8, DataType::Int64, DataType::Float64]
}

/// The Y column types a candlestick chart accepts.
pub open spec fn candlestick_required_y() -> Seq<DataType> {
    seq![DataType::Float64, DataType::Int64]
}

/// The optional extra columns of a candlestick chart, with the types each accepts.
pub open spec fn candlestick_optional_columns() -> Seq<(Seq<char>, Seq<DataType>)> {
    seq![
        ("High"@, seq![DataType::Float64, DataType::Int64]),
        ("Low"@, seq![DataType::Float64, DataType::Int64]),
        ("Close"@, seq![DataType::Float64, DataType::Int64]),
        ("Volume"@, seq![DataType::Float64, DataType::Int64]),
    ]
}

impl CandlestickPlot {
    /// The plot's display name.
    pub fn name(&self) -> (r: &'static str)
        ensures
            r@ == "Candlestick Chart"@,
    {
        "Candlestick Chart"
    }

    /// The X column types the plot accepts.
    pub fn required_x_types(&self) -> (r: Option<Vec<DataType>>)
        ensures
            r matches Some(v) && v@ == candlestick_required_x(),
    {
        let v = vec![DataType::Utf8, DataType::Int64, DataType::Float64];
        assert(v@ =~= candlestick_required_x());
        Some(v)
    }

    /// The Y column types the plot accepts.
    pub fn required_y_types(&self) -> (r: Vec<DataType>)
        ensures
            r@ == candlestick_required_y(),
    {
        let v = vec![DataType::Float64, DataType::Int64];
        assert(v@ =~= candlestick_required_y());
        v
    }

    /// The optional extra columns of the plot, with the types each accepts.
    pub fn optional_column_types(&self) -> (r: Vec<(&'static str, Vec<DataType>)>)
        ensures
            r@.map_values(|e: (&'static str, Vec<DataType>)| (e.0@, e.1@)) == candlestick_optional_columns(),
    {
        let c0 = vec![DataType::Float64, DataType::Int64];
        let c1 = vec![DataType::Float64, DataType::Int64];
        let c2 = vec![DataType::Float64, DataType::Int64];
        let c3 = vec![DataType::Float64, DataType::Int64];
        let ghost expected = candlestick_optional_columns();
        assert(c0@ =~= expected[0].1);
        assert(c1@ =~= expected[1].1);
        assert(c2@ =~= expected[2].1);
        assert(c3@ =~= expected[3].1);
        let v = vec![("High", c0), ("Low", c1), ("Close", c2), ("Volume", c3)];
        assert(v@.map_values(|e: (&'static str, Vec<DataType>)| (e.0@, e.1@)) =~= expected);
        v
    }

    /// Whether the plot draws several series at once.
    pub fn supports_multiple_series(&self) -> (r: bool)
        ensures
            r == false,
    {
        false
    }

    /// Whether the plot maps a column to colors.
    pub fn supports_color_mapping(&self) -> (r: bool)
        ensures
            r == true,
    {
        true
    }

    /// Checks the chosen columns against the plot's requirements.
    pub fn validate_columns(&self, query_result: &QueryResult, config: &PlotColumns) -> (r: Result<
        (),
        ColumnValidationError,
    >)
        ensures
            outcome(r) == column_issue(
                "Candlestick Chart"@,
                Some(candlestick_required_x()),
                candlestick_required_y(),
                *query_result,
                *config,
            ),
    {
        validate_plot_columns(self.name(), self.required_x_types(), self.required_y_types(), query_result, config)
    }

}

} // verus!
