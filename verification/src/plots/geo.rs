//! Geographic plots of latitude/longitude points.

use vstd::prelude::*;
use crate::data_type::{DataType};
use crate::query::QueryResult;
use super::{PlotColumns, ColumnValidationError, validate_plot_columns, outcome, column_issue};

verus! {

pub struct GeoPlot;

/// The X column types a geographic plot accepts.
pub open spec fn geo_required_x() -> Seq<DataType> {
    seq![DataType::Float64, DataType::Int64]
}

/// The Y column types a geographic plot accepts.
pub open spec fn geo_required_y() -> Seq<DataType> {
    seq![DataType::Float64, DataType::Int64]
}

/// The optional extra columns of a geographic plot, with the types each accepts.
pub open spec fn geo_optional_columns() -> Seq<(Seq<char>, Seq<DataType>)> {
    seq![
        ("Color"@, seq![DataType::Float64, DataType::Int64, DataType::Utf8]),
        ("Size"@, seq![DataType::Float64, DataType::Int64]),
    ]
}

impl GeoPlot {
    /// The plot's display name.
    pub fn name(&self) -> (r: &'static str)
        ensures
            r@ == "Geographic Plot"@,
    {
        "Geographic Plot"
    }

    /// The X column types the plot accepts.
    pub fn required_x_types(&self) -> (r: Option<Vec<DataType>>)
        ensures
            r matches Some(v) && v@ == geo_required_x(),
    {
        let v = vec![DataType::Float64, DataType::Int64];
        assert(v@ =~= geo_required_x());
        Some(v)
    }

    /// The Y column types the plot accepts.
    pub fn required_y_types(&self) -> (r: Vec<DataType>)
        ensures
            r@ == geo_required_y(),
    {
        let v = vec![DataType::Float64, DataType::Int64];
        assert(v@ =~= geo_required_y());
        v
    }

    /// The optional extra columns of the plot, with the types each accepts.
    pub fn optional_column_types(&self) -> (r: Vec<(&'static str, Vec<DataType>)>)
        ensures
            r@.map_values(|e: (&'static str, Vec<DataType>)| (e.0@, e.1@)) == geo_optional_columns(),
    {
        let c0 = vec![DataType::Float64, DataType::Int64, DataType::Utf8];
        let c1 = vec![DataType::Float64, DataType::Int64];
        let ghost expected = geo_optional_columns();
        assert(c0@ =~= expected[0].1);
        assert(c1@ =~= expected[1].1);
        let v = vec![("Color", c0), ("Size", c1)];
        assert(v@.map_values(|e: (&'static str, Vec<DataType>)| (e.0@, e.1@)) =~= expected);
        v
    }

    /// Whether the plot draws several series at once.
    pub fn supports_multiple_series(&self) -> (r: bool)
        ensures
            r == false,
    {
        false
    }

    /// Whether the plot maps a column to colors.
    pub fn supports_color_mapping(&self) -> (r: bool)
        ensures
            r == true,
    {
        true
    }

    /// Checks the chosen columns against the plot's requirements.
    pub fn validate_columns(&self, query_result: &QueryResult, config: &PlotColumns) -> (r: Result<
        (),
        ColumnValidationError,
    >)
        ensures
            outcome(r) == column_issue(
                "Geographic Plot"@,
                Some(geo_required_x()),
                geo_required_y(),
                *query_result,
                *config,
            ),
    {
        validate_plot_columns(self.name(), self.required_x_types(), self.required_y_types(), query_result, config)
    }

}

} // verus!
