//! Anomaly detection over a numeric series.

use vstd::prelude::*;
use crate::data_type::{DataType};
use crate::query::QueryResult;
use super::enhanced_config::Rgb;
use super::{PlotColumns, ColumnValidationError, validate_plot_columns, outcome, column_issue};

verus! {

pub struct AnomalyPlot;

/// How far a detected anomaly lies from normal.
#[derive(Debug, Clone, Copy, PartialEq, Eq, Structural)]
pub enum AnomalySeverity {
    Low,
    Medium,
    High,
    Critical,
}

/// The color used to mark anomalies of each severity: yellow, orange,
/// red-orange and red.
pub open spec fn severity_color(s: AnomalySeverity) -> Rgb {
    match s {
        AnomalySeverity::Low => Rgb { r: 255, g: 255, b: 0 },
        AnomalySeverity::Medium => Rgb { r: 255, g: 165, b: 0 },
        AnomalySeverity::High => Rgb { r: 255, g: 69, b: 0 },
        AnomalySeverity::Critical => Rgb { r: 255, g: 0, b: 0 },
    }
}

/// The X column types a anomaly detection accepts.
pub open spec fn anomaly_required_x() -> Seq<DataType> {
    seq![DataType::Int64, DataType::Float64]
}

/// The Y column types a anomaly detection accepts.
pub open spec fn anomaly_required_y() -> Seq<DataType> {
    seq![DataType::Int64, DataType::Float64]
}

impl AnomalyPlot {
    /// The plot's display name.
    pub fn name(&self) -> (r: &'static str)
        ensures
            r@ == "Anomaly Detection"@,
    {
        "Anomaly Detection"
    }

    /// The X column types the plot accepts.
    pub fn required_x_types(&self) -> (r: Option<Vec<DataType>>)
        ensures
            r matches Some(v) && v@ == anomaly_required_x(),
    {
        let v = vec![DataType::Int64, DataType::Float64];
        assert(v@ =~= anomaly_required_x());
        Some(v)
    }

    /// The Y column types the plot accepts.
    pub fn required_y_types(&self) -> (r: Vec<DataType>)
        ensures
            r@ == anomaly_required_y(),
    {
        let v = vec![DataType::Int64, DataType::Float64];
        assert(v@ =~= anomaly_required_y());
        v
    }

    /// Whether the plot draws several series at once.
    pub fn supports_multiple_series(&self) -> (r: bool)
        ensures
            r == false,
    {
        false
    }

    /// Whether the plot maps a column to colors.
    pub fn supports_color_mapping(&self) -> (r: bool)
        ensures
            r == false,
    {
        false
    }

    /// Checks the chosen columns against the plot's requirements.
    pub fn validate_columns(&self, query_result: &QueryResult, config: &PlotColumns) -> (r: Result<
        (),
        ColumnValidationError,
    >)
        ensures
            outcome(r) == column_issue(
                "Anomaly Detection"@,
                Some(anomaly_required_x()),
                anomaly_required_y(),
                *query_result,
                *config,
            ),
    {
        validate_plot_columns(self.name(), self.required_x_types(), self.required_y_types(), query_result, config)
    }


    /// The color that marks anomalies of the given severity.
    pub fn get_anomaly_color(&self, severity: &AnomalySeverity) -> (r: Rgb)
        ensures
            r == severity_color(*severity),
    {
        match severity {
            AnomalySeverity::Low => Rgb { r: 255, g: 255, b: 0 },
            AnomalySeverity::Medium => Rgb { r: 255, g: 165, b: 0 },
            AnomalySeverity::High => Rgb { r: 255, g: 69, b: 0 },
            AnomalySeverity::Critical => Rgb { r: 255, g: 0, b: 0 },
        }
    }
}

} // verus!
