//! Line charts over numeric or temporal X values.

use vstd::prelude::*;
use crate::data_type::{DataType, TimeUnit};
use crate::query::QueryResult;
use super::{PlotColumns, ColumnValidationError, validate_plot_columns, outcome, column_issue};

verus! {

pub struct LineChartPlot;

/// The X column types a line chart accepts.
pub open spec fn line_required_x() -> Seq<DataType> {
    seq![DataType::Float64, DataType::Float32, DataType::Int64, DataType::Int32, DataType::Int16, DataType::Int8, DataType::UInt64, DataType::UInt32, DataType::UInt16, DataType::UInt8, DataType::Date32, DataType::Date64, DataType::Timestamp(TimeUnit::Second, None), DataType::Timestamp(TimeUnit::Millisecond, None), DataType::Timestamp(TimeUnit::Microsecond, None), DataType::Timestamp(TimeUnit::Nanosecond, None)]
}

/// The Y column types a line chart accepts.
pub open spec fn line_required_y() -> Seq<DataType> {
    seq![DataType::Float64, DataType::Float32, DataType::Int64, DataType::Int32, DataType::Int16, DataType::Int8, DataType::UInt64, DataType::UInt32, DataType::UInt16, DataType::UInt8]
}

/// How many points a dataset of `total` rows is thinned to.
pub open spec fn sample_target(total: nat) -> nat {
    if total > 1_000_000 {
        50_000
    } else if total > 500_000 {
        25_000
    } else {
        10_000
    }
}

/// Whether point `i` of `n` is kept when a dataset of `total` rows is
/// thinned: every point of datasets up to 100 000 rows; otherwise every
/// `total / target`-th point and the last one.
pub open spec fn sample_keeps(n: nat, total: nat, i: nat) -> bool {
    total <= 100_000 || i % (total / sample_target(total)) == 0 || i + 1 == n
}

impl LineChartPlot {

    /// The plot's display name.
    pub fn name(&self) -> (r: &'static str)
        ensures
            r@ == "Line Chart"@,
    {
        "Line Chart"
    }

    /// The X column types the plot accepts.
    pub fn required_x_types(&self) -> (r: Option<Vec<DataType>>)
        ensures
            r matches Some(v) && v@ == line_required_x(),
    {
        let v = vec![DataType::Float64, DataType::Float32, DataType::Int64, DataType::Int32, DataType::Int16, DataType::Int8, DataType::UInt64, DataType::UInt32, DataType::UInt16, DataType::UInt8, DataType::Date32, DataType::Date64, DataType::Timestamp(TimeUnit::Second, None), DataType::Timestamp(TimeUnit::Millisecond, None), DataType::Timestamp(TimeUnit::Microsecond, None), DataType::Timestamp(TimeUnit::Nanosecond, None)];
        assert(v@ =~= line_required_x());
        Some(v)
    }

    /// The Y column types the plot accepts.
    pub fn required_y_types(&self) -> (r: Vec<DataType>)
        ensures
            r@ == line_required_y(),
    {
        let v = vec![DataType::Float64, DataType::Float32, DataType::Int64, DataType::Int32, DataType::Int16, DataType::Int8, DataType::UInt64, DataType::UInt32, DataType::UInt16, DataType::UInt8];
        assert(v@ =~= line_required_y());
        v
    }

    /// Whether the plot draws several series at once.
    pub fn supports_multiple_series(&self) -> (r: bool)
        ensures
            r == true,
    {
        true
    }

    /// Whether the plot maps a column to colors.
    pub fn supports_color_mapping(&self) -> (r: bool)
        ensures
            r == false,
    {
        false
    }

    /// Checks the chosen columns against the plot's requirements.
    pub fn validate_columns(&self, query_result: &QueryResult, config: &PlotColumns) -> (r: Result<
        (),
        ColumnValidationError,
    >)
        ensures
            outcome(r) == column_issue(
                "Line Chart"@,
                Some(line_required_x()),
                line_required_y(),
                *query_result,
                *config,
            ),
    {
        validate_plot_columns(self.name(), self.required_x_types(), self.required_y_types(), query_result, config)
    }


    /// The positions of the points kept when a line of `point_count` points
    /// from a dataset of `total_rows` rows is thinned for drawing, in
    /// ascending order.
    pub fn sample_point_indices(&self, point_count: usize, total_rows: usize) -> (r: Vec<usize>)
        ensures
            forall|k: int| 0 <= k < r@.len() ==> (#[trigger] r@[k]) < point_count,
            forall|k: int, l: int| 0 <= k < l < r@.len() ==> (#[trigger] r@[k]) < (#[trigger] r@[l]),
            forall|i: int|
                0 <= i < point_count ==> (r@.contains(i as usize) <==> #[trigger] sample_keeps(
                    point_count as nat,
                    total_rows as nat,
                    i as nat,
                )),
    {
        let step: usize = if total_rows <= 100_000 {
            1
        } else if total_rows > 1_000_000 {
            total_rows / 50_000
        } else if total_rows > 500_000 {
            total_rows / 25_000
        } else {
            total_rows / 10_000
        };
        let mut out: Vec<usize> = Vec::new();
        let mut i: usize = 0;
        while i < point_count
            invariant
                i <= point_count,
                step >= 1,
                total_rows <= 100_000 ==> step == 1,
                total_rows > 100_000 ==> step == (total_rows as nat) / sample_target(total_rows as nat),
                forall|k: int| 0 <= k < out@.len() ==> (#[trigger] out@[k]) < i,
                forall|k: int, l: int| 0 <= k < l < out@.len() ==> (#[trigger] out@[k]) < (#[trigger] out@[l]),
                forall|j: int|
                    0 <= j < i ==> (out@.contains(j as usize) <==> #[trigger] sample_keeps(
                        point_count as nat,
                        total_rows as nat,
                        j as nat,
                    )),
            decreases point_count - i,
        {
            let ghost before = out@;
            if total_rows <= 100_000 || i % step == 0 || i == point_count - 1 {
                out.push(i);
                assert(out@ == before.push(i));
                assert forall|j: int| 0 <= j < i + 1 implies (out@.contains(j as usize) <==> #[trigger] sample_keeps(
                    point_count as nat,
                    total_rows as nat,
                    j as nat,
                )) by {
                    if j < i {
                        if before.contains(j as usize) {
                            let w = choose|w: int| 0 <= w < before.len() && before[w] == j as usize;
                            assert(out@[w] == j as usize);
                        }
                        if out@.contains(j as usize) {
                            let w = choose|w: int| 0 <= w < out@.len() && out@[w] == j as usize;
                            assert(w < before.len());
                        }
                    } else {
                        assert(out@[before.len() as int] == i);
                    }
                }
            } else {
                assert forall|j: int| 0 <= j < i + 1 implies (out@.contains(j as usize) <==> #[trigger] sample_keeps(
                    point_count as nat,
                    total_rows as nat,
                    j as nat,
                )) by {
                    if j == i {
                        if out@.contains(j as usize) {
                            let w = choose|w: int| 0 <= w < out@.len() && out@[w] == j as usize;
                        }
                    }
                }
            }
            i = i + 1;
        }
        out
    }
}

} // verus!
