//! Heatmaps of a value over two categorical or numeric axes.

use vstd::prelude::*;
use crate::data_type::{DataType};
use crate::query::{QueryResult, find_position, position, has_name};
use super::{PlotColumns, ColumnValidationError, validate_plot_columns, outcome, column_issue};
use super::bar::{strictly_sorted, texts, insert_sorted};

verus! {

pub struct HeatmapPlot;

/// The X column types a heatmap accepts.
pub open spec fn heatmap_required_x() -> Seq<DataType> {
    seq![DataType::Utf8, DataType::LargeUtf8, DataType::Int8, DataType::Int16, DataType::Int32, DataType::Int64, DataType::UInt8, DataType::UInt16, DataType::UInt32, DataType::UInt64, DataType::Float32, DataType::Float64]
}

/// The Y column types a heatmap accepts.
pub open spec fn heatmap_required_y() -> Seq<DataType> {
    seq![DataType::Utf8, DataType::LargeUtf8, DataType::Int8, DataType::Int16, DataType::Int32, DataType::Int64, DataType::UInt8, DataType::UInt16, DataType::UInt32, DataType::UInt64, DataType::Float32, DataType::Float64]
}

/// The optional extra columns of a heatmap, with the types each accepts.
pub open spec fn heatmap_optional_columns() -> Seq<(Seq<char>, Seq<DataType>)> {
    seq![
        ("Value"@, seq![DataType::Int8, DataType::Int16, DataType::Int32, DataType::Int64, DataType::UInt8, DataType::UInt16, DataType::UInt32, DataType::UInt64, DataType::Float32, DataType::Float64]),
    ]
}

/// A row of a result that reaches past column `need`.
pub open spec fn long_enough(rows: Seq<Vec<String>>, need: int) -> spec_fn(int) -> bool {
    |k: int| need < rows[k]@.len()
}

/// The positions, in order, of the first `n` rows that reach past column
/// `need`.
pub open spec fn heat_rows(rows: Seq<Vec<String>>, need: int, n: int) -> Seq<int> {
    Seq::new(n as nat, |k: int| k).filter(long_enough(rows, need))
}

/// Some row reaching past column `need` holds `s` in column `col`.
pub open spec fn label_seen(rows: Seq<Vec<String>>, col: int, need: int, s: Seq<char>) -> bool {
    exists|k: int| 0 <= k < rows.len() && need < (#[trigger] rows[k])@.len() && rows[k]@[col]@ == s
}

/// The larger of two positions.
pub open spec fn larger(a: usize, b: usize) -> usize {
    if a < b {
        b
    } else {
        a
    }
}

/// Where one row of the result falls in the heat map.
pub struct HeatmapCell {
    /// The row of the result.
    pub source_row: usize,
    /// The position of its Y value among the row labels.
    pub row: usize,
    /// The position of its X value among the column labels.
    pub col: usize,
}

/// The labels of a heat map and the cell of each row of the result that
/// has both an X and a Y value.
pub struct HeatmapLayout {
    /// The distinct Y values, in ascending order.
    pub row_labels: Vec<String>,
    /// The distinct X values, in ascending order.
    pub col_labels: Vec<String>,
    pub cells: Vec<HeatmapCell>,
    /// The column holding the values summed in each cell, if one is chosen.
    pub value_index: Option<usize>,
}

/// `layout` lays out `rows` with X values in column `x` and Y values in
/// column `y`.
pub open spec fn lays_out(layout: HeatmapLayout, rows: Seq<Vec<String>>, x: usize, y: usize) -> bool {
    let need = larger(x, y) as int;
    let src = heat_rows(rows, need, rows.len() as int);
    &&& strictly_sorted(texts(layout.row_labels@))
    &&& strictly_sorted(texts(layout.col_labels@))
    &&& forall|s: Seq<char>| #[trigger]
        texts(layout.row_labels@).contains(s) <==> label_seen(rows, y as int, need, s)
    &&& forall|s: Seq<char>| #[trigger]
        texts(layout.col_labels@).contains(s) <==> label_seen(rows, x as int, need, s)
    &&& layout.cells@.len() == src.len()
    &&& forall|j: int|
        0 <= j < src.len() ==> {
            let c = #[trigger] layout.cells@[j];
            &&& c.source_row == src[j]
            &&& c.row < layout.row_labels@.len()
            &&& c.col < layout.col_labels@.len()
            &&& layout.row_labels@[c.row as int]@ == rows[src[j]]@[y as int]@
            &&& layout.col_labels@[c.col as int]@ == rows[src[j]]@[x as int]@
        }
}

/// The error for a heat map's column choice, if any: both axes are needed,
/// and each chosen column must exist.
pub open spec fn heatmap_column_error(
    columns: Seq<String>,
    x: Seq<char>,
    y: Seq<char>,
    value: Option<Seq<char>>,
) -> Option<Seq<char>> {
    if x.len() == 0 || y.len() == 0 {
        Some("Both X and Y columns are required for heatmap"@)
    } else if position(columns, x) is None {
        Some("X column '"@ + x + "' not found"@)
    } else if position(columns, y) is None {
        Some("Y column '"@ + y + "' not found"@)
    } else {
        match value {
            Some(v) => if position(columns, v) is None {
                Some("Value column '"@ + v + "' not found"@)
            } else {
                None
            },
            None => None,
        }
    }
}

fn quoted_error(prefix: &str, name: &str, suffix: &str) -> (r: String)
    ensures
        r@ == prefix@ + name@ + suffix@,
{
    let mut e = String::from_str(prefix);
    e.append(name);
    e.append(suffix);
    e
}

/// The distinct values of column `col` in the rows reaching past column
/// `need`, in ascending order.
fn distinct_sorted(rows: &Vec<Vec<String>>, col: usize, need: usize) -> (r: Vec<String>)
    requires
        col <= need,
    ensures
        strictly_sorted(texts(r@)),
        forall|s: Seq<char>| #[trigger]
            texts(r@).contains(s) <==> label_seen(rows@, col as int, need as int, s),
{
    let mut out: Vec<String> = Vec::new();
    let mut k: usize = 0;
    while k < rows.len()
        invariant
            k <= rows.len(),
            col <= need,
            strictly_sorted(texts(out@)),
            forall|s: Seq<char>| #[trigger]
                texts(out@).contains(s) <==> label_seen(
                    rows@.take(k as int),
                    col as int,
                    need as int,
                    s,
                ),
        decreases rows.len() - k,
    {
        let ghost before = rows@.take(k as int);
        let ghost after = rows@.take(k + 1);
        assert(after =~= before.push(rows@[k as int]));
        if need < rows[k].len() {
            let value = &rows[k][col];
            insert_sorted(&mut out, value);
        }
        assert forall|s: Seq<char>| #[trigger]
            texts(out@).contains(s) <==> label_seen(after, col as int, need as int, s) by {
            if label_seen(after, col as int, need as int, s) {
                let w = choose|w: int|
                    0 <= w < after.len() && need < (#[trigger] after[w])@.len() && after[w]@[col as int]@
                        == s;
                if w < k {
                    assert(before[w] == after[w]);
                    assert(label_seen(before, col as int, need as int, s));
                }
            }
            if label_seen(before, col as int, need as int, s) {
                let w = choose|w: int|
                    0 <= w < before.len() && need < (#[trigger] before[w])@.len() && before[w]@[col as int]@
                        == s;
                assert(after[w] == before[w]);
            }
            if need < rows@[k as int]@.len() && s == rows@[k as int]@[col as int]@ {
                assert(after[k as int] == rows@[k as int]);
                assert(label_seen(after, col as int, need as int, s));
            }
        }
        k = k + 1;
    }
    assert(rows@.take(rows.len() as int) =~= rows@);
    out
}

/// The position of a label known to be among `labels`.
fn label_index(labels: &Vec<String>, label: &String) -> (r: usize)
    requires
        texts(labels@).contains(label@),
    ensures
        r < labels@.len(),
        labels@[r as int]@ == label@,
{
    let w = Ghost(choose|w: int| 0 <= w < texts(labels@).len() && texts(labels@)[w] == label@);
    assert(labels@[w@]@ == label@);
    assert(has_name(labels@, label@));
    match find_position(labels, label.as_str()) {
        Some(i) => {
            proof {
                crate::query::lemma_position_some(labels@, label@);
            }
            i
        },
        None => {
            proof {
                assert(false);
            }
            0
        },
    }
}

impl HeatmapPlot {
    /// The plot's display name.
    pub fn name(&self) -> (r: &'static str)
        ensures
            r@ == "Heatmap"@,
    {
        "Heatmap"
    }

    /// The X column types the plot accepts.
    pub fn required_x_types(&self) -> (r: Option<Vec<DataType>>)
        ensures
            r matches Some(v) && v@ == heatmap_required_x(),
    {
        let v = vec![DataType::Utf8, DataType::LargeUtf8, DataType::Int8, DataType::Int16, DataType::Int32, DataType::Int64, DataType::UInt8, DataType::UInt16, DataType::UInt32, DataType::UInt64, DataType::Float32, DataType::Float64];
        assert(v@ =~= heatmap_required_x());
        Some(v)
    }

    /// The Y column types the plot accepts.
    pub fn required_y_types(&self) -> (r: Vec<DataType>)
        ensures
            r@ == heatmap_required_y(),
    {
        let v = vec![DataType::Utf8, DataType::LargeUtf8, DataType::Int8, DataType::Int16, DataType::Int32, DataType::Int64, DataType::UInt8, DataType::UInt16, DataType::UInt32, DataType::UInt64, DataType::Float32, DataType::Float64];
        assert(v@ =~= heatmap_required_y());
        v
    }

    /// The optional extra columns of the plot, with the types each accepts.
    pub fn optional_column_types(&self) -> (r: Vec<(&'static str, Vec<DataType>)>)
        ensures
            r@.map_values(|e: (&'static str, Vec<DataType>)| (e.0@, e.1@)) == heatmap_optional_columns(),
    {
        let c0 = vec![DataType::Int8, DataType::Int16, DataType::Int32, DataType::Int64, DataType::UInt8, DataType::UInt16, DataType::UInt32, DataType::UInt64, DataType::Float32, DataType::Float64];
        let ghost expected = heatmap_optional_columns();
        assert(c0@ =~= expected[0].1);
        let v = vec![("Value", c0)];
        assert(v@.map_values(|e: (&'static str, Vec<DataType>)| (e.0@, e.1@)) =~= expected);
        v
    }

    /// Whether the plot draws several series at once.
    pub fn supports_multiple_series(&self) -> (r: bool)
        ensures
            r == false,
    {
        false
    }

    /// Whether the plot maps a column to colors.
    pub fn supports_color_mapping(&self) -> (r: bool)
        ensures
            r == true,
    {
        true
    }

    /// Checks the chosen columns against the plot's requirements.
    pub fn validate_columns(&self, query_result: &QueryResult, config: &PlotColumns) -> (r: Result<
        (),
        ColumnValidationError,
    >)
        ensures
            outcome(r) == column_issue(
                "Heatmap"@,
                Some(heatmap_required_x()),
                heatmap_required_y(),
                *query_result,
                *config,
            ),
    {
        validate_plot_columns(self.name(), self.required_x_types(), self.required_y_types(), query_result, config)
    }

    /// Lays out the result for a heat map with X values in `x_column`, Y
    /// values in `y_column` and, when chosen, values in `value_column`: the
    /// sorted distinct labels of both axes and the cell of each row that has
    /// both values. The values of a cell are summed from the value column
    /// (one per row without it). Fails when an axis is not chosen or a
    /// chosen column does not exist.
    pub fn cell_layout(
        &self,
        query_result: &QueryResult,
        x_column: &str,
        y_column: &str,
        value_column: Option<&str>,
    ) -> (r: Result<HeatmapLayout, String>)
        ensures
            ({
                let value = match value_column {
                    Some(v) => Some(v@),
                    None => None,
                };
                match heatmap_column_error(query_result.columns@, x_column@, y_column@, value) {
                    Some(e) => r matches Err(m) && m@ == e,
                    None => r matches Ok(layout) && {
                        let x = position(query_result.columns@, x_column@)->0;
                        let y = position(query_result.columns@, y_column@)->0;
                        &&& lays_out(layout, query_result.rows@, x as usize, y as usize)
                        &&& match value {
                            Some(v) => layout.value_index matches Some(i) && Some(i as int)
                                == position(query_result.columns@, v),
                            None => layout.value_index is None,
                        }
                    },
                }
            }),
    {
        if x_column.is_empty() || y_column.is_empty() {
            return Err(String::from_str("Both X and Y columns are required for heatmap"));
        }
        let x = match find_position(&query_result.columns, x_column) {
            Some(i) => i,
            None => {
                return Err(quoted_error("X column '", x_column, "' not found"));
            },
        };
        let y = match find_position(&query_result.columns, y_column) {
            Some(i) => i,
            None => {
                return Err(quoted_error("Y column '", y_column, "' not found"));
            },
        };
        let value_index = match value_column {
            Some(v) => match find_position(&query_result.columns, v) {
                Some(i) => Some(i),
                None => {
                    return Err(quoted_error("Value column '", v, "' not found"));
                },
            },
            None => None,
        };
        let need = if x < y {
            y
        } else {
            x
        };
        let rows = &query_result.rows;
        let row_labels = distinct_sorted(rows, y, need);
        let col_labels = distinct_sorted(rows, x, need);
        let mut cells: Vec<HeatmapCell> = Vec::new();
        let mut k: usize = 0;
        while k < rows.len()
            invariant
                k <= rows.len(),
                rows == &query_result.rows,
                need == larger(x, y),
                x <= need,
                y <= need,
                forall|s: Seq<char>| #[trigger]
                    texts(row_labels@).contains(s) <==> label_seen(rows@, y as int, need as int, s),
                forall|s: Seq<char>| #[trigger]
                    texts(col_labels@).contains(s) <==> label_seen(rows@, x as int, need as int, s),
                cells@.len() == heat_rows(rows@, need as int, k as int).len(),
                forall|j: int|
                    0 <= j < cells@.len() ==> {
                        let src = heat_rows(rows@, need as int, k as int);
                        let c = #[trigger] cells@[j];
                        &&& c.source_row == src[j]
                        &&& c.row < row_labels@.len()
                        &&& c.col < col_labels@.len()
                        &&& row_labels@[c.row as int]@ == rows@[src[j]]@[y as int]@
                        &&& col_labels@[c.col as int]@ == rows@[src[j]]@[x as int]@
                    },
            decreases rows.len() - k,
        {
            let ghost prev = heat_rows(rows@, need as int, k as int);
            let ghost next = heat_rows(rows@, need as int, k + 1);
            proof {
                let ids = Seq::new(k as nat, |i: int| i);
                assert(Seq::new((k + 1) as nat, |i: int| i) =~= ids.push(k as int));
                ids.lemma_filter_push(k as int, long_enough(rows@, need as int));
            }
            if need < rows[k].len() {
                proof {
                    assert(label_seen(rows@, y as int, need as int, rows@[k as int]@[y as int]@));
                    assert(label_seen(rows@, x as int, need as int, rows@[k as int]@[x as int]@));
                    assert(texts(row_labels@).contains(rows@[k as int]@[y as int]@));
                    assert(texts(col_labels@).contains(rows@[k as int]@[x as int]@));
                }
                let ri = label_index(&row_labels, &rows[k][y]);
                let ci = label_index(&col_labels, &rows[k][x]);
                cells.push(HeatmapCell { source_row: k, row: ri, col: ci });
                assert(next == prev.push(k as int));
            } else {
                assert(next == prev);
            }
            k = k + 1;
        }
        let layout = HeatmapLayout { row_labels, col_labels, cells, value_index };
        Ok(layout)
    }
}

} // verus!
