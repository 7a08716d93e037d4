//! Bar charts: categories or numbers along X, numeric values along Y.

use vstd::prelude::*;
use crate::data_type::{DataType};
use crate::query::{QueryResult, find_position, position};
use crate::text::{chars_less, lemma_chars_less_total, lemma_chars_less_transitive, str_less};
use super::{PlotColumns, ColumnValidationError, validate_plot_columns, outcome, column_issue};

verus! {

pub struct BarChartPlot;

/// The X column types a bar chart accepts.
pub open spec fn bar_required_x() -> Seq<DataType> {
    seq![DataType::Utf8, DataType::LargeUtf8, DataType::Int8, DataType::Int16, DataType::Int32, DataType::Int64, DataType::UInt8, DataType::UInt16, DataType::UInt32, DataType::UInt64, DataType::Float32, DataType::Float64]
}

/// The Y column types a bar chart accepts.
pub open spec fn bar_required_y() -> Seq<DataType> {
    seq![DataType::Int8, DataType::Int16, DataType::Int32, DataType::Int64, DataType::UInt8, DataType::UInt16, DataType::UInt32, DataType::UInt64, DataType::Float16, DataType::Float32, DataType::Float64, DataType::Decimal128(38, 10), DataType::Decimal256(76, 10)]
}

impl BarChartPlot {
    /// The plot's display name.
    pub fn name(&self) -> (r: &'static str)
        ensures
            r@ == "Bar Chart"@,
    {
        "Bar Chart"
    }

    /// The X column types the plot accepts.
    pub fn required_x_types(&self) -> (r: Option<Vec<DataType>>)
        ensures
            r matches Some(v) && v@ == bar_required_x(),
    {
        let v = vec![DataType::Utf8, DataType::LargeUtf8, DataType::Int8, DataType::Int16, DataType::Int32, DataType::Int64, DataType::UInt8, DataType::UInt16, DataType::UInt32, DataType::UInt64, DataType::Float32, DataType::Float64];
        assert(v@ =~= bar_required_x());
        Some(v)
    }

    /// The Y column types the plot accepts.
    pub fn required_y_types(&self) -> (r: Vec<DataType>)
        ensures
            r@ == bar_required_y(),
    {
        let v = vec![DataType::Int8, DataType::Int16, DataType::Int32, DataType::Int64, DataType::UInt8, DataType::UInt16, DataType::UInt32, DataType::UInt64, DataType::Float16, DataType::Float32, DataType::Float64, DataType::Decimal128(38, 10), DataType::Decimal256(76, 10)];
        assert(v@ =~= bar_required_y());
        v
    }

    /// Whether the plot draws several series at once.
    pub fn supports_multiple_series(&self) -> (r: bool)
        ensures
            r == true,
    {
        true
    }

    /// Whether the plot maps a column to colors.
    pub fn supports_color_mapping(&self) -> (r: bool)
        ensures
            r == true,
    {
        true
    }

    /// Checks the chosen columns against the plot's requirements.
    pub fn validate_columns(&self, query_result: &QueryResult, config: &PlotColumns) -> (r: Result<
        (),
        ColumnValidationError,
    >)
        ensures
            outcome(r) == column_issue(
                "Bar Chart"@,
                Some(bar_required_x()),
                bar_required_y(),
                *query_result,
                *config,
            ),
    {
        validate_plot_columns(self.name(), self.required_x_types(), self.required_y_types(), query_result, config)
    }


    /// The distinct values of column `column`, in ascending order; an error
    /// naming the column when no column has that name.
    pub fn get_unique_categories(&self, query_result: &QueryResult, column: &str) -> (r: Result<Vec<String>, String>)
        ensures
            match r {
                Err(e) => position(query_result.columns@, column@) is None && e@ == "Column '"@
                    + column@ + "' not found"@,
                Ok(v) => exists|idx: int|
                    {
                        &&& position(query_result.columns@, column@) == Some(idx)
                        &&& strictly_sorted(texts(v@))
                        &&& forall|s: Seq<char>| #[trigger]
                            texts(v@).contains(s) <==> column_has_value(query_result.rows@, idx, s)
                    },
            },
    {
        let col_idx = match find_position(&query_result.columns, column) {
            Some(i) => i,
            None => {
                let mut e = String::from_str("Column '");
                e.append(column);
                e.append("' not found");
                proof {
                    reveal_strlit("Column '");
                    reveal_strlit("' not found");
                }
                return Err(e);
            },
        };
        let rows = &query_result.rows;
        let mut out: Vec<String> = Vec::new();
        let mut k: usize = 0;
        while k < rows.len()
            invariant
                k <= rows.len(),
                rows == &query_result.rows,
                strictly_sorted(texts(out@)),
                forall|s: Seq<char>| #[trigger]
                    texts(out@).contains(s) <==> column_has_value(rows@.take(k as int), col_idx as int, s),
            decreases rows.len() - k,
        {
            let ghost before = rows@.take(k as int);
            let ghost after = rows@.take(k + 1);
            assert(after =~= before.push(rows@[k as int]));
            if col_idx < rows[k].len() {
                let value = &rows[k][col_idx];
                insert_sorted(&mut out, value);
                assert forall|s: Seq<char>| #[trigger]
                    texts(out@).contains(s) <==> column_has_value(after, col_idx as int, s) by {
                    if column_has_value(after, col_idx as int, s) {
                        let w = choose|w: int| 0 <= w < after.len() && col_idx < (#[trigger] after[w]).len()
                            && after[w]@[col_idx as int]@ == s;
                        if w < k {
                            assert(before[w] == after[w]);
                            assert(column_has_value(before, col_idx as int, s));
                        }
                    }
                    if column_has_value(before, col_idx as int, s) {
                        let w = choose|w: int| 0 <= w < before.len() && col_idx < (#[trigger] before[w]).len()
                            && before[w]@[col_idx as int]@ == s;
                        assert(after[w] == before[w]);
                    }
                    if s == value@ {
                        assert(after[k as int] == rows@[k as int]);
                        assert(column_has_value(after, col_idx as int, s));
                    }
                }
            } else {
                assert forall|s: Seq<char>| #[trigger]
                    texts(out@).contains(s) <==> column_has_value(after, col_idx as int, s) by {
                    if column_has_value(after, col_idx as int, s) {
                        let w = choose|w: int| 0 <= w < after.len() && col_idx < (#[trigger] after[w]).len()
                            && after[w]@[col_idx as int]@ == s;
                        assert(w != k);
                        assert(before[w] == after[w]);
                        assert(column_has_value(before, col_idx as int, s));
                    }
                    if column_has_value(before, col_idx as int, s) {
                        let w = choose|w: int| 0 <= w < before.len() && col_idx < (#[trigger] before[w]).len()
                            && before[w]@[col_idx as int]@ == s;
                        assert(after[w] == before[w]);
                    }
                }
            }
            k = k + 1;
        }
        assert(rows@.take(rows.len() as int) =~= rows@);
        Ok(out)
    }
}

/// The characters of each string of a sequence.
pub open spec fn texts(v: Seq<String>) -> Seq<Seq<char>> {
    v.map_values(|s: String| s@)
}

/// Every element orders strictly before every later one (so none repeats).
pub open spec fn strictly_sorted(v: Seq<Seq<char>>) -> bool {
    forall|i: int, j: int| 0 <= i < j < v.len() ==> chars_less(#[trigger] v[i], #[trigger] v[j])
}

/// The cell of column `idx` in some row that reaches that column equals `s`.
pub open spec fn column_has_value(rows: Seq<Vec<String>>, idx: int, s: Seq<char>) -> bool {
    exists|k: int| 0 <= k < rows.len() && idx < (#[trigger] rows[k]).len() && rows[k]@[idx]@ == s
}

/// Inserts a copy of `value` into the strictly sorted `v`, unless it is
/// already there.
pub(crate) fn insert_sorted(v: &mut Vec<String>, value: &String)
    requires
        strictly_sorted(texts(old(v)@)),
    ensures
        strictly_sorted(texts(final(v)@)),
        forall|s: Seq<char>| #[trigger]
            texts(final(v)@).contains(s) <==> (texts(old(v)@).contains(s) || s == value@),
{
    let ghost old_t = texts(v@);
    let mut p: usize = 0;
    while p < v.len() && str_less(v[p].as_str(), value.as_str())
        invariant
            p <= v.len(),
            v@ == old(v)@,
            forall|i: int| 0 <= i < p ==> chars_less(#[trigger] texts(v@)[i], value@),
        decreases v.len() - p,
    {
        p = p + 1;
    }
    if p < v.len() && v[p] == *value {
        assert(texts(v@)[p as int] == value@);
        return;
    }
    proof {
        if p < v.len() {
            lemma_chars_less_total(texts(v@)[p as int], value@);
        }
    }
    v.insert(p, value.clone());
    let ghost new_t = texts(v@);
    assert(new_t =~= old_t.insert(p as int, value@));
    assert forall|i: int, j: int| 0 <= i < j < new_t.len() implies chars_less(
        #[trigger] new_t[i],
        #[trigger] new_t[j],
    ) by {
        if j < p {
        } else if j == p {
        } else if i < p {
            if j - 1 > p {
                lemma_chars_less_transitive(old_t[i], old_t[p as int], old_t[j - 1]);
            }
        } else if i == p {
            if j - 1 > p {
                lemma_chars_less_transitive(value@, old_t[p as int], old_t[j - 1]);
            }
        } else {
        }
    }
    assert forall|s: Seq<char>| #[trigger]
        new_t.contains(s) <==> (old_t.contains(s) || s == value@) by {
        if new_t.contains(s) {
            let w = choose|w: int| 0 <= w < new_t.len() && new_t[w] == s;
            if w < p {
                assert(old_t[w] == s);
            } else if w > p {
                assert(old_t[w - 1] == s);
            }
        }
        if old_t.contains(s) {
            let w = choose|w: int| 0 <= w < old_t.len() && old_t[w] == s;
            if w < p {
                assert(new_t[w] == s);
            } else {
                assert(new_t[w + 1] == s);
            }
        }
        if s == value@ {
            assert(new_t[p as int] == s);
        }
    }
}

} // verus!
