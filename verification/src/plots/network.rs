//! Network graphs of source/target relations.

use vstd::prelude::*;
use crate::data_type::{DataType};
use crate::query::{QueryResult, find_position, position};
use super::{PlotColumns, ColumnValidationError, validate_plot_columns, outcome, column_issue};
use super::bar::texts;

verus! {

pub struct NetworkPlot;

/// The X column types a network graph accepts.
pub open spec fn network_required_x() -> Seq<DataType> {
    seq![DataType::Float64, DataType::Int64, DataType::Utf8]
}

/// The Y column types a network graph accepts.
pub open spec fn network_required_y() -> Seq<DataType> {
    seq![DataType::Float64, DataType::Int64, DataType::Utf8]
}

/// The optional extra columns of a network graph, with the types each accepts.
pub open spec fn network_optional_columns() -> Seq<(Seq<char>, Seq<DataType>)> {
    seq![
        ("Color"@, seq![DataType::Float64, DataType::Int64, DataType::Utf8]),
        ("Size"@, seq![DataType::Float64, DataType::Int64]),
    ]
}

/// The largest number of rows a network graph reads before it thins them.
pub const MAX_NETWORK_ROWS: usize = 1500;

/// Every how many rows one is read: one in `n / 1500` for more than 1500
/// rows, every row otherwise.
pub open spec fn network_step(n: nat) -> nat {
    if n > MAX_NETWORK_ROWS {
        n / (MAX_NETWORK_ROWS as nat)
    } else {
        1
    }
}

/// Row `k` is read (its position is a multiple of `step`) and reaches past
/// column `need`.
pub open spec fn picks(rows: Seq<Vec<String>>, need: int, step: nat) -> spec_fn(int) -> bool {
    |k: int| k % (step as int) == 0 && need < rows[k]@.len()
}

/// The positions, in order, of the rows among the first `n` that give an
/// edge.
pub open spec fn picked_rows(rows: Seq<Vec<String>>, need: int, step: nat, n: int) -> Seq<int> {
    Seq::new(n as nat, |k: int| k).filter(picks(rows, need, step))
}

/// The source and target of each picked row, in order.
pub open spec fn endpoints(rows: Seq<Vec<String>>, x: int, y: int, ks: Seq<int>) -> Seq<Seq<char>>
    decreases ks.len(),
{
    if ks.len() == 0 {
        Seq::empty()
    } else {
        endpoints(rows, x, y, ks.drop_last()) + seq![rows[ks.last()]@[x]@, rows[ks.last()]@[y]@]
    }
}

/// The distinct items of `s` in the order they first appear.
pub open spec fn first_seen(s: Seq<Seq<char>>) -> Seq<Seq<char>>
    decreases s.len(),
{
    if s.len() == 0 {
        Seq::empty()
    } else {
        let p = first_seen(s.drop_last());
        if p.contains(s.last()) {
            p
        } else {
            p.push(s.last())
        }
    }
}

/// Listing the distinct items in the order they first appear keeps each
/// item once, and keeps exactly the items that occur.
pub proof fn law_first_seen_lists_each_item_once(s: Seq<Seq<char>>)
    ensures
        first_seen(s).no_duplicates(),
        forall|v: Seq<char>| #[trigger] first_seen(s).contains(v) <==> s.contains(v),
    decreases s.len(),
{
    if s.len() > 0 {
        let q = s.drop_last();
        law_first_seen_lists_each_item_once(q);
        let p = first_seen(q);
        assert forall|v: Seq<char>| #[trigger] first_seen(s).contains(v) <==> s.contains(v) by {
            if q.contains(v) {
                let w = choose|w: int| 0 <= w < q.len() && q[w] == v;
                assert(s[w] == v);
            }
            if s.contains(v) {
                let w = choose|w: int| 0 <= w < s.len() && s[w] == v;
                if w < s.len() - 1 {
                    assert(q[w] == v);
                }
            }
            if !p.contains(s.last()) && v == s.last() {
                assert(p.push(s.last())[p.len() as int] == v);
            }
            if !p.contains(s.last()) && p.push(s.last()).contains(v) && v != s.last() {
                let w = choose|w: int| 0 <= w < p.len() + 1 && p.push(s.last())[w] == v;
                assert(p[w] == v);
            }
            if p.contains(v) && !p.contains(s.last()) {
                let w = choose|w: int| 0 <= w < p.len() && p[w] == v;
                assert(p.push(s.last())[w] == v);
            }
        }
        if !p.contains(s.last()) {
            let r = p.push(s.last());
            assert forall|i: int, j: int| 0 <= i < r.len() && 0 <= j < r.len() && i != j implies r[i]
                != r[j] by {
                if i < p.len() && j < p.len() {
                } else if i < p.len() {
                    assert(p.contains(p[i]));
                } else {
                    assert(p.contains(p[j]));
                }
            }
        }
    }
}

/// One edge of a network graph: the row it comes from and the positions of
/// its source and target among the nodes.
pub struct NetworkEdge {
    pub row: usize,
    pub source: usize,
    pub target: usize,
}

/// The nodes of a network graph, in the order they first appear, and an
/// edge for each row read.
pub struct NetworkLayout {
    pub nodes: Vec<String>,
    pub edges: Vec<NetworkEdge>,
}

/// `layout` is the network of `rows` with sources in column `x` and
/// targets in column `y`.
pub open spec fn network_of(layout: NetworkLayout, rows: Seq<Vec<String>>, x: usize, y: usize) -> bool {
    let need = if x < y {
        y as int
    } else {
        x as int
    };
    let ks = picked_rows(rows, need, network_step(rows.len()), rows.len() as int);
    &&& texts(layout.nodes@) == first_seen(endpoints(rows, x as int, y as int, ks))
    &&& layout.edges@.len() == ks.len()
    &&& forall|j: int|
        0 <= j < ks.len() ==> {
            let e = #[trigger] layout.edges@[j];
            &&& e.row == ks[j]
            &&& e.source < layout.nodes@.len()
            &&& e.target < layout.nodes@.len()
            &&& layout.nodes@[e.source as int]@ == rows[ks[j]]@[x as int]@
            &&& layout.nodes@[e.target as int]@ == rows[ks[j]]@[y as int]@
        }
}

/// Adds `label` to the nodes unless it is there, and gives its position.
fn node_index(nodes: &mut Vec<String>, label: &String) -> (r: usize)
    ensures
        texts(final(nodes)@) == if texts(old(nodes)@).contains(label@) {
            texts(old(nodes)@)
        } else {
            texts(old(nodes)@).push(label@)
        },
        final(nodes)@.take(old(nodes)@.len() as int) == old(nodes)@,
        final(nodes)@.len() >= old(nodes)@.len(),
        r < final(nodes)@.len(),
        final(nodes)@[r as int]@ == label@,
{
    match find_position(nodes, label.as_str()) {
        Some(i) => {
            proof {
                crate::query::lemma_position_some(nodes@, label@);
                assert(texts(nodes@)[i as int] == label@);
            }
            assert(nodes@.take(nodes@.len() as int) =~= nodes@);
            i
        },
        None => {
            proof {
                if texts(nodes@).contains(label@) {
                    let w = choose|w: int| 0 <= w < texts(nodes@).len() && texts(nodes@)[w] == label@;
                    assert(crate::query::has_name(nodes@, label@)) by {
                        assert(nodes@[w]@ == label@);
                    }
                }
            }
            let ghost before = nodes@;
            nodes.push(label.clone());
            assert(texts(nodes@) =~= texts(before).push(label@));
            assert(nodes@.take(before.len() as int) =~= before);
            nodes.len() - 1
        },
    }
}


impl NetworkPlot {
    /// The plot's display name.
    pub fn name(&self) -> (r: &'static str)
        ensures
            r@ == "Network Graph"@,
    {
        "Network Graph"
    }

    /// The X column types the plot accepts.
    pub fn required_x_types(&self) -> (r: Option<Vec<DataType>>)
        ensures
            r matches Some(v) && v@ == network_required_x(),
    {
        let v = vec![DataType::Float64, DataType::Int64, DataType::Utf8];
        assert(v@ =~= network_required_x());
        Some(v)
    }

    /// The Y column types the plot accepts.
    pub fn required_y_types(&self) -> (r: Vec<DataType>)
        ensures
            r@ == network_required_y(),
    {
        let v = vec![DataType::Float64, DataType::Int64, DataType::Utf8];
        assert(v@ =~= network_required_y());
        v
    }

    /// The optional extra columns of the plot, with the types each accepts.
    pub fn optional_column_types(&self) -> (r: Vec<(&'static str, Vec<DataType>)>)
        ensures
            r@.map_values(|e: (&'static str, Vec<DataType>)| (e.0@, e.1@)) == network_optional_columns(),
    {
        let c0 = vec![DataType::Float64, DataType::Int64, DataType::Utf8];
        let c1 = vec![DataType::Float64, DataType::Int64];
        let ghost expected = network_optional_columns();
        assert(c0@ =~= expected[0].1);
        assert(c1@ =~= expected[1].1);
        let v = vec![("Color", c0), ("Size", c1)];
        assert(v@.map_values(|e: (&'static str, Vec<DataType>)| (e.0@, e.1@)) =~= expected);
        v
    }

    /// Whether the plot draws several series at once.
    pub fn supports_multiple_series(&self) -> (r: bool)
        ensures
            r == false,
    {
        false
    }

    /// Whether the plot maps a column to colors.
    pub fn supports_color_mapping(&self) -> (r: bool)
        ensures
            r == true,
    {
        true
    }

    /// Checks the chosen columns against the plot's requirements.
    pub fn validate_columns(&self, query_result: &QueryResult, config: &PlotColumns) -> (r: Result<
        (),
        ColumnValidationError,
    >)
        ensures
            outcome(r) == column_issue(
                "Network Graph"@,
                Some(network_required_x()),
                network_required_y(),
                *query_result,
                *config,
            ),
    {
        validate_plot_columns(self.name(), self.required_x_types(), self.required_y_types(), query_result, config)
    }

    /// The network of the result with sources in `x_column` and targets in
    /// `y_column`: of more than 1500 rows only every `n / 1500`-th is read;
    /// each row read that has both cells gives an edge, and the nodes are the
    /// sources and targets in the order they first appear. Fails when a
    /// column is not chosen or not found.
    pub fn graph_layout(&self, query_result: &QueryResult, x_column: &str, y_column: &str) -> (r: Result<
        NetworkLayout,
        String,
    >)
        ensures
            x_column@.len() == 0 || y_column@.len() == 0 ==> (r matches Err(e) && e@
                == "X and Y columns are required for network graphs"@),
            x_column@.len() > 0 && y_column@.len() > 0 ==> {
                let xp = position(query_result.columns@, x_column@);
                let yp = position(query_result.columns@, y_column@);
                if xp is None {
                    r matches Err(e) && e@ == "X column not found"@
                } else if yp is None {
                    r matches Err(e) && e@ == "Y column not found"@
                } else {
                    r matches Ok(layout) && network_of(
                        layout,
                        query_result.rows@,
                        xp->0 as usize,
                        yp->0 as usize,
                    )
                }
            },
    {
        if x_column.is_empty() || y_column.is_empty() {
            return Err(String::from_str("X and Y columns are required for network graphs"));
        }
        let rows = &query_result.rows;
        let n = rows.len();
        let step: usize = if n > MAX_NETWORK_ROWS {
            n / MAX_NETWORK_ROWS
        } else {
            1
        };
        let x = match find_position(&query_result.columns, x_column) {
            Some(i) => i,
            None => {
                return Err(String::from_str("X column not found"));
            },
        };
        let y = match find_position(&query_result.columns, y_column) {
            Some(i) => i,
            None => {
                return Err(String::from_str("Y column not found"));
            },
        };
        let need = if x < y {
            y
        } else {
            x
        };
        let mut nodes: Vec<String> = Vec::new();
        let mut edges: Vec<NetworkEdge> = Vec::new();
        let mut k: usize = 0;
        while k < n
            invariant
                k <= n,
                n == rows@.len(),
                rows == &query_result.rows,
                step == network_step(n as nat),
                step > 0,
                need == if x < y {
                    y
                } else {
                    x
                },
                texts(nodes@) == first_seen(
                    endpoints(rows@, x as int, y as int, picked_rows(rows@, need as int, step as nat, k as int)),
                ),
                edges@.len() == picked_rows(rows@, need as int, step as nat, k as int).len(),
                forall|j: int|
                    0 <= j < edges@.len() ==> {
                        let ks = picked_rows(rows@, need as int, step as nat, k as int);
                        let e = #[trigger] edges@[j];
                        &&& e.row == ks[j]
                        &&& e.source < nodes@.len()
                        &&& e.target < nodes@.len()
                        &&& nodes@[e.source as int]@ == rows@[ks[j]]@[x as int]@
                        &&& nodes@[e.target as int]@ == rows@[ks[j]]@[y as int]@
                    },
            decreases n - k,
        {
            let ghost prev = picked_rows(rows@, need as int, step as nat, k as int);
            let ghost next = picked_rows(rows@, need as int, step as nat, k + 1);
            proof {
                let ids = Seq::new(k as nat, |i: int| i);
                assert(Seq::new((k + 1) as nat, |i: int| i) =~= ids.push(k as int));
                ids.lemma_filter_push(k as int, picks(rows@, need as int, step as nat));
            }
            if k % step == 0 && need < rows[k].len() {
                let ghost old_nodes = nodes@;
                let ghost old_edges = edges@;
                let s = node_index(&mut nodes, &rows[k][x]);
                let ghost mid_nodes = nodes@;
                let t = node_index(&mut nodes, &rows[k][y]);
                edges.push(NetworkEdge { row: k, source: s, target: t });
                proof {
                    assert(next == prev.push(k as int));
                    assert(next.drop_last() =~= prev);
                    let pe = endpoints(rows@, x as int, y as int, prev);
                    let a = rows@[k as int]@[x as int]@;
                    let b = rows@[k as int]@[y as int]@;
                    assert(endpoints(rows@, x as int, y as int, next) == pe + seq![a, b]);
                    assert((pe + seq![a, b]).drop_last() =~= pe.push(a));
                    assert((pe + seq![a, b]).last() == b);
                    assert(pe.push(a).drop_last() =~= pe);
                    assert(pe.push(a).last() == a);
                    assert(first_seen(pe.push(a)) == if first_seen(pe).contains(a) {
                        first_seen(pe)
                    } else {
                        first_seen(pe).push(a)
                    });
                    assert(texts(mid_nodes) == first_seen(pe.push(a)));
                    assert(first_seen(pe + seq![a, b]) == if first_seen(pe.push(a)).contains(b) {
                        first_seen(pe.push(a))
                    } else {
                        first_seen(pe.push(a)).push(b)
                    });
                    assert(texts(nodes@) == first_seen(endpoints(rows@, x as int, y as int, next)));
                    assert(mid_nodes[s as int] == nodes@[s as int]) by {
                        assert(nodes@.take(mid_nodes.len() as int)[s as int] == mid_nodes[s as int]);
                    }
                    assert forall|j: int| 0 <= j < edges@.len() implies {
                        let e = #[trigger] edges@[j];
                        &&& e.row == next[j]
                        &&& e.source < nodes@.len()
                        &&& e.target < nodes@.len()
                        &&& nodes@[e.source as int]@ == rows@[next[j]]@[x as int]@
                        &&& nodes@[e.target as int]@ == rows@[next[j]]@[y as int]@
                    } by {
                        if j < old_edges.len() {
                            assert(edges@[j] == old_edges[j]);
                            let e = old_edges[j];
                            assert(next[j] == prev[j]);
                            assert(mid_nodes.take(old_nodes.len() as int)[e.source as int]
                                == old_nodes[e.source as int]);
                            assert(nodes@.take(mid_nodes.len() as int)[e.source as int]
                                == mid_nodes[e.source as int]);
                            assert(mid_nodes.take(old_nodes.len() as int)[e.target as int]
                                == old_nodes[e.target as int]);
                            assert(nodes@.take(mid_nodes.len() as int)[e.target as int]
                                == mid_nodes[e.target as int]);
                        }
                    }
                }
            } else {
                assert(next == prev);
            }
            k = k + 1;
        }
        Ok(NetworkLayout { nodes, edges })
    }

}

} // verus!
