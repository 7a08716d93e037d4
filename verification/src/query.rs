//! The tabular result of a query, and lookups of its columns.

use vstd::prelude::*;
use crate::data_type::DataType;
use crate::text::str_eq;

verus! {

/// A query result: column names, their types, and rows of cell texts.
pub struct QueryResult {
    pub columns: Vec<String>,
    pub column_types: Vec<DataType>,
    pub rows: Vec<Vec<String>>,
}

/// `i` is the first position of `names` that holds `name`.
pub open spec fn first_at(names: Seq<String>, name: Seq<char>, i: int) -> bool {
    &&& 0 <= i < names.len()
    &&& names[i]@ == name
    &&& forall|j: int| 0 <= j < i ==> (#[trigger] names[j])@ != name
}

/// Whether some position of `names` holds `name`.
pub open spec fn has_name(names: Seq<String>, name: Seq<char>) -> bool {
    exists|j: int| 0 <= j < names.len() && (#[trigger] names[j])@ == name
}

/// The first position of `names` that holds `name`, if any.
pub open spec fn position(names: Seq<String>, name: Seq<char>) -> Option<int> {
    if exists|i: int| first_at(names, name, i) {
        Some(choose|i: int| first_at(names, name, i))
    } else {
        None
    }
}

/// A position is the first one holding a name in at most one way.
pub proof fn lemma_first_at_unique(names: Seq<String>, name: Seq<char>, i: int, k: int)
    requires
        first_at(names, name, i),
        first_at(names, name, k),
    ensures
        i == k,
{
    if i < k {
        assert(names[i]@ != name);
    } else if k < i {
        assert(names[k]@ == name);
    }
}

/// A name is held somewhere exactly when it has a first position.
pub proof fn lemma_position_some(names: Seq<String>, name: Seq<char>)
    ensures
        position(names, name) is Some <==> has_name(names, name),
        position(names, name) matches Some(i) ==> first_at(names, name, i),
{
    if has_name(names, name) {
        let j = choose|j: int| 0 <= j < names.len() && (#[trigger] names[j])@ == name;
        lemma_first_exists(names, name, j);
    }
    if position(names, name) is Some {
        let i = choose|i: int| first_at(names, name, i);
        assert(names[i]@ == name);
    }
}

proof fn lemma_first_exists(names: Seq<String>, name: Seq<char>, j: int)
    requires
        0 <= j < names.len(),
        names[j]@ == name,
    ensures
        exists|i: int| first_at(names, name, i),
    decreases j,
{
    if forall|k: int| 0 <= k < j ==> (#[trigger] names[k])@ != name {
        assert(first_at(names, name, j));
    } else {
        let k = choose|k: int| 0 <= k < j && (#[trigger] names[k])@ == name;
        lemma_first_exists(names, name, k);
    }
}

/// An optional index as an optional integer.
pub open spec fn opt_int(r: Option<usize>) -> Option<int> {
    match r {
        Some(i) => Some(i as int),
        None => None,
    }
}

/// The first position of `names` that holds `name`, as
/// `names.iter().position(|c| c == name)` finds it.
pub fn find_position(names: &Vec<String>, name: &str) -> (r: Option<usize>)
    ensures
        opt_int(r) == position(names@, name@),
        r is Some <==> has_name(names@, name@),
{
    let mut i: usize = 0;
    while i < names.len()
        invariant
            i <= names.len(),
            forall|j: int| 0 <= j < i ==> (#[trigger] names@[j])@ != name@,
        decreases names.len() - i,
    {
        if str_eq(names[i].as_str(), name) {
            proof {
                assert(first_at(names@, name@, i as int));
                let c = choose|c: int| first_at(names@, name@, c);
                lemma_first_at_unique(names@, name@, i as int, c);
            }
            return Some(i);
        }
        i = i + 1;
    }
    proof {
        lemma_position_some(names@, name@);
    }
    None
}

/// Whether `name` is one of `names`.
pub fn contains_name(names: &Vec<String>, name: &str) -> (r: bool)
    ensures
        r == has_name(names@, name@),
{
    find_position(names, name).is_some()
}

impl QueryResult {
    /// The type of the column named `name`: that of the first column with the
    /// name, when the types reach that far.
    pub open spec fn column_type(self, name: Seq<char>) -> Option<DataType> {
        match position(self.columns@, name) {
            Some(i) => if i < self.column_types.len() {
                Some(self.column_types@[i])
            } else {
                None
            },
            None => None,
        }
    }

    /// The type of the column named `name`, where it is known.
    pub fn type_of_column(&self, name: &str) -> (r: Option<&DataType>)
        ensures
            match r {
                Some(t) => self.column_type(name@) == Some(*t),
                None => self.column_type(name@) is None,
            },
    {
        match find_position(&self.columns, name) {
            Some(i) => if i < self.column_types.len() {
                Some(&self.column_types[i])
            } else {
                None
            },
            None => None,
        }
    }
}

/// A column of a table in the database.
pub struct ColumnInfo {
    pub name: String,
}

/// A table in the database and its columns.
pub struct TableInfo {
    pub name: String,
    pub columns: Vec<ColumnInfo>,
}

} // verus!
