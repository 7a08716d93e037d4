//! The dialog creating a database from several CSV files: the files it
//! holds, their column types and index choices, and the decisions around
//! loading a file and creating the database.

use vstd::prelude::*;
use std::path::PathBuf;
use egui::Id;
use indexmap::IndexMap;
use crate::file_config::{ColumnType, name_or, path_stem_text, clone_path, plain_name};

verus! {

#[verifier::external_type_specification]
#[verifier::external_body]
#[verifier::reject_recursive_types(K)]
#[verifier::reject_recursive_types(V)]
#[verifier::reject_recursive_types(S)]
pub struct ExIndexMap<K, V, S>(IndexMap<K, V, S>);

/// What a map from column names to column types holds.
pub uninterp spec fn type_map(m: IndexMap<String, ColumnType>) -> Map<Seq<char>, ColumnType>;

/// What a map from column names to index choices holds.
pub uninterp spec fn flag_map(m: IndexMap<String, bool>) -> Map<Seq<char>, bool>;

/// Calls `IndexMap::new`: an empty map.
#[verifier::external_body]
fn new_type_map() -> (r: IndexMap<String, ColumnType>)
    ensures
        forall|k: Seq<char>| !type_map(r).dom().contains(k),
{
    IndexMap::new()
}

/// Calls `IndexMap::new`: an empty map.
#[verifier::external_body]
fn new_flag_map() -> (r: IndexMap<String, bool>)
    ensures
        forall|k: Seq<char>| !flag_map(r).dom().contains(k),
{
    IndexMap::new()
}

/// Calls `IndexMap::insert`: the key maps to the value afterwards, and the
/// other keys keep theirs.
#[verifier::external_body]
fn type_map_insert(m: &mut IndexMap<String, ColumnType>, key: String, value: ColumnType)
    ensures
        type_map(*final(m)) == type_map(*old(m)).insert(key@, value),
{
    m.insert(key, value);
}

/// Calls `IndexMap::insert`: the key maps to the value afterwards, and the
/// other keys keep theirs.
#[verifier::external_body]
fn flag_map_insert(m: &mut IndexMap<String, bool>, key: String, value: bool)
    ensures
        flag_map(*final(m)) == flag_map(*old(m)).insert(key@, value),
{
    m.insert(key, value);
}

/// Calls `IndexMap::get`: the value the key maps to, if any.
#[verifier::external_body]
fn type_map_get(m: &IndexMap<String, ColumnType>, key: &String) -> (r: Option<ColumnType>)
    ensures
        r == (if type_map(*m).dom().contains(key@) {
            Some(type_map(*m)[key@])
        } else {
            None
        }),
{
    m.get(key).copied()
}

/// Calls `PathBuf`'s `==`. Paths compare by their components, which depend
/// on the platform; the contract states only that a path equals itself.
#[verifier::external_body]
fn paths_equal(a: &PathBuf, b: &PathBuf) -> (r: bool)
    ensures
        *a == *b ==> r,
{
    a == b
}

/// One CSV file of the dialog, with how it is imported.
pub struct CsvFileConfig {
    pub path: PathBuf,
    pub table_name: String,
    pub headers: Vec<String>,
    pub column_types: IndexMap<String, ColumnType>,
    pub sample_data: Vec<Vec<String>>,
    pub create_indexes: IndexMap<String, bool>,
    pub included: bool,
}

/// The dialog creating a database from several CSV files.
pub struct MultiCsvImportDialog {
    pub id: Id,
    pub show: bool,
    pub database_path: Option<PathBuf>,
    pub csv_files: Vec<CsvFileConfig>,
    pub error: Option<String>,
}

/// How opening a CSV file and reading its header and first records went.
pub enum CsvLoadOutcome {
    OpenFailed(String),
    HeadersFailed(String),
    SampleFailed(String),
    /// The header, the sampled records, and the column types inferred from
    /// them, by column name.
    Loaded { headers: Vec<String>, sample_data: Vec<Vec<String>>, column_types: Vec<(String, ColumnType)> },
}

/// What creating one table of the database takes: its name, its columns with
/// their types, and the file its records come from.
pub struct TablePlan {
    pub table_name: String,
    pub columns: Vec<(String, ColumnType)>,
    pub path: PathBuf,
}

/// How creating the database went.
pub enum DatabaseOutcome {
    OpenFailed(String),
    TableFailed { table: String, error: String },
    BeginFailed(String),
    InsertFailed(String),
    CommitFailed(String),
    /// The database was created at this path.
    Created(PathBuf),
}

/// The map that inserting the pairs one after the other into an empty map
/// gives: a name repeated keeps the last type.
pub open spec fn pairs_map(pairs: Seq<(String, ColumnType)>) -> Map<Seq<char>, ColumnType>
    decreases pairs.len(),
{
    if pairs.len() == 0 {
        Map::empty()
    } else {
        pairs_map(pairs.drop_last()).insert(pairs.last().0@, pairs.last().1)
    }
}

/// The type a column is created with: the one the map holds, text otherwise.
pub open spec fn type_or_text(m: Map<Seq<char>, ColumnType>, name: Seq<char>) -> ColumnType {
    if m.dom().contains(name) {
        m[name]
    } else {
        ColumnType::Text
    }
}

/// The columns a file's table is created with: each header with its type.
pub open spec fn columns_of(headers: Seq<String>, m: Map<Seq<char>, ColumnType>, cols: Seq<(String, ColumnType)>) -> bool {
    &&& cols.len() == headers.len()
    &&& forall|i: int|
        0 <= i < cols.len() ==> (#[trigger] cols[i]).0@ == headers[i]@ && cols[i].1 == type_or_text(
            m,
            headers[i]@,
        )
}

/// The positions of the files to import, in order.
pub open spec fn included_files(files: Seq<CsvFileConfig>) -> Seq<int>
    decreases files.len(),
{
    if files.len() == 0 {
        Seq::empty()
    } else {
        let rest = included_files(files.drop_last());
        if files.last().included {
            rest.push(files.len() - 1)
        } else {
            rest
        }
    }
}

/// `plan` creates the table of `file`.
pub open spec fn plans_table(plan: TablePlan, file: CsvFileConfig) -> bool {
    &&& plan.table_name@ == file.table_name@
    &&& columns_of(file.headers@, type_map(file.column_types), plan.columns@)
    &&& plan.path == file.path
}

/// The dialog's files, from a list that is otherwise the same, differ only
/// at file `i`, where `f` stands.
pub open spec fn files_but(a: Seq<CsvFileConfig>, b: Seq<CsvFileConfig>, i: int, f: CsvFileConfig) -> bool {
    a == b.update(i, f)
}

/// `b` is the dialog `a` after adding the file at `path` from how loading
/// it went: its table named after `stem`, or "table" without one; a file
/// that could not be read adds nothing and the dialog says why.
pub open spec fn added_file(
    a: MultiCsvImportDialog,
    b: MultiCsvImportDialog,
    path: PathBuf,
    stem: Option<String>,
    outcome: CsvLoadOutcome,
) -> bool {
    &&& b == (MultiCsvImportDialog { csv_files: b.csv_files, error: b.error, ..a })
    &&& match outcome {
        CsvLoadOutcome::OpenFailed(e) => {
            &&& b.csv_files == a.csv_files
            &&& b.error matches Some(m) && m@ == "Failed to open CSV: "@ + e@
        },
        CsvLoadOutcome::HeadersFailed(e) => {
            &&& b.csv_files == a.csv_files
            &&& b.error matches Some(m) && m@ == "Failed to read headers: "@ + e@
        },
        CsvLoadOutcome::SampleFailed(e) => {
            &&& b.csv_files == a.csv_files
            &&& b.error matches Some(m) && m@ == "Failed to read sample data: "@ + e@
        },
        CsvLoadOutcome::Loaded { headers, sample_data, column_types } => {
            let f = b.csv_files@.last();
            &&& b.csv_files@.len() == a.csv_files@.len() + 1
            &&& b.csv_files@.drop_last() == a.csv_files@
            &&& f.path == path
            &&& f.table_name@ == name_or(stem, "table"@)
            &&& f.headers == headers
            &&& f.sample_data == sample_data
            &&& type_map(f.column_types) == pairs_map(column_types@)
            &&& flag_map(f.create_indexes) == Map::<Seq<char>, bool>::empty()
            &&& f.included
            &&& b.error == a.error
        },
    }
}

proof fn lemma_included_bounds(files: Seq<CsvFileConfig>)
    ensures
        forall|k: int|
            0 <= k < included_files(files).len() ==> 0 <= #[trigger] included_files(files)[k]
                < files.len() && files[included_files(files)[k]].included,
    decreases files.len(),
{
    if files.len() > 0 {
        let d = files.drop_last();
        lemma_included_bounds(d);
        assert forall|k: int| 0 <= k < included_files(files).len() implies 0
            <= #[trigger] included_files(files)[k] < files.len()
            && files[included_files(files)[k]].included by {
            let rest = included_files(d);
            if k < rest.len() {
                assert(d[rest[k]] == files[rest[k]]);
            }
        }
    }
}

fn map_from_pairs(pairs: Vec<(String, ColumnType)>) -> (r: IndexMap<String, ColumnType>)
    ensures
        type_map(r) == pairs_map(pairs@),
{
    let mut m = new_type_map();
    assert(type_map(m) =~= Map::<Seq<char>, ColumnType>::empty());
    assert(pairs_map(pairs@.take(0)) =~= Map::<Seq<char>, ColumnType>::empty());
    let mut i: usize = 0;
    while i < pairs.len()
        invariant
            i <= pairs.len(),
            type_map(m) == pairs_map(pairs@.take(i as int)),
        decreases pairs.len() - i,
    {
        assert(pairs@.take(i + 1).drop_last() =~= pairs@.take(i as int));
        let key = pairs[i].0.clone();
        type_map_insert(&mut m, key, pairs[i].1);
        i = i + 1;
    }
    assert(pairs@.take(pairs.len() as int) =~= pairs@);
    m
}

fn message(prefix: &str, detail: &String) -> (r: String)
    ensures
        r@ == prefix@ + detail@,
{
    let mut m = String::from_str(prefix);
    m.append(detail.as_str());
    m
}

impl MultiCsvImportDialog {
    /// A shown dialog without database path, files or error.
    pub fn new(id: Id) -> (r: Self)
        ensures
            r.id == id,
            r.show,
            r.database_path is None,
            r.csv_files@.len() == 0,
            r.error is None,
    {
        MultiCsvImportDialog { id, show: true, database_path: None, csv_files: Vec::new(), error: None }
    }

    /// Whether the database can be created: a path is chosen and some file
    /// is to be imported.
    pub fn can_create(&self) -> (r: bool)
        ensures
            r == (self.database_path is Some && self.csv_files@.len() > 0 && exists|i: int|
                0 <= i < self.csv_files@.len() && (#[trigger] self.csv_files@[i]).included),
    {
        if self.database_path.is_none() || self.csv_files.len() == 0 {
            return false;
        }
        let mut i: usize = 0;
        while i < self.csv_files.len()
            invariant
                i <= self.csv_files.len(),
                self.database_path is Some,
                self.csv_files@.len() > 0,
                forall|k: int| 0 <= k < i ==> !(#[trigger] self.csv_files@[k]).included,
            decreases self.csv_files.len() - i,
        {
            if self.csv_files[i].included {
                assert(self.csv_files@[i as int].included);
                return true;
            }
            i = i + 1;
        }
        false
    }

    /// Whether the dialog holds the file at `path` already. A file the
    /// dialog holds at this very path is always found; which other paths
    /// count as the same follows the platform's path rules.
    pub fn is_loaded(&self, path: &PathBuf) -> (r: bool)
        ensures
            (exists|i: int| 0 <= i < self.csv_files@.len() && (#[trigger] self.csv_files@[i]).path
                == *path) ==> r,
            self.csv_files@.len() == 0 ==> !r,
    {
        let mut i: usize = 0;
        while i < self.csv_files.len()
            invariant
                i <= self.csv_files.len(),
                forall|k: int| 0 <= k < i ==> (#[trigger] self.csv_files@[k]).path != *path,
            decreases self.csv_files.len() - i,
        {
            if paths_equal(&self.csv_files[i].path, path) {
                return true;
            }
            i = i + 1;
        }
        false
    }

    /// Adds a file from how loading it went, naming its table after the
    /// file's stem, or "table" without one. A file that could not be read
    /// adds nothing and the dialog says why.
    pub fn add_loaded_file(&mut self, path: PathBuf, stem: Option<String>, outcome: CsvLoadOutcome)
        ensures
            added_file(*old(self), *final(self), path, stem, outcome),
    {
        match outcome {
            CsvLoadOutcome::OpenFailed(e) => {
                self.error = Some(message("Failed to open CSV: ", &e));
            },
            CsvLoadOutcome::HeadersFailed(e) => {
                self.error = Some(message("Failed to read headers: ", &e));
            },
            CsvLoadOutcome::SampleFailed(e) => {
                self.error = Some(message("Failed to read sample data: ", &e));
            },
            CsvLoadOutcome::Loaded { headers, sample_data, column_types } => {
                let table_name = match stem {
                    Some(s) => s,
                    None => String::from_str("table"),
                };
                let flags = new_flag_map();
                assert(flag_map(flags) =~= Map::<Seq<char>, bool>::empty());
                let config = CsvFileConfig {
                    path,
                    table_name,
                    headers,
                    column_types: map_from_pairs(column_types),
                    sample_data,
                    create_indexes: flags,
                    included: true,
                };
                let ghost before = self.csv_files@;
                self.csv_files.push(config);
                assert(self.csv_files@.drop_last() =~= before);
            },
        }
    }

    /// Adds the file at `path` from how loading it went (see
    /// `add_loaded_file`), its table named after the file's stem, unless the
    /// dialog holds it already (see `is_loaded`). Gives whether it did hold
    /// it, in which case nothing changes.
    pub fn load_csv_file(&mut self, path: PathBuf, outcome: CsvLoadOutcome) -> (r: bool)
        ensures
            r ==> *final(self) == *old(self),
            !r ==> exists|stem: Option<String>|
                (stem matches Some(t) ==> plain_name(t@)) && #[trigger] added_file(
                    *old(self),
                    *final(self),
                    path,
                    stem,
                    outcome,
                ),
            (exists|i: int| 0 <= i < old(self).csv_files@.len() && (#[trigger] old(
                self,
            ).csv_files@[i]).path == path) ==> r,
            old(self).csv_files@.len() == 0 ==> !r,
    {
        if self.is_loaded(&path) {
            return true;
        }
        let stem = path_stem_text(&path);
        self.add_loaded_file(path, stem, outcome);
        false
    }

    /// Removes every file.
    pub fn clear_all(&mut self)
        ensures
            final(self).csv_files@.len() == 0,
            *final(self) == (MultiCsvImportDialog { csv_files: final(self).csv_files, ..*old(self) }),
    {
        self.csv_files = Vec::new();
    }

    /// The columns file `index` is created with: each header, in order, with
    /// the type the file's map holds for it, text when it holds none.
    pub fn table_columns(&self, index: usize) -> (r: Vec<(String, ColumnType)>)
        requires
            index < self.csv_files@.len(),
        ensures
            columns_of(
                self.csv_files@[index as int].headers@,
                type_map(self.csv_files@[index as int].column_types),
                r@,
            ),
    {
        let f = &self.csv_files[index];
        let mut cols: Vec<(String, ColumnType)> = Vec::new();
        let mut i: usize = 0;
        while i < f.headers.len()
            invariant
                i <= f.headers.len(),
                cols@.len() == i,
                forall|k: int|
                    0 <= k < i ==> (#[trigger] cols@[k]).0@ == f.headers@[k]@ && cols@[k].1
                        == type_or_text(type_map(f.column_types), f.headers@[k]@),
            decreases f.headers.len() - i,
        {
            let t = match type_map_get(&f.column_types, &f.headers[i]) {
                Some(t) => t,
                None => ColumnType::Text,
            };
            cols.push((f.headers[i].clone(), t));
            i = i + 1;
        }
        cols
    }

    /// The user picked type `t` for column `header` of file `index`: a
    /// column with a detected type takes it; nothing else changes.
    pub fn override_column_type(&mut self, index: usize, header: &String, t: ColumnType)
        requires
            index < old(self).csv_files@.len(),
        ensures
            ({
                let f = old(self).csv_files@[index as int];
                let g = final(self).csv_files@[index as int];
                &&& type_map(g.column_types) == if type_map(f.column_types).dom().contains(
                    header@,
                ) {
                    type_map(f.column_types).insert(header@, t)
                } else {
                    type_map(f.column_types)
                }
                &&& files_but(
                    final(self).csv_files@,
                    old(self).csv_files@,
                    index as int,
                    (CsvFileConfig { column_types: g.column_types, ..f }),
                )
            }),
            *final(self) == (MultiCsvImportDialog { csv_files: final(self).csv_files, ..*old(self) }),
    {
        let ghost before = self.csv_files@;
        let mut files: Vec<CsvFileConfig> = Vec::new();
        std::mem::swap(&mut files, &mut self.csv_files);
        assert(files@ == before);
        let mut f = files.remove(index);
        match type_map_get(&f.column_types, header) {
            Some(detected) => {
                if detected != t {
                    type_map_insert(&mut f.column_types, header.clone(), t);
                } else {
                    assert(type_map(f.column_types).insert(header@, t) =~= type_map(f.column_types));
                }
            },
            None => {},
        }
        files.insert(index, f);
        assert(files@ =~= before.update(index as int, files@[index as int]));
        self.csv_files = files;
    }

    /// Sets whether an index is created on column `header` of file `index`;
    /// nothing else changes.
    pub fn set_create_index(&mut self, index: usize, header: &String, create: bool)
        requires
            index < old(self).csv_files@.len(),
        ensures
            ({
                let f = old(self).csv_files@[index as int];
                let g = final(self).csv_files@[index as int];
                &&& flag_map(g.create_indexes) == flag_map(f.create_indexes).insert(header@, create)
                &&& files_but(
                    final(self).csv_files@,
                    old(self).csv_files@,
                    index as int,
                    (CsvFileConfig { create_indexes: g.create_indexes, ..f }),
                )
            }),
            *final(self) == (MultiCsvImportDialog { csv_files: final(self).csv_files, ..*old(self) }),
    {
        let ghost before = self.csv_files@;
        let mut files: Vec<CsvFileConfig> = Vec::new();
        std::mem::swap(&mut files, &mut self.csv_files);
        assert(files@ == before);
        let mut f = files.remove(index);
        flag_map_insert(&mut f.create_indexes, header.clone(), create);
        files.insert(index, f);
        assert(files@ =~= before.update(index as int, files@[index as int]));
        self.csv_files = files;
    }

    /// What creating the database takes: its path and, for each file to
    /// import in order, the table to create; nothing without a path.
    pub fn database_plan(&self) -> (r: Option<(PathBuf, Vec<TablePlan>)>)
        ensures
            self.database_path is None ==> r is None,
            self.database_path matches Some(p) ==> (r matches Some((q, plans)) && q == p && {
                let inc = included_files(self.csv_files@);
                &&& plans@.len() == inc.len()
                &&& forall|k: int|
                    0 <= k < plans@.len() ==> plans_table(
                        #[trigger] plans@[k],
                        self.csv_files@[inc[k]],
                    )
            }),
    {
        let db = match &self.database_path {
            Some(p) => clone_path(p),
            None => {
                return None;
            },
        };
        let ghost files = self.csv_files@;
        let mut plans: Vec<TablePlan> = Vec::new();
        let mut i: usize = 0;
        while i < self.csv_files.len()
            invariant
                i <= self.csv_files.len(),
                files == self.csv_files@,
                plans@.len() == included_files(files.take(i as int)).len(),
                forall|k: int|
                    0 <= k < plans@.len() ==> plans_table(
                        #[trigger] plans@[k],
                        files[included_files(files.take(i as int))[k]],
                    ),
            decreases self.csv_files.len() - i,
        {
            assert(files.take(i + 1).drop_last() =~= files.take(i as int));
            proof {
                lemma_included_bounds(files.take(i as int));
            }
            if self.csv_files[i].included {
                let f = &self.csv_files[i];
                let plan = TablePlan {
                    table_name: f.table_name.clone(),
                    columns: self.table_columns(i),
                    path: clone_path(&f.path),
                };
                plans.push(plan);
            }
            assert forall|k: int|
                0 <= k < plans@.len() implies plans_table(
                #[trigger] plans@[k],
                files[included_files(files.take(i + 1))[k]],
            ) by {
                let inc = included_files(files.take(i as int));
                if k < inc.len() {
                    assert(0 <= inc[k] < i);
                    assert(files.take(i as int)[inc[k]] == files[inc[k]]);
                }
            }
            i = i + 1;
        }
        assert(files.take(self.csv_files.len() as int) =~= files);
        Some((db, plans))
    }

    /// Ends creating the database with how it went: on success the dialog
    /// closes and gives the database's path; otherwise it says what failed.
    pub fn finish_database(&mut self, outcome: DatabaseOutcome) -> (r: Option<PathBuf>)
        ensures
            *final(self) == (MultiCsvImportDialog {
                show: final(self).show,
                error: final(self).error,
                ..*old(self)
            }),
            match outcome {
                DatabaseOutcome::Created(p) => {
                    &&& r == Some(p)
                    &&& !final(self).show
                    &&& final(self).error == old(self).error
                },
                DatabaseOutcome::OpenFailed(e) => {
                    &&& r is None
                    &&& final(self).show == old(self).show
                    &&& final(self).error matches Some(m) && m@ == "Failed to create database: "@ + e@
                },
                DatabaseOutcome::TableFailed { table, error } => {
                    &&& r is None
                    &&& final(self).show == old(self).show
                    &&& final(self).error matches Some(m) && m@ == "Failed to create table "@ + table@
                        + ": "@ + error@
                },
                DatabaseOutcome::BeginFailed(e) => {
                    &&& r is None
                    &&& final(self).show == old(self).show
                    &&& final(self).error matches Some(m) && m@ == "Failed to begin transaction: "@
                        + e@
                },
                DatabaseOutcome::InsertFailed(e) => {
                    &&& r is None
                    &&& final(self).show == old(self).show
                    &&& final(self).error matches Some(m) && m@ == "Failed to insert record: "@ + e@
                },
                DatabaseOutcome::CommitFailed(e) => {
                    &&& r is None
                    &&& final(self).show == old(self).show
                    &&& final(self).error matches Some(m) && m@ == "Failed to commit transaction: "@
                        + e@
                },
            },
    {
        match outcome {
            DatabaseOutcome::Created(p) => {
                self.show = false;
                Some(p)
            },
            DatabaseOutcome::OpenFailed(e) => {
                self.error = Some(message("Failed to create database: ", &e));
                None
            },
            DatabaseOutcome::TableFailed { table, error } => {
                let mut m = message("Failed to create table ", &table);
                m.append(": ");
                m.append(error.as_str());
                self.error = Some(m);
                None
            },
            DatabaseOutcome::BeginFailed(e) => {
                self.error = Some(message("Failed to begin transaction: ", &e));
                None
            },
            DatabaseOutcome::InsertFailed(e) => {
                self.error = Some(message("Failed to insert record: ", &e));
                None
            },
            DatabaseOutcome::CommitFailed(e) => {
                self.error = Some(message("Failed to commit transaction: ", &e));
                None
            },
        }
    }

    /// The user closed the dialog.
    pub fn cancel(&mut self)
        ensures
            !final(self).show,
            *final(self) == (MultiCsvImportDialog { show: final(self).show, ..*old(self) }),
    {
        self.show = false;
    }
}

} // verus!
