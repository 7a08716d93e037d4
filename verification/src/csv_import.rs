//! The single-file CSV import dialog.

use vstd::prelude::*;
use std::path::PathBuf;
use egui::Id;
use crate::file_config::{ColumnType, name_or};

verus! {

/// Calls `Path::file_stem` and turns the stem into text with
/// `OsStr::to_string_lossy`. How a path splits into components depends on
/// the platform, so the contract states only what holds of every outcome: a
/// stem is never empty and holds no `/`.
#[verifier::external_body]
fn path_file_stem_lossy(path: &PathBuf) -> (r: Option<String>)
    ensures
        r matches Some(s) ==> s@.len() > 0 && !s@.contains('/'),
{
    match path.file_stem() {
        Some(s) => Some(s.to_string_lossy().to_string()),
        None => None,
    }
}

/// How one column of the file is imported.
pub struct ColumnConfig {
    pub name: String,
    pub data_type: ColumnType,
    pub is_primary_key: bool,
    pub is_not_null: bool,
    pub is_unique: bool,
    pub create_index: bool,
}

/// The dialog importing one CSV file into a table.
pub struct CsvImportDialog {
    pub id: Id,
    pub csv_path: Option<PathBuf>,
    pub table_name: String,
    pub has_headers: bool,
    pub skip_rows: usize,
    pub delimiter: char,
    pub column_configs: Vec<ColumnConfig>,
    pub is_importing: bool,
    pub error: Option<String>,
}

/// The single text column offered for a file before it is analysed further.
pub open spec fn placeholder_columns(cols: Seq<ColumnConfig>) -> bool {
    &&& cols.len() == 1
    &&& cols[0].name@ == "column1"@
    &&& cols[0].data_type == ColumnType::Text
    &&& !cols[0].is_primary_key
    &&& !cols[0].is_not_null
    &&& !cols[0].is_unique
    &&& !cols[0].create_index
}

impl CsvImportDialog {
    /// A dialog without a file: headers expected, no rows skipped, commas.
    pub fn new(id: Id) -> (r: Self)
        ensures
            r.id == id,
            r.csv_path is None,
            r.table_name@.len() == 0,
            r.has_headers,
            r.skip_rows == 0,
            r.delimiter == ',',
            r.column_configs@.len() == 0,
            !r.is_importing,
            r.error is None,
    {
        CsvImportDialog {
            id,
            csv_path: None,
            table_name: String::new(),
            has_headers: true,
            skip_rows: 0,
            delimiter: ',',
            column_configs: Vec::new(),
            is_importing: false,
            error: None,
        }
    }

    /// The user picked a file: it is analysed.
    pub fn select_file(&mut self, path: PathBuf)
        ensures
            final(self).csv_path == Some(path),
            placeholder_columns(final(self).column_configs@),
            old(self).table_name@.len() > 0 ==> final(self).table_name == old(self).table_name,
            old(self).table_name@.len() == 0 ==> final(self).table_name@.len() == 0 || (
            final(self).table_name@.len() > 0 && !final(self).table_name@.contains('/')),
            *final(self) == (CsvImportDialog {
                csv_path: final(self).csv_path,
                column_configs: final(self).column_configs,
                table_name: final(self).table_name,
                ..*old(self)
            }),
    {
        self.csv_path = Some(path);
        self.analyze_csv();
    }

    /// Offers a single text column for the chosen file and, when the table
    /// has no name yet, names it after the file's stem (see
    /// `name_from_stem`). Nothing happens without a file.
    pub fn analyze_csv(&mut self)
        ensures
            old(self).csv_path is None ==> *final(self) == *old(self),
            old(self).csv_path is Some ==> {
                &&& placeholder_columns(final(self).column_configs@)
                &&& old(self).table_name@.len() > 0 ==> final(self).table_name
                    == old(self).table_name
                &&& old(self).table_name@.len() == 0 ==> final(self).table_name@.len() == 0 || (
                final(self).table_name@.len() > 0 && !final(self).table_name@.contains('/'))
                &&& *final(self) == (CsvImportDialog {
                    column_configs: final(self).column_configs,
                    table_name: final(self).table_name,
                    ..*old(self)
                })
            },
    {
        let stem = match &self.csv_path {
            None => {
                return;
            },
            Some(path) => path_file_stem_lossy(path),
        };
        let mut cols: Vec<ColumnConfig> = Vec::new();
        cols.push(
            ColumnConfig {
                name: String::from_str("column1"),
                data_type: ColumnType::Text,
                is_primary_key: false,
                is_not_null: false,
                is_unique: false,
                create_index: false,
            },
        );
        self.column_configs = cols;
        self.name_from_stem(stem);
        proof {
            reveal_strlit("");
        }
    }

    /// Names a table that has no name yet after the file's stem, when the
    /// file has one; changes nothing else.
    pub fn name_from_stem(&mut self, stem: Option<String>)
        ensures
            final(self).table_name@ == if old(self).table_name@.len() == 0 {
                name_or(stem, ""@)
            } else {
                old(self).table_name@
            },
            old(self).table_name@.len() > 0 ==> final(self).table_name == old(self).table_name,
            *final(self) == (CsvImportDialog { table_name: final(self).table_name, ..*old(self) }),
    {
        proof {
            reveal_strlit("");
        }
        if self.table_name.as_str().is_empty() {
            match stem {
                Some(s) => {
                    self.table_name = s;
                },
                None => {},
            }
        }
    }

    /// Whether the import can start: a file is chosen and the table named.
    pub fn can_import(&self) -> (r: bool)
        ensures
            r == (self.table_name@.len() > 0 && self.csv_path is Some),
    {
        !self.table_name.as_str().is_empty() && self.csv_path.is_some()
    }

    /// Importing is not connected to a database here: the dialog says so.
    pub fn import_to_database(&mut self)
        ensures
            final(self).error matches Some(m) && m@
                == "Import functionality needs to be connected to the app's database"@,
            *final(self) == (CsvImportDialog { error: final(self).error, ..*old(self) }),
    {
        self.error = Some(
            String::from_str("Import functionality needs to be connected to the app's database"),
        );
    }

    /// The user cancelled the import.
    pub fn cancel(&mut self)
        ensures
            final(self).error matches Some(m) && m@ == "Import cancelled"@,
            *final(self) == (CsvImportDialog { error: final(self).error, ..*old(self) }),
    {
        self.error = Some(String::from_str("Import cancelled"));
    }

    /// Sets how many leading rows are skipped, at most a hundred.
    pub fn set_skip_rows(&mut self, rows: usize)
        ensures
            final(self).skip_rows == if rows > 100 {
                100
            } else {
                rows
            },
            *final(self) == (CsvImportDialog { skip_rows: final(self).skip_rows, ..*old(self) }),
    {
        self.skip_rows = if rows > 100 {
            100
        } else {
            rows
        };
    }
}

} // verus!
