//! Exporting a query result: the export dialog's state, the file extension
//! of each format, and the JSON text of the result's rows.

use vstd::prelude::*;
use egui::Id;
use crate::query::QueryResult;
use crate::plot_window::texts;

verus! {

#[verifier::external_type_specification]
#[verifier::external_body]
pub struct ExId(Id);

/// The formats a result can be exported in.
#[derive(Debug, Clone, Copy, PartialEq, Eq, Structural)]
pub enum ExportFormat {
    Csv,
    Json,
}

/// The text `serde_json::to_string_pretty` gives for a list of JSON
/// objects, each built from (key, string value) pairs.
pub uninterp spec fn pretty_json_records(records: Seq<Seq<(Seq<char>, Seq<char>)>>) -> Seq<char>;

/// Calls `serde_json::to_string_pretty` on the records, each turned into a
/// `serde_json::Map` holding its pairs as string values. The text is named
/// `pretty_json_records`; nothing is stated of its layout, of the order of
/// the keys or of what a repeated key keeps. serde_json documents that
/// serialisation fails only when a `Serialize` implementation decides to fail
/// or a map has keys that are not strings; these maps have string keys and
/// string values, and the text is written into memory, so the result is
/// always `Some`.
#[verifier::external_body]
fn records_to_pretty_json(records: &Vec<Vec<(String, String)>>) -> (r: Option<String>)
    ensures
        r is Some,
        r matches Some(t) ==> t@ == pretty_json_records(records.deep_view()),
{
    let mut objects: Vec<serde_json::Map<String, serde_json::Value>> = Vec::new();
    for record in records {
        let mut map = serde_json::Map::new();
        for (key, value) in record {
            map.insert(key.clone(), serde_json::Value::String(value.clone()));
        }
        objects.push(map);
    }
    serde_json::to_string_pretty(&objects).ok()
}

/// The file extension of a format.
pub open spec fn extension_of(format: ExportFormat) -> Seq<char> {
    match format {
        ExportFormat::Csv => "csv"@,
        ExportFormat::Json => "json"@,
    }
}

/// The (column, value) pairs of a row, for as many cells as have a column.
pub open spec fn row_record(columns: Seq<Seq<char>>, row: Seq<Seq<char>>) -> Seq<(Seq<char>, Seq<char>)> {
    let n = if row.len() < columns.len() {
        row.len()
    } else {
        columns.len()
    };
    Seq::new(n, |i: int| (columns[i], row[i]))
}

/// The records of a result's rows, in order.
pub open spec fn result_records(result: QueryResult) -> Seq<Seq<(Seq<char>, Seq<char>)>> {
    Seq::new(
        result.rows@.len(),
        |r: int| row_record(texts(result.columns@), texts(result.rows@[r]@)),
    )
}

/// The dialog exporting one query result.
pub struct ExportDialog {
    id: Id,
    result: QueryResult,
    export_format: ExportFormat,
    show: bool,
}

fn record_of(columns: &Vec<String>, row: &Vec<String>) -> (r: Vec<(String, String)>)
    ensures
        r.deep_view() == row_record(texts(columns@), texts(row@)),
{
    let mut out: Vec<(String, String)> = Vec::new();
    let mut i: usize = 0;
    while i < row.len() && i < columns.len()
        invariant
            i <= row.len(),
            i <= columns.len(),
            out@.len() == i,
            forall|k: int|
                0 <= k < i ==> (#[trigger] out@[k]).0@ == columns@[k]@ && out@[k].1@ == row@[k]@,
        decreases row.len() - i,
    {
        out.push((columns[i].clone(), row[i].clone()));
        i = i + 1;
    }
    assert(out.deep_view() =~= row_record(texts(columns@), texts(row@)));
    out
}

impl ExportDialog {
    /// A shown dialog exporting `result` as CSV.
    pub fn new(id: Id, result: QueryResult) -> (r: Self)
        ensures
            r.id() == id,
            r.result() == result,
            r.format() == ExportFormat::Csv,
            r.is_shown(),
    {
        ExportDialog { id, result, export_format: ExportFormat::Csv, show: true }
    }

    pub closed spec fn id(&self) -> Id {
        self.id
    }

    pub closed spec fn result(&self) -> QueryResult {
        self.result
    }

    pub closed spec fn format(&self) -> ExportFormat {
        self.export_format
    }

    pub closed spec fn is_shown(&self) -> bool {
        self.show
    }

    /// The format chosen.
    pub fn export_format(&self) -> (r: ExportFormat)
        ensures
            r == self.format(),
    {
        self.export_format
    }

    /// Whether the dialog is shown.
    pub fn shown(&self) -> (r: bool)
        ensures
            r == self.is_shown(),
    {
        self.show
    }

    /// The user picked a format.
    pub fn select_format(&mut self, format: ExportFormat)
        ensures
            final(self).format() == format,
            final(self).is_shown() == old(self).is_shown(),
            final(self).result() == old(self).result(),
            final(self).id() == old(self).id(),
    {
        self.export_format = format;
    }

    /// The user asked to export: the dialog closes, and the result is the
    /// format to export in.
    pub fn export_clicked(&mut self) -> (r: ExportFormat)
        ensures
            r == old(self).format(),
            !final(self).is_shown(),
            final(self).format() == old(self).format(),
            final(self).result() == old(self).result(),
            final(self).id() == old(self).id(),
    {
        self.show = false;
        self.export_format
    }

    /// The user cancelled: the dialog closes.
    pub fn cancel(&mut self)
        ensures
            !final(self).is_shown(),
            final(self).format() == old(self).format(),
            final(self).result() == old(self).result(),
            final(self).id() == old(self).id(),
    {
        self.show = false;
    }

    /// Whether the dialog stays open after a frame in which its window was
    /// `kept_open`.
    pub fn stays_open(&self, kept_open: bool) -> (r: bool)
        ensures
            r == (kept_open && self.is_shown()),
    {
        kept_open && self.show
    }

    /// The file extension of the chosen format.
    pub fn extension(&self) -> (r: &'static str)
        ensures
            r@ == extension_of(self.format()),
    {
        match self.export_format {
            ExportFormat::Csv => "csv",
            ExportFormat::Json => "json",
        }
    }

    /// The rows as JSON records: each cell paired with the name of its
    /// column, the cells without a column left out.
    pub fn json_records(&self) -> (r: Vec<Vec<(String, String)>>)
        ensures
            r.deep_view() == result_records(self.result()),
    {
        let mut out: Vec<Vec<(String, String)>> = Vec::new();
        let mut i: usize = 0;
        while i < self.result.rows.len()
            invariant
                i <= self.result.rows.len(),
                out@.len() == i,
                forall|k: int|
                    0 <= k < i ==> (#[trigger] out@[k]).deep_view() == row_record(
                        texts(self.result.columns@),
                        texts(self.result.rows@[k]@),
                    ),
            decreases self.result.rows.len() - i,
        {
            let rec = record_of(&self.result.columns, &self.result.rows[i]);
            out.push(rec);
            i = i + 1;
        }
        assert(out.deep_view() =~= result_records(self.result));
        out
    }

    /// The JSON text of the rows' records, pretty printed; always given.
    pub fn export_json_text(&self) -> (r: Option<String>)
        ensures
            r is Some,
            r matches Some(t) ==> t@ == pretty_json_records(result_records(self.result())),
    {
        let records = self.json_records();
        records_to_pretty_json(&records)
    }
}

} // verus!
