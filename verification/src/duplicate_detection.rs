//! The duplicate block detection dialog: its configuration, the decisions
//! around a detection run, and the messages it shows.

use vstd::prelude::*;
use crate::query::{ColumnInfo, TableInfo};
use crate::plot_window::texts;
use crate::text::{decimal, push_decimal};
use crate::data_transformation::{toggle_selection, toggled, message_is};

verus! {

/// What a duplicate block detection compares and how.
pub struct DuplicateDetectionConfig {
    pub group_column: String,
    pub ignore_columns: Vec<String>,
    pub block_size: usize,
    pub null_equals_null: bool,
}

/// A block of rows found more than once within a group.
pub struct DuplicateBlock {
    pub block_hash: u64,
    pub group_id: String,
    pub block_size: usize,
    pub row_indices: Vec<Vec<usize>>,
}

/// Counters of a detection run.
pub struct DetectionStats {
    pub groups_processed: usize,
    pub blocks_analyzed: usize,
    pub unique_blocks: usize,
}

/// What a detection run found.
pub struct DuplicateDetectionResult {
    pub duplicate_blocks: Vec<DuplicateBlock>,
    pub total_duplicates: usize,
    pub total_duplicate_rows: usize,
    pub stats: DetectionStats,
}

/// How loading the table and running the detector on it went.
pub enum DetectionOutcome {
    LoadFailed(String),
    DetectionFailed(String),
    Detected(DuplicateDetectionResult),
}

/// How loading the table and writing the file without duplicates went.
pub enum CleanFileOutcome {
    LoadFailed(String),
    CreateFailed(String),
    /// The file was written at `path`, keeping `kept_rows` of the table's
    /// `total_rows` rows.
    Created { path: String, kept_rows: usize, total_rows: usize },
}

/// The state of the duplicate detection dialog.
pub struct DuplicateDetectionDialog {
    pub visible: bool,
    pub selected_group_column: String,
    pub available_columns: Vec<String>,
    /// A set: no column occurs twice.
    pub ignore_columns: Vec<String>,
    pub block_size: usize,
    pub null_equals_null: bool,
    pub detection_result: Option<DuplicateDetectionResult>,
    pub is_detecting: bool,
    pub error_message: Option<String>,
    pub show_results: bool,
    pub output_directory: String,
    pub success_message: Option<String>,
    pub show_success: bool,
}

/// The smallest and largest block sizes the dialog accepts.
pub const MIN_BLOCK_SIZE: usize = 1;
pub const MAX_BLOCK_SIZE: usize = 1000;

/// The block size the dialog keeps for a requested one.
pub open spec fn clamped_block_size(size: usize) -> usize {
    if size < MIN_BLOCK_SIZE {
        MIN_BLOCK_SIZE
    } else if size > MAX_BLOCK_SIZE {
        MAX_BLOCK_SIZE
    } else {
        size
    }
}

/// The dialog always keeps a block size between one and a thousand rows,
/// and keeps an accepted size as it is.
pub proof fn law_block_size_in_range(size: usize)
    ensures
        MIN_BLOCK_SIZE <= clamped_block_size(size) <= MAX_BLOCK_SIZE,
        clamped_block_size(clamped_block_size(size)) == clamped_block_size(size),
        MIN_BLOCK_SIZE <= size <= MAX_BLOCK_SIZE ==> clamped_block_size(size) == size,
{
}

/// The tables the database listed; none when it could not list them.
pub open spec fn listed(tables: Result<Vec<TableInfo>, String>) -> Seq<TableInfo> {
    match tables {
        Ok(t) => t@,
        Err(_) => Seq::empty(),
    }
}

/// The configuration that the dialog `d` describes.
pub open spec fn config_of(c: DuplicateDetectionConfig, d: DuplicateDetectionDialog) -> bool {
    &&& c.group_column@ == d.selected_group_column@
    &&& texts(c.ignore_columns@) == texts(d.ignore_columns@)
    &&& c.block_size == d.block_size
    &&& c.null_equals_null == d.null_equals_null
}

/// The message shown after a clean file was written.
pub open spec fn created_message(path: Seq<char>, kept: nat, removed: nat) -> Seq<char> {
    "✅ Created clean Arrow file: "@ + path + "\nKept "@ + decimal(kept) + " rows, removed "@
        + decimal(removed) + " duplicate rows"@
}

/// The texts of `s` other than `x`, in order.
pub open spec fn all_but(s: Seq<Seq<char>>, x: Seq<char>) -> Seq<Seq<char>> {
    s.filter(|c: Seq<char>| c != x)
}

/// The names of a table's columns, in order.
pub open spec fn column_names(t: TableInfo) -> Seq<Seq<char>> {
    t.columns@.map_values(|c: ColumnInfo| c.name@)
}

/// The title of the `index`-th block (counted from zero) in the results.
pub open spec fn block_title_text(index: nat, block: DuplicateBlock) -> Seq<char> {
    "Block "@ + decimal(index + 1) + " (Group: "@ + block.group_id@ + ", "@ + decimal(
        block.row_indices@.len(),
    ) + " occurrences)"@
}

fn copy_strings(v: &Vec<String>) -> (r: Vec<String>)
    ensures
        texts(r@) == texts(v@),
{
    let r = v.clone();
    assert(texts(r@) =~= texts(v@));
    r
}

fn message(prefix: &str, detail: &String) -> (r: String)
    ensures
        r@ == prefix@ + detail@,
{
    let mut m = String::from_str(prefix);
    m.append(detail.as_str());
    m
}

/// The block size the dialog keeps when the user types `size`: at least one
/// row and at most a thousand.
pub fn clamp_block_size(size: usize) -> (r: usize)
    ensures
        r == clamped_block_size(size),
{
    if size < MIN_BLOCK_SIZE {
        MIN_BLOCK_SIZE
    } else if size > MAX_BLOCK_SIZE {
        MAX_BLOCK_SIZE
    } else {
        size
    }
}

/// The rows of every occurrence after the first, in order.
pub open spec fn later_occurrences(occurrences: Seq<Vec<usize>>) -> Seq<usize>
    decreases occurrences.len(),
{
    if occurrences.len() <= 1 {
        Seq::empty()
    } else {
        later_occurrences(occurrences.drop_last()) + occurrences.last()@
    }
}

/// The rows that removing duplicate blocks deletes: block by block, the rows
/// of each occurrence after the first.
pub open spec fn rows_to_remove(blocks: Seq<DuplicateBlock>) -> Seq<usize>
    decreases blocks.len(),
{
    if blocks.len() == 0 {
        Seq::empty()
    } else {
        rows_to_remove(blocks.drop_last()) + later_occurrences(blocks.last().row_indices@)
    }
}

proof fn lemma_concat_contains(a: Seq<usize>, b: Seq<usize>, x: usize)
    ensures
        (a + b).contains(x) <==> a.contains(x) || b.contains(x),
{
    if (a + b).contains(x) {
        let i = choose|i: int| 0 <= i < (a + b).len() && (a + b)[i] == x;
        if i < a.len() {
            assert(a[i] == x);
        } else {
            assert(b[i - a.len()] == x);
        }
    }
    if a.contains(x) {
        let i = choose|i: int| 0 <= i < a.len() && a[i] == x;
        assert((a + b)[i] == x);
    }
    if b.contains(x) {
        let i = choose|i: int| 0 <= i < b.len() && b[i] == x;
        assert((a + b)[a.len() + i] == x);
    }
}

proof fn lemma_later_occurrences(occ: Seq<Vec<usize>>, x: usize)
    ensures
        later_occurrences(occ).contains(x) <==> exists|k: int|
            1 <= k < occ.len() && (#[trigger] occ[k])@.contains(x),
    decreases occ.len(),
{
    if occ.len() > 1 {
        let d = occ.drop_last();
        lemma_later_occurrences(d, x);
        lemma_concat_contains(later_occurrences(d), occ.last()@, x);
        if exists|k: int| 1 <= k < occ.len() && (#[trigger] occ[k])@.contains(x) {
            let k = choose|k: int| 1 <= k < occ.len() && (#[trigger] occ[k])@.contains(x);
            if k < occ.len() - 1 {
                assert(d[k] == occ[k]);
            }
        }
        if exists|k: int| 1 <= k < d.len() && (#[trigger] d[k])@.contains(x) {
            let k = choose|k: int| 1 <= k < d.len() && (#[trigger] d[k])@.contains(x);
            assert(occ[k] == d[k]);
        }
        if occ.last()@.contains(x) {
            assert(occ[occ.len() - 1]@.contains(x));
        }
    }
}

proof fn lemma_rows_to_remove(blocks: Seq<DuplicateBlock>, x: usize)
    ensures
        rows_to_remove(blocks).contains(x) <==> exists|b: int, k: int|
            0 <= b < blocks.len() && 1 <= k < blocks[b].row_indices@.len()
                && (#[trigger] blocks[b].row_indices@[k])@.contains(x),
    decreases blocks.len(),
{
    if blocks.len() > 0 {
        let d = blocks.drop_last();
        let last = blocks.last();
        lemma_rows_to_remove(d, x);
        lemma_later_occurrences(last.row_indices@, x);
        lemma_concat_contains(rows_to_remove(d), later_occurrences(last.row_indices@), x);
        if exists|b: int, k: int|
            0 <= b < blocks.len() && 1 <= k < blocks[b].row_indices@.len()
                && (#[trigger] blocks[b].row_indices@[k])@.contains(x) {
            let (b, k) = choose|b: int, k: int|
                0 <= b < blocks.len() && 1 <= k < blocks[b].row_indices@.len()
                    && (#[trigger] blocks[b].row_indices@[k])@.contains(x);
            if b < blocks.len() - 1 {
                assert(d[b] == blocks[b]);
                assert(d[b].row_indices@[k]@.contains(x));
            } else {
                assert(last.row_indices@[k]@.contains(x));
            }
        }
        if exists|b: int, k: int|
            0 <= b < d.len() && 1 <= k < d[b].row_indices@.len()
                && (#[trigger] d[b].row_indices@[k])@.contains(x) {
            let (b, k) = choose|b: int, k: int|
                0 <= b < d.len() && 1 <= k < d[b].row_indices@.len()
                    && (#[trigger] d[b].row_indices@[k])@.contains(x);
            assert(blocks[b] == d[b]);
            assert(blocks[b].row_indices@[k]@.contains(x));
        }
        if later_occurrences(last.row_indices@).contains(x) {
            let k = choose|k: int|
                1 <= k < last.row_indices@.len() && (#[trigger] last.row_indices@[k])@.contains(x);
            assert(blocks[blocks.len() - 1].row_indices@[k]@.contains(x));
        }
    }
}

/// No row lies in two different occurrences of the blocks.
pub open spec fn occurrences_disjoint(blocks: Seq<DuplicateBlock>) -> bool {
    forall|b1: int, k1: int, b2: int, k2: int, x: usize|
        0 <= b1 < blocks.len() && 0 <= k1 < blocks[b1].row_indices@.len() && 0 <= b2
            < blocks.len() && 0 <= k2 < blocks[b2].row_indices@.len() && (b1 != b2 || k1 != k2)
            && #[trigger] blocks[b1].row_indices@[k1]@.contains(x)
            && #[trigger] blocks[b2].row_indices@[k2]@.contains(x) ==> false
}

/// Removing duplicates deletes every row of every occurrence of a block
/// after its first, and, where no row lies in two occurrences, none of the
/// first occurrence: one copy of each duplicate block stays.
pub proof fn law_removal_keeps_one_occurrence(blocks: Seq<DuplicateBlock>, b: int, k: int, x: usize)
    requires
        0 <= b < blocks.len(),
        0 <= k < blocks[b].row_indices@.len(),
        blocks[b].row_indices@[k]@.contains(x),
    ensures
        k >= 1 ==> rows_to_remove(blocks).contains(x),
        k == 0 && occurrences_disjoint(blocks) ==> !rows_to_remove(blocks).contains(x),
{
    lemma_rows_to_remove(blocks, x);
    if k == 0 && occurrences_disjoint(blocks) && rows_to_remove(blocks).contains(x) {
        let (b2, k2) = choose|b2: int, k2: int|
            0 <= b2 < blocks.len() && 1 <= k2 < blocks[b2].row_indices@.len()
                && (#[trigger] blocks[b2].row_indices@[k2])@.contains(x);
        assert(blocks[b].row_indices@[k]@.contains(x) && blocks[b2].row_indices@[k2]@.contains(x));
    }
}

fn append_rows(out: &mut Vec<usize>, rows: &Vec<usize>)
    ensures
        final(out)@ == old(out)@ + rows@,
{
    let ghost start = out@;
    let mut k: usize = 0;
    while k < rows.len()
        invariant
            k <= rows.len(),
            out@ == start + rows@.take(k as int),
        decreases rows.len() - k,
    {
        out.push(rows[k]);
        assert(rows@.take(k + 1) =~= rows@.take(k as int).push(rows@[k as int]));
        k = k + 1;
    }
    assert(rows@.take(rows.len() as int) =~= rows@);
}

fn removal_rows(blocks: &Vec<DuplicateBlock>) -> (r: Vec<usize>)
    ensures
        r@ == rows_to_remove(blocks@),
{
    let mut out: Vec<usize> = Vec::new();
    let mut i: usize = 0;
    while i < blocks.len()
        invariant
            i <= blocks.len(),
            out@ == rows_to_remove(blocks@.take(i as int)),
        decreases blocks.len() - i,
    {
        let occ = &blocks[i].row_indices;
        assert(blocks@.take(i + 1).drop_last() =~= blocks@.take(i as int));
        let ghost base = out@;
        if occ.len() > 1 {
            let mut k: usize = 1;
            assert(later_occurrences(occ@.take(1)) =~= Seq::<usize>::empty());
            assert(out@ =~= base + later_occurrences(occ@.take(1)));
            while k < occ.len()
                invariant
                    1 <= k <= occ.len(),
                    out@ == base + later_occurrences(occ@.take(k as int)),
                decreases occ.len() - k,
            {
                assert(occ@.take(k + 1).drop_last() =~= occ@.take(k as int));
                append_rows(&mut out, &occ[k]);
                assert(out@ =~= base + later_occurrences(occ@.take(k + 1)));
                k = k + 1;
            }
            assert(occ@.take(occ.len() as int) =~= occ@);
        } else {
            assert(out@ =~= base + later_occurrences(occ@));
        }
        assert(blocks@.take(i + 1).last() == blocks@[i as int]);
        i = i + 1;
    }
    assert(blocks@.take(blocks.len() as int) =~= blocks@);
    out
}

impl DuplicateDetectionDialog {
    /// A closed dialog writing clean files into `output_directory`, with
    /// blocks of 256 rows and null values treated as equal.
    pub fn new(output_directory: String) -> (r: Self)
        ensures
            !r.visible,
            r.selected_group_column@.len() == 0,
            r.available_columns@.len() == 0,
            r.ignore_columns@.len() == 0,
            r.block_size == 256,
            r.null_equals_null,
            r.detection_result is None,
            !r.is_detecting,
            r.error_message is None,
            !r.show_results,
            r.output_directory == output_directory,
            r.success_message is None,
            !r.show_success,
    {
        DuplicateDetectionDialog {
            visible: false,
            selected_group_column: String::new(),
            available_columns: Vec::new(),
            ignore_columns: Vec::new(),
            block_size: 256,
            null_equals_null: true,
            detection_result: None,
            is_detecting: false,
            error_message: None,
            show_results: false,
            output_directory,
            success_message: None,
            show_success: false,
        }
    }

    /// The configuration of a detection with the dialog's current settings.
    pub fn config(&self) -> (r: DuplicateDetectionConfig)
        ensures
            config_of(r, *self),
    {
        DuplicateDetectionConfig {
            group_column: self.selected_group_column.clone(),
            ignore_columns: copy_strings(&self.ignore_columns),
            block_size: self.block_size,
            null_equals_null: self.null_equals_null,
        }
    }

    /// Sets the block size the user typed, kept between one and a thousand.
    pub fn set_block_size(&mut self, size: usize)
        ensures
            *final(self) == (DuplicateDetectionDialog {
                block_size: final(self).block_size,
                ..*old(self)
            }),
            final(self).block_size == clamped_block_size(size),
    {
        self.block_size = clamp_block_size(size);
    }

    /// Sets whether `column` is left out of the comparison.
    pub fn set_column_ignored(&mut self, column: &String, ignored: bool)
        ensures
            *final(self) == (DuplicateDetectionDialog {
                ignore_columns: final(self).ignore_columns,
                ..*old(self)
            }),
            texts(final(self).ignore_columns@) == toggled(
                texts(old(self).ignore_columns@),
                column@,
                ignored,
            ),
    {
        toggle_selection(&mut self.ignore_columns, column, ignored);
    }

    /// The columns offered to be left out: every available column but the
    /// group column, in order.
    pub fn ignorable_columns(&self) -> (r: Vec<String>)
        ensures
            texts(r@) == all_but(texts(self.available_columns@), self.selected_group_column@),
    {
        let ghost all = texts(self.available_columns@);
        let ghost group = self.selected_group_column@;
        let mut out: Vec<String> = Vec::new();
        let mut i: usize = 0;
        while i < self.available_columns.len()
            invariant
                i <= self.available_columns.len(),
                all == texts(self.available_columns@),
                group == self.selected_group_column@,
                texts(out@) == all_but(all.take(i as int), group),
            decreases self.available_columns.len() - i,
        {
            let ghost before = texts(out@);
            assert(all.take(i + 1).drop_last() =~= all.take(i as int));
            if self.available_columns[i] != self.selected_group_column {
                out.push(self.available_columns[i].clone());
                assert(texts(out@) =~= before.push(all[i as int]));
            }
            assert(all_but(all.take(i + 1), group) == {
                let f = all_but(all.take(i as int), group);
                if all[i as int] != group {
                    f.push(all[i as int])
                } else {
                    f
                }
            }) by {
                reveal_with_fuel(Seq::filter, 1);
                assert(all.take(i + 1).last() == all[i as int]);
            }
            i = i + 1;
        }
        assert(all.take(self.available_columns.len() as int) =~= all);
        out
    }

    /// Starts a detection run. Without a group column the dialog says so;
    /// without a table it says so too. Otherwise the dialog is marked as
    /// detecting and the result names the first table and the configuration
    /// to detect with; the run ends with `finish_detection`.
    pub fn run_detection(&mut self, tables: Result<Vec<TableInfo>, String>) -> (r: Option<
        (String, DuplicateDetectionConfig),
    >)
        ensures
            *final(self) == (DuplicateDetectionDialog {
                error_message: final(self).error_message,
                is_detecting: final(self).is_detecting,
                ..*old(self)
            }),
            old(self).selected_group_column@.len() == 0 ==> {
                &&& r is None
                &&& message_is(final(self).error_message, "Please select a group column"@)
                &&& final(self).is_detecting == old(self).is_detecting
            },
            old(self).selected_group_column@.len() > 0 && listed(tables).len() == 0 ==> {
                &&& r is None
                &&& message_is(final(self).error_message, "No tables available"@)
                &&& !final(self).is_detecting
            },
            old(self).selected_group_column@.len() > 0 && listed(tables).len() > 0 ==> {
                &&& r matches Some((name, config)) && name@ == listed(tables)[0].name@
                    && config_of(config, *old(self))
                &&& final(self).error_message is None
                &&& final(self).is_detecting
            },
    {
        if self.selected_group_column.as_str().is_empty() {
            self.error_message = Some(String::from_str("Please select a group column"));
            proof {
                reveal_strlit("Please select a group column");
            }
            return None;
        }
        self.is_detecting = true;
        self.error_message = None;
        let tables = match tables {
            Ok(t) => t,
            Err(_) => Vec::new(),
        };
        if tables.len() == 0 {
            self.error_message = Some(String::from_str("No tables available"));
            self.is_detecting = false;
            return None;
        }
        let name = tables[0].name.clone();
        Some((name, self.config()))
    }

    /// Ends a detection run with how loading the table and detecting went.
    pub fn finish_detection(&mut self, outcome: DetectionOutcome)
        ensures
            *final(self) == (DuplicateDetectionDialog {
                error_message: final(self).error_message,
                detection_result: final(self).detection_result,
                is_detecting: final(self).is_detecting,
                ..*old(self)
            }),
            !final(self).is_detecting,
            match outcome {
                DetectionOutcome::LoadFailed(e) => {
                    &&& message_is(final(self).error_message, "Failed to load table: "@ + e@)
                    &&& final(self).detection_result == old(self).detection_result
                },
                DetectionOutcome::DetectionFailed(e) => {
                    &&& message_is(final(self).error_message, "Detection failed: "@ + e@)
                    &&& final(self).detection_result == old(self).detection_result
                },
                DetectionOutcome::Detected(result) => {
                    &&& final(self).error_message is None
                    &&& final(self).detection_result == Some(result)
                },
            },
    {
        match outcome {
            DetectionOutcome::LoadFailed(e) => {
                self.error_message = Some(message("Failed to load table: ", &e));
            },
            DetectionOutcome::DetectionFailed(e) => {
                self.error_message = Some(message("Detection failed: ", &e));
            },
            DetectionOutcome::Detected(result) => {
                self.detection_result = Some(result);
                self.error_message = None;
            },
        }
        self.is_detecting = false;
    }

    /// Starts removing the duplicates of `result` from the database: names
    /// the first table and the rows to delete from it (every occurrence of a
    /// duplicate block after its first, so one of each stays), or says that
    /// there is no table. The run ends with `finish_removal`.
    pub fn remove_duplicates(&mut self, tables: Result<Vec<TableInfo>, String>, result: &DuplicateDetectionResult) -> (r: Option<
        (String, Vec<usize>),
    >)
        ensures
            *final(self) == (DuplicateDetectionDialog {
                error_message: final(self).error_message,
                ..*old(self)
            }),
            listed(tables).len() == 0 ==> {
                &&& r is None
                &&& message_is(final(self).error_message, "No tables available"@)
            },
            listed(tables).len() > 0 ==> {
                &&& r matches Some((name, rows)) && name@ == listed(tables)[0].name@
                    && rows@ == rows_to_remove(result.duplicate_blocks@)
                &&& final(self).error_message == old(self).error_message
            },
    {
        let tables = match tables {
            Ok(t) => t,
            Err(_) => Vec::new(),
        };
        if tables.len() == 0 {
            self.error_message = Some(String::from_str("No tables available"));
            return None;
        }
        let name = tables[0].name.clone();
        Some((name, removal_rows(&result.duplicate_blocks)))
    }

    /// Ends removing duplicates with how the database took it.
    pub fn finish_removal(&mut self, outcome: Result<(), String>)
        ensures
            *final(self) == (DuplicateDetectionDialog {
                error_message: final(self).error_message,
                ..*old(self)
            }),
            match outcome {
                Ok(()) => final(self).error_message is None,
                Err(e) => message_is(
                    final(self).error_message,
                    "Failed to remove duplicates: "@ + e@,
                ),
            },
    {
        match outcome {
            Ok(()) => {
                self.error_message = None;
            },
            Err(e) => {
                self.error_message = Some(message("Failed to remove duplicates: ", &e));
            },
        }
    }

    /// Starts writing a file without the duplicates of `result`: names the
    /// first table and the configuration to write with, or says that there is
    /// no table. The run ends with `finish_clean_file`.
    pub fn create_clean_arrow_file(&mut self, tables: Result<Vec<TableInfo>, String>, _result: &DuplicateDetectionResult) -> (r: Option<
        (String, DuplicateDetectionConfig),
    >)
        ensures
            *final(self) == (DuplicateDetectionDialog {
                error_message: final(self).error_message,
                ..*old(self)
            }),
            listed(tables).len() == 0 ==> {
                &&& r is None
                &&& message_is(final(self).error_message, "No tables available"@)
            },
            listed(tables).len() > 0 ==> {
                &&& r matches Some((name, config)) && name@ == listed(tables)[0].name@
                    && config_of(config, *old(self))
                &&& final(self).error_message == old(self).error_message
            },
    {
        let tables = match tables {
            Ok(t) => t,
            Err(_) => Vec::new(),
        };
        if tables.len() == 0 {
            self.error_message = Some(String::from_str("No tables available"));
            return None;
        }
        let name = tables[0].name.clone();
        Some((name, self.config()))
    }

    /// Ends writing a clean file with how loading the table and writing went.
    pub fn finish_clean_file(&mut self, outcome: CleanFileOutcome)
        requires
            outcome matches CleanFileOutcome::Created { kept_rows, total_rows, .. } ==> kept_rows
                <= total_rows,
        ensures
            *final(self) == (DuplicateDetectionDialog {
                error_message: final(self).error_message,
                success_message: final(self).success_message,
                show_success: final(self).show_success,
                ..*old(self)
            }),
            match outcome {
                CleanFileOutcome::LoadFailed(e) => {
                    &&& message_is(final(self).error_message, "Failed to load table: "@ + e@)
                    &&& final(self).success_message == old(self).success_message
                    &&& final(self).show_success == old(self).show_success
                },
                CleanFileOutcome::CreateFailed(e) => {
                    &&& message_is(
                        final(self).error_message,
                        "Failed to create clean Arrow file: "@ + e@,
                    )
                    &&& final(self).success_message == old(self).success_message
                    &&& final(self).show_success == old(self).show_success
                },
                CleanFileOutcome::Created { path, kept_rows, total_rows } => {
                    &&& message_is(
                        final(self).success_message,
                        created_message(path@, kept_rows as nat, (total_rows - kept_rows) as nat),
                    )
                    &&& final(self).show_success
                    &&& final(self).error_message == old(self).error_message
                },
            },
    {
        match outcome {
            CleanFileOutcome::LoadFailed(e) => {
                self.error_message = Some(message("Failed to load table: ", &e));
            },
            CleanFileOutcome::CreateFailed(e) => {
                self.error_message = Some(message("Failed to create clean Arrow file: ", &e));
            },
            CleanFileOutcome::Created { path, kept_rows, total_rows } => {
                let mut m = message("✅ Created clean Arrow file: ", &path);
                m.append("\nKept ");
                push_decimal(&mut m, kept_rows);
                m.append(" rows, removed ");
                push_decimal(&mut m, total_rows - kept_rows);
                m.append(" duplicate rows");
                self.success_message = Some(m);
                self.show_success = true;
            },
        }
    }

    /// The user asked to see the results: they are shown when there are any.
    pub fn open_results(&mut self)
        ensures
            *final(self) == (DuplicateDetectionDialog {
                show_results: final(self).show_results,
                ..*old(self)
            }),
            final(self).show_results == (old(self).show_results || old(self).detection_result is Some),
    {
        if self.detection_result.is_some() {
            self.show_results = true;
        }
    }

    /// Whether the dialog offers to remove the duplicates found: a result
    /// holding at least one duplicate block.
    pub fn offers_actions(&self) -> (r: bool)
        ensures
            r == (self.detection_result matches Some(res) && res.total_duplicates > 0),
    {
        match &self.detection_result {
            Some(res) => res.total_duplicates > 0,
            None => false,
        }
    }

    /// The user acknowledged the success message.
    pub fn dismiss_success(&mut self)
        ensures
            *final(self) == (DuplicateDetectionDialog {
                show_success: final(self).show_success,
                success_message: final(self).success_message,
                ..*old(self)
            }),
            !final(self).show_success,
            final(self).success_message is None,
    {
        self.show_success = false;
        self.success_message = None;
    }

    /// Offers the columns of the first table the database lists, changing
    /// nothing else; leaves the dialog as it is when there is none.
    pub fn update_available_columns(&mut self, tables: Result<Vec<TableInfo>, String>)
        ensures
            listed(tables).len() > 0 ==> texts(final(self).available_columns@) == column_names(
                listed(tables)[0],
            ),
            listed(tables).len() > 0 ==> *final(self) == (DuplicateDetectionDialog {
                available_columns: final(self).available_columns,
                ..*old(self)
            }),
            listed(tables).len() == 0 ==> *final(self) == *old(self),
    {
        let tables = match tables {
            Ok(t) => t,
            Err(_) => Vec::new(),
        };
        if tables.len() > 0 {
            let table = &tables[0];
            let ghost names = column_names(*table);
            let mut cols: Vec<String> = Vec::new();
            let mut i: usize = 0;
            while i < table.columns.len()
                invariant
                    i <= table.columns.len(),
                    names == column_names(*table),
                    texts(cols@) == names.take(i as int),
                decreases table.columns.len() - i,
            {
                let ghost before = texts(cols@);
                cols.push(table.columns[i].name.clone());
                assert(texts(cols@) =~= before.push(names[i as int]));
                assert(names.take(i + 1) =~= names.take(i as int).push(names[i as int]));
                i = i + 1;
            }
            assert(names.take(table.columns.len() as int) =~= names);
            self.available_columns = cols;
        }
    }
}

/// The viewer listing the duplicate blocks of a result.
pub struct DuplicateResultsViewer {
    pub visible: bool,
    pub result: Option<DuplicateDetectionResult>,
}

impl Default for DuplicateResultsViewer {
    fn default() -> (r: Self)
        ensures
            !r.visible,
            r.result is None,
    {
        DuplicateResultsViewer { visible: false, result: None }
    }
}

impl DuplicateResultsViewer {
    /// The title of the `index`-th block (counted from zero): its number,
    /// group and how often it occurs.
    pub fn block_title(index: usize, block: &DuplicateBlock) -> (r: String)
        requires
            index < usize::MAX,
        ensures
            r@ == block_title_text(index as nat, *block),
    {
        let mut t = String::from_str("Block ");
        push_decimal(&mut t, index + 1);
        t.append(" (Group: ");
        t.append(block.group_id.as_str());
        t.append(", ");
        push_decimal(&mut t, block.row_indices.len());
        t.append(" occurrences)");
        t
    }

    /// The viewer shows only when it is open and holds a result.
    pub fn is_shown(&self) -> (r: bool)
        ensures
            r == (self.visible && self.result is Some),
    {
        self.visible && self.result.is_some()
    }
}

} // verus!
