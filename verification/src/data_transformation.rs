//! The data transformation dialog's state and decisions, and the checks and
//! layout of a transformation request before it is computed.

use vstd::prelude::*;
use crate::query::TableInfo;
use crate::plot_window::texts;
use crate::text::{decimal, push_decimal, number_text, is_number_text};

verus! {

/// The kinds of column that a transformation adds.
#[derive(Debug, Clone, Copy, PartialEq, Eq, Structural)]
pub enum TransformationType {
    Delta,
    DeltaMultiple,
    TimeBin,
    RowId,
}

/// The state of the data transformation dialog.
pub struct TransformationDialog {
    pub visible: bool,
    pub selected_table: Option<String>,
    pub transformation_type: Option<TransformationType>,
    pub selected_columns: Vec<String>,
    pub output_column_name: String,
    pub available_tables: Vec<TableInfo>,
    pub available_columns: Vec<String>,
    pub bin_size: String,
    pub time_column: Option<String>,
    pub grouping_columns: Vec<String>,
    pub error_message: Option<String>,
    pub success_message: Option<String>,
}

/// A transformation the user asked for.
pub struct TransformationRequest {
    pub table_name: String,
    pub transformation_type: TransformationType,
    pub selected_columns: Vec<String>,
    pub output_column_name: String,
    pub bin_size: String,
    pub time_column: Option<String>,
    pub grouping_columns: Option<Vec<String>>,
}

/// The state of a dialog that has just been opened.
pub open spec fn fresh_dialog(d: TransformationDialog) -> bool {
    &&& !d.visible
    &&& d.selected_table is None
    &&& d.transformation_type is None
    &&& d.selected_columns@.len() == 0
    &&& d.output_column_name@.len() == 0
    &&& d.available_tables@.len() == 0
    &&& d.available_columns@.len() == 0
    &&& d.bin_size@ == "1"@
    &&& d.time_column is None
    &&& d.grouping_columns@.len() == 0
    &&& d.error_message is None
    &&& d.success_message is None
}

/// Whether a text differs from `column`.
pub open spec fn is_not(column: Seq<char>) -> spec_fn(Seq<char>) -> bool {
    |c: Seq<char>| c != column
}

/// `list` after its checkbox for `column` is set to `selected`: added at the
/// end when newly selected, every copy removed when cleared.
pub open spec fn toggled(list: Seq<Seq<char>>, column: Seq<char>, selected: bool) -> Seq<Seq<char>> {
    if selected {
        if list.contains(column) {
            list
        } else {
            list.push(column)
        }
    } else {
        list.filter(is_not(column))
    }
}

/// The label shown for a transformation choice.
pub open spec fn transformation_label(t: Option<TransformationType>) -> Seq<char> {
    match t {
        Some(TransformationType::Delta) => "Delta (Single Column)"@,
        Some(TransformationType::DeltaMultiple) => "Delta (Multiple Columns)"@,
        Some(TransformationType::TimeBin) => "Time Bin Column"@,
        Some(TransformationType::RowId) => "Row ID Columns"@,
        None => "Select transformation type"@,
    }
}

/// The label shown for a transformation choice.
pub fn transformation_type_label(t: Option<TransformationType>) -> (r: &'static str)
    ensures
        r@ == transformation_label(t),
{
    match t {
        Some(TransformationType::Delta) => "Delta (Single Column)",
        Some(TransformationType::DeltaMultiple) => "Delta (Multiple Columns)",
        Some(TransformationType::TimeBin) => "Time Bin Column",
        Some(TransformationType::RowId) => "Row ID Columns",
        None => "Select transformation type",
    }
}

/// Sets the checkbox for `column` in a multiple selection.
pub fn toggle_selection(list: &mut Vec<String>, column: &String, selected: bool)
    ensures
        texts(final(list)@) == toggled(texts(old(list)@), column@, selected),
{
    let ghost old_t = texts(list@);
    if selected {
        let mut i: usize = 0;
        while i < list.len()
            invariant
                i <= list.len(),
                list@ == old(list)@,
                old_t == texts(list@),
                selected,
                forall|k: int| 0 <= k < i ==> (#[trigger] list@[k])@ != column@,
            decreases list.len() - i,
        {
            if list[i] == *column {
                assert(old_t[i as int] == column@);
                assert(old_t.contains(column@));
                return;
            }
            i = i + 1;
        }
        assert(!old_t.contains(column@)) by {
            if old_t.contains(column@) {
                let w = choose|w: int| 0 <= w < old_t.len() && old_t[w] == column@;
                assert(list@[w]@ == column@);
            }
        }
        list.push(column.clone());
        assert(texts(list@) =~= old_t.push(column@));
    } else {
        let mut kept: Vec<String> = Vec::new();
        let mut i: usize = 0;
        while i < list.len()
            invariant
                i <= list.len(),
                list@ == old(list)@,
                old_t == texts(list@),
                !selected,
                texts(kept@) == old_t.take(i as int).filter(is_not(column@)),
            decreases list.len() - i,
        {
            let ghost before = texts(kept@);
            assert(old_t.take(i + 1).drop_last() =~= old_t.take(i as int));
            if list[i] != *column {
                kept.push(list[i].clone());
                assert(texts(kept@) =~= before.push(old_t[i as int]));
            }
            assert(old_t.take(i + 1).filter(is_not(column@)) == {
                let f = old_t.take(i as int).filter(is_not(column@));
                if old_t[i as int] != column@ {
                    f.push(old_t[i as int])
                } else {
                    f
                }
            }) by {
                reveal_with_fuel(Seq::filter, 1);
                assert(old_t.take(i + 1).last() == old_t[i as int]);
            }
            i = i + 1;
        }
        assert(old_t.take(list.len() as int) =~= old_t);
        *list = kept;
    }
}

/// Setting a checkbox decides whether its column is selected: selected
/// exactly when the checkbox was set, whatever was selected before.
pub proof fn law_toggle_sets_membership(list: Seq<Seq<char>>, column: Seq<char>, selected: bool)
    ensures
        toggled(list, column, selected).contains(column) == selected,
{
    broadcast use vstd::seq_lib::group_filter_ensures;

    if selected {
        if !list.contains(column) {
            assert(list.push(column)[list.len() as int] == column);
        }
    } else {
        let f = list.filter(is_not(column));
        if f.contains(column) {
            let w = choose|w: int| 0 <= w < f.len() && f[w] == column;
            assert(f[w] != column);
        }
    }
}

/// Setting a checkbox leaves every other column selected or not as it was.
pub proof fn law_toggle_keeps_others(
    list: Seq<Seq<char>>,
    column: Seq<char>,
    selected: bool,
    other: Seq<char>,
)
    requires
        other != column,
    ensures
        toggled(list, column, selected).contains(other) == list.contains(other),
{
    broadcast use vstd::seq_lib::group_filter_ensures;

    if selected {
        if !list.contains(column) {
            if list.contains(other) {
                let w = choose|w: int| 0 <= w < list.len() && list[w] == other;
                assert(list.push(column)[w] == other);
            }
            if list.push(column).contains(other) {
                let w = choose|w: int| 0 <= w < list.len() + 1 && list.push(column)[w] == other;
                assert(list[w] == other);
            }
        }
    } else {
        let pred = is_not(column);
        if list.contains(other) {
            let w = choose|w: int| 0 <= w < list.len() && list[w] == other;
            list.lemma_filter_contains(pred, w);
        }
        if list.filter(pred).contains(other) {
            list.lemma_filter_contains_rev(pred, other);
        }
    }
}

proof fn lemma_filter_keeps_no_duplicates(list: Seq<Seq<char>>, column: Seq<char>)
    requires
        list.no_duplicates(),
    ensures
        list.filter(is_not(column)).no_duplicates(),
    decreases list.len(),
{
    broadcast use vstd::seq_lib::group_filter_ensures;

    let pred = is_not(column);
    if list.len() > 0 {
        let p = list.drop_last();
        let x = list.last();
        assert(p.no_duplicates());
        lemma_filter_keeps_no_duplicates(p, column);
        assert(p.push(x) =~= list);
        p.lemma_filter_push(x, pred);
        if pred(x) {
            if p.filter(pred).contains(x) {
                p.lemma_filter_contains_rev(pred, x);
                let w = choose|w: int| 0 <= w < p.len() && p[w] == x;
                assert(list[w] == list[list.len() - 1]);
            }
            let f = p.filter(pred);
            assert forall|i: int, j: int|
                0 <= i < f.push(x).len() && 0 <= j < f.push(x).len() && i != j implies f.push(
                x,
            )[i] != f.push(x)[j] by {
                if i < f.len() && j < f.len() {
                } else if i < f.len() {
                    assert(f.contains(f[i]));
                } else {
                    assert(f.contains(f[j]));
                }
            }
        }
    }
}

/// A selection without repeated columns keeps none after a checkbox is set.
pub proof fn law_toggle_keeps_no_duplicates(list: Seq<Seq<char>>, column: Seq<char>, selected: bool)
    requires
        list.no_duplicates(),
    ensures
        toggled(list, column, selected).no_duplicates(),
{
    if selected {
        if !list.contains(column) {
            let l2 = list.push(column);
            assert forall|i: int, j: int| 0 <= i < l2.len() && 0 <= j < l2.len() && i != j implies l2[i]
                != l2[j] by {
                if i < list.len() && j < list.len() {
                } else if i < list.len() {
                    assert(list.contains(list[i]));
                } else {
                    assert(list.contains(list[j]));
                }
            }
        }
    } else {
        lemma_filter_keeps_no_duplicates(list, column);
    }
}

/// Setting a checkbox a second time to the same value changes nothing.
pub proof fn law_toggle_idempotent(list: Seq<Seq<char>>, column: Seq<char>, selected: bool)
    ensures
        toggled(toggled(list, column, selected), column, selected) == toggled(list, column, selected),
{
    broadcast use vstd::seq_lib::group_filter_ensures;

    law_toggle_sets_membership(list, column, selected);
    if !selected {
        let f = list.filter(is_not(column));
        lemma_filter_all_pass(f, column);
    }
}

proof fn lemma_filter_all_pass(list: Seq<Seq<char>>, column: Seq<char>)
    requires
        !list.contains(column),
    ensures
        list.filter(is_not(column)) == list,
    decreases list.len(),
{
    broadcast use vstd::seq_lib::group_filter_ensures;

    if list.len() > 0 {
        let p = list.drop_last();
        assert(!p.contains(column)) by {
            if p.contains(column) {
                let w = choose|w: int| 0 <= w < p.len() && p[w] == column;
                assert(list[w] == column);
            }
        }
        lemma_filter_all_pass(p, column);
        assert(p.push(list.last()) =~= list);
        assert(list[list.len() - 1] != column);
        p.lemma_filter_push(list.last(), is_not(column));
    }
}

/// An optional message holding exactly `text`.
pub open spec fn message_is(m: Option<String>, text: Seq<char>) -> bool {
    match m {
        Some(s) => s@ == text,
        None => false,
    }
}

/// `req` asks for what the dialog `d` has chosen: its table, transformation,
/// columns, output name, bin size, time column, and grouping columns (none
/// when no grouping column is chosen).
pub open spec fn request_from(req: TransformationRequest, d: TransformationDialog) -> bool {
    &&& d.selected_table matches Some(t) && req.table_name@ == t@
    &&& d.transformation_type == Some(req.transformation_type)
    &&& texts(req.selected_columns@) == texts(d.selected_columns@)
    &&& req.output_column_name@ == d.output_column_name@
    &&& req.bin_size@ == d.bin_size@
    &&& req.time_column == d.time_column
    &&& match req.grouping_columns {
        Some(g) => d.grouping_columns@.len() != 0 && texts(g@) == texts(d.grouping_columns@),
        None => d.grouping_columns@.len() == 0,
    }
}

/// `b` is the dialog `a` after "Apply" was pressed, and `r` the request
/// made: with a table selected, an output name and a transformation chosen,
/// the request for it, and the dialog closes reporting success; without an
/// output name (and a table selected), an error and no request.
pub open spec fn applied(a: TransformationDialog, b: TransformationDialog, r: Option<TransformationRequest>) -> bool {
    &&& a.selected_table is Some && a.output_column_name@.len() != 0
        && a.transformation_type is Some ==> {
        &&& r is Some
        &&& request_from(r->0, a)
        &&& !b.visible
        &&& message_is(b.success_message, "Transformation applied successfully!"@)
        &&& b.error_message == a.error_message
    }
    &&& a.selected_table is Some && a.output_column_name@.len() == 0 ==> {
        &&& r is None
        &&& message_is(b.error_message, "Output column name is required"@)
        &&& b.visible == a.visible
        &&& b.success_message == a.success_message
    }
    &&& a.selected_table is None || (a.output_column_name@.len() != 0
        && a.transformation_type is None) ==> {
        &&& r is None
        &&& b.error_message == a.error_message
        &&& b.success_message == a.success_message
        &&& b.visible == a.visible
    }
    &&& b == (TransformationDialog {
        visible: b.visible,
        error_message: b.error_message,
        success_message: b.success_message,
        ..a
    })
}

/// `b` is the dialog `a` after "Cancel": closed, with nothing selected.
pub open spec fn cancelled(a: TransformationDialog, b: TransformationDialog) -> bool {
    &&& !b.visible
    &&& b.selected_table is None
    &&& b.transformation_type is None
    &&& b.selected_columns@.len() == 0
    &&& b.output_column_name@.len() == 0
    &&& b.time_column is None
    &&& b.grouping_columns@.len() == 0
    &&& b.error_message is None
    &&& b.success_message is None
    &&& b == (TransformationDialog {
        visible: b.visible,
        selected_table: b.selected_table,
        transformation_type: b.transformation_type,
        selected_columns: b.selected_columns,
        output_column_name: b.output_column_name,
        time_column: b.time_column,
        grouping_columns: b.grouping_columns,
        error_message: b.error_message,
        success_message: b.success_message,
        ..a
    })
}

/// What the user did in one frame of the dialog: whether the window is
/// still open, the table picked with the column names the database gave for
/// it, the transformation picked, the edited columns, names and bin size,
/// and which buttons were pressed.
pub struct FrameInput {
    pub window_open: bool,
    pub picked_table: Option<(String, Result<Vec<String>, String>)>,
    pub picked_kind: Option<TransformationType>,
    pub selected_columns: Vec<String>,
    pub output_column_name: String,
    pub time_column: Option<String>,
    pub grouping_columns: Vec<String>,
    pub bin_size: String,
    pub apply_clicked: bool,
    pub cancel_clicked: bool,
}

/// The dialog `d` after a frame's choices and edits, before its buttons: a
/// picked table is selected with its columns offered and the transformation
/// forgotten; a picked transformation is chosen; the edited values are kept.
pub open spec fn edited(d: TransformationDialog, input: FrameInput) -> TransformationDialog {
    let picked = input.picked_table is Some;
    TransformationDialog {
        visible: input.window_open,
        selected_table: match input.picked_table {
            Some((name, _)) => Some(name),
            None => d.selected_table,
        },
        transformation_type: match input.picked_kind {
            Some(k) => Some(k),
            None => if picked {
                None
            } else {
                d.transformation_type
            },
        },
        selected_columns: input.selected_columns,
        output_column_name: input.output_column_name,
        available_tables: d.available_tables,
        available_columns: match input.picked_table {
            Some((_, Ok(c))) => c,
            _ => d.available_columns,
        },
        bin_size: input.bin_size,
        time_column: input.time_column,
        grouping_columns: input.grouping_columns,
        error_message: if picked {
            None
        } else {
            d.error_message
        },
        success_message: if picked {
            None
        } else {
            d.success_message
        },
    }
}

/// `b` and `r` follow from the edited dialog `e` when "Apply" was pressed or
/// not.
pub open spec fn buttons_done(e: TransformationDialog, b: TransformationDialog, r: Option<TransformationRequest>, apply: bool) -> bool {
    if apply {
        applied(e, b, r)
    } else {
        b == e && r is None
    }
}

/// The query whose column names a table offers: all of the table.
pub fn columns_query_for(table: &str) -> (r: String)
    ensures
        r@ == "SELECT * FROM "@ + table@,
{
    let mut q = String::from_str("SELECT * FROM ");
    q.append(table);
    q
}

impl Default for TransformationDialog {
    /// A closed dialog with nothing chosen and a bin size of one.
    fn default() -> (r: Self)
        ensures
            fresh_dialog(r),
    {
        TransformationDialog::new()
    }
}

impl TransformationDialog {
    /// A closed dialog with nothing chosen and a bin size of one.
    pub fn new() -> (r: Self)
        ensures
            fresh_dialog(r),
    {
        let bin_size = String::from_str("1");
        proof {
            reveal_strlit("1");
        }
        TransformationDialog {
            visible: false,
            selected_table: None,
            transformation_type: None,
            selected_columns: Vec::new(),
            output_column_name: String::new(),
            available_tables: Vec::new(),
            available_columns: Vec::new(),
            bin_size,
            time_column: None,
            grouping_columns: Vec::new(),
            error_message: None,
            success_message: None,
        }
    }

    /// Offers the tables the database lists (none when it could not list
    /// them), changing nothing else.
    pub fn update_available_tables(&mut self, tables: Result<Vec<TableInfo>, String>)
        ensures
            final(self).available_tables@ == match tables {
                Ok(t) => t@,
                Err(_) => Seq::<TableInfo>::empty(),
            },
            *final(self) == (TransformationDialog {
                available_tables: final(self).available_tables,
                ..*old(self)
            }),
    {
        self.available_tables = match tables {
            Ok(t) => t,
            Err(_) => Vec::new(),
        };
    }

    /// The query whose column names the dialog offers: all of the selected
    /// table; none when no table is selected.
    pub fn columns_query(&self) -> (r: Option<String>)
        ensures
            match self.selected_table {
                Some(t) => r matches Some(q) && q@ == "SELECT * FROM "@ + t@,
                None => r is None,
            },
    {
        match &self.selected_table {
            Some(t) => Some(columns_query_for(t.as_str())),
            None => None,
        }
    }

    /// Offers the column names the database gave for the selected table,
    /// changing nothing else; leaves the dialog as it is when no table is
    /// selected or the database could not give them.
    pub fn update_available_columns(&mut self, columns: Result<Vec<String>, String>)
        ensures
            match (old(self).selected_table, columns) {
                (Some(_), Ok(c)) => final(self).available_columns == c && *final(self) == (
                TransformationDialog { available_columns: final(self).available_columns, ..*old(self) }),
                _ => *final(self) == *old(self),
            },
    {
        if self.selected_table.is_some() {
            match columns {
                Ok(c) => {
                    self.available_columns = c;
                },
                Err(_) => {},
            }
        }
    }

    /// Forgets the transformation chosen and everything configured for it.
    pub fn reset_transformation_state(&mut self)
        ensures
            final(self).transformation_type is None,
            final(self).selected_columns@.len() == 0,
            final(self).output_column_name@.len() == 0,
            final(self).time_column is None,
            final(self).grouping_columns@.len() == 0,
            final(self).error_message is None,
            final(self).success_message is None,
            *final(self) == (TransformationDialog {
                transformation_type: final(self).transformation_type,
                selected_columns: final(self).selected_columns,
                output_column_name: final(self).output_column_name,
                time_column: final(self).time_column,
                grouping_columns: final(self).grouping_columns,
                error_message: final(self).error_message,
                success_message: final(self).success_message,
                ..*old(self)
            }),
    {
        self.transformation_type = None;
        self.selected_columns.clear();
        self.output_column_name = String::new();
        self.time_column = None;
        self.grouping_columns.clear();
        self.error_message = None;
        self.success_message = None;
    }

    /// Forgets the columns chosen for the transformation.
    pub fn reset_column_selection(&mut self)
        ensures
            final(self).selected_columns@.len() == 0,
            final(self).time_column is None,
            final(self).grouping_columns@.len() == 0,
            *final(self) == (TransformationDialog {
                selected_columns: final(self).selected_columns,
                time_column: final(self).time_column,
                grouping_columns: final(self).grouping_columns,
                ..*old(self)
            }),
    {
        self.selected_columns.clear();
        self.time_column = None;
        self.grouping_columns.clear();
    }

    /// Forgets the selected table and the transformation.
    pub fn reset(&mut self)
        ensures
            final(self).selected_table is None,
            final(self).transformation_type is None,
            final(self).selected_columns@.len() == 0,
            final(self).output_column_name@.len() == 0,
            final(self).time_column is None,
            final(self).grouping_columns@.len() == 0,
            final(self).error_message is None,
            final(self).success_message is None,
            *final(self) == (TransformationDialog {
                selected_table: final(self).selected_table,
                transformation_type: final(self).transformation_type,
                selected_columns: final(self).selected_columns,
                output_column_name: final(self).output_column_name,
                time_column: final(self).time_column,
                grouping_columns: final(self).grouping_columns,
                error_message: final(self).error_message,
                success_message: final(self).success_message,
                ..*old(self)
            }),
    {
        self.selected_table = None;
        self.reset_transformation_state();
    }

    /// The user picked a table: select it and forget the transformation.
    /// The columns offered are then updated with `update_available_columns`.
    pub fn select_table(&mut self, table_name: String)
        ensures
            final(self).selected_table == Some(table_name),
            final(self).transformation_type is None,
            final(self).selected_columns@.len() == 0,
            final(self).output_column_name@.len() == 0,
            final(self).time_column is None,
            final(self).grouping_columns@.len() == 0,
            final(self).error_message is None,
            final(self).success_message is None,
            *final(self) == (TransformationDialog {
                selected_table: final(self).selected_table,
                transformation_type: final(self).transformation_type,
                selected_columns: final(self).selected_columns,
                output_column_name: final(self).output_column_name,
                time_column: final(self).time_column,
                grouping_columns: final(self).grouping_columns,
                error_message: final(self).error_message,
                success_message: final(self).success_message,
                ..*old(self)
            }),
    {
        self.selected_table = Some(table_name);
        self.reset_transformation_state();
    }

    /// The user picked a transformation: choose it and forget the columns
    /// chosen for the previous one.
    pub fn select_transformation(&mut self, transformation_type: TransformationType)
        ensures
            final(self).transformation_type == Some(transformation_type),
            final(self).selected_columns@.len() == 0,
            final(self).time_column is None,
            final(self).grouping_columns@.len() == 0,
            *final(self) == (TransformationDialog {
                transformation_type: final(self).transformation_type,
                selected_columns: final(self).selected_columns,
                time_column: final(self).time_column,
                grouping_columns: final(self).grouping_columns,
                ..*old(self)
            }),
    {
        self.transformation_type = Some(transformation_type);
        self.reset_column_selection();
    }

    /// The user picked the column of a single-column delta: it becomes the
    /// only selected column.
    pub fn select_single_column(&mut self, column: &String)
        ensures
            texts(final(self).selected_columns@) == seq![column@],
            *final(self) == (TransformationDialog {
                selected_columns: final(self).selected_columns,
                ..*old(self)
            }),
    {
        let mut v: Vec<String> = Vec::new();
        v.push(column.clone());
        assert(texts(v@) =~= seq![column@]);
        self.selected_columns = v;
    }

    /// The user picked the time column of a time binning.
    pub fn select_time_column(&mut self, column: String)
        ensures
            final(self).time_column == Some(column),
            *final(self) == (TransformationDialog {
                time_column: final(self).time_column,
                ..*old(self)
            }),
    {
        self.time_column = Some(column);
    }

    /// The user pressed "Apply": with a table selected, an output name and a
    /// transformation chosen, the request for it, and the dialog closes
    /// reporting success; without an output name (and a table selected), an
    /// error is reported and no request made.
    pub fn apply(&mut self) -> (r: Option<TransformationRequest>)
        ensures
            applied(*old(self), *final(self), r),
    {
        let mut result: Option<TransformationRequest> = None;
        match &self.selected_table {
            Some(table_name) => {
                if !self.output_column_name.as_str().is_empty() {
                    match self.transformation_type {
                        Some(transform_type) => {
                            let grouping = if self.grouping_columns.len() == 0 {
                                None
                            } else {
                                Some(self.grouping_columns.clone())
                            };
                            result = Some(
                                TransformationRequest {
                                    table_name: table_name.clone(),
                                    transformation_type: transform_type,
                                    selected_columns: self.selected_columns.clone(),
                                    output_column_name: self.output_column_name.clone(),
                                    bin_size: self.bin_size.clone(),
                                    time_column: self.time_column.clone(),
                                    grouping_columns: grouping,
                                },
                            );
                            self.success_message = Some(
                                String::from_str("Transformation applied successfully!"),
                            );
                            self.visible = false;
                        },
                        None => {},
                    }
                } else {
                    self.error_message = Some(String::from_str("Output column name is required"));
                }
            },
            None => {},
        }
        result
    }

    /// One frame of the dialog: a closed dialog gives no request and stays as
    /// it is. An open one takes the frame's choices and edits (see `edited`),
    /// then "Apply" (see `apply`), then "Cancel" (see `cancel`).
    pub fn show_step(&mut self, input: FrameInput) -> (r: Option<TransformationRequest>)
        ensures
            !old(self).visible ==> r is None && *final(self) == *old(self),
            old(self).visible ==> exists|mid: TransformationDialog|
                #[trigger] buttons_done(edited(*old(self), input), mid, r, input.apply_clicked) && (
                input.cancel_clicked ==> cancelled(mid, *final(self))) && (!input.cancel_clicked
                    ==> *final(self) == mid),
    {
        if !self.visible {
            return None;
        }
        let ghost inp = input;
        let FrameInput {
            window_open,
            picked_table,
            picked_kind,
            selected_columns,
            output_column_name,
            time_column,
            grouping_columns,
            bin_size,
            apply_clicked,
            cancel_clicked,
        } = input;
        self.visible = window_open;
        match picked_table {
            Some((name, columns)) => {
                self.selected_table = Some(name);
                self.update_available_columns(columns);
                self.reset_transformation_state();
            },
            None => {},
        }
        match picked_kind {
            Some(k) => {
                self.transformation_type = Some(k);
                self.reset_column_selection();
            },
            None => {},
        }
        self.selected_columns = selected_columns;
        self.output_column_name = output_column_name;
        self.time_column = time_column;
        self.grouping_columns = grouping_columns;
        self.bin_size = bin_size;
        assert(*self == edited(*old(self), inp));
        let r = if apply_clicked {
            self.apply()
        } else {
            None
        };
        let ghost mid = *self;
        if cancel_clicked {
            self.cancel();
        }
        assert(buttons_done(edited(*old(self), inp), mid, r, inp.apply_clicked));
        r
    }

    /// The user pressed "Cancel": close the dialog and forget the selection.
    pub fn cancel(&mut self)
        ensures
            cancelled(*old(self), *final(self)),
    {
        self.visible = false;
        self.reset();
    }
}

/// Where transformed tables are saved.
pub struct TransformationManager {
    pub output_directory: String,
}

/// The column a transformation computes, with what it reads.
pub enum TransformationStep {
    /// Differences between consecutive values of one column.
    Delta { column: String, output: String },
    /// Differences between consecutive values of several columns.
    DeltaMultiple { columns: Vec<String>, output: String },
    /// Time bins of `bin_size` seconds (as written by the user) over a time column.
    TimeBin { time_column: String, bin_size: String, output: String },
    /// Row numbers, globally or within groups.
    RowId { output: String, grouping: Option<Vec<String>> },
}

/// What a transformation request asks to compute: the table as text
/// columns, the column to add, and the name of the file to save it in.
pub struct TransformationPlan {
    pub columns: Vec<(String, Vec<String>)>,
    pub step: TransformationStep,
    pub output_file_name: String,
}

/// The cells of column `c` of `rows`, empty where a row is too short.
pub open spec fn batch_column(rows: Seq<Vec<String>>, c: int) -> Seq<Seq<char>> {
    Seq::new(
        rows.len(),
        |r: int|
            if c < rows[r]@.len() {
                rows[r]@[c]@
            } else {
                Seq::<char>::empty()
            },
    )
}

/// `columns` holds, for each column of the first row, its generated name
/// `column_<index>` and its cells in every row.
pub open spec fn batch_of(rows: Seq<Vec<String>>, columns: Seq<(String, Vec<String>)>) -> bool {
    &&& rows.len() > 0
    &&& columns.len() == rows[0]@.len()
    &&& forall|c: int|
        0 <= c < columns.len() ==> {
            &&& (#[trigger] columns[c]).0@ == "column_"@ + decimal(c as nat)
            &&& texts(columns[c].1@) == batch_column(rows, c)
        }
}

/// Lays the rows out as text columns named `column_0`, `column_1`, ..., as
/// many as the first row has cells; shorter rows give empty cells. Fails
/// when there is no row or the first row is empty.
pub fn convert_rows_to_batch(rows: &Vec<Vec<String>>) -> (r: Result<Vec<(String, Vec<String>)>, String>)
    ensures
        match r {
            Ok(columns) => batch_of(rows@, columns@),
            Err(e) => e@ == "No data to convert"@,
        },
        r is Ok <==> (rows@.len() > 0 && rows@[0]@.len() > 0),
{
    let num_rows = rows.len();
    let num_cols = if num_rows > 0 {
        rows[0].len()
    } else {
        0
    };
    if num_rows == 0 || num_cols == 0 {
        return Err(String::from_str("No data to convert"));
    }
    let mut out: Vec<(String, Vec<String>)> = Vec::new();
    let mut c: usize = 0;
    while c < num_cols
        invariant
            c <= num_cols,
            num_rows == rows@.len(),
            num_rows > 0,
            num_cols == rows@[0]@.len(),
            out@.len() == c,
            forall|k: int|
                0 <= k < c ==> {
                    &&& (#[trigger] out@[k]).0@ == "column_"@ + decimal(k as nat)
                    &&& texts(out@[k].1@) == batch_column(rows@, k)
                },
        decreases num_cols - c,
    {
        let mut values: Vec<String> = Vec::new();
        let mut r: usize = 0;
        while r < num_rows
            invariant
                r <= num_rows,
                num_rows == rows@.len(),
                texts(values@) == batch_column(rows@, c as int).take(r as int),
            decreases num_rows - r,
        {
            let ghost before = texts(values@);
            let v = if c < rows[r].len() {
                rows[r][c].clone()
            } else {
                String::new()
            };
            assert(v@ == batch_column(rows@, c as int)[r as int]);
            values.push(v);
            assert(texts(values@) =~= before.push(v@));
            assert(batch_column(rows@, c as int).take(r + 1) =~= batch_column(rows@, c as int).take(
                r as int,
            ).push(v@));
            r = r + 1;
        }
        assert(batch_column(rows@, c as int).take(num_rows as int) =~= batch_column(
            rows@,
            c as int,
        ));
        let mut name = String::from_str("column_");
        push_decimal(&mut name, c);
        out.push((name, values));
        c = c + 1;
    }
    Ok(out)
}

/// The step a request asks for, or why it cannot be computed.
pub open spec fn step_ok(req: TransformationRequest, step: TransformationStep) -> bool {
    match (req.transformation_type, step) {
        (TransformationType::Delta, TransformationStep::Delta { column, output }) => req.selected_columns@.len()
            == 1 && column@ == req.selected_columns@[0]@ && output@ == req.output_column_name@,
        (
            TransformationType::DeltaMultiple,
            TransformationStep::DeltaMultiple { columns, output },
        ) => req.selected_columns@.len() > 0 && texts(columns@) == texts(req.selected_columns@)
            && output@ == req.output_column_name@,
        (
            TransformationType::TimeBin,
            TransformationStep::TimeBin { time_column, bin_size, output },
        ) => req.time_column matches Some(t) && time_column@ == t@ && bin_size@ == req.bin_size@
            && output@ == req.output_column_name@,
        (TransformationType::RowId, TransformationStep::RowId { output, grouping }) => output@
            == req.output_column_name@ && match (grouping, req.grouping_columns) {
            (Some(g), Some(h)) => texts(g@) == texts(h@),
            (None, None) => true,
            _ => false,
        },
        _ => false,
    }
}

/// The error a request with data gets from its transformation's own checks.
pub open spec fn step_error(req: TransformationRequest) -> Option<Seq<char>> {
    match req.transformation_type {
        TransformationType::Delta => if req.selected_columns@.len() != 1 {
            Some("Delta transformation requires exactly one column"@)
        } else {
            None
        },
        TransformationType::DeltaMultiple => if req.selected_columns@.len() == 0 {
            Some("Delta multiple transformation requires at least one column"@)
        } else {
            None
        },
        TransformationType::TimeBin => if req.time_column is None {
            Some("Time column is required for time binning"@)
        } else if !number_text(req.bin_size@) {
            Some("Invalid bin size"@)
        } else {
            None
        },
        TransformationType::RowId => None,
    }
}

fn copy_strings(v: &Vec<String>) -> (r: Vec<String>)
    ensures
        texts(r@) == texts(v@),
{
    let r = v.clone();
    assert(texts(r@) =~= texts(v@));
    r
}

impl TransformationManager {
    /// A manager saving into `transformed_data`.
    pub fn new() -> (r: Self)
        ensures
            r.output_directory@ == "transformed_data"@,
    {
        TransformationManager { output_directory: String::from_str("transformed_data") }
    }

    /// The query that reads the table a request transforms.
    pub fn table_query(&self, request: &TransformationRequest) -> (r: String)
        ensures
            r@ == "SELECT * FROM "@ + request.table_name@,
    {
        let mut q = String::from_str("SELECT * FROM ");
        q.append(request.table_name.as_str());
        q
    }

    /// Checks a request against the rows of its table and lays out what to
    /// compute: the rows as text columns, the column to add, and the file
    /// `<table>_<output column>.arrow` to save the result in (inside the
    /// output directory). Fails when the table has no rows, when the first
    /// row is empty, or when the transformation lacks what it needs (a time
    /// binning also needs a bin size that reads as a number).
    pub fn apply_transformation(&self, request: &TransformationRequest, rows: &Vec<Vec<String>>) -> (r: Result<
        TransformationPlan,
        String,
    >)
        ensures
            rows@.len() == 0 ==> (r matches Err(e) && e@ == "No data found in table"@),
            rows@.len() > 0 && rows@[0]@.len() == 0 ==> (r matches Err(e) && e@
                == "No data to convert"@),
            rows@.len() > 0 && rows@[0]@.len() > 0 ==> match step_error(*request) {
                Some(m) => (r matches Err(e) && e@ == m),
                None => (r matches Ok(plan) && {
                    &&& batch_of(rows@, plan.columns@)
                    &&& step_ok(*request, plan.step)
                    &&& plan.output_file_name@ == request.table_name@ + "_"@
                        + request.output_column_name@ + ".arrow"@
                }),
            },
    {
        if rows.len() == 0 {
            return Err(String::from_str("No data found in table"));
        }
        let columns = match convert_rows_to_batch(rows) {
            Ok(c) => c,
            Err(e) => {
                return Err(e);
            },
        };
        let output = request.output_column_name.clone();
        let step = match request.transformation_type {
            TransformationType::Delta => {
                if request.selected_columns.len() != 1 {
                    return Err(String::from_str("Delta transformation requires exactly one column"));
                }
                TransformationStep::Delta { column: request.selected_columns[0].clone(), output }
            },
            TransformationType::DeltaMultiple => {
                if request.selected_columns.len() == 0 {
                    return Err(
                        String::from_str(
                            "Delta multiple transformation requires at least one column",
                        ),
                    );
                }
                TransformationStep::DeltaMultiple {
                    columns: copy_strings(&request.selected_columns),
                    output,
                }
            },
            TransformationType::TimeBin => {
                match &request.time_column {
                    Some(_) if !is_number_text(request.bin_size.as_str()) => {
                        return Err(String::from_str("Invalid bin size"));
                    },
                    Some(t) => TransformationStep::TimeBin {
                        time_column: t.clone(),
                        bin_size: request.bin_size.clone(),
                        output,
                    },
                    None => {
                        return Err(String::from_str("Time column is required for time binning"));
                    },
                }
            },
            TransformationType::RowId => {
                let grouping = match &request.grouping_columns {
                    Some(g) => Some(copy_strings(g)),
                    None => None,
                };
                TransformationStep::RowId { output, grouping }
            },
        };
        let mut file_name = request.table_name.clone();
        file_name.append("_");
        file_name.append(request.output_column_name.as_str());
        file_name.append(".arrow");
        Ok(TransformationPlan { columns, step, output_file_name: file_name })
    }
}

} // verus!
