//! Import settings of CSV files: splitting a line into fields, guessing the
//! delimiter of a header, the preview of a file's first lines, the checks on
//! table names, and the state of the import dialog.

use vstd::prelude::*;
use std::path::PathBuf;
use crate::plot_window::texts;
use crate::text::{
    chars_of, string_from_chars, trim_chars, trimmed, char_is_alphanumeric, spec_is_alphanumeric,
};

verus! {

#[verifier::external_type_specification]
#[verifier::external_body]
pub struct ExPathBuf(PathBuf);

/// Calls `Path::file_stem` and keeps the stem when it is valid UTF-8. The
/// standard library gives the stem as the file name without its final
/// extension; how a path splits into components depends on the platform, so
/// the contract states only what holds of every outcome: a stem is never
/// empty and holds no `/`, which separates components on every platform.
#[verifier::external_body]
pub(crate) fn path_file_stem(path: &PathBuf) -> (r: Option<String>)
    ensures
        r matches Some(s) ==> s@.len() > 0 && !s@.contains('/'),
{
    match path.file_stem() {
        Some(s) => match s.to_str() {
            Some(t) => Some(t.to_string()),
            None => None,
        },
        None => None,
    }
}

/// Calls `Path::file_name` and keeps the name when it is valid UTF-8. As for
/// the stem, the components of a path depend on the platform; the contract
/// states that a file name is never empty and holds no `/`.
#[verifier::external_body]
fn path_file_name(path: &PathBuf) -> (r: Option<String>)
    ensures
        r matches Some(s) ==> s@.len() > 0 && !s@.contains('/'),
{
    match path.file_name() {
        Some(s) => match s.to_str() {
            Some(t) => Some(t.to_string()),
            None => None,
        },
        None => None,
    }
}

/// Calls `PathBuf::clone`: a path with the same components.
#[verifier::external_body]
pub(crate) fn clone_path(path: &PathBuf) -> (r: PathBuf)
    ensures
        r == *path,
{
    path.clone()
}

/// The type a column is imported as.
#[derive(Debug, Clone, Copy, PartialEq, Eq, Structural)]
pub enum ColumnType {
    Text,
    Integer,
    Real,
    Boolean,
    Date,
    DateTime,
    TimeSeconds,
    TimeMilliseconds,
    TimeMicroseconds,
    TimeNanoseconds,
}

/// How a column of a file is imported.
pub struct ColumnConfig {
    pub name: String,
    pub data_type: ColumnType,
    pub included: bool,
}

/// The first lines of a file, split into fields.
pub struct PreviewData {
    pub rows: Vec<Vec<String>>,
    pub original_row_numbers: Vec<usize>,
}

/// How one CSV file is imported.
pub struct FileConfig {
    pub path: PathBuf,
    pub table_name: String,
    /// The line holding the column names, counted from one.
    pub header_row: usize,
    pub delimiter: char,
    pub sample_size: usize,
    pub columns: Vec<ColumnConfig>,
    pub null_values: Vec<String>,
    pub preview_data: Option<PreviewData>,
}

/// The texts read as a missing value unless the user changes them.
pub open spec fn default_null_values() -> Seq<Seq<char>> {
    seq![""@, "NULL"@, "null"@, "N/A"@, "-"@]
}

/// A configuration of `path` as a new file is given: its table named
/// `table_name`, the header on the first line, comma separated, a thousand
/// rows sampled, no columns yet and the default missing-value texts.
pub open spec fn fresh_file(c: FileConfig, path: PathBuf, table_name: Seq<char>) -> bool {
    &&& c.path == path
    &&& c.table_name@ == table_name
    &&& c.header_row == 1
    &&& c.delimiter == ','
    &&& c.sample_size == 1000
    &&& c.columns@.len() == 0
    &&& texts(c.null_values@) == default_null_values()
    &&& c.preview_data is None
}

/// A name that is neither empty nor holds a `/`.
pub open spec fn plain_name(s: Seq<char>) -> bool {
    s.len() > 0 && !s.contains('/')
}

/// A name `FileConfig::file_name` may give: a plain name, or `unknown`.
pub open spec fn file_name_like(name: Seq<char>) -> bool {
    plain_name(name) || name == "unknown"@
}

/// A table name `FileConfig::new` may give: a plain name, or `table`.
pub open spec fn table_name_like(name: Seq<char>) -> bool {
    plain_name(name) || name == "table"@
}

/// `c` is the configuration of `path` as a new file, its table named after
/// the file's stem or `table`.
pub open spec fn new_file_of(c: FileConfig, path: PathBuf) -> bool {
    exists|name: Seq<char>| #[trigger] fresh_file(c, path, name) && table_name_like(name)
}

/// The position of the last `.` of `name`, or -1 when it has none.
pub open spec fn last_dot(name: Seq<char>) -> int
    decreases name.len(),
{
    if name.len() == 0 {
        -1
    } else if name.last() == '.' {
        name.len() - 1
    } else {
        last_dot(name.drop_last())
    }
}

/// The stem of a file name, as `Path::file_stem` is documented to take it
/// from the file name: the whole name when it is `..`, has no `.`, or has
/// only a leading one; otherwise the part before the last `.`.
pub open spec fn stem_of_name(name: Seq<char>) -> Seq<char> {
    if name == ".."@ || last_dot(name) <= 0 {
        name
    } else {
        name.take(last_dot(name))
    }
}

proof fn lemma_last_dot(name: Seq<char>)
    ensures
        -1 <= last_dot(name) < name.len(),
        last_dot(name) >= 0 ==> name[last_dot(name)] == '.',
        forall|i: int| last_dot(name) < i < name.len() ==> name[i] != '.',
    decreases name.len(),
{
    if name.len() > 0 && name.last() != '.' {
        let d = name.drop_last();
        lemma_last_dot(d);
        assert forall|i: int| last_dot(name) < i < name.len() implies name[i] != '.' by {
            if i < d.len() {
                assert(name[i] == d[i]);
            }
        }
    }
}

/// A file's stem is its name without the last extension: a non-empty name
/// has a non-empty stem that begins the name, and what the stem leaves out
/// is a `.` followed by characters without another `.`.
pub proof fn law_stem_is_name_without_extension(name: Seq<char>)
    ensures
        name.len() > 0 ==> stem_of_name(name).len() > 0,
        name.take(stem_of_name(name).len() as int) == stem_of_name(name),
        stem_of_name(name).len() < name.len() ==> {
            &&& name[stem_of_name(name).len() as int] == '.'
            &&& !name.skip(stem_of_name(name).len() as int + 1).contains('.')
        },
        stem_of_name(name).len() == name.len() ==> name == ".."@ || forall|i: int|
            0 < i < name.len() ==> name[i] != '.',
        plain_name(name) ==> plain_name(stem_of_name(name)),
{
    lemma_last_dot(name);
    let st = stem_of_name(name);
    assert(name.take(name.len() as int) =~= name);
    if st.len() < name.len() {
        let k = last_dot(name);
        assert(st.len() == k);
        let rest = name.skip(k + 1);
        if rest.contains('.') {
            let j = choose|j: int| 0 <= j < rest.len() && #[trigger] rest[j] == '.';
            assert(name[k + 1 + j] == '.');
        }
    }
    if plain_name(name) && st.contains('/') {
        let j = choose|j: int| 0 <= j < st.len() && #[trigger] st[j] == '/';
        assert(name[j] == '/');
    }
}

/// The name a value gives, or `fallback` when there is none.
pub open spec fn name_or(name: Option<String>, fallback: Seq<char>) -> Seq<char> {
    match name {
        Some(n) => n@,
        None => fallback,
    }
}

fn default_null_value_list() -> (r: Vec<String>)
    ensures
        texts(r@) == default_null_values(),
{
    let mut v: Vec<String> = Vec::new();
    v.push(String::new());
    v.push(String::from_str("NULL"));
    v.push(String::from_str("null"));
    v.push(String::from_str("N/A"));
    v.push(String::from_str("-"));
    proof {
        reveal_strlit("");
    }
    assert(texts(v@)[0] == default_null_values()[0]);
    assert(texts(v@) =~= default_null_values());
    v
}

/// The name itself, or `unknown` when there is none.
pub fn name_or_unknown(name: Option<String>) -> (r: String)
    ensures
        r@ == name_or(name, "unknown"@),
{
    match name {
        Some(n) => n,
        None => String::from_str("unknown"),
    }
}

proof fn lemma_last_dot_at(name: Seq<char>, j: int)
    requires
        -1 <= j < name.len(),
        j >= 0 ==> name[j] == '.',
        forall|i: int| j < i < name.len() ==> name[i] != '.',
    ensures
        last_dot(name) == j,
    decreases name.len(),
{
    if name.len() > 0 && j < name.len() - 1 {
        let d = name.drop_last();
        assert forall|i: int| j < i < d.len() implies d[i] != '.' by {
            assert(d[i] == name[i]);
        }
        lemma_last_dot_at(d, j);
    }
}

/// One more than the position of the last `.` of the characters, or zero.
fn after_last_dot(cs: &Vec<char>) -> (r: usize)
    ensures
        r as int - 1 == last_dot(cs@),
        r <= cs@.len(),
{
    let n = cs.len();
    let mut k: usize = n;
    while k > 0 && cs[k - 1] != '.'
        invariant
            k <= n,
            n == cs@.len(),
            forall|i: int| k <= i < n ==> cs@[i] != '.',
        decreases k,
    {
        k = k - 1;
    }
    proof {
        lemma_last_dot_at(cs@, k as int - 1);
    }
    k
}

/// The stem of a file name: the name without its last extension (see
/// `stem_of_name`).
pub fn stem_of_file_name(name: &str) -> (r: String)
    ensures
        r@ == stem_of_name(name@),
{
    let cs = chars_of(name);
    let n = cs.len();
    let k = after_last_dot(&cs);
    let is_parent = n == 2 && cs[0] == '.' && cs[1] == '.';
    proof {
        reveal_strlit("..");
        if is_parent {
            assert(cs@ =~= ".."@);
        }
        if cs@ == ".."@ {
            assert(cs@[0] == '.' && cs@[1] == '.');
        }
    }
    if is_parent || k <= 1 {
        string_from_chars(cs.as_slice())
    } else {
        let mut out: Vec<char> = Vec::new();
        let mut i: usize = 0;
        while i < k - 1
            invariant
                i <= k - 1,
                k <= n,
                n == cs@.len(),
                out@ == cs@.take(i as int),
            decreases k - 1 - i,
        {
            out.push(cs[i]);
            assert(cs@.take(i + 1) =~= cs@.take(i as int).push(cs@[i as int]));
            i = i + 1;
        }
        string_from_chars(out.as_slice())
    }
}

/// The stem of a path's file name in UTF-8: taken from the file name when
/// it is in UTF-8 (see `stem_of_file_name`), and from `Path::file_stem`
/// otherwise. Which component is the file name follows the platform's path
/// rules; a stem is never empty and holds no `/`.
pub(crate) fn path_stem_text(path: &PathBuf) -> (r: Option<String>)
    ensures
        r matches Some(s) ==> plain_name(s@),
{
    match path_file_name(path) {
        Some(n) => {
            proof {
                law_stem_is_name_without_extension(n@);
            }
            Some(stem_of_file_name(n.as_str()))
        },
        None => path_file_stem(path),
    }
}

impl FileConfig {
    /// The configuration of a new file whose path has the given stem: the
    /// table is named after the stem, or `table` when there is none.
    pub fn with_stem(path: PathBuf, stem: Option<String>) -> (r: Self)
        ensures
            fresh_file(r, path, name_or(stem, "table"@)),
    {
        let table_name = match stem {
            Some(s) => s,
            None => String::from_str("table"),
        };
        FileConfig {
            path,
            table_name,
            header_row: 1,
            delimiter: ',',
            sample_size: 1000,
            columns: Vec::new(),
            null_values: default_null_value_list(),
            preview_data: None,
        }
    }

    /// The configuration of a new file: the table is named after the file's
    /// stem (see `path_stem_text`), or `table` when the path has none.
    pub fn new(path: PathBuf) -> (r: Self)
        ensures
            new_file_of(r, path),
    {
        let stem = path_stem_text(&path);
        let ghost table = name_or(stem, "table"@);
        let r = FileConfig::with_stem(path, stem);
        assert(fresh_file(r, path, table) && table_name_like(table));
        r
    }

    /// The file's name, or `unknown` when its path has none.
    pub fn file_name(&self) -> (r: String)
        ensures
            file_name_like(r@),
    {
        name_or_unknown(path_file_name(&self.path))
    }
}

/// What splitting a line has produced after some of its characters: the
/// finished fields, the field being read, and whether a quote is open.
pub open spec fn csv_step(st: (Seq<Seq<char>>, Seq<char>, bool), ch: char, delimiter: char) -> (
    Seq<Seq<char>>,
    Seq<char>,
    bool,
) {
    if ch == '"' {
        (st.0, st.1, !st.2)
    } else if ch == delimiter && !st.2 {
        (st.0.push(st.1), Seq::empty(), st.2)
    } else {
        (st.0, st.1.push(ch), st.2)
    }
}

/// The state after reading all of `s`: a quote mark opens or closes a quoted
/// part and is dropped, a delimiter outside quotes ends a field, any other
/// character belongs to the field being read.
pub open spec fn csv_scan(s: Seq<char>, delimiter: char) -> (Seq<Seq<char>>, Seq<char>, bool)
    decreases s.len(),
{
    if s.len() == 0 {
        (Seq::empty(), Seq::empty(), false)
    } else {
        csv_step(csv_scan(s.drop_last(), delimiter), s.last(), delimiter)
    }
}

/// The fields of a line before trimming.
pub open spec fn raw_csv_fields(s: Seq<char>, delimiter: char) -> Seq<Seq<char>> {
    let st = csv_scan(s, delimiter);
    st.0.push(st.1)
}

/// The fields of a line, each with surrounding whitespace removed.
pub open spec fn csv_fields(s: Seq<char>, delimiter: char) -> Seq<Seq<char>> {
    raw_csv_fields(s, delimiter).map_values(|f: Seq<char>| trimmed(f))
}

/// The fields written one after the other with the delimiter between them.
pub open spec fn join_fields(fields: Seq<Seq<char>>, delimiter: char) -> Seq<char>
    decreases fields.len(),
{
    if fields.len() == 0 {
        Seq::empty()
    } else if fields.len() == 1 {
        fields[0]
    } else {
        join_fields(fields.drop_last(), delimiter) + seq![delimiter] + fields.last()
    }
}

/// `s` without its quote marks.
pub open spec fn unquoted(s: Seq<char>) -> Seq<char> {
    s.filter(|c: char| c != '"')
}

/// Splitting a line loses nothing but its quote marks: the untrimmed fields,
/// joined again by the delimiter, give back the line without quote marks.
pub proof fn law_csv_split_join(s: Seq<char>, delimiter: char)
    ensures
        join_fields(raw_csv_fields(s, delimiter), delimiter) == unquoted(s),
    decreases s.len(),
{
    if s.len() == 0 {
        assert(raw_csv_fields(s, delimiter) =~= seq![Seq::<char>::empty()]);
        assert(unquoted(s) =~= Seq::<char>::empty());
    } else {
        let p = s.drop_last();
        let ch = s.last();
        law_csv_split_join(p, delimiter);
        let st = csv_scan(p, delimiter);
        assert(s.drop_last() == p);
        assert(unquoted(s) == if ch != '"' {
            unquoted(p).push(ch)
        } else {
            unquoted(p)
        }) by {
            reveal_with_fuel(Seq::filter, 1);
        }
        if ch == '"' {
        } else if ch == delimiter && !st.2 {
            let f = st.0.push(st.1);
            assert(raw_csv_fields(s, delimiter) == f.push(Seq::<char>::empty()));
            assert(f.push(Seq::<char>::empty()).drop_last() =~= f);
            assert(join_fields(f.push(Seq::<char>::empty()), delimiter) =~= join_fields(f, delimiter)
                + seq![delimiter] + Seq::<char>::empty());
            assert(join_fields(f, delimiter) + seq![delimiter] + Seq::<char>::empty() =~= unquoted(
                p,
            ).push(delimiter));
        } else {
            let g = st.0.push(st.1.push(ch));
            assert(raw_csv_fields(s, delimiter) == g);
            if st.0.len() == 0 {
                assert(join_fields(g, delimiter) == st.1.push(ch));
                assert(join_fields(st.0.push(st.1), delimiter) == st.1);
            } else {
                assert(g.drop_last() =~= st.0);
                assert(st.0.push(st.1).drop_last() =~= st.0);
                assert(join_fields(g, delimiter) =~= join_fields(st.0, delimiter) + seq![delimiter]
                    + st.1.push(ch));
                assert(join_fields(st.0.push(st.1), delimiter) =~= join_fields(st.0, delimiter)
                    + seq![delimiter] + st.1);
                assert(join_fields(g, delimiter) =~= join_fields(st.0.push(st.1), delimiter).push(
                    ch,
                ));
            }
        }
    }
}

proof fn lemma_scan_no_break(s: Seq<char>, delimiter: char)
    requires
        !s.contains(delimiter),
        !s.contains('"'),
    ensures
        csv_scan(s, delimiter) == (Seq::<Seq<char>>::empty(), s, false),
    decreases s.len(),
{
    if s.len() > 0 {
        let p = s.drop_last();
        assert forall|c: char| c == delimiter || c == '"' implies !p.contains(c) by {
            if p.contains(c) {
                let w = choose|w: int| 0 <= w < p.len() && p[w] == c;
                assert(s[w] == c);
            }
        }
        lemma_scan_no_break(p, delimiter);
        assert(s[s.len() - 1] == s.last());
        assert(p.push(s.last()) =~= s);
    }
}

/// A line with neither the delimiter nor a quote mark is a single field: the
/// line without its surrounding whitespace.
pub proof fn law_csv_single_field(s: Seq<char>, delimiter: char)
    requires
        !s.contains(delimiter),
        !s.contains('"'),
    ensures
        csv_fields(s, delimiter) == seq![trimmed(s)],
{
    lemma_scan_no_break(s, delimiter);
    assert(raw_csv_fields(s, delimiter) =~= seq![s]);
    assert(csv_fields(s, delimiter) =~= seq![trimmed(s)]);
}

/// Splits a line into fields at each delimiter outside double quotes; quote
/// marks are dropped and each field is trimmed of surrounding whitespace.
fn split_csv_line(line: &str, delimiter: char) -> (r: Vec<String>)
    ensures
        texts(r@) == csv_fields(line@, delimiter),
{
    let cs = chars_of(line);
    let mut row: Vec<String> = Vec::new();
    let mut current: Vec<char> = Vec::new();
    let mut in_quotes = false;
    let mut i: usize = 0;
    while i < cs.len()
        invariant
            i <= cs.len(),
            cs@ == line@,
            ({
                let st = csv_scan(cs@.take(i as int), delimiter);
                &&& texts(row@) == st.0.map_values(|f: Seq<char>| trimmed(f))
                &&& current@ == st.1
                &&& in_quotes == st.2
            }),
        decreases cs.len() - i,
    {
        let ch = cs[i];
        assert(cs@.take(i + 1).drop_last() =~= cs@.take(i as int));
        assert(cs@.take(i + 1).last() == ch);
        let ghost st = csv_scan(cs@.take(i as int), delimiter);
        if ch == '"' {
            in_quotes = !in_quotes;
        } else if ch == delimiter && !in_quotes {
            let ghost before = texts(row@);
            let field = trim_chars(current.as_slice());
            let text = string_from_chars(field.as_slice());
            row.push(text);
            assert(texts(row@) =~= before.push(trimmed(st.1)));
            assert(st.0.push(st.1).map_values(|f: Seq<char>| trimmed(f)) =~= st.0.map_values(
                |f: Seq<char>| trimmed(f),
            ).push(trimmed(st.1)));
            current = Vec::new();
        } else {
            current.push(ch);
        }
        i = i + 1;
    }
    assert(cs@.take(cs.len() as int) =~= line@);
    let ghost st = csv_scan(line@, delimiter);
    let ghost before = texts(row@);
    let field = trim_chars(current.as_slice());
    let text = string_from_chars(field.as_slice());
    row.push(text);
    assert(texts(row@) =~= before.push(trimmed(st.1)));
    assert(st.0.push(st.1).map_values(|f: Seq<char>| trimmed(f)) =~= st.0.map_values(
        |f: Seq<char>| trimmed(f),
    ).push(trimmed(st.1)));
    row
}

/// The delimiters a header is tried with, in order.
pub open spec fn candidate_delimiters() -> Seq<char> {
    seq![',', '\t', ';', '|']
}

/// The number of fields `s` splits into at `delimiter`.
pub open spec fn field_count(s: Seq<char>, delimiter: char) -> nat {
    csv_fields(s, delimiter).len()
}

/// After trying `cands` in order: the delimiter giving the most fields, more
/// than one, with that count; the first on a tie; a comma and zero when none
/// gives more than one field.
pub open spec fn best_candidate(s: Seq<char>, cands: Seq<char>) -> (char, nat)
    decreases cands.len(),
{
    if cands.len() == 0 {
        (',', 0)
    } else {
        let best = best_candidate(s, cands.drop_last());
        let n = field_count(s, cands.last());
        if n > best.1 && n > 1 {
            (cands.last(), n)
        } else {
            best
        }
    }
}

/// The delimiter a header line most likely uses.
pub open spec fn inferred_delimiter(s: Seq<char>) -> char {
    best_candidate(s, candidate_delimiters()).0
}

proof fn lemma_best_candidate(s: Seq<char>, cands: Seq<char>)
    ensures
        ({
            let (c, n) = best_candidate(s, cands);
            &&& (n == 0 && c == ',') || (cands.contains(c) && n == field_count(s, c) && n > 1)
            &&& forall|k: int|
                0 <= k < cands.len() && field_count(s, cands[k]) > 1 ==> field_count(
                    s,
                    #[trigger] cands[k],
                ) <= n
        }),
    decreases cands.len(),
{
    if cands.len() > 0 {
        let p = cands.drop_last();
        lemma_best_candidate(s, p);
        let (c, n) = best_candidate(s, p);
        if p.contains(c) {
            let w = choose|w: int| 0 <= w < p.len() && p[w] == c;
            assert(cands[w] == c);
        }
        assert forall|k: int|
            0 <= k < cands.len() && field_count(s, cands[k]) > 1 implies field_count(
            s,
            #[trigger] cands[k],
        ) <= best_candidate(s, cands).1 by {
            if k < cands.len() - 1 {
                assert(cands[k] == p[k]);
            }
        }
        assert(cands[cands.len() - 1] == cands.last());
    }
}

/// The delimiter guessed for a header is one of the candidates: comma, tab,
/// semicolon or pipe.
pub proof fn law_inferred_delimiter_is_candidate(s: Seq<char>)
    ensures
        candidate_delimiters().contains(inferred_delimiter(s)),
{
    lemma_best_candidate(s, candidate_delimiters());
    assert(candidate_delimiters()[0] == ',');
}

/// No candidate splits a header into more fields than the delimiter guessed
/// for it, unless none splits it at all; and when the guess is not a comma,
/// it splits the header into more than one field.
pub proof fn law_inferred_delimiter_splits_most(s: Seq<char>, d: char)
    requires
        candidate_delimiters().contains(d),
    ensures
        field_count(s, d) > 1 ==> field_count(s, d) <= field_count(s, inferred_delimiter(s)),
        inferred_delimiter(s) != ',' ==> field_count(s, inferred_delimiter(s)) > 1,
{
    let cands = candidate_delimiters();
    lemma_best_candidate(s, cands);
    let w = choose|w: int| 0 <= w < cands.len() && cands[w] == d;
    assert(field_count(s, cands[w]) == field_count(s, d));
}

/// The name shown for a delimiter.
pub open spec fn delimiter_name(c: char) -> Seq<char> {
    if c == ',' {
        "Comma"@
    } else if c == '\t' {
        "Tab"@
    } else if c == ';' {
        "Semicolon"@
    } else if c == '|' {
        "Pipe"@
    } else {
        "Unknown"@
    }
}

fn delimiter_candidates() -> (r: Vec<char>)
    ensures
        r@ == candidate_delimiters(),
{
    let mut v: Vec<char> = Vec::new();
    v.push(',');
    v.push('\t');
    v.push(';');
    v.push('|');
    assert(v@ =~= candidate_delimiters());
    v
}

/// A line with a carriage return before its line feed, without it.
pub open spec fn strip_cr(s: Seq<char>) -> Seq<char> {
    if s.len() > 0 && s.last() == '\r' {
        s.drop_last()
    } else {
        s
    }
}

/// The finished lines and the line being read after reading all of `s`.
pub open spec fn line_scan(s: Seq<char>) -> (Seq<Seq<char>>, Seq<char>)
    decreases s.len(),
{
    if s.len() == 0 {
        (Seq::empty(), Seq::empty())
    } else {
        let st = line_scan(s.drop_last());
        if s.last() == '\n' {
            (st.0.push(strip_cr(st.1)), Seq::empty())
        } else {
            (st.0, st.1.push(s.last()))
        }
    }
}

/// The lines of a text as `str::lines` gives them: split at each line feed,
/// a carriage return just before it dropped, and no empty last line after a
/// final line feed.
pub open spec fn text_lines(s: Seq<char>) -> Seq<Seq<char>> {
    let st = line_scan(s);
    if st.1.len() == 0 {
        st.0
    } else {
        st.0.push(st.1)
    }
}

/// The lines of a text.
pub fn split_lines(text: &str) -> (r: Vec<String>)
    ensures
        texts(r@) == text_lines(text@),
{
    let cs = chars_of(text);
    let mut lines: Vec<String> = Vec::new();
    let mut current: Vec<char> = Vec::new();
    let mut i: usize = 0;
    while i < cs.len()
        invariant
            i <= cs.len(),
            cs@ == text@,
            texts(lines@) == line_scan(cs@.take(i as int)).0,
            current@ == line_scan(cs@.take(i as int)).1,
        decreases cs.len() - i,
    {
        let ch = cs[i];
        assert(cs@.take(i + 1).drop_last() =~= cs@.take(i as int));
        assert(cs@.take(i + 1).last() == ch);
        if ch == '\n' {
            let ghost before = texts(lines@);
            let ghost cur = current@;
            let n = current.len();
            if n > 0 && current[n - 1] == '\r' {
                current.pop();
            }
            assert(current@ =~= strip_cr(cur));
            let line = string_from_chars(current.as_slice());
            lines.push(line);
            assert(texts(lines@) =~= before.push(strip_cr(cur)));
            current = Vec::new();
        } else {
            current.push(ch);
        }
        i = i + 1;
    }
    assert(cs@.take(cs.len() as int) =~= text@);
    if current.len() > 0 {
        let ghost before = texts(lines@);
        lines.push(string_from_chars(current.as_slice()));
        assert(texts(lines@) =~= before.push(current@));
    }
    lines
}

/// The texts of a table's rows.
pub open spec fn row_texts(rows: Seq<Vec<String>>) -> Seq<Seq<Seq<char>>> {
    rows.map_values(|r: Vec<String>| texts(r@))
}

/// The largest number of lines a preview shows.
pub const PREVIEW_LINES: usize = 50;

/// The first lines of a text split into fields, at most fifty of them.
pub open spec fn preview_rows(text: Seq<char>, delimiter: char) -> Seq<Seq<Seq<char>>> {
    let lines = text_lines(text);
    let n = if lines.len() < PREVIEW_LINES {
        lines.len()
    } else {
        PREVIEW_LINES as nat
    };
    lines.take(n as int).map_values(|l: Seq<char>| csv_fields(l, delimiter))
}

/// The index of the header among the rows, for a header line counted from one.
pub open spec fn header_index(header_row: usize) -> int {
    if header_row == 0 {
        0
    } else {
        header_row - 1
    }
}

/// A row read as data: it has a first field and that field does not start
/// a comment.
pub open spec fn data_row(row: Seq<Seq<char>>) -> bool {
    row.len() > 0 && !(row[0].len() > 0 && row[0][0] == '#')
}

/// At most the first `n` items of `s`.
pub open spec fn first_n<A>(s: Seq<A>, n: nat) -> Seq<A> {
    if n < s.len() {
        s.take(n as int)
    } else {
        s
    }
}

/// The rows after the header that are read as data, at most `n` of them.
pub open spec fn sample_rows(rows: Seq<Seq<Seq<char>>>, header: int, n: nat) -> Seq<Seq<Seq<char>>> {
    let after = if header + 1 <= rows.len() {
        rows.skip(header + 1)
    } else {
        Seq::empty()
    };
    first_n(after.filter(|r: Seq<Seq<char>>| data_row(r)), n)
}

/// A row is read as data exactly when it has a field and its first field
/// does not begin with `#`; a row whose first field is empty (a missing
/// value) is data.
pub proof fn law_data_rows(row: Seq<Seq<char>>)
    ensures
        data_row(row) <==> row.len() > 0 && (row[0].len() == 0 || row[0][0] != '#'),
        row.len() > 0 && row[0].len() == 0 ==> data_row(row),
{
}

/// The sample holds no comment or empty row, and, when it may hold as many
/// rows as there are, it holds every row after the header whose first field
/// is empty or does not begin with `#`.
pub proof fn law_sample_rows(rows: Seq<Seq<Seq<char>>>, header: int, n: nat, k: int)
    requires
        0 <= header,
    ensures
        forall|i: int|
            0 <= i < sample_rows(rows, header, n).len() ==> (#[trigger] sample_rows(
                rows,
                header,
                n,
            )[i]).len() > 0 && (sample_rows(rows, header, n)[i][0].len() == 0 || sample_rows(
                rows,
                header,
                n,
            )[i][0][0] != '#'),
        header < k < rows.len() && n >= rows.len() && rows[k].len() > 0 && (rows[k][0].len() == 0
            || rows[k][0][0] != '#') ==> sample_rows(rows, header, n).contains(rows[k]),
{
    let after = if header + 1 <= rows.len() {
        rows.skip(header + 1)
    } else {
        Seq::empty()
    };
    let pred = |r: Seq<Seq<char>>| data_row(r);
    let f = after.filter(pred);
    broadcast use vstd::seq_lib::group_filter_ensures;
    assert(f.len() <= after.len());
    assert forall|i: int| 0 <= i < sample_rows(rows, header, n).len() implies (#[trigger] sample_rows(
        rows,
        header,
        n,
    )[i]).len() > 0 && (sample_rows(rows, header, n)[i][0].len() == 0 || sample_rows(
        rows,
        header,
        n,
    )[i][0][0] != '#') by {
        assert(sample_rows(rows, header, n)[i] == f[i]);
        assert(pred(f[i]));
    }
    if header < k < rows.len() && n >= rows.len() && rows[k].len() > 0 && (rows[k][0].len() == 0
        || rows[k][0][0] != '#') {
        assert(after[k - header - 1] == rows[k]);
        after.lemma_filter_contains(pred, k - header - 1);
        assert(sample_rows(rows, header, n) == f);
    }
}

fn copy_strings(v: &Vec<String>) -> (r: Vec<String>)
    ensures
        texts(r@) == texts(v@),
{
    let r = v.clone();
    assert(texts(r@) =~= texts(v@));
    r
}

/// Whether a row of fields is read as data.
fn is_data_row(row: &Vec<String>) -> (r: bool)
    ensures
        r == data_row(texts(row@)),
{
    if row.len() == 0 {
        return false;
    }
    let first = row[0].as_str();
    if first.is_empty() {
        return true;
    }
    let c = first.get_char(0);
    c != '#'
}

/// The rows after the header row that are read as data, at most
/// `sample_size` of them.
pub fn sample_after_header(rows: &Vec<Vec<String>>, header_index: usize, sample_size: usize) -> (r: Vec<
    Vec<String>,
>)
    ensures
        row_texts(r@) == sample_rows(row_texts(rows@), header_index as int, sample_size as nat),
{
    let ghost all = row_texts(rows@);
    let mut out: Vec<Vec<String>> = Vec::new();
    let mut i: usize = 0;
    while i < rows.len()
        invariant
            i <= rows.len(),
            all == row_texts(rows@),
            ({
                let seen = if i <= header_index {
                    Seq::<Seq<Seq<char>>>::empty()
                } else {
                    all.subrange(header_index + 1, i as int)
                };
                row_texts(out@) == first_n(
                    seen.filter(|r: Seq<Seq<char>>| data_row(r)),
                    sample_size as nat,
                )
            }),
        decreases rows.len() - i,
    {
        let ghost seen = if i <= header_index {
            Seq::<Seq<Seq<char>>>::empty()
        } else {
            all.subrange(header_index + 1, i as int)
        };
        let ghost seen2 = if i + 1 <= header_index {
            Seq::<Seq<Seq<char>>>::empty()
        } else {
            all.subrange(header_index + 1, i + 1)
        };
        let ghost f = seen.filter(|r: Seq<Seq<char>>| data_row(r));
        let ghost f2 = seen2.filter(|r: Seq<Seq<char>>| data_row(r));
        if i > header_index {
            assert(seen2.drop_last() =~= seen);
            assert(seen2.last() == all[i as int]);
            assert(f2 == if data_row(all[i as int]) {
                f.push(all[i as int])
            } else {
                f
            }) by {
                reveal_with_fuel(Seq::filter, 1);
            }
        } else {
            assert(seen2 =~= seen);
        }
        if i > header_index && out.len() < sample_size && is_data_row(&rows[i]) {
            let ghost before = row_texts(out@);
            let row = copy_strings(&rows[i]);
            out.push(row);
            assert(row_texts(out@) =~= before.push(all[i as int]));
            assert(f.len() < sample_size);
            assert(first_n(f2, sample_size as nat) =~= f.push(all[i as int]));
        } else if i > header_index && is_data_row(&rows[i]) {
            assert(first_n(f2, sample_size as nat) =~= first_n(f, sample_size as nat));
        }
        i = i + 1;
    }
    proof {
        if rows.len() > header_index {
            assert(all.subrange(header_index + 1, rows.len() as int) =~= all.skip(
                header_index + 1,
            ));
        }
    }
    out
}

/// The preview of a file's text: its first lines (at most fifty) split at
/// `delimiter`, with, when the header line is among them, the header's
/// fields and the rows sampled after it. Fails when the text has no line.
pub fn preview_of_text(text: &str, delimiter: char, header_row: usize, sample_size: usize) -> (r:
    Result<(Vec<Vec<String>>, Option<(Vec<String>, Vec<Vec<String>>)>), String>)
    ensures
        text_lines(text@).len() == 0 <==> r is Err,
        r matches Err(e) ==> e@ == "No data found in file"@,
        r matches Ok((rows, header)) ==> {
            let p = preview_rows(text@, delimiter);
            &&& row_texts(rows@) == p
            &&& match header {
                Some((h, sample)) => {
                    &&& header_index(header_row) < p.len()
                    &&& texts(h@) == p[header_index(header_row)]
                    &&& row_texts(sample@) == sample_rows(
                        p,
                        header_index(header_row),
                        sample_size as nat,
                    )
                },
                None => header_index(header_row) >= p.len(),
            }
        },
{
    let lines = split_lines(text);
    if lines.len() == 0 {
        return Err(String::from_str("No data found in file"));
    }
    let ghost ls = text_lines(text@);
    let n = if lines.len() < PREVIEW_LINES {
        lines.len()
    } else {
        PREVIEW_LINES
    };
    let mut rows: Vec<Vec<String>> = Vec::new();
    let mut i: usize = 0;
    while i < n
        invariant
            i <= n,
            n <= lines.len(),
            texts(lines@) == ls,
            row_texts(rows@) == ls.take(i as int).map_values(
                |l: Seq<char>| csv_fields(l, delimiter),
            ),
        decreases n - i,
    {
        let ghost before = row_texts(rows@);
        let row = split_csv_line(lines[i].as_str(), delimiter);
        rows.push(row);
        assert(ls[i as int] == lines@[i as int]@);
        assert(row_texts(rows@) =~= before.push(csv_fields(ls[i as int], delimiter)));
        assert(ls.take(i + 1).map_values(|l: Seq<char>| csv_fields(l, delimiter)) =~= ls.take(
            i as int,
        ).map_values(|l: Seq<char>| csv_fields(l, delimiter)).push(csv_fields(ls[i as int], delimiter)));
        i = i + 1;
    }
    let header_idx: usize = if header_row == 0 {
        0
    } else {
        header_row - 1
    };
    if header_idx < rows.len() {
        let headers = copy_strings(&rows[header_idx]);
        let sample = sample_after_header(&rows, header_idx, sample_size);
        Ok((rows, Some((headers, sample))))
    } else {
        Ok((rows, None))
    }
}

/// What stops the files from being imported, for the first file at fault.
#[derive(Debug, Clone, Copy, PartialEq, Eq, Structural)]
pub enum ConstraintIssue {
    /// The file at this index has an empty table name.
    EmptyTableName(usize),
    /// The table name of the file at this index holds a character other than
    /// a letter, a digit or an underscore.
    InvalidCharacters(usize),
    /// The file at this index imports no column.
    NoColumns(usize),
    /// The file at this index has the table name of an earlier file.
    DuplicateName(usize),
}

/// The index of the file an issue is about.
pub open spec fn issue_index(issue: ConstraintIssue) -> usize {
    match issue {
        ConstraintIssue::EmptyTableName(i) => i,
        ConstraintIssue::InvalidCharacters(i) => i,
        ConstraintIssue::NoColumns(i) => i,
        ConstraintIssue::DuplicateName(i) => i,
    }
}

/// A table name made of letters, digits and underscores only.
pub open spec fn valid_name_chars(name: Seq<char>) -> bool {
    forall|k: int| 0 <= k < name.len() ==> spec_is_alphanumeric(#[trigger] name[k]) || name[k] == '_'
}

/// Some column of the file is imported.
pub open spec fn imports_a_column(f: FileConfig) -> bool {
    exists|k: int| 0 <= k < f.columns@.len() && (#[trigger] f.columns@[k]).included
}

/// What is wrong with one file on its own, checked in this order.
pub open spec fn own_issue(f: FileConfig, i: usize) -> Option<ConstraintIssue> {
    if f.table_name@.len() == 0 {
        Some(ConstraintIssue::EmptyTableName(i))
    } else if !valid_name_chars(f.table_name@) {
        Some(ConstraintIssue::InvalidCharacters(i))
    } else if !imports_a_column(f) {
        Some(ConstraintIssue::NoColumns(i))
    } else {
        None
    }
}

/// The first file, from index `i` on, with an issue of its own.
pub open spec fn own_issue_from(files: Seq<FileConfig>, i: int) -> Option<ConstraintIssue>
    decreases files.len() - i,
{
    if i < 0 || i >= files.len() || files.len() > usize::MAX {
        None
    } else {
        match own_issue(files[i], i as usize) {
            Some(issue) => Some(issue),
            None => own_issue_from(files, i + 1),
        }
    }
}

/// The file at `j` repeats the table name of an earlier file.
pub open spec fn repeats_name(files: Seq<FileConfig>, j: int) -> bool {
    exists|k: int| 0 <= k < j && files[k].table_name@ == (#[trigger] files[j]).table_name@
}

/// The first file, from index `j` on, that repeats an earlier table name.
pub open spec fn duplicate_from(files: Seq<FileConfig>, j: int) -> Option<ConstraintIssue>
    decreases files.len() - j,
{
    if j < 0 || j >= files.len() || files.len() > usize::MAX {
        None
    } else if repeats_name(files, j) {
        Some(ConstraintIssue::DuplicateName(j as usize))
    } else {
        duplicate_from(files, j + 1)
    }
}

/// What stops the files from being imported: the first file with an issue of
/// its own, or else the first that repeats a table name.
pub open spec fn constraint_issue(files: Seq<FileConfig>) -> Option<ConstraintIssue> {
    match own_issue_from(files, 0) {
        Some(issue) => Some(issue),
        None => duplicate_from(files, 0),
    }
}

/// The message for an issue, given the file name of the file at fault.
pub open spec fn issue_message(issue: ConstraintIssue, files: Seq<FileConfig>, file_name: Seq<char>) -> Seq<char> {
    match issue {
        ConstraintIssue::EmptyTableName(_) => "File '"@ + file_name + "' has an empty table name"@,
        ConstraintIssue::InvalidCharacters(i) => "Table name '"@ + files[i as int].table_name@
            + "' contains invalid characters. Use only letters, numbers, and underscores."@,
        ConstraintIssue::NoColumns(i) => "Table '"@ + files[i as int].table_name@
            + "' has no columns selected. Select at least one column to include."@,
        ConstraintIssue::DuplicateName(i) => "Duplicate table name '"@ + files[i as int].table_name@
            + "'. Each table must have a unique name."@,
    }
}

/// `m` is the message for `issue`, with a file name `FileConfig::file_name`
/// may give.
pub open spec fn issue_message_of(m: Seq<char>, issue: ConstraintIssue, files: Seq<FileConfig>) -> bool {
    exists|name: Seq<char>| file_name_like(name) && m == #[trigger] issue_message(issue, files, name)
}

/// `label` is a file's name, as `FileConfig::file_name` may give it,
/// marked with a check when the file's columns are known.
pub open spec fn file_label_of(label: Seq<char>, f: FileConfig) -> bool {
    exists|name: Seq<char>|
        file_name_like(name) && label == #[trigger] labelled(
            name,
            configured(f),
        )
}

/// A file name, marked with a check when `marked`.
pub open spec fn labelled(name: Seq<char>, marked: bool) -> Seq<char> {
    if marked {
        name + " ✓"@
    } else {
        name
    }
}

/// The message for a file that could not be imported.
pub open spec fn import_message(name: Seq<char>, error: Seq<char>) -> Seq<char> {
    "Failed to import "@ + name + ": "@ + error
}

/// `m` is the message for a file, with a name `FileConfig::file_name` may
/// give, that could not be imported.
pub open spec fn import_failure_message(m: Seq<char>, error: Seq<char>) -> bool {
    exists|name: Seq<char>| file_name_like(name) && m == #[trigger] import_message(name, error)
}

/// Some file is configured: its columns are known.
pub open spec fn configured(f: FileConfig) -> bool {
    f.columns@.len() > 0
}

/// The project can be created: it has a folder and files, and every file
/// has a table name and imports a column.
pub open spec fn ready_to_create(d: FileConfigDialog) -> bool {
    &&& d.database_path is Some
    &&& d.files@.len() > 0
    &&& forall|i: int|
        0 <= i < d.files@.len() ==> (#[trigger] d.files@[i]).table_name@.len() > 0
            && imports_a_column(d.files@[i])
}

/// The files of `a` are those of `b` but the one at `i`.
pub open spec fn others_kept(a: Seq<FileConfig>, b: Seq<FileConfig>, i: int) -> bool {
    &&& a.len() == b.len()
    &&& forall|k: int| 0 <= k < a.len() && k != i ==> a[k] == b[k]
}

/// `v` kept between `lo` and `hi`.
pub open spec fn clamped(v: usize, lo: usize, hi: usize) -> usize {
    if v < lo {
        lo
    } else if v > hi {
        hi
    } else {
        v
    }
}

fn clamp(v: usize, lo: usize, hi: usize) -> (r: usize)
    ensures
        r == clamped(v, lo, hi),
{
    if v < lo {
        lo
    } else if v > hi {
        hi
    } else {
        v
    }
}

/// How creating the project's database went.
pub enum DatabaseCreation {
    /// The database could not be opened.
    OpenFailed(String),
    /// The file at `file_index` could not be imported.
    ImportFailed { file_index: usize, error: String },
    /// The tables could not be saved.
    SaveFailed(String),
    /// Every file was imported and saved.
    Created,
}

fn valid_table_name(name: &str) -> (r: bool)
    ensures
        r == valid_name_chars(name@),
{
    let cs = chars_of(name);
    let mut i: usize = 0;
    while i < cs.len()
        invariant
            i <= cs.len(),
            cs@ == name@,
            forall|k: int| 0 <= k < i ==> spec_is_alphanumeric(#[trigger] cs@[k]) || cs@[k] == '_',
        decreases cs.len() - i,
    {
        let c = cs[i];
        if !(char_is_alphanumeric(c) || c == '_') {
            return false;
        }
        i = i + 1;
    }
    true
}

fn any_included(columns: &Vec<ColumnConfig>) -> (r: bool)
    ensures
        r == exists|k: int| 0 <= k < columns@.len() && (#[trigger] columns@[k]).included,
{
    let mut i: usize = 0;
    while i < columns.len()
        invariant
            i <= columns.len(),
            forall|k: int| 0 <= k < i ==> !(#[trigger] columns@[k]).included,
        decreases columns.len() - i,
    {
        if columns[i].included {
            return true;
        }
        i = i + 1;
    }
    false
}

/// The delimiter guessed from the first field of the header row of a file's
/// preview; a comma when there is no preview or no such field.
pub open spec fn file_inferred_delimiter(f: FileConfig) -> char {
    match f.preview_data {
        Some(p) => {
            let rows = row_texts(p.rows@);
            let h = header_index(f.header_row);
            if h < rows.len() && rows[h].len() > 0 {
                inferred_delimiter(rows[h][0])
            } else {
                ','
            }
        },
        None => ',',
    }
}

/// The rows a new column type is checked against: those after the line
/// after the header row, at most `n` of them.
pub open spec fn type_sample(rows: Seq<Seq<Seq<char>>>, header_row: usize, n: nat) -> Seq<Seq<Seq<char>>> {
    first_n(
        if header_row + 1 <= rows.len() {
            rows.skip(header_row + 1)
        } else {
            Seq::empty()
        },
        n,
    )
}

/// The columns named by `headers` with the types inferred for them, all
/// imported; as many as both have.
pub open spec fn zipped_columns(cols: Seq<ColumnConfig>, headers: Seq<Seq<char>>, types: Seq<ColumnType>) -> bool {
    &&& cols.len() == if headers.len() < types.len() {
        headers.len()
    } else {
        types.len()
    }
    &&& forall|k: int|
        0 <= k < cols.len() ==> {
            &&& (#[trigger] cols[k]).name@ == headers[k]
            &&& cols[k].data_type == types[k]
            &&& cols[k].included
        }
}

/// The dialog that configures the import of several CSV files.
pub struct FileConfigDialog {
    pub show: bool,
    pub database_path: Option<PathBuf>,
    pub files: Vec<FileConfig>,
    pub current_file_index: usize,
    pub create_database: bool,
    pub null_value_input: String,
    pub error: Option<String>,
    pub needs_resampling: bool,
}

impl FileConfigDialog {
    /// A hidden dialog without project folder or files.
    pub fn new() -> (r: Self)
        ensures
            !r.show,
            r.database_path is None,
            r.files@.len() == 0,
            r.current_file_index == 0,
            !r.create_database,
            r.null_value_input@.len() == 0,
            r.error is None,
            !r.needs_resampling,
    {
        FileConfigDialog {
            show: false,
            database_path: None,
            files: Vec::new(),
            current_file_index: 0,
            create_database: false,
            null_value_input: String::new(),
            error: None,
            needs_resampling: false,
        }
    }

    /// Shows the dialog for a project in `path`, without files.
    pub fn open(&mut self, path: PathBuf)
        ensures
            *final(self) == (FileConfigDialog {
                database_path: final(self).database_path,
                show: final(self).show,
                create_database: final(self).create_database,
                files: final(self).files,
                current_file_index: final(self).current_file_index,
                ..*old(self)
            }),
            final(self).database_path == Some(path),
            final(self).show,
            !final(self).create_database,
            final(self).files@.len() == 0,
            final(self).current_file_index == 0,
    {
        self.database_path = Some(path);
        self.show = true;
        self.create_database = false;
        self.files.clear();
        self.current_file_index = 0;
    }

    /// Forgets the files, the error and the missing-value text being typed.
    pub fn reset(&mut self)
        ensures
            *final(self) == (FileConfigDialog {
                files: final(self).files,
                current_file_index: final(self).current_file_index,
                error: final(self).error,
                null_value_input: final(self).null_value_input,
                needs_resampling: final(self).needs_resampling,
                ..*old(self)
            }),
            final(self).files@.len() == 0,
            final(self).current_file_index == 0,
            final(self).error is None,
            final(self).null_value_input@.len() == 0,
            !final(self).needs_resampling,
    {
        self.files.clear();
        self.current_file_index = 0;
        self.error = None;
        self.null_value_input = String::new();
        self.needs_resampling = false;
    }

    /// Adds a file, configured as new, and makes it the current one. Its
    /// preview is then loaded with `load_preview_for_current_file`.
    pub fn add_file(&mut self, path: PathBuf)
        ensures
            *final(self) == (FileConfigDialog {
                files: final(self).files,
                current_file_index: final(self).current_file_index,
                ..*old(self)
            }),
            final(self).files@.len() == old(self).files@.len() + 1,
            final(self).files@.take(old(self).files@.len() as int) == old(self).files@,
            new_file_of(final(self).files@.last(), path),
            final(self).current_file_index == old(self).files@.len(),
    {
        let config = FileConfig::new(path);
        self.files.push(config);
        self.current_file_index = self.files.len() - 1;
        assert(self.files@.take(old(self).files@.len() as int) =~= old(self).files@);
    }

    /// Starts a project in `project_path` from the chosen CSV files: the
    /// dialog is reset and shown, and each file is added in order, the last
    /// being current. Nothing happens when no file was chosen.
    pub fn open_with_csv_selection(&mut self, project_path: PathBuf, csv_files: Vec<PathBuf>)
        ensures
            csv_files@.len() == 0 ==> *final(self) == *old(self),
            csv_files@.len() > 0 ==> {
                &&& final(self).database_path == Some(project_path)
                &&& final(self).show
                &&& !final(self).create_database
                &&& final(self).error is None
                &&& final(self).null_value_input@.len() == 0
                &&& !final(self).needs_resampling
                &&& final(self).files@.len() == csv_files@.len()
                &&& final(self).current_file_index == csv_files@.len() - 1
                &&& forall|k: int|
                    0 <= k < csv_files@.len() ==> new_file_of(
                        #[trigger] final(self).files@[k],
                        csv_files@[k],
                    )
            },
    {
        if csv_files.len() == 0 {
            return;
        }
        self.reset();
        self.database_path = Some(project_path);
        self.show = true;
        self.create_database = false;
        self.files.clear();
        self.current_file_index = 0;
        let mut i: usize = 0;
        while i < csv_files.len()
            invariant
                i <= csv_files.len(),
                self.files@.len() == i,
                self.database_path == Some(project_path),
                self.show,
                !self.create_database,
                self.error is None,
                self.null_value_input@.len() == 0,
                !self.needs_resampling,
                i > 0 ==> self.current_file_index == i - 1,
                forall|k: int| 0 <= k < i ==> new_file_of(#[trigger] self.files@[k], csv_files@[k]),
            decreases csv_files.len() - i,
        {
            let ghost before = self.files@;
            let path = clone_path(&csv_files[i]);
            self.add_file(path);
            assert forall|k: int| 0 <= k < i + 1 implies new_file_of(
                #[trigger] self.files@[k],
                csv_files@[k],
            ) by {
                if k < i {
                    assert(self.files@[k] == self.files@.take(i as int)[k]);
                    assert(self.files@.take(i as int) == before);
                } else {
                    assert(self.files@[k] == self.files@.last());
                }
            }
            i = i + 1;
        }
    }

    /// What stops the files from being imported, if anything.
    pub fn constraint_issue(&self) -> (r: Option<ConstraintIssue>)
        ensures
            r == constraint_issue(self.files@),
            r matches Some(issue) ==> issue_index(issue) < self.files@.len(),
    {
        let n = self.files.len();
        let mut i: usize = 0;
        while i < n
            invariant
                i <= n,
                n == self.files@.len(),
                own_issue_from(self.files@, 0) == own_issue_from(self.files@, i as int),
            decreases n - i,
        {
            let f = &self.files[i];
            if f.table_name.as_str().is_empty() {
                return Some(ConstraintIssue::EmptyTableName(i));
            }
            if !valid_table_name(f.table_name.as_str()) {
                return Some(ConstraintIssue::InvalidCharacters(i));
            }
            if !any_included(&f.columns) {
                return Some(ConstraintIssue::NoColumns(i));
            }
            assert(own_issue(self.files@[i as int], i) is None);
            i = i + 1;
        }
        assert(own_issue_from(self.files@, n as int) is None);
        let mut j: usize = 0;
        while j < n
            invariant
                j <= n,
                n == self.files@.len(),
                own_issue_from(self.files@, 0) is None,
                duplicate_from(self.files@, 0) == duplicate_from(self.files@, j as int),
            decreases n - j,
        {
            let mut k: usize = 0;
            while k < j
                invariant
                    k <= j < n,
                    n == self.files@.len(),
                    own_issue_from(self.files@, 0) is None,
                    duplicate_from(self.files@, 0) == duplicate_from(self.files@, j as int),
                    forall|m: int|
                        0 <= m < k ==> self.files@[m].table_name@ != self.files@[j as int].table_name@,
                decreases j - k,
            {
                if self.files[k].table_name == self.files[j].table_name {
                    assert(repeats_name(self.files@, j as int));
                    assert(duplicate_from(self.files@, j as int) == Some(
                        ConstraintIssue::DuplicateName(j),
                    ));
                    return Some(ConstraintIssue::DuplicateName(j));
                }
                k = k + 1;
            }
            assert(!repeats_name(self.files@, j as int));
            j = j + 1;
        }
        None
    }

    /// The message for what stops the files from being imported, if
    /// anything. The file name in the message for an empty table name is the
    /// one `FileConfig::file_name` gives.
    pub fn validate_constraints(&self) -> (r: Option<String>)
        ensures
            r is None <==> constraint_issue(self.files@) is None,
            r matches Some(m) ==> issue_message_of(m@, constraint_issue(self.files@)->0, self.files@),
    {
        let issue = self.constraint_issue();
        match issue {
            None => None,
            Some(ConstraintIssue::EmptyTableName(i)) => {
                let name = self.files[i].file_name();
                let mut m = String::from_str("File '");
                m.append(name.as_str());
                m.append("' has an empty table name");
                assert(file_name_like(name@) && m@ == issue_message(issue->0, self.files@, name@));
                Some(m)
            },
            Some(ConstraintIssue::InvalidCharacters(i)) => {
                let mut m = String::from_str("Table name '");
                m.append(self.files[i].table_name.as_str());
                m.append(
                    "' contains invalid characters. Use only letters, numbers, and underscores.",
                );
                assert(file_name_like("unknown"@) && m@ == issue_message(
                    issue->0,
                    self.files@,
                    "unknown"@,
                ));
                Some(m)
            },
            Some(ConstraintIssue::NoColumns(i)) => {
                let mut m = String::from_str("Table '");
                m.append(self.files[i].table_name.as_str());
                m.append("' has no columns selected. Select at least one column to include.");
                assert(file_name_like("unknown"@) && m@ == issue_message(
                    issue->0,
                    self.files@,
                    "unknown"@,
                ));
                Some(m)
            },
            Some(ConstraintIssue::DuplicateName(i)) => {
                let mut m = String::from_str("Duplicate table name '");
                m.append(self.files[i].table_name.as_str());
                m.append("'. Each table must have a unique name.");
                assert(file_name_like("unknown"@) && m@ == issue_message(
                    issue->0,
                    self.files@,
                    "unknown"@,
                ));
                Some(m)
            },
        }
    }

    /// Whether the project can be created: it has a folder and files, and
    /// every file has a table name and imports a column.
    pub fn can_create(&self) -> (r: bool)
        ensures
            r == ready_to_create(*self),
    {
        if self.database_path.is_none() || self.files.len() == 0 {
            return false;
        }
        let mut i: usize = 0;
        while i < self.files.len()
            invariant
                i <= self.files.len(),
                forall|k: int|
                    0 <= k < i ==> (#[trigger] self.files@[k]).table_name@.len() > 0
                        && imports_a_column(self.files@[k]),
            decreases self.files.len() - i,
        {
            if self.files[i].table_name.as_str().is_empty() || !any_included(&self.files[i].columns) {
                return false;
            }
            i = i + 1;
        }
        true
    }

    /// The user asked to create the project: when it can be created, either
    /// the first issue is shown or the creation is requested.
    pub fn create_clicked(&mut self)
        ensures
            *final(self) == (FileConfigDialog {
                create_database: final(self).create_database,
                error: final(self).error,
                ..*old(self)
            }),
            !ready_to_create(*old(self)) ==> *final(self) == *old(self),
            ready_to_create(*old(self)) && constraint_issue(old(self).files@) is None ==> {
                &&& final(self).create_database
                &&& final(self).error == old(self).error
            },
            ready_to_create(*old(self)) && constraint_issue(old(self).files@) is Some ==> {
                &&& final(self).create_database == old(self).create_database
                &&& final(self).error matches Some(m) && issue_message_of(
                    m@,
                    constraint_issue(old(self).files@)->0,
                    old(self).files@,
                )
            },
    {
        if !self.can_create() {
            return;
        }
        match self.validate_constraints() {
            Some(e) => {
                self.error = Some(e);
            },
            None => {
                self.create_database = true;
            },
        }
    }

    /// The number of files whose columns are known.
    pub fn configured_count(&self) -> (r: usize)
        ensures
            r == self.files@.filter(|f: FileConfig| configured(f)).len(),
    {
        let ghost fs = self.files@;
        let mut count: usize = 0;
        let mut i: usize = 0;
        while i < self.files.len()
            invariant
                i <= self.files.len(),
                fs == self.files@,
                count == fs.take(i as int).filter(|f: FileConfig| configured(f)).len(),
                count <= i,
            decreases self.files.len() - i,
        {
            assert(fs.take(i + 1).drop_last() =~= fs.take(i as int));
            assert(fs.take(i + 1).last() == fs[i as int]);
            proof {
                reveal_with_fuel(Seq::filter, 1);
            }
            if self.files[i].columns.len() > 0 {
                count = count + 1;
            }
            i = i + 1;
        }
        assert(fs.take(self.files.len() as int) =~= fs);
        count
    }

    /// The label of each file in the file list: its name, marked with a
    /// check when its columns are known.
    pub fn file_labels(&self) -> (r: Vec<String>)
        ensures
            r@.len() == self.files@.len(),
            forall|k: int| 0 <= k < r@.len() ==> file_label_of((#[trigger] r@[k])@, self.files@[k]),
    {
        let mut labels: Vec<String> = Vec::new();
        let mut i: usize = 0;
        while i < self.files.len()
            invariant
                i <= self.files.len(),
                labels@.len() == i,
                forall|k: int| 0 <= k < i ==> file_label_of((#[trigger] labels@[k])@, self.files@[k]),
            decreases self.files.len() - i,
        {
            let name = self.files[i].file_name();
            let mut label = name.clone();
            if self.files[i].columns.len() > 0 {
                label.append(" ✓");
            }
            assert(file_name_like(name@) && label@ == labelled(name@, configured(self.files@[i as int])));
            labels.push(label);
            assert(labels@[i as int] == label);
            i = i + 1;
        }
        labels
    }

    /// Sets the header line of the current file, kept between one and fifty;
    /// a change asks for a new preview.
    pub fn set_header_row(&mut self, row: usize)
        ensures
            *final(self) == (FileConfigDialog {
                files: final(self).files,
                needs_resampling: final(self).needs_resampling,
                ..*old(self)
            }),
            others_kept(final(self).files@, old(self).files@, old(self).current_file_index as int),
            old(self).current_file_index < old(self).files@.len() ==> {
                let i = old(self).current_file_index as int;
                let v = clamped(row, 1, 50);
                &&& final(self).files@[i] == (FileConfig { header_row: v, ..old(self).files@[i] })
                &&& final(self).needs_resampling == (old(self).needs_resampling || v
                    != old(self).files@[i].header_row)
            },
            old(self).current_file_index >= old(self).files@.len() ==> final(self).needs_resampling
                == old(self).needs_resampling,
    {
        let i = self.current_file_index;
        if i < self.files.len() {
            let v = clamp(row, 1, 50);
            if v != self.files[i].header_row {
                self.files[i].header_row = v;
                self.needs_resampling = true;
            }
        }
    }

    /// Sets the number of rows sampled from the current file, kept between a
    /// hundred and ten thousand; a change asks for a new preview.
    pub fn set_sample_size(&mut self, size: usize)
        ensures
            *final(self) == (FileConfigDialog {
                files: final(self).files,
                needs_resampling: final(self).needs_resampling,
                ..*old(self)
            }),
            others_kept(final(self).files@, old(self).files@, old(self).current_file_index as int),
            old(self).current_file_index < old(self).files@.len() ==> {
                let i = old(self).current_file_index as int;
                let v = clamped(size, 100, 10000);
                &&& final(self).files@[i] == (FileConfig { sample_size: v, ..old(self).files@[i] })
                &&& final(self).needs_resampling == (old(self).needs_resampling || v
                    != old(self).files@[i].sample_size)
            },
            old(self).current_file_index >= old(self).files@.len() ==> final(self).needs_resampling
                == old(self).needs_resampling,
    {
        let i = self.current_file_index;
        if i < self.files.len() {
            let v = clamp(size, 100, 10000);
            if v != self.files[i].sample_size {
                self.files[i].sample_size = v;
                self.needs_resampling = true;
            }
        }
    }

    /// Sets the delimiter of the current file.
    pub fn set_delimiter(&mut self, delimiter: char)
        ensures
            *final(self) == (FileConfigDialog {
                files: final(self).files,
                ..*old(self)
            }),
            others_kept(final(self).files@, old(self).files@, old(self).current_file_index as int),
            old(self).current_file_index < old(self).files@.len() ==> {
                let i = old(self).current_file_index as int;
                final(self).files@[i] == (FileConfig { delimiter, ..old(self).files@[i] })
            },
    {
        let i = self.current_file_index;
        if i < self.files.len() {
            self.files[i].delimiter = delimiter;
        }
    }

    /// The delimiter guessed from the current file's header, if there is a
    /// current file.
    pub fn inferred_delimiter(&self) -> (r: Option<char>)
        ensures
            self.current_file_index < self.files@.len() ==> r == Some(
                file_inferred_delimiter(self.files@[self.current_file_index as int]),
            ),
            self.current_file_index >= self.files@.len() ==> r is None,
    {
        let i = self.current_file_index;
        if i >= self.files.len() {
            return None;
        }
        let f = &self.files[i];
        match &f.preview_data {
            Some(p) => {
                let h: usize = if f.header_row == 0 {
                    0
                } else {
                    f.header_row - 1
                };
                if h < p.rows.len() && p.rows[h].len() > 0 {
                    assert(row_texts(p.rows@)[h as int] == texts(p.rows@[h as int]@));
                    Some(FileConfigDialog::infer_delimiter_from_header(p.rows[h][0].as_str()))
                } else {
                    Some(',')
                }
            },
            None => Some(','),
        }
    }

    /// Adds the missing-value text being typed to the current file, unless it
    /// is blank, and clears it.
    pub fn add_null_value(&mut self)
        ensures
            *final(self) == (FileConfigDialog {
                files: final(self).files,
                null_value_input: final(self).null_value_input,
                ..*old(self)
            }),
            others_kept(final(self).files@, old(self).files@, old(self).current_file_index as int),
            ({
                let i = old(self).current_file_index as int;
                if i < old(self).files@.len() && trimmed(old(self).null_value_input@).len() > 0 {
                    &&& texts(final(self).files@[i].null_values@) == texts(
                        old(self).files@[i].null_values@,
                    ).push(old(self).null_value_input@)
                    &&& final(self).files@[i] == (FileConfig {
                        null_values: final(self).files@[i].null_values,
                        ..old(self).files@[i]
                    })
                    &&& final(self).null_value_input@.len() == 0
                } else {
                    &&& final(self).files == old(self).files
                    &&& final(self).null_value_input == old(self).null_value_input
                }
            }),
    {
        let i = self.current_file_index;
        if i >= self.files.len() {
            return;
        }
        let cs = chars_of(self.null_value_input.as_str());
        let t = trim_chars(cs.as_slice());
        if t.len() == 0 {
            return;
        }
        let ghost before = texts(self.files@[i as int].null_values@);
        let value = self.null_value_input.clone();
        self.files[i].null_values.push(value);
        assert(texts(self.files@[i as int].null_values@) =~= before.push(old(self).null_value_input@));
        self.null_value_input = String::new();
    }

    /// Removes the missing-value text at `index` from the current file.
    pub fn remove_null_value(&mut self, index: usize)
        ensures
            *final(self) == (FileConfigDialog {
                files: final(self).files,
                ..*old(self)
            }),
            others_kept(final(self).files@, old(self).files@, old(self).current_file_index as int),
            ({
                let i = old(self).current_file_index as int;
                if i < old(self).files@.len() && index < old(self).files@[i].null_values@.len() {
                    &&& final(self).files@[i].null_values@ == old(self).files@[i].null_values@.remove(
                        index as int,
                    )
                    &&& final(self).files@[i] == (FileConfig {
                        null_values: final(self).files@[i].null_values,
                        ..old(self).files@[i]
                    })
                } else {
                    final(self).files == old(self).files
                }
            }),
    {
        let i = self.current_file_index;
        if i < self.files.len() && index < self.files[i].null_values.len() {
            self.files[i].null_values.remove(index);
        }
    }

    /// Includes, or leaves out, every column of the current file.
    pub fn set_all_included(&mut self, included: bool)
        ensures
            *final(self) == (FileConfigDialog {
                files: final(self).files,
                ..*old(self)
            }),
            others_kept(final(self).files@, old(self).files@, old(self).current_file_index as int),
            old(self).current_file_index < old(self).files@.len() ==> {
                let i = old(self).current_file_index as int;
                let before = old(self).files@[i].columns@;
                let after = final(self).files@[i].columns@;
                &&& after.len() == before.len()
                &&& forall|k: int|
                    0 <= k < after.len() ==> (#[trigger] after[k]) == (ColumnConfig {
                        included,
                        ..before[k]
                    })
                &&& final(self).files@[i] == (FileConfig {
                    columns: final(self).files@[i].columns,
                    ..old(self).files@[i]
                })
            },
            old(self).current_file_index >= old(self).files@.len() ==> final(self).files == old(
                self,
            ).files,
    {
        let i = self.current_file_index;
        if i >= self.files.len() {
            return;
        }
        let ghost before = self.files@[i as int].columns@;
        let mut c: usize = 0;
        while c < self.files[i].columns.len()
            invariant
                i < self.files@.len(),
                i == self.current_file_index,
                others_kept(self.files@, old(self).files@, i as int),
                *self == (FileConfigDialog { files: self.files, ..*old(self) }),
                self.files@[i as int].columns@.len() == before.len(),
                self.files@[i as int] == (FileConfig {
                    columns: self.files@[i as int].columns,
                    ..old(self).files@[i as int]
                }),
                before == old(self).files@[i as int].columns@,
                c <= before.len(),
                forall|k: int|
                    0 <= k < c ==> (#[trigger] self.files@[i as int].columns@[k]) == (ColumnConfig {
                        included,
                        ..before[k]
                    }),
                forall|k: int|
                    c <= k < before.len() ==> (#[trigger] self.files@[i as int].columns@[k])
                        == before[k],
            decreases before.len() - c,
        {
            self.files[i].columns[c].included = included;
            c = c + 1;
        }
    }

    /// The rows a new type for a column of the current file is checked
    /// against; none when there is no current file or no preview.
    pub fn type_change_sample(&self) -> (r: Option<Vec<Vec<String>>>)
        ensures
            ({
                let i = self.current_file_index as int;
                if i < self.files@.len() && self.files@[i].preview_data is Some {
                    let f = self.files@[i];
                    r matches Some(rows) && row_texts(rows@) == type_sample(
                        row_texts(f.preview_data->0.rows@),
                        f.header_row,
                        f.sample_size as nat,
                    )
                } else {
                    r is None
                }
            }),
    {
        let i = self.current_file_index;
        if i >= self.files.len() {
            return None;
        }
        let f = &self.files[i];
        match &f.preview_data {
            None => None,
            Some(p) => {
                let ghost all = row_texts(p.rows@);
                let mut out: Vec<Vec<String>> = Vec::new();
                if f.header_row < p.rows.len() {
                    let start = f.header_row + 1;
                    let mut k: usize = start;
                    while k < p.rows.len() && out.len() < f.sample_size
                        invariant
                            start <= k <= p.rows.len(),
                            start == f.header_row + 1,
                            all == row_texts(p.rows@),
                            out@.len() == k - start,
                            out@.len() <= f.sample_size,
                            row_texts(out@) == all.subrange(start as int, k as int),
                        decreases p.rows.len() - k,
                    {
                        let ghost before = row_texts(out@);
                        out.push(copy_strings(&p.rows[k]));
                        assert(row_texts(out@) =~= before.push(all[k as int]));
                        assert(all.subrange(start as int, k + 1) =~= all.subrange(
                            start as int,
                            k as int,
                        ).push(all[k as int]));
                        k = k + 1;
                    }
                    proof {
                        let sk = all.skip(start as int);
                        if k == p.rows.len() {
                            assert(sk =~= all.subrange(start as int, k as int));
                        } else {
                            assert(out@.len() == f.sample_size);
                            assert(sk.take(f.sample_size as int) =~= all.subrange(
                                start as int,
                                k as int,
                            ));
                        }
                    }
                } else {
                    assert(row_texts(out@) =~= Seq::<Seq<Seq<char>>>::empty());
                    assert(type_sample(all, f.header_row, f.sample_size as nat) =~= Seq::<
                        Seq<Seq<char>>,
                    >::empty());
                }
                Some(out)
            },
        }
    }

    /// Changes the type of a column of the current file. With a preview the
    /// change depends on `check`, the verdict on the rows of
    /// `type_change_sample`: accepted, or refused with the message shown.
    /// Without a preview the change is made. Nothing happens when the type
    /// is the same or there is no such column.
    pub fn change_column_type(&mut self, column: usize, new_type: ColumnType, check: Result<(), String>)
        ensures
            *final(self) == (FileConfigDialog {
                files: final(self).files,
                error: final(self).error,
                ..*old(self)
            }),
            others_kept(final(self).files@, old(self).files@, old(self).current_file_index as int),
            ({
                let i = old(self).current_file_index as int;
                if i < old(self).files@.len() && column < old(self).files@[i].columns@.len()
                    && old(self).files@[i].columns@[column as int].data_type != new_type {
                    let f = old(self).files@[i];
                    let changed = (FileConfig {
                        columns: final(self).files@[i].columns,
                        ..f
                    }) == final(self).files@[i] && final(self).files@[i].columns@ == f.columns@.update(
                        column as int,
                        ColumnConfig { data_type: new_type, ..f.columns@[column as int] },
                    );
                    if f.preview_data is Some && check is Err {
                        &&& final(self).files == old(self).files
                        &&& final(self).error == Some(check->Err_0)
                    } else {
                        &&& changed
                        &&& final(self).error == old(self).error
                    }
                } else {
                    &&& final(self).files == old(self).files
                    &&& final(self).error == old(self).error
                }
            }),
    {
        let i = self.current_file_index;
        if i >= self.files.len() || column >= self.files[i].columns.len() {
            return;
        }
        if self.files[i].columns[column].data_type == new_type {
            return;
        }
        if self.files[i].preview_data.is_some() {
            match check {
                Err(e) => {
                    self.error = Some(e);
                    return;
                },
                Ok(()) => {},
            }
        }
        self.files[i].columns[column].data_type = new_type;
    }

    /// Loads the preview of the current file from its text, or says why it
    /// could not be read. When the header line is among the first lines,
    /// the result holds its fields and the rows sampled after it, for the
    /// column types to be inferred and set with `set_inferred_columns`.
    /// Only the current file's preview and the error change; nothing
    /// happens without a current file.
    pub fn load_preview_for_current_file(&mut self, content: Result<String, String>) -> (r: Option<
        (Vec<String>, Vec<Vec<String>>),
    >)
        ensures
            others_kept(final(self).files@, old(self).files@, old(self).current_file_index as int),
            *final(self) == (FileConfigDialog {
                files: final(self).files,
                error: final(self).error,
                ..*old(self)
            }),
            ({
                let i = old(self).current_file_index as int;
                if i >= old(self).files@.len() {
                    &&& r is None
                    &&& *final(self) == *old(self)
                } else {
                    let f = old(self).files@[i];
                    match content {
                        Err(e) => {
                            &&& r is None
                            &&& final(self).files == old(self).files
                            &&& final(self).error matches Some(m) && m@ == "Failed to load preview: "@
                                + e@
                        },
                        Ok(text) => if text_lines(text@).len() == 0 {
                            &&& r is None
                            &&& final(self).files == old(self).files
                            &&& final(self).error matches Some(m) && m@ == "No data found in file"@
                        } else {
                            let p = preview_rows(text@, f.delimiter);
                            let g = final(self).files@[i];
                            &&& final(self).error == old(self).error
                            &&& g == (FileConfig { preview_data: g.preview_data, ..f })
                            &&& g.preview_data matches Some(pd) && row_texts(pd.rows@) == p
                                && pd.original_row_numbers@.len() == 0
                            &&& if header_index(f.header_row) < p.len() {
                                r matches Some((h, sample)) && texts(h@) == p[header_index(
                                    f.header_row,
                                )] && row_texts(sample@) == sample_rows(
                                    p,
                                    header_index(f.header_row),
                                    f.sample_size as nat,
                                )
                            } else {
                                r is None
                            }
                        },
                    }
                }
            }),
    {
        let i = self.current_file_index;
        if i >= self.files.len() {
            return None;
        }
        match content {
            Err(e) => {
                let mut m = String::from_str("Failed to load preview: ");
                m.append(e.as_str());
                self.error = Some(m);
                None
            },
            Ok(text) => {
                let f = &self.files[i];
                match preview_of_text(text.as_str(), f.delimiter, f.header_row, f.sample_size) {
                    Err(e) => {
                        self.error = Some(e);
                        None
                    },
                    Ok((rows, header)) => {
                        self.files[i].preview_data = Some(
                            PreviewData { rows, original_row_numbers: Vec::new() },
                        );
                        header
                    },
                }
            },
        }
    }

    /// Sets the columns of the current file from its header's fields and the
    /// types inferred for them, all imported.
    pub fn set_inferred_columns(&mut self, headers: Vec<String>, types: Vec<ColumnType>)
        ensures
            *final(self) == (FileConfigDialog {
                files: final(self).files,
                ..*old(self)
            }),
            others_kept(final(self).files@, old(self).files@, old(self).current_file_index as int),
            old(self).current_file_index < old(self).files@.len() ==> {
                let i = old(self).current_file_index as int;
                let g = final(self).files@[i];
                &&& g == (FileConfig { columns: g.columns, ..old(self).files@[i] })
                &&& zipped_columns(g.columns@, texts(headers@), types@)
            },
            old(self).current_file_index >= old(self).files@.len() ==> final(self).files == old(
                self,
            ).files,
    {
        let i = self.current_file_index;
        if i >= self.files.len() {
            return;
        }
        let mut cols: Vec<ColumnConfig> = Vec::new();
        let mut k: usize = 0;
        while k < headers.len() && k < types.len()
            invariant
                k <= headers.len(),
                k <= types.len(),
                cols@.len() == k,
                forall|m: int|
                    0 <= m < k ==> {
                        &&& (#[trigger] cols@[m]).name@ == headers@[m]@
                        &&& cols@[m].data_type == types@[m]
                        &&& cols@[m].included
                    },
            decreases headers.len() - k,
        {
            cols.push(ColumnConfig { name: headers[k].clone(), data_type: types[k], included: true });
            k = k + 1;
        }
        self.files[i].columns = cols;
    }

    /// The background creation of the project ended: when it completed the
    /// dialog closes and gives the project folder; when it failed the error
    /// is shown.
    pub fn finish_processing(&mut self, outcome: Result<(), String>) -> (r: Option<PathBuf>)
        ensures
            *final(self) == (FileConfigDialog {
                show: final(self).show,
                error: final(self).error,
                ..*old(self)
            }),
            match outcome {
                Ok(()) => {
                    &&& r == old(self).database_path
                    &&& !final(self).show
                    &&& final(self).error == old(self).error
                },
                Err(m) => {
                    &&& r is None
                    &&& final(self).show == old(self).show
                    &&& final(self).error == Some(m)
                },
            },
    {
        match outcome {
            Ok(()) => {
                self.show = false;
                match &self.database_path {
                    Some(p) => Some(clone_path(p)),
                    None => None,
                }
            },
            Err(m) => {
                self.error = Some(m);
                None
            },
        }
    }

    /// The creation of the project's database ended. When every file was
    /// imported and saved the dialog closes and gives the project folder;
    /// otherwise it shows why and drops the request. Without a project folder
    /// nothing was created and the request is dropped.
    pub fn finish_database_creation(&mut self, outcome: DatabaseCreation) -> (r: Option<PathBuf>)
        requires
            outcome matches DatabaseCreation::ImportFailed { file_index, .. } ==> file_index
                < old(self).files@.len(),
        ensures
            *final(self) == (FileConfigDialog {
                show: final(self).show,
                create_database: final(self).create_database,
                error: final(self).error,
                ..*old(self)
            }),
            old(self).database_path is None ==> {
                &&& r is None
                &&& !final(self).create_database
                &&& final(self).error == old(self).error
                &&& final(self).show == old(self).show
            },
            old(self).database_path is Some ==> match outcome {
                DatabaseCreation::Created => {
                    &&& r == old(self).database_path
                    &&& !final(self).show
                    &&& final(self).create_database == old(self).create_database
                    &&& final(self).error == old(self).error
                },
                DatabaseCreation::OpenFailed(e) => {
                    &&& r is None
                    &&& !final(self).create_database
                    &&& final(self).show == old(self).show
                    &&& final(self).error matches Some(m) && m@ == "Failed to create database: "@
                        + e@
                },
                DatabaseCreation::SaveFailed(e) => {
                    &&& r is None
                    &&& !final(self).create_database
                    &&& final(self).show == old(self).show
                    &&& final(self).error matches Some(m) && m@
                        == "Failed to save tables to persistence: "@ + e@
                },
                DatabaseCreation::ImportFailed { file_index, error } => {
                    &&& r is None
                    &&& !final(self).create_database
                    &&& final(self).show == old(self).show
                    &&& final(self).error matches Some(m) && import_failure_message(m@, error@)
                },
            },
    {
        if self.database_path.is_none() {
            self.create_database = false;
            return None;
        }
        match outcome {
            DatabaseCreation::Created => {
                self.show = false;
                match &self.database_path {
                    Some(p) => Some(clone_path(p)),
                    None => None,
                }
            },
            DatabaseCreation::OpenFailed(e) => {
                let mut m = String::from_str("Failed to create database: ");
                m.append(e.as_str());
                self.error = Some(m);
                self.create_database = false;
                None
            },
            DatabaseCreation::SaveFailed(e) => {
                let mut m = String::from_str("Failed to save tables to persistence: ");
                m.append(e.as_str());
                self.error = Some(m);
                self.create_database = false;
                None
            },
            DatabaseCreation::ImportFailed { file_index, error } => {
                let name = self.files[file_index].file_name();
                let mut m = String::from_str("Failed to import ");
                m.append(name.as_str());
                m.append(": ");
                m.append(error.as_str());
                assert(file_name_like(name@) && m@ == import_message(name@, error@));
                self.error = Some(m);
                self.create_database = false;
                None
            },
        }
    }
    /// Splits a line into fields at each delimiter outside double quotes.
    pub fn parse_csv_line(line: &str, delimiter: char) -> (r: Vec<String>)
        ensures
            texts(r@) == csv_fields(line@, delimiter),
    {
        split_csv_line(line, delimiter)
    }

    /// The delimiter among comma, tab, semicolon and pipe that splits the
    /// header into the most fields (more than one); the first of them on a
    /// tie, and a comma when none splits it.
    pub fn infer_delimiter_from_header(header_line: &str) -> (r: char)
        ensures
            r == inferred_delimiter(header_line@),
    {
        let delimiters = delimiter_candidates();
        let mut best_delimiter: char = ',';
        let mut max_fields: usize = 0;
        let mut i: usize = 0;
        while i < delimiters.len()
            invariant
                i <= delimiters.len(),
                delimiters@ == candidate_delimiters(),
                (best_delimiter, max_fields as nat) == best_candidate(
                    header_line@,
                    candidate_delimiters().take(i as int),
                ),
            decreases delimiters.len() - i,
        {
            let d = delimiters[i];
            let fields = split_csv_line(header_line, d);
            assert(fields@.len() == texts(fields@).len());
            assert(candidate_delimiters().take(i + 1).drop_last() =~= candidate_delimiters().take(
                i as int,
            ));
            if fields.len() > max_fields && fields.len() > 1 {
                max_fields = fields.len();
                best_delimiter = d;
            }
            i = i + 1;
        }
        assert(candidate_delimiters().take(4) =~= candidate_delimiters());
        best_delimiter
    }

    /// The name shown for a delimiter.
    pub fn delimiter_display_name(delimiter: char) -> (r: &'static str)
        ensures
            r@ == delimiter_name(delimiter),
    {
        if delimiter == ',' {
            "Comma"
        } else if delimiter == '\t' {
            "Tab"
        } else if delimiter == ';' {
            "Semicolon"
        } else if delimiter == '|' {
            "Pipe"
        } else {
            "Unknown"
        }
    }
}

} // verus!
