use std::path::PathBuf;
use fresh::csv_import::CsvImportDialog;
use fresh::file_config::{
    FileConfig, FileConfigDialog, ColumnConfig, ColumnType, ConstraintIssue, DatabaseCreation, split_lines,
    preview_of_text, sample_after_header, name_or_unknown,
};

fn strings(items: &[&str]) -> Vec<String> {
    items.iter().map(|s| s.to_string()).collect()
}

fn column(name: &str, included: bool) -> ColumnConfig {
    ColumnConfig { name: name.to_string(), data_type: ColumnType::Text, included }
}

#[test]
fn csv_line_splits_at_delimiters_and_trims() {
    assert_eq!(FileConfigDialog::parse_csv_line("a, b ,c", ','), strings(&["a", "b", "c"]));
    assert_eq!(FileConfigDialog::parse_csv_line("", ','), strings(&[""]));
    assert_eq!(FileConfigDialog::parse_csv_line("a,,b,", ','), strings(&["a", "", "b", ""]));
}

#[test]
fn csv_line_keeps_quoted_delimiters_and_drops_quotes() {
    assert_eq!(FileConfigDialog::parse_csv_line("\"x, y\",z", ','), strings(&["x, y", "z"]));
    assert_eq!(FileConfigDialog::parse_csv_line("a;\"b;c\";d", ';'), strings(&["a", "b;c", "d"]));
}

#[test]
fn csv_line_without_delimiter_is_one_trimmed_field() {
    assert_eq!(FileConfigDialog::parse_csv_line("  hello world  ", ','), strings(&["hello world"]));
}

#[test]
fn csv_split_join_law_example() {
    let line = "p,\"q,r\",s";
    let fields = FileConfigDialog::parse_csv_line(line, ',');
    assert_eq!(fields.join(","), line.replace('"', ""));
}

#[test]
fn delimiter_inference() {
    assert_eq!(FileConfigDialog::infer_delimiter_from_header("a,b,c"), ',');
    assert_eq!(FileConfigDialog::infer_delimiter_from_header("a\tb\tc"), '\t');
    assert_eq!(FileConfigDialog::infer_delimiter_from_header("a;b;c,d"), ';');
    assert_eq!(FileConfigDialog::infer_delimiter_from_header("a|b|c|d"), '|');
    assert_eq!(FileConfigDialog::infer_delimiter_from_header("single"), ',');
    assert_eq!(FileConfigDialog::infer_delimiter_from_header("a,b;c"), ',');
}

#[test]
fn delimiter_names() {
    assert_eq!(FileConfigDialog::delimiter_display_name(','), "Comma");
    assert_eq!(FileConfigDialog::delimiter_display_name('\t'), "Tab");
    assert_eq!(FileConfigDialog::delimiter_display_name(';'), "Semicolon");
    assert_eq!(FileConfigDialog::delimiter_display_name('|'), "Pipe");
    assert_eq!(FileConfigDialog::delimiter_display_name('x'), "Unknown");
}

#[test]
fn lines_as_str_lines_gives_them() {
    let texts = ["", "a", "a\n", "a\nb", "a\r\nb\r\n", "foo\nbar\n\r\nbaz\r", "\n\n"];
    for t in texts.iter() {
        let expected: Vec<String> = t.lines().map(|l| l.to_string()).collect();
        assert_eq!(split_lines(t), expected, "text {:?}", t);
    }
}

#[test]
fn new_file_config_defaults() {
    let c = FileConfig::new(PathBuf::from("data/sales.csv"));
    assert_eq!(c.table_name, "sales");
    assert_eq!(c.header_row, 1);
    assert_eq!(c.delimiter, ',');
    assert_eq!(c.sample_size, 1000);
    assert!(c.columns.is_empty());
    assert_eq!(c.null_values, strings(&["", "NULL", "null", "N/A", "-"]));
    assert!(c.preview_data.is_none());
    assert_eq!(c.file_name(), "sales.csv");
}

#[test]
fn file_config_names_without_stem() {
    let c = FileConfig::with_stem(PathBuf::from("/"), None);
    assert_eq!(c.table_name, "table");
    assert_eq!(c.file_name(), "unknown");
    assert_eq!(name_or_unknown(Some("x.csv".to_string())), "x.csv");
}

#[test]
fn preview_of_a_text() {
    let text = "# comment\nname,age\nann,3\n#skip,1\nbob,4\n";
    let (rows, header) = preview_of_text(text, ',', 2, 10).unwrap();
    assert_eq!(rows.len(), 5);
    assert_eq!(rows[1], strings(&["name", "age"]));
    let (h, sample) = header.unwrap();
    assert_eq!(h, strings(&["name", "age"]));
    assert_eq!(sample, vec![strings(&["ann", "3"]), strings(&["bob", "4"])]);
    let (_, none) = preview_of_text(text, ',', 9, 10).unwrap();
    assert!(none.is_none());
    assert_eq!(preview_of_text("", ',', 1, 10).unwrap_err(), "No data found in file");
}

#[test]
fn preview_keeps_at_most_fifty_lines() {
    let text: String = (0..80).map(|i| format!("{}\n", i)).collect();
    let (rows, header) = preview_of_text(&text, ',', 1, 5).unwrap();
    assert_eq!(rows.len(), 50);
    let (_, sample) = header.unwrap();
    assert_eq!(sample.len(), 5);
    assert_eq!(sample[0], strings(&["1"]));
}

#[test]
fn sample_stops_at_sample_size() {
    let rows = vec![strings(&["h"]), strings(&["1"]), strings(&["2"]), strings(&["3"])];
    assert_eq!(sample_after_header(&rows, 0, 2), vec![strings(&["1"]), strings(&["2"])]);
    assert_eq!(sample_after_header(&rows, 3, 2), Vec::<Vec<String>>::new());
}

fn dialog_with(names: &[&str]) -> FileConfigDialog {
    let mut d = FileConfigDialog::new();
    d.open(PathBuf::from("project"));
    for n in names {
        d.add_file(PathBuf::from(format!("{}.csv", n)));
    }
    for f in d.files.iter_mut() {
        f.columns = vec![column("a", true)];
    }
    d
}

#[test]
fn constraints_of_table_names() {
    let d = dialog_with(&["one", "two"]);
    assert_eq!(d.constraint_issue(), None);
    assert_eq!(d.validate_constraints(), None);
    assert!(d.can_create());

    let mut d = dialog_with(&["one", "two"]);
    d.files[1].table_name = "bad name".to_string();
    assert_eq!(d.constraint_issue(), Some(ConstraintIssue::InvalidCharacters(1)));
    assert_eq!(
        d.validate_constraints().unwrap(),
        "Table name 'bad name' contains invalid characters. Use only letters, numbers, and underscores."
    );

    let mut d = dialog_with(&["one", "two"]);
    d.files[0].table_name = String::new();
    assert_eq!(d.constraint_issue(), Some(ConstraintIssue::EmptyTableName(0)));
    assert_eq!(d.validate_constraints().unwrap(), "File 'one.csv' has an empty table name");
    assert!(!d.can_create());

    let mut d = dialog_with(&["one", "two"]);
    d.files[1].columns = vec![column("a", false)];
    assert_eq!(d.constraint_issue(), Some(ConstraintIssue::NoColumns(1)));
    assert_eq!(
        d.validate_constraints().unwrap(),
        "Table 'two' has no columns selected. Select at least one column to include."
    );

    let d = dialog_with(&["same", "other", "same"]);
    assert_eq!(d.constraint_issue(), Some(ConstraintIssue::DuplicateName(2)));
    assert_eq!(
        d.validate_constraints().unwrap(),
        "Duplicate table name 'same'. Each table must have a unique name."
    );
}

#[test]
fn create_clicked_requests_creation_or_shows_issue() {
    let mut d = dialog_with(&["one"]);
    d.create_clicked();
    assert!(d.create_database);
    let mut d = dialog_with(&["a_b", "a_b"]);
    d.create_clicked();
    assert!(!d.create_database);
    assert_eq!(d.error.as_deref(), Some("Duplicate table name 'a_b'. Each table must have a unique name."));
}

#[test]
fn dialog_file_list() {
    let mut d = FileConfigDialog::new();
    d.open_with_csv_selection(PathBuf::from("proj"), vec![PathBuf::from("x/a.csv"), PathBuf::from("b.csv")]);
    assert!(d.show);
    assert_eq!(d.files.len(), 2);
    assert_eq!(d.current_file_index, 1);
    assert_eq!(d.files[0].table_name, "a");
    d.files[0].columns = vec![column("c", true)];
    assert_eq!(d.configured_count(), 1);
    assert_eq!(d.file_labels(), strings(&["a.csv ✓", "b.csv"]));
    let before = d.files.len();
    d.open_with_csv_selection(PathBuf::from("other"), Vec::new());
    assert_eq!(d.files.len(), before);
}

#[test]
fn header_row_and_sample_size_are_clamped() {
    let mut d = dialog_with(&["t"]);
    d.set_header_row(0);
    assert_eq!(d.files[0].header_row, 1);
    assert!(!d.needs_resampling);
    d.set_header_row(99);
    assert_eq!(d.files[0].header_row, 50);
    assert!(d.needs_resampling);
    d.set_sample_size(5);
    assert_eq!(d.files[0].sample_size, 100);
    d.set_sample_size(1_000_000);
    assert_eq!(d.files[0].sample_size, 10_000);
}

#[test]
fn null_values_are_added_unless_blank() {
    let mut d = dialog_with(&["t"]);
    d.null_value_input = "   ".to_string();
    d.add_null_value();
    assert_eq!(d.files[0].null_values.len(), 5);
    assert_eq!(d.null_value_input, "   ");
    d.null_value_input = "NA".to_string();
    d.add_null_value();
    assert_eq!(d.files[0].null_values.last().unwrap(), "NA");
    assert!(d.null_value_input.is_empty());
    d.remove_null_value(0);
    assert_eq!(d.files[0].null_values[0], "NULL");
}

#[test]
fn preview_loading_and_columns() {
    let mut d = dialog_with(&["t"]);
    let r = d.load_preview_for_current_file(Ok("x;y\n1;2\n".to_string()));
    assert!(r.is_none() == false);
    let (headers, sample) = r.unwrap();
    assert_eq!(headers, strings(&["x;y"]));
    assert_eq!(sample, vec![strings(&["1;2"])]);
    assert_eq!(d.inferred_delimiter(), Some(';'));
    d.set_delimiter(';');
    let (headers, _) = d.load_preview_for_current_file(Ok("x;y\n1;2\n".to_string())).unwrap();
    assert_eq!(headers, strings(&["x", "y"]));
    d.set_inferred_columns(headers, vec![ColumnType::Integer, ColumnType::Real, ColumnType::Text]);
    assert_eq!(d.files[0].columns.len(), 2);
    assert_eq!(d.files[0].columns[1].name, "y");
    assert_eq!(d.files[0].columns[1].data_type, ColumnType::Real);
    d.set_all_included(false);
    assert!(d.files[0].columns.iter().all(|c| !c.included));
    d.load_preview_for_current_file(Err("gone".to_string()));
    assert_eq!(d.error.as_deref(), Some("Failed to load preview: gone"));
    d.load_preview_for_current_file(Ok(String::new()));
    assert_eq!(d.error.as_deref(), Some("No data found in file"));
}

#[test]
fn column_type_changes_follow_the_check() {
    let mut d = dialog_with(&["t"]);
    d.change_column_type(0, ColumnType::Integer, Err("ignored without preview".to_string()));
    assert_eq!(d.files[0].columns[0].data_type, ColumnType::Integer);
    d.load_preview_for_current_file(Ok("h\nv1\nv2\nv3\n".to_string()));
    assert_eq!(d.type_change_sample().unwrap(), vec![strings(&["v2"]), strings(&["v3"])]);
    d.change_column_type(0, ColumnType::Date, Err("not dates".to_string()));
    assert_eq!(d.files[0].columns[0].data_type, ColumnType::Integer);
    assert_eq!(d.error.as_deref(), Some("not dates"));
    d.change_column_type(0, ColumnType::Date, Ok(()));
    assert_eq!(d.files[0].columns[0].data_type, ColumnType::Date);
}

#[test]
fn database_creation_outcomes() {
    let mut d = dialog_with(&["t"]);
    d.create_database = true;
    assert_eq!(d.finish_database_creation(DatabaseCreation::OpenFailed("locked".to_string())), None);
    assert_eq!(d.error.as_deref(), Some("Failed to create database: locked"));
    assert!(!d.create_database);
    d.finish_database_creation(DatabaseCreation::ImportFailed { file_index: 0, error: "bad".to_string() });
    assert_eq!(d.error.as_deref(), Some("Failed to import t.csv: bad"));
    d.finish_database_creation(DatabaseCreation::SaveFailed("disk".to_string()));
    assert_eq!(d.error.as_deref(), Some("Failed to save tables to persistence: disk"));
    assert_eq!(d.finish_database_creation(DatabaseCreation::Created), Some(PathBuf::from("project")));
    assert!(!d.show);
    let mut e = FileConfigDialog::new();
    assert_eq!(e.finish_database_creation(DatabaseCreation::Created), None);
    assert_eq!(e.finish_processing(Err("failed".to_string())), None);
    assert_eq!(e.error.as_deref(), Some("failed"));
}

#[test]
fn single_csv_import_dialog() {
    let mut d = CsvImportDialog::new(egui::Id::new("import"));
    assert!(d.has_headers);
    assert_eq!(d.delimiter, ',');
    assert!(!d.can_import());
    d.analyze_csv();
    assert!(d.column_configs.is_empty());
    d.select_file(PathBuf::from("dir/orders.csv"));
    assert_eq!(d.table_name, "orders");
    assert_eq!(d.column_configs.len(), 1);
    assert_eq!(d.column_configs[0].name, "column1");
    assert_eq!(d.column_configs[0].data_type, ColumnType::Text);
    assert!(d.can_import());
    d.table_name = "kept".to_string();
    d.select_file(PathBuf::from("other.csv"));
    assert_eq!(d.table_name, "kept");
    d.import_to_database();
    assert_eq!(d.error.as_deref(), Some("Import functionality needs to be connected to the app's database"));
    d.cancel();
    assert_eq!(d.error.as_deref(), Some("Import cancelled"));
    d.set_skip_rows(500);
    assert_eq!(d.skip_rows, 100);
}

#[test]
fn table_named_after_stem_only_when_unnamed() {
    let mut d = CsvImportDialog::new(egui::Id::new("stem"));
    d.name_from_stem(Some("sales".to_string()));
    assert_eq!(d.table_name, "sales");
    d.name_from_stem(Some("other".to_string()));
    assert_eq!(d.table_name, "sales");
    let mut e = CsvImportDialog::new(egui::Id::new("none"));
    e.name_from_stem(None);
    assert_eq!(e.table_name, "");
    assert!(e.column_configs.is_empty());
    assert!(e.csv_path.is_none());
}

#[test]
fn table_name_is_file_name_without_last_extension() {
    for name in ["archive.tar.gz", ".bashrc", "a.", "noext", "...", "x..y", ".a.b", "sales.csv"] {
        let expected = std::path::Path::new(name).file_stem().unwrap().to_str().unwrap();
        assert_eq!(fresh::file_config::stem_of_file_name(name), expected);
        let c = FileConfig::new(PathBuf::from("dir").join(name));
        assert_eq!(c.file_name(), name);
        assert_eq!(c.table_name, expected);
        assert!(name.starts_with(c.table_name.as_str()));
    }
    assert_eq!(fresh::file_config::stem_of_file_name(".."), "..");
    assert_eq!(FileConfig::new(PathBuf::from("dir/..")).table_name, "table");
}
