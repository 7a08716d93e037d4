use std::path::PathBuf;
use fresh::file_config::ColumnType;
use fresh::multi_csv_import::{CsvLoadOutcome, DatabaseOutcome, MultiCsvImportDialog};

fn strings(items: &[&str]) -> Vec<String> {
    items.iter().map(|s| s.to_string()).collect()
}

fn loaded(headers: &[&str], types: Vec<(&str, ColumnType)>) -> CsvLoadOutcome {
    CsvLoadOutcome::Loaded {
        headers: strings(headers),
        sample_data: vec![strings(&["1", "x"])],
        column_types: types.into_iter().map(|(n, t)| (n.to_string(), t)).collect(),
    }
}

#[test]
fn new_dialog_and_errors() {
    let mut d = MultiCsvImportDialog::new(egui::Id::new("multi"));
    assert!(d.show && d.database_path.is_none() && d.csv_files.is_empty() && d.error.is_none());
    assert!(!d.can_create());
    d.add_loaded_file(PathBuf::from("a.csv"), None, CsvLoadOutcome::OpenFailed("missing".to_string()));
    assert_eq!(d.error.as_deref(), Some("Failed to open CSV: missing"));
    d.add_loaded_file(PathBuf::from("a.csv"), None, CsvLoadOutcome::HeadersFailed("bad".to_string()));
    assert_eq!(d.error.as_deref(), Some("Failed to read headers: bad"));
    d.add_loaded_file(PathBuf::from("a.csv"), None, CsvLoadOutcome::SampleFailed("eof".to_string()));
    assert_eq!(d.error.as_deref(), Some("Failed to read sample data: eof"));
    assert!(d.csv_files.is_empty());
}

#[test]
fn loading_files_names_tables_and_keeps_last_type() {
    let mut d = MultiCsvImportDialog::new(egui::Id::new("multi"));
    assert!(!d.load_csv_file(
        PathBuf::from("data/orders.csv"),
        loaded(&["id", "name"], vec![("id", ColumnType::Text), ("id", ColumnType::Integer)]),
    ));
    assert_eq!(d.csv_files.len(), 1);
    let f = &d.csv_files[0];
    assert_eq!(f.table_name, "orders");
    assert!(f.included);
    assert_eq!(f.column_types.len(), 1);
    assert_eq!(f.column_types.get("id"), Some(&ColumnType::Integer));
    assert!(f.create_indexes.is_empty());
    assert!(d.is_loaded(&PathBuf::from("data/orders.csv")));
    assert!(!d.is_loaded(&PathBuf::from("data/other.csv")));
    assert!(d.load_csv_file(PathBuf::from("data/orders.csv"), loaded(&["x"], vec![])));
    assert!(!d.load_csv_file(PathBuf::from("data/other.csv"), CsvLoadOutcome::OpenFailed("gone".to_string())));
    assert_eq!(d.error.as_deref(), Some("Failed to open CSV: gone"));
    assert_eq!(d.csv_files.len(), 1);
    d.add_loaded_file(PathBuf::from("noname"), None, loaded(&["x"], vec![]));
    assert_eq!(d.csv_files[1].table_name, "table");
    d.clear_all();
    assert!(d.csv_files.is_empty());
}

#[test]
fn columns_types_and_indexes() {
    let mut d = MultiCsvImportDialog::new(egui::Id::new("multi"));
    d.add_loaded_file(
        PathBuf::from("t.csv"),
        Some("t".to_string()),
        loaded(&["id", "name", "when"], vec![("id", ColumnType::Integer), ("when", ColumnType::Date)]),
    );
    assert_eq!(
        d.table_columns(0),
        vec![
            ("id".to_string(), ColumnType::Integer),
            ("name".to_string(), ColumnType::Text),
            ("when".to_string(), ColumnType::Date),
        ]
    );
    d.override_column_type(0, &"id".to_string(), ColumnType::Real);
    d.override_column_type(0, &"name".to_string(), ColumnType::Boolean);
    assert_eq!(d.csv_files[0].column_types.get("id"), Some(&ColumnType::Real));
    assert_eq!(d.csv_files[0].column_types.get("name"), None);
    d.set_create_index(0, &"id".to_string(), true);
    d.set_create_index(0, &"name".to_string(), false);
    assert_eq!(d.csv_files[0].create_indexes.get("id"), Some(&true));
    assert_eq!(d.csv_files[0].create_indexes.get("name"), Some(&false));
}

#[test]
fn database_plan_and_outcomes() {
    let mut d = MultiCsvImportDialog::new(egui::Id::new("multi"));
    d.add_loaded_file(PathBuf::from("a.csv"), Some("a".to_string()), loaded(&["x"], vec![("x", ColumnType::Integer)]));
    d.add_loaded_file(PathBuf::from("b.csv"), Some("b".to_string()), loaded(&["y"], vec![]));
    d.add_loaded_file(PathBuf::from("c.csv"), Some("c".to_string()), loaded(&["z"], vec![]));
    assert!(d.database_plan().is_none());
    assert!(!d.can_create());
    d.database_path = Some(PathBuf::from("project.db"));
    assert!(d.can_create());
    d.csv_files[1].included = false;
    let (path, plans) = d.database_plan().unwrap();
    assert_eq!(path, PathBuf::from("project.db"));
    assert_eq!(plans.len(), 2);
    assert_eq!(plans[0].table_name, "a");
    assert_eq!(plans[0].columns, vec![("x".to_string(), ColumnType::Integer)]);
    assert_eq!(plans[0].path, PathBuf::from("a.csv"));
    assert_eq!(plans[1].table_name, "c");
    assert_eq!(plans[1].columns, vec![("z".to_string(), ColumnType::Text)]);
    for f in d.csv_files.iter_mut() {
        f.included = false;
    }
    assert!(!d.can_create());
    assert!(d.finish_database(DatabaseOutcome::OpenFailed("locked".to_string())).is_none());
    assert_eq!(d.error.as_deref(), Some("Failed to create database: locked"));
    d.finish_database(DatabaseOutcome::TableFailed { table: "a".to_string(), error: "exists".to_string() });
    assert_eq!(d.error.as_deref(), Some("Failed to create table a: exists"));
    d.finish_database(DatabaseOutcome::BeginFailed("busy".to_string()));
    assert_eq!(d.error.as_deref(), Some("Failed to begin transaction: busy"));
    d.finish_database(DatabaseOutcome::InsertFailed("type".to_string()));
    assert_eq!(d.error.as_deref(), Some("Failed to insert record: type"));
    d.finish_database(DatabaseOutcome::CommitFailed("disk".to_string()));
    assert_eq!(d.error.as_deref(), Some("Failed to commit transaction: disk"));
    assert!(d.show);
    assert_eq!(d.finish_database(DatabaseOutcome::Created(PathBuf::from("project.db"))), Some(PathBuf::from("project.db")));
    assert!(!d.show);
    let mut e = MultiCsvImportDialog::new(egui::Id::new("other"));
    e.cancel();
    assert!(!e.show);
}
