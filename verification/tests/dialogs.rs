use fresh::data_transformation::{
    TransformationDialog, TransformationManager, TransformationRequest, TransformationStep, TransformationType,
    toggle_selection, convert_rows_to_batch, transformation_type_label, FrameInput, columns_query_for,
};
use fresh::duplicate_detection::{
    DuplicateDetectionDialog, DuplicateDetectionResult, DetectionStats, DuplicateBlock, DetectionOutcome,
    CleanFileOutcome, DuplicateResultsViewer, clamp_block_size,
};
use fresh::export_dialog::{ExportDialog, ExportFormat};
use fresh::gpu_renderer::{RenderModeSelector, RenderMode, GpuCapabilities, GpuUnavailable};
use fresh::query::{QueryResult, TableInfo, ColumnInfo};
use fresh::data_type::DataType;

fn strings(items: &[&str]) -> Vec<String> {
    items.iter().map(|s| s.to_string()).collect()
}

fn table(name: &str, cols: &[&str]) -> TableInfo {
    TableInfo { name: name.to_string(), columns: cols.iter().map(|c| ColumnInfo { name: c.to_string() }).collect() }
}

fn empty_result() -> DuplicateDetectionResult {
    DuplicateDetectionResult {
        duplicate_blocks: vec![DuplicateBlock { block_hash: 7, group_id: "A".to_string(), block_size: 2, row_indices: vec![vec![0, 1], vec![4, 5]] }],
        total_duplicates: 1,
        total_duplicate_rows: 2,
        stats: DetectionStats { groups_processed: 1, blocks_analyzed: 3, unique_blocks: 2 },
    }
}

#[test]
fn toggling_selection() {
    let mut list = strings(&["a", "b"]);
    toggle_selection(&mut list, &"c".to_string(), true);
    assert_eq!(list, strings(&["a", "b", "c"]));
    toggle_selection(&mut list, &"c".to_string(), true);
    assert_eq!(list, strings(&["a", "b", "c"]));
    toggle_selection(&mut list, &"a".to_string(), false);
    assert_eq!(list, strings(&["b", "c"]));
    toggle_selection(&mut list, &"a".to_string(), false);
    assert_eq!(list, strings(&["b", "c"]));
}

#[test]
fn transformation_dialog_flow() {
    let mut d = TransformationDialog::new();
    assert_eq!(d.bin_size, "1");
    d.update_available_tables(Ok(vec![table("t", &["x"])]));
    assert_eq!(d.available_tables.len(), 1);
    d.update_available_tables(Err("no db".to_string()));
    assert!(d.available_tables.is_empty());
    assert_eq!(d.columns_query(), None);
    d.select_table("t".to_string());
    assert_eq!(d.columns_query().unwrap(), "SELECT * FROM t");
    d.update_available_columns(Ok(strings(&["x", "y"])));
    assert_eq!(d.available_columns, strings(&["x", "y"]));
    d.select_transformation(TransformationType::Delta);
    toggle_selection(&mut d.selected_columns, &"x".to_string(), true);
    assert!(d.apply().is_none());
    assert_eq!(d.error_message.as_deref(), Some("Output column name is required"));
    d.output_column_name = "dx".to_string();
    let req = d.apply().unwrap();
    assert_eq!(req.table_name, "t");
    assert_eq!(req.selected_columns, strings(&["x"]));
    assert!(req.grouping_columns.is_none());
    assert!(!d.visible);
    assert_eq!(d.success_message.as_deref(), Some("Transformation applied successfully!"));
    d.cancel();
    assert!(d.selected_table.is_none());
}

fn request(kind: TransformationType, cols: &[&str]) -> TransformationRequest {
    TransformationRequest {
        table_name: "sales".to_string(),
        transformation_type: kind,
        selected_columns: strings(cols),
        output_column_name: "out".to_string(),
        bin_size: "60".to_string(),
        time_column: None,
        grouping_columns: None,
    }
}

#[test]
fn rows_become_text_columns() {
    let rows = vec![strings(&["1", "a"]), strings(&["2"])];
    let cols = convert_rows_to_batch(&rows).unwrap();
    assert_eq!(cols.len(), 2);
    assert_eq!(cols[0], ("column_0".to_string(), strings(&["1", "2"])));
    assert_eq!(cols[1], ("column_1".to_string(), strings(&["a", ""])));
    assert_eq!(convert_rows_to_batch(&Vec::new()).unwrap_err(), "No data to convert");
    assert_eq!(convert_rows_to_batch(&vec![Vec::new()]).unwrap_err(), "No data to convert");
}

#[test]
fn transformation_requests_are_checked() {
    let m = TransformationManager::new();
    assert_eq!(m.output_directory, "transformed_data");
    let rows = vec![strings(&["1", "2"])];
    assert_eq!(m.table_query(&request(TransformationType::Delta, &[])), "SELECT * FROM sales");
    assert_eq!(m.apply_transformation(&request(TransformationType::Delta, &["a"]), &Vec::new()).err().unwrap(), "No data found in table");
    assert_eq!(
        m.apply_transformation(&request(TransformationType::Delta, &["a", "b"]), &rows).err().unwrap(),
        "Delta transformation requires exactly one column"
    );
    assert_eq!(
        m.apply_transformation(&request(TransformationType::DeltaMultiple, &[]), &rows).err().unwrap(),
        "Delta multiple transformation requires at least one column"
    );
    assert_eq!(
        m.apply_transformation(&request(TransformationType::TimeBin, &[]), &rows).err().unwrap(),
        "Time column is required for time binning"
    );
    let plan = m.apply_transformation(&request(TransformationType::Delta, &["column_0"]), &rows).unwrap();
    assert_eq!(plan.output_file_name, "sales_out.arrow");
    assert_eq!(plan.columns.len(), 2);
    match plan.step {
        TransformationStep::Delta { column, output } => {
            assert_eq!(column, "column_0");
            assert_eq!(output, "out");
        }
        _ => panic!("wrong step"),
    }
    let mut binned = request(TransformationType::TimeBin, &[]);
    binned.time_column = Some("column_0".to_string());
    for bad in ["abc", "", ".", " 1", "1e", "e3", "1.2.3", "--1"] {
        binned.bin_size = bad.to_string();
        assert_eq!(m.apply_transformation(&binned, &rows).err().unwrap(), "Invalid bin size");
    }
    for good in ["60", "1e3", "-.5", "2.", "+7E-2", "inf", "NaN", "Infinity"] {
        binned.bin_size = good.to_string();
        let plan = m.apply_transformation(&binned, &rows).unwrap();
        match plan.step {
            TransformationStep::TimeBin { time_column, bin_size, output } => {
                assert_eq!(time_column, "column_0");
                assert_eq!(bin_size, good);
                assert_eq!(output, "out");
            }
            _ => panic!("wrong step"),
        }
    }
    binned.time_column = None;
    binned.bin_size = "abc".to_string();
    assert_eq!(m.apply_transformation(&binned, &rows).err().unwrap(), "Time column is required for time binning");
    let plan = m.apply_transformation(&request(TransformationType::RowId, &[]), &rows).unwrap();
    assert!(matches!(plan.step, TransformationStep::RowId { grouping: None, .. }));
}

#[test]
fn removal_keeps_first_occurrence_of_each_block() {
    let result = DuplicateDetectionResult {
        duplicate_blocks: vec![
            DuplicateBlock { block_hash: 1, group_id: "A".to_string(), block_size: 1, row_indices: vec![vec![0], vec![3], vec![6]] },
            DuplicateBlock { block_hash: 2, group_id: "B".to_string(), block_size: 2, row_indices: vec![vec![10, 11], vec![20, 21]] },
            DuplicateBlock { block_hash: 3, group_id: "C".to_string(), block_size: 1, row_indices: vec![vec![30]] },
        ],
        total_duplicates: 3,
        total_duplicate_rows: 4,
        stats: DetectionStats { groups_processed: 3, blocks_analyzed: 6, unique_blocks: 3 },
    };
    let mut d = DuplicateDetectionDialog::new("out".to_string());
    d.error_message = Some("earlier".to_string());
    let (name, rows) = d.remove_duplicates(Err("closed".to_string()), &result).map_or((String::new(), vec![]), |x| x);
    assert_eq!((name.as_str(), rows.len()), ("", 0));
    assert_eq!(d.error_message.as_deref(), Some("No tables available"));
    d.error_message = Some("earlier".to_string());
    let (name, rows) = d.remove_duplicates(Ok(vec![table("first", &["g"]), table("second", &[])]), &result).unwrap();
    assert_eq!(name, "first");
    assert_eq!(rows, vec![3, 6, 20, 21]);
    assert_eq!(d.error_message.as_deref(), Some("earlier"));
}

#[test]
fn transformation_dialog_updates_change_nothing_else() {
    let mut d = TransformationDialog::new();
    d.visible = true;
    d.error_message = Some("kept".to_string());
    d.update_available_columns(Ok(strings(&["x"])));
    assert!(d.available_columns.is_empty());
    assert!(d.visible);
    assert_eq!(d.error_message.as_deref(), Some("kept"));
    d.select_table("t".to_string());
    d.update_available_columns(Err("no".to_string()));
    assert!(d.available_columns.is_empty());
    d.update_available_tables(Ok(vec![table("t", &["x"])]));
    assert!(d.visible);
    assert_eq!(d.selected_table.as_deref(), Some("t"));
}

#[test]
fn block_size_is_clamped() {
    assert_eq!(clamp_block_size(0), 1);
    assert_eq!(clamp_block_size(256), 256);
    assert_eq!(clamp_block_size(5000), 1000);
    let mut d = DuplicateDetectionDialog::new(".".to_string());
    assert_eq!(d.block_size, 256);
    assert!(d.null_equals_null);
    d.set_block_size(0);
    assert_eq!(d.block_size, 1);
}

#[test]
fn duplicate_detection_run() {
    let mut d = DuplicateDetectionDialog::new("out".to_string());
    assert!(d.run_detection(Ok(vec![table("t", &["g"])])).is_none());
    assert_eq!(d.error_message.as_deref(), Some("Please select a group column"));
    d.selected_group_column = "g".to_string();
    assert!(d.run_detection(Err("closed".to_string())).is_none());
    assert_eq!(d.error_message.as_deref(), Some("No tables available"));
    assert!(!d.is_detecting);
    d.set_column_ignored(&"ts".to_string(), true);
    d.set_column_ignored(&"ts".to_string(), true);
    assert_eq!(d.ignore_columns, strings(&["ts"]));
    let (name, config) = d.run_detection(Ok(vec![table("first", &["g"]), table("second", &[])])).unwrap();
    assert_eq!(name, "first");
    assert_eq!(config.group_column, "g");
    assert_eq!(config.ignore_columns, strings(&["ts"]));
    assert_eq!(config.block_size, 256);
    assert!(d.is_detecting);
    assert!(d.error_message.is_none());
    d.finish_detection(DetectionOutcome::DetectionFailed("boom".to_string()));
    assert_eq!(d.error_message.as_deref(), Some("Detection failed: boom"));
    assert!(!d.is_detecting);
    d.finish_detection(DetectionOutcome::LoadFailed("io".to_string()));
    assert_eq!(d.error_message.as_deref(), Some("Failed to load table: io"));
    d.finish_detection(DetectionOutcome::Detected(empty_result()));
    assert!(d.error_message.is_none());
    assert_eq!(d.detection_result.as_ref().unwrap().total_duplicates, 1);
}

#[test]
fn duplicate_dialog_columns_and_actions() {
    let mut d = DuplicateDetectionDialog::new("out".to_string());
    d.update_available_columns(Ok(vec![table("t", &["g", "v", "ts"])]));
    assert_eq!(d.available_columns, strings(&["g", "v", "ts"]));
    d.update_available_columns(Ok(Vec::new()));
    assert_eq!(d.available_columns, strings(&["g", "v", "ts"]));
    d.selected_group_column = "g".to_string();
    assert_eq!(d.ignorable_columns(), strings(&["v", "ts"]));
    let result = empty_result();
    d.remove_duplicates(Ok(Vec::new()), &result);
    assert_eq!(d.error_message.as_deref(), Some("No tables available"));
    let (name, rows) = d.remove_duplicates(Ok(vec![table("t", &[])]), &result).unwrap();
    assert_eq!(name, "t");
    assert_eq!(rows, vec![4, 5]);
    assert_eq!(d.error_message.as_deref(), Some("No tables available"));
    d.finish_removal(Err("locked".to_string()));
    assert_eq!(d.error_message.as_deref(), Some("Failed to remove duplicates: locked"));
    d.finish_removal(Ok(()));
    assert!(d.error_message.is_none());
    let (name, _) = d.create_clean_arrow_file(Ok(vec![table("t", &[])]), &result).unwrap();
    assert_eq!(name, "t");
    d.finish_clean_file(CleanFileOutcome::Created { path: "out/t_clean.arrow".to_string(), kept_rows: 8, total_rows: 10 });
    assert_eq!(
        d.success_message.as_deref(),
        Some("✅ Created clean Arrow file: out/t_clean.arrow\nKept 8 rows, removed 2 duplicate rows")
    );
    assert!(d.show_success);
    d.dismiss_success();
    assert!(!d.show_success && d.success_message.is_none());
    d.finish_clean_file(CleanFileOutcome::CreateFailed("disk".to_string()));
    assert_eq!(d.error_message.as_deref(), Some("Failed to create clean Arrow file: disk"));
    let mut v = DuplicateResultsViewer::default();
    assert!(!v.is_shown());
    v.visible = true;
    assert!(!v.is_shown());
    v.result = Some(result);
    assert!(v.is_shown());
}

fn query() -> QueryResult {
    QueryResult {
        columns: strings(&["name", "city"]),
        column_types: vec![DataType::Utf8, DataType::Utf8],
        rows: vec![strings(&["ann", "rome"]), strings(&["bob", "oslo", "extra"]), strings(&["cy"])],
    }
}

#[test]
fn export_dialog_records_and_json() {
    let mut d = ExportDialog::new(egui::Id::new("export"), query());
    assert!(d.shown());
    assert_eq!(d.export_format(), ExportFormat::Csv);
    assert_eq!(d.extension(), "csv");
    d.select_format(ExportFormat::Json);
    assert_eq!(d.extension(), "json");
    let records = d.json_records();
    assert_eq!(records.len(), 3);
    assert_eq!(records[1], vec![("name".to_string(), "bob".to_string()), ("city".to_string(), "oslo".to_string())]);
    assert_eq!(records[2], vec![("name".to_string(), "cy".to_string())]);
    let text = d.export_json_text().unwrap();
    let parsed: serde_json::Value = serde_json::from_str(&text).unwrap();
    assert_eq!(parsed[0]["name"], "ann");
    assert_eq!(parsed[1]["city"], "oslo");
    assert!(parsed[2].get("city").is_none());
    assert!(text.contains('\n'));
    assert!(d.stays_open(true));
    assert_eq!(d.export_clicked(), ExportFormat::Json);
    assert!(!d.shown());
    assert!(!d.stays_open(true));
}

#[test]
fn render_mode_selection() {
    let caps = GpuCapabilities { max_vertices: 50_000, max_instances: 10, supports_instancing: true, supports_compute: false, max_texture_size: 4096 };
    let mut none = RenderModeSelector::new(None);
    assert_eq!(none.line_chart_renderer(), RenderMode::Cpu);
    assert_eq!(none.switch_to_gpu(), Err(GpuUnavailable));
    assert!(!none.is_gpu_available());
    let mut some = RenderModeSelector::new(Some(caps));
    assert_eq!(some.line_chart_renderer(), RenderMode::Gpu);
    some.switch_to_cpu();
    assert_eq!(some.line_chart_renderer(), RenderMode::Cpu);
    assert_eq!(some.switch_to_gpu(), Ok(()));
    assert_eq!(some.current_mode, RenderMode::Gpu);
    some.auto_select_mode(20_000);
    assert_eq!(some.current_mode, RenderMode::Gpu);
    some.auto_select_mode(60_000);
    assert_eq!(some.current_mode, RenderMode::Cpu);
    some.auto_select_mode(100);
    assert_eq!(some.current_mode, RenderMode::Cpu);
    assert_eq!(some.get_capabilities(), Some(&caps));
}

#[test]
fn transformation_choices() {
    assert_eq!(transformation_type_label(None), "Select transformation type");
    assert_eq!(transformation_type_label(Some(TransformationType::TimeBin)), "Time Bin Column");
    let mut d = TransformationDialog::new();
    d.selected_columns = strings(&["a", "b"]);
    d.select_single_column(&"c".to_string());
    assert_eq!(d.selected_columns, strings(&["c"]));
    d.select_time_column("ts".to_string());
    assert_eq!(d.time_column.as_deref(), Some("ts"));
    toggle_selection(&mut d.grouping_columns, &"g".to_string(), true);
    assert_eq!(d.grouping_columns, strings(&["g"]));
}

#[test]
fn duplicate_results_view() {
    let mut d = DuplicateDetectionDialog::new("out".to_string());
    d.open_results();
    assert!(!d.show_results);
    assert!(!d.offers_actions());
    d.finish_detection(DetectionOutcome::Detected(empty_result()));
    assert!(d.offers_actions());
    d.open_results();
    assert!(d.show_results);
    let result = empty_result();
    assert_eq!(
        DuplicateResultsViewer::block_title(0, &result.duplicate_blocks[0]),
        "Block 1 (Group: A, 2 occurrences)"
    );
}

fn frame(d: &TransformationDialog) -> FrameInput {
    FrameInput {
        window_open: true,
        picked_table: None,
        picked_kind: None,
        selected_columns: d.selected_columns.clone(),
        output_column_name: d.output_column_name.clone(),
        time_column: d.time_column.clone(),
        grouping_columns: d.grouping_columns.clone(),
        bin_size: d.bin_size.clone(),
        apply_clicked: false,
        cancel_clicked: false,
    }
}

#[test]
fn transformation_frames() {
    let mut d = TransformationDialog::new();
    let mut f = frame(&d);
    f.picked_table = Some(("t".to_string(), Ok(strings(&["x"]))));
    f.apply_clicked = true;
    assert!(d.show_step(f).is_none());
    assert!(d.selected_table.is_none() && d.available_columns.is_empty());
    assert_eq!(columns_query_for("t"), "SELECT * FROM t");

    d.visible = true;
    d.error_message = Some("old".to_string());
    let mut f = frame(&d);
    f.picked_table = Some(("t".to_string(), Ok(strings(&["x", "y"]))));
    f.picked_kind = Some(TransformationType::Delta);
    f.selected_columns = strings(&["x"]);
    f.output_column_name = "dx".to_string();
    assert!(d.show_step(f).is_none());
    assert_eq!(d.selected_table.as_deref(), Some("t"));
    assert_eq!(d.available_columns, strings(&["x", "y"]));
    assert_eq!(d.transformation_type, Some(TransformationType::Delta));
    assert_eq!(d.selected_columns, strings(&["x"]));
    assert!(d.error_message.is_none());
    assert!(d.visible);

    let mut f = frame(&d);
    f.apply_clicked = true;
    let req = d.show_step(f).unwrap();
    assert_eq!(req.table_name, "t");
    assert_eq!(req.output_column_name, "dx");
    assert!(!d.visible);

    d.visible = true;
    let mut f = frame(&d);
    f.cancel_clicked = true;
    assert!(d.show_step(f).is_none());
    assert!(!d.visible && d.selected_table.is_none());

    d.visible = true;
    let mut f = frame(&d);
    f.window_open = false;
    d.show_step(f);
    assert!(!d.visible);
}
