use fresh::plot_window::{PlotWindow, PlotConfig, PlotWindowError, format_data_type};
use fresh::plots::{PlotType, PlotSpecificSettings, BarOrientation, BarChartSettings};
use fresh::plot_window::ExpectedColumn;
use fresh::data_type::IntervalUnit;
use fresh::query::QueryResult;
use fresh::data_type::{DataType, TimeUnit};

fn strings(items: &[&str]) -> Vec<String> {
    items.iter().map(|s| s.to_string()).collect()
}

fn data() -> QueryResult {
    QueryResult {
        columns: strings(&["city", "sales", "when", "flag"]),
        column_types: vec![DataType::Utf8, DataType::Int64, DataType::Timestamp(TimeUnit::Millisecond, None), DataType::Boolean],
        rows: vec![strings(&["rome", "3", "1", "true"])],
    }
}

#[test]
fn new_window_defaults() {
    let w = PlotWindow::new("w1".to_string(), "Plot".to_string());
    assert!(w.open && w.is_config_open);
    assert!(w.data.is_none());
    assert_eq!(w.config.primary_columns, strings(&["", ""]));
    assert!(w.config.plot_type.is_none());
}

#[test]
fn required_counts_and_labels() {
    let mut c = PlotConfig::default();
    assert_eq!(c.get_required_column_count(), (2, 0));
    c.plot_type = Some(PlotType::CandlestickChart);
    assert_eq!(c.get_required_column_count(), (4, 0));
    assert_eq!(c.get_column_labels(), strings(&["Open", "High", "Low", "Close"]));
    c.plot_type = Some(PlotType::Histogram);
    assert_eq!(c.get_required_column_count(), (1, 0));
    assert_eq!(c.get_column_labels(), strings(&["Value"]));
    c.plot_type = Some(PlotType::BarChart);
    c.update_plot_specific_config();
    assert_eq!(c.get_column_labels(), strings(&["Category (X)", "Value (Y)"]));
    if let PlotSpecificSettings::BarChart(mut b) = c.plot_specific_config {
        b.orientation = BarOrientation::Horizontal;
        c.plot_specific_config = PlotSpecificSettings::BarChart(b);
    } else {
        panic!("bar settings expected");
    }
    assert_eq!(c.get_column_labels(), strings(&["Value (X)", "Category (Y)"]));
    assert_eq!(c.get_optional_columns(), vec![("Group", "Group data by category"), ("Color", "Color by category")]);
}

#[test]
fn column_lists_follow_plot_type() {
    let mut w = PlotWindow::new("w".to_string(), "t".to_string());
    w.config.plot_type = Some(PlotType::HeatMap);
    w.update_column_selections_for_plot_type(&PlotType::HeatMap);
    assert_eq!(w.config.primary_columns, strings(&["", "", ""]));
    w.config.primary_columns[0] = "a".to_string();
    w.config.plot_type = Some(PlotType::Histogram);
    w.update_column_selections_for_plot_type(&PlotType::Histogram);
    assert_eq!(w.config.primary_columns, strings(&["a"]));
    w.reset_column_selections();
    assert!(w.config.primary_columns.is_empty());
}

#[test]
fn valid_columns_by_type() {
    let mut w = PlotWindow::new("w".to_string(), "t".to_string());
    assert!(w.get_valid_numeric_columns().is_empty());
    w.update_data(data());
    assert_eq!(w.get_valid_numeric_columns(), strings(&["sales"]));
    assert_eq!(w.get_valid_categorical_columns(), strings(&["city"]));
    assert!(w.is_column_valid_for_plot("sales", &PlotType::Histogram));
    assert!(!w.is_column_valid_for_plot("city", &PlotType::Histogram));
    assert!(!w.is_column_valid_for_plot("missing", &PlotType::Histogram));
    assert_eq!(w.get_valid_columns_for_plot(&PlotType::Histogram), strings(&["sales"]));
}

#[test]
fn window_validation_with_data() {
    let mut w = PlotWindow::new("w".to_string(), "t".to_string());
    w.config.plot_type = Some(PlotType::BarChart);
    w.config.primary_columns = strings(&["city", "sales"]);
    assert!(w.validate_columns_with_data(&PlotType::BarChart, &data()).is_ok());
    w.config.primary_columns = strings(&["city", ""]);
    assert!(matches!(
        w.validate_columns_with_data(&PlotType::BarChart, &data()),
        Err(PlotWindowError::PrimaryColumnRequired { position: 2 })
    ));
    w.config.primary_columns = strings(&["city", "nope"]);
    assert!(matches!(
        w.validate_columns_with_data(&PlotType::BarChart, &data()),
        Err(PlotWindowError::PrimaryColumnNotFound { .. })
    ));
    w.config.primary_columns = strings(&["city", "sales"]);
    w.config.color_column = Some("sales".to_string());
    assert!(matches!(
        w.validate_columns_with_data(&PlotType::BarChart, &data()),
        Err(PlotWindowError::ColorColumnNotCategorical { .. })
    ));
}

#[test]
fn data_type_family_names() {
    assert_eq!(format_data_type(&DataType::Int32), "Integer");
    assert_eq!(format_data_type(&DataType::UInt8), "Unsigned Int");
    assert_eq!(format_data_type(&DataType::Float64), "Float");
    assert_eq!(format_data_type(&DataType::LargeUtf8), "Text");
    assert_eq!(format_data_type(&DataType::Date32), "Date");
    assert_eq!(format_data_type(&DataType::Timestamp(TimeUnit::Second, Some("UTC".to_string()))), "Timestamp");
    assert_eq!(format_data_type(&DataType::Binary), "Other");
}

#[test]
fn selecting_a_plot_type_resets_columns() {
    let mut w = PlotWindow::new("w".to_string(), "t".to_string());
    w.config.primary_columns = strings(&["a", "b"]);
    w.config.color_column = Some("c".to_string());
    w.select_plot_type(PlotType::HeatMap);
    assert_eq!(w.config.plot_type, Some(PlotType::HeatMap));
    assert_eq!(w.config.primary_columns, strings(&["", "", ""]));
    assert!(w.config.color_column.is_none());
    w.select_plot_type(PlotType::BarChart);
    assert_eq!(w.config.primary_columns, strings(&["", ""]));
    assert!(matches!(w.config.plot_specific_config, PlotSpecificSettings::BarChart(_)));
    let open = w.is_config_open;
    w.toggle_config();
    assert_eq!(w.is_config_open, !open);
}

#[test]
fn window_validation_reports_each_problem() {
    let mut w = PlotWindow::new("w".to_string(), "t".to_string());
    w.select_plot_type(PlotType::BarChart);
    w.config.primary_columns = strings(&["sales", "sales"]);
    match w.validate_columns_with_data(&PlotType::BarChart, &data()) {
        Err(PlotWindowError::PrimaryColumnWrongType { column, index, .. }) => {
            assert_eq!(column, "sales");
            assert_eq!(index, 0);
        }
        other => panic!("unexpected {:?}", other),
    }
    w.config.primary_columns = strings(&["city", "sales"]);
    w.config.group_column = Some("nope".to_string());
    assert!(matches!(w.validate_columns_with_data(&PlotType::BarChart, &data()), Err(PlotWindowError::GroupColumnNotFound { .. })));
    w.config.group_column = Some("sales".to_string());
    assert!(matches!(w.validate_columns_with_data(&PlotType::BarChart, &data()), Err(PlotWindowError::GroupColumnNotCategorical { .. })));
    w.config.group_column = None;
    w.config.color_column = Some("nope".to_string());
    assert!(matches!(w.validate_columns_with_data(&PlotType::BarChart, &data()), Err(PlotWindowError::ColorColumnNotFound { .. })));
    w.config.color_column = None;
    w.config.size_column = Some("nope".to_string());
    assert!(matches!(w.validate_columns_with_data(&PlotType::BarChart, &data()), Err(PlotWindowError::SizeColumnNotFound { .. })));
    w.config.size_column = Some("city".to_string());
    assert!(matches!(w.validate_columns_with_data(&PlotType::BarChart, &data()), Err(PlotWindowError::SizeColumnNotNumeric { .. })));
    w.config.size_column = Some("sales".to_string());
    assert!(w.validate_columns_with_data(&PlotType::BarChart, &data()).is_ok());
}

#[test]
fn column_slots_offer_matching_columns() {
    let mut w = PlotWindow::new("w".to_string(), "t".to_string());
    assert!(w.primary_slot_choices(&PlotType::BarChart, 0).is_empty());
    w.update_data(data());
    w.select_plot_type(PlotType::BarChart);
    assert_eq!(w.primary_slot_choices(&PlotType::BarChart, 0), strings(&["city"]));
    assert_eq!(w.primary_slot_choices(&PlotType::BarChart, 1), strings(&["sales"]));
    if let PlotSpecificSettings::BarChart(mut b) = w.config.plot_specific_config {
        b.orientation = BarOrientation::Horizontal;
        w.config.plot_specific_config = PlotSpecificSettings::BarChart(b);
    }
    assert_eq!(w.primary_slot_choices(&PlotType::BarChart, 0), strings(&["sales"]));
    assert_eq!(w.primary_slot_choices(&PlotType::BoxPlot, 0), strings(&["city"]));
    assert_eq!(w.primary_slot_choices(&PlotType::Histogram, 0), strings(&["sales"]));
    assert_eq!(w.optional_slot_choices("Color", &PlotType::BarChart), strings(&["city"]));
    assert_eq!(w.optional_slot_choices("Size", &PlotType::BarChart), strings(&["sales"]));
    w.set_optional_column("Group", "city".to_string());
    assert_eq!(w.config.group_column.as_deref(), Some("city"));
    w.set_optional_column("Group", String::new());
    assert!(w.config.group_column.is_none());
    w.set_optional_column("Shape", "city".to_string());
    assert!(w.config.color_column.is_none() && w.config.size_column.is_none());
}

#[test]
fn plot_specific_settings_accessors() {
    let mut c = PlotConfig::default();
    c.plot_type = Some(PlotType::BarChart);
    c.update_plot_specific_config();
    assert_eq!(c.plot_specific_config.as_bar_chart().orientation, BarOrientation::Vertical);
    c.plot_type = Some(PlotType::BoxPlot);
    c.update_plot_specific_config();
    let b = c.plot_specific_config.as_box_plot();
    assert_eq!(*b, fresh::plots::BoxPlotConfig::default());
}

#[test]
fn new_bar_window_with_columns_validates() {
    let mut w = PlotWindow::new("w".to_string(), "t".to_string());
    assert_eq!(w.config.title, "");
    assert!(w.config.group_column.is_none() && w.config.color_column.is_none() && w.config.size_column.is_none());
    assert!(w.config.show_legend && w.config.show_grid && !w.config.use_gpu_rendering);
    w.config.plot_type = Some(PlotType::BarChart);
    w.config.plot_specific_config = PlotSpecificSettings::BarChart(BarChartSettings {
        orientation: BarOrientation::Horizontal,
        ..Default::default()
    });
    w.config.primary_columns = strings(&["amount", "region"]);
    let data = QueryResult {
        columns: strings(&["region", "amount"]),
        column_types: vec![DataType::Utf8, DataType::Int64],
        rows: vec![],
    };
    assert!(w.validate_columns_with_data(&PlotType::BarChart, &data).is_ok());
}

#[test]
fn window_error_messages() {
    let e = PlotWindowError::PrimaryColumnRequired { position: 2 };
    assert_eq!(e.message(), "Primary column 2 is required");
    let e = PlotWindowError::PrimaryColumnNotFound { column: "x".to_string() };
    assert_eq!(e.message(), "Primary column 'x' not found in data");
    let e = PlotWindowError::PrimaryColumnWrongType {
        column: "c".to_string(),
        actual: DataType::Utf8,
        plot_type: PlotType::BoxPlot,
        index: 1,
        expected: ExpectedColumn::Compatible,
    };
    assert_eq!(e.message(), "Column 'c' has type Utf8. Box plots expect numeric data for the Y-axis.");
    let e = PlotWindowError::PrimaryColumnWrongType {
        column: "c".to_string(),
        actual: DataType::Int64,
        plot_type: PlotType::ViolinPlot,
        index: 0,
        expected: ExpectedColumn::Compatible,
    };
    assert_eq!(
        e.message(),
        "Column 'c' has type Int64. Violin plots expect categorical data (strings) for grouping on the X-axis."
    );
    let e = PlotWindowError::PrimaryColumnWrongType {
        column: "a".to_string(),
        actual: DataType::Utf8,
        plot_type: PlotType::PolarPlot,
        index: 0,
        expected: ExpectedColumn::Compatible,
    };
    assert_eq!(e.message(), "Column 'a' has type Utf8. Polar plots expect numeric data for the angle (X-axis).");
    let e = PlotWindowError::PrimaryColumnWrongType {
        column: "v".to_string(),
        actual: DataType::Utf8,
        plot_type: PlotType::BarChart,
        index: 1,
        expected: ExpectedColumn::Numeric,
    };
    assert_eq!(
        e.message(),
        "Column 'v' has type Utf8 which is not valid for Bar Chart plot (expected numeric for position 2)"
    );
    let e = PlotWindowError::SecondaryColumnNotFound { column: "s".to_string() };
    assert_eq!(e.message(), "Secondary column 's' not found in data");
    let e = PlotWindowError::SecondaryColumnWrongType { column: "s".to_string(), actual: DataType::Boolean, plot_type: PlotType::LineChart };
    assert_eq!(e.message(), "Secondary column 's' has type Boolean which is not valid for Line Chart plot");
    let e = PlotWindowError::GroupColumnNotFound { column: "g".to_string() };
    assert_eq!(e.message(), "Group column 'g' not found in data");
    let e = PlotWindowError::GroupColumnNotCategorical { column: "g".to_string(), actual: DataType::Float64 };
    assert_eq!(e.message(), "Group column 'g' must be categorical (string), but has type Float64");
    let e = PlotWindowError::ColorColumnNotFound { column: "k".to_string() };
    assert_eq!(e.message(), "Color column 'k' not found in data");
    let e = PlotWindowError::ColorColumnNotCategorical { column: "k".to_string(), actual: DataType::Date32 };
    assert_eq!(e.message(), "Color column 'k' must be categorical (string), but has type Date32");
    let e = PlotWindowError::SizeColumnNotFound { column: "z".to_string() };
    assert_eq!(e.message(), "Size column 'z' not found in data");
    let e = PlotWindowError::SizeColumnNotNumeric { column: "z".to_string(), actual: DataType::Utf8 };
    assert_eq!(e.message(), "Size column 'z' must be numeric, but has type Utf8");
}

#[test]
fn data_type_debug_texts() {
    assert_eq!(DataType::LargeUtf8.debug_text(), "LargeUtf8");
    assert_eq!(DataType::Timestamp(TimeUnit::Millisecond, None).debug_text(), "Timestamp(Millisecond, None)");
    assert_eq!(
        DataType::Timestamp(TimeUnit::Nanosecond, Some("UTC".to_string())).debug_text(),
        "Timestamp(Nanosecond, Some(\"UTC\"))"
    );
    assert_eq!(
        DataType::Timestamp(TimeUnit::Second, Some("a\"b".to_string())).debug_text(),
        "Timestamp(Second, Some(\"a\\\"b\"))"
    );
    assert_eq!(DataType::Time64(TimeUnit::Microsecond).debug_text(), "Time64(Microsecond)");
    assert_eq!(DataType::Interval(IntervalUnit::MonthDayNano).debug_text(), "Interval(MonthDayNano)");
    assert_eq!(DataType::Decimal128(10, -2).debug_text(), "Decimal128(10, -2)");
    assert_eq!(DataType::Decimal256(76, 0).debug_text(), "Decimal256(76, 0)");
    assert_eq!(DataType::Other("Utf8View".to_string()).debug_text(), "Utf8View");
    assert_eq!(fresh::data_type::types_debug_text(&vec![DataType::Int64, DataType::Float64]), "[Int64, Float64]");
    assert_eq!(fresh::data_type::types_debug_text(&vec![]), "[]");
}
