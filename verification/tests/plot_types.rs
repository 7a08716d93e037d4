use fresh::data_type::{DataType, TimeUnit};
use fresh::plots::{PlotType, is_numeric_type, is_categorical_type, is_temporal_type, PlotColumns, ColumnValidationError};
use fresh::plots::bar::BarChartPlot;
use fresh::plots::line::LineChartPlot;
use fresh::plots::histogram::HistogramPlot;
use fresh::plots::anomaly::{AnomalyPlot, AnomalySeverity};
use fresh::plots::enhanced_config::{Rgb, ColorScheme, EnhancedPlotConfig, ConfigValidationError, interpolate_colors_exact, PlotSpecificKind};
use fresh::query::QueryResult;
use fresh::plots::heatmap::HeatmapPlot;
use fresh::plots::network::NetworkPlot;
use fresh::plots::correlation::CorrelationPlot;

fn strings(items: &[&str]) -> Vec<String> {
    items.iter().map(|s| s.to_string()).collect()
}

fn sales() -> QueryResult {
    QueryResult {
        columns: strings(&["region", "amount", "day"]),
        column_types: vec![DataType::Utf8, DataType::Float64, DataType::Date32],
        rows: vec![
            strings(&["north", "10.5", "2024-01-01"]),
            strings(&["south", "3", "2024-01-02"]),
            strings(&["north", "7", "2024-01-03"]),
            strings(&["east", "1", "2024-01-04"]),
        ],
    }
}

#[test]
fn all_types_lists_each_type_once() {
    let all = PlotType::all_types();
    assert_eq!(all.len(), 23);
    for (i, a) in all.iter().enumerate() {
        for b in all.iter().skip(i + 1) {
            assert_ne!(a, b);
        }
    }
    assert_eq!(all[0], PlotType::BarChart);
    assert_eq!(all[22], PlotType::PolarPlot);
}

#[test]
fn categories_cover_all_types_in_order() {
    let cats = PlotType::categories();
    assert_eq!(cats.len(), 8);
    assert_eq!(cats[0].0, "Basic 2D");
    assert_eq!(cats[5].0, "Geographic");
    assert_eq!(cats[5].1, vec![PlotType::GeoPlot]);
    let flat: Vec<PlotType> = cats.iter().flat_map(|(_, v)| v.iter().copied()).collect();
    assert_eq!(flat, PlotType::all_types());
}

#[test]
fn plot_type_names() {
    assert_eq!(PlotType::BarChart.name(), "Bar Chart");
    assert_eq!(PlotType::Scatter3D.name(), "3D Scatter Plot");
    assert_eq!(PlotType::GeoPlot.name(), "Geographic Plot");
    assert_eq!(PlotType::TimeAnalysis.name(), "Time Series Analysis");
}

#[test]
fn required_types_of_plots() {
    assert!(PlotType::Histogram.required_x_types().is_none());
    let x = PlotType::BarChart.required_x_types().unwrap();
    assert_eq!(x.len(), 3);
    assert!(matches!(x[0], DataType::Utf8));
    let y = PlotType::LineChart.required_y_types();
    assert_eq!(y.len(), 2);
    assert!(matches!(y[0], DataType::Int64));
    assert!(matches!(y[1], DataType::Float64));
}

#[test]
fn supported_column_type_pairs() {
    assert!(PlotType::ScatterPlot.supports_column_types(Some(&DataType::Int32), &DataType::Float64));
    assert!(!PlotType::ScatterPlot.supports_column_types(Some(&DataType::Utf8), &DataType::Float64));
    assert!(PlotType::BarChart.supports_column_types(Some(&DataType::Utf8), &DataType::Int64));
    assert!(!PlotType::TimeAnalysis.supports_column_types(None, &DataType::Int64));
    assert!(PlotType::TimeAnalysis.supports_column_types(Some(&DataType::Date32), &DataType::Int64));
    assert!(PlotType::Histogram.supports_column_types(None, &DataType::UInt8));
}

#[test]
fn type_families() {
    assert!(is_numeric_type(&DataType::UInt64));
    assert!(is_numeric_type(&DataType::Float32));
    assert!(!is_numeric_type(&DataType::Utf8));
    assert!(is_categorical_type(&DataType::Utf8));
    assert!(!is_categorical_type(&DataType::Boolean));
    assert!(is_categorical_type(&DataType::LargeUtf8));
    assert!(!is_categorical_type(&DataType::Int8));
    assert!(is_temporal_type(&DataType::Timestamp(TimeUnit::Second, None)));
    assert!(is_temporal_type(&DataType::Date64));
    assert!(!is_temporal_type(&DataType::Float64));
}

#[test]
fn bar_chart_validates_columns() {
    let plot = BarChartPlot;
    let data = sales();
    let ok = PlotColumns { x_column: "region".to_string(), y_column: "amount".to_string(), color_column: None, size_column: None };
    assert!(plot.validate_columns(&data, &ok).is_ok());
    let no_x = PlotColumns { x_column: String::new(), y_column: "amount".to_string(), color_column: None, size_column: None };
    assert!(matches!(plot.validate_columns(&data, &no_x), Err(ColumnValidationError::XColumnRequired)));
    let bad_y = PlotColumns { x_column: "region".to_string(), y_column: "region".to_string(), color_column: None, size_column: None };
    match plot.validate_columns(&data, &bad_y) {
        Err(ColumnValidationError::YColumnWrongType { column, plot_name, .. }) => {
            assert_eq!(column, "region");
            assert_eq!(plot_name, "Bar Chart");
        }
        other => panic!("unexpected {:?}", other),
    }
    let missing_color = PlotColumns { x_column: "region".to_string(), y_column: "amount".to_string(), color_column: Some("shade".to_string()), size_column: None };
    assert!(matches!(plot.validate_columns(&data, &missing_color), Err(ColumnValidationError::ColorColumnNotFound { .. })));
}

#[test]
fn histogram_needs_only_a_y_column() {
    let plot = HistogramPlot;
    let data = sales();
    let none = PlotColumns { x_column: String::new(), y_column: String::new(), color_column: None, size_column: None };
    assert!(matches!(plot.validate_columns(&data, &none), Err(ColumnValidationError::HistogramYColumnRequired)));
    let y = PlotColumns { x_column: String::new(), y_column: "amount".to_string(), color_column: None, size_column: None };
    assert!(plot.validate_columns(&data, &y).is_ok());
}

#[test]
fn unique_categories_sorted_and_distinct() {
    let plot = BarChartPlot;
    let data = sales();
    assert_eq!(plot.get_unique_categories(&data, "region").unwrap(), strings(&["east", "north", "south"]));
    assert_eq!(plot.get_unique_categories(&data, "nope").unwrap_err(), "Column 'nope' not found");
}

#[test]
fn line_sampling_keeps_everything_for_small_data() {
    let plot = LineChartPlot;
    assert_eq!(plot.sample_point_indices(5, 100), vec![0, 1, 2, 3, 4]);
    let big = plot.sample_point_indices(300_000, 300_000);
    assert_eq!(big.len(), 10_001);
    assert_eq!(big[1], 30);
    assert_eq!(big[9_999], 299_970);
    assert_eq!(*big.last().unwrap(), 299_999);
}

#[test]
fn anomaly_colors_by_severity() {
    let plot = AnomalyPlot;
    assert_eq!(plot.get_anomaly_color(&AnomalySeverity::Low), Rgb { r: 255, g: 255, b: 0 });
    assert_eq!(plot.get_anomaly_color(&AnomalySeverity::Medium), Rgb { r: 255, g: 165, b: 0 });
    assert_eq!(plot.get_anomaly_color(&AnomalySeverity::High), Rgb { r: 255, g: 69, b: 0 });
    assert_eq!(plot.get_anomaly_color(&AnomalySeverity::Critical), Rgb { r: 255, g: 0, b: 0 });
}

#[test]
fn exact_color_prefixes() {
    let base = ColorScheme::Viridis.base_colors();
    assert!(!base.is_empty());
    assert_eq!(interpolate_colors_exact(&base, 0).unwrap(), Vec::<Rgb>::new());
    assert_eq!(interpolate_colors_exact(&base, 1).unwrap(), vec![base[0]]);
    assert!(interpolate_colors_exact(&base, base.len() + 1).is_none());
}

#[test]
fn enhanced_config_validation() {
    let mut config = EnhancedPlotConfig::new("scatter");
    assert!(matches!(config.plot_specific, PlotSpecificKind::ScatterPlot));
    let columns = strings(&["a", "b"]);
    let types = vec![("a".to_string(), DataType::Utf8), ("b".to_string(), DataType::Int64)];
    assert!(!config.validate(&columns, &types));
    assert!(matches!(config.get_validation_errors()[0], ConfigValidationError::YColumnsRequired));
    assert!(!config.is_valid());
    config.y_columns = strings(&["b"]);
    config.x_column = Some("a".to_string());
    assert!(!config.validate(&columns, &types));
    assert_eq!(config.get_validation_errors().len(), 1);
    assert!(matches!(config.get_validation_errors()[0], ConfigValidationError::XColumnNotNumericForScatter { .. }));
    config.x_column = Some("b".to_string());
    assert!(config.validate(&columns, &types));
    assert!(config.is_valid());
    assert!(config.get_validation_errors().is_empty());
}

fn grid() -> QueryResult {
    QueryResult {
        columns: strings(&["day", "hour", "count"]),
        column_types: vec![DataType::Utf8, DataType::Utf8, DataType::Int64],
        rows: vec![
            strings(&["tue", "9", "2"]),
            strings(&["mon", "10", "5"]),
            strings(&["mon"]),
            strings(&["tue", "10", "1"]),
        ],
    }
}

#[test]
fn heatmap_cells_and_labels() {
    let plot = HeatmapPlot;
    let layout = plot.cell_layout(&grid(), "day", "hour", Some("count")).unwrap();
    assert_eq!(layout.col_labels, strings(&["mon", "tue"]));
    assert_eq!(layout.row_labels, strings(&["10", "9"]));
    assert_eq!(layout.value_index, Some(2));
    let cells: Vec<(usize, usize, usize)> = layout.cells.iter().map(|c| (c.source_row, c.row, c.col)).collect();
    assert_eq!(cells, vec![(0, 1, 1), (1, 0, 0), (3, 0, 1)]);
    assert_eq!(plot.cell_layout(&grid(), "", "hour", None).err().unwrap(), "Both X and Y columns are required for heatmap");
    assert_eq!(plot.cell_layout(&grid(), "week", "hour", None).err().unwrap(), "X column 'week' not found");
    assert_eq!(plot.cell_layout(&grid(), "day", "minute", None).err().unwrap(), "Y column 'minute' not found");
    assert_eq!(plot.cell_layout(&grid(), "day", "hour", Some("sum")).err().unwrap(), "Value column 'sum' not found");
    assert_eq!(plot.cell_layout(&grid(), "day", "hour", None).unwrap().value_index, None);
}

#[test]
fn network_nodes_in_first_seen_order() {
    let data = QueryResult {
        columns: strings(&["from", "to"]),
        column_types: vec![DataType::Utf8, DataType::Utf8],
        rows: vec![strings(&["a", "b"]), strings(&["b", "c"]), strings(&["x"]), strings(&["c", "a"])],
    };
    let plot = NetworkPlot;
    let g = plot.graph_layout(&data, "from", "to").unwrap();
    assert_eq!(g.nodes, strings(&["a", "b", "c"]));
    let edges: Vec<(usize, usize, usize)> = g.edges.iter().map(|e| (e.row, e.source, e.target)).collect();
    assert_eq!(edges, vec![(0, 0, 1), (1, 1, 2), (3, 2, 0)]);
    assert_eq!(plot.graph_layout(&data, "from", "").err().unwrap(), "X and Y columns are required for network graphs");
    assert_eq!(plot.graph_layout(&data, "src", "to").err().unwrap(), "X column not found");
    assert_eq!(plot.graph_layout(&data, "from", "dst").err().unwrap(), "Y column not found");
}

#[test]
fn network_reads_every_nth_row_of_large_results() {
    let rows: Vec<Vec<String>> = (0..3001).map(|i| vec![format!("n{}", i), "hub".to_string()]).collect();
    let data = QueryResult { columns: strings(&["a", "b"]), column_types: vec![DataType::Utf8, DataType::Utf8], rows };
    let g = NetworkPlot.graph_layout(&data, "a", "b").unwrap();
    assert_eq!(g.edges.len(), 1501);
    assert_eq!(g.edges[1].row, 2);
    assert_eq!(g.nodes.len(), 1502);
    assert_eq!(g.nodes[1], "hub");
}

fn typed(cols: Vec<(&str, DataType)>) -> (Vec<String>, Vec<(String, DataType)>) {
    let names = cols.iter().map(|(n, _)| n.to_string()).collect();
    let types = cols.into_iter().map(|(n, t)| (n.to_string(), t)).collect();
    (names, types)
}

#[test]
fn enhanced_config_reports_every_issue_in_order() {
    let (names, types) = typed(vec![("t", DataType::Utf8), ("n", DataType::Int32), ("d", DataType::Date32), ("b", DataType::Boolean)]);
    let mut c = EnhancedPlotConfig::new("line");
    c.y_columns = strings(&["n", "gone", "t"]);
    c.x_column = Some("t".to_string());
    c.color_column = Some("c1".to_string());
    c.size_column = Some("s1".to_string());
    c.category_column = Some("k1".to_string());
    assert!(!c.validate(&names, &types));
    let e = c.get_validation_errors();
    assert_eq!(e.len(), 6);
    assert!(matches!(&e[0], ConfigValidationError::YColumnNotFound { column } if column == "gone"));
    assert!(matches!(&e[1], ConfigValidationError::ColorColumnNotFound { column } if column == "c1"));
    assert!(matches!(&e[2], ConfigValidationError::SizeColumnNotFound { column } if column == "s1"));
    assert!(matches!(&e[3], ConfigValidationError::CategoryColumnNotFound { column } if column == "k1"));
    assert!(matches!(&e[4], ConfigValidationError::YColumnNotNumeric { column, .. } if column == "t"));
    assert!(matches!(&e[5], ConfigValidationError::XColumnNotNumericOrTemporal { column, .. } if column == "t"));
}

#[test]
fn enhanced_config_x_rules_by_plot_kind() {
    let (names, types) = typed(vec![("t", DataType::Utf8), ("n", DataType::Int32), ("b", DataType::Boolean)]);
    let mut bar = EnhancedPlotConfig::new("bar");
    bar.y_columns = strings(&["n"]);
    bar.x_column = Some("t".to_string());
    assert!(bar.validate(&names, &types));
    bar.x_column = Some("b".to_string());
    assert!(!bar.validate(&names, &types));
    assert!(matches!(bar.get_validation_errors()[0], ConfigValidationError::XColumnNotNumericOrCategorical { .. }));
    let mut hist = EnhancedPlotConfig::new("histogram");
    hist.y_columns = strings(&["n"]);
    hist.x_column = Some("t".to_string());
    assert!(!hist.validate(&names, &types));
    assert!(matches!(hist.get_validation_errors()[0], ConfigValidationError::XColumnNotNumeric { .. }));
    let mut missing = EnhancedPlotConfig::new("histogram");
    missing.y_columns = strings(&["n"]);
    missing.x_column = Some("zz".to_string());
    assert!(!missing.validate(&names, &types));
    assert!(matches!(&missing.get_validation_errors()[0], ConfigValidationError::XColumnNotFound { column } if column == "zz"));
}

#[test]
fn validating_again_gives_the_same_verdict() {
    let (names, types) = typed(vec![("n", DataType::Int32)]);
    let mut c = EnhancedPlotConfig::new("scatter");
    c.y_columns = strings(&["n", "m"]);
    let first = c.validate(&names, &types);
    let count = c.get_validation_errors().len();
    let second = c.validate(&names, &types);
    assert_eq!(first, second);
    assert_eq!(count, c.get_validation_errors().len());
}

#[test]
fn column_validation_reports_each_problem() {
    let data = sales();
    let bar = BarChartPlot;
    let wrong_x = PlotColumns { x_column: "day".to_string(), y_column: "amount".to_string(), color_column: None, size_column: None };
    assert!(matches!(bar.validate_columns(&data, &wrong_x), Err(ColumnValidationError::XColumnWrongType { .. })));
    let no_y = PlotColumns { x_column: "region".to_string(), y_column: String::new(), color_column: None, size_column: None };
    assert!(matches!(bar.validate_columns(&data, &no_y), Err(ColumnValidationError::YColumnRequired)));
    let missing_size = PlotColumns { x_column: "region".to_string(), y_column: "amount".to_string(), color_column: None, size_column: Some("big".to_string()) };
    assert!(matches!(bar.validate_columns(&data, &missing_size), Err(ColumnValidationError::SizeColumnNotFound { .. })));
    let corr = CorrelationPlot;
    let x_missing = PlotColumns { x_column: "nowhere".to_string(), y_column: "amount".to_string(), color_column: None, size_column: None };
    assert!(matches!(corr.validate_columns(&data, &x_missing), Err(ColumnValidationError::XColumnNotFound { .. })));
}

#[test]
fn plot_type_names_are_distinct() {
    let all = [
        PlotType::BarChart, PlotType::LineChart, PlotType::ScatterPlot, PlotType::Histogram, PlotType::BoxPlot,
        PlotType::HeatMap, PlotType::ViolinPlot, PlotType::AnomalyDetection, PlotType::CorrelationMatrix,
        PlotType::Scatter3D, PlotType::Surface3D, PlotType::ContourPlot, PlotType::ParallelCoordinates,
        PlotType::RadarChart, PlotType::SankeyDiagram, PlotType::Treemap, PlotType::SunburstChart,
        PlotType::NetworkGraph, PlotType::GeoPlot, PlotType::TimeAnalysis, PlotType::CandlestickChart,
        PlotType::StreamGraph, PlotType::PolarPlot,
    ];
    for (i, p) in all.iter().enumerate() {
        assert!(!p.name().is_empty());
        for (j, q) in all.iter().enumerate() {
            assert_eq!(p.name() == q.name(), i == j);
        }
    }
}

#[test]
fn config_error_messages() {
    assert_eq!(ConfigValidationError::YColumnsRequired.message(), "At least one Y column is required");
    assert_eq!(
        ConfigValidationError::YColumnNotFound { column: "y".to_string() }.message(),
        "Y column 'y' not found in data"
    );
    assert_eq!(
        ConfigValidationError::CategoryColumnNotFound { column: "c".to_string() }.message(),
        "Category column 'c' not found in data"
    );
    assert_eq!(
        ConfigValidationError::XColumnNotNumericOrTemporal { column: "x".to_string(), found: DataType::Utf8 }.message(),
        "X column 'x' must be numeric or temporal for line charts, found Utf8"
    );
    assert_eq!(
        ConfigValidationError::XColumnNotNumericOrCategorical { column: "x".to_string(), found: DataType::Boolean }.message(),
        "X column 'x' must be numeric or categorical for bar charts, found Boolean"
    );
    assert_eq!(
        ConfigValidationError::YColumnNotNumeric { column: "y".to_string(), found: DataType::Timestamp(TimeUnit::Second, None) }.message(),
        "Y column 'y' must be numeric, found Timestamp(Second, None)"
    );
}

#[test]
fn column_error_messages() {
    assert_eq!(ColumnValidationError::XColumnRequired.message(), "X column is required for this plot type");
    assert_eq!(ColumnValidationError::YColumnRequired.message(), "Y column is required for this plot type");
    assert_eq!(ColumnValidationError::HistogramYColumnRequired.message(), "Y column is required for histogram");
    assert_eq!(
        ColumnValidationError::XColumnNotFound { column: "x".to_string() }.message(),
        "X column 'x' not found in data"
    );
    assert_eq!(
        ColumnValidationError::YColumnWrongType {
            column: "y".to_string(),
            actual: DataType::Utf8,
            plot_name: "Line Chart",
            required: vec![DataType::Int64, DataType::Float64],
        }
        .message(),
        "Y column 'y' has type Utf8 which is not valid for Line Chart plot. Required types: [Int64, Float64]"
    );
    assert_eq!(
        ColumnValidationError::SizeColumnNotFound { column: "s".to_string() }.message(),
        "Size column 's' not found in data"
    );
}
