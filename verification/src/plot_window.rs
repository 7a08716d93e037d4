//! The plot window: its configuration, which columns suit the chosen plot,
//! and the checks made before a plot is drawn.

use vstd::prelude::*;
use crate::data_type::{DataType, type_debug};
use crate::query::{QueryResult, has_name, position, contains_name};
use crate::plots::{
    PlotType, PlotSpecificSettings, BarChartSettings, LineChartSettings, ScatterPlotSettings,
    HistogramSettings, BoxPlotConfig, ViolinPlotSettings, BarOrientation, plot_supports,
    is_numeric_type, is_categorical_type, plot_type_name,
};
use crate::plots::enhanced_config::ColorScheme;
use crate::gpu_renderer::RenderMode;
use crate::text::{str_eq, joined3, decimal, push_decimal};

verus! {

/// The characters of each string of a sequence.
pub open spec fn texts(v: Seq<String>) -> Seq<Seq<char>> {
    v.map_values(|s: String| s@)
}

/// The characters of each string slice of a sequence.
pub open spec fn str_texts(v: Seq<&str>) -> Seq<Seq<char>> {
    v.map_values(|s: &str| s@)
}

/// Owned copies of string slices.
pub fn to_strings(items: Vec<&str>) -> (r: Vec<String>)
    ensures
        texts(r@) == str_texts(items@),
{
    let mut out: Vec<String> = Vec::new();
    let mut i: usize = 0;
    while i < items.len()
        invariant
            i <= items.len(),
            texts(out@) == str_texts(items@.take(i as int)),
        decreases items.len() - i,
    {
        let s = items[i].to_owned();
        let ghost before = out@;
        out.push(s);
        assert(texts(out@) =~= texts(before).push(s@));
        assert(str_texts(items@.take(i + 1)) =~= str_texts(items@.take(i as int)).push(items@[i as int]@));
        i = i + 1;
    }
    assert(items@.take(items.len() as int) =~= items@);
    out
}

/// The configuration of a plot window.
pub struct PlotConfig {
    pub title: String,
    pub plot_type: Option<PlotType>,
    pub primary_columns: Vec<String>,
    pub secondary_columns: Vec<String>,
    pub group_column: Option<String>,
    pub color_column: Option<String>,
    pub size_column: Option<String>,
    pub show_legend: bool,
    pub show_grid: bool,
    pub color_scheme: ColorScheme,
    pub use_gpu_rendering: bool,
    pub render_mode: RenderMode,
    pub plot_specific_config: PlotSpecificSettings,
}

/// The configuration a new plot starts with: no title or plot type, two
/// empty primary column slots, no other columns, legend and grid shown,
/// Viridis colours, automatic rendering on the CPU.
pub open spec fn is_default_config(r: PlotConfig) -> bool {
    &&& r.title@.len() == 0
    &&& r.plot_type is None
    &&& texts(r.primary_columns@) == seq![Seq::<char>::empty(), Seq::<char>::empty()]
    &&& r.secondary_columns@.len() == 0
    &&& r.group_column is None
    &&& r.color_column is None
    &&& r.size_column is None
    &&& r.show_legend
    &&& r.show_grid
    &&& r.color_scheme == ColorScheme::Viridis
    &&& !r.use_gpu_rendering
    &&& r.render_mode == RenderMode::Auto
    &&& r.plot_specific_config == PlotSpecificSettings::Unspecified
}

impl Default for PlotConfig {
    fn default() -> (r: Self)
        ensures
            is_default_config(r),
    {
        let primary = vec![String::new(), String::new()];
        assert(texts(primary@) =~= seq![Seq::<char>::empty(), Seq::<char>::empty()]);
        PlotConfig {
            title: String::new(),
            plot_type: None,
            primary_columns: primary,
            secondary_columns: Vec::new(),
            group_column: None,
            color_column: None,
            size_column: None,
            show_legend: true,
            show_grid: true,
            color_scheme: ColorScheme::Viridis,
            use_gpu_rendering: false,
            render_mode: RenderMode::Auto,
            plot_specific_config: PlotSpecificSettings::Unspecified,
        }
    }
}

/// How many primary and secondary columns a plot type needs.
pub open spec fn required_counts(t: Option<PlotType>) -> (usize, usize) {
    match t {
        Some(PlotType::Histogram) => (1, 0),
        Some(PlotType::HeatMap) | Some(PlotType::Scatter3D) | Some(PlotType::Surface3D) | Some(
            PlotType::SankeyDiagram,
        ) | Some(PlotType::NetworkGraph) | Some(PlotType::GeoPlot) => (3, 0),
        Some(PlotType::CorrelationMatrix) | Some(PlotType::ParallelCoordinates) | Some(
            PlotType::RadarChart,
        ) => (0, 0),
        Some(PlotType::CandlestickChart) => (4, 0),
        _ => (2, 0),
    }
}

/// Whether the settings are those of a bar chart laid out horizontally.
pub open spec fn horizontal_bars(s: PlotSpecificSettings) -> bool {
    match s {
        PlotSpecificSettings::BarChart(b) => b.orientation == BarOrientation::Horizontal,
        _ => false,
    }
}

/// The labels of the primary columns of a plot type.
pub open spec fn column_labels(t: Option<PlotType>, horizontal: bool) -> Seq<Seq<char>> {
    match t {
        Some(PlotType::BarChart) => if horizontal {
            seq!["Value (X)"@, "Category (Y)"@]
        } else {
            seq!["Category (X)"@, "Value (Y)"@]
        },
        Some(PlotType::Histogram) => seq!["Value"@],
        Some(PlotType::BoxPlot) | Some(PlotType::ViolinPlot) => seq![
            "Category (X)"@,
            "Value (Y)"@,
        ],
        Some(PlotType::HeatMap) => seq!["Row (Y)"@, "Column (X)"@, "Value"@],
        Some(PlotType::Scatter3D) | Some(PlotType::Surface3D) => seq![
            "X Axis"@,
            "Y Axis"@,
            "Z Axis"@,
        ],
        Some(PlotType::SankeyDiagram) => seq!["Source"@, "Target"@, "Value"@],
        Some(PlotType::NetworkGraph) => seq!["Source"@, "Target"@, "Weight"@],
        Some(PlotType::GeoPlot) => seq!["Latitude"@, "Longitude"@, "Value"@],
        Some(PlotType::TimeAnalysis) | Some(PlotType::StreamGraph) => seq!["Time"@, "Value"@],
        Some(PlotType::CandlestickChart) => seq!["Open"@, "High"@, "Low"@, "Close"@],
        Some(PlotType::PolarPlot) => seq!["Angle"@, "Radius"@],
        _ => seq!["X Axis"@, "Y Axis"@],
    }
}

/// The optional columns a plot type offers, each with a description.
pub open spec fn optional_columns(t: Option<PlotType>) -> Seq<(Seq<char>, Seq<char>)> {
    match t {
        Some(PlotType::BarChart) => seq![
            ("Group"@, "Group data by category"@),
            ("Color"@, "Color by category"@),
        ],
        Some(PlotType::LineChart) => seq![
            ("Color"@, "Color by category"@),
            ("Shape"@, "Shape by category"@),
            ("Style"@, "Line style"@),
        ],
        Some(PlotType::ScatterPlot) => seq![
            ("Color"@, "Color by value"@),
            ("Size"@, "Size by value"@),
            ("Shape"@, "Shape by category"@),
        ],
        Some(PlotType::BoxPlot) | Some(PlotType::ViolinPlot) => seq![
            ("Group"@, "Group by category"@),
        ],
        Some(PlotType::HeatMap) => seq![("Color Scale"@, "Color scale type"@)],
        Some(PlotType::Scatter3D) => seq![
            ("Color"@, "Color by value"@),
            ("Size"@, "Size by value"@),
        ],
        Some(PlotType::Surface3D) => seq![("Interpolation"@, "Surface interpolation"@)],
        _ => seq![],
    }
}

/// The plot-specific settings a plot type starts with.
pub open spec fn fresh_settings(t: PlotType) -> PlotSpecificSettings {
    match t {
        PlotType::BarChart => PlotSpecificSettings::BarChart(
            BarChartSettings {
                stacking_mode: crate::plots::StackingMode::Unstacked,
                sort_order: crate::plots::SortOrder::Unsorted,
                orientation: BarOrientation::Vertical,
            },
        ),
        PlotType::LineChart => PlotSpecificSettings::LineChart(
            LineChartSettings {
                line_style: crate::plots::LineStyle::Solid,
                show_points: true,
                smooth_lines: false,
                fill_area: false,
            },
        ),
        PlotType::ScatterPlot => PlotSpecificSettings::ScatterPlot(
            ScatterPlotSettings {
                point_shape: crate::plots::MarkerShape::Circle,
                show_trend_line: false,
                show_density: false,
            },
        ),
        PlotType::Histogram => PlotSpecificSettings::Histogram(
            HistogramSettings { bin_count: None, show_density: false, show_normal_curve: false },
        ),
        PlotType::BoxPlot => PlotSpecificSettings::BoxPlot(
            BoxPlotConfig {
                show_outliers: true,
                show_mean: false,
                notched: false,
                violin_overlay: false,
            },
        ),
        PlotType::ViolinPlot => PlotSpecificSettings::Violin(
            ViolinPlotSettings {
                show_box_plot: true,
                show_mean: true,
                show_median: true,
                show_quartiles: true,
                show_outliers: true,
                kde_points: 100,
                comparison_mode: false,
                normalize_width: true,
                show_distribution_curve: false,
                show_points: false,
                orientation: crate::plots::Orientation::Vertical,
                scale: crate::plots::ViolinScale::Width,
            },
        ),
        _ => PlotSpecificSettings::Unspecified,
    }
}

/// Two plot configurations agree on everything but their plot-specific
/// settings.
pub open spec fn same_but_settings(a: PlotConfig, b: PlotConfig) -> bool {
    &&& a.title == b.title
    &&& a.plot_type == b.plot_type
    &&& a.primary_columns == b.primary_columns
    &&& a.secondary_columns == b.secondary_columns
    &&& a.group_column == b.group_column
    &&& a.color_column == b.color_column
    &&& a.size_column == b.size_column
    &&& a.show_legend == b.show_legend
    &&& a.show_grid == b.show_grid
    &&& a.color_scheme == b.color_scheme
    &&& a.use_gpu_rendering == b.use_gpu_rendering
    &&& a.render_mode == b.render_mode
}

impl PlotConfig {
    /// How many primary and secondary columns the selected plot type needs.
    pub fn get_required_column_count(&self) -> (r: (usize, usize))
        ensures
            r == required_counts(self.plot_type),
    {
        match self.plot_type {
            Some(PlotType::BarChart) => (2, 0),
            Some(PlotType::LineChart) => (2, 0),
            Some(PlotType::ScatterPlot) => (2, 0),
            Some(PlotType::Histogram) => (1, 0),
            Some(PlotType::BoxPlot) => (2, 0),
            Some(PlotType::ViolinPlot) => (2, 0),
            Some(PlotType::HeatMap) => (3, 0),
            Some(PlotType::CorrelationMatrix) => (0, 0),
            Some(PlotType::Scatter3D) => (3, 0),
            Some(PlotType::Surface3D) => (3, 0),
            Some(PlotType::ParallelCoordinates) => (0, 0),
            Some(PlotType::RadarChart) => (0, 0),
            Some(PlotType::SankeyDiagram) => (3, 0),
            Some(PlotType::NetworkGraph) => (3, 0),
            Some(PlotType::GeoPlot) => (3, 0),
            Some(PlotType::TimeAnalysis) => (2, 0),
            Some(PlotType::CandlestickChart) => (4, 0),
            Some(PlotType::StreamGraph) => (2, 0),
            Some(PlotType::PolarPlot) => (2, 0),
            _ => (2, 0),
        }
    }

    /// Whether the configuration is that of a bar chart laid out horizontally.
    fn is_horizontal_bars(&self) -> (r: bool)
        ensures
            r == horizontal_bars(self.plot_specific_config),
    {
        match self.plot_specific_config {
            PlotSpecificSettings::BarChart(b) => b.orientation == BarOrientation::Horizontal,
            _ => false,
        }
    }

    /// The labels of the primary columns of the selected plot type.
    pub fn get_column_labels(&self) -> (r: Vec<String>)
        ensures
            texts(r@) == column_labels(self.plot_type, horizontal_bars(self.plot_specific_config)),
    {
        let labels: Vec<&str> = match self.plot_type {
            Some(PlotType::BarChart) => {
                if self.is_horizontal_bars() {
                    vec!["Value (X)", "Category (Y)"]
                } else {
                    vec!["Category (X)", "Value (Y)"]
                }
            },
            Some(PlotType::LineChart) => vec!["X Axis", "Y Axis"],
            Some(PlotType::ScatterPlot) => vec!["X Axis", "Y Axis"],
            Some(PlotType::Histogram) => vec!["Value"],
            Some(PlotType::BoxPlot) => vec!["Category (X)", "Value (Y)"],
            Some(PlotType::ViolinPlot) => vec!["Category (X)", "Value (Y)"],
            Some(PlotType::HeatMap) => vec!["Row (Y)", "Column (X)", "Value"],
            Some(PlotType::Scatter3D) => vec!["X Axis", "Y Axis", "Z Axis"],
            Some(PlotType::Surface3D) => vec!["X Axis", "Y Axis", "Z Axis"],
            Some(PlotType::SankeyDiagram) => vec!["Source", "Target", "Value"],
            Some(PlotType::NetworkGraph) => vec!["Source", "Target", "Weight"],
            Some(PlotType::GeoPlot) => vec!["Latitude", "Longitude", "Value"],
            Some(PlotType::TimeAnalysis) => vec!["Time", "Value"],
            Some(PlotType::CandlestickChart) => vec!["Open", "High", "Low", "Close"],
            Some(PlotType::StreamGraph) => vec!["Time", "Value"],
            Some(PlotType::PolarPlot) => vec!["Angle", "Radius"],
            _ => vec!["X Axis", "Y Axis"],
        };
        assert(str_texts(labels@) =~= column_labels(
            self.plot_type,
            horizontal_bars(self.plot_specific_config),
        ));
        to_strings(labels)
    }

    /// The optional columns the selected plot type offers, each with a
    /// description.
    pub fn get_optional_columns(&self) -> (r: Vec<(&'static str, &'static str)>)
        ensures
            r@.map_values(|e: (&'static str, &'static str)| (e.0@, e.1@)) == optional_columns(
                self.plot_type,
            ),
    {
        let v = match self.plot_type {
            Some(PlotType::BarChart) => vec![
                ("Group", "Group data by category"),
                ("Color", "Color by category"),
            ],
            Some(PlotType::LineChart) => vec![
                ("Color", "Color by category"),
                ("Shape", "Shape by category"),
                ("Style", "Line style"),
            ],
            Some(PlotType::ScatterPlot) => vec![
                ("Color", "Color by value"),
                ("Size", "Size by value"),
                ("Shape", "Shape by category"),
            ],
            Some(PlotType::BoxPlot) => vec![("Group", "Group by category")],
            Some(PlotType::ViolinPlot) => vec![("Group", "Group by category")],
            Some(PlotType::HeatMap) => vec![("Color Scale", "Color scale type")],
            Some(PlotType::Scatter3D) => vec![("Color", "Color by value"), ("Size", "Size by value")],
            Some(PlotType::Surface3D) => vec![("Interpolation", "Surface interpolation")],
            _ => vec![],
        };
        assert(v@.map_values(|e: (&'static str, &'static str)| (e.0@, e.1@)) =~= optional_columns(
            self.plot_type,
        ));
        v
    }

    /// Gives the plot-specific settings the defaults of the selected plot
    /// type; keeps them when no plot type is selected.
    pub fn update_plot_specific_config(&mut self)
        ensures
            same_but_settings(*final(self), *old(self)),
            final(self).plot_specific_config == match old(self).plot_type {
                Some(t) => fresh_settings(t),
                None => old(self).plot_specific_config,
            },
    {
        match self.plot_type {
            Some(plot_type) => {
                self.plot_specific_config = match plot_type {
                    PlotType::BarChart => PlotSpecificSettings::BarChart(BarChartSettings::default()),
                    PlotType::LineChart => PlotSpecificSettings::LineChart(
                        LineChartSettings::default(),
                    ),
                    PlotType::ScatterPlot => PlotSpecificSettings::ScatterPlot(
                        ScatterPlotSettings::default(),
                    ),
                    PlotType::Histogram => PlotSpecificSettings::Histogram(
                        HistogramSettings::default(),
                    ),
                    PlotType::BoxPlot => PlotSpecificSettings::BoxPlot(BoxPlotConfig::default()),
                    PlotType::ViolinPlot => PlotSpecificSettings::Violin(
                        ViolinPlotSettings::default(),
                    ),
                    _ => PlotSpecificSettings::Unspecified,
                };
            },
            None => {},
        }
    }
}

/// A plot window: its identity, configuration, and the data it shows.
pub struct PlotWindow {
    pub id: String,
    pub title: String,
    pub config: PlotConfig,
    pub is_config_open: bool,
    pub open: bool,
    pub data: Option<QueryResult>,
    pub source_query_id: Option<String>,
}

/// Which columns a column listing keeps.
#[derive(Debug, Clone, Copy, PartialEq, Eq, Structural)]
pub enum ColumnTest {
    /// Columns whose type suits a plot type.
    SuitsPlot(PlotType),
    /// Numeric columns.
    Numeric,
    /// Categorical columns.
    Categorical,
}

/// Whether a column type passes a column test.
pub open spec fn passes(test: ColumnTest, t: DataType) -> bool {
    match test {
        ColumnTest::SuitsPlot(p) => plot_supports(p, Some(t), t),
        ColumnTest::Numeric => t.numeric(),
        ColumnTest::Categorical => t.categorical(),
    }
}

/// The names of the columns, in order, that have a known type passing the
/// test.
pub open spec fn columns_passing(cols: Seq<String>, types: Seq<DataType>, test: ColumnTest) -> Seq<
    Seq<char>,
>
    decreases cols.len(),
{
    if cols.len() == 0 {
        seq![]
    } else {
        let prev = columns_passing(cols.drop_last(), types, test);
        let i = cols.len() - 1;
        if i < types.len() && passes(test, types[i]) {
            prev.push(cols.last()@)
        } else {
            prev
        }
    }
}

fn passes_test(test: ColumnTest, t: &DataType) -> (r: bool)
    ensures
        r == passes(test, *t),
{
    match test {
        ColumnTest::SuitsPlot(p) => p.supports_column_types(Some(t), t),
        ColumnTest::Numeric => is_numeric_type(t),
        ColumnTest::Categorical => is_categorical_type(t),
    }
}

/// The names of the columns of `data` whose known type passes the test.
pub fn columns_matching(data: &QueryResult, test: ColumnTest) -> (r: Vec<String>)
    ensures
        texts(r@) == columns_passing(data.columns@, data.column_types@, test),
{
    let mut out: Vec<String> = Vec::new();
    let mut i: usize = 0;
    while i < data.columns.len()
        invariant
            i <= data.columns.len(),
            texts(out@) == columns_passing(data.columns@.take(i as int), data.column_types@, test),
        decreases data.columns.len() - i,
    {
        let ghost before = out@;
        assert(data.columns@.take(i + 1).drop_last() =~= data.columns@.take(i as int));
        if i < data.column_types.len() && passes_test(test, &data.column_types[i]) {
            let name = data.columns[i].clone();
            out.push(name);
            assert(texts(out@) =~= texts(before).push(name@));
        }
        i = i + 1;
    }
    assert(data.columns@.take(data.columns.len() as int) =~= data.columns@);
    out
}

/// The listing a primary column slot offers: for bar charts a number and a
/// category in the order their orientation gives, numbers for histograms,
/// scatter plots and line charts, a category then a number for box and
/// violin plots, and the columns suiting the plot otherwise.
pub open spec fn primary_slot_test(pt: PlotType, horizontal: bool, i: nat) -> ColumnTest {
    match pt {
        PlotType::BarChart => if horizontal == (i == 0) {
            ColumnTest::Numeric
        } else {
            ColumnTest::Categorical
        },
        PlotType::Histogram | PlotType::ScatterPlot | PlotType::LineChart => ColumnTest::Numeric,
        PlotType::BoxPlot | PlotType::ViolinPlot => if i == 0 {
            ColumnTest::Categorical
        } else {
            ColumnTest::Numeric
        },
        _ => ColumnTest::SuitsPlot(pt),
    }
}

/// The listing an optional column slot offers: categories for the group and
/// color columns, numbers for the size column, and the columns suiting the
/// plot for any other slot.
pub open spec fn optional_slot_test(kind: Seq<char>, pt: PlotType) -> ColumnTest {
    if kind == "Group"@ || kind == "Color"@ {
        ColumnTest::Categorical
    } else if kind == "Size"@ {
        ColumnTest::Numeric
    } else {
        ColumnTest::SuitsPlot(pt)
    }
}

/// An optional column choice: none for an empty choice.
pub open spec fn optional_choice(col: String) -> Option<String> {
    if col@.len() == 0 {
        None
    } else {
        Some(col)
    }
}

/// What a primary column of a plot must hold.
#[derive(Debug, Clone, Copy, PartialEq, Eq, Structural)]
pub enum ExpectedColumn {
    Numeric,
    Categorical,
    Compatible,
}

/// Why the chosen columns cannot be plotted.
#[derive(Debug)]
pub enum PlotWindowError {
    /// The primary column at this (1-based) position is not chosen.
    PrimaryColumnRequired { position: usize },
    /// A primary column is not in the data.
    PrimaryColumnNotFound { column: String },
    /// A primary column's type does not suit the plot at its (0-based) index.
    PrimaryColumnWrongType {
        column: String,
        actual: DataType,
        plot_type: PlotType,
        index: usize,
        expected: ExpectedColumn,
    },
    /// A secondary column is not in the data.
    SecondaryColumnNotFound { column: String },
    /// A secondary column's type does not suit the plot.
    SecondaryColumnWrongType { column: String, actual: DataType, plot_type: PlotType },
    /// The group column is not in the data.
    GroupColumnNotFound { column: String },
    /// The group column is not categorical.
    GroupColumnNotCategorical { column: String, actual: DataType },
    /// The color column is not in the data.
    ColorColumnNotFound { column: String },
    /// The color column is not categorical.
    ColorColumnNotCategorical { column: String, actual: DataType },
    /// The size column is not in the data.
    SizeColumnNotFound { column: String },
    /// The size column is not numeric.
    SizeColumnNotNumeric { column: String, actual: DataType },
}

/// The content of a `PlotWindowError`, with names as characters.
pub enum WindowIssue {
    PrimaryRequired(nat),
    PrimaryNotFound(Seq<char>),
    PrimaryWrongType(Seq<char>, DataType, PlotType, nat, ExpectedColumn),
    SecondaryNotFound(Seq<char>),
    SecondaryWrongType(Seq<char>, DataType, PlotType),
    GroupNotFound(Seq<char>),
    GroupNotCategorical(Seq<char>, DataType),
    ColorNotFound(Seq<char>),
    ColorNotCategorical(Seq<char>, DataType),
    SizeNotFound(Seq<char>),
    SizeNotNumeric(Seq<char>, DataType),
}

impl PlotWindowError {
    /// The content of the error.
    pub open spec fn issue(self) -> WindowIssue {
        match self {
            PlotWindowError::PrimaryColumnRequired { position } => WindowIssue::PrimaryRequired(
                position as nat,
            ),
            PlotWindowError::PrimaryColumnNotFound { column } => WindowIssue::PrimaryNotFound(
                column@,
            ),
            PlotWindowError::PrimaryColumnWrongType { column, actual, plot_type, index, expected } =>
                WindowIssue::PrimaryWrongType(column@, actual, plot_type, index as nat, expected),
            PlotWindowError::SecondaryColumnNotFound { column } => WindowIssue::SecondaryNotFound(
                column@,
            ),
            PlotWindowError::SecondaryColumnWrongType { column, actual, plot_type } =>
                WindowIssue::SecondaryWrongType(column@, actual, plot_type),
            PlotWindowError::GroupColumnNotFound { column } => WindowIssue::GroupNotFound(column@),
            PlotWindowError::GroupColumnNotCategorical { column, actual } =>
                WindowIssue::GroupNotCategorical(column@, actual),
            PlotWindowError::ColorColumnNotFound { column } => WindowIssue::ColorNotFound(column@),
            PlotWindowError::ColorColumnNotCategorical { column, actual } =>
                WindowIssue::ColorNotCategorical(column@, actual),
            PlotWindowError::SizeColumnNotFound { column } => WindowIssue::SizeNotFound(column@),
            PlotWindowError::SizeColumnNotNumeric { column, actual } => WindowIssue::SizeNotNumeric(
                column@,
                actual,
            ),
        }
    }
}

/// The word the message uses for what a primary column must hold.
pub open spec fn expected_text(e: ExpectedColumn) -> Seq<char> {
    match e {
        ExpectedColumn::Numeric => "numeric"@,
        ExpectedColumn::Categorical => "categorical"@,
        ExpectedColumn::Compatible => "compatible"@,
    }
}

/// The message a primary column of the wrong type gets: box, violin and
/// polar plots say what each axis expects, other plots what the column's
/// position expects.
pub open spec fn wrong_primary_text(c: Seq<char>, t: DataType, pt: PlotType, index: nat, e: ExpectedColumn) -> Seq<char> {
    let head = "Column '"@ + c + "' has type "@ + type_debug(t);
    if pt == PlotType::BoxPlot {
        if index == 0 {
            head + ". Box plots expect categorical data (strings) for grouping on the X-axis."@
        } else {
            head + ". Box plots expect numeric data for the Y-axis."@
        }
    } else if pt == PlotType::ViolinPlot {
        if index == 0 {
            head + ". Violin plots expect categorical data (strings) for grouping on the X-axis."@
        } else {
            head + ". Violin plots expect numeric data for the Y-axis."@
        }
    } else if pt == PlotType::PolarPlot {
        if index == 0 {
            head + ". Polar plots expect numeric data for the angle (X-axis)."@
        } else {
            head + ". Polar plots expect numeric data for the radius (Y-axis)."@
        }
    } else {
        head + " which is not valid for "@ + plot_type_name(pt) + " plot (expected "@
            + expected_text(e) + " for position "@ + decimal(index + 1) + ")"@
    }
}

/// The message shown for each problem with a window's columns.
pub open spec fn window_issue_text(i: WindowIssue) -> Seq<char> {
    match i {
        WindowIssue::PrimaryRequired(p) => "Primary column "@ + decimal(p) + " is required"@,
        WindowIssue::PrimaryNotFound(c) => "Primary column '"@ + c + "' not found in data"@,
        WindowIssue::PrimaryWrongType(c, t, pt, index, e) => wrong_primary_text(c, t, pt, index, e),
        WindowIssue::SecondaryNotFound(c) => "Secondary column '"@ + c + "' not found in data"@,
        WindowIssue::SecondaryWrongType(c, t, pt) => "Secondary column '"@ + c + "' has type "@
            + type_debug(t) + " which is not valid for "@ + plot_type_name(pt) + " plot"@,
        WindowIssue::GroupNotFound(c) => "Group column '"@ + c + "' not found in data"@,
        WindowIssue::GroupNotCategorical(c, t) => "Group column '"@ + c
            + "' must be categorical (string), but has type "@ + type_debug(t),
        WindowIssue::ColorNotFound(c) => "Color column '"@ + c + "' not found in data"@,
        WindowIssue::ColorNotCategorical(c, t) => "Color column '"@ + c
            + "' must be categorical (string), but has type "@ + type_debug(t),
        WindowIssue::SizeNotFound(c) => "Size column '"@ + c + "' not found in data"@,
        WindowIssue::SizeNotNumeric(c, t) => "Size column '"@ + c
            + "' must be numeric, but has type "@ + type_debug(t),
    }
}

fn typed_message(head: &str, column: &String, middle: &str, t: &DataType) -> (r: String)
    ensures
        r@ == head@ + column@ + middle@ + type_debug(*t),
{
    let mut m = joined3(head, column.as_str(), middle);
    let d = t.debug_text();
    m.append(d.as_str());
    m
}

fn expected_word(e: ExpectedColumn) -> (r: &'static str)
    ensures
        r@ == expected_text(e),
{
    match e {
        ExpectedColumn::Numeric => "numeric",
        ExpectedColumn::Categorical => "categorical",
        ExpectedColumn::Compatible => "compatible",
    }
}

impl PlotWindowError {
    /// The message shown for the error.
    pub fn message(&self) -> (r: String)
        requires
            self matches PlotWindowError::PrimaryColumnWrongType { index, .. } ==> index
                < usize::MAX,
        ensures
            r@ == window_issue_text(self.issue()),
    {
        match self {
            PlotWindowError::PrimaryColumnRequired { position } => {
                let mut m = String::from_str("Primary column ");
                push_decimal(&mut m, *position);
                m.append(" is required");
                m
            },
            PlotWindowError::PrimaryColumnNotFound { column } => joined3(
                "Primary column '",
                column.as_str(),
                "' not found in data",
            ),
            PlotWindowError::PrimaryColumnWrongType { column, actual, plot_type, index, expected } => {
                let mut m = typed_message("Column '", column, "' has type ", actual);
                let pt = *plot_type;
                if pt == PlotType::BoxPlot {
                    if *index == 0 {
                        m.append(". Box plots expect categorical data (strings) for grouping on the X-axis.");
                    } else {
                        m.append(". Box plots expect numeric data for the Y-axis.");
                    }
                } else if pt == PlotType::ViolinPlot {
                    if *index == 0 {
                        m.append(". Violin plots expect categorical data (strings) for grouping on the X-axis.");
                    } else {
                        m.append(". Violin plots expect numeric data for the Y-axis.");
                    }
                } else if pt == PlotType::PolarPlot {
                    if *index == 0 {
                        m.append(". Polar plots expect numeric data for the angle (X-axis).");
                    } else {
                        m.append(". Polar plots expect numeric data for the radius (Y-axis).");
                    }
                } else {
                    m.append(" which is not valid for ");
                    m.append(pt.name());
                    m.append(" plot (expected ");
                    m.append(expected_word(*expected));
                    m.append(" for position ");
                    push_decimal(&mut m, *index + 1);
                    m.append(")");
                }
                m
            },
            PlotWindowError::SecondaryColumnNotFound { column } => joined3(
                "Secondary column '",
                column.as_str(),
                "' not found in data",
            ),
            PlotWindowError::SecondaryColumnWrongType { column, actual, plot_type } => {
                let mut m = typed_message("Secondary column '", column, "' has type ", actual);
                m.append(" which is not valid for ");
                m.append(plot_type.name());
                m.append(" plot");
                m
            },
            PlotWindowError::GroupColumnNotFound { column } => joined3(
                "Group column '",
                column.as_str(),
                "' not found in data",
            ),
            PlotWindowError::GroupColumnNotCategorical { column, actual } => typed_message(
                "Group column '",
                column,
                "' must be categorical (string), but has type ",
                actual,
            ),
            PlotWindowError::ColorColumnNotFound { column } => joined3(
                "Color column '",
                column.as_str(),
                "' not found in data",
            ),
            PlotWindowError::ColorColumnNotCategorical { column, actual } => typed_message(
                "Color column '",
                column,
                "' must be categorical (string), but has type ",
                actual,
            ),
            PlotWindowError::SizeColumnNotFound { column } => joined3(
                "Size column '",
                column.as_str(),
                "' not found in data",
            ),
            PlotWindowError::SizeColumnNotNumeric { column, actual } => typed_message(
                "Size column '",
                column,
                "' must be numeric, but has type ",
                actual,
            ),
        }
    }
}

/// Whether a column type suits primary column `i` of a plot: bar charts
/// want a category and a number in the order their orientation gives, other
/// plots a type they support.
pub open spec fn primary_type_ok(settings: PlotSpecificSettings, pt: PlotType, i: nat, t: DataType) -> bool {
    if pt == PlotType::BarChart {
        if horizontal_bars(settings) == (i == 0) {
            t.numeric()
        } else {
            t.categorical()
        }
    } else {
        plot_supports(pt, Some(t), t)
    }
}

/// What primary column `i` of a plot must hold, as the error reports it.
pub open spec fn primary_expected(settings: PlotSpecificSettings, pt: PlotType, i: nat) -> ExpectedColumn {
    if pt == PlotType::BarChart {
        if horizontal_bars(settings) == (i == 0) {
            ExpectedColumn::Numeric
        } else {
            ExpectedColumn::Categorical
        }
    } else {
        ExpectedColumn::Compatible
    }
}

/// The problem with primary column `i`, if any.
pub open spec fn primary_issue_at(cfg: PlotConfig, pt: PlotType, data: QueryResult, i: nat) -> Option<
    WindowIssue,
> {
    let cols = cfg.primary_columns@;
    if i >= cols.len() || cols[i as int]@.len() == 0 {
        Some(WindowIssue::PrimaryRequired(i + 1))
    } else if !has_name(data.columns@, cols[i as int]@) {
        Some(WindowIssue::PrimaryNotFound(cols[i as int]@))
    } else {
        match data.column_type(cols[i as int]@) {
            Some(t) => if primary_type_ok(cfg.plot_specific_config, pt, i, t) {
                None
            } else {
                Some(
                    WindowIssue::PrimaryWrongType(
                        cols[i as int]@,
                        t,
                        pt,
                        i,
                        primary_expected(cfg.plot_specific_config, pt, i),
                    ),
                )
            },
            None => None,
        }
    }
}

/// The problem with secondary column `i`, if it is chosen and has one.
pub open spec fn secondary_issue_at(cfg: PlotConfig, pt: PlotType, data: QueryResult, i: nat) -> Option<
    WindowIssue,
> {
    let cols = cfg.secondary_columns@;
    if i < cols.len() && cols[i as int]@.len() != 0 {
        if !has_name(data.columns@, cols[i as int]@) {
            Some(WindowIssue::SecondaryNotFound(cols[i as int]@))
        } else {
            match data.column_type(cols[i as int]@) {
                Some(t) => if plot_supports(pt, Some(t), t) {
                    None
                } else {
                    Some(WindowIssue::SecondaryWrongType(cols[i as int]@, t, pt))
                },
                None => None,
            }
        }
    } else {
        None
    }
}

/// The first problem among primary columns `i` up to `count`.
pub open spec fn primary_issue_from(cfg: PlotConfig, pt: PlotType, data: QueryResult, i: nat, count: nat) -> Option<
    WindowIssue,
>
    decreases count - i,
{
    if i >= count {
        None
    } else if primary_issue_at(cfg, pt, data, i) is Some {
        primary_issue_at(cfg, pt, data, i)
    } else {
        primary_issue_from(cfg, pt, data, i + 1, count)
    }
}

/// The first problem among secondary columns `i` up to `count`.
pub open spec fn secondary_issue_from(cfg: PlotConfig, pt: PlotType, data: QueryResult, i: nat, count: nat) -> Option<
    WindowIssue,
>
    decreases count - i,
{
    if i >= count {
        None
    } else if secondary_issue_at(cfg, pt, data, i) is Some {
        secondary_issue_at(cfg, pt, data, i)
    } else {
        secondary_issue_from(cfg, pt, data, i + 1, count)
    }
}

/// The problem with an optional column: missing from the data, or of a type
/// that fails `want`.
pub open spec fn optional_issue(
    col: Option<String>,
    data: QueryResult,
    want: spec_fn(DataType) -> bool,
    missing: spec_fn(Seq<char>) -> WindowIssue,
    wrong: spec_fn(Seq<char>, DataType) -> WindowIssue,
) -> Option<WindowIssue> {
    match col {
        Some(c) => if !has_name(data.columns@, c@) {
            Some(missing(c@))
        } else {
            match data.column_type(c@) {
                Some(t) => if want(t) {
                    None
                } else {
                    Some(wrong(c@, t))
                },
                None => None,
            }
        },
        None => None,
    }
}

/// The first problem with the columns a window is configured to plot, in
/// the order they are checked: primary columns, secondary columns, then the
/// group, color and size columns.
pub open spec fn window_issue(cfg: PlotConfig, pt: PlotType, data: QueryResult) -> Option<WindowIssue> {
    let counts = required_counts(cfg.plot_type);
    let primary = primary_issue_from(cfg, pt, data, 0, counts.0 as nat);
    let secondary = secondary_issue_from(cfg, pt, data, 0, counts.1 as nat);
    let group = optional_issue(
        cfg.group_column,
        data,
        |t: DataType| t.categorical(),
        |c: Seq<char>| WindowIssue::GroupNotFound(c),
        |c: Seq<char>, t: DataType| WindowIssue::GroupNotCategorical(c, t),
    );
    let color = optional_issue(
        cfg.color_column,
        data,
        |t: DataType| t.categorical(),
        |c: Seq<char>| WindowIssue::ColorNotFound(c),
        |c: Seq<char>, t: DataType| WindowIssue::ColorNotCategorical(c, t),
    );
    let size = optional_issue(
        cfg.size_column,
        data,
        |t: DataType| t.numeric(),
        |c: Seq<char>| WindowIssue::SizeNotFound(c),
        |c: Seq<char>, t: DataType| WindowIssue::SizeNotNumeric(c, t),
    );
    if primary is Some {
        primary
    } else if secondary is Some {
        secondary
    } else if group is Some {
        group
    } else if color is Some {
        color
    } else {
        size
    }
}

/// The outcome of a check, as an optional issue.
pub open spec fn window_outcome(r: Result<(), PlotWindowError>) -> Option<WindowIssue> {
    match r {
        Ok(()) => None,
        Err(e) => Some(e.issue()),
    }
}

proof fn lemma_primary_skip(cfg: PlotConfig, pt: PlotType, data: QueryResult, i: nat, j: nat, count: nat)
    requires
        i <= j <= count,
        forall|k: nat| i <= k < j ==> (#[trigger] primary_issue_at(cfg, pt, data, k)) is None,
    ensures
        primary_issue_from(cfg, pt, data, i, count) == primary_issue_from(cfg, pt, data, j, count),
    decreases j - i,
{
    if i < j {
        lemma_primary_skip(cfg, pt, data, i + 1, j, count);
        assert(primary_issue_at(cfg, pt, data, i) is None);
    }
}

proof fn lemma_secondary_skip(cfg: PlotConfig, pt: PlotType, data: QueryResult, i: nat, j: nat, count: nat)
    requires
        i <= j <= count,
        forall|k: nat| i <= k < j ==> (#[trigger] secondary_issue_at(cfg, pt, data, k)) is None,
    ensures
        secondary_issue_from(cfg, pt, data, i, count) == secondary_issue_from(cfg, pt, data, j, count),
    decreases j - i,
{
    if i < j {
        lemma_secondary_skip(cfg, pt, data, i + 1, j, count);
        assert(secondary_issue_at(cfg, pt, data, i) is None);
    }
}

impl PlotWindow {
    /// A window with the given identity, a default configuration open for
    /// editing, and no data.
    pub fn new(id: String, title: String) -> (r: Self)
        ensures
            r.id == id,
            r.title == title,
            is_default_config(r.config),
            r.is_config_open,
            r.open,
            r.data is None,
            r.source_query_id is None,
    {
        PlotWindow {
            id,
            title,
            config: PlotConfig::default(),
            is_config_open: true,
            open: true,
            data: None,
            source_query_id: None,
        }
    }

    /// Shows `data` in the window.
    pub fn update_data(&mut self, data: QueryResult)
        ensures
            final(self).data == Some(data),
            *final(self) == (PlotWindow { data: final(self).data, ..*old(self) }),
    {
        self.data = Some(data);
    }

    /// Records the query the window's data comes from.
    pub fn set_source_query(&mut self, query_id: String)
        ensures
            final(self).source_query_id == Some(query_id),
            *final(self) == (PlotWindow { source_query_id: final(self).source_query_id, ..*old(self) }),
    {
        self.source_query_id = Some(query_id);
    }

    /// Clears every column choice and gives the plot-specific settings the
    /// defaults of the selected plot type.
    pub fn reset_column_selections(&mut self)
        ensures
            final(self).config.primary_columns@.len() == 0,
            final(self).config.secondary_columns@.len() == 0,
            final(self).config.group_column is None,
            final(self).config.color_column is None,
            final(self).config.size_column is None,
            final(self).config.plot_type == old(self).config.plot_type,
            final(self).config.plot_specific_config == match old(self).config.plot_type {
                Some(t) => fresh_settings(t),
                None => old(self).config.plot_specific_config,
            },
            final(self).config == (PlotConfig {
                primary_columns: final(self).config.primary_columns,
                secondary_columns: final(self).config.secondary_columns,
                group_column: final(self).config.group_column,
                color_column: final(self).config.color_column,
                size_column: final(self).config.size_column,
                plot_specific_config: final(self).config.plot_specific_config,
                ..old(self).config
            }),
            *final(self) == (PlotWindow { config: final(self).config, ..*old(self) }),
    {
        self.config.primary_columns.clear();
        self.config.secondary_columns.clear();
        self.config.group_column = None;
        self.config.color_column = None;
        self.config.size_column = None;
        self.config.update_plot_specific_config();
    }

    /// Makes the lists of primary and secondary columns as long as the
    /// selected plot type needs: missing entries are added empty, extra ones
    /// are dropped from the end.
    pub fn update_column_selections_for_plot_type(&mut self, _new_plot_type: &PlotType)
        ensures
            ({
                let (p, s) = required_counts(old(self).config.plot_type);
                &&& fits(final(self).config.primary_columns@, old(self).config.primary_columns@, p as nat)
                &&& fits(final(self).config.secondary_columns@, old(self).config.secondary_columns@, s as nat)
            }),
            same_but_columns(final(self).config, old(self).config),
            *final(self) == (PlotWindow { config: final(self).config, ..*old(self) }),
    {
        let (primary_count, secondary_count) = self.config.get_required_column_count();
        resize_columns(&mut self.config.primary_columns, primary_count);
        resize_columns(&mut self.config.secondary_columns, secondary_count);
    }

    /// The user picked a plot type: every column choice is cleared, the
    /// column lists get as many empty entries as the type needs, and the
    /// plot-specific settings become the type's defaults.
    pub fn select_plot_type(&mut self, plot_type: PlotType)
        ensures
            final(self).config.plot_type == Some(plot_type),
            ({
                let (p, s) = required_counts(Some(plot_type));
                &&& final(self).config.primary_columns@.len() == p
                &&& final(self).config.secondary_columns@.len() == s
                &&& forall|k: int|
                    0 <= k < p ==> (#[trigger] final(self).config.primary_columns@[k])@.len() == 0
                &&& forall|k: int|
                    0 <= k < s ==> (#[trigger] final(self).config.secondary_columns@[k])@.len() == 0
            }),
            final(self).config.group_column is None,
            final(self).config.color_column is None,
            final(self).config.size_column is None,
            final(self).config.plot_specific_config == fresh_settings(plot_type),
            final(self).config == (PlotConfig {
                plot_type: final(self).config.plot_type,
                primary_columns: final(self).config.primary_columns,
                secondary_columns: final(self).config.secondary_columns,
                group_column: final(self).config.group_column,
                color_column: final(self).config.color_column,
                size_column: final(self).config.size_column,
                plot_specific_config: final(self).config.plot_specific_config,
                ..old(self).config
            }),
            *final(self) == (PlotWindow { config: final(self).config, ..*old(self) }),
    {
        self.config.plot_type = Some(plot_type);
        self.reset_column_selections();
        self.update_column_selections_for_plot_type(&plot_type);
        self.config.update_plot_specific_config();
    }

    /// Opens or closes the configuration panel.
    pub fn toggle_config(&mut self)
        ensures
            final(self).is_config_open == !old(self).is_config_open,
            *final(self) == (PlotWindow { is_config_open: final(self).is_config_open, ..*old(self) }),
    {
        self.is_config_open = !self.is_config_open;
    }

    /// Whether the column named `column_name` has a known type that suits the
    /// plot type.
    pub fn is_column_valid_for_plot(&self, column_name: &str, plot_type: &PlotType) -> (r: bool)
        ensures
            r == match self.data {
                Some(d) => match d.column_type(column_name@) {
                    Some(t) => plot_supports(*plot_type, Some(t), t),
                    None => false,
                },
                None => false,
            },
    {
        match &self.data {
            Some(data) => match data.type_of_column(column_name) {
                Some(t) => plot_type.supports_column_types(Some(t), t),
                None => false,
            },
            None => false,
        }
    }

    /// The columns whose known type suits the plot type.
    pub fn get_valid_columns_for_plot(&self, plot_type: &PlotType) -> (r: Vec<String>)
        ensures
            texts(r@) == match self.data {
                Some(d) => columns_passing(d.columns@, d.column_types@, ColumnTest::SuitsPlot(*plot_type)),
                None => seq![],
            },
    {
        match &self.data {
            Some(data) => columns_matching(data, ColumnTest::SuitsPlot(*plot_type)),
            None => {
                let v: Vec<String> = Vec::new();
                assert(texts(v@) =~= seq![]);
                v
            },
        }
    }

    /// The columns offered for primary slot `slot` of a plot type, from
    /// the window's data.
    pub fn primary_slot_choices(&self, plot_type: &PlotType, slot: usize) -> (r: Vec<String>)
        ensures
            texts(r@) == match self.data {
                Some(d) => columns_passing(
                    d.columns@,
                    d.column_types@,
                    primary_slot_test(
                        *plot_type,
                        horizontal_bars(self.config.plot_specific_config),
                        slot as nat,
                    ),
                ),
                None => seq![],
            },
    {
        let horizontal = self.config.is_horizontal_bars();
        let test = match plot_type {
            PlotType::BarChart => if horizontal == (slot == 0) {
                ColumnTest::Numeric
            } else {
                ColumnTest::Categorical
            },
            PlotType::Histogram | PlotType::ScatterPlot | PlotType::LineChart => ColumnTest::Numeric,
            PlotType::BoxPlot | PlotType::ViolinPlot => if slot == 0 {
                ColumnTest::Categorical
            } else {
                ColumnTest::Numeric
            },
            _ => ColumnTest::SuitsPlot(*plot_type),
        };
        match &self.data {
            Some(data) => columns_matching(data, test),
            None => {
                let v: Vec<String> = Vec::new();
                assert(texts(v@) =~= seq![]);
                v
            },
        }
    }

    /// The columns offered for the optional slot named `kind` of a plot
    /// type, from the window's data.
    pub fn optional_slot_choices(&self, kind: &str, plot_type: &PlotType) -> (r: Vec<String>)
        ensures
            texts(r@) == match self.data {
                Some(d) => columns_passing(
                    d.columns@,
                    d.column_types@,
                    optional_slot_test(kind@, *plot_type),
                ),
                None => seq![],
            },
    {
        let test = if str_eq(kind, "Group") || str_eq(kind, "Color") {
            ColumnTest::Categorical
        } else if str_eq(kind, "Size") {
            ColumnTest::Numeric
        } else {
            ColumnTest::SuitsPlot(*plot_type)
        };
        match &self.data {
            Some(data) => columns_matching(data, test),
            None => {
                let v: Vec<String> = Vec::new();
                assert(texts(v@) =~= seq![]);
                v
            },
        }
    }

    /// Sets the optional column named `kind` (group, color or size) to the
    /// choice made; an empty choice clears it. Other slots are not kept.
    pub fn set_optional_column(&mut self, kind: &str, column: String)
        ensures
            final(self).config.group_column == if kind@ == "Group"@ {
                optional_choice(column)
            } else {
                old(self).config.group_column
            },
            final(self).config.color_column == if kind@ == "Color"@ {
                optional_choice(column)
            } else {
                old(self).config.color_column
            },
            final(self).config.size_column == if kind@ == "Size"@ {
                optional_choice(column)
            } else {
                old(self).config.size_column
            },
            final(self).config == (PlotConfig {
                group_column: final(self).config.group_column,
                color_column: final(self).config.color_column,
                size_column: final(self).config.size_column,
                ..old(self).config
            }),
            *final(self) == (PlotWindow { config: final(self).config, ..*old(self) }),
    {
        let choice = if column.as_str().is_empty() {
            None
        } else {
            Some(column)
        };
        proof {
            reveal_strlit("Group");
            reveal_strlit("Color");
            reveal_strlit("Size");
            assert("Group"@[0] == 'G' && "Color"@[0] == 'C' && "Size"@[0] == 'S');
            assert("Group"@ != "Color"@ && "Group"@ != "Size"@ && "Color"@ != "Size"@);
        }
        if str_eq(kind, "Group") {
            self.config.group_column = choice;
        } else if str_eq(kind, "Color") {
            self.config.color_column = choice;
        } else if str_eq(kind, "Size") {
            self.config.size_column = choice;
        }
    }

    /// The numeric columns.
    pub fn get_valid_numeric_columns(&self) -> (r: Vec<String>)
        ensures
            texts(r@) == match self.data {
                Some(d) => columns_passing(d.columns@, d.column_types@, ColumnTest::Numeric),
                None => seq![],
            },
    {
        match &self.data {
            Some(data) => columns_matching(data, ColumnTest::Numeric),
            None => {
                let v: Vec<String> = Vec::new();
                assert(texts(v@) =~= seq![]);
                v
            },
        }
    }

    /// The categorical columns.
    pub fn get_valid_categorical_columns(&self) -> (r: Vec<String>)
        ensures
            texts(r@) == match self.data {
                Some(d) => columns_passing(d.columns@, d.column_types@, ColumnTest::Categorical),
                None => seq![],
            },
    {
        match &self.data {
            Some(data) => columns_matching(data, ColumnTest::Categorical),
            None => {
                let v: Vec<String> = Vec::new();
                assert(texts(v@) =~= seq![]);
                v
            },
        }
    }

    /// Checks the configured columns against `data` for a plot of type
    /// `plot_type`, and reports the first problem.
    pub fn validate_columns_with_data(&self, plot_type: &PlotType, data: &QueryResult) -> (r: Result<
        (),
        PlotWindowError,
    >)
        ensures
            window_outcome(r) == window_issue(self.config, *plot_type, *data),
    {
        let (primary_count, secondary_count) = self.config.get_required_column_count();
        let ghost cfg = self.config;
        let pt = *plot_type;
        let horizontal = self.config.is_horizontal_bars();
        let mut i: usize = 0;
        while i < primary_count
            invariant
                i <= primary_count,
                cfg == self.config,
                (primary_count, secondary_count) == required_counts(cfg.plot_type),
                horizontal == horizontal_bars(cfg.plot_specific_config),
                pt == *plot_type,
                forall|k: nat| k < i ==> (#[trigger] primary_issue_at(cfg, pt, *data, k)) is None,
            decreases primary_count - i,
        {
            proof {
                lemma_primary_skip(cfg, pt, *data, 0, i as nat, primary_count as nat);
            }
            if i >= self.config.primary_columns.len() || self.config.primary_columns[i].as_str().is_empty() {
                return Err(PlotWindowError::PrimaryColumnRequired { position: i + 1 });
            }
            let name = self.config.primary_columns[i].as_str();
            if !contains_name(&data.columns, name) {
                return Err(
                    PlotWindowError::PrimaryColumnNotFound {
                        column: self.config.primary_columns[i].clone(),
                    },
                );
            }
            match data.type_of_column(name) {
                Some(column_type) => {
                    let is_valid = if pt == PlotType::BarChart {
                        if horizontal == (i == 0) {
                            is_numeric_type(column_type)
                        } else {
                            is_categorical_type(column_type)
                        }
                    } else {
                        pt.supports_column_types(Some(column_type), column_type)
                    };
                    if !is_valid {
                        let expected = if pt == PlotType::BarChart {
                            if horizontal == (i == 0) {
                                ExpectedColumn::Numeric
                            } else {
                                ExpectedColumn::Categorical
                            }
                        } else {
                            ExpectedColumn::Compatible
                        };
                        return Err(
                            PlotWindowError::PrimaryColumnWrongType {
                                column: self.config.primary_columns[i].clone(),
                                actual: column_type.copy_type(),
                                plot_type: pt,
                                index: i,
                                expected,
                            },
                        );
                    }
                },
                None => {},
            }
            assert(primary_issue_at(cfg, pt, *data, i as nat) is None);
            i = i + 1;
        }
        proof {
            lemma_primary_skip(cfg, pt, *data, 0, primary_count as nat, primary_count as nat);
        }
        let mut j: usize = 0;
        while j < secondary_count
            invariant
                j <= secondary_count,
                cfg == self.config,
                (primary_count, secondary_count) == required_counts(cfg.plot_type),
                pt == *plot_type,
                primary_issue_from(cfg, pt, *data, 0, primary_count as nat) is None,
                forall|k: nat| k < j ==> (#[trigger] secondary_issue_at(cfg, pt, *data, k)) is None,
            decreases secondary_count - j,
        {
            proof {
                lemma_secondary_skip(cfg, pt, *data, 0, j as nat, secondary_count as nat);
            }
            if j < self.config.secondary_columns.len() && !self.config.secondary_columns[j].as_str().is_empty() {
                let name = self.config.secondary_columns[j].as_str();
                if !contains_name(&data.columns, name) {
                    return Err(
                        PlotWindowError::SecondaryColumnNotFound {
                            column: self.config.secondary_columns[j].clone(),
                        },
                    );
                }
                match data.type_of_column(name) {
                    Some(column_type) => {
                        if !pt.supports_column_types(Some(column_type), column_type) {
                            return Err(
                                PlotWindowError::SecondaryColumnWrongType {
                                    column: self.config.secondary_columns[j].clone(),
                                    actual: column_type.copy_type(),
                                    plot_type: pt,
                                },
                            );
                        }
                    },
                    None => {},
                }
            }
            assert(secondary_issue_at(cfg, pt, *data, j as nat) is None);
            j = j + 1;
        }
        proof {
            lemma_secondary_skip(cfg, pt, *data, 0, secondary_count as nat, secondary_count as nat);
        }
        match &self.config.group_column {
            Some(group_col) => {
                if !contains_name(&data.columns, group_col.as_str()) {
                    return Err(PlotWindowError::GroupColumnNotFound { column: group_col.clone() });
                }
                match data.type_of_column(group_col.as_str()) {
                    Some(column_type) => {
                        if !is_categorical_type(column_type) {
                            return Err(
                                PlotWindowError::GroupColumnNotCategorical {
                                    column: group_col.clone(),
                                    actual: column_type.copy_type(),
                                },
                            );
                        }
                    },
                    None => {},
                }
            },
            None => {},
        }
        match &self.config.color_column {
            Some(color_col) => {
                if !contains_name(&data.columns, color_col.as_str()) {
                    return Err(PlotWindowError::ColorColumnNotFound { column: color_col.clone() });
                }
                match data.type_of_column(color_col.as_str()) {
                    Some(column_type) => {
                        if !is_categorical_type(column_type) {
                            return Err(
                                PlotWindowError::ColorColumnNotCategorical {
                                    column: color_col.clone(),
                                    actual: column_type.copy_type(),
                                },
                            );
                        }
                    },
                    None => {},
                }
            },
            None => {},
        }
        match &self.config.size_column {
            Some(size_col) => {
                if !contains_name(&data.columns, size_col.as_str()) {
                    return Err(PlotWindowError::SizeColumnNotFound { column: size_col.clone() });
                }
                match data.type_of_column(size_col.as_str()) {
                    Some(column_type) => {
                        if !is_numeric_type(column_type) {
                            return Err(
                                PlotWindowError::SizeColumnNotNumeric {
                                    column: size_col.clone(),
                                    actual: column_type.copy_type(),
                                },
                            );
                        }
                    },
                    None => {},
                }
            },
            None => {},
        }
        Ok(())
    }
}

/// `new` is `old` made `count` long: cut to its first `count` names, or
/// padded with empty names.
pub open spec fn fits(new: Seq<String>, old: Seq<String>, count: nat) -> bool {
    &&& new.len() == count
    &&& forall|k: int| 0 <= k < count && k < old.len() ==> new[k] == old[k]
    &&& forall|k: int| old.len() <= k < count ==> (#[trigger] new[k])@.len() == 0
}

/// Two plot configurations agree on everything but their column lists.
pub open spec fn same_but_columns(a: PlotConfig, b: PlotConfig) -> bool {
    &&& a.title == b.title
    &&& a.plot_type == b.plot_type
    &&& a.group_column == b.group_column
    &&& a.color_column == b.color_column
    &&& a.size_column == b.size_column
    &&& a.show_legend == b.show_legend
    &&& a.show_grid == b.show_grid
    &&& a.color_scheme == b.color_scheme
    &&& a.use_gpu_rendering == b.use_gpu_rendering
    &&& a.render_mode == b.render_mode
    &&& a.plot_specific_config == b.plot_specific_config
}

/// Makes `columns` exactly `count` long, padding with empty names or
/// dropping names from the end.
fn resize_columns(columns: &mut Vec<String>, count: usize)
    ensures
        fits(final(columns)@, old(columns)@, count as nat),
{
    while columns.len() < count
        invariant
            old(columns)@.len() <= columns@.len() <= count || columns@.len() == old(columns)@.len(),
            forall|k: int| 0 <= k < old(columns)@.len() && k < columns@.len() ==> columns@[k] == old(columns)@[k],
            forall|k: int| old(columns)@.len() <= k < columns@.len() ==> (#[trigger] columns@[k])@.len() == 0,
            columns@.len() >= old(columns)@.len(),
        decreases count - columns@.len(),
    {
        columns.push(String::new());
    }
    while columns.len() > count
        invariant
            columns@.len() >= count,
            forall|k: int| 0 <= k < old(columns)@.len() && k < columns@.len() ==> columns@[k] == old(columns)@[k],
            forall|k: int| old(columns)@.len() <= k < columns@.len() ==> (#[trigger] columns@[k])@.len() == 0,
            columns@.len() > count ==> columns@.len() <= old(columns)@.len() || columns@.len() > count,
        decreases columns@.len(),
    {
        columns.pop();
    }
}

/// A short name for the family a column type belongs to.
pub open spec fn data_type_family(t: DataType) -> Seq<char> {
    match t {
        DataType::Int8 | DataType::Int16 | DataType::Int32 | DataType::Int64 => "Integer"@,
        DataType::UInt8 | DataType::UInt16 | DataType::UInt32 | DataType::UInt64 => "Unsigned Int"@,
        DataType::Float16 | DataType::Float32 | DataType::Float64 => "Float"@,
        DataType::Utf8 | DataType::LargeUtf8 => "Text"@,
        DataType::Boolean => "Boolean"@,
        DataType::Date32 | DataType::Date64 => "Date"@,
        DataType::Timestamp(_, _) => "Timestamp"@,
        _ => "Other"@,
    }
}

/// A short name for the family a column type belongs to.
pub fn format_data_type(dtype: &DataType) -> (r: &'static str)
    ensures
        r@ == data_type_family(*dtype),
{
    match dtype {
        DataType::Int8 | DataType::Int16 | DataType::Int32 | DataType::Int64 => "Integer",
        DataType::UInt8 | DataType::UInt16 | DataType::UInt32 | DataType::UInt64 => "Unsigned Int",
        DataType::Float16 | DataType::Float32 | DataType::Float64 => "Float",
        DataType::Utf8 | DataType::LargeUtf8 => "Text",
        DataType::Boolean => "Boolean",
        DataType::Date32 | DataType::Date64 => "Date",
        DataType::Timestamp(_, _) => "Timestamp",
        _ => "Other",
    }
}

} // verus!
