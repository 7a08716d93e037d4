//! Plot kinds, their column requirements, and the option enums and
//! configurations that plots share.

use vstd::prelude::*;
use crate::data_type::{DataType, type_listed, list_contains_type, type_debug, types_debug, types_debug_text};
use crate::query::{QueryResult, has_name, contains_name};
use crate::text::joined3;

pub mod enhanced_config;
pub mod bar;
pub mod line;
pub mod histogram;
pub mod box_plot;
pub mod heatmap;
pub mod anomaly;
pub mod correlation;
pub mod distribution;
pub mod geo;
pub mod network;
pub mod candlestick;

verus! {

/// Marker shapes for point plots.
#[derive(Debug, Clone, Copy, PartialEq, Eq, Structural)]
pub enum MarkerShape {
    Circle,
    Square,
    Diamond,
    Triangle,
    Cross,
    Plus,
    Star,
}

/// Direction in which bars extend.
#[derive(Debug, Clone, Copy, PartialEq, Eq, Structural)]
pub enum BarOrientation {
    Vertical,
    Horizontal,
}

impl Default for BarOrientation {
    fn default() -> (r: Self)
        ensures
            r == BarOrientation::Vertical,
    {
        BarOrientation::Vertical
    }
}

/// How bars of several series are stacked.
#[derive(Debug, Clone, Copy, PartialEq, Eq, Structural)]
pub enum StackingMode {
    Unstacked,
    Stacked,
    Percent,
}

/// Sort orders for categorical data.
#[derive(Debug, Clone, Copy, PartialEq, Eq, Structural)]
pub enum SortOrder {
    Unsorted,
    Ascending,
    Descending,
    ByValue,
}

/// Line styles.
#[derive(Debug, Clone, Copy, PartialEq, Eq, Structural)]
pub enum LineStyle {
    Solid,
    Dashed,
    Dotted,
    DashDot,
}

/// The settings of a bar chart that choose its layout.
#[derive(Debug, Clone, Copy, PartialEq, Eq, Structural)]
pub struct BarChartSettings {
    pub stacking_mode: StackingMode,
    pub sort_order: SortOrder,
    pub orientation: BarOrientation,
}

impl Default for BarChartSettings {
    fn default() -> (r: Self)
        ensures
            r == (BarChartSettings {
                stacking_mode: StackingMode::Unstacked,
                sort_order: SortOrder::Unsorted,
                orientation: BarOrientation::Vertical,
            }),
    {
        BarChartSettings {
            stacking_mode: StackingMode::Unstacked,
            sort_order: SortOrder::Unsorted,
            orientation: BarOrientation::Vertical,
        }
    }
}

/// The settings of a line chart that choose what it draws.
#[derive(Debug, Clone, Copy, PartialEq, Eq, Structural)]
pub struct LineChartSettings {
    pub line_style: LineStyle,
    pub show_points: bool,
    pub smooth_lines: bool,
    pub fill_area: bool,
}

impl Default for LineChartSettings {
    fn default() -> (r: Self)
        ensures
            r == (LineChartSettings {
                line_style: LineStyle::Solid,
                show_points: true,
                smooth_lines: false,
                fill_area: false,
            }),
    {
        LineChartSettings {
            line_style: LineStyle::Solid,
            show_points: true,
            smooth_lines: false,
            fill_area: false,
        }
    }
}

/// The settings of a scatter plot that choose what it draws.
#[derive(Debug, Clone, Copy, PartialEq, Eq, Structural)]
pub struct ScatterPlotSettings {
    pub point_shape: MarkerShape,
    pub show_trend_line: bool,
    pub show_density: bool,
}

impl Default for ScatterPlotSettings {
    fn default() -> (r: Self)
        ensures
            r == (ScatterPlotSettings {
                point_shape: MarkerShape::Circle,
                show_trend_line: false,
                show_density: false,
            }),
    {
        ScatterPlotSettings {
            point_shape: MarkerShape::Circle,
            show_trend_line: false,
            show_density: false,
        }
    }
}

/// The settings of a histogram that choose its bins and overlays.
#[derive(Debug, Clone, Copy, PartialEq, Eq, Structural)]
pub struct HistogramSettings {
    pub bin_count: Option<usize>,
    pub show_density: bool,
    pub show_normal_curve: bool,
}

impl Default for HistogramSettings {
    fn default() -> (r: Self)
        ensures
            r == (HistogramSettings { bin_count: None, show_density: false, show_normal_curve: false }),
    {
        HistogramSettings { bin_count: None, show_density: false, show_normal_curve: false }
    }
}

/// The settings of a violin plot that choose what it draws.
#[derive(Debug, Clone, Copy, PartialEq, Eq, Structural)]
pub struct ViolinPlotSettings {
    pub show_box_plot: bool,
    pub show_mean: bool,
    pub show_median: bool,
    pub show_quartiles: bool,
    pub show_outliers: bool,
    pub kde_points: usize,
    pub comparison_mode: bool,
    pub normalize_width: bool,
    pub show_distribution_curve: bool,
    pub show_points: bool,
    pub orientation: Orientation,
    pub scale: ViolinScale,
}

impl Default for ViolinPlotSettings {
    fn default() -> (r: Self)
        ensures
            r == (ViolinPlotSettings {
                show_box_plot: true,
                show_mean: true,
                show_median: true,
                show_quartiles: true,
                show_outliers: true,
                kde_points: 100,
                comparison_mode: false,
                normalize_width: true,
                show_distribution_curve: false,
                show_points: false,
                orientation: Orientation::Vertical,
                scale: ViolinScale::Width,
            }),
    {
        ViolinPlotSettings {
            show_box_plot: true,
            show_mean: true,
            show_median: true,
            show_quartiles: true,
            show_outliers: true,
            kde_points: 100,
            comparison_mode: false,
            normalize_width: true,
            show_distribution_curve: false,
            show_points: false,
            orientation: Orientation::Vertical,
            scale: ViolinScale::Width,
        }
    }
}

/// The plot-specific settings of a plot configuration: which plot they are
/// for, and the settings of that plot that the library reads.
#[derive(Debug, Clone, Copy, PartialEq, Eq, Structural)]
pub enum PlotSpecificSettings {
    Unspecified,
    BarChart(BarChartSettings),
    LineChart(LineChartSettings),
    ScatterPlot(ScatterPlotSettings),
    Histogram(HistogramSettings),
    BoxPlot(BoxPlotConfig),
    Violin(ViolinPlotSettings),
    Heatmap,
    Anomaly,
    Correlation,
    Scatter3D,
    Surface3D,
    Contour(ContourConfig),
    ParallelCoordinates,
    Radar,
    Sankey,
    Treemap,
    Sunburst,
    Network,
    Geo(GeoConfig),
    TimeAnalysis(TimeAnalysisConfig),
    Candlestick,
    Stream,
    Polar,
}

impl PlotSpecificSettings {
    /// The settings of a BarChart configuration; only asked of one.
    pub fn as_bar_chart(&self) -> (r: &BarChartSettings)
        requires
            self is BarChart,
        ensures
            *self == PlotSpecificSettings::BarChart(*r),
    {
        match self {
            PlotSpecificSettings::BarChart(config) => config,
            _ => vstd::pervasive::unreached(),
        }
    }

    /// The settings of a LineChart configuration; only asked of one.
    pub fn as_line_chart(&self) -> (r: &LineChartSettings)
        requires
            self is LineChart,
        ensures
            *self == PlotSpecificSettings::LineChart(*r),
    {
        match self {
            PlotSpecificSettings::LineChart(config) => config,
            _ => vstd::pervasive::unreached(),
        }
    }

    /// The settings of a ScatterPlot configuration; only asked of one.
    pub fn as_scatter_plot(&self) -> (r: &ScatterPlotSettings)
        requires
            self is ScatterPlot,
        ensures
            *self == PlotSpecificSettings::ScatterPlot(*r),
    {
        match self {
            PlotSpecificSettings::ScatterPlot(config) => config,
            _ => vstd::pervasive::unreached(),
        }
    }

    /// The settings of a Histogram configuration; only asked of one.
    pub fn as_histogram(&self) -> (r: &HistogramSettings)
        requires
            self is Histogram,
        ensures
            *self == PlotSpecificSettings::Histogram(*r),
    {
        match self {
            PlotSpecificSettings::Histogram(config) => config,
            _ => vstd::pervasive::unreached(),
        }
    }

    /// The settings of a BoxPlot configuration; only asked of one.
    pub fn as_box_plot(&self) -> (r: &BoxPlotConfig)
        requires
            self is BoxPlot,
        ensures
            *self == PlotSpecificSettings::BoxPlot(*r),
    {
        match self {
            PlotSpecificSettings::BoxPlot(config) => config,
            _ => vstd::pervasive::unreached(),
        }
    }

    /// The settings of a Violin configuration; only asked of one.
    pub fn as_violin(&self) -> (r: &ViolinPlotSettings)
        requires
            self is Violin,
        ensures
            *self == PlotSpecificSettings::Violin(*r),
    {
        match self {
            PlotSpecificSettings::Violin(config) => config,
            _ => vstd::pervasive::unreached(),
        }
    }

    /// The settings of a Contour configuration; only asked of one.
    pub fn as_contour(&self) -> (r: &ContourConfig)
        requires
            self is Contour,
        ensures
            *self == PlotSpecificSettings::Contour(*r),
    {
        match self {
            PlotSpecificSettings::Contour(config) => config,
            _ => vstd::pervasive::unreached(),
        }
    }

    /// The settings of a Geo configuration; only asked of one.
    pub fn as_geo(&self) -> (r: &GeoConfig)
        requires
            self is Geo,
        ensures
            *self == PlotSpecificSettings::Geo(*r),
    {
        match self {
            PlotSpecificSettings::Geo(config) => config,
            _ => vstd::pervasive::unreached(),
        }
    }

    /// The settings of a TimeAnalysis configuration; only asked of one.
    pub fn as_time_analysis(&self) -> (r: &TimeAnalysisConfig)
        requires
            self is TimeAnalysis,
        ensures
            *self == PlotSpecificSettings::TimeAnalysis(*r),
    {
        match self {
            PlotSpecificSettings::TimeAnalysis(config) => config,
            _ => vstd::pervasive::unreached(),
        }
    }
}

/// Box plot specific configuration.
#[derive(Debug, Clone, Copy, PartialEq, Eq, Structural)]
pub struct BoxPlotConfig {
    pub show_outliers: bool,
    pub show_mean: bool,
    pub notched: bool,
    pub violin_overlay: bool,
}

impl Default for BoxPlotConfig {
    fn default() -> (r: Self)
        ensures
            r == (BoxPlotConfig {
                show_outliers: true,
                show_mean: false,
                notched: false,
                violin_overlay: false,
            }),
    {
        BoxPlotConfig { show_outliers: true, show_mean: false, notched: false, violin_overlay: false }
    }
}

/// Contour plot specific configuration.
#[derive(Debug, Clone, Copy, PartialEq, Eq, Structural)]
pub struct ContourConfig {
    pub levels: usize,
    pub smooth_contours: bool,
    pub fill_contours: bool,
    pub show_labels: bool,
}

impl Default for ContourConfig {
    fn default() -> (r: Self)
        ensures
            r == (ContourConfig {
                levels: 10,
                smooth_contours: true,
                fill_contours: true,
                show_labels: false,
            }),
    {
        ContourConfig { levels: 10, smooth_contours: true, fill_contours: true, show_labels: false }
    }
}

/// Geographic plot specific configuration.
#[derive(Debug, Clone, Copy, PartialEq, Eq, Structural)]
pub struct GeoConfig {
    pub projection: GeoProjection,
    pub show_coastlines: bool,
    pub show_countries: bool,
    pub color_by: GeoColorBy,
}

impl Default for GeoConfig {
    fn default() -> (r: Self)
        ensures
            r == (GeoConfig {
                projection: GeoProjection::Mercator,
                show_coastlines: true,
                show_countries: false,
                color_by: GeoColorBy::Value,
            }),
    {
        GeoConfig {
            projection: GeoProjection::Mercator,
            show_coastlines: true,
            show_countries: false,
            color_by: GeoColorBy::Value,
        }
    }
}

/// Time analysis specific configuration.
#[derive(Debug, Clone, Copy, PartialEq, Eq, Structural)]
pub struct TimeAnalysisConfig {
    pub analysis_type: TimeAnalysisType,
    pub window_size: usize,
    pub show_trend: bool,
    pub show_seasonality: bool,
}

impl Default for TimeAnalysisConfig {
    fn default() -> (r: Self)
        ensures
            r == (TimeAnalysisConfig {
                analysis_type: TimeAnalysisType::Trend,
                window_size: 10,
                show_trend: true,
                show_seasonality: false,
            }),
    {
        TimeAnalysisConfig {
            analysis_type: TimeAnalysisType::Trend,
            window_size: 10,
            show_trend: true,
            show_seasonality: false,
        }
    }
}

#[derive(Debug, Clone, Copy, PartialEq, Eq, Structural)]
pub enum Orientation {
    Vertical,
    Horizontal,
}

#[derive(Debug, Clone, Copy, PartialEq, Eq, Structural)]
pub enum ViolinScale {
    Count,
    Width,
    Area,
}

#[derive(Debug, Clone, Copy, PartialEq, Eq, Structural)]
pub enum AggregationMethod {
    Sum,
    Mean,
    Count,
    Min,
    Max,
    Median,
}

#[derive(Debug, Clone, Copy, PartialEq, Eq, Structural)]
pub enum ColorScale {
    Linear,
    Log,
    SymLog,
    Custom,
}

#[derive(Debug, Clone, Copy, PartialEq, Eq, Structural)]
pub enum CorrelationMethod {
    Pearson,
    Spearman,
    Kendall,
}

#[derive(Debug, Clone, Copy, PartialEq, Eq, Structural)]
pub enum ClusterMethod {
    NoClustering,
    Hierarchical,
    KMeans,
}

#[derive(Debug, Clone, Copy, PartialEq, Eq, Structural)]
pub enum DistributionType {
    Histogram,
    KDE,
    Box,
    Violin,
}

#[derive(Debug, Clone, Copy, PartialEq, Eq, Structural)]
pub enum BandwidthMethod {
    Silverman,
    Scott,
    Manual,
}

#[derive(Debug, Clone, Copy, PartialEq, Eq, Structural)]
pub enum Projection3D {
    Orthographic,
    Perspective,
}

#[derive(Debug, Clone, Copy, PartialEq, Eq, Structural)]
pub enum InterpolationMethod {
    Linear,
    Cubic,
    Nearest,
}

#[derive(Debug, Clone, Copy, PartialEq, Eq, Structural)]
pub enum StackOrder {
    Unordered,
    Ascending,
    Descending,
    InsideOut,
    OutsideIn,
}

#[derive(Debug, Clone, Copy, PartialEq, Eq, Structural)]
pub enum NetworkLayout {
    ForceDirected,
    Circular,
    Hierarchical,
    Random,
}

#[derive(Debug, Clone, Copy, PartialEq, Eq, Structural)]
pub enum GeoProjection {
    Mercator,
    Albers,
    Orthographic,
}

#[derive(Debug, Clone, Copy, PartialEq, Eq, Structural)]
pub enum GeoColorBy {
    Value,
    Category,
    Density,
}

#[derive(Debug, Clone, Copy, PartialEq, Eq, Structural)]
pub enum TimeAnalysisType {
    Trend,
    Seasonality,
    Decomposition,
    Forecasting,
}

#[derive(Debug, Clone, Copy, PartialEq, Eq, Structural)]
pub enum TreemapAlgorithm {
    Squarified,
    Slice,
    Dice,
}

/// All available plot types.
#[derive(Debug, Clone, Copy, PartialEq, Eq, Structural)]
pub enum PlotType {
    BarChart,
    LineChart,
    ScatterPlot,
    Histogram,
    BoxPlot,
    HeatMap,
    ViolinPlot,
    AnomalyDetection,
    CorrelationMatrix,
    Scatter3D,
    Surface3D,
    ContourPlot,
    ParallelCoordinates,
    RadarChart,
    SankeyDiagram,
    Treemap,
    SunburstChart,
    NetworkGraph,
    GeoPlot,
    TimeAnalysis,
    CandlestickChart,
    StreamGraph,
    PolarPlot,
}

/// The display name of each plot type.
pub open spec fn plot_type_name(t: PlotType) -> Seq<char> {
    match t {
        PlotType::BarChart => "Bar Chart"@,
        PlotType::LineChart => "Line Chart"@,
        PlotType::ScatterPlot => "Scatter Plot"@,
        PlotType::Histogram => "Histogram"@,
        PlotType::BoxPlot => "Box Plot"@,
        PlotType::HeatMap => "Heat Map"@,
        PlotType::ViolinPlot => "Violin Plot"@,
        PlotType::AnomalyDetection => "Anomaly Detection"@,
        PlotType::CorrelationMatrix => "Correlation Matrix"@,
        PlotType::Scatter3D => "3D Scatter Plot"@,
        PlotType::Surface3D => "3D Surface Plot"@,
        PlotType::ContourPlot => "Contour Plot"@,
        PlotType::ParallelCoordinates => "Parallel Coordinates"@,
        PlotType::RadarChart => "Radar Chart"@,
        PlotType::SankeyDiagram => "Sankey Diagram"@,
        PlotType::Treemap => "Treemap"@,
        PlotType::SunburstChart => "Sunburst Chart"@,
        PlotType::NetworkGraph => "Network Graph"@,
        PlotType::GeoPlot => "Geographic Plot"@,
        PlotType::TimeAnalysis => "Time Series Analysis"@,
        PlotType::CandlestickChart => "Candlestick Chart"@,
        PlotType::StreamGraph => "Stream Graph"@,
        PlotType::PolarPlot => "Polar Plot"@,
    }
}

/// The length and the first and fifth characters of a name: enough to tell
/// the plot type names apart.
pub open spec fn name_key(s: Seq<char>) -> (nat, char, char) {
    (s.len(), s[0], s[4])
}

/// The key of each plot type's name.
pub open spec fn plot_type_key(t: PlotType) -> (nat, char, char) {
    match t {
        PlotType::BarChart => (9, 'B', 'C'),
        PlotType::LineChart => (10, 'L', ' '),
        PlotType::ScatterPlot => (12, 'S', 't'),
        PlotType::Histogram => (9, 'H', 'o'),
        PlotType::BoxPlot => (8, 'B', 'P'),
        PlotType::HeatMap => (8, 'H', ' '),
        PlotType::ViolinPlot => (11, 'V', 'i'),
        PlotType::AnomalyDetection => (17, 'A', 'a'),
        PlotType::CorrelationMatrix => (18, 'C', 'e'),
        PlotType::Scatter3D => (15, '3', 'c'),
        PlotType::Surface3D => (15, '3', 'u'),
        PlotType::ContourPlot => (12, 'C', 'o'),
        PlotType::ParallelCoordinates => (20, 'P', 'l'),
        PlotType::RadarChart => (11, 'R', 'r'),
        PlotType::SankeyDiagram => (14, 'S', 'e'),
        PlotType::Treemap => (7, 'T', 'm'),
        PlotType::SunburstChart => (14, 'S', 'u'),
        PlotType::NetworkGraph => (13, 'N', 'o'),
        PlotType::GeoPlot => (15, 'G', 'r'),
        PlotType::TimeAnalysis => (20, 'T', ' '),
        PlotType::CandlestickChart => (17, 'C', 'l'),
        PlotType::StreamGraph => (12, 'S', 'a'),
        PlotType::PolarPlot => (10, 'P', 'r'),
    }
}

proof fn lemma_name_key(t: PlotType)
    ensures
        name_key(plot_type_name(t)) == plot_type_key(t),
{
    match t {
        PlotType::BarChart => {
            reveal_strlit("Bar Chart");
        },
        PlotType::LineChart => {
            reveal_strlit("Line Chart");
        },
        PlotType::ScatterPlot => {
            reveal_strlit("Scatter Plot");
        },
        PlotType::Histogram => {
            reveal_strlit("Histogram");
        },
        PlotType::BoxPlot => {
            reveal_strlit("Box Plot");
        },
        PlotType::HeatMap => {
            reveal_strlit("Heat Map");
        },
        PlotType::ViolinPlot => {
            reveal_strlit("Violin Plot");
        },
        PlotType::AnomalyDetection => {
            reveal_strlit("Anomaly Detection");
        },
        PlotType::CorrelationMatrix => {
            reveal_strlit("Correlation Matrix");
        },
        PlotType::Scatter3D => {
            reveal_strlit("3D Scatter Plot");
        },
        PlotType::Surface3D => {
            reveal_strlit("3D Surface Plot");
        },
        PlotType::ContourPlot => {
            reveal_strlit("Contour Plot");
        },
        PlotType::ParallelCoordinates => {
            reveal_strlit("Parallel Coordinates");
        },
        PlotType::RadarChart => {
            reveal_strlit("Radar Chart");
        },
        PlotType::SankeyDiagram => {
            reveal_strlit("Sankey Diagram");
        },
        PlotType::Treemap => {
            reveal_strlit("Treemap");
        },
        PlotType::SunburstChart => {
            reveal_strlit("Sunburst Chart");
        },
        PlotType::NetworkGraph => {
            reveal_strlit("Network Graph");
        },
        PlotType::GeoPlot => {
            reveal_strlit("Geographic Plot");
        },
        PlotType::TimeAnalysis => {
            reveal_strlit("Time Series Analysis");
        },
        PlotType::CandlestickChart => {
            reveal_strlit("Candlestick Chart");
        },
        PlotType::StreamGraph => {
            reveal_strlit("Stream Graph");
        },
        PlotType::PolarPlot => {
            reveal_strlit("Polar Plot");
        },
    }
}

/// Plot type names are never empty, and no two plot types share a name, so
/// the name shown for a plot identifies its type.
pub proof fn law_plot_type_names_distinct(p: PlotType, q: PlotType)
    ensures
        plot_type_name(p).len() > 0,
        plot_type_name(p) == plot_type_name(q) ==> p == q,
{
    lemma_name_key(p);
    lemma_name_key(q);
}

/// Every plot type, in the order the interface offers them.
pub open spec fn all_plot_types() -> Seq<PlotType> {
    seq![
        PlotType::BarChart,
        PlotType::LineChart,
        PlotType::ScatterPlot,
        PlotType::Histogram,
        PlotType::BoxPlot,
        PlotType::HeatMap,
        PlotType::ViolinPlot,
        PlotType::AnomalyDetection,
        PlotType::CorrelationMatrix,
        PlotType::Scatter3D,
        PlotType::Surface3D,
        PlotType::ContourPlot,
        PlotType::ParallelCoordinates,
        PlotType::RadarChart,
        PlotType::SankeyDiagram,
        PlotType::Treemap,
        PlotType::SunburstChart,
        PlotType::NetworkGraph,
        PlotType::GeoPlot,
        PlotType::TimeAnalysis,
        PlotType::CandlestickChart,
        PlotType::StreamGraph,
        PlotType::PolarPlot,
    ]
}

/// The position of a plot type in `all_plot_types`.
pub open spec fn plot_type_index(t: PlotType) -> int {
    match t {
        PlotType::BarChart => 0,
        PlotType::LineChart => 1,
        PlotType::ScatterPlot => 2,
        PlotType::Histogram => 3,
        PlotType::BoxPlot => 4,
        PlotType::HeatMap => 5,
        PlotType::ViolinPlot => 6,
        PlotType::AnomalyDetection => 7,
        PlotType::CorrelationMatrix => 8,
        PlotType::Scatter3D => 9,
        PlotType::Surface3D => 10,
        PlotType::ContourPlot => 11,
        PlotType::ParallelCoordinates => 12,
        PlotType::RadarChart => 13,
        PlotType::SankeyDiagram => 14,
        PlotType::Treemap => 15,
        PlotType::SunburstChart => 16,
        PlotType::NetworkGraph => 17,
        PlotType::GeoPlot => 18,
        PlotType::TimeAnalysis => 19,
        PlotType::CandlestickChart => 20,
        PlotType::StreamGraph => 21,
        PlotType::PolarPlot => 22,
    }
}

/// Every plot type is offered, at its own position.
pub proof fn law_all_types_lists_every_type(t: PlotType)
    ensures
        0 <= plot_type_index(t) < all_plot_types().len(),
        all_plot_types()[plot_type_index(t)] == t,
        all_plot_types().contains(t),
{
    assert(all_plot_types()[plot_type_index(t)] == t);
}

proof fn lemma_index_of_listed(i: int)
    requires
        0 <= i < all_plot_types().len(),
    ensures
        plot_type_index(all_plot_types()[i]) == i,
{
    let t = all_plot_types()[i];
    assert(plot_type_index(t) == i);
}

/// No plot type is offered twice.
pub proof fn law_all_types_distinct()
    ensures
        all_plot_types().no_duplicates(),
{
    assert forall|i: int, j: int|
        0 <= i < all_plot_types().len() && 0 <= j < all_plot_types().len() && i != j implies all_plot_types()[i]
        != all_plot_types()[j] by {
        lemma_index_of_listed(i);
        lemma_index_of_listed(j);
    }
}

/// The categories, read in order, offer every plot type once, in the order
/// of `all_plot_types`.
pub proof fn law_categories_cover_all_types()
    ensures
        plot_categories().map_values(|e: (Seq<char>, Seq<PlotType>)| e.1).flatten()
            == all_plot_types(),
{
    let groups = plot_categories().map_values(|e: (Seq<char>, Seq<PlotType>)| e.1);
    reveal_with_fuel(Seq::flatten, 9);
    assert(groups.flatten() =~= all_plot_types());
}

/// The grouping of plot types shown in the interface: a title and its types.
pub open spec fn plot_categories() -> Seq<(Seq<char>, Seq<PlotType>)> {
    seq![
        (
            "Basic 2D"@,
            seq![
                PlotType::BarChart,
                PlotType::LineChart,
                PlotType::ScatterPlot,
                PlotType::Histogram,
                PlotType::BoxPlot,
                PlotType::HeatMap,
                PlotType::ViolinPlot,
            ],
        ),
        ("Statistical"@, seq![PlotType::AnomalyDetection, PlotType::CorrelationMatrix]),
        ("3D Plots"@, seq![PlotType::Scatter3D, PlotType::Surface3D, PlotType::ContourPlot]),
        ("Multi-dimensional"@, seq![PlotType::ParallelCoordinates, PlotType::RadarChart]),
        (
            "Hierarchical & Flow"@,
            seq![
                PlotType::SankeyDiagram,
                PlotType::Treemap,
                PlotType::SunburstChart,
                PlotType::NetworkGraph,
            ],
        ),
        ("Geographic"@, seq![PlotType::GeoPlot]),
        ("Time Series"@, seq![PlotType::TimeAnalysis, PlotType::CandlestickChart]),
        ("Specialized"@, seq![PlotType::StreamGraph, PlotType::PolarPlot]),
    ]
}

/// The view of a category entry: its title's characters and its types.
pub open spec fn category_view(e: (&'static str, Vec<PlotType>)) -> (Seq<char>, Seq<PlotType>) {
    (e.0@, e.1@)
}

/// The three general-purpose column types.
pub open spec fn text_or_number_types() -> Seq<DataType> {
    seq![DataType::Utf8, DataType::Int64, DataType::Float64]
}

/// The X column types a plot type requires; `None` when it needs no X column.
pub open spec fn plot_required_x(t: PlotType) -> Option<Seq<DataType>> {
    match t {
        PlotType::Histogram | PlotType::BoxPlot | PlotType::ViolinPlot | PlotType::HeatMap
        | PlotType::CorrelationMatrix | PlotType::AnomalyDetection => None,
        _ => Some(text_or_number_types()),
    }
}

/// The Y column types a plot type accepts.
pub open spec fn plot_required_y(t: PlotType) -> Seq<DataType> {
    match t {
        PlotType::BarChart | PlotType::LineChart | PlotType::ScatterPlot | PlotType::Histogram
        | PlotType::BoxPlot | PlotType::ViolinPlot | PlotType::HeatMap
        | PlotType::CorrelationMatrix | PlotType::AnomalyDetection | PlotType::Scatter3D
        | PlotType::Surface3D | PlotType::ContourPlot => seq![DataType::Int64, DataType::Float64],
        _ => text_or_number_types(),
    }
}

/// Whether a plot type accepts an (optional) X column type and a Y column type.
pub open spec fn plot_supports(t: PlotType, x: Option<DataType>, y: DataType) -> bool {
    match t {
        PlotType::ScatterPlot | PlotType::LineChart | PlotType::Scatter3D | PlotType::Surface3D
        | PlotType::ContourPlot => y.numeric() && match x {
            Some(xt) => xt.numeric(),
            None => true,
        },
        PlotType::BarChart => y.numeric() && match x {
            Some(xt) => xt.categorical() || xt.numeric(),
            None => true,
        },
        PlotType::Histogram | PlotType::BoxPlot | PlotType::ViolinPlot | PlotType::HeatMap
        | PlotType::CorrelationMatrix | PlotType::AnomalyDetection => y.numeric(),
        PlotType::TimeAnalysis | PlotType::CandlestickChart => y.numeric() && match x {
            Some(xt) => xt.temporal(),
            None => false,
        },
        _ => true,
    }
}

/// Every plot type but the time-based ones draws a numeric series over a
/// numeric X column; a bar chart also draws one over a categorical X column
/// or without one, and never a series that is not numeric.
pub proof fn law_numeric_columns_supported(p: PlotType, x: DataType, y: DataType)
    ensures
        y.numeric() && x.numeric() && p != PlotType::TimeAnalysis && p != PlotType::CandlestickChart
            ==> plot_supports(p, Some(x), y),
        y.numeric() && (x.numeric() || x.categorical()) ==> plot_supports(
            PlotType::BarChart,
            Some(x),
            y,
        ),
        plot_supports(PlotType::BarChart, None, y) == y.numeric(),
        !y.numeric() ==> !plot_supports(PlotType::BarChart, Some(x), y),
        y.numeric() && x.temporal() ==> plot_supports(PlotType::TimeAnalysis, Some(x), y)
            && plot_supports(PlotType::CandlestickChart, Some(x), y),
{
}

/// A vector holding the general-purpose column types.
fn text_or_number_vec() -> (r: Vec<DataType>)
    ensures
        r@ == text_or_number_types(),
{
    let v = vec![DataType::Utf8, DataType::Int64, DataType::Float64];
    assert(v@ =~= text_or_number_types());
    v
}

impl PlotType {
    /// The display name of the plot type.
    pub fn name(&self) -> (r: &'static str)
        ensures
            r@ == plot_type_name(*self),
    {
        match self {
            PlotType::BarChart => "Bar Chart",
            PlotType::LineChart => "Line Chart",
            PlotType::ScatterPlot => "Scatter Plot",
            PlotType::Histogram => "Histogram",
            PlotType::BoxPlot => "Box Plot",
            PlotType::HeatMap => "Heat Map",
            PlotType::ViolinPlot => "Violin Plot",
            PlotType::AnomalyDetection => "Anomaly Detection",
            PlotType::CorrelationMatrix => "Correlation Matrix",
            PlotType::Scatter3D => "3D Scatter Plot",
            PlotType::Surface3D => "3D Surface Plot",
            PlotType::ContourPlot => "Contour Plot",
            PlotType::ParallelCoordinates => "Parallel Coordinates",
            PlotType::RadarChart => "Radar Chart",
            PlotType::SankeyDiagram => "Sankey Diagram",
            PlotType::Treemap => "Treemap",
            PlotType::SunburstChart => "Sunburst Chart",
            PlotType::NetworkGraph => "Network Graph",
            PlotType::GeoPlot => "Geographic Plot",
            PlotType::TimeAnalysis => "Time Series Analysis",
            PlotType::CandlestickChart => "Candlestick Chart",
            PlotType::StreamGraph => "Stream Graph",
            PlotType::PolarPlot => "Polar Plot",
        }
    }

    /// Every plot type, in the order the interface offers them.
    pub fn all_types() -> (r: Vec<Self>)
        ensures
            r@ == all_plot_types(),
    {
        let v = vec![
            PlotType::BarChart,
            PlotType::LineChart,
            PlotType::ScatterPlot,
            PlotType::Histogram,
            PlotType::BoxPlot,
            PlotType::HeatMap,
            PlotType::ViolinPlot,
            PlotType::AnomalyDetection,
            PlotType::CorrelationMatrix,
            PlotType::Scatter3D,
            PlotType::Surface3D,
            PlotType::ContourPlot,
            PlotType::ParallelCoordinates,
            PlotType::RadarChart,
            PlotType::SankeyDiagram,
            PlotType::Treemap,
            PlotType::SunburstChart,
            PlotType::NetworkGraph,
            PlotType::GeoPlot,
            PlotType::TimeAnalysis,
            PlotType::CandlestickChart,
            PlotType::StreamGraph,
            PlotType::PolarPlot,
        ];
        assert(v@ =~= all_plot_types());
        v
    }

    /// The categories for grouping plots in the interface.
    pub fn categories() -> (r: Vec<(&'static str, Vec<PlotType>)>)
        ensures
            r@.map_values(|e: (&'static str, Vec<PlotType>)| category_view(e)) == plot_categories(),
    {
        let basic = vec![
            PlotType::BarChart,
            PlotType::LineChart,
            PlotType::ScatterPlot,
            PlotType::Histogram,
            PlotType::BoxPlot,
            PlotType::HeatMap,
            PlotType::ViolinPlot,
        ];
        let statistical = vec![PlotType::AnomalyDetection, PlotType::CorrelationMatrix];
        let three_d = vec![PlotType::Scatter3D, PlotType::Surface3D, PlotType::ContourPlot];
        let multi = vec![PlotType::ParallelCoordinates, PlotType::RadarChart];
        let hierarchical = vec![
            PlotType::SankeyDiagram,
            PlotType::Treemap,
            PlotType::SunburstChart,
            PlotType::NetworkGraph,
        ];
        let geographic = vec![PlotType::GeoPlot];
        let time_series = vec![PlotType::TimeAnalysis, PlotType::CandlestickChart];
        let specialized = vec![PlotType::StreamGraph, PlotType::PolarPlot];
        let ghost expected = plot_categories();
        assert(basic@ =~= expected[0].1);
        assert(statistical@ =~= expected[1].1);
        assert(three_d@ =~= expected[2].1);
        assert(multi@ =~= expected[3].1);
        assert(hierarchical@ =~= expected[4].1);
        assert(geographic@ =~= expected[5].1);
        assert(time_series@ =~= expected[6].1);
        assert(specialized@ =~= expected[7].1);
        let v = vec![
            ("Basic 2D", basic),
            ("Statistical", statistical),
            ("3D Plots", three_d),
            ("Multi-dimensional", multi),
            ("Hierarchical & Flow", hierarchical),
            ("Geographic", geographic),
            ("Time Series", time_series),
            ("Specialized", specialized),
        ];
        assert(v@.map_values(|e: (&'static str, Vec<PlotType>)| category_view(e)) =~= expected);
        v
    }

    /// The X column types the plot type requires; `None` when it needs no X
    /// column.
    pub fn required_x_types(&self) -> (r: Option<Vec<DataType>>)
        ensures
            match r {
                Some(v) => plot_required_x(*self) == Some(v@),
                None => plot_required_x(*self) is None,
            },
    {
        match self {
            PlotType::Histogram | PlotType::BoxPlot | PlotType::ViolinPlot | PlotType::HeatMap
            | PlotType::CorrelationMatrix | PlotType::AnomalyDetection => None,
            _ => Some(text_or_number_vec()),
        }
    }

    /// The Y column types the plot type accepts.
    pub fn required_y_types(&self) -> (r: Vec<DataType>)
        ensures
            r@ == plot_required_y(*self),
    {
        match self {
            PlotType::BarChart | PlotType::LineChart | PlotType::ScatterPlot | PlotType::Histogram
            | PlotType::BoxPlot | PlotType::ViolinPlot | PlotType::HeatMap
            | PlotType::CorrelationMatrix | PlotType::AnomalyDetection | PlotType::Scatter3D
            | PlotType::Surface3D | PlotType::ContourPlot => {
                let v = vec![DataType::Int64, DataType::Float64];
                assert(v@ =~= seq![DataType::Int64, DataType::Float64]);
                v
            },
            _ => text_or_number_vec(),
        }
    }

    /// Whether the plot type accepts the given X (if any) and Y column types.
    pub fn supports_column_types(&self, x_type: Option<&DataType>, y_type: &DataType) -> (r: bool)
        ensures
            r == plot_supports(
                *self,
                match x_type {
                    Some(t) => Some(*t),
                    None => None,
                },
                *y_type,
            ),
    {
        match self {
            PlotType::ScatterPlot | PlotType::LineChart | PlotType::Scatter3D | PlotType::Surface3D
            | PlotType::ContourPlot => is_numeric_type(y_type) && match x_type {
                Some(t) => is_numeric_type(t),
                None => true,
            },
            PlotType::BarChart => is_numeric_type(y_type) && match x_type {
                Some(t) => is_categorical_type(t) || is_numeric_type(t),
                None => true,
            },
            PlotType::Histogram | PlotType::BoxPlot | PlotType::ViolinPlot => is_numeric_type(
                y_type,
            ),
            PlotType::HeatMap => is_numeric_type(y_type),
            PlotType::TimeAnalysis | PlotType::CandlestickChart => is_numeric_type(y_type)
                && match x_type {
                Some(t) => is_temporal_type(t),
                None => false,
            },
            PlotType::CorrelationMatrix => is_numeric_type(y_type),
            PlotType::AnomalyDetection => is_numeric_type(y_type),
            _ => true,
        }
    }
}

/// Whether the column type holds numbers.
pub fn is_numeric_type(dtype: &DataType) -> (r: bool)
    ensures
        r == dtype.numeric(),
{
    match dtype {
        DataType::Int8 | DataType::Int16 | DataType::Int32 | DataType::Int64 | DataType::UInt8
        | DataType::UInt16 | DataType::UInt32 | DataType::UInt64 | DataType::Float16
        | DataType::Float32 | DataType::Float64 | DataType::Decimal128(_, _)
        | DataType::Decimal256(_, _) => true,
        _ => false,
    }
}

/// Whether the column type holds text categories.
pub fn is_categorical_type(dtype: &DataType) -> (r: bool)
    ensures
        r == dtype.categorical(),
{
    match dtype {
        DataType::Utf8 | DataType::LargeUtf8 => true,
        _ => false,
    }
}

/// Whether the column type holds points or spans of time.
pub fn is_temporal_type(dtype: &DataType) -> (r: bool)
    ensures
        r == dtype.temporal(),
{
    match dtype {
        DataType::Date32 | DataType::Date64 | DataType::Time32(_) | DataType::Time64(_)
        | DataType::Timestamp(_, _) | DataType::Duration(_) | DataType::Interval(_) => true,
        _ => false,
    }
}

/// The columns a plot draws from, by name; empty names mean "not chosen".
pub struct PlotColumns {
    pub x_column: String,
    pub y_column: String,
    pub color_column: Option<String>,
    pub size_column: Option<String>,
}

/// Why the chosen columns do not suit a plot.
#[derive(Debug)]
pub enum ColumnValidationError {
    /// The plot needs an X column and none is chosen.
    XColumnRequired,
    /// The X column's type is not among the plot's required X types.
    XColumnWrongType {
        column: String,
        actual: DataType,
        plot_name: &'static str,
        required: Vec<DataType>,
    },
    /// The plot needs no X column, but the chosen one is not in the data.
    XColumnNotFound { column: String },
    /// No Y column is chosen.
    YColumnRequired,
    /// No Y column is chosen for a histogram.
    HistogramYColumnRequired,
    /// The Y column's type is not among the plot's accepted Y types.
    YColumnWrongType {
        column: String,
        actual: DataType,
        plot_name: &'static str,
        required: Vec<DataType>,
    },
    /// The chosen color column is not in the data.
    ColorColumnNotFound { column: String },
    /// The chosen size column is not in the data.
    SizeColumnNotFound { column: String },
}

/// The content of a `ColumnValidationError`, with names as characters.
pub enum ColumnIssue {
    XRequired,
    XWrongType(Seq<char>, DataType, Seq<char>, Seq<DataType>),
    XNotFound(Seq<char>),
    YRequired,
    HistogramYRequired,
    YWrongType(Seq<char>, DataType, Seq<char>, Seq<DataType>),
    ColorNotFound(Seq<char>),
    SizeNotFound(Seq<char>),
}

impl ColumnValidationError {
    /// The content of the error.
    pub open spec fn issue(self) -> ColumnIssue {
        match self {
            ColumnValidationError::XColumnRequired => ColumnIssue::XRequired,
            ColumnValidationError::XColumnWrongType { column, actual, plot_name, required } =>
                ColumnIssue::XWrongType(column@, actual, plot_name@, required@),
            ColumnValidationError::XColumnNotFound { column } => ColumnIssue::XNotFound(column@),
            ColumnValidationError::YColumnRequired => ColumnIssue::YRequired,
            ColumnValidationError::HistogramYColumnRequired => ColumnIssue::HistogramYRequired,
            ColumnValidationError::YColumnWrongType { column, actual, plot_name, required } =>
                ColumnIssue::YWrongType(column@, actual, plot_name@, required@),
            ColumnValidationError::ColorColumnNotFound { column } => ColumnIssue::ColorNotFound(
                column@,
            ),
            ColumnValidationError::SizeColumnNotFound { column } => ColumnIssue::SizeNotFound(
                column@,
            ),
        }
    }
}

/// The message shown for each problem with a plot's columns.
pub open spec fn column_issue_text(i: ColumnIssue) -> Seq<char> {
    match i {
        ColumnIssue::XRequired => "X column is required for this plot type"@,
        ColumnIssue::XWrongType(c, t, name, req) => "X column '"@ + c + "' has type "@ + type_debug(t)
            + " which is not valid for "@ + name + " plot. Required types: "@ + types_debug(req),
        ColumnIssue::XNotFound(c) => "X column '"@ + c + "' not found in data"@,
        ColumnIssue::YRequired => "Y column is required for this plot type"@,
        ColumnIssue::HistogramYRequired => "Y column is required for histogram"@,
        ColumnIssue::YWrongType(c, t, name, req) => "Y column '"@ + c + "' has type "@ + type_debug(t)
            + " which is not valid for "@ + name + " plot. Required types: "@ + types_debug(req),
        ColumnIssue::ColorNotFound(c) => "Color column '"@ + c + "' not found in data"@,
        ColumnIssue::SizeNotFound(c) => "Size column '"@ + c + "' not found in data"@,
    }
}

fn wrong_type_message(head: &str, column: &String, actual: &DataType, plot_name: &str, required: &Vec<DataType>) -> (r: String)
    ensures
        r@ == head@ + column@ + "' has type "@ + type_debug(*actual) + " which is not valid for "@
            + plot_name@ + " plot. Required types: "@ + types_debug(required@),
{
    let mut m = joined3(head, column.as_str(), "' has type ");
    let d = actual.debug_text();
    m.append(d.as_str());
    m.append(" which is not valid for ");
    m.append(plot_name);
    m.append(" plot. Required types: ");
    let l = types_debug_text(required);
    m.append(l.as_str());
    m
}

impl ColumnValidationError {
    /// The message shown for the problem.
    pub fn message(&self) -> (r: String)
        ensures
            r@ == column_issue_text(self.issue()),
    {
        match self {
            ColumnValidationError::XColumnRequired => String::from_str(
                "X column is required for this plot type",
            ),
            ColumnValidationError::XColumnWrongType { column, actual, plot_name, required } =>
                wrong_type_message("X column '", column, actual, plot_name, required),
            ColumnValidationError::XColumnNotFound { column } => joined3(
                "X column '",
                column.as_str(),
                "' not found in data",
            ),
            ColumnValidationError::YColumnRequired => String::from_str(
                "Y column is required for this plot type",
            ),
            ColumnValidationError::HistogramYColumnRequired => String::from_str(
                "Y column is required for histogram",
            ),
            ColumnValidationError::YColumnWrongType { column, actual, plot_name, required } =>
                wrong_type_message("Y column '", column, actual, plot_name, required),
            ColumnValidationError::ColorColumnNotFound { column } => joined3(
                "Color column '",
                column.as_str(),
                "' not found in data",
            ),
            ColumnValidationError::SizeColumnNotFound { column } => joined3(
                "Size column '",
                column.as_str(),
                "' not found in data",
            ),
        }
    }
}

/// The outcome of a validation, as an optional issue.
pub open spec fn outcome(r: Result<(), ColumnValidationError>) -> Option<ColumnIssue> {
    match r {
        Ok(()) => None,
        Err(e) => Some(e.issue()),
    }
}

/// Whether an optional column is chosen but missing from the data.
pub open spec fn optional_column_missing(col: Option<String>, names: Seq<String>) -> bool {
    match col {
        Some(c) => c@.len() != 0 && !has_name(names, c@),
        None => false,
    }
}

/// The first problem with the chosen columns for a plot with the given name
/// and column type requirements, checked in this order: the X column, the
/// Y column, the color column, the size column.
pub open spec fn column_issue(
    plot_name: Seq<char>,
    req_x: Option<Seq<DataType>>,
    req_y: Seq<DataType>,
    q: QueryResult,
    c: PlotColumns,
) -> Option<ColumnIssue> {
    let x = c.x_column@;
    let y = c.y_column@;
    let x_issue = match req_x {
        Some(rx) => if x.len() == 0 {
            Some(ColumnIssue::XRequired)
        } else {
            match q.column_type(x) {
                Some(t) => if type_listed(rx, t) {
                    None
                } else {
                    Some(ColumnIssue::XWrongType(x, t, plot_name, rx))
                },
                None => None,
            }
        },
        None => if x.len() != 0 && !has_name(q.columns@, x) {
            Some(ColumnIssue::XNotFound(x))
        } else {
            None
        },
    };
    if x_issue is Some {
        x_issue
    } else if y.len() == 0 {
        Some(ColumnIssue::YRequired)
    } else if q.column_type(y) is Some && !type_listed(req_y, q.column_type(y)->0) {
        Some(ColumnIssue::YWrongType(y, q.column_type(y)->0, plot_name, req_y))
    } else if optional_column_missing(c.color_column, q.columns@) {
        Some(ColumnIssue::ColorNotFound(c.color_column->0@))
    } else if optional_column_missing(c.size_column, q.columns@) {
        Some(ColumnIssue::SizeNotFound(c.size_column->0@))
    } else {
        None
    }
}

/// Checks the chosen columns against a plot's name and column type
/// requirements, as every plot does unless it checks otherwise.
pub fn validate_plot_columns(
    plot_name: &'static str,
    required_x: Option<Vec<DataType>>,
    required_y: Vec<DataType>,
    query_result: &QueryResult,
    config: &PlotColumns,
) -> (r: Result<(), ColumnValidationError>)
    ensures
        outcome(r) == column_issue(
            plot_name@,
            match required_x {
                Some(v) => Some(v@),
                None => None,
            },
            required_y@,
            *query_result,
            *config,
        ),
{
    match required_x {
        Some(rx) => {
            if config.x_column.as_str().is_empty() {
                return Err(ColumnValidationError::XColumnRequired);
            }
            match query_result.type_of_column(config.x_column.as_str()) {
                Some(t) => {
                    if !list_contains_type(&rx, t) {
                        return Err(
                            ColumnValidationError::XColumnWrongType {
                                column: config.x_column.clone(),
                                actual: t.copy_type(),
                                plot_name,
                                required: rx,
                            },
                        );
                    }
                },
                None => {},
            }
        },
        None => {
            if !config.x_column.as_str().is_empty() && !contains_name(
                &query_result.columns,
                config.x_column.as_str(),
            ) {
                return Err(ColumnValidationError::XColumnNotFound { column: config.x_column.clone() });
            }
        },
    }
    if config.y_column.as_str().is_empty() {
        return Err(ColumnValidationError::YColumnRequired);
    }
    match query_result.type_of_column(config.y_column.as_str()) {
        Some(t) => {
            if !list_contains_type(&required_y, t) {
                return Err(
                    ColumnValidationError::YColumnWrongType {
                        column: config.y_column.clone(),
                        actual: t.copy_type(),
                        plot_name,
                        required: required_y,
                    },
                );
            }
        },
        None => {},
    }
    match &config.color_column {
        Some(c) => {
            if !c.as_str().is_empty() && !contains_name(&query_result.columns, c.as_str()) {
                return Err(ColumnValidationError::ColorColumnNotFound { column: c.clone() });
            }
        },
        None => {},
    }
    match &config.size_column {
        Some(c) => {
            if !c.as_str().is_empty() && !contains_name(&query_result.columns, c.as_str()) {
                return Err(ColumnValidationError::SizeColumnNotFound { column: c.clone() });
            }
        },
        None => {},
    }
    Ok(())
}

} // verus!
