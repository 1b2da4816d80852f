//! The description of the whole chart: two line series over one time axis,
//! the CPU axis on the left and the memory axis on the right.
use vstd::prelude::*;
use vstd::string::*;
use crate::config::ChartConfig;
use crate::error::ChartError;
use crate::palette::{color_codes, single_color};
use crate::sample::Sample;
use crate::scale::{
    cpu_scale, generate_scale_cpu, generate_scale_mem, generate_scale_x, memory_scale, time_scale,
    Scale,
};
use crate::series::{cpu_points, generate_data_cpu, generate_data_mem, memory_points};
use crate::title::{resolve_title, title_text, Opts};

verus! {

/// The mark drawn at each point of a line.
#[derive(Clone, Copy, Debug, PartialEq, Eq, Structural)]
pub enum Marker {
    Circle,
    Square,
    Cross,
}

/// A side of the drawing area.
#[derive(Clone, Copy, Debug, PartialEq, Eq, Structural)]
pub enum Side {
    Top,
    Right,
    Bottom,
    Left,
}

/// One line of the chart: its points, the two scales that place them, and how
/// it is drawn.
#[derive(Debug)]
pub struct SeriesView {
    /// The scale of the horizontal axis, shared by all lines of a chart.
    pub x_scale: Scale,
    /// The scale of this line's own vertical axis.
    pub y_scale: Scale,
    /// The mark at each point.
    pub marker: Marker,
    /// The colours of the line; never empty.
    pub colors: Vec<charts::Color>,
    /// The name of the line in the legend.
    pub label: String,
    /// Whether each point carries its value as a label.
    pub labels_visible: bool,
    /// The points, as pairs of a time and a value.
    pub points: Vec<(u64, u64)>,
}

/// What a `SeriesView` holds, as mathematical values.
pub struct SeriesModel {
    pub x_scale: Scale,
    pub y_scale: Scale,
    pub marker: Marker,
    pub colors: Seq<Seq<char>>,
    pub label: Seq<char>,
    pub labels_visible: bool,
    pub points: Seq<(u64, u64)>,
}

impl View for SeriesView {
    type V = SeriesModel;

    open spec fn view(&self) -> SeriesModel {
        SeriesModel {
            x_scale: self.x_scale,
            y_scale: self.y_scale,
            marker: self.marker,
            colors: color_codes(self.colors@),
            label: self.label@,
            labels_visible: self.labels_visible,
            points: self.points@,
        }
    }
}

impl SeriesView {
    /// A line can be drawn when both scales start at 0 and there is a colour
    /// to draw it in.
    pub open spec fn wf(self) -> bool {
        &&& self.x_scale.wf()
        &&& self.y_scale.wf()
        &&& self.colors@.len() > 0
    }
}

/// The whole chart, ready to be drawn. It is built once and not changed.
#[derive(Debug)]
pub struct ChartDescriptor {
    /// Width of the canvas in pixels.
    pub width: isize,
    /// Height of the canvas in pixels.
    pub height: isize,
    /// Margin at the top, in pixels.
    pub margin_top: isize,
    /// Margin at the right, in pixels.
    pub margin_right: isize,
    /// Margin at the bottom, in pixels.
    pub margin_bottom: isize,
    /// Margin at the left, in pixels.
    pub margin_left: isize,
    /// The title above the chart.
    pub title: String,
    /// The CPU line, measured on the left axis.
    pub cpu: SeriesView,
    /// The memory line, measured on the right axis.
    pub memory: SeriesView,
    /// The label of the time axis, at the bottom.
    pub bottom_label: String,
    /// The label of the CPU axis, at the left.
    pub left_label: String,
    /// The label of the memory axis, at the right.
    pub right_label: String,
    /// Where the legend stands.
    pub legend: Side,
}

/// What a `ChartDescriptor` holds, as mathematical values.
pub struct ChartModel {
    pub width: int,
    pub height: int,
    pub margin_top: int,
    pub margin_right: int,
    pub margin_bottom: int,
    pub margin_left: int,
    pub title: Seq<char>,
    pub cpu: SeriesModel,
    pub memory: SeriesModel,
    pub bottom_label: Seq<char>,
    pub left_label: Seq<char>,
    pub right_label: Seq<char>,
    pub legend: Side,
}

impl View for ChartDescriptor {
    type V = ChartModel;

    open spec fn view(&self) -> ChartModel {
        ChartModel {
            width: self.width as int,
            height: self.height as int,
            margin_top: self.margin_top as int,
            margin_right: self.margin_right as int,
            margin_bottom: self.margin_bottom as int,
            margin_left: self.margin_left as int,
            title: self.title@,
            cpu: self.cpu@,
            memory: self.memory@,
            bottom_label: self.bottom_label@,
            left_label: self.left_label@,
            right_label: self.right_label@,
            legend: self.legend,
        }
    }
}

impl ChartDescriptor {
    /// Both lines can be drawn, and they share the time axis.
    pub open spec fn wf(self) -> bool {
        &&& self.cpu.wf()
        &&& self.memory.wf()
        &&& self.cpu.x_scale == self.memory.x_scale
        &&& self.cpu.points@.len() == self.memory.points@.len()
    }
}

/// The CPU line of the chart of `samples`.
pub open spec fn cpu_series_model(samples: Seq<Sample>, config: ChartConfig) -> SeriesModel {
    SeriesModel {
        x_scale: time_scale(samples, config),
        y_scale: cpu_scale(samples, config),
        marker: Marker::Circle,
        colors: seq![config.cpu_color@],
        label: "CPU"@,
        labels_visible: false,
        points: cpu_points(samples),
    }
}

/// The memory line of the chart of `samples`.
pub open spec fn memory_series_model(samples: Seq<Sample>, config: ChartConfig) -> SeriesModel {
    SeriesModel {
        x_scale: time_scale(samples, config),
        y_scale: memory_scale(samples, config),
        marker: Marker::Circle,
        colors: seq![config.memory_color@],
        label: "RSS"@,
        labels_visible: false,
        points: memory_points(samples),
    }
}

/// The chart of `samples`: the canvas is the drawing area with the margin
/// on every side; the two lines, each with circles at its points and no
/// labels on them; the title that names what was monitored; the three axis
/// labels; the legend below.
pub open spec fn chart_model(
    samples: Seq<Sample>,
    pid: Option<u32>,
    tokens: Seq<Seq<char>>,
    config: ChartConfig,
) -> ChartModel {
    ChartModel {
        width: config.width + 2 * config.margin,
        height: config.height + 2 * config.margin,
        margin_top: config.margin as int,
        margin_right: config.margin as int,
        margin_bottom: config.margin as int,
        margin_left: config.margin as int,
        title: title_text(pid, tokens),
        cpu: cpu_series_model(samples, config),
        memory: memory_series_model(samples, config),
        bottom_label: "Seconds after start"@,
        left_label: "CPU Usage [%]"@,
        right_label: "RSS Memory Usage"@,
        legend: Side::Bottom,
    }
}

/// `r` is what describing the chart of `samples` gives: the chart, where the
/// layout can be drawn, and `InvalidGeometry` where it cannot.
pub open spec fn is_chart_of(
    r: Result<ChartDescriptor, ChartError>,
    samples: Seq<Sample>,
    pid: Option<u32>,
    tokens: Seq<Seq<char>>,
    config: ChartConfig,
) -> bool {
    match r {
        Ok(d) => config.is_valid() && d.wf() && d@ == chart_model(samples, pid, tokens, config),
        Err(e) => !config.is_valid() && e == ChartError::InvalidGeometry,
    }
}

/// Describing the same input twice gives the same chart: the same canvas,
/// scales, series, title and labels, or the same failure.
pub proof fn lemma_same_input_same_chart(
    first: Result<ChartDescriptor, ChartError>,
    second: Result<ChartDescriptor, ChartError>,
    samples: Seq<Sample>,
    pid: Option<u32>,
    tokens: Seq<Seq<char>>,
    config: ChartConfig,
)
    requires
        is_chart_of(first, samples, pid, tokens, config),
        is_chart_of(second, samples, pid, tokens, config),
    ensures
        first is Ok <==> second is Ok,
        first is Ok ==> first->Ok_0@ == second->Ok_0@,
        first is Err ==> first->Err_0 == second->Err_0,
{
}

/// The CPU line of the chart of `samples`: red by default, circles at the
/// points, no labels on them.
pub fn cpu_view(samples: &Vec<Sample>, config: &ChartConfig) -> (view: SeriesView)
    ensures
        view@ == cpu_series_model(samples@, *config),
        view.wf(),
{
    let view = SeriesView {
        x_scale: generate_scale_x(samples, config),
        y_scale: generate_scale_cpu(samples, config),
        marker: Marker::Circle,
        colors: single_color(config.cpu_color.as_str()),
        label: String::from_str("CPU"),
        labels_visible: false,
        points: generate_data_cpu(samples),
    };
    proof {
        assert(view@.colors =~= seq![config.cpu_color@]);
    }
    view
}

/// The memory line of the chart of `samples`: blue by default, circles at the
/// points, no labels on them.
pub fn memory_view(samples: &Vec<Sample>, config: &ChartConfig) -> (view: SeriesView)
    ensures
        view@ == memory_series_model(samples@, *config),
        view.wf(),
{
    let view = SeriesView {
        x_scale: generate_scale_x(samples, config),
        y_scale: generate_scale_mem(samples, config),
        marker: Marker::Circle,
        colors: single_color(config.memory_color.as_str()),
        label: String::from_str("RSS"),
        labels_visible: false,
        points: generate_data_mem(samples),
    };
    proof {
        assert(view@.colors =~= seq![config.memory_color@]);
    }
    view
}

/// Describes the chart of `samples`. It fails, with `InvalidGeometry`, exactly
/// on a layout that cannot be drawn. No samples, or samples that are all 0,
/// are no failure: the scales then have the single value 0 as their domain
/// and the lines are flat or empty.
pub fn compose_chart(samples: &Vec<Sample>, opts: &Opts, config: &ChartConfig) -> (r: Result<
    ChartDescriptor,
    ChartError,
>)
    ensures
        is_chart_of(r, samples@, opts.pid, opts.tokens(), *config),
        r is Ok <==> config.is_valid(),
        r matches Ok(d) ==> d@ == chart_model(samples@, opts.pid, opts.tokens(), *config)
            && d.wf(),
        r matches Err(e) ==> e == ChartError::InvalidGeometry,
{
    if !config.validate() {
        return Err(ChartError::InvalidGeometry);
    }
    let chart = ChartDescriptor {
        width: config.canvas_width(),
        height: config.canvas_height(),
        margin_top: config.margin,
        margin_right: config.margin,
        margin_bottom: config.margin,
        margin_left: config.margin,
        title: resolve_title(opts),
        cpu: cpu_view(samples, config),
        memory: memory_view(samples, config),
        bottom_label: String::from_str("Seconds after start"),
        left_label: String::from_str("CPU Usage [%]"),
        right_label: String::from_str("RSS Memory Usage"),
        legend: Side::Bottom,
    };
    Ok(chart)
}

} // verus!
