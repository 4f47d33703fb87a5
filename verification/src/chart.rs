//! What is drawn: a chart as plain data, ready for a renderer.

use vstd::prelude::*;
use std::ops::Range;
use crate::value::{PlotType, Point};

verus! {

/// The size of the caption's font.
pub const CAPTION_FONT_SIZE: u32 = 30;

/// The margin around the chart, in pixels.
pub const MARGIN: u32 = 30;

/// The height of the area that holds the labels of the x axis, in pixels.
pub const X_LABEL_AREA_SIZE: u32 = 30;

/// The width of the area that holds the labels of the y axis, in pixels.
pub const Y_LABEL_AREA_SIZE: u32 = 60;

/// The length of the line that stands for a series in the legend, in pixels.
pub const LEGEND_LINE_LENGTH: i32 = 20;

/// How opaque the legend's background is, in percent.
pub const LEGEND_OPACITY_PERCENT: u32 = 80;

/// The saturation of every series colour, in percent.
pub const SATURATION_PERCENT: u32 = 100;

/// The lightness of every series colour, in percent.
pub const LIGHTNESS_PERCENT: u32 = 50;

/// A colour by hue, saturation and lightness. The hue is the fraction
/// `hue_index / hue_count` of the colour wheel.
#[derive(Clone, Copy, Debug)]
pub struct HslColor {
    pub hue_index: usize,
    pub hue_count: usize,
    pub saturation_percent: u32,
    pub lightness_percent: u32,
}

impl HslColor {
    /// Whether two colours are the same colour: their hues are the same
    /// fraction, and saturation and lightness agree.
    pub open spec fn same_as(self, other: HslColor) -> bool {
        &&& self.hue_index * other.hue_count == other.hue_index * self.hue_count
        &&& self.saturation_percent == other.saturation_percent
        &&& self.lightness_percent == other.lightness_percent
    }
}

/// The colour of the series at `index` among `total` series: the hues are
/// spread evenly over the colour wheel.
pub open spec fn series_color(index: usize, total: usize) -> HslColor {
    HslColor {
        hue_index: index,
        hue_count: total,
        saturation_percent: SATURATION_PERCENT,
        lightness_percent: LIGHTNESS_PERCENT,
    }
}

/// The colour of the series at `index` among `total` series. The colour
/// depends on nothing but the two numbers.
pub fn color_for(index: usize, total: usize) -> (r: HslColor)
    ensures
        r == series_color(index, total),
{
    HslColor {
        hue_index: index,
        hue_count: total,
        saturation_percent: SATURATION_PERCENT,
        lightness_percent: LIGHTNESS_PERCENT,
    }
}

/// Among the series of one chart no two have the same colour.
pub proof fn lemma_series_colors_distinct(i: usize, j: usize, total: usize)
    requires
        i < total,
        j < total,
        i != j,
    ensures
        !series_color(i, total).same_as(series_color(j, total)),
{
    assert(i * total != j * total) by (nonlinear_arith)
        requires
            i != j,
            total > 0,
    ;
}

/// One series of a chart: its name in the legend, its colour and its samples
/// in the order in which they were recorded.
pub struct Series {
    pub name: &'static str,
    pub color: HslColor,
    pub points: Vec<Point>,
}

/// One series of a chart as plain values.
pub struct SeriesView {
    pub name: Seq<char>,
    pub color: HslColor,
    pub points: Seq<Point>,
}

impl View for Series {
    type V = SeriesView;

    open spec fn view(&self) -> SeriesView {
        SeriesView { name: self.name@, color: self.color, points: self.points@ }
    }
}

/// A chart: caption, axes and series.
pub struct Chart {
    pub caption: String,
    pub x_range: Range<PlotType>,
    pub y_range: Range<PlotType>,
    pub x_desc: Option<String>,
    pub y_desc: Option<String>,
    pub series: Vec<Series>,
}

/// A chart as plain values.
pub struct ChartView {
    pub caption: Seq<char>,
    pub x_range: Range<PlotType>,
    pub y_range: Range<PlotType>,
    pub x_desc: Option<Seq<char>>,
    pub y_desc: Option<Seq<char>>,
    pub series: Seq<SeriesView>,
}

impl View for Chart {
    type V = ChartView;

    open spec fn view(&self) -> ChartView {
        ChartView {
            caption: self.caption@,
            x_range: self.x_range,
            y_range: self.y_range,
            x_desc: crate::options::text_of(self.x_desc),
            y_desc: crate::options::text_of(self.y_desc),
            series: Seq::new(self.series@.len(), |i: int| self.series@[i]@),
        }
    }
}

/// A chart to be written to a file.
pub struct FileRender {
    /// Where the image is saved.
    pub path: String,
    /// The width and height of the image, in pixels.
    pub size: (u32, u32),
    pub chart: Chart,
}

/// A chart to be written to a file, as plain values.
pub struct FileRenderView {
    pub path: Seq<char>,
    pub size: (u32, u32),
    pub chart: ChartView,
}

impl View for FileRender {
    type V = FileRenderView;

    open spec fn view(&self) -> FileRenderView {
        FileRenderView { path: self.path@, size: self.size, chart: self.chart@ }
    }
}

} // verus!
