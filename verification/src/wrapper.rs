//! A record together with the way it is shown: live in a window, or once in
//! an image file.

use vstd::prelude::*;
use crate::chart::{Chart, ChartView, FileRender, FileRenderView};
use crate::location::{Location, LocationView};
use crate::options::{Options, OptionsView};
use crate::plot::{names_of, Plot, PlotView};
use crate::value::{PlotType, Point};

verus! {

/// How often a live window is redrawn at most, in frames per second.
pub const LIVE_MAX_FPS: u64 = 30;

/// What a call site hands over for one series at one invocation.
#[derive(Clone, Copy, Debug)]
pub enum Sample {
    /// A bare value: it is plotted over the count of insertions so far.
    Value(PlotType),
    /// An explicit pair of x and y.
    Pair(PlotType, PlotType),
}

/// The point that a sample stands for when `x` is the count of insertions so
/// far.
pub open spec fn point_of(sample: Sample, x: PlotType) -> Point {
    match sample {
        Sample::Value(y) => (x, y),
        Sample::Pair(given, y) => (given, y),
    }
}

/// The points that the samples of one invocation stand for.
pub open spec fn points_of(samples: Seq<Sample>, x: PlotType) -> Seq<Point> {
    Seq::new(samples.len(), |i: int| point_of(samples[i], x))
}

/// Settles the x of each sample: a bare value gets `x`, a pair keeps its own.
pub fn to_points<const N: usize>(samples: &[Sample; N], x: PlotType) -> (r: [Point; N])
    ensures
        r@ == points_of(samples@, x),
{
    let mut points: [Point; N] = [(x, x);N];
    for i in 0..N
        invariant
            forall|j: int| 0 <= j < i ==> points@[j] == point_of(samples@[j], x),
    {
        let point: Point = match samples[i] {
            Sample::Value(y) => (x, y),
            Sample::Pair(given, y) => (given, y),
        };
        points[i] = point;
    }
    points
}

/// The window in which a live record is shown.
pub struct LiveWindow {
    pub title: String,
    /// Width and height, in pixels.
    pub size: (u32, u32),
    /// The cap on redraws, in frames per second.
    pub max_fps: u64,
}

/// The window of a live record, as plain values.
pub struct LiveWindowView {
    pub title: Seq<char>,
    pub size: (u32, u32),
    pub max_fps: u64,
}

impl View for LiveWindow {
    type V = LiveWindowView;

    open spec fn view(&self) -> LiveWindowView {
        LiveWindowView { title: self.title@, size: self.size, max_fps: self.max_fps }
    }
}

/// A record and whether it is shown live.
pub struct PlotWrapper {
    plot: Plot,
    live: bool,
}

/// A record and whether it is shown live, as plain values.
pub struct PlotWrapperView {
    pub plot: PlotView,
    pub live: bool,
}

impl PlotWrapperView {
    /// The record of a call site at its first invocation: caption and path
    /// are settled, every series is empty, nothing was counted.
    pub open spec fn new(names: Seq<Seq<char>>, location: LocationView, options: OptionsView) -> PlotWrapperView {
        PlotWrapperView {
            plot: PlotView::new(names, options.resolved(location.text())),
            live: options.is_live(),
        }
    }

    /// The record after one insertion.
    pub open spec fn insert(self, values: Seq<Point>) -> PlotWrapperView {
        PlotWrapperView { plot: self.plot.insert(values), ..self }
    }

    /// The record after the samples of one invocation were recorded: a bare
    /// value is plotted over the count of insertions before this one.
    pub open spec fn record(self, samples: Seq<Sample>) -> PlotWrapperView {
        self.insert(points_of(samples, PlotType::of_u64(self.plot.iteration as u64)))
    }

    /// The frame to draw in the window: the chart of a live record, nothing
    /// for any other.
    pub open spec fn frame(self) -> Option<ChartView> {
        if self.live {
            Some(self.plot.chart())
        } else {
            None
        }
    }

    /// The image to write when the registry is torn down: the chart of a
    /// record that is not live, nothing for a live one.
    pub open spec fn file_render(self) -> Option<FileRenderView> {
        if self.live {
            None
        } else {
            Some(self.plot.file_render())
        }
    }

    /// The window of a live record: its title is the caption, its size the
    /// configured size or 640 by 480.
    pub open spec fn window(self) -> Option<LiveWindowView> {
        if self.live {
            Some(
                LiveWindowView {
                    title: self.plot.options.caption.unwrap(),
                    size: self.plot.options.size_or_default(),
                    max_fps: LIVE_MAX_FPS,
                },
            )
        } else {
            None
        }
    }
}

impl View for PlotWrapper {
    type V = PlotWrapperView;

    closed spec fn view(&self) -> PlotWrapperView {
        PlotWrapperView { plot: self.plot@, live: self.live }
    }
}

impl PlotWrapper {
    /// Makes the record of a call site. The caption falls back on the text of
    /// the location, the path on the default path for the caption; the record
    /// is live only where the configuration says so.
    pub fn new<const N: usize>(names: [&'static str; N], location: Location, options: Options) -> (r:
        PlotWrapper)
        ensures
            r@ == PlotWrapperView::new(names_of(names@), location@, options@),
    {
        let live = match options.live {
            Some(live) => live,
            None => false,
        };
        let options = options.resolve(location.to_string());
        PlotWrapper { live, plot: Plot::new(names, options) }
    }

    /// How many times samples were inserted.
    pub fn iteration(&self) -> (r: u64)
        ensures
            r == self@.plot.iteration,
    {
        self.plot.iteration()
    }

    /// Whether the record is shown live.
    pub fn is_live(&self) -> (r: bool)
        ensures
            r == self@.live,
    {
        self.live
    }

    /// The record itself.
    pub fn plot(&self) -> (r: &Plot)
        ensures
            r@ == self@.plot,
    {
        &self.plot
    }

    /// The window that a live record is to be shown in.
    pub fn window(&self) -> (r: Option<LiveWindow>)
        ensures
            r is Some <==> self@.live,
            r matches Some(window) ==> Some(window@) == self@.window(),
    {
        if self.live {
            Some(
                LiveWindow {
                    title: String::from_str(self.plot.caption()),
                    size: self.plot.size(),
                    max_fps: LIVE_MAX_FPS,
                },
            )
        } else {
            None
        }
    }

    /// The frame to draw in the window of a live record.
    pub fn plot_to_window(&self) -> (r: Option<Chart>)
        ensures
            r is Some <==> self@.live,
            r matches Some(chart) ==> Some(chart@) == self@.frame(),
    {
        if self.live {
            Some(self.plot.plot())
        } else {
            None
        }
    }

    /// The image to write for a record that is not live.
    pub fn plot_to_file(&self) -> (r: Option<FileRender>)
        ensures
            r is Some <==> !self@.live,
            r matches Some(render) ==> Some(render@) == self@.file_render(),
    {
        if !self.live {
            Some(self.plot.plot_to_file())
        } else {
            None
        }
    }

    /// Inserts one sample into each series and hands back the frame to draw
    /// if the record is live.
    pub fn insert<const N: usize>(&mut self, values: [Point; N]) -> (r: Option<Chart>)
        requires
            N == old(self)@.plot.names.len(),
            old(self)@.plot.iteration < u64::MAX,
        ensures
            final(self)@ == old(self)@.insert(values@),
            r is Some <==> old(self)@.live,
            r matches Some(chart) ==> Some(chart@) == final(self)@.frame(),
    {
        self.plot.insert(values);
        self.plot_to_window()
    }

    /// Records the samples of one invocation and hands back the frame to draw
    /// if the record is live. A bare value is plotted over the count of
    /// insertions before this one.
    pub fn record<const N: usize>(&mut self, samples: [Sample; N]) -> (r: Option<Chart>)
        requires
            N == old(self)@.plot.names.len(),
            old(self)@.plot.iteration < u64::MAX,
        ensures
            final(self)@ == old(self)@.record(samples@),
            r is Some <==> old(self)@.live,
            r matches Some(chart) ==> Some(chart@) == final(self)@.frame(),
    {
        let x = PlotType::from_u64(self.iteration());
        let points = to_points(&samples, x);
        self.insert(points)
    }
}

} // verus!
