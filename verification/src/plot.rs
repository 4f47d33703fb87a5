//! The record of one call site: its series, their names, its configuration
//! and the count of its insertions.

use vstd::prelude::*;
use std::collections::VecDeque;
use std::ops::Range;
use crate::chart::{
    color_for, series_color, Chart, ChartView, FileRender, FileRenderView, Series, SeriesView,
};
use crate::options::{Options, OptionsView, DEFAULT_SIZE};
use crate::series::{
    all_points, append, appended, appended_all, coordinate, fold_maximum, fold_minimum, latest,
    lemma_all_points_came_from, lemma_all_points_holds, lemma_maximum_concat,
    lemma_maximum_is_greatest, lemma_minimum_concat, lemma_minimum_is_least,
    lemma_window_keeps_latest, maximum, minimum, Axis,
};
use crate::value::{lemma_key_determines_bits, PlotType, Point};

verus! {

/// The series of one call site.
pub struct Plot {
    values: Vec<VecDeque<Point>>,
    names: Vec<&'static str>,
    options: Options,
    iteration: u64,
}

/// What a record holds, as plain values.
pub struct PlotView {
    /// The names of the series, fixed when the record is made.
    pub names: Seq<Seq<char>>,
    /// The samples of each series, oldest first.
    pub series: Seq<Seq<Point>>,
    pub options: OptionsView,
    /// How many times samples were inserted.
    pub iteration: nat,
}

/// The characters of each of the given names.
pub open spec fn names_of(names: Seq<&'static str>) -> Seq<Seq<char>> {
    Seq::new(names.len(), |i: int| names[i]@)
}

impl PlotView {
    /// A fresh record: one empty series for each name.
    pub open spec fn new(names: Seq<Seq<char>>, options: OptionsView) -> PlotView {
        PlotView {
            names,
            series: Seq::new(names.len(), |i: int| Seq::<Point>::empty()),
            options,
            iteration: 0,
        }
    }

    /// The record after one insertion: each series received its sample under
    /// the window, and the count went up by one.
    pub open spec fn insert(self, values: Seq<Point>) -> PlotView {
        PlotView {
            series: Seq::new(
                self.series.len(),
                |i: int| appended(self.series[i], values[i], self.options.values),
            ),
            iteration: self.iteration + 1,
            ..self
        }
    }

    /// The record after each of `batches` was inserted in turn.
    pub open spec fn insert_all(self, batches: Seq<Seq<Point>>) -> PlotView
        decreases batches.len(),
    {
        if batches.len() == 0 {
            self
        } else {
            self.insert_all(batches.drop_last()).insert(batches.last())
        }
    }

    /// The smallest coordinate along `axis` of all samples, starting from the
    /// largest finite number.
    pub open spec fn least(self, axis: Axis) -> PlotType {
        minimum(all_points(self.series), axis, PlotType::max_value())
    }

    /// The largest coordinate along `axis` of all samples, starting from the
    /// smallest finite number.
    pub open spec fn greatest(self, axis: Axis) -> PlotType {
        maximum(all_points(self.series), axis, PlotType::min_value())
    }

    /// The extent of the x axis: what was configured, else from the smallest
    /// to the largest x of all samples.
    pub open spec fn x_range(self) -> Range<PlotType> {
        match self.options.x_range {
            Some(range) => range,
            None => Range { start: self.least(Axis::X), end: self.greatest(Axis::X) },
        }
    }

    /// The extent of the y axis: what was configured, else from the smallest
    /// to the largest y of all samples.
    pub open spec fn y_range(self) -> Range<PlotType> {
        match self.options.y_range {
            Some(range) => range,
            None => Range { start: self.least(Axis::Y), end: self.greatest(Axis::Y) },
        }
    }

    /// The chart of the record: each series under its name, in its colour,
    /// with its samples in the order in which they were recorded.
    pub open spec fn chart(self) -> ChartView {
        ChartView {
            caption: self.options.caption.unwrap(),
            x_range: self.x_range(),
            y_range: self.y_range(),
            x_desc: self.options.x_desc,
            y_desc: self.options.y_desc,
            series: Seq::new(
                self.names.len(),
                |i: int|
                    SeriesView {
                        name: self.names[i],
                        color: series_color(i as usize, self.names.len() as usize),
                        points: self.series[i],
                    },
            ),
        }
    }

    /// The chart of the record with the place and size of its image.
    pub open spec fn file_render(self) -> FileRenderView {
        FileRenderView {
            path: self.options.path.unwrap(),
            size: self.options.size_or_default(),
            chart: self.chart(),
        }
    }
}

/// The samples that the insertions `batches` hold for the series at `index`.
pub open spec fn column(batches: Seq<Seq<Point>>, index: int) -> Seq<Point> {
    Seq::new(batches.len(), |k: int| batches[k][index])
}

/// Insertions change neither names nor configuration nor the number of
/// series; each counts once, however many series there are; and each series
/// receives its own samples in turn.
pub proof fn lemma_insert_all(plot: PlotView, batches: Seq<Seq<Point>>)
    ensures
        plot.insert_all(batches).names == plot.names,
        plot.insert_all(batches).options == plot.options,
        plot.insert_all(batches).iteration == plot.iteration + batches.len(),
        plot.insert_all(batches).series.len() == plot.series.len(),
        forall|i: int|
            0 <= i < plot.series.len() ==> #[trigger] plot.insert_all(batches).series[i]
                == appended_all(
                plot.series[i],
                column(batches, i),
                plot.options.values,
            ),
    decreases batches.len(),
{
    if batches.len() > 0 {
        lemma_insert_all(plot, batches.drop_last());
        assert forall|i: int| 0 <= i < plot.series.len() implies #[trigger] plot.insert_all(
            batches,
        ).series[i] == appended_all(
            plot.series[i],
            column(batches, i),
            plot.options.values,
        ) by {
            assert(column(batches, i).drop_last() == column(batches.drop_last(), i));
        }
    }
}

impl PlotView {
    /// Whether no series holds more samples than the window allows. A window
    /// of zero bounds nothing.
    pub open spec fn within_window(self) -> bool {
        match self.options.values {
            Some(w) if w > 0 => forall|i: int|
                0 <= i < self.series.len() ==> (#[trigger] self.series[i]).len() <= w,
            _ => true,
        }
    }
}

/// No series ever holds more samples than the window allows: a fresh record
/// holds none, and an insertion into a record within its window leaves it
/// within its window.
pub proof fn lemma_window_bounds_every_series(
    names: Seq<Seq<char>>,
    options: OptionsView,
    plot: PlotView,
    values: Seq<Point>,
)
    requires
        plot.within_window(),
    ensures
        PlotView::new(names, options).within_window(),
        plot.insert(values).within_window(),
{
}

/// After `k` insertions into a fresh record its count is `k`, whatever the
/// number of its series.
pub proof fn lemma_iteration_counts_insertions(
    names: Seq<Seq<char>>,
    options: OptionsView,
    batches: Seq<Seq<Point>>,
)
    ensures
        PlotView::new(names, options).insert_all(batches).iteration == batches.len(),
{
    lemma_insert_all(PlotView::new(names, options), batches);
}

/// After any run of insertions into a fresh record each series holds the
/// latest of its samples: all of them without a window, the last `window` of
/// them with one, in the order in which they came. A window of zero bounds
/// nothing and is left out.
pub proof fn lemma_record_keeps_latest(
    names: Seq<Seq<char>>,
    options: OptionsView,
    batches: Seq<Seq<Point>>,
    index: int,
)
    requires
        0 <= index < names.len(),
        options.values != Some(0usize),
    ensures
        PlotView::new(names, options).insert_all(batches).series[index] == latest(
            column(batches, index),
            options.values,
        ),
        options.values is None ==> PlotView::new(names, options).insert_all(
            batches,
        ).series[index].len() == batches.len(),
        options.values matches Some(w) ==> PlotView::new(names, options).insert_all(
            batches,
        ).series[index].len() == if batches.len() <= w {
            batches.len()
        } else {
            w as nat
        },
{
    lemma_insert_all(PlotView::new(names, options), batches);
    lemma_window_keeps_latest(column(batches, index), options.values);
}

/// An axis that was configured has the configured extent, whatever the
/// samples are.
pub proof fn lemma_configured_range_is_kept(plot: PlotView)
    ensures
        plot.options.x_range matches Some(range) ==> plot.x_range() == range,
        plot.options.y_range matches Some(range) ==> plot.y_range() == range,
{
}

/// An axis that was not configured spans the samples: it starts at their
/// minimum and ends at their maximum along that axis.
pub proof fn lemma_derived_range_spans_samples(plot: PlotView)
    ensures
        plot.options.x_range is None ==> plot.x_range().start == plot.least(Axis::X)
            && plot.x_range().end == plot.greatest(Axis::X),
        plot.options.y_range is None ==> plot.y_range().start == plot.least(Axis::Y)
            && plot.y_range().end == plot.greatest(Axis::Y),
{
}

/// The minimum along an axis is the true minimum of the samples of all
/// series: no sample that is a number lies below it, and it is the coordinate
/// of a sample as soon as one sample is a number other than positive
/// infinity. NaNs are passed over.
pub proof fn lemma_least_is_true_minimum(plot: PlotView, axis: Axis)
    ensures
        !plot.least(axis).nan(),
        forall|i: int, j: int|
            0 <= i < plot.series.len() && 0 <= j < plot.series[i].len() && !coordinate(
                #[trigger] plot.series[i][j],
                axis,
            ).nan() ==> plot.least(axis).key() <= coordinate(
                plot.series[i][j],
                axis,
            ).key(),
        (exists|i: int, j: int|
            0 <= i < plot.series.len() && 0 <= j < plot.series[i].len() && !coordinate(
                #[trigger] plot.series[i][j],
                axis,
            ).nan() && coordinate(plot.series[i][j], axis).key()
                <= PlotType::max_value().key()) ==> (exists|i: int, j: int|
            0 <= i < plot.series.len() && 0 <= j < plot.series[i].len() && plot.least(axis).bits
                == coordinate(#[trigger] plot.series[i][j], axis).bits),
{
    let all = all_points(plot.series);
    let start = PlotType::max_value();
    let least = plot.least(axis);
    lemma_minimum_is_least(all, axis, start);
    assert forall|i: int, j: int|
        0 <= i < plot.series.len() && 0 <= j < plot.series[i].len() && !coordinate(
            #[trigger] plot.series[i][j],
            axis,
        ).nan() implies least.key() <= coordinate(plot.series[i][j], axis).key() by {
        lemma_all_points_holds(plot.series, i, j);
        let k = choose|k: int| 0 <= k < all.len() && #[trigger] all[k] == plot.series[i][j];
        assert(!coordinate(all[k], axis).nan());
    }
    if exists|i: int, j: int|
        0 <= i < plot.series.len() && 0 <= j < plot.series[i].len() && !coordinate(
            #[trigger] plot.series[i][j],
            axis,
        ).nan() && coordinate(plot.series[i][j], axis).key() <= start.key() {
        let (i, j) = choose|i: int, j: int|
            0 <= i < plot.series.len() && 0 <= j < plot.series[i].len()
                && !coordinate(#[trigger] plot.series[i][j], axis).nan()
                && coordinate(plot.series[i][j], axis).key() <= start.key();
        let c = coordinate(plot.series[i][j], axis);
        if least == start {
            lemma_key_determines_bits(c, start);
            assert(least.bits == coordinate(plot.series[i][j], axis).bits);
        } else {
            let k = choose|k: int|
                0 <= k < all.len() && least == coordinate(#[trigger] all[k], axis);
            lemma_all_points_came_from(plot.series, k);
            let (a, b) = choose|a: int, b: int|
                0 <= a < plot.series.len() && 0 <= b < plot.series[a].len() && all[k]
                    == #[trigger] plot.series[a][b];
            assert(least.bits == coordinate(plot.series[a][b], axis).bits);
        }
    }
}

/// The maximum along an axis is the true maximum of the samples of all
/// series: no sample that is a number lies above it, and it is the coordinate
/// of a sample as soon as one sample is a number other than negative
/// infinity. NaNs are passed over.
pub proof fn lemma_greatest_is_true_maximum(plot: PlotView, axis: Axis)
    ensures
        !plot.greatest(axis).nan(),
        forall|i: int, j: int|
            0 <= i < plot.series.len() && 0 <= j < plot.series[i].len() && !coordinate(
                #[trigger] plot.series[i][j],
                axis,
            ).nan() ==> plot.greatest(axis).key() >= coordinate(
                plot.series[i][j],
                axis,
            ).key(),
        (exists|i: int, j: int|
            0 <= i < plot.series.len() && 0 <= j < plot.series[i].len() && !coordinate(
                #[trigger] plot.series[i][j],
                axis,
            ).nan() && coordinate(plot.series[i][j], axis).key()
                >= PlotType::min_value().key()) ==> (exists|i: int, j: int|
            0 <= i < plot.series.len() && 0 <= j < plot.series[i].len() && plot.greatest(axis).bits
                == coordinate(#[trigger] plot.series[i][j], axis).bits),
{
    let all = all_points(plot.series);
    let start = PlotType::min_value();
    let greatest = plot.greatest(axis);
    lemma_maximum_is_greatest(all, axis, start);
    assert forall|i: int, j: int|
        0 <= i < plot.series.len() && 0 <= j < plot.series[i].len() && !coordinate(
            #[trigger] plot.series[i][j],
            axis,
        ).nan() implies greatest.key() >= coordinate(plot.series[i][j], axis).key() by {
        lemma_all_points_holds(plot.series, i, j);
        let k = choose|k: int| 0 <= k < all.len() && #[trigger] all[k] == plot.series[i][j];
        assert(!coordinate(all[k], axis).nan());
    }
    if exists|i: int, j: int|
        0 <= i < plot.series.len() && 0 <= j < plot.series[i].len() && !coordinate(
            #[trigger] plot.series[i][j],
            axis,
        ).nan() && coordinate(plot.series[i][j], axis).key() >= start.key() {
        let (i, j) = choose|i: int, j: int|
            0 <= i < plot.series.len() && 0 <= j < plot.series[i].len()
                && !coordinate(#[trigger] plot.series[i][j], axis).nan()
                && coordinate(plot.series[i][j], axis).key() >= start.key();
        let c = coordinate(plot.series[i][j], axis);
        if greatest == start {
            lemma_key_determines_bits(c, start);
            assert(greatest.bits == coordinate(plot.series[i][j], axis).bits);
        } else {
            let k = choose|k: int|
                0 <= k < all.len() && greatest == coordinate(
                    #[trigger] all[k],
                    axis,
                );
            lemma_all_points_came_from(plot.series, k);
            let (a, b) = choose|a: int, b: int|
                0 <= a < plot.series.len() && 0 <= b < plot.series[a].len() && all[k]
                    == #[trigger] plot.series[a][b];
            assert(greatest.bits == coordinate(plot.series[a][b], axis).bits);
        }
    }
}

/// Copies the samples of a buffer, oldest first.
fn copy_points(buffer: &VecDeque<Point>) -> (r: Vec<Point>)
    ensures
        r@ == buffer@,
{
    broadcast use vstd::std_specs::vecdeque::group_vec_dequeue_axioms;

    let mut out: Vec<Point> = Vec::new();
    let n: usize = buffer.len();
    for j in 0..n
        invariant
            n == buffer@.len(),
            out@ == buffer@.take(j as int),
    {
        out.push(buffer[j]);
    }
    out
}

/// Copies an optional text.
fn copy_text(text: &Option<String>) -> (r: Option<String>)
    ensures
        r == *text,
{
    match text {
        Some(s) => Some(s.clone()),
        None => None,
    }
}

impl View for Plot {
    type V = PlotView;

    closed spec fn view(&self) -> PlotView {
        PlotView {
            names: names_of(self.names@),
            series: Seq::new(self.values@.len(), |i: int| self.values@[i]@),
            options: self.options@,
            iteration: self.iteration as nat,
        }
    }
}

impl Plot {
    #[verifier::type_invariant]
    spec fn well_formed(self) -> bool {
        &&& self.values.len() == self.names.len()
        &&& self.options.caption is Some
        &&& self.options.path is Some
    }

    /// Makes a record with one empty series for each name. A record keeps
    /// the configuration with caption and path settled.
    pub fn new<const N: usize>(names: [&'static str; N], options: Options) -> (r: Plot)
        requires
            options@.caption is Some,
            options@.path is Some,
        ensures
            r@ == PlotView::new(names_of(names@), options@),
    {
        let mut values: Vec<VecDeque<Point>> = Vec::new();
        let mut kept: Vec<&'static str> = Vec::new();
        for i in 0..N
            invariant
                values.len() == i,
                kept.len() == i,
                forall|j: int| 0 <= j < i ==> kept@[j] == names@[j],
                forall|j: int| 0 <= j < i ==> values@[j]@ == Seq::<Point>::empty(),
        {
            values.push(VecDeque::new());
            kept.push(names[i]);
        }
        let plot = Plot { values, names: kept, options, iteration: 0 };
        assert(plot@.names == names_of(names@));
        assert(plot@.series == PlotView::new(names_of(names@), options@).series);
        plot
    }

    /// How many times samples were inserted.
    pub fn iteration(&self) -> (r: u64)
        ensures
            r == self@.iteration,
    {
        self.iteration
    }

    /// The configuration of the record, with caption and path settled.
    pub fn options(&self) -> (r: &Options)
        ensures
            r@ == self@.options,
            r@.caption is Some,
            r@.path is Some,
    {
        proof {
            use_type_invariant(self);
        }
        &self.options
    }

    /// The caption of the chart.
    pub fn caption(&self) -> (r: &str)
        ensures
            Some(r@) == self@.options.caption,
    {
        proof {
            use_type_invariant(self);
        }
        match &self.options.caption {
            Some(caption) => caption.as_str(),
            None => "",
        }
    }

    /// Where the image of the chart is saved.
    pub fn path(&self) -> (r: &str)
        ensures
            Some(r@) == self@.options.path,
    {
        proof {
            use_type_invariant(self);
        }
        match &self.options.path {
            Some(path) => path.as_str(),
            None => "",
        }
    }

    /// The size of the image of the chart: what was configured, else 640 by
    /// 480.
    pub fn size(&self) -> (r: (u32, u32))
        ensures
            r == self@.options.size_or_default(),
    {
        match self.options.size {
            Some(size) => size,
            None => DEFAULT_SIZE,
        }
    }

    /// The names of the series.
    pub fn names(&self) -> (r: &Vec<&'static str>)
        ensures
            names_of(r@) == self@.names,
    {
        &self.names
    }

    /// The samples of each series, oldest first.
    pub fn values(&self) -> (r: &Vec<VecDeque<Point>>)
        ensures
            r@.len() == self@.series.len(),
            r@.len() == self@.names.len(),
            forall|i: int| 0 <= i < r@.len() ==> r@[i]@ == self@.series[i],
    {
        proof {
            use_type_invariant(self);
        }
        &self.values
    }

    /// Inserts one sample into each series, in the order of the names, and
    /// counts the insertion. A series that holds as many samples as the window
    /// allows gives up its oldest one first.
    pub fn insert<const N: usize>(&mut self, values: [Point; N])
        requires
            N == old(self)@.names.len(),
            old(self)@.iteration < u64::MAX,
        ensures
            final(self)@ == old(self)@.insert(values@),
    {
        proof {
            use_type_invariant(&*self);
        }
        for i in 0..N
            invariant
                self.names == old(self).names,
                self.options == old(self).options,
                self.options.caption is Some,
                self.options.path is Some,
                self.iteration == old(self).iteration,
                self.values.len() == N,
                self.names.len() == N,
                old(self).values.len() == N,
                forall|j: int|
                    0 <= j < i ==> self.values@[j]@ == appended(
                        old(self).values@[j]@,
                        values@[j],
                        self.options.values,
                    ),
                forall|j: int| i <= j < N ==> self.values@[j]@ == old(self).values@[j]@,
        {
            let window = self.options.values;
            append(&mut self.values[i], values[i], window);
        }
        self.iteration += 1;
        assert(self@.series == old(self)@.insert(values@).series);
    }

    /// The smallest coordinate along `axis` of all samples.
    fn least(&self, axis: Axis) -> (r: PlotType)
        ensures
            r == self@.least(axis),
    {
        let mut least = PlotType::max();
        let n: usize = self.values.len();
        for i in 0..n
            invariant
                n == self.values.len(),
                least == minimum(all_points(self@.series.take(i as int)), axis, PlotType::max_value()),
        {
            proof {
                let before = self@.series.take(i as int);
                let with = self@.series.take(i + 1);
                assert(with.drop_last() == before);
                assert(with.last() == self.values@[i as int]@);
                lemma_minimum_concat(
                    all_points(before),
                    self.values@[i as int]@,
                    axis,
                    PlotType::max_value(),
                );
            }
            least = fold_minimum(&self.values[i], axis, least);
        }
        assert(self@.series.take(n as int) == self@.series);
        least
    }

    /// The largest coordinate along `axis` of all samples.
    fn greatest(&self, axis: Axis) -> (r: PlotType)
        ensures
            r == self@.greatest(axis),
    {
        let mut greatest = PlotType::min();
        let n: usize = self.values.len();
        for i in 0..n
            invariant
                n == self.values.len(),
                greatest == maximum(
                    all_points(self@.series.take(i as int)),
                    axis,
                    PlotType::min_value(),
                ),
        {
            proof {
                let before = self@.series.take(i as int);
                let with = self@.series.take(i + 1);
                assert(with.drop_last() == before);
                assert(with.last() == self.values@[i as int]@);
                lemma_maximum_concat(
                    all_points(before),
                    self.values@[i as int]@,
                    axis,
                    PlotType::min_value(),
                );
            }
            greatest = fold_maximum(&self.values[i], axis, greatest);
        }
        assert(self@.series.take(n as int) == self@.series);
        greatest
    }

    /// The smallest x of all samples; the largest finite number when there is
    /// none below it.
    pub fn x_min(&self) -> (r: PlotType)
        ensures
            r == self@.least(Axis::X),
    {
        self.least(Axis::X)
    }

    /// The largest x of all samples; the smallest finite number when there is
    /// none above it.
    pub fn x_max(&self) -> (r: PlotType)
        ensures
            r == self@.greatest(Axis::X),
    {
        self.greatest(Axis::X)
    }

    /// The smallest y of all samples; the largest finite number when there is
    /// none below it.
    pub fn y_min(&self) -> (r: PlotType)
        ensures
            r == self@.least(Axis::Y),
    {
        self.least(Axis::Y)
    }

    /// The largest y of all samples; the smallest finite number when there is
    /// none above it.
    pub fn y_max(&self) -> (r: PlotType)
        ensures
            r == self@.greatest(Axis::Y),
    {
        self.greatest(Axis::Y)
    }

    /// The extents of the x and of the y axis: for each what was configured,
    /// else from the smallest to the largest coordinate of all samples.
    pub fn axis_ranges(&self) -> (r: (Range<PlotType>, Range<PlotType>))
        ensures
            r.0 == self@.x_range(),
            r.1 == self@.y_range(),
    {
        let x_range = match &self.options.x_range {
            Some(range) => Range { start: range.start, end: range.end },
            None => Range { start: self.x_min(), end: self.x_max() },
        };
        let y_range = match &self.options.y_range {
            Some(range) => Range { start: range.start, end: range.end },
            None => Range { start: self.y_min(), end: self.y_max() },
        };
        (x_range, y_range)
    }

    /// Composes the chart of the record.
    pub fn plot(&self) -> (r: Chart)
        ensures
            r@ == self@.chart(),
    {
        proof {
            use_type_invariant(self);
        }
        let (x_range, y_range) = self.axis_ranges();
        let caption = String::from_str(self.caption());
        let total: usize = self.names.len();
        let mut series: Vec<Series> = Vec::new();
        for i in 0..total
            invariant
                total == self.names.len(),
                total == self.values.len(),
                series.len() == i,
                forall|j: int| 0 <= j < i ==> (#[trigger] series@[j])@ == self@.chart().series[j],
        {
            series.push(
                Series {
                    name: self.names[i],
                    color: color_for(i, total),
                    points: copy_points(&self.values[i]),
                },
            );
        }
        let chart = Chart {
            caption,
            x_range,
            y_range,
            x_desc: copy_text(&self.options.x_desc),
            y_desc: copy_text(&self.options.y_desc),
            series,
        };
        assert(chart@.series == self@.chart().series);
        chart
    }

    /// Composes the chart of the record for its image file: the path that was
    /// settled, the size that was configured or 640 by 480.
    pub fn plot_to_file(&self) -> (r: FileRender)
        ensures
            r@ == self@.file_render(),
    {
        FileRender { path: String::from_str(self.path()), size: self.size(), chart: self.plot() }
    }
}

} // verus!
