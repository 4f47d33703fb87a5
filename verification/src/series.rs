//! One series: an ordered buffer of samples, bounded by an optional window.
//!
//! The functions here say what a buffer holds after samples were appended to
//! it, and what its smallest and largest coordinates are.

use vstd::prelude::*;
use std::collections::VecDeque;
use crate::value::{PlotType, Point};

verus! {

/// One of the two coordinates of a sample.
#[derive(Clone, Copy, Debug)]
pub enum Axis {
    X,
    Y,
}

/// The coordinate of `point` along `axis`.
pub open spec fn coordinate(point: Point, axis: Axis) -> PlotType {
    match axis {
        Axis::X => point.0,
        Axis::Y => point.1,
    }
}

/// The buffer after `point` was appended under `window`: a buffer that holds
/// exactly `window` samples gives up its oldest one first.
pub open spec fn appended(buffer: Seq<Point>, point: Point, window: Option<usize>) -> Seq<Point> {
    if window == Some(buffer.len() as usize) && 0 < buffer.len() <= usize::MAX {
        buffer.drop_first().push(point)
    } else {
        buffer.push(point)
    }
}

/// The buffer after each of `points` was appended in turn.
pub open spec fn appended_all(buffer: Seq<Point>, points: Seq<Point>, window: Option<usize>) -> Seq<
    Point,
>
    decreases points.len(),
{
    if points.len() == 0 {
        buffer
    } else {
        appended(appended_all(buffer, points.drop_last(), window), points.last(), window)
    }
}

/// The latest samples of `points`: all of them without a window, at most
/// `window` of them with one.
pub open spec fn latest(points: Seq<Point>, window: Option<usize>) -> Seq<Point> {
    match window {
        Some(w) if points.len() > w => points.subrange(points.len() - w, points.len() as int),
        _ => points,
    }
}

/// The samples of all series, one series after the other.
pub open spec fn all_points(series: Seq<Seq<Point>>) -> Seq<Point>
    decreases series.len(),
{
    if series.len() == 0 {
        Seq::empty()
    } else {
        all_points(series.drop_last()) + series.last()
    }
}

/// The smallest coordinate along `axis` among `start` and `points`. A NaN
/// never replaces what was found, and of equal numbers the first one stays.
pub open spec fn minimum(points: Seq<Point>, axis: Axis, start: PlotType) -> PlotType
    decreases points.len(),
{
    if points.len() == 0 {
        start
    } else {
        let least = minimum(points.drop_last(), axis, start);
        let candidate = coordinate(points.last(), axis);
        if candidate.lt(least) {
            candidate
        } else {
            least
        }
    }
}

/// The largest coordinate along `axis` among `start` and `points`. A NaN
/// never replaces what was found, and of equal numbers the first one stays.
pub open spec fn maximum(points: Seq<Point>, axis: Axis, start: PlotType) -> PlotType
    decreases points.len(),
{
    if points.len() == 0 {
        start
    } else {
        let greatest = maximum(points.drop_last(), axis, start);
        let candidate = coordinate(points.last(), axis);
        if candidate.gt(greatest) {
            candidate
        } else {
            greatest
        }
    }
}

/// Appends `point` to `buffer`, evicting the oldest sample first when the
/// buffer holds exactly `window` samples.
pub fn append(buffer: &mut VecDeque<Point>, point: Point, window: Option<usize>)
    ensures
        final(buffer)@ == appended(old(buffer)@, point, window),
{
    broadcast use vstd::std_specs::vecdeque::group_vec_dequeue_axioms;

    if let Some(w) = window {
        if buffer.len() == w {
            let ghost before = buffer@;
            buffer.pop_front();
            assert(before.len() > 0 ==> buffer@ == before.drop_first());
        }
    }
    buffer.push_back(point);
}

/// The coordinate of `point` along `axis`.
pub fn coordinate_of(point: Point, axis: Axis) -> (r: PlotType)
    ensures
        r == coordinate(point, axis),
{
    match axis {
        Axis::X => point.0,
        Axis::Y => point.1,
    }
}

/// Carries a running minimum over the samples of `buffer`.
pub fn fold_minimum(buffer: &VecDeque<Point>, axis: Axis, start: PlotType) -> (r: PlotType)
    ensures
        r == minimum(buffer@, axis, start),
{
    broadcast use vstd::std_specs::vecdeque::group_vec_dequeue_axioms;

    let mut least = start;
    let n: usize = buffer.len();
    for j in 0..n
        invariant
            n == buffer@.len(),
            least == minimum(buffer@.take(j as int), axis, start),
    {
        assert(buffer@.take(j + 1).drop_last() == buffer@.take(j as int));
        let candidate = coordinate_of(buffer[j], axis);
        if candidate.less_than(least) {
            least = candidate;
        }
    }
    assert(buffer@.take(n as int) == buffer@);
    least
}

/// Carries a running maximum over the samples of `buffer`.
pub fn fold_maximum(buffer: &VecDeque<Point>, axis: Axis, start: PlotType) -> (r: PlotType)
    ensures
        r == maximum(buffer@, axis, start),
{
    broadcast use vstd::std_specs::vecdeque::group_vec_dequeue_axioms;

    let mut greatest = start;
    let n: usize = buffer.len();
    for j in 0..n
        invariant
            n == buffer@.len(),
            greatest == maximum(buffer@.take(j as int), axis, start),
    {
        assert(buffer@.take(j + 1).drop_last() == buffer@.take(j as int));
        let candidate = coordinate_of(buffer[j], axis);
        if candidate.greater_than(greatest) {
            greatest = candidate;
        }
    }
    assert(buffer@.take(n as int) == buffer@);
    greatest
}

/// A minimum over two runs of samples is the minimum over the second run
/// that starts from the minimum over the first.
pub proof fn lemma_minimum_concat(a: Seq<Point>, b: Seq<Point>, axis: Axis, start: PlotType)
    ensures
        minimum(a + b, axis, start) == minimum(b, axis, minimum(a, axis, start)),
    decreases b.len(),
{
    if b.len() == 0 {
        assert(a + b == a);
    } else {
        assert((a + b).drop_last() == a + b.drop_last());
        lemma_minimum_concat(a, b.drop_last(), axis, start);
    }
}

/// A maximum over two runs of samples is the maximum over the second run
/// that starts from the maximum over the first.
pub proof fn lemma_maximum_concat(a: Seq<Point>, b: Seq<Point>, axis: Axis, start: PlotType)
    ensures
        maximum(a + b, axis, start) == maximum(b, axis, maximum(a, axis, start)),
    decreases b.len(),
{
    if b.len() == 0 {
        assert(a + b == a);
    } else {
        assert((a + b).drop_last() == a + b.drop_last());
        lemma_maximum_concat(a, b.drop_last(), axis, start);
    }
}

/// The minimum is a true minimum: it is a number, none of the numbers among
/// `points` is smaller, and it is `start` or one of their coordinates.
pub proof fn lemma_minimum_is_least(points: Seq<Point>, axis: Axis, start: PlotType)
    requires
        !start.nan(),
    ensures
        !minimum(points, axis, start).nan(),
        minimum(points, axis, start).key() <= start.key(),
        forall|i: int|
            0 <= i < points.len() && !coordinate(#[trigger] points[i], axis).nan() ==> minimum(
                points,
                axis,
                start,
            ).key() <= coordinate(points[i], axis).key(),
        minimum(points, axis, start) == start || exists|i: int|
            0 <= i < points.len() && minimum(points, axis, start) == coordinate(
                #[trigger] points[i],
                axis,
            ),
    decreases points.len(),
{
    if points.len() > 0 {
        let before = points.drop_last();
        lemma_minimum_is_least(before, axis, start);
        let least = minimum(before, axis, start);
        assert forall|i: int|
            0 <= i < points.len() && !coordinate(#[trigger] points[i], axis).nan() implies minimum(
            points,
            axis,
            start,
        ).key() <= coordinate(points[i], axis).key() by {
            if i < before.len() {
                assert(points[i] == before[i]);
            }
        }
        if minimum(points, axis, start) != start {
            if coordinate(points.last(), axis).lt(least) {
                assert(minimum(points, axis, start) == coordinate(
                    points[points.len() - 1],
                    axis,
                ));
            } else {
                let i = choose|i: int|
                    0 <= i < before.len() && least == coordinate(#[trigger] before[i], axis);
                assert(points[i] == before[i]);
            }
        }
    }
}

/// The maximum is a true maximum: it is a number, none of the numbers among
/// `points` is larger, and it is `start` or one of their coordinates.
pub proof fn lemma_maximum_is_greatest(points: Seq<Point>, axis: Axis, start: PlotType)
    requires
        !start.nan(),
    ensures
        !maximum(points, axis, start).nan(),
        maximum(points, axis, start).key() >= start.key(),
        forall|i: int|
            0 <= i < points.len() && !coordinate(#[trigger] points[i], axis).nan() ==> maximum(
                points,
                axis,
                start,
            ).key() >= coordinate(points[i], axis).key(),
        maximum(points, axis, start) == start || exists|i: int|
            0 <= i < points.len() && maximum(points, axis, start) == coordinate(
                #[trigger] points[i],
                axis,
            ),
    decreases points.len(),
{
    if points.len() > 0 {
        let before = points.drop_last();
        lemma_maximum_is_greatest(before, axis, start);
        let greatest = maximum(before, axis, start);
        assert forall|i: int|
            0 <= i < points.len() && !coordinate(#[trigger] points[i], axis).nan() implies maximum(
            points,
            axis,
            start,
        ).key() >= coordinate(points[i], axis).key() by {
            if i < before.len() {
                assert(points[i] == before[i]);
            }
        }
        if maximum(points, axis, start) != start {
            if coordinate(points.last(), axis).gt(greatest) {
                assert(maximum(points, axis, start) == coordinate(
                    points[points.len() - 1],
                    axis,
                ));
            } else {
                let i = choose|i: int|
                    0 <= i < before.len() && greatest == coordinate(#[trigger] before[i], axis);
                assert(points[i] == before[i]);
            }
        }
    }
}

/// Every sample of every series is among the samples of all series.
pub proof fn lemma_all_points_holds(series: Seq<Seq<Point>>, i: int, j: int)
    requires
        0 <= i < series.len(),
        0 <= j < series[i].len(),
    ensures
        exists|k: int|
            0 <= k < all_points(series).len() && #[trigger] all_points(series)[k] == series[i][j],
    decreases series.len(),
{
    let before = all_points(series.drop_last());
    if i == series.len() - 1 {
        assert(all_points(series)[before.len() + j] == series[i][j]);
    } else {
        lemma_all_points_holds(series.drop_last(), i, j);
        let k = choose|k: int|
            0 <= k < before.len() && #[trigger] before[k] == series.drop_last()[i][j];
        assert(all_points(series)[k] == series[i][j]);
    }
}

/// Each of the samples of all series is a sample of one of them.
pub proof fn lemma_all_points_came_from(series: Seq<Seq<Point>>, k: int)
    requires
        0 <= k < all_points(series).len(),
    ensures
        exists|i: int, j: int|
            0 <= i < series.len() && 0 <= j < series[i].len() && all_points(series)[k]
                == #[trigger] series[i][j],
    decreases series.len(),
{
    let before = all_points(series.drop_last());
    if k < before.len() {
        lemma_all_points_came_from(series.drop_last(), k);
        let (i, j) = choose|i: int, j: int|
            0 <= i < series.drop_last().len() && 0 <= j < series.drop_last()[i].len() && before[k]
                == #[trigger] series.drop_last()[i][j];
        assert(all_points(series)[k] == series[i][j]);
    } else {
        let i = series.len() - 1;
        let j = k - before.len();
        assert(all_points(series)[k] == series[i][j]);
    }
}

/// The window keeps the latest samples: after any run of insertions into an
/// empty buffer, the buffer holds the last `min(n, window)` of the `n` samples
/// inserted, in the order in which they came; without a window it holds all.
/// A window of zero bounds nothing and is left out.
pub proof fn lemma_window_keeps_latest(points: Seq<Point>, window: Option<usize>)
    requires
        window != Some(0usize),
    ensures
        appended_all(Seq::empty(), points, window) == latest(points, window),
        window is None ==> latest(points, window).len() == points.len(),
        window matches Some(w) ==> latest(points, window).len() == if points.len() <= w {
            points.len()
        } else {
            w as nat
        },
    decreases points.len(),
{
    if points.len() > 0 {
        let before = points.drop_last();
        lemma_window_keeps_latest(before, window);
        assert(appended(latest(before, window), points.last(), window) =~= latest(points, window));
    }
}

} // verus!
