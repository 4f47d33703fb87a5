use debug_plotter::{Options, Plot, PlotType};
use std::ops::Range;

fn value(x: f64) -> PlotType {
    PlotType::from_bits(x.to_bits())
}

fn number(v: PlotType) -> f64 {
    f64::from_bits(v.to_bits())
}

fn point(x: f64, y: f64) -> (PlotType, PlotType) {
    (value(x), value(y))
}

fn settled(caption: &str) -> Options {
    let mut options = Options::default();
    options.caption = Some(String::from(caption));
    options.path = Some(format!("plots/{}.png", caption));
    options
}

fn series(plot: &Plot, index: usize) -> Vec<(f64, f64)> {
    plot.values()[index].iter().map(|p| (number(p.0), number(p.1))).collect()
}

fn range(r: &Range<PlotType>) -> (f64, f64) {
    (number(r.start), number(r.end))
}

#[test]
fn new_record_is_empty() {
    let plot = Plot::new(["a", "b", "c"], settled("fresh"));
    assert_eq!(plot.iteration(), 0);
    assert_eq!(plot.names(), &vec!["a", "b", "c"]);
    assert_eq!(plot.values().len(), 3);
    for index in 0..3 {
        assert!(plot.values()[index].is_empty());
    }
    assert_eq!(plot.caption(), "fresh");
    assert_eq!(plot.path(), "plots/fresh.png");
    assert_eq!(plot.size(), (640, 480));
}

#[test]
fn record_without_series() {
    let names: [&'static str; 0] = [];
    let mut plot = Plot::new(names, settled("none"));
    plot.insert([]);
    assert_eq!(plot.iteration(), 1);
    let chart = plot.plot();
    assert!(chart.series.is_empty());
}

#[test]
fn insert_appends_to_each_series_in_order() {
    let mut plot = Plot::new(["a", "b"], settled("two"));
    plot.insert([point(0.0, 1.0), point(0.0, -1.0)]);
    plot.insert([point(1.0, 2.0), point(1.0, -2.0)]);
    assert_eq!(series(&plot, 0), vec![(0.0, 1.0), (1.0, 2.0)]);
    assert_eq!(series(&plot, 1), vec![(0.0, -1.0), (1.0, -2.0)]);
}

#[test]
fn iteration_counts_calls_not_values() {
    let mut one = Plot::new(["a"], settled("one"));
    let mut three = Plot::new(["a", "b", "c"], settled("three"));
    for k in 0..7u64 {
        assert_eq!(one.iteration(), k);
        assert_eq!(three.iteration(), k);
        one.insert([point(k as f64, 0.0)]);
        three.insert([point(k as f64, 0.0), point(k as f64, 1.0), point(k as f64, 2.0)]);
    }
    assert_eq!(one.iteration(), 7);
    assert_eq!(three.iteration(), 7);
}

#[test]
fn window_round_trip() {
    let mut options = settled("window");
    options.values = Some(3);
    let mut plot = Plot::new(["y"], options);
    for y in [1.0, 2.0, 3.0, 4.0, 5.0] {
        let x = number(PlotType::from_u64(plot.iteration()));
        plot.insert([point(x, y)]);
    }
    assert_eq!(series(&plot, 0), vec![(2.0, 3.0), (3.0, 4.0), (4.0, 5.0)]);
    assert_eq!(number(plot.y_min()), 3.0);
    assert_eq!(number(plot.y_max()), 5.0);
    assert_eq!(number(plot.x_min()), 2.0);
    assert_eq!(number(plot.x_max()), 4.0);
    assert_eq!(plot.iteration(), 5);
}

#[test]
fn window_bounds_every_series() {
    let mut options = settled("window");
    options.values = Some(2);
    let mut plot = Plot::new(["a", "b"], options);
    for k in 0..5 {
        plot.insert([point(k as f64, 1.0), point(k as f64, 2.0)]);
    }
    assert_eq!(series(&plot, 0), vec![(3.0, 1.0), (4.0, 1.0)]);
    assert_eq!(series(&plot, 1), vec![(3.0, 2.0), (4.0, 2.0)]);
}

#[test]
fn extremes_span_all_series() {
    let mut plot = Plot::new(["a", "b"], settled("span"));
    plot.insert([point(0.0, 5.0), point(10.0, -3.0)]);
    plot.insert([point(-4.0, 6.0), point(2.0, 20.0)]);
    assert_eq!(number(plot.x_min()), -4.0);
    assert_eq!(number(plot.x_max()), 10.0);
    assert_eq!(number(plot.y_min()), -3.0);
    assert_eq!(number(plot.y_max()), 20.0);
}

#[test]
fn extremes_of_an_empty_record_are_the_starting_points() {
    let plot = Plot::new(["a"], settled("empty"));
    assert_eq!(number(plot.x_min()), f64::MAX);
    assert_eq!(number(plot.x_max()), f64::MIN);
    assert_eq!(number(plot.y_min()), f64::MAX);
    assert_eq!(number(plot.y_max()), f64::MIN);
}

#[test]
fn extremes_pass_over_nan() {
    let mut plot = Plot::new(["a"], settled("nan"));
    plot.insert([point(f64::NAN, 1.0)]);
    plot.insert([point(2.0, f64::NAN)]);
    assert_eq!(number(plot.x_min()), 2.0);
    assert_eq!(number(plot.x_max()), 2.0);
    assert_eq!(number(plot.y_min()), 1.0);
    assert_eq!(number(plot.y_max()), 1.0);
}

#[test]
fn axis_ranges_are_derived_when_unset() {
    let mut plot = Plot::new(["a", "b"], settled("derived"));
    plot.insert([point(1.0, 5.0), point(3.0, -3.0)]);
    let (x, y) = plot.axis_ranges();
    assert_eq!(range(&x), (1.0, 3.0));
    assert_eq!(range(&y), (-3.0, 5.0));
}

#[test]
fn axis_ranges_keep_the_override() {
    let mut options = settled("override");
    options.x_range = Some(value(0.0)..value(500.0));
    let mut plot = Plot::new(["a"], options);
    let (x, _) = plot.axis_ranges();
    assert_eq!(range(&x), (0.0, 500.0));
    plot.insert([point(-1000.0, 7.0)]);
    plot.insert([point(1000.0, 9.0)]);
    let (x, y) = plot.axis_ranges();
    assert_eq!(range(&x), (0.0, 500.0));
    assert_eq!(range(&y), (7.0, 9.0));
}

#[test]
fn chart_carries_names_colours_and_points() {
    let mut options = settled("chart");
    options.x_desc = Some(String::from("time"));
    let mut plot = Plot::new(["a", "b"], options);
    plot.insert([point(0.0, 1.0), point(0.0, 2.0)]);
    plot.insert([point(1.0, 3.0), point(1.0, 4.0)]);
    let chart = plot.plot();
    assert_eq!(chart.caption, "chart");
    assert_eq!(chart.x_desc.as_deref(), Some("time"));
    assert!(chart.y_desc.is_none());
    assert_eq!(range(&chart.x_range), (0.0, 1.0));
    assert_eq!(range(&chart.y_range), (1.0, 4.0));
    assert_eq!(chart.series.len(), 2);
    assert_eq!(chart.series[0].name, "a");
    assert_eq!(chart.series[1].name, "b");
    assert_eq!((chart.series[0].color.hue_index, chart.series[0].color.hue_count), (0, 2));
    assert_eq!((chart.series[1].color.hue_index, chart.series[1].color.hue_count), (1, 2));
    let points: Vec<(f64, f64)> =
        chart.series[1].points.iter().map(|p| (number(p.0), number(p.1))).collect();
    assert_eq!(points, vec![(0.0, 2.0), (1.0, 4.0)]);
}

#[test]
fn chart_is_the_same_when_composed_again() {
    let mut plot = Plot::new(["a", "b", "c"], settled("again"));
    plot.insert([point(0.0, 1.0), point(0.0, 2.0), point(0.0, 3.0)]);
    let first = plot.plot();
    let second = plot.plot();
    for index in 0..3 {
        assert_eq!(first.series[index].color.hue_index, second.series[index].color.hue_index);
        assert_eq!(first.series[index].color.hue_count, second.series[index].color.hue_count);
    }
}

#[test]
fn empty_record_gives_a_chart_with_empty_series() {
    let plot = Plot::new(["a", "b"], settled("empty"));
    let render = plot.plot_to_file();
    assert_eq!(render.path, "plots/empty.png");
    assert_eq!(render.size, (640, 480));
    assert_eq!(render.chart.caption, "empty");
    assert_eq!(render.chart.series.len(), 2);
    assert!(render.chart.series[0].points.is_empty());
    assert!(render.chart.series[1].points.is_empty());
    assert_eq!(range(&render.chart.x_range), (f64::MAX, f64::MIN));
    assert_eq!(range(&render.chart.y_range), (f64::MAX, f64::MIN));
}

#[test]
fn series_with_one_sample() {
    let mut plot = Plot::new(["a"], settled("single"));
    plot.insert([point(2.0, 3.0)]);
    let chart = plot.plot();
    assert_eq!(chart.series[0].points.len(), 1);
    assert_eq!(range(&chart.x_range), (2.0, 2.0));
    assert_eq!(range(&chart.y_range), (3.0, 3.0));
}

#[test]
fn plot_to_file_uses_the_configured_size_and_path() {
    let mut options = settled("sized");
    options.size = Some((400, 300));
    options.path = Some(String::from("plots/Options.jpg"));
    let plot = Plot::new(["a"], options);
    let render = plot.plot_to_file();
    assert_eq!(render.size, (400, 300));
    assert_eq!(render.path, "plots/Options.jpg");
    assert_eq!(plot.size(), (400, 300));
    assert_eq!(plot.options().size, Some((400, 300)));
}
