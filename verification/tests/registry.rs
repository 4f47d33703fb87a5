use debug_plotter::{Location, Options, PlotType, Plots, Sample};

fn value(x: f64) -> PlotType {
    PlotType::from_bits(x.to_bits())
}

fn number(v: PlotType) -> f64 {
    f64::from_bits(v.to_bits())
}

fn site(line: u32) -> Location {
    Location { file: "src/main.rs", line, column: 5 }
}

fn live() -> Options {
    let mut options = Options::default();
    options.live = Some(true);
    options
}

fn captioned(caption: &str) -> Options {
    let mut options = Options::default();
    options.caption = Some(String::from(caption));
    options
}

#[test]
fn new_registry_is_empty() {
    let plots = Plots::new();
    assert_eq!(plots.len(), 0);
    assert!(!plots.is_flushed());
    assert!(plots.find(&site(1)).is_none());
    assert!(plots.get(&site(1)).is_none());
}

#[test]
fn first_invocation_makes_the_record() {
    let mut plots = Plots::new();
    plots.plot(site(1), ["a"], Options::default(), [Sample::Value(value(5.0))]);
    assert_eq!(plots.len(), 1);
    let record = plots.get(&site(1)).unwrap();
    assert_eq!(record.iteration(), 1);
    assert_eq!(record.plot().caption(), "src/main.rs:1:5");
}

#[test]
fn later_invocations_reuse_the_record_and_its_options() {
    let mut plots = Plots::new();
    plots.plot(site(1), ["a"], captioned("first"), [Sample::Value(value(5.0))]);
    plots.plot(site(1), ["renamed"], captioned("second"), [Sample::Value(value(6.0))]);
    assert_eq!(plots.len(), 1);
    let record = plots.get(&site(1)).unwrap();
    assert_eq!(record.iteration(), 2);
    assert_eq!(record.plot().caption(), "first");
    assert_eq!(record.plot().names(), &vec!["a"]);
    let points: Vec<(f64, f64)> =
        record.plot().values()[0].iter().map(|p| (number(p.0), number(p.1))).collect();
    assert_eq!(points, vec![(0.0, 5.0), (1.0, 6.0)]);
}

#[test]
fn call_sites_with_the_same_names_do_not_share_a_record() {
    let mut plots = Plots::new();
    plots.plot(site(1), ["a"], Options::default(), [Sample::Value(value(1.0))]);
    plots.plot(site(2), ["a"], Options::default(), [Sample::Value(value(2.0))]);
    plots.plot(site(1), ["a"], Options::default(), [Sample::Value(value(3.0))]);
    assert_eq!(plots.len(), 2);
    assert_eq!(plots.find(&site(1)), Some(0));
    assert_eq!(plots.find(&site(2)), Some(1));
    let first = plots.get(&site(1)).unwrap();
    let second = plots.get(&site(2)).unwrap();
    assert_eq!(first.iteration(), 2);
    assert_eq!(second.iteration(), 1);
    assert_eq!(number(first.plot().values()[0][1].1), 3.0);
    assert_eq!(number(second.plot().values()[0][0].1), 2.0);
}

#[test]
fn call_sites_differ_by_file_line_or_column() {
    let mut plots = Plots::new();
    let base = Location { file: "a.rs", line: 1, column: 1 };
    plots.plot(base, ["a"], Options::default(), [Sample::Value(value(1.0))]);
    plots.plot(
        Location { file: "b.rs", line: 1, column: 1 },
        ["a"],
        Options::default(),
        [Sample::Value(value(1.0))],
    );
    plots.plot(
        Location { file: "a.rs", line: 1, column: 2 },
        ["a"],
        Options::default(),
        [Sample::Value(value(1.0))],
    );
    assert_eq!(plots.len(), 3);
}

#[test]
fn get_or_create_makes_a_record_once() {
    let mut plots = Plots::new();
    assert_eq!(plots.get_or_create(site(1), ["a", "b"], Options::default()), Some(0));
    assert_eq!(plots.get_or_create(site(2), ["a"], Options::default()), Some(1));
    assert_eq!(plots.get_or_create(site(1), ["other"], captioned("late")), Some(0));
    assert_eq!(plots.len(), 2);
    let record = plots.get(&site(1)).unwrap();
    assert_eq!(record.iteration(), 0);
    assert_eq!(record.plot().names(), &vec!["a", "b"]);
    assert_eq!(record.plot().caption(), "src/main.rs:1:5");
}

#[test]
fn live_record_hands_back_a_frame() {
    let mut plots = Plots::new();
    let frame = plots.plot(site(1), ["a"], live(), [Sample::Value(value(1.0))]);
    assert_eq!(frame.unwrap().series[0].points.len(), 1);
    let frame = plots.plot(site(2), ["a"], Options::default(), [Sample::Value(value(1.0))]);
    assert!(frame.is_none());
}

#[test]
fn teardown_renders_every_record_that_is_not_live() {
    let mut plots = Plots::new();
    plots.plot(site(1), ["a"], Options::default(), [Sample::Value(value(1.0))]);
    plots.plot(site(2), ["a"], live(), [Sample::Value(value(2.0))]);
    let mut explicit = captioned("third");
    explicit.path = Some(String::from("out/third.png"));
    plots.plot(site(3), ["a"], explicit, [Sample::Value(value(3.0))]);
    let renders = plots.teardown();
    assert_eq!(renders.len(), 2);
    assert_eq!(renders[0].path, "plots/src-main.rs:1:5.png");
    assert_eq!(renders[1].path, "out/third.png");
    assert_eq!(renders[1].chart.caption, "third");
    assert!(plots.is_flushed());
}

#[test]
fn teardown_of_live_records_renders_nothing() {
    let mut plots = Plots::new();
    plots.plot(site(1), ["a"], live(), [Sample::Value(value(1.0))]);
    assert!(plots.teardown().is_empty());
}

#[test]
fn teardown_renders_a_record_without_samples() {
    let mut plots = Plots::new();
    plots.get_or_create(site(1), ["a", "b"], Options::default());
    let renders = plots.teardown();
    assert_eq!(renders.len(), 1);
    assert_eq!(renders[0].chart.series.len(), 2);
    assert!(renders[0].chart.series[0].points.is_empty());
    assert!(renders[0].chart.series[1].points.is_empty());
    assert_eq!(renders[0].size, (640, 480));
}

#[test]
fn teardown_hands_out_the_images_once() {
    let mut plots = Plots::new();
    plots.plot(site(1), ["a"], Options::default(), [Sample::Value(value(1.0))]);
    assert_eq!(plots.teardown().len(), 1);
    assert!(plots.teardown().is_empty());
    assert!(plots.teardown().is_empty());
}

#[test]
fn torn_down_registry_ignores_call_sites() {
    let mut plots = Plots::new();
    plots.plot(site(1), ["a"], Options::default(), [Sample::Value(value(1.0))]);
    plots.teardown();
    assert!(plots.plot(site(1), ["a"], live(), [Sample::Value(value(2.0))]).is_none());
    assert!(plots.plot(site(2), ["a"], live(), [Sample::Value(value(2.0))]).is_none());
    assert_eq!(plots.get_or_create(site(3), ["a"], Options::default()), None);
    assert_eq!(plots.len(), 1);
    assert_eq!(plots.get(&site(1)).unwrap().iteration(), 1);
}
