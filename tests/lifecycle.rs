use experiment::{
    begin_plot, begin_save, data_file, image_file, make_path, params_file, run_dir, Axes, Experiment,
    ExperimentError, Outcome, Page, Run, Series, Step,
};

struct Decay {
    rate: f64,
}

impl Experiment<f64> for Decay {
    fn render_pages(&self) -> Vec<Page<f64>> {
        let x = vec![0.0, 1.0, 2.0];
        let y: Vec<f64> = x.iter().map(|t| (-self.rate * t).exp()).collect();
        let s = Series::line(x, y).unwrap().with_legend("train".to_string());
        let axes = Axes::new("epoch".to_string(), "loss".to_string(), 800, 600);
        vec![
            Page::new("loss".to_string(), axes).add(s),
            Page::new("empty".to_string(), Axes::new("a".to_string(), "b".to_string(), 10, 10)),
        ]
    }

    fn print_params(&self) -> String {
        format!("rate = {}", self.rate)
    }
}

fn drain(run: &mut Run) -> Vec<Step> {
    let mut seen = Vec::new();
    while let Some(step) = run.current() {
        seen.push(step);
        run.record(Outcome::Done);
    }
    seen
}

#[test]
fn save_plan_for_new_directory() {
    let (mut run, pages, params) = begin_save(&Decay { rate: 0.5 }, "/tmp/run1");
    assert_eq!(params, "rate = 0.5");
    assert_eq!(pages.len(), 2);
    let seen = drain(&mut run);
    assert_eq!(
        seen,
        vec![
            Step::CreateDir { path: "/tmp/run1".to_string() },
            Step::WriteParams { path: "/tmp/run1/params.txt".to_string() },
            Step::EncodeData,
            Step::WriteData { path: "/tmp/run1/data.cbor".to_string() },
            Step::RenderPage { index: 0, name: "loss".to_string(), path: "/tmp/run1/loss.svg".to_string() },
            Step::RenderPage { index: 1, name: "empty".to_string(), path: "/tmp/run1/empty.svg".to_string() },
        ]
    );
    assert_eq!(run.into_result(), Ok(()));
}

#[test]
fn load_of_missing_path_is_not_found() {
    let mut run = Run::load("/no/such/dir/data.cbor");
    assert_eq!(run.current(), Some(Step::ReadData { path: "/no/such/dir/data.cbor".to_string() }));
    run.record(Outcome::Missing);
    assert!(!run.is_pending());
    assert_eq!(run.current(), None);
    assert_eq!(run.into_result(), Err(ExperimentError::NotFound));
}

#[test]
fn decode_failure_is_serialization_error() {
    let mut run = Run::load("d/data.cbor");
    run.record(Outcome::Done);
    assert_eq!(run.current(), Some(Step::DecodeData));
    run.record(Outcome::Failed { cause: "bad tag".to_string() });
    assert_eq!(
        run.into_result(),
        Err(ExperimentError::SerializationError { cause: "bad tag".to_string() })
    );
}

#[test]
fn read_failure_is_io_error() {
    let mut run = Run::load("d/data.cbor");
    run.record(Outcome::Failed { cause: "denied".to_string() });
    assert_eq!(run.into_result(), Err(ExperimentError::IoError { cause: "denied".to_string() }));
}

#[test]
fn failed_page_stops_later_pages() {
    let (mut run, _pages) = begin_plot(&Decay { rate: 1.0 }, "out");
    assert_eq!(run.steps().len(), 2);
    run.record(Outcome::Failed { cause: "engine".to_string() });
    assert_eq!(run.current(), None);
    assert_eq!(
        run.into_result(),
        Err(ExperimentError::RenderFailed { page_name: "loss".to_string(), cause: "engine".to_string() })
    );
}

#[test]
fn write_failure_stops_save() {
    let (mut run, _pages, _params) = begin_save(&Decay { rate: 1.0 }, "out");
    run.record(Outcome::Done);
    run.record(Outcome::Done);
    run.record(Outcome::Failed { cause: "full".to_string() });
    assert_eq!(run.current(), None);
    assert_eq!(run.into_result(), Err(ExperimentError::SerializationError { cause: "full".to_string() }));
}

#[test]
fn replot_reads_saved_data_and_renders_only_images() {
    let mut load = Run::replot("runs/a");
    assert_eq!(drain(&mut load), vec![Step::ReadData { path: "runs/a/data.cbor".to_string() }, Step::DecodeData]);
    let (save, _, _) = begin_save(&Decay { rate: 2.0 }, "runs/a");
    let (plot, _) = begin_plot(&Decay { rate: 2.0 }, "runs/a");
    assert_eq!(&save.steps()[4..], &plot.steps()[..]);
    assert_eq!(save.steps()[3], Step::WriteData { path: "runs/a/data.cbor".to_string() });
    for step in plot.steps() {
        assert!(matches!(step, Step::RenderPage { .. }));
    }
}

#[test]
fn file_names() {
    assert_eq!(params_file("r"), "r/params.txt");
    assert_eq!(data_file("r"), "r/data.cbor");
    assert_eq!(image_file("r", "loss"), "r/loss.svg");
}

#[test]
fn run_dir_layout() {
    assert_eq!(run_dir("mnist", "2024.01.02-03h04"), "data/mnist/2024.01.02-03h04");
}

#[test]
fn make_path_is_stamped() {
    let p = make_path("mnist");
    assert!(p.starts_with("data/mnist/"));
    let stamp = &p["data/mnist/".len()..];
    assert_eq!(stamp.len(), "2024.01.02-03h04".len());
    assert_eq!(&stamp[4..5], ".");
    assert_eq!(&stamp[13..14], "h");
}
