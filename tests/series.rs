use experiment::{ExperimentError, Series, Style, DEFAULT_WIDTH};

#[test]
fn series_reads_back_its_points() {
    let x = vec![0.0, 1.5, -2.0, 3.25];
    let y = vec![10.0, 11.0, 12.5, 0.0];
    let s = Series::new(x.clone(), y.clone(), Style::Line).unwrap();
    assert_eq!(s.x(), &x);
    assert_eq!(s.y(), &y);
    assert_eq!(s.len(), 4);
    assert_eq!(s.style(), Style::Line);
    assert_eq!(s.width(), DEFAULT_WIDTH);
    assert_eq!(s.color(), &None);
    assert_eq!(s.legend(), &None);
}

#[test]
fn empty_series_is_valid() {
    let s = Series::<f64>::points(vec![], vec![]).unwrap();
    assert_eq!(s.len(), 0);
    assert_eq!(s.style(), Style::Point);
}

#[test]
fn mismatched_lengths_are_invalid() {
    let r = Series::line(vec![1.0, 2.0, 3.0], vec![1.0, 2.0, 3.0, 4.0, 5.0]);
    assert!(matches!(r, Err(ExperimentError::InvalidSeries)));
    let r = Series::points(vec![1.0, 2.0, 3.0], vec![1.0, 2.0, 3.0, 4.0, 5.0]);
    assert!(matches!(r, Err(ExperimentError::InvalidSeries)));
}

#[test]
fn builders_keep_points_in_any_order() {
    let x = vec![0.0, 1.0, 2.0];
    let y = vec![1.0, 0.5, 0.25];
    let a = Series::line(x.clone(), y.clone())
        .unwrap()
        .with_legend("train".to_string())
        .with_width(2500)
        .with_color("red".to_string());
    let b = Series::line(x.clone(), y.clone())
        .unwrap()
        .with_color("red".to_string())
        .with_width(2500)
        .with_legend("train".to_string());
    for s in [&a, &b] {
        assert_eq!(s.x(), &x);
        assert_eq!(s.y(), &y);
        assert_eq!(s.width(), 2500);
        assert_eq!(s.color(), &Some("red".to_string()));
        assert_eq!(s.legend(), &Some("train".to_string()));
    }
}
