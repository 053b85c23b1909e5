use experiment::{assign_colors, palette_color, Axes, Page, Series, Style, PALETTE_LEN};

fn line(n: usize) -> Series<f64> {
    let x: Vec<f64> = (0..n).map(|i| i as f64).collect();
    let y: Vec<f64> = (0..n).map(|i| (i * i) as f64).collect();
    Series::line(x, y).unwrap()
}

#[test]
fn palette_has_seven_distinct_names() {
    let names: Vec<String> = (0..PALETTE_LEN).map(palette_color).collect();
    assert_eq!(
        names,
        vec!["olivedrab", "lightcoral", "royalblue", "peru", "darkcyan", "saddlebrown", "darkmagenta"]
    );
}

#[test]
fn three_uncolored_then_red() {
    let page = Page::new("p".to_string(), Axes::new("x".to_string(), "y".to_string(), 600, 400))
        .add(line(2))
        .add(line(2))
        .add(line(2))
        .add(line(2).with_color("red".to_string()));
    assert_eq!(page.colors(), vec!["olivedrab", "lightcoral", "royalblue", "red"]);
}

#[test]
fn explicit_color_uses_no_palette_slot() {
    let given = vec![None, Some("red".to_string()), None, Some("#00ff00".to_string()), None];
    assert_eq!(
        assign_colors(&given),
        vec!["olivedrab", "red", "lightcoral", "#00ff00", "royalblue"]
    );
}

#[test]
fn palette_cycles_after_seven() {
    let given: Vec<Option<String>> = vec![None; 9];
    let got = assign_colors(&given);
    assert_eq!(got[7], "olivedrab");
    assert_eq!(got[8], "lightcoral");
    assert_eq!(got[6], "darkmagenta");
}

#[test]
fn no_series_no_colors() {
    assert!(assign_colors(&vec![]).is_empty());
}

#[test]
fn loss_page_strokes() {
    let s = Series::line(vec![0.0, 1.0, 2.0], vec![1.0, 0.5, 0.25])
        .unwrap()
        .with_legend("train".to_string());
    let page = Page::new("loss".to_string(), Axes::new("epoch".to_string(), "loss".to_string(), 800, 600)).add(s);
    let strokes = page.strokes();
    assert_eq!(strokes.len(), 1);
    assert_eq!(strokes[0].points, vec![(0.0, 1.0), (1.0, 0.5), (2.0, 0.25)]);
    assert_eq!(strokes[0].style, Style::Line);
    assert_eq!(strokes[0].color, "olivedrab");
    let legends: Vec<&String> = strokes.iter().filter_map(|s| s.legend.as_ref()).collect();
    assert_eq!(legends, vec![&"train".to_string()]);
}

#[test]
fn axes_ranges_are_kept() {
    let axes: Axes<f64> = Axes::new("t".to_string(), "v".to_string(), 300, 200)
        .with_x_range(0.0, 10.0)
        .with_y_range(-1.0, 1.0);
    assert_eq!(axes.x_range, Some((0.0, 10.0)));
    assert_eq!(axes.y_range, Some((-1.0, 1.0)));
    assert_eq!(axes.pixel_width, 300);
    assert_eq!(axes.pixel_height, 200);
}
