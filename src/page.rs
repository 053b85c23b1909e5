use vstd::prelude::*;
use crate::color::{assign_colors, assigned_color};
use crate::series::{opt_view, Series, Style};

verus! {

/// The coordinate frame that all series of a page share.
pub struct Axes<T> {
    pub x_label: String,
    pub y_label: String,
    /// Clamp of the horizontal axis, low then high, if any.
    pub x_range: Option<(T, T)>,
    /// Clamp of the vertical axis, low then high, if any.
    pub y_range: Option<(T, T)>,
    pub pixel_width: u32,
    pub pixel_height: u32,
}

impl<T> Axes<T> {
    /// Labelled axes of the given pixel size, with no clamping.
    pub fn new(x_label: String, y_label: String, pixel_width: u32, pixel_height: u32) -> (r: Axes<T>)
        ensures
            r.x_label@ == x_label@,
            r.y_label@ == y_label@,
            r.x_range is None,
            r.y_range is None,
            r.pixel_width == pixel_width,
            r.pixel_height == pixel_height,
    {
        Axes { x_label, y_label, x_range: None, y_range: None, pixel_width, pixel_height }
    }

    /// The same axes with the horizontal axis clamped to `[low, high]`.
    pub fn with_x_range(self, low: T, high: T) -> (r: Axes<T>)
        ensures
            r == (Axes { x_range: Some((low, high)), ..self }),
    {
        Axes { x_range: Some((low, high)), ..self }
    }

    /// The same axes with the vertical axis clamped to `[low, high]`.
    pub fn with_y_range(self, low: T, high: T) -> (r: Axes<T>)
        ensures
            r == (Axes { y_range: Some((low, high)), ..self }),
    {
        Axes { y_range: Some((low, high)), ..self }
    }
}

/// One chart: series drawn in order on shared axes, saved under `name`.
pub struct Page<T> {
    /// Stem of the image file, `<name>.svg`.
    pub name: String,
    /// Drawing order, which is also the legend order.
    pub series: Vec<Series<T>>,
    pub axes: Axes<T>,
}

/// One series as the chart engine receives it: its points paired up and its
/// colour settled.
pub struct Stroke<T> {
    pub points: Vec<(T, T)>,
    pub style: Style,
    /// Thousandths of a pixel.
    pub width: u32,
    pub color: String,
    pub legend: Option<String>,
}

/// The points `(x[i], y[i])`, in order.
pub open spec fn zip_points<T>(x: Seq<T>, y: Seq<T>) -> Seq<(T, T)> {
    Seq::new(x.len(), |i: int| (x[i], y[i]))
}

/// The explicit colours that the series carry, in order.
pub open spec fn explicit_colors<T>(series: Seq<Series<T>>) -> Seq<Option<Seq<char>>> {
    series.map_values(|s: Series<T>| s@.color)
}

/// How series `i` of `series` is handed to the chart engine.
pub open spec fn stroke_of<T>(series: Seq<Series<T>>, i: int, s: Stroke<T>) -> bool {
    &&& s.points@ == zip_points(series[i]@.x, series[i]@.y)
    &&& s.style == series[i]@.style
    &&& s.width as nat == series[i]@.width
    &&& s.color@ == assigned_color(explicit_colors(series), i)
    &&& opt_view(s.legend) == series[i]@.legend
}

impl<T> Page<T> {
    /// An empty page.
    pub fn new(name: String, axes: Axes<T>) -> (r: Page<T>)
        ensures
            r.name@ == name@,
            r.series@.len() == 0,
            r.axes == axes,
    {
        Page { name, series: Vec::new(), axes }
    }

    /// The same page with `s` drawn after its other series.
    pub fn add(self, s: Series<T>) -> (r: Page<T>)
        ensures
            r.name == self.name,
            r.series@ == self.series@.push(s),
            r.axes == self.axes,
    {
        let mut series = self.series;
        series.push(s);
        Page { name: self.name, series, axes: self.axes }
    }

    /// The colour of each series, in drawing order.
    pub fn colors(&self) -> (r: Vec<String>)
        ensures
            r@.len() == self.series@.len(),
            forall|i: int| 0 <= i < r@.len() ==> #[trigger] r@[i]@ == assigned_color(explicit_colors(self.series@), i),
    {
        let mut given: Vec<Option<String>> = Vec::new();
        let mut i: usize = 0;
        while i < self.series.len()
            invariant
                i <= self.series@.len(),
                given@.len() == i,
                forall|j: int| 0 <= j < i ==> opt_view(#[trigger] given@[j]) == self.series@[j]@.color,
            decreases self.series@.len() - i,
        {
            let c = match self.series[i].color() {
                Some(c) => Some(c.clone()),
                None => None,
            };
            given.push(c);
            i = i + 1;
        }
        let r = assign_colors(&given);
        assert(given@.map_values(|c: Option<String>| opt_view(c)) =~= explicit_colors(self.series@));
        r
    }
}

impl<T: Copy> Page<T> {
    /// Everything the chart engine draws, one stroke per series in order.
    pub fn strokes(&self) -> (r: Vec<Stroke<T>>)
        ensures
            r@.len() == self.series@.len(),
            forall|i: int| 0 <= i < r@.len() ==> stroke_of(self.series@, i, #[trigger] r@[i]),
    {
        let colors = self.colors();
        let mut r: Vec<Stroke<T>> = Vec::new();
        let mut i: usize = 0;
        while i < self.series.len()
            invariant
                i <= self.series@.len(),
                colors@.len() == self.series@.len(),
                forall|j: int| 0 <= j < colors@.len() ==> #[trigger] colors@[j]@ == assigned_color(explicit_colors(self.series@), j),
                r@.len() == i,
                forall|j: int| 0 <= j < i ==> stroke_of(self.series@, j, #[trigger] r@[j]),
            decreases self.series@.len() - i,
        {
            let s = &self.series[i];
            let x = s.x();
            let y = s.y();
            let n = s.len();
            let mut points: Vec<(T, T)> = Vec::new();
            let mut k: usize = 0;
            while k < n
                invariant
                    n == x@.len(),
                    n == y@.len(),
                    k <= n,
                    points@ == zip_points(x@, y@).take(k as int),
                decreases n - k,
            {
                points.push((x[k], y[k]));
                k = k + 1;
                assert(points@ =~= zip_points(x@, y@).take(k as int));
            }
            assert(points@ =~= zip_points(x@, y@));
            let legend = match s.legend() {
                Some(l) => Some(l.clone()),
                None => None,
            };
            r.push(Stroke { points, style: s.style(), width: s.width(), color: colors[i].clone(), legend });
            i = i + 1;
        }
        r
    }
}

} // verus!
