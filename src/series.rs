use vstd::prelude::*;

verus! {

/// How the points of a series are drawn.
#[derive(Clone, Copy, Debug, PartialEq, Eq, Structural)]
pub enum Style {
    /// One marker per point.
    Point,
    /// Points joined by a stroke.
    Line,
}

/// Stroke width of a new series, in thousandths of a pixel.
pub const DEFAULT_WIDTH: u32 = 1000;

/// The abstract content of a [`Series`].
pub ghost struct SeriesModel<T> {
    pub x: Seq<T>,
    pub y: Seq<T>,
    pub style: Style,
    pub width: nat,
    pub color: Option<Seq<char>>,
    pub legend: Option<Seq<char>>,
}

/// Two equally long sequences of coordinates with their drawing style.
///
/// The width is kept in thousandths of a pixel and is never zero.
pub struct Series<T> {
    x: Vec<T>,
    y: Vec<T>,
    style: Style,
    width: u32,
    color: Option<String>,
    legend: Option<String>,
}

pub open spec fn opt_view(o: Option<String>) -> Option<Seq<char>> {
    match o {
        Some(s) => Some(s@),
        None => None,
    }
}

impl<T> View for Series<T> {
    type V = SeriesModel<T>;

    closed spec fn view(&self) -> SeriesModel<T> {
        SeriesModel {
            x: self.x@,
            y: self.y@,
            style: self.style,
            width: self.width as nat,
            color: opt_view(self.color),
            legend: opt_view(self.legend),
        }
    }
}

/// A fresh series of the given style: default width, no colour, no legend.
pub open spec fn fresh_model<T>(x: Seq<T>, y: Seq<T>, style: Style) -> SeriesModel<T> {
    SeriesModel { x, y, style, width: DEFAULT_WIDTH as nat, color: None, legend: None }
}

/// What building a series from `x` and `y` yields: the fresh series when the
/// lengths agree, `InvalidSeries` otherwise.
pub open spec fn built_from<T>(
    r: Result<Series<T>, crate::ExperimentError>,
    x: Seq<T>,
    y: Seq<T>,
    style: Style,
) -> bool {
    if x.len() == y.len() {
        r is Ok && r->Ok_0@ == fresh_model(x, y, style)
    } else {
        r == Err::<Series<T>, crate::ExperimentError>(crate::ExperimentError::InvalidSeries)
    }
}

/// Building a series from equally long `x` and `y` succeeds, and the series
/// holds `x` and `y` unchanged, which its getters hand back.
pub proof fn lemma_series_keeps_points<T>(
    r: Result<Series<T>, crate::ExperimentError>,
    x: Seq<T>,
    y: Seq<T>,
    style: Style,
)
    requires
        x.len() == y.len(),
        built_from(r, x, y, style),
    ensures
        r is Ok,
        r->Ok_0@.x == x,
        r->Ok_0@.y == y,
        r->Ok_0@.style == style,
{
}

impl<T> Series<T> {
    #[verifier::type_invariant]
    spec fn inv(&self) -> bool {
        &&& self.x.len() == self.y.len()
        &&& self.width > 0
    }

    /// Builds a series of the given style with the default width, no colour
    /// and no legend; fails when `x` and `y` differ in length.
    pub fn new(x: Vec<T>, y: Vec<T>, style: Style) -> (r: Result<Series<T>, crate::ExperimentError>)
        ensures
            built_from(r, x@, y@, style),
    {
        if x.len() == y.len() {
            Ok(Series { x, y, style, width: DEFAULT_WIDTH, color: None, legend: None })
        } else {
            Err(crate::ExperimentError::InvalidSeries)
        }
    }
    /// A series drawn as markers.
    pub fn points(x: Vec<T>, y: Vec<T>) -> (r: Result<Series<T>, crate::ExperimentError>)
        ensures
            built_from(r, x@, y@, Style::Point),
    {
        Series::new(x, y, Style::Point)
    }

    /// A series drawn as a connected line.
    pub fn line(x: Vec<T>, y: Vec<T>) -> (r: Result<Series<T>, crate::ExperimentError>)
        ensures
            built_from(r, x@, y@, Style::Line),
    {
        Series::new(x, y, Style::Line)
    }

    /// The same series with a legend label.
    pub fn with_legend(self, legend: String) -> (r: Series<T>)
        ensures
            r@ == (SeriesModel { legend: Some(legend@), ..self@ }),
    {
        proof { use_type_invariant(&self); }
        Series { legend: Some(legend), ..self }
    }

    /// The same series with an explicit colour, which colour assignment keeps.
    pub fn with_color(self, color: String) -> (r: Series<T>)
        ensures
            r@ == (SeriesModel { color: Some(color@), ..self@ }),
    {
        proof { use_type_invariant(&self); }
        Series { color: Some(color), ..self }
    }

    /// The same series with another stroke width, in thousandths of a pixel.
    pub fn with_width(self, width: u32) -> (r: Series<T>)
        requires
            width > 0,
        ensures
            r@ == (SeriesModel { width: width as nat, ..self@ }),
    {
        proof { use_type_invariant(&self); }
        Series { width, ..self }
    }

    /// The `x` coordinates, as given.
    pub fn x(&self) -> (r: &Vec<T>)
        ensures
            r@ == self@.x,
    {
        &self.x
    }

    /// The `y` coordinates, as given.
    pub fn y(&self) -> (r: &Vec<T>)
        ensures
            r@ == self@.y,
    {
        &self.y
    }

    /// The number of points; `x` and `y` always have it.
    pub fn len(&self) -> (r: usize)
        ensures
            r == self@.x.len(),
            r == self@.y.len(),
    {
        proof { use_type_invariant(self); }
        self.x.len()
    }

    pub fn style(&self) -> (r: Style)
        ensures
            r == self@.style,
    {
        self.style
    }

    /// The stroke width in thousandths of a pixel; never zero.
    pub fn width(&self) -> (r: u32)
        ensures
            r as nat == self@.width,
            r > 0,
    {
        proof { use_type_invariant(self); }
        self.width
    }

    pub fn color(&self) -> (r: &Option<String>)
        ensures
            opt_view(*r) == self@.color,
    {
        &self.color
    }

    pub fn legend(&self) -> (r: &Option<String>)
        ensures
            opt_view(*r) == self@.legend,
    {
        &self.legend
    }
}

} // verus!
