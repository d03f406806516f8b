use vstd::prelude::*;

verus! {

/// Steps of a document length per coordinate step.
///
/// Coordinates are whole millionths of the declared unit. Dimensions are
/// rendered at a scale given in thousandths and may then be halved, so
/// every emitted length is written in steps of 1/4000 of a coordinate step:
/// fine enough that all of them are whole numbers.
pub const FINE_PER_STEP: i128 = 4000;

/// Largest magnitude of a position or a half extent in document steps.
pub open spec fn fine_bound() -> int {
    0x10_0000_0000_0000_0000_0000_0000
}

pub open spec fn fits(v: int) -> bool {
    -fine_bound() <= v <= fine_bound()
}

/// An absolute plotter position, in millionths of the document unit.
#[derive(Clone, Copy, Debug, PartialEq, Eq, Structural)]
pub struct Point {
    pub x: i64,
    pub y: i64,
}

/// A parsed coordinate: each axis may be absent.
#[derive(Clone, Copy, Debug, PartialEq, Eq, Structural)]
pub struct Coordinates {
    pub x: Option<i64>,
    pub y: Option<i64>,
}

/// A position of an emitted primitive, in document steps.
#[derive(Clone, Copy, Debug, PartialEq, Eq, Structural)]
pub struct FinePoint {
    pub x: i128,
    pub y: i128,
}

pub open spec fn axis_or(v: Option<i64>, default: i64) -> i64 {
    match v {
        Some(a) => a,
        None => default,
    }
}

/// The point a coordinate names when its absent axes are taken from `default`.
pub open spec fn resolve(c: Coordinates, default: Point) -> Point {
    Point { x: axis_or(c.x, default.x), y: axis_or(c.y, default.y) }
}

pub open spec fn resolve_opt(c: Option<Coordinates>, default: Point) -> Point {
    match c {
        Some(co) => resolve(co, default),
        None => default,
    }
}

/// A position in document steps; the scale never enters it.
pub open spec fn fine_point(p: Point) -> FinePoint {
    FinePoint { x: (p.x * 4000) as i128, y: (p.y * 4000) as i128 }
}

pub open spec fn fine_point_fits(p: FinePoint) -> bool {
    fits(p.x as int) && fits(p.y as int)
}

pub proof fn lemma_fine_point_fits(p: Point)
    ensures
        fine_point(p).x as int == p.x * 4000,
        fine_point(p).y as int == p.y * 4000,
        fine_point_fits(fine_point(p)),
{
}

impl Point {
    pub fn new(x: i64, y: i64) -> (r: Point)
        ensures
            r.x == x,
            r.y == y,
    {
        Point { x, y }
    }

    /// Takes each present axis of `coord`, and the axis of `default` for each absent one.
    pub fn from_coordinates(coord: Coordinates, default: &Point) -> (r: Point)
        ensures
            r == resolve(coord, *default),
    {
        let x = match coord.x {
            Some(a) => a,
            None => default.x,
        };
        let y = match coord.y {
            Some(a) => a,
            None => default.y,
        };
        Point { x, y }
    }

    /// As `from_coordinates`; with no coordinate at all, `default` itself.
    pub fn from_option_coordinates(coord: Option<Coordinates>, default: &Point) -> (r: Point)
        ensures
            r == resolve_opt(coord, *default),
    {
        match coord {
            Some(c) => Self::from_coordinates(c, default),
            None => *default,
        }
    }

    /// This position in document steps.
    pub fn to_fine(&self) -> (r: FinePoint)
        ensures
            r == fine_point(*self),
            r.x as int == self.x * 4000,
            r.y as int == self.y * 4000,
            fine_point_fits(r),
    {
        FinePoint { x: self.x as i128 * FINE_PER_STEP, y: self.y as i128 * FINE_PER_STEP }
    }
}

} // verus!
