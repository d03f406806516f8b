use vstd::prelude::*;

use crate::bbox::BoundingBox;
use crate::command::Unit;
use crate::geometry::FinePoint;

verus! {

/// An emitted drawing primitive; every length is in document steps.
#[derive(Clone, Debug, PartialEq, Eq)]
pub enum Primitive {
    OpenPolyline { points: Vec<FinePoint>, stroke_width: i128 },
    FilledCircle { center: FinePoint, radius: i128 },
    FilledRectangle { origin: FinePoint, width: i128, height: i128 },
}

/// What a primitive is, as a mathematical value.
pub enum Shape {
    Polyline { points: Seq<FinePoint>, stroke: int },
    Circle { center: FinePoint, radius: int },
    Rect { origin: FinePoint, width: int, height: int },
}

impl View for Primitive {
    type V = Shape;

    open spec fn view(&self) -> Shape {
        match self {
            Primitive::OpenPolyline { points, stroke_width } => Shape::Polyline {
                points: points@,
                stroke: *stroke_width as int,
            },
            Primitive::FilledCircle { center, radius } => Shape::Circle {
                center: *center,
                radius: *radius as int,
            },
            Primitive::FilledRectangle { origin, width, height } => Shape::Rect {
                origin: *origin,
                width: *width as int,
                height: *height as int,
            },
        }
    }
}

pub open spec fn shapes_of(ps: Seq<Primitive>) -> Seq<Shape> {
    ps.map_values(|p: Primitive| p@)
}

/// The visible area of a document, in document steps.
#[derive(Clone, Copy, Debug, PartialEq, Eq, Structural)]
pub struct Viewport {
    pub origin_x: i128,
    pub origin_y: i128,
    pub width: i128,
    pub height: i128,
}

/// The viewport of a bounding box: cropped to it, or from the origin to its
/// upper corner (which ignores geometry at negative positions).
/// With nothing emitted the viewport is empty and at the origin.
pub open spec fn viewport_of(b: BoundingBox, crop: bool) -> Viewport {
    if b.empty {
        Viewport { origin_x: 0, origin_y: 0, width: 0, height: 0 }
    } else if crop {
        Viewport {
            origin_x: b.min_x,
            origin_y: b.min_y,
            width: (b.max_x - b.min_x) as i128,
            height: (b.max_y - b.min_y) as i128,
        }
    } else {
        Viewport { origin_x: 0, origin_y: 0, width: b.max_x, height: b.max_y }
    }
}

/// A finished drawing: its primitives in order, the area they are shown in,
/// and the unit its lengths are written in.
pub struct Document {
    pub primitives: Vec<Primitive>,
    pub viewport: Viewport,
    pub unit: Unit,
}

} // verus!
