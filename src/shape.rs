use vstd::prelude::*;

use crate::point::Point;

verus! {

/// The part that a primitive plays in one curve.
#[derive(Clone, Copy, Debug, PartialEq, Eq, Structural)]
pub enum BezierShapeType {
    Start,
    ControlStart,
    ControlEnd,
    End,
    Line,
    BezierLine,
}

impl BezierShapeType {
    /// One of the four points that define the curve.
    pub open spec fn is_anchor(self) -> bool {
        self is Start || self is ControlStart || self is ControlEnd || self is End
    }

    pub fn is_anchor_role(&self) -> (r: bool)
        ensures
            r == self.is_anchor(),
    {
        match self {
            BezierShapeType::Line | BezierShapeType::BezierLine => false,
            _ => true,
        }
    }

    pub fn name(&self) -> (r: &'static str)
        ensures
            *self is Start ==> r@ == "Start"@,
            *self is ControlStart ==> r@ == "ControlStart"@,
            *self is ControlEnd ==> r@ == "ControlEnd"@,
            *self is End ==> r@ == "End"@,
            *self is Line ==> r@ == "Line"@,
            *self is BezierLine ==> r@ == "BezierLine"@,
    {
        match self {
            BezierShapeType::Start => "Start",
            BezierShapeType::ControlStart => "ControlStart",
            BezierShapeType::ControlEnd => "ControlEnd",
            BezierShapeType::End => "End",
            BezierShapeType::Line => "Line",
            BezierShapeType::BezierLine => "BezierLine",
        }
    }
}

impl Default for BezierShapeType {
    fn default() -> (r: Self)
        ensures
            r is Start,
    {
        BezierShapeType::Start
    }
}

/// The tag of a primitive that belongs to a curve: its role, the curve's id
/// and, for an anchor, the anchor's position.
#[derive(Clone, Copy, Debug, PartialEq, Eq, Structural)]
pub struct BezierShape {
    pub shape_type: BezierShapeType,
    pub id: usize,
    pub point: Option<Point>,
}

/// What a primitive of the scene is.
#[derive(Clone, Copy, Debug, PartialEq, Eq, Structural)]
pub enum ShapeType {
    Intersection,
    Main,
    Sketch,
    Bezier(BezierShape),
}

impl ShapeType {
    pub fn name(&self) -> (r: &'static str)
        ensures
            *self is Intersection ==> r@ == "Intersection"@,
            *self is Main ==> r@ == "Main"@,
            *self is Sketch ==> r@ == "Sketch"@,
            *self is Bezier ==> r@ == "Bezier"@,
    {
        match self {
            ShapeType::Intersection => "Intersection",
            ShapeType::Main => "Main",
            ShapeType::Sketch => "Sketch",
            ShapeType::Bezier(_) => "Bezier",
        }
    }
}

/// A colour as 8-bit sRGB channels with alpha.
#[derive(Clone, Copy, Debug, PartialEq, Eq, Structural)]
pub struct Rgba {
    pub r: u8,
    pub g: u8,
    pub b: u8,
    pub a: u8,
}

/// The look of every curve: marker radius, stroke widths and colours.
/// Lengths are in whole scene units.
#[derive(Clone, Copy, Debug, PartialEq, Eq, Structural)]
pub struct BezierStyle {
    pub intersection_color: Rgba,
    pub intersection_radius: u32,
    pub sketch_color: Rgba,
    pub bezier_stroke_width: u32,
    pub sketch_stroke_width: u32,
    pub bezier_line_color: Rgba,
}

impl Default for BezierStyle {
    fn default() -> (r: Self)
        ensures
            r.intersection_color == (Rgba { r: 255, g: 0, b: 0, a: 255 }),
            r.sketch_color == (Rgba { r: 128, g: 128, b: 128, a: 255 }),
            r.intersection_radius == 6,
            r.bezier_stroke_width == 4,
            r.sketch_stroke_width == 1,
            r.bezier_line_color == (Rgba { r: 200, g: 172, b: 110, a: 255 }),
    {
        BezierStyle {
            intersection_color: Rgba { r: 255, g: 0, b: 0, a: 255 },
            sketch_color: Rgba { r: 128, g: 128, b: 128, a: 255 },
            intersection_radius: 6,
            bezier_stroke_width: 4,
            sketch_stroke_width: 1,
            bezier_line_color: Rgba { r: 200, g: 172, b: 110, a: 255 },
        }
    }
}

/// The drawable part of a primitive: what is drawn, where, and with which paint.
#[derive(Clone, Copy, Debug, PartialEq, Eq, Structural)]
pub enum Geometry {
    /// A filled disc.
    Marker { center: Point, radius: i64, fill: Rgba },
    /// A stroked straight segment.
    Segment { from: Point, to: Point, width: u32, color: Rgba },
    /// A stroked cubic Bezier path from `start` to `end`.
    Curve { start: Point, control_start: Point, control_end: Point, end: Point, width: u32, color: Rgba },
}

} // verus!
