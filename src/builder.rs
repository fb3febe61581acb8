use vstd::prelude::*;

use crate::point::Point;
use crate::shape::{BezierShape, BezierShapeType, BezierStyle, Geometry, ShapeType};

verus! {

/// One primitive: its drawing and its tag.
pub type Primitive = (Geometry, ShapeType);

pub open spec fn tag(role: BezierShapeType, id: usize, point: Option<Point>) -> ShapeType {
    ShapeType::Bezier(BezierShape { shape_type: role, id, point })
}

pub open spec fn marker(style: BezierStyle, center: Point) -> Geometry {
    Geometry::Marker {
        center,
        radius: (style.intersection_radius - 1) as i64,
        fill: style.intersection_color,
    }
}

pub open spec fn guide(style: BezierStyle, from: Point, to: Point) -> Geometry {
    Geometry::Segment { from, to, width: style.sketch_stroke_width, color: style.sketch_color }
}

/// The eight primitives of the curve with id `id` through `a`, `b`, `c`, `d`,
/// in drawing order.
pub open spec fn curve_spec(
    style: BezierStyle,
    id: usize,
    a: Point,
    b: Point,
    c: Point,
    d: Point,
) -> Seq<Primitive> {
    seq![
        (marker(style, a), tag(BezierShapeType::Start, id, Some(a))),
        (
            Geometry::Curve {
                start: a,
                control_start: b,
                control_end: c,
                end: d,
                width: style.bezier_stroke_width,
                color: style.bezier_line_color,
            },
            tag(BezierShapeType::BezierLine, id, None),
        ),
        (guide(style, a, b), tag(BezierShapeType::Line, id, None)),
        (marker(style, b), tag(BezierShapeType::ControlStart, id, Some(b))),
        (guide(style, b, c), tag(BezierShapeType::Line, id, None)),
        (marker(style, c), tag(BezierShapeType::ControlEnd, id, Some(c))),
        (guide(style, c, d), tag(BezierShapeType::Line, id, None)),
        (marker(style, d), tag(BezierShapeType::End, id, Some(d))),
    ]
}

fn bezier_tag(role: BezierShapeType, id: usize, point: Option<Point>) -> (r: ShapeType)
    ensures
        r == tag(role, id, point),
{
    ShapeType::Bezier(BezierShape { shape_type: role, id, point })
}

fn marker_at(style: &BezierStyle, center: Point) -> (r: Geometry)
    ensures
        r == marker(*style, center),
{
    Geometry::Marker {
        center,
        radius: style.intersection_radius as i64 - 1,
        fill: style.intersection_color,
    }
}

fn guide_between(style: &BezierStyle, from: Point, to: Point) -> (r: Geometry)
    ensures
        r == guide(*style, from, to),
{
    Geometry::Segment { from, to, width: style.sketch_stroke_width, color: style.sketch_color }
}

/// Builds the primitives of a curve: a marker on each of the four points, the
/// curve stroke, and the three guide segments a-b, b-c, c-d.
pub fn bezier_open(style: &BezierStyle, id: usize, a: Point, b: Point, c: Point, d: Point) -> (r:
    Vec<Primitive>)
    ensures
        r@ == curve_spec(*style, id, a, b, c, d),
{
    let mut shapes: Vec<Primitive> = Vec::new();
    shapes.push((marker_at(style, a), bezier_tag(BezierShapeType::Start, id, Some(a))));
    let stroke = Geometry::Curve {
        start: a,
        control_start: b,
        control_end: c,
        end: d,
        width: style.bezier_stroke_width,
        color: style.bezier_line_color,
    };
    shapes.push((stroke, bezier_tag(BezierShapeType::BezierLine, id, None)));
    shapes.push((guide_between(style, a, b), bezier_tag(BezierShapeType::Line, id, None)));
    shapes.push((marker_at(style, b), bezier_tag(BezierShapeType::ControlStart, id, Some(b))));
    shapes.push((guide_between(style, b, c), bezier_tag(BezierShapeType::Line, id, None)));
    shapes.push((marker_at(style, c), bezier_tag(BezierShapeType::ControlEnd, id, Some(c))));
    shapes.push((guide_between(style, c, d), bezier_tag(BezierShapeType::Line, id, None)));
    shapes.push((marker_at(style, d), bezier_tag(BezierShapeType::End, id, Some(d))));
    assert(shapes@ =~= curve_spec(*style, id, a, b, c, d));
    shapes
}

/// How many primitives of `s` have role `role`.
pub open spec fn role_count(s: Seq<Primitive>, role: BezierShapeType) -> nat
    decreases s.len(),
{
    if s.len() == 0 {
        0
    } else {
        role_count(s.drop_last(), role) + if s.last().1 is Bezier && s.last().1->Bezier_0.shape_type
            == role {
            1nat
        } else {
            0nat
        }
    }
}

/// The role and the carried position of a primitive, when it is tagged.
pub open spec fn logical(p: Primitive) -> Option<(BezierShapeType, Option<Point>)> {
    match p.1 {
        ShapeType::Bezier(s) => Some((s.shape_type, s.point)),
        _ => None,
    }
}

/// A built curve has eight primitives: one per anchor role, carrying that
/// anchor's position unchanged, three guide lines and one stroke, every one
/// tagged with the curve's id, the guides and the stroke with no position.
pub proof fn lemma_curve_composition(
    style: BezierStyle,
    id: usize,
    a: Point,
    b: Point,
    c: Point,
    d: Point,
)
    ensures
        ({
            let s = curve_spec(style, id, a, b, c, d);
            &&& s.len() == 8
            &&& role_count(s, BezierShapeType::Start) == 1
            &&& role_count(s, BezierShapeType::ControlStart) == 1
            &&& role_count(s, BezierShapeType::ControlEnd) == 1
            &&& role_count(s, BezierShapeType::End) == 1
            &&& role_count(s, BezierShapeType::Line) == 3
            &&& role_count(s, BezierShapeType::BezierLine) == 1
            &&& forall|i: int| 0 <= i < 8 ==> (#[trigger] s[i]).1 is Bezier && s[i].1->Bezier_0.id == id
            &&& forall|i: int|
                0 <= i < 8 && !(#[trigger] s[i]).1->Bezier_0.shape_type.is_anchor()
                    ==> s[i].1->Bezier_0.point is None
            &&& forall|i: int|
                0 <= i < 8 && (#[trigger] s[i]).1->Bezier_0.shape_type is Start
                    ==> s[i].1->Bezier_0.point == Some(a)
            &&& forall|i: int|
                0 <= i < 8 && (#[trigger] s[i]).1->Bezier_0.shape_type is ControlStart
                    ==> s[i].1->Bezier_0.point == Some(b)
            &&& forall|i: int|
                0 <= i < 8 && (#[trigger] s[i]).1->Bezier_0.shape_type is ControlEnd
                    ==> s[i].1->Bezier_0.point == Some(c)
            &&& forall|i: int|
                0 <= i < 8 && (#[trigger] s[i]).1->Bezier_0.shape_type is End
                    ==> s[i].1->Bezier_0.point == Some(d)
        }),
{
    let s = curve_spec(style, id, a, b, c, d);
    reveal_with_fuel(role_count, 10);
    assert(s.drop_last() =~= s.take(7));
    assert(s.take(7).drop_last() =~= s.take(6));
    assert(s.take(6).drop_last() =~= s.take(5));
    assert(s.take(5).drop_last() =~= s.take(4));
    assert(s.take(4).drop_last() =~= s.take(3));
    assert(s.take(3).drop_last() =~= s.take(2));
    assert(s.take(2).drop_last() =~= s.take(1));
    assert(s.take(1).drop_last() =~= s.take(0));
}

/// Building twice from the same inputs gives the same primitives, drawing and
/// tags alike.
pub proof fn lemma_build_deterministic(
    style: BezierStyle,
    id: usize,
    a: Point,
    b: Point,
    c: Point,
    d: Point,
    first: Seq<Primitive>,
    second: Seq<Primitive>,
)
    requires
        first == curve_spec(style, id, a, b, c, d),
        second == curve_spec(style, id, a, b, c, d),
    ensures
        first == second,
        forall|i: int| 0 <= i < first.len() ==> logical(#[trigger] first[i]) == logical(second[i]),
{
}

} // verus!
