use bezier_edit::builder::bezier_open;
use bezier_edit::drag::BezierDrag;
use bezier_edit::handlers::{bezier_drag, drag_end, drag_start};
use bezier_edit::ids::{new_id, IdAllocator};
use bezier_edit::point::Point;
use bezier_edit::shape::{BezierShape, BezierShapeType, BezierStyle, Geometry, Rgba, ShapeType};

fn p(x: i64, y: i64) -> Point {
    Point::new(x, y)
}

fn roles(shapes: &[(Geometry, ShapeType)]) -> Vec<(BezierShapeType, usize, Option<Point>)> {
    shapes
        .iter()
        .map(|(_, t)| match t {
            ShapeType::Bezier(s) => (s.shape_type, s.id, s.point),
            _ => panic!("untagged primitive"),
        })
        .collect()
}

fn square_drag(role: BezierShapeType) -> BezierDrag {
    BezierDrag {
        bezier_id: 7,
        entity: Some(42),
        dragging: role,
        start_click: Some(p(0, 0)),
        a: Some(p(0, 0)),
        b: Some(p(10, 0)),
        c: Some(p(10, 10)),
        d: Some(p(0, 10)),
    }
}

#[test]
fn build_has_one_marker_per_anchor_three_guides_one_stroke() {
    let style = BezierStyle::default();
    let shapes = bezier_open(&style, 3, p(1, 2), p(3, 4), p(5, 6), p(7, 8));
    let r = roles(&shapes);
    assert_eq!(r.len(), 8);
    let count = |role: BezierShapeType| r.iter().filter(|x| x.0 == role).count();
    assert_eq!(count(BezierShapeType::Start), 1);
    assert_eq!(count(BezierShapeType::ControlStart), 1);
    assert_eq!(count(BezierShapeType::ControlEnd), 1);
    assert_eq!(count(BezierShapeType::End), 1);
    assert_eq!(count(BezierShapeType::Line), 3);
    assert_eq!(count(BezierShapeType::BezierLine), 1);
    assert!(r.iter().all(|x| x.1 == 3));
    for (role, _, point) in &r {
        match role {
            BezierShapeType::Start => assert_eq!(*point, Some(p(1, 2))),
            BezierShapeType::ControlStart => assert_eq!(*point, Some(p(3, 4))),
            BezierShapeType::ControlEnd => assert_eq!(*point, Some(p(5, 6))),
            BezierShapeType::End => assert_eq!(*point, Some(p(7, 8))),
            _ => assert_eq!(*point, None),
        }
    }
}

#[test]
fn build_geometry_uses_style() {
    let style = BezierStyle::default();
    let shapes = bezier_open(&style, 1, p(0, 0), p(10, 0), p(10, 10), p(0, 10));
    let red = Rgba { r: 255, g: 0, b: 0, a: 255 };
    let grey = Rgba { r: 128, g: 128, b: 128, a: 255 };
    let gold = Rgba { r: 200, g: 172, b: 110, a: 255 };
    assert_eq!(shapes[0].0, Geometry::Marker { center: p(0, 0), radius: 5, fill: red });
    assert_eq!(
        shapes[1].0,
        Geometry::Curve {
            start: p(0, 0),
            control_start: p(10, 0),
            control_end: p(10, 10),
            end: p(0, 10),
            width: 4,
            color: gold
        }
    );
    assert_eq!(shapes[2].0, Geometry::Segment { from: p(0, 0), to: p(10, 0), width: 1, color: grey });
    assert_eq!(shapes[4].0, Geometry::Segment { from: p(10, 0), to: p(10, 10), width: 1, color: grey });
    assert_eq!(shapes[6].0, Geometry::Segment { from: p(10, 10), to: p(0, 10), width: 1, color: grey });
    assert_eq!(shapes[7].0, Geometry::Marker { center: p(0, 10), radius: 5, fill: red });
}

#[test]
fn build_marker_radius_is_one_less_than_style() {
    let mut style = BezierStyle::default();
    style.intersection_radius = 0;
    let shapes = bezier_open(&style, 1, p(0, 0), p(1, 0), p(1, 1), p(0, 1));
    match shapes[3].0 {
        Geometry::Marker { radius, .. } => assert_eq!(radius, -1),
        _ => panic!("expected a marker"),
    }
}

#[test]
fn build_twice_is_identical() {
    let style = BezierStyle::default();
    let first = bezier_open(&style, 9, p(-4, 2), p(3, 3), p(8, -1), p(0, 0));
    let second = bezier_open(&style, 9, p(-4, 2), p(3, 3), p(8, -1), p(0, 0));
    assert_eq!(first, second);
}

#[test]
fn dragging_anchor_moves_only_that_anchor() {
    let cases = [
        BezierShapeType::Start,
        BezierShapeType::ControlStart,
        BezierShapeType::ControlEnd,
        BezierShapeType::End,
    ];
    for (k, role) in cases.iter().enumerate() {
        let mut drag = square_drag(*role);
        let before = drag;
        drag.add_delta(p(3, 4));
        let old = [before.a, before.b, before.c, before.d];
        let new = [drag.a, drag.b, drag.c, drag.d];
        for j in 0..4 {
            if j == k {
                let o = old[j].unwrap();
                assert_eq!(new[j], Some(p(o.x + 3, o.y - 4)));
            } else {
                assert_eq!(new[j], old[j]);
            }
        }
    }
}

#[test]
fn dragging_stroke_moves_all_anchors() {
    let mut drag = square_drag(BezierShapeType::BezierLine);
    drag.add_delta(p(2, -3));
    assert_eq!(drag.a, Some(p(2, 3)));
    assert_eq!(drag.b, Some(p(12, 3)));
    assert_eq!(drag.c, Some(p(12, 13)));
    assert_eq!(drag.d, Some(p(2, 13)));
}

#[test]
fn dragging_guide_line_changes_nothing() {
    let mut drag = square_drag(BezierShapeType::Line);
    let before = drag;
    drag.add_delta(p(50, 50));
    assert_eq!(drag, before);
}

#[test]
fn drag_start_reads_curve_points() {
    let style = BezierStyle::default();
    let mut live: Vec<ShapeType> = bezier_open(&style, 7, p(0, 0), p(10, 0), p(10, 10), p(0, 10))
        .into_iter()
        .map(|(_, t)| t)
        .collect();
    live.extend(
        bezier_open(&style, 8, p(100, 100), p(1, 1), p(2, 2), p(3, 3)).into_iter().map(|(_, t)| t),
    );
    live.push(ShapeType::Main);
    let mut drag = BezierDrag::default();
    let tag = live[3];
    drag_start(&mut drag, 11, &tag, p(40, 60), &live);
    assert_eq!(drag.bezier_id, 7);
    assert_eq!(drag.entity, Some(11));
    assert_eq!(drag.dragging, BezierShapeType::ControlStart);
    assert_eq!(drag.start_click, Some(p(40, 60)));
    assert_eq!(drag.a, Some(p(0, 0)));
    assert_eq!(drag.b, Some(p(10, 0)));
    assert_eq!(drag.c, Some(p(10, 10)));
    assert_eq!(drag.d, Some(p(0, 10)));
}

#[test]
fn drag_start_ignores_untagged_primitive() {
    let mut drag = BezierDrag::default();
    let before = drag;
    drag_start(&mut drag, 5, &ShapeType::Sketch, p(1, 1), &vec![ShapeType::Sketch]);
    assert_eq!(drag, before);
}

#[test]
fn drag_update_respawns_rebuilt_curve() {
    let style = BezierStyle::default();
    let live: Vec<(u64, ShapeType)> = vec![
        (1, ShapeType::Bezier(BezierShape { shape_type: BezierShapeType::Start, id: 7, point: Some(p(0, 0)) })),
        (2, ShapeType::Bezier(BezierShape { shape_type: BezierShapeType::Line, id: 7, point: None })),
        (3, ShapeType::Bezier(BezierShape { shape_type: BezierShapeType::End, id: 4, point: Some(p(9, 9)) })),
        (4, ShapeType::Intersection),
        (42, ShapeType::Bezier(BezierShape { shape_type: BezierShapeType::BezierLine, id: 7, point: None })),
        (5, ShapeType::Bezier(BezierShape { shape_type: BezierShapeType::End, id: 7, point: Some(p(0, 10)) })),
    ];
    let mut drag = square_drag(BezierShapeType::BezierLine);
    let update = bezier_drag(&mut drag, &style, 42, &live, p(1, 1));
    assert_eq!(update.despawn, vec![1, 2, 5]);
    let rebuilt = bezier_open(&style, 7, drag.a.unwrap(), drag.b.unwrap(), drag.c.unwrap(), drag.d.unwrap());
    assert_eq!(roles(&update.spawn), roles(&rebuilt));
    assert_eq!(update.spawn, rebuilt);
    assert_eq!(drag.a, Some(p(1, -1)));
}

#[test]
fn full_cycle_drag_start_anchor() {
    let style = BezierStyle::default();
    let curve = bezier_open(&style, 7, p(0, 0), p(10, 0), p(10, 10), p(0, 10));
    let live: Vec<(u64, ShapeType)> =
        curve.iter().enumerate().map(|(n, (_, t))| (n as u64 + 100, *t)).collect();
    let tags: Vec<ShapeType> = live.iter().map(|(_, t)| *t).collect();
    let mut drag = BezierDrag::default();
    drag_start(&mut drag, 100, &tags[0], p(0, 0), &tags);
    assert_eq!(drag.dragging, BezierShapeType::Start);
    let update = bezier_drag(&mut drag, &style, 100, &live, p(5, -5));
    assert_eq!(drag.a, Some(p(5, 5)));
    assert_eq!(drag.b, Some(p(10, 0)));
    assert_eq!(drag.c, Some(p(10, 10)));
    assert_eq!(drag.d, Some(p(0, 10)));
    assert_eq!(update.despawn, vec![101, 102, 103, 104, 105, 106, 107]);
    assert_eq!(update.spawn.len(), 8);
    match (&update.spawn[0].0, &update.spawn[0].1) {
        (Geometry::Marker { center, .. }, ShapeType::Bezier(s)) => {
            assert_eq!(*center, p(5, 5));
            assert_eq!(s.shape_type, BezierShapeType::Start);
            assert_eq!(s.point, Some(p(5, 5)));
        }
        _ => panic!("expected the start marker first"),
    }
    let gone = drag_end(&mut drag);
    assert_eq!(gone, 100);
}

#[test]
fn drag_end_returns_record_to_idle() {
    let mut drag = square_drag(BezierShapeType::End);
    drag.add_delta(p(1, 2));
    let gone = drag_end(&mut drag);
    assert_eq!(gone, 42);
    let idle = BezierDrag { dragging: BezierShapeType::End, ..BezierDrag::default() };
    assert_eq!(drag, idle);
    assert_eq!(drag.bezier_id, 0);
    assert_eq!(drag.entity, None);
    assert_eq!(drag.start_click, None);
    assert_eq!((drag.a, drag.b, drag.c, drag.d), (None, None, None, None));
}

#[test]
fn clear_drag_empties_record() {
    let mut drag = square_drag(BezierShapeType::Start);
    drag.clear_drag();
    assert_eq!(drag, BezierDrag::default());
}

#[test]
fn ids_are_contiguous_from_one() {
    let mut ids = IdAllocator::new();
    let issued: Vec<usize> = (0..100).map(|_| new_id(&mut ids)).collect();
    let expected: Vec<usize> = (1..=100).collect();
    assert_eq!(issued, expected);
}

#[test]
fn names_of_roles_and_kinds() {
    assert_eq!(BezierShapeType::ControlEnd.name(), "ControlEnd");
    assert_eq!(BezierShapeType::BezierLine.name(), "BezierLine");
    assert_eq!(BezierShapeType::default(), BezierShapeType::Start);
    assert_eq!(ShapeType::Intersection.name(), "Intersection");
    let t = ShapeType::Bezier(BezierShape { shape_type: BezierShapeType::End, id: 1, point: None });
    assert_eq!(t.name(), "Bezier");
}
