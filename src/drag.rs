use vstd::prelude::*;

use crate::point::Point;
use crate::shape::BezierShapeType;

verus! {

/// The record of the drag in progress: the curve, the primitive held by the
/// pointer (hidden while it is dragged), its role, where the pointer went
/// down, and the curve's four points as of the last update.
#[derive(Clone, Copy, Debug, PartialEq, Eq, Structural)]
pub struct BezierDrag {
    pub bezier_id: usize,
    pub entity: Option<u64>,
    pub dragging: BezierShapeType,
    pub start_click: Option<Point>,
    pub a: Option<Point>,
    pub b: Option<Point>,
    pub c: Option<Point>,
    pub d: Option<Point>,
}

/// An optional point moved by a screen-space delta.
pub open spec fn shifted_opt(p: Option<Point>, delta: Point) -> Option<Point> {
    match p {
        Some(q) => Some(q.shifted(delta)),
        None => None,
    }
}

/// Whether an optional point is present and can be moved by `delta`.
pub open spec fn can_shift_opt(p: Option<Point>, delta: Point) -> bool {
    p is Some && p->Some_0.can_shift(delta)
}

fn shift_fits(p: &Option<Point>, delta: Point) -> (r: bool)
    ensures
        r == can_shift_opt(*p, delta),
{
    match p {
        Some(q) => q.can_shift_by(delta),
        None => false,
    }
}

impl BezierDrag {
    /// No drag in progress: no curve, no primitive, no click and no points.
    pub open spec fn is_idle(self) -> bool {
        &&& self.bezier_id == 0
        &&& self.entity is None
        &&& self.start_click is None
        &&& self.a is None
        &&& self.b is None
        &&& self.c is None
        &&& self.d is None
    }

    /// The four points are all known.
    pub open spec fn has_points(self) -> bool {
        self.a is Some && self.b is Some && self.c is Some && self.d is Some
    }

    /// The record with every optional field emptied and the curve id zeroed;
    /// the role of the last drag is kept.
    pub open spec fn cleared(self) -> BezierDrag {
        BezierDrag {
            bezier_id: 0,
            entity: None,
            dragging: self.dragging,
            start_click: None,
            a: None,
            b: None,
            c: None,
            d: None,
        }
    }

    /// Whether the points that a drag of the current role moves are present
    /// and stay in range.
    pub open spec fn can_move(self, delta: Point) -> bool {
        match self.dragging {
            BezierShapeType::Start => can_shift_opt(self.a, delta),
            BezierShapeType::ControlStart => can_shift_opt(self.b, delta),
            BezierShapeType::ControlEnd => can_shift_opt(self.c, delta),
            BezierShapeType::End => can_shift_opt(self.d, delta),
            BezierShapeType::Line => true,
            BezierShapeType::BezierLine => {
                &&& can_shift_opt(self.a, delta)
                &&& can_shift_opt(self.b, delta)
                &&& can_shift_opt(self.c, delta)
                &&& can_shift_opt(self.d, delta)
            },
        }
    }

    /// The record after the pointer moved by `delta` (screen coordinates):
    /// an anchor role moves its own point, the stroke moves all four, a
    /// guide line moves nothing.
    pub open spec fn moved(self, delta: Point) -> BezierDrag {
        match self.dragging {
            BezierShapeType::Start => BezierDrag { a: shifted_opt(self.a, delta), ..self },
            BezierShapeType::ControlStart => BezierDrag { b: shifted_opt(self.b, delta), ..self },
            BezierShapeType::ControlEnd => BezierDrag { c: shifted_opt(self.c, delta), ..self },
            BezierShapeType::End => BezierDrag { d: shifted_opt(self.d, delta), ..self },
            BezierShapeType::Line => self,
            BezierShapeType::BezierLine => BezierDrag {
                a: shifted_opt(self.a, delta),
                b: shifted_opt(self.b, delta),
                c: shifted_opt(self.c, delta),
                d: shifted_opt(self.d, delta),
                ..self
            },
        }
    }

    pub fn has_all_points(&self) -> (r: bool)
        ensures
            r == self.has_points(),
    {
        self.a.is_some() && self.b.is_some() && self.c.is_some() && self.d.is_some()
    }

    /// Whether `add_delta` can be applied: the points it moves are present
    /// and stay in range.
    pub fn move_in_range(&self, delta: Point) -> (r: bool)
        ensures
            r == self.can_move(delta),
    {
        match self.dragging {
            BezierShapeType::Start => shift_fits(&self.a, delta),
            BezierShapeType::ControlStart => shift_fits(&self.b, delta),
            BezierShapeType::ControlEnd => shift_fits(&self.c, delta),
            BezierShapeType::End => shift_fits(&self.d, delta),
            BezierShapeType::Line => true,
            BezierShapeType::BezierLine => {
                shift_fits(&self.a, delta) && shift_fits(&self.b, delta) && shift_fits(&self.c, delta)
                    && shift_fits(&self.d, delta)
            },
        }
    }

    pub fn clear_drag(&mut self)
        ensures
            *final(self) == old(self).cleared(),
            final(self).is_idle(),
    {
        self.bezier_id = 0;
        self.entity = None;
        self.start_click = None;
        self.a = None;
        self.b = None;
        self.c = None;
        self.d = None;
    }

    /// Applies a pointer delta, given in screen coordinates, to the points
    /// that the dragged role moves.
    pub fn add_delta(&mut self, delta: Point)
        requires
            old(self).can_move(delta),
        ensures
            *final(self) == old(self).moved(delta),
            old(self).dragging is Start ==> {
                &&& final(self).a == Some(old(self).a->Some_0.shifted(delta))
                &&& final(self).b == old(self).b
                &&& final(self).c == old(self).c
                &&& final(self).d == old(self).d
            },
            old(self).dragging is ControlStart ==> {
                &&& final(self).a == old(self).a
                &&& final(self).b == Some(old(self).b->Some_0.shifted(delta))
                &&& final(self).c == old(self).c
                &&& final(self).d == old(self).d
            },
            old(self).dragging is ControlEnd ==> {
                &&& final(self).a == old(self).a
                &&& final(self).b == old(self).b
                &&& final(self).c == Some(old(self).c->Some_0.shifted(delta))
                &&& final(self).d == old(self).d
            },
            old(self).dragging is End ==> {
                &&& final(self).a == old(self).a
                &&& final(self).b == old(self).b
                &&& final(self).c == old(self).c
                &&& final(self).d == Some(old(self).d->Some_0.shifted(delta))
            },
            old(self).dragging is BezierLine ==> {
                &&& final(self).a == Some(old(self).a->Some_0.shifted(delta))
                &&& final(self).b == Some(old(self).b->Some_0.shifted(delta))
                &&& final(self).c == Some(old(self).c->Some_0.shifted(delta))
                &&& final(self).d == Some(old(self).d->Some_0.shifted(delta))
            },
            old(self).dragging is Line ==> *final(self) == *old(self),
    {
        match self.dragging {
            BezierShapeType::Start => {
                let point = self.a.unwrap();
                self.a = Some(point.shift(delta));
            },
            BezierShapeType::ControlStart => {
                let point = self.b.unwrap();
                self.b = Some(point.shift(delta));
            },
            BezierShapeType::ControlEnd => {
                let point = self.c.unwrap();
                self.c = Some(point.shift(delta));
            },
            BezierShapeType::End => {
                let point = self.d.unwrap();
                self.d = Some(point.shift(delta));
            },
            BezierShapeType::Line => {},
            BezierShapeType::BezierLine => {
                let point = self.a.unwrap();
                self.a = Some(point.shift(delta));
                let point = self.b.unwrap();
                self.b = Some(point.shift(delta));
                let point = self.c.unwrap();
                self.c = Some(point.shift(delta));
                let point = self.d.unwrap();
                self.d = Some(point.shift(delta));
            },
        }
    }
}

impl Default for BezierDrag {
    fn default() -> (r: Self)
        ensures
            r.is_idle(),
            r.dragging is Start,
    {
        BezierDrag {
            bezier_id: 0,
            entity: None,
            dragging: BezierShapeType::Start,
            start_click: None,
            a: None,
            b: None,
            c: None,
            d: None,
        }
    }
}

} // verus!
