use vstd::prelude::*;

use crate::builder::{bezier_open, curve_spec, logical, Primitive};
use crate::drag::BezierDrag;
use crate::point::Point;
use crate::shape::{BezierShapeType, BezierStyle, ShapeType};

verus! {

/// Whether tag `t` belongs to curve `id` with role `role`.
pub open spec fn tagged(t: ShapeType, id: usize, role: BezierShapeType) -> bool {
    t is Bezier && t->Bezier_0.id == id && t->Bezier_0.shape_type == role
}

/// The position carried by the last primitive of `live` that is tagged with
/// curve `id` and role `role`, if there is one.
pub open spec fn anchor_of(live: Seq<ShapeType>, id: usize, role: BezierShapeType) -> Option<Point>
    decreases live.len(),
{
    if live.len() == 0 {
        None
    } else if tagged(live.last(), id, role) {
        live.last()->Bezier_0.point
    } else {
        anchor_of(live.drop_last(), id, role)
    }
}

/// The slot value after a scan: what was found, else what was there before.
pub open spec fn found_or(found: Option<Point>, prior: Option<Point>) -> Option<Point> {
    if found is Some {
        found
    } else {
        prior
    }
}

/// Curve `id` is fully present among the live tags: each anchor role occurs,
/// and every anchor of that curve carries its position.
pub open spec fn curve_materialized(live: Seq<ShapeType>, id: usize) -> bool {
    &&& forall|i: int|
        0 <= i < live.len() && (#[trigger] live[i]) is Bezier && live[i]->Bezier_0.id == id
            && live[i]->Bezier_0.shape_type.is_anchor() ==> live[i]->Bezier_0.point is Some
    &&& exists|i: int| 0 <= i < live.len() && tagged(#[trigger] live[i], id, BezierShapeType::Start)
    &&& exists|i: int|
        0 <= i < live.len() && tagged(#[trigger] live[i], id, BezierShapeType::ControlStart)
    &&& exists|i: int|
        0 <= i < live.len() && tagged(#[trigger] live[i], id, BezierShapeType::ControlEnd)
    &&& exists|i: int| 0 <= i < live.len() && tagged(#[trigger] live[i], id, BezierShapeType::End)
}

/// Tests `curve_materialized`.
pub fn curve_is_materialized(live: &Vec<ShapeType>, id: usize) -> (r: bool)
    ensures
        r == curve_materialized(live@, id),
{
    let mut found_a = false;
    let mut found_b = false;
    let mut found_c = false;
    let mut found_d = false;
    let mut i: usize = 0;
    while i < live.len()
        invariant
            0 <= i <= live.len(),
            forall|k: int|
                0 <= k < i && (#[trigger] live@[k]) is Bezier && live@[k]->Bezier_0.id == id
                    && live@[k]->Bezier_0.shape_type.is_anchor() ==> live@[k]->Bezier_0.point is Some,
            found_a == exists|k: int| 0 <= k < i && tagged(#[trigger] live@[k], id, BezierShapeType::Start),
            found_b == exists|k: int|
                0 <= k < i && tagged(#[trigger] live@[k], id, BezierShapeType::ControlStart),
            found_c == exists|k: int|
                0 <= k < i && tagged(#[trigger] live@[k], id, BezierShapeType::ControlEnd),
            found_d == exists|k: int| 0 <= k < i && tagged(#[trigger] live@[k], id, BezierShapeType::End),
        decreases live.len() - i,
    {
        if let ShapeType::Bezier(s) = &live[i] {
            if s.id == id {
                match s.shape_type {
                    BezierShapeType::Start => {
                        found_a = true;
                    },
                    BezierShapeType::ControlStart => {
                        found_b = true;
                    },
                    BezierShapeType::ControlEnd => {
                        found_c = true;
                    },
                    BezierShapeType::End => {
                        found_d = true;
                    },
                    _ => {},
                }
                if s.shape_type.is_anchor_role() && s.point.is_none() {
                    assert(!curve_materialized(live@, id));
                    return false;
                }
            }
        }
        i = i + 1;
    }
    found_a && found_b && found_c && found_d
}

proof fn lemma_anchor_found(live: Seq<ShapeType>, id: usize, role: BezierShapeType, j: int)
    requires
        role.is_anchor(),
        0 <= j < live.len(),
        tagged(live[j], id, role),
        forall|i: int|
            0 <= i < live.len() && (#[trigger] live[i]) is Bezier && live[i]->Bezier_0.id == id
                && live[i]->Bezier_0.shape_type.is_anchor() ==> live[i]->Bezier_0.point is Some,
    ensures
        anchor_of(live, id, role) is Some,
    decreases live.len(),
{
    if !tagged(live.last(), id, role) {
        assert(live[live.len() - 1] == live.last());
        assert(live.drop_last()[j] == live[j]);
        lemma_anchor_found(live.drop_last(), id, role, j);
    } else {
        assert(live[live.len() - 1] == live.last());
    }
}

/// Begins a drag on the primitive `target` with tag `target_tag`, pressed at
/// `click`. A primitive that is not part of a curve is ignored. Otherwise the
/// record takes the curve id, the primitive, its role and the click, and the
/// four points are read from the live tags of that curve.
pub fn drag_start(
    drag: &mut BezierDrag,
    target: u64,
    target_tag: &ShapeType,
    click: Point,
    live: &Vec<ShapeType>,
)
    requires
        target_tag is Bezier ==> curve_materialized(live@, target_tag->Bezier_0.id),
    ensures
        !(target_tag is Bezier) ==> *final(drag) == *old(drag),
        target_tag is Bezier ==> {
            let id = target_tag->Bezier_0.id;
            &&& final(drag).bezier_id == id
            &&& final(drag).entity == Some(target)
            &&& final(drag).dragging == target_tag->Bezier_0.shape_type
            &&& final(drag).start_click == Some(click)
            &&& final(drag).a == anchor_of(live@, id, BezierShapeType::Start)
            &&& final(drag).b == anchor_of(live@, id, BezierShapeType::ControlStart)
            &&& final(drag).c == anchor_of(live@, id, BezierShapeType::ControlEnd)
            &&& final(drag).d == anchor_of(live@, id, BezierShapeType::End)
            &&& final(drag).has_points()
        },
{
    let (bezier_id, part_drag) = match target_tag {
        ShapeType::Bezier(bezier_shape) => (bezier_shape.id, bezier_shape.shape_type),
        _ => {
            return ;
        },
    };
    drag.bezier_id = bezier_id;
    drag.entity = Some(target);
    drag.start_click = Some(click);
    drag.dragging = part_drag;
    let ghost a0 = drag.a;
    let ghost b0 = drag.b;
    let ghost c0 = drag.c;
    let ghost d0 = drag.d;
    let ghost start = *drag;

    let mut i: usize = 0;
    while i < live.len()
        invariant
            0 <= i <= live.len(),
            curve_materialized(live@, bezier_id),
            drag.bezier_id == start.bezier_id,
            drag.entity == start.entity,
            drag.start_click == start.start_click,
            drag.dragging == start.dragging,
            drag.a == found_or(anchor_of(live@.take(i as int), bezier_id, BezierShapeType::Start), a0),
            drag.b == found_or(
                anchor_of(live@.take(i as int), bezier_id, BezierShapeType::ControlStart),
                b0,
            ),
            drag.c == found_or(
                anchor_of(live@.take(i as int), bezier_id, BezierShapeType::ControlEnd),
                c0,
            ),
            drag.d == found_or(anchor_of(live@.take(i as int), bezier_id, BezierShapeType::End), d0),
        decreases live.len() - i,
    {
        let t = &live[i];
        assert(live@.take(i + 1).drop_last() =~= live@.take(i as int));
        assert(live@.take(i + 1).last() == live@[i as int]);
        if let ShapeType::Bezier(bezier_shape) = t {
            if bezier_id == bezier_shape.id {
                match bezier_shape.shape_type {
                    BezierShapeType::Start => {
                        let point = bezier_shape.point.unwrap();
                        drag.a = Some(point);
                    },
                    BezierShapeType::ControlStart => {
                        let point = bezier_shape.point.unwrap();
                        drag.b = Some(point);
                    },
                    BezierShapeType::ControlEnd => {
                        let point = bezier_shape.point.unwrap();
                        drag.c = Some(point);
                    },
                    BezierShapeType::End => {
                        let point = bezier_shape.point.unwrap();
                        drag.d = Some(point);
                    },
                    BezierShapeType::Line => {},
                    BezierShapeType::BezierLine => {},
                }
            }
        }
        i = i + 1;
    }
    proof {
        assert(live@.take(live.len() as int) =~= live@);
        let l = live@;
        let j1 = choose|j: int| 0 <= j < l.len() && tagged(#[trigger] l[j], bezier_id, BezierShapeType::Start);
        lemma_anchor_found(l, bezier_id, BezierShapeType::Start, j1);
        let j2 = choose|j: int|
            0 <= j < l.len() && tagged(#[trigger] l[j], bezier_id, BezierShapeType::ControlStart);
        lemma_anchor_found(l, bezier_id, BezierShapeType::ControlStart, j2);
        let j3 = choose|j: int|
            0 <= j < l.len() && tagged(#[trigger] l[j], bezier_id, BezierShapeType::ControlEnd);
        lemma_anchor_found(l, bezier_id, BezierShapeType::ControlEnd, j3);
        let j4 = choose|j: int| 0 <= j < l.len() && tagged(#[trigger] l[j], bezier_id, BezierShapeType::End);
        lemma_anchor_found(l, bezier_id, BezierShapeType::End, j4);
    }
}


/// The entities of `live` that belong to curve `id`, but for `keep`, in order.
pub open spec fn doomed(live: Seq<(u64, ShapeType)>, id: usize, keep: u64) -> Seq<u64>
    decreases live.len(),
{
    if live.len() == 0 {
        Seq::empty()
    } else {
        let (e, t) = live.last();
        let rest = doomed(live.drop_last(), id, keep);
        if t is Bezier && t->Bezier_0.id == id && e != keep {
            rest.push(e)
        } else {
            rest
        }
    }
}

/// The result of one pointer move during a drag.
pub struct DragUpdate {
    /// The primitives of the curve to remove: all but the dragged one.
    pub despawn: Vec<u64>,
    /// The rebuilt curve; the index of each primitive is its stacking rank.
    pub spawn: Vec<Primitive>,
}

/// Moves the dragged point(s) by `delta` (screen coordinates), and says
/// which live primitives of the curve go (all but the dragged `target`) and
/// which are built in their place from the updated points.
pub fn bezier_drag(
    drag: &mut BezierDrag,
    style: &BezierStyle,
    target: u64,
    live: &Vec<(u64, ShapeType)>,
    delta: Point,
) -> (r: DragUpdate)
    requires
        old(drag).has_points(),
        old(drag).can_move(delta),
    ensures
        *final(drag) == old(drag).moved(delta),
        final(drag).has_points(),
        r.despawn@ == doomed(live@, old(drag).bezier_id, target),
        r.spawn@ == curve_spec(
            *style,
            final(drag).bezier_id,
            final(drag).a->Some_0,
            final(drag).b->Some_0,
            final(drag).c->Some_0,
            final(drag).d->Some_0,
        ),
{
    let mut despawn: Vec<u64> = Vec::new();
    let mut i: usize = 0;
    while i < live.len()
        invariant
            0 <= i <= live.len(),
            despawn@ == doomed(live@.take(i as int), drag.bezier_id, target),
        decreases live.len() - i,
    {
        assert(live@.take(i + 1).drop_last() =~= live@.take(i as int));
        assert(live@.take(i + 1).last() == live@[i as int]);
        let (entity, shape_type) = &live[i];
        if let ShapeType::Bezier(bezier) = shape_type {
            if bezier.id == drag.bezier_id && *entity != target {
                despawn.push(*entity);
            }
        }
        i = i + 1;
    }
    assert(live@.take(live.len() as int) =~= live@);
    drag.add_delta(delta);
    let spawn = bezier_open(
        style,
        drag.bezier_id,
        drag.a.unwrap(),
        drag.b.unwrap(),
        drag.c.unwrap(),
        drag.d.unwrap(),
    );
    DragUpdate { despawn, spawn }
}

/// Ends the drag: returns the hidden dragged primitive, which is to be
/// removed, and leaves the record idle.
pub fn drag_end(drag: &mut BezierDrag) -> (r: u64)
    requires
        old(drag).entity is Some,
    ensures
        r == old(drag).entity->Some_0,
        *final(drag) == old(drag).cleared(),
        final(drag).is_idle(),
{
    let entity = drag.entity.unwrap();
    drag.clear_drag();
    entity
}

/// After a pointer move, the curve that was spawned and the curve rebuilt
/// from the record's updated points agree entry by entry on role and
/// carried position; the anchors carry the updated points.
pub proof fn lemma_update_matches_rebuild(
    before: BezierDrag,
    after: BezierDrag,
    style: BezierStyle,
    delta: Point,
    spawned: Seq<Primitive>,
)
    requires
        before.has_points(),
        after == before.moved(delta),
        after.has_points(),
        spawned == curve_spec(style, after.bezier_id, after.a->Some_0, after.b->Some_0, after.c->Some_0, after.d->Some_0),
    ensures
        ({
            let rebuilt = curve_spec(style, after.bezier_id, after.a->Some_0, after.b->Some_0, after.c->Some_0, after.d->Some_0);
            &&& spawned.len() == rebuilt.len()
            &&& forall|i: int| 0 <= i < spawned.len() ==> logical(#[trigger] spawned[i]) == logical(rebuilt[i])
            &&& logical(spawned[0]) == Some((BezierShapeType::Start, after.a))
            &&& logical(spawned[3]) == Some((BezierShapeType::ControlStart, after.b))
            &&& logical(spawned[5]) == Some((BezierShapeType::ControlEnd, after.c))
            &&& logical(spawned[7]) == Some((BezierShapeType::End, after.d))
        }),
{
}

} // verus!
