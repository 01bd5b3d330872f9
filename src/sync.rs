//! Reconciliation of the 2-dimensional state of an entity with the host's transform
//!
//! Each update cycle runs [`sync_direction_and_rotation`], then [`sync_transform_with_2d`],
//! once per entity, after the kinematics have settled. A field is never written with the
//! value it already holds: such a write would be seen as a change in the next cycle and
//! the fields would keep triggering each other.
use vstd::prelude::*;

use crate::orientation::{lemma_round_trip, Direction, Rotation};
use crate::position::{Coordinate, FloatCoordinateConversionError, Position};

verus! {

/// A field as the host keeps it: its value, and whether it changed since it was last observed
#[derive(Clone, Copy, Debug, PartialEq, Eq)]
pub struct Watched<T> {
    pub value: T,
    pub changed: bool,
}

impl<T> Watched<T> {
    /// The field after `v` is written to it, unless it already holds `v`
    pub open spec fn assigned(self, v: T) -> Watched<T> {
        if self.value == v {
            self
        } else {
            Watched { value: v, changed: true }
        }
    }

    /// The number of writes that assigning `v` takes: none when the field already holds it
    pub open spec fn writes_to(self, v: T) -> nat {
        if self.value == v {
            0
        } else {
            1
        }
    }

    /// A field with the given value and change flag
    pub fn new(value: T, changed: bool) -> (r: Watched<T>)
        ensures
            r == (Watched { value, changed }),
    {
        Watched { value, changed }
    }
}

/// What the reconciliation sees of the host's 3-dimensional transform
///
/// The rotation is the host rotation's angle in the plane, off-plane parts dropped; each
/// translation axis is the host's value read through the coordinate type, which may fail.
#[derive(Debug, PartialEq)]
pub struct HostTransform<C: Coordinate> {
    pub rotation: Rotation,
    pub x: Result<C, FloatCoordinateConversionError>,
    pub y: Result<C, FloatCoordinateConversionError>,
}

/// The fields of one entity that the reconciliation reads and writes
///
/// The transform is always there; the 2-dimensional fields may each be missing.
#[derive(Debug, PartialEq)]
pub struct TwoDEntity<C: Coordinate> {
    pub transform: Watched<HostTransform<C>>,
    pub rotation: Option<Watched<Rotation>>,
    pub direction: Option<Watched<Direction>>,
    pub position: Option<Watched<Position<C>>>,
}

/// Step 1 on a direction and a rotation: the one that changed is copied into the other, and
/// the rotation wins when both changed
pub open spec fn direction_rotation_step(d: Watched<Direction>, r: Watched<Rotation>) -> (
    Watched<Direction>,
    Watched<Rotation>,
    nat,
) {
    if r.changed {
        let nd = Direction::spec_from_rotation(r.value);
        (d.assigned(nd), r, d.writes_to(nd))
    } else if d.changed {
        let nr = Rotation::spec_from_direction(d.value);
        (d, r.assigned(nr), r.writes_to(nr))
    } else {
        (d, r, 0)
    }
}

/// Synchronizes the [`Direction`] and [`Rotation`] of an entity
///
/// If they are desynced, whichever one was changed is used and the other is made consistent.
/// If both were changed, the [`Rotation`] is used. Returns the number of writes.
pub fn sync_direction_and_rotation(
    direction: &mut Watched<Direction>,
    rotation: &mut Watched<Rotation>,
) -> (writes: usize)
    ensures
        (*final(direction), *final(rotation), writes as nat) == direction_rotation_step(
            *old(direction),
            *old(rotation),
        ),
{
    if rotation.changed {
        let new_direction = Direction::from_rotation(rotation.value);
        if direction.value != new_direction {
            direction.value = new_direction;
            direction.changed = true;
            1
        } else {
            0
        }
    } else if direction.changed {
        let new_rotation = Rotation::from_direction(direction.value);
        if rotation.value != new_rotation {
            rotation.value = new_rotation;
            rotation.changed = true;
            1
        } else {
            0
        }
    } else {
        0
    }
}


/// The host transform with its planar rotation replaced
pub open spec fn with_rotation<C: Coordinate>(t: HostTransform<C>, a: Rotation) -> HostTransform<C> {
    HostTransform { rotation: a, x: t.x, y: t.y }
}

/// The host transform with its x translation replaced
pub open spec fn with_x<C: Coordinate>(t: HostTransform<C>, c: C) -> HostTransform<C> {
    HostTransform { rotation: t.rotation, x: Ok(c), y: t.y }
}

/// The host transform with its y translation replaced
pub open spec fn with_y<C: Coordinate>(t: HostTransform<C>, c: C) -> HostTransform<C> {
    HostTransform { rotation: t.rotation, x: t.x, y: Ok(c) }
}

/// Rotation against the host rotation: a changed rotation is pushed, else a changed transform
/// is pulled
pub open spec fn rotation_channel<C: Coordinate>(
    t: Watched<HostTransform<C>>,
    r: Watched<Rotation>,
) -> (Watched<HostTransform<C>>, Watched<Rotation>, nat) {
    if r.changed {
        let nt = with_rotation(t.value, r.value);
        (t.assigned(nt), r, t.writes_to(nt))
    } else if t.changed {
        (t, r.assigned(t.value.rotation), r.writes_to(t.value.rotation))
    } else {
        (t, r, 0)
    }
}

/// Direction against the host rotation: a changed direction is pushed, else a changed
/// transform is pulled
pub open spec fn direction_channel<C: Coordinate>(
    t: Watched<HostTransform<C>>,
    d: Watched<Direction>,
) -> (Watched<HostTransform<C>>, Watched<Direction>, nat) {
    if d.changed {
        let nt = with_rotation(t.value, Rotation::spec_from_direction(d.value));
        (t.assigned(nt), d, t.writes_to(nt))
    } else if t.changed {
        let nd = Direction::spec_from_rotation(t.value.rotation);
        (t, d.assigned(nd), d.writes_to(nd))
    } else {
        (t, d, 0)
    }
}

/// Position against the host translation: a changed position is pushed axis by axis, else a
/// changed transform is pulled axis by axis, skipping each axis that cannot be read
pub open spec fn position_channel<C: Coordinate>(
    t: Watched<HostTransform<C>>,
    p: Watched<Position<C>>,
) -> (Watched<HostTransform<C>>, Watched<Position<C>>, nat) {
    if p.changed {
        let tx = t.assigned(with_x(t.value, p.value.x));
        let txy = tx.assigned(with_y(tx.value, p.value.y));
        (txy, p, t.writes_to(with_x(t.value, p.value.x)) + tx.writes_to(with_y(tx.value, p.value.y)))
    } else if t.changed {
        let (px, wx) = match t.value.x {
            Ok(c) => (p.assigned(Position { x: c, y: p.value.y }), p.writes_to(Position { x: c, y: p.value.y })),
            Err(_) => (p, 0nat),
        };
        let (pxy, wy) = match t.value.y {
            Ok(c) => (px.assigned(Position { x: px.value.x, y: c }), px.writes_to(Position { x: px.value.x, y: c })),
            Err(_) => (px, 0nat),
        };
        (t, pxy, wx + wy)
    } else {
        (t, p, 0)
    }
}

fn sync_rotation_with_transform<C: Coordinate>(
    transform: &mut Watched<HostTransform<C>>,
    rotation: &mut Watched<Rotation>,
) -> (writes: usize)
    ensures
        (*final(transform), *final(rotation), writes as nat) == rotation_channel(
            *old(transform),
            *old(rotation),
        ),
{
    if rotation.changed {
        if transform.value.rotation != rotation.value {
            transform.value.rotation = rotation.value;
            transform.changed = true;
            1
        } else {
            0
        }
    } else if transform.changed {
        if rotation.value != transform.value.rotation {
            rotation.value = transform.value.rotation;
            rotation.changed = true;
            1
        } else {
            0
        }
    } else {
        0
    }
}

fn sync_direction_with_transform<C: Coordinate>(
    transform: &mut Watched<HostTransform<C>>,
    direction: &mut Watched<Direction>,
) -> (writes: usize)
    ensures
        (*final(transform), *final(direction), writes as nat) == direction_channel(
            *old(transform),
            *old(direction),
        ),
{
    if direction.changed {
        let new_rotation = Rotation::from_direction(direction.value);
        if transform.value.rotation != new_rotation {
            transform.value.rotation = new_rotation;
            transform.changed = true;
            1
        } else {
            0
        }
    } else if transform.changed {
        let new_direction = Direction::from_rotation(transform.value.rotation);
        if direction.value != new_direction {
            direction.value = new_direction;
            direction.changed = true;
            1
        } else {
            0
        }
    } else {
        0
    }
}


/// Whether a translation axis reads as exactly the coordinate `c`
fn axis_reads<C: Coordinate>(axis: Result<C, FloatCoordinateConversionError>, c: C) -> (r: bool)
    ensures
        r == (axis == Ok::<C, FloatCoordinateConversionError>(c)),
{
    match axis {
        Ok(v) => {
            let same = v.same(c);
            proof {
                if same {
                    C::lemma_value_injective(v, c);
                }
            }
            same
        },
        Err(_) => false,
    }
}

/// Whether a pull into the position fails on each axis: the position did not change, the
/// transform did, and the axis cannot be read as a coordinate
pub open spec fn pull_fails<C: Coordinate>(
    t: Watched<HostTransform<C>>,
    p: Watched<Position<C>>,
) -> (bool, bool) {
    let pulls = !p.changed && t.changed;
    (pulls && t.value.x is Err, pulls && t.value.y is Err)
}

fn sync_position_with_transform<C: Coordinate>(
    transform: &mut Watched<HostTransform<C>>,
    position: &mut Watched<Position<C>>,
) -> (r: (usize, bool, bool))
    ensures
        (*final(transform), *final(position), r.0 as nat) == position_channel(
            *old(transform),
            *old(position),
        ),
        (r.1, r.2) == pull_fails(*old(transform), *old(position)),
{
    if position.changed {
        let mut writes: usize = 0;
        let new_x = position.value.x;
        if !axis_reads(transform.value.x, new_x) {
            transform.value.x = Ok(new_x);
            transform.changed = true;
            writes = writes + 1;
        }
        let new_y = position.value.y;
        if !axis_reads(transform.value.y, new_y) {
            transform.value.y = Ok(new_y);
            transform.changed = true;
            writes = writes + 1;
        }
        (writes, false, false)
    } else if transform.changed {
        let mut writes: usize = 0;
        let mut x_failed = false;
        let mut y_failed = false;
        match transform.value.x {
            Ok(new_x) => {
                let same = position.value.x.same(new_x);
                proof {
                    if same {
                        C::lemma_value_injective(position.value.x, new_x);
                    }
                }
                if !same {
                    position.value.x = new_x;
                    position.changed = true;
                    writes = writes + 1;
                }
            },
            Err(_) => {
                x_failed = true;
            },
        }
        match transform.value.y {
            Ok(new_y) => {
                let same = position.value.y.same(new_y);
                proof {
                    if same {
                        C::lemma_value_injective(position.value.y, new_y);
                    }
                }
                if !same {
                    position.value.y = new_y;
                    position.changed = true;
                    writes = writes + 1;
                }
            },
            Err(_) => {
                y_failed = true;
            },
        }
        (writes, x_failed, y_failed)
    } else {
        (0, false, false)
    }
}


/// The host transform and rotation after the rotation sub-channel, with its writes
pub open spec fn after_rotation<C: Coordinate>(e: TwoDEntity<C>) -> (
    Watched<HostTransform<C>>,
    Option<Watched<Rotation>>,
    nat,
) {
    match e.rotation {
        Some(r) => {
            let (t, r1, w) = rotation_channel(e.transform, r);
            (t, Some(r1), w)
        },
        None => (e.transform, None, 0),
    }
}

/// The host transform and direction after the direction sub-channel, with its writes
pub open spec fn after_direction<C: Coordinate>(e: TwoDEntity<C>) -> (
    Watched<HostTransform<C>>,
    Option<Watched<Direction>>,
    nat,
) {
    let t = after_rotation(e).0;
    match e.direction {
        Some(d) => {
            let (t1, d1, w) = direction_channel(t, d);
            (t1, Some(d1), w)
        },
        None => (t, None, 0),
    }
}

/// Step 2 on an entity: the rotation, direction and position sub-channels in turn, with the
/// number of writes
pub open spec fn transform_step<C: Coordinate>(e: TwoDEntity<C>) -> (TwoDEntity<C>, nat) {
    let (t_rot, rot, w_rot) = after_rotation(e);
    let (t_dir, dir, w_dir) = after_direction(e);
    let (t_pos, pos, w_pos) = match e.position {
        Some(p) => {
            let (t, moved, w) = position_channel(t_dir, p);
            (t, Some(moved), w)
        },
        None => (t_dir, None, 0nat),
    };
    (TwoDEntity { transform: t_pos, rotation: rot, direction: dir, position: pos }, w_rot + w_dir + w_pos)
}

/// Which translation axes step 2 could not read into the position
pub open spec fn transform_pull_fails<C: Coordinate>(e: TwoDEntity<C>) -> (bool, bool) {
    match e.position {
        Some(p) => pull_fails(after_direction(e).0, p),
        None => (false, false),
    }
}

/// What one run of [`sync_transform_with_2d`] did
#[derive(Clone, Copy, Debug, PartialEq, Eq)]
pub struct TransformSync {
    /// The number of fields written
    pub writes: usize,
    /// The x translation had to be pulled into the position and could not be read
    pub x_unreadable: bool,
    /// The y translation had to be pulled into the position and could not be read
    pub y_unreadable: bool,
}

/// Synchronizes the [`Rotation`], [`Direction`] and [`Position`] of an entity with its host
/// transform, and the other way round
///
/// If both the transform and its 2-dimensional analogue changed, the 2-dimensional one wins.
/// The depth of the host translation is never touched. An axis of the host translation that
/// cannot be read as a coordinate leaves that axis of the position unchanged and is reported.
pub fn sync_transform_with_2d<C: Coordinate>(entity: &mut TwoDEntity<C>) -> (out: TransformSync)
    ensures
        (*final(entity), out.writes as nat) == transform_step(*old(entity)),
        (out.x_unreadable, out.y_unreadable) == transform_pull_fails(*old(entity)),
{
    let mut writes: usize = 0;
    if let Some(mut rotation) = entity.rotation {
        let w = sync_rotation_with_transform(&mut entity.transform, &mut rotation);
        entity.rotation = Some(rotation);
        writes = writes + w;
    }
    if let Some(mut direction) = entity.direction {
        let w = sync_direction_with_transform(&mut entity.transform, &mut direction);
        entity.direction = Some(direction);
        writes = writes + w;
    }
    let mut x_unreadable = false;
    let mut y_unreadable = false;
    if let Some(mut position) = entity.position {
        let (w, xf, yf) = sync_position_with_transform(&mut entity.transform, &mut position);
        entity.position = Some(position);
        writes = writes + w;
        x_unreadable = xf;
        y_unreadable = yf;
    }
    TransformSync { writes, x_unreadable, y_unreadable }
}


/// Step 1 on an entity that has both a direction and a rotation; others are left as they are
pub open spec fn orientation_step<C: Coordinate>(e: TwoDEntity<C>) -> (TwoDEntity<C>, nat) {
    match (e.direction, e.rotation) {
        (Some(d), Some(r)) => {
            let (d1, r1, w) = direction_rotation_step(d, r);
            (
                TwoDEntity {
                    transform: e.transform,
                    rotation: Some(r1),
                    direction: Some(d1),
                    position: e.position,
                },
                w,
            )
        },
        _ => (e, 0),
    }
}

/// One full cycle of reconciliation on an entity: step 1, then step 2
pub open spec fn reconcile_step<C: Coordinate>(e: TwoDEntity<C>) -> (TwoDEntity<C>, nat) {
    let (e1, w1) = orientation_step(e);
    let (e2, w2) = transform_step(e1);
    (e2, w1 + w2)
}

/// Runs one full cycle of reconciliation on an entity: [`sync_direction_and_rotation`] where
/// the entity has both a direction and a rotation, then [`sync_transform_with_2d`]
pub fn reconcile<C: Coordinate>(entity: &mut TwoDEntity<C>) -> (out: TransformSync)
    ensures
        (*final(entity), out.writes as nat) == reconcile_step(*old(entity)),
        (out.x_unreadable, out.y_unreadable) == transform_pull_fails(
            orientation_step(*old(entity)).0,
        ),
{
    let mut first: usize = 0;
    if let (Some(mut direction), Some(mut rotation)) = (entity.direction, entity.rotation) {
        first = sync_direction_and_rotation(&mut direction, &mut rotation);
        entity.direction = Some(direction);
        entity.rotation = Some(rotation);
    }
    let out = sync_transform_with_2d(entity);
    TransformSync { writes: first + out.writes, x_unreadable: out.x_unreadable, y_unreadable: out.y_unreadable }
}

/// A field as the next cycle sees it when nothing outside wrote to it: marked changed exactly
/// when the last cycle gave it a new value
pub open spec fn seen_next<T>(before: T, after: Watched<T>) -> Watched<T> {
    Watched { value: after.value, changed: after.value != before }
}

/// An optional field as the next cycle sees it when nothing outside wrote to it
pub open spec fn seen_next_opt<T>(before: Option<Watched<T>>, after: Option<Watched<T>>) -> Option<
    Watched<T>,
> {
    match (before, after) {
        (Some(b), Some(a)) => Some(seen_next(b.value, a)),
        _ => after,
    }
}

/// An entity as the next cycle sees it when nothing outside wrote to it between the cycle
/// that took it from `before` to `after` and the next one
pub open spec fn next_cycle<C: Coordinate>(before: TwoDEntity<C>, after: TwoDEntity<C>) -> TwoDEntity<
    C,
> {
    TwoDEntity {
        transform: seen_next(before.transform.value, after.transform),
        rotation: seen_next_opt(before.rotation, after.rotation),
        direction: seen_next_opt(before.direction, after.direction),
        position: seen_next_opt(before.position, after.position),
    }
}

/// When both the rotation and the direction changed in the same cycle, the rotation wins:
/// afterwards the rotation keeps its new value and the direction is the one it faces
pub proof fn lemma_rotation_wins<C: Coordinate>(e: TwoDEntity<C>)
    requires
        e.rotation is Some,
        e.direction is Some,
        e.rotation->0.changed,
        e.direction->0.changed,
    ensures
        reconcile_step(e).0.rotation == Some(
            Watched { value: e.rotation->0.value, changed: true },
        ),
        reconcile_step(e).0.direction is Some,
        reconcile_step(e).0.direction->0.value == Direction::spec_from_rotation(
            e.rotation->0.value,
        ),
{
    lemma_round_trip(e.rotation->0.value, e.direction->0.value);
}

/// The rotation and the direction, where present, face the way the host rotation does
pub open spec fn orientation_agrees<C: Coordinate>(e: TwoDEntity<C>) -> bool {
    &&& (e.rotation is Some ==> e.rotation->0.value == e.transform.value.rotation)
    &&& (e.direction is Some ==> e.direction->0.value == Direction::spec_from_rotation(
        e.transform.value.rotation,
    ))
}

/// Running the reconciliation a second time, with nothing written from outside in between,
/// writes nothing
///
/// This is left open in three cases. The direction and the transform both changed while the
/// rotation did not: there the rotation is pulled from the transform and the direction then
/// pushed over it. None of the rotation, the direction and the transform changed, and they
/// disagree: a push of the position then marks the transform changed, and the next cycle
/// pulls its rotation. And the entity has a position while the host translation cannot be
/// read on some axis.
pub proof fn lemma_second_run_writes_nothing<C: Coordinate>(e: TwoDEntity<C>)
    requires
        !e.transform.changed && !(e.rotation is Some && e.rotation->0.changed) && !(
        e.direction is Some && e.direction->0.changed) ==> orientation_agrees(e),
        !(e.direction is Some && e.rotation is Some && e.direction->0.changed
            && !e.rotation->0.changed && e.transform.changed),
        e.position is Some ==> e.transform.value.x is Ok && e.transform.value.y is Ok,
    ensures
        reconcile_step(next_cycle(e, reconcile_step(e).0)).1 == 0,
{
    match (e.direction, e.rotation) {
        (Some(d), Some(r)) => {
            lemma_round_trip(r.value, d.value);
            lemma_round_trip(Rotation::spec_from_direction(d.value), Direction::spec_from_rotation(r.value));
            lemma_round_trip(e.transform.value.rotation, Direction::spec_from_rotation(e.transform.value.rotation));
        },
        (Some(d), None) => {
            lemma_round_trip(e.transform.value.rotation, d.value);
        },
        _ => {},
    }
}

/// A host translation whose x axis cannot be read as a coordinate still has its y axis pulled
/// into the position, and only the x axis is reported
pub proof fn lemma_axis_failure_isolated<C: Coordinate>(e: TwoDEntity<C>)
    requires
        e.position is Some,
        !e.position->0.changed,
        e.transform.changed,
        e.transform.value.x is Err,
        e.transform.value.y is Ok,
    ensures
        transform_step(e).0.position is Some,
        transform_step(e).0.position->0.value == (Position {
            x: e.position->0.value.x,
            y: e.transform.value.y->Ok_0,
        }),
        transform_pull_fails(e) == (true, false),
{
}

} // verus!
