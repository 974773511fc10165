//! The steering of enemies toward the players.

use vstd::prelude::*;
use crate::components::{Physics, Transform};
use crate::fixed::Fixed;
use crate::store::{Components, Row, Store, StoreView};
use crate::systems::input::{ACCELERATION, MAXSPEED};
use crate::vector::Vec3;

verus! {

/// An entity that chases: one with a placement, motion and the enemy tag.
pub open spec fn chaser(parts: Components) -> bool {
    parts.transform is Some && parts.physics is Some && parts.enemy is Some
}

/// An entity that is chased: one with the player tag and a placement.
pub open spec fn chased(parts: Components) -> bool {
    parts.player is Some && parts.transform is Some
}

/// The acceleration of a chaser at `from` after one pull toward `to`.
///
/// The way to the target in the plane of play, times `ACCELERATION`, by ten,
/// times the frame's duration, is added; then both axes are held within
/// `MAXSPEED` and the depth is set to zero.
pub open spec fn spec_pulled(acceleration: Vec3, from: Vec3, to: Vec3, delta: Fixed) -> Vec3 {
    let zero = Fixed { raw: 0 };
    let way = Vec3 { x: to.x.spec_minus(from.x), y: to.y.spec_minus(from.y), z: zero };
    let sum = acceleration.spec_plus(
        way.spec_scaled(Fixed::spec_from_int(ACCELERATION)).spec_shrunk(
            Fixed { raw: 10_000_000 },
        ).spec_scaled(delta),
    );
    let top = Fixed::spec_from_int(MAXSPEED);
    Vec3 {
        x: sum.x.spec_clamped(top.spec_negated(), top),
        y: sum.y.spec_clamped(top.spec_negated(), top),
        z: zero,
    }
}

#[verifier::when_used_as_spec(spec_pulled)]
pub fn pulled(acceleration: Vec3, from: Vec3, to: Vec3, delta: Fixed) -> (r: Vec3)
    ensures
        r == spec_pulled(acceleration, from, to, delta),
{
    let zero = Fixed { raw: 0 };
    let way = Vec3 { x: to.x.minus(from.x), y: to.y.minus(from.y), z: zero };
    let sum = acceleration.plus(
        way.scaled(Fixed::from_int(ACCELERATION)).shrunk(Fixed { raw: 10_000_000 }).scaled(delta),
    );
    let top = Fixed::from_int(MAXSPEED);
    Vec3 {
        x: sum.x.clamped(top.negated(), top),
        y: sum.y.clamped(top.negated(), top),
        z: zero,
    }
}

/// The acceleration of the chaser at position `j` after the pulls of the
/// chased entities at the positions below `upto`, one after the other.
pub open spec fn chase(rows: Seq<Row>, j: int, upto: int, delta: Fixed) -> Vec3
    decreases upto,
{
    if upto <= 0 {
        rows[j].parts.physics->0.acceleration
    } else {
        let before = chase(rows, j, upto - 1, delta);
        if chased(rows[upto - 1].parts) {
            spec_pulled(
                before,
                rows[j].parts.transform->0.position,
                rows[upto - 1].parts.transform->0.position,
                delta,
            )
        } else {
            before
        }
    }
}

/// `row` with the acceleration replaced, if it has motion.
pub open spec fn driven(row: Row, acceleration: Vec3) -> Row {
    match row.parts.physics {
        Some(physics) => Row {
            id: row.id,
            parts: Components {
                physics: Some(Physics { acceleration, deceleration: physics.deceleration }),
                ..row.parts
            },
        },
        None => row,
    }
}

/// The row at position `j` after the steering of enemies.
pub open spec fn enemyai_row(rows: Seq<Row>, j: int, delta: Fixed) -> Row {
    if chaser(rows[j].parts) {
        driven(rows[j], chase(rows, j, rows.len() as int, delta))
    } else {
        rows[j]
    }
}

/// The store after the steering of enemies.
pub open spec fn enemyai_spec(before: StoreView, delta: Fixed) -> StoreView {
    StoreView {
        rows: Seq::new(before.rows.len(), |j: int| enemyai_row(before.rows, j, delta)),
        next: before.next,
    }
}

/// Runs the steering of enemies over the store: every chaser is pulled
/// toward every chased entity, in the order of the store.
pub fn enemyai(store: &mut Store, delta: Fixed)
    requires
        old(store).wf(),
    ensures
        final(store).wf(),
        final(store)@ == enemyai_spec(old(store)@, delta),
{
    let count: usize = store.len();
    let ghost rows: Seq<Row> = store@.rows;
    let mut j: usize = 0;
    while j < count
        invariant
            store.wf(),
            rows == old(store)@.rows,
            store@.next == old(store)@.next,
            count == rows.len(),
            store@.rows.len() == count,
            j <= count,
            forall|k: int| 0 <= k < j ==> (#[trigger] store@.rows[k]) == enemyai_row(rows, k, delta),
            forall|k: int| j <= k < count ==> (#[trigger] store@.rows[k]) == rows[k],
        decreases count - j,
    {
        let row: Row = store.row(j);
        match (row.parts.transform, row.parts.physics, row.parts.enemy) {
            (Some(transform), Some(physics), Some(_)) => {
                let mut acceleration: Vec3 = physics.acceleration;
                let mut p: usize = 0;
                while p < count
                    invariant
                        rows == old(store)@.rows,
                        count == rows.len(),
                        store@.rows.len() == count,
                        j < count,
                        p <= count,
                        row == rows[j as int],
                        row.parts.transform == Some(transform),
                        row.parts.physics == Some(physics),
                        forall|k: int|
                            0 <= k < j ==> (#[trigger] store@.rows[k]) == enemyai_row(
                                rows,
                                k,
                                delta,
                            ),
                        forall|k: int| j <= k < count ==> (#[trigger] store@.rows[k]) == rows[k],
                        acceleration == chase(rows, j as int, p as int, delta),
                    decreases count - p,
                {
                    let other: Row = store.row(p);
                    proof {
                        if p < j {
                            assert(store@.rows[p as int] == enemyai_row(rows, p as int, delta));
                        } else {
                            assert(store@.rows[p as int] == rows[p as int]);
                        }
                        assert(other.parts.player == rows[p as int].parts.player);
                        assert(other.parts.transform == rows[p as int].parts.transform);
                    }
                    match (other.parts.player, other.parts.transform) {
                        (Some(_), Some(goal)) => {
                            acceleration = pulled(
                                acceleration,
                                transform.position,
                                goal.position,
                                delta,
                            );
                        },
                        _ => {},
                    }
                    p = p + 1;
                }
                let mut parts: Components = row.parts;
                parts.physics = Some(
                    Physics { acceleration, deceleration: physics.deceleration },
                );
                store.set_parts(j, parts);
            },
            _ => {},
        }
        j = j + 1;
    }
    assert(store@.rows =~= enemyai_spec(old(store)@, delta).rows);
}

} // verus!
