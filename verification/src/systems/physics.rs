//! The integration of motion.

use vstd::prelude::*;
use crate::components::{Physics, Transform};
use crate::fixed::Fixed;
use crate::store::{Components, Row, Store, StoreView};
use crate::vector::{Vec2, Vec3};

verus! {

/// The rotation of an entity that moves with `acceleration`: the unit vector
/// along the acceleration in the plane of play. An entity whose acceleration
/// in that plane is zero keeps the rotation it has.
pub open spec fn spec_heading(rotation: Vec3, acceleration: Vec3) -> Vec3 {
    if acceleration.x.raw == 0 && acceleration.y.raw == 0 {
        rotation
    } else {
        let along = Vec2 { x: acceleration.x, y: acceleration.y }.spec_unit();
        Vec3 { x: along.x, y: along.y, z: Fixed { raw: 0 } }
    }
}

#[verifier::when_used_as_spec(spec_heading)]
pub fn heading(rotation: Vec3, acceleration: Vec3) -> (r: Vec3)
    ensures
        r == spec_heading(rotation, acceleration),
{
    if acceleration.x.raw == 0 && acceleration.y.raw == 0 {
        rotation
    } else {
        let along = Vec2 { x: acceleration.x, y: acceleration.y }.unit();
        Vec3 { x: along.x, y: along.y, z: Fixed { raw: 0 } }
    }
}

/// The acceleration that is left after one frame of decay at the rate `deceleration`.
pub open spec fn spec_decayed(acceleration: Vec3, deceleration: Fixed, delta: Fixed) -> Vec3 {
    acceleration.spec_minus(acceleration.spec_scaled(deceleration).spec_scaled(delta))
}

#[verifier::when_used_as_spec(spec_decayed)]
pub fn decayed(acceleration: Vec3, deceleration: Fixed, delta: Fixed) -> (r: Vec3)
    ensures
        r == spec_decayed(acceleration, deceleration, delta),
{
    acceleration.minus(acceleration.scaled(deceleration).scaled(delta))
}

/// A row after one frame of motion.
///
/// An entity with a placement and motion moves by its acceleration times the
/// frame's duration; its acceleration decays; its rotation follows what is
/// left of the acceleration. Any other row stays as it is.
pub open spec fn physics_row(row: Row, delta: Fixed) -> Row {
    match (row.parts.transform, row.parts.physics) {
        (Some(transform), Some(physics)) => {
            let left = spec_decayed(physics.acceleration, physics.deceleration, delta);
            Row {
                id: row.id,
                parts: Components {
                    transform: Some(
                        Transform {
                            position: transform.position.spec_plus(
                                physics.acceleration.spec_scaled(delta),
                            ),
                            scale: transform.scale,
                            rotation: spec_heading(transform.rotation, left),
                        },
                    ),
                    physics: Some(
                        Physics { acceleration: left, deceleration: physics.deceleration },
                    ),
                    ..row.parts
                },
            }
        },
        _ => row,
    }
}

/// The store after one frame of motion.
pub open spec fn physics_spec(before: StoreView, delta: Fixed) -> StoreView {
    StoreView {
        rows: Seq::new(before.rows.len(), |j: int| physics_row(before.rows[j], delta)),
        next: before.next,
    }
}

/// Runs the integration of motion over the store.
pub fn physics(store: &mut Store, delta: Fixed)
    requires
        old(store).wf(),
    ensures
        final(store).wf(),
        final(store)@ == physics_spec(old(store)@, delta),
{
    let count: usize = store.len();
    let ghost rows: Seq<Row> = store@.rows;
    let mut j: usize = 0;
    while j < count
        invariant
            store.wf(),
            rows == old(store)@.rows,
            store@.next == old(store)@.next,
            count == rows.len(),
            store@.rows.len() == count,
            j <= count,
            forall|k: int| 0 <= k < j ==> (#[trigger] store@.rows[k]) == physics_row(rows[k], delta),
            forall|k: int| j <= k < count ==> (#[trigger] store@.rows[k]) == rows[k],
        decreases count - j,
    {
        let row: Row = store.row(j);
        match (row.parts.transform, row.parts.physics) {
            (Some(transform), Some(physics)) => {
                let left: Vec3 = decayed(physics.acceleration, physics.deceleration, delta);
                let mut parts: Components = row.parts;
                parts.transform = Some(
                    Transform {
                        position: transform.position.plus(physics.acceleration.scaled(delta)),
                        scale: transform.scale,
                        rotation: heading(transform.rotation, left),
                    },
                );
                parts.physics = Some(
                    Physics { acceleration: left, deceleration: physics.deceleration },
                );
                store.set_parts(j, parts);
            },
            _ => {},
        }
        j = j + 1;
    }
    assert(store@.rows =~= physics_spec(old(store)@, delta).rows);
}

} // verus!
