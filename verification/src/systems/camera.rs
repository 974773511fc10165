//! The camera system: a camera follows the entity it is bound to.

use vstd::prelude::*;
use crate::components::Camera;
use crate::fixed::Fixed;
use crate::store::{lemma_same_ids, lookup, Components, EntityId, Row, Store, StoreView};
use crate::vector::Vec3;

verus! {

/// Where the entity `id` is, if it is alive and has a placement.
pub open spec fn placed(rows: Seq<Row>, id: EntityId) -> Option<Vec3> {
    match lookup(rows, id) {
        Some(parts) => match parts.transform {
            Some(transform) => Some(transform.position),
            None => None,
        },
        None => None,
    }
}

/// A camera after one frame of following an entity at `position`.
///
/// It looks at the point at depth one hundred over the entity. Its eye moves
/// toward the point at depth zero under the entity, by the share of the way
/// that is a fifth of the remaining distance times the frame's duration.
pub open spec fn spec_following(camera: Camera, position: Vec3, delta: Fixed) -> Camera {
    let goal = Vec3 { x: position.x, y: position.y, z: Fixed { raw: 0 } };
    Camera {
        eye: camera.eye.spec_lerp(
            goal,
            camera.eye.spec_minus(goal).spec_length().spec_divided_by(
                Fixed { raw: 5_000_000 },
            ).spec_times(delta),
        ),
        target: Vec3 { x: position.x, y: position.y, z: Fixed { raw: 100_000_000 } },
        up: camera.up,
        aspect: camera.aspect,
        fovy: camera.fovy,
        znear: camera.znear,
        zfar: camera.zfar,
    }
}

#[verifier::when_used_as_spec(spec_following)]
pub fn following(camera: Camera, position: Vec3, delta: Fixed) -> (r: Camera)
    ensures
        r == spec_following(camera, position, delta),
{
    let goal = Vec3 { x: position.x, y: position.y, z: Fixed { raw: 0 } };
    Camera {
        eye: camera.eye.lerp(
            goal,
            camera.eye.minus(goal).length().divided_by(Fixed { raw: 5_000_000 }).times(delta),
        ),
        target: Vec3 { x: position.x, y: position.y, z: Fixed { raw: 100_000_000 } },
        up: camera.up,
        aspect: camera.aspect,
        fovy: camera.fovy,
        znear: camera.znear,
        zfar: camera.zfar,
    }
}

/// The row at position `j` after the camera system: a camera that is bound
/// to a live entity with a placement follows it; any other row stays as it is.
pub open spec fn camera_row(rows: Seq<Row>, j: int, delta: Fixed) -> Row {
    let row = rows[j];
    match (row.parts.camera, row.parts.camera_follow) {
        (Some(camera), Some(follow)) => match placed(rows, follow.entity) {
            Some(position) => Row {
                id: row.id,
                parts: Components {
                    camera: Some(spec_following(camera, position, delta)),
                    ..row.parts
                },
            },
            None => row,
        },
        _ => row,
    }
}

/// The store after the camera system.
pub open spec fn camera_spec(before: StoreView, delta: Fixed) -> StoreView {
    StoreView {
        rows: Seq::new(before.rows.len(), |j: int| camera_row(before.rows, j, delta)),
        next: before.next,
    }
}

/// Runs the camera system over the store.
pub fn camera(store: &mut Store, delta: Fixed)
    requires
        old(store).wf(),
    ensures
        final(store).wf(),
        final(store)@ == camera_spec(old(store)@, delta),
{
    let count: usize = store.len();
    let ghost rows: Seq<Row> = store@.rows;
    let mut j: usize = 0;
    while j < count
        invariant
            store.wf(),
            old(store).wf(),
            rows == old(store)@.rows,
            store@.next == old(store)@.next,
            count == rows.len(),
            store@.rows.len() == count,
            j <= count,
            forall|k: int| 0 <= k < j ==> (#[trigger] store@.rows[k]) == camera_row(rows, k, delta),
            forall|k: int| j <= k < count ==> (#[trigger] store@.rows[k]) == rows[k],
        decreases count - j,
    {
        let row: Row = store.row(j);
        match (row.parts.camera, row.parts.camera_follow) {
            (Some(camera), Some(follow)) => {
                let found = store.get(follow.entity);
                proof {
                    let now = store@.rows;
                    assert forall|k: int| 0 <= k < count implies (#[trigger] rows[k]).id
                        == now[k].id && rows[k].parts.transform == now[k].parts.transform by {
                        if k < j {
                            assert(now[k] == camera_row(rows, k, delta));
                        } else {
                            assert(now[k] == rows[k]);
                        }
                    }
                    lemma_same_ids(rows, now, follow.entity);
                    assert(placed(now, follow.entity) == placed(rows, follow.entity));
                }
                match found {
                    Some(parts) => match parts.transform {
                        Some(transform) => {
                            let mut parts: Components = row.parts;
                            parts.camera = Some(following(camera, transform.position, delta));
                            store.set_parts(j, parts);
                        },
                        None => {},
                    },
                    None => {},
                }
            },
            _ => {},
        }
        j = j + 1;
    }
    assert(store@.rows =~= camera_spec(old(store)@, delta).rows);
}

} // verus!
