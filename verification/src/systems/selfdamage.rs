//! The decay of entities that damage themselves.

use vstd::prelude::*;
use crate::components::Life;
use crate::fixed::Fixed;
use crate::store::{Components, Row, Store, StoreView};

verus! {

/// A row after the decay of one frame: an entity with health and self-damage
/// loses its damage per second times the frame's duration; any other row
/// stays as it is.
pub open spec fn selfdamage_row(row: Row, delta: Fixed) -> Row {
    match (row.parts.life, row.parts.self_damage) {
        (Some(life), Some(decay)) => Row {
            id: row.id,
            parts: Components {
                life: Some(
                    Life { health: life.health.spec_minus(decay.damage.spec_times(delta)) },
                ),
                ..row.parts
            },
        },
        _ => row,
    }
}

/// The store after the decay of one frame.
pub open spec fn selfdamage_spec(before: StoreView, delta: Fixed) -> StoreView {
    StoreView {
        rows: Seq::new(before.rows.len(), |j: int| selfdamage_row(before.rows[j], delta)),
        next: before.next,
    }
}

/// Runs the decay over the store.
pub fn selfdamage(store: &mut Store, delta: Fixed)
    requires
        old(store).wf(),
    ensures
        final(store).wf(),
        final(store)@ == selfdamage_spec(old(store)@, delta),
{
    let count: usize = store.len();
    let ghost rows: Seq<Row> = store@.rows;
    let mut j: usize = 0;
    while j < count
        invariant
            store.wf(),
            rows == old(store)@.rows,
            store@.next == old(store)@.next,
            count == rows.len(),
            store@.rows.len() == count,
            j <= count,
            forall|k: int| 0 <= k < j ==> (#[trigger] store@.rows[k]) == selfdamage_row(rows[k], delta),
            forall|k: int| j <= k < count ==> (#[trigger] store@.rows[k]) == rows[k],
        decreases count - j,
    {
        let row: Row = store.row(j);
        match (row.parts.life, row.parts.self_damage) {
            (Some(life), Some(decay)) => {
                let mut parts: Components = row.parts;
                parts.life = Some(Life { health: life.health.minus(decay.damage.times(delta)) });
                store.set_parts(j, parts);
            },
            _ => {},
        }
        j = j + 1;
    }
    assert(store@.rows =~= selfdamage_spec(old(store)@, delta).rows);
}

} // verus!
