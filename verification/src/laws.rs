//! Laws of the simulation: facts that hold of every state and every frame,
//! proved from the definitions of the systems.

use vstd::prelude::*;
use crate::components::Transform;
use crate::fixed::Fixed;
use crate::input::Key;
use crate::store::{
    ascending, below, holds, lemma_same_ids_wf, lemma_slot_unique, lemma_with_all,
    lemma_with_new, lookup, slot, Components, EntityId, Row, StoreView,
};
use crate::systems::camera::camera_spec;
use crate::systems::contact::{
    battered, contact_row, contact_spec, dead_mark, hits_any, hurt, spec_touching, spent,
    strikes,
};
use crate::systems::death::{alive_fn, death_spec, spec_dead, survivors};
use crate::systems::enemyai::enemyai_spec;
use crate::systems::input::{input_spec, shots_of, steered_row};
use crate::systems::physics::{physics_row, physics_spec};
use crate::systems::selfdamage::selfdamage_spec;
use crate::systems::spawn::{spawn_all, spawn_spec, spawn_step, SpawnRoll};
use crate::graphics::{pass_count, pass_len, pass_of, SpriteArgs};
use crate::session::raised;
use crate::states::{
    spec_fresh_camera, spec_fresh_player, spec_fresh_spawner, SpaceShooterState, Stage,
};
use crate::systems::death::fallen;
use crate::universe::UniverseView;

verus! {

/// The input system keeps the store well-formed and every row in its place;
/// of the rows that were there it changes motion and weapon only, and the
/// rows that it adds get identifiers that were not in use.
pub proof fn lemma_input_keeps(before: StoreView, keys: Seq<Key>, delta: Fixed, now: Fixed)
    requires
        before.wf(),
    ensures
        input_spec(before, keys, delta, now).wf(),
        input_spec(before, keys, delta, now).next >= before.next,
        input_spec(before, keys, delta, now).rows.len() >= before.rows.len(),
        forall|i: int|
            0 <= i < before.rows.len() ==> (#[trigger] input_spec(before, keys, delta, now).rows[i])
                == steered_row(before.rows[i], keys, delta, now),
        forall|i: int|
            before.rows.len() <= i < input_spec(before, keys, delta, now).rows.len() ==> (
            #[trigger] input_spec(before, keys, delta, now).rows[i]).id.index >= before.next,
{
    let mid = StoreView {
        rows: Seq::new(before.rows.len(), |j: int| steered_row(before.rows[j], keys, delta, now)),
        next: before.next,
    };
    lemma_same_ids_wf(before, mid);
    lemma_with_all(mid, shots_of(before.rows, keys, delta, now));
}

/// The turns of the spawn system keep the store well-formed and every row
/// in its place; of the rows that were there they change the spawner only,
/// and the rows that they add get identifiers that were not in use.
pub proof fn lemma_spawn_keeps(before: StoreView, count: int, now: Fixed, rolls: Seq<SpawnRoll>)
    requires
        before.wf(),
        count <= before.rows.len(),
    ensures
        spawn_all(before, count, now, rolls).wf(),
        spawn_all(before, count, now, rolls).next >= before.next,
        spawn_all(before, count, now, rolls).rows.len() >= before.rows.len(),
        forall|i: int|
            0 <= i < before.rows.len() ==> {
                &&& (#[trigger] spawn_all(before, count, now, rolls).rows[i]).id
                    == before.rows[i].id
                &&& spawn_all(before, count, now, rolls).rows[i].parts == (Components {
                    spawner: spawn_all(before, count, now, rolls).rows[i].parts.spawner,
                    ..before.rows[i].parts
                })
            },
        forall|i: int|
            before.rows.len() <= i < spawn_all(before, count, now, rolls).rows.len() ==> (
            #[trigger] spawn_all(before, count, now, rolls).rows[i]).id.index >= before.next,
    decreases count,
{
    if count > 0 {
        lemma_spawn_keeps(before, count - 1, now, rolls);
        let mid = spawn_all(before, count - 1, now, rolls);
        let after = spawn_all(before, count, now, rolls);
        assert(after == spawn_step(mid, count - 1, now, rolls[count - 1]));
        if crate::systems::spawn::fires(mid.rows, count - 1, now) {
            let row = mid.rows[count - 1];
            let spawner = row.parts.spawner->0;
            let turned = StoreView {
                rows: mid.rows.update(
                    count - 1,
                    Row {
                        id: row.id,
                        parts: Components {
                            spawner: Some(
                                crate::components::Spawner {
                                    spawnrate: spawner.spawnrate,
                                    last: now.spec_plus(rolls[count - 1].delay),
                                    player: spawner.player,
                                },
                            ),
                            ..row.parts
                        },
                    },
                ),
                next: mid.next,
            };
            lemma_same_ids_wf(mid, turned);
            let origin = crate::systems::spawn::tracked_position(mid.rows, spawner.player);
            lemma_with_new(turned, crate::systems::spawn::spec_enemy_at(origin, rolls[count - 1]));
            assert forall|i: int| 0 <= i < before.rows.len() implies {
                &&& (#[trigger] after.rows[i]).id == before.rows[i].id
                &&& after.rows[i].parts == (Components {
                    spawner: after.rows[i].parts.spawner,
                    ..before.rows[i].parts
                })
            } by {
                assert(after.rows[i] == turned.rows[i]);
                assert(mid.rows[i].id == before.rows[i].id);
            }
            assert forall|i: int| before.rows.len() <= i < after.rows.len() implies (
            #[trigger] after.rows[i]).id.index >= before.next by {
                if i < mid.rows.len() {
                    assert(after.rows[i] == turned.rows[i]);
                    assert(mid.rows[i].id.index >= before.next);
                }
            }
        }
    }
}

/// What the death system keeps: the rows that are not dead, each once and
/// in the order they had, and nothing else.
pub proof fn lemma_survivors(rows: Seq<Row>)
    ensures
        survivors(rows).len() <= rows.len(),
        forall|k: int|
            0 <= k < survivors(rows).len() ==> !spec_dead(#[trigger] survivors(rows)[k])
                && rows.contains(survivors(rows)[k]),
        forall|i: int|
            0 <= i < rows.len() && !spec_dead(#[trigger] rows[i]) ==> survivors(rows).contains(
                rows[i],
            ),
        ascending(rows) ==> ascending(survivors(rows)),
    decreases rows.len(),
{
    reveal(Seq::filter);
    if rows.len() > 0 {
        let rest = rows.drop_last();
        let last = rows.last();
        lemma_survivors(rest);
        let kept = survivors(rest);
        let all = survivors(rows);
        assert(alive_fn()(last) == !spec_dead(last));
        assert(all == if !spec_dead(last) {
            kept.push(last)
        } else {
            kept
        });
        assert forall|k: int| 0 <= k < all.len() implies !spec_dead(#[trigger] all[k])
            && rows.contains(all[k]) by {
            if k < kept.len() {
                assert(all[k] == kept[k]);
                let i = choose|i: int| 0 <= i < rest.len() && rest[i] == kept[k];
                assert(rows[i] == all[k]);
            } else {
                assert(all[k] == last);
                assert(rows[rows.len() - 1] == last);
            }
        }
        assert forall|i: int| 0 <= i < rows.len() && !spec_dead(#[trigger] rows[i]) implies all.contains(
            rows[i],
        ) by {
            if i < rest.len() {
                assert(rest[i] == rows[i]);
                let k = choose|k: int| 0 <= k < kept.len() && kept[k] == rest[i];
                assert(all[k] == rows[i]);
            } else {
                assert(all[all.len() - 1] == rows[i]);
            }
        }
        if ascending(rows) {
            assert(ascending(rest)) by {
                assert forall|i: int, j: int| 0 <= i < j < rest.len() implies (#[trigger] rest[i]).id.index
                    < (#[trigger] rest[j]).id.index by {
                    assert(rest[i] == rows[i]);
                    assert(rest[j] == rows[j]);
                }
            }
            assert forall|a: int, b: int| 0 <= a < b < all.len() implies (#[trigger] all[a]).id.index
                < (#[trigger] all[b]).id.index by {
                if b < kept.len() {
                    assert(all[a] == kept[a]);
                    assert(all[b] == kept[b]);
                } else {
                    assert(all[b] == last);
                    assert(all[a] == kept[a]);
                    let i = choose|i: int| 0 <= i < rest.len() && rest[i] == kept[a];
                    assert(rows[i] == kept[a]);
                    assert(rows[rows.len() - 1] == last);
                    assert(rows[i].id.index < rows[rows.len() - 1].id.index);
                }
            }
        }
    }
}

/// The death system keeps a store well-formed.
pub proof fn lemma_death_keeps(before: StoreView)
    requires
        before.wf(),
    ensures
        death_spec(before).wf(),
{
    lemma_survivors(before.rows);
    let after = survivors(before.rows);
    assert forall|k: int| 0 <= k < after.len() implies (#[trigger] after[k]).id.index
        < before.next by {
        let i = choose|i: int| 0 <= i < before.rows.len() && before.rows[i] == after[k];
        assert(before.rows[i].id.index < before.next);
    }
}

/// Touching is symmetric: whether two placed entities touch does not depend
/// on which of them is asked first.
pub proof fn law_touching_symmetric(a: Transform, b: Transform)
    ensures
        spec_touching(a, b) == spec_touching(b, a),
{
    let dx = a.position.x.raw - b.position.x.raw;
    let dy = a.position.y.raw - b.position.y.raw;
    assert(dx * dx == (-dx) * (-dx)) by (nonlinear_arith);
    assert(dy * dy == (-dy) * (-dy)) by (nonlinear_arith);
}

/// The contact system finds every touching pair, whichever of the two was
/// created first: wherever the striking entity stands in the store, its
/// turn takes its damage from the health of the one it strikes, and it is
/// spent if its contact damage is of the kind that a hit consumes.
pub proof fn law_contact_any_order(rows: Seq<Row>, a: int, t: int)
    requires
        0 <= a < rows.len(),
        0 <= t < rows.len(),
        strikes(rows[a], rows[t]),
    ensures
        battered(rows, t, a + 1) == battered(rows, t, a).spec_minus(
            rows[a].parts.contact_damage->0.damage,
        ),
        hits_any(rows, a, rows.len() as int),
        rows[a].parts.contact_damage->0.once ==> spent(rows, a),
{
}

/// Whether the contact system leaves the entity at position `t` alone: it
/// is not spent, and nothing strikes it.
pub open spec fn untouched(rows: Seq<Row>, t: int) -> bool {
    &&& !spent(rows, t)
    &&& forall|a: int| 0 <= a < rows.len() ==> !strikes(#[trigger] rows[a], rows[t])
}

/// Health that nothing strikes stays as it is.
pub proof fn lemma_unstruck(rows: Seq<Row>, t: int, upto: int)
    requires
        0 <= upto <= rows.len(),
        forall|a: int| 0 <= a < rows.len() ==> !strikes(#[trigger] rows[a], rows[t]),
    ensures
        battered(rows, t, upto) == rows[t].parts.life->0.health,
    decreases upto,
{
    if upto > 0 {
        lemma_unstruck(rows, t, upto - 1);
    }
}

/// A spent entity with health leaves the contact system marked dead; an
/// entity that the contact system leaves alone leaves it as it came.
pub proof fn law_contact_marks_spent(rows: Seq<Row>, t: int)
    requires
        0 <= t < rows.len(),
    ensures
        spent(rows, t) && rows[t].parts.life is Some ==> spec_dead(contact_row(rows, t))
            && contact_row(rows, t) == hurt(rows[t], dead_mark()),
        untouched(rows, t) ==> contact_row(rows, t) == rows[t],
{
    if untouched(rows, t) {
        lemma_unstruck(rows, t, rows.len() as int);
    }
}

/// Health of an entity after the decay of one frame.
pub open spec fn decayed_health(parts: Components, delta: Fixed) -> Fixed {
    match parts.self_damage {
        Some(decay) => parts.life->0.health.spec_minus(decay.damage.spec_times(delta)),
        None => parts.life->0.health,
    }
}

/// The systems of a frame keep the store well-formed at every step.
pub proof fn lemma_frame_wf(u: UniverseView, rolls: Seq<SpawnRoll>)
    requires
        u.wf(),
    ensures
        u.steered().wf(),
        u.spawned(rolls).wf(),
        u.worn(rolls).wf(),
        u.simulated(rolls).wf(),
        u.worn(rolls).rows.len() == u.spawned(rolls).rows.len(),
{
    lemma_input_keeps(u.store, u.input, u.delta(), u.timer.lifetime);
    let steered = u.steered();
    lemma_spawn_keeps(steered, steered.rows.len() as int, u.timer.lifetime, rolls);
    let seen = u.spawned(rolls);
    let hit = contact_spec(seen);
    lemma_same_ids_wf(seen, hit);
    let driven = enemyai_spec(hit, u.delta());
    lemma_same_ids_wf(hit, driven);
    let worn = selfdamage_spec(driven, u.delta());
    lemma_same_ids_wf(driven, worn);
    let left = death_spec(worn);
    lemma_death_keeps(worn);
    let viewed = camera_spec(left, u.delta());
    lemma_same_ids_wf(left, viewed);
    let moved = physics_spec(viewed, u.delta());
    lemma_same_ids_wf(viewed, moved);
}

/// What a frame makes of an entity that the contact system leaves alone.
///
/// Take the systems of a frame and an entity with health that is in the
/// store when the contact system runs, is not spent and is not struck. If
/// the decay of the frame leaves its health at zero or above, the entity is
/// in the store after the frame with exactly that health. If not, it is
/// gone.
pub proof fn law_untouched_entity(u: UniverseView, rolls: Seq<SpawnRoll>, id: EntityId)
    requires
        u.wf(),
        holds(u.spawned(rolls).rows, id),
        u.spawned(rolls).rows[slot(u.spawned(rolls).rows, id)].parts.life is Some,
        untouched(u.spawned(rolls).rows, slot(u.spawned(rolls).rows, id)),
    ensures
        ({
            let seen = u.spawned(rolls).rows;
            let health = decayed_health(seen[slot(seen, id)].parts, u.delta());
            let after = u.simulated(rolls).store.rows;
            if health.raw >= 0 {
                &&& lookup(after, id) is Some
                &&& lookup(after, id)->0.life == Some(crate::components::Life { health })
            } else {
                !holds(after, id)
            }
        }),
{
    lemma_frame_wf(u, rolls);
    let seen = u.spawned(rolls).rows;
    let t = slot(seen, id);
    assert(0 <= t < seen.len() && seen[t].id == id);
    law_contact_marks_spent(seen, t);
    let worn = u.worn(rolls);
    let health = decayed_health(seen[t].parts, u.delta());
    assert(worn.rows[t].id == id);
    assert(worn.rows[t].parts.life == Some(crate::components::Life { health }));
    lemma_entity_after_death(u, rolls, id, t);
}

/// What the last three systems of a frame make of the entity that stands at
/// position `t` when the death system runs: it stays, with its health, if
/// it is not dead, and it is gone if it is.
pub proof fn lemma_entity_after_death(
    u: UniverseView,
    rolls: Seq<SpawnRoll>,
    id: EntityId,
    t: int,
)
    requires
        u.wf(),
        0 <= t < u.worn(rolls).rows.len(),
        u.worn(rolls).rows[t].id == id,
    ensures
        ({
            let row = u.worn(rolls).rows[t];
            let after = u.simulated(rolls).store.rows;
            if spec_dead(row) {
                !holds(after, id)
            } else {
                lookup(after, id) is Some && lookup(after, id)->0.life == row.parts.life
            }
        }),
{
    lemma_frame_wf(u, rolls);
    let worn = u.worn(rolls);
    let row = worn.rows[t];
    lemma_survivors(worn.rows);
    lemma_death_keeps(worn);
    let left = death_spec(worn);
    let viewed = camera_spec(left, u.delta());
    lemma_same_ids_wf(left, viewed);
    let moved = physics_spec(viewed, u.delta());
    lemma_same_ids_wf(viewed, moved);
    assert(moved == u.simulated(rolls).store);
    if spec_dead(row) {
        if holds(moved.rows, id) {
            let q = slot(moved.rows, id);
            assert(moved.rows[q].id == id);
            assert(viewed.rows[q].id == id);
            assert(left.rows[q].id == id);
            assert(worn.rows.contains(left.rows[q]));
            let i = choose|i: int| 0 <= i < worn.rows.len() && worn.rows[i] == left.rows[q];
            lemma_slot_unique(worn.rows, id, i);
            lemma_slot_unique(worn.rows, id, t);
            assert(!spec_dead(left.rows[q]));
        }
    } else {
        assert(left.rows.contains(row));
        let q = choose|q: int| 0 <= q < left.rows.len() && left.rows[q] == row;
        assert(viewed.rows[q].id == id && viewed.rows[q].parts.life == row.parts.life);
        assert(moved.rows[q].id == id && moved.rows[q].parts.life == row.parts.life);
        lemma_slot_unique(moved.rows, id, q);
    }
}

/// A spent entity is deleted by the end of the frame.
///
/// Take an entity with health that is in the store when the contact system
/// runs and is spent there. Unless it has a self-damage that adds to its
/// health in this frame, it is not in the store after the frame.
pub proof fn law_spent_is_deleted(u: UniverseView, rolls: Seq<SpawnRoll>, id: EntityId)
    requires
        u.wf(),
        holds(u.spawned(rolls).rows, id),
        u.spawned(rolls).rows[slot(u.spawned(rolls).rows, id)].parts.life is Some,
        spent(u.spawned(rolls).rows, slot(u.spawned(rolls).rows, id)),
        u.spawned(rolls).rows[slot(u.spawned(rolls).rows, id)].parts.self_damage matches Some(
            decay,
        ) ==> decay.damage.spec_times(u.delta()).raw >= 0,
    ensures
        !holds(u.simulated(rolls).store.rows, id),
{
    lemma_frame_wf(u, rolls);
    let seen = u.spawned(rolls).rows;
    let t = slot(seen, id);
    assert(0 <= t < seen.len() && seen[t].id == id);
    law_contact_marks_spent(seen, t);
    let worn = u.worn(rolls);
    assert(worn.rows[t].id == id);
    assert(spec_dead(worn.rows[t]));
    lemma_entity_after_death(u, rolls, id, t);
}

/// Whether a frame spares the entity `id`: the restart key is not down, the
/// entity has no self-damage, and when the contact system runs it is not
/// spent and nothing strikes it.
pub open spec fn spared(u: UniverseView, micros: i64, rolls: Seq<SpawnRoll>, id: EntityId)
    -> bool {
    let seen = u.ticked(micros).spawned(rolls).rows;
    &&& !u.input.contains(Key::R)
    &&& lookup(u.store.rows, id) matches Some(parts) ==> parts.self_damage is None
    &&& holds(seen, id) ==> untouched(seen, slot(seen, id))
}

/// No spontaneous decay: a frame that spares an entity whose health is not
/// below zero leaves the entity in the store with the health it had.
pub proof fn law_no_spontaneous_decay(
    u: UniverseView,
    micros: i64,
    rolls: Seq<SpawnRoll>,
    id: EntityId,
)
    requires
        u.wf(),
        lookup(u.store.rows, id) is Some,
        lookup(u.store.rows, id)->0.life is Some,
        lookup(u.store.rows, id)->0.life->0.health.raw >= 0,
        spared(u, micros, rolls, id),
    ensures
        u.framed(micros, rolls).wf(),
        lookup(u.framed(micros, rolls).store.rows, id) is Some,
        lookup(u.framed(micros, rolls).store.rows, id)->0.life == lookup(u.store.rows, id)->0.life,
        lookup(u.framed(micros, rolls).store.rows, id)->0.self_damage == lookup(
            u.store.rows,
            id,
        )->0.self_damage,
{
    let f = u.ticked(micros);
    lemma_frame_wf(f, rolls);
    let p = slot(u.store.rows, id);
    assert(0 <= p < u.store.rows.len() && u.store.rows[p].id == id);
    lemma_input_keeps(f.store, f.input, f.delta(), f.timer.lifetime);
    let steered = f.steered();
    lemma_spawn_keeps(steered, steered.rows.len() as int, f.timer.lifetime, rolls);
    let seen = f.spawned(rolls).rows;
    assert(seen[p].id == id);
    lemma_slot_unique(seen, id, p);
    assert(seen[p].parts.life == u.store.rows[p].parts.life);
    assert(seen[p].parts.self_damage is None);
    law_untouched_entity(f, rolls, id);
    law_contact_marks_spent(seen, p);
    let worn = f.worn(rolls);
    assert(worn.rows[p].id == id);
    assert(worn.rows[p].parts.self_damage is None);
    assert(worn.rows[p].parts.life == u.store.rows[p].parts.life);
    lemma_self_damage_after_death(f, rolls, id, p);
}

/// The last three systems of a frame leave the self-damage of a surviving
/// entity as it is.
pub proof fn lemma_self_damage_after_death(
    u: UniverseView,
    rolls: Seq<SpawnRoll>,
    id: EntityId,
    t: int,
)
    requires
        u.wf(),
        0 <= t < u.worn(rolls).rows.len(),
        u.worn(rolls).rows[t].id == id,
        !spec_dead(u.worn(rolls).rows[t]),
    ensures
        lookup(u.simulated(rolls).store.rows, id) is Some,
        lookup(u.simulated(rolls).store.rows, id)->0.self_damage == u.worn(
            rolls,
        ).rows[t].parts.self_damage,
{
    lemma_frame_wf(u, rolls);
    let worn = u.worn(rolls);
    let row = worn.rows[t];
    lemma_survivors(worn.rows);
    lemma_death_keeps(worn);
    let left = death_spec(worn);
    let viewed = camera_spec(left, u.delta());
    lemma_same_ids_wf(left, viewed);
    let moved = physics_spec(viewed, u.delta());
    lemma_same_ids_wf(viewed, moved);
    assert(left.rows.contains(row));
    let q = choose|q: int| 0 <= q < left.rows.len() && left.rows[q] == row;
    assert(viewed.rows[q].id == id && viewed.rows[q].parts.self_damage == row.parts.self_damage);
    assert(moved.rows[q].id == id && moved.rows[q].parts.self_damage == row.parts.self_damage);
    lemma_slot_unique(moved.rows, id, q);
}

/// The universe after the frames listed, each with its duration and rolls.
pub open spec fn run(u: UniverseView, frames: Seq<(i64, Seq<SpawnRoll>)>) -> UniverseView
    decreases frames.len(),
{
    if frames.len() == 0 {
        u
    } else {
        run(u, frames.drop_last()).framed(frames.last().0, frames.last().1)
    }
}

/// No spontaneous decay over any number of frames: if every frame spares an
/// entity whose health is not below zero, the entity is in the store after
/// the last frame with the health it had before the first.
pub proof fn law_no_decay_over_frames(
    u: UniverseView,
    frames: Seq<(i64, Seq<SpawnRoll>)>,
    id: EntityId,
)
    requires
        u.wf(),
        lookup(u.store.rows, id) is Some,
        lookup(u.store.rows, id)->0.life is Some,
        lookup(u.store.rows, id)->0.life->0.health.raw >= 0,
        forall|k: int|
            0 <= k < frames.len() ==> spared(
                #[trigger] run(u, frames.take(k)),
                frames[k].0,
                frames[k].1,
                id,
            ),
    ensures
        run(u, frames).wf(),
        lookup(run(u, frames).store.rows, id) is Some,
        lookup(run(u, frames).store.rows, id)->0.life == lookup(u.store.rows, id)->0.life,
    decreases frames.len(),
{
    if frames.len() > 0 {
        let rest = frames.drop_last();
        assert forall|k: int| 0 <= k < rest.len() implies spared(
            #[trigger] run(u, rest.take(k)),
            rest[k].0,
            rest[k].1,
            id,
        ) by {
            assert(rest.take(k) =~= frames.take(k));
            assert(spared(run(u, frames.take(k)), frames[k].0, frames[k].1, id));
        }
        law_no_decay_over_frames(u, rest, id);
        let last = frames.len() - 1;
        assert(frames.take(last) =~= rest);
        assert(spared(run(u, frames.take(last)), frames[last].0, frames[last].1, id));
        law_no_spontaneous_decay(run(u, rest), frames.last().0, frames.last().1, id);
    }
}

/// `spec_dead` as a function value.
pub open spec fn dead_fn() -> spec_fn(Row) -> bool {
    |row: Row| spec_dead(row)
}

/// The death system removes each dead entity exactly once and nothing
/// else: the rows kept and the dead rows add up to the rows there were. The
/// points of the frame are the dead rows with the enemy tag.
pub proof fn law_death_counts(rows: Seq<Row>)
    ensures
        survivors(rows).len() + rows.filter(dead_fn()).len() == rows.len(),
        fallen(rows) <= rows.filter(dead_fn()).len(),
    decreases rows.len(),
{
    reveal(Seq::filter);
    if rows.len() > 0 {
        law_death_counts(rows.drop_last());
        assert(alive_fn()(rows.last()) == !spec_dead(rows.last()));
        assert(dead_fn()(rows.last()) == spec_dead(rows.last()));
        assert(crate::systems::death::fallen_fn()(rows.last()) == (spec_dead(rows.last())
            && rows.last().parts.enemy is Some));
    }
}

/// The score of a frame rises by exactly the number of enemies that the
/// death system of the frame removes, as far as the score can hold it.
pub proof fn law_score_counts_fallen(u: UniverseView, rolls: Seq<SpawnRoll>)
    ensures
        u.simulated(rolls).session.score == raised(u.session.score, fallen(u.worn(rolls).rows)),
        u.session.score + fallen(u.worn(rolls).rows) <= i32::MAX ==> u.simulated(
            rolls,
        ).session.score == u.session.score + fallen(u.worn(rolls).rows),
        u.simulated(rolls).store.rows.len() == survivors(u.worn(rolls).rows).len(),
{
}

/// The pass that draws item `i`.
pub open spec fn pass_holding(i: int, capacity: nat) -> int {
    i / (capacity as int)
}

/// The passes over a buffer of `capacity` records cover every item exactly
/// once and in order.
///
/// There are as many passes as the items divided by the capacity, rounded
/// up; none is empty and none holds more than the capacity. Item `i` is
/// draw `i % capacity` of pass `i / capacity`, and every draw of every pass
/// is one of the items.
pub proof fn law_passes_cover(items: Seq<SpriteArgs>, capacity: nat, stride: nat)
    requires
        capacity > 0,
    ensures
        forall|b: int|
            0 <= b < pass_count(items.len(), capacity) ==> 0 < #[trigger] pass_len(
                items.len(),
                capacity,
                b,
            ) <= capacity,
        forall|i: int|
            0 <= i < items.len() ==> {
                &&& 0 <= #[trigger] pass_holding(i, capacity) < pass_count(items.len(), capacity)
                &&& 0 <= i % (capacity as int) < pass_len(
                    items.len(),
                    capacity,
                    pass_holding(i, capacity),
                )
                &&& pass_of(items, capacity, stride, pass_holding(i, capacity))[i % (
                capacity as int)].args == items[i]
            },
        forall|b: int, j: int|
            0 <= b < pass_count(items.len(), capacity) && 0 <= j < pass_len(
                items.len(),
                capacity,
                b,
            ) ==> 0 <= #[trigger] (b * capacity + j) < items.len(),
{
    let c = capacity as int;
    let k = items.len() as int;
    let n = pass_count(items.len(), capacity) as int;
    let t = k + c - 1;
    vstd::arithmetic::div_mod::lemma_fundamental_div_mod(t, c);
    vstd::arithmetic::div_mod::lemma_mod_bound(t, c);
    assert(n == t / c);
    assert(n * c <= t < (n + 1) * c) by (nonlinear_arith)
        requires
            t == c * n + t % c,
            0 <= t % c < c,
    ;
    assert forall|b: int| 0 <= b < n implies 0 < #[trigger] pass_len(items.len(), capacity, b)
        <= capacity by {
        assert(b * c <= (n - 1) * c) by (nonlinear_arith)
            requires
                b <= n - 1,
                c > 0,
        ;
        assert((n - 1) * c == n * c - c) by (nonlinear_arith);
    }
    assert forall|i: int| 0 <= i < items.len() implies {
        &&& 0 <= #[trigger] pass_holding(i, capacity) < pass_count(items.len(), capacity)
        &&& 0 <= i % (capacity as int) < pass_len(
            items.len(),
            capacity,
            pass_holding(i, capacity),
        )
        &&& pass_of(items, capacity, stride, pass_holding(i, capacity))[i % (
        capacity as int)].args == items[i]
    } by {
        vstd::arithmetic::div_mod::lemma_fundamental_div_mod(i, c);
        vstd::arithmetic::div_mod::lemma_mod_bound(i, c);
        let b = i / c;
        assert(b >= 0 && b < n) by (nonlinear_arith)
            requires
                i == c * b + i % c,
                0 <= i % c < c,
                0 <= i < k,
                t == k + c - 1,
                t < (n + 1) * c,
                n * c <= t,
                c > 0,
        ;
        assert(b * c == c * b) by (nonlinear_arith);
    }
    assert forall|b: int, j: int|
        0 <= b < n && 0 <= j < pass_len(items.len(), capacity, b) implies 0 <= #[trigger] (b
            * capacity + j) < items.len() by {
        assert(b * c >= 0) by (nonlinear_arith)
            requires
                b >= 0,
                c > 0,
        ;
    }
}

/// A restart of the shooter yields the same start whatever the state was.
///
/// As long as three identifiers are left, the store then holds exactly one
/// player, one spawner around the player and one camera bound to the player,
/// in this order; the score and the running time are zero and no key is down.
pub proof fn law_restart(u: UniverseView)
    requires
        u.store.next <= u64::MAX - 3,
        u.stage == Stage::SpaceShooter(SpaceShooterState {  }),
    ensures
        u.restarted().wf(),
        u.restarted().store.rows.len() == 3,
        u.restarted().store.rows[0].parts == spec_fresh_player(),
        u.restarted().store.rows[1].parts == spec_fresh_spawner(u.restarted().store.rows[0].id),
        u.restarted().store.rows[2].parts == spec_fresh_camera(u.restarted().store.rows[0].id),
        u.restarted().renderer.camera == Some(u.restarted().store.rows[2].id),
        u.restarted().session.score == 0,
        u.restarted().timer.lifetime.raw == 0,
        u.restarted().input.len() == 0,
        u.restarted().stage == u.stage,
        forall|micros: i64, rolls: Seq<SpawnRoll>|
            u.input.contains(Key::R) ==> #[trigger] u.framed(micros, rolls) == u.ticked(
                micros,
            ).restarted(),
{
}

/// An entity at rest stays where it is: with no acceleration, a frame of
/// motion of any duration changes neither the position nor anything else.
pub proof fn law_rest_stays(row: Row, delta: Fixed)
    requires
        row.parts.transform is Some,
        row.parts.physics is Some,
        row.parts.physics->0.acceleration == crate::vector::Vec3::spec_zero(),
    ensures
        physics_row(row, delta).parts.transform->0.position == row.parts.transform->0.position,
        physics_row(row, delta) == row,
{
    let decel = row.parts.physics->0.deceleration;
    assert(0 * decel.raw == 0) by (nonlinear_arith);
    assert(0 * delta.raw == 0) by (nonlinear_arith);
}

/// A spawner that has fired waits: after its turn it creates exactly one
/// enemy, as long as an identifier is left, and it fires again at a time
/// `later` exactly when `later` has reached the time of its turn plus the
/// rolled wait. A spawner whose time has not come changes nothing.
pub proof fn law_spawner_waits(
    before: StoreView,
    i: int,
    now: Fixed,
    roll: SpawnRoll,
    later: Fixed,
)
    requires
        before.wf(),
        0 <= i < before.rows.len(),
    ensures
        !crate::systems::spawn::fires(before.rows, i, now) ==> spawn_step(before, i, now, roll)
            == before,
        crate::systems::spawn::fires(before.rows, i, now) ==> {
            let after = spawn_step(before, i, now, roll);
            &&& after.rows.len() == if before.next < u64::MAX {
                before.rows.len() + 1
            } else {
                before.rows.len()
            }
            &&& before.next < u64::MAX ==> after.rows.last().parts.enemy is Some
                && after.rows.last().parts.spawner is None
            &&& crate::systems::spawn::fires(after.rows, i, later) <==> later.raw
                >= now.spec_plus(roll.delay).raw
        },
{
}

} // verus!
