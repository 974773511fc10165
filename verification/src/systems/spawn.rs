//! The spawn system: spawners whose time has come create enemies.

use rand::Rng;
use vstd::prelude::*;
use crate::components::{
    Color, ContactDamage, Enemy, Life, Physics, Spawner, Sprite, Transform,
};
use crate::fixed::Fixed;
use crate::store::{lookup, Components, EntityId, Row, Store, StoreView};
use crate::vector::{Vec2, Vec3};

verus! {

/// Half the width of the square around the tracked entity in which enemies
/// appear, in raw units.
pub const SPAWN_REACH: i64 = 10_000_000;

/// What chance decides about one spawn.
#[derive(Clone, Copy, Debug, PartialEq, Eq, Structural)]
pub struct SpawnRoll {
    /// Offset of the enemy from the tracked entity along `x`.
    pub dx: Fixed,
    /// Offset of the enemy from the tracked entity along `y`.
    pub dy: Fixed,
    /// Which of the three enemy sprites it gets.
    pub cell: u8,
    /// How long the spawner then waits, in seconds.
    pub delay: Fixed,
}

/// A uniformly drawn number from `low` up to but not including `high`.
///
/// Trusted: calls `rand::thread_rng()` and `rand::Rng::gen_range`, which
/// returns a value of the half-open range and panics on an empty one.
#[verifier::external_body]
fn random_between(low: i64, high: i64) -> (r: i64)
    requires
        low < high,
    ensures
        low <= r < high,
{
    rand::thread_rng().gen_range(low, high)
}

/// Whether a spawner fires at the time `now`.
pub open spec fn spec_due(spawner: Spawner, now: Fixed) -> bool {
    spawner.last.raw <= now.raw
}

#[verifier::when_used_as_spec(spec_due)]
pub fn due(spawner: Spawner, now: Fixed) -> (r: bool)
    ensures
        r == spec_due(spawner, now),
{
    spawner.last.raw <= now.raw
}

/// The least wait after a spawn: half the spawner's interval.
pub open spec fn spec_shortest_wait(spawner: Spawner) -> Fixed {
    spawner.spawnrate.spec_divided_by(Fixed { raw: 2_000_000 })
}

#[verifier::when_used_as_spec(spec_shortest_wait)]
pub fn shortest_wait(spawner: Spawner) -> (r: Fixed)
    ensures
        r == spec_shortest_wait(spawner),
{
    spawner.spawnrate.divided_by(Fixed { raw: 2_000_000 })
}

/// The bound that the wait after a spawn stays under: twice the spawner's interval.
pub open spec fn spec_longest_wait(spawner: Spawner) -> Fixed {
    spawner.spawnrate.spec_times(Fixed { raw: 2_000_000 })
}

#[verifier::when_used_as_spec(spec_longest_wait)]
pub fn longest_wait(spawner: Spawner) -> (r: Fixed)
    ensures
        r == spec_longest_wait(spawner),
{
    spawner.spawnrate.times(Fixed { raw: 2_000_000 })
}

/// Whether the wait of `roll` is a possible outcome for `spawner`: it lies
/// from the shortest wait up to the longest; where that range is empty, it is
/// the shortest wait.
pub open spec fn wait_fits(roll: SpawnRoll, spawner: Spawner) -> bool {
    if spec_shortest_wait(spawner).raw < spec_longest_wait(spawner).raw {
        spec_shortest_wait(spawner).raw <= roll.delay.raw < spec_longest_wait(spawner).raw
    } else {
        roll.delay == spec_shortest_wait(spawner)
    }
}

/// Whether `roll` is a possible outcome for `row`: both offsets lie within
/// the reach, the cell is one of three, and the wait fits the spawner of the
/// row, if it has one.
pub open spec fn roll_fits(roll: SpawnRoll, row: Row) -> bool {
    &&& -SPAWN_REACH <= roll.dx.raw < SPAWN_REACH
    &&& -SPAWN_REACH <= roll.dy.raw < SPAWN_REACH
    &&& roll.cell < 3
    &&& row.parts.spawner matches Some(spawner) ==> wait_fits(roll, spawner)
}

/// Where the entity `id` is, or the origin where it has no placement.
pub open spec fn tracked_position(rows: Seq<Row>, id: EntityId) -> Vec3 {
    match lookup(rows, id) {
        Some(parts) => match parts.transform {
            Some(transform) => transform.position,
            None => Vec3::spec_zero(),
        },
        None => Vec3::spec_zero(),
    }
}

/// The cell of the sprite atlas for an enemy.
pub open spec fn spec_enemy_cell(cell: u8) -> Vec2 {
    if cell == 0 {
        Vec2 { x: Fixed { raw: 46_000_000 }, y: Fixed { raw: 2_000_000 } }
    } else if cell == 1 {
        Vec2 { x: Fixed { raw: 45_000_000 }, y: Fixed { raw: 2_000_000 } }
    } else {
        Vec2 { x: Fixed { raw: 47_000_000 }, y: Fixed { raw: 2_000_000 } }
    }
}

#[verifier::when_used_as_spec(spec_enemy_cell)]
pub fn enemy_cell(cell: u8) -> (r: Vec2)
    ensures
        r == spec_enemy_cell(cell),
{
    if cell == 0 {
        Vec2 { x: Fixed { raw: 46_000_000 }, y: Fixed { raw: 2_000_000 } }
    } else if cell == 1 {
        Vec2 { x: Fixed { raw: 45_000_000 }, y: Fixed { raw: 2_000_000 } }
    } else {
        Vec2 { x: Fixed { raw: 47_000_000 }, y: Fixed { raw: 2_000_000 } }
    }
}

/// The enemy that appears around `origin`.
///
/// It stands at the rolled offset from the origin at depth ten, at rest, with
/// ten points of health, and deals five points of damage on contact without
/// being spent by it.
pub open spec fn spec_enemy_at(origin: Vec3, roll: SpawnRoll) -> Components {
    let zero = Fixed { raw: 0 };
    Components {
        transform: Some(
            Transform {
                position: Vec3 {
                    x: origin.x.spec_plus(roll.dx),
                    y: origin.y.spec_plus(roll.dy),
                    z: Fixed { raw: 10_000_000 },
                },
                scale: Vec2 { x: Fixed { raw: 500_000 }, y: Fixed { raw: 500_000 } },
                rotation: Vec3 { x: zero, y: zero, z: zero },
            },
        ),
        physics: Some(
            Physics { acceleration: Vec3 { x: zero, y: zero, z: zero }, deceleration: zero },
        ),
        sprite: Some(
            Sprite {
                color: Color { r: zero, g: zero, b: zero, a: zero },
                sprite: spec_enemy_cell(roll.cell),
            },
        ),
        life: Some(Life { health: Fixed { raw: 10_000_000 } }),
        weapon: None,
        self_damage: None,
        contact_damage: Some(ContactDamage { damage: Fixed { raw: 5_000_000 }, once: false }),
        spawner: None,
        camera: None,
        camera_follow: None,
        player: None,
        enemy: Some(Enemy {  }),
    }
}

#[verifier::when_used_as_spec(spec_enemy_at)]
pub fn enemy_at(origin: Vec3, roll: SpawnRoll) -> (r: Components)
    ensures
        r == spec_enemy_at(origin, roll),
{
    let zero = Fixed { raw: 0 };
    Components {
        transform: Some(
            Transform {
                position: Vec3 {
                    x: origin.x.plus(roll.dx),
                    y: origin.y.plus(roll.dy),
                    z: Fixed { raw: 10_000_000 },
                },
                scale: Vec2 { x: Fixed { raw: 500_000 }, y: Fixed { raw: 500_000 } },
                rotation: Vec3 { x: zero, y: zero, z: zero },
            },
        ),
        physics: Some(
            Physics { acceleration: Vec3 { x: zero, y: zero, z: zero }, deceleration: zero },
        ),
        sprite: Some(
            Sprite {
                color: Color { r: zero, g: zero, b: zero, a: zero },
                sprite: enemy_cell(roll.cell),
            },
        ),
        life: Some(Life { health: Fixed { raw: 10_000_000 } }),
        weapon: None,
        self_damage: None,
        contact_damage: Some(ContactDamage { damage: Fixed { raw: 5_000_000 }, once: false }),
        spawner: None,
        camera: None,
        camera_follow: None,
        player: None,
        enemy: Some(Enemy {  }),
    }
}

/// Whether the row at position `i` holds a spawner that fires at `now`.
pub open spec fn fires(rows: Seq<Row>, i: int, now: Fixed) -> bool {
    0 <= i < rows.len() && rows[i].parts.spawner is Some && spec_due(
        rows[i].parts.spawner->0,
        now,
    )
}

/// The store after the row at position `i` had its turn.
///
/// A spawner that fires is rescheduled to `now` plus the rolled wait, and an
/// enemy is added around the entity that it tracks. Any other row changes
/// nothing.
pub open spec fn spawn_step(before: StoreView, i: int, now: Fixed, roll: SpawnRoll) -> StoreView {
    if fires(before.rows, i, now) {
        let row = before.rows[i];
        let spawner = row.parts.spawner->0;
        let origin = tracked_position(before.rows, spawner.player);
        StoreView {
            rows: before.rows.update(
                i,
                Row {
                    id: row.id,
                    parts: Components {
                        spawner: Some(
                            Spawner {
                                spawnrate: spawner.spawnrate,
                                last: now.spec_plus(roll.delay),
                                player: spawner.player,
                            },
                        ),
                        ..row.parts
                    },
                },
            ),
            next: before.next,
        }.with_new(spec_enemy_at(origin, roll))
    } else {
        before
    }
}

/// The store after the rows at the positions below `count` had their turn,
/// row `k` with the roll `rolls[k]`.
pub open spec fn spawn_all(before: StoreView, count: int, now: Fixed, rolls: Seq<SpawnRoll>)
    -> StoreView
    decreases count,
{
    if count <= 0 {
        before
    } else {
        spawn_step(spawn_all(before, count - 1, now, rolls), count - 1, now, rolls[count - 1])
    }
}

/// The store after the spawn system, given what chance decided for each row.
pub open spec fn spawn_spec(before: StoreView, now: Fixed, rolls: Seq<SpawnRoll>) -> StoreView {
    spawn_all(before, before.rows.len() as int, now, rolls)
}

/// Gives the row at position `i` its turn, with `roll` as the outcome of chance.
pub fn spawn_one(store: &mut Store, i: usize, now: Fixed, roll: SpawnRoll)
    requires
        old(store).wf(),
    ensures
        final(store).wf(),
        final(store)@ == spawn_step(old(store)@, i as int, now, roll),
{
    if i >= store.len() {
        return ;
    }
    let row: Row = store.row(i);
    let spawner: Spawner = match row.parts.spawner {
        Some(spawner) => spawner,
        None => {
            return ;
        },
    };
    if !due(spawner, now) {
        return ;
    }
    let origin: Vec3 = match store.get(spawner.player) {
        Some(parts) => match parts.transform {
            Some(transform) => transform.position,
            None => Vec3::zero(),
        },
        None => Vec3::zero(),
    };
    let mut parts: Components = row.parts;
    parts.spawner = Some(
        Spawner {
            spawnrate: spawner.spawnrate,
            last: now.plus(roll.delay),
            player: spawner.player,
        },
    );
    store.set_parts(i, parts);
    store.add_entity(enemy_at(origin, roll));
}

/// Draws what chance decides about one spawn of `spawner`.
fn draw_roll(spawner: Spawner) -> (roll: SpawnRoll)
    ensures
        -SPAWN_REACH <= roll.dx.raw < SPAWN_REACH,
        -SPAWN_REACH <= roll.dy.raw < SPAWN_REACH,
        roll.cell < 3,
        wait_fits(roll, spawner),
{
    let dx: i64 = random_between(-SPAWN_REACH, SPAWN_REACH);
    let dy: i64 = random_between(-SPAWN_REACH, SPAWN_REACH);
    let cell: i64 = random_between(0, 3);
    let low: Fixed = shortest_wait(spawner);
    let high: Fixed = longest_wait(spawner);
    let delay: i64 = if low.raw < high.raw {
        random_between(low.raw, high.raw)
    } else {
        low.raw
    };
    SpawnRoll {
        dx: Fixed { raw: dx },
        dy: Fixed { raw: dy },
        cell: cell as u8,
        delay: Fixed { raw: delay },
    }
}

/// An outcome that fits `row` and is never looked at unless the row fires.
pub open spec fn idle_roll(row: Row) -> SpawnRoll {
    SpawnRoll {
        dx: Fixed { raw: 0 },
        dy: Fixed { raw: 0 },
        cell: 0,
        delay: match row.parts.spawner {
            Some(spawner) => spec_shortest_wait(spawner),
            None => Fixed { raw: 0 },
        },
    }
}

/// Whatever the rolls, a turn leaves the rows after position `i` that were
/// there before as they were, and keeps the earlier rows in place.
pub proof fn lemma_spawn_step_keeps(before: StoreView, i: int, now: Fixed, roll: SpawnRoll)
    ensures
        spawn_step(before, i, now, roll).rows.len() >= before.rows.len(),
        forall|j: int|
            0 <= j < before.rows.len() && j != i ==> (#[trigger] spawn_step(
                before,
                i,
                now,
                roll,
            ).rows[j]) == before.rows[j],
{
}

/// Runs the spawn system over the store.
///
/// Every spawner that was in the store at the start has its turn once, in
/// the order of the store; the enemies created on the way have none. The
/// result is that of `spawn_spec` for some rolls that fit their rows.
pub fn spawn(store: &mut Store, now: Fixed)
    requires
        old(store).wf(),
    ensures
        final(store).wf(),
        exists|rolls: Seq<SpawnRoll>|
            {
                &&& rolls.len() == old(store)@.rows.len()
                &&& forall|k: int|
                    0 <= k < rolls.len() ==> roll_fits(#[trigger] rolls[k], old(store)@.rows[k])
                &&& final(store)@ == spawn_spec(old(store)@, now, rolls)
            },
{
    let count: usize = store.len();
    let mut i: usize = 0;
    let ghost rolls: Seq<SpawnRoll> = Seq::empty();
    let ghost start: StoreView = store@;
    while i < count
        invariant
            store.wf(),
            start == old(store)@,
            count == start.rows.len(),
            i <= count,
            rolls.len() == i,
            store@.rows.len() >= count,
            forall|j: int| i <= j < count ==> (#[trigger] store@.rows[j]) == start.rows[j],
            forall|k: int| 0 <= k < i ==> roll_fits(#[trigger] rolls[k], start.rows[k]),
            store@ == spawn_all(start, i as int, now, rolls),
        decreases count - i,
    {
        let row: Row = store.row(i);
        let ghost before: StoreView = store@;
        let ghost mut roll: SpawnRoll = idle_roll(row);
        match row.parts.spawner {
            Some(spawner) => {
                if due(spawner, now) {
                    let drawn: SpawnRoll = draw_roll(spawner);
                    spawn_one(store, i, now, drawn);
                    proof {
                        roll = drawn;
                    }
                }
            },
            None => {},
        }
        proof {
            lemma_spawn_step_keeps(before, i as int, now, roll);
            let longer = rolls.push(roll);
            lemma_spawn_all_prefix(start, i as int, now, rolls, longer);
            assert(store@ == spawn_step(before, i as int, now, roll));
            rolls = longer;
        }
        i = i + 1;
    }
    proof {
        assert(rolls.len() == old(store)@.rows.len());
        assert(store@ == spawn_spec(old(store)@, now, rolls));
    }
}

/// `spawn_all` reads no roll at or after `count`.
pub proof fn lemma_spawn_all_prefix(
    before: StoreView,
    count: int,
    now: Fixed,
    a: Seq<SpawnRoll>,
    b: Seq<SpawnRoll>,
)
    requires
        forall|k: int| 0 <= k < count ==> a[k] == b[k],
    ensures
        spawn_all(before, count, now, a) == spawn_all(before, count, now, b),
    decreases count,
{
    if count > 0 {
        lemma_spawn_all_prefix(before, count - 1, now, a, b);
    }
}

} // verus!
