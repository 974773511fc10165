//! The input system: held keys push the player and fire its weapon.

use vstd::prelude::*;
use crate::components::{
    Color, ContactDamage, Life, Physics, SelfDamage, Sprite, Transform, Weapon,
};
use crate::fixed::Fixed;
use crate::input::{Input, Key};
use crate::store::{Components, Row, Store, StoreView};
use crate::vector::{Vec2, Vec3};

verus! {

/// Acceleration of steering, in units per second squared.
pub const ACCELERATION: i64 = 20;

/// Bound on each axis of an enemy's speed.
pub const MAXSPEED: i64 = 16;

/// What a held key adds to the acceleration each second: one and a half
/// times `ACCELERATION` along the key's axis, and nothing for other keys.
pub open spec fn spec_push_of(key: Key) -> Vec3 {
    let zero = Fixed { raw: 0 };
    match key {
        Key::Up => Vec3 { x: zero, y: Fixed { raw: 30_000_000 }, z: zero },
        Key::Down => Vec3 { x: zero, y: Fixed { raw: -30_000_000i64 }, z: zero },
        Key::Right => Vec3 { x: Fixed { raw: 30_000_000 }, y: zero, z: zero },
        Key::Left => Vec3 { x: Fixed { raw: -30_000_000i64 }, y: zero, z: zero },
        _ => Vec3 { x: zero, y: zero, z: zero },
    }
}

#[verifier::when_used_as_spec(spec_push_of)]
pub fn push_of(key: Key) -> (r: Vec3)
    ensures
        r == spec_push_of(key),
{
    let zero = Fixed { raw: 0 };
    match key {
        Key::Up => Vec3 { x: zero, y: Fixed { raw: 30_000_000 }, z: zero },
        Key::Down => Vec3 { x: zero, y: Fixed { raw: -30_000_000i64 }, z: zero },
        Key::Right => Vec3 { x: Fixed { raw: 30_000_000 }, y: zero, z: zero },
        Key::Left => Vec3 { x: Fixed { raw: -30_000_000i64 }, y: zero, z: zero },
        _ => Vec3 { x: zero, y: zero, z: zero },
    }
}

/// The direction that a rotation faces: its `x` and `y`, or straight up for
/// the zero rotation.
pub open spec fn spec_facing(rotation: Vec3) -> Vec3 {
    if rotation.x.raw == 0 && rotation.y.raw == 0 {
        Vec3 { x: Fixed { raw: 0 }, y: Fixed { raw: 1_000_000 }, z: Fixed { raw: 0 } }
    } else {
        Vec3 { x: rotation.x, y: rotation.y, z: Fixed { raw: 0 } }
    }
}

#[verifier::when_used_as_spec(spec_facing)]
pub fn facing(rotation: Vec3) -> (r: Vec3)
    ensures
        r == spec_facing(rotation),
{
    if rotation.x.raw == 0 && rotation.y.raw == 0 {
        Vec3 { x: Fixed { raw: 0 }, y: Fixed { raw: 1_000_000 }, z: Fixed { raw: 0 } }
    } else {
        Vec3 { x: rotation.x, y: rotation.y, z: Fixed { raw: 0 } }
    }
}

/// Whether a weapon may fire at the time `now`: its interval has passed
/// since the last shot.
pub open spec fn spec_ready(weapon: Weapon, now: Fixed) -> bool {
    now.spec_minus(weapon.last).raw >= weapon.repeat.raw
}

#[verifier::when_used_as_spec(spec_ready)]
pub fn ready(weapon: Weapon, now: Fixed) -> (r: bool)
    ensures
        r == spec_ready(weapon, now),
{
    now.minus(weapon.last).raw >= weapon.repeat.raw
}

/// The projectile that a shooter with the given placement and motion fires.
///
/// It starts 0.8 ahead of the shooter, flies at 10 along the shooter's
/// facing on top of the shooter's own motion, loses one point of its three
/// points of health each second, and deals ten points of damage on contact,
/// which spends it.
pub open spec fn spec_projectile(transform: Transform, physics: Physics) -> Components {
    let ahead = spec_facing(transform.rotation);
    Components {
        transform: Some(
            Transform {
                position: transform.position.spec_plus(ahead.spec_scaled(Fixed { raw: 800_000 })),
                scale: Vec2 { x: Fixed { raw: 200_000 }, y: Fixed { raw: 200_000 } },
                rotation: transform.rotation,
            },
        ),
        physics: Some(
            Physics {
                acceleration: ahead.spec_scaled(Fixed { raw: 10_000_000 }).spec_plus(
                    physics.acceleration,
                ),
                deceleration: Fixed { raw: 50_000 },
            },
        ),
        sprite: Some(
            Sprite {
                color: Color {
                    r: Fixed { raw: 100_000 },
                    g: Fixed { raw: 400_000 },
                    b: Fixed { raw: 1_000_000 },
                    a: Fixed { raw: 0 },
                },
                sprite: Vec2 { x: Fixed { raw: 1_000_000 }, y: Fixed { raw: 1_000_000 } },
            },
        ),
        life: Some(Life { health: Fixed { raw: 3_000_000 } }),
        weapon: None,
        self_damage: Some(SelfDamage { damage: Fixed { raw: 1_000_000 } }),
        contact_damage: Some(ContactDamage { damage: Fixed { raw: 10_000_000 }, once: true }),
        spawner: None,
        camera: None,
        camera_follow: None,
        player: None,
        enemy: None,
    }
}

#[verifier::when_used_as_spec(spec_projectile)]
pub fn projectile(transform: Transform, physics: Physics) -> (r: Components)
    ensures
        r == spec_projectile(transform, physics),
{
    let ahead = facing(transform.rotation);
    Components {
        transform: Some(
            Transform {
                position: transform.position.plus(ahead.scaled(Fixed { raw: 800_000 })),
                scale: Vec2 { x: Fixed { raw: 200_000 }, y: Fixed { raw: 200_000 } },
                rotation: transform.rotation,
            },
        ),
        physics: Some(
            Physics {
                acceleration: ahead.scaled(Fixed { raw: 10_000_000 }).plus(physics.acceleration),
                deceleration: Fixed { raw: 50_000 },
            },
        ),
        sprite: Some(
            Sprite {
                color: Color {
                    r: Fixed { raw: 100_000 },
                    g: Fixed { raw: 400_000 },
                    b: Fixed { raw: 1_000_000 },
                    a: Fixed { raw: 0 },
                },
                sprite: Vec2 { x: Fixed { raw: 1_000_000 }, y: Fixed { raw: 1_000_000 } },
            },
        ),
        life: Some(Life { health: Fixed { raw: 3_000_000 } }),
        weapon: None,
        self_damage: Some(SelfDamage { damage: Fixed { raw: 1_000_000 } }),
        contact_damage: Some(ContactDamage { damage: Fixed { raw: 10_000_000 }, once: true }),
        spawner: None,
        camera: None,
        camera_follow: None,
        player: None,
        enemy: None,
    }
}

/// An entity that the input steers: one with the player tag, motion, a
/// placement and a weapon.
pub open spec fn pilot(parts: Components) -> bool {
    parts.player is Some && parts.physics is Some && parts.transform is Some
        && parts.weapon is Some
}

/// Motion and weapon of a pilot after some keys, with the shots fired on the way.
pub struct Steered {
    pub physics: Physics,
    pub weapon: Weapon,
    pub shots: Seq<Components>,
}

/// The effect of one held key on a pilot.
///
/// A movement key adds its push, scaled by the frame's duration, to the
/// acceleration. The fire key, if the weapon is ready, queues a projectile
/// and notes the time of the shot. Other keys do nothing.
pub open spec fn key_step(
    before: Steered,
    transform: Transform,
    key: Key,
    delta: Fixed,
    now: Fixed,
) -> Steered {
    if key == Key::Space {
        if spec_ready(before.weapon, now) {
            Steered {
                physics: before.physics,
                weapon: Weapon { repeat: before.weapon.repeat, last: now },
                shots: before.shots.push(spec_projectile(transform, before.physics)),
            }
        } else {
            before
        }
    } else {
        Steered {
            physics: Physics {
                acceleration: before.physics.acceleration.spec_plus(
                    spec_push_of(key).spec_scaled(delta),
                ),
                deceleration: before.physics.deceleration,
            },
            weapon: before.weapon,
            shots: before.shots,
        }
    }
}

/// The effect of the held keys, in the order in which they were pressed.
pub open spec fn steer(
    transform: Transform,
    physics: Physics,
    weapon: Weapon,
    keys: Seq<Key>,
    delta: Fixed,
    now: Fixed,
) -> Steered
    decreases keys.len(),
{
    if keys.len() == 0 {
        Steered { physics, weapon, shots: Seq::empty() }
    } else {
        key_step(
            steer(transform, physics, weapon, keys.drop_last(), delta, now),
            transform,
            keys.last(),
            delta,
            now,
        )
    }
}

/// What the keys make of one row: nothing unless it is a pilot.
pub open spec fn steered_of(row: Row, keys: Seq<Key>, delta: Fixed, now: Fixed) -> Steered {
    steer(
        row.parts.transform->0,
        row.parts.physics->0,
        row.parts.weapon->0,
        keys,
        delta,
        now,
    )
}

/// One row after the input system.
pub open spec fn steered_row(row: Row, keys: Seq<Key>, delta: Fixed, now: Fixed) -> Row {
    if pilot(row.parts) {
        let after = steered_of(row, keys, delta, now);
        Row {
            id: row.id,
            parts: Components {
                physics: Some(after.physics),
                weapon: Some(after.weapon),
                ..row.parts
            },
        }
    } else {
        row
    }
}

/// The projectiles that the pilots among `rows` fire, in the order of the rows.
pub open spec fn shots_of(rows: Seq<Row>, keys: Seq<Key>, delta: Fixed, now: Fixed) -> Seq<
    Components,
>
    decreases rows.len(),
{
    if rows.len() == 0 {
        Seq::empty()
    } else {
        let before = shots_of(rows.drop_last(), keys, delta, now);
        if pilot(rows.last().parts) {
            before + steered_of(rows.last(), keys, delta, now).shots
        } else {
            before
        }
    }
}

/// The store after the input system: every pilot steered, then one new
/// entity for each projectile fired.
pub open spec fn input_spec(before: StoreView, keys: Seq<Key>, delta: Fixed, now: Fixed)
    -> StoreView {
    StoreView {
        rows: Seq::new(
            before.rows.len(),
            |j: int| steered_row(before.rows[j], keys, delta, now),
        ),
        next: before.next,
    }.with_all(shots_of(before.rows, keys, delta, now))
}

/// Applies the held keys to one pilot and appends its shots to `adds`.
fn steer_pilot(
    transform: Transform,
    physics: Physics,
    weapon: Weapon,
    keys: &Input,
    delta: Fixed,
    now: Fixed,
    adds: &mut Vec<Components>,
) -> (r: (Physics, Weapon))
    ensures
        r.0 == steer(transform, physics, weapon, keys@, delta, now).physics,
        r.1 == steer(transform, physics, weapon, keys@, delta, now).weapon,
        final(adds)@ == old(adds)@ + steer(transform, physics, weapon, keys@, delta, now).shots,
{
    let mut physic: Physics = physics;
    let mut arm: Weapon = weapon;
    let mut k: usize = 0;
    let count: usize = keys.len();
    assert(adds@ =~= old(adds)@ + Seq::<Components>::empty());
    while k < count
        invariant
            count == keys@.len(),
            k <= count,
            physic == steer(transform, physics, weapon, keys@.take(k as int), delta, now).physics,
            arm == steer(transform, physics, weapon, keys@.take(k as int), delta, now).weapon,
            adds@ == old(adds)@ + steer(
                transform,
                physics,
                weapon,
                keys@.take(k as int),
                delta,
                now,
            ).shots,
        decreases count - k,
    {
        let key: Key = keys.key(k);
        proof {
            assert(keys@.take(k + 1).drop_last() =~= keys@.take(k as int));
            assert(keys@.take(k + 1).last() == keys@[k as int]);
        }
        let ghost before = steer(transform, physics, weapon, keys@.take(k as int), delta, now);
        if key == Key::Space {
            if ready(arm, now) {
                adds.push(projectile(transform, physic));
                arm = Weapon { repeat: arm.repeat, last: now };
                assert(adds@ =~= old(adds)@ + before.shots.push(
                    spec_projectile(transform, before.physics),
                ));
            }
        } else {
            physic = Physics {
                acceleration: physic.acceleration.plus(push_of(key).scaled(delta)),
                deceleration: physic.deceleration,
            };
        }
        k = k + 1;
    }
    assert(keys@.take(count as int) =~= keys@);
    (physic, arm)
}

/// Runs the input system over the store.
///
/// `delta` is the duration of the frame and `now` the running time, both in
/// seconds. Projectiles are created after every pilot was steered.
pub fn input(store: &mut Store, keys: &Input, delta: Fixed, now: Fixed)
    requires
        old(store).wf(),
    ensures
        final(store).wf(),
        final(store)@ == input_spec(old(store)@, keys@, delta, now),
{
    let mut adds: Vec<Components> = Vec::new();
    let count: usize = store.len();
    let mut i: usize = 0;
    let ghost rows = store@.rows;
    while i < count
        invariant
            store.wf(),
            rows == old(store)@.rows,
            store@.next == old(store)@.next,
            store@.rows.len() == count,
            rows.len() == count,
            i <= count,
            forall|j: int|
                0 <= j < i ==> (#[trigger] store@.rows[j]) == steered_row(rows[j], keys@, delta, now),
            forall|j: int| i <= j < count ==> (#[trigger] store@.rows[j]) == rows[j],
            adds@ == shots_of(rows.take(i as int), keys@, delta, now),
        decreases count - i,
    {
        let row: Row = store.row(i);
        proof {
            assert(rows.take(i + 1).drop_last() =~= rows.take(i as int));
            assert(rows.take(i + 1).last() == rows[i as int]);
        }
        match (row.parts.player, row.parts.physics, row.parts.transform, row.parts.weapon) {
            (Some(_), Some(physics), Some(transform), Some(weapon)) => {
                let (physic, arm) = steer_pilot(
                    transform,
                    physics,
                    weapon,
                    keys,
                    delta,
                    now,
                    &mut adds,
                );
                let mut parts: Components = row.parts;
                parts.physics = Some(physic);
                parts.weapon = Some(arm);
                store.set_parts(i, parts);
            },
            _ => {},
        }
        i = i + 1;
    }
    proof {
        assert(rows.take(count as int) =~= rows);
        assert(store@.rows =~= Seq::new(
            rows.len(),
            |j: int| steered_row(rows[j], keys@, delta, now),
        ));
    }
    store.add_entities(&adds);
}

} // verus!
