use mathilda::components::{
    Camera, CameraFollow, ContactDamage, Enemy, Life, Physics, Player, SelfDamage, Spawner,
    Transform, Weapon,
};
use mathilda::fixed::Fixed;
use mathilda::input::{Input, Key};
use mathilda::store::{Components, EntityId, Store};
use mathilda::systems::contact::touching;
use mathilda::systems::spawn::{spawn_one, SpawnRoll};
use mathilda::systems::{
    camera, contactdamage, death, enemyai, input, physics, selfdamage, spawn,
};
use mathilda::vector::{Vec2, Vec3};

fn fx(raw: i64) -> Fixed {
    Fixed::from_raw(raw)
}

fn v3(x: i64, y: i64, z: i64) -> Vec3 {
    Vec3::new(fx(x), fx(y), fx(z))
}

fn placed(x: i64, y: i64, radius: i64) -> Transform {
    Transform {
        position: v3(x, y, 0),
        scale: Vec2::new(fx(radius), fx(radius)),
        rotation: v3(0, 0, 0),
    }
}

fn pilot_at(x: i64, y: i64) -> Components {
    let mut parts = Components::none();
    parts.player = Some(Player {});
    parts.transform = Some(placed(x, y, 350_000));
    parts.physics = Some(Physics { acceleration: v3(0, 0, 0), deceleration: fx(1_500_000) });
    parts.weapon = Some(Weapon { repeat: fx(200_000), last: fx(0) });
    parts.life = Some(Life { health: fx(10_000_000) });
    parts
}

fn target_at(x: i64, y: i64, radius: i64, health: i64) -> Components {
    let mut parts = Components::none();
    parts.transform = Some(placed(x, y, radius));
    parts.life = Some(Life { health: fx(health) });
    parts
}

fn bullet_at(x: i64, y: i64, radius: i64, damage: i64, once: bool) -> Components {
    let mut parts = target_at(x, y, radius, 3_000_000);
    parts.contact_damage = Some(ContactDamage { damage: fx(damage), once });
    parts
}

fn health_of(store: &Store, id: EntityId) -> i64 {
    store.get(id).unwrap().life.unwrap().health.raw
}

#[test]
fn input_movement_keys_push_the_player() {
    let mut store = Store::new();
    let player = store.create_with(pilot_at(0, 0));
    let bystander = store.create_with(target_at(0, 0, 1, 1));
    let mut keys = Input::new();
    keys.press(Key::Up);
    keys.press(Key::Right);
    input(&mut store, &keys, fx(100_000), fx(0));
    let after = store.get(player).unwrap();
    assert_eq!(after.physics.unwrap().acceleration, v3(3_000_000, 3_000_000, 0));
    assert_eq!(after.transform, pilot_at(0, 0).transform);
    assert_eq!(store.get(bystander), Some(target_at(0, 0, 1, 1)));
    let mut back = Input::new();
    back.press(Key::Down);
    back.press(Key::Left);
    back.press(Key::Other(17));
    input(&mut store, &back, fx(100_000), fx(0));
    assert_eq!(store.get(player).unwrap().physics.unwrap().acceleration, v3(0, 0, 0));
    assert_eq!(store.len(), 2);
}

#[test]
fn input_fire_key_creates_a_projectile_when_ready() {
    let mut store = Store::new();
    let player = store.create_with(pilot_at(1_000_000, 2_000_000));
    let mut keys = Input::new();
    keys.press(Key::Up);
    keys.press(Key::Space);
    input(&mut store, &keys, fx(100_000), fx(200_000));
    assert_eq!(store.len(), 2);
    let shooter = store.get(player).unwrap();
    assert_eq!(shooter.weapon, Some(Weapon { repeat: fx(200_000), last: fx(200_000) }));
    let shot = store.row(1).parts;
    assert_eq!(store.row(1).id, EntityId { index: 1 });
    assert_eq!(shot.transform.unwrap().position, v3(1_000_000, 2_800_000, 0));
    assert_eq!(shot.transform.unwrap().scale, Vec2::new(fx(200_000), fx(200_000)));
    assert_eq!(shot.physics.unwrap().acceleration, v3(0, 13_000_000, 0));
    assert_eq!(shot.physics.unwrap().deceleration, fx(50_000));
    assert_eq!(shot.life, Some(Life { health: fx(3_000_000) }));
    assert_eq!(shot.self_damage, Some(SelfDamage { damage: fx(1_000_000) }));
    assert_eq!(shot.contact_damage, Some(ContactDamage { damage: fx(10_000_000), once: true }));
    assert!(shot.player.is_none() && shot.enemy.is_none() && shot.weapon.is_none());
    input(&mut store, &keys, fx(100_000), fx(300_000));
    assert_eq!(store.len(), 2);
    input(&mut store, &keys, fx(100_000), fx(400_000));
    assert_eq!(store.len(), 3);
}

#[test]
fn input_projectile_flies_along_the_facing() {
    let mut store = Store::new();
    let mut parts = pilot_at(0, 0);
    parts.transform = Some(Transform {
        position: v3(0, 0, 0),
        scale: Vec2::new(fx(350_000), fx(350_000)),
        rotation: v3(600_000, -800_000, 0),
    });
    store.create_with(parts);
    let mut keys = Input::new();
    keys.press(Key::Space);
    input(&mut store, &keys, fx(16_000), fx(5_000_000));
    let shot = store.row(1).parts;
    assert_eq!(shot.transform.unwrap().position, v3(480_000, -640_000, 0));
    assert_eq!(shot.transform.unwrap().rotation, v3(600_000, -800_000, 0));
    assert_eq!(shot.physics.unwrap().acceleration, v3(6_000_000, -8_000_000, 0));
}

#[test]
fn spawn_scenario_one_enemy_then_wait() {
    let mut store = Store::new();
    let player = store.create_with(pilot_at(0, 0));
    let mut parts = Components::none();
    parts.spawner = Some(Spawner { spawnrate: fx(2_000_000), last: fx(0), player });
    let source = store.create_with(parts);
    spawn(&mut store, fx(0));
    assert_eq!(store.len(), 3);
    let enemy = store.row(2).parts;
    assert_eq!(enemy.enemy, Some(Enemy {}));
    assert_eq!(enemy.life, Some(Life { health: fx(10_000_000) }));
    assert_eq!(enemy.contact_damage, Some(ContactDamage { damage: fx(5_000_000), once: false }));
    assert_eq!(enemy.physics.unwrap().acceleration, v3(0, 0, 0));
    let at = enemy.transform.unwrap().position;
    assert!(-10_000_000 <= at.x.raw && at.x.raw < 10_000_000);
    assert!(-10_000_000 <= at.y.raw && at.y.raw < 10_000_000);
    assert_eq!(at.z, fx(10_000_000));
    let cell = enemy.sprite.unwrap().sprite;
    assert!([45_000_000, 46_000_000, 47_000_000].contains(&cell.x.raw));
    assert_eq!(cell.y, fx(2_000_000));
    let next = store.get(source).unwrap().spawner.unwrap().last;
    assert!(1_000_000 <= next.raw && next.raw < 4_000_000);
    spawn(&mut store, fx(next.raw - 1));
    assert_eq!(store.len(), 3);
    assert_eq!(store.get(source).unwrap().spawner.unwrap().last, next);
    spawn(&mut store, next);
    assert_eq!(store.len(), 4);
    let later = store.get(source).unwrap().spawner.unwrap().last;
    assert!(next.raw + 1_000_000 <= later.raw && later.raw < next.raw + 4_000_000);
}

#[test]
fn spawn_one_places_the_enemy_by_the_roll() {
    let mut store = Store::new();
    let player = store.create_with(pilot_at(3_000_000, -1_000_000));
    let mut parts = Components::none();
    parts.spawner = Some(Spawner { spawnrate: fx(2_000_000), last: fx(500_000), player });
    store.create_with(parts);
    let roll = SpawnRoll { dx: fx(-2_000_000), dy: fx(9_000_000), cell: 1, delay: fx(1_250_000) };
    spawn_one(&mut store, 1, fx(499_999), roll);
    assert_eq!(store.len(), 2);
    spawn_one(&mut store, 0, fx(500_000), roll);
    assert_eq!(store.len(), 2);
    spawn_one(&mut store, 7, fx(500_000), roll);
    assert_eq!(store.len(), 2);
    spawn_one(&mut store, 1, fx(500_000), roll);
    assert_eq!(store.len(), 3);
    let enemy = store.row(2).parts;
    assert_eq!(enemy.transform.unwrap().position, v3(1_000_000, 8_000_000, 10_000_000));
    assert_eq!(enemy.transform.unwrap().scale, Vec2::new(fx(500_000), fx(500_000)));
    assert_eq!(enemy.sprite.unwrap().sprite, Vec2::new(fx(45_000_000), fx(2_000_000)));
    assert_eq!(
        store.row(1).parts.spawner,
        Some(Spawner { spawnrate: fx(2_000_000), last: fx(1_750_000), player })
    );
}

#[test]
fn spawn_without_tracked_entity_uses_the_origin() {
    let mut store = Store::new();
    let mut parts = Components::none();
    parts.spawner =
        Some(Spawner { spawnrate: fx(0), last: fx(0), player: EntityId { index: 99 } });
    store.create_with(parts);
    let roll = SpawnRoll { dx: fx(1), dy: fx(2), cell: 2, delay: fx(0) };
    spawn_one(&mut store, 0, fx(0), roll);
    assert_eq!(store.row(1).parts.transform.unwrap().position, v3(1, 2, 10_000_000));
    assert_eq!(store.row(1).parts.sprite.unwrap().sprite, Vec2::new(fx(47_000_000), fx(2_000_000)));
    spawn(&mut store, fx(0));
    assert_eq!(store.len(), 3);
    assert_eq!(store.row(0).parts.spawner.unwrap().last, fx(0));
}

#[test]
fn touching_is_strict_and_symmetric() {
    let a = placed(0, 0, 500_000);
    let b = placed(600_000, 800_000, 500_000);
    assert!(!touching(a, b));
    assert!(!touching(b, a));
    let c = placed(600_000, 799_999, 500_000);
    assert!(touching(a, c));
    assert!(touching(c, a));
    let far = placed(i64::MAX, i64::MIN, i64::MAX);
    let other = placed(i64::MIN, i64::MAX, i64::MAX);
    assert!(!touching(far, other));
    assert!(!touching(other, far));
    assert!(touching(far, far));
    let point = placed(0, 0, 0);
    assert!(!touching(point, point));
    let hollow = placed(0, 0, -1);
    assert!(!touching(hollow, a) || touching(a, hollow));
}

#[test]
fn contact_damage_is_found_in_both_creation_orders() {
    let mut first = Store::new();
    let bullet = first.create_with(bullet_at(0, 0, 200_000, 10_000_000, true));
    let target = first.create_with(target_at(300_000, 0, 500_000, 25_000_000));
    contactdamage(&mut first);
    assert_eq!(health_of(&first, target), 15_000_000);
    assert_eq!(health_of(&first, bullet), -1_000_000);

    let mut second = Store::new();
    let target = second.create_with(target_at(300_000, 0, 500_000, 25_000_000));
    let bullet = second.create_with(bullet_at(0, 0, 200_000, 10_000_000, true));
    contactdamage(&mut second);
    assert_eq!(health_of(&second, target), 15_000_000);
    assert_eq!(health_of(&second, bullet), -1_000_000);
}

#[test]
fn contact_damage_without_contact_changes_nothing() {
    let mut store = Store::new();
    let bullet = store.create_with(bullet_at(0, 0, 200_000, 10_000_000, true));
    let target = store.create_with(target_at(5_000_000, 0, 500_000, 25_000_000));
    contactdamage(&mut store);
    assert_eq!(health_of(&store, target), 25_000_000);
    assert_eq!(health_of(&store, bullet), 3_000_000);
    assert_eq!(death(&mut store), 0);
    assert_eq!(store.len(), 2);
}

#[test]
fn contact_damage_spares_enemy_pairs_and_the_entity_itself() {
    let mut store = Store::new();
    let mut one = bullet_at(0, 0, 500_000, 5_000_000, false);
    one.enemy = Some(Enemy {});
    let mut two = bullet_at(100_000, 0, 500_000, 5_000_000, false);
    two.enemy = Some(Enemy {});
    let a = store.create_with(one);
    let b = store.create_with(two);
    contactdamage(&mut store);
    assert_eq!(health_of(&store, a), 3_000_000);
    assert_eq!(health_of(&store, b), 3_000_000);
    let player = store.create_with(pilot_at(0, 0));
    contactdamage(&mut store);
    assert_eq!(health_of(&store, player), 0);
    assert_eq!(health_of(&store, a), 3_000_000);
    assert_eq!(health_of(&store, b), 3_000_000);
}

#[test]
fn contact_damage_adds_up_and_marks_the_spent() {
    let mut store = Store::new();
    let lasting = store.create_with(bullet_at(0, 0, 500_000, 1_000_000, false));
    let spent = store.create_with(bullet_at(0, 100_000, 500_000, 2_000_000, true));
    let target = store.create_with(target_at(100_000, 0, 500_000, 10_000_000));
    let mut ghost = Components::none();
    ghost.transform = Some(placed(0, 0, 500_000));
    ghost.contact_damage = Some(ContactDamage { damage: fx(500_000), once: true });
    let lifeless = store.create_with(ghost);
    contactdamage(&mut store);
    assert_eq!(health_of(&store, target), 6_500_000);
    assert_eq!(health_of(&store, lasting), 500_000);
    assert_eq!(health_of(&store, spent), -1_000_000);
    assert_eq!(store.get(lifeless), Some(ghost));
    assert_eq!(death(&mut store), 0);
    assert_eq!(store.len(), 3);
    assert!(!store.contains(spent));
    assert!(store.contains(lifeless));
}

#[test]
fn enemy_ai_pulls_toward_the_player_and_stops_at_top_speed() {
    let mut store = Store::new();
    let mut chaser = Components::none();
    chaser.enemy = Some(Enemy {});
    chaser.transform = Some(placed(0, 0, 500_000));
    chaser.physics = Some(Physics { acceleration: v3(0, 0, 7_000_000), deceleration: fx(0) });
    let enemy = store.create_with(chaser);
    enemyai(&mut store, fx(100_000));
    assert_eq!(store.get(enemy), Some(chaser));
    let player = store.create_with(pilot_at(10_000_000, -5_000_000));
    enemyai(&mut store, fx(100_000));
    assert_eq!(
        store.get(enemy).unwrap().physics.unwrap().acceleration,
        v3(2_000_000, -1_000_000, 0)
    );
    assert_eq!(store.get(player), Some(pilot_at(10_000_000, -5_000_000)));
    store.put(player, pilot_at(1_000_000_000, -1_000_000_000));
    enemyai(&mut store, fx(100_000));
    assert_eq!(
        store.get(enemy).unwrap().physics.unwrap().acceleration,
        v3(16_000_000, -16_000_000, 0)
    );
}

#[test]
fn self_damage_takes_rate_times_duration() {
    let mut store = Store::new();
    let mut parts = target_at(0, 0, 1, 3_000_000);
    parts.self_damage = Some(SelfDamage { damage: fx(1_000_000) });
    let decaying = store.create_with(parts);
    let steady = store.create_with(target_at(0, 0, 1, 3_000_000));
    selfdamage(&mut store, fx(500_000));
    assert_eq!(health_of(&store, decaying), 2_500_000);
    assert_eq!(health_of(&store, steady), 3_000_000);
    selfdamage(&mut store, fx(0));
    assert_eq!(health_of(&store, decaying), 2_500_000);
}

#[test]
fn death_removes_the_dead_and_counts_enemies() {
    let mut store = Store::new();
    let mut foe = target_at(0, 0, 1, -1);
    foe.enemy = Some(Enemy {});
    let mut live_foe = target_at(0, 0, 1, 0);
    live_foe.enemy = Some(Enemy {});
    let a = store.create_with(foe);
    let b = store.create_with(live_foe);
    let c = store.create_with(target_at(0, 0, 1, -1_000_000));
    let d = store.create_with(foe);
    let e = store.create();
    assert_eq!(death(&mut store), 2);
    assert_eq!(store.len(), 2);
    assert_eq!(store.row(0).id, b);
    assert_eq!(store.row(1).id, e);
    assert!(!store.contains(a) && !store.contains(c) && !store.contains(d));
    assert_eq!(death(&mut store), 0);
    assert_eq!(store.len(), 2);
}

#[test]
fn camera_eases_toward_the_followed_entity() {
    let mut store = Store::new();
    let mut target = pilot_at(3_000_000, 4_000_000);
    target.transform = Some(Transform {
        position: v3(3_000_000, 4_000_000, 10_000_000),
        scale: Vec2::new(fx(350_000), fx(350_000)),
        rotation: v3(0, 0, 0),
    });
    let player = store.create_with(target);
    let view = Camera {
        eye: v3(0, 0, 0),
        target: v3(0, 0, 100_000_000),
        up: v3(0, 1_000_000, 0),
        aspect: fx(1_000_000),
        fovy: fx(90_000_000),
        znear: fx(100_000),
        zfar: fx(100_000_000),
    };
    let mut parts = Components::none();
    parts.camera = Some(view);
    parts.camera_follow = Some(CameraFollow { entity: player });
    let eye = store.create_with(parts);
    camera(&mut store, fx(500_000));
    let after = store.get(eye).unwrap().camera.unwrap();
    assert_eq!(after.target, v3(3_000_000, 4_000_000, 100_000_000));
    assert_eq!(after.eye, v3(1_500_000, 2_000_000, 0));
    assert_eq!(after.up, view.up);
    assert_eq!(after.fovy, view.fovy);
    store.delete(player);
    camera(&mut store, fx(500_000));
    assert_eq!(store.get(eye).unwrap().camera, Some(after));
}

#[test]
fn physics_moves_decays_and_turns() {
    let mut store = Store::new();
    let mut parts = Components::none();
    parts.transform = Some(placed(1_000_000, 1_000_000, 1));
    parts.physics =
        Some(Physics { acceleration: v3(3_000_000, 4_000_000, 0), deceleration: fx(500_000) });
    let mover = store.create_with(parts);
    physics(&mut store, fx(100_000));
    let after = store.get(mover).unwrap();
    assert_eq!(after.transform.unwrap().position, v3(1_300_000, 1_400_000, 0));
    assert_eq!(after.physics.unwrap().acceleration, v3(2_850_000, 3_800_000, 0));
    assert_eq!(after.physics.unwrap().deceleration, fx(500_000));
    assert_eq!(after.transform.unwrap().rotation, v3(600_000, 800_000, 0));
}

#[test]
fn physics_leaves_an_entity_at_rest_where_it_is() {
    let mut store = Store::new();
    let mut parts = Components::none();
    parts.transform = Some(Transform {
        position: v3(-7_000_000, 9_000_000, 10_000_000),
        scale: Vec2::new(fx(1), fx(1)),
        rotation: v3(600_000, 800_000, 0),
    });
    parts.physics = Some(Physics { acceleration: v3(0, 0, 0), deceleration: fx(0) });
    let rock = store.create_with(parts);
    physics(&mut store, fx(16_000));
    assert_eq!(store.get(rock), Some(parts));
    physics(&mut store, fx(i64::MAX));
    assert_eq!(store.get(rock), Some(parts));
    physics(&mut store, fx(-3_000_000));
    assert_eq!(store.get(rock), Some(parts));
}
