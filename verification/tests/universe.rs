use mathilda::components::{Life, SelfDamage};
use mathilda::fixed::Fixed;
use mathilda::graphics::Renderer;
use mathilda::input::Key;
use mathilda::session::Session;
use mathilda::states::{
    fresh_camera, fresh_player, fresh_spawner, EmptyState, SpaceShooterState, Stage, State,
};
use mathilda::store::{Components, EntityId, Store};
use mathilda::systems::status;
use mathilda::time::Timer;
use mathilda::universe::Universe;

fn fx(raw: i64) -> Fixed {
    Fixed::from_raw(raw)
}

fn shooter() -> Universe {
    let mut universe = Universe::new();
    universe.hover(true);
    let stage = Stage::SpaceShooter(SpaceShooterState::new(&universe));
    universe.push_state(stage);
    universe
}

#[test]
fn universe_starts_empty() {
    let universe = Universe::new();
    assert_eq!(universe.store.len(), 0);
    assert_eq!(universe.session.score, 0);
    assert_eq!(universe.input.len(), 0);
    assert_eq!(universe.stage, Stage::Empty(EmptyState {}));
    assert_eq!(
        universe.renderer,
        Renderer { swapchain: false, camera: None, width: 1, height: 1 }
    );
    assert!(universe.render().is_none());
}

#[test]
fn shooter_stage_starts_with_player_spawner_and_camera() {
    let universe = shooter();
    assert_eq!(universe.store.len(), 3);
    let player = EntityId { index: 0 };
    assert_eq!(universe.store.row(0).parts, fresh_player());
    assert_eq!(universe.store.row(1).parts, fresh_spawner(player));
    assert_eq!(universe.store.row(2).parts, fresh_camera(player));
    assert_eq!(universe.store.row(0).id, player);
    assert_eq!(universe.renderer.camera, Some(EntityId { index: 2 }));
    assert_eq!(universe.stage, Stage::SpaceShooter(SpaceShooterState {}));
    assert_eq!(fresh_player().life, Some(Life { health: fx(10_000_000) }));
    assert_eq!(fresh_spawner(player).spawner.unwrap().spawnrate, fx(2_000_000));
    assert_eq!(fresh_camera(player).camera_follow.unwrap().entity, player);
}

#[test]
fn empty_stage_leaves_the_universe_empty() {
    let mut universe = Universe::new();
    let stage = Stage::Empty(EmptyState::new(&universe));
    universe.hover(true);
    universe.event(Key::Up, true);
    assert_eq!(universe.input.len(), 1);
    universe.session.award(4);
    universe.push_state(stage);
    assert_eq!(universe.store.len(), 0);
    assert_eq!(universe.input.len(), 0);
    assert_eq!(universe.session.score, 0);
    universe.update();
    assert_eq!(universe.store.len(), 0);
}

#[test]
fn events_fill_and_drain_the_latch() {
    let mut universe = shooter();
    universe.event(Key::Up, true);
    universe.event(Key::Space, true);
    universe.event(Key::Up, true);
    assert_eq!(universe.input.len(), 2);
    universe.event(Key::Up, false);
    assert_eq!(universe.input.len(), 1);
    assert!(universe.input.contains(Key::Space));
    universe.event(Key::Left, false);
    assert_eq!(universe.input.len(), 1);
}

#[test]
fn swapchain_needs_an_area() {
    let mut universe = shooter();
    universe.create_swapchain(0, 600);
    assert!(!universe.renderer.swapchain);
    universe.create_swapchain(800, 0);
    assert!(!universe.renderer.swapchain);
    assert!(universe.render().is_none());
    universe.create_swapchain(800, 600);
    assert!(universe.renderer.swapchain);
    assert_eq!((universe.renderer.width, universe.renderer.height), (800, 600));
    let frame = universe.render().unwrap();
    assert_eq!(frame.passes.len(), 1);
    assert_eq!(frame.passes[0].len(), 1);
    universe.create_swapchain(0, 0);
    assert!(universe.renderer.swapchain);
}

#[test]
fn restart_key_restores_the_start() {
    let mut universe = shooter();
    universe.timer.advance(2_000_000);
    universe.simulate();
    universe.session.award(5);
    universe.store.create();
    assert!(universe.store.len() > 3);
    universe.event(Key::Left, true);
    universe.event(Key::R, true);
    universe.update();
    assert_eq!(universe.store.len(), 3);
    let player = universe.store.row(0).id;
    assert_eq!(universe.store.row(0).parts, fresh_player());
    assert_eq!(universe.store.row(1).parts, fresh_spawner(player));
    assert_eq!(universe.store.row(2).parts, fresh_camera(player));
    assert_eq!(universe.renderer.camera, Some(universe.store.row(2).id));
    assert_eq!(universe.session.score, 0);
    assert_eq!(universe.timer.lifetime(), fx(0));
    assert_eq!(universe.input.len(), 0);
    assert!(player.index > 2);
}

#[test]
fn reset_clears_whatever_was_there() {
    let mut universe = shooter();
    for _ in 0..10 {
        universe.store.create();
    }
    universe.session.award(9);
    universe.timer.advance(5_000_000);
    universe.reset();
    assert_eq!(universe.store.len(), 3);
    assert_eq!(universe.session.score, 0);
    assert_eq!(universe.timer.lifetime(), fx(0));
    assert_eq!(universe.store.row(0).id, EntityId { index: 13 });
}

#[test]
fn first_frame_spawns_one_enemy() {
    let mut universe = shooter();
    universe.timer.advance(0);
    universe.simulate();
    assert_eq!(universe.store.len(), 4);
    assert!(universe.store.row(3).parts.enemy.is_some());
    let next = universe.store.row(1).parts.spawner.unwrap().last;
    assert!(1_000_000 <= next.raw && next.raw < 4_000_000);
    universe.timer.advance(10_000);
    universe.simulate();
    assert_eq!(universe.store.len(), 4);
}

#[test]
fn health_without_damage_stays_over_many_frames() {
    let mut universe = Universe::new();
    let mut parts = Components::none();
    parts.life = Some(Life { health: fx(7_000_000) });
    let steady = universe.store.create_with(parts);
    let mut decaying = parts;
    decaying.self_damage = Some(SelfDamage { damage: fx(1_000_000) });
    let fading = universe.store.create_with(decaying);
    for _ in 0..50 {
        universe.timer.advance(16_000);
        universe.simulate();
    }
    assert_eq!(universe.store.get(steady), Some(parts));
    assert_eq!(
        universe.store.get(fading).unwrap().life,
        Some(Life { health: fx(7_000_000 - 50 * 16_000) })
    );
    for _ in 0..500 {
        universe.timer.advance(16_000);
        universe.simulate();
    }
    assert_eq!(universe.store.get(steady), Some(parts));
    assert!(!universe.store.contains(fading));
    assert_eq!(universe.session.score, 0);
}

#[test]
fn a_shot_that_hits_is_gone_and_the_kill_is_scored() {
    let mut universe = shooter();
    universe.timer.advance(1_000_000);
    universe.event(Key::Space, true);
    let mut enemy = mathilda::systems::spawn::enemy_at(
        mathilda::vector::Vec3::new(fx(0), fx(0), fx(0)),
        mathilda::systems::spawn::SpawnRoll { dx: fx(500_000), dy: fx(1_900_000), cell: 0, delay: fx(0) },
    );
    enemy.life = Some(Life { health: fx(5_000_000) });
    let mut spawner = universe.store.row(1).parts;
    spawner.spawner.as_mut().unwrap().last = fx(1_000_000_000);
    universe.store.set_parts(1, spawner);
    let foe = universe.store.create_with(enemy);
    universe.simulate();
    assert!(!universe.store.contains(foe));
    assert_eq!(universe.session.score, 1);
    assert_eq!(universe.store.len(), 3);
    assert!(universe.store.contains(EntityId { index: 0 }));
    assert_eq!(
        universe.store.get(EntityId { index: 0 }).unwrap().life,
        Some(Life { health: fx(10_000_000) })
    );
}

#[test]
fn a_shot_that_misses_survives_the_frame() {
    let mut universe = shooter();
    let mut spawner = universe.store.row(1).parts;
    spawner.spawner.as_mut().unwrap().last = fx(1_000_000_000);
    universe.store.set_parts(1, spawner);
    universe.timer.advance(1_000_000);
    universe.event(Key::Space, true);
    universe.simulate();
    assert_eq!(universe.store.len(), 4);
    let shot = universe.store.row(3).parts;
    assert_eq!(shot.life, Some(Life { health: fx(2_000_000) }));
    assert_eq!(universe.session.score, 0);
}

#[test]
fn status_line_reads_as_it_should() {
    let mut store = Store::new();
    store.create_with(fresh_player());
    let mut timer = Timer::new(20);
    let mut session = Session::new();
    assert_eq!(
        status(&store, &timer, &session),
        "mathilda (NaN fps / NaN ms) Score: 0 (0 Enemies alive)"
    );
    timer.advance(16_000);
    timer.advance(17_333);
    session.award(12);
    let mut foe = Components::none();
    foe.enemy = Some(mathilda::components::Enemy {});
    store.create_with(foe);
    store.create_with(foe);
    assert_eq!(
        status(&store, &timer, &session),
        "mathilda (60.0 fps / 16.666 ms) Score: 12 (2 Enemies alive)"
    );
    store.delete(EntityId { index: 0 });
    assert_eq!(
        status(&store, &timer, &session),
        "mathilda (60.0 fps / 16.666 ms) Score: 12 (2 Enemies alive) - DEAD! Press R to Restart"
    );
    let mut still = Timer::new(20);
    still.advance(0);
    assert_eq!(
        status(&store, &still, &session),
        "mathilda (inf fps / 0.000 ms) Score: 12 (2 Enemies alive) - DEAD! Press R to Restart"
    );
}

#[test]
fn universe_status_matches_the_system() {
    let mut universe = shooter();
    universe.timer.advance(10_000);
    assert_eq!(
        universe.get_status(),
        "mathilda (100.0 fps / 10.000 ms) Score: 0 (0 Enemies alive)"
    );
    assert_eq!(universe.get_status(), status(&universe.store, &universe.timer, &universe.session));
}

#[test]
fn keys_count_only_while_the_window_has_attention() {
    let mut universe = Universe::new();
    assert!(universe.attention.focused && !universe.attention.hovered);
    universe.event(Key::Up, true);
    assert_eq!(universe.input.len(), 0);
    universe.hover(true);
    universe.event(Key::Up, true);
    assert_eq!(universe.input.len(), 1);
    universe.focus(false);
    universe.event(Key::Up, false);
    universe.event(Key::Down, true);
    assert_eq!(universe.input.len(), 1);
    assert!(universe.input.contains(Key::Up));
    universe.focus(true);
    universe.hover(false);
    universe.event(Key::Up, false);
    assert_eq!(universe.input.len(), 1);
    universe.hover(true);
    universe.event(Key::Up, false);
    assert_eq!(universe.input.len(), 0);
}
