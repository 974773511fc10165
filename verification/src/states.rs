//! The stages of the game: what fills the store when a stage is entered or
//! the game restarts.

use vstd::prelude::*;
use crate::components::{
    Camera, CameraFollow, Color, Life, Physics, Player, Spawner, Sprite, Transform, Weapon,
};
use crate::fixed::Fixed;
use crate::input::Key;
use crate::store::{Components, EntityId, StoreView};
use crate::universe::{Universe, UniverseView};
use crate::vector::{Vec2, Vec3};

verus! {

/// A stage of the game.
pub trait State: Sized {
    /// The stage as it is before it is entered.
    fn new(universe: &Universe) -> Self;

    /// Fills the universe for the start of the stage.
    fn init(&mut self, universe: &mut Universe)
        requires
            old(universe).wf(),
        ensures
            final(universe).wf(),
    ;

    /// Lets the stage see that `key` went down or up.
    fn event(&mut self, universe: &mut Universe, key: Key, pressed: bool)
        requires
            old(universe).wf(),
        ensures
            final(universe).wf(),
    ;

    /// Lets the stage act at the end of a frame.
    fn update(&mut self, universe: &mut Universe)
        requires
            old(universe).wf(),
        ensures
            final(universe).wf(),
    ;
}

/// The stage in which nothing exists and nothing happens.
#[derive(Clone, Copy, Debug, PartialEq, Eq, Structural)]
pub struct EmptyState {}

/// The stage of the shooter: a player, a spawner of enemies around the
/// player, and a camera that follows the player.
#[derive(Clone, Copy, Debug, PartialEq, Eq, Structural)]
pub struct SpaceShooterState {}

/// The stage that a universe is in.
#[derive(Clone, Copy, Debug, PartialEq, Eq, Structural)]
pub enum Stage {
    Empty(EmptyState),
    SpaceShooter(SpaceShooterState),
}

/// The player at the start of the shooter.
pub open spec fn spec_fresh_player() -> Components {
    let zero = Fixed { raw: 0 };
    Components {
        transform: Some(
            Transform {
                position: Vec3 {
                    x: Fixed { raw: 500_000 },
                    y: Fixed { raw: 500_000 },
                    z: Fixed { raw: 10_000_000 },
                },
                scale: Vec2 { x: Fixed { raw: 350_000 }, y: Fixed { raw: 350_000 } },
                rotation: Vec3 { x: zero, y: zero, z: zero },
            },
        ),
        physics: Some(
            Physics {
                acceleration: Vec3 { x: zero, y: zero, z: zero },
                deceleration: Fixed { raw: 1_500_000 },
            },
        ),
        sprite: Some(
            Sprite {
                color: Color {
                    r: Fixed { raw: 100_000 },
                    g: Fixed { raw: 400_000 },
                    b: Fixed { raw: 1_000_000 },
                    a: zero,
                },
                sprite: Vec2 { x: Fixed { raw: 47_000_000 }, y: Fixed { raw: 1_000_000 } },
            },
        ),
        life: Some(Life { health: Fixed { raw: 10_000_000 } }),
        weapon: Some(Weapon { repeat: Fixed { raw: 200_000 }, last: zero }),
        self_damage: None,
        contact_damage: None,
        spawner: None,
        camera: None,
        camera_follow: None,
        player: Some(Player {  }),
        enemy: None,
    }
}

#[verifier::when_used_as_spec(spec_fresh_player)]
pub fn fresh_player() -> (r: Components)
    ensures
        r == spec_fresh_player(),
{
    let zero = Fixed { raw: 0 };
    Components {
        transform: Some(
            Transform {
                position: Vec3 {
                    x: Fixed { raw: 500_000 },
                    y: Fixed { raw: 500_000 },
                    z: Fixed { raw: 10_000_000 },
                },
                scale: Vec2 { x: Fixed { raw: 350_000 }, y: Fixed { raw: 350_000 } },
                rotation: Vec3 { x: zero, y: zero, z: zero },
            },
        ),
        physics: Some(
            Physics {
                acceleration: Vec3 { x: zero, y: zero, z: zero },
                deceleration: Fixed { raw: 1_500_000 },
            },
        ),
        sprite: Some(
            Sprite {
                color: Color {
                    r: Fixed { raw: 100_000 },
                    g: Fixed { raw: 400_000 },
                    b: Fixed { raw: 1_000_000 },
                    a: zero,
                },
                sprite: Vec2 { x: Fixed { raw: 47_000_000 }, y: Fixed { raw: 1_000_000 } },
            },
        ),
        life: Some(Life { health: Fixed { raw: 10_000_000 } }),
        weapon: Some(Weapon { repeat: Fixed { raw: 200_000 }, last: zero }),
        self_damage: None,
        contact_damage: None,
        spawner: None,
        camera: None,
        camera_follow: None,
        player: Some(Player {  }),
        enemy: None,
    }
}

/// The spawner at the start of the shooter: it fires at once, then about
/// every two seconds, around `player`.
pub open spec fn spec_fresh_spawner(player: EntityId) -> Components {
    Components {
        spawner: Some(
            Spawner { spawnrate: Fixed { raw: 2_000_000 }, last: Fixed { raw: 0 }, player },
        ),
        ..Components::spec_none()
    }
}

#[verifier::when_used_as_spec(spec_fresh_spawner)]
pub fn fresh_spawner(player: EntityId) -> (r: Components)
    ensures
        r == spec_fresh_spawner(player),
{
    let mut parts: Components = Components::none();
    parts.spawner = Some(
        Spawner { spawnrate: Fixed { raw: 2_000_000 }, last: Fixed { raw: 0 }, player },
    );
    parts
}

/// The camera at the start of the shooter: at the origin, looking along the
/// depth, bound to `player`.
pub open spec fn spec_fresh_camera(player: EntityId) -> Components {
    let zero = Fixed { raw: 0 };
    Components {
        camera: Some(
            Camera {
                eye: Vec3 { x: zero, y: zero, z: zero },
                target: Vec3 { x: zero, y: zero, z: Fixed { raw: 100_000_000 } },
                up: Vec3 { x: zero, y: Fixed { raw: 1_000_000 }, z: zero },
                aspect: Fixed { raw: 1_000_000 },
                fovy: Fixed { raw: 90_000_000 },
                znear: Fixed { raw: 100_000 },
                zfar: Fixed { raw: 100_000_000 },
            },
        ),
        camera_follow: Some(CameraFollow { entity: player }),
        ..Components::spec_none()
    }
}

#[verifier::when_used_as_spec(spec_fresh_camera)]
pub fn fresh_camera(player: EntityId) -> (r: Components)
    ensures
        r == spec_fresh_camera(player),
{
    let zero = Fixed { raw: 0 };
    let mut parts: Components = Components::none();
    parts.camera = Some(
        Camera {
            eye: Vec3 { x: zero, y: zero, z: zero },
            target: Vec3 { x: zero, y: zero, z: Fixed { raw: 100_000_000 } },
            up: Vec3 { x: zero, y: Fixed { raw: 1_000_000 }, z: zero },
            aspect: Fixed { raw: 1_000_000 },
            fovy: Fixed { raw: 90_000_000 },
            znear: Fixed { raw: 100_000 },
            zfar: Fixed { raw: 100_000_000 },
        },
    );
    parts.camera_follow = Some(CameraFollow { entity: player });
    parts
}

/// The store after the shooter was set up in it: a player, a spawner and a
/// camera were added, in this order, as far as identifiers were left.
pub open spec fn shooter_store(before: StoreView) -> StoreView {
    let player = EntityId { index: before.next };
    before.with_new(spec_fresh_player()).with_new(spec_fresh_spawner(player)).with_new(
        spec_fresh_camera(player),
    )
}

/// The entity that carries the camera after the shooter was set up, if
/// there was an identifier left for it.
pub open spec fn shooter_camera(before: StoreView) -> Option<EntityId> {
    let filled = before.with_new(spec_fresh_player()).with_new(
        spec_fresh_spawner(EntityId { index: before.next }),
    );
    if filled.next < u64::MAX {
        Some(EntityId { index: filled.next })
    } else {
        None
    }
}

/// The universe after the shooter was set up in it.
pub open spec fn shooter_start(before: UniverseView) -> UniverseView {
    UniverseView {
        store: shooter_store(before.store),
        timer: before.timer,
        session: before.session,
        input: before.input,
        attention: before.attention,
        renderer: crate::graphics::Renderer {
            swapchain: before.renderer.swapchain,
            camera: shooter_camera(before.store),
            width: before.renderer.width,
            height: before.renderer.height,
        },
        stage: before.stage,
    }
}

/// The universe after `stage` was set up in it.
pub open spec fn stage_start(stage: Stage, before: UniverseView) -> UniverseView {
    match stage {
        Stage::Empty(_) => before,
        Stage::SpaceShooter(_) => shooter_start(before),
    }
}

impl State for EmptyState {
    fn new(_universe: &Universe) -> (r: Self) {
        Self {  }
    }

    fn init(&mut self, universe: &mut Universe)
        ensures
            *final(universe) == *old(universe),
    {
    }

    fn event(&mut self, universe: &mut Universe, _key: Key, _pressed: bool)
        ensures
            *final(universe) == *old(universe),
    {
    }

    fn update(&mut self, universe: &mut Universe)
        ensures
            *final(universe) == *old(universe),
    {
    }
}

impl State for SpaceShooterState {
    fn new(_universe: &Universe) -> (r: Self) {
        Self {  }
    }

    fn init(&mut self, universe: &mut Universe)
        ensures
            final(universe)@ == shooter_start(old(universe)@),
    {
        let player = EntityId { index: universe.store.next_index() };
        universe.store.add_entity(fresh_player());
        universe.store.add_entity(fresh_spawner(player));
        let camera: Option<EntityId> = universe.store.add_entity(fresh_camera(player));
        universe.renderer.camera = camera;
    }

    fn event(&mut self, universe: &mut Universe, _key: Key, _pressed: bool)
        ensures
            *final(universe) == *old(universe),
    {
    }

    fn update(&mut self, universe: &mut Universe)
        ensures
            *final(universe) == *old(universe),
    {
    }
}

impl Stage {
    /// Lets this stage act at the end of a frame. No stage does anything then.
    pub fn update(&mut self, universe: &mut Universe)
        requires
            old(universe).wf(),
        ensures
            *final(self) == *old(self),
            *final(universe) == *old(universe),
    {
        match self {
            Stage::Empty(state) => state.update(universe),
            Stage::SpaceShooter(state) => state.update(universe),
        }
    }

    /// Lets this stage see that `key` went down or up. No stage reacts.
    pub fn event(&mut self, universe: &mut Universe, key: Key, pressed: bool)
        requires
            old(universe).wf(),
        ensures
            *final(self) == *old(self),
            *final(universe) == *old(universe),
    {
        match self {
            Stage::Empty(state) => state.event(universe, key, pressed),
            Stage::SpaceShooter(state) => state.event(universe, key, pressed),
        }
    }

    /// Fills the universe for the start of this stage.
    pub fn init(&mut self, universe: &mut Universe)
        requires
            old(universe).wf(),
        ensures
            final(universe).wf(),
            *final(self) == *old(self),
            final(universe)@ == stage_start(*old(self), old(universe)@),
    {
        match self {
            Stage::Empty(state) => state.init(universe),
            Stage::SpaceShooter(state) => state.init(universe),
        }
    }
}

} // verus!
