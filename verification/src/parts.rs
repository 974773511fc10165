//! Access to the components of an entity by their type.

use vstd::prelude::*;
use crate::components::{
    Camera, CameraFollow, ContactDamage, Enemy, Life, Physics, Player, SelfDamage, Spawner,
    Sprite, Transform, Weapon,
};
use crate::store::{holds, lookup, Components, EntityId, Store};

verus! {

/// A kind of component: a record of which each entity has at most one.
pub trait Component: Sized + Copy {
    /// The component of this kind among `parts`.
    spec fn part(parts: Components) -> Option<Self>;

    /// `parts` with the component of this kind replaced by `value`.
    spec fn with_part(parts: Components, value: Option<Self>) -> Components;

    /// Reads the component of this kind.
    fn read(parts: &Components) -> (r: Option<Self>)
        ensures
            r == Self::part(*parts),
    ;

    /// Replaces the component of this kind.
    fn write(parts: &mut Components, value: Option<Self>)
        ensures
            *final(parts) == Self::with_part(*old(parts), value),
    ;
}

impl Component for Transform {
    open spec fn part(parts: Components) -> Option<Self> {
        parts.transform
    }

    open spec fn with_part(parts: Components, value: Option<Self>) -> Components {
        Components { transform: value, ..parts }
    }

    fn read(parts: &Components) -> (r: Option<Self>) {
        parts.transform
    }

    fn write(parts: &mut Components, value: Option<Self>) {
        parts.transform = value;
    }
}

impl Component for Physics {
    open spec fn part(parts: Components) -> Option<Self> {
        parts.physics
    }

    open spec fn with_part(parts: Components, value: Option<Self>) -> Components {
        Components { physics: value, ..parts }
    }

    fn read(parts: &Components) -> (r: Option<Self>) {
        parts.physics
    }

    fn write(parts: &mut Components, value: Option<Self>) {
        parts.physics = value;
    }
}

impl Component for Sprite {
    open spec fn part(parts: Components) -> Option<Self> {
        parts.sprite
    }

    open spec fn with_part(parts: Components, value: Option<Self>) -> Components {
        Components { sprite: value, ..parts }
    }

    fn read(parts: &Components) -> (r: Option<Self>) {
        parts.sprite
    }

    fn write(parts: &mut Components, value: Option<Self>) {
        parts.sprite = value;
    }
}

impl Component for Life {
    open spec fn part(parts: Components) -> Option<Self> {
        parts.life
    }

    open spec fn with_part(parts: Components, value: Option<Self>) -> Components {
        Components { life: value, ..parts }
    }

    fn read(parts: &Components) -> (r: Option<Self>) {
        parts.life
    }

    fn write(parts: &mut Components, value: Option<Self>) {
        parts.life = value;
    }
}

impl Component for Weapon {
    open spec fn part(parts: Components) -> Option<Self> {
        parts.weapon
    }

    open spec fn with_part(parts: Components, value: Option<Self>) -> Components {
        Components { weapon: value, ..parts }
    }

    fn read(parts: &Components) -> (r: Option<Self>) {
        parts.weapon
    }

    fn write(parts: &mut Components, value: Option<Self>) {
        parts.weapon = value;
    }
}

impl Component for SelfDamage {
    open spec fn part(parts: Components) -> Option<Self> {
        parts.self_damage
    }

    open spec fn with_part(parts: Components, value: Option<Self>) -> Components {
        Components { self_damage: value, ..parts }
    }

    fn read(parts: &Components) -> (r: Option<Self>) {
        parts.self_damage
    }

    fn write(parts: &mut Components, value: Option<Self>) {
        parts.self_damage = value;
    }
}

impl Component for ContactDamage {
    open spec fn part(parts: Components) -> Option<Self> {
        parts.contact_damage
    }

    open spec fn with_part(parts: Components, value: Option<Self>) -> Components {
        Components { contact_damage: value, ..parts }
    }

    fn read(parts: &Components) -> (r: Option<Self>) {
        parts.contact_damage
    }

    fn write(parts: &mut Components, value: Option<Self>) {
        parts.contact_damage = value;
    }
}

impl Component for Spawner {
    open spec fn part(parts: Components) -> Option<Self> {
        parts.spawner
    }

    open spec fn with_part(parts: Components, value: Option<Self>) -> Components {
        Components { spawner: value, ..parts }
    }

    fn read(parts: &Components) -> (r: Option<Self>) {
        parts.spawner
    }

    fn write(parts: &mut Components, value: Option<Self>) {
        parts.spawner = value;
    }
}

impl Component for Camera {
    open spec fn part(parts: Components) -> Option<Self> {
        parts.camera
    }

    open spec fn with_part(parts: Components, value: Option<Self>) -> Components {
        Components { camera: value, ..parts }
    }

    fn read(parts: &Components) -> (r: Option<Self>) {
        parts.camera
    }

    fn write(parts: &mut Components, value: Option<Self>) {
        parts.camera = value;
    }
}

impl Component for CameraFollow {
    open spec fn part(parts: Components) -> Option<Self> {
        parts.camera_follow
    }

    open spec fn with_part(parts: Components, value: Option<Self>) -> Components {
        Components { camera_follow: value, ..parts }
    }

    fn read(parts: &Components) -> (r: Option<Self>) {
        parts.camera_follow
    }

    fn write(parts: &mut Components, value: Option<Self>) {
        parts.camera_follow = value;
    }
}

impl Component for Player {
    open spec fn part(parts: Components) -> Option<Self> {
        parts.player
    }

    open spec fn with_part(parts: Components, value: Option<Self>) -> Components {
        Components { player: value, ..parts }
    }

    fn read(parts: &Components) -> (r: Option<Self>) {
        parts.player
    }

    fn write(parts: &mut Components, value: Option<Self>) {
        parts.player = value;
    }
}

impl Component for Enemy {
    open spec fn part(parts: Components) -> Option<Self> {
        parts.enemy
    }

    open spec fn with_part(parts: Components, value: Option<Self>) -> Components {
        Components { enemy: value, ..parts }
    }

    fn read(parts: &Components) -> (r: Option<Self>) {
        parts.enemy
    }

    fn write(parts: &mut Components, value: Option<Self>) {
        parts.enemy = value;
    }
}

impl Store {
    /// The component of kind `T` of the entity `id`; `None` where the entity
    /// is not alive or has none.
    pub fn component<T: Component>(&self, id: EntityId) -> (r: Option<T>)
        requires
            self.wf(),
        ensures
            r == match lookup(self@.rows, id) {
                Some(parts) => T::part(parts),
                None => None,
            },
    {
        match self.get(id) {
            Some(parts) => T::read(&parts),
            None => None,
        }
    }

    /// Attaches `value` to the entity `id`, in place of the component of
    /// that kind that it may have; returns whether the entity is alive.
    pub fn attach<T: Component>(&mut self, id: EntityId, value: T) -> (r: bool)
        requires
            old(self).wf(),
        ensures
            final(self).wf(),
            r == holds(old(self)@.rows, id),
            r ==> final(self)@ == old(self)@.replaced(
                id,
                T::with_part(lookup(old(self)@.rows, id)->0, Some(value)),
            ),
            !r ==> final(self)@ == old(self)@,
    {
        match self.get(id) {
            Some(parts) => {
                let mut parts: Components = parts;
                T::write(&mut parts, Some(value));
                self.put(id, parts)
            },
            None => false,
        }
    }

    /// Takes the component of kind `T` from the entity `id`; returns whether
    /// the entity is alive.
    pub fn detach<T: Component>(&mut self, id: EntityId) -> (r: bool)
        requires
            old(self).wf(),
        ensures
            final(self).wf(),
            r == holds(old(self)@.rows, id),
            r ==> final(self)@ == old(self)@.replaced(
                id,
                T::with_part(lookup(old(self)@.rows, id)->0, None),
            ),
            !r ==> final(self)@ == old(self)@,
    {
        match self.get(id) {
            Some(parts) => {
                let mut parts: Components = parts;
                T::write(&mut parts, None);
                self.put(id, parts)
            },
            None => false,
        }
    }
}

} // verus!
