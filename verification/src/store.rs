//! The entity store: a table of rows, one per live entity, in order of creation.
//!
//! An entity is an identifier and nothing else. Each row binds one identifier
//! to the components attached to it, every kind of component at most once.
//! Identifiers are handed out in increasing order and never reused, so the
//! rows are sorted by identifier and iteration follows the order of creation.

use vstd::prelude::*;
use crate::components::{
    Camera, CameraFollow, ContactDamage, Enemy, Life, Physics, Player, SelfDamage, Spawner,
    Sprite, Transform, Weapon,
};

verus! {

/// An opaque identifier of an entity.
#[derive(Clone, Copy, Debug, PartialEq, Eq, Structural)]
pub struct EntityId {
    pub index: u64,
}

/// The components attached to one entity.
#[derive(Clone, Copy, Debug, PartialEq, Eq)]
pub struct Components {
    pub transform: Option<Transform>,
    pub physics: Option<Physics>,
    pub sprite: Option<Sprite>,
    pub life: Option<Life>,
    pub weapon: Option<Weapon>,
    pub self_damage: Option<SelfDamage>,
    pub contact_damage: Option<ContactDamage>,
    pub spawner: Option<Spawner>,
    pub camera: Option<Camera>,
    pub camera_follow: Option<CameraFollow>,
    pub player: Option<Player>,
    pub enemy: Option<Enemy>,
}

/// One live entity with what is attached to it.
#[derive(Clone, Copy, Debug, PartialEq, Eq)]
pub struct Row {
    pub id: EntityId,
    pub parts: Components,
}

/// The mathematical content of a store: its rows in order of creation and
/// the index that the next entity will get.
pub struct StoreView {
    pub rows: Seq<Row>,
    pub next: u64,
}

/// Whether some row of `rows` belongs to `id`.
pub open spec fn holds(rows: Seq<Row>, id: EntityId) -> bool {
    exists|i: int| 0 <= i < rows.len() && (#[trigger] rows[i]).id == id
}

/// The position of the row of `id`, where there is one.
pub open spec fn slot(rows: Seq<Row>, id: EntityId) -> int {
    choose|i: int| 0 <= i < rows.len() && (#[trigger] rows[i]).id == id
}

/// The components of `id`, or `None` where `id` is not alive.
pub open spec fn lookup(rows: Seq<Row>, id: EntityId) -> Option<Components> {
    if holds(rows, id) {
        Some(rows[slot(rows, id)].parts)
    } else {
        None
    }
}

/// Rows are sorted by identifier, strictly.
pub open spec fn ascending(rows: Seq<Row>) -> bool {
    forall|i: int, j: int|
        0 <= i < j < rows.len() ==> (#[trigger] rows[i]).id.index < (#[trigger] rows[j]).id.index
}

/// Every identifier in `rows` is below `next`.
pub open spec fn below(rows: Seq<Row>, next: u64) -> bool {
    forall|i: int| 0 <= i < rows.len() ==> (#[trigger] rows[i]).id.index < next
}

impl Components {
    /// No component at all.
    pub open spec fn spec_none() -> Components {
        Components {
            transform: None,
            physics: None,
            sprite: None,
            life: None,
            weapon: None,
            self_damage: None,
            contact_damage: None,
            spawner: None,
            camera: None,
            camera_follow: None,
            player: None,
            enemy: None,
        }
    }

    #[verifier::when_used_as_spec(spec_none)]
    pub fn none() -> (r: Components)
        ensures
            r == Components::spec_none(),
    {
        Components {
            transform: None,
            physics: None,
            sprite: None,
            life: None,
            weapon: None,
            self_damage: None,
            contact_damage: None,
            spawner: None,
            camera: None,
            camera_follow: None,
            player: None,
            enemy: None,
        }
    }
}

impl StoreView {
    /// The invariant of a store: identifiers ascend and are below `next`.
    pub open spec fn wf(self) -> bool {
        ascending(self.rows) && below(self.rows, self.next)
    }

    /// The store after a new entity with `parts` was created.
    pub open spec fn created(self, parts: Components) -> StoreView {
        StoreView {
            rows: self.rows.push(Row { id: EntityId { index: self.next }, parts }),
            next: (self.next + 1) as u64,
        }
    }

    /// The store after an entity with `parts` was added, if an identifier was
    /// left for it: the last index is never handed out.
    pub open spec fn with_new(self, parts: Components) -> StoreView {
        if self.next < u64::MAX {
            self.created(parts)
        } else {
            self
        }
    }

    /// The store after an entity was added for each of `list`, in order.
    pub open spec fn with_all(self, list: Seq<Components>) -> StoreView
        decreases list.len(),
    {
        if list.len() == 0 {
            self
        } else {
            self.with_all(list.drop_last()).with_new(list.last())
        }
    }

    /// The store after the entity `id` was deleted.
    pub open spec fn deleted(self, id: EntityId) -> StoreView {
        if holds(self.rows, id) {
            StoreView { rows: self.rows.remove(slot(self.rows, id)), next: self.next }
        } else {
            self
        }
    }

    /// The store after `parts` replaced the components of `id`.
    pub open spec fn replaced(self, id: EntityId, parts: Components) -> StoreView {
        if holds(self.rows, id) {
            StoreView {
                rows: self.rows.update(slot(self.rows, id), Row { id, parts }),
                next: self.next,
            }
        } else {
            self
        }
    }
}

/// In a sorted table each identifier has one row only.
pub proof fn lemma_slot_unique(rows: Seq<Row>, id: EntityId, i: int)
    requires
        ascending(rows),
        0 <= i < rows.len(),
        rows[i].id == id,
    ensures
        holds(rows, id),
        slot(rows, id) == i,
        lookup(rows, id) == Some(rows[i].parts),
{
    let j = slot(rows, id);
    assert(0 <= j < rows.len() && rows[j].id == id);
    if j < i {
        assert(rows[j].id.index < rows[i].id.index);
    }
    if i < j {
        assert(rows[i].id.index < rows[j].id.index);
    }
}

/// Two tables with the same identifiers at the same positions find every
/// identifier at the same position.
pub proof fn lemma_same_ids(a: Seq<Row>, b: Seq<Row>, id: EntityId)
    requires
        a.len() == b.len(),
        forall|i: int| 0 <= i < a.len() ==> (#[trigger] a[i]).id == b[i].id,
        ascending(a),
    ensures
        holds(a, id) == holds(b, id),
        holds(a, id) ==> slot(a, id) == slot(b, id),
{
    assert(ascending(b)) by {
        assert forall|i: int, j: int| 0 <= i < j < b.len() implies (#[trigger] b[i]).id.index < (
        #[trigger] b[j]).id.index by {
            assert(a[i].id == b[i].id);
            assert(a[j].id == b[j].id);
        }
    }
    if holds(a, id) {
        let i = slot(a, id);
        assert(a[i].id == b[i].id);
        lemma_slot_unique(b, id, i);
    }
    if holds(b, id) {
        let i = slot(b, id);
        assert(a[i].id == b[i].id);
        lemma_slot_unique(a, id, i);
    }
}

/// A table that has the identifiers of a well-formed one at the same
/// positions is well-formed too.
pub proof fn lemma_same_ids_wf(a: StoreView, b: StoreView)
    requires
        a.wf(),
        a.next == b.next,
        a.rows.len() == b.rows.len(),
        forall|i: int| 0 <= i < a.rows.len() ==> (#[trigger] b.rows[i]).id == a.rows[i].id,
    ensures
        b.wf(),
{
    assert forall|i: int, j: int| 0 <= i < j < b.rows.len() implies (#[trigger] b.rows[i]).id.index
        < (#[trigger] b.rows[j]).id.index by {
        assert(b.rows[i].id == a.rows[i].id);
        assert(b.rows[j].id == a.rows[j].id);
    }
    assert forall|i: int| 0 <= i < b.rows.len() implies (#[trigger] b.rows[i]).id.index
        < b.next by {
        assert(b.rows[i].id == a.rows[i].id);
    }
}

/// Adding an entity keeps a store well-formed and its rows in place; the
/// new row, if there is one, comes last and has the next identifier.
pub proof fn lemma_with_new(before: StoreView, parts: Components)
    requires
        before.wf(),
    ensures
        before.with_new(parts).wf(),
        before.with_new(parts).next >= before.next,
        before.with_new(parts).rows.len() >= before.rows.len(),
        before.with_new(parts).rows.len() <= before.rows.len() + 1,
        forall|i: int|
            0 <= i < before.rows.len() ==> (#[trigger] before.with_new(parts).rows[i])
                == before.rows[i],
        forall|i: int|
            before.rows.len() <= i < before.with_new(parts).rows.len() ==> {
                &&& (#[trigger] before.with_new(parts).rows[i]).id.index >= before.next
                &&& before.with_new(parts).rows[i].parts == parts
            },
{
}

/// Adding entities keeps a store well-formed and its rows in place; the new
/// rows come last, with identifiers that were not in use, and each holds
/// one of the listed sets of components.
pub proof fn lemma_with_all(before: StoreView, list: Seq<Components>)
    requires
        before.wf(),
    ensures
        before.with_all(list).wf(),
        before.with_all(list).next >= before.next,
        before.with_all(list).rows.len() >= before.rows.len(),
        forall|i: int|
            0 <= i < before.rows.len() ==> (#[trigger] before.with_all(list).rows[i])
                == before.rows[i],
        forall|i: int|
            before.rows.len() <= i < before.with_all(list).rows.len() ==> {
                &&& (#[trigger] before.with_all(list).rows[i]).id.index >= before.next
                &&& list.contains(before.with_all(list).rows[i].parts)
            },
    decreases list.len(),
{
    if list.len() > 0 {
        let rest = list.drop_last();
        lemma_with_all(before, rest);
        let mid = before.with_all(rest);
        lemma_with_new(mid, list.last());
        let after = before.with_all(list);
        assert(after == mid.with_new(list.last()));
        assert forall|i: int| before.rows.len() <= i < after.rows.len() implies {
            &&& (#[trigger] after.rows[i]).id.index >= before.next
            &&& list.contains(after.rows[i].parts)
        } by {
            if i < mid.rows.len() {
                assert(after.rows[i] == mid.rows[i]);
                let k = choose|k: int| 0 <= k < rest.len() && rest[k] == mid.rows[i].parts;
                assert(list[k] == rest[k]);
            } else {
                assert(after.rows[i].parts == list.last());
                assert(list[list.len() - 1] == list.last());
            }
        }
    }
}

/// The entity store.
pub struct Store {
    rows: Vec<Row>,
    next: u64,
}

impl View for Store {
    type V = StoreView;

    closed spec fn view(&self) -> StoreView {
        StoreView { rows: self.rows@, next: self.next }
    }
}

impl Store {
    /// Whether the invariant of the store holds.
    pub open spec fn wf(&self) -> bool {
        self@.wf()
    }

    /// An empty store whose first entity will get index zero.
    pub fn new() -> (r: Store)
        ensures
            r@.rows.len() == 0,
            r@.next == 0,
            r.wf(),
    {
        Store { rows: Vec::new(), next: 0 }
    }

    /// The number of live entities.
    pub fn len(&self) -> (n: usize)
        ensures
            n == self@.rows.len(),
    {
        self.rows.len()
    }

    /// The index that the next entity will get.
    pub fn next_index(&self) -> (n: u64)
        ensures
            n == self@.next,
    {
        self.next
    }

    /// The row at position `i` in order of creation.
    pub fn row(&self, i: usize) -> (r: Row)
        requires
            i < self@.rows.len(),
        ensures
            r == self@.rows[i as int],
    {
        self.rows[i]
    }

    /// Replaces the components of the row at position `i`.
    pub fn set_parts(&mut self, i: usize, parts: Components)
        requires
            i < old(self)@.rows.len(),
        ensures
            final(self)@.rows == old(self)@.rows.update(
                i as int,
                Row { id: old(self)@.rows[i as int].id, parts },
            ),
            final(self)@.next == old(self)@.next,
            old(self).wf() ==> final(self).wf(),
    {
        let id = self.rows[i].id;
        self.rows.set(i, Row { id, parts });
    }

    /// Creates an entity with the components `parts` and returns its identifier.
    pub fn create_with(&mut self, parts: Components) -> (id: EntityId)
        requires
            old(self).wf(),
            old(self)@.next < u64::MAX,
        ensures
            id.index == old(self)@.next,
            !holds(old(self)@.rows, id),
            final(self)@ == old(self)@.created(parts),
            final(self).wf(),
    {
        let id = EntityId { index: self.next };
        self.rows.push(Row { id, parts });
        self.next = self.next + 1;
        id
    }

    /// Adds an entity with the components `parts` if an identifier is left,
    /// and returns the identifier.
    pub fn add_entity(&mut self, parts: Components) -> (r: Option<EntityId>)
        requires
            old(self).wf(),
        ensures
            r is Some <==> old(self)@.next < u64::MAX,
            r matches Some(id) ==> id.index == old(self)@.next,
            final(self)@ == old(self)@.with_new(parts),
            final(self).wf(),
    {
        if self.next < u64::MAX {
            Some(self.create_with(parts))
        } else {
            None
        }
    }

    /// Adds an entity for each of `list`, in order, as far as identifiers are left.
    pub fn add_entities(&mut self, list: &Vec<Components>)
        requires
            old(self).wf(),
        ensures
            final(self)@ == old(self)@.with_all(list@),
            final(self).wf(),
    {
        let mut k: usize = 0;
        while k < list.len()
            invariant
                k <= list.len(),
                self.wf(),
                self@ == old(self)@.with_all(list@.take(k as int)),
            decreases list.len() - k,
        {
            assert(list@.take(k + 1).drop_last() =~= list@.take(k as int));
            self.add_entity(list[k]);
            k = k + 1;
        }
        assert(list@.take(list.len() as int) =~= list@);
    }

    /// Creates an entity without components and returns its identifier.
    pub fn create(&mut self) -> (id: EntityId)
        requires
            old(self).wf(),
            old(self)@.next < u64::MAX,
        ensures
            id.index == old(self)@.next,
            !holds(old(self)@.rows, id),
            final(self)@ == old(self)@.created(Components::spec_none()),
            final(self).wf(),
    {
        self.create_with(Components::none())
    }

    /// The position of the row of `id`, if `id` is alive.
    pub fn find(&self, id: EntityId) -> (r: Option<usize>)
        requires
            self.wf(),
        ensures
            r is Some <==> holds(self@.rows, id),
            r matches Some(i) ==> i == slot(self@.rows, id) && i < self@.rows.len()
                && self@.rows[i as int].id == id,
    {
        let mut i: usize = 0;
        while i < self.rows.len()
            invariant
                i <= self.rows.len(),
                self.wf(),
                forall|k: int| 0 <= k < i ==> (#[trigger] self@.rows[k]).id != id,
            decreases self.rows.len() - i,
        {
            if self.rows[i].id.index == id.index {
                proof {
                    lemma_slot_unique(self@.rows, id, i as int);
                }
                return Some(i);
            }
            i = i + 1;
        }
        None
    }

    /// Whether `id` is alive.
    pub fn contains(&self, id: EntityId) -> (r: bool)
        requires
            self.wf(),
        ensures
            r == holds(self@.rows, id),
    {
        self.find(id).is_some()
    }

    /// The components of `id`; `None` where `id` is not alive.
    pub fn get(&self, id: EntityId) -> (r: Option<Components>)
        requires
            self.wf(),
        ensures
            r == lookup(self@.rows, id),
    {
        match self.find(id) {
            Some(i) => Some(self.rows[i].parts),
            None => None,
        }
    }

    /// Replaces the components of `id`; returns whether `id` is alive.
    pub fn put(&mut self, id: EntityId, parts: Components) -> (r: bool)
        requires
            old(self).wf(),
        ensures
            r == holds(old(self)@.rows, id),
            final(self)@ == old(self)@.replaced(id, parts),
            final(self).wf(),
    {
        match self.find(id) {
            Some(i) => {
                self.rows.set(i, Row { id, parts });
                true
            },
            None => false,
        }
    }

    /// Deletes `id` with all its components; returns whether `id` was alive.
    pub fn delete(&mut self, id: EntityId) -> (r: bool)
        requires
            old(self).wf(),
        ensures
            r == holds(old(self)@.rows, id),
            final(self)@ == old(self)@.deleted(id),
            !holds(final(self)@.rows, id),
            final(self).wf(),
    {
        match self.find(id) {
            Some(i) => {
                self.rows.remove(i);
                proof {
                    let before = old(self)@.rows;
                    let after = self@.rows;
                    assert forall|k: int| 0 <= k < after.len() implies (#[trigger] after[k]).id
                        != id by {
                        if k < i {
                            assert(after[k] == before[k]);
                            assert(before[k].id.index < before[i as int].id.index);
                        } else {
                            assert(after[k] == before[k + 1]);
                            assert(before[i as int].id.index < before[k + 1].id.index);
                        }
                    }
                }
                true
            },
            None => false,
        }
    }

    /// Deletes the entity at position `i`.
    pub fn remove_at(&mut self, i: usize)
        requires
            old(self).wf(),
            i < old(self)@.rows.len(),
        ensures
            final(self)@.rows == old(self)@.rows.remove(i as int),
            final(self)@.next == old(self)@.next,
            final(self).wf(),
    {
        self.rows.remove(i);
        proof {
            let before = old(self)@.rows;
            let after = self@.rows;
            assert forall|a: int, b: int| 0 <= a < b < after.len() implies (#[trigger] after[a]).id.index
                < (#[trigger] after[b]).id.index by {
                let a2 = if a < i { a } else { a + 1 };
                let b2 = if b < i { b } else { b + 1 };
                assert(after[a] == before[a2]);
                assert(after[b] == before[b2]);
            }
            assert forall|a: int| 0 <= a < after.len() implies (#[trigger] after[a]).id.index
                < self.next by {
                let a2 = if a < i { a } else { a + 1 };
                assert(after[a] == before[a2]);
            }
        }
    }

    /// Deletes every entity. Identifiers are still not reused.
    pub fn clear(&mut self)
        ensures
            final(self)@.rows.len() == 0,
            final(self)@.next == old(self)@.next,
            final(self).wf(),
    {
        self.rows.clear();
    }
}

} // verus!
