//! The contact system: entities that touch deal their contact damage.

use vstd::prelude::*;
use crate::components::{ContactDamage, Life, Transform};
use crate::fixed::Fixed;
use crate::store::{Components, Row, Store, StoreView};

verus! {

/// Whether two placed entities touch: their distance in the plane of play is
/// less than the sum of their radii, which are the first components of
/// their scales.
pub open spec fn spec_touching(a: Transform, b: Transform) -> bool {
    let dx = a.position.x.raw - b.position.x.raw;
    let dy = a.position.y.raw - b.position.y.raw;
    let reach = a.scale.x.raw + b.scale.x.raw;
    reach > 0 && dx * dx + dy * dy < reach * reach
}

fn gap(a: i64, b: i64) -> (d: u128)
    ensures
        d == if a >= b { a - b } else { b - a },
        d <= 0xffff_ffff_ffff_ffff,
{
    if a >= b {
        (a as i128 - b as i128) as u128
    } else {
        (b as i128 - a as i128) as u128
    }
}

/// Decides whether two placed entities touch, in exact arithmetic.
#[verifier::when_used_as_spec(spec_touching)]
pub fn touching(a: Transform, b: Transform) -> (r: bool)
    ensures
        r == spec_touching(a, b),
{
    let reach: i128 = a.scale.x.raw as i128 + b.scale.x.raw as i128;
    if reach <= 0 {
        return false;
    }
    let radius: u128 = reach as u128;
    let across: u128 = gap(a.position.x.raw, b.position.x.raw);
    let along: u128 = gap(a.position.y.raw, b.position.y.raw);
    let ghost dx: int = a.position.x.raw - b.position.x.raw;
    let ghost dy: int = a.position.y.raw - b.position.y.raw;
    assert(across * across == dx * dx && along * along == dy * dy) by (nonlinear_arith)
        requires
            across == dx || across == -dx,
            along == dy || along == -dy,
    ;
    if across >= radius || along >= radius {
        assert(dx * dx + dy * dy >= radius * radius) by (nonlinear_arith)
            requires
                across * across == dx * dx,
                along * along == dy * dy,
                across >= radius || along >= radius,
                across >= 0,
                along >= 0,
                radius > 0,
        ;
        return false;
    }
    assert(radius * radius <= 0xffff_ffff_ffff_fffe * 0xffff_ffff_ffff_fffe && across * across
        < radius * radius && along * along < radius * radius) by (nonlinear_arith)
        requires
            0 <= across < radius,
            0 <= along < radius,
            radius <= 0xffff_ffff_ffff_fffe,
    ;
    let limit: u128 = radius * radius - across * across;
    along * along < limit
}

/// Whether the entity of row `a` deals its contact damage to that of row `t`.
///
/// The first has a placement and contact damage, the second a placement and
/// health; they are two entities, not both enemies, and they touch.
pub open spec fn strikes(a: Row, t: Row) -> bool {
    &&& a.parts.transform is Some
    &&& a.parts.contact_damage is Some
    &&& t.parts.transform is Some
    &&& t.parts.life is Some
    &&& a.id != t.id
    &&& !(a.parts.enemy is Some && t.parts.enemy is Some)
    &&& spec_touching(a.parts.transform->0, t.parts.transform->0)
}

/// Health of the entity at position `t` after the entities at the positions
/// below `upto` dealt their damage to it, one after the other.
pub open spec fn battered(rows: Seq<Row>, t: int, upto: int) -> Fixed
    decreases upto,
{
    if upto <= 0 {
        rows[t].parts.life->0.health
    } else {
        let before = battered(rows, t, upto - 1);
        if strikes(rows[upto - 1], rows[t]) {
            before.spec_minus(rows[upto - 1].parts.contact_damage->0.damage)
        } else {
            before
        }
    }
}

/// Whether the entity at position `a` strikes one at a position below `upto`.
pub open spec fn hits_any(rows: Seq<Row>, a: int, upto: int) -> bool {
    exists|t: int| 0 <= t < upto && strikes(rows[a], #[trigger] rows[t])
}

/// Whether the entity at position `a` is spent: its contact damage is of the
/// kind that a hit consumes, and it struck something.
pub open spec fn spent(rows: Seq<Row>, a: int) -> bool {
    &&& rows[a].parts.contact_damage matches Some(contact)
    &&& contact.once
    &&& hits_any(rows, a, rows.len() as int)
}

/// Health that marks a spent entity as dead.
pub open spec fn dead_mark() -> Fixed {
    Fixed { raw: -1_000_000i64 }
}

/// `row` with its health replaced, if it has any.
pub open spec fn hurt(row: Row, health: Fixed) -> Row {
    match row.parts.life {
        Some(_) => Row {
            id: row.id,
            parts: Components { life: Some(Life { health }), ..row.parts },
        },
        None => row,
    }
}

/// The row at position `j` after the contact system.
///
/// Only health changes. A spent entity is left with the dead mark. Any other
/// keeps what the strikes of all entities, in the order of the store, leave
/// of its health.
pub open spec fn contact_row(rows: Seq<Row>, j: int) -> Row {
    hurt(
        rows[j],
        if spent(rows, j) {
            dead_mark()
        } else {
            battered(rows, j, rows.len() as int)
        },
    )
}

/// The store after the contact system.
pub open spec fn contact_spec(before: StoreView) -> StoreView {
    StoreView {
        rows: Seq::new(before.rows.len(), |j: int| contact_row(before.rows, j)),
        next: before.next,
    }
}

/// Lets the entity at position `a` strike every entity that it touches, and
/// returns whether it struck any.
fn strike_all(store: &mut Store, a: usize, rows: Ghost<Seq<Row>>) -> (hit: bool)
    requires
        old(store).wf(),
        a < rows@.len(),
        old(store)@.rows.len() == rows@.len(),
        forall|j: int|
            0 <= j < rows@.len() ==> (#[trigger] old(store)@.rows[j]) == hurt(
                rows@[j],
                battered(rows@, j, a as int),
            ),
    ensures
        final(store).wf(),
        final(store)@.next == old(store)@.next,
        final(store)@.rows.len() == rows@.len(),
        forall|j: int|
            0 <= j < rows@.len() ==> (#[trigger] final(store)@.rows[j]) == hurt(
                rows@[j],
                battered(rows@, j, a + 1),
            ),
        hit == hits_any(rows@, a as int, rows@.len() as int),
{
    let count: usize = store.len();
    let attacker: Row = store.row(a);
    let ghost rows = rows@;
    let (from, contact): (Transform, ContactDamage) = match (
        attacker.parts.transform,
        attacker.parts.contact_damage,
    ) {
        (Some(from), Some(contact)) => (from, contact),
        _ => {
            assert(forall|t: int| 0 <= t < rows.len() ==> !strikes(rows[a as int], #[trigger] rows[t]));
            return false;
        },
    };
    let mut hit: bool = false;
    let mut t: usize = 0;
    while t < count
        invariant
            store.wf(),
            store@.next == old(store)@.next,
            count == rows.len(),
            store@.rows.len() == count,
            a < count,
            t <= count,
            attacker == hurt(rows[a as int], battered(rows, a as int, a as int)),
            attacker.parts.transform == Some(from),
            attacker.parts.contact_damage == Some(contact),
            forall|j: int|
                0 <= j < t ==> (#[trigger] store@.rows[j]) == hurt(
                    rows[j],
                    battered(rows, j, a + 1),
                ),
            forall|j: int|
                t <= j < count ==> (#[trigger] store@.rows[j]) == hurt(
                    rows[j],
                    battered(rows, j, a as int),
                ),
            hit == hits_any(rows, a as int, t as int),
        decreases count - t,
    {
        let target: Row = store.row(t);
        let mut struck: bool = false;
        match (target.parts.transform, target.parts.life) {
            (Some(at), Some(life)) => {
                if attacker.id.index != target.id.index && !(attacker.parts.enemy.is_some()
                    && target.parts.enemy.is_some()) && touching(from, at) {
                    let mut parts: Components = target.parts;
                    parts.life = Some(Life { health: life.health.minus(contact.damage) });
                    store.set_parts(t, parts);
                    struck = true;
                }
            },
            _ => {},
        }
        proof {
            assert(struck == strikes(rows[a as int], rows[t as int]));
            if struck {
                assert(hits_any(rows, a as int, t + 1));
            } else if hits_any(rows, a as int, t + 1) {
                let w = choose|w: int| 0 <= w < t + 1 && strikes(rows[a as int], #[trigger] rows[w]);
                assert(w < t);
            }
        }
        hit = hit || struck;
        t = t + 1;
    }
    hit
}

/// Runs the contact system over the store.
///
/// Every entity with a placement and contact damage strikes every other
/// entity with a placement and health that it touches, unless both are
/// enemies. All strikes of a frame count. Afterwards each entity whose
/// contact damage a hit consumes, and which struck something, is marked dead
/// if it has health at all.
pub fn contactdamage(store: &mut Store)
    requires
        old(store).wf(),
    ensures
        final(store).wf(),
        final(store)@ == contact_spec(old(store)@),
{
    let count: usize = store.len();
    let ghost rows: Seq<Row> = store@.rows;
    let mut flags: Vec<bool> = Vec::new();
    let mut a: usize = 0;
    while a < count
        invariant
            store.wf(),
            rows == old(store)@.rows,
            store@.next == old(store)@.next,
            count == rows.len(),
            store@.rows.len() == count,
            a <= count,
            flags.len() == a,
            forall|k: int| 0 <= k < a ==> (#[trigger] flags[k]) == spent(rows, k),
            forall|j: int|
                0 <= j < count ==> (#[trigger] store@.rows[j]) == hurt(
                    rows[j],
                    battered(rows, j, a as int),
                ),
        decreases count - a,
    {
        let once: bool = match store.row(a).parts.contact_damage {
            Some(contact) => contact.once,
            None => false,
        };
        let hit: bool = strike_all(store, a, Ghost(rows));
        flags.push(hit && once);
        a = a + 1;
    }
    let mut j: usize = 0;
    while j < count
        invariant
            store.wf(),
            store@.next == old(store)@.next,
            count == rows.len(),
            store@.rows.len() == count,
            j <= count,
            flags.len() == count,
            forall|k: int| 0 <= k < count ==> (#[trigger] flags[k]) == spent(rows, k),
            forall|k: int| 0 <= k < j ==> (#[trigger] store@.rows[k]) == contact_row(rows, k),
            forall|k: int|
                j <= k < count ==> (#[trigger] store@.rows[k]) == hurt(
                    rows[k],
                    battered(rows, k, count as int),
                ),
        decreases count - j,
    {
        if flags[j] {
            let row: Row = store.row(j);
            match row.parts.life {
                Some(_) => {
                    let mut parts: Components = row.parts;
                    parts.life = Some(Life { health: Fixed { raw: -1_000_000 } });
                    store.set_parts(j, parts);
                },
                None => {},
            }
        }
        j = j + 1;
    }
    assert(store@.rows =~= contact_spec(old(store)@).rows);
}

} // verus!
