//! The death system: entities whose health is below zero leave the store.

use vstd::prelude::*;
use crate::store::{Row, Store, StoreView};

verus! {

/// Whether the entity of `row` is dead: it has health, and that is below zero.
pub open spec fn spec_dead(row: Row) -> bool {
    row.parts.life is Some && row.parts.life->0.health.raw < 0
}

#[verifier::when_used_as_spec(spec_dead)]
pub fn dead(row: Row) -> (r: bool)
    ensures
        r == spec_dead(row),
{
    match row.parts.life {
        Some(life) => life.health.raw < 0,
        None => false,
    }
}

/// `!spec_dead` as a function value.
pub open spec fn alive_fn() -> spec_fn(Row) -> bool {
    |row: Row| !spec_dead(row)
}

/// Whether `row` is a dead enemy, as a function value.
pub open spec fn fallen_fn() -> spec_fn(Row) -> bool {
    |row: Row| spec_dead(row) && row.parts.enemy is Some
}

/// The rows that are not dead, in order.
pub open spec fn survivors(rows: Seq<Row>) -> Seq<Row> {
    rows.filter(alive_fn())
}

/// The number of dead enemies among `rows`.
pub open spec fn fallen(rows: Seq<Row>) -> nat {
    rows.filter(fallen_fn()).len()
}

/// The store after the death system.
pub open spec fn death_spec(before: StoreView) -> StoreView {
    StoreView { rows: survivors(before.rows), next: before.next }
}

/// What `filter` makes of one more row.
pub proof fn lemma_filter_next(rows: Seq<Row>, k: int, pred: spec_fn(Row) -> bool)
    requires
        0 <= k < rows.len(),
    ensures
        rows.take(k + 1).filter(pred) == if pred(rows[k]) {
            rows.take(k).filter(pred).push(rows[k])
        } else {
            rows.take(k).filter(pred)
        },
{
    reveal(Seq::filter);
    assert(rows.take(k + 1).drop_last() =~= rows.take(k));
    assert(rows.take(k + 1).last() == rows[k]);
}

/// Runs the death system over the store and returns the points gained.
///
/// Every entity with health below zero is deleted, once, with all its
/// components; the others stay in their order. The points gained are the
/// number of deleted entities that had the enemy tag.
pub fn death(store: &mut Store) -> (score: usize)
    requires
        old(store).wf(),
    ensures
        final(store).wf(),
        final(store)@ == death_spec(old(store)@),
        score == fallen(old(store)@.rows),
{
    let ghost rows: Seq<Row> = store@.rows;
    let total: usize = store.len();
    let mut score: usize = 0;
    let mut seen: usize = 0;
    let mut kept: usize = 0;
    proof {
        reveal(Seq::filter);
        assert(rows.take(0).filter(alive_fn()) =~= Seq::<Row>::empty());
        assert(rows.take(0).filter(fallen_fn()) =~= Seq::<Row>::empty());
        assert(rows.take(0).filter(alive_fn()) + rows.skip(0) =~= rows);
    }
    while seen < total
        invariant
            store.wf(),
            rows == old(store)@.rows,
            store@.next == old(store)@.next,
            total == rows.len(),
            seen <= total,
            kept <= seen,
            score <= seen,
            kept == rows.take(seen as int).filter(alive_fn()).len(),
            store@.rows == rows.take(seen as int).filter(alive_fn()) + rows.skip(seen as int),
            score == rows.take(seen as int).filter(fallen_fn()).len(),
        decreases total - seen,
    {
        let ghost head = rows.take(seen as int).filter(alive_fn());
        assert(store@.rows[kept as int] == rows[seen as int]);
        let row: Row = store.row(kept);
        proof {
            lemma_filter_next(rows, seen as int, alive_fn());
            lemma_filter_next(rows, seen as int, fallen_fn());
        }
        if dead(row) {
            if row.parts.enemy.is_some() {
                score = score + 1;
            }
            store.remove_at(kept);
            assert(store@.rows =~= head + rows.skip(seen + 1));
        } else {
            kept = kept + 1;
            assert(store@.rows =~= head.push(rows[seen as int]) + rows.skip(seen + 1));
        }
        seen = seen + 1;
    }
    proof {
        assert(rows.take(total as int) =~= rows);
        assert(store@.rows =~= survivors(rows));
    }
    score
}

} // verus!
