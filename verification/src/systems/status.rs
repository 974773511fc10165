//! The status line of the game.

use vstd::prelude::*;
use vstd::string::StringExecFns;
use crate::fixed::Fixed;
use crate::session::Session;
use crate::store::{Row, Store};
use crate::systems::death::lemma_filter_next;
use crate::text::{decimal, digits, fixed_decimal, push_decimal, push_digits, push_fixed};
use crate::time::{mean, rate_of, seconds_of, Timer};

verus! {

/// Whether a row has the enemy tag, as a function value.
pub open spec fn enemy_fn() -> spec_fn(Row) -> bool {
    |row: Row| row.parts.enemy is Some
}

/// Whether a row has the player tag, as a function value.
pub open spec fn player_fn() -> spec_fn(Row) -> bool {
    |row: Row| row.parts.player is Some
}

/// The number of entities with the enemy tag.
pub open spec fn enemies_alive(rows: Seq<Row>) -> nat {
    rows.filter(enemy_fn()).len()
}

/// The number of entities with the player tag.
pub open spec fn players_alive(rows: Seq<Row>) -> nat {
    rows.filter(player_fn()).len()
}

/// The status line.
///
/// It names the game, the smoothed frame rate with one decimal place and the
/// smoothed frame time in milliseconds with three, the score and the number
/// of enemies, and tells a player without a live entity how to restart. A
/// frame time that does not exist reads `NaN`, and so does its rate; the
/// rate of a frame time of zero reads `inf`.
pub open spec fn status_text(
    smooth: Option<Fixed>,
    score: i32,
    enemies: nat,
    players: nat,
) -> Seq<char> {
    let rate: Seq<char> = match smooth {
        Some(millis) => match rate_of(seconds_of(millis)) {
            Some(rate) => fixed_decimal(rate.raw as int, 1),
            None => "inf"@,
        },
        None => "NaN"@,
    };
    let time: Seq<char> = match smooth {
        Some(millis) => fixed_decimal(millis.raw as int, 3),
        None => "NaN"@,
    };
    let tail: Seq<char> = if players > 0 {
        Seq::empty()
    } else {
        " - DEAD! Press R to Restart"@
    };
    "mathilda ("@ + rate + " fps / "@ + time + " ms) Score: "@ + decimal(score as int) + " ("@
        + digits(enemies) + " Enemies alive)"@ + tail
}

/// Counts the entities with the enemy tag and those with the player tag.
pub fn census(store: &Store) -> (r: (usize, usize))
    ensures
        r.0 == enemies_alive(store@.rows),
        r.1 == players_alive(store@.rows),
{
    let count: usize = store.len();
    let mut enemies: usize = 0;
    let mut players: usize = 0;
    let mut i: usize = 0;
    proof {
        reveal(Seq::filter);
        assert(store@.rows.take(0).filter(enemy_fn()) =~= Seq::<Row>::empty());
        assert(store@.rows.take(0).filter(player_fn()) =~= Seq::<Row>::empty());
    }
    while i < count
        invariant
            count == store@.rows.len(),
            i <= count,
            enemies <= i,
            players <= i,
            enemies == enemies_alive(store@.rows.take(i as int)),
            players == players_alive(store@.rows.take(i as int)),
        decreases count - i,
    {
        let row: Row = store.row(i);
        proof {
            lemma_filter_next(store@.rows, i as int, enemy_fn());
            lemma_filter_next(store@.rows, i as int, player_fn());
        }
        if row.parts.enemy.is_some() {
            enemies = enemies + 1;
        }
        if row.parts.player.is_some() {
            players = players + 1;
        }
        i = i + 1;
    }
    assert(store@.rows.take(count as int) =~= store@.rows);
    (enemies, players)
}

/// Assembles the status line from the timer, the session and the store.
pub fn status(store: &Store, timer: &Timer, session: &Session) -> (r: String)
    ensures
        r@ == status_text(
            mean(timer@.window),
            session.score,
            enemies_alive(store@.rows),
            players_alive(store@.rows),
        ),
{
    let (enemies, players) = census(store);
    let smooth: Option<Fixed> = timer.frame_time_smooth();
    let rate: Option<Fixed> = timer.frames_per_second_smooth();
    let mut out: String = String::from_str("mathilda (");
    match smooth {
        Some(_) => match rate {
            Some(rate) => push_fixed(&mut out, rate, 1),
            None => out.append("inf"),
        },
        None => out.append("NaN"),
    }
    out.append(" fps / ");
    match smooth {
        Some(millis) => push_fixed(&mut out, millis, 3),
        None => out.append("NaN"),
    }
    out.append(" ms) Score: ");
    push_decimal(&mut out, session.score as i64);
    out.append(" (");
    push_digits(&mut out, enemies as u64);
    out.append(" Enemies alive)");
    if players == 0 {
        out.append(" - DEAD! Press R to Restart");
    }
    assert(out@ =~= status_text(
        mean(timer@.window),
        session.score,
        enemies_alive(store@.rows),
        players_alive(store@.rows),
    ));
    out
}

} // verus!
