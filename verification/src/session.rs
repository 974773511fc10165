//! The counters of one play-through.

use vstd::prelude::*;

verus! {

/// Score of the current play-through.
#[derive(Clone, Copy, Debug, PartialEq, Eq, Structural)]
pub struct Session {
    pub score: i32,
}

/// The score after `gain` more points: their sum, or the largest score there is.
pub open spec fn raised(score: i32, gain: nat) -> i32 {
    if score + gain > i32::MAX {
        i32::MAX
    } else {
        (score + gain) as i32
    }
}

impl Session {
    /// A session without points.
    pub fn new() -> (r: Session)
        ensures
            r.score == 0,
    {
        Self { score: 0 }
    }

    /// Takes all points away.
    pub fn clear(&mut self)
        ensures
            final(self).score == 0,
    {
        self.score = 0;
    }

    /// Adds `gain` points; the score stops at the largest value it can hold.
    pub fn award(&mut self, gain: usize)
        ensures
            final(self).score == raised(old(self).score, gain as nat),
    {
        let wide: i128 = self.score as i128 + gain as i128;
        if wide > i32::MAX as i128 {
            self.score = i32::MAX;
        } else {
            self.score = wide as i32;
        }
    }
}

} // verus!
