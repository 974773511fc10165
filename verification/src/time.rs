//! Frame timers: the duration of the last frame, the running time, and a
//! smoothed frame time over a window of recent frames.
//!
//! The timers read a clock, but everything they compute is a function of
//! the microseconds that passed between two readings.

use std::collections::VecDeque;
use chrono::NaiveTime;
use vstd::prelude::*;
use crate::fixed::{sat, trunc_div, Fixed};

verus! {

#[verifier::external_type_specification]
#[verifier::external_body]
pub struct ExNaiveTime(chrono::NaiveTime);

/// The time of day in UTC.
///
/// Trusted: calls `chrono::Utc::now`, then `naive_utc` and `time` on the
/// result. Nothing is claimed of the value.
#[verifier::external_body]
fn clock() -> NaiveTime {
    chrono::Utc::now().naive_utc().time()
}

/// The whole microseconds from `earlier` to `later`, negative where `later`
/// is the earlier time of day.
///
/// Trusted: calls `chrono::NaiveTime::signed_duration_since` and
/// `chrono::TimeDelta::num_microseconds`. Nothing is claimed of the value.
#[verifier::external_body]
fn micros_between(later: &NaiveTime, earlier: &NaiveTime) -> Option<i64> {
    later.signed_duration_since(*earlier).num_microseconds()
}

/// Sum of a sequence of numbers, by their raw values.
pub open spec fn total(window: Seq<Fixed>) -> int
    decreases window.len(),
{
    if window.len() == 0 {
        0
    } else {
        total(window.drop_last()) + window.last().raw
    }
}

/// Mean of a window of numbers, rounded toward zero; `None` for an empty window.
pub open spec fn mean(window: Seq<Fixed>) -> Option<Fixed> {
    if window.len() == 0 {
        None
    } else {
        Some(Fixed { raw: trunc_div(total(window), window.len() as int) as i64 })
    }
}

/// The frame time in milliseconds of a frame that took `micros` microseconds.
pub open spec fn millis_of(micros: i64) -> Fixed {
    Fixed { raw: sat(micros * 1000) as i64 }
}

/// A number of milliseconds as seconds.
pub open spec fn seconds_of(millis: Fixed) -> Fixed {
    millis.spec_divided_by(Fixed { raw: 1_000_000_000 })
}

/// How many frames of the given duration in seconds fit into one second;
/// `None` for a frame of no duration.
pub open spec fn rate_of(seconds: Fixed) -> Option<Fixed> {
    Fixed { raw: 1_000_000 }.spec_over(seconds)
}

/// The window after `frame_time` was recorded: it is appended, and the
/// oldest record leaves once the window has reached `smooth` records.
pub open spec fn recorded(window: Seq<Fixed>, frame_time: Fixed, smooth: usize) -> Seq<Fixed> {
    if window.len() + 1 >= smooth {
        window.push(frame_time).subrange(1, window.len() as int + 1)
    } else {
        window.push(frame_time)
    }
}

/// The sum of a window stays within the window's length times the bounds of
/// one number, and grows by each number pushed.
pub proof fn lemma_total_bounds(window: Seq<Fixed>)
    ensures
        -window.len() * 0x8000_0000_0000_0000 <= total(window) <= window.len()
            * 0x8000_0000_0000_0000,
    decreases window.len(),
{
    if window.len() > 0 {
        lemma_total_bounds(window.drop_last());
        assert((window.len() - 1) * 0x8000_0000_0000_0000 + 0x8000_0000_0000_0000 == window.len()
            * 0x8000_0000_0000_0000) by (nonlinear_arith);
    }
}

fn mean_of(window: &VecDeque<Fixed>) -> (r: Option<Fixed>)
    ensures
        r == mean(window@),
{
    let count: usize = window.len();
    if count == 0 {
        return None;
    }
    let mut sum: i128 = 0;
    let mut i: usize = 0;
    while i < count
        invariant
            count == window@.len(),
            i <= count,
            sum == total(window@.take(i as int)),
        decreases count - i,
    {
        proof {
            assert(window@.take(i + 1).drop_last() =~= window@.take(i as int));
            assert(window@.take(i + 1).last() == window@[i as int]);
            lemma_total_bounds(window@.take(i as int));
            assert(i * 0x8000_0000_0000_0000 <= 0xffff_ffff_ffff_ffff * 0x8000_0000_0000_0000)
                by (nonlinear_arith)
                requires
                    i <= 0xffff_ffff_ffff_ffff,
            ;
        }
        sum = sum + window[i].raw as i128;
        i = i + 1;
    }
    proof {
        assert(window@.take(count as int) =~= window@);
        lemma_total_bounds(window@);
        lemma_mean_in_range(total(window@), count as int);
    }
    let q: i128 = sum / (count as i128);
    Some(Fixed { raw: q as i64 })
}

/// The mean of `n` numbers of the range of `i64` lies in that range.
pub proof fn lemma_mean_in_range(sum: int, n: int)
    requires
        n > 0,
        -n * 0x8000_0000_0000_0000 <= sum <= n * 0x8000_0000_0000_0000,
    ensures
        -0x8000_0000_0000_0000 <= trunc_div(sum, n) <= 0x8000_0000_0000_0000,
        sum < n * 0x8000_0000_0000_0000 ==> trunc_div(sum, n) < 0x8000_0000_0000_0000,
{
    if sum >= 0 {
        vstd::arithmetic::div_mod::lemma_fundamental_div_mod(sum, n);
        vstd::arithmetic::div_mod::lemma_mod_bound(sum, n);
        let q = sum / n;
        assert(q <= 0x8000_0000_0000_0000 && (sum < n * 0x8000_0000_0000_0000 ==> q
            < 0x8000_0000_0000_0000) && q >= 0) by (nonlinear_arith)
            requires
                sum == n * q + sum % n,
                0 <= sum % n < n,
                0 <= sum <= n * 0x8000_0000_0000_0000,
                n > 0,
        ;
    } else {
        let m = -sum;
        vstd::arithmetic::div_mod::lemma_fundamental_div_mod(m, n);
        vstd::arithmetic::div_mod::lemma_mod_bound(m, n);
        let q = m / n;
        assert(0 <= q <= 0x8000_0000_0000_0000) by (nonlinear_arith)
            requires
                m == n * q + m % n,
                0 <= m % n < n,
                0 <= m <= n * 0x8000_0000_0000_0000,
                n > 0,
        ;
    }
}

/// What a [`Timer`] holds, apart from its readings of the clock.
pub struct TimerView {
    /// Duration of the last frame in milliseconds.
    pub frame_time: Fixed,
    /// Durations of the most recent frames, oldest first.
    pub window: Seq<Fixed>,
    /// Number of records at which the window starts to drop its oldest.
    pub smooth: usize,
    /// Running time in seconds.
    pub lifetime: Fixed,
}

impl TimerView {
    /// The timer after a frame of `micros` microseconds.
    pub open spec fn advanced(self, micros: i64) -> TimerView {
        TimerView {
            frame_time: millis_of(micros),
            window: recorded(self.window, millis_of(micros), self.smooth),
            smooth: self.smooth,
            lifetime: self.lifetime.spec_plus(seconds_of(millis_of(micros))),
        }
    }

    /// The timer with its running time back at zero.
    pub open spec fn rewound(self) -> TimerView {
        TimerView {
            frame_time: self.frame_time,
            window: self.window,
            smooth: self.smooth,
            lifetime: Fixed { raw: 0 },
        }
    }
}

/// Measures frames and keeps the running time of the simulation.
pub struct Timer {
    frame_time: Fixed,
    frame_coll: VecDeque<Fixed>,
    frame_smooth_count: usize,
    now: NaiveTime,
    start: NaiveTime,
    lifetime: Fixed,
}

impl View for Timer {
    type V = TimerView;

    closed spec fn view(&self) -> TimerView {
        TimerView {
            frame_time: self.frame_time,
            window: self.frame_coll@,
            smooth: self.frame_smooth_count,
            lifetime: self.lifetime,
        }
    }
}

fn millis(micros: i64) -> (r: Fixed)
    ensures
        r == millis_of(micros),
{
    let wide: i128 = micros as i128 * 1000;
    if wide > i64::MAX as i128 {
        Fixed { raw: i64::MAX }
    } else if wide < i64::MIN as i128 {
        Fixed { raw: i64::MIN }
    } else {
        Fixed { raw: wide as i64 }
    }
}

impl Timer {
    /// A timer that has seen no frame; its window starts to drop records
    /// once it holds `frame_smooth_count` of them.
    pub fn new(frame_smooth_count: usize) -> (r: Timer)
        ensures
            r@ == (TimerView {
                frame_time: Fixed { raw: 0 },
                window: Seq::empty(),
                smooth: frame_smooth_count,
                lifetime: Fixed { raw: 0 },
            }),
    {
        Self {
            frame_time: Fixed { raw: 0 },
            frame_coll: VecDeque::new(),
            frame_smooth_count,
            now: clock(),
            start: clock(),
            lifetime: Fixed { raw: 0 },
        }
    }

    /// Records a frame that took `micros` microseconds.
    pub fn advance(&mut self, micros: i64)
        ensures
            final(self)@ == old(self)@.advanced(micros),
    {
        self.frame_time = millis(micros);
        self.frame_coll.push_back(self.frame_time);
        if self.frame_coll.len() >= self.frame_smooth_count {
            self.frame_coll.pop_front();
        }
        self.lifetime = self.lifetime.plus(
            self.frame_time.divided_by(Fixed { raw: 1_000_000_000 }),
        );
    }

    /// Reads the clock and records the frame that ended now. A span that the
    /// clock cannot give in microseconds counts as none.
    pub fn update(&mut self)
        ensures
            exists|micros: i64| final(self)@ == old(self)@.advanced(micros),
    {
        self.now = clock();
        let micros: i64 = match micros_between(&self.now, &self.start) {
            Some(micros) => micros,
            None => 0,
        };
        self.start = self.now;
        assert(self@ == old(self)@);
        self.advance(micros);
        assert(self@ == old(self)@.advanced(micros));
    }

    /// Sets the running time back to zero.
    pub fn rewind(&mut self)
        ensures
            final(self)@ == old(self)@.rewound(),
    {
        self.lifetime = Fixed { raw: 0 };
    }

    /// Duration of the last frame in milliseconds.
    pub fn frame_time(&self) -> (r: Fixed)
        ensures
            r == self@.frame_time,
    {
        self.frame_time
    }

    /// Duration of the last frame in seconds.
    pub fn delta(&self) -> (r: Fixed)
        ensures
            r == seconds_of(self@.frame_time),
    {
        self.frame_time.divided_by(Fixed { raw: 1_000_000_000 })
    }

    /// Running time in seconds.
    pub fn lifetime(&self) -> (r: Fixed)
        ensures
            r == self@.lifetime,
    {
        self.lifetime
    }

    /// Mean frame time over the window in milliseconds; `None` while the
    /// window is empty.
    pub fn frame_time_smooth(&self) -> (r: Option<Fixed>)
        ensures
            r == mean(self@.window),
    {
        mean_of(&self.frame_coll)
    }

    /// Frames per second at the duration of the last frame; `None` where
    /// that duration is zero.
    pub fn frames_per_second(&self) -> (r: Option<Fixed>)
        ensures
            r == rate_of(seconds_of(self@.frame_time)),
    {
        Fixed { raw: 1_000_000 }.over(self.delta())
    }

    /// Frames per second at the mean frame time; `None` where there is no
    /// mean or it is zero.
    pub fn frames_per_second_smooth(&self) -> (r: Option<Fixed>)
        ensures
            r == match mean(self@.window) {
                Some(smooth) => rate_of(seconds_of(smooth)),
                None => None,
            },
    {
        match self.frame_time_smooth() {
            Some(smooth) => Fixed { raw: 1_000_000 }.over(
                smooth.divided_by(Fixed { raw: 1_000_000_000 }),
            ),
            None => None,
        }
    }
}

/// What a [`FrameAccumTimer`] holds, apart from its readings of the clock.
pub struct FrameAccumView {
    /// Duration of the last frame in milliseconds.
    pub frame_time: Fixed,
    /// Mean frame time as of the last callback, if there was one over a
    /// window that was not empty.
    pub frame_time_smooth: Option<Fixed>,
    /// Durations of the most recent frames, oldest first.
    pub window: Seq<Fixed>,
    /// Number of records at which the window starts to drop its oldest.
    pub smooth: usize,
    /// Milliseconds between two callbacks.
    pub callback_interval: Fixed,
    /// Milliseconds gathered toward the next callback.
    pub accum: Fixed,
    /// Running time in seconds.
    pub lifetime: Fixed,
}

impl FrameAccumView {
    /// The timer after a frame of `micros` microseconds.
    pub open spec fn advanced(self, micros: i64) -> FrameAccumView {
        FrameAccumView {
            frame_time: millis_of(micros),
            frame_time_smooth: self.frame_time_smooth,
            window: self.window.push(millis_of(micros)),
            smooth: self.smooth,
            callback_interval: self.callback_interval,
            accum: self.accum.spec_plus(millis_of(micros)),
            lifetime: self.lifetime.spec_plus(seconds_of(millis_of(micros))),
        }
    }

    /// Whether enough time was gathered for a callback.
    pub open spec fn fires(self) -> bool {
        self.accum.raw >= self.callback_interval.raw
    }

    /// The timer as the callback sees it: with the mean over the window
    /// taken anew.
    pub open spec fn measured(self) -> FrameAccumView {
        FrameAccumView {
            frame_time: self.frame_time,
            frame_time_smooth: mean(self.window),
            window: self.window,
            smooth: self.smooth,
            callback_interval: self.callback_interval,
            accum: self.accum,
            lifetime: self.lifetime,
        }
    }

    /// The window after a trigger: its oldest record leaves once it holds
    /// `smooth` records.
    pub open spec fn trimmed(self) -> Seq<Fixed> {
        if self.window.len() >= self.smooth && self.window.len() > 0 {
            self.window.subrange(1, self.window.len() as int)
        } else {
            self.window
        }
    }

    /// The timer after a trigger.
    pub open spec fn triggered(self) -> FrameAccumView {
        FrameAccumView {
            frame_time: self.frame_time,
            frame_time_smooth: if self.fires() {
                mean(self.window)
            } else {
                self.frame_time_smooth
            },
            window: self.trimmed(),
            smooth: self.smooth,
            callback_interval: self.callback_interval,
            accum: if self.fires() {
                self.accum.spec_minus(self.callback_interval)
            } else {
                self.accum
            },
            lifetime: self.lifetime,
        }
    }
}

/// A frame timer that calls back at a fixed interval of gathered frame time.
pub struct FrameAccumTimer {
    frame_time: Fixed,
    frame_time_smooth: Option<Fixed>,
    frame_coll: VecDeque<Fixed>,
    frame_smooth_count: usize,
    callback_interval: Fixed,
    frame_time_accum: Fixed,
    now: NaiveTime,
    start: NaiveTime,
    lifetime: Fixed,
}

impl View for FrameAccumTimer {
    type V = FrameAccumView;

    closed spec fn view(&self) -> FrameAccumView {
        FrameAccumView {
            frame_time: self.frame_time,
            frame_time_smooth: self.frame_time_smooth,
            window: self.frame_coll@,
            smooth: self.frame_smooth_count,
            callback_interval: self.callback_interval,
            accum: self.frame_time_accum,
            lifetime: self.lifetime,
        }
    }
}

impl FrameAccumTimer {
    /// A timer that has seen no frame and calls back every
    /// `callback_interval` milliseconds.
    pub fn new(frame_smooth_count: usize, callback_interval: Fixed) -> (r: FrameAccumTimer)
        ensures
            r@ == (FrameAccumView {
                frame_time: Fixed { raw: 0 },
                frame_time_smooth: None,
                window: Seq::empty(),
                smooth: frame_smooth_count,
                callback_interval,
                accum: Fixed { raw: 0 },
                lifetime: Fixed { raw: 0 },
            }),
    {
        Self {
            frame_time: Fixed { raw: 0 },
            frame_time_smooth: None,
            frame_coll: VecDeque::new(),
            frame_smooth_count,
            callback_interval,
            frame_time_accum: Fixed { raw: 0 },
            now: clock(),
            start: clock(),
            lifetime: Fixed { raw: 0 },
        }
    }

    /// Records a frame that took `micros` microseconds.
    pub fn advance(&mut self, micros: i64)
        ensures
            final(self)@ == old(self)@.advanced(micros),
    {
        self.frame_time = millis(micros);
        self.frame_coll.push_back(self.frame_time);
        self.frame_time_accum = self.frame_time_accum.plus(self.frame_time);
        self.lifetime = self.lifetime.plus(
            self.frame_time.divided_by(Fixed { raw: 1_000_000_000 }),
        );
    }

    /// Reads the clock and records the frame that ended now. A span that the
    /// clock cannot give in microseconds counts as none.
    pub fn update(&mut self)
        ensures
            exists|micros: i64| final(self)@ == old(self)@.advanced(micros),
    {
        self.now = clock();
        let micros: i64 = match micros_between(&self.now, &self.start) {
            Some(micros) => micros,
            None => 0,
        };
        self.start = self.now;
        assert(self@ == old(self)@);
        self.advance(micros);
        assert(self@ == old(self)@.advanced(micros));
    }

    /// Calls `callback` if the interval has been gathered, with the mean
    /// frame time taken anew, and takes the interval off what was gathered.
    /// Then the window drops its oldest record if it is full.
    pub fn trigger<F: Fn(&FrameAccumTimer)>(&mut self, callback: F)
        requires
            forall|timer: &FrameAccumTimer| #[trigger] callback.requires((timer,)),
        ensures
            final(self)@ == old(self)@.triggered(),
            old(self)@.fires() ==> exists|seen: &FrameAccumTimer|
                seen@ == old(self)@.measured() && #[trigger] callback.ensures((seen,), ()),
    {
        if self.frame_time_accum.raw >= self.callback_interval.raw {
            self.frame_time_smooth = mean_of(&self.frame_coll);
            callback(&*self);
            self.frame_time_accum = self.frame_time_accum.minus(self.callback_interval);
        }
        if self.frame_coll.len() >= self.frame_smooth_count {
            self.frame_coll.pop_front();
        }
    }

    /// Duration of the last frame in milliseconds.
    pub fn frame_time(&self) -> (r: Fixed)
        ensures
            r == self@.frame_time,
    {
        self.frame_time
    }

    /// Duration of the last frame in seconds.
    pub fn delta(&self) -> (r: Fixed)
        ensures
            r == seconds_of(self@.frame_time),
    {
        self.frame_time.divided_by(Fixed { raw: 1_000_000_000 })
    }

    /// Running time in seconds.
    pub fn lifetime(&self) -> (r: Fixed)
        ensures
            r == self@.lifetime,
    {
        self.lifetime
    }

    /// Mean frame time as of the last callback, in milliseconds.
    pub fn frame_time_smooth(&self) -> (r: Option<Fixed>)
        ensures
            r == self@.frame_time_smooth,
    {
        self.frame_time_smooth
    }

    /// Frames per second at the duration of the last frame; `None` where
    /// that duration is zero.
    pub fn frames_per_second(&self) -> (r: Option<Fixed>)
        ensures
            r == rate_of(seconds_of(self@.frame_time)),
    {
        Fixed { raw: 1_000_000 }.over(self.delta())
    }

    /// Frames per second at the mean frame time as of the last callback;
    /// `None` where there is no mean or it is zero.
    pub fn frames_per_second_smooth(&self) -> (r: Option<Fixed>)
        ensures
            r == match self@.frame_time_smooth {
                Some(smooth) => rate_of(seconds_of(smooth)),
                None => None,
            },
    {
        match self.frame_time_smooth {
            Some(smooth) => Fixed { raw: 1_000_000 }.over(
                smooth.divided_by(Fixed { raw: 1_000_000_000 }),
            ),
            None => None,
        }
    }
}

} // verus!
