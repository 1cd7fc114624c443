//! Countdown / repeat timer driven by caller-supplied time deltas.
//!
//! Times are in milliseconds. A timer in `Once` mode saturates at its
//! duration and stays finished until `reset`; a timer in `Repeating` mode
//! wraps, and counts how many times the duration boundary was crossed during
//! the most recent `tick`, so that a single large delta spanning several
//! periods drops no events. A zero duration counts as already finished and
//! never divides by zero.

use vstd::prelude::*;

verus! {

/// Upper bound on durations and deltas, in milliseconds (several thousand
/// years). Keeps all timer arithmetic comfortably inside `u64`.
pub const TIME_LIMIT: u64 = 0x4000_0000_0000;

#[derive(Clone, Copy, PartialEq, Eq, Structural, Debug)]
pub enum TimerMode {
    Once,
    Repeating,
}

#[derive(Clone, Copy, PartialEq, Eq, Structural, Debug)]
pub struct Timer {
    pub duration: u64,
    pub elapsed: u64,
    pub mode: TimerMode,
    pub times_finished_this_tick: u64,
}

impl Timer {
    /// Well-formedness: bounded duration, elapsed never beyond it.
    pub open spec fn wf(self) -> bool {
        self.duration <= TIME_LIMIT && self.elapsed <= self.duration
    }

    pub open spec fn spec_duration(self) -> u64 {
        self.duration
    }

    pub open spec fn spec_elapsed(self) -> u64 {
        self.elapsed
    }

    pub open spec fn spec_mode(self) -> TimerMode {
        self.mode
    }

    /// How often the duration boundary was crossed during the most recent
    /// `tick` call.
    pub open spec fn spec_times_finished(self) -> u64 {
        self.times_finished_this_tick
    }

    /// `finished` is sticky in `Once` mode; in `Repeating` mode it means the
    /// boundary was crossed during the most recent `tick`.
    pub open spec fn spec_finished(self) -> bool {
        match self.mode {
            TimerMode::Once => self.elapsed >= self.duration,
            TimerMode::Repeating => self.times_finished_this_tick > 0,
        }
    }

    pub open spec fn spec_just_finished(self) -> bool {
        self.times_finished_this_tick > 0
    }

    /// The timer with a new duration, the elapsed time clamped to it.
    pub open spec fn with_duration(self, duration: u64) -> Timer {
        Timer {
            duration,
            elapsed: if self.elapsed > duration {
                duration
            } else {
                self.elapsed
            },
            ..self
        }
    }

    /// The timer with a new elapsed time, clamped to the duration.
    pub open spec fn with_elapsed(self, elapsed: u64) -> Timer {
        Timer {
            elapsed: if elapsed > self.duration {
                self.duration
            } else {
                elapsed
            },
            ..self
        }
    }

    /// The timer as `reset` leaves it: nothing elapsed, no pending firing.
    pub open spec fn reset_spec(self) -> Timer {
        Timer { elapsed: 0, times_finished_this_tick: 0, ..self }
    }

    /// The mathematical effect of advancing the timer by `dt` milliseconds.
    pub open spec fn ticked(self, dt: u64) -> Timer {
        match self.mode {
            TimerMode::Once => {
                let total = self.elapsed + dt;
                let new_elapsed: int = if total > self.duration {
                    self.duration as int
                } else {
                    total
                };
                Timer {
                    elapsed: new_elapsed as u64,
                    times_finished_this_tick: if self.elapsed < self.duration
                        && new_elapsed >= self.duration {
                        1
                    } else {
                        0
                    },
                    ..self
                }
            },
            TimerMode::Repeating => {
                if self.duration == 0 {
                    Timer { times_finished_this_tick: 1, ..self }
                } else {
                    let total = self.elapsed + dt;
                    Timer {
                        elapsed: (total % (self.duration as int)) as u64,
                        times_finished_this_tick: (total / (self.duration as int)) as u64,
                        ..self
                    }
                }
            },
        }
    }

    pub fn new(duration: u64, mode: TimerMode) -> (t: Timer)
        requires
            duration <= TIME_LIMIT,
        ensures
            t.wf(),
            t.spec_duration() == duration,
            t.spec_elapsed() == 0,
            t.spec_mode() == mode,
            t.spec_times_finished() == 0,
    {
        Timer { duration, elapsed: 0, mode, times_finished_this_tick: 0 }
    }

    /// Advance by `dt` milliseconds, counting boundary crossings.
    pub fn tick(&mut self, dt: u64)
        requires
            old(self).wf(),
            dt <= TIME_LIMIT,
        ensures
            *final(self) == old(self).ticked(dt),
            final(self).wf(),
    {
        match self.mode {
            TimerMode::Once => {
                let remaining = self.duration - self.elapsed;
                if dt >= remaining {
                    self.times_finished_this_tick = if self.elapsed < self.duration {
                        1
                    } else {
                        0
                    };
                    self.elapsed = self.duration;
                } else {
                    self.elapsed = self.elapsed + dt;
                    self.times_finished_this_tick = 0;
                }
            },
            TimerMode::Repeating => {
                if self.duration == 0 {
                    self.times_finished_this_tick = 1;
                } else {
                    let total = self.elapsed + dt;
                    self.times_finished_this_tick = total / self.duration;
                    self.elapsed = total % self.duration;
                }
            },
        }
    }

    pub fn just_finished(&self) -> (r: bool)
        ensures
            r == self.spec_just_finished(),
    {
        self.times_finished_this_tick > 0
    }

    pub fn times_finished_this_tick(&self) -> (r: u64)
        ensures
            r == self.spec_times_finished(),
    {
        self.times_finished_this_tick
    }

    pub fn finished(&self) -> (r: bool)
        ensures
            r == self.spec_finished(),
    {
        match self.mode {
            TimerMode::Once => self.elapsed >= self.duration,
            TimerMode::Repeating => self.times_finished_this_tick > 0,
        }
    }

    pub fn duration(&self) -> (r: u64)
        ensures
            r == self.spec_duration(),
    {
        self.duration
    }

    pub fn elapsed(&self) -> (r: u64)
        ensures
            r == self.spec_elapsed(),
    {
        self.elapsed
    }

    pub fn mode(&self) -> (r: TimerMode)
        ensures
            r == self.spec_mode(),
    {
        self.mode
    }

    pub fn reset(&mut self)
        ensures
            *final(self) == old(self).reset_spec(),
            old(self).wf() ==> final(self).wf(),
    {
        self.elapsed = 0;
        self.times_finished_this_tick = 0;
    }

    /// Change the duration; the elapsed time is clamped so the timer stays
    /// well formed.
    pub fn set_duration(&mut self, duration: u64)
        requires
            duration <= TIME_LIMIT,
        ensures
            *final(self) == old(self).with_duration(duration),
            final(self).wf(),
    {
        self.duration = duration;
        if self.elapsed > duration {
            self.elapsed = duration;
        }
    }

    /// Set the elapsed time; clamped to the duration so the timer stays well
    /// formed.
    pub fn set_elapsed(&mut self, elapsed: u64)
        requires
            old(self).wf(),
        ensures
            *final(self) == old(self).with_elapsed(elapsed),
            final(self).wf(),
    {
        if elapsed > self.duration {
            self.elapsed = self.duration;
        } else {
            self.elapsed = elapsed;
        }
    }
}


/// Sum of a sequence of deltas, in milliseconds.
pub open spec fn seq_sum(dts: Seq<u64>) -> int
    decreases dts.len(),
{
    if dts.len() == 0 {
        0
    } else {
        dts[0] + seq_sum(dts.subrange(1, dts.len() as int))
    }
}

/// How often `just_finished` fires, in total, over a sequence of `tick`
/// calls (counting every boundary crossing within each call).
pub open spec fn finish_count(t: Timer, dts: Seq<u64>) -> int
    decreases dts.len(),
{
    if dts.len() == 0 {
        0
    } else {
        t.ticked(dts[0]).times_finished_this_tick
            + finish_count(t.ticked(dts[0]), dts.subrange(1, dts.len() as int))
    }
}

pub proof fn lemma_seq_sum_nonneg(dts: Seq<u64>)
    ensures
        seq_sum(dts) >= 0,
    decreases dts.len(),
{
    if dts.len() > 0 {
        lemma_seq_sum_nonneg(dts.subrange(1, dts.len() as int));
    }
}

/// Law: a timer in `Once` mode fires `just_finished` exactly once over any
/// sequence of deltas whose sum reaches the remaining time, and never
/// otherwise — no matter how the deltas are split.
pub proof fn lemma_once_fires_exactly_once(t: Timer, dts: Seq<u64>)
    requires
        t.mode == TimerMode::Once,
        t.elapsed <= t.duration,
    ensures
        finish_count(t, dts) == if t.elapsed < t.duration
            && t.elapsed + seq_sum(dts) >= t.duration {
            1int
        } else {
            0int
        },
    decreases dts.len(),
{
    if dts.len() > 0 {
        let rest = dts.subrange(1, dts.len() as int);
        let t1 = t.ticked(dts[0]);
        lemma_seq_sum_nonneg(rest);
        lemma_once_fires_exactly_once(t1, rest);
    }
}

/// Law: a timer in `Repeating` mode fires once per full period of
/// accumulated time: over any sequence of deltas, the total number of
/// `just_finished` firings is `floor((elapsed + sum) / duration)`, even when
/// one delta spans several periods.
pub proof fn lemma_repeating_fires_per_period(t: Timer, dts: Seq<u64>)
    requires
        t.mode == TimerMode::Repeating,
        0 < t.duration <= TIME_LIMIT,
        t.elapsed < t.duration,
        forall|i: int| 0 <= i < dts.len() ==> dts[i] <= TIME_LIMIT,
    ensures
        finish_count(t, dts) == (t.elapsed + seq_sum(dts)) / (t.duration as int),
    decreases dts.len(),
{
    let d = t.duration as int;
    if dts.len() == 0 {
        vstd::arithmetic::div_mod::lemma_basic_div(t.elapsed as int, d);
    } else {
        let rest = dts.subrange(1, dts.len() as int);
        let t1 = t.ticked(dts[0]);
        let x = t.elapsed + dts[0];
        assert(t1.elapsed == x % d && t1.times_finished_this_tick == x / d) by {
            vstd::arithmetic::div_mod::lemma_remainder_upper(x, d);
            vstd::arithmetic::div_mod::lemma_remainder_lower(x, d);
            vstd::arithmetic::div_mod::lemma_div_pos_is_pos(x, d);
            vstd::arithmetic::div_mod::lemma_div_is_ordered(x, 2 * TIME_LIMIT as int, d);
        };
        lemma_repeating_fires_per_period(t1, rest);
        let r = seq_sum(rest);
        lemma_seq_sum_nonneg(rest);
        assert((x % d) + r + (x / d) * d == x + r) by {
            vstd::arithmetic::div_mod::lemma_fundamental_div_mod(x, d);
            vstd::arithmetic::mul::lemma_mul_is_commutative(x / d, d);
        };
        assert(((x % d) + r) / d + x / d == (x + r) / d) by {
            vstd::arithmetic::div_mod::lemma_hoist_over_denominator(
                (x % d) + r,
                x / d,
                t.duration as nat,
            );
        };
    }
}

} // verus!
