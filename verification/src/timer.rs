//! Timers that count nanoseconds: one-shot timers, which run out once, and
//! repeating timers, which start over each time they run out.
//!
//! A timer is plain data. The arithmetic of a tick is that of
//! `bevy::time::Timer`, which does it.

use std::time::Duration;
use vstd::prelude::*;

verus! {

/// What a timer does when it runs out.
#[derive(Clone, Copy, Debug, PartialEq, Eq, Structural)]
pub enum TimerMode {
    /// The timer runs out once and then stands still.
    Once,
    /// The timer starts over, keeping the time by which it overran.
    Repeating,
}

/// A timer: how long it runs, how far it has run, and what its last tick
/// found.
#[derive(Clone, Copy, Debug, PartialEq, Eq, Structural)]
pub struct Timer {
    /// The time the timer runs for, in nanoseconds.
    pub duration: u64,
    /// The time it has run, in nanoseconds.
    pub elapsed: u64,
    pub mode: TimerMode,
    /// Whether the timer had run out at its last tick.
    pub finished: bool,
    /// Whether the timer ran out on its last tick.
    pub just_finished: bool,
}

/// What a tick of `delta` nanoseconds makes of a timer that has not run
/// out: the time it has run then, whether it has run out, and whether it
/// ran out on this tick.
///
/// Short of its duration the timer just runs on. At its duration a one-shot
/// timer stops there. A repeating timer keeps the remainder; it counts how
/// often it ran out in 32 bits, and a count of zero passes for not having
/// run out on this tick. A repeating timer without duration runs out on
/// every tick.
pub open spec fn spec_running_tick(
    duration: u64,
    elapsed: u64,
    mode: TimerMode,
    delta: u64,
) -> (u64, bool, bool) {
    let total = elapsed + delta;
    if total < duration {
        (total as u64, false, false)
    } else {
        match mode {
            TimerMode::Once => (duration, true, true),
            TimerMode::Repeating => if duration == 0 {
                (0u64, true, true)
            } else {
                (
                    (total % duration as int) as u64,
                    true,
                    (total / duration as int) % 0x1_0000_0000 != 0,
                )
            },
        }
    }
}

/// Ticks a timer that has not run out. A `bevy::time::Timer` is made with
/// `Timer::new` for the duration and the mode, put at the elapsed time with
/// `Timer::set_elapsed` and advanced with `Timer::tick`; what comes back is
/// what `Timer::elapsed`, `Timer::is_finished` and `Timer::just_finished`
/// say of it then. The contract states the arithmetic of `Timer::tick` for
/// a timer that is neither paused nor finished.
#[verifier::external_body]
fn running_tick(duration: u64, elapsed: u64, mode: TimerMode, delta: u64) -> (ticked: (
    u64,
    bool,
    bool,
))
    ensures
        ticked == spec_running_tick(duration, elapsed, mode, delta),
{
    let mode = match mode {
        TimerMode::Once => bevy::time::TimerMode::Once,
        TimerMode::Repeating => bevy::time::TimerMode::Repeating,
    };
    let mut timer = bevy::time::Timer::new(Duration::from_nanos(duration), mode);
    timer.set_elapsed(Duration::from_nanos(elapsed));
    timer.tick(Duration::from_nanos(delta));
    (timer.elapsed().as_nanos() as u64, timer.is_finished(), timer.just_finished())
}

impl Timer {
    /// A timer at its start.
    pub open spec fn spec_new(duration: u64, mode: TimerMode) -> Timer {
        Timer { duration, elapsed: 0, mode, finished: false, just_finished: false }
    }

    /// A timer at its start, to run for `duration` nanoseconds.
    pub fn new(duration: u64, mode: TimerMode) -> (timer: Timer)
        ensures
            timer == Timer::spec_new(duration, mode),
    {
        Timer { duration, elapsed: 0, mode, finished: false, just_finished: false }
    }

    /// The timer after a tick of `delta` nanoseconds. A one-shot timer that
    /// has run out stands still; every other timer runs as
    /// `spec_running_tick` says.
    pub open spec fn spec_ticked(self, delta: u64) -> Timer {
        if self.mode == TimerMode::Once && self.finished {
            Timer { just_finished: false, ..self }
        } else {
            let ticked = spec_running_tick(self.duration, self.elapsed, self.mode, delta);
            Timer { elapsed: ticked.0, finished: ticked.1, just_finished: ticked.2, ..self }
        }
    }

    /// Advances the timer by `delta` nanoseconds.
    pub fn tick(&mut self, delta: u64)
        ensures
            *final(self) == old(self).spec_ticked(delta),
    {
        if self.mode == TimerMode::Once && self.finished {
            self.just_finished = false;
        } else {
            let ticked = running_tick(self.duration, self.elapsed, self.mode, delta);
            self.elapsed = ticked.0;
            self.finished = ticked.1;
            self.just_finished = ticked.2;
        }
    }

    /// Puts the timer back to its start.
    pub fn reset(&mut self)
        ensures
            *final(self) == Timer::spec_new(old(self).duration, old(self).mode),
    {
        self.elapsed = 0;
        self.finished = false;
        self.just_finished = false;
    }

    /// Gives the timer another duration; the time it has run stays.
    pub fn set_duration(&mut self, duration: u64)
        ensures
            *final(self) == (Timer { duration, ..*old(self) }),
    {
        self.duration = duration;
    }
}

/// A one-shot timer started at zero runs out on the tick that completes its
/// duration, not before, and never again after.
pub proof fn lemma_one_shot_runs_out_once(duration: u64, first: u64, second: u64)
    ensures
        Timer::spec_new(duration, TimerMode::Once).spec_ticked(first).just_finished == (first
            >= duration),
        first >= duration ==> !Timer::spec_new(duration, TimerMode::Once).spec_ticked(
            first,
        ).spec_ticked(second).just_finished,
        first < duration ==> Timer::spec_new(duration, TimerMode::Once).spec_ticked(
            first,
        ).spec_ticked(second).just_finished == (first + second >= duration),
{
}

/// A tick keeps the time run within the duration: a timer that has not
/// overrun does not overrun.
pub proof fn lemma_tick_stays_within_duration(timer: Timer, delta: u64)
    requires
        timer.elapsed <= timer.duration,
    ensures
        timer.spec_ticked(delta).elapsed <= timer.duration,
        timer.spec_ticked(delta).duration == timer.duration,
        timer.spec_ticked(delta).mode == timer.mode,
{
    let total = timer.elapsed + delta;
    if timer.duration > 0 && total >= timer.duration {
        vstd::arithmetic::div_mod::lemma_mod_bound(total, timer.duration as int);
    }
}

} // verus!
