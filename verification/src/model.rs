//! The mathematical model of a countdown: clock readings are natural numbers
//! of nanoseconds, and every query is a function of the state and a reading.

use vstd::prelude::*;
use crate::text::{clock_text, decimal_text, percent_text};

verus! {

/// Clock readings count nanoseconds; durations are shown in whole seconds.
pub const NANOS_PER_SEC: u128 = 1_000_000_000;

/// The target duration is given in minutes and kept in seconds.
pub const SECS_PER_MINUTE: u128 = 60;

/// The time from one reading to a later one, and zero if `to` is not later.
pub open spec fn span(from: nat, to: nat) -> nat {
    if to >= from {
        (to - from) as nat
    } else {
        0
    }
}

/// How much of the target duration has passed, as `done` parts of `total`.
pub struct ProgressModel {
    pub done: nat,
    pub total: nat,
}

impl ProgressModel {
    /// A fraction between zero and one with a nonzero denominator.
    pub open spec fn wf(self) -> bool {
        0 < self.total && self.done <= self.total
    }

    pub open spec fn is_zero(self) -> bool {
        self.done == 0
    }

    /// The fraction equals one.
    pub open spec fn is_complete(self) -> bool {
        self.done == self.total
    }

    /// `self <= other` as fractions.
    pub open spec fn at_most(self, other: ProgressModel) -> bool {
        self.done * other.total <= other.done * self.total
    }

    /// The part of `width` that the fraction covers, rounded down.
    pub open spec fn scaled(self, width: nat) -> nat {
        (width * self.done) / self.total
    }

    /// The fraction in hundredths of a percent, rounded to the nearest;
    /// an exact half goes to the even neighbour.
    pub open spec fn hundredths(self) -> nat {
        let scaled = self.done * 10_000;
        let floor = scaled / self.total;
        let rest = scaled % self.total;
        if 2 * rest > self.total || (2 * rest == self.total && floor % 2 == 1) {
            floor + 1
        } else {
            floor
        }
    }
}

/// The state of a countdown.
pub struct CountdownModel {
    /// The label shown with the timer.
    pub name: Seq<char>,
    /// The reading from which elapsed time is measured; resuming moves it
    /// forward by the length of the pause.
    pub base: nat,
    /// The target duration in whole seconds.
    pub total_secs: nat,
    /// The reading at which the current pause began, if the timer is paused.
    pub paused_at: Option<nat>,
}

impl CountdownModel {
    /// A pause never begins before the time base.
    pub open spec fn wf(self) -> bool {
        self.paused_at matches Some(p) ==> self.base <= p
    }

    /// A running countdown of `minutes` minutes that starts at `now`.
    pub open spec fn start(name: Seq<char>, minutes: nat, now: nat) -> CountdownModel {
        CountdownModel {
            name,
            base: now,
            total_secs: minutes * (SECS_PER_MINUTE as nat),
            paused_at: None,
        }
    }

    pub open spec fn is_paused(self) -> bool {
        self.paused_at is Some
    }

    /// The reading up to which time counts: the start of the pause while
    /// paused, `now` while running.
    pub open spec fn frontier(self, now: nat) -> nat {
        match self.paused_at {
            Some(p) => p,
            None => now,
        }
    }

    pub open spec fn elapsed_nanos(self, now: nat) -> nat {
        span(self.base, self.frontier(now))
    }

    pub open spec fn elapsed_secs(self, now: nat) -> nat {
        self.elapsed_nanos(now) / (NANOS_PER_SEC as nat)
    }

    /// The target duration minus the elapsed time, and zero once it is used up.
    pub open spec fn remaining_secs(self, now: nat) -> nat {
        span(self.elapsed_secs(now), self.total_secs)
    }

    /// Whole seconds since the current pause began; zero while running.
    pub open spec fn paused_secs(self, now: nat) -> nat {
        match self.paused_at {
            Some(p) => span(p, now) / (NANOS_PER_SEC as nat),
            None => 0,
        }
    }

    /// Completion is judged only while running.
    pub open spec fn is_done(self, now: nat) -> bool {
        !self.is_paused() && self.elapsed_secs(now) >= self.total_secs
    }

    /// Elapsed seconds over the target duration, at most one; a target of
    /// zero seconds counts as complete.
    pub open spec fn progress(self, now: nat) -> ProgressModel {
        if self.total_secs == 0 {
            ProgressModel { done: 1, total: 1 }
        } else if self.elapsed_secs(now) >= self.total_secs {
            ProgressModel { done: self.total_secs, total: self.total_secs }
        } else {
            ProgressModel { done: self.elapsed_secs(now), total: self.total_secs }
        }
    }

    /// The elapsed time as `MM:SS`.
    pub open spec fn elapsed_text(self, now: nat) -> Seq<char> {
        clock_text(self.elapsed_secs(now))
    }

    /// The remaining time as `MM:SS`.
    pub open spec fn remaining_text(self, now: nat) -> Seq<char> {
        clock_text(self.remaining_secs(now))
    }

    /// The one-line summary: name, percentage, elapsed and remaining time
    /// while running; name and the length of the pause while paused.
    pub open spec fn status_text(self, now: nat) -> Seq<char> {
        if self.is_paused() {
            "[ TIMER "@ + self.name + " ][ PAUSED FOR "@ + decimal_text(self.paused_secs(now))
                + "s ]"@
        } else {
            "[ TIMER "@ + self.name + " "@ + percent_text(self.progress(now).hundredths())
                + "% ][ ELAPSED "@ + self.elapsed_text(now) + " ][ ENDS IN "@
                + self.remaining_text(now) + " ]"@
        }
    }

    /// Pausing a running countdown at `now`; a paused one stays as it is.
    pub open spec fn pause(self, now: nat) -> CountdownModel {
        if self.is_paused() {
            self
        } else {
            CountdownModel {
                paused_at: Some(if now >= self.base { now } else { self.base }),
                ..self
            }
        }
    }

    /// Resuming a paused countdown at `now`: the time base moves forward by
    /// the length of the pause. A running one stays as it is.
    pub open spec fn resume(self, now: nat) -> CountdownModel {
        match self.paused_at {
            Some(p) => CountdownModel { base: self.base + span(p, now), paused_at: None, ..self },
            None => self,
        }
    }

    /// Pausing if running, resuming if paused.
    pub open spec fn toggle(self, now: nat) -> CountdownModel {
        if self.is_paused() {
            self.resume(now)
        } else {
            self.pause(now)
        }
    }
}

} // verus!
