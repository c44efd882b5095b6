//! The countdown itself: a state machine over explicit clock readings.
//!
//! Every operation takes the current reading as an argument, so the same
//! sequence of readings always gives the same answers.

use vstd::prelude::*;
use vstd::string::StringExecFns;
use crate::model::{CountdownModel, NANOS_PER_SEC, SECS_PER_MINUTE};
use crate::progress::{Progress, MAX_TOTAL_SECS};
use crate::text::{push_clock, push_decimal, push_percent};

verus! {

/// A countdown with a name, a target duration and an optional pause mark.
pub struct Countdown {
    name: String,
    base: u128,
    total_secs: u128,
    paused_at: Option<u128>,
}

impl View for Countdown {
    type V = CountdownModel;

    closed spec fn view(&self) -> CountdownModel {
        CountdownModel {
            name: self.name@,
            base: self.base as nat,
            total_secs: self.total_secs as nat,
            paused_at: match self.paused_at {
                Some(p) => Some(p as nat),
                None => None,
            },
        }
    }
}

impl Countdown {
    #[verifier::type_invariant]
    spec fn inv(&self) -> bool {
        &&& self.total_secs <= MAX_TOTAL_SECS
        &&& self.paused_at matches Some(p) ==> self.base <= p
    }

    /// A running countdown of `minutes` minutes that starts at the reading `now`.
    pub fn new(name: &str, minutes: u64, now: u128) -> (countdown: Countdown)
        ensures
            countdown@ == CountdownModel::start(name@, minutes as nat, now as nat),
            countdown@.wf(),
    {
        Countdown {
            name: name.to_owned(),
            base: now,
            total_secs: (minutes as u128) * SECS_PER_MINUTE,
            paused_at: None,
        }
    }

    /// The label given at construction.
    pub fn name(&self) -> (name: &str)
        ensures
            name@ == self@.name,
    {
        self.name.as_str()
    }

    /// The target duration in seconds.
    pub fn total_secs(&self) -> (secs: u128)
        ensures
            secs == self@.total_secs,
    {
        self.total_secs
    }

    /// Marks the countdown as paused from `now` on. Does nothing if it is
    /// paused already.
    pub fn pause(&mut self, now: u128)
        ensures
            final(self)@ == old(self)@.pause(now as nat),
            final(self)@.wf(),
    {
        proof {
            use_type_invariant(&*self);
        }
        if self.paused_at.is_none() {
            let mark: u128 = if now >= self.base {
                now
            } else {
                self.base
            };
            self.paused_at = Some(mark);
        }
    }

    /// Ends the pause at `now` and moves the time base forward by its
    /// length, so that the paused time does not count. Does nothing if the
    /// countdown is running.
    pub fn resume(&mut self, now: u128)
        ensures
            final(self)@ == old(self)@.resume(now as nat),
            final(self)@.wf(),
    {
        proof {
            use_type_invariant(&*self);
        }
        match self.paused_at {
            Some(mark) => {
                let paused_for: u128 = if now >= mark {
                    now - mark
                } else {
                    0
                };
                self.paused_at = None;
                self.base = self.base + paused_for;
            },
            None => {},
        }
    }

    /// Whether the countdown is paused. A countdown in hand is well formed.
    pub fn is_paused(&self) -> (paused: bool)
        ensures
            paused == self@.is_paused(),
            self@.wf(),
    {
        proof {
            use_type_invariant(self);
        }
        self.paused_at.is_some()
    }

    /// Whole seconds of running time up to `now`.
    pub fn elapsed_secs(&self, now: u128) -> (secs: u128)
        ensures
            secs == self@.elapsed_secs(now as nat),
    {
        let frontier: u128 = match self.paused_at {
            Some(mark) => mark,
            None => now,
        };
        let nanos: u128 = if frontier >= self.base {
            frontier - self.base
        } else {
            0
        };
        nanos / NANOS_PER_SEC
    }

    /// Whole seconds left until the target duration; zero once it is reached.
    pub fn remaining_secs(&self, now: u128) -> (secs: u128)
        ensures
            secs == self@.remaining_secs(now as nat),
    {
        let elapsed: u128 = self.elapsed_secs(now);
        if self.total_secs >= elapsed {
            self.total_secs - elapsed
        } else {
            0
        }
    }

    /// Whole seconds since the current pause began; zero while running.
    pub fn paused_secs(&self, now: u128) -> (secs: u128)
        ensures
            secs == self@.paused_secs(now as nat),
    {
        match self.paused_at {
            Some(mark) => {
                let nanos: u128 = if now >= mark {
                    now - mark
                } else {
                    0
                };
                nanos / NANOS_PER_SEC
            },
            None => 0,
        }
    }

    /// Whether the target duration has passed. A paused countdown is never done.
    pub fn is_done(&self, now: u128) -> (done: bool)
        ensures
            done == self@.is_done(now as nat),
    {
        !self.is_paused() && self.elapsed_secs(now) >= self.total_secs
    }

    /// The completed share of the target duration at `now`.
    pub fn progress(&self, now: u128) -> (progress: Progress)
        ensures
            progress@ == self@.progress(now as nat),
            progress@.wf(),
    {
        proof {
            use_type_invariant(self);
        }
        let elapsed: u128 = self.elapsed_secs(now);
        if self.total_secs == 0 {
            Progress::of(1, 1)
        } else if elapsed >= self.total_secs {
            Progress::of(self.total_secs, self.total_secs)
        } else {
            Progress::of(elapsed, self.total_secs)
        }
    }

    /// The elapsed time as `MM:SS`.
    pub fn elapsed_text(&self, now: u128) -> (text: String)
        ensures
            text@ == self@.elapsed_text(now as nat),
    {
        let mut text = String::new();
        push_clock(&mut text, self.elapsed_secs(now));
        text
    }

    /// The remaining time as `MM:SS`.
    pub fn remaining_text(&self, now: u128) -> (text: String)
        ensures
            text@ == self@.remaining_text(now as nat),
    {
        let mut text = String::new();
        push_clock(&mut text, self.remaining_secs(now));
        text
    }

    /// The one-line summary of the countdown at `now`.
    pub fn status_text(&self, now: u128) -> (text: String)
        ensures
            text@ == self@.status_text(now as nat),
    {
        let mut text = String::from_str("[ TIMER ");
        text.append(self.name.as_str());
        if self.is_paused() {
            text.append(" ][ PAUSED FOR ");
            push_decimal(&mut text, self.paused_secs(now));
            text.append("s ]");
        } else {
            text.append(" ");
            push_percent(&mut text, self.progress(now).hundredths());
            text.append("% ][ ELAPSED ");
            push_clock(&mut text, self.elapsed_secs(now));
            text.append(" ][ ENDS IN ");
            push_clock(&mut text, self.remaining_secs(now));
            text.append(" ]");
        }
        text
    }
}

} // verus!
