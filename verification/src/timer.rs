//! The timer on the system's monotonic clock: each operation takes one
//! reading and hands it to the countdown.

use vstd::prelude::*;
use crate::clock::MonotonicClock;
use crate::countdown::Countdown;
use crate::model::CountdownModel;
use crate::progress::Progress;

verus! {

/// A countdown together with the clock that it is read against. The clock
/// starts with the timer, so the countdown's time base is the reading zero.
pub struct Timer {
    pub(crate) countdown: Countdown,
    pub(crate) clock: MonotonicClock,
}

impl View for Timer {
    type V = CountdownModel;

    closed spec fn view(&self) -> CountdownModel {
        self.countdown@
    }
}

impl Timer {
    /// The timer's state is the state of its countdown.
    pub(crate) proof fn view_is_countdown(&self)
        ensures
            self@ == self.countdown@,
    {
    }

    /// A running timer of `time` minutes that starts now.
    pub fn new(name: &str, time: u64) -> (timer: Timer)
        ensures
            timer@ == CountdownModel::start(name@, time as nat, 0),
            timer@.wf(),
    {
        let clock = MonotonicClock::start();
        Timer { countdown: Countdown::new(name, time, 0), clock }
    }

    /// Pauses the timer at the present reading. A paused timer stays as it is.
    pub fn pause_timer(&mut self)
        ensures
            exists|now: nat| final(self)@ == #[trigger] old(self)@.pause(now),
            old(self)@.is_paused() ==> final(self)@ == old(self)@,
            final(self)@.is_paused(),
            final(self)@.wf(),
    {
        let now: u128 = self.clock.now();
        self.countdown.pause(now);
        assert(self@ == old(self)@.pause(now as nat));
    }

    /// Resumes the timer at the present reading, leaving out the time spent
    /// paused. A running timer stays as it is.
    pub fn unpause_timer(&mut self)
        ensures
            exists|now: nat| final(self)@ == #[trigger] old(self)@.resume(now),
            !old(self)@.is_paused() ==> final(self)@ == old(self)@,
            !final(self)@.is_paused(),
            final(self)@.wf(),
    {
        let now: u128 = self.clock.now();
        self.countdown.resume(now);
        assert(self@ == old(self)@.resume(now as nat));
    }

    /// The one-line summary of the timer at the present reading.
    pub fn to_string(&self) -> (text: String)
        ensures
            exists|now: nat| text@ == #[trigger] self@.status_text(now),
    {
        let now: u128 = self.clock.now();
        let text = self.countdown.status_text(now);
        assert(text@ == self@.status_text(now as nat));
        text
    }

    /// Whether the target duration has passed at the present reading. A
    /// paused timer is never done, and a running timer of zero minutes
    /// always is.
    pub fn is_done(&self) -> (done: bool)
        ensures
            exists|now: nat| done == #[trigger] self@.is_done(now),
            self@.is_paused() ==> !done,
            !self@.is_paused() && self@.total_secs == 0 ==> done,
    {
        let now: u128 = self.clock.now();
        let done = self.countdown.is_done(now);
        assert(done == self@.is_done(now as nat));
        done
    }

    /// Whether the timer is paused. A timer in hand is well formed.
    pub fn is_paused(&self) -> (paused: bool)
        ensures
            paused == self@.is_paused(),
            self@.wf(),
    {
        self.countdown.is_paused()
    }

    /// The completed share of the target duration at the present reading.
    pub fn get_percent(&self) -> (progress: Progress)
        ensures
            exists|now: nat| progress@ == #[trigger] self@.progress(now),
            progress@.wf(),
            self@.total_secs == 0 ==> progress@.is_complete(),
    {
        let now: u128 = self.clock.now();
        let progress = self.countdown.progress(now);
        assert(progress@ == self@.progress(now as nat));
        progress
    }

    /// The elapsed time at the present reading, as `MM:SS`.
    pub fn get_passed_time(&self) -> (text: String)
        ensures
            exists|now: nat| text@ == #[trigger] self@.elapsed_text(now),
    {
        let now: u128 = self.clock.now();
        let text = self.countdown.elapsed_text(now);
        assert(text@ == self@.elapsed_text(now as nat));
        text
    }

    /// The remaining time at the present reading, as `MM:SS`.
    pub fn get_remaining_time(&self) -> (text: String)
        ensures
            exists|now: nat| text@ == #[trigger] self@.remaining_text(now),
    {
        let now: u128 = self.clock.now();
        let text = self.countdown.remaining_text(now);
        assert(text@ == self@.remaining_text(now as nat));
        text
    }
}

} // verus!
