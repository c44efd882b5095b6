//! The decisions of the render loop. The loop itself, which draws and
//! waits for input, belongs to the caller: it hands each event to these
//! functions and does what they answer.

use vstd::prelude::*;
use crate::countdown::Countdown;
use crate::frame::{bar_width, is_frame_of, plan_frame, Area, FramePlan};
use crate::model::CountdownModel;
use crate::timer::Timer;

verus! {

/// How long the loop waits for input before it draws again, in milliseconds.
pub const POLL_TIMEOUT_MILLIS: u64 = 250;

/// What the loop reads of a key event.
#[derive(Clone, Copy, Debug, PartialEq, Eq, Structural)]
pub enum KeyPress {
    Char(char),
    Esc,
    Other,
}

/// What a key asks of the loop.
#[derive(Clone, Copy, Debug, PartialEq, Eq, Structural)]
pub enum Command {
    Quit,
    TogglePause,
    Ignore,
}

/// `q` and the escape key quit, the space bar toggles the pause, and every
/// other key is ignored.
pub open spec fn command_of(key: KeyPress) -> Command {
    match key {
        KeyPress::Char(c) => if c == 'q' {
            Command::Quit
        } else if c == ' ' {
            Command::TogglePause
        } else {
            Command::Ignore
        },
        KeyPress::Esc => Command::Quit,
        KeyPress::Other => Command::Ignore,
    }
}

/// The command that a key stands for.
pub fn command_for(key: KeyPress) -> (command: Command)
    ensures
        command == command_of(key),
{
    match key {
        KeyPress::Char(c) => if c == 'q' {
            Command::Quit
        } else if c == ' ' {
            Command::TogglePause
        } else {
            Command::Ignore
        },
        KeyPress::Esc => Command::Quit,
        KeyPress::Other => Command::Ignore,
    }
}

/// Whether the loop goes on.
#[derive(Clone, Copy, Debug, PartialEq, Eq, Structural)]
pub enum LoopState {
    Running,
    Terminated,
}

/// The state that the loop carries from one iteration to the next.
pub struct RenderLoop {
    pub state: LoopState,
    /// The width of the bar in the last frame drawn while the timer ran.
    pub last_bar_width: u16,
}

/// The loop state once the completion check has been made: a finished
/// countdown ends the loop, and an ended loop stays ended.
pub open spec fn state_after_check(state: LoopState, done: bool) -> LoopState {
    if done {
        LoopState::Terminated
    } else {
        state
    }
}

/// The input is a key that asks to quit.
pub open spec fn is_quit(input: Option<KeyPress>) -> bool {
    input matches Some(key) && command_of(key) == Command::Quit
}

/// The input is a key that asks to toggle the pause.
pub open spec fn is_toggle(input: Option<KeyPress>) -> bool {
    input matches Some(key) && command_of(key) == Command::TogglePause
}

/// The countdown once an input event has been applied at `now`: only a
/// toggle key changes it.
pub open spec fn countdown_after_input(
    countdown: CountdownModel,
    input: Option<KeyPress>,
    now: nat,
) -> CountdownModel {
    if is_toggle(input) {
        countdown.toggle(now)
    } else {
        countdown
    }
}

/// The loop state once an input event has been applied: only a quit key
/// changes it.
pub open spec fn state_after_input(state: LoopState, input: Option<KeyPress>) -> LoopState {
    if is_quit(input) {
        LoopState::Terminated
    } else {
        state
    }
}

impl RenderLoop {
    /// A loop that runs and has drawn no bar yet.
    pub fn new() -> (ui: RenderLoop)
        ensures
            ui.state == LoopState::Running,
            ui.last_bar_width == 0,
    {
        RenderLoop { state: LoopState::Running, last_bar_width: 0 }
    }

    /// Whether the loop has ended.
    pub fn is_terminated(&self) -> (ended: bool)
        ensures
            ended == (self.state == LoopState::Terminated),
    {
        match self.state {
            LoopState::Terminated => true,
            LoopState::Running => false,
        }
    }

    /// The first step of an iteration, at the reading `now`: the loop ends
    /// if the countdown is done.
    pub fn check_done_at(&mut self, countdown: &Countdown, now: u128)
        ensures
            final(self).state == state_after_check(old(self).state, countdown@.is_done(now as nat)),
            final(self).last_bar_width == old(self).last_bar_width,
    {
        if countdown.is_done(now) {
            self.state = LoopState::Terminated;
        }
    }

    /// The frame to draw in `viewport` at the reading `now`. While the
    /// countdown runs the bar covers the completed share of the inner
    /// width, and the loop remembers that width; while it is paused the bar
    /// keeps the width remembered, whatever the viewport is now.
    pub fn frame_at(
        &mut self,
        countdown: &Countdown,
        now: u128,
        viewport: Area,
    ) -> (plan: FramePlan)
        ensures
            is_frame_of(plan, countdown@, now as nat, viewport, old(self).last_bar_width),
            final(self).last_bar_width == bar_width(
                countdown@,
                now as nat,
                viewport.below_title().width,
                old(self).last_bar_width,
            ),
            final(self).state == old(self).state,
    {
        plan_frame(countdown, now, viewport, &mut self.last_bar_width)
    }

    /// Applies what the poll for input returned at the reading `now`: a
    /// quit key ends the loop, a toggle key pauses a running countdown and
    /// resumes a paused one, and anything else changes nothing.
    pub fn handle_input_at(
        &mut self,
        countdown: &mut Countdown,
        input: Option<KeyPress>,
        now: u128,
    )
        ensures
            final(countdown)@ == countdown_after_input(old(countdown)@, input, now as nat),
            final(self).state == state_after_input(old(self).state, input),
            final(self).last_bar_width == old(self).last_bar_width,
    {
        match input {
            Some(key) => match command_for(key) {
                Command::Quit => {
                    self.state = LoopState::Terminated;
                },
                Command::TogglePause => {
                    if countdown.is_paused() {
                        countdown.resume(now);
                    } else {
                        countdown.pause(now);
                    }
                },
                Command::Ignore => {},
            },
            None => {},
        }
    }

    /// The completion check against the timer's own clock.
    pub fn check_done(&mut self, timer: &Timer)
        ensures
            exists|now: nat|
                final(self).state == state_after_check(
                    old(self).state,
                    #[trigger] timer@.is_done(now),
                ),
            final(self).last_bar_width == old(self).last_bar_width,
            timer@.is_paused() ==> final(self).state == old(self).state,
            !timer@.is_paused() && timer@.total_secs == 0 ==> final(self).state
                == LoopState::Terminated,
    {
        let now: u128 = timer.clock.now();
        self.check_done_at(&timer.countdown, now);
        proof {
            timer.view_is_countdown();
        }
        assert(self.state == state_after_check(old(self).state, timer@.is_done(now as nat)));
    }

    /// The frame to draw in `viewport` at the present reading of the
    /// timer's clock.
    pub fn frame(&mut self, timer: &Timer, viewport: Area) -> (plan: FramePlan)
        ensures
            exists|now: nat|
                #[trigger] is_frame_of(plan, timer@, now, viewport, old(self).last_bar_width)
                    && final(self).last_bar_width == bar_width(
                    timer@,
                    now,
                    viewport.below_title().width,
                    old(self).last_bar_width,
                ),
            timer@.is_paused() ==> final(self).last_bar_width == old(self).last_bar_width,
            final(self).state == old(self).state,
    {
        let now: u128 = timer.clock.now();
        let plan = self.frame_at(&timer.countdown, now, viewport);
        proof {
            timer.view_is_countdown();
        }
        assert(is_frame_of(plan, timer@, now as nat, viewport, old(self).last_bar_width));
        plan
    }

    /// Applies an input event at the present reading of the timer's clock.
    pub fn handle_input(&mut self, timer: &mut Timer, input: Option<KeyPress>)
        ensures
            exists|now: nat|
                final(timer)@ == #[trigger] countdown_after_input(old(timer)@, input, now),
            final(self).state == state_after_input(old(self).state, input),
            final(self).last_bar_width == old(self).last_bar_width,
    {
        let now: u128 = timer.clock.now();
        self.handle_input_at(&mut timer.countdown, input, now);
        proof {
            old(timer).view_is_countdown();
            timer.view_is_countdown();
        }
        assert(timer@ == countdown_after_input(old(timer)@, input, now as nat));
    }
}

} // verus!
