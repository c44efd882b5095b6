//! What holds of every countdown, proved from the model.

use vstd::prelude::*;
use crate::frame::bar_width;
use crate::model::{CountdownModel, ProgressModel, NANOS_PER_SEC};
use crate::session::{
    countdown_after_input, is_quit, is_toggle, state_after_check, state_after_input, KeyPress,
    LoopState,
};
use crate::startup::{all_decimal_digits, decimal_value, digit_value, is_decimal_digit};
use crate::text::{decimal_text, digit_char};

verus! {

/// A countdown of at least one minute has not begun at the reading it
/// starts at: it is not done, and its progress is zero.
pub proof fn lemma_fresh_countdown_at_zero(name: Seq<char>, minutes: nat, now: nat)
    requires
        minutes > 0,
    ensures
        !CountdownModel::start(name, minutes, now).is_done(now),
        CountdownModel::start(name, minutes, now).progress(now).is_zero(),
        CountdownModel::start(name, minutes, now).wf(),
{
}

/// A running countdown is done exactly from the reading at which its
/// elapsed seconds reach the target, and a paused one is never done.
pub proof fn lemma_done_iff_running_and_elapsed(countdown: CountdownModel, now: nat)
    ensures
        !countdown.is_paused() && countdown.elapsed_secs(now) >= countdown.total_secs
            ==> countdown.is_done(now),
        !countdown.is_paused() && countdown.elapsed_secs(now) < countdown.total_secs
            ==> !countdown.is_done(now),
        countdown.is_paused() ==> !countdown.is_done(now),
{
}

/// A countdown that is done stays done at every later reading, as long as
/// it is not paused.
pub proof fn lemma_done_is_stable(countdown: CountdownModel, earlier: nat, later: nat)
    requires
        earlier <= later,
        countdown.is_done(earlier),
    ensures
        countdown.is_done(later),
{
    lemma_elapsed_is_monotonic(countdown, earlier, later);
}

/// Pausing and resuming keep a countdown well formed.
pub proof fn lemma_pause_resume_keep_wf(countdown: CountdownModel, now: nat)
    requires
        countdown.wf(),
    ensures
        countdown.pause(now).wf(),
        countdown.resume(now).wf(),
        countdown.toggle(now).wf(),
        countdown.pause(now).is_paused(),
        !countdown.resume(now).is_paused(),
{
}

/// A pause does not count: after pausing at one reading and resuming at a
/// later one, elapsed time and progress are what they were at the pause,
/// however long the pause was.
pub proof fn lemma_pause_resume_round_trip(countdown: CountdownModel, paused: nat, resumed: nat)
    requires
        countdown.wf(),
        !countdown.is_paused(),
        paused <= resumed,
    ensures
        countdown.pause(paused).resume(resumed).elapsed_nanos(resumed) == countdown.elapsed_nanos(
            paused,
        ),
        countdown.pause(paused).resume(resumed).progress(resumed) == countdown.progress(paused),
        countdown.pause(paused).resume(resumed).total_secs == countdown.total_secs,
        !countdown.pause(paused).resume(resumed).is_paused(),
{
}

/// After a pause the countdown goes on as if the pause had not been: some
/// time after resuming it has run for as long as it would have run the same
/// time after the pause began.
pub proof fn lemma_pause_shifts_time(
    countdown: CountdownModel,
    paused: nat,
    resumed: nat,
    later: nat,
)
    requires
        countdown.wf(),
        !countdown.is_paused(),
        countdown.base <= paused <= resumed,
    ensures
        countdown.pause(paused).resume(resumed).elapsed_nanos(resumed + later)
            == countdown.elapsed_nanos(paused + later),
        countdown.pause(paused).resume(resumed).progress(resumed + later) == countdown.progress(
            paused + later,
        ),
        countdown.pause(paused).resume(resumed).is_done(resumed + later) == countdown.is_done(
            paused + later,
        ),
{
}

/// While a countdown is paused nothing moves: elapsed time, remaining time
/// and progress are the same at every reading, and are what they were when
/// the pause began.
pub proof fn lemma_paused_is_frozen(countdown: CountdownModel, paused: nat, one: nat, other: nat)
    requires
        countdown.wf(),
        !countdown.is_paused(),
    ensures
        countdown.pause(paused).elapsed_nanos(one) == countdown.elapsed_nanos(paused),
        countdown.pause(paused).progress(one) == countdown.progress(paused),
        countdown.pause(paused).progress(one) == countdown.pause(paused).progress(other),
        countdown.pause(paused).remaining_secs(one) == countdown.pause(paused).remaining_secs(
            other,
        ),
        !countdown.pause(paused).is_done(one),
{
}

/// Pausing twice is pausing once, and resuming twice is resuming once.
pub proof fn lemma_pause_resume_idempotent(countdown: CountdownModel, first: nat, second: nat)
    ensures
        countdown.pause(first).pause(second) == countdown.pause(first),
        countdown.resume(first).resume(second) == countdown.resume(first),
{
}

/// The elapsed time never goes back as the readings go on.
pub proof fn lemma_elapsed_is_monotonic(countdown: CountdownModel, earlier: nat, later: nat)
    requires
        earlier <= later,
    ensures
        countdown.elapsed_nanos(earlier) <= countdown.elapsed_nanos(later),
        countdown.elapsed_secs(earlier) <= countdown.elapsed_secs(later),
        countdown.remaining_secs(earlier) >= countdown.remaining_secs(later),
{
    let a = countdown.elapsed_nanos(earlier);
    let b = countdown.elapsed_nanos(later);
    assert(a / (NANOS_PER_SEC as nat) <= b / (NANOS_PER_SEC as nat));
}

/// Progress is a fraction between zero and one, and it never goes back as
/// the readings go on.
pub proof fn lemma_progress_is_monotonic(countdown: CountdownModel, earlier: nat, later: nat)
    requires
        earlier <= later,
    ensures
        countdown.progress(earlier).wf(),
        countdown.progress(later).wf(),
        countdown.progress(earlier).total == countdown.progress(later).total,
        countdown.progress(earlier).done <= countdown.progress(later).done,
        countdown.progress(earlier).at_most(countdown.progress(later)),
{
    lemma_elapsed_is_monotonic(countdown, earlier, later);
    let a = countdown.progress(earlier);
    let b = countdown.progress(later);
    assert(a.done * b.total <= b.done * a.total) by (nonlinear_arith)
        requires
            a.done <= b.done,
            a.total == b.total,
    ;
}

/// The hundredths of a percent are the whole number nearest to the exact
/// value, the even one of the two where the exact value lies half way
/// between them, and are never more than 10000.
pub proof fn lemma_hundredths_are_nearest(progress: ProgressModel)
    requires
        progress.wf(),
    ensures
        progress.hundredths() <= 10_000,
        2 * (progress.hundredths() * progress.total - progress.done * 10_000) <= progress.total,
        2 * (progress.done * 10_000 - progress.hundredths() * progress.total) <= progress.total,
        2 * (progress.hundredths() * progress.total - progress.done * 10_000) == progress.total
            || 2 * (progress.done * 10_000 - progress.hundredths() * progress.total)
            == progress.total ==> progress.hundredths() % 2 == 0,
{
    let exact = (progress.done * 10_000) as int;
    let total = progress.total as int;
    let floor = exact / total;
    let rest = exact % total;
    assert(exact == floor * total + rest && 0 <= rest < total && (floor + 1) * total == floor
        * total + total && (floor == 10_000 ==> rest == 0) && floor <= 10_000)
        by (nonlinear_arith)
        requires
            floor == exact / total,
            rest == exact % total,
            0 <= exact <= 10_000 * total,
            0 < total,
    ;
}

/// The width of a bar is the largest whole number of cells that does not
/// exceed the exact share of the width.
pub proof fn lemma_scaled_is_floor(progress: ProgressModel, width: nat)
    requires
        progress.wf(),
    ensures
        progress.scaled(width) * progress.total <= width * progress.done,
        width * progress.done < (progress.scaled(width) + 1) * progress.total,
        progress.scaled(width) <= width,
        progress.is_complete() ==> progress.scaled(width) == width,
        progress.is_zero() ==> progress.scaled(width) == 0,
{
    let share = (width * progress.done) as int;
    let total = progress.total as int;
    let done = progress.done as int;
    let w = width as int;
    assert((share / total) * total <= share < (share / total + 1) * total && share / total <= w
        && (done == total ==> share / total == w) && (done == 0 ==> share / total == 0))
        by (nonlinear_arith)
        requires
            share == w * done,
            0 <= done <= total,
            0 < total,
            0 <= w,
    ;
}

/// The decimal text of a number consists of digits, denotes that number,
/// and begins with a zero only for zero itself.
pub proof fn lemma_decimal_text_denotes(n: nat)
    ensures
        decimal_text(n).len() >= 1,
        all_decimal_digits(decimal_text(n)),
        decimal_value(decimal_text(n)) == n,
        decimal_text(n)[0] == '0' <==> n == 0,
    decreases n,
{
    let text = decimal_text(n);
    if n < 10 {
        lemma_digit_char_denotes(n);
        assert(text.drop_last() =~= Seq::<char>::empty());
        assert(decimal_value(text.drop_last()) == 0);
    } else {
        lemma_decimal_text_denotes(n / 10);
        lemma_digit_char_denotes(n % 10);
        assert(text.drop_last() =~= decimal_text(n / 10));
        assert(text.last() == digit_char(n % 10));
        assert(text[0] == decimal_text(n / 10)[0]);
    }
}

/// The character of a digit is a decimal digit with that value.
pub proof fn lemma_digit_char_denotes(d: nat)
    requires
        d < 10,
    ensures
        is_decimal_digit(digit_char(d)),
        digit_value(digit_char(d)) == d,
        digit_char(d) == '0' <==> d == 0,
{
}

/// A countdown that is done has full progress and no time left.
pub proof fn lemma_done_is_complete(countdown: CountdownModel, now: nat)
    requires
        countdown.is_done(now),
    ensures
        countdown.progress(now).is_complete(),
        countdown.progress(now).hundredths() == 10_000,
        countdown.remaining_secs(now) == 0,
{
    let p = countdown.progress(now);
    assert(p.done * 10_000 / p.total == 10_000 && p.done * 10_000 % p.total == 0)
        by (nonlinear_arith)
        requires
            p.done == p.total,
            p.total > 0,
    ;
}

/// A countdown of zero minutes has full progress at every reading and is
/// done whenever it is not paused.
pub proof fn lemma_zero_duration(countdown: CountdownModel, now: nat)
    requires
        countdown.total_secs == 0,
    ensures
        countdown.progress(now).is_complete(),
        countdown.progress(now).wf(),
        !countdown.is_paused() ==> countdown.is_done(now),
        countdown.remaining_secs(now) == 0,
{
}

/// Elapsed and remaining seconds add up to the target until it is reached.
pub proof fn lemma_elapsed_plus_remaining(countdown: CountdownModel, now: nat)
    ensures
        countdown.elapsed_secs(now) <= countdown.total_secs ==> countdown.elapsed_secs(now)
            + countdown.remaining_secs(now) == countdown.total_secs,
        countdown.elapsed_secs(now) >= countdown.total_secs ==> countdown.remaining_secs(now) == 0,
{
}

/// While the countdown is paused the bar keeps the width of the last
/// running frame, at every reading and whatever width the viewport offers.
pub proof fn lemma_paused_bar_keeps_width(
    countdown: CountdownModel,
    now: nat,
    inner_width: u16,
    last_width: u16,
)
    requires
        countdown.is_paused(),
    ensures
        bar_width(countdown, now, inner_width, last_width) == last_width,
{
}

/// While the countdown runs the bar is never wider than the width on
/// offer, it fills that width once the countdown is done, and it never
/// shrinks as the readings go on.
pub proof fn lemma_running_bar_fits(
    countdown: CountdownModel,
    earlier: nat,
    later: nat,
    inner_width: u16,
    last_width: u16,
)
    requires
        !countdown.is_paused(),
        earlier <= later,
    ensures
        bar_width(countdown, earlier, inner_width, last_width) <= bar_width(
            countdown,
            later,
            inner_width,
            last_width,
        ) <= inner_width,
        countdown.is_done(later) ==> bar_width(countdown, later, inner_width, last_width)
            == inner_width,
{
    lemma_progress_is_monotonic(countdown, earlier, later);
    let a = countdown.progress(earlier);
    let b = countdown.progress(later);
    let w = inner_width as nat;
    assert((w * a.done) / a.total <= (w * b.done) / b.total <= w) by (nonlinear_arith)
        requires
            a.done <= b.done <= b.total,
            a.total == b.total,
            b.total > 0,
    ;
    if countdown.is_done(later) {
        assert((w * b.done) / b.total == w) by (nonlinear_arith)
            requires
                b.done == b.total,
                b.total > 0,
        ;
    }
}

/// The render loop ends when the countdown is done or a quit key arrives,
/// and by nothing else; once ended it stays ended.
pub proof fn lemma_loop_ends_by_completion_or_quit(done: bool, input: Option<KeyPress>)
    ensures
        state_after_check(LoopState::Running, done) == LoopState::Terminated <==> done,
        state_after_input(LoopState::Running, input) == LoopState::Terminated <==> is_quit(input),
        state_after_check(LoopState::Terminated, done) == LoopState::Terminated,
        state_after_input(LoopState::Terminated, input) == LoopState::Terminated,
{
}

/// Input touches the countdown only through a toggle key, and then it
/// switches between running and paused and stays well formed.
pub proof fn lemma_input_toggles_or_keeps(
    countdown: CountdownModel,
    input: Option<KeyPress>,
    now: nat,
)
    requires
        countdown.wf(),
    ensures
        countdown_after_input(countdown, input, now).wf(),
        countdown_after_input(countdown, input, now).total_secs == countdown.total_secs,
        countdown_after_input(countdown, input, now).name == countdown.name,
        is_toggle(input) ==> countdown_after_input(countdown, input, now).is_paused()
            != countdown.is_paused(),
        !is_toggle(input) ==> countdown_after_input(countdown, input, now) == countdown,
{
}

} // verus!
