use tui_timer::countdown::Countdown;

const SEC: u128 = 1_000_000_000;

#[test]
fn fresh_countdown_shows_zero_elapsed_and_full_remaining() {
    let tea = Countdown::new("Tea", 1, 0);
    assert_eq!(tea.elapsed_text(0), "00:00");
    assert_eq!(tea.remaining_text(0), "01:00");
    assert!(!tea.is_done(0));
    assert!(!tea.is_paused());
    assert_eq!(tea.name(), "Tea");
    assert_eq!(tea.total_secs(), 60);
}

#[test]
fn fresh_countdown_has_zero_progress() {
    for minutes in [1u64, 2, 12, 720, u64::MAX] {
        for start in [0u128, 17, 5 * SEC] {
            let c = Countdown::new("x", minutes, start);
            assert!(!c.is_done(start));
            let p = c.progress(start);
            assert_eq!(p.done_parts(), 0);
            assert_eq!(p.total_parts(), minutes as u128 * 60);
            assert_eq!(p.hundredths(), 0);
            assert!(!p.is_complete());
        }
    }
}

#[test]
fn half_way_through_a_minute() {
    let tea = Countdown::new("Tea", 1, 0);
    let p = tea.progress(30 * SEC);
    assert_eq!(p.done_parts(), 30);
    assert_eq!(p.total_parts(), 60);
    assert_eq!(p.hundredths(), 5000);
    let fraction = p.done_parts() as f64 / p.total_parts() as f64;
    assert!((fraction - 0.5).abs() < 1e-12);
    assert_eq!(tea.elapsed_text(30 * SEC), "00:30");
    assert_eq!(tea.remaining_text(30 * SEC), "00:30");
}

#[test]
fn pause_of_twenty_seconds_does_not_count() {
    let mut tea = Countdown::new("Tea", 1, 0);
    let before = tea.progress(30 * SEC);
    tea.pause(30 * SEC);
    assert!(tea.is_paused());
    tea.resume(50 * SEC);
    assert!(!tea.is_paused());
    let after = tea.progress(50 * SEC);
    assert_eq!(after.done_parts(), before.done_parts());
    assert_eq!(after.total_parts(), before.total_parts());
    assert_eq!(tea.elapsed_text(50 * SEC), "00:30");
    assert_eq!(tea.remaining_text(50 * SEC), "00:30");
    assert_eq!(tea.elapsed_secs(60 * SEC), 40);
    assert!(!tea.is_done(79 * SEC));
    assert!(tea.is_done(80 * SEC));
}

#[test]
fn pause_length_does_not_matter() {
    for pause_len in [0u128, 1, 999_999_999, SEC, 3600 * SEC, u128::MAX / 4] {
        let mut c = Countdown::new("x", 5, 7);
        let at = 7 + 42 * SEC + 123;
        let before = c.elapsed_secs(at);
        c.pause(at);
        c.resume(at + pause_len);
        assert_eq!(c.elapsed_secs(at + pause_len), before);
        assert_eq!(c.elapsed_secs(at + pause_len + 10 * SEC), before + 10);
    }
}

#[test]
fn fractions_of_a_second_survive_a_pause() {
    let mut c = Countdown::new("x", 1, 0);
    c.pause(1_500_000_000);
    c.resume(10 * SEC);
    assert_eq!(c.elapsed_secs(10 * SEC), 1);
    assert_eq!(c.elapsed_secs(10 * SEC + 499_999_999), 1);
    assert_eq!(c.elapsed_secs(10 * SEC + 500_000_000), 2);
}

#[test]
fn paused_countdown_is_frozen() {
    let mut c = Countdown::new("x", 1, 0);
    c.pause(45 * SEC);
    for now in [45 * SEC, 46 * SEC, 60 * SEC, 600 * SEC, u128::MAX] {
        assert_eq!(c.elapsed_secs(now), 45);
        assert_eq!(c.remaining_secs(now), 15);
        assert_eq!(c.progress(now).done_parts(), 45);
        assert_eq!(c.elapsed_text(now), "00:45");
        assert_eq!(c.remaining_text(now), "00:15");
    }
}

#[test]
fn paused_countdown_is_never_done() {
    let mut c = Countdown::new("x", 1, 0);
    c.pause(59 * SEC);
    assert!(!c.is_done(59 * SEC));
    assert!(!c.is_done(60 * SEC));
    assert!(!c.is_done(10_000 * SEC));
    let mut late = Countdown::new("x", 1, 0);
    late.pause(120 * SEC);
    assert!(!late.is_done(120 * SEC));
    assert_eq!(late.progress(120 * SEC).done_parts(), 60);
    late.resume(130 * SEC);
    assert!(late.is_done(130 * SEC));
}

#[test]
fn done_exactly_from_the_target_second() {
    let c = Countdown::new("x", 2, 100);
    assert!(!c.is_done(100));
    assert!(!c.is_done(100 + 120 * SEC - 1));
    assert!(c.is_done(100 + 120 * SEC));
    assert!(c.is_done(100 + 121 * SEC));
    assert!(c.is_done(u128::MAX));
}

#[test]
fn pausing_twice_is_pausing_once() {
    let mut once = Countdown::new("x", 1, 0);
    once.pause(10 * SEC);
    let mut twice = Countdown::new("x", 1, 0);
    twice.pause(10 * SEC);
    twice.pause(20 * SEC);
    assert!(twice.is_paused());
    for now in [10 * SEC, 25 * SEC, 90 * SEC] {
        assert_eq!(twice.elapsed_secs(now), once.elapsed_secs(now));
        assert_eq!(twice.paused_secs(now), once.paused_secs(now));
        assert_eq!(twice.status_text(now), once.status_text(now));
    }
    once.resume(30 * SEC);
    twice.resume(30 * SEC);
    assert_eq!(twice.elapsed_secs(40 * SEC), once.elapsed_secs(40 * SEC));
}

#[test]
fn resuming_twice_is_resuming_once() {
    let mut once = Countdown::new("x", 1, 0);
    once.pause(10 * SEC);
    once.resume(15 * SEC);
    let mut twice = Countdown::new("x", 1, 0);
    twice.pause(10 * SEC);
    twice.resume(15 * SEC);
    twice.resume(40 * SEC);
    assert!(!twice.is_paused());
    for now in [15 * SEC, 41 * SEC, 65 * SEC] {
        assert_eq!(twice.elapsed_secs(now), once.elapsed_secs(now));
        assert_eq!(twice.is_done(now), once.is_done(now));
    }
}

#[test]
fn resuming_a_running_countdown_changes_nothing() {
    let mut c = Countdown::new("x", 1, 0);
    c.resume(30 * SEC);
    assert!(!c.is_paused());
    assert_eq!(c.elapsed_secs(30 * SEC), 30);
}

#[test]
fn progress_never_goes_back_and_never_exceeds_one() {
    let c = Countdown::new("x", 1, 0);
    let mut last = 0u128;
    let mut now = 0u128;
    while now <= 90 * SEC {
        let p = c.progress(now);
        assert!(p.done_parts() >= last);
        assert!(p.done_parts() <= p.total_parts());
        assert!(p.hundredths() <= 10_000);
        last = p.done_parts();
        now += 250_000_000;
    }
    assert_eq!(last, 60);
    assert!(c.progress(u128::MAX).is_complete());
    assert_eq!(c.progress(u128::MAX).hundredths(), 10_000);
}

#[test]
fn zero_minutes_is_complete_at_once() {
    let c = Countdown::new("x", 0, 0);
    let p = c.progress(0);
    assert!(p.is_complete());
    assert_eq!(p.done_parts(), 1);
    assert_eq!(p.total_parts(), 1);
    assert_eq!(p.hundredths(), 10_000);
    assert_eq!(p.done_parts() as f64 / p.total_parts() as f64, 1.0);
    assert!(c.is_done(0));
    assert_eq!(c.remaining_text(0), "00:00");
    assert_eq!(c.remaining_secs(5 * SEC), 0);
    assert_eq!(c.status_text(0), "[ TIMER x 100.00% ][ ELAPSED 00:00 ][ ENDS IN 00:00 ]");
}

#[test]
fn zero_minutes_paused_is_not_done() {
    let mut c = Countdown::new("x", 0, 0);
    c.pause(0);
    assert!(!c.is_done(0));
    assert!(c.progress(0).is_complete());
}

#[test]
fn remaining_time_stops_at_zero() {
    let c = Countdown::new("x", 1, 0);
    assert_eq!(c.remaining_secs(59 * SEC), 1);
    assert_eq!(c.remaining_secs(60 * SEC), 0);
    assert_eq!(c.remaining_secs(61 * SEC), 0);
    assert_eq!(c.remaining_text(1000 * SEC), "00:00");
    assert_eq!(c.elapsed_text(1000 * SEC), "16:40");
}

#[test]
fn readings_before_the_start_count_as_the_start() {
    let mut c = Countdown::new("x", 1, 100 * SEC);
    assert_eq!(c.elapsed_secs(0), 0);
    assert_eq!(c.elapsed_secs(99 * SEC), 0);
    assert_eq!(c.remaining_text(50 * SEC), "01:00");
    c.pause(50 * SEC);
    assert_eq!(c.elapsed_secs(500 * SEC), 0);
    assert_eq!(c.paused_secs(103 * SEC), 3);
    c.resume(90 * SEC);
    assert_eq!(c.elapsed_secs(100 * SEC), 0);
    assert_eq!(c.elapsed_secs(101 * SEC), 1);
}

#[test]
fn resuming_before_the_pause_began_adds_no_pause() {
    let mut c = Countdown::new("x", 1, 0);
    c.pause(10 * SEC);
    c.resume(5 * SEC);
    assert_eq!(c.elapsed_secs(10 * SEC), 10);
}

#[test]
fn largest_duration_and_latest_reading() {
    let mut c = Countdown::new("x", u64::MAX, 0);
    let total = u64::MAX as u128 * 60;
    assert_eq!(c.total_secs(), total);
    assert!(!c.is_done((total - 1) * SEC + 999_999_999));
    assert!(c.is_done(total * SEC));
    assert_eq!(c.elapsed_secs(u128::MAX), u128::MAX / SEC);
    c.pause(u128::MAX - 5);
    c.resume(u128::MAX);
    assert_eq!(c.elapsed_secs(u128::MAX), (u128::MAX - 5) / SEC);
    let half = c.progress(total / 2 * SEC + 5);
    assert_eq!(half.done_parts(), total / 2);
    assert_eq!(half.scale(u16::MAX), 32_767);
    assert_eq!(half.hundredths(), 5000);
    assert_eq!(c.progress(u128::MAX).scale(u16::MAX), u16::MAX);
}

#[test]
fn status_text_while_running() {
    let c = Countdown::new("Tea", 1, 0);
    assert_eq!(c.status_text(0), "[ TIMER Tea 0.00% ][ ELAPSED 00:00 ][ ENDS IN 01:00 ]");
    assert_eq!(c.status_text(30 * SEC), "[ TIMER Tea 50.00% ][ ELAPSED 00:30 ][ ENDS IN 00:30 ]");
    assert_eq!(c.status_text(59 * SEC), "[ TIMER Tea 98.33% ][ ELAPSED 00:59 ][ ENDS IN 00:01 ]");
    assert_eq!(c.status_text(60 * SEC), "[ TIMER Tea 100.00% ][ ELAPSED 01:00 ][ ENDS IN 00:00 ]");
    assert_eq!(c.status_text(75 * SEC), "[ TIMER Tea 100.00% ][ ELAPSED 01:15 ][ ENDS IN 00:00 ]");
}

#[test]
fn status_text_while_paused() {
    let mut c = Countdown::new("Tea", 1, 0);
    c.pause(30 * SEC);
    assert_eq!(c.status_text(30 * SEC), "[ TIMER Tea ][ PAUSED FOR 0s ]");
    assert_eq!(c.status_text(50 * SEC), "[ TIMER Tea ][ PAUSED FOR 20s ]");
    assert_eq!(c.status_text(30 * SEC + 755 * SEC), "[ TIMER Tea ][ PAUSED FOR 755s ]");
    c.resume(50 * SEC);
    assert_eq!(c.status_text(50 * SEC), "[ TIMER Tea 50.00% ][ ELAPSED 00:30 ][ ENDS IN 00:30 ]");
    assert_eq!(c.paused_secs(90 * SEC), 0);
}

#[test]
fn status_text_keeps_the_name_as_given() {
    let c = Countdown::new("thé à la menthe ☕", 12, 0);
    assert_eq!(
        c.status_text(6 * 60 * SEC),
        "[ TIMER thé à la menthe ☕ 50.00% ][ ELAPSED 06:00 ][ ENDS IN 06:00 ]"
    );
    let empty = Countdown::new("", 1, 0);
    assert_eq!(empty.status_text(0), "[ TIMER  0.00% ][ ELAPSED 00:00 ][ ENDS IN 01:00 ]");
}

#[test]
fn long_durations_use_more_than_two_minute_digits() {
    let c = Countdown::new("x", 720, 0);
    assert_eq!(c.remaining_text(0), "720:00");
    assert_eq!(c.elapsed_text(100 * 60 * SEC + 5 * SEC), "100:05");
    assert_eq!(c.remaining_text(100 * 60 * SEC + 5 * SEC), "619:55");
    assert_eq!(c.elapsed_text(99 * 60 * SEC + 59 * SEC), "99:59");
}

#[test]
fn tea_timer_from_start_through_a_pause() {
    let mut tea = Countdown::new("Tea", 1, 0);
    assert_eq!(tea.total_secs(), 60);
    assert_eq!(tea.elapsed_text(0), "00:00");
    assert_eq!(tea.remaining_text(0), "01:00");

    let mut now = 30 * SEC;
    let before = tea.progress(now);
    assert!((before.done_parts() as f64 / before.total_parts() as f64 - 0.5).abs() < 1e-9);
    assert_eq!(tea.remaining_text(now), "00:30");

    tea.pause(now);
    now += 20 * SEC;
    tea.resume(now);
    now += 0;
    let after = tea.progress(now);
    assert_eq!(
        after.done_parts() as f64 / after.total_parts() as f64,
        before.done_parts() as f64 / before.total_parts() as f64
    );
    assert_eq!(after.hundredths(), before.hundredths());
    assert_eq!(tea.remaining_text(now), "00:30");
}
