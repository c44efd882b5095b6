use std::time::{Duration, Instant};
use tui_timer::timer::Timer;

fn wait(millis: u64) {
    let begin = Instant::now();
    while begin.elapsed() < Duration::from_millis(millis) {
        std::hint::spin_loop();
    }
}

#[test]
fn new_timer_starts_at_zero() {
    let timer = Timer::new("Tea", 1);
    assert!(!timer.is_done());
    assert!(!timer.is_paused());
    assert_eq!(timer.get_passed_time(), "00:00");
    assert_eq!(timer.get_remaining_time(), "01:00");
    let p = timer.get_percent();
    assert_eq!(p.done_parts(), 0);
    assert_eq!(p.total_parts(), 60);
    assert_eq!(timer.to_string(), "[ TIMER Tea 0.00% ][ ELAPSED 00:00 ][ ENDS IN 01:00 ]");
}

#[test]
fn zero_minute_timer_is_done_on_the_first_check() {
    let mut timer = Timer::new("now", 0);
    assert!(timer.is_done());
    let p = timer.get_percent();
    assert!(p.is_complete());
    assert_eq!(p.done_parts() as f64 / p.total_parts() as f64, 1.0);
    assert_eq!(timer.get_remaining_time(), "00:00");
    timer.pause_timer();
    assert!(!timer.is_done());
    timer.unpause_timer();
    assert!(timer.is_done());
}

#[test]
fn pause_and_unpause_switch_the_state() {
    let mut timer = Timer::new("Tea", 12);
    timer.pause_timer();
    assert!(timer.is_paused());
    assert!(!timer.is_done());
    assert_eq!(timer.to_string(), "[ TIMER Tea ][ PAUSED FOR 0s ]");
    timer.pause_timer();
    assert!(timer.is_paused());
    timer.unpause_timer();
    assert!(!timer.is_paused());
    timer.unpause_timer();
    assert!(!timer.is_paused());
    assert_eq!(timer.get_passed_time(), "00:00");
    assert_eq!(timer.get_remaining_time(), "12:00");
}

#[test]
fn time_passes_only_while_running() {
    let mut timer = Timer::new("Tea", 1);
    timer.pause_timer();
    wait(1200);
    assert_eq!(timer.to_string(), "[ TIMER Tea ][ PAUSED FOR 1s ]");
    assert_eq!(timer.get_passed_time(), "00:00");
    timer.unpause_timer();
    assert_eq!(timer.get_passed_time(), "00:00");
    assert_eq!(timer.get_remaining_time(), "01:00");
    wait(1100);
    assert_eq!(timer.get_passed_time(), "00:01");
    assert_eq!(timer.get_remaining_time(), "00:59");
    assert_eq!(timer.get_percent().done_parts(), 1);
    assert_eq!(timer.to_string(), "[ TIMER Tea 1.67% ][ ELAPSED 00:01 ][ ENDS IN 00:59 ]");
}
