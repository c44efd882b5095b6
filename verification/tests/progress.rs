use tui_timer::countdown::Countdown;
use tui_timer::progress::{Progress, MAX_TOTAL_SECS};

const SEC: u128 = 1_000_000_000;

fn progress_of(done_secs: u128, minutes: u64) -> Progress {
    Countdown::new("x", minutes, 0).progress(done_secs * SEC)
}

#[test]
fn hundredths_round_to_the_nearest() {
    assert_eq!(progress_of(1, 1).hundredths(), 167);
    assert_eq!(progress_of(59, 1).hundredths(), 9833);
    assert_eq!(progress_of(20, 1).hundredths(), 3333);
    assert_eq!(progress_of(40, 1).hundredths(), 6667);
    assert_eq!(progress_of(1, 720).hundredths(), 0);
    assert_eq!(progress_of(2, 720).hundredths(), 0);
    assert_eq!(progress_of(3, 720).hundredths(), 1);
    assert_eq!(progress_of(43_199, 720).hundredths(), 10_000);
    assert_eq!(progress_of(43_197, 720).hundredths(), 9999);
}

#[test]
fn exact_halves_go_to_the_even_hundredth() {
    assert_eq!(progress_of(3, 8).hundredths(), 62);
    assert_eq!(progress_of(9, 8).hundredths(), 188);
    assert_eq!(progress_of(69, 8).hundredths(), 1438);
    assert_eq!(progress_of(147, 8).hundredths(), 3062);
}

#[test]
fn scale_rounds_down() {
    assert_eq!(progress_of(30, 1).scale(80), 40);
    assert_eq!(progress_of(59, 1).scale(80), 78);
    assert_eq!(progress_of(1, 1).scale(59), 0);
    assert_eq!(progress_of(1, 1).scale(60), 1);
    assert_eq!(progress_of(20, 1).scale(100), 33);
    assert_eq!(progress_of(40, 1).scale(100), 66);
    assert_eq!(progress_of(60, 1).scale(100), 100);
    assert_eq!(progress_of(600, 1).scale(100), 100);
    assert_eq!(progress_of(30, 1).scale(0), 0);
    assert_eq!(progress_of(30, 1).scale(u16::MAX), 32_767);
    assert_eq!(progress_of(0, 1).scale(u16::MAX), 0);
}

#[test]
fn scale_never_exceeds_the_width() {
    for minutes in [0u64, 1, 7, 720] {
        for secs in [0u128, 1, 59, 60, 419, 420, 43_199, 43_200, 50_000] {
            for width in [0u16, 1, 2, 79, 80, 1000, u16::MAX] {
                let p = progress_of(secs, minutes);
                assert!(p.scale(width) <= width);
                let exact = width as u128 * p.done_parts() / p.total_parts();
                assert_eq!(p.scale(width) as u128, exact);
            }
        }
    }
}

#[test]
fn longest_target_is_sixty_times_the_largest_minute_count() {
    assert_eq!(MAX_TOTAL_SECS, u64::MAX as u128 * 60);
    assert_eq!(progress_of(0, u64::MAX).total_parts(), MAX_TOTAL_SECS);
}
