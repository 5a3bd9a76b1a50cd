use hematite::capture::Timestamp;
use hematite::orchestrator::{delay, is_night, update_is_night, Pace};
use hematite::settings::Frame;

fn at(millis: i64) -> Timestamp {
    Timestamp { millis }
}

#[test]
fn early_finish_keeps_a_fixed_rate() {
    let start = 1_700_000_000_000;
    let pace = delay(Frame::Period(5_000), at(start), at(start + 2_000));
    assert_eq!(pace, Pace { next_start: at(start + 5_000), sleep_millis: 3_000, overrun_millis: 0 });
}

#[test]
fn overrun_starts_at_once_and_reports_the_excess() {
    let start = 1_700_000_000_000;
    let pace = delay(Frame::Period(5_000), at(start), at(start + 7_000));
    assert_eq!(pace, Pace { next_start: at(start + 7_000), sleep_millis: 0, overrun_millis: 2_000 });
}

#[test]
fn exact_fit_sleeps_zero() {
    let pace = delay(Frame::Period(5_000), at(0), at(5_000));
    assert_eq!(pace, Pace { next_start: at(5_000), sleep_millis: 0, overrun_millis: 0 });
}

#[test]
fn back_to_back_never_sleeps() {
    let pace = delay(Frame::Continuous, at(10), at(99_999));
    assert_eq!(pace, Pace { next_start: at(99_999), sleep_millis: 0, overrun_millis: 0 });
}

#[test]
fn no_drift_over_several_iterations() {
    let mut start = 0;
    for work in [1_000, 4_999, 0, 2_500] {
        let pace = delay(Frame::Period(5_000), at(start), at(start + work));
        start = pace.next_start.millis;
    }
    assert_eq!(start, 20_000);
}

#[test]
fn night_below_the_horizon() {
    assert!(is_night(-1_000, -670));
    assert!(!is_night(-670, -670));
    assert!(!is_night(30_000, -670));
}

#[test]
fn flip_detection() {
    let mut last = false;
    assert!(!update_is_night(false, &mut last));
    assert!(update_is_night(true, &mut last));
    assert!(last);
    assert!(!update_is_night(true, &mut last));
    assert!(update_is_night(false, &mut last));
    assert!(!last);
}

#[test]
fn clock_stepping_back_waits_out_the_frame_from_the_start() {
    let pace = delay(Frame::Period(5_000), at(10_000), at(9_000));
    assert_eq!(pace, Pace { next_start: at(15_000), sleep_millis: 6_000, overrun_millis: 0 });
}
