//! The per-minute request governor: quota monotonicity and window
//! refresh determinism on concrete clocks.

use imgchest::rate::RatelimitState;
use imgchest::rate::REQUESTS_PER_MINUTE;

#[test]
fn fresh_governor_starts_full() {
    let s = RatelimitState::new_at(55, 1200);
    assert_eq!(s.last_refreshed, 1200);
    assert_eq!(s.remaining_requests, 55);
    assert_eq!(s.requests_per_minute, 55);
}

#[test]
fn window_start_is_truncated_to_the_minute() {
    let s = RatelimitState::new_at(10, 1234);
    assert_eq!(s.last_refreshed, 1200);
}

#[test]
fn quota_monotonicity_within_one_minute() {
    // Within one rolling minute, exactly the quota is admitted and
    // the next call suspends.
    let mut s = RatelimitState::new_at(55, 6000);
    for i in 0..55u64 {
        let r = s.step_at(6000 + i);
        assert_eq!(r, None, "call {i} should be admitted");
    }
    let r = s.step_at(6059);
    assert!(r.is_some(), "the 56th call in the minute must suspend");
}

#[test]
fn suspended_call_sleeps_until_the_refresh() {
    let mut s = RatelimitState::new_at(1, 6000);
    assert_eq!(s.step_at(6000), None);
    // Budget exhausted; at 6030 the window runs for 30 more seconds.
    assert_eq!(s.step_at(6030), Some(60));
    // The sleep is computed from the minute-truncated time.
    assert_eq!(s.step_at(6059), Some(60));
}

#[test]
fn window_refresh_determinism() {
    // A call at T + 59 draws from the same budget; a call at T + 60
    // resets the budget to the full quota.
    let mut s = RatelimitState::new_at(2, 6000);
    assert_eq!(s.step_at(6000), None);
    assert_eq!(s.step_at(6059), None);
    assert!(s.step_at(6059).is_some());
    let mut t = RatelimitState::new_at(2, 6000);
    assert_eq!(t.step_at(6000), None);
    assert_eq!(t.step_at(6000), None);
    assert!(t.step_at(6001).is_some());
    // At exactly T + 60 the budget is back.
    assert_eq!(t.step_at(6060), None);
    assert_eq!(t.last_refreshed, 6060);
    assert_eq!(t.remaining_requests, 1);
}

#[test]
fn default_quota_stays_below_the_published_limit() {
    assert_eq!(REQUESTS_PER_MINUTE, 55);
    let s = RatelimitState::new();
    assert_eq!(s.requests_per_minute, REQUESTS_PER_MINUTE);
}

#[test]
fn governor_with_wall_clock_still_answers() {
    let mut s = RatelimitState::new();
    // Whatever the clock reads, a fresh governor admits a first call.
    assert_eq!(s.get_sleep_duration(), None);
}
