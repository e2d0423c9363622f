use player_core::poller::compute_percent;
use player_core::poller::poll_tick;

#[test]
fn progress_climbs_monotonically_and_stays_within_bounds() {
    // A 125-second track. The duration value arrives on the third tick only,
    // as if the channel handoff raced the first polls: until then the poller
    // must report 0% rather than divide by its zero cached total.
    let mut cached: u64 = 0;
    let mut last_percent: u8 = 0;
    for elapsed in 0..=125u64 {
        let received = if elapsed == 2 { Some(125) } else { None };
        let outcome = poll_tick(cached, received, false, elapsed);
        cached = outcome.cached_total_secs;
        assert!(!outcome.stop_sink);
        assert!(outcome.signal.percent <= 100);
        assert!(outcome.signal.percent >= last_percent);
        last_percent = outcome.signal.percent;
    }
    assert_eq!(last_percent, 100);
}

#[test]
fn halfway_through_reports_fifty_percent() {
    let outcome = poll_tick(0, Some(125), false, 63);
    assert_eq!(outcome.signal.percent, 50);
    assert_eq!(outcome.signal.elapsed_label, "01:03");
    assert_eq!(outcome.cached_total_secs, 125);
}

#[test]
fn empty_sink_emits_zeroed_signal_and_stops_the_sink() {
    let outcome = poll_tick(125, None, true, 125);
    assert!(outcome.stop_sink);
    assert_eq!(outcome.signal.percent, 0);
    assert_eq!(outcome.signal.elapsed_label, "00:00");
    // The cached total is reset so it cannot leak into the next track.
    assert_eq!(outcome.cached_total_secs, 0);
}

#[test]
fn unknown_total_duration_reports_zero_percent() {
    let outcome = poll_tick(0, None, false, 42);
    assert_eq!(outcome.signal.percent, 0);
    assert_eq!(outcome.signal.elapsed_label, "00:42");
}

#[test]
fn percent_is_clamped_when_elapsed_overruns_the_total() {
    assert_eq!(compute_percent(130, 125), 100);
    assert_eq!(compute_percent(u64::MAX, 1), 100);
}

#[test]
fn percent_floors_the_quotient() {
    assert_eq!(compute_percent(0, 125), 0);
    assert_eq!(compute_percent(1, 125), 0);
    assert_eq!(compute_percent(62, 125), 49);
    assert_eq!(compute_percent(125, 125), 100);
}

#[test]
fn fresh_duration_replaces_the_cached_total() {
    let outcome = poll_tick(300, Some(60), false, 30);
    assert_eq!(outcome.cached_total_secs, 60);
    assert_eq!(outcome.signal.percent, 50);
}
