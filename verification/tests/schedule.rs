use std::collections::HashSet;

use mx_remote::error::SendError;
use mx_remote::schedule::{
    generate_uid, next_hello_interval, wants_discover, DeviceProgress, Probe, Schedule,
    DISCOVER_INTERVAL, HELLO_BASE, HELLO_JITTER,
};

const SECOND: u64 = 1_000_000_000;

#[test]
fn the_announcement_is_driven_by_a_timer() {
    let mut probe = Probe::new();
    let now = 1_000 * SECOND;
    probe.schedule.set_hello_timer(Some(now), 3 * SECOND);

    assert!(!probe.announce_due(now + 2 * SECOND), "announced early");
    assert!(
        probe.announce_due(now + 3 * SECOND),
        "not due at the interval; a silent network would never announce"
    );
    assert!(probe.announce_due(now + 3600 * SECOND), "not due long after the interval");

    probe.closing = true;
    assert!(!probe.announce_due(now + 3600 * SECOND), "announced while closing");
}

#[test]
fn the_announcement_interval_is_jittered() {
    let mut seen = HashSet::new();
    for _ in 0..200 {
        let interval = next_hello_interval();
        assert!(
            (HELLO_BASE..=HELLO_BASE + HELLO_JITTER).contains(&interval),
            "interval {interval} outside {HELLO_BASE}..{}",
            HELLO_BASE + HELLO_JITTER
        );
        seen.insert(interval);
    }
    assert!(seen.len() >= 50, "only {} distinct intervals in 200 draws", seen.len());
}

#[test]
fn a_failed_announcement_does_not_consume_the_interval() {
    let mut probe = Probe::new();
    probe.schedule.set_hello_timer(None, 0);
    probe.announce_sent(Err(SendError::NotConnected), 5 * SECOND);
    assert_eq!(
        probe.schedule.hello_timer(),
        (None, 0),
        "a failed send re-armed the timer; it should retry on the next tick"
    );
}

#[test]
fn a_successful_announcement_re_arms_the_timer() {
    let mut probe = Probe::new();
    probe.schedule.set_hello_timer(None, 0);
    probe.announce_sent(Ok(80), 7 * SECOND);
    let (last, interval) = probe.schedule.hello_timer();
    assert_eq!(last, Some(7 * SECOND), "a successful send did not record the announcement");
    assert!(
        (HELLO_BASE..=HELLO_BASE + HELLO_JITTER).contains(&interval),
        "interval after a successful send = {interval}, want it re-drawn in range"
    );
}

#[test]
fn a_client_that_never_announced_is_due_at_once() {
    let s = Schedule::new();
    assert!(s.announce_due(0));
    assert!(s.discover_due(0));
    assert!(Probe::new().tick(true, 0).announce);
}

#[test]
fn discovery_is_not_asked_for_again_within_its_interval() {
    let mut probe = Probe::new();
    probe.discover_sent(10 * SECOND);
    assert!(!probe.tick(true, 10 * SECOND + DISCOVER_INTERVAL - 1).discover);
    assert!(probe.tick(true, 10 * SECOND + DISCOVER_INTERVAL).discover);
    assert!(!probe.tick(false, 10 * SECOND + DISCOVER_INTERVAL).discover);
}

#[test]
fn discovery_is_wanted_until_a_device_has_described_itself() {
    assert!(wants_discover(&[], 0));
    let done = DeviceProgress { configuration_complete: true, hello_received: 0 };
    let fresh = DeviceProgress { configuration_complete: false, hello_received: 100 * SECOND };
    assert!(!wants_discover(&[done, fresh], 110 * SECOND));
    assert!(wants_discover(&[done, fresh], 116 * SECOND));
}

#[test]
fn a_generated_identifier_is_not_empty() {
    let uid = generate_uid().expect("the system has a random source");
    assert!(!uid.is_zero());
}
