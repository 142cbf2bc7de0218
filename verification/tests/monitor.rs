use codex_worker_adapter::config::Config;
use codex_worker_adapter::control_plane::{
    renew_result, ControlPlaneClient, Lease, LeaseMonitorResult, RenewResult, Reply,
};
use codex_worker_adapter::error::WorkerError;
use codex_worker_adapter::monitor::{LeaseMonitor, MonitorEvent, MonitorPhase};

const SECOND: u128 = 1_000_000_000;
const LOST: MonitorPhase = MonitorPhase::Done(LeaseMonitorResult::Lost);
const STOPPED: MonitorPhase = MonitorPhase::Done(LeaseMonitorResult::Stopped);

fn monitor(ttl: u64) -> LeaseMonitor {
    let config = Config { control_plane_url: "http://control-plane".to_string() };
    let lease = Lease {
        home_shard_id: "home-1".to_string(),
        lease_token: "lease-1".to_string(),
        generation: 4,
        lease_ttl_seconds: ttl,
    };
    ControlPlaneClient::new(&config).monitor(&config, &lease, 5 * SECOND)
}

fn beat(
    monitor: LeaseMonitor,
    outcome: Result<RenewResult, WorkerError>,
    secs: u128,
) -> LeaseMonitor {
    let due = monitor.step(MonitorEvent::IntervalElapsed);
    due.step(MonitorEvent::RenewFinished { outcome, now: secs * SECOND })
}

fn failure() -> Result<RenewResult, WorkerError> {
    renew_result(Reply::NotSent { cause: "timed out".to_string() })
}

#[test]
fn heartbeats_must_outpace_the_lease() {
    assert_eq!(monitor(10).phase(), LOST);
    assert_eq!(monitor(1).phase(), LOST);
    let running = monitor(11);
    assert_eq!(running.phase(), MonitorPhase::Waiting);
    assert_eq!(running.interval_secs(), 10);
}

#[test]
fn third_failure_in_a_row_costs_the_lease() {
    let m = beat(monitor(1000), failure(), 15);
    assert_eq!(m.phase(), MonitorPhase::Waiting);
    let m = beat(m, failure(), 25);
    assert_eq!(m.phase(), MonitorPhase::Waiting);
    let m = beat(m, failure(), 35);
    assert_eq!(m.phase(), LOST);
}

#[test]
fn success_forgives_earlier_failures() {
    let mut m = monitor(1000);
    for round in 0u128..5 {
        m = beat(m, failure(), 15 + 30 * round);
        m = beat(m, failure(), 25 + 30 * round);
        m = beat(m, Ok(RenewResult::Renewed), 35 + 30 * round);
        assert_eq!(m.phase(), MonitorPhase::Waiting);
    }
}

#[test]
fn failure_after_the_time_of_the_lease_costs_it() {
    let m = monitor(12).step(MonitorEvent::IntervalElapsed);
    let m = m.step(MonitorEvent::RenewFinished { outcome: failure(), now: 17 * SECOND - 1 });
    assert_eq!(m.phase(), MonitorPhase::Waiting);
    let m = beat(monitor(12), failure(), 17);
    assert_eq!(m.phase(), LOST);
    let m = beat(beat(monitor(12), Ok(RenewResult::Renewed), 17), failure(), 28);
    assert_eq!(m.phase(), MonitorPhase::Waiting);
}

#[test]
fn clock_that_stands_earlier_counts_as_no_time() {
    assert_eq!(beat(monitor(11), failure(), 0).phase(), MonitorPhase::Waiting);
}

#[test]
fn lease_of_greatest_length_is_watched() {
    let m = beat(monitor(u64::MAX), failure(), 15);
    assert_eq!(m.phase(), MonitorPhase::Waiting);
}

#[test]
fn fencing_costs_the_lease_at_once() {
    let fenced = renew_result(Reply::Received {
        status: 423,
        refusal: "locked".to_string(),
        body: (),
    });
    assert_eq!(beat(monitor(30), fenced, 15).phase(), LOST);
}

#[test]
fn monitor_stops_when_told_or_left_alone() {
    let told = monitor(30).step(MonitorEvent::StopSignal { closed: false, stop: true });
    assert_eq!(told.phase(), STOPPED);
    let alone = monitor(30).step(MonitorEvent::StopSignal { closed: true, stop: false });
    assert_eq!(alone.phase(), STOPPED);
    let neither = monitor(30).step(MonitorEvent::StopSignal { closed: false, stop: false });
    assert_eq!(neither.phase(), MonitorPhase::Waiting);
}

#[test]
fn monitor_ignores_what_it_does_not_wait_for() {
    let m = monitor(30).step(MonitorEvent::RenewFinished {
        outcome: Ok(RenewResult::Fenced),
        now: 6 * SECOND,
    });
    assert_eq!(m.phase(), MonitorPhase::Waiting);
    let m = m.step(MonitorEvent::IntervalElapsed);
    assert_eq!(m.phase(), MonitorPhase::Renewing);
    let m = m.step(MonitorEvent::StopSignal { closed: true, stop: true });
    assert_eq!(m.phase(), MonitorPhase::Renewing);
    let m = monitor(5).step(MonitorEvent::IntervalElapsed);
    assert_eq!(m.phase(), LOST);
}

#[test]
fn lease_is_lost_when_its_time_is_over_though_no_heartbeat_is_due() {
    let refused = renew_result(Reply::Received {
        status: 500,
        refusal: "broken".to_string(),
        body: (),
    });
    let m = beat(monitor(15), refused, 15);
    assert_eq!(m.phase(), MonitorPhase::Waiting);
    assert_eq!(m.time_left(15 * SECOND), 5 * SECOND);
    let m = m.step(MonitorEvent::DeadlineReached { now: 20 * SECOND - 1 });
    assert_eq!(m.phase(), MonitorPhase::Waiting);
    assert_eq!(m.time_left(20 * SECOND - 1), 1);
    let m = m.step(MonitorEvent::DeadlineReached { now: 20 * SECOND });
    assert_eq!(m.phase(), LOST);
}

#[test]
fn lease_is_lost_when_its_time_is_over_though_a_heartbeat_hangs() {
    let m = monitor(12).step(MonitorEvent::IntervalElapsed);
    assert_eq!(m.time_left(15 * SECOND), 2 * SECOND);
    let m = m.step(MonitorEvent::DeadlineReached { now: 16 * SECOND });
    assert_eq!(m.phase(), MonitorPhase::Renewing);
    let m = m.step(MonitorEvent::DeadlineReached { now: 17 * SECOND });
    assert_eq!(m.phase(), LOST);
    let m = m.step(MonitorEvent::RenewFinished {
        outcome: Ok(RenewResult::Renewed),
        now: 18 * SECOND,
    });
    assert_eq!(m.phase(), LOST);
}

#[test]
fn renewal_moves_the_deadline() {
    let m = monitor(12);
    assert_eq!(m.time_left(5 * SECOND), 12 * SECOND);
    assert_eq!(m.time_left(0), 12 * SECOND);
    assert_eq!(m.time_left(17 * SECOND), 0);
    assert_eq!(m.time_left(u128::MAX), 0);
    let m = beat(m, Ok(RenewResult::Renewed), 16);
    assert_eq!(m.time_left(17 * SECOND), 11 * SECOND);
    let m = m.step(MonitorEvent::DeadlineReached { now: 17 * SECOND });
    assert_eq!(m.phase(), MonitorPhase::Waiting);
}

#[test]
fn stopped_monitor_has_no_deadline() {
    let m = monitor(30).step(MonitorEvent::StopSignal { closed: false, stop: true });
    let m = m.step(MonitorEvent::DeadlineReached { now: 1000 * SECOND });
    assert_eq!(m.phase(), STOPPED);
}
