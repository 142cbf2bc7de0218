use codex_worker_adapter::config::Config;
use codex_worker_adapter::control_plane::{
    renew_result, ControlPlaneClient, Lease, LeaseMonitorResult, Reply,
};
use codex_worker_adapter::error::WorkerError;
use codex_worker_adapter::monitor::{MonitorEvent, MonitorPhase};
use codex_worker_adapter::net::SocketAddress;
use codex_worker_adapter::run;
use codex_worker_adapter::run::{
    shutdown_reason, start, RunAction, RunEvent, RunPhase, ShutdownReason,
};

fn config() -> Config {
    Config { control_plane_url: "http://control-plane".to_string() }
}

fn on(phase: RunPhase, event: RunEvent) -> (RunPhase, Vec<RunAction>) {
    run(phase, &config(), event)
}

fn spawning() -> RunPhase {
    RunPhase::SpawningAppServer { ended: None }
}

fn binding() -> RunPhase {
    RunPhase::BindingListener { ended: None }
}

fn finished(error: WorkerError) -> RunPhase {
    RunPhase::Finished(Err(error))
}

fn teardown() -> Vec<RunAction> {
    vec![
        RunAction::SetReady(false),
        RunAction::StopLeaseMonitor,
        RunAction::AbortLeaseMonitor,
        RunAction::StopHttp,
        RunAction::ShutdownAppServer { grace_secs: 10 },
    ]
}

fn teardown_with_release() -> Vec<RunAction> {
    let mut actions = teardown();
    actions.push(RunAction::ReleaseLease);
    actions
}

#[test]
fn worker_starts_in_order() {
    let (phase, actions) = start();
    assert_eq!(phase, spawning());
    assert_eq!(actions, vec![RunAction::StartLeaseMonitor, RunAction::SpawnAppServer]);
    let (phase, actions) = on(phase, RunEvent::AppServerSpawned(Ok(())));
    assert_eq!(phase, binding());
    assert_eq!(
        actions,
        vec![RunAction::BindListener(SocketAddress::V4 { octets: [0; 4], port: 8080 })]
    );
    let (phase, actions) = on(phase, RunEvent::ListenerBound(Ok(())));
    assert_eq!(phase, RunPhase::Serving);
    assert_eq!(actions, vec![RunAction::ServeHttp, RunAction::SetReady(true)]);
}

#[test]
fn worker_without_app_server_gives_its_lease_back() {
    let (phase, actions) =
        on(spawning(), RunEvent::AppServerSpawned(Err(WorkerError::NoHost)));
    assert_eq!(phase, finished(WorkerError::NoHost));
    assert_eq!(
        actions,
        vec![
            RunAction::StopLeaseMonitor,
            RunAction::AbortLeaseMonitor,
            RunAction::ReleaseLease,
        ]
    );
}

#[test]
fn worker_without_listener_gives_its_lease_back() {
    let (phase, actions) =
        on(binding(), RunEvent::ListenerBound(Err("in use".to_string())));
    match phase {
        RunPhase::Finished(Err(error)) => {
            assert_eq!(error.message(), "failed to bind worker adapter to 0.0.0.0:8080");
            assert_eq!(error.cause(), Some("in use".to_string()));
        }
        other => panic!("{other:?}"),
    }
    assert_eq!(
        actions,
        vec![
            RunAction::StopLeaseMonitor,
            RunAction::AbortLeaseMonitor,
            RunAction::ShutdownAppServer { grace_secs: 10 },
            RunAction::ReleaseLease,
        ]
    );
}

#[test]
fn signal_ends_the_worker_well() {
    let (phase, actions) = on(RunPhase::Serving, RunEvent::Signal);
    assert_eq!(phase, RunPhase::Finished(Ok(())));
    assert_eq!(actions, teardown_with_release());
}

#[test]
fn lost_lease_is_not_released() {
    let (phase, actions) =
        on(RunPhase::Serving, RunEvent::LeaseTaskEnded(Ok(LeaseMonitorResult::Lost)));
    assert_eq!(phase, finished(WorkerError::LeaseLost));
    assert_eq!(actions, teardown());
    assert_eq!(WorkerError::LeaseLost.message(), "home-shard lease was fenced or lost");
}

#[test]
fn every_other_end_is_an_error_and_releases_the_lease() {
    let text = || "broken".to_string();
    let cases = vec![
        (
            RunEvent::LeaseTaskEnded(Ok(LeaseMonitorResult::Stopped)),
            "home-shard lease monitor stopped",
        ),
        (RunEvent::LeaseTaskEnded(Err(text())), "background task failed: broken"),
        (RunEvent::AppServerExited(text()), "broken"),
        (RunEvent::HttpServerEnded(Ok(Ok(()))), "worker HTTP server exited: clean exit"),
        (RunEvent::HttpServerEnded(Ok(Err(text()))), "worker HTTP server exited: broken"),
        (RunEvent::HttpServerEnded(Err(text())), "worker HTTP server exited: broken"),
    ];
    for (event, message) in cases {
        let (phase, actions) = on(RunPhase::Serving, event);
        match phase {
            RunPhase::Finished(Err(error)) => assert_eq!(error.message(), message),
            other => panic!("{other:?}"),
        }
        assert_eq!(actions, teardown_with_release());
    }
}

#[test]
fn worker_ignores_what_it_does_not_wait_for() {
    assert_eq!(
        on(spawning(), RunEvent::Signal),
        (spawning(), vec![])
    );
    assert_eq!(
        on(binding(), RunEvent::AppServerSpawned(Ok(()))),
        (binding(), vec![])
    );
    assert_eq!(
        on(RunPhase::Serving, RunEvent::ListenerBound(Ok(()))),
        (RunPhase::Serving, vec![])
    );
    assert_eq!(
        on(finished(WorkerError::LeaseLost), RunEvent::Signal),
        (finished(WorkerError::LeaseLost), vec![])
    );
}

#[test]
fn reasons_are_read_off_events() {
    assert_eq!(shutdown_reason(RunEvent::Signal), Some(ShutdownReason::Signal));
    assert_eq!(
        shutdown_reason(RunEvent::HttpServerEnded(Ok(Ok(())))),
        Some(ShutdownReason::HttpServerExited(None))
    );
    assert_eq!(shutdown_reason(RunEvent::ListenerBound(Ok(()))), None);
    assert_eq!(shutdown_reason(RunEvent::AppServerSpawned(Ok(()))), None);
}

#[test]
fn fenced_heartbeat_stops_the_worker() {
    let lease = Lease {
        home_shard_id: "home-1".to_string(),
        lease_token: "lease-1".to_string(),
        generation: 4,
        lease_ttl_seconds: 30,
    };
    let monitor = ControlPlaneClient::new(&config())
        .monitor(&config(), &lease, 0)
        .step(MonitorEvent::IntervalElapsed)
        .step(MonitorEvent::RenewFinished {
            outcome: renew_result(Reply::Received {
                status: 423,
                refusal: "locked".to_string(),
                body: (),
            }),
            now: 10_000_000_000,
        });
    let MonitorPhase::Done(watched) = monitor.phase() else {
        panic!("the watch goes on");
    };
    let (phase, actions) = on(RunPhase::Serving, RunEvent::LeaseTaskEnded(Ok(watched)));
    assert_eq!(phase, finished(WorkerError::LeaseLost));
    assert_eq!(actions, teardown());
}

#[test]
fn lease_that_is_lost_during_the_start_ends_the_worker() {
    let lost = || RunEvent::LeaseTaskEnded(Ok(LeaseMonitorResult::Lost));
    let (phase, actions) = on(spawning(), lost());
    assert_eq!(phase, finished(WorkerError::LeaseLost));
    assert_eq!(
        actions,
        vec![
            RunAction::AbandonStart,
            RunAction::StopLeaseMonitor,
            RunAction::AbortLeaseMonitor,
        ]
    );
    assert_eq!(
        on(phase, RunEvent::AppServerSpawned(Ok(()))),
        (finished(WorkerError::LeaseLost), vec![])
    );
    let (phase, actions) = on(binding(), lost());
    assert_eq!(phase, finished(WorkerError::LeaseLost));
    assert_eq!(
        actions,
        vec![
            RunAction::AbandonStart,
            RunAction::StopLeaseMonitor,
            RunAction::AbortLeaseMonitor,
            RunAction::ShutdownAppServer { grace_secs: 10 },
        ]
    );
}

fn stopped_before_serving() -> Vec<RunAction> {
    vec![
        RunAction::StopLeaseMonitor,
        RunAction::AbortLeaseMonitor,
        RunAction::ShutdownAppServer { grace_secs: 10 },
        RunAction::ReleaseLease,
    ]
}

#[test]
fn any_other_end_during_the_start_waits_for_the_start() {
    let failed = || RunEvent::LeaseTaskEnded(Err("broken".to_string()));
    let ended = || Some(ShutdownReason::BackgroundTaskFailed("broken".to_string()));
    let error = || WorkerError::BackgroundTaskFailed { error: "broken".to_string() };

    let (phase, actions) = on(spawning(), failed());
    assert_eq!(phase, RunPhase::SpawningAppServer { ended: ended() });
    assert_eq!(actions, vec![]);
    let (phase, actions) = on(phase, RunEvent::AppServerSpawned(Ok(())));
    assert_eq!(phase, RunPhase::BindingListener { ended: ended() });
    assert_eq!(actions.len(), 1);
    let (phase, actions) = on(phase, RunEvent::AppServerExited("gone".to_string()));
    assert_eq!(phase, RunPhase::BindingListener { ended: ended() });
    assert_eq!(actions, vec![]);
    let (phase, actions) = on(phase, RunEvent::ListenerBound(Ok(())));
    assert_eq!(phase, finished(error()));
    assert_eq!(actions, stopped_before_serving());

    let (phase, _) = on(binding(), RunEvent::AppServerExited("gone".to_string()));
    let (phase, actions) = on(phase, RunEvent::ListenerBound(Ok(())));
    assert_eq!(phase, finished(WorkerError::AppServerExited { reason: "gone".to_string() }));
    assert_eq!(actions, stopped_before_serving());

    let (phase, _) = on(binding(), RunEvent::LeaseTaskEnded(Ok(LeaseMonitorResult::Stopped)));
    let (phase, _) = on(phase, RunEvent::ListenerBound(Ok(())));
    assert_eq!(phase, finished(WorkerError::LeaseMonitorStopped));
}

#[test]
fn failed_start_is_reported_whatever_else_has_ended() {
    let (phase, _) = on(spawning(), RunEvent::LeaseTaskEnded(Err("broken".to_string())));
    let (phase, actions) = on(phase, RunEvent::AppServerSpawned(Err(WorkerError::NoHost)));
    assert_eq!(phase, finished(WorkerError::NoHost));
    assert_eq!(actions.last(), Some(&RunAction::ReleaseLease));

    let (phase, _) = on(binding(), RunEvent::AppServerExited("gone".to_string()));
    let (phase, actions) = on(phase, RunEvent::ListenerBound(Err("in use".to_string())));
    match phase {
        RunPhase::Finished(Err(error)) => {
            assert_eq!(error.message(), "failed to bind worker adapter to 0.0.0.0:8080");
        }
        other => panic!("{other:?}"),
    }
    assert_eq!(actions, stopped_before_serving());
}

#[test]
fn lost_lease_ends_a_start_in_which_something_else_has_ended() {
    let (phase, _) = on(binding(), RunEvent::AppServerExited("gone".to_string()));
    let (phase, actions) =
        on(phase, RunEvent::LeaseTaskEnded(Ok(LeaseMonitorResult::Lost)));
    assert_eq!(phase, finished(WorkerError::LeaseLost));
    assert!(!actions.contains(&RunAction::ReleaseLease));
}
