use codex_worker_adapter::http_server::{live, router, Endpoint, RpcDecision, WorkerState};
use codex_worker_adapter::net::Method;

#[test]
fn endpoints_are_served() {
    assert_eq!(
        router(),
        vec![
            (Method::Get, "/health/live".to_string(), Endpoint::Live),
            (Method::Get, "/health/ready".to_string(), Endpoint::Ready),
            (Method::Get, "/rpc".to_string(), Endpoint::Rpc),
        ]
    );
    assert_eq!(live(), 200);
}

#[test]
fn readiness_follows_the_worker() {
    let mut state = WorkerState::new();
    assert_eq!(state.ready(), 503);
    state.set_ready(true);
    assert_eq!(state.ready(), 200);
    state.set_ready(false);
    assert_eq!(state.ready(), 503);
}

#[test]
fn one_connection_at_a_time() {
    let mut state = WorkerState::new();
    assert_eq!(state.rpc(), RpcDecision::Refuse { status: 503 });
    state.set_ready(true);
    assert_eq!(state.rpc(), RpcDecision::Upgrade);
    assert_eq!(state.rpc(), RpcDecision::Refuse { status: 409 });
    state.set_ready(false);
    assert_eq!(state.rpc(), RpcDecision::Refuse { status: 503 });
    state.set_ready(true);
    state.disconnect();
    assert_eq!(state.rpc(), RpcDecision::Upgrade);
}
