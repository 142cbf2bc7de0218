use codex_worker_adapter::discovery::{
    discover_instance_ip, start_discovery, Discovery, DiscoveryEvent,
};
use codex_worker_adapter::error::{Step, WorkerError};
use codex_worker_adapter::net::{dotted_text, IpAddress, SocketAddress};
use codex_worker_adapter::url::ParsedUrl;

const TARGET: SocketAddress = SocketAddress::V4 { octets: [10, 1, 2, 3], port: 80 };
const TARGET_V6: SocketAddress = SocketAddress::V6 {
    segments: [0xfd00, 0, 0, 0, 0, 0, 0, 7],
    port: 443,
    flowinfo: 1,
    scope_id: 2,
};

fn resolving() -> Discovery {
    Discovery::Resolve { host: "control-plane".to_string(), port: 80 }
}

fn failed(step: Step, cause: &str) -> Discovery {
    Discovery::Done(Err(WorkerError::Failed { step, cause: cause.to_string() }))
}

#[test]
fn discovery_asks_for_the_host_and_port_of_the_url() {
    assert_eq!(discover_instance_ip("http://control-plane/base"), resolving());
    assert_eq!(
        discover_instance_ip("https://Control-Plane"),
        Discovery::Resolve { host: "control-plane".to_string(), port: 443 }
    );
    assert_eq!(
        discover_instance_ip("http://control-plane:8081"),
        Discovery::Resolve { host: "control-plane".to_string(), port: 8081 }
    );
    assert_eq!(
        discover_instance_ip("http://[::1]"),
        Discovery::Resolve { host: "[::1]".to_string(), port: 80 }
    );
}

#[test]
fn discovery_refuses_urls_without_host_or_port() {
    let reason = reqwest::Url::parse("no url").unwrap_err().to_string();
    let refused = discover_instance_ip("no url");
    assert_eq!(refused, failed(Step::ParseUrl, &reason));
    assert_eq!(
        discover_instance_ip("mailto:a@b"),
        Discovery::Done(Err(WorkerError::NoHost))
    );
    assert_eq!(
        discover_instance_ip("redis://cache"),
        Discovery::Done(Err(WorkerError::NoPort))
    );
    assert_eq!(WorkerError::NoHost.message(), "control-plane URL has no host");
    assert_eq!(WorkerError::NoPort.message(), "control-plane URL has no known port");
    assert_eq!(
        start_discovery(Ok(ParsedUrl {
            scheme: "http".to_string(),
            host: Some("h".to_string()),
            port: Some(1),
        })),
        Discovery::Resolve { host: "h".to_string(), port: 1 }
    );
}

#[test]
fn discovery_takes_the_first_address() {
    let found = DiscoveryEvent::Resolved(Ok(vec![TARGET, TARGET_V6]));
    assert_eq!(
        resolving().step(found),
        Discovery::OpenSocket {
            bind: SocketAddress::V4 { octets: [0; 4], port: 0 },
            target: TARGET,
        }
    );
    let found = DiscoveryEvent::Resolved(Ok(vec![TARGET_V6, TARGET]));
    assert_eq!(
        resolving().step(found),
        Discovery::OpenSocket {
            bind: SocketAddress::V6 { segments: [0; 8], port: 0, flowinfo: 0, scope_id: 0 },
            target: TARGET_V6,
        }
    );
    assert_eq!(
        resolving().step(DiscoveryEvent::Resolved(Ok(vec![]))),
        Discovery::Done(Err(WorkerError::NoAddresses))
    );
}

#[test]
fn discovery_ends_with_the_local_address() {
    let state = resolving()
        .step(DiscoveryEvent::Resolved(Ok(vec![TARGET])))
        .step(DiscoveryEvent::SocketOpened(Ok(())));
    assert_eq!(state, Discovery::Connect { target: TARGET });
    let state = state.step(DiscoveryEvent::Connected(Ok(())));
    assert_eq!(state, Discovery::Inspect);
    let ip = IpAddress::V4([10, 0, 0, 8]);
    let state = state.step(DiscoveryEvent::Inspected(Ok(ip)));
    assert_eq!(state, Discovery::Done(Ok(ip)));
    let same = state.step(DiscoveryEvent::Inspected(Err("late".to_string())));
    assert_eq!(same, Discovery::Done(Ok(ip)));
}

#[test]
fn discovery_failures_are_told_apart() {
    let cause = || "broken".to_string();
    let opening = || resolving().step(DiscoveryEvent::Resolved(Ok(vec![TARGET])));
    assert_eq!(
        resolving().step(DiscoveryEvent::Resolved(Err(cause()))),
        failed(Step::Resolve, "broken")
    );
    assert_eq!(
        opening().step(DiscoveryEvent::SocketOpened(Err(cause()))),
        failed(Step::OpenSocket, "broken")
    );
    assert_eq!(
        Discovery::Connect { target: TARGET }.step(DiscoveryEvent::Connected(Err(cause()))),
        failed(Step::SelectRoute, "broken")
    );
    assert_eq!(
        Discovery::Inspect.step(DiscoveryEvent::Inspected(Err(cause()))),
        failed(Step::InspectSocket, "broken")
    );
    assert_eq!(opening().step(DiscoveryEvent::Connected(Err(cause()))), opening());
}

#[test]
fn unroutable_addresses_are_refused() {
    let cases = [
        (IpAddress::V4([127, 0, 0, 1]), "127.0.0.1"),
        (IpAddress::V4([127, 255, 1, 20]), "127.255.1.20"),
        (IpAddress::V4([0, 0, 0, 0]), "0.0.0.0"),
        (IpAddress::V6([0, 0, 0, 0, 0, 0, 0, 1]), "::1"),
        (IpAddress::V6([0; 8]), "::"),
    ];
    for (ip, written) in cases {
        let refused = Discovery::Inspect.step(DiscoveryEvent::Inspected(Ok(ip)));
        assert_eq!(message_of(refused), unroutable(written));
    }
}

fn unroutable(ip: &str) -> String {
    format!("resolved Pod IP {ip} is not routable")
}

fn message_of(state: Discovery) -> String {
    match state {
        Discovery::Done(Err(error)) => error.message(),
        other => panic!("{other:?}"),
    }
}

#[test]
fn addresses_are_classified() {
    let cases = [
        (IpAddress::V4([127, 1, 2, 3]), true, false),
        (IpAddress::V4([128, 0, 0, 1]), false, false),
        (IpAddress::V4([0, 0, 0, 1]), false, false),
        (IpAddress::V4([0, 0, 0, 0]), false, true),
        (IpAddress::V4([10, 0, 0, 8]), false, false),
        (IpAddress::V6([0, 0, 0, 0, 0, 0, 0, 1]), true, false),
        (IpAddress::V6([0, 0, 0, 0, 0, 0, 0, 2]), false, false),
        (IpAddress::V6([0, 0, 0, 0, 0, 0, 1, 1]), false, false),
        (IpAddress::V6([0; 8]), false, true),
        (IpAddress::V6([0, 0, 0, 0, 0, 0xffff, 0x7f00, 1]), false, false),
        (IpAddress::V6([1, 0, 0, 0, 0, 0, 0, 1]), false, false),
    ];
    for (ip, loopback, unspecified) in cases {
        assert_eq!(ip.is_loopback(), loopback, "{ip:?}");
        assert_eq!(ip.is_unspecified(), unspecified, "{ip:?}");
    }
    assert_eq!(dotted_text(&[10, 0, 255, 8]), "10.0.255.8");
}
