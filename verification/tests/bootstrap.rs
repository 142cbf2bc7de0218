use codex_worker_adapter::bootstrap;
use codex_worker_adapter::bootstrap::{begin, Bootstrap, BootstrapEvent};
use codex_worker_adapter::config::Config;
use codex_worker_adapter::control_plane::{Lease, Reply};
use codex_worker_adapter::discovery::{Discovery, DiscoveryEvent};
use codex_worker_adapter::error::WorkerError;
use codex_worker_adapter::net::{IpAddress, SocketAddress};
use codex_worker_adapter::WorkerBootstrap;

const IP: IpAddress = IpAddress::V4([10, 0, 0, 8]);

fn config() -> Config {
    Config { control_plane_url: "http://control-plane/".to_string() }
}

fn lease(home_shard_id: &str) -> Lease {
    Lease {
        home_shard_id: home_shard_id.to_string(),
        lease_token: "lease-1".to_string(),
        generation: 4,
        lease_ttl_seconds: 30,
    }
}

fn building() -> Bootstrap {
    let target = SocketAddress::V4 { octets: [10, 1, 2, 3], port: 80 };
    let mut state = bootstrap(config());
    for event in [
        DiscoveryEvent::Resolved(Ok(vec![target])),
        DiscoveryEvent::SocketOpened(Ok(())),
        DiscoveryEvent::Connected(Ok(())),
        DiscoveryEvent::Inspected(Ok(IP)),
    ] {
        assert!(matches!(state, Bootstrap::Discover { .. }));
        state = state.step(BootstrapEvent::Discovery(event));
    }
    state
}

fn claiming() -> Bootstrap {
    building().step(BootstrapEvent::ClientBuilt(Ok(())))
}

fn claimed(lease: Lease) -> Bootstrap {
    claiming().step(BootstrapEvent::Claimed(Reply::Received {
        status: 200,
        refusal: String::new(),
        body: Ok(lease),
    }))
}

fn error(state: Bootstrap) -> WorkerError {
    match state {
        Bootstrap::Failed(error) => error,
        other => panic!("{other:?}"),
    }
}

fn ready() -> WorkerBootstrap {
    match claimed(lease("home-1")).step(BootstrapEvent::HomeCreated(Ok(()))) {
        Bootstrap::Ready(bootstrap) => bootstrap,
        other => panic!("{other:?}"),
    }
}

#[test]
fn start_leads_to_a_leased_home() {
    match claiming() {
        Bootstrap::Claim { instance_ip, control_plane, .. } => {
            assert_eq!(instance_ip, IP);
            assert_eq!(control_plane.endpoint("/x"), "http://control-plane/x");
        }
        other => panic!("{other:?}"),
    }
    let bootstrap = ready();
    assert_eq!(bootstrap.codex_home(), "/codex-home/home-1");
    assert_eq!(bootstrap.lease, lease("home-1"));
    assert_eq!(bootstrap.instance_ip, IP);
    assert_eq!(bootstrap.config.control_plane_url, "http://control-plane/");
    assert_eq!(
        bootstrap.environment(),
        vec![
            ("CODEX_HOME".to_string(), "/codex-home/home-1".to_string()),
            ("CODEX_WORKER_ADAPTER_BOOTSTRAPPED".to_string(), "1".to_string()),
        ]
    );
}

#[test]
fn refused_settings_end_the_start() {
    let refused = bootstrap(Config { control_plane_url: "ftp://control-plane".to_string() });
    assert_eq!(error(refused), WorkerError::ControlPlaneUrlNotHttp);
    let discovery = || Discovery::Resolve { host: "h".to_string(), port: 1 };
    assert_eq!(error(begin(config(), Err(WorkerError::NoHost), discovery())), WorkerError::NoHost);
    let failed = Discovery::Done(Err(WorkerError::NoPort));
    assert_eq!(error(begin(config(), Ok(()), failed)), WorkerError::NoPort);
    assert!(matches!(begin(config(), Ok(()), discovery()), Bootstrap::Discover { .. }));
}

#[test]
fn failed_discovery_ends_the_start() {
    let state = bootstrap(config())
        .step(BootstrapEvent::Discovery(DiscoveryEvent::Resolved(Ok(vec![]))));
    assert_eq!(error(state), WorkerError::NoAddresses);
}

#[test]
fn failure_without_a_lease_releases_nothing() {
    let unbuilt = building().step(BootstrapEvent::ClientBuilt(Err("no TLS".to_string())));
    let told = error(unbuilt);
    assert_eq!(told.message(), "failed to build control-plane HTTP client");
    assert_eq!(told.cause(), Some("no TLS".to_string()));
    let unclaimed = claiming()
        .step(BootstrapEvent::Claimed(Reply::NotSent { cause: "refused".to_string() }));
    assert_eq!(error(unclaimed).message(), "failed to claim a home shard");
}

#[test]
fn lease_of_a_bad_shard_is_released() {
    match claimed(lease("../other")) {
        Bootstrap::Release { control_plane, lease: given_back, error: told } => {
            assert_eq!(given_back, lease("../other"));
            assert_eq!(control_plane.endpoint(""), "http://control-plane");
            assert_eq!(
                told.message(),
                "control plane returned invalid homeShardId \"../other\""
            );
        }
        other => panic!("{other:?}"),
    }
    let over = claimed(lease("../other")).step(BootstrapEvent::Released);
    assert!(matches!(error(over), WorkerError::InvalidHomeShardId { .. }));
}

#[test]
fn lease_is_released_where_the_home_cannot_be_created() {
    let state = claimed(lease("home-1"))
        .step(BootstrapEvent::HomeCreated(Err("read-only".to_string())));
    assert!(matches!(&state, Bootstrap::Release { lease: held, .. } if *held == lease("home-1")));
    let told = error(state.step(BootstrapEvent::Released));
    assert_eq!(told.message(), "failed to create CODEX_HOME /codex-home/home-1");
    assert_eq!(told.cause(), Some("read-only".to_string()));
}

#[test]
fn start_ignores_what_it_does_not_wait_for() {
    let state = claiming().step(BootstrapEvent::Released);
    assert!(matches!(state, Bootstrap::Claim { .. }));
    let state = bootstrap(config()).step(BootstrapEvent::HomeCreated(Ok(())));
    assert!(matches!(state, Bootstrap::Discover { .. }));
}
