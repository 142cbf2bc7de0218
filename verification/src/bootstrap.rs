//! The start of the worker, up to the lease of a home shard and its home directory.
//!
//! The state says what is to be done next; what came of it is handed back as an event.
use crate::config::{
    home_path, law_home_names_the_whole_shard, shard_id_error, url_verdict, valid_home_shard_id,
    Config,
};
use crate::control_plane::{claim_result, claim_verdict, ControlPlaneClient, Lease, Reply};
use crate::discovery::{
    discover_instance_ip, discovery_goes_on, discovery_starts, routable, Discovery, DiscoveryEvent,
};
use crate::error::{Step, WorkerError};
use crate::net::IpAddress;
use crate::text::{debug_text, without_trailing_slashes};
use crate::url::parsed_url;
use vstd::prelude::*;

verus! {

/// The environment variable by which a helper process knows that a worker started it.
pub const BOOTSTRAPPED_ENV: &'static str = "CODEX_WORKER_ADAPTER_BOOTSTRAPPED";

/// What the worker holds once it has a home shard.
#[derive(Debug)]
pub struct WorkerBootstrap {
    pub config: Config,
    pub instance_ip: IpAddress,
    pub control_plane: ControlPlaneClient,
    pub lease: Lease,
    pub codex_home: String,
}

/// Where the start of the worker is: what is to be done next, or what the start came to.
#[derive(Debug)]
pub enum Bootstrap {
    /// Go on with the discovery of the Pod IP.
    Discover { config: Config, discovery: Discovery },
    /// Build the HTTP client for the control plane.
    BuildClient { config: Config, instance_ip: IpAddress },
    /// Claim a home shard.
    Claim { config: Config, instance_ip: IpAddress, control_plane: ControlPlaneClient },
    /// Create the home directory.
    CreateHome { bootstrap: WorkerBootstrap },
    /// Release the lease, and then fail.
    Release { control_plane: ControlPlaneClient, lease: Lease, error: WorkerError },
    /// The worker can run.
    Ready(WorkerBootstrap),
    /// The start failed.
    Failed(WorkerError),
}

/// What came of what was to be done.
#[derive(Debug, PartialEq, Eq)]
pub enum BootstrapEvent {
    Discovery(DiscoveryEvent),
    ClientBuilt(Result<(), String>),
    Claimed(Reply<Result<Lease, String>>),
    HomeCreated(Result<(), String>),
    /// The release was sent, whatever the control plane made of it.
    Released,
}

impl WorkerBootstrap {
    /// The home directory is the one of the leased shard, the lease lasts some time, the control
    /// plane is the configured one, and it can reach the worker.
    pub open spec fn wf(&self) -> bool {
        &&& valid_home_shard_id(self.lease.home_shard_id@)
        &&& self.codex_home@ == home_path(self.lease.home_shard_id@)
        &&& self.lease.lease_ttl_seconds > 0
        &&& self.control_plane@ == without_trailing_slashes(self.config.control_plane_url@)
        &&& routable(self.instance_ip)
    }

    /// The home directory, to be installed as `CODEX_HOME`.
    pub fn codex_home(&self) -> (r: &str)
        ensures
            r@ == self.codex_home@,
    {
        self.codex_home.as_str()
    }

    /// The environment variables that the process sets before anything else runs in it.
    pub fn environment(&self) -> (r: Vec<(String, String)>)
        ensures
            r@.len() == 2,
            r@[0].0@ == "CODEX_HOME"@ && r@[0].1@ == self.codex_home@,
            r@[1].0@ == BOOTSTRAPPED_ENV@ && r@[1].1@ == "1"@,
    {
        let mut variables: Vec<(String, String)> = Vec::new();
        variables.push(("CODEX_HOME".to_owned(), self.codex_home.clone()));
        variables.push((BOOTSTRAPPED_ENV.to_owned(), "1".to_owned()));
        variables
    }
}

/// What follows once the discovery is in a state.
pub open spec fn discovered(config: Config, discovery: Discovery) -> Bootstrap {
    match discovery {
        Discovery::Done(Ok(instance_ip)) => Bootstrap::BuildClient { config, instance_ip },
        Discovery::Done(Err(error)) => Bootstrap::Failed(error),
        _ => Bootstrap::Discover { config, discovery },
    }
}

/// What follows once there is a lease.
pub open spec fn leased(
    config: Config,
    instance_ip: IpAddress,
    control_plane: ControlPlaneClient,
    lease: Lease,
    r: Bootstrap,
) -> bool {
    if valid_home_shard_id(lease.home_shard_id@) {
        r matches Bootstrap::CreateHome { bootstrap } && bootstrap.config == config
            && bootstrap.instance_ip == instance_ip && bootstrap.control_plane == control_plane
            && bootstrap.lease == lease && bootstrap.codex_home@ == home_path(lease.home_shard_id@)
    } else {
        r matches Bootstrap::Release { control_plane: at, lease: given_back, error } && at
            == control_plane && given_back == lease && shard_id_error(lease.home_shard_id@, error)
    }
}

/// What an event does. An event that the start does not wait for does nothing.
pub open spec fn bootstrap_goes_on(s: Bootstrap, event: BootstrapEvent, r: Bootstrap) -> bool {
    match (s, event) {
        (Bootstrap::Discover { config, discovery }, BootstrapEvent::Discovery(event)) => exists|
            next: Discovery,
        |
            #[trigger] discovery_goes_on(discovery, event, next) && r == discovered(config, next),
        (Bootstrap::BuildClient { config, instance_ip }, BootstrapEvent::ClientBuilt(Ok(_))) => {
            r matches Bootstrap::Claim { config: same, instance_ip: ip, control_plane } && same
                == config && ip == instance_ip && control_plane@ == without_trailing_slashes(
                config.control_plane_url@,
            )
        },
        (Bootstrap::BuildClient { .. }, BootstrapEvent::ClientBuilt(Err(cause))) => r
            == Bootstrap::Failed(WorkerError::Failed { step: Step::BuildClient, cause }),
        (
            Bootstrap::Claim { config, instance_ip, control_plane },
            BootstrapEvent::Claimed(reply),
        ) => match claim_verdict(reply) {
            Err(error) => r == Bootstrap::Failed(error),
            Ok(lease) => leased(config, instance_ip, control_plane, lease, r),
        },
        (Bootstrap::CreateHome { bootstrap }, BootstrapEvent::HomeCreated(Ok(_))) => r
            == Bootstrap::Ready(bootstrap),
        (Bootstrap::CreateHome { bootstrap }, BootstrapEvent::HomeCreated(Err(cause))) => r == (
        Bootstrap::Release {
            control_plane: bootstrap.control_plane,
            lease: bootstrap.lease,
            error: WorkerError::Failed {
                step: Step::CreateHome { path: bootstrap.codex_home },
                cause,
            },
        }),
        (Bootstrap::Release { error, .. }, BootstrapEvent::Released) => r == Bootstrap::Failed(
            error,
        ),
        _ => r == s,
    }
}

/// How the start begins: with a URL that is refused it ends, with any other it goes on to the
/// discovery.
pub open spec fn bootstrap_starts(config: Config, r: Bootstrap) -> bool {
    let parsed = parsed_url(config.control_plane_url@);
    match r {
        Bootstrap::Failed(error) => url_verdict(parsed, Err(error)),
        Bootstrap::Discover { config: same, discovery } => {
            &&& url_verdict(parsed, Ok(()))
            &&& same == config
            &&& discovery is Resolve
            &&& discovery_starts(parsed, discovery)
        },
        _ => false,
    }
}

fn settle(config: Config, discovery: Discovery) -> (r: Bootstrap)
    ensures
        r == discovered(config, discovery),
{
    match discovery {
        Discovery::Done(Ok(instance_ip)) => Bootstrap::BuildClient { config, instance_ip },
        Discovery::Done(Err(error)) => Bootstrap::Failed(error),
        discovery => Bootstrap::Discover { config, discovery },
    }
}

/// Begins the start of a worker, given whether its settings are accepted and how the discovery
/// starts.
pub fn begin(config: Config, valid: Result<(), WorkerError>, discovery: Discovery) -> (r: Bootstrap)
    ensures
        r == match valid {
            Err(error) => Bootstrap::Failed(error),
            Ok(_) => discovered(config, discovery),
        },
{
    match valid {
        Err(error) => Bootstrap::Failed(error),
        Ok(_) => settle(config, discovery),
    }
}

/// Begins the start of a worker.
pub fn bootstrap(config: Config) -> (r: Bootstrap)
    ensures
        bootstrap_starts(config, r),
{
    let valid = config.validate();
    let discovery = discover_instance_ip(config.control_plane_url.as_str());
    begin(config, valid, discovery)
}

impl Bootstrap {
    /// Takes in an event.
    pub fn step(self, event: BootstrapEvent) -> (r: Self)
        ensures
            bootstrap_goes_on(self, event, r),
    {
        match (self, event) {
            (Bootstrap::Discover { config, discovery }, BootstrapEvent::Discovery(event)) => {
                let next = discovery.step(event);
                proof {
                    assert(discovery_goes_on(discovery, event, next));
                }
                settle(config, next)
            },
            (Bootstrap::BuildClient { config, instance_ip }, BootstrapEvent::ClientBuilt(built)) =>
                match built {
                    Ok(_) => {
                        let control_plane = ControlPlaneClient::new(&config);
                        Bootstrap::Claim { config, instance_ip, control_plane }
                    },
                    Err(cause) => Bootstrap::Failed(
                        WorkerError::Failed { step: Step::BuildClient, cause },
                    ),
                },
            (
                Bootstrap::Claim { config, instance_ip, control_plane },
                BootstrapEvent::Claimed(reply),
            ) => match claim_result(reply) {
                Err(error) => Bootstrap::Failed(error),
                Ok(lease) => match config.codex_home(lease.home_shard_id.as_str()) {
                    Ok(codex_home) => Bootstrap::CreateHome {
                        bootstrap: WorkerBootstrap {
                            config,
                            instance_ip,
                            control_plane,
                            lease,
                            codex_home,
                        },
                    },
                    Err(error) => Bootstrap::Release { control_plane, lease, error },
                },
            },
            (Bootstrap::CreateHome { bootstrap }, BootstrapEvent::HomeCreated(created)) =>
                match created {
                    Ok(_) => Bootstrap::Ready(bootstrap),
                    Err(cause) => Bootstrap::Release {
                        control_plane: bootstrap.control_plane,
                        lease: bootstrap.lease,
                        error: WorkerError::Failed {
                            step: Step::CreateHome { path: bootstrap.codex_home },
                            cause,
                        },
                    },
                },
            (Bootstrap::Release { error, .. }, BootstrapEvent::Released) => Bootstrap::Failed(
                error,
            ),
            (state, _) => state,
        }
    }
}

/// Whether `states` are the states that the start of a worker passes through on `events`.
pub open spec fn bootstrap_run(
    config: Config,
    states: Seq<Bootstrap>,
    events: Seq<BootstrapEvent>,
) -> bool {
    &&& states.len() == events.len() + 1
    &&& bootstrap_starts(config, states[0])
    &&& forall|i: int|
        0 <= i < events.len() ==> #[trigger] bootstrap_goes_on(
            states[i],
            events[i],
            states[i + 1],
        )
}

/// The lease that is held in a state.
pub open spec fn lease_held(s: Bootstrap) -> Option<Lease> {
    match s {
        Bootstrap::CreateHome { bootstrap } => Some(bootstrap.lease),
        Bootstrap::Release { lease, .. } => Some(lease),
        Bootstrap::Ready(bootstrap) => Some(bootstrap.lease),
        _ => None,
    }
}

/// What is true of every state that the start of a worker with `config` passes through.
spec fn sound(config: Config, s: Bootstrap) -> bool {
    match s {
        Bootstrap::Discover { config: same, discovery } => same == config && discovery !is Done,
        Bootstrap::BuildClient { config: same, instance_ip } => same == config && routable(
            instance_ip,
        ),
        Bootstrap::Claim { config: same, instance_ip, control_plane } => {
            &&& same == config
            &&& routable(instance_ip)
            &&& control_plane@ == without_trailing_slashes(config.control_plane_url@)
        },
        Bootstrap::CreateHome { bootstrap } => bootstrap.wf() && bootstrap.config == config,
        Bootstrap::Ready(bootstrap) => bootstrap.wf() && bootstrap.config == config,
        _ => true,
    }
}

proof fn lemma_sound(config: Config, states: Seq<Bootstrap>, events: Seq<BootstrapEvent>, i: int)
    requires
        bootstrap_run(config, states, events),
        0 <= i < states.len(),
    ensures
        sound(config, states[i]),
    decreases i,
{
    if i > 0 {
        lemma_sound(config, states, events, i - 1);
        assert(bootstrap_goes_on(states[i - 1], events[i - 1], states[i - 1 + 1]));
    }
}

/// A worker that starts up has the home directory of the shard that it leased, directly below the
/// root of the home volume; its lease lasts some time, and the control plane can reach it.
pub proof fn law_ready_worker_is_well_formed(
    config: Config,
    states: Seq<Bootstrap>,
    events: Seq<BootstrapEvent>,
    bootstrap: WorkerBootstrap,
)
    requires
        bootstrap_run(config, states, events),
        states.last() == Bootstrap::Ready(bootstrap),
    ensures
        bootstrap.wf(),
        bootstrap.config == config,
        url_verdict(parsed_url(config.control_plane_url@), Ok(())),
{
    lemma_sound(config, states, events, states.len() - 1);
    if states[0] is Failed {
        lemma_failed_is_final(config, states, events, states.len() - 1);
    }
}

proof fn lemma_failed_is_final(
    config: Config,
    states: Seq<Bootstrap>,
    events: Seq<BootstrapEvent>,
    i: int,
)
    requires
        bootstrap_run(config, states, events),
        0 <= i < states.len(),
        states[0] is Failed,
    ensures
        states[i] == states[0],
    decreases i,
{
    if i > 0 {
        lemma_failed_is_final(config, states, events, i - 1);
        assert(bootstrap_goes_on(states[i - 1], events[i - 1], states[i - 1 + 1]));
    }
}

/// A lease that was claimed is not forgotten: where the start fails after all, it has gone through
/// the release of that very lease.
pub proof fn law_claimed_lease_is_released_on_failure(
    config: Config,
    states: Seq<Bootstrap>,
    events: Seq<BootstrapEvent>,
    i: int,
    lease: Lease,
)
    requires
        bootstrap_run(config, states, events),
        0 <= i < states.len(),
        lease_held(states[i]) == Some(lease),
        states.last() is Failed,
    ensures
        exists|j: int|
            i <= j < states.len() && (#[trigger] states[j] matches Bootstrap::Release {
                lease: given_back,
                ..
            } && given_back == lease),
    decreases states.len() - i,
{
    if states[i] is Release {
    } else {
        assert(bootstrap_goes_on(states[i], events[i], states[i + 1]));
        law_claimed_lease_is_released_on_failure(config, states, events, i + 1, lease);
    }
}

/// Where no lease was claimed there is none to release.
pub proof fn law_nothing_is_released_before_the_claim(
    config: Config,
    states: Seq<Bootstrap>,
    events: Seq<BootstrapEvent>,
    j: int,
)
    requires
        bootstrap_run(config, states, events),
        0 <= j < states.len(),
        states[j] is Release,
    ensures
        exists|k: int|
            0 <= k < j && (#[trigger] events[k] matches BootstrapEvent::Claimed(reply)
                && claim_verdict(reply) matches Ok(lease) && Some(lease) == lease_held(states[j])),
{
    lemma_held_was_claimed(config, states, events, j);
}

proof fn lemma_held_was_claimed(
    config: Config,
    states: Seq<Bootstrap>,
    events: Seq<BootstrapEvent>,
    j: int,
)
    requires
        bootstrap_run(config, states, events),
        0 <= j < states.len(),
        lease_held(states[j]) is Some,
    ensures
        exists|k: int|
            0 <= k < j && (#[trigger] events[k] matches BootstrapEvent::Claimed(reply)
                && claim_verdict(reply) matches Ok(lease) && Some(lease) == lease_held(states[j])),
    decreases j,
{
    if j > 0 {
        assert(bootstrap_goes_on(states[j - 1], events[j - 1], states[j - 1 + 1]));
        if lease_held(states[j - 1]) is Some {
            lemma_held_was_claimed(config, states, events, j - 1);
            let k = choose|k: int|
                0 <= k < j - 1 && (#[trigger] events[k] matches BootstrapEvent::Claimed(reply)
                    && claim_verdict(reply) matches Ok(lease) && Some(lease) == lease_held(
                    states[j - 1],
                ));
            assert(events[k] is Claimed);
        } else {
            assert(events[j - 1] is Claimed);
        }
    }
}

/// A start begins with the discovery of the Pod IP, at the host and the port of the control plane's URL,
/// exactly where that is an HTTP or HTTPS URL with a host; else it fails for the URL, at once.
pub proof fn law_start_begins_with_the_discovery(config: Config, r: Bootstrap)
    requires
        bootstrap_starts(config, r),
    ensures
        ({
            let parsed = parsed_url(config.control_plane_url@);
            let accepted = parsed matches Ok(url) && (url.0 == "http"@ || url.0 == "https"@) && url.1
                is Some;
            &&& accepted ==> (r matches Bootstrap::Discover {
                config: same,
                discovery: Discovery::Resolve { host, port },
            } && same == config && Some(host@) == parsed->Ok_0.1 && Some(port) == parsed->Ok_0.2)
            &&& parsed is Ok && !accepted ==> r == Bootstrap::Failed(
                WorkerError::ControlPlaneUrlNotHttp,
            )
            &&& parsed matches Err(words) ==> (r matches Bootstrap::Failed(
                WorkerError::InvalidControlPlaneUrl { reason },
            ) && reason@ == words)
        }),
{
}

/// The discovery leads on to the claim with the address that it ends with, and to the end of the start
/// with the error that it ends with; until then it goes on. The settings stay as they are.
pub proof fn law_discovery_leads_to_the_claim(
    config: Config,
    discovery: Discovery,
    event: DiscoveryEvent,
    r: Bootstrap,
)
    requires
        bootstrap_goes_on(
            Bootstrap::Discover { config, discovery },
            BootstrapEvent::Discovery(event),
            r,
        ),
    ensures
        exists|next: Discovery| #[trigger]
            discovery_goes_on(discovery, event, next) && match next {
                Discovery::Done(Ok(ip)) => r matches Bootstrap::BuildClient {
                    config: same,
                    instance_ip,
                } && same == config && instance_ip == ip,
                Discovery::Done(Err(error)) => r == Bootstrap::Failed(error),
                _ => r matches Bootstrap::Discover { config: same, discovery: going } && same
                    == config && going == next,
            },
{
    let next = choose|next: Discovery| #[trigger]
        discovery_goes_on(discovery, event, next) && r == discovered(config, next);
    assert(discovery_goes_on(discovery, event, next));
}

/// The client that claims a shard is that of the configured control plane, and claims for the address
/// that was discovered; where it cannot be built the start fails for that.
pub proof fn law_shard_is_claimed_for_the_discovered_address(
    config: Config,
    instance_ip: IpAddress,
    built: Result<(), String>,
    r: Bootstrap,
)
    requires
        bootstrap_goes_on(
            Bootstrap::BuildClient { config, instance_ip },
            BootstrapEvent::ClientBuilt(built),
            r,
        ),
    ensures
        match built {
            Ok(_) => r matches Bootstrap::Claim { config: same, instance_ip: ip, control_plane } && same
                == config && ip == instance_ip && control_plane@ == without_trailing_slashes(
                config.control_plane_url@,
            ),
            Err(told) => r matches Bootstrap::Failed(WorkerError::Failed { step, cause }) && step
                == Step::BuildClient && cause == told,
        },
{
}

/// A lease that was granted is never dropped: where its id can name a home directory, the start goes on
/// with that very lease to create the directory below `/codex-home/` that the id names; where it cannot,
/// that very lease is released at the control plane that granted it, and the id reported. Where none was
/// granted, the start fails for that.
pub proof fn law_granted_lease_is_used_or_released(
    config: Config,
    instance_ip: IpAddress,
    control_plane: ControlPlaneClient,
    reply: Reply<Result<Lease, String>>,
    r: Bootstrap,
)
    requires
        bootstrap_goes_on(
            Bootstrap::Claim { config, instance_ip, control_plane },
            BootstrapEvent::Claimed(reply),
            r,
        ),
    ensures
        match claim_verdict(reply) {
            Err(error) => r == Bootstrap::Failed(error),
            Ok(lease) => if valid_home_shard_id(lease.home_shard_id@) {
                r matches Bootstrap::CreateHome { bootstrap } && bootstrap.lease == lease
                    && bootstrap.config == config && bootstrap.instance_ip == instance_ip
                    && bootstrap.control_plane == control_plane && bootstrap.codex_home@
                    == "/codex-home/"@ + lease.home_shard_id@
            } else {
                r matches Bootstrap::Release {
                    control_plane: at,
                    lease: given_back,
                    error: WorkerError::InvalidHomeShardId { quoted },
                } && at == control_plane && given_back == lease && quoted@ == debug_text(
                    lease.home_shard_id@,
                )
            },
        },
{
    if let Ok(lease) = claim_verdict(reply) {
        let root = "/codex-home/"@;
        let home = home_path(lease.home_shard_id@);
        law_home_names_the_whole_shard(lease.home_shard_id@);
        assert(home =~= home.take(root.len() as int) + home.skip(root.len() as int));
    }
}

/// A worker whose home directory was created is ready, with all that it had; one whose directory could
/// not be created gives its lease back at its control plane, and then fails for that directory.
pub proof fn law_created_home_makes_the_worker_ready(
    bootstrap: WorkerBootstrap,
    created: Result<(), String>,
    r: Bootstrap,
)
    requires
        bootstrap_goes_on(
            Bootstrap::CreateHome { bootstrap },
            BootstrapEvent::HomeCreated(created),
            r,
        ),
    ensures
        match created {
            Ok(_) => r matches Bootstrap::Ready(ready) && ready == bootstrap,
            Err(told) => r matches Bootstrap::Release {
                control_plane,
                lease,
                error: WorkerError::Failed { step: Step::CreateHome { path }, cause },
            } && control_plane == bootstrap.control_plane && lease == bootstrap.lease && path
                == bootstrap.codex_home && cause == told,
        },
{
}

/// Once the lease was given back, the start fails for the reason that it was given back for.
pub proof fn law_start_fails_after_the_release(
    control_plane: ControlPlaneClient,
    lease: Lease,
    error: WorkerError,
    r: Bootstrap,
)
    requires
        bootstrap_goes_on(
            Bootstrap::Release { control_plane, lease, error },
            BootstrapEvent::Released,
            r,
        ),
    ensures
        r == Bootstrap::Failed(error),
{
}

/// A start that waits for one thing is not moved by the outcome of another, and one that is over is moved
/// by nothing.
pub proof fn law_start_waits_for_one_thing(s: Bootstrap, event: BootstrapEvent, r: Bootstrap)
    requires
        bootstrap_goes_on(s, event, r),
        s is Discover ==> event !is Discovery,
        s is BuildClient ==> event !is ClientBuilt,
        s is Claim ==> event !is Claimed,
        s is CreateHome ==> event !is HomeCreated,
        s is Release ==> event !is Released,
    ensures
        r == s,
{
}

/// What a ready worker has, told by its parts: a shard id of one to 128 characters, the home directory
/// that this id names below `/codex-home/`, a lease of at least a second, the configured control plane,
/// and an address that is neither loopback nor unspecified.
pub proof fn law_well_formed_worker_is_told_by_its_parts(bootstrap: WorkerBootstrap)
    ensures
        bootstrap.wf() <==> {
            &&& valid_home_shard_id(bootstrap.lease.home_shard_id@)
            &&& bootstrap.codex_home@ == "/codex-home/"@ + bootstrap.lease.home_shard_id@
            &&& bootstrap.lease.lease_ttl_seconds >= 1
            &&& bootstrap.control_plane@ == without_trailing_slashes(
                bootstrap.config.control_plane_url@,
            )
            &&& !bootstrap.instance_ip.loopback()
            &&& !bootstrap.instance_ip.unspecified()
        },
{
    let root = "/codex-home/"@;
    let id = bootstrap.lease.home_shard_id@;
    law_home_names_the_whole_shard(id);
    assert(home_path(id) =~= home_path(id).take(root.len() as int) + home_path(id).skip(
        root.len() as int,
    ));
}

} // verus!
