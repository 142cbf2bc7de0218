//! What can go wrong in the worker, and the words it is reported in.
use vstd::prelude::*;

verus! {

/// A step of the worker that can fail because something outside failed.
#[derive(Debug, PartialEq, Eq)]
pub enum Step {
    /// Building the control-plane HTTP client.
    BuildClient,
    /// Sending the claim.
    Claim,
    /// Accepting the status of the claim's response.
    ClaimStatus,
    /// Reading the lease out of the claim's response.
    ClaimBody,
    /// Sending a heartbeat.
    Renew,
    /// Accepting the status of a heartbeat's response.
    RenewStatus,
    /// Sending the release.
    Release,
    /// Accepting the status of the release's response.
    ReleaseStatus,
    /// Parsing the control-plane URL for the discovery of the Pod IP.
    ParseUrl,
    /// Resolving the control-plane host.
    Resolve,
    /// Opening the discovery socket.
    OpenSocket,
    /// Connecting the discovery socket.
    SelectRoute,
    /// Reading the local address of the discovery socket.
    InspectSocket,
    /// Loading the app-server configuration.
    LoadConfig,
    /// Resolving the paths of the embedded runtime.
    ResolveRuntimePaths,
    /// Initializing the app-server environments.
    InitEnvironments,
    /// Starting the embedded app-server.
    StartAppServer,
    /// Reading a JSON-RPC message out of a text frame.
    ParseMessage,
    /// Handing a message to the embedded app-server.
    SendInput,
    /// Creating the home directory.
    CreateHome { path: String },
    /// Binding the worker's listener.
    Bind { addr: String },
}

/// An error of the worker.
#[derive(Debug, PartialEq, Eq)]
pub enum WorkerError {
    /// A step failed because of what `cause` tells.
    Failed { step: Step, cause: String },
    /// The control-plane URL does not parse.
    InvalidControlPlaneUrl { reason: String },
    /// The control-plane URL is not an HTTP or HTTPS URL with a host.
    ControlPlaneUrlNotHttp,
    /// The control plane handed out a shard id that is no directory name; `quoted` is that id,
    /// quoted and escaped.
    InvalidHomeShardId { quoted: String },
    /// The control plane granted a lease of zero seconds.
    ZeroLeaseTtl,
    /// The control-plane URL has no host.
    NoHost,
    /// The control-plane URL has no port, and its scheme has no known one.
    NoPort,
    /// The control-plane host has no address.
    NoAddresses,
    /// The address that the control plane would see is of no use to it.
    NotRoutable { ip: String },
    /// The lease was fenced or lost.
    LeaseLost,
    /// The lease monitor stopped unasked.
    LeaseMonitorStopped,
    /// The embedded app-server exited.
    AppServerExited { reason: String },
    /// The HTTP server exited, cleanly or with an error.
    HttpServerExited { detail: Option<String> },
    /// A background task panicked or was cancelled.
    BackgroundTaskFailed { error: String },
}

impl Step {
    /// What is reported when the step fails.
    pub open spec fn text(&self) -> Seq<char> {
        match self {
            Step::BuildClient => "failed to build control-plane HTTP client"@,
            Step::Claim => "failed to claim a home shard"@,
            Step::ClaimStatus => "control plane rejected the home-shard claim"@,
            Step::ClaimBody => "control plane returned an invalid home-shard lease"@,
            Step::Renew => "failed to renew home-shard lease"@,
            Step::RenewStatus => "control plane rejected the home-shard heartbeat"@,
            Step::Release => "failed to release home-shard lease"@,
            Step::ReleaseStatus => "control plane rejected the home-shard release"@,
            Step::ParseUrl => "invalid control-plane URL"@,
            Step::Resolve => "failed to resolve control-plane host"@,
            Step::OpenSocket => "failed to create Pod IP discovery socket"@,
            Step::SelectRoute => "failed to select network route to control plane"@,
            Step::InspectSocket => "failed to inspect Pod IP discovery socket"@,
            Step::LoadConfig => "failed to load app-server config"@,
            Step::ResolveRuntimePaths => "failed to resolve embedded app-server runtime paths"@,
            Step::InitEnvironments => "failed to initialize app-server environments"@,
            Step::StartAppServer => "failed to start embedded app-server"@,
            Step::ParseMessage => "invalid JSON-RPC message"@,
            Step::SendInput => "embedded app-server input channel is closed"@,
            Step::CreateHome { path } => "failed to create CODEX_HOME "@ + path@,
            Step::Bind { addr } => "failed to bind worker adapter to "@ + addr@,
        }
    }

    /// Writes what is reported when the step fails.
    pub fn message(&self) -> (r: String)
        ensures
            r@ == self.text(),
    {
        match self {
            Step::BuildClient => "failed to build control-plane HTTP client".to_owned(),
            Step::Claim => "failed to claim a home shard".to_owned(),
            Step::ClaimStatus => "control plane rejected the home-shard claim".to_owned(),
            Step::ClaimBody => "control plane returned an invalid home-shard lease".to_owned(),
            Step::Renew => "failed to renew home-shard lease".to_owned(),
            Step::RenewStatus => "control plane rejected the home-shard heartbeat".to_owned(),
            Step::Release => "failed to release home-shard lease".to_owned(),
            Step::ReleaseStatus => "control plane rejected the home-shard release".to_owned(),
            Step::ParseUrl => "invalid control-plane URL".to_owned(),
            Step::Resolve => "failed to resolve control-plane host".to_owned(),
            Step::OpenSocket => "failed to create Pod IP discovery socket".to_owned(),
            Step::SelectRoute => "failed to select network route to control plane".to_owned(),
            Step::InspectSocket => "failed to inspect Pod IP discovery socket".to_owned(),
            Step::LoadConfig => "failed to load app-server config".to_owned(),
            Step::ResolveRuntimePaths => "failed to resolve embedded app-server runtime paths".to_owned(),
            Step::InitEnvironments => "failed to initialize app-server environments".to_owned(),
            Step::StartAppServer => "failed to start embedded app-server".to_owned(),
            Step::ParseMessage => "invalid JSON-RPC message".to_owned(),
            Step::SendInput => "embedded app-server input channel is closed".to_owned(),
            Step::CreateHome { path } => "failed to create CODEX_HOME ".to_owned().concat(
                path.as_str(),
            ),
            Step::Bind { addr } => "failed to bind worker adapter to ".to_owned().concat(
                addr.as_str(),
            ),
        }
    }
}

impl WorkerError {
    /// The one-line report of the error.
    pub open spec fn text(&self) -> Seq<char> {
        match self {
            WorkerError::Failed { step, .. } => step.text(),
            WorkerError::InvalidControlPlaneUrl { reason } => "invalid CONTROL_PLANE_URL: "@
                + reason@,
            WorkerError::ControlPlaneUrlNotHttp =>
                "CONTROL_PLANE_URL must be an absolute HTTP(S) URL"@,
            WorkerError::InvalidHomeShardId { quoted } =>
                "control plane returned invalid homeShardId "@ + quoted@,
            WorkerError::ZeroLeaseTtl => "control plane returned a zero-second lease TTL"@,
            WorkerError::NoHost => "control-plane URL has no host"@,
            WorkerError::NoPort => "control-plane URL has no known port"@,
            WorkerError::NoAddresses => "control-plane host resolved to no addresses"@,
            WorkerError::NotRoutable { ip } => "resolved Pod IP "@ + ip@ + " is not routable"@,
            WorkerError::LeaseLost => "home-shard lease was fenced or lost"@,
            WorkerError::LeaseMonitorStopped => "home-shard lease monitor stopped"@,
            WorkerError::AppServerExited { reason } => reason@,
            WorkerError::HttpServerExited { detail } => "worker HTTP server exited: "@ + (
            match detail {
                Some(detail) => detail@,
                None => "clean exit"@,
            }),
            WorkerError::BackgroundTaskFailed { error } => "background task failed: "@ + error@,
        }
    }

    /// What made a step fail, where a step failed.
    pub open spec fn cause_text(&self) -> Option<Seq<char>> {
        match self {
            WorkerError::Failed { cause, .. } => Some(cause@),
            _ => None,
        }
    }

    /// Writes the one-line report of the error.
    pub fn message(&self) -> (r: String)
        ensures
            r@ == self.text(),
    {
        match self {
            WorkerError::Failed { step, .. } => step.message(),
            WorkerError::InvalidControlPlaneUrl { reason } =>
                "invalid CONTROL_PLANE_URL: ".to_owned().concat(reason.as_str()),
            WorkerError::ControlPlaneUrlNotHttp =>
                "CONTROL_PLANE_URL must be an absolute HTTP(S) URL".to_owned(),
            WorkerError::InvalidHomeShardId { quoted } =>
                "control plane returned invalid homeShardId ".to_owned().concat(quoted.as_str()),
            WorkerError::ZeroLeaseTtl =>
                "control plane returned a zero-second lease TTL".to_owned(),
            WorkerError::NoHost => "control-plane URL has no host".to_owned(),
            WorkerError::NoPort => "control-plane URL has no known port".to_owned(),
            WorkerError::NoAddresses => "control-plane host resolved to no addresses".to_owned(),
            WorkerError::NotRoutable { ip } =>
                "resolved Pod IP ".to_owned().concat(ip.as_str()).concat(" is not routable"),
            WorkerError::LeaseLost => "home-shard lease was fenced or lost".to_owned(),
            WorkerError::LeaseMonitorStopped => "home-shard lease monitor stopped".to_owned(),
            WorkerError::AppServerExited { reason } => reason.clone(),
            WorkerError::HttpServerExited { detail } => {
                let told: String = match detail {
                    Some(detail) => detail.clone(),
                    None => "clean exit".to_owned(),
                };
                "worker HTTP server exited: ".to_owned().concat(told.as_str())
            },
            WorkerError::BackgroundTaskFailed { error } =>
                "background task failed: ".to_owned().concat(error.as_str()),
        }
    }

    /// Hands out what made a step fail, where a step failed.
    pub fn cause(&self) -> (r: Option<String>)
        ensures
            match r {
                Some(cause) => self.cause_text() == Some(cause@),
                None => self.cause_text() is None,
            },
    {
        match self {
            WorkerError::Failed { cause, .. } => Some(cause.clone()),
            _ => None,
        }
    }
}

/// What a failed step is about, a path or an address, ends its report, whole and unchanged, behind
/// words that do not depend on it.
pub proof fn law_step_names_what_it_is_about(about: String)
    ensures
        ({
            let text = (Step::CreateHome { path: about }).text();
            &&& "failed to create CODEX_HOME "@.is_prefix_of(text)
            &&& text.skip("failed to create CODEX_HOME "@.len() as int) == about@
        }),
        ({
            let text = (Step::Bind { addr: about }).text();
            &&& "failed to bind worker adapter to "@.is_prefix_of(text)
            &&& text.skip("failed to bind worker adapter to "@.len() as int) == about@
        }),
{
    let create = "failed to create CODEX_HOME "@;
    let bind = "failed to bind worker adapter to "@;
    assert((create + about@).skip(create.len() as int) =~= about@);
    assert((bind + about@).skip(bind.len() as int) =~= about@);
}

/// A failed step is reported in the words of the step alone, whatever its cause; the cause is kept
/// whole beside them. No other error has a cause.
pub proof fn law_cause_is_kept_beside_the_report(step: Step, cause: String, other: WorkerError)
    ensures
        (WorkerError::Failed { step, cause }).text() == step.text(),
        (WorkerError::Failed { step, cause }).cause_text() == Some(cause@),
        other !is Failed ==> other.cause_text() is None,
{
}

/// What an error tells of the world outside stands in its report whole and unchanged, between words
/// that do not depend on it.
pub proof fn law_error_tells_what_it_was_told(told: String)
    ensures
        (WorkerError::AppServerExited { reason: told }).text() == told@,
        ({
            let text = (WorkerError::InvalidControlPlaneUrl { reason: told }).text();
            &&& "invalid CONTROL_PLANE_URL: "@.is_prefix_of(text)
            &&& text.skip("invalid CONTROL_PLANE_URL: "@.len() as int) == told@
        }),
        ({
            let text = (WorkerError::InvalidHomeShardId { quoted: told }).text();
            &&& "control plane returned invalid homeShardId "@.is_prefix_of(text)
            &&& text.skip("control plane returned invalid homeShardId "@.len() as int) == told@
        }),
        ({
            let text = (WorkerError::HttpServerExited { detail: Some(told) }).text();
            &&& "worker HTTP server exited: "@.is_prefix_of(text)
            &&& text.skip("worker HTTP server exited: "@.len() as int) == told@
        }),
        ({
            let text = (WorkerError::BackgroundTaskFailed { error: told }).text();
            &&& "background task failed: "@.is_prefix_of(text)
            &&& text.skip("background task failed: "@.len() as int) == told@
        }),
        ({
            let text = (WorkerError::NotRoutable { ip: told }).text();
            let before = "resolved Pod IP "@.len() as int;
            &&& "resolved Pod IP "@.is_prefix_of(text)
            &&& text.subrange(before, before + told@.len()) == told@
            &&& text.skip(before + told@.len()) == " is not routable"@
        }),
{
    let url = "invalid CONTROL_PLANE_URL: "@;
    let id = "control plane returned invalid homeShardId "@;
    let http = "worker HTTP server exited: "@;
    let task = "background task failed: "@;
    let ip = "resolved Pod IP "@;
    let end = " is not routable"@;
    assert((url + told@).skip(url.len() as int) =~= told@);
    assert((id + told@).skip(id.len() as int) =~= told@);
    assert((http + told@).skip(http.len() as int) =~= told@);
    assert((task + told@).skip(task.len() as int) =~= told@);
    let text = ip + told@ + end;
    let before = ip.len() as int;
    assert(text.subrange(before, before + told@.len()) =~= told@);
    assert(text.skip(before + told@.len()) =~= end);
}

/// The errors that tell nothing of the world outside are reported in fixed words.
pub proof fn law_other_errors_have_fixed_words()
    ensures
        WorkerError::ControlPlaneUrlNotHttp.text()
            == "CONTROL_PLANE_URL must be an absolute HTTP(S) URL"@,
        WorkerError::ZeroLeaseTtl.text() == "control plane returned a zero-second lease TTL"@,
        WorkerError::NoHost.text() == "control-plane URL has no host"@,
        WorkerError::NoPort.text() == "control-plane URL has no known port"@,
        WorkerError::NoAddresses.text() == "control-plane host resolved to no addresses"@,
        WorkerError::LeaseLost.text() == "home-shard lease was fenced or lost"@,
        WorkerError::LeaseMonitorStopped.text() == "home-shard lease monitor stopped"@,
        (WorkerError::HttpServerExited { detail: None }).text()
            == "worker HTTP server exited: "@ + "clean exit"@,
{
}

} // verus!
