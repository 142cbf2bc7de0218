//! The embedded app-server: how it is started, what its loop does, and how it ends.
use crate::error::{Step, WorkerError};
use crate::rpc::{
    message_handled, names_differ, object_members, text_members, text_object, ClientAction,
    ClientMessage, ClientRequest, ConfigWarning, Outgoing,
};
use crate::text::{all_digits, decimal, decimal_text, law_decimal_reads_back, number};
use vstd::prelude::*;

verus! {

/// How many messages may wait for the app-server.
pub const INPUT_CAPACITY: usize = 256;

/// How many messages may wait for the platform.
pub const OUTPUT_CAPACITY: usize = 1024;

/// The settings of an app-server that a worker starts.
#[derive(Debug, PartialEq, Eq)]
pub struct StartSettings {
    /// The home directory that the app-server works on.
    pub codex_home: String,
    pub session_source: String,
    pub client_name: String,
    pub client_version: String,
    pub strict_config: bool,
    pub enable_codex_api_key_env: bool,
    pub experimental_api: bool,
    pub mcp_server_openai_form_elicitation: bool,
    /// The warnings that the app-server itself is to send.
    pub config_warnings: Vec<ConfigWarning>,
    /// The notifications that the app-server is not to send.
    pub opt_out_notification_methods: Vec<String>,
}

/// Where the start of the app-server is: what is to be done next, or what the start came to.
#[derive(Debug, PartialEq, Eq)]
pub enum Spawn {
    /// Create the home directory.
    CreateHome { settings: StartSettings },
    /// Load the configuration from the home directory.
    LoadConfig { settings: StartSettings },
    /// Open the state database, which cannot fail.
    OpenStateDb { settings: StartSettings },
    /// Resolve the paths of the embedded runtime.
    ResolveRuntimePaths { settings: StartSettings },
    /// Set up the environments of the home directory.
    InitEnvironments { settings: StartSettings },
    /// Start the app-server with the settings, on the configuration that was loaded.
    StartClient { settings: StartSettings },
    /// The app-server runs.
    Running,
    /// The start failed.
    Failed(WorkerError),
}

/// Where the loop of the embedded app-server is.
#[derive(Debug, PartialEq, Eq)]
pub enum EmbeddedPhase {
    /// It passes messages on.
    Running,
    /// The app-server is being shut down, for `reason`.
    Stopping { reason: String },
    /// It is over.
    Stopped,
}

/// What the loop of the embedded app-server learns.
#[derive(Debug, PartialEq, Eq)]
pub enum EmbeddedEvent<M, N, Q> {
    /// The stop signal changed.
    StopSignal,
    /// A message of the platform came, or none can come any more.
    Input(Option<M>),
    /// The app-server notifies.
    ServerNotification(N),
    /// The app-server asks.
    ServerRequest(Q),
    /// Events of the app-server were lost.
    Lagged { skipped: u64 },
    /// No event of the app-server can come any more.
    Ended,
    /// The app-server was shut down, or that failed.
    ShutDown(Result<(), String>),
}

/// What the loop of the embedded app-server does.
#[derive(Debug, PartialEq, Eq)]
pub enum EmbeddedAction<M, N, Q> {
    /// Wait for what comes next.
    Wait,
    /// Handle a message of the platform.
    Handle(M),
    /// Send a notification to the platform.
    SendNotification(N),
    /// Send a request to the platform.
    SendRequest(Q),
    /// Shut the app-server down.
    ShutDown,
    /// Report why the app-server exited, and end.
    Report { reason: String },
}

/// The report on lost events.
pub open spec fn lagged_text(skipped: u64) -> Seq<char> {
    "embedded app-server event stream lost "@ + decimal(skipped as nat) + " event(s)"@
}

/// Whether the loop goes on to shut the app-server down for the reason `text`.
pub open spec fn stops_for<M, N, Q>(
    next: EmbeddedPhase,
    action: EmbeddedAction<M, N, Q>,
    text: Seq<char>,
) -> bool {
    &&& next matches EmbeddedPhase::Stopping { reason } && reason@ == text
    &&& action is ShutDown
}

/// What the loop does on an event. An event that it does not wait for does nothing. Whether shutting
/// the app-server down failed makes no difference.
pub open spec fn embedded_goes_on<M, N, Q>(
    phase: EmbeddedPhase,
    event: EmbeddedEvent<M, N, Q>,
    next: EmbeddedPhase,
    action: EmbeddedAction<M, N, Q>,
) -> bool {
    match (phase, event) {
        (EmbeddedPhase::Running, EmbeddedEvent::StopSignal) => stops_for(
            next,
            action,
            "embedded app-server stopped"@,
        ),
        (EmbeddedPhase::Running, EmbeddedEvent::Input(Some(message))) => {
            &&& next == phase
            &&& action == EmbeddedAction::<M, N, Q>::Handle(message)
        },
        (EmbeddedPhase::Running, EmbeddedEvent::Input(None)) => stops_for(
            next,
            action,
            "embedded app-server input channel closed"@,
        ),
        (EmbeddedPhase::Running, EmbeddedEvent::ServerNotification(notification)) => {
            &&& next == phase
            &&& action == EmbeddedAction::<M, N, Q>::SendNotification(notification)
        },
        (EmbeddedPhase::Running, EmbeddedEvent::ServerRequest(request)) => {
            &&& next == phase
            &&& action == EmbeddedAction::<M, N, Q>::SendRequest(request)
        },
        (EmbeddedPhase::Running, EmbeddedEvent::Lagged { skipped }) => stops_for(
            next,
            action,
            lagged_text(skipped),
        ),
        (EmbeddedPhase::Running, EmbeddedEvent::Ended) => stops_for(
            next,
            action,
            "embedded app-server exited"@,
        ),
        (EmbeddedPhase::Stopping { reason }, EmbeddedEvent::ShutDown(_)) => {
            &&& next == EmbeddedPhase::Stopped
            &&& action == EmbeddedAction::<M, N, Q>::Report { reason }
        },
        _ => next == phase && action is Wait,
    }
}

/// What the start does next.
pub open spec fn spawn_step(s: Spawn, outcome: Result<(), String>) -> Spawn {
    match (s, outcome) {
        (Spawn::CreateHome { settings }, Ok(_)) => Spawn::LoadConfig { settings },
        (Spawn::CreateHome { settings }, Err(cause)) => Spawn::Failed(
            WorkerError::Failed { step: Step::CreateHome { path: settings.codex_home }, cause },
        ),
        (Spawn::LoadConfig { settings }, Ok(_)) => Spawn::OpenStateDb { settings },
        (Spawn::LoadConfig { .. }, Err(cause)) => Spawn::Failed(
            WorkerError::Failed { step: Step::LoadConfig, cause },
        ),
        (Spawn::OpenStateDb { settings }, _) => Spawn::ResolveRuntimePaths { settings },
        (Spawn::ResolveRuntimePaths { settings }, Ok(_)) => Spawn::InitEnvironments { settings },
        (Spawn::ResolveRuntimePaths { .. }, Err(cause)) => Spawn::Failed(
            WorkerError::Failed { step: Step::ResolveRuntimePaths, cause },
        ),
        (Spawn::InitEnvironments { settings }, Ok(_)) => Spawn::StartClient { settings },
        (Spawn::InitEnvironments { .. }, Err(cause)) => Spawn::Failed(
            WorkerError::Failed { step: Step::InitEnvironments, cause },
        ),
        (Spawn::StartClient { .. }, Ok(_)) => Spawn::Running,
        (Spawn::StartClient { .. }, Err(cause)) => Spawn::Failed(
            WorkerError::Failed { step: Step::StartAppServer, cause },
        ),
        (Spawn::Running, _) => s,
        (Spawn::Failed(_), _) => s,
    }
}

fn proceed(outcome: Result<(), String>, next: Spawn, step: Step) -> (r: Spawn)
    ensures
        r == match outcome {
            Ok(_) => next,
            Err(cause) => Spawn::Failed(WorkerError::Failed { step, cause }),
        },
{
    match outcome {
        Ok(_) => next,
        Err(cause) => Spawn::Failed(WorkerError::Failed { step, cause }),
    }
}

impl Spawn {
    /// Takes in what came of what was to be done.
    pub fn step(self, outcome: Result<(), String>) -> (r: Self)
        ensures
            r == spawn_step(self, outcome),
    {
        match self {
            Spawn::CreateHome { settings } => {
                let path: String = settings.codex_home.clone();
                proceed(outcome, Spawn::LoadConfig { settings }, Step::CreateHome { path })
            },
            Spawn::LoadConfig { settings } => proceed(
                outcome,
                Spawn::OpenStateDb { settings },
                Step::LoadConfig,
            ),
            Spawn::OpenStateDb { settings } => Spawn::ResolveRuntimePaths { settings },
            Spawn::ResolveRuntimePaths { settings } => proceed(
                outcome,
                Spawn::InitEnvironments { settings },
                Step::ResolveRuntimePaths,
            ),
            Spawn::InitEnvironments { settings } => proceed(
                outcome,
                Spawn::StartClient { settings },
                Step::InitEnvironments,
            ),
            Spawn::StartClient { .. } => proceed(outcome, Spawn::Running, Step::StartAppServer),
            Spawn::Running => Spawn::Running,
            Spawn::Failed(error) => Spawn::Failed(error),
        }
    }
}

/// The settings of a worker of a version for an app-server on a home directory. The app-server sends
/// no warnings about its configuration: the worker does.
pub open spec fn worker_settings(
    settings: StartSettings,
    codex_home: String,
    client_version: String,
) -> bool {
    &&& settings.codex_home == codex_home
    &&& settings.session_source@ == "worker-adapter"@
    &&& settings.client_name@ == "codex_worker_adapter"@
    &&& settings.client_version == client_version
    &&& !settings.strict_config
    &&& !settings.enable_codex_api_key_env
    &&& settings.experimental_api
    &&& !settings.mcp_server_openai_form_elicitation
    &&& settings.config_warnings@.len() == 0
    &&& settings.opt_out_notification_methods@.len() == 0
}

/// Begins to start the app-server on a home directory, by a worker of the given version.
pub fn spawn(codex_home: String, client_version: String) -> (r: Spawn)
    ensures
        r matches Spawn::CreateHome { settings } && worker_settings(
            settings,
            codex_home,
            client_version,
        ),
{
    Spawn::CreateHome { settings: start_settings(codex_home, client_version) }
}

/// What the app-server is started with, on a home directory and by a worker of the given version.
pub fn start_settings(codex_home: String, client_version: String) -> (r: StartSettings)
    ensures
        worker_settings(r, codex_home, client_version),
{
    StartSettings {
        codex_home,
        session_source: "worker-adapter".to_owned(),
        client_name: "codex_worker_adapter".to_owned(),
        client_version,
        strict_config: false,
        enable_codex_api_key_env: false,
        experimental_api: true,
        mcp_server_openai_form_elicitation: false,
        config_warnings: Vec::new(),
        opt_out_notification_methods: Vec::new(),
    }
}

/// One warning for each of the summaries, in their order.
pub open spec fn warnings_of(summaries: Seq<String>) -> Seq<ConfigWarning> {
    summaries.map_values(|summary: String| ConfigWarning { summary })
}

/// The warnings that the platform gets to see, one for each warning of the configuration.
pub fn config_warnings(startup_warnings: &Vec<String>) -> (r: Vec<ConfigWarning>)
    ensures
        r@ == warnings_of(startup_warnings@),
{
    let mut warnings: Vec<ConfigWarning> = Vec::new();
    let mut i: usize = 0;
    while i < startup_warnings.len()
        invariant
            i <= startup_warnings@.len(),
            warnings@ == warnings_of(startup_warnings@.take(i as int)),
        decreases startup_warnings@.len() - i,
    {
        warnings.push(ConfigWarning { summary: startup_warnings[i].clone() });
        proof {
            assert(warnings@ =~= warnings_of(startup_warnings@.take(i + 1)));
        }
        i = i + 1;
    }
    proof {
        assert(startup_warnings@.take(i as int) =~= startup_warnings@);
    }
    warnings
}

/// What the JSON object holds that answers a request to initialize.
pub open spec fn initialize_object(
    user_agent: Seq<char>,
    codex_home: Seq<char>,
    platform_family: Seq<char>,
    platform_os: Seq<char>,
) -> Map<Seq<char>, Option<Seq<char>>> {
    map![
        "userAgent"@ => Some(user_agent),
        "codexHome"@ => Some(codex_home),
        "platformFamily"@ => Some(platform_family),
        "platformOs"@ => Some(platform_os),
    ]
}

/// The JSON object that answers a request to initialize.
pub fn initialize_result(
    user_agent: String,
    codex_home: String,
    platform_family: String,
    platform_os: String,
) -> (r: serde_json::Value)
    ensures
        object_members(r) == Some(
            initialize_object(user_agent@, codex_home@, platform_family@, platform_os@),
        ),
{
    let mut members: Vec<(String, String)> = Vec::new();
    members.push(("userAgent".to_owned(), user_agent));
    members.push(("codexHome".to_owned(), codex_home));
    members.push(("platformFamily".to_owned(), platform_family));
    members.push(("platformOs".to_owned(), platform_os));
    proof {
        reveal_strlit("userAgent");
        reveal_strlit("codexHome");
        reveal_strlit("platformFamily");
        reveal_strlit("platformOs");
        assert("userAgent"@[0] != "codexHome"@[0]);
        assert("userAgent"@ != "codexHome"@);
        assert("platformFamily"@.len() == 14 && "platformOs"@.len() == 10);
        assert(names_differ(members@));
        lemma_four_members(members@);
    }
    text_object(members)
}

proof fn lemma_four_members(members: Seq<(String, String)>)
    requires
        members.len() == 4,
    ensures
        text_members(members) == map![
            members[0].0@ => Some(members[0].1@),
            members[1].0@ => Some(members[1].1@),
            members[2].0@ => Some(members[2].1@),
            members[3].0@ => Some(members[3].1@),
        ],
{
    reveal_with_fuel(text_members, 5);
    assert(members.drop_last().drop_last().drop_last().drop_last().len() == 0);
}

fn stop<M, N, Q>(reason: String) -> (r: (EmbeddedPhase, EmbeddedAction<M, N, Q>))
    ensures
        stops_for(r.0, r.1, reason@),
{
    (EmbeddedPhase::Stopping { reason }, EmbeddedAction::ShutDown)
}

/// Decides what the loop of the embedded app-server does on an event.
pub fn run_embedded_app_server<M, N, Q>(phase: EmbeddedPhase, event: EmbeddedEvent<M, N, Q>) -> (r: (
    EmbeddedPhase,
    EmbeddedAction<M, N, Q>,
))
    ensures
        embedded_goes_on(phase, event, r.0, r.1),
{
    match phase {
        EmbeddedPhase::Running => match event {
            EmbeddedEvent::StopSignal => stop("embedded app-server stopped".to_owned()),
            EmbeddedEvent::Input(Some(message)) => (
                EmbeddedPhase::Running,
                EmbeddedAction::Handle(message),
            ),
            EmbeddedEvent::Input(None) => stop(
                "embedded app-server input channel closed".to_owned(),
            ),
            EmbeddedEvent::ServerNotification(notification) => (
                EmbeddedPhase::Running,
                EmbeddedAction::SendNotification(notification),
            ),
            EmbeddedEvent::ServerRequest(request) => (
                EmbeddedPhase::Running,
                EmbeddedAction::SendRequest(request),
            ),
            EmbeddedEvent::Lagged { skipped } => stop(
                "embedded app-server event stream lost ".to_owned().concat(
                    decimal_text(skipped).as_str(),
                ).concat(" event(s)"),
            ),
            EmbeddedEvent::Ended => stop("embedded app-server exited".to_owned()),
            EmbeddedEvent::ShutDown(_) => (EmbeddedPhase::Running, EmbeddedAction::Wait),
        },
        EmbeddedPhase::Stopping { reason } => match event {
            EmbeddedEvent::ShutDown(_) => (
                EmbeddedPhase::Stopped,
                EmbeddedAction::Report { reason },
            ),
            _ => (EmbeddedPhase::Stopping { reason }, EmbeddedAction::Wait),
        },
        EmbeddedPhase::Stopped => (EmbeddedPhase::Stopped, EmbeddedAction::Wait),
    }
}

/// Why the app-server exited, where that is known: from the reason it reported, or from the fact
/// that it can report none any more. Else the wait goes on.
pub fn wait_for_exit(reported: Option<String>, closed: bool) -> (r: Option<String>)
    ensures
        match (reported, closed) {
            (Some(reason), _) => r == Some(reason),
            (None, true) => r matches Some(reason) && reason@
                == "embedded app-server stopped without an exit status"@,
            (None, false) => r is None,
        },
{
    match reported {
        Some(reason) => Some(reason),
        None => {
            if closed {
                Some("embedded app-server stopped without an exit status".to_owned())
            } else {
                None
            }
        },
    }
}

/// Reads what came of handing the app-server a text frame: of reading a message out of it, and,
/// where there is one, of passing that on.
pub fn send_result(read: Result<(), String>, passed_on: Result<(), String>) -> (r: Result<
    (),
    WorkerError,
>)
    ensures
        r == match (read, passed_on) {
            (Err(cause), _) => Err::<(), WorkerError>(
                WorkerError::Failed { step: Step::ParseMessage, cause },
            ),
            (Ok(_), Err(cause)) => Err(WorkerError::Failed { step: Step::SendInput, cause }),
            (Ok(_), Ok(_)) => Ok(()),
        },
{
    match read {
        Err(cause) => Err(WorkerError::Failed { step: Step::ParseMessage, cause }),
        Ok(_) => match passed_on {
            Err(cause) => Err(WorkerError::Failed { step: Step::SendInput, cause }),
            Ok(_) => Ok(()),
        },
    }
}

/// Where the start is after a row of outcomes.
pub open spec fn spawn_after(s: Spawn, outcomes: Seq<Result<(), String>>) -> Spawn
    decreases outcomes.len(),
{
    if outcomes.len() == 0 {
        s
    } else {
        spawn_step(spawn_after(s, outcomes.drop_last()), outcomes.last())
    }
}

/// Where a start is in which `n` steps have succeeded.
pub open spec fn spawn_at(settings: StartSettings, n: nat) -> Spawn {
    if n == 0 {
        Spawn::CreateHome { settings }
    } else if n == 1 {
        Spawn::LoadConfig { settings }
    } else if n == 2 {
        Spawn::OpenStateDb { settings }
    } else if n == 3 {
        Spawn::ResolveRuntimePaths { settings }
    } else if n == 4 {
        Spawn::InitEnvironments { settings }
    } else if n == 5 {
        Spawn::StartClient { settings }
    } else {
        Spawn::Running
    }
}

/// Whether the outcome `i` fails a start: that of any of its six steps but the third, the opening of
/// the state database.
pub open spec fn fails_spawn(outcomes: Seq<Result<(), String>>, i: int) -> bool {
    0 <= i < outcomes.len() && i < 6 && i != 2 && outcomes[i] is Err
}

proof fn lemma_spawn_after(settings: StartSettings, outcomes: Seq<Result<(), String>>)
    ensures
        if exists|i: int| #[trigger] fails_spawn(outcomes, i) {
            spawn_after(Spawn::CreateHome { settings }, outcomes) is Failed
        } else {
            spawn_after(Spawn::CreateHome { settings }, outcomes) == spawn_at(settings, outcomes.len())
        },
    decreases outcomes.len(),
{
    if outcomes.len() == 0 {
        assert(!exists|i: int| #[trigger] fails_spawn(outcomes, i));
    } else {
        let before = outcomes.drop_last();
        let last = outcomes.len() - 1;
        lemma_spawn_after(settings, before);
        if exists|i: int| #[trigger] fails_spawn(before, i) {
            let i = choose|i: int| #[trigger] fails_spawn(before, i);
            assert(fails_spawn(outcomes, i));
        } else {
            if fails_spawn(outcomes, last) {
            } else {
                assert forall|i: int| !#[trigger] fails_spawn(outcomes, i) by {
                    assert(!fails_spawn(before, i));
                }
            }
        }
    }
}

/// The start goes through its steps in their order, all of them with the settings that it began with,
/// until one fails: the app-server is started once, by the last of them, and runs exactly once every
/// step has succeeded. A step that fails is the last.
pub proof fn law_app_server_runs_once_every_step_succeeded(
    settings: StartSettings,
    outcomes: Seq<Result<(), String>>,
)
    ensures
        ({
            let s = spawn_after(Spawn::CreateHome { settings }, outcomes);
            &&& s is Failed <==> exists|i: int| #[trigger] fails_spawn(outcomes, i)
            &&& s !is Failed ==> s == spawn_at(settings, outcomes.len())
            &&& s == Spawn::Running <==> outcomes.len() >= 6 && !exists|i: int| #[trigger]
                fails_spawn(outcomes, i)
        }),
{
    lemma_spawn_after(settings, outcomes);
}

/// After the start, a valid request to initialize is answered by one response under its id, which
/// holds exactly the four members, and then by one warning for each warning of the configuration, in
/// their order.
pub proof fn law_initialize_is_answered_in_full<R, N>(
    members: (Seq<char>, Seq<char>, Seq<char>, Seq<char>),
    initialize_result: serde_json::Value,
    startup_warnings: Seq<String>,
    request: ClientRequest<R>,
    actions: Seq<ClientAction<R, N>>,
)
    requires
        object_members(initialize_result) == Some(
            initialize_object(members.0, members.1, members.2, members.3),
        ),
        request.method@ == "initialize"@,
        request.typed matches Ok(typed) && typed.is_initialize,
        message_handled(
            ClientMessage::Request(request),
            initialize_result,
            warnings_of(startup_warnings),
            actions,
        ),
    ensures
        actions.len() == startup_warnings.len() + 1,
        actions[0] matches ClientAction::Send(Outgoing::Response(response)) && response.id
            == request.id && object_members(response.result) == Some(
            initialize_object(members.0, members.1, members.2, members.3),
        ),
        forall|i: int|
            0 <= i < startup_warnings.len() ==> #[trigger] actions[i + 1] == ClientAction::<
                R,
                N,
            >::Send(Outgoing::ConfigWarning(ConfigWarning { summary: startup_warnings[i] })),
{
}

/// The loop of the embedded app-server: the phases it passes through on `events`, and what it does on
/// each.
pub open spec fn embedded_run<M, N, Q>(
    phases: Seq<EmbeddedPhase>,
    events: Seq<EmbeddedEvent<M, N, Q>>,
    actions: Seq<EmbeddedAction<M, N, Q>>,
) -> bool {
    &&& phases.len() == events.len() + 1
    &&& actions.len() == events.len()
    &&& phases[0] == EmbeddedPhase::Running
    &&& forall|i: int|
        0 <= i < events.len() ==> #[trigger] embedded_goes_on(
            phases[i],
            events[i],
            phases[i + 1],
            actions[i],
        )
}

/// How far the loop has come in a phase.
spec fn progress(phase: EmbeddedPhase) -> int {
    match phase {
        EmbeddedPhase::Running => 0,
        EmbeddedPhase::Stopping { .. } => 1,
        EmbeddedPhase::Stopped => 2,
    }
}

proof fn lemma_no_way_back<M, N, Q>(
    phases: Seq<EmbeddedPhase>,
    events: Seq<EmbeddedEvent<M, N, Q>>,
    actions: Seq<EmbeddedAction<M, N, Q>>,
    i: int,
    j: int,
)
    requires
        embedded_run(phases, events, actions),
        0 <= i <= j < phases.len(),
    ensures
        progress(phases[i]) <= progress(phases[j]),
        progress(phases[i]) == progress(phases[j]) ==> phases[i] == phases[j],
    decreases j,
{
    if i < j {
        lemma_no_way_back(phases, events, actions, i, j - 1);
        assert(embedded_goes_on(phases[j - 1], events[j - 1], phases[j - 1 + 1], actions[j - 1]));
    }
}

proof fn lemma_shut_down_before<M, N, Q>(
    phases: Seq<EmbeddedPhase>,
    events: Seq<EmbeddedEvent<M, N, Q>>,
    actions: Seq<EmbeddedAction<M, N, Q>>,
    j: int,
) -> (k: int)
    requires
        embedded_run(phases, events, actions),
        0 <= j < phases.len(),
        phases[j] is Stopping,
    ensures
        0 <= k < j,
        actions[k] is ShutDown,
        phases[k + 1] == phases[j],
    decreases j,
{
    assert(embedded_goes_on(phases[j - 1], events[j - 1], phases[j - 1 + 1], actions[j - 1]));
    if phases[j - 1] is Stopping {
        lemma_shut_down_before(phases, events, actions, j - 1)
    } else {
        j - 1
    }
}

/// The app-server is shut down at most once, and after that no message is handled or sent any more;
/// its exit is reported at most once, after that shutdown has ended, whatever it came to, and for the
/// reason that it was shut down for; and the report is the last that is done.
pub proof fn law_exit_is_reported_once_and_after_the_shutdown<M, N, Q>(
    phases: Seq<EmbeddedPhase>,
    events: Seq<EmbeddedEvent<M, N, Q>>,
    actions: Seq<EmbeddedAction<M, N, Q>>,
    i: int,
    j: int,
)
    requires
        embedded_run(phases, events, actions),
        0 <= i < actions.len(),
        0 <= j < actions.len(),
    ensures
        actions[i] is ShutDown && i < j ==> actions[j] is Wait || actions[j] is Report,
        actions[i] is Report && i < j ==> actions[j] is Wait,
        actions[j] matches EmbeddedAction::Report { reason } ==> exists|k: int|
            0 <= k < j && #[trigger] actions[k] is ShutDown && phases[k + 1] == (
            EmbeddedPhase::Stopping { reason }),
        actions[j] is Report <==> phases[j] is Stopping && events[j] is ShutDown,
{
    assert(embedded_goes_on(phases[i], events[i], phases[i + 1], actions[i]));
    assert(embedded_goes_on(phases[j], events[j], phases[j + 1], actions[j]));
    if i < j {
        lemma_no_way_back(phases, events, actions, i + 1, j);
    }
    if actions[j] is Report {
        let k = lemma_shut_down_before(phases, events, actions, j);
        assert(actions[k] is ShutDown);
    }
}

/// A message of the app-server.
pub enum ServerMessage<N, Q> {
    Notification(N),
    Request(Q),
}

/// The messages that the app-server sent while the loop ran.
pub open spec fn server_messages<M, N, Q>(
    phases: Seq<EmbeddedPhase>,
    events: Seq<EmbeddedEvent<M, N, Q>>,
) -> Seq<ServerMessage<N, Q>>
    decreases events.len(),
{
    if events.len() == 0 {
        Seq::empty()
    } else {
        let before = server_messages(phases, events.drop_last());
        match (phases[events.len() - 1], events.last()) {
            (EmbeddedPhase::Running, EmbeddedEvent::ServerNotification(notification)) =>
                before.push(ServerMessage::Notification(notification)),
            (EmbeddedPhase::Running, EmbeddedEvent::ServerRequest(request)) => before.push(
                ServerMessage::Request(request),
            ),
            _ => before,
        }
    }
}

/// The messages that the loop sent to the platform.
pub open spec fn messages_sent<M, N, Q>(actions: Seq<EmbeddedAction<M, N, Q>>) -> Seq<
    ServerMessage<N, Q>,
>
    decreases actions.len(),
{
    if actions.len() == 0 {
        Seq::empty()
    } else {
        let before = messages_sent(actions.drop_last());
        match actions.last() {
            EmbeddedAction::SendNotification(notification) => before.push(
                ServerMessage::Notification(notification),
            ),
            EmbeddedAction::SendRequest(request) => before.push(ServerMessage::Request(request)),
            _ => before,
        }
    }
}

/// The messages that the platform sent while the loop ran.
pub open spec fn inputs<M, N, Q>(
    phases: Seq<EmbeddedPhase>,
    events: Seq<EmbeddedEvent<M, N, Q>>,
) -> Seq<M>
    decreases events.len(),
{
    if events.len() == 0 {
        Seq::empty()
    } else {
        let before = inputs(phases, events.drop_last());
        match (phases[events.len() - 1], events.last()) {
            (EmbeddedPhase::Running, EmbeddedEvent::Input(Some(message))) => before.push(message),
            _ => before,
        }
    }
}

/// The messages of the platform that the loop handled.
pub open spec fn inputs_handled<M, N, Q>(actions: Seq<EmbeddedAction<M, N, Q>>) -> Seq<M>
    decreases actions.len(),
{
    if actions.len() == 0 {
        Seq::empty()
    } else {
        let before = inputs_handled(actions.drop_last());
        match actions.last() {
            EmbeddedAction::Handle(message) => before.push(message),
            _ => before,
        }
    }
}

proof fn lemma_passed_on<M, N, Q>(
    phases: Seq<EmbeddedPhase>,
    events: Seq<EmbeddedEvent<M, N, Q>>,
    actions: Seq<EmbeddedAction<M, N, Q>>,
    n: int,
)
    requires
        embedded_run(phases, events, actions),
        0 <= n <= events.len(),
    ensures
        messages_sent(actions.take(n)) == server_messages(phases, events.take(n)),
        inputs_handled(actions.take(n)) == inputs(phases, events.take(n)),
    decreases n,
{
    if n > 0 {
        lemma_passed_on(phases, events, actions, n - 1);
        assert(actions.take(n).drop_last() =~= actions.take(n - 1));
        assert(events.take(n).drop_last() =~= events.take(n - 1));
        assert(embedded_goes_on(phases[n - 1], events[n - 1], phases[n - 1 + 1], actions[n - 1]));
    }
}

/// While the loop runs, every notification and every request of the app-server is sent to the platform
/// once, and every message of the platform is handled once, each in the order in which they came.
pub proof fn law_messages_are_passed_on_once_and_in_order<M, N, Q>(
    phases: Seq<EmbeddedPhase>,
    events: Seq<EmbeddedEvent<M, N, Q>>,
    actions: Seq<EmbeddedAction<M, N, Q>>,
)
    requires
        embedded_run(phases, events, actions),
    ensures
        messages_sent(actions) == server_messages(phases, events),
        inputs_handled(actions) == inputs(phases, events),
{
    lemma_passed_on(phases, events, actions, events.len() as int);
    assert(actions.take(events.len() as int) =~= actions);
    assert(events.take(events.len() as int) =~= events);
}

/// Each warning of the configuration becomes one warning with that summary, at the same place.
pub proof fn law_warnings_keep_their_summaries(summaries: Seq<String>)
    ensures
        warnings_of(summaries).len() == summaries.len(),
        forall|i: int|
            0 <= i < summaries.len() ==> (#[trigger] warnings_of(summaries)[i]).summary
                == summaries[i],
{
}

/// The answer to a request to initialize holds exactly four members, each with its own text: the user
/// agent, the home directory, the family of the platform, and its operating system.
pub proof fn law_initialize_object_holds_its_four_members(
    user_agent: Seq<char>,
    codex_home: Seq<char>,
    platform_family: Seq<char>,
    platform_os: Seq<char>,
)
    ensures
        ({
            let object = initialize_object(user_agent, codex_home, platform_family, platform_os);
            &&& forall|name: Seq<char>| #[trigger]
                object.dom().contains(name) <==> name == "userAgent"@ || name == "codexHome"@ || name
                    == "platformFamily"@ || name == "platformOs"@
            &&& object["userAgent"@] == Some(user_agent)
            &&& object["codexHome"@] == Some(codex_home)
            &&& object["platformFamily"@] == Some(platform_family)
            &&& object["platformOs"@] == Some(platform_os)
        }),
{
    reveal_strlit("userAgent");
    reveal_strlit("codexHome");
    reveal_strlit("platformFamily");
    reveal_strlit("platformOs");
    assert("userAgent"@[0] != "codexHome"@[0]);
    assert("platformFamily"@.len() == 14 && "platformOs"@.len() == 10);
}

/// The report on lost events tells their number: between its fixed words stand only digits, which read
/// back as that number.
pub proof fn law_report_tells_how_many_events_were_lost(skipped: u64)
    ensures
        ({
            let text = lagged_text(skipped);
            let from = "embedded app-server event stream lost "@.len() as int;
            let to = text.len() - " event(s)"@.len();
            &&& 0 <= from < to
            &&& text.take(from) == "embedded app-server event stream lost "@
            &&& text.skip(to) == " event(s)"@
            &&& all_digits(text.subrange(from, to))
            &&& number(text.subrange(from, to)) == skipped
        }),
{
    law_decimal_reads_back(skipped as nat);
    let head = "embedded app-server event stream lost "@;
    let digits = decimal(skipped as nat);
    let tail = " event(s)"@;
    let text = lagged_text(skipped);
    let from = head.len() as int;
    let to = from + digits.len();
    assert(text.len() - tail.len() == to);
    assert(text.take(from) =~= head);
    assert(text.subrange(from, to) =~= digits);
    assert(text.skip(to) =~= tail);
}

/// A worker starts its app-server on the given home directory, as a client of the given version, under
/// the names of a worker adapter, with the experimental API and nothing else switched on, and with no
/// warning and no notification of its own choice.
pub proof fn law_worker_starts_its_app_server_with(
    settings: StartSettings,
    codex_home: String,
    client_version: String,
)
    requires
        worker_settings(settings, codex_home, client_version),
    ensures
        settings.codex_home == codex_home,
        settings.client_version == client_version,
        settings.session_source@ == "worker-adapter"@,
        settings.client_name@ == "codex_worker_adapter"@,
        settings.experimental_api,
        !settings.strict_config && !settings.enable_codex_api_key_env
            && !settings.mcp_server_openai_form_elicitation,
        settings.config_warnings@.len() == 0,
        settings.opt_out_notification_methods@.len() == 0,
{
}

/// A start that goes through six steps with success runs, whatever its settings are; what each step is
/// given is what the first was given.
pub proof fn law_successful_start_keeps_its_settings(settings: StartSettings, ignored: String)
    ensures
        spawn_step(Spawn::CreateHome { settings }, Ok(())) == (Spawn::LoadConfig { settings }),
        spawn_step(Spawn::LoadConfig { settings }, Ok(())) == (Spawn::OpenStateDb { settings }),
        spawn_step(Spawn::OpenStateDb { settings }, Ok(())) == (Spawn::ResolveRuntimePaths {
            settings,
        }),
        spawn_step(Spawn::OpenStateDb { settings }, Err(ignored)) == (Spawn::ResolveRuntimePaths {
            settings,
        }),
        spawn_step(Spawn::ResolveRuntimePaths { settings }, Ok(())) == (Spawn::InitEnvironments {
            settings,
        }),
        spawn_step(Spawn::InitEnvironments { settings }, Ok(())) == (Spawn::StartClient { settings }),
        spawn_step(Spawn::StartClient { settings }, Ok(())) == Spawn::Running,
{
}

/// A step of the start that fails ends it, and is reported as that step, with its cause as it was told;
/// a home directory that cannot be created is named.
pub proof fn law_failed_step_is_named(s: Spawn, cause: String)
    requires
        s !is OpenStateDb,
        s !is Running,
        s !is Failed,
    ensures
        spawn_step(s, Err(cause)) matches Spawn::Failed(WorkerError::Failed { step, cause: told })
            && told == cause && (match s {
            Spawn::CreateHome { settings } => step == (Step::CreateHome {
                path: settings.codex_home,
            }),
            Spawn::LoadConfig { .. } => step == Step::LoadConfig,
            Spawn::ResolveRuntimePaths { .. } => step == Step::ResolveRuntimePaths,
            Spawn::InitEnvironments { .. } => step == Step::InitEnvironments,
            _ => step == Step::StartAppServer,
        }),
{
}

/// While the loop runs, each message is passed on as it is and the loop runs on; it stops exactly on the
/// stop signal, on the end of its input, on lost events and on the end of the app-server.
pub proof fn law_loop_stops_only_at_an_end<M, N, Q>(
    event: EmbeddedEvent<M, N, Q>,
    next: EmbeddedPhase,
    action: EmbeddedAction<M, N, Q>,
)
    requires
        embedded_goes_on(EmbeddedPhase::Running, event, next, action),
    ensures
        match event {
            EmbeddedEvent::Input(Some(message)) => next is Running && (
            action matches EmbeddedAction::Handle(handled) && handled == message),
            EmbeddedEvent::ServerNotification(notification) => next is Running && (
            action matches EmbeddedAction::SendNotification(sent) && sent == notification),
            EmbeddedEvent::ServerRequest(request) => next is Running && (
            action matches EmbeddedAction::SendRequest(sent) && sent == request),
            EmbeddedEvent::ShutDown(_) => next is Running && action is Wait,
            _ => next is Stopping && action is ShutDown,
        },
{
}

/// The loop tells why it stops: that it was stopped, that its input was closed, how many events were
/// lost, or that the app-server exited.
pub proof fn law_loop_tells_why_it_stops<M, N, Q>(
    event: EmbeddedEvent<M, N, Q>,
    reason: String,
    action: EmbeddedAction<M, N, Q>,
)
    requires
        embedded_goes_on(
            EmbeddedPhase::Running,
            event,
            EmbeddedPhase::Stopping { reason },
            action,
        ),
    ensures
        event is StopSignal ==> reason@ == "embedded app-server stopped"@,
        event is Input ==> reason@ == "embedded app-server input channel closed"@,
        event is Ended ==> reason@ == "embedded app-server exited"@,
        event matches EmbeddedEvent::Lagged { skipped } ==> reason@ == lagged_text(skipped),
{
}

/// A loop that stops waits for the shutdown alone, and reports the very reason that it stopped for once
/// that has ended, well or not; one that has stopped does nothing more.
pub proof fn law_stopping_loop_reports_its_reason<M, N, Q>(
    reason: String,
    event: EmbeddedEvent<M, N, Q>,
    next: EmbeddedPhase,
    action: EmbeddedAction<M, N, Q>,
    after: EmbeddedPhase,
    later: EmbeddedAction<M, N, Q>,
)
    requires
        embedded_goes_on(EmbeddedPhase::Stopping { reason }, event, next, action),
        embedded_goes_on(EmbeddedPhase::Stopped, event, after, later),
    ensures
        event is ShutDown ==> next is Stopped && (action matches EmbeddedAction::Report {
            reason: told,
        } && told == reason),
        event !is ShutDown ==> next == (EmbeddedPhase::Stopping { reason }) && action is Wait,
        after is Stopped && later is Wait,
{
}

} // verus!
