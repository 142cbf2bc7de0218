//! The life of a worker that has a home shard: from the start of its app-server to the release of
//! its lease.
//!
//! The machine performs nothing. It says what is to be done, in order; what happens is handed back
//! as an event.
use crate::config::{bind_text, is_bind_addr, Config, SHUTDOWN_GRACE_SECS};
use crate::control_plane::LeaseMonitorResult;
use crate::error::{Step, WorkerError};
use crate::monitor::{
    after_events, costs_lease, law_lease_is_lost_exactly_when_an_event_costs_it, monitor_start,
    MonitorEvent, MonitorPhase,
};
use crate::net::SocketAddress;
use vstd::prelude::*;

verus! {

/// Why a worker shuts down.
#[derive(Debug, PartialEq, Eq)]
pub enum ShutdownReason {
    Signal,
    LeaseLost,
    LeaseMonitorStopped,
    AppServerExited(String),
    HttpServerExited(Option<String>),
    BackgroundTaskFailed(String),
}

/// Where the life of the worker is.
#[derive(Debug, PartialEq, Eq)]
pub enum RunPhase {
    /// The app-server is being started. Where something has ended meanwhile that a worker cannot do
    /// without, `ended` tells why the worker is to shut down once it has started.
    SpawningAppServer { ended: Option<ShutdownReason> },
    /// The listener is being bound; `ended` tells the same.
    BindingListener { ended: Option<ShutdownReason> },
    /// The worker serves.
    Serving,
    /// It is over.
    Finished(Result<(), WorkerError>),
}

/// What happens to the worker.
#[derive(Debug, PartialEq, Eq)]
pub enum RunEvent {
    /// The app-server runs, or its start failed.
    AppServerSpawned(Result<(), WorkerError>),
    /// The listener is bound, or that failed.
    ListenerBound(Result<(), String>),
    /// The process was asked to end. That is looked for only while the worker serves.
    Signal,
    /// The lease monitor ended, or its task failed.
    LeaseTaskEnded(Result<LeaseMonitorResult, String>),
    /// The app-server exited.
    AppServerExited(String),
    /// The HTTP server ended, cleanly or with an error, or its task failed.
    HttpServerEnded(Result<Result<(), String>, String>),
}

/// What is to be done.
#[derive(Debug, PartialEq, Eq)]
pub enum RunAction {
    /// Watch over the lease in the background.
    StartLeaseMonitor,
    /// Start the app-server.
    SpawnAppServer,
    /// Bind the listener.
    BindListener(SocketAddress),
    /// Serve HTTP in the background.
    ServeHttp,
    /// Set whether the worker is ready.
    SetReady(bool),
    /// Give up what is being started: the app-server, or the listener.
    AbandonStart,
    /// Tell the lease monitor to stop.
    StopLeaseMonitor,
    /// Cancel the lease monitor.
    AbortLeaseMonitor,
    /// Tell the HTTP server to stop.
    StopHttp,
    /// Stop the app-server, and wait for that so many seconds at most.
    ShutdownAppServer { grace_secs: u64 },
    /// Release the lease; a failure is only noted.
    ReleaseLease,
}

/// Why an event can end a worker, where it can.
pub open spec fn reason_of(event: RunEvent) -> Option<ShutdownReason> {
    match event {
        RunEvent::Signal => Some(ShutdownReason::Signal),
        RunEvent::LeaseTaskEnded(Ok(LeaseMonitorResult::Lost)) => Some(ShutdownReason::LeaseLost),
        RunEvent::LeaseTaskEnded(Ok(LeaseMonitorResult::Stopped)) => Some(
            ShutdownReason::LeaseMonitorStopped,
        ),
        RunEvent::LeaseTaskEnded(Err(error)) => Some(ShutdownReason::BackgroundTaskFailed(error)),
        RunEvent::AppServerExited(reason) => Some(ShutdownReason::AppServerExited(reason)),
        RunEvent::HttpServerEnded(Ok(Ok(_))) => Some(ShutdownReason::HttpServerExited(None)),
        RunEvent::HttpServerEnded(Ok(Err(error))) => Some(
            ShutdownReason::HttpServerExited(Some(error)),
        ),
        RunEvent::HttpServerEnded(Err(error)) => Some(
            ShutdownReason::HttpServerExited(Some(error)),
        ),
        _ => None,
    }
}

/// What a worker that shuts down for a reason comes to.
pub open spec fn outcome_of(reason: ShutdownReason) -> Result<(), WorkerError> {
    match reason {
        ShutdownReason::Signal => Ok(()),
        ShutdownReason::LeaseLost => Err(WorkerError::LeaseLost),
        ShutdownReason::LeaseMonitorStopped => Err(WorkerError::LeaseMonitorStopped),
        ShutdownReason::AppServerExited(reason) => Err(WorkerError::AppServerExited { reason }),
        ShutdownReason::HttpServerExited(detail) => Err(WorkerError::HttpServerExited { detail }),
        ShutdownReason::BackgroundTaskFailed(error) => Err(
            WorkerError::BackgroundTaskFailed { error },
        ),
    }
}

/// What is done first.
pub open spec fn start_actions() -> Seq<RunAction> {
    seq![RunAction::StartLeaseMonitor, RunAction::SpawnAppServer]
}

/// What is done once the listener is bound.
pub open spec fn serve_actions() -> Seq<RunAction> {
    seq![RunAction::ServeHttp, RunAction::SetReady(true)]
}

/// What is done when the app-server does not start.
pub open spec fn spawn_failure_actions() -> Seq<RunAction> {
    seq![RunAction::StopLeaseMonitor, RunAction::AbortLeaseMonitor, RunAction::ReleaseLease]
}

/// What is done when the listener cannot be bound.
pub open spec fn bind_failure_actions() -> Seq<RunAction> {
    seq![
        RunAction::StopLeaseMonitor,
        RunAction::AbortLeaseMonitor,
        RunAction::ShutdownAppServer { grace_secs: SHUTDOWN_GRACE_SECS },
        RunAction::ReleaseLease,
    ]
}

/// The end of the watch over a lease that is lost.
pub open spec fn loss() -> RunEvent {
    RunEvent::LeaseTaskEnded(Ok(LeaseMonitorResult::Lost))
}

/// Why an event ends a worker in a phase at once, where it does: a worker that serves is ended by
/// whatever can end it, one that starts only by the loss of its lease.
pub open spec fn ends(phase: RunPhase, event: RunEvent) -> Option<ShutdownReason> {
    match phase {
        RunPhase::Serving => reason_of(event),
        RunPhase::Finished(_) => None,
        _ => if event == loss() {
            Some(ShutdownReason::LeaseLost)
        } else {
            None
        },
    }
}

/// What is noted of an end during the start: the first counts.
pub open spec fn noted(ended: Option<ShutdownReason>, event: RunEvent) -> Option<ShutdownReason> {
    match ended {
        Some(_) => ended,
        None => reason_of(event),
    }
}

/// How what runs in a phase is stopped.
pub open spec fn stop_actions(phase: RunPhase) -> Seq<RunAction> {
    match phase {
        RunPhase::SpawningAppServer { .. } => seq![
            RunAction::AbandonStart,
            RunAction::StopLeaseMonitor,
            RunAction::AbortLeaseMonitor,
        ],
        RunPhase::BindingListener { .. } => seq![
            RunAction::AbandonStart,
            RunAction::StopLeaseMonitor,
            RunAction::AbortLeaseMonitor,
            RunAction::ShutdownAppServer { grace_secs: SHUTDOWN_GRACE_SECS },
        ],
        RunPhase::Serving => seq![
            RunAction::SetReady(false),
            RunAction::StopLeaseMonitor,
            RunAction::AbortLeaseMonitor,
            RunAction::StopHttp,
            RunAction::ShutdownAppServer { grace_secs: SHUTDOWN_GRACE_SECS },
        ],
        RunPhase::Finished(_) => Seq::empty(),
    }
}

/// The actions, and then the release of the lease, unless that is lost: then another worker may hold
/// it.
pub open spec fn and_release(actions: Seq<RunAction>, reason: ShutdownReason) -> Seq<RunAction> {
    if reason == ShutdownReason::LeaseLost {
        actions
    } else {
        actions.push(RunAction::ReleaseLease)
    }
}

/// What is done when a worker shuts down in a phase.
pub open spec fn shutdown_actions(phase: RunPhase, reason: ShutdownReason) -> Seq<RunAction> {
    and_release(stop_actions(phase), reason)
}

/// What is done when a worker has started, and is to shut down before it serves.
pub open spec fn unserved_actions(reason: ShutdownReason) -> Seq<RunAction> {
    and_release(
        seq![
            RunAction::StopLeaseMonitor,
            RunAction::AbortLeaseMonitor,
            RunAction::ShutdownAppServer { grace_secs: SHUTDOWN_GRACE_SECS },
        ],
        reason,
    )
}

/// Whether `outcome` is the failure to bind the listener for `cause`.
pub open spec fn bind_failed(outcome: Result<(), WorkerError>, cause: String) -> bool {
    outcome matches Err(WorkerError::Failed { step: Step::Bind { addr }, cause: told }) && addr@
        == bind_text() && told == cause
}

/// What an event does, and what is to be done then. An event that the worker does not wait for does
/// nothing.
///
/// A start that fails is reported as such, whatever else has ended meanwhile. One that succeeds while
/// something ended leads to the shutdown for that, and the worker is never ready.
pub open spec fn run_goes_on(
    phase: RunPhase,
    event: RunEvent,
    next: RunPhase,
    actions: Seq<RunAction>,
) -> bool {
    match ends(phase, event) {
        Some(reason) => {
            &&& next == RunPhase::Finished(outcome_of(reason))
            &&& actions == shutdown_actions(phase, reason)
        },
        None => match (phase, event) {
            (RunPhase::SpawningAppServer { ended }, RunEvent::AppServerSpawned(Ok(_))) => {
                &&& next == (RunPhase::BindingListener { ended })
                &&& actions.len() == 1
                &&& actions[0] matches RunAction::BindListener(addr) && is_bind_addr(addr)
            },
            (RunPhase::SpawningAppServer { .. }, RunEvent::AppServerSpawned(Err(error))) => {
                &&& next == RunPhase::Finished(Err(error))
                &&& actions == spawn_failure_actions()
            },
            (RunPhase::SpawningAppServer { ended }, RunEvent::LeaseTaskEnded(_)) => {
                &&& next == (RunPhase::SpawningAppServer { ended: noted(ended, event) })
                &&& actions == Seq::<RunAction>::empty()
            },
            (RunPhase::BindingListener { ended: None }, RunEvent::ListenerBound(Ok(_))) => {
                &&& next == RunPhase::Serving
                &&& actions == serve_actions()
            },
            (RunPhase::BindingListener { ended: Some(reason) }, RunEvent::ListenerBound(Ok(_))) => {
                &&& next == RunPhase::Finished(outcome_of(reason))
                &&& actions == unserved_actions(reason)
            },
            (RunPhase::BindingListener { .. }, RunEvent::ListenerBound(Err(cause))) => {
                &&& next matches RunPhase::Finished(outcome) && bind_failed(outcome, cause)
                &&& actions == bind_failure_actions()
            },
            (RunPhase::BindingListener { ended }, RunEvent::LeaseTaskEnded(_)) => {
                &&& next == (RunPhase::BindingListener { ended: noted(ended, event) })
                &&& actions == Seq::<RunAction>::empty()
            },
            (RunPhase::BindingListener { ended }, RunEvent::AppServerExited(_)) => {
                &&& next == (RunPhase::BindingListener { ended: noted(ended, event) })
                &&& actions == Seq::<RunAction>::empty()
            },
            _ => next == phase && actions == Seq::<RunAction>::empty(),
        },
    }
}

/// Why an event can end a worker, where it can.
pub fn shutdown_reason(event: RunEvent) -> (r: Option<ShutdownReason>)
    ensures
        r == reason_of(event),
{
    match event {
        RunEvent::Signal => Some(ShutdownReason::Signal),
        RunEvent::LeaseTaskEnded(Ok(LeaseMonitorResult::Lost)) => Some(ShutdownReason::LeaseLost),
        RunEvent::LeaseTaskEnded(Ok(LeaseMonitorResult::Stopped)) => Some(
            ShutdownReason::LeaseMonitorStopped,
        ),
        RunEvent::LeaseTaskEnded(Err(error)) => Some(ShutdownReason::BackgroundTaskFailed(error)),
        RunEvent::AppServerExited(reason) => Some(ShutdownReason::AppServerExited(reason)),
        RunEvent::HttpServerEnded(Ok(Ok(_))) => Some(ShutdownReason::HttpServerExited(None)),
        RunEvent::HttpServerEnded(Ok(Err(error))) => Some(
            ShutdownReason::HttpServerExited(Some(error)),
        ),
        RunEvent::HttpServerEnded(Err(error)) => Some(
            ShutdownReason::HttpServerExited(Some(error)),
        ),
        RunEvent::AppServerSpawned(_) => None,
        RunEvent::ListenerBound(_) => None,
    }
}

fn outcome(reason: ShutdownReason) -> (r: Result<(), WorkerError>)
    ensures
        r == outcome_of(reason),
{
    match reason {
        ShutdownReason::Signal => Ok(()),
        ShutdownReason::LeaseLost => Err(WorkerError::LeaseLost),
        ShutdownReason::LeaseMonitorStopped => Err(WorkerError::LeaseMonitorStopped),
        ShutdownReason::AppServerExited(reason) => Err(WorkerError::AppServerExited { reason }),
        ShutdownReason::HttpServerExited(detail) => Err(WorkerError::HttpServerExited { detail }),
        ShutdownReason::BackgroundTaskFailed(error) => Err(
            WorkerError::BackgroundTaskFailed { error },
        ),
    }
}

fn shutdown(phase: &RunPhase, reason: ShutdownReason, config: &Config) -> (r: (
    RunPhase,
    Vec<RunAction>,
))
    ensures
        r.0 == RunPhase::Finished(outcome_of(reason)),
        r.1@ == shutdown_actions(*phase, reason),
{
    let mut actions: Vec<RunAction> = Vec::new();
    match phase {
        RunPhase::SpawningAppServer { .. } => {
            actions.push(RunAction::AbandonStart);
            actions.push(RunAction::StopLeaseMonitor);
            actions.push(RunAction::AbortLeaseMonitor);
        },
        RunPhase::BindingListener { .. } => {
            actions.push(RunAction::AbandonStart);
            actions.push(RunAction::StopLeaseMonitor);
            actions.push(RunAction::AbortLeaseMonitor);
            actions.push(RunAction::ShutdownAppServer { grace_secs: config.shutdown_grace() });
        },
        RunPhase::Serving => {
            actions.push(RunAction::SetReady(false));
            actions.push(RunAction::StopLeaseMonitor);
            actions.push(RunAction::AbortLeaseMonitor);
            actions.push(RunAction::StopHttp);
            actions.push(RunAction::ShutdownAppServer { grace_secs: config.shutdown_grace() });
        },
        RunPhase::Finished(_) => {},
    }
    proof {
        assert(actions@ =~= stop_actions(*phase));
    }
    finish(actions, reason)
}

fn finish(stopping: Vec<RunAction>, reason: ShutdownReason) -> (r: (RunPhase, Vec<RunAction>))
    ensures
        r.0 == RunPhase::Finished(outcome_of(reason)),
        r.1@ == and_release(stopping@, reason),
{
    let mut actions = stopping;
    let lost: bool = match &reason {
        ShutdownReason::LeaseLost => true,
        _ => false,
    };
    if !lost {
        actions.push(RunAction::ReleaseLease);
    }
    (RunPhase::Finished(outcome(reason)), actions)
}

fn note(ended: Option<ShutdownReason>, event: RunEvent) -> (r: Option<ShutdownReason>)
    ensures
        r == noted(ended, event),
{
    match ended {
        Some(reason) => Some(reason),
        None => shutdown_reason(event),
    }
}

/// Begins the life of a worker.
pub fn start() -> (r: (RunPhase, Vec<RunAction>))
    ensures
        r.0 == (RunPhase::SpawningAppServer { ended: None }),
        r.1@ == start_actions(),
{
    let mut actions: Vec<RunAction> = Vec::new();
    actions.push(RunAction::StartLeaseMonitor);
    actions.push(RunAction::SpawnAppServer);
    proof {
        assert(actions@ =~= start_actions());
    }
    (RunPhase::SpawningAppServer { ended: None }, actions)
}

/// Takes in an event, and tells what is to be done.
pub fn run(phase: RunPhase, config: &Config, event: RunEvent) -> (r: (RunPhase, Vec<RunAction>))
    ensures
        run_goes_on(phase, event, r.0, r.1@),
{
    let mut actions: Vec<RunAction> = Vec::new();
    let next: RunPhase = match phase {
        RunPhase::SpawningAppServer { ended } => match event {
            RunEvent::AppServerSpawned(Ok(_)) => {
                actions.push(RunAction::BindListener(config.bind_addr()));
                RunPhase::BindingListener { ended }
            },
            RunEvent::AppServerSpawned(Err(error)) => {
                actions.push(RunAction::StopLeaseMonitor);
                actions.push(RunAction::AbortLeaseMonitor);
                actions.push(RunAction::ReleaseLease);
                proof {
                    assert(actions@ =~= spawn_failure_actions());
                }
                RunPhase::Finished(Err(error))
            },
            RunEvent::LeaseTaskEnded(Ok(LeaseMonitorResult::Lost)) => {
                let starting = RunPhase::SpawningAppServer { ended };
                return shutdown(&starting, ShutdownReason::LeaseLost, config);
            },
            RunEvent::LeaseTaskEnded(watched) => RunPhase::SpawningAppServer {
                ended: note(ended, RunEvent::LeaseTaskEnded(watched)),
            },
            _ => RunPhase::SpawningAppServer { ended },
        },
        RunPhase::BindingListener { ended } => match event {
            RunEvent::ListenerBound(Ok(_)) => match ended {
                None => {
                    actions.push(RunAction::ServeHttp);
                    actions.push(RunAction::SetReady(true));
                    proof {
                        assert(actions@ =~= serve_actions());
                    }
                    RunPhase::Serving
                },
                Some(reason) => {
                    actions.push(RunAction::StopLeaseMonitor);
                    actions.push(RunAction::AbortLeaseMonitor);
                    actions.push(
                        RunAction::ShutdownAppServer { grace_secs: config.shutdown_grace() },
                    );
                    proof {
                        assert(and_release(actions@, reason) =~= unserved_actions(reason));
                    }
                    return finish(actions, reason);
                },
            },
            RunEvent::ListenerBound(Err(cause)) => {
                actions.push(RunAction::StopLeaseMonitor);
                actions.push(RunAction::AbortLeaseMonitor);
                actions.push(RunAction::ShutdownAppServer { grace_secs: config.shutdown_grace() });
                actions.push(RunAction::ReleaseLease);
                proof {
                    assert(actions@ =~= bind_failure_actions());
                }
                let step = Step::Bind { addr: config.bind_addr_text() };
                RunPhase::Finished(Err(WorkerError::Failed { step, cause }))
            },
            RunEvent::LeaseTaskEnded(Ok(LeaseMonitorResult::Lost)) => {
                let starting = RunPhase::BindingListener { ended };
                return shutdown(&starting, ShutdownReason::LeaseLost, config);
            },
            RunEvent::LeaseTaskEnded(watched) => RunPhase::BindingListener {
                ended: note(ended, RunEvent::LeaseTaskEnded(watched)),
            },
            RunEvent::AppServerExited(reason) => RunPhase::BindingListener {
                ended: note(ended, RunEvent::AppServerExited(reason)),
            },
            _ => RunPhase::BindingListener { ended },
        },
        RunPhase::Serving => match shutdown_reason(event) {
            Some(reason) => {
                return shutdown(&RunPhase::Serving, reason, config);
            },
            None => RunPhase::Serving,
        },
        RunPhase::Finished(outcome) => RunPhase::Finished(outcome),
    };
    (next, actions)
}

/// The life of a worker: the phases it passes through on `events`, and what is done in turn.
pub open spec fn life(
    phases: Seq<RunPhase>,
    events: Seq<RunEvent>,
    steps: Seq<Seq<RunAction>>,
) -> bool {
    &&& phases.len() == events.len() + 1
    &&& steps.len() == phases.len()
    &&& phases[0] == (RunPhase::SpawningAppServer { ended: None })
    &&& steps[0] == start_actions()
    &&& forall|i: int|
        0 <= i < events.len() ==> #[trigger] run_goes_on(
            phases[i],
            events[i],
            phases[i + 1],
            steps[i + 1],
        )
}

/// All that was done.
pub open spec fn all_actions(steps: Seq<Seq<RunAction>>) -> Seq<RunAction>
    decreases steps.len(),
{
    if steps.len() == 0 {
        Seq::empty()
    } else {
        all_actions(steps.drop_last()) + steps.last()
    }
}

/// How many of the actions release the lease.
pub open spec fn releases(actions: Seq<RunAction>) -> nat
    decreases actions.len(),
{
    if actions.len() == 0 {
        0
    } else {
        releases(actions.drop_last()) + (if actions.last() is ReleaseLease {
            1nat
        } else {
            0nat
        })
    }
}

/// Whether the worker is ready after the actions.
pub open spec fn ready_after(actions: Seq<RunAction>) -> bool
    decreases actions.len(),
{
    if actions.len() == 0 {
        false
    } else {
        match actions.last() {
            RunAction::SetReady(ready) => ready,
            _ => ready_after(actions.drop_last()),
        }
    }
}

/// Whether a worker that served was ended by `event`.
pub open spec fn ended_by(phases: Seq<RunPhase>, events: Seq<RunEvent>, event: RunEvent) -> bool {
    exists|i: int|
        0 <= i < events.len() && #[trigger] phases[i] == RunPhase::Serving && events[i] == event
}

/// Whether a worker lost its lease before it came to its end.
pub open spec fn lease_lost(phases: Seq<RunPhase>, events: Seq<RunEvent>) -> bool {
    exists|i: int|
        0 <= i < events.len() && #[trigger] phases[i] !is Finished && events[i] == loss()
}

/// How a worker came to its end.
enum End {
    SpawnFailed,
    BindFailed { addr: SocketAddress },
    Unserved { addr: SocketAddress, reason: ShutdownReason },
    Shutdown { addr: SocketAddress, phase: RunPhase, reason: ShutdownReason, at: int },
}

spec fn bound(addr: SocketAddress) -> Seq<RunAction> {
    start_actions().push(RunAction::BindListener(addr))
}

spec fn served(addr: SocketAddress) -> Seq<RunAction> {
    bound(addr) + serve_actions()
}

/// All that a worker did that is in a phase before its end.
spec fn done_before(phase: RunPhase, addr: SocketAddress) -> Seq<RunAction> {
    match phase {
        RunPhase::SpawningAppServer { .. } => start_actions(),
        RunPhase::BindingListener { .. } => bound(addr),
        _ => served(addr),
    }
}

/// All that a worker did that came to its end.
spec fn whole(end: End) -> Seq<RunAction> {
    match end {
        End::SpawnFailed => start_actions() + spawn_failure_actions(),
        End::BindFailed { addr } => bound(addr) + bind_failure_actions(),
        End::Unserved { addr, reason } => bound(addr) + unserved_actions(reason),
        End::Shutdown { addr, phase, reason, .. } => done_before(phase, addr) + shutdown_actions(
            phase,
            reason,
        ),
    }
}

/// How far a worker has come in a phase.
spec fn progress(phase: RunPhase) -> int {
    match phase {
        RunPhase::SpawningAppServer { .. } => 0,
        RunPhase::BindingListener { .. } => 1,
        RunPhase::Serving => 2,
        RunPhase::Finished(_) => 3,
    }
}

/// Whether a worker, up to the phase `n`, came no farther than `far` before its end.
spec fn came_no_farther(phases: Seq<RunPhase>, n: int, far: int) -> bool {
    forall|i: int| 0 <= i <= n ==> #[trigger] phases[i] is Finished || progress(phases[i]) <= far
}

/// Whether a reason can be noted during the start.
spec fn notable(reason: ShutdownReason) -> bool {
    reason != ShutdownReason::LeaseLost && reason != ShutdownReason::Signal
}

/// What is noted in a phase, if anything.
spec fn note_in(phase: RunPhase) -> Option<ShutdownReason> {
    match phase {
        RunPhase::SpawningAppServer { ended } => ended,
        RunPhase::BindingListener { ended } => ended,
        _ => None,
    }
}

/// Whether none of the events before `n`, but for the one at `but`, ended the worker.
spec fn none_ends(phases: Seq<RunPhase>, events: Seq<RunEvent>, n: int, but: int) -> bool {
    forall|i: int| 0 <= i < n && i != but ==> ends(#[trigger] phases[i], events[i]) is None
}

/// What its end tells of the phases that a worker passed through up to the phase `n`.
spec fn came_to(phases: Seq<RunPhase>, events: Seq<RunEvent>, n: int, end: End) -> bool {
    match end {
        End::SpawnFailed => {
            &&& phases[n] matches RunPhase::Finished(outcome) && outcome is Err
            &&& came_no_farther(phases, n, 0)
            &&& none_ends(phases, events, n, -1)
        },
        End::BindFailed { .. } => {
            &&& phases[n] matches RunPhase::Finished(outcome) && outcome is Err
            &&& came_no_farther(phases, n, 1)
            &&& none_ends(phases, events, n, -1)
        },
        End::Unserved { reason, .. } => {
            &&& phases[n] == RunPhase::Finished(outcome_of(reason))
            &&& notable(reason)
            &&& came_no_farther(phases, n, 1)
            &&& none_ends(phases, events, n, -1)
        },
        End::Shutdown { phase, reason, at, .. } => {
            &&& phases[n] == RunPhase::Finished(outcome_of(reason))
            &&& 0 <= at < n
            &&& phases[at] == phase
            &&& ends(phase, events[at]) == Some(reason)
            &&& came_no_farther(phases, n, progress(phase))
            &&& none_ends(phases, events, n, at)
        },
    }
}

/// What is true of a life up to the phase `n`.
spec fn so_far(
    phases: Seq<RunPhase>,
    events: Seq<RunEvent>,
    steps: Seq<Seq<RunAction>>,
    n: int,
) -> bool {
    let all = all_actions(steps.take(n + 1));
    match phases[n] {
        RunPhase::Finished(_) => exists|end: End|
            #[trigger] came_to(phases, events, n, end) && all == whole(end),
        _ => {
            &&& exists|addr: SocketAddress| all == #[trigger] done_before(phases[n], addr)
            &&& forall|i: int|
                0 <= i <= n ==> progress(#[trigger] phases[i]) <= progress(phases[n])
            &&& note_in(phases[n]) matches Some(reason) ==> notable(reason)
            &&& none_ends(phases, events, n, -1)
        },
    }
}

proof fn lemma_so_far(
    phases: Seq<RunPhase>,
    events: Seq<RunEvent>,
    steps: Seq<Seq<RunAction>>,
    n: int,
)
    requires
        life(phases, events, steps),
        0 <= n < phases.len(),
    ensures
        so_far(phases, events, steps, n),
    decreases n,
{
    let all = all_actions(steps.take(n + 1));
    assert(steps.take(n + 1).drop_last() =~= steps.take(n));
    assert(steps.take(n + 1).last() == steps[n]);
    if n == 0 {
        assert(all_actions(steps.take(0)) == Seq::<RunAction>::empty());
        assert(all == all_actions(steps.take(0)) + steps[0]);
        assert(all =~= done_before(phases[0], arbitrary()));
    } else {
        lemma_so_far(phases, events, steps, n - 1);
        let before = all_actions(steps.take(n));
        assert(all == before + steps[n]);
        assert(run_goes_on(phases[n - 1], events[n - 1], phases[n - 1 + 1], steps[n - 1 + 1]));
        if phases[n - 1] is Finished {
            assert(all =~= before);
            let end = choose|end: End|
                #[trigger] came_to(phases, events, n - 1, end) && before == whole(end);
            assert(came_to(phases, events, n, end));
        } else {
            let addr = choose|addr: SocketAddress|
                before == #[trigger] done_before(phases[n - 1], addr);
            match ends(phases[n - 1], events[n - 1]) {
                Some(reason) => {
                    let end = End::Shutdown { addr, phase: phases[n - 1], reason, at: n - 1 };
                    assert(came_to(phases, events, n, end));
                    assert(all == whole(end));
                },
                None => {
                    if phases[n] is Finished {
                        let end = if phases[n - 1] is SpawningAppServer {
                            End::SpawnFailed
                        } else if events[n - 1] == RunEvent::ListenerBound(Ok(())) {
                            End::Unserved { addr, reason: note_in(phases[n - 1])->0 }
                        } else {
                            End::BindFailed { addr }
                        };
                        assert(came_to(phases, events, n, end));
                        assert(all == whole(end));
                    } else if progress(phases[n]) == progress(phases[n - 1]) {
                        assert(all =~= before);
                        assert(all == done_before(phases[n], addr));
                    } else if phases[n] is BindingListener {
                        let at = steps[n][0]->BindListener_0;
                        assert(all =~= done_before(phases[n], at));
                    } else {
                        assert(all == done_before(phases[n], addr));
                    }
                },
            }
        }
    }
}

proof fn lemma_releases_add(a: Seq<RunAction>, b: Seq<RunAction>)
    ensures
        releases(a + b) == releases(a) + releases(b),
    decreases b.len(),
{
    if b.len() == 0 {
        assert(a + b =~= a);
    } else {
        assert((a + b).drop_last() =~= a + b.drop_last());
        assert((a + b).last() == b.last());
        lemma_releases_add(a, b.drop_last());
    }
}

proof fn lemma_ready_add(a: Seq<RunAction>, b: Seq<RunAction>)
    ensures
        ready_after(a + b) == if exists|i: int| 0 <= i < b.len() && #[trigger] b[i] is SetReady {
            ready_after(b)
        } else {
            ready_after(a)
        },
    decreases b.len(),
{
    if b.len() == 0 {
        assert(a + b =~= a);
    } else {
        assert((a + b).drop_last() =~= a + b.drop_last());
        assert((a + b).last() == b.last());
        lemma_ready_add(a, b.drop_last());
        let c = b.drop_last();
        if b.last() is SetReady {
            assert(b[b.len() - 1] is SetReady);
        } else if exists|i: int| 0 <= i < c.len() && #[trigger] c[i] is SetReady {
            let i = choose|i: int| 0 <= i < c.len() && #[trigger] c[i] is SetReady;
            assert(b[i] is SetReady);
        } else if exists|i: int| 0 <= i < b.len() && #[trigger] b[i] is SetReady {
            let i = choose|i: int| 0 <= i < b.len() && #[trigger] b[i] is SetReady;
            assert(c[i] is SetReady);
        }
    }
}

proof fn lemma_prologue(phase: RunPhase, addr: SocketAddress)
    ensures
        releases(done_before(phase, addr)) == 0,
        ready_after(done_before(phase, addr)) == (progress(phase) >= 2),
{
    reveal_with_fuel(releases, 4);
    reveal_with_fuel(ready_after, 4);
    assert(bound(addr).drop_last() =~= start_actions());
    lemma_releases_add(bound(addr), serve_actions());
    lemma_ready_add(bound(addr), serve_actions());
    assert(serve_actions()[1] is SetReady);
}

proof fn lemma_push(actions: Seq<RunAction>, action: RunAction)
    ensures
        releases(actions.push(action)) == releases(actions) + (if action is ReleaseLease {
            1nat
        } else {
            0nat
        }),
        ready_after(actions.push(action)) == match action {
            RunAction::SetReady(ready) => ready,
            _ => ready_after(actions),
        },
{
    assert(actions.push(action).drop_last() =~= actions);
}

/// A worker that stops the watch over its lease, maybe its app-server, and releases its lease.
proof fn lemma_failure_actions()
    ensures
        releases(spawn_failure_actions()) == 1,
        releases(bind_failure_actions()) == 1,
{
    let none = Seq::<RunAction>::empty();
    let stop = RunAction::ShutdownAppServer { grace_secs: SHUTDOWN_GRACE_SECS };
    let one = none.push(RunAction::StopLeaseMonitor);
    let two = one.push(RunAction::AbortLeaseMonitor);
    let three = two.push(stop);
    lemma_push(none, RunAction::StopLeaseMonitor);
    lemma_push(one, RunAction::AbortLeaseMonitor);
    lemma_push(two, RunAction::ReleaseLease);
    lemma_push(two, stop);
    lemma_push(three, RunAction::ReleaseLease);
    assert(spawn_failure_actions() =~= two.push(RunAction::ReleaseLease));
    assert(bind_failure_actions() =~= three.push(RunAction::ReleaseLease));
}

proof fn lemma_stop_actions(phase: RunPhase)
    ensures
        releases(stop_actions(phase)) == 0,
        !ready_after(stop_actions(phase)),
{
    let none = Seq::<RunAction>::empty();
    let stop = RunAction::ShutdownAppServer { grace_secs: SHUTDOWN_GRACE_SECS };
    let first = if phase == RunPhase::Serving {
        RunAction::SetReady(false)
    } else {
        RunAction::AbandonStart
    };
    let one = none.push(first);
    let two = one.push(RunAction::StopLeaseMonitor);
    let three = two.push(RunAction::AbortLeaseMonitor);
    let four = three.push(RunAction::StopHttp);
    lemma_push(none, first);
    lemma_push(one, RunAction::StopLeaseMonitor);
    lemma_push(two, RunAction::AbortLeaseMonitor);
    lemma_push(three, stop);
    lemma_push(three, RunAction::StopHttp);
    lemma_push(four, stop);
    match phase {
        RunPhase::SpawningAppServer { .. } => {
            assert(stop_actions(phase) =~= three);
        },
        RunPhase::BindingListener { .. } => {
            assert(stop_actions(phase) =~= three.push(stop));
        },
        RunPhase::Serving => {
            assert(stop_actions(phase) =~= four.push(stop));
        },
        RunPhase::Finished(_) => {},
    }
}

proof fn lemma_shutdown_actions(phase: RunPhase, reason: ShutdownReason)
    ensures
        releases(shutdown_actions(phase, reason)) == if reason == ShutdownReason::LeaseLost {
            0nat
        } else {
            1nat
        },
        !ready_after(shutdown_actions(phase, reason)),
{
    lemma_stop_actions(phase);
    lemma_push(stop_actions(phase), RunAction::ReleaseLease);
}

proof fn lemma_epilogue(phases: Seq<RunPhase>, events: Seq<RunEvent>, n: int, end: End)
    requires
        came_to(phases, events, n, end),
    ensures
        releases(whole(end)) == if end matches End::Shutdown { reason, .. } && reason
            == ShutdownReason::LeaseLost {
            0nat
        } else {
            1nat
        },
        !ready_after(whole(end)),
{
    lemma_failure_actions();
    match end {
        End::SpawnFailed => {
            let starting = RunPhase::SpawningAppServer { ended: None };
            let before = done_before(starting, arbitrary());
            lemma_prologue(starting, arbitrary());
            lemma_releases_add(before, spawn_failure_actions());
            lemma_ready_add(before, spawn_failure_actions());
        },
        End::BindFailed { addr } => {
            lemma_prologue(RunPhase::BindingListener { ended: None }, addr);
            lemma_releases_add(bound(addr), bind_failure_actions());
            lemma_ready_add(bound(addr), bind_failure_actions());
        },
        End::Unserved { addr, reason } => {
            assert(unserved_actions(reason) =~= bind_failure_actions());
            lemma_prologue(RunPhase::BindingListener { ended: None }, addr);
            lemma_releases_add(bound(addr), bind_failure_actions());
            lemma_ready_add(bound(addr), bind_failure_actions());
        },
        End::Shutdown { addr, phase, reason, .. } => {
            let before = done_before(phase, addr);
            lemma_prologue(phase, addr);
            lemma_shutdown_actions(phase, reason);
            lemma_releases_add(before, shutdown_actions(phase, reason));
            lemma_ready_add(before, shutdown_actions(phase, reason));
            if phase == RunPhase::Serving {
                assert(shutdown_actions(phase, reason)[0] is SetReady);
            }
        },
    }
}

/// A worker is ready exactly while it serves.
pub proof fn law_ready_exactly_while_serving(
    phases: Seq<RunPhase>,
    events: Seq<RunEvent>,
    steps: Seq<Seq<RunAction>>,
)
    requires
        life(phases, events, steps),
    ensures
        ready_after(all_actions(steps)) == (phases.last() == RunPhase::Serving),
{
    let n = phases.len() - 1;
    lemma_so_far(phases, events, steps, n);
    assert(steps.take(n + 1) =~= steps);
    match phases[n] {
        RunPhase::Finished(_) => lemma_epilogue(
            phases,
            events,
            n,
            choose|end: End|
                #[trigger] came_to(phases, events, n, end) && all_actions(steps) == whole(end),
        ),
        _ => lemma_prologue(
            phases[n],
            choose|addr: SocketAddress|
                all_actions(steps) == #[trigger] done_before(phases[n], addr),
        ),
    }
}

/// A worker gives its lease back exactly once, when it comes to its end, unless it lost the lease
/// before that: then it never does.
pub proof fn law_lease_is_released_once_unless_lost(
    phases: Seq<RunPhase>,
    events: Seq<RunEvent>,
    steps: Seq<Seq<RunAction>>,
)
    requires
        life(phases, events, steps),
    ensures
        releases(all_actions(steps)) == if phases.last() is Finished && !lease_lost(
            phases,
            events,
        ) {
            1nat
        } else {
            0nat
        },
{
    let n = phases.len() - 1;
    lemma_so_far(phases, events, steps, n);
    assert(steps.take(n + 1) =~= steps);
    match phases[n] {
        RunPhase::Finished(_) => {
            let end = choose|end: End|
                #[trigger] came_to(phases, events, n, end) && all_actions(steps) == whole(end);
            lemma_epilogue(phases, events, n, end);
            lemma_lost(phases, events, end);
        },
        _ => {
            lemma_prologue(
                phases[n],
                choose|addr: SocketAddress|
                    all_actions(steps) == #[trigger] done_before(phases[n], addr),
            );
        },
    }
}

proof fn lemma_lost(phases: Seq<RunPhase>, events: Seq<RunEvent>, end: End)
    requires
        phases.len() == events.len() + 1,
        came_to(phases, events, phases.len() - 1, end),
    ensures
        lease_lost(phases, events) == (end matches End::Shutdown { reason, .. } && reason
            == ShutdownReason::LeaseLost),
{
    if lease_lost(phases, events) {
        let i = choose|i: int|
            0 <= i < events.len() && #[trigger] phases[i] !is Finished && events[i] == loss();
        assert(ends(phases[i], events[i]) == Some(ShutdownReason::LeaseLost));
    }
    if let End::Shutdown { phase, reason, at, .. } = end {
        if reason == ShutdownReason::LeaseLost {
            assert(phases[at] !is Finished && events[at] == loss());
        }
    }
}

/// Where the lease is released, that is the last thing done.
pub proof fn law_release_comes_last(
    phases: Seq<RunPhase>,
    events: Seq<RunEvent>,
    steps: Seq<Seq<RunAction>>,
    i: int,
)
    requires
        life(phases, events, steps),
        0 <= i < all_actions(steps).len(),
        all_actions(steps)[i] == RunAction::ReleaseLease,
    ensures
        i == all_actions(steps).len() - 1,
{
    let n = phases.len() - 1;
    lemma_so_far(phases, events, steps, n);
    assert(steps.take(n + 1) =~= steps);
    if phases[n] is Finished {
        let end = choose|end: End|
            #[trigger] came_to(phases, events, n, end) && all_actions(steps) == whole(end);
    }
}

/// A worker that came to its end has stopped the watch over its lease; if its app-server ever ran,
/// that was told to stop; if it ever served, it serves no more; and if it was ended while something
/// was being started, that was given up.
pub proof fn law_nothing_is_left_running(
    phases: Seq<RunPhase>,
    events: Seq<RunEvent>,
    steps: Seq<Seq<RunAction>>,
)
    requires
        life(phases, events, steps),
        phases.last() is Finished,
    ensures
        all_actions(steps).contains(RunAction::StopLeaseMonitor),
        all_actions(steps).contains(RunAction::AbortLeaseMonitor),
        (exists|i: int| 0 <= i < phases.len() && #[trigger] phases[i] is BindingListener)
            ==> all_actions(steps).contains(
            RunAction::ShutdownAppServer { grace_secs: SHUTDOWN_GRACE_SECS },
        ),
        phases.contains(RunPhase::Serving) ==> all_actions(steps).contains(RunAction::StopHttp),
        forall|i: int|
            0 <= i < events.len() && ends(#[trigger] phases[i], events[i]) is Some && phases[i]
                != RunPhase::Serving ==> all_actions(steps).contains(RunAction::AbandonStart),
{
    let n = phases.len() - 1;
    lemma_so_far(phases, events, steps, n);
    assert(steps.take(n + 1) =~= steps);
    let all = all_actions(steps);
    let end = choose|end: End| #[trigger] came_to(phases, events, n, end) && all == whole(end);
    match end {
        End::SpawnFailed => {
            assert(all[2] == RunAction::StopLeaseMonitor);
            assert(all[3] == RunAction::AbortLeaseMonitor);
        },
        End::BindFailed { .. } | End::Unserved { .. } => {
            assert(all[3] == RunAction::StopLeaseMonitor);
            assert(all[4] == RunAction::AbortLeaseMonitor);
            assert(all[5] == (RunAction::ShutdownAppServer { grace_secs: SHUTDOWN_GRACE_SECS }));
        },
        End::Shutdown { addr, phase, reason, .. } => {
            let before = done_before(phase, addr).len() as int;
            let last = shutdown_actions(phase, reason);
            assert(forall|i: int| 0 <= i < last.len() ==> all[before + i] == last[i]);
            assert(all[before + 1] == RunAction::StopLeaseMonitor);
            assert(all[before + 2] == RunAction::AbortLeaseMonitor);
            match phase {
                RunPhase::SpawningAppServer { .. } => {
                    assert(all[before] == RunAction::AbandonStart);
                },
                RunPhase::BindingListener { .. } => {
                    assert(all[before] == RunAction::AbandonStart);
                    assert(all[before + 3] == (RunAction::ShutdownAppServer {
                        grace_secs: SHUTDOWN_GRACE_SECS,
                    }));
                },
                _ => {
                    assert(all[before + 3] == RunAction::StopHttp);
                    assert(all[before + 4] == (RunAction::ShutdownAppServer {
                        grace_secs: SHUTDOWN_GRACE_SECS,
                    }));
                },
            }
        },
    }
}

/// A worker ends well exactly when a signal ended it while it served.
pub proof fn law_only_a_signal_ends_well(
    phases: Seq<RunPhase>,
    events: Seq<RunEvent>,
    steps: Seq<Seq<RunAction>>,
)
    requires
        life(phases, events, steps),
    ensures
        phases.last() == RunPhase::Finished(Ok(())) <==> ended_by(phases, events, RunEvent::Signal),
{
    let n = phases.len() - 1;
    lemma_so_far(phases, events, steps, n);
    if phases[n] is Finished {
        let all = all_actions(steps.take(n + 1));
        let end = choose|end: End| #[trigger] came_to(phases, events, n, end) && all == whole(end);
        if let End::Shutdown { reason, at, .. } = end {
            if reason == ShutdownReason::Signal {
                assert(phases[at] == RunPhase::Serving);
            }
        }
    }
    if ended_by(phases, events, RunEvent::Signal) {
        let i = choose|i: int|
            0 <= i < events.len() && #[trigger] phases[i] == RunPhase::Serving && events[i]
                == RunEvent::Signal;
        assert(ends(phases[i], events[i]) == Some(ShutdownReason::Signal));
    }
}

/// What costs the lease, be it a heartbeat that is fenced or fails once too often or the end of the
/// lease's time, ends the worker, whether it starts or serves: it is not ready, its app-server is
/// stopped or its start given up, and the lease is not released.
pub proof fn law_lost_lease_stops_the_worker(
    interval_secs: u64,
    ttl_secs: u64,
    start: nat,
    watch: Seq<MonitorEvent>,
    n: int,
    watched: LeaseMonitorResult,
    phase: RunPhase,
    next: RunPhase,
    actions: Seq<RunAction>,
)
    requires
        interval_secs < ttl_secs,
        0 <= n < watch.len(),
        costs_lease(monitor_start(interval_secs, ttl_secs, start), watch, n),
        after_events(monitor_start(interval_secs, ttl_secs, start), watch).phase
            == MonitorPhase::Done(watched),
        phase !is Finished,
        run_goes_on(phase, RunEvent::LeaseTaskEnded(Ok(watched)), next, actions),
    ensures
        next == RunPhase::Finished(Err(WorkerError::LeaseLost)),
        phase == RunPhase::Serving ==> actions.contains(RunAction::SetReady(false)),
        !actions.contains(RunAction::SetReady(true)),
        actions.contains(RunAction::ShutdownAppServer { grace_secs: SHUTDOWN_GRACE_SECS })
            || phase is SpawningAppServer && actions.contains(RunAction::AbandonStart),
        !actions.contains(RunAction::ReleaseLease),
{
    law_lease_is_lost_exactly_when_an_event_costs_it(interval_secs, ttl_secs, start, watch);
    match phase {
        RunPhase::SpawningAppServer { .. } => {
            assert(actions[0] == RunAction::AbandonStart);
        },
        RunPhase::BindingListener { .. } => {
            assert(actions[3] == (RunAction::ShutdownAppServer {
                grace_secs: SHUTDOWN_GRACE_SECS,
            }));
        },
        _ => {
            assert(actions[0] == RunAction::SetReady(false));
            assert(actions[4] == (RunAction::ShutdownAppServer {
                grace_secs: SHUTDOWN_GRACE_SECS,
            }));
        },
    }
}

/// Whether an event tells of the end of something that a worker in a phase cannot do without: the watch
/// over its lease, or its app-server once that runs.
pub open spec fn cannot_do_without(phase: RunPhase, event: RunEvent) -> bool {
    event is LeaseTaskEnded || (event is AppServerExited && phase !is SpawningAppServer)
}

/// Once the watch over its lease or its app-server has ended, a worker never serves and is never made
/// ready any more.
pub proof fn law_never_ready_after_an_end(
    phases: Seq<RunPhase>,
    events: Seq<RunEvent>,
    steps: Seq<Seq<RunAction>>,
    i: int,
    j: int,
)
    requires
        life(phases, events, steps),
        0 <= i < j < phases.len(),
        cannot_do_without(phases[i], events[i]),
    ensures
        phases[j] != RunPhase::Serving,
        !steps[j].contains(RunAction::SetReady(true)),
{
    lemma_stays_unready(phases, events, steps, i, j);
}

proof fn lemma_stays_unready(
    phases: Seq<RunPhase>,
    events: Seq<RunEvent>,
    steps: Seq<Seq<RunAction>>,
    i: int,
    j: int,
)
    requires
        life(phases, events, steps),
        0 <= i < j < phases.len(),
        cannot_do_without(phases[i], events[i]),
    ensures
        phases[j] is Finished || note_in(phases[j]) is Some,
        !steps[j].contains(RunAction::SetReady(true)),
    decreases j,
{
    assert(run_goes_on(phases[j - 1], events[j - 1], phases[j - 1 + 1], steps[j - 1 + 1]));
    if i < j - 1 {
        lemma_stays_unready(phases, events, steps, i, j - 1);
    }
}

/// Whether an event is the failure of what is being started in a phase.
pub open spec fn start_fails(phase: RunPhase, event: RunEvent) -> bool {
    match event {
        RunEvent::AppServerSpawned(Err(_)) => phase is SpawningAppServer,
        RunEvent::ListenerBound(Err(_)) => phase is BindingListener,
        _ => false,
    }
}

/// A start that fails is reported as such, whatever else has ended meanwhile, and the lease is
/// released.
pub proof fn law_failed_start_is_reported(
    phase: RunPhase,
    event: RunEvent,
    next: RunPhase,
    actions: Seq<RunAction>,
)
    requires
        start_fails(phase, event),
        run_goes_on(phase, event, next, actions),
    ensures
        event matches RunEvent::AppServerSpawned(Err(error)) ==> next == RunPhase::Finished(
            Err(error),
        ),
        event matches RunEvent::ListenerBound(Err(cause)) ==> (next matches RunPhase::Finished(
            outcome,
        ) && bind_failed(outcome, cause)),
        actions.last() == RunAction::ReleaseLease,
{
}

/// What is over stays over.
pub proof fn law_finished_is_final(
    outcome: Result<(), WorkerError>,
    event: RunEvent,
    next: RunPhase,
    actions: Seq<RunAction>,
)
    requires
        run_goes_on(RunPhase::Finished(outcome), event, next, actions),
    ensures
        next == RunPhase::Finished(outcome),
        actions == Seq::<RunAction>::empty(),
{
}

/// What the worker comes to is what ended it, while it serves: nothing but a signal ends it well, and
/// whatever else is told of the end is told in its error, whole.
pub proof fn law_outcome_tells_what_ended_the_worker(
    event: RunEvent,
    next: RunPhase,
    actions: Seq<RunAction>,
)
    requires
        run_goes_on(RunPhase::Serving, event, next, actions),
    ensures
        match event {
            RunEvent::Signal => next == RunPhase::Finished(Ok(())),
            RunEvent::LeaseTaskEnded(Ok(LeaseMonitorResult::Lost)) => next == RunPhase::Finished(
                Err(WorkerError::LeaseLost),
            ),
            RunEvent::LeaseTaskEnded(Ok(LeaseMonitorResult::Stopped)) => next
                == RunPhase::Finished(Err(WorkerError::LeaseMonitorStopped)),
            RunEvent::LeaseTaskEnded(Err(told)) => next == RunPhase::Finished(
                Err(WorkerError::BackgroundTaskFailed { error: told }),
            ),
            RunEvent::AppServerExited(told) => next == RunPhase::Finished(
                Err(WorkerError::AppServerExited { reason: told }),
            ),
            RunEvent::HttpServerEnded(Ok(Ok(_))) => next == RunPhase::Finished(
                Err(WorkerError::HttpServerExited { detail: None }),
            ),
            RunEvent::HttpServerEnded(Ok(Err(told))) => next == RunPhase::Finished(
                Err(WorkerError::HttpServerExited { detail: Some(told) }),
            ),
            RunEvent::HttpServerEnded(Err(told)) => next == RunPhase::Finished(
                Err(WorkerError::HttpServerExited { detail: Some(told) }),
            ),
            _ => next == RunPhase::Serving && actions.len() == 0,
        },
{
}

/// A worker that serves and ends is first made unready; then the watch over its lease is stopped and
/// cancelled, then HTTP, then the app-server, which has ten seconds; and last the lease is released,
/// exactly where it was not lost.
pub proof fn law_serving_worker_is_shut_down_in_order(
    event: RunEvent,
    next: RunPhase,
    actions: Seq<RunAction>,
)
    requires
        run_goes_on(RunPhase::Serving, event, next, actions),
        next is Finished,
    ensures
        actions[0] == RunAction::SetReady(false),
        actions[1] == RunAction::StopLeaseMonitor,
        actions[2] == RunAction::AbortLeaseMonitor,
        actions[3] == RunAction::StopHttp,
        actions[4] == (RunAction::ShutdownAppServer { grace_secs: 10 }),
        event == RunEvent::LeaseTaskEnded(Ok(LeaseMonitorResult::Lost)) ==> actions.len() == 5,
        event != RunEvent::LeaseTaskEnded(Ok(LeaseMonitorResult::Lost)) ==> actions.len() == 6
            && actions[5] == RunAction::ReleaseLease,
{
}

/// A worker starts in order: the watch over its lease first and then the app-server; the listener once
/// the app-server runs; and, once that is bound and where nothing has ended meanwhile, HTTP and then
/// readiness.
pub proof fn law_worker_starts_in_order(
    ended: Option<ShutdownReason>,
    bound_next: RunPhase,
    bound_actions: Seq<RunAction>,
    served_next: RunPhase,
    served_actions: Seq<RunAction>,
)
    requires
        run_goes_on(
            RunPhase::SpawningAppServer { ended },
            RunEvent::AppServerSpawned(Ok(())),
            bound_next,
            bound_actions,
        ),
        run_goes_on(
            RunPhase::BindingListener { ended: None },
            RunEvent::ListenerBound(Ok(())),
            served_next,
            served_actions,
        ),
    ensures
        start_actions().len() == 2,
        start_actions()[0] == RunAction::StartLeaseMonitor,
        start_actions()[1] == RunAction::SpawnAppServer,
        bound_next == (RunPhase::BindingListener { ended }),
        bound_actions.len() == 1,
        bound_actions[0] matches RunAction::BindListener(SocketAddress::V4 { octets, port }) && port
            == 8080 && octets@[0] == 0 && octets@[1] == 0 && octets@[2] == 0 && octets@[3] == 0,
        served_next == RunPhase::Serving,
        served_actions.len() == 2,
        served_actions[0] == RunAction::ServeHttp,
        served_actions[1] == RunAction::SetReady(true),
{
}

/// What is done when the start fails, in order: the watch over the lease is stopped and cancelled; the
/// app-server is stopped, where it runs; and the lease is released.
pub proof fn law_failed_start_is_undone_in_order(
    phase: RunPhase,
    event: RunEvent,
    next: RunPhase,
    actions: Seq<RunAction>,
)
    requires
        start_fails(phase, event),
        run_goes_on(phase, event, next, actions),
    ensures
        actions[0] == RunAction::StopLeaseMonitor,
        actions[1] == RunAction::AbortLeaseMonitor,
        event is AppServerSpawned ==> actions.len() == 3 && actions[2] == RunAction::ReleaseLease,
        event is ListenerBound ==> actions.len() == 4 && actions[2] == (
        RunAction::ShutdownAppServer { grace_secs: 10 }) && actions[3] == RunAction::ReleaseLease,
        event matches RunEvent::AppServerSpawned(Err(error)) ==> next == RunPhase::Finished(
            Err(error),
        ),
        event matches RunEvent::ListenerBound(Err(told)) ==> (next matches RunPhase::Finished(
            Err(WorkerError::Failed { step: Step::Bind { addr }, cause }),
        ) && addr@ == bind_text() && cause == told),
{
}

/// A lease that is lost while the worker starts ends it at once: what is being started is given up, the
/// watch stopped and cancelled, the app-server stopped where it runs; and the lease is not released.
pub proof fn law_loss_during_the_start_ends_the_worker(
    ended: Option<ShutdownReason>,
    spawning_next: RunPhase,
    spawning_actions: Seq<RunAction>,
    binding_next: RunPhase,
    binding_actions: Seq<RunAction>,
)
    requires
        run_goes_on(
            RunPhase::SpawningAppServer { ended },
            RunEvent::LeaseTaskEnded(Ok(LeaseMonitorResult::Lost)),
            spawning_next,
            spawning_actions,
        ),
        run_goes_on(
            RunPhase::BindingListener { ended },
            RunEvent::LeaseTaskEnded(Ok(LeaseMonitorResult::Lost)),
            binding_next,
            binding_actions,
        ),
    ensures
        spawning_next == RunPhase::Finished(Err(WorkerError::LeaseLost)),
        spawning_actions.len() == 3,
        spawning_actions[0] == RunAction::AbandonStart,
        spawning_actions[1] == RunAction::StopLeaseMonitor,
        spawning_actions[2] == RunAction::AbortLeaseMonitor,
        binding_next == RunPhase::Finished(Err(WorkerError::LeaseLost)),
        binding_actions.len() == 4,
        binding_actions[0] == RunAction::AbandonStart,
        binding_actions[1] == RunAction::StopLeaseMonitor,
        binding_actions[2] == RunAction::AbortLeaseMonitor,
        binding_actions[3] == (RunAction::ShutdownAppServer { grace_secs: 10 }),
{
}

/// Any other end of something that a starting worker has is noted, as what it was, and lets the start go
/// on; what was noted first stays.
pub proof fn law_other_ends_during_the_start_are_noted(
    ended: Option<ShutdownReason>,
    event: RunEvent,
    spawning_next: RunPhase,
    spawning_actions: Seq<RunAction>,
    binding_next: RunPhase,
    binding_actions: Seq<RunAction>,
)
    requires
        match event {
            RunEvent::LeaseTaskEnded(Ok(LeaseMonitorResult::Lost)) => false,
            RunEvent::LeaseTaskEnded(_) => true,
            RunEvent::AppServerExited(_) => true,
            _ => false,
        },
        run_goes_on(
            RunPhase::SpawningAppServer { ended },
            event,
            spawning_next,
            spawning_actions,
        ),
        run_goes_on(RunPhase::BindingListener { ended }, event, binding_next, binding_actions),
    ensures
        ({
            let told = match ended {
                Some(first) => first,
                None => match event {
                    RunEvent::LeaseTaskEnded(Err(error)) => ShutdownReason::BackgroundTaskFailed(
                        error,
                    ),
                    RunEvent::AppServerExited(reason) => ShutdownReason::AppServerExited(reason),
                    _ => ShutdownReason::LeaseMonitorStopped,
                },
            };
            &&& event is LeaseTaskEnded ==> spawning_next == (RunPhase::SpawningAppServer {
                ended: Some(told),
            })
            &&& event is AppServerExited ==> spawning_next == (RunPhase::SpawningAppServer { ended })
            &&& binding_next == (RunPhase::BindingListener { ended: Some(told) })
            &&& spawning_actions.len() == 0
            &&& binding_actions.len() == 0
        }),
{
}

/// A worker that has started, though something ended meanwhile, never serves: it comes to what was noted,
/// stops the watch over its lease and its app-server, and releases the lease unless that is lost.
pub proof fn law_noted_end_is_reported_after_the_start(
    reason: ShutdownReason,
    next: RunPhase,
    actions: Seq<RunAction>,
)
    requires
        run_goes_on(
            RunPhase::BindingListener { ended: Some(reason) },
            RunEvent::ListenerBound(Ok(())),
            next,
            actions,
        ),
    ensures
        next == RunPhase::Finished(
            match reason {
                ShutdownReason::Signal => Ok(()),
                ShutdownReason::LeaseLost => Err(WorkerError::LeaseLost),
                ShutdownReason::LeaseMonitorStopped => Err(WorkerError::LeaseMonitorStopped),
                ShutdownReason::AppServerExited(reason) => Err(
                    WorkerError::AppServerExited { reason },
                ),
                ShutdownReason::HttpServerExited(detail) => Err(
                    WorkerError::HttpServerExited { detail },
                ),
                ShutdownReason::BackgroundTaskFailed(error) => Err(
                    WorkerError::BackgroundTaskFailed { error },
                ),
            },
        ),
        actions[0] == RunAction::StopLeaseMonitor,
        actions[1] == RunAction::AbortLeaseMonitor,
        actions[2] == (RunAction::ShutdownAppServer { grace_secs: 10 }),
        reason == ShutdownReason::LeaseLost ==> actions.len() == 3,
        reason != ShutdownReason::LeaseLost ==> actions.len() == 4 && actions[3]
            == RunAction::ReleaseLease,
{
}

/// A worker that starts one thing is not moved by the outcome of another, nor by a signal or by what only
/// a worker that serves has.
pub proof fn law_start_waits_for_what_is_started(
    phase: RunPhase,
    event: RunEvent,
    next: RunPhase,
    actions: Seq<RunAction>,
)
    requires
        phase is SpawningAppServer && (event is ListenerBound || event is Signal || event
            is HttpServerEnded || event is AppServerExited) || phase is BindingListener && (event
            is AppServerSpawned || event is Signal || event is HttpServerEnded),
        run_goes_on(phase, event, next, actions),
    ensures
        next == phase,
        actions.len() == 0,
{
}

/// Why an event can end a worker is told by the event alone, with its words as they are.
pub proof fn law_reason_is_told_by_the_event(event: RunEvent)
    ensures
        match event {
            RunEvent::Signal => reason_of(event) == Some(ShutdownReason::Signal),
            RunEvent::LeaseTaskEnded(Ok(LeaseMonitorResult::Lost)) => reason_of(event) == Some(
                ShutdownReason::LeaseLost,
            ),
            RunEvent::LeaseTaskEnded(Ok(LeaseMonitorResult::Stopped)) => reason_of(event) == Some(
                ShutdownReason::LeaseMonitorStopped,
            ),
            RunEvent::LeaseTaskEnded(Err(told)) => reason_of(event) == Some(
                ShutdownReason::BackgroundTaskFailed(told),
            ),
            RunEvent::AppServerExited(told) => reason_of(event) == Some(
                ShutdownReason::AppServerExited(told),
            ),
            RunEvent::HttpServerEnded(Ok(Ok(_))) => reason_of(event) == Some(
                ShutdownReason::HttpServerExited(None),
            ),
            RunEvent::HttpServerEnded(Ok(Err(told))) => reason_of(event) == Some(
                ShutdownReason::HttpServerExited(Some(told)),
            ),
            RunEvent::HttpServerEnded(Err(told)) => reason_of(event) == Some(
                ShutdownReason::HttpServerExited(Some(told)),
            ),
            _ => reason_of(event) is None,
        },
{
}

} // verus!
