//! The watch over a lease: heartbeats, fencing, and the local enforcement of the lease's time.
//!
//! The machine performs nothing. Its phase says what is to be done next, and what came of it is
//! handed back as an event. Whatever it waits for, it is told when the time of the lease is over.
use crate::config::{Config, HEARTBEAT_INTERVAL_SECS, MAX_MISSED_HEARTBEATS};
use crate::control_plane::{
    is_fencing_status, is_success_status, renew_verdict, ControlPlaneClient, Lease,
    LeaseMonitorResult, RenewResult, Reply,
};
use crate::error::WorkerError;
use vstd::prelude::*;

verus! {

/// Nanoseconds in a second.
pub const NANOS_PER_SEC: u128 = 1_000_000_000;

/// What the monitor is at.
#[derive(Clone, Copy, Debug, PartialEq, Eq, Structural)]
pub enum MonitorPhase {
    /// It waits for the next heartbeat to fall due, or to be told to stop.
    Waiting,
    /// It waits for what a heartbeat comes to.
    Renewing,
    /// It is done.
    Done(LeaseMonitorResult),
}

/// What happens to the monitor.
#[derive(Debug, PartialEq, Eq)]
pub enum MonitorEvent {
    /// The stop signal changed: `stop` is its value, `closed` tells that it will not change again
    /// because its sender is gone.
    StopSignal { closed: bool, stop: bool },
    /// The heartbeat interval has passed.
    IntervalElapsed,
    /// A heartbeat came to `outcome` at the time `now`.
    RenewFinished { outcome: Result<RenewResult, WorkerError>, now: u128 },
    /// The time that the lease had left has passed; it is `now`.
    DeadlineReached { now: u128 },
}

/// The watch over one lease. Times are nanoseconds on a monotonic clock.
#[derive(Debug)]
pub struct LeaseMonitor {
    interval_secs: u64,
    ttl_secs: u64,
    failures: u32,
    last_success: u128,
    phase: MonitorPhase,
}

/// The state of a monitor.
pub struct MonitorState {
    /// Seconds between two heartbeats.
    pub interval_secs: u64,
    /// Nanoseconds that the lease lasts after a successful heartbeat.
    pub ttl: nat,
    /// How many heartbeats failed since the last successful one.
    pub failures: nat,
    /// When the last heartbeat succeeded, or else when the monitor started.
    pub last_success: nat,
    /// What the monitor is at.
    pub phase: MonitorPhase,
}

/// `secs` in nanoseconds.
pub open spec fn nanos(secs: u64) -> nat {
    (secs * NANOS_PER_SEC) as nat
}

/// The time from `since` to `now`, none where the clock stands earlier.
pub open spec fn elapsed(since: nat, now: nat) -> nat {
    if now < since {
        0
    } else {
        (now - since) as nat
    }
}

/// A monitor that starts at `now` over a lease of `ttl_secs`. Heartbeats that come no faster than
/// the lease runs out cannot keep it.
pub open spec fn monitor_start(interval_secs: u64, ttl_secs: u64, now: nat) -> MonitorState {
    MonitorState {
        interval_secs,
        ttl: nanos(ttl_secs),
        failures: 0,
        last_success: now,
        phase: if interval_secs >= ttl_secs {
            MonitorPhase::Done(LeaseMonitorResult::Lost)
        } else {
            MonitorPhase::Waiting
        },
    }
}

/// Whether the time of the lease is over at `now`.
pub open spec fn expired(s: MonitorState, now: nat) -> bool {
    elapsed(s.last_success, now) >= s.ttl
}

/// Nanoseconds that the lease has left at `now`.
pub open spec fn left(s: MonitorState, now: nat) -> nat {
    if expired(s, now) {
        0
    } else {
        (s.ttl - elapsed(s.last_success, now)) as nat
    }
}

/// Whether a heartbeat that failed at `now` costs the lease.
pub open spec fn failure_is_fatal(s: MonitorState, now: nat) -> bool {
    s.failures + 1 >= MAX_MISSED_HEARTBEATS || expired(s, now)
}

/// What a heartbeat does to the state.
pub open spec fn after_heartbeat(
    s: MonitorState,
    outcome: Result<RenewResult, WorkerError>,
    now: nat,
) -> MonitorState {
    match outcome {
        Ok(RenewResult::Renewed) => MonitorState {
            failures: 0,
            last_success: now,
            phase: MonitorPhase::Waiting,
            ..s
        },
        Ok(RenewResult::Fenced) => MonitorState {
            phase: MonitorPhase::Done(LeaseMonitorResult::Lost),
            ..s
        },
        Err(_) => MonitorState {
            failures: s.failures + 1,
            phase: if failure_is_fatal(s, now) {
                MonitorPhase::Done(LeaseMonitorResult::Lost)
            } else {
                MonitorPhase::Waiting
            },
            ..s
        },
    }
}

/// What an event does to the state. An event that the monitor does not wait for does nothing.
pub open spec fn monitor_step(s: MonitorState, event: MonitorEvent) -> MonitorState {
    match (s.phase, event) {
        (MonitorPhase::Waiting, MonitorEvent::StopSignal { closed, stop }) => if closed || stop {
            MonitorState { phase: MonitorPhase::Done(LeaseMonitorResult::Stopped), ..s }
        } else {
            s
        },
        (MonitorPhase::Waiting, MonitorEvent::IntervalElapsed) => MonitorState {
            phase: MonitorPhase::Renewing,
            ..s
        },
        (MonitorPhase::Renewing, MonitorEvent::RenewFinished { outcome, now }) => after_heartbeat(
            s,
            outcome,
            now as nat,
        ),
        (MonitorPhase::Waiting, MonitorEvent::DeadlineReached { now }) => after_deadline(
            s,
            now as nat,
        ),
        (MonitorPhase::Renewing, MonitorEvent::DeadlineReached { now }) => after_deadline(
            s,
            now as nat,
        ),
        _ => s,
    }
}

/// What a look at the clock does to the state: a lease whose time is over is lost.
pub open spec fn after_deadline(s: MonitorState, now: nat) -> MonitorState {
    if expired(s, now) {
        MonitorState { phase: MonitorPhase::Done(LeaseMonitorResult::Lost), ..s }
    } else {
        s
    }
}

impl View for LeaseMonitor {
    type V = MonitorState;

    closed spec fn view(&self) -> MonitorState {
        MonitorState {
            interval_secs: self.interval_secs,
            ttl: nanos(self.ttl_secs),
            failures: self.failures as nat,
            last_success: self.last_success as nat,
            phase: self.phase,
        }
    }
}

impl ControlPlaneClient {
    /// Starts the watch over `lease` at the time `now`.
    pub fn monitor(&self, config: &Config, lease: &Lease, now: u128) -> (r: LeaseMonitor)
        ensures
            r@ == monitor_start(HEARTBEAT_INTERVAL_SECS, lease.lease_ttl_seconds, now as nat),
    {
        let interval_secs: u64 = config.heartbeat_interval();
        let ttl_secs: u64 = lease.lease_ttl_seconds;
        let phase = if interval_secs >= ttl_secs {
            MonitorPhase::Done(LeaseMonitorResult::Lost)
        } else {
            MonitorPhase::Waiting
        };
        LeaseMonitor { interval_secs, ttl_secs, failures: 0, last_success: now, phase }
    }
}

impl LeaseMonitor {
    /// While the monitor runs, too few heartbeats have failed to lose the lease.
    #[verifier::type_invariant]
    spec fn inv(self) -> bool {
        self.phase !is Done ==> self.failures < MAX_MISSED_HEARTBEATS
    }

    /// What the monitor is at.
    pub fn phase(&self) -> (r: MonitorPhase)
        ensures
            r == self@.phase,
    {
        self.phase
    }

    /// Seconds to wait for the next heartbeat.
    pub fn interval_secs(&self) -> (r: u64)
        ensures
            r == self@.interval_secs,
    {
        self.interval_secs
    }

    /// Nanoseconds from `now` to the deadline: whatever else the monitor waits for, it is to be told
    /// when they have passed.
    pub fn time_left(&self, now: u128) -> (r: u128)
        ensures
            r == left(self@, now as nat),
    {
        let since: u128 = if now < self.last_success {
            0
        } else {
            now - self.last_success
        };
        let ttl: u128 = self.ttl_secs as u128 * NANOS_PER_SEC;
        if since >= ttl {
            0
        } else {
            ttl - since
        }
    }

    /// Takes in an event.
    pub fn step(self, event: MonitorEvent) -> (r: Self)
        ensures
            r@ == monitor_step(self@, event),
    {
        proof {
            use_type_invariant(&self);
        }
        match (self.phase, event) {
            (MonitorPhase::Waiting, MonitorEvent::StopSignal { closed, stop }) => {
                if closed || stop {
                    LeaseMonitor {
                        phase: MonitorPhase::Done(LeaseMonitorResult::Stopped),
                        ..self
                    }
                } else {
                    self
                }
            },
            (MonitorPhase::Waiting, MonitorEvent::IntervalElapsed) => {
                LeaseMonitor { phase: MonitorPhase::Renewing, ..self }
            },
            (MonitorPhase::Renewing, MonitorEvent::RenewFinished { outcome, now }) => {
                self.heartbeat_finished(outcome, now)
            },
            (
                MonitorPhase::Waiting | MonitorPhase::Renewing,
                MonitorEvent::DeadlineReached { now },
            ) => {
                if self.time_left(now) == 0 {
                    LeaseMonitor { phase: MonitorPhase::Done(LeaseMonitorResult::Lost), ..self }
                } else {
                    self
                }
            },
            _ => self,
        }
    }

    fn heartbeat_finished(self, outcome: Result<RenewResult, WorkerError>, now: u128) -> (r: Self)
        requires
            self@.phase == MonitorPhase::Renewing,
        ensures
            r@ == after_heartbeat(self@, outcome, now as nat),
    {
        proof {
            use_type_invariant(&self);
        }
        match outcome {
            Ok(RenewResult::Renewed) => LeaseMonitor {
                failures: 0,
                last_success: now,
                phase: MonitorPhase::Waiting,
                ..self
            },
            Ok(RenewResult::Fenced) => LeaseMonitor {
                phase: MonitorPhase::Done(LeaseMonitorResult::Lost),
                ..self
            },
            Err(_) => {
                let failures: u32 = self.failures + 1;
                let phase = if failures >= MAX_MISSED_HEARTBEATS || self.time_left(now) == 0 {
                    MonitorPhase::Done(LeaseMonitorResult::Lost)
                } else {
                    MonitorPhase::Waiting
                };
                LeaseMonitor { failures, phase, ..self }
            },
        }
    }
}

/// A heartbeat: what it came to, and when.
pub struct Heartbeat {
    pub outcome: Result<RenewResult, WorkerError>,
    pub now: u128,
}

/// The state after a row of events.
pub open spec fn after_events(s: MonitorState, events: Seq<MonitorEvent>) -> MonitorState
    decreases events.len(),
{
    if events.len() == 0 {
        s
    } else {
        monitor_step(after_events(s, events.drop_last()), events.last())
    }
}

/// The heartbeats that finished in a row of events, those that the monitor waited for.
pub open spec fn heartbeats(s: MonitorState, events: Seq<MonitorEvent>) -> Seq<Heartbeat>
    decreases events.len(),
{
    if events.len() == 0 {
        Seq::empty()
    } else {
        let before = heartbeats(s, events.drop_last());
        match (after_events(s, events.drop_last()).phase, events.last()) {
            (MonitorPhase::Renewing, MonitorEvent::RenewFinished { outcome, now }) => before.push(
                Heartbeat { outcome, now },
            ),
            _ => before,
        }
    }
}

/// The time of the last successful one of the heartbeats, or else the start.
pub open spec fn last_renewal(start: nat, beats: Seq<Heartbeat>) -> nat
    decreases beats.len(),
{
    if beats.len() == 0 {
        start
    } else if beats.last().outcome == Ok::<_, WorkerError>(RenewResult::Renewed) {
        beats.last().now as nat
    } else {
        last_renewal(start, beats.drop_last())
    }
}

/// Whether the last three heartbeats failed.
pub open spec fn third_failure(beats: Seq<Heartbeat>) -> bool {
    let n = beats.len();
    &&& n >= 3
    &&& beats[n - 1].outcome is Err
    &&& beats[n - 2].outcome is Err
    &&& beats[n - 3].outcome is Err
}

/// Whether the event at `i` costs the lease of a monitor that started in `s` and runs until then: a
/// heartbeat that is fenced, or the third failure in a row, or a failure when the time of the lease
/// is over; or, whatever the monitor waits for, the end of that time itself.
pub open spec fn costs_lease(s: MonitorState, events: Seq<MonitorEvent>, i: int) -> bool {
    let beats = heartbeats(s, events.take(i));
    let renewed = last_renewal(s.last_success, beats);
    match (after_events(s, events.take(i)).phase, events[i]) {
        (MonitorPhase::Renewing, MonitorEvent::RenewFinished { outcome, now }) => {
            ||| outcome == Ok::<_, WorkerError>(RenewResult::Fenced)
            ||| third_failure(beats.push(Heartbeat { outcome, now }))
            ||| outcome is Err && elapsed(renewed, now as nat) >= s.ttl
        },
        (phase, MonitorEvent::DeadlineReached { now }) => {
            &&& phase !is Done
            &&& elapsed(renewed, now as nat) >= s.ttl
        },
        _ => false,
    }
}

/// Whether the event at `i` tells a monitor that started in `s` and waits to stop.
pub open spec fn tells_to_stop(s: MonitorState, events: Seq<MonitorEvent>, i: int) -> bool {
    &&& after_events(s, events.take(i)).phase == MonitorPhase::Waiting
    &&& events[i] matches MonitorEvent::StopSignal { closed, stop } && (closed || stop)
}

/// A monitor that is done takes in nothing more.
pub proof fn law_done_is_final(s: MonitorState, events: Seq<MonitorEvent>)
    requires
        s.phase is Done,
    ensures
        after_events(s, events) == s,
    decreases events.len(),
{
    if events.len() > 0 {
        law_done_is_final(s, events.drop_last());
    }
}

/// The monitor reports that it was stopped only where it was told to stop, or where nobody is left
/// who could tell it.
pub proof fn law_stopped_only_when_told(s: MonitorState, event: MonitorEvent)
    requires
        s.phase != MonitorPhase::Done(LeaseMonitorResult::Stopped),
        monitor_step(s, event).phase == MonitorPhase::Done(LeaseMonitorResult::Stopped),
    ensures
        s.phase == MonitorPhase::Waiting,
        event matches MonitorEvent::StopSignal { closed, stop } && (closed || stop),
{
}

/// Whatever happens, a monitor that still runs has an interval shorter than the time of its lease, and
/// fewer than three heartbeats have failed since the last successful one.
pub proof fn law_running_monitor_is_below_the_threshold(
    interval_secs: u64,
    ttl_secs: u64,
    now: nat,
    events: Seq<MonitorEvent>,
)
    ensures
        ({
            let s = after_events(monitor_start(interval_secs, ttl_secs, now), events);
            s.phase !is Done ==> nanos(s.interval_secs) < s.ttl && s.failures
                < MAX_MISSED_HEARTBEATS
        }),
        ({
            let s = after_events(monitor_start(interval_secs, ttl_secs, now), events);
            s.interval_secs == interval_secs && s.ttl == nanos(ttl_secs)
        }),
    decreases events.len(),
{
    if events.len() > 0 {
        law_running_monitor_is_below_the_threshold(interval_secs, ttl_secs, now, events.drop_last());
    }
}

/// The failures in a row that the heartbeats end with.
spec fn failures_at_end(beats: Seq<Heartbeat>) -> nat
    decreases beats.len(),
{
    if beats.len() == 0 || beats.last().outcome !is Err {
        0
    } else {
        failures_at_end(beats.drop_last()) + 1
    }
}

proof fn lemma_third_failure(beats: Seq<Heartbeat>)
    ensures
        third_failure(beats) <==> failures_at_end(beats) >= 3,
{
    reveal_with_fuel(failures_at_end, 4);
}

/// What is true of a monitor that started in `s` after a row of events.
spec fn explained(s: MonitorState, events: Seq<MonitorEvent>) -> bool {
    let now = after_events(s, events);
    match now.phase {
        MonitorPhase::Done(LeaseMonitorResult::Lost) => exists|i: int|
            0 <= i < events.len() && #[trigger] costs_lease(s, events, i),
        MonitorPhase::Done(LeaseMonitorResult::Stopped) => exists|i: int|
            0 <= i < events.len() && #[trigger] tells_to_stop(s, events, i),
        _ => {
            &&& now.ttl == s.ttl
            &&& now.failures == failures_at_end(heartbeats(s, events))
            &&& now.last_success == last_renewal(s.last_success, heartbeats(s, events))
        },
    }
}

proof fn lemma_take(s: MonitorState, events: Seq<MonitorEvent>, i: int)
    requires
        0 <= i < events.len() - 1,
    ensures
        costs_lease(s, events.drop_last(), i) == costs_lease(s, events, i),
        tells_to_stop(s, events.drop_last(), i) == tells_to_stop(s, events, i),
{
    assert(events.drop_last().take(i) =~= events.take(i));
}

proof fn lemma_explained(s: MonitorState, events: Seq<MonitorEvent>)
    requires
        s.phase == MonitorPhase::Waiting,
        s.failures == 0,
    ensures
        explained(s, events),
    decreases events.len(),
{
    if events.len() > 0 {
        let prev = events.drop_last();
        let last = events.len() - 1;
        let before = after_events(s, prev);
        lemma_explained(s, prev);
        assert(events.take(last) =~= prev);
        match before.phase {
            MonitorPhase::Done(LeaseMonitorResult::Lost) => {
                let i = choose|i: int| 0 <= i < prev.len() && #[trigger] costs_lease(s, prev, i);
                lemma_take(s, events, i);
                assert(costs_lease(s, events, i));
            },
            MonitorPhase::Done(LeaseMonitorResult::Stopped) => {
                let i = choose|i: int| 0 <= i < prev.len() && #[trigger] tells_to_stop(s, prev, i);
                lemma_take(s, events, i);
                assert(tells_to_stop(s, events, i));
            },
            _ => {
                let beats = heartbeats(s, prev);
                if let MonitorEvent::RenewFinished { outcome, now } = events.last() {
                    let more = beats.push(Heartbeat { outcome, now });
                    assert(more.drop_last() =~= beats);
                    lemma_third_failure(more);
                }
                let after = after_events(s, events);
                if after.phase == MonitorPhase::Done(LeaseMonitorResult::Lost) {
                    assert(costs_lease(s, events, last));
                } else if after.phase == MonitorPhase::Done(LeaseMonitorResult::Stopped) {
                    assert(tells_to_stop(s, events, last));
                }
            },
        }
    }
}

/// What the event at `i` decides, no later event undoes.
proof fn lemma_decided(s: MonitorState, events: Seq<MonitorEvent>, i: int)
    requires
        s.phase == MonitorPhase::Waiting,
        s.failures == 0,
        0 <= i < events.len(),
    ensures
        costs_lease(s, events, i) ==> after_events(s, events).phase == MonitorPhase::Done(
            LeaseMonitorResult::Lost,
        ),
        tells_to_stop(s, events, i) ==> after_events(s, events).phase == MonitorPhase::Done(
            LeaseMonitorResult::Stopped,
        ),
    decreases events.len(),
{
    let prev = events.drop_last();
    if i < prev.len() {
        lemma_take(s, events, i);
        lemma_decided(s, prev, i);
    } else {
        assert(events.take(i) =~= prev);
        lemma_explained(s, prev);
        if let MonitorEvent::RenewFinished { outcome, now } = events.last() {
            let more = heartbeats(s, prev).push(Heartbeat { outcome, now });
            assert(more.drop_last() =~= heartbeats(s, prev));
            lemma_third_failure(more);
        }
    }
}

/// The monitor gives a lease up exactly when an event costs it: when a heartbeat is fenced, when a
/// third one in a row fails, when one fails after the time of the lease is over, or when that time is
/// over, whatever the monitor waits for. It reports that it was stopped exactly when it was told to
/// stop. Else it runs on.
pub proof fn law_lease_is_lost_exactly_when_an_event_costs_it(
    interval_secs: u64,
    ttl_secs: u64,
    start: nat,
    events: Seq<MonitorEvent>,
)
    requires
        interval_secs < ttl_secs,
    ensures
        ({
            let s = monitor_start(interval_secs, ttl_secs, start);
            let phase = after_events(s, events).phase;
            &&& phase == MonitorPhase::Done(LeaseMonitorResult::Lost) <==> exists|i: int|
                0 <= i < events.len() && #[trigger] costs_lease(s, events, i)
            &&& phase == MonitorPhase::Done(LeaseMonitorResult::Stopped) <==> exists|i: int|
                0 <= i < events.len() && #[trigger] tells_to_stop(s, events, i)
        }),
{
    let s = monitor_start(interval_secs, ttl_secs, start);
    lemma_explained(s, events);
    assert forall|i: int| 0 <= i < events.len() && #[trigger] costs_lease(s, events, i) implies
        after_events(s, events).phase == MonitorPhase::Done(LeaseMonitorResult::Lost) by {
        lemma_decided(s, events, i);
    }
    assert forall|i: int| 0 <= i < events.len() && #[trigger] tells_to_stop(s, events, i) implies
        after_events(s, events).phase == MonitorPhase::Done(LeaseMonitorResult::Stopped) by {
        lemma_decided(s, events, i);
    }
}

/// A monitor that runs on after a look at the clock holds a lease whose time is not over: counted from
/// the last successful heartbeat, or else from the start, less than that time has passed.
pub proof fn law_running_lease_is_not_over(
    interval_secs: u64,
    ttl_secs: u64,
    start: nat,
    events: Seq<MonitorEvent>,
    now: u128,
)
    requires
        events.len() > 0,
        events.last() == (MonitorEvent::DeadlineReached { now }),
        after_events(monitor_start(interval_secs, ttl_secs, start), events).phase !is Done,
    ensures
        ({
            let s = monitor_start(interval_secs, ttl_secs, start);
            &&& elapsed(last_renewal(start, heartbeats(s, events)), now as nat) < nanos(ttl_secs)
            &&& elapsed(after_events(s, events).last_success, now as nat) < nanos(ttl_secs)
        }),
{
    let s = monitor_start(interval_secs, ttl_secs, start);
    if s.phase is Done {
        law_done_is_final(s, events);
    } else {
        lemma_explained(s, events);
        lemma_explained(s, events.drop_last());
    }
}

/// A monitor that runs, and is told once the time that its lease had left has passed, gives the lease
/// up, whatever it waits for.
pub proof fn law_lease_is_given_up_at_its_deadline(s: MonitorState, now: nat, later: u128)
    requires
        s.phase !is Done,
        s.last_success <= now,
        later >= now + left(s, now),
    ensures
        monitor_step(s, MonitorEvent::DeadlineReached { now: later }).phase == MonitorPhase::Done(
            LeaseMonitorResult::Lost,
        ),
{
}

/// A response by which the control plane fences the worker costs the lease at once.
pub proof fn law_fencing_response_costs_the_lease(
    s: MonitorState,
    status: u16,
    refusal: String,
    now: u128,
)
    requires
        s.phase == MonitorPhase::Renewing,
        is_fencing_status(status),
    ensures
        monitor_step(
            s,
            MonitorEvent::RenewFinished {
                outcome: renew_verdict(Reply::Received { status, refusal, body: () }),
                now,
            },
        ).phase == MonitorPhase::Done(LeaseMonitorResult::Lost),
{
}

/// A 2xx response renews the lease: earlier failures no longer count, and its time runs anew.
pub proof fn law_successful_response_renews(
    s: MonitorState,
    status: u16,
    refusal: String,
    now: u128,
)
    requires
        s.phase == MonitorPhase::Renewing,
        is_success_status(status),
    ensures
        monitor_step(
            s,
            MonitorEvent::RenewFinished {
                outcome: renew_verdict(Reply::Received { status, refusal, body: () }),
                now,
            },
        ) == (MonitorState {
            failures: 0,
            last_success: now as nat,
            phase: MonitorPhase::Waiting,
            ..s
        }),
{
}

/// Anything else, another status or no response at all, is a failure: it counts against the
/// threshold and leaves the time of the lease running.
pub proof fn law_other_failures_count(s: MonitorState, reply: Reply<()>, now: u128)
    requires
        s.phase == MonitorPhase::Renewing,
        match reply {
            Reply::NotSent { .. } => true,
            Reply::Received { status, .. } => !is_success_status(status) && !is_fencing_status(status),
        },
    ensures
        ({
            let next = monitor_step(
                s,
                MonitorEvent::RenewFinished { outcome: renew_verdict(reply), now },
            );
            &&& next.failures == s.failures + 1
            &&& next.last_success == s.last_success
            &&& next.phase == if failure_is_fatal(s, now as nat) {
                MonitorPhase::Done(LeaseMonitorResult::Lost)
            } else {
                MonitorPhase::Waiting
            }
        }),
{
}

/// The watch over a lease starts with a whole lease and no failure. It waits for the first heartbeat
/// exactly where that falls due before the lease is over; else the lease is lost from the start.
pub proof fn law_watch_starts_with_a_whole_lease(interval_secs: u64, ttl_secs: u64, now: nat)
    ensures
        ({
            let s = monitor_start(interval_secs, ttl_secs, now);
            &&& s.interval_secs == interval_secs
            &&& s.ttl == ttl_secs * 1_000_000_000
            &&& s.failures == 0
            &&& s.last_success == now
            &&& interval_secs < ttl_secs ==> s.phase == MonitorPhase::Waiting
            &&& interval_secs >= ttl_secs ==> s.phase == MonitorPhase::Done(
                LeaseMonitorResult::Lost,
            )
        }),
{
}

/// A monitor that waits and whose interval has passed goes on to send a heartbeat, whatever its earlier
/// heartbeats came to, and nothing else about it changes.
pub proof fn law_heartbeat_follows_each_interval(s: MonitorState)
    requires
        s.phase == MonitorPhase::Waiting,
    ensures
        ({
            let next = monitor_step(s, MonitorEvent::IntervalElapsed);
            &&& next.phase == MonitorPhase::Renewing
            &&& next.interval_secs == s.interval_secs
            &&& next.ttl == s.ttl
            &&& next.failures == s.failures
            &&& next.last_success == s.last_success
        }),
{
}

/// A successful heartbeat clears the failures, sets the clock of the lease to its own time, and lets the
/// monitor wait for the next; a fenced one costs the lease.
pub proof fn law_successful_heartbeat_starts_the_lease_anew(s: MonitorState, now: u128)
    requires
        s.phase == MonitorPhase::Renewing,
    ensures
        ({
            let next = monitor_step(
                s,
                MonitorEvent::RenewFinished { outcome: Ok(RenewResult::Renewed), now },
            );
            &&& next.phase == MonitorPhase::Waiting
            &&& next.failures == 0
            &&& next.last_success == now
            &&& next.ttl == s.ttl
            &&& next.interval_secs == s.interval_secs
        }),
        monitor_step(
            s,
            MonitorEvent::RenewFinished { outcome: Ok(RenewResult::Fenced), now },
        ).phase == MonitorPhase::Done(LeaseMonitorResult::Lost),
{
}

/// A failed heartbeat is counted, for whatever reason it failed, and leaves the clock of the lease as it
/// is. It costs the lease exactly where two have failed before it since the last success, or where the
/// time of the lease is over by then; else the monitor waits for the next.
pub proof fn law_failed_heartbeat_is_counted(s: MonitorState, error: WorkerError, now: u128)
    requires
        s.phase == MonitorPhase::Renewing,
        s.ttl > 0,
    ensures
        ({
            let next = monitor_step(s, MonitorEvent::RenewFinished { outcome: Err(error), now });
            &&& next.failures == s.failures + 1
            &&& next.last_success == s.last_success
            &&& next.ttl == s.ttl
            &&& next.interval_secs == s.interval_secs
            &&& (s.failures >= 2 || now >= s.last_success + s.ttl) ==> next.phase
                == MonitorPhase::Done(LeaseMonitorResult::Lost)
            &&& (s.failures < 2 && now < s.last_success + s.ttl) ==> next.phase
                == MonitorPhase::Waiting
        }),
{
}

/// A monitor that runs and looks at the clock gives the lease up exactly where its time is over, whatever
/// it waits for; else nothing about it changes.
pub proof fn law_lease_is_over_exactly_after_its_time(s: MonitorState, now: u128)
    requires
        s.phase == MonitorPhase::Waiting || s.phase == MonitorPhase::Renewing,
        s.ttl > 0,
    ensures
        ({
            let next = monitor_step(s, MonitorEvent::DeadlineReached { now });
            &&& now >= s.last_success + s.ttl ==> next.phase == MonitorPhase::Done(
                LeaseMonitorResult::Lost,
            )
            &&& now < s.last_success + s.ttl ==> next == s
        }),
{
}

/// The time that a lease has left ends exactly when the lease does: counted from now, it reaches to the
/// last successful heartbeat plus the time of the lease, and is none after that.
pub proof fn law_time_left_ends_with_the_lease(s: MonitorState, now: nat)
    ensures
        s.last_success <= now < s.last_success + s.ttl ==> now + left(s, now) == s.last_success
            + s.ttl,
        s.last_success <= now && now >= s.last_success + s.ttl ==> left(s, now) == 0,
        now < s.last_success ==> left(s, now) == s.ttl,
{
}

/// A monitor that waits stops exactly where it is told to, or where nobody is left who could tell it; any
/// other change of the signal leaves it as it is.
pub proof fn law_waiting_monitor_stops_when_told(s: MonitorState, closed: bool, stop: bool)
    requires
        s.phase == MonitorPhase::Waiting,
    ensures
        ({
            let next = monitor_step(s, MonitorEvent::StopSignal { closed, stop });
            &&& closed || stop ==> next.phase == MonitorPhase::Done(LeaseMonitorResult::Stopped)
            &&& !closed && !stop ==> next == s
        }),
{
}

/// A monitor whose heartbeat is under way goes on with it, and one that waits for its interval goes on
/// with that: an event that belongs to another phase changes nothing.
pub proof fn law_monitor_finishes_what_it_is_at(s: MonitorState, event: MonitorEvent)
    requires
        s.phase == MonitorPhase::Renewing && (event is IntervalElapsed || event is StopSignal)
            || s.phase == MonitorPhase::Waiting && event is RenewFinished,
    ensures
        monitor_step(s, event) == s,
{
}

/// The events of a watch in which every heartbeat succeeds: for each of the times, the interval passes
/// and then a heartbeat succeeds at that time.
pub open spec fn healthy_watch(times: Seq<u128>) -> Seq<MonitorEvent>
    decreases times.len(),
{
    if times.len() == 0 {
        Seq::empty()
    } else {
        healthy_watch(times.drop_last()).push(MonitorEvent::IntervalElapsed).push(
            MonitorEvent::RenewFinished { outcome: Ok(RenewResult::Renewed), now: times.last() },
        )
    }
}

/// A watch in which every heartbeat succeeds goes on for ever: after each of them the monitor waits for
/// the next, with no failure and a whole lease, and sends it once the interval has passed.
pub proof fn law_healthy_lease_is_kept_for_ever(
    interval_secs: u64,
    ttl_secs: u64,
    start: nat,
    times: Seq<u128>,
)
    requires
        interval_secs < ttl_secs,
    ensures
        ({
            let s = after_events(
                monitor_start(interval_secs, ttl_secs, start),
                healthy_watch(times),
            );
            &&& s.phase == MonitorPhase::Waiting
            &&& s.failures == 0
            &&& s.ttl == ttl_secs * 1_000_000_000
            &&& s.last_success == if times.len() == 0 {
                start
            } else {
                times.last() as nat
            }
            &&& monitor_step(s, MonitorEvent::IntervalElapsed).phase == MonitorPhase::Renewing
        }),
    decreases times.len(),
{
    let s = monitor_start(interval_secs, ttl_secs, start);
    if times.len() > 0 {
        let before = healthy_watch(times.drop_last());
        law_healthy_lease_is_kept_for_ever(interval_secs, ttl_secs, start, times.drop_last());
        let due = before.push(MonitorEvent::IntervalElapsed);
        assert(due.drop_last() =~= before);
        assert(healthy_watch(times).drop_last() =~= due);
        assert(after_events(s, due) == monitor_step(
            after_events(s, before),
            MonitorEvent::IntervalElapsed,
        ));
    }
}

} // verus!
