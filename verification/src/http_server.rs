//! The worker's HTTP endpoints: health, and the WebSocket that carries JSON-RPC.
use crate::net::Method;
use vstd::prelude::*;

verus! {

/// Status of a healthy worker.
pub const STATUS_OK: u16 = 200;

/// Status of a request for a connection while there is one.
pub const STATUS_CONFLICT: u16 = 409;

/// Status of a worker that is not ready.
pub const STATUS_SERVICE_UNAVAILABLE: u16 = 503;

/// What answers a path.
#[derive(Clone, Copy, Debug, PartialEq, Eq, Structural)]
pub enum Endpoint {
    Live,
    Ready,
    Rpc,
}

/// What is answered to a request for a connection.
#[derive(Clone, Copy, Debug, PartialEq, Eq, Structural)]
pub enum RpcDecision {
    /// Open the connection.
    Upgrade,
    /// Answer with a status.
    Refuse { status: u16 },
}

/// What the endpoints share: whether the worker is ready, and its one slot for a connection.
#[derive(Debug)]
pub struct WorkerState {
    ready: bool,
    connected: bool,
}

/// The state that the endpoints share.
pub struct WorkerStatus {
    /// Whether the worker is ready.
    pub ready: bool,
    /// Whether the slot is taken.
    pub connected: bool,
}

/// What is answered to a request for a connection in a state.
pub open spec fn rpc_decision(s: WorkerStatus) -> RpcDecision {
    if !s.ready {
        RpcDecision::Refuse { status: STATUS_SERVICE_UNAVAILABLE }
    } else if s.connected {
        RpcDecision::Refuse { status: STATUS_CONFLICT }
    } else {
        RpcDecision::Upgrade
    }
}

/// The state after a request for a connection.
pub open spec fn after_rpc(s: WorkerStatus) -> WorkerStatus {
    WorkerStatus { connected: s.connected || s.ready, ..s }
}

impl View for WorkerState {
    type V = WorkerStatus;

    closed spec fn view(&self) -> WorkerStatus {
        WorkerStatus { ready: self.ready, connected: self.connected }
    }
}

/// All that is served: by which method, at which path, and what answers there.
pub fn router() -> (r: Vec<(Method, String, Endpoint)>)
    ensures
        r@.len() == 3,
        forall|i: int| 0 <= i < 3 ==> (#[trigger] r@[i]).0 == Method::Get,
        r@[0].1@ == "/health/live"@ && r@[0].2 == Endpoint::Live,
        r@[1].1@ == "/health/ready"@ && r@[1].2 == Endpoint::Ready,
        r@[2].1@ == "/rpc"@ && r@[2].2 == Endpoint::Rpc,
{
    let mut routes: Vec<(Method, String, Endpoint)> = Vec::new();
    routes.push((Method::Get, "/health/live".to_owned(), Endpoint::Live));
    routes.push((Method::Get, "/health/ready".to_owned(), Endpoint::Ready));
    routes.push((Method::Get, "/rpc".to_owned(), Endpoint::Rpc));
    routes
}

/// The status of a worker that runs at all.
pub fn live() -> (r: u16)
    ensures
        r == STATUS_OK,
{
    STATUS_OK
}

impl WorkerState {
    /// The state of a worker that is not ready yet.
    pub fn new() -> (r: Self)
        ensures
            r@ == (WorkerStatus { ready: false, connected: false }),
    {
        WorkerState { ready: false, connected: false }
    }

    /// Sets whether the worker is ready.
    pub fn set_ready(&mut self, ready: bool)
        ensures
            final(self)@ == (WorkerStatus { ready, ..old(self)@ }),
    {
        self.ready = ready;
    }

    /// The readiness status.
    pub fn ready(&self) -> (r: u16)
        ensures
            r == if self@.ready {
                STATUS_OK
            } else {
                STATUS_SERVICE_UNAVAILABLE
            },
    {
        if self.ready {
            STATUS_OK
        } else {
            STATUS_SERVICE_UNAVAILABLE
        }
    }

    /// Decides on a request for a connection, and takes the slot where one is opened.
    pub fn rpc(&mut self) -> (r: RpcDecision)
        ensures
            r == rpc_decision(old(self)@),
            final(self)@ == after_rpc(old(self)@),
    {
        if !self.ready {
            return RpcDecision::Refuse { status: STATUS_SERVICE_UNAVAILABLE };
        }
        if self.connected {
            return RpcDecision::Refuse { status: STATUS_CONFLICT };
        }
        self.connected = true;
        RpcDecision::Upgrade
    }

    /// Frees the slot when the connection is over.
    pub fn disconnect(&mut self)
        ensures
            final(self)@ == (WorkerStatus { connected: false, ..old(self)@ }),
    {
        self.connected = false;
    }
}

/// A use of the state.
pub enum StatusUse {
    SetReady(bool),
    Rpc,
    Disconnect,
}

/// The state after a row of uses.
pub open spec fn after_uses(s: WorkerStatus, uses: Seq<StatusUse>) -> WorkerStatus
    decreases uses.len(),
{
    if uses.len() == 0 {
        s
    } else {
        let before = after_uses(s, uses.drop_last());
        match uses.last() {
            StatusUse::SetReady(ready) => WorkerStatus { ready, ..before },
            StatusUse::Rpc => after_rpc(before),
            StatusUse::Disconnect => WorkerStatus { connected: false, ..before },
        }
    }
}

/// Whether the use at `i` opens a connection.
pub open spec fn opens(s: WorkerStatus, uses: Seq<StatusUse>, i: int) -> bool {
    &&& 0 <= i < uses.len()
    &&& uses[i] is Rpc
    &&& rpc_decision(after_uses(s, uses.take(i))) == RpcDecision::Upgrade
}

/// At most one connection is open at any time: of two that are opened, the first is over before
/// the second begins.
pub proof fn law_one_connection_at_a_time(s: WorkerStatus, uses: Seq<StatusUse>, i: int, j: int)
    requires
        i < j,
        opens(s, uses, i),
        opens(s, uses, j),
    ensures
        exists|k: int| i < k < j && #[trigger] uses[k] is Disconnect,
{
    if forall|k: int| i < k < j ==> !(#[trigger] uses[k] is Disconnect) {
        lemma_stays_connected(s, uses, i, j);
    }
}

proof fn lemma_stays_connected(s: WorkerStatus, uses: Seq<StatusUse>, i: int, j: int)
    requires
        i < j <= uses.len(),
        opens(s, uses, i),
        forall|k: int| i < k < j ==> !(#[trigger] uses[k] is Disconnect),
    ensures
        after_uses(s, uses.take(j)).connected,
    decreases j,
{
    assert(uses.take(j).drop_last() =~= uses.take(j - 1));
    assert(uses.take(j).last() == uses[j - 1]);
    if j - 1 > i {
        lemma_stays_connected(s, uses, i, j - 1);
    }
}

/// A connection is opened only by a worker that is ready.
pub proof fn law_only_a_ready_worker_connects(s: WorkerStatus)
    requires
        rpc_decision(s) == RpcDecision::Upgrade,
    ensures
        s.ready && !s.connected,
{
}

/// A request for a connection is answered by 503 where the worker is not ready, by 409 where it is ready
/// and has a connection, and by a connection where it is ready and has none. Only that last takes the
/// slot, and nothing else changes.
pub proof fn law_connection_is_given_to_the_first(s: WorkerStatus)
    ensures
        !s.ready ==> rpc_decision(s) == (RpcDecision::Refuse { status: 503 }) && after_rpc(s) == s,
        s.ready && s.connected ==> rpc_decision(s) == (RpcDecision::Refuse { status: 409 })
            && after_rpc(s) == s,
        s.ready && !s.connected ==> rpc_decision(s) == RpcDecision::Upgrade && after_rpc(s).connected,
        after_rpc(s).ready == s.ready,
{
}

/// A worker that is ready gives a connection again once the last is over.
pub proof fn law_freed_slot_can_be_taken_again(s: WorkerStatus)
    requires
        s.ready,
    ensures
        rpc_decision(WorkerStatus { connected: false, ..after_rpc(s) }) == RpcDecision::Upgrade,
{
}

} // verus!
