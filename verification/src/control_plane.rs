//! The control plane: what is asked of it, and what its answers mean.
use crate::config::Config;
use crate::error::{Step, WorkerError};
use crate::net::{IpAddress, Method};
use crate::text::{trim_trailing_slashes, without_trailing_slashes};
use vstd::prelude::*;

verus! {

/// The lease of a home shard.
#[derive(Debug, PartialEq, Eq)]
pub struct Lease {
    pub home_shard_id: String,
    pub lease_token: String,
    pub generation: u64,
    pub lease_ttl_seconds: u64,
}

/// How the watch over a lease ended.
#[derive(Clone, Copy, Debug, PartialEq, Eq, Structural)]
pub enum LeaseMonitorResult {
    /// It was asked to stop.
    Stopped,
    /// The lease is gone.
    Lost,
}

/// What became of a heartbeat that the control plane answered.
#[derive(Clone, Copy, Debug, PartialEq, Eq, Structural)]
pub enum RenewResult {
    Renewed,
    /// Another worker may hold the shard.
    Fenced,
}

/// What a request tells.
#[derive(Debug, PartialEq, Eq)]
pub enum RequestBody {
    /// Who claims a shard.
    Claim { instance_ip: IpAddress },
    /// Which lease is meant.
    Lease { lease_token: String, generation: u64 },
}

/// The value of a member of a JSON body.
#[derive(Debug, PartialEq, Eq)]
pub enum MemberValue {
    Text(String),
    Number(u64),
    /// An IP address in its usual writing, as a text.
    Address(IpAddress),
}

/// A request to the control plane.
#[derive(Debug, PartialEq, Eq)]
pub struct ControlPlaneRequest {
    pub method: Method,
    pub url: String,
    pub body: RequestBody,
}

/// What came of sending a request.
#[derive(Debug, PartialEq, Eq)]
pub enum Reply<B> {
    /// There is no response.
    NotSent { cause: String },
    /// A response came. `refusal` words what is wrong with its status, where something is; `body`
    /// is what the response carries, and counts only where the status is no error.
    Received { status: u16, refusal: String, body: B },
}

/// The client of one control plane.
#[derive(Debug, PartialEq, Eq)]
pub struct ControlPlaneClient {
    base_url: String,
}

/// A 4xx or 5xx status.
pub open spec fn is_error_status(status: u16) -> bool {
    400 <= status < 600
}

/// A 2xx status.
pub open spec fn is_success_status(status: u16) -> bool {
    200 <= status < 300
}

/// The statuses by which the control plane fences a worker: conflict, gone, locked.
pub open spec fn is_fencing_status(status: u16) -> bool {
    status == 409 || status == 410 || status == 423
}

/// The path of an action on a leased shard.
pub open spec fn lease_path(home_shard_id: Seq<char>, action: Seq<char>) -> Seq<char> {
    "/api/v1/home-shards/"@ + home_shard_id + "/"@ + action
}

/// What a claim comes to.
pub open spec fn claim_verdict(reply: Reply<Result<Lease, String>>) -> Result<Lease, WorkerError> {
    match reply {
        Reply::NotSent { cause } => Err(WorkerError::Failed { step: Step::Claim, cause }),
        Reply::Received { status, refusal, body } => if is_error_status(status) {
            Err(WorkerError::Failed { step: Step::ClaimStatus, cause: refusal })
        } else {
            match body {
                Err(cause) => Err(WorkerError::Failed { step: Step::ClaimBody, cause }),
                Ok(lease) => if lease.lease_ttl_seconds == 0 {
                    Err(WorkerError::ZeroLeaseTtl)
                } else {
                    Ok(lease)
                },
            }
        },
    }
}

/// What a heartbeat comes to. Only a 2xx response renews the lease: a redirection that was not
/// followed does not.
pub open spec fn renew_verdict(reply: Reply<()>) -> Result<RenewResult, WorkerError> {
    match reply {
        Reply::NotSent { cause } => Err(WorkerError::Failed { step: Step::Renew, cause }),
        Reply::Received { status, refusal, .. } => if is_fencing_status(status) {
            Ok(RenewResult::Fenced)
        } else if is_success_status(status) {
            Ok(RenewResult::Renewed)
        } else {
            Err(WorkerError::Failed { step: Step::RenewStatus, cause: refusal })
        },
    }
}

/// What a release comes to.
pub open spec fn release_verdict(reply: Reply<()>) -> Result<(), WorkerError> {
    match reply {
        Reply::NotSent { cause } => Err(WorkerError::Failed { step: Step::Release, cause }),
        Reply::Received { status, refusal, .. } => if is_error_status(status) {
            Err(WorkerError::Failed { step: Step::ReleaseStatus, cause: refusal })
        } else {
            Ok(())
        },
    }
}

fn error_status(status: u16) -> (r: bool)
    ensures
        r == is_error_status(status),
{
    400 <= status && status < 600
}

/// Reads a claim's outcome. A lease of zero seconds is none.
pub fn claim_result(reply: Reply<Result<Lease, String>>) -> (r: Result<Lease, WorkerError>)
    ensures
        r == claim_verdict(reply),
{
    match reply {
        Reply::NotSent { cause } => Err(WorkerError::Failed { step: Step::Claim, cause }),
        Reply::Received { status, refusal, body } => {
            if error_status(status) {
                return Err(WorkerError::Failed { step: Step::ClaimStatus, cause: refusal });
            }
            match body {
                Err(cause) => Err(WorkerError::Failed { step: Step::ClaimBody, cause }),
                Ok(lease) => {
                    if lease.lease_ttl_seconds == 0 {
                        Err(WorkerError::ZeroLeaseTtl)
                    } else {
                        Ok(lease)
                    }
                },
            }
        },
    }
}

/// Reads a heartbeat's outcome.
pub fn renew_result(reply: Reply<()>) -> (r: Result<RenewResult, WorkerError>)
    ensures
        r == renew_verdict(reply),
{
    match reply {
        Reply::NotSent { cause } => Err(WorkerError::Failed { step: Step::Renew, cause }),
        Reply::Received { status, refusal, .. } => {
            if status == 409 || status == 410 || status == 423 {
                Ok(RenewResult::Fenced)
            } else if 200 <= status && status < 300 {
                Ok(RenewResult::Renewed)
            } else {
                Err(WorkerError::Failed { step: Step::RenewStatus, cause: refusal })
            }
        },
    }
}

/// Reads a release's outcome.
pub fn release_result(reply: Reply<()>) -> (r: Result<(), WorkerError>)
    ensures
        r == release_verdict(reply),
{
    match reply {
        Reply::NotSent { cause } => Err(WorkerError::Failed { step: Step::Release, cause }),
        Reply::Received { status, refusal, .. } => {
            if error_status(status) {
                Err(WorkerError::Failed { step: Step::ReleaseStatus, cause: refusal })
            } else {
                Ok(())
            }
        },
    }
}

impl RequestBody {
    /// The members of the JSON object that is the body of the request.
    pub fn members(self) -> (r: Vec<(String, MemberValue)>)
        ensures
            match self {
                RequestBody::Claim { instance_ip } => {
                    &&& r@.len() == 1
                    &&& r@[0].0@ == "instanceIp"@ && r@[0].1 == MemberValue::Address(instance_ip)
                },
                RequestBody::Lease { lease_token, generation } => {
                    &&& r@.len() == 2
                    &&& r@[0].0@ == "leaseToken"@ && r@[0].1 == MemberValue::Text(lease_token)
                    &&& r@[1].0@ == "generation"@ && r@[1].1 == MemberValue::Number(generation)
                },
            },
    {
        let mut members: Vec<(String, MemberValue)> = Vec::new();
        match self {
            RequestBody::Claim { instance_ip } => {
                members.push(("instanceIp".to_owned(), MemberValue::Address(instance_ip)));
            },
            RequestBody::Lease { lease_token, generation } => {
                members.push(("leaseToken".to_owned(), MemberValue::Text(lease_token)));
                members.push(("generation".to_owned(), MemberValue::Number(generation)));
            },
        }
        members
    }
}

impl Clone for Lease {
    fn clone(&self) -> (r: Self)
        ensures
            r == *self,
    {
        Lease {
            home_shard_id: self.home_shard_id.clone(),
            lease_token: self.lease_token.clone(),
            generation: self.generation,
            lease_ttl_seconds: self.lease_ttl_seconds,
        }
    }
}

impl Clone for ControlPlaneClient {
    fn clone(&self) -> (r: Self)
        ensures
            r == *self,
    {
        ControlPlaneClient { base_url: self.base_url.clone() }
    }
}

impl View for ControlPlaneClient {
    type V = Seq<char>;

    /// The base URL of the control plane.
    closed spec fn view(&self) -> Seq<char> {
        self.base_url@
    }
}

impl ControlPlaneClient {
    /// The client of the control plane that `config` names.
    pub fn new(config: &Config) -> (r: Self)
        ensures
            r@ == without_trailing_slashes(config.control_plane_url@),
    {
        ControlPlaneClient { base_url: trim_trailing_slashes(config.control_plane_url.as_str()) }
    }

    /// The URL of a path below the base URL.
    pub fn endpoint(&self, path: &str) -> (r: String)
        ensures
            r@ == self@ + path@,
    {
        self.base_url.clone().concat(path)
    }

    /// Asks for the lease of some home shard.
    pub fn claim(&self, instance_ip: IpAddress) -> (r: ControlPlaneRequest)
        ensures
            r.method == Method::Post,
            r.url@ == self@ + "/api/v1/home-shards/claim"@,
            r.body == (RequestBody::Claim { instance_ip }),
    {
        ControlPlaneRequest {
            method: Method::Post,
            url: self.endpoint("/api/v1/home-shards/claim"),
            body: RequestBody::Claim { instance_ip },
        }
    }

    /// Asks for an action on the leased shard.
    pub fn lease_request(&self, lease: &Lease, action: &str) -> (r: ControlPlaneRequest)
        ensures
            r.method == Method::Post,
            r.url@ == self@ + lease_path(lease.home_shard_id@, action@),
            r.body == (RequestBody::Lease {
                lease_token: lease.lease_token,
                generation: lease.generation,
            }),
    {
        let path = "/api/v1/home-shards/".to_owned().concat(lease.home_shard_id.as_str()).concat(
            "/",
        ).concat(action);
        ControlPlaneRequest {
            method: Method::Post,
            url: self.endpoint(path.as_str()),
            body: RequestBody::Lease {
                lease_token: lease.lease_token.clone(),
                generation: lease.generation,
            },
        }
    }

    /// Asks to keep the lease.
    pub fn renew(&self, lease: &Lease) -> (r: ControlPlaneRequest)
        ensures
            r.method == Method::Post,
            r.url@ == self@ + lease_path(lease.home_shard_id@, "renew"@),
            r.body == (RequestBody::Lease {
                lease_token: lease.lease_token,
                generation: lease.generation,
            }),
    {
        self.lease_request(lease, "renew")
    }

    /// Gives the lease back.
    pub fn release(&self, lease: &Lease) -> (r: ControlPlaneRequest)
        ensures
            r.method == Method::Post,
            r.url@ == self@ + lease_path(lease.home_shard_id@, "release"@),
            r.body == (RequestBody::Lease {
                lease_token: lease.lease_token,
                generation: lease.generation,
            }),
    {
        self.lease_request(lease, "release")
    }
}

/// The path of an action on a leased shard names the whole shard and the whole action: behind the
/// words `/api/v1/home-shards/` come exactly the characters of the id, then one slash, and then
/// exactly those of the action.
pub proof fn law_lease_path_names_the_whole_shard(home_shard_id: Seq<char>, action: Seq<char>)
    ensures
        ({
            let path = lease_path(home_shard_id, action);
            let head = "/api/v1/home-shards/"@;
            let from = head.len() as int;
            let to = from + home_shard_id.len();
            &&& path.len() == to + 1 + action.len()
            &&& path.take(from) == head
            &&& path.subrange(from, to) == home_shard_id
            &&& path[to] == '/'
            &&& path.skip(to + 1) == action
        }),
{
    reveal_strlit("/");
    let path = lease_path(home_shard_id, action);
    let head = "/api/v1/home-shards/"@;
    let from = head.len() as int;
    let to = from + home_shard_id.len();
    assert(path.take(from) =~= head);
    assert(path.subrange(from, to) =~= home_shard_id);
    assert(path.skip(to + 1) =~= action);
}

/// Two shards never share the path of an action.
pub proof fn law_shards_do_not_share_a_path(a: Seq<char>, b: Seq<char>, action: Seq<char>)
    requires
        lease_path(a, action) == lease_path(b, action),
    ensures
        a == b,
{
    law_lease_path_names_the_whole_shard(a, action);
    law_lease_path_names_the_whole_shard(b, action);
}

/// No shard's renewal is another's release, nor its own.
pub proof fn law_renewal_is_no_release(a: Seq<char>, b: Seq<char>)
    ensures
        lease_path(a, "renew"@) != lease_path(b, "release"@),
{
    reveal_strlit("renew");
    reveal_strlit("release");
    assert(lease_path(a, "renew"@).last() == 'w');
    assert(lease_path(b, "release"@).last() == 'e');
}

/// A claim comes to a lease exactly where a response came whose status is no error, with a lease in it
/// that lasts some time; and then to that lease as it is. Else it is reported what was missing, in the
/// words that came with it.
pub proof fn law_claim_comes_to_the_lease_that_was_granted(reply: Reply<Result<Lease, String>>)
    ensures
        match reply {
            Reply::NotSent { cause } => claim_verdict(reply) == Err::<Lease, WorkerError>(
                WorkerError::Failed { step: Step::Claim, cause },
            ),
            Reply::Received { status, refusal, body } => {
                &&& 400 <= status <= 599 ==> claim_verdict(reply) == Err::<Lease, WorkerError>(
                    WorkerError::Failed { step: Step::ClaimStatus, cause: refusal },
                )
                &&& (status < 400 || status > 599) ==> match body {
                    Err(cause) => claim_verdict(reply) == Err::<Lease, WorkerError>(
                        WorkerError::Failed { step: Step::ClaimBody, cause },
                    ),
                    Ok(lease) => {
                        &&& lease.lease_ttl_seconds > 0 ==> claim_verdict(reply) == Ok::<
                            Lease,
                            WorkerError,
                        >(lease)
                        &&& lease.lease_ttl_seconds == 0 ==> claim_verdict(reply) == Err::<
                            Lease,
                            WorkerError,
                        >(WorkerError::ZeroLeaseTtl)
                    },
                }
            },
        },
{
}

/// A heartbeat renews the lease exactly where it is answered by 200 to 299, and is fenced exactly where
/// it is answered by 409, 410 or 423. Else it failed: for want of a response, or for its status.
pub proof fn law_heartbeat_is_told_by_its_status(reply: Reply<()>)
    ensures
        renew_verdict(reply) == Ok::<RenewResult, WorkerError>(RenewResult::Renewed) <==> (
        reply matches Reply::Received { status, .. } && 200 <= status <= 299),
        renew_verdict(reply) == Ok::<RenewResult, WorkerError>(RenewResult::Fenced) <==> (
        reply matches Reply::Received { status, .. } && (status == 409 || status == 410 || status
            == 423)),
        renew_verdict(reply) matches Err(error) ==> error == (match reply {
            Reply::NotSent { cause } => WorkerError::Failed { step: Step::Renew, cause },
            Reply::Received { refusal, .. } => WorkerError::Failed {
                step: Step::RenewStatus,
                cause: refusal,
            },
        }),
{
}

/// A release succeeds exactly where a response came whose status is not 400 to 599. Else it failed: for
/// want of a response, or for its status.
pub proof fn law_release_is_told_by_its_status(reply: Reply<()>)
    ensures
        release_verdict(reply) is Ok <==> (reply matches Reply::Received { status, .. } && (status
            < 400 || status > 599)),
        release_verdict(reply) matches Err(error) ==> error == (match reply {
            Reply::NotSent { cause } => WorkerError::Failed { step: Step::Release, cause },
            Reply::Received { refusal, .. } => WorkerError::Failed {
                step: Step::ReleaseStatus,
                cause: refusal,
            },
        }),
{
}

} // verus!
