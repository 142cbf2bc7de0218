use codex_worker_adapter::config::Config;
use codex_worker_adapter::control_plane::{
    claim_result, release_result, renew_result, ControlPlaneClient, Lease, MemberValue, RenewResult,
    Reply, RequestBody,
};
use codex_worker_adapter::error::{Step, WorkerError};
use codex_worker_adapter::net::{IpAddress, Method};
use codex_worker_adapter::text::trim_trailing_slashes;

fn client(url: &str) -> ControlPlaneClient {
    ControlPlaneClient::new(&Config { control_plane_url: url.to_string() })
}

fn test_lease() -> Lease {
    Lease {
        home_shard_id: "home-1".to_string(),
        lease_token: "lease-1".to_string(),
        generation: 4,
        lease_ttl_seconds: 30,
    }
}

fn received<B>(status: u16, body: B) -> Reply<B> {
    Reply::Received { status, refusal: format!("status {status}"), body }
}

#[test]
fn claim_reports_the_instance_ip_and_deserializes_the_lease() {
    let request = client("http://control-plane").claim(IpAddress::V4([10, 0, 0, 8]));
    assert_eq!(request.method, Method::Post);
    assert_eq!(request.url, "http://control-plane/api/v1/home-shards/claim");
    assert_eq!(
        request.body.members(),
        vec![("instanceIp".to_string(), MemberValue::Address(IpAddress::V4([10, 0, 0, 8])))]
    );

    let body: serde_json::Value = serde_json::from_str(
        r#"{"homeShardId":"home-1","leaseToken":"lease-1","generation":4,"leaseTtlSeconds":30}"#,
    )
    .unwrap();
    let lease = Lease {
        home_shard_id: body["homeShardId"].as_str().unwrap().to_string(),
        lease_token: body["leaseToken"].as_str().unwrap().to_string(),
        generation: body["generation"].as_u64().unwrap(),
        lease_ttl_seconds: body["leaseTtlSeconds"].as_u64().unwrap(),
    };
    let lease = claim_result(received(200, Ok(lease))).unwrap();

    assert_eq!(
        lease,
        Lease {
            home_shard_id: "home-1".to_string(),
            lease_token: "lease-1".to_string(),
            generation: 4,
            lease_ttl_seconds: 30,
        }
    );
}

#[test]
fn renew_treats_a_generation_conflict_as_fencing() {
    let lease = test_lease();
    let request = client("http://control-plane").renew(&lease);
    assert_eq!(request.method, Method::Post);
    assert_eq!(request.url, "http://control-plane/api/v1/home-shards/home-1/renew");
    assert_eq!(
        request.body.members(),
        vec![
            ("leaseToken".to_string(), MemberValue::Text("lease-1".to_string())),
            ("generation".to_string(), MemberValue::Number(4)),
        ]
    );

    let result = renew_result(received(409, ())).unwrap();

    assert_eq!(result, RenewResult::Fenced);
}

#[test]
fn every_fencing_status_fences() {
    for status in [409, 410, 423] {
        assert_eq!(renew_result(received(status, ())), Ok(RenewResult::Fenced));
    }
}

#[test]
fn statuses_are_read_as_the_http_client_reads_them() {
    for status in 100u16..1000 {
        let code = reqwest::StatusCode::from_u16(status).unwrap();
        let refused = code.is_client_error() || code.is_server_error();
        let fencing = matches!(
            code,
            reqwest::StatusCode::CONFLICT
                | reqwest::StatusCode::GONE
                | reqwest::StatusCode::LOCKED
        );
        assert_eq!(release_result(received(status, ())).is_err(), refused);
        assert_eq!(claim_result(received(status, Ok(test_lease()))).is_err(), refused);
        match renew_result(received(status, ())) {
            Ok(RenewResult::Fenced) => assert!(fencing),
            Ok(RenewResult::Renewed) => assert!(code.is_success()),
            Err(_) => assert!(!code.is_success() && !fencing),
        }
    }
}

#[test]
fn renew_failures_are_told_apart() {
    assert_eq!(renew_result(received(200, ())), Ok(RenewResult::Renewed));
    let unsent = renew_result(Reply::NotSent { cause: "timed out".to_string() }).unwrap_err();
    assert_eq!(unsent.message(), "failed to renew home-shard lease");
    assert_eq!(unsent.cause(), Some("timed out".to_string()));
    let refused = renew_result(received(500, ())).unwrap_err();
    assert_eq!(refused.message(), "control plane rejected the home-shard heartbeat");
    assert_eq!(refused.cause(), Some("status 500".to_string()));
    let redirected = renew_result(received(304, ())).unwrap_err();
    assert_eq!(redirected.message(), "control plane rejected the home-shard heartbeat");
    assert_eq!(redirected.cause(), Some("status 304".to_string()));
}

#[test]
fn claim_failures_are_told_apart() {
    assert_eq!(
        claim_result(Reply::NotSent { cause: "refused".to_string() }),
        Err(WorkerError::Failed { step: Step::Claim, cause: "refused".to_string() })
    );
    assert_eq!(
        claim_result(received(404, Ok(test_lease()))),
        Err(WorkerError::Failed { step: Step::ClaimStatus, cause: "status 404".to_string() })
    );
    assert_eq!(
        claim_result(received(200, Err("no leaseToken".to_string()))),
        Err(WorkerError::Failed { step: Step::ClaimBody, cause: "no leaseToken".to_string() })
    );
    let mut lease = test_lease();
    lease.lease_ttl_seconds = 0;
    let error = claim_result(received(200, Ok(lease))).unwrap_err();
    assert_eq!(error, WorkerError::ZeroLeaseTtl);
    assert_eq!(error.message(), "control plane returned a zero-second lease TTL");
    assert_eq!(error.cause(), None);
}

#[test]
fn release_failures_are_told_apart() {
    assert_eq!(release_result(received(204, ())), Ok(()));
    assert_eq!(
        release_result(Reply::NotSent { cause: "refused".to_string() }).unwrap_err().message(),
        "failed to release home-shard lease"
    );
    assert_eq!(
        release_result(received(503, ())).unwrap_err().message(),
        "control plane rejected the home-shard release"
    );
}

#[test]
fn release_names_the_lease() {
    let request = client("https://control-plane/base/").release(&test_lease());
    assert_eq!(request.method, Method::Post);
    assert_eq!(request.url, "https://control-plane/base/api/v1/home-shards/home-1/release");
    assert_eq!(
        request.body,
        RequestBody::Lease { lease_token: "lease-1".to_string(), generation: 4 }
    );
}

#[test]
fn trailing_slashes_of_the_base_url_do_not_matter() {
    assert_eq!(client("http://c").endpoint("/x"), "http://c/x");
    assert_eq!(client("http://c///").endpoint("/x"), "http://c/x");
    assert_eq!(client("http://c/").clone(), client("http://c"));
    assert_eq!(trim_trailing_slashes("///"), "");
    assert_eq!(trim_trailing_slashes("/a/\u{e9}//"), "/a/\u{e9}");
    assert_eq!(trim_trailing_slashes(""), "");
}
