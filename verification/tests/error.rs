use codex_worker_adapter::error::{Step, WorkerError};
use codex_worker_adapter::text::{decimal_text, text_eq};

#[test]
fn steps_are_reported_in_fixed_words() {
    let cases = vec![
        (Step::BuildClient, "failed to build control-plane HTTP client"),
        (Step::Claim, "failed to claim a home shard"),
        (Step::ClaimStatus, "control plane rejected the home-shard claim"),
        (Step::ClaimBody, "control plane returned an invalid home-shard lease"),
        (Step::Renew, "failed to renew home-shard lease"),
        (Step::RenewStatus, "control plane rejected the home-shard heartbeat"),
        (Step::Release, "failed to release home-shard lease"),
        (Step::ReleaseStatus, "control plane rejected the home-shard release"),
        (Step::ParseUrl, "invalid control-plane URL"),
        (Step::Resolve, "failed to resolve control-plane host"),
        (Step::OpenSocket, "failed to create Pod IP discovery socket"),
        (Step::SelectRoute, "failed to select network route to control plane"),
        (Step::InspectSocket, "failed to inspect Pod IP discovery socket"),
        (Step::LoadConfig, "failed to load app-server config"),
        (Step::ResolveRuntimePaths, "failed to resolve embedded app-server runtime paths"),
        (Step::InitEnvironments, "failed to initialize app-server environments"),
        (Step::StartAppServer, "failed to start embedded app-server"),
        (Step::ParseMessage, "invalid JSON-RPC message"),
        (Step::SendInput, "embedded app-server input channel is closed"),
        (Step::CreateHome { path: "/h".to_string() }, "failed to create CODEX_HOME /h"),
        (Step::Bind { addr: "a:1".to_string() }, "failed to bind worker adapter to a:1"),
    ];
    for (step, message) in cases {
        assert_eq!(step.message(), message);
        let error = WorkerError::Failed { step, cause: "why".to_string() };
        assert_eq!(error.message(), message);
        assert_eq!(error.cause(), Some("why".to_string()));
    }
}

#[test]
fn errors_are_reported_in_fixed_words() {
    let cases = vec![
        (WorkerError::NoAddresses, "control-plane host resolved to no addresses"),
        (WorkerError::LeaseMonitorStopped, "home-shard lease monitor stopped"),
        (
            WorkerError::NotRoutable { ip: "::1".to_string() },
            "resolved Pod IP ::1 is not routable",
        ),
        (
            WorkerError::InvalidHomeShardId { quoted: "\"/\"".to_string() },
            "control plane returned invalid homeShardId \"/\"",
        ),
        (
            WorkerError::HttpServerExited { detail: None },
            "worker HTTP server exited: clean exit",
        ),
        (
            WorkerError::HttpServerExited { detail: Some("x".to_string()) },
            "worker HTTP server exited: x",
        ),
    ];
    for (error, message) in cases {
        assert_eq!(error.message(), message);
        assert_eq!(error.cause(), None);
    }
}

#[test]
fn numbers_are_written_in_decimal() {
    for n in [0, 9, 10, 99, 100, 8080, 65535, 1_000_000_007, u64::MAX] {
        assert_eq!(decimal_text(n), n.to_string());
    }
}

#[test]
fn texts_are_compared_by_their_characters() {
    assert!(text_eq("initialize", "initialize"));
    assert!(!text_eq("initialize", "initialized"));
    assert!(!text_eq("", "a"));
}
