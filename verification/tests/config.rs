use codex_worker_adapter::config::{
    check_control_plane_url, validate_home_shard_id, Config, MAX_MISSED_HEARTBEATS,
};
use codex_worker_adapter::error::WorkerError;
use codex_worker_adapter::net::SocketAddress;
use codex_worker_adapter::url::ParsedUrl;
use std::path::PathBuf;

fn test_config() -> Config {
    Config { control_plane_url: "http://control-plane".to_string() }
}

fn config_at(url: &str) -> Config {
    Config { control_plane_url: url.to_string() }
}

#[test]
fn codex_home_is_confined_to_configured_root() {
    let config = test_config();

    assert_eq!(
        PathBuf::from(config.codex_home("home_07").unwrap()),
        PathBuf::from("/codex-home/home_07")
    );
    assert!(config.codex_home("../other").is_err());
    assert!(config.codex_home("nested/shard").is_err());
}

#[test]
fn shard_ids_are_ascii_names_of_limited_length() {
    assert!(validate_home_shard_id("a").is_ok());
    assert!(validate_home_shard_id("Home-0001_z").is_ok());
    assert!(validate_home_shard_id(&"x".repeat(128)).is_ok());
    assert!(validate_home_shard_id(&"x".repeat(129)).is_err());
    assert!(validate_home_shard_id("").is_err());
    assert!(validate_home_shard_id(".").is_err());
    assert!(validate_home_shard_id("..").is_err());
    assert!(validate_home_shard_id("a b").is_err());
    assert!(validate_home_shard_id("caf\u{e9}").is_err());
    assert!(validate_home_shard_id("home\0").is_err());
}

#[test]
fn every_ascii_byte_is_judged_as_in_a_shard_id() {
    for byte in 0u8..128 {
        let c = byte as char;
        let expected = c.is_ascii_alphanumeric() || c == '-' || c == '_';
        assert_eq!(validate_home_shard_id(&c.to_string()).is_ok(), expected, "{c:?}");
    }
}

#[test]
fn refused_shard_id_is_reported_quoted() {
    let error = validate_home_shard_id("a\"b\n").unwrap_err();
    assert_eq!(
        error.message(),
        format!("control plane returned invalid homeShardId {:?}", "a\"b\n")
    );
    assert_eq!(
        test_config().codex_home("../other").unwrap_err().message(),
        "control plane returned invalid homeShardId \"../other\""
    );
}

#[test]
fn homes_of_two_shards_differ() {
    let config = test_config();
    let first = config.codex_home("home-1").unwrap();
    let second = config.codex_home("home-2").unwrap();
    assert_eq!(first, "/codex-home/home-1");
    assert_eq!(second, "/codex-home/home-2");
}

#[test]
fn only_http_urls_with_a_host_are_accepted() {
    assert!(test_config().validate().is_ok());
    assert!(config_at("https://control-plane:8443/base").validate().is_ok());
    assert!(config_at("HTTP://control-plane").validate().is_ok());
    assert_eq!(
        config_at("ftp://control-plane").validate(),
        Err(WorkerError::ControlPlaneUrlNotHttp)
    );
    assert_eq!(
        config_at("mailto:a@b").validate(),
        Err(WorkerError::ControlPlaneUrlNotHttp)
    );
    assert_eq!(
        config_at("ftp://control-plane").validate().unwrap_err().message(),
        "CONTROL_PLANE_URL must be an absolute HTTP(S) URL"
    );
}

#[test]
fn text_that_is_no_url_is_refused_with_the_reason() {
    let reason = reqwest::Url::parse("control-plane").unwrap_err().to_string();
    let error = config_at("control-plane").validate().unwrap_err();
    assert_eq!(error.message(), format!("invalid CONTROL_PLANE_URL: {reason}"));
    assert_eq!(reason, "relative URL without a base");
    assert!(matches!(error, WorkerError::InvalidControlPlaneUrl { .. }));
}

#[test]
fn parsed_urls_are_judged_by_scheme_and_host() {
    let url = |scheme: &str, host: Option<&str>| {
        Ok(ParsedUrl {
            scheme: scheme.to_string(),
            host: host.map(str::to_string),
            port: None,
        })
    };
    assert_eq!(check_control_plane_url(&url("http", Some("h"))), Ok(()));
    assert_eq!(check_control_plane_url(&url("https", Some("h"))), Ok(()));
    assert_eq!(
        check_control_plane_url(&url("http", None)),
        Err(WorkerError::ControlPlaneUrlNotHttp)
    );
    assert_eq!(
        check_control_plane_url(&url("ws", Some("h"))),
        Err(WorkerError::ControlPlaneUrlNotHttp)
    );
    assert_eq!(
        check_control_plane_url(&Err("empty host".to_string())),
        Err(WorkerError::InvalidControlPlaneUrl { reason: "empty host".to_string() })
    );
}

#[test]
fn runtime_conventions_are_fixed() {
    let config = test_config();
    assert_eq!(config.bind_addr(), SocketAddress::V4 { octets: [0, 0, 0, 0], port: 8080 });
    assert_eq!(config.bind_addr_text(), "0.0.0.0:8080");
    assert_eq!(config.heartbeat_interval(), 10);
    assert_eq!(config.control_plane_timeout(), 5);
    assert_eq!(config.shutdown_grace(), 10);
    assert_eq!(MAX_MISSED_HEARTBEATS, 3);
    assert_eq!(config.clone().control_plane_url, "http://control-plane");
}
