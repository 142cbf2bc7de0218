use codex_worker_adapter::app_server::{
    config_warnings, initialize_result, run_embedded_app_server, send_result, spawn,
    start_settings, wait_for_exit, EmbeddedAction, EmbeddedEvent, EmbeddedPhase, Spawn,
    StartSettings, INPUT_CAPACITY, OUTPUT_CAPACITY,
};
use codex_worker_adapter::error::{Step, WorkerError};
use codex_worker_adapter::rpc::{
    handle_client_message, ClientAction, ClientMessage, ClientRequest, ConfigWarning, Outgoing,
    RequestId, TypedRequest,
};

type Event = EmbeddedEvent<u8, u8, u8>;
type Action = EmbeddedAction<u8, u8, u8>;

fn settings() -> StartSettings {
    start_settings("/codex-home/home-1".to_string(), "1.2.3".to_string())
}

fn running(event: Event) -> (EmbeddedPhase, Action) {
    run_embedded_app_server(EmbeddedPhase::Running, event)
}

fn stopping(reason: &str) -> EmbeddedPhase {
    EmbeddedPhase::Stopping { reason: reason.to_string() }
}

#[test]
fn loop_passes_messages_on() {
    assert_eq!(
        running(Event::Input(Some(1))),
        (EmbeddedPhase::Running, EmbeddedAction::Handle(1))
    );
    assert_eq!(
        running(Event::ServerNotification(2)),
        (EmbeddedPhase::Running, EmbeddedAction::SendNotification(2))
    );
    assert_eq!(
        running(Event::ServerRequest(3)),
        (EmbeddedPhase::Running, EmbeddedAction::SendRequest(3))
    );
    assert_eq!(
        running(Event::ShutDown(Ok(()))),
        (EmbeddedPhase::Running, EmbeddedAction::Wait)
    );
}

#[test]
fn loop_ends_with_a_reason() {
    let stops = |event: Event, reason: &str| {
        assert_eq!(running(event), (stopping(reason), EmbeddedAction::ShutDown));
    };
    stops(Event::StopSignal, "embedded app-server stopped");
    stops(Event::Input(None), "embedded app-server input channel closed");
    stops(Event::Ended, "embedded app-server exited");
    for skipped in [0, 7, 10, 1234567890, u64::MAX] {
        stops(
            Event::Lagged { skipped },
            &format!("embedded app-server event stream lost {skipped} event(s)"),
        );
    }
}

#[test]
fn exit_is_reported_once_and_after_the_shutdown() {
    for outcome in [Ok(()), Err("timed out".to_string())] {
        let (phase, action) =
            run_embedded_app_server(stopping("over"), Event::Input(Some(1)));
        assert_eq!((&phase, action), (&stopping("over"), EmbeddedAction::Wait));
        let (phase, action) = run_embedded_app_server(phase, Event::ShutDown(outcome));
        assert_eq!(phase, EmbeddedPhase::Stopped);
        assert_eq!(action, EmbeddedAction::Report { reason: "over".to_string() });
        assert_eq!(
            run_embedded_app_server(phase, Event::ShutDown(Ok(()))),
            (EmbeddedPhase::Stopped, EmbeddedAction::Wait)
        );
    }
}

#[test]
fn exit_is_reported_or_inferred() {
    let reason = || Some("embedded app-server exited".to_string());
    assert_eq!(wait_for_exit(reason(), false), reason());
    assert_eq!(wait_for_exit(reason(), true), reason());
    assert_eq!(wait_for_exit(None, false), None);
    assert_eq!(
        wait_for_exit(None, true),
        Some("embedded app-server stopped without an exit status".to_string())
    );
}

#[test]
fn start_goes_through_its_steps() {
    let mut state = spawn("/codex-home/home-1".to_string(), "1.2.3".to_string());
    assert_eq!(state, Spawn::CreateHome { settings: settings() });
    let expected = [
        Spawn::LoadConfig { settings: settings() },
        Spawn::OpenStateDb { settings: settings() },
        Spawn::ResolveRuntimePaths { settings: settings() },
        Spawn::InitEnvironments { settings: settings() },
        Spawn::StartClient { settings: settings() },
        Spawn::Running,
        Spawn::Running,
    ];
    for next in expected {
        state = state.step(Ok(()));
        assert_eq!(state, next);
    }
}

#[test]
fn start_fails_with_the_step_that_failed() {
    let failed = |state: Spawn| match state.step(Err("broken".to_string())) {
        Spawn::Failed(error) => (error.message(), error.cause()),
        other => panic!("{other:?}"),
    };
    let with = |message: &str| (message.to_string(), Some("broken".to_string()));
    assert_eq!(
        failed(Spawn::CreateHome { settings: settings() }),
        with("failed to create CODEX_HOME /codex-home/home-1")
    );
    assert_eq!(
        failed(Spawn::LoadConfig { settings: settings() }),
        with("failed to load app-server config")
    );
    assert_eq!(
        failed(Spawn::ResolveRuntimePaths { settings: settings() }),
        with("failed to resolve embedded app-server runtime paths")
    );
    assert_eq!(
        failed(Spawn::InitEnvironments { settings: settings() }),
        with("failed to initialize app-server environments")
    );
    assert_eq!(
        failed(Spawn::StartClient { settings: settings() }),
        with("failed to start embedded app-server")
    );
    assert_eq!(
        Spawn::OpenStateDb { settings: settings() }.step(Err("none".to_string())),
        Spawn::ResolveRuntimePaths { settings: settings() }
    );
    let over = || Spawn::Failed(WorkerError::NoHost);
    assert_eq!(over().step(Ok(())), over());
}

#[test]
fn app_server_is_started_as_a_worker_adapter() {
    assert_eq!(
        settings(),
        StartSettings {
            codex_home: "/codex-home/home-1".to_string(),
            session_source: "worker-adapter".to_string(),
            client_name: "codex_worker_adapter".to_string(),
            client_version: "1.2.3".to_string(),
            strict_config: false,
            enable_codex_api_key_env: false,
            experimental_api: true,
            mcp_server_openai_form_elicitation: false,
            config_warnings: vec![],
            opt_out_notification_methods: vec![],
        }
    );
    assert_eq!(INPUT_CAPACITY, 256);
    assert_eq!(OUTPUT_CAPACITY, 1024);
}

#[test]
fn startup_warnings_are_kept_in_order() {
    let summaries = vec!["one".to_string(), "two".to_string()];
    assert_eq!(
        config_warnings(&summaries),
        vec![
            ConfigWarning { summary: "one".to_string() },
            ConfigWarning { summary: "two".to_string() },
        ]
    );
    assert_eq!(config_warnings(&vec![]), vec![]);
}

fn initialized() -> serde_json::Value {
    let text = |s: &str| s.to_string();
    initialize_result(text("ua \"1\""), text("/codex-home/home-1"), text("unix"), text("linux"))
}

#[test]
fn initialize_result_names_its_members() {
    let expected: serde_json::Value = serde_json::from_str(
        r#"{
            "userAgent": "ua \"1\"",
            "codexHome": "/codex-home/home-1",
            "platformFamily": "unix",
            "platformOs": "linux"
        }"#,
    )
    .unwrap();
    assert_eq!(initialized(), expected);
}

#[test]
fn initialize_is_answered_with_the_startup_warnings() {
    let request: ClientRequest<u8> = ClientRequest {
        id: RequestId::Integer(7),
        method: "initialize".to_string(),
        typed: Ok(TypedRequest { is_initialize: true, request: 1 }),
    };
    let warnings = config_warnings(&vec!["one".to_string(), "two".to_string()]);
    let actions: Vec<ClientAction<u8, u8>> =
        handle_client_message(ClientMessage::Request(request), &initialized(), &warnings);
    assert_eq!(actions.len(), 3);
    match &actions[0] {
        ClientAction::Send(Outgoing::Response(response)) => {
            assert_eq!(response.id, RequestId::Integer(7));
            assert_eq!(response.result["codexHome"], "/codex-home/home-1");
        }
        other => panic!("{other:?}"),
    }
    for (action, summary) in actions[1..].iter().zip(["one", "two"]) {
        let warning = ConfigWarning { summary: summary.to_string() };
        assert_eq!(action, &ClientAction::Send(Outgoing::ConfigWarning(warning)));
    }
}

#[test]
fn frames_that_cannot_be_handed_on_are_told_apart() {
    assert_eq!(send_result(Ok(()), Ok(())), Ok(()));
    let unread = send_result(Err("no method".to_string()), Ok(())).unwrap_err();
    assert_eq!(
        unread,
        WorkerError::Failed { step: Step::ParseMessage, cause: "no method".to_string() }
    );
    assert_eq!(unread.message(), "invalid JSON-RPC message");
    let unsent = send_result(Ok(()), Err("closed".to_string())).unwrap_err();
    assert_eq!(unsent.message(), "embedded app-server input channel is closed");
}
