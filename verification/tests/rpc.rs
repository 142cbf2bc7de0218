use codex_worker_adapter::rpc::{
    complete_request, external_initialize_response, handle_client_message, invalid_request,
    ClientAction, ClientMessage, ClientRequest, ConfigWarning, ErrorBody, Outgoing, RequestId,
    Response, TypedRequest,
};

type Message = ClientMessage<u8, u8>;
type Action = ClientAction<u8, u8>;

fn json(text: &str) -> serde_json::Value {
    serde_json::from_str(text).unwrap()
}

fn request(method: &str, typed: Result<TypedRequest<u8>, String>) -> ClientRequest<u8> {
    ClientRequest { id: RequestId::Integer(42), method: method.to_string(), typed }
}

fn typed(is_initialize: bool) -> Result<TypedRequest<u8>, String> {
    Ok(TypedRequest { is_initialize, request: 7 })
}

fn untyped() -> Result<TypedRequest<u8>, String> {
    Err("unknown variant".to_string())
}

fn warning(summary: &str) -> ConfigWarning {
    ConfigWarning { summary: summary.to_string() }
}

fn handle(message: Message) -> Vec<Action> {
    let warnings = vec![warning("first"), warning("second")];
    handle_client_message(message, &json(r#"{"codexHome":"/codex-home/home-1"}"#), &warnings)
}

fn refusal(message: &str) -> Outgoing {
    Outgoing::Error {
        id: RequestId::Integer(42),
        error: ErrorBody { code: -32600, message: message.to_string(), data: None },
    }
}

#[test]
fn initialize_is_terminated_by_adapter() {
    let initialize_result = json(r#"{"codexHome": "/codex-home/home-1"}"#);
    let params = json(
        r#"{
            "clientInfo": { "name": "platform", "title": null, "version": "1.0.0" },
            "capabilities": null
        }"#,
    );
    let request = ClientRequest {
        id: RequestId::Text("init-1".to_string()),
        method: "initialize".to_string(),
        typed: Ok(TypedRequest { is_initialize: true, request: Some(params) }),
    };

    let response = external_initialize_response(request, &initialize_result)
        .expect("valid initialize request");

    assert_eq!(
        response,
        Response { id: RequestId::Text("init-1".to_string()), result: initialize_result }
    );
}

#[test]
fn initialize_response_is_refused_to_other_requests() {
    let result = json("null");
    assert_eq!(
        external_initialize_response(request("initialize", typed(false)), &result),
        Err(RequestId::Integer(42))
    );
    assert_eq!(
        external_initialize_response(request("initialize", untyped()), &result),
        Err(RequestId::Integer(42))
    );
}

#[test]
fn initialize_is_answered_before_the_warnings() {
    assert_eq!(
        handle(ClientMessage::Request(request("initialize", typed(true)))),
        vec![
            ClientAction::Send(Outgoing::Response(Response {
                id: RequestId::Integer(42),
                result: json(r#"{"codexHome":"/codex-home/home-1"}"#),
            })),
            ClientAction::Send(Outgoing::ConfigWarning(warning("first"))),
            ClientAction::Send(Outgoing::ConfigWarning(warning("second"))),
        ]
    );
}

#[test]
fn broken_initialize_is_refused() {
    for typed in [typed(false), untyped()] {
        assert_eq!(
            handle(ClientMessage::Request(request("initialize", typed))),
            vec![ClientAction::Send(refusal("invalid initialize request"))]
        );
    }
}

#[test]
fn other_requests_are_forwarded_under_their_id() {
    for method in ["thread/list", "Initialize", "initialized", ""] {
        assert_eq!(
            handle(ClientMessage::Request(request(method, typed(false)))),
            vec![ClientAction::Forward { id: RequestId::Integer(42), request: 7 }]
        );
    }
}

#[test]
fn unsupported_requests_are_refused() {
    assert_eq!(
        handle(ClientMessage::Request(request("thread/none", untyped()))),
        vec![ClientAction::Send(refusal("invalid or unsupported app-server request"))]
    );
    assert_eq!(invalid_request(RequestId::Integer(42), "no"), refusal("no"));
}

#[test]
fn notifications_are_bridged_but_for_the_handshake() {
    let notification = |method: &str, typed: Result<u8, String>| {
        handle(ClientMessage::Notification { method: method.to_string(), typed })
    };
    assert_eq!(notification("initialized", Ok(3)), vec![]);
    assert_eq!(notification("initialize", Ok(3)), vec![ClientAction::Notify(3)]);
    assert_eq!(notification("other", Err("unknown".to_string())), vec![]);
}

#[test]
fn answers_of_the_platform_are_bridged() {
    let id = || RequestId::Text("server-1".to_string());
    let error = || ErrorBody {
        code: 5,
        message: "denied".to_string(),
        data: Some(json("[1,2]")),
    };
    assert_eq!(
        handle(ClientMessage::Response { id: id(), result: json(r#"{"a":[1]}"#) }),
        vec![ClientAction::Resolve { id: id(), result: json(r#"{"a":[1]}"#) }]
    );
    assert_eq!(
        handle(ClientMessage::Error { id: id(), error: error() }),
        vec![ClientAction::Reject { id: id(), error: error() }]
    );
}

#[test]
fn forwarded_requests_are_answered_under_their_id() {
    let id = || RequestId::Integer(-3);
    assert_eq!(
        complete_request(id(), Ok(Ok(json("true")))),
        Outgoing::Response(Response { id: id(), result: json("true") })
    );
    let error = || ErrorBody { code: 1, message: "no".to_string(), data: None };
    assert_eq!(
        complete_request(id(), Ok(Err(error()))),
        Outgoing::Error { id: id(), error: error() }
    );
    assert_eq!(
        complete_request(id(), Err("channel closed".to_string())),
        Outgoing::Error {
            id: id(),
            error: ErrorBody {
                code: -32603,
                message: "channel closed".to_string(),
                data: None,
            },
        }
    );
}
