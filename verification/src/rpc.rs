//! JSON-RPC between the platform and the embedded app-server: what is done with a message.
//!
//! JSON values pass through unread. What only the app-server's protocol can tell of a message, its
//! typed form, comes with it.
use crate::text::text_eq;
use vstd::prelude::*;

verus! {

/// The code of a request that is invalid or not supported.
pub const INVALID_REQUEST_CODE: i64 = -32600;

/// The code of a request that the app-server could not be asked.
pub const INTERNAL_ERROR_CODE: i64 = -32603;

/// `serde_json::Value`, of which nothing is read here.
#[verifier::external_type_specification]
#[verifier::external_body]
pub struct ExValue(serde_json::Value);

/// `serde_json::Value::clone`, which is derived: the copy is the same JSON value.
pub assume_specification[ <serde_json::Value as Clone>::clone ](
    value: &serde_json::Value,
) -> (r: serde_json::Value)
    ensures
        r == *value,
;

/// What a JSON value holds that is an object: each member's name, with its text where the member is a
/// string. Of a value that is no object, nothing.
pub uninterp spec fn object_members(value: serde_json::Value) -> Option<
    Map<Seq<char>, Option<Seq<char>>>,
>;

/// Whether no two of the members have the same name.
pub open spec fn names_differ(members: Seq<(String, String)>) -> bool {
    forall|i: int, j: int|
        0 <= i < j < members.len() ==> (#[trigger] members[i]).0@ != (#[trigger] members[j]).0@
}

/// What a JSON object holds whose members are the given names with the given texts.
pub open spec fn text_members(members: Seq<(String, String)>) -> Map<Seq<char>, Option<Seq<char>>>
    decreases members.len(),
{
    if members.len() == 0 {
        Map::empty()
    } else {
        text_members(members.drop_last()).insert(members.last().0@, Some(members.last().1@))
    }
}

/// Calls `<serde_json::Value as FromIterator<(String, String)>>::from_iter`: the result is a JSON
/// object with the given names as its members, each with its text as a JSON string. Which of two
/// members of the same name stays is left unsaid.
#[verifier::external_body]
pub(crate) fn text_object(members: Vec<(String, String)>) -> (r: serde_json::Value)
    ensures
        names_differ(members@) ==> object_members(r) == Some(text_members(members@)),
{
    serde_json::Value::from_iter(members)
}

/// The id that ties a response to its request.
#[derive(Debug, PartialEq, Eq)]
pub enum RequestId {
    Text(String),
    Integer(i64),
}

/// The typed form of a request.
#[derive(Debug, PartialEq, Eq)]
pub struct TypedRequest<R> {
    /// Whether it is the request to initialize.
    pub is_initialize: bool,
    pub request: R,
}

/// A request of the platform.
#[derive(Debug, PartialEq, Eq)]
pub struct ClientRequest<R> {
    pub id: RequestId,
    pub method: String,
    /// Its typed form, or why it has none.
    pub typed: Result<TypedRequest<R>, String>,
}

/// What is wrong, in an error response.
#[derive(Debug, PartialEq, Eq)]
pub struct ErrorBody {
    pub code: i64,
    pub message: String,
    pub data: Option<serde_json::Value>,
}

/// A message of the platform.
#[derive(Debug, PartialEq, Eq)]
pub enum ClientMessage<R, N> {
    Request(ClientRequest<R>),
    /// A notification with its typed form, or why it has none.
    Notification { method: String, typed: Result<N, String> },
    /// The answer to a request of the app-server.
    Response { id: RequestId, result: serde_json::Value },
    /// The refusal of a request of the app-server.
    Error { id: RequestId, error: ErrorBody },
}

/// A warning about the app-server's configuration.
#[derive(Debug, PartialEq, Eq)]
pub struct ConfigWarning {
    pub summary: String,
}

/// The answer to a request.
#[derive(Debug, PartialEq, Eq)]
pub struct Response {
    pub id: RequestId,
    pub result: serde_json::Value,
}

/// A message to the platform.
#[derive(Debug, PartialEq, Eq)]
pub enum Outgoing {
    Response(Response),
    Error { id: RequestId, error: ErrorBody },
    ConfigWarning(ConfigWarning),
}

/// What is to be done with a message of the platform.
#[derive(Debug, PartialEq, Eq)]
pub enum ClientAction<R, N> {
    /// Send a message to the platform.
    Send(Outgoing),
    /// Ask the app-server, and answer the request `id` with what comes of it.
    Forward { id: RequestId, request: R },
    /// Notify the app-server.
    Notify(N),
    /// Answer a request of the app-server.
    Resolve { id: RequestId, result: serde_json::Value },
    /// Refuse a request of the app-server.
    Reject { id: RequestId, error: ErrorBody },
}

impl Clone for ConfigWarning {
    fn clone(&self) -> (r: Self)
        ensures
            r == *self,
    {
        ConfigWarning { summary: self.summary.clone() }
    }
}

/// Whether `message` refuses the request `id` as invalid, in the words of `text`.
pub open spec fn refuses(message: Outgoing, id: RequestId, text: Seq<char>) -> bool {
    message matches Outgoing::Error { id: to, error } && to == id && error.code
        == INVALID_REQUEST_CODE && error.message@ == text && error.data is None
}

/// The answer to a request to initialize: the response, and then each warning.
pub open spec fn initialize_actions<R, N>(
    id: RequestId,
    result: serde_json::Value,
    warnings: Seq<ConfigWarning>,
) -> Seq<ClientAction<R, N>> {
    seq![ClientAction::<R, N>::Send(Outgoing::Response(Response { id, result }))]
        + warnings.map_values(
        |warning: ConfigWarning|
            ClientAction::<R, N>::Send(Outgoing::ConfigWarning(warning)),
    )
}

/// What is to be done with a request.
pub open spec fn request_handled<R, N>(
    request: ClientRequest<R>,
    initialize_result: serde_json::Value,
    warnings: Seq<ConfigWarning>,
    r: Seq<ClientAction<R, N>>,
) -> bool {
    if request.method@ == "initialize"@ {
        if request.typed matches Ok(typed) && typed.is_initialize {
            r == initialize_actions::<R, N>(request.id, initialize_result, warnings)
        } else {
            r.len() == 1 && (r[0] matches ClientAction::Send(message) && refuses(
                message,
                request.id,
                "invalid initialize request"@,
            ))
        }
    } else {
        match request.typed {
            Ok(typed) => r == seq![
                ClientAction::<R, N>::Forward { id: request.id, request: typed.request },
            ],
            Err(_) => r.len() == 1 && (r[0] matches ClientAction::Send(message) && refuses(
                message,
                request.id,
                "invalid or unsupported app-server request"@,
            )),
        }
    }
}

/// What is to be done with a message.
pub open spec fn message_handled<R, N>(
    message: ClientMessage<R, N>,
    initialize_result: serde_json::Value,
    warnings: Seq<ConfigWarning>,
    r: Seq<ClientAction<R, N>>,
) -> bool {
    match message {
        ClientMessage::Request(request) => request_handled(
            request,
            initialize_result,
            warnings,
            r,
        ),
        ClientMessage::Notification { method, typed } => if method@ == "initialized"@ {
            r == Seq::<ClientAction<R, N>>::empty()
        } else {
            match typed {
                Ok(notification) => r == seq![ClientAction::<R, N>::Notify(notification)],
                Err(_) => r == Seq::<ClientAction<R, N>>::empty(),
            }
        },
        ClientMessage::Response { id, result } => r == seq![
            ClientAction::<R, N>::Resolve { id, result },
        ],
        ClientMessage::Error { id, error } => r == seq![
            ClientAction::<R, N>::Reject { id, error },
        ],
    }
}

/// The answer to a request that the app-server was asked.
pub open spec fn answer(
    id: RequestId,
    outcome: Result<Result<serde_json::Value, ErrorBody>, String>,
) -> Outgoing {
    match outcome {
        Ok(Ok(result)) => Outgoing::Response(Response { id, result }),
        Ok(Err(error)) => Outgoing::Error { id, error },
        Err(message) => Outgoing::Error {
            id,
            error: ErrorBody { code: INTERNAL_ERROR_CODE, message, data: None },
        },
    }
}

/// Refuses a request as invalid.
pub fn invalid_request(id: RequestId, message: &str) -> (r: Outgoing)
    ensures
        refuses(r, id, message@),
{
    Outgoing::Error {
        id,
        error: ErrorBody {
            code: INVALID_REQUEST_CODE,
            message: message.to_owned(),
            data: None,
        },
    }
}

/// Answers the platform's request to initialize in place of the app-server, which is initialized
/// already. A request that is none is refused: its id comes back.
pub fn external_initialize_response<R>(
    request: ClientRequest<R>,
    initialize_result: &serde_json::Value,
) -> (r: Result<Response, RequestId>)
    ensures
        r == if request.typed matches Ok(typed) && typed.is_initialize {
            Ok::<Response, RequestId>(Response { id: request.id, result: *initialize_result })
        } else {
            Err::<Response, RequestId>(request.id)
        },
{
    match request.typed {
        Ok(typed) => {
            if typed.is_initialize {
                Ok(Response { id: request.id, result: initialize_result.clone() })
            } else {
                Err(request.id)
            }
        },
        Err(_) => Err(request.id),
    }
}

fn handle_request<R, N>(
    request: ClientRequest<R>,
    initialize_result: &serde_json::Value,
    config_warnings: &Vec<ConfigWarning>,
) -> (r: Vec<ClientAction<R, N>>)
    ensures
        request_handled(request, *initialize_result, config_warnings@, r@),
{
    let mut actions: Vec<ClientAction<R, N>> = Vec::new();
    if text_eq(request.method.as_str(), "initialize") {
        match external_initialize_response(request, initialize_result) {
            Ok(response) => {
                actions.push(ClientAction::Send(Outgoing::Response(response)));
                let ghost first = actions@;
                let mut i: usize = 0;
                while i < config_warnings.len()
                    invariant
                        i <= config_warnings@.len(),
                        first.len() == 1,
                        actions@ == first + config_warnings@.take(i as int).map_values(
                            |warning: ConfigWarning|
                                ClientAction::<R, N>::Send(Outgoing::ConfigWarning(warning)),
                        ),
                    decreases config_warnings@.len() - i,
                {
                    let warning = config_warnings[i].clone();
                    actions.push(ClientAction::Send(Outgoing::ConfigWarning(warning)));
                    proof {
                        assert(config_warnings@.take(i + 1).drop_last()
                            =~= config_warnings@.take(i as int));
                        assert(actions@ =~= first + config_warnings@.take(i + 1).map_values(
                            |warning: ConfigWarning|
                                ClientAction::<R, N>::Send(Outgoing::ConfigWarning(warning)),
                        ));
                    }
                    i = i + 1;
                }
                proof {
                    assert(config_warnings@.take(i as int) =~= config_warnings@);
                    assert(actions@ =~= initialize_actions::<R, N>(
                        request.id,
                        *initialize_result,
                        config_warnings@,
                    ));
                }
            },
            Err(id) => {
                actions.push(
                    ClientAction::Send(invalid_request(id, "invalid initialize request")),
                );
            },
        }
    } else {
        match request.typed {
            Ok(typed) => {
                actions.push(ClientAction::Forward { id: request.id, request: typed.request });
            },
            Err(_) => {
                actions.push(
                    ClientAction::Send(
                        invalid_request(request.id, "invalid or unsupported app-server request"),
                    ),
                );
            },
        }
    }
    actions
}

/// Decides what is to be done with a message of the platform.
pub fn handle_client_message<R, N>(
    message: ClientMessage<R, N>,
    initialize_result: &serde_json::Value,
    config_warnings: &Vec<ConfigWarning>,
) -> (r: Vec<ClientAction<R, N>>)
    ensures
        message_handled(message, *initialize_result, config_warnings@, r@),
{
    let mut actions: Vec<ClientAction<R, N>> = Vec::new();
    match message {
        ClientMessage::Request(request) => {
            return handle_request(request, initialize_result, config_warnings);
        },
        ClientMessage::Notification { method, typed } => {
            if !text_eq(method.as_str(), "initialized") {
                match typed {
                    Ok(notification) => {
                        actions.push(ClientAction::Notify(notification));
                    },
                    Err(_) => {},
                }
            }
        },
        ClientMessage::Response { id, result } => {
            actions.push(ClientAction::Resolve { id, result });
        },
        ClientMessage::Error { id, error } => {
            actions.push(ClientAction::Reject { id, error });
        },
    }
    actions
}

/// Answers a request with what came of asking the app-server: its result, its refusal, or why it
/// could not be asked.
pub fn complete_request(
    id: RequestId,
    outcome: Result<Result<serde_json::Value, ErrorBody>, String>,
) -> (r: Outgoing)
    ensures
        r == answer(id, outcome),
{
    match outcome {
        Ok(Ok(result)) => Outgoing::Response(Response { id, result }),
        Ok(Err(error)) => Outgoing::Error { id, error },
        Err(message) => Outgoing::Error {
            id,
            error: ErrorBody { code: INTERNAL_ERROR_CODE, message, data: None },
        },
    }
}

/// Whether an action answers the request `id`, or hands it on to be answered.
pub open spec fn settles<R, N>(action: ClientAction<R, N>, id: RequestId) -> bool {
    match action {
        ClientAction::Send(Outgoing::Response(response)) => response.id == id,
        ClientAction::Send(Outgoing::Error { id: to, .. }) => to == id,
        ClientAction::Forward { id: to, .. } => to == id,
        _ => false,
    }
}

/// Whether an action reaches the app-server.
pub open spec fn reaches_app_server<R, N>(action: ClientAction<R, N>) -> bool {
    action !is Send
}

/// A message of the handshake: a request to initialize, or the notification that follows it.
pub open spec fn is_handshake<R, N>(message: ClientMessage<R, N>) -> bool {
    match message {
        ClientMessage::Request(request) => request.method@ == "initialize"@,
        ClientMessage::Notification { method, .. } => method@ == "initialized"@,
        _ => false,
    }
}

/// Every request is answered, or handed on to be answered, exactly once and under its own id; all
/// else that a request brings about is warnings.
pub proof fn law_request_is_settled_once<R, N>(
    request: ClientRequest<R>,
    initialize_result: serde_json::Value,
    warnings: Seq<ConfigWarning>,
    actions: Seq<ClientAction<R, N>>,
)
    requires
        message_handled(
            ClientMessage::Request(request),
            initialize_result,
            warnings,
            actions,
        ),
    ensures
        actions.len() > 0,
        settles(actions[0], request.id),
        forall|i: int|
            0 < i < actions.len() ==> (#[trigger] actions[i] matches ClientAction::Send(
                Outgoing::ConfigWarning(_),
            )),
        forall|i: int| 0 < i < actions.len() ==> !settles(#[trigger] actions[i], request.id),
{
}

/// The handshake ends here: nothing of it reaches the app-server.
pub proof fn law_handshake_is_terminated<R, N>(
    message: ClientMessage<R, N>,
    initialize_result: serde_json::Value,
    warnings: Seq<ConfigWarning>,
    actions: Seq<ClientAction<R, N>>,
)
    requires
        is_handshake(message),
        message_handled(message, initialize_result, warnings, actions),
    ensures
        forall|i: int| 0 <= i < actions.len() ==> !reaches_app_server(#[trigger] actions[i]),
{
}

/// Any message that is not of the handshake, and that the app-server's protocol knows, reaches the
/// app-server exactly once and as it is; any other that is not of the handshake never does.
pub proof fn law_all_else_is_bridged<R, N>(
    message: ClientMessage<R, N>,
    initialize_result: serde_json::Value,
    warnings: Seq<ConfigWarning>,
    actions: Seq<ClientAction<R, N>>,
)
    requires
        !is_handshake(message),
        message_handled(message, initialize_result, warnings, actions),
    ensures
        match message {
            ClientMessage::Request(request) => match request.typed {
                Ok(typed) => actions == seq![
                    ClientAction::<R, N>::Forward { id: request.id, request: typed.request },
                ],
                Err(_) => actions.len() == 1 && !reaches_app_server(actions[0]),
            },
            ClientMessage::Notification { typed, .. } => match typed {
                Ok(notification) => actions == seq![ClientAction::<R, N>::Notify(notification)],
                Err(_) => actions.len() == 0,
            },
            ClientMessage::Response { id, result } => actions == seq![
                ClientAction::<R, N>::Resolve { id, result },
            ],
            ClientMessage::Error { id, error } => actions == seq![
                ClientAction::<R, N>::Reject { id, error },
            ],
        },
{
}

/// What the app-server is asked on behalf of a request is answered under the id of that request.
pub proof fn law_answer_keeps_the_id<R, N>(
    id: RequestId,
    outcome: Result<Result<serde_json::Value, ErrorBody>, String>,
)
    ensures
        settles(ClientAction::<R, N>::Send(answer(id, outcome)), id),
        outcome matches Ok(Ok(_)) <==> answer(id, outcome) is Response,
{
}

/// What the app-server answers reaches the platform unchanged, under the id of the request: its result
/// as the result, and its error with its own code, message and data. Where it could not be asked, the
/// platform is told why, as an internal error without data.
pub proof fn law_answer_is_passed_on_unchanged(
    id: RequestId,
    result: serde_json::Value,
    error: ErrorBody,
    why: String,
)
    ensures
        answer(id, Ok(Ok(result))) matches Outgoing::Response(response) && response.id == id
            && response.result == result,
        answer(id, Ok(Err(error))) matches Outgoing::Error { id: to, error: told } && to == id
            && told.code == error.code && told.message == error.message && told.data == error.data,
        answer(id, Err(why)) matches Outgoing::Error { id: to, error: told } && to == id && told.code
            == -32603 && told.message == why && told.data is None,
{
}

/// Two answers are the same only where they are to the same request and the app-server said the same.
pub proof fn law_answers_are_told_apart(
    a: RequestId,
    b: RequestId,
    said_a: Result<serde_json::Value, ErrorBody>,
    said_b: Result<serde_json::Value, ErrorBody>,
)
    requires
        answer(a, Ok(said_a)) == answer(b, Ok(said_b)),
    ensures
        a == b,
        said_a == said_b,
{
}

/// A request that is refused as invalid is refused under its own id, with the code -32600, the given
/// words and no data.
pub proof fn law_refusal_is_told_by_its_parts(message: Outgoing, id: RequestId, text: Seq<char>)
    ensures
        refuses(message, id, text) <==> (message matches Outgoing::Error { id: to, error } && to
            == id && error.code == -32600 && error.message@ == text && error.data is None),
{
}

/// A request that cannot be served is answered by one error and nothing else: one to initialize that is
/// none, and any other that the app-server's protocol does not know, each in its own words.
pub proof fn law_unserved_request_is_refused<R, N>(
    request: ClientRequest<R>,
    initialize_result: serde_json::Value,
    warnings: Seq<ConfigWarning>,
    actions: Seq<ClientAction<R, N>>,
)
    requires
        message_handled(
            ClientMessage::Request(request),
            initialize_result,
            warnings,
            actions,
        ),
        request.typed is Err || (request.method@ == "initialize"@ && !request.typed->Ok_0.is_initialize),
    ensures
        actions.len() == 1,
        actions[0] matches ClientAction::Send(Outgoing::Error { id, error }) && id == request.id
            && error.code == -32600 && error.data is None && error.message@ == if request.method@
            == "initialize"@ {
            "invalid initialize request"@
        } else {
            "invalid or unsupported app-server request"@
        },
{
}

/// A valid request to initialize is answered by the prepared result as it is, under its id, and then by
/// every warning as it is, in their order; nothing else comes of it.
pub proof fn law_initialize_is_answered_with_what_was_prepared<R, N>(
    request: ClientRequest<R>,
    initialize_result: serde_json::Value,
    warnings: Seq<ConfigWarning>,
    actions: Seq<ClientAction<R, N>>,
)
    requires
        message_handled(
            ClientMessage::Request(request),
            initialize_result,
            warnings,
            actions,
        ),
        request.method@ == "initialize"@,
        request.typed matches Ok(typed) && typed.is_initialize,
    ensures
        actions.len() == 1 + warnings.len(),
        actions[0] matches ClientAction::Send(Outgoing::Response(response)) && response.id
            == request.id && response.result == initialize_result,
        forall|i: int|
            0 <= i < warnings.len() ==> (#[trigger] actions[i + 1] matches ClientAction::Send(
                Outgoing::ConfigWarning(warning),
            ) && warning == warnings[i]),
{
}

/// Whatever is not the platform's own handshake is handed on whole: the request under its id, the
/// notification, and the answer or the refusal under the id of what it answers.
pub proof fn law_message_is_handed_on_whole<R, N>(
    message: ClientMessage<R, N>,
    initialize_result: serde_json::Value,
    warnings: Seq<ConfigWarning>,
    actions: Seq<ClientAction<R, N>>,
)
    requires
        message_handled(message, initialize_result, warnings, actions),
    ensures
        message matches ClientMessage::Request(request) ==> (request.method@ != "initialize"@
            && request.typed is Ok ==> actions.len() == 1 && (actions[0] matches ClientAction::Forward {
            id,
            request: forwarded,
        } && id == request.id && forwarded == request.typed->Ok_0.request)),
        message matches ClientMessage::Notification { method, typed } ==> match typed {
            Ok(notification) => if method@ == "initialized"@ {
                actions.len() == 0
            } else {
                actions.len() == 1 && (actions[0] matches ClientAction::Notify(told) && told
                    == notification)
            },
            Err(_) => actions.len() == 0,
        },
        message matches ClientMessage::Response { id, result } ==> actions.len() == 1 && (
        actions[0] matches ClientAction::Resolve { id: to, result: told } && to == id && told
            == result),
        message matches ClientMessage::Error { id, error } ==> actions.len() == 1 && (
        actions[0] matches ClientAction::Reject { id: to, error: told } && to == id && told == error),
{
}

/// A JSON object of texts holds each of the texts under its name, and nothing else, where the names
/// differ.
pub proof fn law_object_holds_each_text(members: Seq<(String, String)>)
    requires
        forall|i: int, j: int|
            0 <= i < j < members.len() ==> (#[trigger] members[i]).0@ != (#[trigger] members[j]).0@,
    ensures
        names_differ(members),
        forall|i: int|
            0 <= i < members.len() ==> text_members(members).dom().contains(
                (#[trigger] members[i]).0@,
            ) && text_members(members)[members[i].0@] == Some(members[i].1@),
        forall|name: Seq<char>| #[trigger]
            text_members(members).dom().contains(name) ==> exists|i: int|
                0 <= i < members.len() && (#[trigger] members[i]).0@ == name,
    decreases members.len(),
{
    if members.len() > 0 {
        let fewer = members.drop_last();
        let last = members.len() - 1;
        law_object_holds_each_text(fewer);
        assert forall|i: int| 0 <= i < members.len() implies text_members(members).dom().contains(
            (#[trigger] members[i]).0@,
        ) && text_members(members)[members[i].0@] == Some(members[i].1@) by {
            if i < last {
                assert(fewer[i] == members[i]);
                assert(members[i].0@ != members[last].0@);
            }
        }
        assert forall|name: Seq<char>| #[trigger]
            text_members(members).dom().contains(name) implies exists|i: int|
            0 <= i < members.len() && (#[trigger] members[i]).0@ == name by {
            if name == members[last].0@ {
            } else {
                assert(text_members(fewer).dom().contains(name));
                let i = choose|i: int| 0 <= i < fewer.len() && (#[trigger] fewer[i]).0@ == name;
                assert(members[i].0@ == name);
            }
        }
    }
}

} // verus!
