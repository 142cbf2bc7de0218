//! The bridge between a WebSocket and the embedded app-server.
//!
//! The bridge performs nothing. It says what is to be done, and what came of it is handed back as an
//! event.
use vstd::prelude::*;

verus! {

/// What the bridge waits for.
#[derive(Clone, Copy, Debug, PartialEq, Eq, Structural)]
pub enum BridgePhase {
    /// Whatever comes first from either side.
    Listening,
    /// What comes of handing a frame to the app-server.
    Forwarding,
    /// What comes of writing a frame to the platform.
    Writing,
    /// Nothing: the connection is closed.
    Closed,
}

/// What happens to the bridge.
#[derive(Debug, PartialEq, Eq)]
pub enum BridgeEvent {
    /// The platform sent a text frame.
    Text(String),
    /// The platform sent a binary frame.
    Binary,
    /// The platform sent a ping.
    Ping(Vec<u8>),
    /// The platform sent a pong.
    Pong,
    /// The platform closes the connection.
    Close,
    /// The connection broke.
    Broken,
    /// No frame of the platform can come any more.
    FramesEnded,
    /// A message for the platform came.
    Message(String),
    /// Messages for the platform were lost.
    Lagged,
    /// No message for the platform can come any more.
    MessagesEnded,
    /// The app-server exited.
    AppServerExited,
    /// What was to be done is done, or it failed.
    Finished { ok: bool },
}

/// What the bridge does.
#[derive(Debug, PartialEq, Eq)]
pub enum BridgeAction {
    /// Wait.
    Wait,
    /// Hand a text frame to the app-server.
    Forward(String),
    /// Write a pong.
    WritePong(Vec<u8>),
    /// Write a text frame.
    WriteText(String),
    /// Close the connection.
    Close,
}

/// Whether `serde_json::from_str` reads a JSON value out of a text.
pub uninterp spec fn json_text(text: Seq<char>) -> bool;

/// Calls `serde_json::from_str` for a `serde_json::Value` and tells whether it succeeds, which
/// depends on `text` alone. What JSON is, and how deep it may nest, is left unsaid.
#[verifier::external_body]
pub(crate) fn is_json(text: &str) -> (r: bool)
    ensures
        r == json_text(text@),
{
    serde_json::from_str::<serde_json::Value>(text).is_ok()
}

/// What the bridge does on an event, given whether the text of a text frame is JSON. An event that
/// it does not wait for does nothing.
pub open spec fn bridge_next(phase: BridgePhase, event: BridgeEvent, is_json: bool) -> (
    BridgePhase,
    BridgeAction,
) {
    match (phase, event) {
        (BridgePhase::Listening, BridgeEvent::Text(text)) => if is_json {
            (BridgePhase::Forwarding, BridgeAction::Forward(text))
        } else {
            (BridgePhase::Closed, BridgeAction::Close)
        },
        (BridgePhase::Listening, BridgeEvent::Ping(payload)) => (
            BridgePhase::Writing,
            BridgeAction::WritePong(payload),
        ),
        (BridgePhase::Listening, BridgeEvent::Pong) => (BridgePhase::Listening, BridgeAction::Wait),
        (BridgePhase::Listening, BridgeEvent::Message(message)) => (
            BridgePhase::Writing,
            BridgeAction::WriteText(message),
        ),
        (BridgePhase::Listening, BridgeEvent::Binary) => (BridgePhase::Closed, BridgeAction::Close),
        (BridgePhase::Listening, BridgeEvent::Close) => (BridgePhase::Closed, BridgeAction::Close),
        (BridgePhase::Listening, BridgeEvent::Broken) => (BridgePhase::Closed, BridgeAction::Close),
        (BridgePhase::Listening, BridgeEvent::FramesEnded) => (
            BridgePhase::Closed,
            BridgeAction::Close,
        ),
        (BridgePhase::Listening, BridgeEvent::Lagged) => (BridgePhase::Closed, BridgeAction::Close),
        (BridgePhase::Listening, BridgeEvent::MessagesEnded) => (
            BridgePhase::Closed,
            BridgeAction::Close,
        ),
        (BridgePhase::Listening, BridgeEvent::AppServerExited) => (
            BridgePhase::Closed,
            BridgeAction::Close,
        ),
        (BridgePhase::Forwarding, BridgeEvent::Finished { ok }) => bridge_resumes(ok),
        (BridgePhase::Writing, BridgeEvent::Finished { ok }) => bridge_resumes(ok),
        _ => (phase, BridgeAction::Wait),
    }
}

/// What the bridge does when what was to be done is done, or failed.
pub open spec fn bridge_resumes(ok: bool) -> (BridgePhase, BridgeAction) {
    if ok {
        (BridgePhase::Listening, BridgeAction::Wait)
    } else {
        (BridgePhase::Closed, BridgeAction::Close)
    }
}

/// Whether the text of a text frame is JSON.
pub open spec fn carries_json(event: BridgeEvent) -> bool {
    event matches BridgeEvent::Text(text) && json_text(text@)
}

/// Decides what the bridge does on an event, given whether the text of a text frame is JSON.
pub fn bridge_step(phase: BridgePhase, event: BridgeEvent, is_json: bool) -> (r: (
    BridgePhase,
    BridgeAction,
))
    ensures
        r == bridge_next(phase, event, is_json),
{
    match phase {
        BridgePhase::Listening => match event {
            BridgeEvent::Text(text) => {
                if is_json {
                    (BridgePhase::Forwarding, BridgeAction::Forward(text))
                } else {
                    (BridgePhase::Closed, BridgeAction::Close)
                }
            },
            BridgeEvent::Ping(payload) => (BridgePhase::Writing, BridgeAction::WritePong(payload)),
            BridgeEvent::Message(message) => (
                BridgePhase::Writing,
                BridgeAction::WriteText(message),
            ),
            BridgeEvent::Pong => (BridgePhase::Listening, BridgeAction::Wait),
            BridgeEvent::Finished { .. } => (BridgePhase::Listening, BridgeAction::Wait),
            BridgeEvent::Binary
            | BridgeEvent::Close
            | BridgeEvent::Broken
            | BridgeEvent::FramesEnded
            | BridgeEvent::Lagged
            | BridgeEvent::MessagesEnded
            | BridgeEvent::AppServerExited => (BridgePhase::Closed, BridgeAction::Close),
        },
        BridgePhase::Forwarding | BridgePhase::Writing => match event {
            BridgeEvent::Finished { ok } => {
                if ok {
                    (BridgePhase::Listening, BridgeAction::Wait)
                } else {
                    (BridgePhase::Closed, BridgeAction::Close)
                }
            },
            _ => (phase, BridgeAction::Wait),
        },
        BridgePhase::Closed => (BridgePhase::Closed, BridgeAction::Wait),
    }
}

/// Decides what the bridge does on an event.
pub fn bridge(phase: BridgePhase, event: BridgeEvent) -> (r: (BridgePhase, BridgeAction))
    ensures
        r == bridge_next(phase, event, carries_json(event)),
{
    let json: bool = match &event {
        BridgeEvent::Text(text) => is_json(text.as_str()),
        _ => false,
    };
    bridge_step(phase, event, json)
}

/// What the bridge waits for after a row of events.
pub open spec fn phase_after(events: Seq<BridgeEvent>) -> BridgePhase
    decreases events.len(),
{
    if events.len() == 0 {
        BridgePhase::Listening
    } else {
        let last = events.last();
        bridge_next(phase_after(events.drop_last()), last, carries_json(last)).0
    }
}

/// What the bridge does on the last of a row of events.
pub open spec fn last_action(events: Seq<BridgeEvent>) -> BridgeAction {
    let last = events.last();
    bridge_next(phase_after(events.drop_last()), last, carries_json(last)).1
}

/// The text frames that the bridge took from the platform.
pub open spec fn texts_taken(events: Seq<BridgeEvent>) -> Seq<Seq<char>>
    decreases events.len(),
{
    if events.len() == 0 {
        Seq::empty()
    } else {
        let before = texts_taken(events.drop_last());
        match (phase_after(events.drop_last()), events.last()) {
            (BridgePhase::Listening, BridgeEvent::Text(text)) => before.push(text@),
            _ => before,
        }
    }
}

/// The text frames that the bridge handed to the app-server.
pub open spec fn texts_forwarded(events: Seq<BridgeEvent>) -> Seq<Seq<char>>
    decreases events.len(),
{
    if events.len() == 0 {
        Seq::empty()
    } else {
        let before = texts_forwarded(events.drop_last());
        match last_action(events) {
            BridgeAction::Forward(text) => before.push(text@),
            _ => before,
        }
    }
}

/// The messages that the bridge took from the app-server.
pub open spec fn messages_taken(events: Seq<BridgeEvent>) -> Seq<Seq<char>>
    decreases events.len(),
{
    if events.len() == 0 {
        Seq::empty()
    } else {
        let before = messages_taken(events.drop_last());
        match (phase_after(events.drop_last()), events.last()) {
            (BridgePhase::Listening, BridgeEvent::Message(message)) => before.push(message@),
            _ => before,
        }
    }
}

/// The text frames that the bridge wrote to the platform.
pub open spec fn texts_written(events: Seq<BridgeEvent>) -> Seq<Seq<char>>
    decreases events.len(),
{
    if events.len() == 0 {
        Seq::empty()
    } else {
        let before = texts_written(events.drop_last());
        match last_action(events) {
            BridgeAction::WriteText(text) => before.push(text@),
            _ => before,
        }
    }
}

/// The frames of the platform reach the app-server complete, unchanged and in order, up to the first
/// that is not JSON. That one is the last that is taken: it closes the connection.
pub proof fn law_frames_reach_the_app_server(events: Seq<BridgeEvent>)
    ensures
        ({
            let taken = texts_taken(events);
            let forwarded = texts_forwarded(events);
            if forall|i: int| 0 <= i < taken.len() ==> json_text(#[trigger] taken[i]) {
                forwarded == taken
            } else {
                &&& !json_text(taken.last())
                &&& forwarded == taken.drop_last()
                &&& forall|i: int| 0 <= i < forwarded.len() ==> json_text(#[trigger] forwarded[i])
                &&& phase_after(events) == BridgePhase::Closed
            }
        }),
    decreases events.len(),
{
    if events.len() > 0 {
        let prev = events.drop_last();
        law_frames_reach_the_app_server(prev);
        let taken = texts_taken(prev);
        let now = texts_taken(events);
        if phase_after(prev) == BridgePhase::Listening && events.last() is Text {
            let text = events.last()->Text_0@;
            assert(forall|i: int| 0 <= i < taken.len() ==> json_text(#[trigger] taken[i]));
            assert(now == taken.push(text));
            assert(now.last() == text && now[taken.len() as int] == text);
            assert(now.drop_last() =~= taken);
            assert(forall|i: int| 0 <= i < taken.len() ==> now[i] == taken[i]);
            if json_text(text) {
                assert forall|i: int| 0 <= i < now.len() implies json_text(#[trigger] now[i]) by {
                    if i < taken.len() {
                        assert(json_text(taken[i]));
                    }
                }
            }
        } else {
            assert(now == taken);
        }
    }
}

/// The messages of the app-server reach the platform complete, unchanged and in order.
pub proof fn law_messages_reach_the_platform(events: Seq<BridgeEvent>)
    ensures
        texts_written(events) == messages_taken(events),
    decreases events.len(),
{
    if events.len() > 0 {
        law_messages_reach_the_platform(events.drop_last());
    }
}

/// A closed bridge does nothing more.
pub proof fn law_closed_is_final(event: BridgeEvent, is_json: bool)
    ensures
        bridge_next(BridgePhase::Closed, event, is_json) == (
            BridgePhase::Closed,
            BridgeAction::Wait,
        ),
{
}

/// A binary frame, or a text frame that is not JSON, closes a listening connection.
pub proof fn law_unreadable_frame_closes(event: BridgeEvent)
    requires
        event is Binary || (event is Text && !carries_json(event)),
    ensures
        bridge_next(BridgePhase::Listening, event, carries_json(event)) == (
            BridgePhase::Closed,
            BridgeAction::Close,
        ),
{
}

/// Each message for the platform is written as it is, whatever it holds; each JSON frame of the platform
/// is handed on as it is; each ping is answered by its own payload; and a pong by nothing.
pub proof fn law_bridge_passes_on_what_it_gets(
    text: String,
    payload: Vec<u8>,
    is_json: bool,
)
    ensures
        bridge_next(BridgePhase::Listening, BridgeEvent::Message(text), is_json) == (
            BridgePhase::Writing,
            BridgeAction::WriteText(text),
        ),
        bridge_next(BridgePhase::Listening, BridgeEvent::Text(text), true) == (
            BridgePhase::Forwarding,
            BridgeAction::Forward(text),
        ),
        bridge_next(BridgePhase::Listening, BridgeEvent::Ping(payload), is_json) == (
            BridgePhase::Writing,
            BridgeAction::WritePong(payload),
        ),
        bridge_next(BridgePhase::Listening, BridgeEvent::Pong, is_json) == (
            BridgePhase::Listening,
            BridgeAction::Wait,
        ),
{
}

/// A bridge that has done what was to be done listens again, and one that is still at it waits for that
/// alone.
pub proof fn law_bridge_listens_again(phase: BridgePhase, event: BridgeEvent, is_json: bool)
    requires
        phase == BridgePhase::Forwarding || phase == BridgePhase::Writing,
    ensures
        event == (BridgeEvent::Finished { ok: true }) ==> bridge_next(phase, event, is_json) == (
            BridgePhase::Listening,
            BridgeAction::Wait,
        ),
        event !is Finished ==> bridge_next(phase, event, is_json) == (phase, BridgeAction::Wait),
{
}

/// A bridge that is open is closed by an event exactly where that is an end of either side, a frame that
/// cannot be read or a failure of what was to be done; and exactly then it closes the connection.
pub proof fn law_bridge_is_closed_exactly_by_an_end(
    phase: BridgePhase,
    event: BridgeEvent,
    is_json: bool,
)
    requires
        phase != BridgePhase::Closed,
    ensures
        ({
            let closes = if phase == BridgePhase::Listening {
                match event {
                    BridgeEvent::Binary => true,
                    BridgeEvent::Close => true,
                    BridgeEvent::Broken => true,
                    BridgeEvent::FramesEnded => true,
                    BridgeEvent::Lagged => true,
                    BridgeEvent::MessagesEnded => true,
                    BridgeEvent::AppServerExited => true,
                    BridgeEvent::Text(_) => !is_json,
                    _ => false,
                }
            } else {
                event == (BridgeEvent::Finished { ok: false })
            };
            &&& bridge_next(phase, event, is_json).0 == BridgePhase::Closed <==> closes
            &&& bridge_next(phase, event, is_json).1 == BridgeAction::Close <==> closes
        }),
{
}

/// Whether a frame can be read is told by its text alone; no other event carries a text of the platform.
pub proof fn law_frame_is_read_by_its_text(event: BridgeEvent)
    ensures
        event matches BridgeEvent::Text(text) ==> (carries_json(event) <==> json_text(text@)),
        event !is Text ==> !carries_json(event),
{
}

/// A connection ends only for cause: where a bridge is closed, there was an end of either side, a binary
/// frame, a text frame that is not JSON, or a failure to hand on or to write.
pub proof fn law_connection_ends_only_for_cause(events: Seq<BridgeEvent>)
    requires
        phase_after(events) == BridgePhase::Closed,
    ensures
        exists|i: int|
            0 <= i < events.len() && (match #[trigger] events[i] {
                BridgeEvent::Binary => true,
                BridgeEvent::Close => true,
                BridgeEvent::Broken => true,
                BridgeEvent::FramesEnded => true,
                BridgeEvent::Lagged => true,
                BridgeEvent::MessagesEnded => true,
                BridgeEvent::AppServerExited => true,
                BridgeEvent::Text(text) => !json_text(text@),
                BridgeEvent::Finished { ok } => !ok,
                _ => false,
            }),
    decreases events.len(),
{
    let prev = events.drop_last();
    if phase_after(prev) == BridgePhase::Closed {
        law_connection_ends_only_for_cause(prev);
        let i = choose|i: int|
            0 <= i < prev.len() && (match #[trigger] prev[i] {
                BridgeEvent::Binary => true,
                BridgeEvent::Close => true,
                BridgeEvent::Broken => true,
                BridgeEvent::FramesEnded => true,
                BridgeEvent::Lagged => true,
                BridgeEvent::MessagesEnded => true,
                BridgeEvent::AppServerExited => true,
                BridgeEvent::Text(text) => !json_text(text@),
                BridgeEvent::Finished { ok } => !ok,
                _ => false,
            });
        assert(events[i] == prev[i]);
    } else {
        law_bridge_is_closed_exactly_by_an_end(
            phase_after(prev),
            events.last(),
            carries_json(events.last()),
        );
        assert(events[events.len() - 1] == events.last());
    }
}

/// After a message has been written, a frame handed on or a ping answered, the bridge listens for
/// whatever comes next, as it did before.
pub proof fn law_bridge_goes_on_after_each_message(events: Seq<BridgeEvent>, event: BridgeEvent)
    requires
        phase_after(events) == BridgePhase::Listening,
        match event {
            BridgeEvent::Message(_) => true,
            BridgeEvent::Ping(_) => true,
            BridgeEvent::Text(text) => json_text(text@),
            _ => false,
        },
    ensures
        phase_after(events.push(event).push(BridgeEvent::Finished { ok: true }))
            == BridgePhase::Listening,
{
    let taken = events.push(event);
    let done = taken.push(BridgeEvent::Finished { ok: true });
    assert(taken.drop_last() =~= events);
    assert(done.drop_last() =~= taken);
    assert(phase_after(taken) == bridge_next(
        phase_after(events),
        event,
        carries_json(event),
    ).0);
}

} // verus!
