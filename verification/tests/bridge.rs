use codex_worker_adapter::bridge::{
    bridge, bridge_step, BridgeAction, BridgeEvent, BridgePhase,
};

const CLOSED: (BridgePhase, BridgeAction) = (BridgePhase::Closed, BridgeAction::Close);

fn listening(event: BridgeEvent) -> (BridgePhase, BridgeAction) {
    bridge(BridgePhase::Listening, event)
}

fn text(frame: &str) -> BridgeEvent {
    BridgeEvent::Text(frame.to_string())
}

#[test]
fn json_frames_are_forwarded_unchanged() {
    for frame in ["{\"id\": 1}", " [1, 2] ", "null", "\"\u{e9}\"", "1e3"] {
        assert_eq!(
            listening(text(frame)),
            (BridgePhase::Forwarding, BridgeAction::Forward(frame.to_string()))
        );
    }
}

#[test]
fn unreadable_frames_close_the_connection() {
    for frame in ["", "{", "{} {}", "hello", "{'a':1}", "[1,]"] {
        assert_eq!(listening(text(frame)), CLOSED);
    }
    let deep = "[".repeat(200) + &"]".repeat(200);
    assert_eq!(listening(text(&deep)), CLOSED);
    assert_eq!(listening(BridgeEvent::Binary), CLOSED);
}

#[test]
fn pings_are_answered_with_their_payload() {
    assert_eq!(
        listening(BridgeEvent::Ping(vec![1, 2, 3])),
        (BridgePhase::Writing, BridgeAction::WritePong(vec![1, 2, 3]))
    );
    assert_eq!(
        listening(BridgeEvent::Pong),
        (BridgePhase::Listening, BridgeAction::Wait)
    );
}

#[test]
fn messages_are_written_unchanged() {
    assert_eq!(
        listening(BridgeEvent::Message("{}".to_string())),
        (BridgePhase::Writing, BridgeAction::WriteText("{}".to_string()))
    );
}

#[test]
fn every_end_closes_the_connection() {
    assert_eq!(listening(BridgeEvent::Close), CLOSED);
    assert_eq!(listening(BridgeEvent::Broken), CLOSED);
    assert_eq!(listening(BridgeEvent::FramesEnded), CLOSED);
    assert_eq!(listening(BridgeEvent::Lagged), CLOSED);
    assert_eq!(listening(BridgeEvent::MessagesEnded), CLOSED);
    assert_eq!(listening(BridgeEvent::AppServerExited), CLOSED);
}

#[test]
fn work_under_way_comes_first() {
    for phase in [BridgePhase::Forwarding, BridgePhase::Writing] {
        assert_eq!(bridge(phase, text("{}")), (phase, BridgeAction::Wait));
        assert_eq!(bridge(phase, BridgeEvent::Close), (phase, BridgeAction::Wait));
        assert_eq!(
            bridge(phase, BridgeEvent::Finished { ok: true }),
            (BridgePhase::Listening, BridgeAction::Wait)
        );
        assert_eq!(bridge(phase, BridgeEvent::Finished { ok: false }), CLOSED);
    }
    assert_eq!(
        listening(BridgeEvent::Finished { ok: false }),
        (BridgePhase::Listening, BridgeAction::Wait)
    );
}

#[test]
fn closed_bridge_does_nothing() {
    for event in [text("{}"), BridgeEvent::Pong, BridgeEvent::Finished { ok: true }] {
        assert_eq!(
            bridge(BridgePhase::Closed, event),
            (BridgePhase::Closed, BridgeAction::Wait)
        );
    }
}

#[test]
fn verdict_on_a_text_decides() {
    assert_eq!(
        bridge_step(BridgePhase::Listening, text("x"), true),
        (BridgePhase::Forwarding, BridgeAction::Forward("x".to_string()))
    );
    assert_eq!(bridge_step(BridgePhase::Listening, text("{}"), false), CLOSED);
}

#[test]
fn frames_and_messages_pass_in_order() {
    let events = vec![
        text("{\"a\":1}"),
        BridgeEvent::Finished { ok: true },
        BridgeEvent::Message("one".to_string()),
        BridgeEvent::Finished { ok: true },
        text("{\"b\":2}"),
        BridgeEvent::Finished { ok: true },
        BridgeEvent::Message("two".to_string()),
        BridgeEvent::Finished { ok: true },
        text("broken"),
        text("{\"c\":3}"),
    ];
    let mut phase = BridgePhase::Listening;
    let mut forwarded: Vec<String> = Vec::new();
    let mut written: Vec<String> = Vec::new();
    for event in events {
        let (next, action) = bridge(phase, event);
        phase = next;
        match action {
            BridgeAction::Forward(text) => forwarded.push(text),
            BridgeAction::WriteText(text) => written.push(text),
            _ => {}
        }
    }
    assert_eq!(phase, BridgePhase::Closed);
    assert_eq!(forwarded, vec!["{\"a\":1}".to_string(), "{\"b\":2}".to_string()]);
    assert_eq!(written, vec!["one".to_string(), "two".to_string()]);
}
