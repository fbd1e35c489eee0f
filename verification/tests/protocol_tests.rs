use lyrics_plus::protocol::{advance_state_cursor, client_after_attempt, AttemptEnd, ClientLoopStep, SentState, StateChanges, StateCursor};
use lyrics_plus::json::{JsonNumber, JsonValue};
use lyrics_plus::laboratory::LaboratoryPhase;
use lyrics_plus::protocol::{
    authenticate_client_hello, check_handshake_response, classify_client_message,
    classify_server_message, client_attempt_phase, client_handshake_request, plan_state_updates,
    retry_delay_ms, retry_failure_message, websocket_target, ClientMessage, HelloOutcome,
    ServerMessage, StateUpdatePlan,
};

fn s(v: &str) -> JsonValue {
    JsonValue::String(v.to_string())
}

fn n(v: u64) -> JsonValue {
    JsonValue::Number(JsonNumber { unsigned: Some(v), text: v.to_string() })
}

fn obj(members: Vec<(&str, JsonValue)>) -> JsonValue {
    JsonValue::Object(members.into_iter().map(|(k, v)| (k.to_string(), v)).collect())
}

fn hello(version: u64, id: &str, password: Option<&str>) -> JsonValue {
    let mut payload = vec![("protocolVersion", n(version)), ("clientId", s(id))];
    if let Some(p) = password {
        payload.push(("password", s(p)));
    }
    obj(vec![("type", s("client.hello")), ("requestId", s("r1")), ("payload", obj(payload))])
}

#[test]
fn client_hello_is_checked() {
    match authenticate_client_hello(&hello(1, " phone ", None), &None) {
        HelloOutcome::Accepted { client_id, name } => {
            assert_eq!(client_id, "phone");
            assert_eq!(name, "Lyrics Plus 客户端");
        }
        other => panic!("unexpected {:?}", other),
    }
    match authenticate_client_hello(&obj(vec![("type", s("web.hello"))]), &None) {
        HelloOutcome::Rejected { code, request_id, failure, .. } => {
            assert_eq!(code, "client_hello_required");
            assert!(request_id.is_none());
            assert_eq!(failure, "客户端缺少 client.hello");
        }
        other => panic!("unexpected {:?}", other),
    }
    match authenticate_client_hello(&hello(2, "phone", None), &None) {
        HelloOutcome::Rejected { code, message, request_id, .. } => {
            assert_eq!(code, "unsupported_protocol");
            assert_eq!(message, "仅支持实验室协议 v1");
            assert_eq!(request_id.as_deref(), Some("r1"));
        }
        other => panic!("unexpected {:?}", other),
    }
    match authenticate_client_hello(&hello(1, "phone", Some("bad")), &Some("pw".into())) {
        HelloOutcome::Rejected { code, message, .. } => {
            assert_eq!(code, "unauthorized");
            assert_eq!(message, "服务端密码错误");
        }
        other => panic!("unexpected {:?}", other),
    }
    assert!(matches!(
        authenticate_client_hello(&hello(1, "phone", Some("pw")), &Some("pw".into())),
        HelloOutcome::Accepted { .. }
    ));
    assert!(matches!(
        authenticate_client_hello(&hello(1, "  ", None), &None),
        HelloOutcome::Rejected { code: "unauthorized", .. }
    ));
}

#[test]
fn client_messages_are_classified() {
    let ready = obj(vec![
        ("type", s("session.ready")),
        ("payload", obj(vec![("serverId", s("srv")), ("state", obj(vec![]))])),
    ]);
    match classify_client_message(&ready) {
        ClientMessage::Snapshot { server_id, state_member } => {
            assert_eq!(server_id.as_deref(), Some("srv"));
            assert!(state_member);
        }
        other => panic!("unexpected {:?}", other),
    }
    let snapshot = obj(vec![("type", s("state.snapshot")), ("payload", obj(vec![("serverId", s("srv"))]))]);
    assert!(matches!(
        classify_client_message(&snapshot),
        ClientMessage::Snapshot { server_id: None, state_member: false }
    ));
    match classify_client_message(&obj(vec![("type", s("session.error"))])) {
        ClientMessage::SessionError { message } => assert_eq!(message, "实验室会话失败"),
        other => panic!("unexpected {:?}", other),
    }
    assert!(matches!(classify_client_message(&obj(vec![("type", s("lyrics.changed"))])), ClientMessage::LyricsChanged));
    assert!(matches!(classify_client_message(&JsonValue::Null), ClientMessage::Ignored));
}

#[test]
fn server_messages_are_classified() {
    let command = obj(vec![
        ("type", s("playback.command")),
        ("requestId", s("q")),
        ("payload", obj(vec![("action", s("play")), ("positionMs", n(1200))])),
    ]);
    match classify_server_message(&command) {
        ServerMessage::PlaybackCommand { position_ms, request_id } => {
            assert_eq!(position_ms, Some(1200));
            assert_eq!(request_id.as_deref(), Some("q"));
        }
        other => panic!("unexpected {:?}", other),
    }
    assert!(matches!(classify_server_message(&obj(vec![("type", s("web.hello"))])), ServerMessage::Ignored));
}

#[test]
fn state_updates_are_throttled() {
    assert_eq!(
        plan_state_updates(false, true, true, true, true, None),
        StateUpdatePlan { snapshot: true, playback: false, lyrics: false, spectrum_state: false, spectrum_frame: false }
    );
    let plan = plan_state_updates(true, true, false, false, true, Some(99));
    assert!(plan.playback && !plan.lyrics && !plan.spectrum_frame && !plan.snapshot);
    assert!(plan_state_updates(true, false, false, false, true, Some(100)).spectrum_frame);
    assert!(plan_state_updates(true, false, false, false, true, None).spectrum_frame);
}

#[test]
fn client_connection_helpers() {
    assert_eq!(client_attempt_phase(0, false), LaboratoryPhase::Connecting);
    assert_eq!(client_attempt_phase(0, true), LaboratoryPhase::Reconnecting);
    assert_eq!(client_attempt_phase(2, false), LaboratoryPhase::Reconnecting);
    assert_eq!(retry_delay_ms(0), 400);
    assert_eq!(retry_delay_ms(3), 1150);
    assert_eq!(retry_failure_message(None), "服务端连接失败，已重试 3 次");
    assert_eq!(retry_failure_message(Some("boom".into())), "boom");
}

#[test]
fn dial_targets() {
    assert_eq!(websocket_target(" http://192.168.1.2 ", 8787), ("192.168.1.2".to_string(), "192.168.1.2:8787".to_string()));
    assert_eq!(websocket_target("ws://fe80::1", 80), ("fe80::1".to_string(), "[fe80::1]:80".to_string()));
    assert_eq!(websocket_target("[::1]", 80).1, "[::1]:80");
    assert_eq!(websocket_target("host:1", 2).1, "host:1:2");
}

#[test]
fn handshakes() {
    let request = client_handshake_request("h", &[0u8; 16]);
    assert_eq!(
        request,
        "GET /ws HTTP/1.1\r\nHost: h\r\nUpgrade: websocket\r\nConnection: Upgrade\r\nSec-WebSocket-Version: 13\r\nSec-WebSocket-Key: AAAAAAAAAAAAAAAAAAAAAA==\r\n\r\n"
    );
    assert!(check_handshake_response(b"HTTP/1.1 101 Switching Protocols\r\n\r\n").is_ok());
    assert_eq!(
        check_handshake_response(b"HTTP/1.1 404 Not Found\r\nX: y\r\n\r\n").unwrap_err(),
        "服务端拒绝 WebSocket 握手：HTTP/1.1 404 Not Found"
    );
    assert_eq!(check_handshake_response(b"").unwrap_err(), "服务端拒绝 WebSocket 握手：");
}

#[test]
fn state_cursor_keeps_the_newest_unsent_frame() {
    let state = |p: u32, f: u32, t: u64| SentState { playback: p, lyrics: 0u8, spectrum_state: 0u8, spectrum_frame: f, observed_at_ms: t };
    let mut cursor: StateCursor<u32, u8, u8, u32> = StateCursor { previous: None, last_frame_sent_ms: None };
    let plan = advance_state_cursor(&mut cursor, state(1, 10, 0), StateChanges { playback: false, lyrics: false, spectrum_state: false, spectrum_frame: false }, 1000);
    assert!(plan.snapshot);
    assert_eq!(cursor.last_frame_sent_ms, Some(1000));
    let changes = StateChanges { playback: true, lyrics: false, spectrum_state: false, spectrum_frame: true };
    let plan = advance_state_cursor(&mut cursor, state(2, 11, 1050), changes, 1050);
    assert!(plan.playback && !plan.spectrum_frame);
    let kept = cursor.previous.clone().unwrap();
    assert_eq!((kept.playback, kept.spectrum_frame, kept.observed_at_ms), (2, 10, 1050));
    assert_eq!(cursor.last_frame_sent_ms, Some(1000));
    let changes = StateChanges { playback: false, lyrics: false, spectrum_state: false, spectrum_frame: true };
    let plan = advance_state_cursor(&mut cursor, state(2, 12, 1100), changes, 1100);
    assert!(plan.spectrum_frame);
    assert_eq!(cursor.previous.clone().unwrap().spectrum_frame, 12);
    assert_eq!(cursor.last_frame_sent_ms, Some(1100));
}

#[test]
fn clients_retry_three_times_then_fail() {
    assert!(matches!(client_after_attempt(0, AttemptEnd::Failed("x".into())), ClientLoopStep::Retry { next_attempt: 1, delay_ms: 400 }));
    assert!(matches!(client_after_attempt(2, AttemptEnd::Failed("x".into())), ClientLoopStep::Retry { next_attempt: 3, delay_ms: 900 }));
    match client_after_attempt(3, AttemptEnd::Failed("down".into())) {
        ClientLoopStep::Fail { message } => assert_eq!(message, "down"),
        _ => panic!("expected a failure"),
    }
    match client_after_attempt(0, AttemptEnd::Abandoned("clone".into())) {
        ClientLoopStep::Fail { message } => assert_eq!(message, "clone"),
        _ => panic!("expected a failure"),
    }
    assert!(matches!(client_after_attempt(1, AttemptEnd::Stopped), ClientLoopStep::Quit));
}

#[test]
fn playback_changes_are_found_by_comparison() {
    let playing = lyrics_plus::player::PlaybackSnapshot {
        title: Some("Song".into()),
        is_playing: true,
        ..lyrics_plus::player::PlaybackSnapshot::default()
    };
    let mut other = playing.clone();
    assert!(lyrics_plus::protocol::playback_equal(&playing, &other));
    other.title = Some("Other".into());
    assert!(!lyrics_plus::protocol::playback_equal(&playing, &other));
    let state = |p: lyrics_plus::player::PlaybackSnapshot| SentState { playback: p, lyrics: 0u8, spectrum_state: 0u8, spectrum_frame: 0u8, observed_at_ms: 1 };
    let mut cursor = StateCursor { previous: None, last_frame_sent_ms: None };
    assert!(lyrics_plus::protocol::advance_playback_state(&mut cursor, state(playing.clone()), false, false, false, 10).snapshot);
    let plan = lyrics_plus::protocol::advance_playback_state(&mut cursor, state(playing.clone()), false, false, false, 20);
    assert!(!plan.playback);
    let plan = lyrics_plus::protocol::advance_playback_state(&mut cursor, state(other), true, false, false, 30);
    assert!(plan.playback && plan.lyrics);
}
