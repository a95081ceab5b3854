use chanvoy::collections::TextSet;
use chanvoy::error::CoreError;
use chanvoy::events::{
    daemon_event_to_notification, rpc_error, rpc_request, rpc_result, EventBus,
};
use chanvoy::health::WsState;
use chanvoy::types::{
    ConnectionStateChangedPayload, DaemonEvent, DaemonEventKind, DaemonEventPayloadInner,
    InboundEventPayload, Message, Provider, WsConnectionState,
};
use chanvoy::websocket::{
    activity_frame, admit_post, auth_frame, base_url, catchup_since, gap_event, handle_post_event,
    handle_ws_message, is_auth_error, is_auth_success, outage_exceeded, parse_pushed_post,
    receive_post, reconnect_catchup, request_url, ws_url, FrameAction, FrameKind, Listener,
    PushedPost, Session, SessionAction, SessionInput, Supervisor, SEEN_POSTS_MAX,
};

#[test]
fn is_auth_success_accepts_hello_ok() {
    let frame = r#"{"event":"hello","data":{"status":"OK","server_version":"10.5.0"}}"#;
    assert!(is_auth_success(frame));
}

#[test]
fn is_auth_success_rejects_non_hello() {
    let frame = r#"{"event":"posted","data":{"post":"{}"}}"#;
    assert!(!is_auth_success(frame));
}

#[test]
fn is_auth_success_rejects_hello_fail() {
    let frame = r#"{"event":"hello","data":{"status":"FAIL"}}"#;
    assert!(!is_auth_success(frame));
}

#[test]
fn is_auth_error_detects_fail_status() {
    let frame = r#"{"data":{"status":"FAIL"}}"#;
    assert!(is_auth_error(frame));
}

#[test]
fn is_auth_error_detects_invalid_token() {
    let frame = r#"{"data":{"status":"INVALID_TOKEN"}}"#;
    assert!(is_auth_error(frame));
}

#[test]
fn is_auth_error_rejects_normal_event() {
    let frame = r#"{"event":"posted","data":{"post":"{}"}}"#;
    assert!(!is_auth_error(frame));
}

#[test]
fn other_refusals_and_no_json() {
    assert!(is_auth_error("{\"error\":null}"));
    assert!(is_auth_error("{\"seq\":0,\"error\":{\"id\":\"x\"}}"));
    assert!(!is_auth_error("{\"seq\":2,\"error\":{\"id\":\"x\"}}"));
    assert!(!is_auth_error("no json"));
    assert!(!is_auth_success("no json"));
    assert!(!is_auth_success("[\"hello\"]"));
}

#[test]
fn addresses() {
    assert_eq!(base_url("https://mm.example.com//"), "https://mm.example.com");
    assert_eq!(
        request_url("https://mm.example.com", "/users/me"),
        "https://mm.example.com/api/v4/users/me"
    );
    assert_eq!(
        ws_url("https://mm.example.com/"),
        "wss://mm.example.com/api/v4/websocket"
    );
    assert_eq!(
        ws_url("http://localhost:8065"),
        "ws://localhost:8065/api/v4/websocket"
    );
}

#[test]
fn frames_that_are_sent() {
    assert_eq!(
        auth_frame("tok\"en"),
        "{\"action\":\"authentication_challenge\",\"data\":{\"token\":\"tok\\\"en\"},\"seq\":1}"
    );
    assert_eq!(activity_frame(), "{\"action\":\"user_activity\",\"seq\":0}");
}

fn failure(action: SessionAction) -> String {
    match action {
        SessionAction::Fail(CoreError::Io(why)) => why,
        other => panic!("expected a failure, got {other:?}"),
    }
}

#[test]
fn nothing_is_delivered_before_the_token_is_accepted() {
    let mut session = Session::new();
    let posted = r#"{"event":"posted","data":{"post":"{}"}}"#;
    let text = |frame: &str| SessionInput::Text(frame.to_string());
    assert!(matches!(
        session.connect_and_listen(text(posted)),
        SessionAction::Nothing
    ));
    assert!(matches!(
        session.connect_and_listen(SessionInput::Heartbeat),
        SessionAction::Nothing
    ));
    assert_eq!(
        failure(session.connect_and_listen(SessionInput::TimedOut)),
        "websocket auth timed out waiting for server ack"
    );
    let refusal = r#"{"data":{"status":"FAIL"}}"#;
    assert_eq!(
        failure(session.connect_and_listen(text(refusal))),
        format!("websocket auth rejected: {refusal}")
    );
    let hello = r#"{"event":"hello","data":{"status":"OK"}}"#;
    assert!(matches!(
        session.connect_and_listen(text(hello)),
        SessionAction::Authenticated
    ));
    assert!(matches!(
        session.connect_and_listen(text(posted)),
        SessionAction::Deliver(frame) if frame == posted
    ));
    assert!(matches!(
        session.connect_and_listen(text(refusal)),
        SessionAction::Deliver(_)
    ));
    assert!(matches!(
        session.connect_and_listen(SessionInput::Heartbeat),
        SessionAction::Send(frame) if frame == activity_frame()
    ));
    assert!(matches!(
        session.connect_and_listen(SessionInput::TimedOut),
        SessionAction::Nothing
    ));
}

#[test]
fn a_connection_ends_where_the_other_side_ends_it() {
    let mut session = Session::new();
    assert!(matches!(
        session.connect_and_listen(SessionInput::Ping),
        SessionAction::Pong
    ));
    assert!(matches!(
        session.connect_and_listen(SessionInput::Other),
        SessionAction::Nothing
    ));
    assert!(matches!(
        session.connect_and_listen(SessionInput::Closed),
        SessionAction::End
    ));
    let broken = SessionInput::Failed("reset".to_string());
    assert_eq!(failure(session.connect_and_listen(broken)), "reset");
}

#[test]
fn signing_in_has_ten_seconds() {
    let mut session = Session::new();
    assert_eq!(session.patience_ms(0), 10_000);
    assert_eq!(session.patience_ms(9_999), 1);
    assert_eq!(session.patience_ms(10_001), 0);
    let hello = r#"{"event":"hello","data":{"status":"OK"}}"#;
    assert_eq!(session.on_text(hello), FrameAction::Authenticated);
    assert_eq!(session.patience_ms(10_001), 3_600_000);
}

#[test]
fn frames_by_kind() {
    let posted = r#"{"event":"posted","data":{"post":"{\"id\":\"p\"}"}}"#;
    assert_eq!(
        handle_ws_message(posted),
        FrameKind::Post(Some("{\"id\":\"p\"}".to_string()))
    );
    assert_eq!(
        handle_ws_message(r#"{"event":"post_edited","data":{}}"#),
        FrameKind::Post(None)
    );
    assert_eq!(handle_ws_message(r#"{"event":"hello"}"#), FrameKind::Alive);
    assert_eq!(
        handle_ws_message(r#"{"event":"status_change"}"#),
        FrameKind::Alive
    );
    assert_eq!(handle_ws_message(r#"{"event":"typing"}"#), FrameKind::Other);
    assert_eq!(handle_ws_message("no json"), FrameKind::Other);
}

fn listener() -> Listener {
    Listener {
        profile_name: "seat".to_string(),
        bot_username: "agent-seat".to_string(),
        my_user_id: "u-me".to_string(),
        monitored_channels: vec!["general".to_string()],
    }
}

fn pushed(id: &str, root: &str) -> PushedPost {
    let body = format!(
        "{{\"id\":\"{id}\",\"channel_id\":\"ch-1\",\"user_id\":\"u-sender\",\"message\":\"a reply\",\"create_at\":1700000000000,\"root_id\":\"{root}\"}}"
    );
    parse_pushed_post(&body).unwrap()
}

fn payload(event: &DaemonEvent) -> &InboundEventPayload {
    match &event.payload {
        DaemonEventPayloadInner::Inbound(payload) => payload,
        _ => panic!("expected an inbound payload"),
    }
}

#[test]
fn a_pushed_reply_keeps_the_providers_thread_root() {
    let event = handle_post_event(
        &listener(),
        pushed("reply-9", "root-1"),
        "general".to_string(),
        "alice".to_string(),
        5,
    )
    .unwrap();
    assert_eq!(event.kind, DaemonEventKind::InboundMessage);
    let payload = payload(&event);
    assert_eq!(payload.post_id, "reply-9");
    assert_eq!(
        payload.root_id, "root-1",
        "the parser must read the provider's root, not the post's own id"
    );
    assert_eq!(payload.sender_username, "alice");
    assert_eq!(payload.create_at, 1_700_000_000_000);
    assert_eq!(payload.received_at, 5);
}

#[test]
fn a_pushed_top_level_post_reports_itself_as_the_root() {
    let event = handle_post_event(
        &listener(),
        pushed("post-1", ""),
        "General".to_string(),
        "alice".to_string(),
        5,
    )
    .unwrap();
    assert_eq!(payload(&event).root_id, "post-1");
}

#[test]
fn elsewhere_only_mentions_are_passed_on() {
    let mut post = pushed("post-1", "");
    let silent = handle_post_event(
        &listener(),
        post.clone(),
        "other".to_string(),
        "alice".to_string(),
        5,
    );
    assert_eq!(silent, None);
    post.message = "hey @agent-seat!".to_string();
    let event = handle_post_event(
        &listener(),
        post,
        "other".to_string(),
        "alice".to_string(),
        5,
    )
    .unwrap();
    assert_eq!(event.kind, DaemonEventKind::InboundMention);
    assert!(payload(&event).mentioned);
}

#[test]
fn a_post_is_admitted_once() {
    let mut seen = TextSet::new();
    let post = pushed("p", "");
    assert!(admit_post(&post, "u-me", &mut seen));
    assert!(!admit_post(&post, "u-me", &mut seen));
    assert!(!admit_post(&pushed("q", ""), "u-sender", &mut seen));
    assert!(!seen.contains("q"));
    assert!(!admit_post(&pushed("", ""), "u-me", &mut seen));
    assert_eq!(seen.len(), 1);
}

#[test]
fn only_posts_of_others_have_events() {
    let mut own = pushed("post-1", "");
    own.user_id = "u-me".to_string();
    let mut nowhere = pushed("post-1", "");
    nowhere.channel_id = String::new();
    for post in [own, nowhere, pushed("", "")] {
        let event = handle_post_event(
            &listener(),
            post,
            "general".to_string(),
            "alice".to_string(),
            5,
        );
        assert_eq!(event, None);
    }
}

#[test]
fn a_frame_is_received_once() {
    let body = "{\"id\":\"p\",\"channel_id\":\"ch-1\",\"user_id\":\"u-sender\"}";
    let mut seen = TextSet::new();
    assert_eq!(receive_post(body, "u-sender", &mut seen), None);
    assert_eq!(receive_post("nope", "u-me", &mut seen), None);
    assert_eq!(seen.len(), 0);
    let post = receive_post(body, "u-me", &mut seen).unwrap();
    assert_eq!(post.id, "p");
    assert_eq!(post.channel_id, "ch-1");
    assert!(seen.contains("p"));
    assert_eq!(receive_post(body, "u-me", &mut seen), None);
}

#[test]
fn the_memory_of_posts_is_bounded() {
    let mut seen = TextSet::new();
    for i in 0..SEEN_POSTS_MAX {
        seen.insert(format!("{i:06}"));
    }
    assert!(admit_post(&pushed("zzz", ""), "u-me", &mut seen));
    assert_eq!(seen.len(), 5_001);
    assert!(seen.contains("zzz"));
    assert!(!seen.contains("000000"));
}

#[test]
fn a_post_that_is_no_json_is_dropped() {
    assert_eq!(parse_pushed_post("nope"), None);
    let empty = parse_pushed_post("{}").unwrap();
    assert_eq!(empty.id, "");
    assert_eq!(empty.create_at, 0);
}

fn missed(id: &str, user: &str) -> Message {
    Message {
        id: id.to_string(),
        user_id: user.to_string(),
        username: "alice".to_string(),
        message: "@agent-seat hi".to_string(),
        create_at: 3,
        root_id: "root".to_string(),
    }
}

#[test]
fn what_was_missed_is_passed_on_once() {
    let mut seen = TextSet::new();
    seen.insert("a".to_string());
    let messages = vec![
        missed("a", "u-1"),
        missed("b", "u-me"),
        missed("c", "u-1"),
        missed("c", "u-1"),
    ];
    let events = reconnect_catchup(&listener(), "ch-1", "general", &messages, &mut seen, 9);
    assert_eq!(events.len(), 1);
    let payload = payload(&events[0]);
    assert_eq!(payload.post_id, "c");
    assert_eq!(payload.root_id, "root");
    assert_eq!(payload.channel_name, "general");
    assert!(payload.mentioned);
    assert!(!seen.contains("b"));
    let again = reconnect_catchup(&listener(), "ch-1", "general", &messages, &mut seen, 9);
    assert!(again.is_empty());
}

#[test]
fn long_outages_leave_a_gap() {
    let now = 1_000_000;
    assert_eq!(catchup_since(now), 700_000);
    assert!(outage_exceeded(699_999, catchup_since(now)));
    assert!(!outage_exceeded(700_000, catchup_since(now)));
    assert!(!outage_exceeded(0, catchup_since(now)));
    let event = gap_event("seat", 4, 9);
    assert_eq!(event.kind, DaemonEventKind::Gap);
    match event.payload {
        DaemonEventPayloadInner::Gap(gap) => {
            assert_eq!(gap.subscription_id, "__reconnect__seat");
            assert_eq!(gap.missed_from_seq, 4);
            assert_eq!(gap.missed_to_seq, 9);
        }
        _ => panic!("expected a gap"),
    }
}

fn state_message(event: &DaemonEvent) -> (WsConnectionState, &str) {
    match &event.payload {
        DaemonEventPayloadInner::ConnectionStateChanged(p) => (p.state, p.message.as_str()),
        _ => panic!("expected a change of the connection"),
    }
}

#[test]
fn attempts_wait_longer_and_degrade() {
    let mut supervisor = Supervisor::new();
    let mut ws = WsState::new();
    let mut delays = Vec::new();
    for attempt in 1..=5 {
        let event = supervisor.begin(&mut ws, "seat", 10);
        assert_eq!(
            state_message(&event),
            (
                WsConnectionState::Connecting,
                format!("attempt {attempt}").as_str()
            )
        );
        let pause = supervisor.end(&mut ws, "seat", Some("gone".to_string()), 3, 20);
        delays.push(pause.delay_secs);
        assert_eq!(pause.events.len(), if attempt <= 3 { 1 } else { 2 });
    }
    assert_eq!(delays, vec![2, 4, 8, 30, 30]);
    assert_eq!(ws.connection_state, WsConnectionState::Degraded);
    assert_eq!(ws.reconnect_count, 5);
    assert_eq!(ws.last_error, Some("gone".to_string()));
    assert_eq!(ws.last_disconnect_seq, 3);
    let (event, until) = supervisor.authenticated(&mut ws, "seat", 100);
    assert_eq!(
        state_message(&event),
        (WsConnectionState::Healthy, "connected and authenticated")
    );
    assert_eq!(until, Some(10_100));
}

fn healthy(message: &str) -> DaemonEvent {
    DaemonEvent {
        seq: 0,
        kind: DaemonEventKind::ConnectionStateChanged,
        payload: DaemonEventPayloadInner::ConnectionStateChanged(ConnectionStateChangedPayload {
            profile: "test".to_string(),
            provider: Provider::Mattermost,
            state: WsConnectionState::Healthy,
            message: message.to_string(),
        }),
    }
}

#[test]
fn event_bus_seq_monotonic() {
    let mut bus = EventBus::new();
    assert_eq!(bus.current_seq(), 0);
    let e1 = bus.emit(healthy("ok"));
    let e2 = bus.emit(healthy("gone"));
    assert_eq!(e1.seq, 1);
    assert_eq!(e2.seq, 2);
    assert!(e2.seq > e1.seq);
    assert_eq!(bus.current_seq(), 2);
}

#[test]
fn daemon_event_serializes_as_notification() {
    let event = handle_post_event(
        &listener(),
        pushed("post456", ""),
        "general".to_string(),
        "agent-dispatch".to_string(),
        1001,
    )
    .unwrap();
    let notification = daemon_event_to_notification(&event, "{\"seq\":42}".to_string());
    assert_eq!(notification.jsonrpc, "2.0");
    assert_eq!(notification.method, "push.inbound_message");
    assert_eq!(notification.params, "{\"seq\":42}");
    let changed = daemon_event_to_notification(&healthy("ok"), String::new());
    assert_eq!(changed.method, "push.connection_state_changed");
    let gap = daemon_event_to_notification(&gap_event("p", 0, 1), String::new());
    assert_eq!(gap.method, "push.gap");
}

#[test]
fn serializes_rpc_request() {
    let request = rpc_request("whoami", "{\"profile\":\"bravo-devlead\"}".to_string());
    assert_eq!(request.jsonrpc, "2.0");
    assert_eq!(request.method, "whoami");
    assert_eq!(request.params, "{\"profile\":\"bravo-devlead\"}");
    let other = rpc_request("whoami", String::new());
    assert_ne!(request.id, other.id);
    let done = rpc_result(request.id.clone(), "1".to_string());
    assert_eq!(done.id, request.id);
    assert_eq!(done.result, Some("1".to_string()));
    assert_eq!(done.error, None);
    let failed = rpc_error(request.id.clone(), -32005, "late");
    assert_eq!(failed.result, None);
    let detail = failed.error.unwrap();
    assert_eq!(detail.code, -32005);
    assert_eq!(detail.message, "late");
}
