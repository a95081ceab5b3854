use chanvoy::types::Message;
use chanvoy::wait_follow::{
    is_mattermost_post_id, validate_coalesce_ms, validate_strict_create_at_id_order,
    validate_wait_id, WaitFollowEvent, WaitFollowEventKind, WaitFollowMode, WaitFollowResult,
    WaitFollowResultKind, WaitFollowV2Event, WaitFollowV2EventKind, WaitFollowV2Schema,
    WAIT_FOLLOW_V1_EVENT_SCHEMA, WAIT_FOLLOW_V2_EVENT_SCHEMA,
};

fn message() -> Message {
    Message {
        id: "postid00000000000000000001".into(),
        user_id: "userid00000000000000000001".into(),
        username: "observer".into(),
        message: "ready".into(),
        create_at: 1,
        root_id: "postid00000000000000000001".into(),
    }
}

#[test]
fn live_truncation_and_non_post_ids_are_refused() {
    assert!(WaitFollowEvent::message(
        "wait_0123456789abcdef0123456789abcdef",
        WaitFollowMode::Live,
        message(),
        true,
    )
    .is_err());
    let mut invalid = message();
    invalid.id = "post-1".into();
    assert!(WaitFollowEvent::message(
        "wait_0123456789abcdef0123456789abcdef",
        WaitFollowMode::Backlog,
        invalid,
        false,
    )
    .is_err());
}

#[test]
fn terminal_result_rejects_internal_anchor_tip() {
    let result = WaitFollowResult {
        wait_id: "wait_0123456789abcdef0123456789abcdef".into(),
        kind: WaitFollowResultKind::Deadman {
            tip: Some("anc:empty-at-arm".into()),
        },
    };
    assert!(result.validate().is_err());
}

fn message_n(n: u8) -> Message {
    let id = format!("postid000000000000000000{n:02}");
    Message {
        id: id.clone(),
        user_id: "userid00000000000000000001".into(),
        username: "observer".into(),
        message: "ready".into(),
        create_at: i64::from(n),
        root_id: id,
    }
}

#[test]
fn v2_refuses_empty_or_oversize_and_live_truncation() {
    assert!(WaitFollowV2Event::messages(
        "wait_0123456789abcdef0123456789abcdef",
        WaitFollowMode::Live,
        vec![],
        false,
    )
    .is_err());
    let too_many: Vec<Message> = (1..=33).map(message_n).collect();
    assert!(WaitFollowV2Event::messages(
        "wait_0123456789abcdef0123456789abcdef",
        WaitFollowMode::Backlog,
        too_many,
        false,
    )
    .is_err());
    assert!(WaitFollowV2Event::messages(
        "wait_0123456789abcdef0123456789abcdef",
        WaitFollowMode::Live,
        vec![message_n(1)],
        true,
    )
    .is_err());
}

#[test]
fn v2_reversed_pair_fails_validate() {
    let event = WaitFollowV2Event {
        schema: WaitFollowV2Schema::V2,
        wait_id: "wait_0123456789abcdef0123456789abcdef".into(),
        kind: WaitFollowV2EventKind::Live {
            tip: "postid00000000000000000001".into(),
            truncated: false,
            messages: vec![message_n(2), message_n(1)],
        },
    };
    assert!(event.validate().is_err());
    assert!(WaitFollowV2Event::messages(
        "wait_0123456789abcdef0123456789abcdef",
        WaitFollowMode::Live,
        vec![message_n(2), message_n(1)],
        false,
    )
    .is_err());
}

#[test]
fn v2_equal_create_at_must_be_id_ordered() {
    let mut higher_id = message_n(2);
    let mut lower_id = message_n(1);
    higher_id.create_at = 7;
    lower_id.create_at = 7;
    assert!(WaitFollowV2Event::messages(
        "wait_0123456789abcdef0123456789abcdef",
        WaitFollowMode::Live,
        vec![higher_id.clone(), lower_id.clone()],
        false,
    )
    .is_err());
    WaitFollowV2Event::messages(
        "wait_0123456789abcdef0123456789abcdef",
        WaitFollowMode::Live,
        vec![lower_id, higher_id],
        false,
    )
    .unwrap()
    .validate()
    .unwrap();
}

#[test]
fn v2_equal_create_at_and_id_fails_validate() {
    let first = message_n(1);
    let mut dup = message_n(1);
    dup.username = "other".into();
    assert!(WaitFollowV2Event::messages(
        "wait_0123456789abcdef0123456789abcdef",
        WaitFollowMode::Backlog,
        vec![first, dup],
        false,
    )
    .is_err());
}

#[test]
fn armed_is_self_identifying_and_has_no_tip() {
    let event = WaitFollowEvent::armed("wait_0123456789abcdef0123456789abcdef", None);
    assert_eq!(WAIT_FOLLOW_V1_EVENT_SCHEMA, "wait_follow_v1.event");
    assert_eq!(event.mode(), WaitFollowMode::Armed);
    assert!(event.tip().is_none());
    assert!(event.messages().is_empty());
    assert!(event.validate().is_ok());
}

#[test]
fn message_tip_is_its_only_message_id() {
    let event = WaitFollowEvent::message(
        "wait_0123456789abcdef0123456789abcdef",
        WaitFollowMode::Live,
        message(),
        false,
    )
    .unwrap();
    assert_eq!(event.tip(), Some(event.messages()[0].id.as_str()));
    assert_eq!(event.messages().len(), 1);
    assert_eq!(event.mode(), WaitFollowMode::Live);
}

#[test]
fn v2_message_tip_is_the_last_id() {
    let event = WaitFollowV2Event::messages(
        "wait_0123456789abcdef0123456789abcdef",
        WaitFollowMode::Live,
        vec![message_n(1), message_n(2)],
        false,
    )
    .unwrap();
    assert_eq!(WAIT_FOLLOW_V2_EVENT_SCHEMA, "wait_follow_v2.event");
    assert_eq!(event.tip(), Some(event.messages_slice()[1].id.as_str()));
    assert_eq!(event.messages_slice().len(), 2);
    assert!(matches!(
        event.kind,
        WaitFollowV2EventKind::Live {
            truncated: false,
            ..
        }
    ));
    event.validate().unwrap();
}

#[test]
fn the_coalescing_time_is_bounded() {
    validate_coalesce_ms(1).unwrap();
    validate_coalesce_ms(8_000).unwrap();
    validate_coalesce_ms(10_000).unwrap();
    assert!(validate_coalesce_ms(0).is_err());
    assert_eq!(
        validate_coalesce_ms(10_001).unwrap_err(),
        "coalesce_ms must be 1..=10000"
    );
}

#[test]
fn post_ids_have_one_shape() {
    assert!(is_mattermost_post_id("postid00000000000000000001"));
    assert!(!is_mattermost_post_id("postid0000000000000000001"));
    assert!(!is_mattermost_post_id("Postid00000000000000000001"));
    assert!(!is_mattermost_post_id("postid0000000000000000000\u{e9}"));
}

#[test]
fn wait_ids_are_short_and_not_empty() {
    assert!(validate_wait_id("w").is_ok());
    assert!(validate_wait_id(&"w".repeat(64)).is_ok());
    assert!(validate_wait_id(&"w".repeat(65)).is_err());
    assert_eq!(
        validate_wait_id(""),
        Err("follow wait id must contain 1 to 64 bytes")
    );
}

#[test]
fn order_is_strict() {
    assert!(validate_strict_create_at_id_order(&vec![(1, "b"), (2, "a"), (2, "c")]).is_ok());
    assert!(validate_strict_create_at_id_order(&vec![(1, "a"), (1, "a")]).is_err());
    assert!(validate_strict_create_at_id_order(&vec![(2, "a"), (1, "b")]).is_err());
    assert!(validate_strict_create_at_id_order(&Vec::new()).is_ok());
}

#[test]
fn the_end_of_a_follow_is_reported() {
    let event = WaitFollowEvent::terminal("w", WaitFollowEventKind::Canceled);
    assert_eq!(event.mode(), WaitFollowMode::Canceled);
    assert!(event.validate().is_ok());
    let event = WaitFollowEvent::terminal(
        "w",
        WaitFollowEventKind::Replaced {
            replaced_by_wait_id: String::new(),
        },
    );
    assert!(event.validate().is_err());
    let armed = WaitFollowV2Event::armed("w", Some("v".to_string()));
    assert_eq!(armed.mode(), WaitFollowMode::Armed);
    assert_eq!(armed.schema, WaitFollowV2Schema::V2);
}
