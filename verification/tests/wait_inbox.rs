use chanvoy::base64url::{b64url_decode, b64url_encode};
use chanvoy::error::CoreError;
use chanvoy::types::Message;
use chanvoy::wait_follow::{is_mattermost_post_id, WaitFollowMode};
use chanvoy::wait_inbox::{
    refuse_inbox_after, InboxCursorV1, WaitInboxFollowEvent, INBOX_CURSOR_PREFIX,
    INBOX_MAX_WATERMARK_IDS, POST_ID_NOT_INBOX_CURSOR,
};

const PROFILE: &str = "bravo-devlead-lanytehq";
const BOT: &str = "oc55ry3797nu3memz1g9ztauxo";
const POST_HI: &str = "zzzzzz00000000000000000001";
const POST_LO: &str = "aaaaaa00000000000000000001";

#[test]
fn encode_decode_roundtrip_and_prefix() {
    let cursor = InboxCursorV1::empty(PROFILE, BOT)
        .advance(10, POST_HI)
        .unwrap();
    let raw = cursor.encode().unwrap();
    assert!(raw.starts_with(INBOX_CURSOR_PREFIX));
    assert!(!is_mattermost_post_id(&raw));
    let decoded = InboxCursorV1::decode(&raw, PROFILE, BOT).unwrap();
    assert_eq!(decoded, cursor);
}

#[test]
fn post_id_after_is_named_refusal() {
    let err = refuse_inbox_after("postid00000000000000000001").unwrap_err();
    assert!(
        matches!(err, CoreError::WaitFilterInvalid(ref msg) if msg == POST_ID_NOT_INBOX_CURSOR)
    );
}

#[test]
fn wrong_profile_is_uncertain() {
    let raw = InboxCursorV1::empty(PROFILE, BOT).encode().unwrap();
    let err = InboxCursorV1::decode(&raw, "other-profile", BOT).unwrap_err();
    assert!(
        matches!(err, CoreError::WaitFilterInvalid(ref msg) if msg.contains("profile/bot"))
    );
}

#[test]
fn same_ms_lower_id_is_admitted() {
    let cursor = InboxCursorV1::empty(PROFILE, BOT)
        .advance(100, POST_HI)
        .unwrap();
    assert!(cursor.admits(100, POST_LO));
    assert!(!cursor.admits(100, POST_HI));
    assert!(cursor.admits(101, POST_LO));
    assert!(!cursor.admits(99, POST_LO));
}

#[test]
fn equal_watermark_overflow_fails_closed() {
    let mut cursor = InboxCursorV1::empty(PROFILE, BOT)
        .advance(5, "aaaaaa00000000000000000000")
        .unwrap();
    for i in 1..INBOX_MAX_WATERMARK_IDS {
        let id = format!("aaaaaa00000000000000000{i:03}");
        cursor = cursor.advance(5, &id).unwrap();
    }
    let err = cursor.advance(5, "aaaaaa00000000000000000128").unwrap_err();
    assert!(matches!(err, CoreError::WaitFilterInvalid(ref msg) if msg.contains("128")));
}

#[test]
fn encode_is_canonical_across_id_insertion_order() {
    let mut a = InboxCursorV1::empty(PROFILE, BOT);
    a.watermark = 7;
    a.observed_ids.insert(POST_HI.to_string());
    a.observed_ids.insert(POST_LO.to_string());
    let mut b = InboxCursorV1::empty(PROFILE, BOT);
    b.watermark = 7;
    b.observed_ids.insert(POST_LO.to_string());
    b.observed_ids.insert(POST_HI.to_string());
    assert_eq!(a.encode().unwrap(), b.encode().unwrap());
}

#[test]
fn noncanonical_key_order_is_uncertain() {
    let json = format!(r#"{{"w":1,"v":1,"p":"{PROFILE}","b":"{BOT}","i":[]}}"#);
    let raw = format!(
        "{INBOX_CURSOR_PREFIX}{}",
        b64url_encode(json.as_bytes())
    );
    let err = InboxCursorV1::decode(&raw, PROFILE, BOT).unwrap_err();
    assert!(matches!(err, CoreError::WaitFilterInvalid(ref msg) if msg.contains("canonical")));
}

fn cursor_text(json: &str) -> String {
    format!("{INBOX_CURSOR_PREFIX}{}", b64url_encode(json.as_bytes()))
}

fn refusal(raw: &str) -> String {
    match InboxCursorV1::decode(raw, PROFILE, BOT) {
        Err(CoreError::WaitFilterInvalid(msg)) => msg,
        other => panic!("expected a refusal, got {other:?}"),
    }
}

#[test]
fn negative_watermark_is_uncertain() {
    let json = format!(r#"{{"b":"{BOT}","i":[],"p":"{PROFILE}","v":1,"w":-1}}"#);
    assert!(refusal(&cursor_text(&json)).contains("negative"));
}

#[test]
fn duplicate_ids_are_uncertain() {
    let json = format!(
        r#"{{"b":"{BOT}","i":["{POST_HI}","{POST_HI}"],"p":"{PROFILE}","v":1,"w":1}}"#
    );
    assert!(refusal(&cursor_text(&json)).contains("canonical"));
}

#[test]
fn a_cursor_reads_as_it_was_written() {
    let cursor = InboxCursorV1::empty(PROFILE, BOT)
        .advance(1_700_000_000_000, POST_LO)
        .unwrap()
        .advance(1_700_000_000_000, POST_HI)
        .unwrap();
    let raw = cursor.encode().unwrap();
    let body = b64url_decode(&raw[INBOX_CURSOR_PREFIX.len()..]).unwrap();
    assert_eq!(
        String::from_utf8(body).unwrap(),
        format!(
            r#"{{"v":1,"p":"{PROFILE}","b":"{BOT}","w":1700000000000,"i":["{POST_LO}","{POST_HI}"]}}"#
        )
    );
    let decoded = InboxCursorV1::decode(&raw, PROFILE, BOT).unwrap();
    assert_eq!(decoded.watermark, 1_700_000_000_000);
    assert_eq!(decoded.observed_ids.len(), 2);
}

#[test]
fn a_cursor_of_another_kind_is_refused() {
    assert!(InboxCursorV1::decode("nope", PROFILE, BOT).is_err());
    assert!(InboxCursorV1::decode(&format!("{INBOX_CURSOR_PREFIX}!!"), PROFILE, BOT).is_err());
    assert!(InboxCursorV1::decode(&cursor_text("not json"), PROFILE, BOT).is_err());
    assert!(InboxCursorV1::decode(POST_HI, PROFILE, BOT).is_err());
}

#[test]
fn a_later_moment_forgets_the_ids_of_the_earlier() {
    let cursor = InboxCursorV1::empty(PROFILE, BOT)
        .advance(5, POST_LO)
        .unwrap()
        .advance(6, POST_HI)
        .unwrap();
    assert_eq!(cursor.watermark, 6);
    assert_eq!(cursor.observed_ids.len(), 1);
    assert!(cursor.observed_ids.contains(POST_HI));
    assert!(!cursor.admits(5, POST_LO));
}

#[test]
fn base64url_without_padding() {
    let pairs: [(&[u8], &str); 7] = [
        (b"", ""),
        (b"f", "Zg"),
        (b"fo", "Zm8"),
        (b"foo", "Zm9v"),
        (b"foob", "Zm9vYg"),
        (b"fooba", "Zm9vYmE"),
        (&[0xfb, 0xff, 0xfe], "-__-"),
    ];
    for (bytes, text) in pairs {
        assert_eq!(b64url_encode(bytes), text);
        assert_eq!(b64url_decode(text).unwrap(), bytes);
    }
    assert!(b64url_decode("Z").is_err());
    assert!(b64url_decode("Zg==").is_err());
    assert!(b64url_decode("Z+8/").is_err());
}

#[test]
fn an_inbox_record_carries_its_cursor() {
    let message = Message {
        id: POST_LO.to_string(),
        user_id: "u".to_string(),
        username: "alice".to_string(),
        message: "hi".to_string(),
        create_at: 5,
        root_id: POST_LO.to_string(),
    };
    let cursor = InboxCursorV1::empty(PROFILE, BOT).advance(5, POST_LO).unwrap();
    let raw = cursor.encode().unwrap();
    let event = WaitInboxFollowEvent::message(
        "wait_1",
        WaitFollowMode::Live,
        "alice".to_string(),
        "a__b".to_string(),
        raw.clone(),
        message,
        false,
    )
    .unwrap();
    assert_eq!(event.inbox_cursor(), Some(raw.as_str()));
    assert_eq!(event.mode(), WaitFollowMode::Live);
    assert!(event.validate().is_ok());
}

fn refusal_of(json: &[u8]) -> String {
    let raw = format!("{INBOX_CURSOR_PREFIX}{}", b64url_encode(json));
    match InboxCursorV1::decode(&raw, PROFILE, BOT) {
        Err(CoreError::WaitFilterInvalid(why)) => why,
        other => panic!("expected a refusal, got {other:?}"),
    }
}

#[test]
fn a_repeated_member_is_malformed() {
    let malformed = "malformed inbox cursor (json)";
    for member in [
        r#""v":1"#.to_string(),
        format!(r#""p":"{PROFILE}""#),
        format!(r#""b":"{BOT}""#),
        r#""w":10"#.to_string(),
        r#""i":[]"#.to_string(),
        r#""\u0076":1"#.to_string(),
    ] {
        let json = format!(r#"{{"v":1,"p":"{PROFILE}","b":"{BOT}","w":10,"i":[],{member}}}"#);
        assert_eq!(refusal_of(json.as_bytes()), malformed, "{json}");
    }
}

#[test]
fn other_members_are_passed_over() {
    let uncanonical = "inbox cursor encoding is not canonical";
    for member in [
        r#""x":null"#,
        r#""x":{"v":[1,{}]},"x":2"#,
        r#""x":1e999"#,
        r#""x":"\ud800""#,
    ] {
        let json =
            format!(r#" {{ "i" : [] , {member},"w":10, "b":"{BOT}","p":"{PROFILE}","v":1}} "#);
        assert_eq!(refusal_of(json.as_bytes()), uncanonical, "{json}");
    }
    let mut bytes = br#"{"x":""#.to_vec();
    bytes.push(0xff);
    bytes.extend_from_slice(
        format!(r#"","v":1,"p":"{PROFILE}","b":"{BOT}","w":10,"i":[]}}"#).as_bytes(),
    );
    assert_eq!(refusal_of(&bytes), uncanonical);
}

#[test]
fn a_list_of_members_is_read_but_not_canonical() {
    let uncanonical = "inbox cursor encoding is not canonical";
    let list = format!(r#"[1,"{PROFILE}","{BOT}",10,["{POST_HI}"]]"#);
    assert_eq!(refusal_of(list.as_bytes()), uncanonical);
    let other = format!(r#"[2, "{PROFILE}", "{BOT}", 10, []] "#);
    assert_eq!(
        refusal_of(other.as_bytes()),
        "unprovable inbox cursor version"
    );
    for json in [
        format!(r#"[1,"{PROFILE}","{BOT}",10]"#),
        format!(r#"[1,"{PROFILE}","{BOT}",10,[],0]"#),
        format!(r#"[1,"{PROFILE}","{BOT}",10,[],]"#),
        format!(r#"[1,"{PROFILE}","{BOT}",10,[]"#),
        format!(r#"[300,"{PROFILE}","{BOT}",10,[]]"#),
    ] {
        assert_eq!(
            refusal_of(json.as_bytes()),
            "malformed inbox cursor (json)",
            "{json}"
        );
    }
}

#[test]
fn what_is_no_cursor_object_is_malformed() {
    for json in [
        "".to_string(),
        "7".to_string(),
        "{}".to_string(),
        format!(r#"{{"v":1,"p":"{PROFILE}","b":"{BOT}","w":10}}"#),
        format!(r#"{{"v":1,"p":"{PROFILE}","b":"{BOT}","w":10,"i":[],}}"#),
        format!(r#"{{,"v":1,"p":"{PROFILE}","b":"{BOT}","w":10,"i":[]}}"#),
        format!(r#"{{"v":1 "p":"{PROFILE}","b":"{BOT}","w":10,"i":[]}}"#),
        format!(r#"{{"v":1,"p":"{PROFILE}","b":"{BOT}","w":10,"i":[]}} x"#),
        format!(r#"{{"v":-1,"p":"{PROFILE}","b":"{BOT}","w":10,"i":[]}}"#),
        format!(r#"{{"v":1.0,"p":"{PROFILE}","b":"{BOT}","w":10,"i":[]}}"#),
        format!(r#"{{"v":1,"p":7,"b":"{BOT}","w":10,"i":[]}}"#),
        format!(r#"{{"v":1,"p":"{PROFILE}","b":"{BOT}","w":10,"i":[1]}}"#),
    ] {
        assert_eq!(
            refusal_of(json.as_bytes()),
            "malformed inbox cursor (json)",
            "{json}"
        );
    }
}

#[test]
fn a_cursor_with_escapes_is_read_back() {
    let cursor = InboxCursorV1::empty("a \"quoted\"\n\u{e9}\u{1f600}", BOT)
        .advance(7, POST_LO)
        .unwrap();
    let raw = cursor.encode().unwrap();
    let decoded =
        InboxCursorV1::decode(&raw, "a \"quoted\"\n\u{e9}\u{1f600}", BOT).unwrap();
    assert_eq!(decoded, cursor);
}
