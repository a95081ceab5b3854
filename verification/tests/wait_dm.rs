use chanvoy::error::CoreError;
use chanvoy::wait_dm::{
    canonical_dm_name, classify_wait_dm_username, is_dm_channel_name, is_rfc_uuid,
    map_inaccessible_peer, WaitDmFollowResult, NOT_A_WAITABLE_PEER,
};
use chanvoy::wait_follow::{WaitFollowResult, WaitFollowResultKind};
use chanvoy::wait_inbox::peer_user_id_from_dm_name;

#[test]
fn exact_username_is_waitable() {
    classify_wait_dm_username("dave-3leaps").unwrap();
    classify_wait_dm_username("agent-bravo-devrev").unwrap();
}

#[test]
fn empty_uuid_user_id_and_dm_name_are_not_peers() {
    for value in [
        "",
        "550e8400-e29b-41d4-a716-446655440000",
        "550e8400e29b41d4a716446655440000",
        "{550e8400-e29b-41d4-a716-446655440000}",
        "oc55ry3797nu3memz1g9ztauxo",
        "7bz1xwdw1fdx3dpk149b8oyeyc__oc55ry3797nu3memz1g9ztauxo",
    ] {
        let err = classify_wait_dm_username(value).unwrap_err();
        assert!(
            matches!(err, CoreError::WaitFilterInvalid(ref msg) if msg == NOT_A_WAITABLE_PEER),
            "{value:?} => {err:?}"
        );
    }
}

#[test]
fn does_not_trim_or_casefold_into_another_identity() {
    classify_wait_dm_username(" Dave").unwrap();
    classify_wait_dm_username("DAVE-3LEAPS").unwrap();
}

#[test]
fn canonical_dm_name_sorts_ids() {
    assert_eq!(
        canonical_dm_name("bbbbbbbbbbbbbbbbbbbbbbbbbb", "aaaaaaaaaaaaaaaaaaaaaaaaaa"),
        "aaaaaaaaaaaaaaaaaaaaaaaaaa__bbbbbbbbbbbbbbbbbbbbbbbbbb"
    );
}

#[test]
fn provider_dm_name_is_not_trusted() {
    let computed =
        canonical_dm_name("aaaaaaaaaaaaaaaaaaaaaaaaaa", "bbbbbbbbbbbbbbbbbbbbbbbbbb");
    let provider = "zzzzzzzzzzzzzzzzzzzzzzzzzz__yyyyyyyyyyyyyyyyyyyyyyyyyy";
    assert_ne!(computed, provider);
    let _ = provider;
    assert!(computed.starts_with("aaaaaaaaaaaaaaaaaaaaaaaaaa__"));
}

#[test]
fn inaccessible_http_classes_fold_to_one_diagnostic() {
    for status in [404, 400, 403] {
        let err = map_inaccessible_peer(CoreError::Api {
            status,
            message: "raw provider body".into(),
        });
        assert!(
            matches!(err, CoreError::WaitFilterInvalid(ref msg) if msg == NOT_A_WAITABLE_PEER)
        );
    }
    let retryable = map_inaccessible_peer(CoreError::Api {
        status: 429,
        message: "rate limited".into(),
    });
    assert!(matches!(retryable, CoreError::Api { status, .. } if status == 429));
}

#[test]
fn uuids_in_all_their_forms() {
    for value in [
        "550e8400-e29b-41d4-a716-446655440000",
        "550E8400-E29B-41D4-A716-446655440000",
        "550e8400e29b41d4a716446655440000",
        "{550e8400-e29b-41d4-a716-446655440000}",
        "urn:uuid:550e8400-e29b-41d4-a716-446655440000",
    ] {
        let parsed = uuid::Uuid::try_parse(value).is_ok();
        assert!(parsed, "{value}");
        assert!(is_rfc_uuid(value), "{value}");
    }
    for value in [
        "550e8400-e29b-41d4-a716-44665544000",
        "550e8400-e29b-41d4-a716-44665544000g",
        "550e8400e29b-41d4-a716-446655440000",
        "not-a-uuid",
    ] {
        assert!(!is_rfc_uuid(value), "{value}");
    }
}

#[test]
fn the_name_of_a_direct_channel_gives_back_the_peer() {
    let me = "aaaaaaaaaaaaaaaaaaaaaaaaaa";
    let peer = "bbbbbbbbbbbbbbbbbbbbbbbbbb";
    let name = canonical_dm_name(peer, me);
    assert_eq!(name, canonical_dm_name(me, peer));
    assert!(is_dm_channel_name(&name));
    assert!(!is_dm_channel_name("town-square"));
    assert_eq!(peer_user_id_from_dm_name(&name, me), Some(peer));
    assert_eq!(peer_user_id_from_dm_name(&name, peer), Some(me));
    assert_eq!(
        peer_user_id_from_dm_name(&name, "cccccccccccccccccccccccccc"),
        None
    );
}

#[test]
fn a_direct_follow_names_its_peer() {
    let result = WaitFollowResult {
        wait_id: "wait_1".to_string(),
        kind: WaitFollowResultKind::Deadman { tip: None },
    };
    let followed =
        WaitDmFollowResult::from_follow("dave".to_string(), "a__b".to_string(), result);
    assert_eq!(followed.wait_id, "wait_1");
    assert!(followed.validate().is_ok());
    let mut nameless = followed;
    nameless.peer_username = String::new();
    assert_eq!(
        nameless.validate(),
        Err("dm follow result must name peer and dm_name")
    );
}
