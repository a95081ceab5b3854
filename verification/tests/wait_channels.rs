use chanvoy::error::CoreError;
use chanvoy::types::Message;
use chanvoy::wait_channels::{
    first_backfill_winner, parse_after_channel_flag, parse_qualified_wait_selector,
    validate_wait_channels_params, WaitChannelArm, WaitChannelSelector, WaitChannelsParams,
    WaitChannelsResult, WAIT_CHANNELS_UTF8_MAX_BYTES,
};

fn arm(team: &str, channel: &str, after: Option<&str>) -> WaitChannelArm {
    WaitChannelArm {
        team: team.into(),
        channel: channel.into(),
        after: after.map(str::to_string),
    }
}

fn params(arms: Vec<WaitChannelArm>) -> WaitChannelsParams {
    WaitChannelsParams {
        arms,
        timeout_secs: 30,
        contains: None,
        pattern: None,
    }
}

fn msg(id: &str, create_at: i64) -> Message {
    Message {
        id: id.into(),
        user_id: "u".into(),
        username: "u".into(),
        message: "ASSENT".into(),
        create_at,
        root_id: id.into(),
    }
}

#[test]
fn two_and_eight_arms_ok_one_and_nine_refused() {
    let two = params(vec![arm("t", "a", None), arm("t", "b", None)]);
    assert!(validate_wait_channels_params(&two).is_ok());
    let eight = params((0..8).map(|i| arm("t", &format!("c{i}"), None)).collect());
    assert!(validate_wait_channels_params(&eight).is_ok());
    let one = params(vec![arm("t", "a", None)]);
    assert!(matches!(
        validate_wait_channels_params(&one),
        Err(CoreError::WaitFilterInvalid(_))
    ));
    let nine = params((0..9).map(|i| arm("t", &format!("c{i}"), None)).collect());
    assert!(matches!(
        validate_wait_channels_params(&nine),
        Err(CoreError::WaitFilterInvalid(_))
    ));
}

#[test]
fn zero_timeout_and_empty_filter_are_input() {
    let mut p = params(vec![arm("t", "a", None), arm("t", "b", None)]);
    p.timeout_secs = 0;
    assert!(matches!(
        validate_wait_channels_params(&p),
        Err(CoreError::WaitFilterInvalid(m)) if m.contains("greater than zero")
    ));
    p.timeout_secs = 1;
    p.contains = Some(String::new());
    assert!(matches!(
        validate_wait_channels_params(&p),
        Err(CoreError::WaitFilterInvalid(m)) if m.contains("contains")
    ));
}

#[test]
fn duplicate_requested_arms_refused_even_with_case_fold() {
    let p = params(vec![arm("Org", "Brief", None), arm("org", "brief", None)]);
    assert!(matches!(
        validate_wait_channels_params(&p),
        Err(CoreError::WaitFilterInvalid(m)) if m.contains("duplicate")
    ));
}

#[test]
fn oversized_selector_and_after_refused() {
    let big = "a".repeat(WAIT_CHANNELS_UTF8_MAX_BYTES + 1);
    let p = params(vec![arm("t", &big, None), arm("t", "b", None)]);
    assert!(matches!(
        validate_wait_channels_params(&p),
        Err(CoreError::WaitFilterInvalid(m)) if m.contains("channel")
    ));
    let p = params(vec![arm("t", "a", Some(&big)), arm("t", "b", None)]);
    assert!(matches!(
        validate_wait_channels_params(&p),
        Err(CoreError::WaitFilterInvalid(m)) if m.contains("after")
    ));
}

#[test]
fn bare_selector_refused_qualified_ok() {
    assert!(parse_qualified_wait_selector("brief").is_err());
    let sel = parse_qualified_wait_selector("org-lanytehq/brief-per-039").unwrap();
    assert_eq!(sel.team, "org-lanytehq");
    assert_eq!(sel.channel, "brief-per-039");
    let (sel, after) = parse_after_channel_flag("org-lanytehq/brief-per-039=postabc").unwrap();
    assert_eq!(sel.channel, "brief-per-039");
    assert_eq!(after, "postabc");
    assert!(parse_after_channel_flag("org-lanytehq/brief-per-039").is_err());
}

#[test]
fn backfill_winner_orders_create_at_then_id_then_channel() {
    let a = (
        WaitChannelSelector::new("t", "a"),
        msg("p2", 10),
        "ch-a".into(),
    );
    let b = (
        WaitChannelSelector::new("t", "b"),
        msg("p1", 10),
        "ch-b".into(),
    );
    let c = (
        WaitChannelSelector::new("t", "c"),
        msg("p1", 10),
        "ch-c".into(),
    );
    let win = first_backfill_winner(&[&a, &b, &c]).unwrap();
    assert_eq!(win.1.id, "p1");
    assert_eq!(win.2, "ch-b");
}

#[test]
fn a_match_names_its_channel() {
    let a = WaitChannelSelector::new("t", "a");
    let b = WaitChannelSelector::new("T", "B");
    assert_eq!(a.qualified(), "t/a");
    assert_eq!(b.requested_key(), "t/b");
    assert_eq!(arm("t", "a", None).selector(), a);
    let found = WaitChannelsResult::match_one(vec![a.clone(), b.clone()], b.clone(), msg("p", 1));
    assert_eq!(found.mode, "fan_in");
    assert_eq!(found.matched_channel, b);
    assert_eq!(found.channels.len(), 2);
    assert_eq!(found.messages.len(), 1);
}

#[test]
fn selectors_are_trimmed_and_lose_their_hash() {
    let sel = parse_qualified_wait_selector("  #org/#brief ").unwrap();
    assert_eq!(sel.team, "org");
    assert_eq!(sel.channel, "brief");
    let err = parse_qualified_wait_selector("/brief").unwrap_err();
    assert!(matches!(err, CoreError::WaitFilterInvalid(_)));
    let err = parse_after_channel_flag("org/brief=").unwrap_err();
    assert!(matches!(err, CoreError::WaitFilterInvalid(_)));
}

#[test]
fn nobody_wins_without_candidates() {
    let none: [&(WaitChannelSelector, Message, String); 0] = [];
    assert!(first_backfill_winner(&none).is_none());
}
