use chanvoy::cli::args::ChannelsArgs;
use chanvoy::cli::profiles::{
    active_profile_text, handle_profile_show, printable_identity, stored_profile_text,
};
use chanvoy::cli::render::{
    format_dm_timestamp, format_last_active, format_message, format_timestamp, format_ts,
    short_post_id, truncate, HumanReadable,
};
use chanvoy::cli::tables::{
    attention_list_fits, handle_channels_command, legacy_channels, render_attention_list_text,
    render_attention_show_text, render_team_channels_at, sort_groups_by_active,
};
use chanvoy::types::{
    AttentionChannelEntry, AttentionListResult, AttentionMentionEntry, AttentionShowResult,
    AttentionSource, CapabilityClass, Channel, ChannelCursorState, CheckResult, CredentialMode,
    DmConversation, Identity, Message, Profile, Provider, QuarantinedCursor, ReducePolicy,
    TeamChannels, UnreadNotifications,
};

#[test]
fn format_last_active_buckets() {
    let now = 1_700_000_000_000i64;
    assert_eq!(format_last_active(None, now), "—");
    assert_eq!(format_last_active(Some(0), now), "—");
    assert_eq!(format_last_active(Some(now - 30_000), now), "30s ago");
    assert_eq!(format_last_active(Some(now - 5 * 60_000), now), "5m ago");
    assert_eq!(format_last_active(Some(now - 4 * 3_600_000), now), "4h ago");
    assert_eq!(
        format_last_active(Some(now - 2 * 86_400_000), now),
        "2d ago"
    );
    assert_eq!(
        format_last_active(Some(now - 14 * 86_400_000), now),
        "2w ago"
    );
    assert_eq!(
        format_last_active(Some(now - 730 * 86_400_000), now),
        "2y ago"
    );
}

#[test]
fn format_last_active_clock_skew_renders_just_now() {
    let now = 1_700_000_000_000i64;
    assert_eq!(format_last_active(Some(now + 5_000), now), "just now");
}

#[test]
fn sort_groups_by_active_within_group_only() {
    let groups = vec![
        TeamChannels {
            team_id: "t1".to_string(),
            team_name: "team-a".to_string(),
            team_display_name: "Team A".to_string(),
            channels: vec![
                Channel {
                    id: "c1".to_string(),
                    name: "old".to_string(),
                    display_name: "old".to_string(),
                    channel_type: "O".to_string(),
                    last_post_at: Some(100),
                },
                Channel {
                    id: "c2".to_string(),
                    name: "newer".to_string(),
                    display_name: "newer".to_string(),
                    channel_type: "O".to_string(),
                    last_post_at: Some(500),
                },
                Channel {
                    id: "c3".to_string(),
                    name: "never".to_string(),
                    display_name: "never".to_string(),
                    channel_type: "O".to_string(),
                    last_post_at: None,
                },
            ],
        },
        TeamChannels {
            team_id: "t2".to_string(),
            team_name: "team-b".to_string(),
            team_display_name: "Team B".to_string(),
            channels: vec![Channel {
                id: "c4".to_string(),
                name: "only".to_string(),
                display_name: "only".to_string(),
                channel_type: "O".to_string(),
                last_post_at: Some(300),
            }],
        },
    ];

    let groups = sort_groups_by_active(groups);

    assert_eq!(groups[0].team_name, "team-a");
    assert_eq!(groups[1].team_name, "team-b");
    let names: Vec<&str> = groups[0].channels.iter().map(|c| c.name.as_str()).collect();
    assert_eq!(names, vec!["newer", "old", "never"]);
}

#[test]
fn devrev_pr17_attention_list_renderer_surfaces_quarantined() {
    let result = AttentionListResult {
        profile: "bravo-devlead-lanytehq".to_string(),
        channels: Vec::new(),
        mentions: AttentionMentionEntry {
            source: AttentionSource::NoAnchor,
            newest_seen: None,
            updated_at: None,
        },
        quarantined: vec![QuarantinedCursor {
            legacy_channel_name: "general".to_string(),
            ambiguous_teams: vec!["org-lanytehq".to_string(), "3-leaps-operations".to_string()],
            state: ChannelCursorState::default(),
            quarantined_at: 1_777_500_000_000,
        }],
    };

    let rendered = render_attention_list_text(&result);

    assert!(
        rendered.contains("quarantined (1 record):"),
        "renderer must surface quarantined section header. got:\n{rendered}"
    );
    assert!(
        rendered.contains("LEGACY_NAME"),
        "renderer must include the column header. got:\n{rendered}"
    );
    assert!(
        rendered.contains("general"),
        "renderer must include the legacy channel name. got:\n{rendered}"
    );
    assert!(
        rendered.contains("org-lanytehq") && rendered.contains("3-leaps-operations"),
        "renderer must list both ambiguous teams. got:\n{rendered}"
    );
    assert!(
        rendered.contains("--team") || rendered.contains("<team>/<channel>"),
        "renderer must point operators at the disambiguation syntax. got:\n{rendered}"
    );
}

#[test]
fn devrev_pr17_attention_list_renderer_omits_quarantined_when_empty() {
    let result = AttentionListResult {
        profile: "bravo-devlead-lanytehq".to_string(),
        channels: Vec::new(),
        mentions: AttentionMentionEntry {
            source: AttentionSource::NoAnchor,
            newest_seen: None,
            updated_at: None,
        },
        quarantined: Vec::new(),
    };
    let rendered = render_attention_list_text(&result);
    assert!(
        !rendered.contains("quarantined"),
        "no quarantined section when the vec is empty. got:\n{rendered}"
    );
}

#[test]
fn channels_render_as_legacy_table() {
    let channels = vec![
        Channel {
            id: "dm-id".to_string(),
            name: "dm-channel".to_string(),
            display_name: String::new(),
            channel_type: "D".to_string(),
            last_post_at: None,
        },
        Channel {
            id: "chan-id".to_string(),
            name: "per-007".to_string(),
            display_name: "PER-007".to_string(),
            channel_type: "O".to_string(),
            last_post_at: None,
        },
    ];

    let rendered = channels.to_human_string();
    assert!(rendered.contains("dm-channel"));
    assert!(rendered.contains("per-007"));
    assert!(rendered.contains("PER-007"));
    assert!(rendered.contains("D"));
    assert!(rendered.contains("O"));
}

#[test]
fn dms_render_with_helper_line() {
    let conversations = vec![DmConversation {
        id: "dm-id".to_string(),
        name: "user_a__user_b".to_string(),
        last_post_at: 1_744_327_700_000,
    }];

    let rendered = conversations.to_human_string();
    assert!(rendered.contains("dm-id"));
    assert!(rendered.contains("user_a__user_b"));
    assert!(rendered.contains("Use 'chanvoy dm read <username>' to read a conversation."));
}

#[test]
fn dms_render_shows_twenty_rows() {
    let conversations = (0..20)
        .map(|idx| DmConversation {
            id: format!("dm-{idx}"),
            name: format!("user-{idx}"),
            last_post_at: 1_744_327_700_000 + idx,
        })
        .collect::<Vec<_>>();

    let rendered = conversations.to_human_string();
    assert!(rendered.contains("dm-19"));
    assert_eq!(
        rendered
            .lines()
            .filter(|line| line.starts_with("2025-"))
            .count(),
        20
    );
}

#[test]
fn check_result_renders_compact_probe_output() {
    let result = CheckResult {
        channel: "per-008".to_string(),
        anchor: Some("anchor-1".to_string()),
        anchor_source: "daemon_cursor".to_string(),
        has_new_messages: true,
        count: 3,
        newest_post_id: Some("post-3".to_string()),
    };

    assert_eq!(
        result.to_human_string(),
        "new: 3 newest=post-3 anchor=anchor-1 source=daemon_cursor"
    );
}

#[test]
fn unread_notifications_render_as_count_only() {
    let unread = UnreadNotifications { count: 4 };
    assert_eq!(unread.to_human_string(), "unread: 4");
}

#[test]
fn identity_uses_lanyte_chat_shape() {
    let identity = Identity {
        id: "user-id".to_string(),
        username: "agent-bravo-devlead".to_string(),
        is_bot: true,
        nickname: None,
        email: Some("agent-bravo-devlead@localhost".to_string()),
    };

    let printable = printable_identity(&identity);
    assert_eq!(printable.username, "agent-bravo-devlead");
    assert_eq!(printable.id, "user-id");
    assert!(printable.is_bot);
    assert_eq!(printable.email, "agent-bravo-devlead@localhost");
}

#[test]
fn an_identity_without_an_address_shows_an_empty_one() {
    let identity = Identity {
        id: "i".to_string(),
        username: "u".to_string(),
        is_bot: false,
        nickname: None,
        email: None,
    };
    assert_eq!(printable_identity(&identity).email, "");
}

fn channel(name: &str, last_post_at: Option<i64>) -> Channel {
    Channel {
        id: format!("id-{name}"),
        name: name.to_string(),
        display_name: name.to_uppercase(),
        channel_type: "O".to_string(),
        last_post_at,
    }
}

fn group(team: &str, channels: Vec<Channel>) -> TeamChannels {
    TeamChannels {
        team_id: format!("id-{team}"),
        team_name: team.to_string(),
        team_display_name: team.to_uppercase(),
        channels,
    }
}

#[test]
fn one_team_is_picked_and_sorted() {
    let groups = || {
        vec![
            group("a", vec![channel("x", Some(1)), channel("y", Some(2))]),
            group("b", vec![channel("z", None)]),
        ]
    };
    let all = handle_channels_command(
        &ChannelsArgs {
            team: None,
            primary_team: false,
            sort: None,
        },
        groups(),
    );
    assert_eq!(all, groups());
    let one = handle_channels_command(
        &ChannelsArgs {
            team: Some("a".to_string()),
            primary_team: false,
            sort: Some("active".to_string()),
        },
        groups(),
    );
    assert_eq!(one.len(), 1);
    let names: Vec<&str> = one[0].channels.iter().map(|c| c.name.as_str()).collect();
    assert_eq!(names, vec!["y", "x"]);
}

#[test]
fn teams_are_rendered_with_their_activity() {
    let now = 1_700_000_000_000;
    let text = render_team_channels_at(&vec![group("ops", vec![channel("x", Some(now - 30_000))])], now);
    assert!(text.contains("30s ago"));
    assert!(text.contains("ops"));
    let legacy = legacy_channels(&vec![channel("x", Some(3))]);
    assert_eq!(legacy.len(), 1);
    assert_eq!(legacy[0].name, "x");
}

#[test]
fn moments_are_shown_in_utc() {
    assert_eq!(format_timestamp(1_700_000_000_000), "2023-11-14 22:13:20");
    assert_eq!(format_dm_timestamp(1_700_000_000_000), "2023-11-14 22:13");
    assert_eq!(format_ts(Some(1_700_000_000_000)), "2023-11-14 22:13Z");
    assert_eq!(format_ts(None), "\u{2014}");
    assert_eq!(format_timestamp(i64::MAX), i64::MAX.to_string());
}

#[test]
fn texts_are_cut_at_a_boundary() {
    assert_eq!(truncate("abcdef", 3), "abc");
    assert_eq!(truncate("ab", 3), "ab");
    assert_eq!(short_post_id("abcdefghijkl"), &"abcdefghijkl"[..8]);
    assert_eq!(short_post_id("abc"), "abc");
}

#[test]
fn a_message_is_one_line() {
    let message = Message {
        id: "p".to_string(),
        user_id: "u".to_string(),
        username: "alice".to_string(),
        message: "hello".to_string(),
        create_at: 1_700_000_000_000,
        root_id: "p".to_string(),
    };
    let line = format_message(&message);
    assert!(line.contains("alice"));
    assert!(line.contains("hello"));
    assert!(line.contains("2023-11-14 22:13:20"));
}

fn entry(channel: &str) -> AttentionChannelEntry {
    AttentionChannelEntry {
        channel: channel.to_string(),
        source: AttentionSource::NoAnchor,
        newest_seen: Some("post".to_string()),
        updated_at: None,
        last_checked_at: None,
    }
}

#[test]
fn a_listing_that_cannot_be_cut_is_known() {
    let mut result = AttentionListResult {
        profile: "p".to_string(),
        channels: vec![entry("short")],
        mentions: AttentionMentionEntry {
            source: AttentionSource::NoAnchor,
            newest_seen: None,
            updated_at: None,
        },
        quarantined: Vec::new(),
    };
    assert!(attention_list_fits(&result));
    assert!(render_attention_list_text(&result).contains("short"));
    result.channels.push(entry(&format!("{}\u{e9}", "x".repeat(23))));
    assert!(!attention_list_fits(&result));
}

#[test]
fn one_cursor_is_shown() {
    let text = render_attention_show_text(&AttentionShowResult {
        profile: "p".to_string(),
        channel: entry("ops"),
        mentions: AttentionMentionEntry {
            source: AttentionSource::NoAnchor,
            newest_seen: None,
            updated_at: None,
        },
    });
    assert!(text.contains("ops"));
}

fn profile(reduce: Option<&str>) -> Profile {
    Profile {
        name: "seat".to_string(),
        role: "r".to_string(),
        scope: "s".to_string(),
        provider: Provider::Mattermost,
        bot_username: "agent-seat".to_string(),
        team_name: "org-s".to_string(),
        server_url: "https://mm.example.com".to_string(),
        env_name: "TOKEN".to_string(),
        env_file: None,
        credential_mode: CredentialMode::EnvName,
        capability_class: CapabilityClass::Standard,
        monitored_channels: Vec::new(),
        ipc: None,
        reduce: reduce.map(|name| ReducePolicy {
            use_profile: name.to_string(),
        }),
    }
}

#[test]
fn a_profile_is_shown_with_its_reduction() {
    assert_eq!(
        handle_profile_show(&profile(None), None),
        "profile:      seat\nidentity:     agent-seat (r/s)\nteam_name:    org-s\nserver_url:   https://mm.example.com\nreduce:       (none \u{2014} this profile posts as itself everywhere)"
    );
    let known = handle_profile_show(&profile(Some("fam")), Some(true));
    assert!(known.ends_with(
        "reduce:       \u{2192} fam (identity-reduce)\n              posts inside org-s keep this identity; posts elsewhere reduce to fam"
    ));
    let dangling = handle_profile_show(&profile(Some("fam")), Some(false));
    assert!(dangling.contains("WARNING:    reduce target 'fam' does not exist on disk"));
}

#[test]
fn a_stored_profile_is_reported() {
    assert_eq!(
        stored_profile_text(&profile(None), "/cfg/seat.toml", true),
        "created profile seat\npath: /cfg/seat.toml\nbot_username: agent-seat\nactive profile set to seat"
    );
    assert!(!stored_profile_text(&profile(None), "/x", false).contains("active"));
    assert_eq!(active_profile_text(Some("seat")), "seat");
    assert_eq!(active_profile_text(None), "(none)");
}
