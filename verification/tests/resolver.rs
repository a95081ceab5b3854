use chanvoy::attention::{
    attention_key_for, compute_seed_outcomes, legacy_answer, legacy_keys, migrate_attention_state,
    seed_candidates, LegacyAnswer,
};
use chanvoy::collections::{TextMap, TextSet};
use chanvoy::error::CoreError;
use chanvoy::posts::AuthoredPost;
use chanvoy::reads::{ReadAsk, ReadEvent, ReadFlow, ReadMode, ReadStep};
use chanvoy::resolver::{
    team_id_for_member_slug, Answer, Ask, ChannelSearch, FoundChannel, SearchStep,
};
use chanvoy::types::{
    AttentionState, Channel, ChannelCursorState, Identity, MentionCursorState, Message,
    ResolutionSource, ResolvedChannel, SeededChannelOutcome, TeamInfo,
};

/// Teams and channels, and what was asked of them.
struct World {
    recent: Vec<(&'static str, &'static str)>,
    fresh: Vec<(&'static str, &'static str)>,
    channels: Vec<(&'static str, &'static str, &'static str)>,
    refreshed: bool,
    asked: usize,
}

fn infos(teams: &[(&'static str, &'static str)]) -> Vec<TeamInfo> {
    teams
        .iter()
        .map(|(id, name)| TeamInfo {
            id: id.to_string(),
            name: name.to_string(),
            display_name: name.to_uppercase(),
        })
        .collect()
}

fn missing() -> CoreError {
    CoreError::Api {
        status: 404,
        message: "not here".to_string(),
    }
}

impl World {
    fn new(teams: &[(&'static str, &'static str)]) -> World {
        World {
            recent: teams.to_vec(),
            fresh: teams.to_vec(),
            channels: Vec::new(),
            refreshed: false,
            asked: 0,
        }
    }

    fn with(mut self, team_id: &'static str, name: &'static str, id: &'static str) -> World {
        self.channels.push((team_id, name, id));
        self
    }

    fn reply(&mut self, ask: &Ask) -> Answer {
        self.asked += 1;
        match ask {
            Ask::ListTeams => {
                let teams = if self.refreshed { &self.fresh } else { &self.recent };
                Answer::Teams(Ok(infos(teams)))
            }
            Ask::RefreshTeams => {
                self.refreshed = true;
                Answer::Teams(Ok(infos(&self.fresh)))
            }
            Ask::TeamId { slug } => {
                let found = self.fresh.iter().find(|(_, name)| name == slug);
                Answer::TeamId(match found {
                    Some((id, _)) => Ok(id.to_string()),
                    None => Err(missing()),
                })
            }
            Ask::Channel { team_id, channel } => {
                let found = self
                    .channels
                    .iter()
                    .find(|(team, name, _)| team == team_id && name == channel);
                Answer::Channel(match found {
                    Some((_, name, id)) => Ok(FoundChannel {
                        id: id.to_string(),
                        name: name.to_string(),
                    }),
                    None => Err(missing()),
                })
            }
        }
    }

    fn resolve(&mut self, arg: &str, team: Option<&str>) -> Result<ResolvedChannel, CoreError> {
        let mut step = ChannelSearch::begin(arg, team, "org-lanytehq");
        loop {
            match step {
                SearchStep::Done(result) => return result,
                SearchStep::Ask(search, ask) => {
                    let answer = self.reply(&ask);
                    step = search.answer(answer);
                }
            }
        }
    }
}

const LANYTE: (&str, &str) = ("team-lanytehq", "org-lanytehq");
const OPS: (&str, &str) = ("team-ops", "3-leaps-operations");
const FULMEN: (&str, &str) = ("team-fulmen", "org-fulmenhq");

#[test]
fn ac1_primary_team_channel_resolves_primary_source() {
    let mut world = World::new(&[LANYTE]).with("team-lanytehq", "general", "ch-general");
    let resolved = world.resolve("general", None).unwrap();
    assert_eq!(resolved.channel_id, "ch-general");
    assert_eq!(resolved.team_name, "org-lanytehq");
    assert_eq!(resolved.resolution_source, ResolutionSource::Primary);
    assert_eq!(world.asked, 2);
}

#[test]
fn ac2_cross_team_fallback_finds_unique_match() {
    let mut world = World::new(&[LANYTE, OPS]).with("team-ops", "leadership", "ch-leadership");
    let resolved = world.resolve("leadership", None).unwrap();
    assert_eq!(resolved.channel_id, "ch-leadership");
    assert_eq!(resolved.team_name, "3-leaps-operations");
    assert_eq!(resolved.resolution_source, ResolutionSource::Fallback);
}

#[test]
fn ac3_ambiguous_channel_refuses_with_team_list() {
    let mut world = World::new(&[LANYTE, OPS, FULMEN])
        .with("team-ops", "general", "ch-ops-general")
        .with("team-fulmen", "general", "ch-fulmen-general");
    match world.resolve("general", None) {
        Err(CoreError::AmbiguousChannel { channel, teams }) => {
            assert_eq!(channel, "general");
            assert_eq!(teams.len(), 2);
            assert_eq!(teams, vec!["3-leaps-operations", "org-fulmenhq"]);
        }
        other => panic!("expected AmbiguousChannel, got {other:?}"),
    }
}

#[test]
fn ac4_no_match_refuses_with_searched_teams_after_refresh() {
    let mut world = World::new(&[LANYTE]);
    match world.resolve("phantom", None) {
        Err(CoreError::ChannelNotFoundInAnyTeam { channel, teams }) => {
            assert_eq!(channel, "phantom");
            assert!(teams.contains(&"org-lanytehq".to_string()));
        }
        other => panic!("expected ChannelNotFoundInAnyTeam, got {other:?}"),
    }
    assert!(world.refreshed);
}

#[test]
fn ac5_explicit_team_channel_syntax_overrides() {
    let mut world = World::new(&[LANYTE, OPS])
        .with("team-lanytehq", "general", "ch-lh-general")
        .with("team-ops", "general", "ch-ops-general");
    let resolved = world.resolve("3-leaps-operations/general", None).unwrap();
    assert_eq!(resolved.channel_id, "ch-ops-general");
    assert_eq!(resolved.team_name, "3-leaps-operations");
    assert_eq!(resolved.resolution_source, ResolutionSource::Explicit);
    let beside = world
        .resolve("3-leaps-operations/general", Some("org-lanytehq"))
        .unwrap();
    assert_eq!(beside.channel_id, "ch-ops-general");
    let flagged = world.resolve("#general", Some("3-leaps-operations")).unwrap();
    assert_eq!(flagged.channel_id, "ch-ops-general");
}

#[test]
fn explicit_team_not_a_member_refuses_distinctly() {
    let mut world = World::new(&[LANYTE]);
    match world.resolve("not-my-team/anything", None) {
        Err(CoreError::NotAMemberOfTeam { team, .. }) => {
            assert_eq!(team, "not-my-team");
        }
        other => panic!("expected NotAMemberOfTeam, got {other:?}"),
    }
}

#[test]
fn ac8_sop_mm_015_regression_3_leaps_operations_leadership() {
    let mut world = World::new(&[LANYTE, OPS]).with("team-ops", "leadership", "ch-leadership");
    let resolved = world.resolve("leadership", None).unwrap();
    assert_eq!(resolved.team_name, "3-leaps-operations");
    assert_eq!(resolved.channel_id, "ch-leadership");
    assert_eq!(resolved.resolution_source, ResolutionSource::Fallback);
}

#[test]
fn devrev_pr17_finding4_explicit_strips_hash_from_channel_segment() {
    let mut world = World::new(&[LANYTE, OPS]).with("team-ops", "development", "ch-dev");
    let resolved_with_hash = world.resolve("3-leaps-operations/#development", None).unwrap();
    let resolved_no_hash = world.resolve("3-leaps-operations/development", None).unwrap();
    assert_eq!(resolved_with_hash.channel_id, resolved_no_hash.channel_id);
    assert_eq!(resolved_with_hash.team_name, "3-leaps-operations");
    assert_eq!(resolved_with_hash.channel_name, "development");
    assert_eq!(
        resolved_with_hash.resolution_source,
        ResolutionSource::Explicit
    );
}

#[test]
fn devrev_pr17_finding3_since_last_mine_uses_explicit_team() {
    let mut world = World::new(&[LANYTE, OPS])
        .with("team-lanytehq", "duplicates", "ch-lh-dup")
        .with("team-ops", "duplicates", "ch-ops-dup");
    let mut paths = Vec::new();
    let mut step = ReadFlow::begin("duplicates".to_string(), ReadMode::SinceLastMine);
    let messages = loop {
        let (flow, ask) = match step {
            ReadStep::Done(result) => break result,
            ReadStep::Ask(flow, ask) => (flow, ask),
        };
        let event = match ask {
            ReadAsk::WhoAmI => ReadEvent::Me(Ok(Identity {
                id: "bot-id".to_string(),
                username: "agent-bravo-devlead".to_string(),
                is_bot: true,
                nickname: None,
                email: None,
            })),
            ReadAsk::Resolve => {
                ReadEvent::Resolved(world.resolve("duplicates", Some("3-leaps-operations")))
            }
            ReadAsk::Now => ReadEvent::Now(1_777_000_000_000),
            ReadAsk::Search(request) => {
                let found = request.path == "/teams/team-ops/posts/search";
                paths.push(request.path);
                ReadEvent::Authored(if found {
                    Ok(vec![AuthoredPost {
                        id: "post-ops-1".to_string(),
                        create_at: 1_777_000_000_000,
                    }])
                } else {
                    Err(missing())
                })
            }
            ReadAsk::Fetch(request) => {
                let found = request.path == "/posts/post-ops-1";
                paths.push(request.path);
                ReadEvent::Found(if found {
                    Ok("ch-ops-dup".to_string())
                } else {
                    Err(missing())
                })
            }
            ReadAsk::Page(request) => {
                let found = request.path.starts_with("/channels/ch-ops-dup/posts");
                paths.push(request.path);
                ReadEvent::Page(if found { Ok(Vec::new()) } else { Err(missing()) })
            }
        };
        step = flow.answer(event);
    };
    assert_eq!(messages.expect("read should target Ops team"), Vec::new());
    assert_eq!(
        paths,
        vec![
            "/teams/team-ops/posts/search",
            "/posts/post-ops-1",
            "/channels/ch-ops-dup/posts?after=post-ops-1&page=0&per_page=200",
        ]
    );
}

#[test]
fn a_channel_missing_from_the_named_team_is_not_looked_for_elsewhere() {
    let mut world = World::new(&[LANYTE, OPS]).with("team-lanytehq", "general", "ch");
    match world.resolve("3-leaps-operations/general", None) {
        Err(CoreError::ChannelNotFoundInAnyTeam { channel, teams }) => {
            assert_eq!(channel, "general");
            assert_eq!(teams, vec!["3-leaps-operations"]);
        }
        other => panic!("expected ChannelNotFoundInAnyTeam, got {other:?}"),
    }
}

#[test]
fn a_stale_list_of_teams_is_fetched_afresh() {
    let mut world = World::new(&[LANYTE]).with("team-ops", "leadership", "ch-leadership");
    world.fresh = vec![LANYTE, OPS];
    let resolved = world.resolve("leadership", None).unwrap();
    assert_eq!(resolved.team_id, "team-ops");
    assert!(world.refreshed);
    let mut world = World::new(&[LANYTE]).with("team-ops", "leadership", "ch-leadership");
    world.fresh = vec![LANYTE, OPS];
    let resolved = world.resolve("3-leaps-operations/leadership", None).unwrap();
    assert_eq!(resolved.team_id, "team-ops");
}

#[test]
fn an_error_ends_a_search() {
    let step = ChannelSearch::begin("general", None, "org-lanytehq");
    let search = match step {
        SearchStep::Ask(search, Ask::TeamId { slug }) => {
            assert_eq!(slug, "org-lanytehq");
            search
        }
        _ => panic!("the primary team comes first"),
    };
    let refused = CoreError::Api {
        status: 503,
        message: "later".to_string(),
    };
    match search.answer(Answer::TeamId(Err(refused))) {
        SearchStep::Done(Err(CoreError::Api { status, .. })) => assert_eq!(status, 503),
        _ => panic!("the error is the result"),
    }
}

#[test]
fn a_member_team_has_an_id() {
    let teams = infos(&[LANYTE, OPS]);
    assert_eq!(
        team_id_for_member_slug(&teams, "3-leaps-operations").unwrap(),
        "team-ops"
    );
    let err = team_id_for_member_slug(&teams, "elsewhere").unwrap_err();
    assert_eq!(
        err.message(),
        "team \"elsewhere\" requested via <team>/<channel> syntax, but you are not a member of it. Teams you are a member of: [\"org-lanytehq\", \"3-leaps-operations\"]."
    );
}

fn legacy_state() -> AttentionState {
    let mut channels = TextMap::new();
    channels.insert(
        "general".to_string(),
        ChannelCursorState {
            last_seen_post_id: Some("pre-merge-post".to_string()),
            updated_at: Some(1_776_000_000_000),
            last_known_stale: false,
            last_checked_at: None,
            channel_id: String::new(),
            team_id: String::new(),
            team_name: String::new(),
            channel_name: String::new(),
        },
    );
    AttentionState {
        channels,
        mentions: MentionCursorState::default(),
        quarantined: Vec::new(),
    }
}

fn answers_for(world: &mut World, state: &AttentionState) -> Vec<LegacyAnswer> {
    legacy_keys(&state.channels)
        .iter()
        .map(|name| {
            let primary = world.resolve(name, Some("org-lanytehq"));
            let anywhere = world.resolve(name, None);
            legacy_answer(primary, anywhere)
        })
        .collect()
}

#[test]
fn ac15_migration_quarantines_ambiguous_legacy_record() {
    let mut world = World::new(&[LANYTE, OPS])
        .with("team-lanytehq", "general", "ch-lh-general")
        .with("team-ops", "general", "ch-ops-general");
    let mut state = legacy_state();
    let answers = answers_for(&mut world, &state);
    let outcome = migrate_attention_state(&mut state, answers, 1);
    assert_eq!(outcome.migrated, 1);
    assert_eq!(outcome.quarantined, 0);
    assert!(state.channels.contains_key("org-lanytehq/general"));
    assert!(!state.channels.contains_key("general"));
    let cursor = state.channels.get("org-lanytehq/general").unwrap();
    assert_eq!(cursor.last_seen_post_id, Some("pre-merge-post".to_string()));
    assert_eq!(cursor.channel_id, "ch-lh-general");
    assert_eq!(cursor.team_id, "team-lanytehq");
}

#[test]
fn migration_quarantines_when_only_fallbacks_are_ambiguous() {
    let mut world = World::new(&[LANYTE, OPS, FULMEN])
        .with("team-ops", "general", "ch-ops-general")
        .with("team-fulmen", "general", "ch-fulmen-general");
    let mut state = legacy_state();
    let answers = answers_for(&mut world, &state);
    let outcome = migrate_attention_state(&mut state, answers, 77);
    assert_eq!(outcome.migrated, 0);
    assert_eq!(outcome.quarantined, 1);
    assert_eq!(state.channels.len(), 0);
    assert_eq!(state.quarantined.len(), 1);
    assert_eq!(state.quarantined[0].legacy_channel_name, "general");
    assert_eq!(state.quarantined[0].ambiguous_teams.len(), 2);
    assert_eq!(state.quarantined[0].quarantined_at, 77);
}

#[test]
fn an_unknown_name_stays_where_it_is() {
    let mut world = World::new(&[LANYTE]);
    let mut state = legacy_state();
    state
        .channels
        .insert("org-lanytehq/done".to_string(), ChannelCursorState::default());
    let answers = answers_for(&mut world, &state);
    let outcome = migrate_attention_state(&mut state, answers, 1);
    assert_eq!(outcome.skipped, 1);
    assert!(state.channels.contains_key("general"));
    assert!(state.channels.contains_key("org-lanytehq/done"));
    assert_eq!(attention_key_for("a", "b"), "a/b");
}

fn channel(id: &str, name: &str, kind: &str) -> Channel {
    Channel {
        id: id.to_string(),
        name: name.to_string(),
        display_name: name.to_string(),
        channel_type: kind.to_string(),
        last_post_at: None,
    }
}

fn set_of(keys: &[&str]) -> TextSet {
    let mut set = TextSet::new();
    for key in keys {
        set.insert(key.to_string());
    }
    set
}

fn head(id: &str) -> Vec<Message> {
    vec![Message {
        id: id.to_string(),
        user_id: "user-1".to_string(),
        username: "user-1".to_string(),
        message: "hi".to_string(),
        create_at: 1_776_000_000_000,
        root_id: id.to_string(),
    }]
}

#[test]
fn compute_seed_outcomes_mixed_channels() {
    let channels = vec![
        channel("ch-public-seeded", "bravo-team", "O"),
        channel("ch-private-empty", "per-009-private", "P"),
        channel("ch-public-failed", "flaky-channel", "O"),
        channel("ch-dm", "dm-channel", "D"),
    ];
    let candidates = seed_candidates(&channels, "org-lanytehq", &set_of(&[]));
    assert_eq!(candidates.len(), 3);
    let failed = CoreError::Api {
        status: 500,
        message: "upstream error".to_string(),
    };
    let outcomes = compute_seed_outcomes(
        &candidates,
        &vec![Ok(head("post-head-xyz")), Ok(Vec::new()), Err(failed)],
    );
    assert_eq!(
        outcomes,
        vec![
            SeededChannelOutcome::Seeded {
                channel: "bravo-team".to_string(),
                post_id: "post-head-xyz".to_string()
            },
            SeededChannelOutcome::UnseededEmptyChannel {
                channel: "per-009-private".to_string()
            },
            SeededChannelOutcome::Failed {
                channel: "flaky-channel".to_string(),
                reason: "api error 500 Internal Server Error: upstream error".to_string()
            },
        ]
    );
}

/// The channels of the outcomes, where each candidate has the same head.
fn seeded(channels: &Vec<Channel>, existing: &[&str]) -> Vec<String> {
    let candidates = seed_candidates(channels, "org-lanytehq", &set_of(existing));
    let heads: Vec<Result<Vec<Message>, CoreError>> =
        candidates.iter().map(|_| Ok(head("post-new"))).collect();
    compute_seed_outcomes(&candidates, &heads)
        .into_iter()
        .map(|o| match o {
            SeededChannelOutcome::Seeded { channel, .. }
            | SeededChannelOutcome::UnseededEmptyChannel { channel }
            | SeededChannelOutcome::Failed { channel, .. } => channel,
        })
        .collect()
}

#[test]
fn compute_seed_outcomes_skips_already_cursored_channels() {
    let channels = vec![
        channel("ch-existing", "bravo-team", "O"),
        channel("ch-new", "per-009", "O"),
    ];
    assert_eq!(seeded(&channels, &["bravo-team"]), vec!["per-009"]);
}

#[test]
fn compute_seed_outcomes_skips_qualified_key_after_per019_migration() {
    let channels = vec![
        channel("ch-existing", "bravo-team", "O"),
        channel("ch-new", "per-019", "O"),
    ];
    let outcomes = seeded(&channels, &["org-lanytehq/bravo-team"]);
    assert_eq!(
        outcomes,
        vec!["per-019"],
        "qualified-key cursor must skip the seed enumeration; bare-name match would falsely emit Failed"
    );
    assert!(
        !outcomes.contains(&"bravo-team".to_string()),
        "already-cursored channel must not appear in outcomes"
    );
    let elsewhere = seeded(&channels, &["org-lanytehq/bravo-team", "other/per-019"]);
    assert_eq!(elsewhere, vec!["per-019"]);
}
