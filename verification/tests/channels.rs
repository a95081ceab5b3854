use chanvoy::channels::{
    channel_name_of, created_channel, is_forbidden, list_channels, list_channels_across_teams,
    list_dms, pin_by_id, pin_error, reaction_result, team_list_usable, unpin_by_id, unreact_by_id,
    RawChannel, TEAM_LIST_TTL,
};
use chanvoy::collections::{TextMap, TextSet};
use chanvoy::error::CoreError;
use chanvoy::types::{Channel, ResolutionSource, ResolvedChannel, TeamChannels};

fn raw(id: &str, kind: &str, last_post_at: i64) -> RawChannel {
    RawChannel {
        id: id.to_string(),
        name: format!("name-{id}"),
        display_name: format!("Name {id}"),
        channel_type: kind.to_string(),
        last_post_at,
    }
}

fn resolved() -> ResolvedChannel {
    ResolvedChannel {
        channel_id: "ch".to_string(),
        channel_name: "ops".to_string(),
        team_id: "team".to_string(),
        team_name: "org".to_string(),
        resolution_source: ResolutionSource::Primary,
    }
}

fn api(status: u16) -> CoreError {
    CoreError::Api {
        status,
        message: "no".to_string(),
    }
}

#[test]
fn zero_means_no_posts() {
    let channels = list_channels(&vec![raw("a", "O", 0), raw("b", "P", 9), raw("c", "O", -1)]);
    let at: Vec<Option<i64>> = channels.iter().map(|c| c.last_post_at).collect();
    assert_eq!(at, vec![None, Some(9), None]);
    assert_eq!(channels[1].name, "name-b");
    assert_eq!(created_channel(raw("a", "O", 9)).last_post_at, None);
    let legacy = channels[1].to_legacy();
    assert_eq!(legacy.id, "b");
    assert_eq!(legacy.display_name, "Name b");
}

#[test]
fn an_unknown_channel_is_shown_by_id() {
    let channels = list_channels(&vec![raw("a", "O", 0)]);
    assert_eq!(channel_name_of(&channels, "a"), "name-a");
    assert_eq!(channel_name_of(&channels, "z"), "z");
}

#[test]
fn conversations_are_the_newest_twenty() {
    let mut all: Vec<RawChannel> = (0..25).map(|i| raw(&format!("d{i}"), "D", i)).collect();
    all.push(raw("o", "O", 99));
    let listed = list_dms(&all);
    assert_eq!(listed.len(), 20);
    assert_eq!(listed[0].id, "d24");
    assert_eq!(listed[19].id, "d5");
}

fn group(team: &str) -> TeamChannels {
    TeamChannels {
        team_id: format!("id-{team}"),
        team_name: team.to_string(),
        team_display_name: team.to_string(),
        channels: Vec::<Channel>::new(),
    }
}

#[test]
fn the_primary_team_comes_first() {
    let groups = vec![group("c"), group("a"), group("b")];
    let names: Vec<String> = list_channels_across_teams(groups, "b")
        .into_iter()
        .map(|g| g.team_name)
        .collect();
    assert_eq!(names, vec!["b", "a", "c"]);
}

#[test]
fn a_list_of_teams_grows_old() {
    assert!(team_list_usable(100, 100));
    assert!(team_list_usable(100, 99 + TEAM_LIST_TTL));
    assert!(!team_list_usable(100, 100 + TEAM_LIST_TTL));
}

#[test]
fn a_reaction_that_is_not_there_counts_as_withdrawn() {
    let done = reaction_result(&resolved(), "p", ":+1:");
    assert_eq!(done.emoji, "+1");
    assert!(done.ok);
    assert_eq!(unreact_by_id(Ok(()), &resolved(), "p", "+1").unwrap(), done);
    assert_eq!(
        unreact_by_id(Err(api(404)), &resolved(), "p", "+1").unwrap(),
        done
    );
    assert!(unreact_by_id(Err(api(403)), &resolved(), "p", "+1").is_err());
}

#[test]
fn a_refused_pin_names_the_permission() {
    assert!(is_forbidden(&api(403)));
    let err = pin_error(api(403), "pin", "bot".to_string(), &resolved());
    assert_eq!(
        err.message(),
        "bot \"bot\" lacks the channel-admin permission required to pin posts in \"org\"/\"ops\". Ask your Mattermost workspace admin to grant the bot the `manage_public_channel_members` / `manage_private_channel_members` scheme role on the channel, or use a profile whose bot already has channel-admin there. Mattermost reported: no"
    );
    assert!(matches!(
        pin_error(api(500), "pin", "bot".to_string(), &resolved()),
        CoreError::Api { status: 500, .. }
    ));
    assert!(pin_by_id(&resolved(), "p", true).was_already_pinned);
    assert!(unpin_by_id(&resolved(), "p", false).was_already_unpinned);
}

#[test]
fn a_set_is_ordered() {
    let mut set = TextSet::new();
    for key in ["b", "\u{e9}", "a", "b", ""] {
        set.insert(key.to_string());
    }
    let keys: Vec<&str> = (0..set.len()).map(|i| set.at(i).as_str()).collect();
    assert_eq!(keys, vec!["", "a", "b", "\u{e9}"]);
    set.remove_first(2);
    assert!(!set.contains("a"));
    assert!(set.contains("b"));
    set.clear();
    assert_eq!(set.len(), 0);
}

#[test]
fn a_map_keeps_one_value_per_key() {
    let mut map: TextMap<u32> = TextMap::new();
    map.insert("b".to_string(), 1);
    map.insert("a".to_string(), 2);
    map.insert("b".to_string(), 3);
    assert_eq!(map.len(), 2);
    assert_eq!(map.get("b"), Some(&3));
    assert_eq!(map.key_at(0), "a");
    assert_eq!(map.value_at(0), &2);
    assert_eq!(map.remove("a"), Some(2));
    assert_eq!(map.remove("a"), None);
    assert!(!map.contains_key("a"));
    assert_eq!(map.into_values(), vec![3]);
}
