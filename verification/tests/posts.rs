use chanvoy::collections::{TextMap, TextSet};
use chanvoy::error::CoreError;
use chanvoy::mentions::message_mentions_username;
use chanvoy::posts::{
    assert_post_in_channel, author_username, binding_holds, channel_page, fetch_post_pinned_state,
    get_post_in_channel, hydrate_posts, latest_authored, mention_summaries, newest_id,
    normalize_root_id, notifications, notify_text, post_receipt, ranked_posts,
    read_channel_since_last_mine, read_thread, read_thread_in_channel, search_channel,
    sort_chronologically, wanted_authors, AfterScan, AfterStep, AuthoredPost, PostsEnvelope,
    RawPost, AFTER_PAGE_SIZE, CHANNEL_WINDOW_PAGE_SIZE,
};
use chanvoy::types::{Message, ResolutionSource, ResolvedChannel};

#[test]
fn top_level_post_is_its_own_thread_root() {
    assert_eq!(normalize_root_id("", "post-1"), "post-1");
}

#[test]
fn a_reply_keeps_the_thread_root_and_does_not_claim_to_be_one() {
    assert_eq!(normalize_root_id("root-1", "reply-9"), "root-1");
    assert_ne!(normalize_root_id("root-1", "reply-9"), "reply-9");
}

fn message_at(id: &str, create_at: i64) -> Message {
    Message {
        id: id.to_string(),
        user_id: "u".to_string(),
        username: "alice".to_string(),
        message: "body".to_string(),
        create_at,
        root_id: id.to_string(),
    }
}

#[test]
fn equal_timestamps_are_broken_by_id_not_by_arrival_order() {
    let messages = vec![
        message_at("zeta", 1_000),
        message_at("alpha", 1_000),
        message_at("beta", 1_000),
    ];
    let messages = sort_chronologically(messages);
    assert_eq!(
        messages.iter().map(|m| m.id.as_str()).collect::<Vec<_>>(),
        vec!["alpha", "beta", "zeta"],
        "posts sharing a timestamp order by id, so a merge of two \
         pages cannot shuffle between calls"
    );
}

#[test]
fn ordering_is_by_time_first_and_id_only_as_a_tie_break() {
    let messages = vec![
        message_at("alpha", 3_000),
        message_at("zeta", 1_000),
        message_at("beta", 2_000),
    ];
    let messages = sort_chronologically(messages);
    assert_eq!(
        messages.iter().map(|m| m.id.as_str()).collect::<Vec<_>>(),
        vec!["zeta", "beta", "alpha"],
        "time wins over id; id is only consulted for ties"
    );
}

#[test]
fn matches_only_targeted_notifications() {
    assert!(message_mentions_username(
        "@agent-bravo-devlead please review",
        "agent-bravo-devlead"
    ));
    assert!(!message_mentions_username(
        "@agent-bravo-devrev please review",
        "agent-bravo-devlead"
    ));
    assert!(!message_mentions_username(
        "@agent-bravo-devlead-extra please review",
        "agent-bravo-devlead"
    ));
}

fn raw(id: &str, channel: &str, user: &str, at: i64, root: &str) -> RawPost {
    RawPost {
        id: id.to_string(),
        channel_id: channel.to_string(),
        user_id: user.to_string(),
        message: format!("text of {id}"),
        create_at: at,
        root_id: root.to_string(),
    }
}

fn by_id(posts: Vec<RawPost>) -> TextMap<RawPost> {
    let mut map = TextMap::new();
    for post in posts {
        map.insert(post.id.clone(), post);
    }
    map
}

fn names(pairs: &[(&str, &str)]) -> TextMap<String> {
    let mut map = TextMap::new();
    for (id, name) in pairs {
        map.insert(id.to_string(), name.to_string());
    }
    map
}

fn ids(messages: &[Message]) -> Vec<&str> {
    messages.iter().map(|m| m.id.as_str()).collect()
}

fn resolved() -> ResolvedChannel {
    ResolvedChannel {
        channel_id: "ch-1".to_string(),
        channel_name: "ops".to_string(),
        team_id: "team-1".to_string(),
        team_name: "org-team".to_string(),
        resolution_source: ResolutionSource::Primary,
    }
}

fn status(code: u16) -> CoreError {
    CoreError::Api {
        status: code,
        message: "no".to_string(),
    }
}

#[test]
fn posts_become_messages_in_their_order() {
    let posts = vec![raw("b", "ch", "u-1", 2, ""), raw("a", "ch", "u-2", 1, "b")];
    let messages = hydrate_posts(&posts, &names(&[("u-1", "alice")]));
    assert_eq!(ids(&messages), vec!["b", "a"]);
    assert_eq!(messages[0].username, "alice");
    assert_eq!(messages[0].root_id, "b");
    assert_eq!(messages[1].username, "u-2");
    assert_eq!(messages[1].root_id, "b");
    assert_eq!(messages[1].message, "text of a");
}

#[test]
fn an_unknown_author_is_shown_by_id() {
    let known = names(&[("u-1", "alice")]);
    assert_eq!(author_username("u-1", &known), "alice");
    assert_eq!(author_username("u-2", &known), "u-2");
}

#[test]
fn each_author_is_wanted_once() {
    let posts = vec![
        raw("a", "ch", "u-2", 1, ""),
        raw("b", "ch", "u-1", 2, ""),
        raw("c", "ch", "u-2", 3, ""),
    ];
    let wanted: TextSet = wanted_authors(&posts);
    assert_eq!(wanted.len(), 2);
    assert_eq!(wanted.at(0), "u-1");
    assert_eq!(wanted.at(1), "u-2");
}

#[test]
fn a_page_is_in_chronological_order() {
    let posts = vec![
        raw("z", "ch", "u", 5, ""),
        raw("y", "ch", "u", 5, ""),
        raw("x", "ch", "u", 9, ""),
        raw("w", "ch", "u", 1, ""),
    ];
    let page = channel_page(&posts, &names(&[]));
    assert_eq!(ids(&page), vec!["w", "y", "z", "x"]);
    assert_eq!(newest_id(&page), Some("x".to_string()));
    assert_eq!(newest_id(&Vec::new()), None);
}

#[test]
fn page_sizes() {
    assert_eq!(CHANNEL_WINDOW_PAGE_SIZE, 30);
    assert_eq!(AFTER_PAGE_SIZE, 200);
}

#[test]
fn a_scan_goes_on_while_pages_are_full() {
    let full: Vec<Message> = (0..200)
        .map(|i| message_at(&format!("p{i:03}"), 1_000 - i as i64))
        .collect();
    let next = match AfterScan::new().absorb(full) {
        AfterStep::More(next) => next,
        AfterStep::Done(_) => panic!("a full page is not the last one"),
    };
    assert_eq!(next.page, 1);
    assert_eq!(next.collected.len(), 200);
    match next.absorb(vec![message_at("late", 1)]) {
        AfterStep::Done(all) => {
            assert_eq!(all.len(), 201);
            assert_eq!(all[0].id, "late");
            assert_eq!(all[1].id, "p199");
            assert_eq!(all[200].id, "p000");
        }
        AfterStep::More(_) => panic!("a page that is not full is the last one"),
    }
}

#[test]
fn an_empty_page_ends_a_scan() {
    match AfterScan::new().absorb(Vec::new()) {
        AfterStep::Done(all) => assert!(all.is_empty()),
        AfterStep::More(_) => panic!("nothing follows an empty page"),
    }
}

#[test]
fn search_results_keep_the_rank_and_the_limit() {
    let envelope = PostsEnvelope {
        order: vec!["c".to_string(), "gone".to_string(), "a".to_string(), "b".to_string()],
        posts: by_id(vec![
            raw("a", "ch", "u", 1, ""),
            raw("b", "ch", "u", 2, ""),
            raw("c", "ch", "u", 3, ""),
        ]),
    };
    let found: Vec<String> = ranked_posts(&envelope, 3).into_iter().map(|p| p.id).collect();
    assert_eq!(found, vec!["c".to_string(), "a".to_string()]);
    assert!(ranked_posts(&envelope, 0).is_empty());
    let result = search_channel(&resolved(), &envelope, 10, &names(&[("u", "alice")]));
    assert_eq!(result.team, "org-team");
    assert_eq!(result.channel, "ops");
    assert_eq!(ids(&result.posts), vec!["c", "a", "b"]);
    assert_eq!(result.posts[0].username, "alice");
}

#[test]
fn the_last_of_the_newest_posts_is_taken() {
    let posts = vec![
        AuthoredPost { id: "a".to_string(), create_at: 5 },
        AuthoredPost { id: "b".to_string(), create_at: 9 },
        AuthoredPost { id: "c".to_string(), create_at: 9 },
        AuthoredPost { id: "d".to_string(), create_at: 7 },
    ];
    assert_eq!(latest_authored(&posts), Some("c".to_string()));
    assert_eq!(latest_authored(&Vec::new()), None);
}

#[test]
fn without_a_post_of_ones_own_there_is_no_anchor() {
    let found = read_channel_since_last_mine(Some("p".to_string()), "ops", "me").unwrap();
    assert_eq!(found, "p");
    let err = read_channel_since_last_mine(None, "ops", "me").unwrap_err();
    assert_eq!(
        err.message(),
        "no prior authored post found in channel ops for me"
    );
}

#[test]
fn a_binding_needs_both_sides() {
    assert!(binding_holds("ch", "ch"));
    assert!(!binding_holds("ch", "other"));
    assert!(!binding_holds("", ""));
    assert!(!binding_holds("", "ch"));
    assert!(!binding_holds("ch", ""));
}

#[test]
fn a_post_is_bound_to_its_channel() {
    assert!(assert_post_in_channel(Ok("ch".to_string()), "ch", "ops", "p").is_ok());
    let err = assert_post_in_channel(Ok("x".to_string()), "ch", "ops", "p").unwrap_err();
    assert_eq!(err.message(), "anchor post p is not in channel ops");
    let err = assert_post_in_channel(Err(status(404)), "ch", "ops", "p").unwrap_err();
    assert_eq!(err.message(), "anchor post p not found");
    let err = assert_post_in_channel(Err(status(500)), "ch", "ops", "p").unwrap_err();
    assert_eq!(err.message(), "api error 500 Internal Server Error: no");
}

#[test]
fn the_pin_state_is_that_of_the_post_in_the_channel() {
    let pinned = fetch_post_pinned_state(Ok(("ch".to_string(), true)), "ch", "ops", "p");
    assert!(pinned.unwrap());
    let err = fetch_post_pinned_state(Ok(("x".to_string(), true)), "ch", "ops", "p").unwrap_err();
    assert!(matches!(err, CoreError::AnchorChannelMismatch { .. }));
    let err = fetch_post_pinned_state(Err(status(404)), "ch", "ops", "p").unwrap_err();
    assert!(matches!(err, CoreError::AnchorNotFound(_)));
}

#[test]
fn another_post_is_no_answer() {
    let good = get_post_in_channel(Ok(raw("p", "ch", "u", 1, "")), "ch", "ops", "p").unwrap();
    assert_eq!(good.id, "p");
    for wrong in [raw("q", "ch", "u", 1, ""), raw("p", "x", "u", 1, ""), raw("p", "", "u", 1, "")] {
        let err = get_post_in_channel(Ok(wrong), "ch", "ops", "p").unwrap_err();
        assert_eq!(err.message(), "anchor post p is not in channel ops");
    }
    let err = get_post_in_channel(Err(status(404)), "ch", "ops", "p").unwrap_err();
    assert_eq!(err.message(), "anchor post p not found");
}

#[test]
fn a_thread_begins_with_its_root() {
    let posts = by_id(vec![
        raw("b-root", "ch", "u", 10, ""),
        raw("c", "ch", "u", 12, "b-root"),
        raw("a", "ch", "u", 10, "b-root"),
        raw("d", "ch", "u", 12, "b-root"),
    ]);
    let thread = read_thread_in_channel(posts, "ch", "ops", "b-root").unwrap();
    let order: Vec<&str> = thread.iter().map(|p| p.id.as_str()).collect();
    assert_eq!(order, vec!["b-root", "a", "c", "d"]);
}

#[test]
fn a_thread_with_a_stranger_is_refused() {
    let refused = |posts: TextMap<RawPost>| {
        let err = read_thread_in_channel(posts, "ch", "ops", "r").unwrap_err();
        assert_eq!(err.message(), "anchor post r is not in channel ops");
    };
    refused(by_id(vec![raw("r", "ch", "u", 1, ""), raw("s", "other", "u", 2, "r")]));
    refused(by_id(vec![raw("r", "ch", "u", 1, ""), raw("s", "ch", "u", 2, "else")]));
    refused(by_id(vec![raw("r", "ch", "u", 1, "older")]));
    refused(by_id(vec![raw("r", "ch", "u", 1, "r")]));
    refused(by_id(vec![raw("s", "ch", "u", 1, "r")]));
    let mut misfiled = TextMap::new();
    misfiled.insert("r".to_string(), raw("r", "ch", "u", 1, ""));
    misfiled.insert("t".to_string(), raw("r", "ch", "u", 1, ""));
    refused(misfiled);
}

#[test]
fn an_empty_thread_is_named() {
    let err = read_thread_in_channel(TextMap::new(), "ch", "ops", "r").unwrap_err();
    assert!(matches!(err, CoreError::EmptyThread { .. }));
    assert!(err.message().starts_with("thread r came back empty."));
    let err = read_thread("r").unwrap_err();
    assert!(matches!(err, CoreError::UnboundThreadReadRemoved));
}

#[test]
fn notifications_are_the_messages_that_name_me() {
    let mut a = message_at("a", 1);
    a.message = "@me look".to_string();
    let mut b = message_at("b", 2);
    b.message = "@meta look".to_string();
    let mut c = message_at("c", 3);
    c.message = "hi (@me)".to_string();
    let all = vec![a, b, c];
    let found = notifications(&all, "me");
    assert_eq!(found.len(), 2);
    assert_eq!(found[0].message.id, "a");
    assert_eq!(found[1].message.id, "c");
    assert_eq!(found[0].from_channel, "agent-notifications");
    let brief = mention_summaries(&all, "me");
    assert_eq!(brief.len(), 2);
    assert_eq!(brief[1].post_id, "c");
    assert_eq!(brief[1].create_at, 3);
}

#[test]
fn a_notification_names_the_bot() {
    assert_eq!(
        notify_text("agent-x", "please look"),
        "@agent-x **[notify]** please look"
    );
    assert!(message_mentions_username(
        &notify_text("agent-x", "please look"),
        "agent-x"
    ));
}

#[test]
fn only_the_receipt_of_a_reply_names_a_parent() {
    assert_eq!(post_receipt("p".to_string(), None).parent_id, None);
    let reply = post_receipt("p".to_string(), Some("r"));
    assert_eq!(reply.id, "p");
    assert_eq!(reply.parent_id, Some("r".to_string()));
}
