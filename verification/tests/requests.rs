use chanvoy::error::CoreError;
use chanvoy::requests::{
    accept_status, lookup_failure, request_for, ApiCall, Body, Field, FieldValue, Method,
};

fn text(name: &str, value: &str) -> Field {
    Field {
        name: name.to_string(),
        value: FieldValue::Text(value.to_string()),
    }
}

fn path(call: ApiCall) -> (Method, String) {
    let request = request_for(&call);
    assert_eq!(request.body, Body::Empty);
    (request.method, request.path)
}

#[test]
fn paths_of_what_is_read() {
    let get = |call| {
        let (method, path) = path(call);
        assert_eq!(method, Method::Get);
        path
    };
    assert_eq!(get(ApiCall::Me), "/users/me");
    assert_eq!(get(ApiCall::MyTeams), "/users/me/teams");
    assert_eq!(get(ApiCall::Team { slug: "t" }), "/teams/name/t");
    assert_eq!(
        get(ApiCall::TeamChannels { team_id: "t" }),
        "/users/me/teams/t/channels"
    );
    assert_eq!(
        get(ApiCall::MyChannels { user_id: "u" }),
        "/users/u/channels?per_page=100"
    );
    assert_eq!(get(ApiCall::User { user_id: "u" }), "/users/u");
    assert_eq!(
        get(ApiCall::UserNamed { username: "u" }),
        "/users/username/u"
    );
    assert_eq!(
        get(ApiCall::ChannelNamed {
            team_id: "t",
            name: "c"
        }),
        "/teams/t/channels/name/c"
    );
    assert_eq!(
        get(ApiCall::PostsSince {
            channel_id: "c",
            since: -5
        }),
        "/channels/c/posts?since=-5&per_page=30"
    );
    assert_eq!(
        get(ApiCall::PostsAfter {
            channel_id: "c",
            after: "p",
            page: 3
        }),
        "/channels/c/posts?after=p&page=3&per_page=200"
    );
    assert_eq!(
        get(ApiCall::LatestPosts {
            channel_id: "c",
            limit: 17
        }),
        "/channels/c/posts?per_page=17"
    );
    assert_eq!(
        get(ApiCall::PinnedPosts { channel_id: "c" }),
        "/channels/c/pinned"
    );
    assert_eq!(get(ApiCall::Post { post_id: "p" }), "/posts/p");
    assert_eq!(get(ApiCall::Thread { root_id: "p" }), "/posts/p/thread");
}

#[test]
fn paths_of_what_is_changed_without_a_body() {
    assert_eq!(
        path(ApiCall::ArchiveChannel { channel_id: "c" }),
        (Method::Delete, "/channels/c".to_string())
    );
    assert_eq!(
        path(ApiCall::RestoreChannel { channel_id: "c" }),
        (Method::Post, "/channels/c/restore".to_string())
    );
    assert_eq!(
        path(ApiCall::RemoveReaction {
            user_id: "u",
            post_id: "p",
            emoji: "+1"
        }),
        (Method::Delete, "/users/u/posts/p/reactions/+1".to_string())
    );
    assert_eq!(
        path(ApiCall::PinPost { post_id: "p" }),
        (Method::Post, "/posts/p/pin".to_string())
    );
    assert_eq!(
        path(ApiCall::UnpinPost { post_id: "p" }),
        (Method::Post, "/posts/p/unpin".to_string())
    );
}

#[test]
fn posts_and_replies() {
    let post = request_for(&ApiCall::CreatePost {
        channel_id: "c",
        message: "hi",
    });
    assert_eq!(post.method, Method::Post);
    assert_eq!(post.path, "/posts");
    assert_eq!(
        post.body,
        Body::Record(vec![text("channel_id", "c"), text("message", "hi")])
    );
    let reply = request_for(&ApiCall::CreateReply {
        channel_id: "c",
        root_id: "r",
        message: "hi",
    });
    assert_eq!(
        reply.body,
        Body::Record(vec![
            text("channel_id", "c"),
            text("root_id", "r"),
            text("message", "hi")
        ])
    );
}

#[test]
fn channels_are_created_in_public() {
    let bare = request_for(&ApiCall::CreateChannel {
        team_id: "t",
        name: "n",
        display_name: "N",
        purpose: None,
    });
    assert_eq!(bare.path, "/channels");
    assert_eq!(
        bare.body,
        Body::Record(vec![
            text("team_id", "t"),
            text("name", "n"),
            text("display_name", "N"),
            text("type", "O")
        ])
    );
    let purposeful = request_for(&ApiCall::CreateChannel {
        team_id: "t",
        name: "n",
        display_name: "N",
        purpose: Some("why"),
    });
    match purposeful.body {
        Body::Record(fields) => assert_eq!(fields[4], text("purpose", "why")),
        other => panic!("expected a record, got {other:?}"),
    }
}

#[test]
fn searches_and_the_rest() {
    let search = request_for(&ApiCall::SearchLatest {
        team_id: "t",
        terms: "x",
    });
    assert_eq!(search.path, "/teams/t/posts/search");
    assert_eq!(
        search.body,
        Body::Record(vec![
            text("terms", "x"),
            Field {
                name: "is_or_search".to_string(),
                value: FieldValue::Flag(false)
            },
            Field {
                name: "page".to_string(),
                value: FieldValue::Number(0)
            },
            Field {
                name: "per_page".to_string(),
                value: FieldValue::Number(1)
            },
        ])
    );
    let direct = request_for(&ApiCall::OpenDirect {
        my_id: "me",
        user_id: "you",
    });
    assert_eq!(direct.path, "/channels/direct");
    assert_eq!(
        direct.body,
        Body::List(vec!["me".to_string(), "you".to_string()])
    );
    let member = request_for(&ApiCall::AddMember {
        channel_id: "c",
        user_id: "u",
    });
    assert_eq!(member.path, "/channels/c/members");
    let reaction = request_for(&ApiCall::AddReaction {
        user_id: "u",
        post_id: "p",
        emoji: "+1",
    });
    assert_eq!(reaction.path, "/reactions");
    assert_eq!(
        reaction.body,
        Body::Record(vec![
            text("user_id", "u"),
            text("post_id", "p"),
            text("emoji_name", "+1")
        ])
    );
}

#[test]
fn preflight_401_surfaces_as_api_unauthorized() {
    assert!(accept_status(200, "").is_ok());
    assert!(accept_status(299, "").is_ok());
    let err = accept_status(401, "who are you").unwrap_err();
    assert_eq!(err.message(), "api error 401 Unauthorized: who are you");
    assert!(accept_status(199, "").is_err());
    assert!(accept_status(300, "").is_err());
}

#[test]
fn failed_lookups_tell_little() {
    let api = CoreError::Api {
        status: 500,
        message: "a person's record".to_string(),
    };
    assert_eq!(lookup_failure(&api), "status 500 Internal Server Error");
    assert_eq!(
        lookup_failure(&CoreError::Http("x".to_string())),
        "transport failure"
    );
    assert_eq!(
        lookup_failure(&CoreError::Json("x".to_string())),
        "decode failure"
    );
}
