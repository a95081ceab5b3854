use chanvoy::error::CoreError;
use chanvoy::posts::AuthoredPost;
use chanvoy::reads::{ReadAsk, ReadEvent, ReadFlow, ReadMode, ReadStep};
use chanvoy::requests::{ApiRequest, Body, FieldValue, Method};
use chanvoy::types::{Identity, Message, ResolutionSource, ResolvedChannel};
use chanvoy::writes::{
    PostPlace, PostWrite, WriteAsk, WriteEvent, WriteFlow, WriteOutcome, WriteStep,
};

fn resolved() -> ResolvedChannel {
    ResolvedChannel {
        channel_id: "ch-1".to_string(),
        channel_name: "ops".to_string(),
        team_id: "team-1".to_string(),
        team_name: "org".to_string(),
        resolution_source: ResolutionSource::Primary,
    }
}

fn me() -> Identity {
    Identity {
        id: "u-me".to_string(),
        username: "bot".to_string(),
        is_bot: true,
        nickname: None,
        email: None,
    }
}

fn api(status: u16) -> CoreError {
    CoreError::Api {
        status,
        message: "no".to_string(),
    }
}

fn place(channel_id: &str, is_pinned: bool) -> PostPlace {
    PostPlace {
        channel_id: channel_id.to_string(),
        is_pinned,
    }
}

fn write_asks(step: WriteStep) -> (WriteFlow, WriteAsk) {
    match step {
        WriteStep::Ask(flow, ask) => (flow, ask),
        WriteStep::Done(result) => panic!("ended with {result:?}"),
    }
}

fn write_ends(step: WriteStep) -> Result<WriteOutcome, CoreError> {
    match step {
        WriteStep::Done(result) => result,
        WriteStep::Ask(_, ask) => panic!("asks {ask:?}"),
    }
}

fn checking(write: PostWrite) -> WriteFlow {
    let (flow, ask) = write_asks(WriteFlow::begin("p".to_string(), write));
    assert!(matches!(ask, WriteAsk::Resolve));
    let (flow, ask) = write_asks(flow.answer(WriteEvent::Resolved(Ok(resolved()))));
    match ask {
        WriteAsk::Fetch(request) => assert_eq!(request.path, "/posts/p"),
        other => panic!("asks {other:?}"),
    }
    flow
}

fn sent(ask: WriteAsk) -> ApiRequest {
    match ask {
        WriteAsk::Send(request) => request,
        other => panic!("asks {other:?}"),
    }
}

#[test]
fn a_reply_is_written_under_its_parent() {
    let flow = checking(PostWrite::Reply {
        message: "hi".to_string(),
    });
    let (flow, ask) = write_asks(flow.answer(WriteEvent::Found(Ok(place("ch-1", true)))));
    let request = sent(ask);
    assert_eq!(request.path, "/posts");
    match &request.body {
        Body::Record(fields) => {
            assert_eq!(fields[0].value, FieldValue::Text("ch-1".to_string()));
            assert_eq!(fields[1].value, FieldValue::Text("p".to_string()));
            assert_eq!(fields[2].value, FieldValue::Text("hi".to_string()));
        }
        other => panic!("sends {other:?}"),
    }
    match write_ends(flow.answer(WriteEvent::Written(Ok("new".to_string())))).unwrap() {
        WriteOutcome::Replied(receipt) => {
            assert_eq!(receipt.id, "new");
            assert_eq!(receipt.parent_id, Some("p".to_string()));
        }
        other => panic!("expected a receipt, got {other:?}"),
    }
}

#[test]
fn nothing_is_written_to_a_post_elsewhere() {
    for write in [
        PostWrite::Reply {
            message: "hi".to_string(),
        },
        PostWrite::React {
            emoji: "+1".to_string(),
        },
        PostWrite::Unreact {
            emoji: "+1".to_string(),
        },
        PostWrite::Pin,
        PostWrite::Unpin,
    ] {
        let flow = checking(write);
        let err =
            write_ends(flow.answer(WriteEvent::Found(Ok(place("other", false))))).unwrap_err();
        assert_eq!(err.message(), "anchor post p is not in channel ops");
    }
    let flow = checking(PostWrite::Pin);
    let err = write_ends(flow.answer(WriteEvent::Found(Err(api(404))))).unwrap_err();
    assert_eq!(err.message(), "anchor post p not found");
    let (flow, _) = write_asks(WriteFlow::begin("p".to_string(), PostWrite::Pin));
    let err = write_ends(flow.answer(WriteEvent::Resolved(Err(api(500))))).unwrap_err();
    assert!(matches!(err, CoreError::Api { status: 500, .. }));
}

#[test]
fn reactions_are_those_of_the_bot() {
    let flow = checking(PostWrite::React {
        emoji: ":+1:".to_string(),
    });
    let (flow, ask) = write_asks(flow.answer(WriteEvent::Found(Ok(place("ch-1", false)))));
    assert!(matches!(ask, WriteAsk::WhoAmI));
    let (flow, ask) = write_asks(flow.answer(WriteEvent::Me(Ok(me()))));
    let request = sent(ask);
    assert_eq!(request.path, "/reactions");
    match &request.body {
        Body::Record(fields) => {
            assert_eq!(fields[0].value, FieldValue::Text("u-me".to_string()));
            assert_eq!(fields[2].value, FieldValue::Text("+1".to_string()));
        }
        other => panic!("sends {other:?}"),
    }
    match write_ends(flow.answer(WriteEvent::Written(Ok(String::new())))).unwrap() {
        WriteOutcome::Reaction(done) => {
            assert_eq!(done.emoji, "+1");
            assert_eq!(done.team, "org");
        }
        other => panic!("expected a reaction, got {other:?}"),
    }
    let flow = checking(PostWrite::Unreact {
        emoji: "+1".to_string(),
    });
    let (flow, _) = write_asks(flow.answer(WriteEvent::Found(Ok(place("ch-1", false)))));
    let (flow, ask) = write_asks(flow.answer(WriteEvent::Me(Ok(me()))));
    let request = sent(ask);
    assert_eq!(request.method, Method::Delete);
    assert_eq!(request.path, "/users/u-me/posts/p/reactions/+1");
    assert!(write_ends(flow.answer(WriteEvent::Written(Err(api(404))))).is_ok());
}

#[test]
fn a_pin_tells_what_was_before() {
    let flow = checking(PostWrite::Unpin);
    let (flow, ask) = write_asks(flow.answer(WriteEvent::Found(Ok(place("ch-1", false)))));
    assert_eq!(sent(ask).path, "/posts/p/unpin");
    match write_ends(flow.answer(WriteEvent::Written(Ok(String::new())))).unwrap() {
        WriteOutcome::Unpinned(done) => assert!(done.was_already_unpinned),
        other => panic!("expected an unpin, got {other:?}"),
    }
    let step = WriteFlow::by_id("p".to_string(), PostWrite::Pin, resolved(), true);
    let (flow, ask) = write_asks(step);
    assert_eq!(sent(ask).path, "/posts/p/pin");
    match write_ends(flow.answer(WriteEvent::Written(Ok(String::new())))).unwrap() {
        WriteOutcome::Pinned(done) => assert!(done.was_already_pinned),
        other => panic!("expected a pin, got {other:?}"),
    }
}

#[test]
fn a_refused_pin_names_the_bot() {
    for (answer, shown) in [(Ok(me()), "bot \"bot\""), (Err(api(500)), "bot \"\"")] {
        let step = WriteFlow::by_id("p".to_string(), PostWrite::Pin, resolved(), false);
        let (flow, _) = write_asks(step);
        let (flow, ask) = write_asks(flow.answer(WriteEvent::Written(Err(api(403)))));
        assert!(matches!(ask, WriteAsk::WhoAmI));
        let err = write_ends(flow.answer(WriteEvent::Me(answer))).unwrap_err();
        assert!(err.message().starts_with(shown));
        assert!(err.message().contains("required to pin posts"));
    }
    let step = WriteFlow::by_id("p".to_string(), PostWrite::Pin, resolved(), false);
    let (flow, _) = write_asks(step);
    let err = write_ends(flow.answer(WriteEvent::Written(Err(api(500))))).unwrap_err();
    assert!(matches!(err, CoreError::Api { status: 500, .. }));
}

fn read_asks(step: ReadStep) -> (ReadFlow, ReadAsk) {
    match step {
        ReadStep::Ask(flow, ask) => (flow, ask),
        ReadStep::Done(result) => panic!("ended with {result:?}"),
    }
}

fn read_ends(step: ReadStep) -> Result<Vec<Message>, CoreError> {
    match step {
        ReadStep::Done(result) => result,
        ReadStep::Ask(_, ask) => panic!("asks {ask:?}"),
    }
}

fn message(id: &str, create_at: i64) -> Message {
    Message {
        id: id.to_string(),
        user_id: "u".to_string(),
        username: "alice".to_string(),
        message: "hi".to_string(),
        create_at,
        root_id: id.to_string(),
    }
}

fn page_path(ask: ReadAsk) -> String {
    match ask {
        ReadAsk::Page(request) => request.path,
        other => panic!("asks {other:?}"),
    }
}

#[test]
fn one_page_is_read_where_one_is_enough() {
    for (mode, path) in [
        (ReadMode::Latest(7), "/channels/ch-1/posts?per_page=7"),
        (ReadMode::Pinned, "/channels/ch-1/pinned"),
    ] {
        let (flow, ask) = read_asks(ReadFlow::begin("ops".to_string(), mode));
        assert!(matches!(ask, ReadAsk::Resolve));
        let (flow, ask) = read_asks(flow.answer(ReadEvent::Resolved(Ok(resolved()))));
        assert_eq!(page_path(ask), path);
        let page = vec![message("a", 1), message("b", 2)];
        let read = read_ends(flow.answer(ReadEvent::Page(Ok(page.clone())))).unwrap();
        assert_eq!(read, page);
    }
}

#[test]
fn a_span_of_time_ends_when_the_channel_is_known() {
    for (mode, path) in [
        (
            ReadMode::SinceMinutes(2),
            "/channels/ch-1/posts?since=880000&per_page=30",
        ),
        (
            ReadMode::SinceSeconds(30),
            "/channels/ch-1/posts?since=970000&per_page=30",
        ),
    ] {
        let (flow, ask) = read_asks(ReadFlow::begin("ops".to_string(), mode));
        assert!(matches!(ask, ReadAsk::Resolve));
        let (flow, ask) = read_asks(flow.answer(ReadEvent::Resolved(Ok(resolved()))));
        assert!(matches!(ask, ReadAsk::Now));
        let (flow, ask) = read_asks(flow.answer(ReadEvent::Now(1_000_000)));
        assert_eq!(page_path(ask), path);
        let page = vec![message("a", 1)];
        let read = read_ends(flow.answer(ReadEvent::Page(Ok(page.clone())))).unwrap();
        assert_eq!(read, page);
    }
}

#[test]
fn what_follows_a_post_is_read_page_by_page() {
    let begun = ReadFlow::begin("#ops".to_string(), ReadMode::After("p".to_string()));
    let (flow, _) = read_asks(begun);
    let (flow, ask) = read_asks(flow.answer(ReadEvent::Resolved(Ok(resolved()))));
    match ask {
        ReadAsk::Fetch(request) => assert_eq!(request.path, "/posts/p"),
        other => panic!("asks {other:?}"),
    }
    let (flow, ask) = read_asks(flow.answer(ReadEvent::Found(Ok("ch-1".to_string()))));
    assert_eq!(
        page_path(ask),
        "/channels/ch-1/posts?after=p&page=0&per_page=200"
    );
    let full: Vec<Message> = (0..200).map(|i| message(&format!("m{i:03}"), i)).collect();
    let (flow, ask) = read_asks(flow.answer(ReadEvent::Page(Ok(full))));
    assert_eq!(
        page_path(ask),
        "/channels/ch-1/posts?after=p&page=1&per_page=200"
    );
    let read = read_ends(flow.answer(ReadEvent::Page(Ok(vec![message("z", -1)])))).unwrap();
    assert_eq!(read.len(), 201);
    assert_eq!(read[0].id, "z");
}

#[test]
fn a_post_elsewhere_is_no_anchor() {
    let begun = ReadFlow::begin("#ops".to_string(), ReadMode::After("p".to_string()));
    let (flow, _) = read_asks(begun);
    let (flow, _) = read_asks(flow.answer(ReadEvent::Resolved(Ok(resolved()))));
    let err = read_ends(flow.answer(ReadEvent::Found(Ok("other".to_string())))).unwrap_err();
    assert_eq!(err.message(), "anchor post p is not in channel #ops");
}

#[test]
fn what_follows_the_latest_own_post_is_read() {
    let begun = ReadFlow::begin("duplicates".to_string(), ReadMode::SinceLastMine);
    let (flow, ask) = read_asks(begun);
    assert!(matches!(ask, ReadAsk::WhoAmI));
    let (flow, ask) = read_asks(flow.answer(ReadEvent::Me(Ok(me()))));
    assert!(matches!(ask, ReadAsk::Resolve));
    let (flow, ask) = read_asks(flow.answer(ReadEvent::Resolved(Ok(resolved()))));
    match ask {
        ReadAsk::Search(request) => {
            assert_eq!(request.path, "/teams/team-1/posts/search");
            match &request.body {
                Body::Record(fields) => assert_eq!(
                    fields[0].value,
                    FieldValue::Text("from:bot in:ops".to_string())
                ),
                other => panic!("sends {other:?}"),
            }
        }
        other => panic!("asks {other:?}"),
    }
    let authored = vec![
        AuthoredPost {
            id: "old".to_string(),
            create_at: 1,
        },
        AuthoredPost {
            id: "post-ops-1".to_string(),
            create_at: 2,
        },
    ];
    let (flow, ask) = read_asks(flow.answer(ReadEvent::Authored(Ok(authored))));
    assert!(matches!(ask, ReadAsk::Resolve));
    let (_, ask) = read_asks(flow.answer(ReadEvent::Resolved(Ok(resolved()))));
    match ask {
        ReadAsk::Fetch(request) => assert_eq!(request.path, "/posts/post-ops-1"),
        other => panic!("asks {other:?}"),
    }
}

#[test]
fn who_wrote_nothing_has_no_anchor() {
    let begun = ReadFlow::begin("ops".to_string(), ReadMode::SinceLastMine);
    let (flow, _) = read_asks(begun);
    let (flow, _) = read_asks(flow.answer(ReadEvent::Me(Ok(me()))));
    let (flow, _) = read_asks(flow.answer(ReadEvent::Resolved(Ok(resolved()))));
    let err = read_ends(flow.answer(ReadEvent::Authored(Ok(Vec::new())))).unwrap_err();
    assert_eq!(
        err.message(),
        "no prior authored post found in channel ops for bot"
    );
}

#[test]
fn an_error_ends_a_read() {
    let (flow, _) = read_asks(ReadFlow::begin("ops".to_string(), ReadMode::Pinned));
    let (flow, _) = read_asks(flow.answer(ReadEvent::Resolved(Ok(resolved()))));
    let err = read_ends(flow.answer(ReadEvent::Page(Err(api(503))))).unwrap_err();
    assert!(matches!(err, CoreError::Api { status: 503, .. }));
}
