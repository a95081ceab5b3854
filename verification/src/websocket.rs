//! The push connection: signing in, what a frame means, which posts are passed
//! on, and when to try again.
use vstd::prelude::*;
use vstd::string::*;

use crate::collections::TextSet;
use crate::error::CoreError;
use crate::health::{RECOVERY_GRACE_MS, WsState};
use crate::json::{into_integer, into_natural, into_text, integer_or_zero, json_at, json_quote,
    json_quoted, natural_or_zero, read_json_at, text_or_empty, JsonAt, JsonValueAt};
use crate::mentions::{mentions, message_mentions_username};
use crate::posts::{normalize_root_id, thread_root};
use crate::text::{concat2, concat3, decimal_text, drop_trailing, eq_ignore_ascii_case, lowered,
    replace_all, replaced, split_at_first, str_eq, texts, trim_end_char, u64_text};
use crate::types::{ConnectionStateChangedPayload, DaemonEvent, DaemonEventKind,
    DaemonEventPayloadInner, GapPayload, InboundEventPayload, Message, Provider,
    WsConnectionState};

verus! {

/// How many posts are remembered before half of that is forgotten.
pub const SEEN_POSTS_MAX: usize = 10_000;

/// How many posts are forgotten at once.
pub const SEEN_POSTS_DROP: usize = 5_000;

/// How far back missed messages are fetched, in milliseconds.
pub const CATCHUP_WINDOW_MS: i64 = 300_000;

// ---------------------------------------------------------------------------
// Addresses and texts
// ---------------------------------------------------------------------------

/// The address of the server without trailing slashes.
pub fn base_url(server_url: &str) -> (r: String)
    ensures
        r@ == drop_trailing(server_url@, '/'),
{
    trim_end_char(server_url, '/').to_owned()
}

/// The address of an endpoint.
pub fn request_url(base: &str, endpoint: &str) -> (r: String)
    ensures
        r@ == base@ + "/api/v4"@ + endpoint@,
{
    concat3(base, "/api/v4", endpoint)
}

/// The address of the push connection.
pub open spec fn push_address(server_url: Seq<char>) -> Seq<char> {
    replaced(
        replaced(drop_trailing(server_url, '/'), "https://"@, "wss://"@),
        "http://"@,
        "ws://"@,
    ) + "/api/v4/websocket"@
}

pub fn ws_url(server_url: &str) -> (r: String)
    ensures
        r@ == push_address(server_url@),
{
    proof {
        reveal_strlit("https://");
        reveal_strlit("http://");
    }
    let secure = replace_all(trim_end_char(server_url, '/'), "https://", "wss://");
    let plain = replace_all(secure.as_str(), "http://", "ws://");
    concat2(plain.as_str(), "/api/v4/websocket")
}

/// The frame that signs in.
pub fn auth_frame(token: &str) -> (r: String)
    ensures
        r@ == "{\"action\":\"authentication_challenge\",\"data\":{\"token\":"@ + json_quoted(token@)
            + "},\"seq\":1}"@,
{
    concat3(
        "{\"action\":\"authentication_challenge\",\"data\":{\"token\":",
        json_quote(token).as_str(),
        "},\"seq\":1}",
    )
}

/// The frame that keeps the connection alive.
pub fn activity_frame() -> (r: String)
    ensures
        r@ == "{\"action\":\"user_activity\",\"seq\":0}"@,
{
    "{\"action\":\"user_activity\",\"seq\":0}".to_owned()
}

// ---------------------------------------------------------------------------
// Signing in
// ---------------------------------------------------------------------------

/// The frame accepts the token.
pub open spec fn accepts(event: JsonValueAt, status: JsonValueAt) -> bool {
    text_or_empty(event) == "hello"@ && text_or_empty(status) == "OK"@
}

pub fn frame_accepts(event: JsonAt, status: JsonAt) -> (r: bool)
    ensures
        r == accepts(event@, status@),
{
    str_eq(into_text(event).as_str(), "hello") && str_eq(into_text(status).as_str(), "OK")
}

/// Whether a frame accepts the token.
pub fn is_auth_success(text: &str) -> (r: bool)
    ensures
        r == accepts(json_at(text@, "/event"@), json_at(text@, "/data/status"@)),
{
    frame_accepts(read_json_at(text, "/event"), read_json_at(text, "/data/status"))
}

/// The frame refuses the token.
pub open spec fn refuses(seq: JsonValueAt, error: JsonValueAt, status: JsonValueAt) -> bool {
    ||| natural_or_zero(seq) == 0 && !(error is Absent)
    ||| text_or_empty(status) == "FAIL"@
    ||| text_or_empty(status) == "INVALID_TOKEN"@
}

pub fn frame_refuses(seq: JsonAt, error: JsonAt, status: JsonAt) -> (r: bool)
    ensures
        r == refuses(seq@, error@, status@),
{
    let has_error = !matches!(error, JsonAt::Absent);
    if into_natural(seq) == 0 && has_error {
        return true;
    }
    let status = into_text(status);
    str_eq(status.as_str(), "FAIL") || str_eq(status.as_str(), "INVALID_TOKEN")
}

/// Whether a frame refuses the token.
pub fn is_auth_error(text: &str) -> (r: bool)
    ensures
        r == refuses(
            json_at(text@, "/seq"@),
            json_at(text@, "/error"@),
            json_at(text@, "/data/status"@),
        ),
{
    frame_refuses(
        read_json_at(text, "/seq"),
        read_json_at(text, "/error"),
        read_json_at(text, "/data/status"),
    )
}

/// One connection, from the first frame on.
#[derive(Debug, Clone, Copy, PartialEq, Eq, Structural)]
pub struct Session {
    pub authenticated: bool,
}

/// What a text frame means for the connection.
#[derive(Debug, Clone, PartialEq, Eq)]
pub enum FrameAction {
    /// The token was accepted: the connection is healthy, what was missed is
    /// fetched.
    Authenticated,
    /// The token was refused: the connection ends with this error.
    Rejected(String),
    /// The frame is passed on.
    Deliver,
    /// Nothing.
    Ignore,
}

/// How long signing in may take, in milliseconds.
pub const SIGN_IN_LIMIT_MS: u64 = 10_000;

/// How long a connection waits for its next input, in milliseconds.
pub const IDLE_WAIT_MS: u64 = 3_600_000;

/// What a connection brings.
#[derive(Debug, Clone, PartialEq, Eq)]
pub enum SessionInput {
    Text(String),
    Ping,
    /// It was closed.
    Closed,
    /// It broke.
    Failed(String),
    /// Some other frame.
    Other,
    /// It is time for a sign of life.
    Heartbeat,
    /// Nothing came in time.
    TimedOut,
}

/// What follows.
#[derive(Debug)]
pub enum SessionAction {
    /// The token was accepted: the connection is healthy, what was missed is
    /// fetched.
    Authenticated,
    /// Pass the frame on.
    Deliver(String),
    /// Answer a ping.
    Pong,
    /// Send a frame.
    Send(String),
    /// The connection has ended.
    End,
    /// The connection ends with this error.
    Fail(CoreError),
    Nothing,
}

/// The connection ends with this diagnostic.
pub open spec fn fails_with(r: SessionAction, why: Seq<char>) -> bool {
    r matches SessionAction::Fail(CoreError::Io(w)) && w@ == why
}

/// `r` is what follows an input, before which the token was accepted or not, and after
/// which it is.
pub open spec fn session_step(before: bool, input: SessionInput, r: SessionAction, after: bool)
    -> bool {
    match input {
        SessionInput::Text(text) => {
            let accepted = accepts(json_at(text@, "/event"@), json_at(text@, "/data/status"@));
            let refused = refuses(
                json_at(text@, "/seq"@),
                json_at(text@, "/error"@),
                json_at(text@, "/data/status"@),
            );
            &&& after == (before || accepted)
            &&& if before {
                r == SessionAction::Deliver(text)
            } else if accepted {
                r is Authenticated
            } else if refused {
                fails_with(r, "websocket auth rejected: "@ + text@)
            } else {
                r is Nothing
            }
        },
        SessionInput::Ping => r is Pong && after == before,
        SessionInput::Closed => r is End && after == before,
        SessionInput::Failed(why) => fails_with(r, why@) && after == before,
        SessionInput::Other => r is Nothing && after == before,
        SessionInput::Heartbeat => after == before && if before {
            r matches SessionAction::Send(frame) && frame@
                == "{\"action\":\"user_activity\",\"seq\":0}"@
        } else {
            r is Nothing
        },
        SessionInput::TimedOut => after == before && if before {
            r is Nothing
        } else {
            fails_with(r, "websocket auth timed out waiting for server ack"@)
        },
    }
}

impl Session {
    pub fn new() -> (r: Self)
        ensures
            !r.authenticated,
    {
        Session { authenticated: false }
    }

    /// Goes on with a frame of which it is known whether it accepts or refuses the
    /// token. Before the token is accepted nothing is passed on.
    pub fn frame(&mut self, text: &str, accepted: bool, refused: bool) -> (r: FrameAction)
        ensures
            old(self).authenticated ==> r is Deliver && final(self).authenticated,
            !old(self).authenticated && accepted ==> r is Authenticated
                && final(self).authenticated,
            !old(self).authenticated && !accepted && refused ==> (r matches FrameAction::Rejected(
                why,
            ) && why@ == "websocket auth rejected: "@ + text@) && !final(self).authenticated,
            !old(self).authenticated && !accepted && !refused ==> r is Ignore
                && !final(self).authenticated,
    {
        if self.authenticated {
            return FrameAction::Deliver;
        }
        if accepted {
            self.authenticated = true;
            return FrameAction::Authenticated;
        }
        if refused {
            return FrameAction::Rejected(concat2("websocket auth rejected: ", text));
        }
        FrameAction::Ignore
    }

    /// Goes on with a text frame.
    pub fn on_text(&mut self, text: &str) -> (r: FrameAction)
        ensures
            ({
                let accepted = accepts(
                    json_at(text@, "/event"@),
                    json_at(text@, "/data/status"@),
                );
                let refused = refuses(
                    json_at(text@, "/seq"@),
                    json_at(text@, "/error"@),
                    json_at(text@, "/data/status"@),
                );
                &&& r is Deliver <==> old(self).authenticated
                &&& r is Authenticated <==> !old(self).authenticated && accepted
                &&& r is Rejected <==> !old(self).authenticated && !accepted && refused
                &&& r matches FrameAction::Rejected(why) ==> why@ == "websocket auth rejected: "@
                    + text@
                &&& final(self).authenticated == (old(self).authenticated || accepted)
            }),
    {
        if self.authenticated {
            return self.frame(text, false, false);
        }
        let accepted = is_auth_success(text);
        let refused = is_auth_error(text);
        self.frame(text, accepted, refused)
    }

    /// How long to wait for the next input, in milliseconds, `elapsed_ms` after the
    /// connection was made.
    pub fn patience_ms(&self, elapsed_ms: u64) -> (r: u64)
        ensures
            r == (if self.authenticated {
                IDLE_WAIT_MS as int
            } else if elapsed_ms < SIGN_IN_LIMIT_MS {
                SIGN_IN_LIMIT_MS - elapsed_ms
            } else {
                0
            }),
    {
        if self.authenticated {
            IDLE_WAIT_MS
        } else if elapsed_ms < SIGN_IN_LIMIT_MS {
            SIGN_IN_LIMIT_MS - elapsed_ms
        } else {
            0
        }
    }

    /// Goes on with what the connection brought.
    pub fn connect_and_listen(&mut self, input: SessionInput) -> (r: SessionAction)
        ensures
            session_step(old(self).authenticated, input, r, final(self).authenticated),
    {
        match input {
            SessionInput::Text(text) => match self.on_text(text.as_str()) {
                FrameAction::Authenticated => SessionAction::Authenticated,
                FrameAction::Rejected(why) => SessionAction::Fail(CoreError::Io(why)),
                FrameAction::Deliver => SessionAction::Deliver(text),
                FrameAction::Ignore => SessionAction::Nothing,
            },
            SessionInput::Ping => SessionAction::Pong,
            SessionInput::Closed => SessionAction::End,
            SessionInput::Failed(why) => SessionAction::Fail(CoreError::Io(why)),
            SessionInput::Heartbeat => {
                if self.authenticated {
                    SessionAction::Send(activity_frame())
                } else {
                    SessionAction::Nothing
                }
            },
            SessionInput::TimedOut => {
                if self.authenticated {
                    SessionAction::Nothing
                } else {
                    SessionAction::Fail(
                        CoreError::Io("websocket auth timed out waiting for server ack".to_owned()),
                    )
                }
            },
            SessionInput::Other => SessionAction::Nothing,
        }
    }
}

/// Nothing is delivered and no sign of life is sent before the token was accepted.
pub proof fn silent_until_accepted(input: SessionInput, r: SessionAction, after: bool)
    requires
        session_step(false, input, r, after),
    ensures
        !(r is Deliver) && !(r is Send),
        after ==> r is Authenticated,
{
}

/// A token that was accepted stays so, and the connection then ends only where the
/// other side ends it.
pub proof fn accepted_for_good(input: SessionInput, r: SessionAction, after: bool)
    requires
        session_step(true, input, r, after),
    ensures
        after,
        r is End || r is Fail ==> input is Closed || input is Failed,
{
}

// ---------------------------------------------------------------------------
// Frames
// ---------------------------------------------------------------------------

/// What a frame is about.
#[derive(Debug, Clone, PartialEq, Eq)]
pub enum FrameKind {
    /// A post, with its JSON where the frame holds it.
    Post(Option<String>),
    /// A sign of life.
    Alive,
    /// Nothing that matters.
    Other,
}

/// `k` is what a frame with this event and this post is about.
pub open spec fn about(event: JsonValueAt, post: JsonValueAt, k: FrameKind) -> bool {
    let name = text_or_empty(event);
    if name == "posted"@ || name == "post_edited"@ {
        k matches FrameKind::Post(body) && match post {
            JsonValueAt::Text(s) => body matches Some(b) && b@ == s,
            _ => body is None,
        }
    } else if name == "status_change"@ || name == "hello"@ {
        k is Alive
    } else {
        k is Other
    }
}

pub fn frame_kind(event: JsonAt, post: JsonAt) -> (r: FrameKind)
    ensures
        about(event@, post@, r),
{
    let name = into_text(event);
    if str_eq(name.as_str(), "posted") || str_eq(name.as_str(), "post_edited") {
        match post {
            JsonAt::Text(body) => FrameKind::Post(Some(body)),
            _ => FrameKind::Post(None),
        }
    } else if str_eq(name.as_str(), "status_change") || str_eq(name.as_str(), "hello") {
        FrameKind::Alive
    } else {
        FrameKind::Other
    }
}

/// What a text frame is about.
pub fn handle_ws_message(text: &str) -> (r: FrameKind)
    ensures
        about(json_at(text@, "/event"@), json_at(text@, "/data/post"@), r),
{
    frame_kind(read_json_at(text, "/event"), read_json_at(text, "/data/post"))
}

/// A post that was pushed.
#[derive(Debug, Clone, PartialEq, Eq)]
pub struct PushedPost {
    pub id: String,
    pub channel_id: String,
    pub user_id: String,
    pub message: String,
    pub create_at: i64,
    /// The thread as the provider names it.
    pub root_id: String,
}

/// `p` is the post that a JSON text holds; what is missing is empty.
pub open spec fn pushed(body: Seq<char>, p: PushedPost) -> bool {
    &&& p.id@ == text_or_empty(json_at(body, "/id"@))
    &&& p.channel_id@ == text_or_empty(json_at(body, "/channel_id"@))
    &&& p.user_id@ == text_or_empty(json_at(body, "/user_id"@))
    &&& p.message@ == text_or_empty(json_at(body, "/message"@))
    &&& p.create_at == integer_or_zero(json_at(body, "/create_at"@))
    &&& p.root_id@ == text_or_empty(json_at(body, "/root_id"@))
}

/// The post that a JSON text holds; nothing where the text is no JSON.
pub fn parse_pushed_post(body: &str) -> (r: Option<PushedPost>)
    ensures
        match r {
            Some(p) => !(json_at(body@, ""@) is Absent) && pushed(body@, p),
            None => json_at(body@, ""@) is Absent,
        },
{
    if matches!(read_json_at(body, ""), JsonAt::Absent) {
        return None;
    }
    Some(
        PushedPost {
            id: into_text(read_json_at(body, "/id")),
            channel_id: into_text(read_json_at(body, "/channel_id")),
            user_id: into_text(read_json_at(body, "/user_id")),
            message: into_text(read_json_at(body, "/message")),
            create_at: into_integer(read_json_at(body, "/create_at")),
            root_id: into_text(read_json_at(body, "/root_id")),
        },
    )
}

// ---------------------------------------------------------------------------
// Which posts are passed on
// ---------------------------------------------------------------------------

/// The posts that are remembered, with some forgotten where there are too many.
pub open spec fn pruned(before: TextSet, after: TextSet) -> bool {
    if before.listed().len() > SEEN_POSTS_MAX {
        after.listed() == before.listed().skip(SEEN_POSTS_DROP as int)
    } else {
        after == before
    }
}

/// `after` remembers `all`, with some forgotten where there are too many.
pub open spec fn remembers(all: Set<Seq<char>>, after: TextSet) -> bool {
    exists|full: TextSet| full@ == all && #[trigger] pruned(full, after)
}

/// Forgets posts where too many are remembered.
pub fn prune_seen(seen: &mut TextSet)
    ensures
        pruned(*old(seen), *final(seen)),
        final(seen)@.subset_of(old(seen)@),
        old(seen)@.len() <= SEEN_POSTS_MAX ==> final(seen)@ == old(seen)@,
        old(seen)@.len() <= SEEN_POSTS_MAX + 1 ==> final(seen)@.len() <= SEEN_POSTS_MAX,
{
    let n: usize = seen.len();
    if n > SEEN_POSTS_MAX {
        seen.remove_first(SEEN_POSTS_DROP);
    }
}

/// A post of somebody else, with an id and a channel.
pub open spec fn foreign(p: PushedPost, my_user_id: Seq<char>) -> bool {
    p.user_id@ != my_user_id && p.id@.len() > 0 && p.channel_id@.len() > 0
}

fn is_foreign(p: &PushedPost, my_user_id: &str) -> (r: bool)
    ensures
        r == foreign(*p, my_user_id@),
{
    !str_eq(p.user_id.as_str(), my_user_id) && !p.id.as_str().is_empty()
        && !p.channel_id.as_str().is_empty()
}

/// A post that is passed on: it is foreign and was not seen before.
pub open spec fn admissible(p: PushedPost, my_user_id: Seq<char>, seen: Set<Seq<char>>) -> bool {
    foreign(p, my_user_id) && !seen.contains(p.id@)
}

/// Whether a post is passed on. It is then remembered.
pub fn admit_post(p: &PushedPost, my_user_id: &str, seen: &mut TextSet) -> (r: bool)
    ensures
        r == admissible(*p, my_user_id@, old(seen)@),
        !foreign(*p, my_user_id@) ==> *final(seen) == *old(seen),
        r ==> remembers(old(seen)@.insert(p.id@), *final(seen)),
        r ==> final(seen)@.subset_of(old(seen)@.insert(p.id@)),
        r && old(seen)@.len() < SEEN_POSTS_MAX ==> final(seen)@ == old(seen)@.insert(p.id@),
        !r ==> final(seen)@ == old(seen)@,
        old(seen)@.len() <= SEEN_POSTS_MAX ==> final(seen)@.len() <= SEEN_POSTS_MAX,
{
    if !is_foreign(p, my_user_id) {
        return false;
    }
    let ghost before = seen@;
    let _ = seen.len();
    if !seen.insert(p.id.clone()) {
        proof {
            assert(seen@ =~= before);
        }
        return false;
    }
    let _ = seen.len();
    proof {
        assert(seen@ == before.insert(p.id@));
        assert(seen@.len() == before.len() + 1);
    }
    let ghost full = *seen;
    prune_seen(seen);
    proof {
        assert(pruned(full, *seen));
    }
    true
}

/// A text holds a post that is not admitted.
pub open spec fn inadmissible_body(
    body: Seq<char>,
    my_user_id: Seq<char>,
    seen: Set<Seq<char>>,
) -> bool {
    exists|p: PushedPost| #[trigger] pushed(body, p) && !admissible(p, my_user_id, seen)
}

/// The post of a frame that is passed on: what the frame holds is a post that is foreign
/// and was not seen before. It is then remembered.
pub fn receive_post(body: &str, my_user_id: &str, seen: &mut TextSet) -> (r: Option<PushedPost>)
    ensures
        match r {
            Some(p) => !(json_at(body@, ""@) is Absent) && pushed(body@, p) && admissible(
                p,
                my_user_id@,
                old(seen)@,
            ) && remembers(old(seen)@.insert(p.id@), *final(seen)),
            None => final(seen)@ == old(seen)@ && (json_at(body@, ""@) is Absent || inadmissible_body(
                body@,
                my_user_id@,
                old(seen)@,
            )),
        },
        r matches Some(p) ==> old(seen)@.len() < SEEN_POSTS_MAX ==> final(seen)@
            == old(seen)@.insert(p.id@),
        old(seen)@.len() <= SEEN_POSTS_MAX ==> final(seen)@.len() <= SEEN_POSTS_MAX,
{
    match parse_pushed_post(body) {
        Some(post) => if admit_post(&post, my_user_id, seen) {
            Some(post)
        } else {
            None
        },
        None => None,
    }
}

/// A monitored channel, whatever the case of its letters.
pub open spec fn monitored(channels: Seq<Seq<char>>, name: Seq<char>) -> bool {
    exists|i: int| 0 <= i < channels.len() && lowered(#[trigger] channels[i]) == lowered(name)
}

fn is_monitored(channels: &Vec<String>, name: &str) -> (r: bool)
    ensures
        r == monitored(texts(channels@), name@),
{
    let mut i: usize = 0;
    while i < channels.len()
        invariant
            i <= channels@.len(),
            forall|j: int| 0 <= j < i ==> lowered(#[trigger] texts(channels@)[j]) != lowered(name@),
        decreases channels.len() - i,
    {
        if eq_ignore_ascii_case(channels[i].as_str(), name) {
            proof {
                assert(lowered(texts(channels@)[i as int]) == lowered(name@));
            }
            return true;
        }
        i += 1;
    }
    false
}

/// The event of a message.
pub open spec fn inbound(
    e: DaemonEvent,
    kind: DaemonEventKind,
    profile: Seq<char>,
    channel_name: Seq<char>,
    sender_username: Seq<char>,
    received_at: i64,
    mentioned: bool,
) -> bool {
    &&& e.seq == 0
    &&& e.kind == kind
    &&& e.payload matches DaemonEventPayloadInner::Inbound(p) && {
        &&& p.profile@ == profile
        &&& p.channel_name@ == channel_name
        &&& p.sender_username@ == sender_username
        &&& p.received_at == received_at
        &&& p.mentioned == mentioned
    }
}

/// The event carries the post.
pub open spec fn carries(e: DaemonEvent, post: PushedPost) -> bool {
    e.payload matches DaemonEventPayloadInner::Inbound(p) && {
        &&& p.channel_id@ == post.channel_id@
        &&& p.post_id@ == post.id@
        &&& p.root_id@ == thread_root(post.root_id@, post.id@)
        &&& p.sender_id@ == post.user_id@
        &&& p.message@ == post.message@
        &&& p.create_at == post.create_at
    }
}

/// What a bot listens to.
#[derive(Debug, Clone, PartialEq, Eq)]
pub struct Listener {
    pub profile_name: String,
    pub bot_username: String,
    pub my_user_id: String,
    pub monitored_channels: Vec<String>,
}

/// The event of a post of somebody else: a message in a monitored channel; in another
/// channel only one that mentions the bot. A post of the bot itself, or one without an
/// id or a channel, has none.
pub fn handle_post_event(
    listener: &Listener,
    post: PushedPost,
    channel_name: String,
    sender_username: String,
    received_at: i64,
) -> (r: Option<DaemonEvent>)
    ensures
        ({
            let named = mentions(post.message@, listener.bot_username@);
            let here = monitored(texts(listener.monitored_channels@), channel_name@);
            match r {
                Some(e) => foreign(post, listener.my_user_id@) && (here || named) && carries(e, post) && inbound(
                    e,
                    if here {
                        DaemonEventKind::InboundMessage
                    } else {
                        DaemonEventKind::InboundMention
                    },
                    listener.profile_name@,
                    channel_name@,
                    sender_username@,
                    received_at,
                    named,
                ),
                None => !foreign(post, listener.my_user_id@) || (!here && !named),
            }
        }),
{
    if !is_foreign(&post, listener.my_user_id.as_str()) {
        return None;
    }
    let mentioned = message_mentions_username(
        post.message.as_str(),
        listener.bot_username.as_str(),
    );
    let here = is_monitored(&listener.monitored_channels, channel_name.as_str());
    if !here && !mentioned {
        return None;
    }
    let kind = if here {
        DaemonEventKind::InboundMessage
    } else {
        DaemonEventKind::InboundMention
    };
    let root_id = normalize_root_id(post.root_id.as_str(), post.id.as_str());
    Some(
        DaemonEvent {
            seq: 0,
            kind,
            payload: DaemonEventPayloadInner::Inbound(
                InboundEventPayload {
                    profile: listener.profile_name.clone(),
                    provider: Provider::Mattermost,
                    channel_id: post.channel_id,
                    channel_name,
                    post_id: post.id,
                    root_id,
                    sender_id: post.user_id,
                    sender_username,
                    message: post.message,
                    create_at: post.create_at,
                    received_at,
                    mentioned,
                },
            ),
        },
    )
}

/// A post that was passed on is not passed on again while it is remembered, nor is
/// any other version of it.
pub proof fn no_post_twice(
    p: PushedPost,
    again: PushedPost,
    my_user_id: Seq<char>,
    before: Set<Seq<char>>,
    after: Set<Seq<char>>,
)
    requires
        admissible(p, my_user_id, before),
        after == before.insert(p.id@),
        again.id@ == p.id@,
    ensures
        !admissible(again, my_user_id, after),
{
}

// ---------------------------------------------------------------------------
// Catching up
// ---------------------------------------------------------------------------

/// The moment from which missed messages are fetched.
pub fn catchup_since(now: i64) -> (r: i64)
    requires
        now >= i64::MIN + CATCHUP_WINDOW_MS,
    ensures
        r == now - CATCHUP_WINDOW_MS,
{
    now - CATCHUP_WINDOW_MS
}

/// Whether the outage began before that moment, so that messages may be missing.
pub fn outage_exceeded(last_disconnect_at: i64, since: i64) -> (r: bool)
    ensures
        r == (0 < last_disconnect_at < since),
{
    last_disconnect_at > 0 && last_disconnect_at < since
}

/// The messages of others that were not seen before, in their order.
pub open spec fn unseen(ms: Seq<Message>, my_user_id: Seq<char>, seen: Set<Seq<char>>) -> Seq<
    Message,
>
    decreases ms.len(),
{
    if ms.len() == 0 {
        Seq::empty()
    } else {
        let front = ms.drop_last();
        let rest = unseen(front, my_user_id, seen);
        let m = ms.last();
        if m.user_id@ != my_user_id && !remembered(front, my_user_id, seen).contains(m.id@) {
            rest.push(m)
        } else {
            rest
        }
    }
}

/// What is remembered after these messages.
pub open spec fn remembered(ms: Seq<Message>, my_user_id: Seq<char>, seen: Set<Seq<char>>) -> Set<
    Seq<char>,
>
    decreases ms.len(),
{
    if ms.len() == 0 {
        seen
    } else {
        let before = remembered(ms.drop_last(), my_user_id, seen);
        if ms.last().user_id@ != my_user_id {
            before.insert(ms.last().id@)
        } else {
            before
        }
    }
}

/// What is remembered is what was seen before and what others wrote.
pub proof fn others_are_remembered(
    ms: Seq<Message>,
    my_user_id: Seq<char>,
    seen: Set<Seq<char>>,
    id: Seq<char>,
)
    ensures
        remembered(ms, my_user_id, seen).contains(id) <==> seen.contains(id) || exists|i: int|
            0 <= i < ms.len() && (#[trigger] ms[i]).user_id@ != my_user_id && ms[i].id@ == id,
    decreases ms.len(),
{
    if ms.len() > 0 {
        let front = ms.drop_last();
        others_are_remembered(front, my_user_id, seen, id);
        if exists|i: int|
            0 <= i < front.len() && (#[trigger] front[i]).user_id@ != my_user_id && front[i].id@
                == id {
            let i = choose|i: int|
                0 <= i < front.len() && (#[trigger] front[i]).user_id@ != my_user_id && front[i].id@
                    == id;
            assert(ms[i] == front[i]);
        }
        if exists|i: int|
            0 <= i < ms.len() && (#[trigger] ms[i]).user_id@ != my_user_id && ms[i].id@ == id {
            let i = choose|i: int|
                0 <= i < ms.len() && (#[trigger] ms[i]).user_id@ != my_user_id && ms[i].id@ == id;
            if i < front.len() {
                assert(front[i] == ms[i]);
            }
        }
        if ms.last().user_id@ != my_user_id && ms.last().id@ == id {
            assert(ms[ms.len() - 1].id@ == id);
        }
    }
}

/// Every message of somebody else that was not seen before is among the missed ones,
/// whatever else it says.
pub proof fn missed_messages_are_all_there(
    ms: Seq<Message>,
    my_user_id: Seq<char>,
    seen: Set<Seq<char>>,
)
    ensures
        forall|i: int|
            #![trigger ms[i]]
            0 <= i < ms.len() && ms[i].user_id@ != my_user_id && !seen.contains(ms[i].id@)
                ==> exists|j: int|
                0 <= j < unseen(ms, my_user_id, seen).len() && (#[trigger] unseen(
                    ms,
                    my_user_id,
                    seen,
                )[j]).id@ == ms[i].id@,
    decreases ms.len(),
{
    if ms.len() > 0 {
        let front = ms.drop_last();
        let rest = unseen(front, my_user_id, seen);
        let all = unseen(ms, my_user_id, seen);
        missed_messages_are_all_there(front, my_user_id, seen);
        assert forall|i: int|
            #![trigger ms[i]]
            0 <= i < ms.len() && ms[i].user_id@ != my_user_id && !seen.contains(
                ms[i].id@,
            ) implies exists|j: int| 0 <= j < all.len() && (#[trigger] all[j]).id@ == ms[i].id@ by {
            if i < front.len() {
                assert(front[i] == ms[i]);
                let j = choose|j: int| 0 <= j < rest.len() && (#[trigger] rest[j]).id@ == ms[i].id@;
                assert(all[j] == rest[j]);
            } else if remembered(front, my_user_id, seen).contains(ms[i].id@) {
                others_are_remembered(front, my_user_id, seen, ms[i].id@);
                let k = choose|k: int|
                    0 <= k < front.len() && (#[trigger] front[k]).user_id@ != my_user_id
                        && front[k].id@ == ms[i].id@;
                let j = choose|j: int|
                    0 <= j < rest.len() && (#[trigger] rest[j]).id@ == front[k].id@;
                assert(all[j] == rest[j]);
            } else {
                assert(all[all.len() - 1] == ms[i]);
            }
        }
    }
}

/// A missed message is a message of somebody else that was not seen before.
pub proof fn missed_message_came(
    ms: Seq<Message>,
    my_user_id: Seq<char>,
    seen: Set<Seq<char>>,
    j: int,
)
    requires
        0 <= j < unseen(ms, my_user_id, seen).len(),
    ensures
        unseen(ms, my_user_id, seen)[j].user_id@ != my_user_id,
        !seen.contains(unseen(ms, my_user_id, seen)[j].id@),
        exists|i: int|
            0 <= i < ms.len() && #[trigger] ms[i] == unseen(ms, my_user_id, seen)[j],
    decreases ms.len(),
{
    if ms.len() > 0 {
        let front = ms.drop_last();
        let rest = unseen(front, my_user_id, seen);
        let all = unseen(ms, my_user_id, seen);
        let last = ms.len() - 1;
        if j < rest.len() {
            missed_message_came(front, my_user_id, seen, j);
            assert(all[j] == rest[j]);
            let i = choose|i: int| 0 <= i < front.len() && #[trigger] front[i] == rest[j];
            assert(ms[i] == rest[j]);
        } else {
            others_are_remembered(front, my_user_id, seen, ms.last().id@);
            assert(ms[last] == all[j]);
        }
    }
}

/// Missed messages differ, and keep the order in which they came.
pub proof fn missed_messages_keep_their_order(
    ms: Seq<Message>,
    my_user_id: Seq<char>,
    seen: Set<Seq<char>>,
    j: int,
    k: int,
)
    requires
        0 <= j < k < unseen(ms, my_user_id, seen).len(),
    ensures
        unseen(ms, my_user_id, seen)[j].id@ != unseen(ms, my_user_id, seen)[k].id@,
        exists|i: int, l: int|
            0 <= i < l < ms.len() && #[trigger] ms[i] == unseen(ms, my_user_id, seen)[j]
                && #[trigger] ms[l] == unseen(ms, my_user_id, seen)[k],
    decreases ms.len(),
{
    if ms.len() > 0 {
        let front = ms.drop_last();
        let rest = unseen(front, my_user_id, seen);
        let all = unseen(ms, my_user_id, seen);
        let last = ms.len() - 1;
        assert(all[j] == rest[j]);
        if k < rest.len() {
            missed_messages_keep_their_order(front, my_user_id, seen, j, k);
            assert(all[k] == rest[k]);
            let (i, l) = choose|i: int, l: int|
                0 <= i < l < front.len() && #[trigger] front[i] == rest[j] && #[trigger] front[l]
                    == rest[k];
            assert(ms[i] == rest[j] && ms[l] == rest[k]);
        } else {
            missed_message_came(front, my_user_id, seen, j);
            others_are_remembered(front, my_user_id, seen, ms.last().id@);
            let i = choose|i: int| 0 <= i < front.len() && #[trigger] front[i] == rest[j];
            assert(ms[i] == rest[j] && ms[last] == all[k]);
            assert(front[i].user_id@ != my_user_id);
        }
    }
}

/// The event carries a message that was fetched.
pub open spec fn carries_message(e: DaemonEvent, channel_id: Seq<char>, m: Message) -> bool {
    e.payload matches DaemonEventPayloadInner::Inbound(p) && {
        &&& p.channel_id@ == channel_id
        &&& p.post_id@ == m.id@
        &&& p.root_id@ == m.root_id@
        &&& p.sender_id@ == m.user_id@
        &&& p.message@ == m.message@
        &&& p.create_at == m.create_at
    }
}

fn missed_event(
    listener: &Listener,
    channel_id: &str,
    channel_name: &str,
    m: &Message,
    received_at: i64,
) -> (r: DaemonEvent)
    ensures
        carries_message(r, channel_id@, *m),
        inbound(
            r,
            DaemonEventKind::InboundMessage,
            listener.profile_name@,
            channel_name@,
            m.username@,
            received_at,
            mentions(m.message@, listener.bot_username@),
        ),
{
    let mentioned = message_mentions_username(m.message.as_str(), listener.bot_username.as_str());
    DaemonEvent {
        seq: 0,
        kind: DaemonEventKind::InboundMessage,
        payload: DaemonEventPayloadInner::Inbound(
            InboundEventPayload {
                profile: listener.profile_name.clone(),
                provider: Provider::Mattermost,
                channel_id: channel_id.to_owned(),
                channel_name: channel_name.to_owned(),
                post_id: m.id.clone(),
                root_id: m.root_id.clone(),
                sender_id: m.user_id.clone(),
                sender_username: m.username.clone(),
                message: m.message.clone(),
                create_at: m.create_at,
                received_at,
                mentioned,
            },
        ),
    }
}

/// The events of the messages of a monitored channel that were missed. They are
/// remembered, so that none is passed on twice.
pub fn reconnect_catchup(
    listener: &Listener,
    channel_id: &str,
    channel_name: &str,
    messages: &Vec<Message>,
    seen: &mut TextSet,
    received_at: i64,
) -> (r: Vec<DaemonEvent>)
    ensures
        events_of_missed(
            *listener,
            channel_id@,
            channel_name@,
            messages@,
            old(seen)@,
            received_at,
            r@,
        ),
        remembers(remembered(messages@, listener.my_user_id@, old(seen)@), *final(seen)),
        final(seen)@.subset_of(remembered(messages@, listener.my_user_id@, old(seen)@)),
        remembered(messages@, listener.my_user_id@, old(seen)@).len() <= SEEN_POSTS_MAX ==>
            final(seen)@ == remembered(messages@, listener.my_user_id@, old(seen)@),
{
    let ghost start = seen@;
    let ghost me = listener.my_user_id@;
    let mut out: Vec<DaemonEvent> = Vec::new();
    let mut i: usize = 0;
    proof {
        assert(messages@.take(0) =~= Seq::empty());
    }
    while i < messages.len()
        invariant
            i <= messages@.len(),
            me == listener.my_user_id@,
            seen@ == remembered(messages@.take(i as int), me, start),
            out@.len() == unseen(messages@.take(i as int), me, start).len(),
            forall|j: int|
                0 <= j < out@.len() ==> carries_message(
                    #[trigger] out@[j],
                    channel_id@,
                    unseen(messages@.take(i as int), me, start)[j],
                ) && inbound(
                    out@[j],
                    DaemonEventKind::InboundMessage,
                    listener.profile_name@,
                    channel_name@,
                    unseen(messages@.take(i as int), me, start)[j].username@,
                    received_at,
                    mentions(
                        unseen(messages@.take(i as int), me, start)[j].message@,
                        listener.bot_username@,
                    ),
                ),
        decreases messages.len() - i,
    {
        proof {
            assert(messages@.take(i + 1).drop_last() =~= messages@.take(i as int));
            assert(messages@.take(i + 1).last() == messages@[i as int]);
        }
        let m = &messages[i];
        let ghost before = seen@;
        if !str_eq(m.user_id.as_str(), listener.my_user_id.as_str()) {
            if seen.insert(m.id.clone()) {
                out.push(missed_event(listener, channel_id, channel_name, m, received_at));
            } else {
                proof {
                    assert(before.insert(m.id@) =~= before);
                }
            }
        }
        i += 1;
    }
    proof {
        assert(messages@.take(i as int) =~= messages@);
    }
    let ghost full = *seen;
    prune_seen(seen);
    proof {
        assert(pruned(full, *seen));
    }
    out
}

/// `events` are the events of the messages that were missed.
pub open spec fn events_of_missed(
    listener: Listener,
    channel_id: Seq<char>,
    channel_name: Seq<char>,
    messages: Seq<Message>,
    seen: Set<Seq<char>>,
    received_at: i64,
    events: Seq<DaemonEvent>,
) -> bool {
    let missed = unseen(messages, listener.my_user_id@, seen);
    &&& events.len() == missed.len()
    &&& forall|i: int|
        0 <= i < events.len() ==> carries_message(#[trigger] events[i], channel_id, missed[i])
            && inbound(
            events[i],
            DaemonEventKind::InboundMessage,
            listener.profile_name@,
            channel_name,
            missed[i].username@,
            received_at,
            mentions(missed[i].message@, listener.bot_username@),
        )
}

/// Every message of somebody else that was not seen before is passed on, whatever it says
/// and whatever it answers.
pub proof fn what_was_missed_is_passed_on(
    listener: Listener,
    channel_id: Seq<char>,
    channel_name: Seq<char>,
    messages: Seq<Message>,
    seen: Set<Seq<char>>,
    received_at: i64,
    events: Seq<DaemonEvent>,
    i: int,
)
    requires
        events_of_missed(listener, channel_id, channel_name, messages, seen, received_at, events),
        0 <= i < messages.len(),
        messages[i].user_id@ != listener.my_user_id@,
        !seen.contains(messages[i].id@),
    ensures
        exists|j: int|
            0 <= j < events.len() && (#[trigger] events[j]).payload is Inbound
                && events[j].payload->Inbound_0.post_id@ == messages[i].id@,
{
    let me = listener.my_user_id@;
    let missed = unseen(messages, me, seen);
    missed_messages_are_all_there(messages, me, seen);
    let j = choose|j: int| 0 <= j < missed.len() && (#[trigger] missed[j]).id@ == messages[i].id@;
    assert(carries_message(events[j], channel_id, missed[j]));
}

/// Nothing else is passed on: each event is that of a message of somebody else that was
/// not seen before, as it was fetched.
pub proof fn only_what_was_missed_is_passed_on(
    listener: Listener,
    channel_id: Seq<char>,
    channel_name: Seq<char>,
    messages: Seq<Message>,
    seen: Set<Seq<char>>,
    received_at: i64,
    events: Seq<DaemonEvent>,
    j: int,
)
    requires
        events_of_missed(listener, channel_id, channel_name, messages, seen, received_at, events),
        0 <= j < events.len(),
    ensures
        events[j].payload is Inbound,
        events[j].kind is InboundMessage,
        exists|i: int|
            #![trigger messages[i]]
            {
                let p = events[j].payload->Inbound_0;
                &&& 0 <= i < messages.len()
                &&& messages[i].user_id@ != listener.my_user_id@
                &&& !seen.contains(messages[i].id@)
                &&& p.post_id@ == messages[i].id@
                &&& p.root_id@ == messages[i].root_id@
                &&& p.sender_id@ == messages[i].user_id@
                &&& p.sender_username@ == messages[i].username@
                &&& p.message@ == messages[i].message@
                &&& p.create_at == messages[i].create_at
                &&& p.channel_id@ == channel_id
                &&& p.channel_name@ == channel_name
                &&& p.profile@ == listener.profile_name@
                &&& p.received_at == received_at
                &&& p.mentioned == mentions(messages[i].message@, listener.bot_username@)
            },
{
    let me = listener.my_user_id@;
    let missed = unseen(messages, me, seen);
    missed_message_came(messages, me, seen, j);
    let i = choose|i: int| 0 <= i < messages.len() && #[trigger] messages[i] == missed[j];
    assert(carries_message(events[j], channel_id, missed[j]));
    assert(messages[i] == missed[j]);
}

/// No message is passed on twice, and messages are passed on in the order in which they
/// came.
pub proof fn what_was_missed_is_passed_on_once(
    listener: Listener,
    channel_id: Seq<char>,
    channel_name: Seq<char>,
    messages: Seq<Message>,
    seen: Set<Seq<char>>,
    received_at: i64,
    events: Seq<DaemonEvent>,
    j: int,
    k: int,
)
    requires
        events_of_missed(listener, channel_id, channel_name, messages, seen, received_at, events),
        0 <= j < k < events.len(),
    ensures
        events[j].payload->Inbound_0.post_id@ != events[k].payload->Inbound_0.post_id@,
        exists|i: int, l: int|
            0 <= i < l < messages.len() && #[trigger] messages[i].id@
                == events[j].payload->Inbound_0.post_id@ && #[trigger] messages[l].id@
                == events[k].payload->Inbound_0.post_id@,
{
    let me = listener.my_user_id@;
    let missed = unseen(messages, me, seen);
    missed_messages_keep_their_order(messages, me, seen, j, k);
    assert(carries_message(events[j], channel_id, missed[j]));
    assert(carries_message(events[k], channel_id, missed[k]));
    let (i, l) = choose|i: int, l: int|
        0 <= i < l < messages.len() && #[trigger] messages[i] == missed[j] && #[trigger] messages[l]
            == missed[k];
    assert(messages[i].id@ == missed[j].id@ && messages[l].id@ == missed[k].id@);
}

/// The event that messages may be missing.
pub fn gap_event(profile_name: &str, missed_from_seq: u64, missed_to_seq: u64) -> (r: DaemonEvent)
    ensures
        r.seq == 0,
        r.kind is Gap,
        r.payload matches DaemonEventPayloadInner::Gap(g) && g.subscription_id@
            == "__reconnect__"@ + profile_name@ && g.missed_from_seq == missed_from_seq
            && g.missed_to_seq == missed_to_seq,
{
    DaemonEvent {
        seq: 0,
        kind: DaemonEventKind::Gap,
        payload: DaemonEventPayloadInner::Gap(
            GapPayload {
                subscription_id: concat2("__reconnect__", profile_name),
                missed_from_seq,
                missed_to_seq,
            },
        ),
    }
}

// ---------------------------------------------------------------------------
// Trying again
// ---------------------------------------------------------------------------

/// The event of a change of the connection.
pub open spec fn state_changed(
    e: DaemonEvent,
    profile: Seq<char>,
    state: WsConnectionState,
    message: Seq<char>,
) -> bool {
    &&& e.seq == 0
    &&& e.kind is ConnectionStateChanged
    &&& e.payload matches DaemonEventPayloadInner::ConnectionStateChanged(p) && p.profile@
        == profile && p.state == state && p.message@ == message
}

pub fn connection_event(profile_name: &str, state: WsConnectionState, message: String) -> (r:
    DaemonEvent)
    ensures
        state_changed(r, profile_name@, state, message@),
{
    DaemonEvent {
        seq: 0,
        kind: DaemonEventKind::ConnectionStateChanged,
        payload: DaemonEventPayloadInner::ConnectionStateChanged(
            ConnectionStateChangedPayload {
                profile: profile_name.to_owned(),
                provider: Provider::Mattermost,
                state,
                message,
            },
        ),
    }
}

/// Counts the attempts to connect.
pub struct Supervisor {
    pub attempt: u64,
}

/// What follows the end of a connection: the events in their order, and how long
/// to wait before the next attempt, in seconds.
pub struct Pause {
    pub events: Vec<DaemonEvent>,
    pub delay_secs: u64,
}

/// How long to wait after an attempt: 2, 4 and 8 seconds, then 30.
pub open spec fn delay_after(attempt: u64) -> u64 {
    if attempt == 0 {
        1
    } else if attempt == 1 {
        2
    } else if attempt == 2 {
        4
    } else if attempt == 3 {
        8
    } else {
        30
    }
}

impl Supervisor {
    pub fn new() -> (r: Self)
        ensures
            r.attempt == 0,
    {
        Supervisor { attempt: 0 }
    }

    /// Begins an attempt.
    pub fn begin(&mut self, ws: &mut WsState, profile_name: &str, now: i64) -> (r: DaemonEvent)
        requires
            old(self).attempt < u64::MAX,
        ensures
            final(self).attempt == old(self).attempt + 1,
            *final(ws) == (WsState { connection_state: WsConnectionState::Connecting, ..*old(ws) }),
            state_changed(
                r,
                profile_name@,
                WsConnectionState::Connecting,
                "attempt "@ + decimal_text(final(self).attempt as nat),
            ),
    {
        self.attempt = self.attempt + 1;
        ws.set_state(WsConnectionState::Connecting, now);
        connection_event(
            profile_name,
            WsConnectionState::Connecting,
            concat2("attempt ", u64_text(self.attempt).as_str()),
        )
    }

    /// The token was accepted. `r.1` is when the grace period ends, where there is
    /// something to recover from.
    pub fn authenticated(&self, ws: &mut WsState, profile_name: &str, now: i64) -> (r: (
        DaemonEvent,
        Option<i64>,
    ))
        requires
            now <= i64::MAX - RECOVERY_GRACE_MS,
        ensures
            state_changed(
                r.0,
                profile_name@,
                WsConnectionState::Healthy,
                "connected and authenticated"@,
            ),
            r.1 == (if old(ws).last_disconnect_at == 0 {
                None
            } else {
                Some((now + RECOVERY_GRACE_MS) as i64)
            }),
            *final(ws) == (WsState {
                connection_state: WsConnectionState::Healthy,
                recovering_until: match r.1 {
                    Some(until) => until,
                    None => old(ws).recovering_until,
                },
                ..*old(ws)
            }),
    {
        ws.set_state(WsConnectionState::Healthy, now);
        let until = ws.arm_recovery_window(now);
        (
            connection_event(
                profile_name,
                WsConnectionState::Healthy,
                "connected and authenticated".to_owned(),
            ),
            until,
        )
    }

    /// Ends an attempt, after which another one follows. From the fourth on the
    /// connection counts as degraded.
    pub fn end(
        &self,
        ws: &mut WsState,
        profile_name: &str,
        error: Option<String>,
        current_seq: u64,
        now: i64,
    ) -> (r: Pause)
        ensures
            r.delay_secs == delay_after(self.attempt),
            r.events@.len() == (if self.attempt <= 3 {
                1int
            } else {
                2int
            }),
            state_changed(
                r.events@[0],
                profile_name@,
                WsConnectionState::Disconnected,
                "disconnected, will reconnect (attempt "@ + decimal_text(self.attempt as nat)
                    + ")"@,
            ),
            self.attempt > 3 ==> state_changed(
                r.events@[1],
                profile_name@,
                WsConnectionState::Degraded,
                "degraded after "@ + decimal_text(self.attempt as nat) + " attempts"@,
            ),
            *final(ws) == (WsState {
                connection_state: if self.attempt <= 3 {
                    WsConnectionState::Disconnected
                } else {
                    WsConnectionState::Degraded
                },
                last_error: match error {
                    Some(e) => Some(e),
                    None => old(ws).last_error,
                },
                last_disconnect_at: now,
                last_disconnect_seq: current_seq,
                reconnect_count: if old(ws).reconnect_count == u64::MAX {
                    0
                } else {
                    (old(ws).reconnect_count + 1) as u64
                },
                ..*old(ws)
            }),
    {
        match error {
            Some(e) => {
                ws.set_error(e);
            },
            None => {},
        }
        ws.set_state(WsConnectionState::Disconnected, now);
        ws.record_disconnect_seq(current_seq);
        ws.bump_reconnect();
        let mut events: Vec<DaemonEvent> = Vec::new();
        let attempt = u64_text(self.attempt);
        events.push(
            connection_event(
                profile_name,
                WsConnectionState::Disconnected,
                concat3("disconnected, will reconnect (attempt ", attempt.as_str(), ")"),
            ),
        );
        let delay_secs: u64 = if self.attempt == 0 {
            1
        } else if self.attempt == 1 {
            2
        } else if self.attempt == 2 {
            4
        } else if self.attempt == 3 {
            8
        } else {
            ws.set_state(WsConnectionState::Degraded, now);
            events.push(
                connection_event(
                    profile_name,
                    WsConnectionState::Degraded,
                    concat3("degraded after ", attempt.as_str(), " attempts"),
                ),
            );
            30
        };
        Pause { events, delay_secs }
    }
}

/// Waiting never gets shorter from one attempt to the next.
pub proof fn delays_never_shrink(attempt: u64)
    requires
        attempt < u64::MAX,
    ensures
        delay_after(attempt) <= delay_after((attempt + 1) as u64),
        1 <= delay_after(attempt) <= 30,
{
}

// ---------------------------------------------------------------------------
// Laws
// ---------------------------------------------------------------------------

/// A post is passed on if and only if somebody else wrote it, it has an id and a channel, and
/// it was not seen before.
pub proof fn new_posts_of_others_are_passed_on(p: PushedPost, my_user_id: Seq<char>, seen: Set<Seq<char>>)
    ensures
        admissible(p, my_user_id, seen) <==> p.user_id@ != my_user_id && p.id@.len() > 0
            && p.channel_id@.len() > 0 && !seen.contains(p.id@),
        foreign(p, my_user_id) <==> p.user_id@ != my_user_id && p.id@.len() > 0
            && p.channel_id@.len() > 0,
{
}

/// The event of a post says what the post says, where it was posted and by whom, and whether
/// it mentions the bot.
pub proof fn events_say_what_posts_say(
    e: DaemonEvent,
    post: PushedPost,
    kind: DaemonEventKind,
    profile: Seq<char>,
    channel_name: Seq<char>,
    sender: Seq<char>,
    received_at: i64,
    mentioned: bool,
)
    requires
        carries(e, post),
        inbound(e, kind, profile, channel_name, sender, received_at, mentioned),
    ensures
        e.kind == kind,
        e.payload is Inbound,
        ({
            let p = e.payload->Inbound_0;
            &&& p.post_id@ == post.id@
            &&& p.channel_id@ == post.channel_id@
            &&& p.channel_name@ == channel_name
            &&& p.sender_id@ == post.user_id@
            &&& p.sender_username@ == sender
            &&& p.message@ == post.message@
            &&& p.create_at == post.create_at
            &&& p.received_at == received_at
            &&& p.profile@ == profile
            &&& p.mentioned == mentioned
            &&& p.root_id@ == (if post.root_id@.len() == 0 {
                post.id@
            } else {
                post.root_id@
            })
        }),
{
}

/// A channel is monitored where its name is listed, whatever the case of its letters.
pub proof fn listed_channels_are_monitored(channels: Seq<Seq<char>>, name: Seq<char>)
    ensures
        monitored(channels, name) <==> exists|i: int|
            0 <= i < channels.len() && lowered(#[trigger] channels[i]) == lowered(name),
        channels.contains(name) ==> monitored(channels, name),
{
    if channels.contains(name) {
        let i = channels.index_of(name);
        assert(lowered(channels[i]) == lowered(name));
    }
}

/// A token is accepted by a greeting with the status `OK`.
pub proof fn greetings_accept_the_token(event: JsonValueAt, status: JsonValueAt)
    ensures
        accepts(event, status) <==> event is Text && event->Text_0 == "hello"@ && status is Text
            && status->Text_0 == "OK"@,
{
    reveal_strlit("hello");
    reveal_strlit("OK");
    assert("hello"@.len() == 5 && "OK"@.len() == 2);
}

/// A token is refused by the status `FAIL` or `INVALID_TOKEN`, and by an error that answers
/// nothing that was asked.
pub proof fn refusals_of_the_token(seq: JsonValueAt, error: JsonValueAt, status: JsonValueAt)
    ensures
        refuses(seq, error, status) <==> (status is Text && (status->Text_0 == "FAIL"@
            || status->Text_0 == "INVALID_TOKEN"@)) || (!(error is Absent) && (!(seq is Number)
            || seq->unsigned is None || seq->unsigned == Some(0u64))),
{
    reveal_strlit("FAIL");
    reveal_strlit("INVALID_TOKEN");
    assert("FAIL"@.len() == 4 && "INVALID_TOKEN"@.len() == 13);
}

/// A post that was pushed is what its text holds, and empty where it holds nothing.
pub proof fn pushed_posts_are_what_their_text_holds(body: Seq<char>, p: PushedPost)
    requires
        pushed(body, p),
    ensures
        forall|t: Seq<char>| json_at(body, "/id"@) == JsonValueAt::Text(t) ==> p.id@ == t,
        forall|t: Seq<char>|
            json_at(body, "/channel_id"@) == JsonValueAt::Text(t) ==> p.channel_id@ == t,
        forall|t: Seq<char>| json_at(body, "/user_id"@) == JsonValueAt::Text(t) ==> p.user_id@ == t,
        forall|t: Seq<char>| json_at(body, "/message"@) == JsonValueAt::Text(t) ==> p.message@ == t,
        forall|t: Seq<char>| json_at(body, "/root_id"@) == JsonValueAt::Text(t) ==> p.root_id@ == t,
        !(json_at(body, "/id"@) is Text) ==> p.id@.len() == 0,
        !(json_at(body, "/user_id"@) is Text) ==> p.user_id@.len() == 0,
        !(json_at(body, "/channel_id"@) is Text) ==> p.channel_id@.len() == 0,
        !(json_at(body, "/message"@) is Text) ==> p.message@.len() == 0,
        !(json_at(body, "/root_id"@) is Text) ==> p.root_id@.len() == 0,
        json_at(body, "/create_at"@) is Number && json_at(body, "/create_at"@)->signed is Some
            ==> p.create_at == json_at(body, "/create_at"@)->signed->0,
        !(json_at(body, "/create_at"@) is Number) ==> p.create_at == 0,
{
}

/// A frame is about a post where it says that one was posted or edited, and a sign of life
/// where it greets or tells of a status.
pub proof fn frames_are_told_by_their_event(event: JsonValueAt, post: JsonValueAt, k: FrameKind)
    requires
        about(event, post, k),
    ensures
        k is Post <==> event is Text && (event->Text_0 == "posted"@ || event->Text_0
            == "post_edited"@),
        k is Alive <==> event is Text && (event->Text_0 == "status_change"@ || event->Text_0
            == "hello"@),
        k is Post && post is Text ==> k->Post_0 is Some && k->Post_0->0@ == post->Text_0,
        k is Post && !(post is Text) ==> k->Post_0 is None,
{
    reveal_strlit("posted");
    reveal_strlit("post_edited");
    reveal_strlit("status_change");
    reveal_strlit("hello");
    assert("posted"@.len() == 6 && "post_edited"@.len() == 11 && "status_change"@.len() == 13
        && "hello"@.len() == 5);
}

/// Before the token is accepted a frame accepts it, refuses it, or is passed over; nothing but
/// a refusal, a break or too long a wait ends the connection with an error.
pub proof fn signing_in(input: SessionInput, r: SessionAction, after: bool)
    requires
        session_step(false, input, r, after),
    ensures
        after <==> input is Text && accepts(
            json_at(input->Text_0@, "/event"@),
            json_at(input->Text_0@, "/data/status"@),
        ),
        r is Authenticated <==> after,
        r is Fail <==> (input is Text && !after && refuses(
            json_at(input->Text_0@, "/seq"@),
            json_at(input->Text_0@, "/error"@),
            json_at(input->Text_0@, "/data/status"@),
        )) || input is TimedOut || input is Failed,
        r is End <==> input is Closed,
        r is Pong <==> input is Ping,
{
}

/// Once the token is accepted every text is passed on as it came, pings are answered, and a
/// sign of life is sent when it is time for one.
pub proof fn listening(input: SessionInput, r: SessionAction, after: bool)
    requires
        session_step(true, input, r, after),
    ensures
        r is Deliver <==> input is Text,
        input is Text ==> r->Deliver_0 == input->Text_0,
        r is Pong <==> input is Ping,
        r is Send <==> input is Heartbeat,
        r is Send ==> r->Send_0@ == "{\"action\":\"user_activity\",\"seq\":0}"@,
        r is End <==> input is Closed,
        r is Fail <==> input is Failed,
{
}

/// Each attempt waits twice as long as the one before, and from the fourth on half a minute.
pub proof fn attempts_wait_twice_as_long(attempt: u64)
    ensures
        delay_after(0) == 1,
        1 <= attempt <= 3 ==> delay_after(attempt) == 2 * delay_after((attempt - 1) as u64),
        attempt >= 4 ==> delay_after(attempt) == 30,
{
}

/// A change of the connection is told with its profile, its state and its words.
pub proof fn changes_are_told(
    e: DaemonEvent,
    profile: Seq<char>,
    state: WsConnectionState,
    message: Seq<char>,
)
    requires
        state_changed(e, profile, state, message),
    ensures
        e.kind is ConnectionStateChanged && e.payload is ConnectionStateChanged,
        e.payload->ConnectionStateChanged_0.profile@ == profile,
        e.payload->ConnectionStateChanged_0.state == state,
        e.payload->ConnectionStateChanged_0.message@ == message,
{
}

/// Posts are forgotten only where more than ten thousand are remembered, and then five
/// thousand of them. The last five minutes are fetched again after an outage, and signing in
/// has ten seconds.
pub proof fn memory_is_bounded(before: TextSet, after: TextSet)
    requires
        pruned(before, after),
    ensures
        before.listed().len() <= 10_000 ==> after == before,
        before.listed().len() > 10_000 ==> after.listed().len() == before.listed().len() - 5_000,
        forall|i: int|
            0 <= i < after.listed().len() ==> before.listed().contains(#[trigger] after.listed()[i]),
        before.listed().len() > 10_000 ==> forall|i: int|
            0 <= i < after.listed().len() ==> #[trigger] after.listed()[i] == before.listed()[i
                + 5_000],
        CATCHUP_WINDOW_MS == 5 * 60 * 1000,
        SIGN_IN_LIMIT_MS == 10 * 1000,
{
    if before.listed().len() > SEEN_POSTS_MAX {
        assert forall|i: int| 0 <= i < after.listed().len() implies before.listed().contains(
            #[trigger] after.listed()[i],
        ) by {
            assert(after.listed()[i] == before.listed()[i + SEEN_POSTS_DROP]);
        }
    } else {
        assert forall|i: int| 0 <= i < after.listed().len() implies before.listed().contains(
            #[trigger] after.listed()[i],
        ) by {
            assert(before.listed()[i] == after.listed()[i]);
        }
    }
}

/// The push connection is at the server's address, without slashes at its end, under the
/// scheme for sockets.
pub proof fn push_addresses(host: Seq<char>, slashes: nat)
    requires
        host.len() > 0,
        host.last() != '/',
        split_at_first(host, "http://"@) is None,
        split_at_first(host, "https://"@) is None,
        split_at_first("https://"@ + host, "https://"@) == Some((Seq::<char>::empty(), host)),
        split_at_first("wss://"@ + host, "http://"@) is None,
        split_at_first("http://"@ + host, "https://"@) is None,
        split_at_first("http://"@ + host, "http://"@) == Some((Seq::<char>::empty(), host)),
    ensures
        push_address("https://"@ + host + Seq::new(slashes, |i: int| '/')) == "wss://"@ + host
            + "/api/v4/websocket"@,
        push_address("http://"@ + host + Seq::new(slashes, |i: int| '/')) == "ws://"@ + host
            + "/api/v4/websocket"@,
{
    reveal_strlit("https://");
    reveal_strlit("http://");
    reveal_strlit("wss://");
    let secure = "https://"@ + host;
    let open = "http://"@ + host;
    assert(secure.last() == host.last() && open.last() == host.last());
    crate::text::trailing_copies_go('/', slashes, secure);
    crate::text::trailing_copies_go('/', slashes, open);
    crate::text::each_place_is_replaced(secure, "https://"@, "wss://"@);
    crate::text::each_place_is_replaced(host, "https://"@, "wss://"@);
    assert(Seq::<char>::empty() + "wss://"@ + host =~= "wss://"@ + host);
    crate::text::each_place_is_replaced("wss://"@ + host, "http://"@, "ws://"@);
    crate::text::each_place_is_replaced(open, "https://"@, "wss://"@);
    crate::text::each_place_is_replaced(open, "http://"@, "ws://"@);
    crate::text::each_place_is_replaced(host, "http://"@, "ws://"@);
    assert(Seq::<char>::empty() + "ws://"@ + host =~= "ws://"@ + host);
}

/// A post of somebody else is passed on in a monitored channel, and anywhere else only where
/// it mentions the bot; a post in a monitored channel is a message even where it mentions the
/// bot.
pub proof fn monitored_posts_and_mentions_are_passed_on(
    listener: &Listener,
    post: PushedPost,
    channel_name: String,
    sender: String,
    received_at: i64,
    r: Option<DaemonEvent>,
)
    requires
        call_ensures(handle_post_event, (listener, post, channel_name, sender, received_at), r),
    ensures
        ({
            let other = post.user_id@ != listener.my_user_id@ && post.id@.len() > 0
                && post.channel_id@.len() > 0;
            let here = exists|i: int|
                0 <= i < listener.monitored_channels@.len() && lowered(
                    (#[trigger] listener.monitored_channels@[i])@,
                ) == lowered(channel_name@);
            let named = mentions(post.message@, listener.bot_username@);
            &&& r is Some <==> other && (here || named)
            &&& r is Some && here ==> r->0.kind is InboundMessage
            &&& r is Some && !here ==> r->0.kind is InboundMention
            &&& r is Some ==> {
                let p = r->0.payload->Inbound_0;
                &&& r->0.payload is Inbound
                &&& p.post_id@ == post.id@ && p.message@ == post.message@ && p.sender_id@
                    == post.user_id@ && p.channel_id@ == post.channel_id@ && p.create_at
                    == post.create_at
                &&& p.channel_name@ == channel_name@ && p.sender_username@ == sender@
                    && p.received_at == received_at && p.profile@ == listener.profile_name@
                &&& p.mentioned == named
                &&& p.root_id@ == (if post.root_id@.len() == 0 {
                    post.id@
                } else {
                    post.root_id@
                })
            }
        }),
{
    let names = texts(listener.monitored_channels@);
    assert(monitored(names, channel_name@) <==> exists|i: int|
        0 <= i < listener.monitored_channels@.len() && lowered(
            (#[trigger] listener.monitored_channels@[i])@,
        ) == lowered(channel_name@)) by {
        if monitored(names, channel_name@) {
            let i = choose|i: int|
                0 <= i < names.len() && lowered(#[trigger] names[i]) == lowered(channel_name@);
            assert(lowered(listener.monitored_channels@[i]@) == lowered(channel_name@));
        }
        if exists|i: int|
            0 <= i < listener.monitored_channels@.len() && lowered(
                (#[trigger] listener.monitored_channels@[i])@,
            ) == lowered(channel_name@) {
            let i = choose|i: int|
                0 <= i < listener.monitored_channels@.len() && lowered(
                    (#[trigger] listener.monitored_channels@[i])@,
                ) == lowered(channel_name@);
            assert(lowered(names[i]) == lowered(channel_name@));
        }
    }
}

/// A post without a text is none, and any other is what its text holds.
pub proof fn texts_without_json_are_no_posts(body: &str, r: Option<PushedPost>)
    requires
        call_ensures(parse_pushed_post, (body,), r),
    ensures
        r is None <==> json_at(body@, ""@) is Absent,
        r is Some ==> pushed(body@, r->0),
{
}

/// A token is accepted or refused by what stands at these places of a frame.
pub proof fn frames_are_read_at_these_places(text: &str, accepted: bool, refused: bool, k: FrameKind)
    requires
        call_ensures(is_auth_success, (text,), accepted),
        call_ensures(is_auth_error, (text,), refused),
        call_ensures(handle_ws_message, (text,), k),
    ensures
        accepted <==> accepts(json_at(text@, "/event"@), json_at(text@, "/data/status"@)),
        refused <==> refuses(
            json_at(text@, "/seq"@),
            json_at(text@, "/error"@),
            json_at(text@, "/data/status"@),
        ),
        about(json_at(text@, "/event"@), json_at(text@, "/data/post"@), k),
{
}

/// The messages of the last five minutes are fetched; an outage that began before that leaves
/// a gap, which is told with the events that were missed.
pub proof fn long_outages_leave_a_gap(
    now: i64,
    since: i64,
    lost_at: i64,
    exceeded: bool,
    profile: &str,
    from: u64,
    to: u64,
    gap: DaemonEvent,
)
    requires
        call_ensures(catchup_since, (now,), since),
        call_ensures(outage_exceeded, (lost_at, since), exceeded),
        call_ensures(gap_event, (profile, from, to), gap),
    ensures
        since == now - 300_000,
        exceeded <==> lost_at > 0 && lost_at < now - 300_000,
        gap.kind is Gap,
        gap.payload is Gap && gap.payload->Gap_0.missed_from_seq == from
            && gap.payload->Gap_0.missed_to_seq == to && gap.payload->Gap_0.subscription_id@
            == "__reconnect__"@ + profile@,
{
}

/// The frames that are sent, and the addresses that they go to.
pub proof fn frames_and_addresses(
    token: &str,
    sign_in: String,
    alive: String,
    base: &str,
    endpoint: &str,
    url: String,
    server: &str,
    root: String,
)
    requires
        call_ensures(auth_frame, (token,), sign_in),
        call_ensures(activity_frame, (), alive),
        call_ensures(request_url, (base, endpoint), url),
        call_ensures(base_url, (server,), root),
    ensures
        sign_in@ == "{\"action\":\"authentication_challenge\",\"data\":{\"token\":"@ + json_quoted(
            token@,
        ) + "},\"seq\":1}"@,
        alive@ == "{\"action\":\"user_activity\",\"seq\":0}"@,
        url@ == base@ + "/api/v4"@ + endpoint@,
        root@ == drop_trailing(server@, '/'),
{
}

/// Signing in has ten seconds from the start; after that one waits for an hour at most.
pub proof fn patience_ends(session: &Session, elapsed_ms: u64, r: u64)
    requires
        call_ensures(Session::patience_ms, (session, elapsed_ms), r),
    ensures
        session.authenticated ==> r == 3_600_000,
        !session.authenticated && elapsed_ms < 10_000 ==> r == 10_000 - elapsed_ms,
        !session.authenticated && elapsed_ms >= 10_000 ==> r == 0,
{
}

/// Until the token was accepted nothing is delivered; from then on everything is, and stays so.
pub proof fn nothing_is_delivered_before_the_token_is_accepted(
    session: &mut Session,
    text: &str,
    accepted: bool,
    refused: bool,
    r: FrameAction,
)
    requires
        call_ensures(Session::frame, (session, text, accepted, refused), r),
    ensures
        r is Deliver <==> old(session).authenticated,
        r is Authenticated <==> !old(session).authenticated && accepted,
        r is Rejected <==> !old(session).authenticated && !accepted && refused,
        r is Rejected ==> r->Rejected_0@ == "websocket auth rejected: "@ + text@,
        final(session).authenticated <==> old(session).authenticated || accepted,
{
}

/// The same of a frame as it came.
pub proof fn frames_are_delivered_once_signed_in(session: &mut Session, text: &str, r: FrameAction)
    requires
        call_ensures(Session::on_text, (session, text), r),
    ensures
        r is Deliver <==> old(session).authenticated,
        r is Authenticated ==> accepts(json_at(text@, "/event"@), json_at(text@, "/data/status"@)),
        r is Rejected ==> refuses(
            json_at(text@, "/seq"@),
            json_at(text@, "/error"@),
            json_at(text@, "/data/status"@),
        ),
        final(session).authenticated ==> old(session).authenticated || r is Authenticated,
        old(session).authenticated || r is Authenticated ==> final(session).authenticated,
{
}

/// A post is admitted if and only if it is somebody else's, names itself and its channel and was
/// not seen; then it is seen.
pub proof fn posts_are_admitted_once(p: &PushedPost, my_user_id: &str, seen: &mut TextSet, r: bool)
    requires
        call_ensures(admit_post, (p, my_user_id, seen), r),
        old(seen)@.len() < 10_000,
    ensures
        r <==> p.user_id@ != my_user_id@ && p.id@.len() > 0 && p.channel_id@.len() > 0
            && !old(seen)@.contains(p.id@),
        r ==> final(seen)@ == old(seen)@.insert(p.id@),
        !r ==> final(seen)@ == old(seen)@,
{
}

/// A post that came is handed on if and only if it is somebody else's, names itself and its
/// channel and was not seen; then it is seen.
pub proof fn posts_are_received_once(
    body: &str,
    my_user_id: &str,
    seen: &mut TextSet,
    r: Option<PushedPost>,
)
    requires
        call_ensures(receive_post, (body, my_user_id, seen), r),
        old(seen)@.len() < 10_000,
    ensures
        ({
            let id = text_or_empty(json_at(body@, "/id"@));
            let author = text_or_empty(json_at(body@, "/user_id"@));
            let channel = text_or_empty(json_at(body@, "/channel_id"@));
            &&& r is Some <==> !(json_at(body@, ""@) is Absent) && author != my_user_id@ && id.len()
                > 0 && channel.len() > 0 && !old(seen)@.contains(id)
            &&& r is Some ==> r->0.id@ == id && r->0.user_id@ == author && r->0.channel_id@
                == channel && r->0.message@ == text_or_empty(json_at(body@, "/message"@))
                && r->0.root_id@ == text_or_empty(json_at(body@, "/root_id"@)) && r->0.create_at
                == integer_or_zero(json_at(body@, "/create_at"@))
            &&& r is Some ==> final(seen)@ == old(seen)@.insert(id)
            &&& r is None ==> final(seen)@ == old(seen)@
        }),
{
    if r is None && !(json_at(body@, ""@) is Absent) {
        let p = choose|p: PushedPost| #[trigger]
            pushed(body@, p) && !admissible(p, my_user_id@, old(seen)@);
        assert(pushed(body@, p));
    }
}

/// An attempt is one more, and is told.
pub proof fn attempts_are_counted(
    s: &mut Supervisor,
    ws: &mut WsState,
    profile: &str,
    now: i64,
    r: DaemonEvent,
)
    requires
        old(s).attempt < u64::MAX,
        call_ensures(Supervisor::begin, (s, ws, profile, now), r),
    ensures
        final(s).attempt == old(s).attempt + 1,
        final(ws).connection_state is Connecting,
        final(ws).last_disconnect_at == old(ws).last_disconnect_at,
        r.kind is ConnectionStateChanged,
        r.payload is ConnectionStateChanged
            && r.payload->ConnectionStateChanged_0.state is Connecting
            && r.payload->ConnectionStateChanged_0.profile@ == profile@,
{
}

/// A connection that signed in is healthy, and recovers for ten seconds where one was lost.
pub proof fn signed_in_connections_are_healthy(
    s: &Supervisor,
    ws: &mut WsState,
    profile: &str,
    now: i64,
    r: (DaemonEvent, Option<i64>),
)
    requires
        now <= i64::MAX - 10_000,
        call_ensures(Supervisor::authenticated, (s, ws, profile, now), r),
    ensures
        final(ws).connection_state is Healthy,
        r.0.payload is ConnectionStateChanged
            && r.0.payload->ConnectionStateChanged_0.state is Healthy
            && r.0.payload->ConnectionStateChanged_0.profile@ == profile@,
        old(ws).last_disconnect_at != 0 ==> r.1 == Some((now + 10_000) as i64)
            && final(ws).recovering_until == now + 10_000,
        old(ws).last_disconnect_at == 0 ==> r.1 is None && final(ws).recovering_until
            == old(ws).recovering_until,
{
}

/// A lost connection is dated, counted and told, and from the fourth attempt on it is degraded.
pub proof fn lost_connections_are_told(
    s: &Supervisor,
    ws: &mut WsState,
    profile: &str,
    error: Option<String>,
    seq: u64,
    now: i64,
    r: Pause,
)
    requires
        call_ensures(Supervisor::end, (s, ws, profile, error, seq, now), r),
    ensures
        s.attempt <= 3 ==> final(ws).connection_state is Disconnected && r.events@.len() == 1,
        s.attempt > 3 ==> final(ws).connection_state is Degraded && r.events@.len() == 2
            && r.events@[1].payload is ConnectionStateChanged
            && r.events@[1].payload->ConnectionStateChanged_0.state is Degraded,
        r.events@[0].payload is ConnectionStateChanged
            && r.events@[0].payload->ConnectionStateChanged_0.state is Disconnected,
        final(ws).last_disconnect_at == now && final(ws).last_disconnect_seq == seq,
        error is Some ==> final(ws).last_error == error,
        error is None ==> final(ws).last_error == old(ws).last_error,
        old(ws).reconnect_count < u64::MAX ==> final(ws).reconnect_count
            == old(ws).reconnect_count + 1,
        r.delay_secs == delay_after(s.attempt),
{
}

/// What was missed and is passed on after a reconnection: each message of somebody else that was
/// not seen, top-level posts and replies alike, and nothing else.
pub proof fn missed_posts_are_passed_on(
    listener: &Listener,
    channel_id: &str,
    channel_name: &str,
    messages: &Vec<Message>,
    seen: &mut TextSet,
    received_at: i64,
    r: Vec<DaemonEvent>,
    i: int,
)
    requires
        call_ensures(
            reconnect_catchup,
            (listener, channel_id, channel_name, messages, seen, received_at),
            r,
        ),
        0 <= i < messages@.len(),
        messages@[i].user_id@ != listener.my_user_id@,
        !old(seen)@.contains(messages@[i].id@),
    ensures
        exists|k: int|
            #![trigger r@[k]]
            0 <= k < r@.len() && r@[k].payload is Inbound && r@[k].payload->Inbound_0.post_id@
                == messages@[i].id@,
{
    what_was_missed_is_passed_on(
        *listener,
        channel_id@,
        channel_name@,
        messages@,
        old(seen)@,
        received_at,
        r@,
        i,
    );
}

/// A change of state is not numbered yet, and says what happened.
pub proof fn changes_say_what_happened(
    s: &mut Supervisor,
    ws: &mut WsState,
    profile: &str,
    now: i64,
    e: DaemonEvent,
)
    requires
        old(s).attempt < u64::MAX,
        call_ensures(Supervisor::begin, (s, ws, profile, now), e),
    ensures
        e.seq == 0,
        e.payload->ConnectionStateChanged_0.message@ == "attempt "@ + decimal_text(
            (old(s).attempt + 1) as nat,
        ),
{
}

/// What is said when a connection signed in.
pub proof fn signing_in_is_told(
    s: &Supervisor,
    ws: &mut WsState,
    profile: &str,
    now: i64,
    r: (DaemonEvent, Option<i64>),
)
    requires
        now <= i64::MAX - 10_000,
        call_ensures(Supervisor::authenticated, (s, ws, profile, now), r),
    ensures
        r.0.payload->ConnectionStateChanged_0.message@ == "connected and authenticated"@,
        r.0.seq == 0,
{
}

/// What is said when a connection was lost.
pub proof fn losses_say_how_often(
    s: &Supervisor,
    ws: &mut WsState,
    profile: &str,
    error: Option<String>,
    seq: u64,
    now: i64,
    r: Pause,
)
    requires
        call_ensures(Supervisor::end, (s, ws, profile, error, seq, now), r),
    ensures
        r.events@[0].payload->ConnectionStateChanged_0.message@
            == "disconnected, will reconnect (attempt "@ + decimal_text(s.attempt as nat) + ")"@,
        s.attempt > 3 ==> r.events@[1].payload->ConnectionStateChanged_0.message@
            == "degraded after "@ + decimal_text(s.attempt as nat) + " attempts"@,
{
}

/// Signing in that takes too long fails, and says so.
pub proof fn slow_sign_ins_fail(before: bool, r: SessionAction, after: bool)
    requires
        session_step(before, SessionInput::TimedOut, r, after),
    ensures
        after == before,
        before ==> r is Nothing,
        !before ==> fails_with(r, "websocket auth timed out waiting for server ack"@),
{
}

/// After a reconnection every message of somebody else that was fetched is seen, and nothing that
/// was seen is forgotten while there is room.
pub proof fn what_was_fetched_is_seen(
    listener: &Listener,
    channel_id: &str,
    channel_name: &str,
    messages: &Vec<Message>,
    seen: &mut TextSet,
    received_at: i64,
    r: Vec<DaemonEvent>,
    id: Seq<char>,
)
    requires
        call_ensures(
            reconnect_catchup,
            (listener, channel_id, channel_name, messages, seen, received_at),
            r,
        ),
        remembered(messages@, listener.my_user_id@, old(seen)@).len() <= 10_000,
    ensures
        final(seen)@.contains(id) <==> old(seen)@.contains(id) || exists|i: int|
            0 <= i < messages@.len() && (#[trigger] messages@[i]).user_id@ != listener.my_user_id@
                && messages@[i].id@ == id,
{
    others_are_remembered(messages@, listener.my_user_id@, old(seen)@, id);
}

} // verus!
