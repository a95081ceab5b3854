//! What is asked of the provider: the method, the path and the body of each request.
use vstd::prelude::*;
use vstd::string::*;

use crate::error::{show_status, shown_status, CoreError};
use crate::text::{concat2, concat3, decimal_text, i64_text, integer_text, texts, u64_text};

verus! {

#[derive(Debug, Clone, Copy, PartialEq, Eq, Structural)]
pub enum Method {
    Get,
    Post,
    Delete,
}

/// The value of a field of a body.
#[derive(Debug, PartialEq, Eq)]
pub enum FieldValue {
    Text(String),
    Flag(bool),
    Number(u64),
}

/// A field of a body.
#[derive(Debug, PartialEq, Eq)]
pub struct Field {
    pub name: String,
    pub value: FieldValue,
}

/// The body of a request.
#[derive(Debug, PartialEq, Eq)]
pub enum Body {
    Empty,
    /// A list of texts.
    List(Vec<String>),
    /// A record.
    Record(Vec<Field>),
}

/// A request to the provider.
#[derive(Debug, PartialEq, Eq)]
pub struct ApiRequest {
    pub method: Method,
    /// The path below the root of the interface.
    pub path: String,
    pub body: Body,
}

/// The value of a field as the contracts speak of it.
pub enum ValueView {
    Text(Seq<char>),
    Flag(bool),
    Number(nat),
}

/// A field as the contracts speak of it.
pub struct FieldView {
    pub name: Seq<char>,
    pub value: ValueView,
}

/// A body as the contracts speak of it.
pub enum BodyView {
    Empty,
    List(Seq<Seq<char>>),
    Record(Seq<FieldView>),
}

/// A request as the contracts speak of it.
pub struct RequestView {
    pub method: Method,
    pub path: Seq<char>,
    pub body: BodyView,
}

impl View for Field {
    type V = FieldView;

    open spec fn view(&self) -> FieldView {
        FieldView {
            name: self.name@,
            value: match self.value {
                FieldValue::Text(t) => ValueView::Text(t@),
                FieldValue::Flag(b) => ValueView::Flag(b),
                FieldValue::Number(n) => ValueView::Number(n as nat),
            },
        }
    }
}

pub open spec fn fields_view(fields: Seq<Field>) -> Seq<FieldView> {
    fields.map_values(|f: Field| f@)
}

impl View for Body {
    type V = BodyView;

    open spec fn view(&self) -> BodyView {
        match *self {
            Body::Empty => BodyView::Empty,
            Body::List(items) => BodyView::List(texts(items@)),
            Body::Record(fields) => BodyView::Record(fields_view(fields@)),
        }
    }
}

impl View for ApiRequest {
    type V = RequestView;

    open spec fn view(&self) -> RequestView {
        RequestView { method: self.method, path: self.path@, body: self.body@ }
    }
}

/// What is asked.
pub enum ApiCall<'a> {
    /// Who the token belongs to.
    Me,
    /// The teams of the bot.
    MyTeams,
    /// A team by its name.
    Team { slug: &'a str },
    /// The bot's channels in a team.
    TeamChannels { team_id: &'a str },
    /// All of the bot's channels.
    MyChannels { user_id: &'a str },
    /// A user by id.
    User { user_id: &'a str },
    /// A user by name.
    UserNamed { username: &'a str },
    /// A channel by its name within a team.
    ChannelNamed { team_id: &'a str, name: &'a str },
    /// The posts since a moment: one page.
    PostsSince { channel_id: &'a str, since: i64 },
    /// A page of the posts after a post.
    PostsAfter { channel_id: &'a str, after: &'a str, page: u64 },
    /// The latest posts.
    LatestPosts { channel_id: &'a str, limit: u64 },
    /// The pinned posts.
    PinnedPosts { channel_id: &'a str },
    /// One post.
    Post { post_id: &'a str },
    /// A conversation.
    Thread { root_id: &'a str },
    /// Writes a post.
    CreatePost { channel_id: &'a str, message: &'a str },
    /// Writes a reply.
    CreateReply { channel_id: &'a str, root_id: &'a str, message: &'a str },
    /// Opens the direct channel of two users.
    OpenDirect { my_id: &'a str, user_id: &'a str },
    /// Creates a public channel.
    CreateChannel { team_id: &'a str, name: &'a str, display_name: &'a str, purpose: Option<&'a str> },
    /// Archives a channel.
    ArchiveChannel { channel_id: &'a str },
    /// Restores a channel.
    RestoreChannel { channel_id: &'a str },
    /// Adds a member to a channel.
    AddMember { channel_id: &'a str, user_id: &'a str },
    /// Searches the posts of a team.
    Search { team_id: &'a str, terms: &'a str },
    /// Searches the posts of a team for the first hit.
    SearchLatest { team_id: &'a str, terms: &'a str },
    /// Adds a reaction.
    AddReaction { user_id: &'a str, post_id: &'a str, emoji: &'a str },
    /// Withdraws a reaction.
    RemoveReaction { user_id: &'a str, post_id: &'a str, emoji: &'a str },
    /// Pins a post.
    PinPost { post_id: &'a str },
    /// Unpins a post.
    UnpinPost { post_id: &'a str },
}

pub open spec fn text_field(name: Seq<char>, value: Seq<char>) -> FieldView {
    FieldView { name, value: ValueView::Text(value) }
}

fn text_of(name: &str, value: &str) -> (r: Field)
    ensures
        r@ == text_field(name@, value@),
{
    Field { name: name.to_owned(), value: FieldValue::Text(value.to_owned()) }
}

/// The method that a call uses.
pub open spec fn method_of(call: ApiCall) -> Method {
    match call {
        ApiCall::CreatePost { .. }
        | ApiCall::CreateReply { .. }
        | ApiCall::OpenDirect { .. }
        | ApiCall::CreateChannel { .. }
        | ApiCall::RestoreChannel { .. }
        | ApiCall::AddMember { .. }
        | ApiCall::Search { .. }
        | ApiCall::SearchLatest { .. }
        | ApiCall::AddReaction { .. }
        | ApiCall::PinPost { .. }
        | ApiCall::UnpinPost { .. } => Method::Post,
        ApiCall::ArchiveChannel { .. }
        | ApiCall::RemoveReaction { .. } => Method::Delete,
        _ => Method::Get,
    }
}

/// The path that a call names.
pub open spec fn path_of(call: ApiCall) -> Seq<char> {
    match call {
        ApiCall::Me => "/users/me"@,
        ApiCall::MyTeams => "/users/me/teams"@,
        ApiCall::Team { slug } => "/teams/name/"@ + slug@,
        ApiCall::TeamChannels { team_id } => "/users/me/teams/"@ + team_id@ + "/channels"@,
        ApiCall::MyChannels { user_id } => "/users/"@ + user_id@ + "/channels?per_page=100"@,
        ApiCall::User { user_id } => "/users/"@ + user_id@,
        ApiCall::UserNamed { username } => "/users/username/"@ + username@,
        ApiCall::ChannelNamed { team_id, name } => "/teams/"@ + team_id@ + "/channels/name/"@ + name@,
        ApiCall::PostsSince { channel_id, since } => "/channels/"@ + channel_id@ + "/posts?since="@ + integer_text(since as int) + "&per_page=30"@,
        ApiCall::PostsAfter { channel_id, after, page } => "/channels/"@ + channel_id@ + "/posts?after="@ + after@ + "&page="@ + decimal_text(page as nat) + "&per_page=200"@,
        ApiCall::LatestPosts { channel_id, limit } => "/channels/"@ + channel_id@ + "/posts?per_page="@ + decimal_text(limit as nat),
        ApiCall::PinnedPosts { channel_id } => "/channels/"@ + channel_id@ + "/pinned"@,
        ApiCall::Post { post_id } => "/posts/"@ + post_id@,
        ApiCall::Thread { root_id } => "/posts/"@ + root_id@ + "/thread"@,
        ApiCall::CreatePost { .. } => "/posts"@,
        ApiCall::CreateReply { .. } => "/posts"@,
        ApiCall::OpenDirect { .. } => "/channels/direct"@,
        ApiCall::CreateChannel { .. } => "/channels"@,
        ApiCall::ArchiveChannel { channel_id } => "/channels/"@ + channel_id@,
        ApiCall::RestoreChannel { channel_id } => "/channels/"@ + channel_id@ + "/restore"@,
        ApiCall::AddMember { channel_id, .. } => "/channels/"@ + channel_id@ + "/members"@,
        ApiCall::Search { team_id, .. } => "/teams/"@ + team_id@ + "/posts/search"@,
        ApiCall::SearchLatest { team_id, .. } => "/teams/"@ + team_id@ + "/posts/search"@,
        ApiCall::AddReaction { .. } => "/reactions"@,
        ApiCall::RemoveReaction { user_id, post_id, emoji } => "/users/"@ + user_id@ + "/posts/"@ + post_id@ + "/reactions/"@ + emoji@,
        ApiCall::PinPost { post_id } => "/posts/"@ + post_id@ + "/pin"@,
        ApiCall::UnpinPost { post_id } => "/posts/"@ + post_id@ + "/unpin"@,
    }
}

/// The body that a call sends.
pub open spec fn body_of(call: ApiCall) -> BodyView {
    match call {
        ApiCall::CreatePost { channel_id, message } => BodyView::Record(
            seq![text_field("channel_id"@, channel_id@), text_field("message"@, message@)],
        ),
        ApiCall::CreateReply { channel_id, root_id, message } => BodyView::Record(
            seq![text_field("channel_id"@, channel_id@), text_field("root_id"@, root_id@), text_field("message"@, message@)],
        ),
        ApiCall::OpenDirect { my_id, user_id } => BodyView::List(seq![my_id@, user_id@]),
        ApiCall::CreateChannel { team_id, name, display_name, purpose } => BodyView::Record(
            seq![
                text_field("team_id"@, team_id@),
                text_field("name"@, name@),
                text_field("display_name"@, display_name@),
                text_field("type"@, "O"@),
            ] + (match purpose {
                Some(text) => seq![text_field("purpose"@, text@)],
                None => Seq::empty(),
            }),
        ),
        ApiCall::AddMember { user_id, .. } => BodyView::Record(
            seq![text_field("user_id"@, user_id@)],
        ),
        ApiCall::Search { terms, .. } => BodyView::Record(
            seq![text_field("terms"@, terms@), FieldView { name: "is_or_search"@, value: ValueView::Flag(false) }],
        ),
        ApiCall::SearchLatest { terms, .. } => BodyView::Record(
            seq![text_field("terms"@, terms@), FieldView { name: "is_or_search"@, value: ValueView::Flag(false) }, FieldView { name: "page"@, value: ValueView::Number(0) }, FieldView { name: "per_page"@, value: ValueView::Number(1) }],
        ),
        ApiCall::AddReaction { user_id, post_id, emoji } => BodyView::Record(
            seq![text_field("user_id"@, user_id@), text_field("post_id"@, post_id@), text_field("emoji_name"@, emoji@)],
        ),
        _ => BodyView::Empty,
    }
}

/// The request for a call.
pub open spec fn request_of(call: ApiCall) -> RequestView {
    RequestView { method: method_of(call), path: path_of(call), body: body_of(call) }
}

fn path_for(call: &ApiCall) -> (r: String)
    ensures
        r@ == path_of(*call),
{
    match call {
        ApiCall::Me => "/users/me".to_owned(),
        ApiCall::MyTeams => "/users/me/teams".to_owned(),
        ApiCall::Team { slug } => concat2("/teams/name/", slug),
        ApiCall::TeamChannels { team_id } => concat3("/users/me/teams/", team_id, "/channels"),
        ApiCall::MyChannels { user_id } => concat3("/users/", user_id, "/channels?per_page=100"),
        ApiCall::User { user_id } => concat2("/users/", user_id),
        ApiCall::UserNamed { username } => concat2("/users/username/", username),
        ApiCall::ChannelNamed { team_id, name } => {
            let mut path = "/teams/".to_owned();
            path.append(team_id);
            path.append("/channels/name/");
            path.append(name);
            path
        },
        ApiCall::PostsSince { channel_id, since } => {
            let mut path = "/channels/".to_owned();
            path.append(channel_id);
            path.append("/posts?since=");
            path.append(i64_text(*since).as_str());
            path.append("&per_page=30");
            path
        },
        ApiCall::PostsAfter { channel_id, after, page } => {
            let mut path = "/channels/".to_owned();
            path.append(channel_id);
            path.append("/posts?after=");
            path.append(after);
            path.append("&page=");
            path.append(u64_text(*page).as_str());
            path.append("&per_page=200");
            path
        },
        ApiCall::LatestPosts { channel_id, limit } => {
            let mut path = "/channels/".to_owned();
            path.append(channel_id);
            path.append("/posts?per_page=");
            path.append(u64_text(*limit).as_str());
            path
        },
        ApiCall::PinnedPosts { channel_id } => concat3("/channels/", channel_id, "/pinned"),
        ApiCall::Post { post_id } => concat2("/posts/", post_id),
        ApiCall::Thread { root_id } => concat3("/posts/", root_id, "/thread"),
        ApiCall::CreatePost { .. } => "/posts".to_owned(),
        ApiCall::CreateReply { .. } => "/posts".to_owned(),
        ApiCall::OpenDirect { .. } => "/channels/direct".to_owned(),
        ApiCall::CreateChannel { .. } => "/channels".to_owned(),
        ApiCall::ArchiveChannel { channel_id } => concat2("/channels/", channel_id),
        ApiCall::RestoreChannel { channel_id } => concat3("/channels/", channel_id, "/restore"),
        ApiCall::AddMember { channel_id, .. } => concat3("/channels/", channel_id, "/members"),
        ApiCall::Search { team_id, .. } => concat3("/teams/", team_id, "/posts/search"),
        ApiCall::SearchLatest { team_id, .. } => concat3("/teams/", team_id, "/posts/search"),
        ApiCall::AddReaction { .. } => "/reactions".to_owned(),
        ApiCall::RemoveReaction { user_id, post_id, emoji } => {
            let mut path = "/users/".to_owned();
            path.append(user_id);
            path.append("/posts/");
            path.append(post_id);
            path.append("/reactions/");
            path.append(emoji);
            path
        },
        ApiCall::PinPost { post_id } => concat3("/posts/", post_id, "/pin"),
        ApiCall::UnpinPost { post_id } => concat3("/posts/", post_id, "/unpin"),
    }
}

fn body_for(call: &ApiCall) -> (r: Body)
    ensures
        r@ == body_of(*call),
{
    match call {
        ApiCall::CreatePost { channel_id, message } => {
            let mut fields: Vec<Field> = Vec::new();
            fields.push(text_of("channel_id", channel_id));
            fields.push(text_of("message", message));
            proof {
                assert(fields_view(fields@) =~= body_of(*call)->Record_0);
            }
            Body::Record(fields)
        },
        ApiCall::CreateReply { channel_id, root_id, message } => {
            let mut fields: Vec<Field> = Vec::new();
            fields.push(text_of("channel_id", channel_id));
            fields.push(text_of("root_id", root_id));
            fields.push(text_of("message", message));
            proof {
                assert(fields_view(fields@) =~= body_of(*call)->Record_0);
            }
            Body::Record(fields)
        },
        ApiCall::OpenDirect { my_id, user_id } => {
            let mut items: Vec<String> = Vec::new();
            items.push((*my_id).to_owned());
            items.push((*user_id).to_owned());
            proof {
                assert(texts(items@) =~= body_of(*call)->List_0);
            }
            Body::List(items)
        },
        ApiCall::CreateChannel { team_id, name, display_name, purpose } => {
            let mut fields: Vec<Field> = Vec::new();
            fields.push(text_of("team_id", team_id));
            fields.push(text_of("name", name));
            fields.push(text_of("display_name", display_name));
            fields.push(text_of("type", "O"));
            match purpose {
                Some(text) => {
                    fields.push(text_of("purpose", text));
                },
                None => {},
            }
            proof {
                assert(fields_view(fields@) =~= body_of(*call)->Record_0);
            }
            Body::Record(fields)
        },
        ApiCall::AddMember { user_id, .. } => {
            let mut fields: Vec<Field> = Vec::new();
            fields.push(text_of("user_id", user_id));
            proof {
                assert(fields_view(fields@) =~= body_of(*call)->Record_0);
            }
            Body::Record(fields)
        },
        ApiCall::Search { terms, .. } => {
            let mut fields: Vec<Field> = Vec::new();
            fields.push(text_of("terms", terms));
            fields.push(Field { name: "is_or_search".to_owned(), value: FieldValue::Flag(false) });
            proof {
                assert(fields_view(fields@) =~= body_of(*call)->Record_0);
            }
            Body::Record(fields)
        },
        ApiCall::SearchLatest { terms, .. } => {
            let mut fields: Vec<Field> = Vec::new();
            fields.push(text_of("terms", terms));
            fields.push(Field { name: "is_or_search".to_owned(), value: FieldValue::Flag(false) });
            fields.push(Field { name: "page".to_owned(), value: FieldValue::Number(0) });
            fields.push(Field { name: "per_page".to_owned(), value: FieldValue::Number(1) });
            proof {
                assert(fields_view(fields@) =~= body_of(*call)->Record_0);
            }
            Body::Record(fields)
        },
        ApiCall::AddReaction { user_id, post_id, emoji } => {
            let mut fields: Vec<Field> = Vec::new();
            fields.push(text_of("user_id", user_id));
            fields.push(text_of("post_id", post_id));
            fields.push(text_of("emoji_name", emoji));
            proof {
                assert(fields_view(fields@) =~= body_of(*call)->Record_0);
            }
            Body::Record(fields)
        },
        _ => Body::Empty,
    }
}

/// The request for a call.
pub fn request_for(call: &ApiCall) -> (r: ApiRequest)
    ensures
        r@ == request_of(*call),
{
    let method = match call {
        ApiCall::CreatePost { .. }
        | ApiCall::CreateReply { .. }
        | ApiCall::OpenDirect { .. }
        | ApiCall::CreateChannel { .. }
        | ApiCall::RestoreChannel { .. }
        | ApiCall::AddMember { .. }
        | ApiCall::Search { .. }
        | ApiCall::SearchLatest { .. }
        | ApiCall::AddReaction { .. }
        | ApiCall::PinPost { .. }
        | ApiCall::UnpinPost { .. } => Method::Post,
        ApiCall::ArchiveChannel { .. }
        | ApiCall::RemoveReaction { .. } => Method::Delete,
        _ => Method::Get,
    };
    ApiRequest { method, path: path_for(call), body: body_for(call) }
}

/// What an answer means: outside the range of success it is an error that carries
/// its text.
pub fn accept_status(status: u16, text: &str) -> (r: Result<(), CoreError>)
    ensures
        match r {
            Ok(_) => 200 <= status <= 299,
            Err(e) => !(200 <= status <= 299) && (e matches CoreError::Api { status: s, message }
                && s == status && message@ == text@),
        },
{
    if 200 <= status && status <= 299 {
        Ok(())
    } else {
        Err(CoreError::Api { status, message: text.to_owned() })
    }
}

/// Why the name of an author is not known, in a few words that tell nothing of the
/// answer's text.
pub fn lookup_failure(err: &CoreError) -> (r: String)
    ensures
        r@ == (match err {
            CoreError::Api { status, .. } => "status "@ + shown_status(*status),
            CoreError::Http(_) => "transport failure"@,
            _ => "decode failure"@,
        }),
{
    match err {
        CoreError::Api { status, .. } => concat2("status ", show_status(*status).as_str()),
        CoreError::Http(_) => "transport failure".to_owned(),
        _ => "decode failure".to_owned(),
    }
}

/// A request that reads sends nothing.
pub proof fn reading_sends_nothing(call: ApiCall)
    ensures
        method_of(call) is Get ==> body_of(call) is Empty,
{
}

/// A record that was sent: its fields, in their order.
proof fn record_fields(r: ApiRequest, call: ApiCall)
    requires
        r@ == request_of(call),
        body_of(call) is Record,
    ensures
        r.body matches Body::Record(fields) && fields@.len() == body_of(call)->Record_0.len() && (
        forall|i: int|
            0 <= i < fields@.len() ==> (#[trigger] fields@[i])@ == body_of(call)->Record_0[i]),
{
    match r.body {
        Body::Record(fields) => {
            let sent = fields_view(fields@);
            assert(sent == body_of(call)->Record_0);
            assert forall|i: int| 0 <= i < fields@.len() implies (#[trigger] fields@[i])@ == body_of(
                call,
            )->Record_0[i] by {
                assert(sent[i] == fields@[i]@);
            }
        },
        _ => {},
    }
}

/// A search asks for posts with all of its words: the terms as they are given, joined by
/// no "or". A search for the latest hit asks for the first of one on a page as well.
pub proof fn searches_ask_for_all_words(team_id: &str, terms: &str, r: ApiRequest, latest: bool)
    requires
        r@ == request_of(
            if latest {
                ApiCall::SearchLatest { team_id, terms }
            } else {
                ApiCall::Search { team_id, terms }
            },
        ),
    ensures
        r.method is Post,
        r.path@ == "/teams/"@ + team_id@ + "/posts/search"@,
        r.body matches Body::Record(fields) && {
            &&& fields@.len() == (if latest {
                4int
            } else {
                2int
            })
            &&& fields@[0].name@ == "terms"@ && (fields@[0].value matches FieldValue::Text(t) && t@
                == terms@)
            &&& fields@[1].name@ == "is_or_search"@ && fields@[1].value == FieldValue::Flag(false)
            &&& latest ==> fields@[2].name@ == "page"@ && fields@[2].value == FieldValue::Number(0)
            &&& latest ==> fields@[3].name@ == "per_page"@ && fields@[3].value
                == FieldValue::Number(1)
        },
{
    let call = if latest {
        ApiCall::SearchLatest { team_id, terms }
    } else {
        ApiCall::Search { team_id, terms }
    };
    record_fields(r, call);
    let fields = r.body->Record_0;
    assert(fields@[0]@ == text_field("terms"@, terms@));
    assert(fields@[1]@.value == ValueView::Flag(false));
    if latest {
        assert(fields@[2]@.value == ValueView::Number(0));
        assert(fields@[3]@.value == ValueView::Number(1));
    }
}

/// A message is posted to the channel it is meant for, with its own text. A reply also
/// names the post that it answers.
pub proof fn messages_go_where_they_are_meant_to(
    channel_id: &str,
    root_id: &str,
    message: &str,
    post: ApiRequest,
    reply: ApiRequest,
)
    requires
        post@ == request_of(ApiCall::CreatePost { channel_id, message }),
        reply@ == request_of(ApiCall::CreateReply { channel_id, root_id, message }),
    ensures
        post.method is Post && reply.method is Post,
        post.path@ == "/posts"@ && reply.path@ == "/posts"@,
        post.body matches Body::Record(fields) && {
            &&& fields@.len() == 2
            &&& fields@[0].name@ == "channel_id"@ && (fields@[0].value matches FieldValue::Text(t) && t@ == channel_id@)
            &&& fields@[1].name@ == "message"@ && (fields@[1].value matches FieldValue::Text(t) && t@ == message@)
        },
        reply.body matches Body::Record(fields) && {
            &&& fields@.len() == 3
            &&& fields@[0].name@ == "channel_id"@ && (fields@[0].value matches FieldValue::Text(t) && t@ == channel_id@)
            &&& fields@[1].name@ == "root_id"@ && (fields@[1].value matches FieldValue::Text(t) && t@ == root_id@)
            &&& fields@[2].name@ == "message"@ && (fields@[2].value matches FieldValue::Text(t) && t@ == message@)
        },
{
    record_fields(post, ApiCall::CreatePost { channel_id, message });
    record_fields(reply, ApiCall::CreateReply { channel_id, root_id, message });
    let p = post.body->Record_0;
    let q = reply.body->Record_0;
    assert(p@[0]@ == text_field("channel_id"@, channel_id@));
    assert(p@[1]@ == text_field("message"@, message@));
    assert(q@[0]@ == text_field("channel_id"@, channel_id@));
    assert(q@[1]@ == text_field("root_id"@, root_id@));
    assert(q@[2]@ == text_field("message"@, message@));
}

/// A reaction is put on a post under a user's name, and withdrawn from the same post
/// under the same name.
pub proof fn reactions_name_user_and_post(
    user_id: &str,
    post_id: &str,
    emoji: &str,
    put: ApiRequest,
    withdrawn: ApiRequest,
)
    requires
        put@ == request_of(ApiCall::AddReaction { user_id, post_id, emoji }),
        withdrawn@ == request_of(ApiCall::RemoveReaction { user_id, post_id, emoji }),
    ensures
        put.method is Post && put.path@ == "/reactions"@,
        put.body matches Body::Record(fields) && {
            &&& fields@.len() == 3
            &&& fields@[0].name@ == "user_id"@ && (fields@[0].value matches FieldValue::Text(t) && t@ == user_id@)
            &&& fields@[1].name@ == "post_id"@ && (fields@[1].value matches FieldValue::Text(t) && t@ == post_id@)
            &&& fields@[2].name@ == "emoji_name"@ && (fields@[2].value matches FieldValue::Text(t) && t@ == emoji@)
        },
        withdrawn.method is Delete && withdrawn.body is Empty,
        withdrawn.path@ == "/users/"@ + user_id@ + "/posts/"@ + post_id@ + "/reactions/"@ + emoji@,
{
    record_fields(put, ApiCall::AddReaction { user_id, post_id, emoji });
    let p = put.body->Record_0;
    assert(p@[0]@ == text_field("user_id"@, user_id@));
    assert(p@[1]@ == text_field("post_id"@, post_id@));
    assert(p@[2]@ == text_field("emoji_name"@, emoji@));
}

/// Pinning and unpinning name the post and what is done to it, and send nothing else.
pub proof fn pins_and_unpins_differ(post_id: &str, pin: ApiRequest, unpin: ApiRequest)
    requires
        pin@ == request_of(ApiCall::PinPost { post_id }),
        unpin@ == request_of(ApiCall::UnpinPost { post_id }),
    ensures
        pin.method is Post && pin.body is Empty && pin.path@ == "/posts/"@ + post_id@ + "/pin"@,
        unpin.method is Post && unpin.body is Empty && unpin.path@ == "/posts/"@ + post_id@
            + "/unpin"@,
{
}

/// A channel is created public, in the team that is meant, with a purpose only where one
/// is given. It is archived by deleting it, and restored by its own name.
pub proof fn channels_are_managed_by_id(
    team_id: &str,
    name: &str,
    display_name: &str,
    purpose: Option<&str>,
    channel_id: &str,
    user_id: &str,
    created: ApiRequest,
    archived: ApiRequest,
    restored: ApiRequest,
    joined: ApiRequest,
)
    requires
        created@ == request_of(ApiCall::CreateChannel { team_id, name, display_name, purpose }),
        archived@ == request_of(ApiCall::ArchiveChannel { channel_id }),
        restored@ == request_of(ApiCall::RestoreChannel { channel_id }),
        joined@ == request_of(ApiCall::AddMember { channel_id, user_id }),
    ensures
        created.method is Post && created.path@ == "/channels"@,
        created.body matches Body::Record(fields) && {
            &&& fields@.len() == (if purpose is Some {
                5int
            } else {
                4int
            })
            &&& fields@[0].name@ == "team_id"@ && (fields@[0].value matches FieldValue::Text(t) && t@ == team_id@)
            &&& fields@[1].name@ == "name"@ && (fields@[1].value matches FieldValue::Text(t) && t@ == name@)
            &&& fields@[2].name@ == "display_name"@ && (fields@[2].value matches FieldValue::Text(t) && t@ == display_name@)
            &&& fields@[3].name@ == "type"@ && (fields@[3].value matches FieldValue::Text(t) && t@ == "O"@)
            &&& purpose is Some ==> (fields@[4].name@ == "purpose"@ && (fields@[4].value matches FieldValue::Text(t) && t@ == purpose->0@))
        },
        archived.method is Delete && archived.body is Empty && archived.path@ == "/channels/"@
            + channel_id@,
        restored.method is Post && restored.body is Empty && restored.path@ == "/channels/"@
            + channel_id@ + "/restore"@,
        joined.method is Post && joined.path@ == "/channels/"@ + channel_id@ + "/members"@,
        joined.body matches Body::Record(fields) && {
            &&& fields@.len() == 1
            &&& fields@[0].name@ == "user_id"@ && (fields@[0].value matches FieldValue::Text(t) && t@ == user_id@)
        },
{
    let c = ApiCall::CreateChannel { team_id, name, display_name, purpose };
    record_fields(created, c);
    record_fields(joined, ApiCall::AddMember { channel_id, user_id });
    let p = created.body->Record_0;
    let q = joined.body->Record_0;
    assert(p@[0]@ == text_field("team_id"@, team_id@));
    assert(p@[1]@ == text_field("name"@, name@));
    assert(p@[2]@ == text_field("display_name"@, display_name@));
    assert(p@[3]@ == text_field("type"@, "O"@));
    if purpose is Some {
        assert(p@[4]@ == text_field("purpose"@, purpose->0@));
    }
    assert(q@[0]@ == text_field("user_id"@, user_id@));
}

/// A direct channel is opened between the two users that are named, the bot first.
pub proof fn direct_channels_join_two_users(my_id: &str, user_id: &str, r: ApiRequest)
    requires
        r@ == request_of(ApiCall::OpenDirect { my_id, user_id }),
    ensures
        r.method is Post && r.path@ == "/channels/direct"@,
        r.body matches Body::List(ids) && ids@.len() == 2 && ids@[0]@ == my_id@ && ids@[1]@
            == user_id@,
{
    let ids = r.body->List_0;
    let sent = texts(ids@);
    assert(sent == seq![my_id@, user_id@]);
    assert(sent[0] == ids@[0]@ && sent[1] == ids@[1]@);
}

/// What is read is named by the path alone, and reading sends nothing.
pub proof fn reads_name_what_they_read(
    id: &str,
    other: &str,
    since: i64,
    count: u64,
    r: ApiRequest,
    call: ApiCall,
)
    requires
        r@ == request_of(call),
    ensures
        call == (ApiCall::Me) ==> r.method is Get && r.body is Empty && r.path@
            == "/users/me"@,
        call == (ApiCall::MyTeams) ==> r.method is Get && r.body is Empty && r.path@
            == "/users/me/teams"@,
        call == (ApiCall::Team { slug: id }) ==> r.method is Get && r.body is Empty && r.path@
            == "/teams/name/"@ + id@,
        call == (ApiCall::TeamChannels { team_id: id }) ==> r.method is Get && r.body is Empty && r.path@
            == "/users/me/teams/"@ + id@ + "/channels"@,
        call == (ApiCall::MyChannels { user_id: id }) ==> r.method is Get && r.body is Empty && r.path@
            == "/users/"@ + id@ + "/channels?per_page=100"@,
        call == (ApiCall::User { user_id: id }) ==> r.method is Get && r.body is Empty && r.path@
            == "/users/"@ + id@,
        call == (ApiCall::UserNamed { username: id }) ==> r.method is Get && r.body is Empty && r.path@
            == "/users/username/"@ + id@,
        call == (ApiCall::ChannelNamed { team_id: id, name: other }) ==> r.method is Get && r.body is Empty && r.path@
            == "/teams/"@ + id@ + "/channels/name/"@ + other@,
        call == (ApiCall::PostsSince { channel_id: id, since }) ==> r.method is Get && r.body is Empty && r.path@
            == "/channels/"@ + id@ + "/posts?since="@ + integer_text(since as int) + "&per_page=30"@,
        call == (ApiCall::PostsAfter { channel_id: id, after: other, page: count }) ==> r.method is Get && r.body is Empty && r.path@
            == "/channels/"@ + id@ + "/posts?after="@ + other@ + "&page="@ + decimal_text(count as nat) + "&per_page=200"@,
        call == (ApiCall::LatestPosts { channel_id: id, limit: count }) ==> r.method is Get && r.body is Empty && r.path@
            == "/channels/"@ + id@ + "/posts?per_page="@ + decimal_text(count as nat),
        call == (ApiCall::PinnedPosts { channel_id: id }) ==> r.method is Get && r.body is Empty && r.path@
            == "/channels/"@ + id@ + "/pinned"@,
        call == (ApiCall::Post { post_id: id }) ==> r.method is Get && r.body is Empty && r.path@
            == "/posts/"@ + id@,
        call == (ApiCall::Thread { root_id: id }) ==> r.method is Get && r.body is Empty && r.path@
            == "/posts/"@ + id@ + "/thread"@,
{
}

/// An answer is accepted if and only if its status is one of success; else it is an error
/// with the status and the text.
pub proof fn only_success_is_accepted(status: u16, text: &str, r: Result<(), CoreError>)
    requires
        call_ensures(accept_status, (status, text), r),
    ensures
        r is Ok <==> 200 <= status < 300,
        r is Err ==> (r->Err_0 matches CoreError::Api { status: s, message } && s == status && message@
            == text@),
{
}

/// Why a name is not known is told without the words of the answer.
pub proof fn failed_lookups_keep_quiet(err: &CoreError, r: String)
    requires
        call_ensures(lookup_failure, (err,), r),
    ensures
        err is Api ==> r@ == "status "@ + shown_status(err->Api_status),
        err is Http ==> r@ == "transport failure"@,
        !(err is Api) && !(err is Http) ==> r@ == "decode failure"@,
{
}

} // verus!
