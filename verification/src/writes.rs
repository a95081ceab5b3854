//! Writing to a post: replies, reactions and pins.
//!
//! The channel is resolved first, then the post is looked up in it, and only then is
//! anything written.
use vstd::prelude::*;
use vstd::string::*;

use crate::channels::{forbidden, is_forbidden, pin_by_id, pin_error, reaction_result,
    unpin_by_id, unreact_by_id};
use crate::error::CoreError;
use crate::posts::{absent, fetch_post_pinned_state, not_in_channel, post_receipt};
use crate::requests::{request_for, text_field, ApiCall, ApiRequest, BodyView, Method,
    RequestView};
use crate::search::{emoji_name, normalize_emoji_name};
use crate::text::opt_text;
use crate::types::{Identity, PinResult, PostReceipt, ReactionResult, ResolvedChannel, UnpinResult};

verus! {

/// What is done to a post.
#[derive(Debug, PartialEq, Eq)]
pub enum PostWrite {
    Reply { message: String },
    React { emoji: String },
    Unreact { emoji: String },
    Pin,
    Unpin,
}

/// Where a post is, and whether it is pinned.
#[derive(Debug, PartialEq, Eq)]
pub struct PostPlace {
    pub channel_id: String,
    pub is_pinned: bool,
}

/// How far a write has come: which answer it waits for.
#[derive(Debug)]
pub enum WriteStage {
    /// The channel.
    Resolving,
    /// The post.
    Checking { resolved: ResolvedChannel },
    /// Who reacts.
    Naming { resolved: ResolvedChannel },
    /// What came of the write.
    Writing { resolved: ResolvedChannel, was_pinned: bool },
    /// Who was refused.
    Blaming { resolved: ResolvedChannel, err: CoreError },
}

/// A write to a post.
#[derive(Debug)]
pub struct WriteFlow {
    pub post_id: String,
    pub write: PostWrite,
    pub stage: WriteStage,
}

/// A question of a write.
#[derive(Debug)]
pub enum WriteAsk {
    /// Which channel is meant.
    Resolve,
    /// Where the post is.
    Fetch(ApiRequest),
    /// Who the token belongs to.
    WhoAmI,
    /// Write.
    Send(ApiRequest),
}

/// The answer to a question.
#[derive(Debug)]
pub enum WriteEvent {
    Resolved(Result<ResolvedChannel, CoreError>),
    Found(Result<PostPlace, CoreError>),
    Me(Result<Identity, CoreError>),
    /// The id that the answer to the write names, empty where it names none.
    Written(Result<String, CoreError>),
}

/// What came of a write.
#[derive(Debug, PartialEq, Eq)]
pub enum WriteOutcome {
    Replied(PostReceipt),
    Reaction(ReactionResult),
    Pinned(PinResult),
    Unpinned(UnpinResult),
}

/// What a write does next.
#[derive(Debug)]
pub enum WriteStep {
    Ask(WriteFlow, WriteAsk),
    Done(Result<WriteOutcome, CoreError>),
}

// ---------------------------------------------------------------------------
// What follows an answer
// ---------------------------------------------------------------------------

/// The write goes on in a stage, with a question.
pub open spec fn goes_on(from: WriteFlow, step: WriteStep, stage: WriteStage) -> bool {
    step matches WriteStep::Ask(next, _) && next.post_id == from.post_id && next.write == from.write
        && next.stage == stage
}

/// The question that a step asks.
pub open spec fn asked(step: WriteStep) -> Option<WriteAsk> {
    match step {
        WriteStep::Ask(_, ask) => Some(ask),
        WriteStep::Done(_) => None,
    }
}

/// The request for a post.
pub open spec fn fetch_request(post_id: Seq<char>) -> RequestView {
    RequestView { method: Method::Get, path: "/posts/"@ + post_id, body: BodyView::Empty }
}

/// The request that writes, for a user with this id.
pub open spec fn write_request(
    write: PostWrite,
    post_id: Seq<char>,
    channel_id: Seq<char>,
    user_id: Seq<char>,
) -> RequestView {
    match write {
        PostWrite::Reply { message } => RequestView {
            method: Method::Post,
            path: "/posts"@,
            body: BodyView::Record(
                seq![
                    text_field("channel_id"@, channel_id),
                    text_field("root_id"@, post_id),
                    text_field("message"@, message@),
                ],
            ),
        },
        PostWrite::React { emoji } => RequestView {
            method: Method::Post,
            path: "/reactions"@,
            body: BodyView::Record(
                seq![
                    text_field("user_id"@, user_id),
                    text_field("post_id"@, post_id),
                    text_field("emoji_name"@, emoji_name(emoji@)),
                ],
            ),
        },
        PostWrite::Unreact { emoji } => RequestView {
            method: Method::Delete,
            path: "/users/"@ + user_id + "/posts/"@ + post_id + "/reactions/"@ + emoji_name(emoji@),
            body: BodyView::Empty,
        },
        PostWrite::Pin => RequestView {
            method: Method::Post,
            path: "/posts/"@ + post_id + "/pin"@,
            body: BodyView::Empty,
        },
        PostWrite::Unpin => RequestView {
            method: Method::Post,
            path: "/posts/"@ + post_id + "/unpin"@,
            body: BodyView::Empty,
        },
    }
}

/// The step writes with this request.
pub open spec fn sends(step: WriteStep, request: RequestView) -> bool {
    asked(step) matches Some(WriteAsk::Send(r)) && r@ == request
}

/// The write ends with an error.
pub open spec fn ends_with(step: WriteStep, e: CoreError) -> bool {
    step == WriteStep::Done(Err(e))
}

/// The write ends because the post is not where it was asked for, or could not be
/// looked up.
pub open spec fn ends_unfound(
    step: WriteStep,
    found: Result<PostPlace, CoreError>,
    post_id: Seq<char>,
    channel_name: Seq<char>,
) -> bool {
    step matches WriteStep::Done(Err(e)) && match found {
        Ok(_) => not_in_channel(e, post_id, channel_name),
        Err(err) => (absent(err) ==> (e matches CoreError::AnchorNotFound(id) && id@ == post_id))
            && (!absent(err) ==> e == err),
    }
}

/// The post is in the channel.
pub open spec fn is_there(found: Result<PostPlace, CoreError>, resolved: ResolvedChannel) -> bool {
    found matches Ok(place) && place.channel_id@ == resolved.channel_id@
}

/// Reactions are those of a user.
pub open spec fn needs_a_name(write: PostWrite) -> bool {
    write is React || write is Unreact
}

/// Whether it matters that the post was pinned before.
pub open spec fn about_pins(write: PostWrite) -> bool {
    write is Pin || write is Unpin
}

/// What follows once the post was found in the channel.
pub open spec fn after_check(
    flow: WriteFlow,
    resolved: ResolvedChannel,
    is_pinned: bool,
    step: WriteStep,
) -> bool {
    if needs_a_name(flow.write) {
        goes_on(flow, step, WriteStage::Naming { resolved }) && asked(step) == Some(
            WriteAsk::WhoAmI,
        )
    } else {
        goes_on(
            flow,
            step,
            WriteStage::Writing { resolved, was_pinned: about_pins(flow.write) && is_pinned },
        ) && sends(
            step,
            write_request(flow.write, flow.post_id@, resolved.channel_id@, Seq::empty()),
        )
    }
}

/// What is reported of a reaction.
pub open spec fn reacted(
    step: WriteStep,
    resolved: ResolvedChannel,
    post_id: Seq<char>,
    emoji: Seq<char>,
) -> bool {
    step matches WriteStep::Done(Ok(WriteOutcome::Reaction(done))) && done.team
        == resolved.team_name && done.channel == resolved.channel_name && done.post_id@ == post_id
        && done.emoji@ == emoji_name(emoji) && done.ok
}

/// What follows an answer to a write.
pub open spec fn after_write(
    flow: WriteFlow,
    resolved: ResolvedChannel,
    was_pinned: bool,
    answer: Result<String, CoreError>,
    step: WriteStep,
) -> bool {
    match (flow.write, answer) {
        (PostWrite::Reply { .. }, Ok(id)) => step matches WriteStep::Done(
            Ok(WriteOutcome::Replied(receipt)),
        ) && receipt.id == id && opt_text(receipt.parent_id) == Some(flow.post_id@),
        (PostWrite::React { emoji }, Ok(_)) => reacted(step, resolved, flow.post_id@, emoji@),
        (PostWrite::Unreact { emoji }, Ok(_)) => reacted(step, resolved, flow.post_id@, emoji@),
        (PostWrite::Unreact { emoji }, Err(e)) => if absent(e) {
            reacted(step, resolved, flow.post_id@, emoji@)
        } else {
            ends_with(step, e)
        },
        (PostWrite::Pin, Ok(_)) => step matches WriteStep::Done(Ok(WriteOutcome::Pinned(done)))
            && done.team == resolved.team_name && done.channel == resolved.channel_name
            && done.channel_id == resolved.channel_id && done.post_id@ == flow.post_id@
            && done.was_already_pinned == was_pinned && done.ok && done.verb@ == "pin"@
            && done.result@ == "pinned"@,
        (PostWrite::Unpin, Ok(_)) => step matches WriteStep::Done(Ok(WriteOutcome::Unpinned(done)))
            && done.team == resolved.team_name && done.channel == resolved.channel_name
            && done.channel_id == resolved.channel_id && done.post_id@ == flow.post_id@
            && done.was_already_unpinned == !was_pinned && done.ok && done.verb@ == "unpin"@
            && done.result@ == "unpinned"@,
        (_, Err(e)) => if about_pins(flow.write) && forbidden(e) {
            goes_on(flow, step, WriteStage::Blaming { resolved, err: e }) && asked(step) == Some(
                WriteAsk::WhoAmI,
            )
        } else {
            ends_with(step, e)
        },
    }
}

/// The error of a pin that was refused to a bot.
pub open spec fn ends_refused(
    flow: WriteFlow,
    resolved: ResolvedChannel,
    err: CoreError,
    me: Result<Identity, CoreError>,
    step: WriteStep,
) -> bool {
    step matches WriteStep::Done(Err(e)) && if forbidden(err) {
        e matches CoreError::PinPermissionDenied { verb, bot_username, team, channel, message }
            && verb@ == (if flow.write is Unpin {
            "unpin"@
        } else {
            "pin"@
        }) && bot_username@ == (match me {
            Ok(identity) => identity.username@,
            Err(_) => Seq::<char>::empty(),
        }) && team == resolved.team_name && channel == resolved.channel_name && message
            == err->Api_message
    } else {
        e == err
    }
}

/// `step` is what follows an answer.
pub open spec fn write_step(flow: WriteFlow, event: WriteEvent, step: WriteStep) -> bool {
    match (flow.stage, event) {
        (WriteStage::Resolving, WriteEvent::Resolved(Ok(resolved))) => goes_on(
            flow,
            step,
            WriteStage::Checking { resolved },
        ) && (asked(step) matches Some(WriteAsk::Fetch(r)) && r@ == fetch_request(flow.post_id@)),
        (WriteStage::Resolving, WriteEvent::Resolved(Err(e))) => ends_with(step, e),
        (WriteStage::Checking { resolved }, WriteEvent::Found(found)) => {
            if !is_there(found, resolved) {
                ends_unfound(step, found, flow.post_id@, resolved.channel_name@)
            } else {
                after_check(flow, resolved, found->Ok_0.is_pinned, step)
            }
        },
        (WriteStage::Naming { resolved }, WriteEvent::Me(Ok(identity))) => goes_on(
            flow,
            step,
            WriteStage::Writing { resolved, was_pinned: false },
        ) && sends(
            step,
            write_request(flow.write, flow.post_id@, resolved.channel_id@, identity.id@),
        ),
        (WriteStage::Naming { .. }, WriteEvent::Me(Err(e))) => ends_with(step, e),
        (WriteStage::Writing { resolved, was_pinned }, WriteEvent::Written(answer)) => after_write(
            flow,
            resolved,
            was_pinned,
            answer,
            step,
        ),
        (WriteStage::Blaming { resolved, err }, WriteEvent::Me(me)) => ends_refused(
            flow,
            resolved,
            err,
            me,
            step,
        ),
        _ => false,
    }
}

impl WriteFlow {
    /// The answer is one to the question.
    pub open spec fn expects(self, event: WriteEvent) -> bool {
        match self.stage {
            WriteStage::Resolving => event is Resolved,
            WriteStage::Checking { .. } => event is Found,
            WriteStage::Naming { .. } => event is Me && needs_a_name(self.write),
            WriteStage::Writing { .. } => event is Written,
            WriteStage::Blaming { .. } => event is Me,
        }
    }

    /// Begins a write to a post.
    pub fn begin(post_id: String, write: PostWrite) -> (r: WriteStep)
        ensures
            r == WriteStep::Ask(
                WriteFlow { post_id, write, stage: WriteStage::Resolving },
                WriteAsk::Resolve,
            ),
    {
        WriteStep::Ask(
            WriteFlow { post_id, write, stage: WriteStage::Resolving },
            WriteAsk::Resolve,
        )
    }

    /// Goes on with an answer.
    pub fn answer(self, event: WriteEvent) -> (r: WriteStep)
        requires
            self.expects(event),
        ensures
            write_step(self, event, r),
    {
        let post_id = self.post_id;
        let write = self.write;
        match (self.stage, event) {
            (WriteStage::Resolving, WriteEvent::Resolved(found)) => match found {
                Ok(resolved) => {
                    let request = request_for(&ApiCall::Post { post_id: post_id.as_str() });
                    WriteStep::Ask(
                        WriteFlow { post_id, write, stage: WriteStage::Checking { resolved } },
                        WriteAsk::Fetch(request),
                    )
                },
                Err(e) => WriteStep::Done(Err(e)),
            },
            (WriteStage::Checking { resolved }, WriteEvent::Found(found)) => Self::checked(
                post_id,
                write,
                resolved,
                found,
            ),
            (WriteStage::Naming { resolved }, WriteEvent::Me(me)) => match me {
                Ok(identity) => {
                    let request = match &write {
                        PostWrite::Unreact { emoji } => request_for(
                            &ApiCall::RemoveReaction {
                                user_id: identity.id.as_str(),
                                post_id: post_id.as_str(),
                                emoji: normalize_emoji_name(emoji.as_str()).as_str(),
                            },
                        ),
                        PostWrite::React { emoji } => request_for(
                            &ApiCall::AddReaction {
                                user_id: identity.id.as_str(),
                                post_id: post_id.as_str(),
                                emoji: normalize_emoji_name(emoji.as_str()).as_str(),
                            },
                        ),
                        _ => {
                            proof {
                                assert(false);
                            }
                            request_for(&ApiCall::Me)
                        },
                    };
                    WriteStep::Ask(
                        WriteFlow {
                            post_id,
                            write,
                            stage: WriteStage::Writing { resolved, was_pinned: false },
                        },
                        WriteAsk::Send(request),
                    )
                },
                Err(e) => WriteStep::Done(Err(e)),
            },
            (WriteStage::Writing { resolved, was_pinned }, WriteEvent::Written(answer)) =>
                Self::written(post_id, write, resolved, was_pinned, answer),
            (WriteStage::Blaming { resolved, err }, WriteEvent::Me(me)) => {
                let bot_username = match me {
                    Ok(identity) => identity.username,
                    Err(_) => String::new(),
                };
                let verb = if matches!(write, PostWrite::Unpin) {
                    "unpin"
                } else {
                    "pin"
                };
                WriteStep::Done(Err(pin_error(err, verb, bot_username, &resolved)))
            },
            _ => {
                proof {
                    assert(false);
                }
                WriteStep::Done(Err(CoreError::UnsupportedProvider))
            },
        }
    }

    /// Goes on with what was found of the post.
    fn checked(
        post_id: String,
        write: PostWrite,
        resolved: ResolvedChannel,
        found: Result<PostPlace, CoreError>,
    ) -> (r: WriteStep)
        ensures
            write_step(
                WriteFlow { post_id, write, stage: WriteStage::Checking { resolved } },
                WriteEvent::Found(found),
                r,
            ),
    {
        let place: Result<(String, bool), CoreError> = match found {
            Ok(place) => Ok((place.channel_id, place.is_pinned)),
            Err(e) => Err(e),
        };
        match fetch_post_pinned_state(
            place,
            resolved.channel_id.as_str(),
            resolved.channel_name.as_str(),
            post_id.as_str(),
        ) {
            Ok(is_pinned) => Self::by_id(post_id, write, resolved, is_pinned),
            Err(e) => WriteStep::Done(Err(e)),
        }
    }

    /// Goes on with a post that was found in the channel.
    pub fn by_id(post_id: String, write: PostWrite, resolved: ResolvedChannel, is_pinned: bool)
        -> (r: WriteStep)
        ensures
            after_check(
                WriteFlow { post_id, write, stage: WriteStage::Checking { resolved } },
                resolved,
                is_pinned,
                r,
            ),
    {
        let (request, was_pinned) = match &write {
            PostWrite::Reply { message } => (
                request_for(
                    &ApiCall::CreateReply {
                        channel_id: resolved.channel_id.as_str(),
                        root_id: post_id.as_str(),
                        message: message.as_str(),
                    },
                ),
                false,
            ),
            PostWrite::Pin => (request_for(&ApiCall::PinPost { post_id: post_id.as_str() }), is_pinned),
            PostWrite::Unpin => (
                request_for(&ApiCall::UnpinPost { post_id: post_id.as_str() }),
                is_pinned,
            ),
            _ => {
                return WriteStep::Ask(
                    WriteFlow { post_id, write, stage: WriteStage::Naming { resolved } },
                    WriteAsk::WhoAmI,
                );
            },
        };
        WriteStep::Ask(
            WriteFlow { post_id, write, stage: WriteStage::Writing { resolved, was_pinned } },
            WriteAsk::Send(request),
        )
    }

    /// Goes on with what came of the write.
    fn written(
        post_id: String,
        write: PostWrite,
        resolved: ResolvedChannel,
        was_pinned: bool,
        answer: Result<String, CoreError>,
    ) -> (r: WriteStep)
        ensures
            after_write(
                WriteFlow { post_id, write, stage: WriteStage::Writing { resolved, was_pinned } },
                resolved,
                was_pinned,
                answer,
                r,
            ),
    {
        match (&write, answer) {
            (PostWrite::Reply { .. }, Ok(id)) => WriteStep::Done(
                Ok(WriteOutcome::Replied(post_receipt(id, Some(post_id.as_str())))),
            ),
            (PostWrite::React { emoji }, Ok(_)) => WriteStep::Done(
                Ok(
                    WriteOutcome::Reaction(
                        reaction_result(&resolved, post_id.as_str(), emoji.as_str()),
                    ),
                ),
            ),
            (PostWrite::Unreact { emoji }, answer) => {
                let plain: Result<(), CoreError> = match answer {
                    Ok(_) => Ok(()),
                    Err(e) => Err(e),
                };
                match unreact_by_id(plain, &resolved, post_id.as_str(), emoji.as_str()) {
                    Ok(done) => WriteStep::Done(Ok(WriteOutcome::Reaction(done))),
                    Err(e) => WriteStep::Done(Err(e)),
                }
            },
            (PostWrite::Pin, Ok(_)) => WriteStep::Done(
                Ok(WriteOutcome::Pinned(pin_by_id(&resolved, post_id.as_str(), was_pinned))),
            ),
            (PostWrite::Unpin, Ok(_)) => WriteStep::Done(
                Ok(WriteOutcome::Unpinned(unpin_by_id(&resolved, post_id.as_str(), was_pinned))),
            ),
            (_, Err(e)) => {
                let pins = matches!(write, PostWrite::Pin) || matches!(write, PostWrite::Unpin);
                if pins && is_forbidden(&e) {
                    WriteStep::Ask(
                        WriteFlow {
                            post_id,
                            write,
                            stage: WriteStage::Blaming { resolved, err: e },
                        },
                        WriteAsk::WhoAmI,
                    )
                } else {
                    WriteStep::Done(Err(e))
                }
            },
        }
    }
}

// ---------------------------------------------------------------------------
// Laws
// ---------------------------------------------------------------------------

/// The post has been found in the channel.
pub open spec fn checked_stage(stage: WriteStage) -> bool {
    stage is Naming || stage is Writing || stage is Blaming
}

/// Nothing is written before the post was found in the channel that was resolved.
pub proof fn nothing_is_written_unchecked(flow: WriteFlow, event: WriteEvent, step: WriteStep)
    requires
        write_step(flow, event, step),
    ensures
        asked(step) matches Some(WriteAsk::Send(_)) ==> checked_stage(step->Ask_0.stage),
        step matches WriteStep::Ask(next, _) && checked_stage(next.stage) && !checked_stage(
            flow.stage,
        ) ==> (flow.stage matches WriteStage::Checking { resolved } && (event matches
            WriteEvent::Found(found) && is_there(found, resolved))),
        step matches WriteStep::Done(Ok(_)) ==> flow.stage is Writing,
{
}

/// How many questions are left at most.
pub open spec fn questions_left(stage: WriteStage) -> nat {
    match stage {
        WriteStage::Resolving => 5,
        WriteStage::Checking { .. } => 4,
        WriteStage::Naming { .. } => 3,
        WriteStage::Writing { .. } => 2,
        WriteStage::Blaming { .. } => 1,
    }
}

/// A write comes to an end: each answer brings it nearer.
pub proof fn write_ends(flow: WriteFlow, event: WriteEvent, step: WriteStep)
    requires
        write_step(flow, event, step),
    ensures
        step matches WriteStep::Ask(next, _) ==> questions_left(next.stage) < questions_left(
            flow.stage,
        ),
{
}

/// What is sent to a post is what was asked for: a reply under it, a reaction to it, its
/// withdrawal, a pin or an unpin, always of this post.
pub proof fn writes_are_what_was_asked_for(
    write: PostWrite,
    post_id: Seq<char>,
    channel_id: Seq<char>,
    user_id: Seq<char>,
)
    ensures
        ({
            let r = write_request(write, post_id, channel_id, user_id);
            match write {
                PostWrite::Reply { message } => r.method is Post && r.path == "/posts"@ && (
                r.body matches BodyView::Record(fields) && fields.len() == 3 && fields[0]
                    == text_field("channel_id"@, channel_id) && fields[1] == text_field(
                    "root_id"@,
                    post_id,
                ) && fields[2] == text_field("message"@, message@)),
                PostWrite::React { emoji } => r.method is Post && r.path == "/reactions"@ && (
                r.body matches BodyView::Record(fields) && fields.len() == 3 && fields[0]
                    == text_field("user_id"@, user_id) && fields[1] == text_field(
                    "post_id"@,
                    post_id,
                ) && fields[2] == text_field("emoji_name"@, emoji_name(emoji@))),
                PostWrite::Unreact { emoji } => r.method is Delete && r.body is Empty && r.path
                    == "/users/"@ + user_id + "/posts/"@ + post_id + "/reactions/"@ + emoji_name(
                    emoji@,
                ),
                PostWrite::Pin => r.method is Post && r.body is Empty && r.path == "/posts/"@
                    + post_id + "/pin"@,
                PostWrite::Unpin => r.method is Post && r.body is Empty && r.path == "/posts/"@
                    + post_id + "/unpin"@,
            }
        }),
{
}

/// A post that is somewhere else, or not there, ends the write.
pub proof fn posts_elsewhere_are_not_written_to(
    flow: WriteFlow,
    resolved: ResolvedChannel,
    found: Result<PostPlace, CoreError>,
    step: WriteStep,
)
    requires
        flow.stage == (WriteStage::Checking { resolved }),
        write_step(flow, WriteEvent::Found(found), step),
    ensures
        found is Ok && found->Ok_0.channel_id@ != resolved.channel_id@ ==> (step matches
            WriteStep::Done(Err(CoreError::AnchorChannelMismatch { post_id, channel })) && post_id@
            == flow.post_id@ && channel@ == resolved.channel_name@),
        found is Err && found->Err_0 is Api && found->Err_0->Api_status == 404 ==> (step matches
            WriteStep::Done(Err(CoreError::AnchorNotFound(id))) && id@ == flow.post_id@),
        found is Err && !(found->Err_0 is Api && found->Err_0->Api_status == 404) ==> step
            == WriteStep::Done(Err(found->Err_0)),
        found is Ok && found->Ok_0.channel_id@ == resolved.channel_id@ ==> step is Ask,
{
}

/// Once the post was found, a reaction asks whose it is, and anything else is sent, in the
/// channel that was resolved.
pub proof fn found_posts_are_written_to(
    flow: WriteFlow,
    resolved: ResolvedChannel,
    place: PostPlace,
    step: WriteStep,
)
    requires
        flow.stage == (WriteStage::Checking { resolved }),
        place.channel_id@ == resolved.channel_id@,
        write_step(flow, WriteEvent::Found(Ok(place)), step),
    ensures
        flow.write is React || flow.write is Unreact ==> (step matches WriteStep::Ask(
            next,
            WriteAsk::WhoAmI,
        ) && next.stage == (WriteStage::Naming { resolved }) && next.write == flow.write
            && next.post_id == flow.post_id),
        !(flow.write is React || flow.write is Unreact) ==> (step matches WriteStep::Ask(
            next,
            WriteAsk::Send(request),
        ) && request@ == write_request(
            flow.write,
            flow.post_id@,
            resolved.channel_id@,
            Seq::empty(),
        ) && next.write == flow.write && next.post_id == flow.post_id),
        flow.write is Pin || flow.write is Unpin ==> (step matches WriteStep::Ask(next, _)
            && next.stage == (WriteStage::Writing { resolved, was_pinned: place.is_pinned })),
{
}

/// A reaction is sent under the id of the one who reacts.
pub proof fn reactions_are_of_the_one_who_reacts(
    flow: WriteFlow,
    resolved: ResolvedChannel,
    me: Identity,
    step: WriteStep,
)
    requires
        flow.stage == (WriteStage::Naming { resolved }),
        write_step(flow, WriteEvent::Me(Ok(me)), step),
    ensures
        step matches WriteStep::Ask(next, WriteAsk::Send(request)) && request@ == write_request(
            flow.write,
            flow.post_id@,
            resolved.channel_id@,
            me.id@,
        ) && next.write == flow.write && next.post_id == flow.post_id,
{
}

/// What is reported is what was done, to which post and where, and what was the case before.
pub proof fn outcomes_are_of_the_write(
    flow: WriteFlow,
    resolved: ResolvedChannel,
    was_pinned: bool,
    id: String,
    step: WriteStep,
)
    requires
        flow.stage == (WriteStage::Writing { resolved, was_pinned }),
        write_step(flow, WriteEvent::Written(Ok(id)), step),
    ensures
        flow.write is Reply <==> (step matches WriteStep::Done(Ok(WriteOutcome::Replied(_)))),
        flow.write is React || flow.write is Unreact <==> (step matches WriteStep::Done(
            Ok(WriteOutcome::Reaction(_)),
        )),
        flow.write is Pin <==> (step matches WriteStep::Done(Ok(WriteOutcome::Pinned(_)))),
        flow.write is Unpin <==> (step matches WriteStep::Done(Ok(WriteOutcome::Unpinned(_)))),
        step matches WriteStep::Done(Ok(WriteOutcome::Replied(r))) ==> r.id == id && r.parent_id
            is Some && r.parent_id->0@ == flow.post_id@,
        step matches WriteStep::Done(Ok(WriteOutcome::Pinned(r))) ==> r.post_id@ == flow.post_id@
            && r.channel_id == resolved.channel_id && r.channel == resolved.channel_name && r.team
            == resolved.team_name && r.was_already_pinned == was_pinned && r.ok && r.verb@ == "pin"@
            && r.result@ == "pinned"@,
        step matches WriteStep::Done(Ok(WriteOutcome::Unpinned(r))) ==> r.post_id@ == flow.post_id@
            && r.channel_id == resolved.channel_id && r.channel == resolved.channel_name && r.team
            == resolved.team_name && r.was_already_unpinned == !was_pinned && r.ok && r.verb@
            == "unpin"@ && r.result@ == "unpinned"@,
        step matches WriteStep::Done(Ok(WriteOutcome::Reaction(r))) ==> r.post_id@ == flow.post_id@
            && r.channel == resolved.channel_name && r.team == resolved.team_name && r.ok,
        flow.write matches PostWrite::React { emoji } ==> (step matches WriteStep::Done(
            Ok(WriteOutcome::Reaction(r)),
        ) && r.emoji@ == emoji_name(emoji@)),
        flow.write matches PostWrite::Unreact { emoji } ==> (step matches WriteStep::Done(
            Ok(WriteOutcome::Reaction(r)),
        ) && r.emoji@ == emoji_name(emoji@)),
{
}

/// A reaction that is not there is withdrawn already; a pin that is forbidden asks who was
/// refused; every other error ends the write.
pub proof fn failed_writes(
    flow: WriteFlow,
    resolved: ResolvedChannel,
    was_pinned: bool,
    e: CoreError,
    step: WriteStep,
)
    requires
        flow.stage == (WriteStage::Writing { resolved, was_pinned }),
        write_step(flow, WriteEvent::Written(Err(e)), step),
    ensures
        flow.write is Unreact && e is Api && e->Api_status == 404 ==> (step matches WriteStep::Done(
            Ok(WriteOutcome::Reaction(_)),
        )),
        (flow.write is Pin || flow.write is Unpin) && e is Api && e->Api_status == 403 ==> (
        step matches WriteStep::Ask(next, WriteAsk::WhoAmI) && next.stage is Blaming),
        !(flow.write is Unreact && e is Api && e->Api_status == 404) && !((flow.write is Pin
            || flow.write is Unpin) && e is Api && e->Api_status == 403) ==> step
            == WriteStep::Done(Err(e)),
{
}

/// A pin that was refused names the bot that was refused, the verb, and the place.
pub proof fn refused_pins_name_the_bot(
    flow: WriteFlow,
    resolved: ResolvedChannel,
    err: CoreError,
    me: Result<Identity, CoreError>,
    step: WriteStep,
)
    requires
        flow.stage == (WriteStage::Blaming { resolved, err }),
        err is Api && err->Api_status == 403,
        write_step(flow, WriteEvent::Me(me), step),
    ensures
        step matches WriteStep::Done(
            Err(
                CoreError::PinPermissionDenied { verb, bot_username, team, channel, message },
            ),
        ) && (flow.write is Unpin ==> verb@ == "unpin"@) && (flow.write is Pin ==> verb@ == "pin"@) && (
        me is Ok ==> bot_username@ == me->Ok_0.username@) && team == resolved.team_name && channel
            == resolved.channel_name && message == err->Api_message,
{
}

} // verus!
