//! Reading a channel: a span of time, the latest posts, the pinned ones, or what
//! follows a post.
//!
//! The channel is resolved first. What follows a post is read only once that post was
//! found in the channel.
use vstd::prelude::*;
use vstd::string::*;

use crate::clock::{minutes_before, moment_before, seconds_before};
use crate::error::CoreError;
use crate::posts::{absent, absorbed, assert_post_in_channel, latest_authored, newest_authored,
    not_in_channel, read_channel_since_last_mine, AfterScan, AfterStep, AuthoredPost};
use crate::requests::{request_for, text_field, ApiCall, ApiRequest, BodyView, FieldView, Method,
    RequestView, ValueView};
use crate::search::authored_terms;
use crate::text::{decimal_text, integer_text};
use crate::types::{Identity, Message, ResolvedChannel};

verus! {

/// What is read of a channel.
#[derive(Debug, PartialEq, Eq)]
pub enum ReadMode {
    /// The posts of so many minutes.
    SinceMinutes(u64),
    /// The posts of so many seconds.
    SinceSeconds(u64),
    /// So many of the latest posts.
    Latest(u64),
    /// The pinned posts.
    Pinned,
    /// The posts after this one.
    After(String),
    /// The posts after the reader's own latest one.
    SinceLastMine,
}

/// How far a read has come: which answer it waits for.
pub enum ReadStage {
    /// Who reads.
    Naming,
    /// The channel, to look for the reader's posts in it.
    Seeking { username: String },
    /// The reader's posts.
    Searching { username: String },
    /// The channel. The post to read on from is known, where there is one.
    Resolving { anchor: Option<String> },
    /// The post to read on from.
    Checking { channel_id: String, anchor: String },
    /// A page of what follows it.
    Paging { channel_id: String, anchor: String, scan: AfterScan },
    /// The moment at which a span of time ends.
    Timing { channel_id: String },
    /// The one page.
    Single,
}

/// A read of a channel.
pub struct ReadFlow {
    /// The channel as it was asked for.
    pub channel_arg: String,
    pub mode: ReadMode,
    pub stage: ReadStage,
}

/// A question of a read.
#[derive(Debug)]
pub enum ReadAsk {
    /// Who the token belongs to.
    WhoAmI,
    /// Which channel is meant.
    Resolve,
    /// What time it is, in milliseconds since the Unix epoch.
    Now,
    /// The posts of an author.
    Search(ApiRequest),
    /// Where a post is.
    Fetch(ApiRequest),
    /// A page of posts, as messages in chronological order.
    Page(ApiRequest),
}

/// The answer to a question.
pub enum ReadEvent {
    Me(Result<Identity, CoreError>),
    Resolved(Result<ResolvedChannel, CoreError>),
    Now(i64),
    Authored(Result<Vec<AuthoredPost>, CoreError>),
    /// The channel that a post is in.
    Found(Result<String, CoreError>),
    Page(Result<Vec<Message>, CoreError>),
}

/// What a read does next.
pub enum ReadStep {
    Ask(ReadFlow, ReadAsk),
    Done(Result<Vec<Message>, CoreError>),
}

// ---------------------------------------------------------------------------
// What follows an answer
// ---------------------------------------------------------------------------

/// The read goes on in a stage, with a question.
pub open spec fn goes_on(from: ReadFlow, step: ReadStep, stage: ReadStage) -> bool {
    step matches ReadStep::Ask(next, _) && next.channel_arg == from.channel_arg && next.mode
        == from.mode && next.stage == stage
}

/// The question that a step asks.
pub open spec fn asked(step: ReadStep) -> Option<ReadAsk> {
    match step {
        ReadStep::Ask(_, ask) => Some(ask),
        ReadStep::Done(_) => None,
    }
}

/// A request that reads.
pub open spec fn get(path: Seq<char>) -> RequestView {
    RequestView { method: Method::Get, path, body: BodyView::Empty }
}

/// How many seconds a read goes back, where it reads a span of time.
pub open spec fn span_of(mode: ReadMode) -> Option<int> {
    match mode {
        ReadMode::SinceMinutes(minutes) => Some(minutes * 60),
        ReadMode::SinceSeconds(seconds) => Some(seconds as int),
        _ => None,
    }
}

/// The request for the page of a span of time that ends now.
pub open spec fn span_request(mode: ReadMode, channel_id: Seq<char>, now: i64) -> RequestView {
    get(
        "/channels/"@ + channel_id + "/posts?since="@ + integer_text(
            moment_before(now, span_of(mode)->0 as u64),
        ) + "&per_page=30"@,
    )
}

/// The request for the one page of a read that needs neither a moment nor a post to begin
/// with.
pub open spec fn single_request(mode: ReadMode, channel_id: Seq<char>) -> RequestView {
    match mode {
        ReadMode::Latest(limit) => get(
            "/channels/"@ + channel_id + "/posts?per_page="@ + decimal_text(limit as nat),
        ),
        _ => get("/channels/"@ + channel_id + "/pinned"@),
    }
}

/// The request for a page of what follows a post.
pub open spec fn page_request(channel_id: Seq<char>, anchor: Seq<char>, page: u64) -> RequestView {
    get(
        "/channels/"@ + channel_id + "/posts?after="@ + anchor + "&page="@ + decimal_text(
            page as nat,
        ) + "&per_page=200"@,
    )
}

/// The request for the latest post of an author in a channel.
pub open spec fn author_request(
    team_id: Seq<char>,
    username: Seq<char>,
    channel_name: Seq<char>,
) -> RequestView {
    RequestView {
        method: Method::Post,
        path: "/teams/"@ + team_id + "/posts/search"@,
        body: BodyView::Record(
            seq![
                text_field("terms"@, "from:"@ + username + " in:"@ + channel_name),
                FieldView { name: "is_or_search"@, value: ValueView::Flag(false) },
                FieldView { name: "page"@, value: ValueView::Number(0) },
                FieldView { name: "per_page"@, value: ValueView::Number(1) },
            ],
        ),
    }
}

/// The read ends with an error.
pub open spec fn ends_with(step: ReadStep, e: CoreError) -> bool {
    step == ReadStep::Done(Err(e))
}

/// The reader has written nothing in the channel.
pub open spec fn ends_unwritten(step: ReadStep, channel_arg: Seq<char>, me: Seq<char>) -> bool {
    step matches ReadStep::Done(Err(CoreError::NoPriorAuthoredPost { channel, username }))
        && channel@ == channel_arg && username@ == me
}

/// What follows where it is known what the reader has written.
pub open spec fn after_search(
    flow: ReadFlow,
    username: Seq<char>,
    posts: Seq<AuthoredPost>,
    step: ReadStep,
) -> bool {
    if posts.len() == 0 {
        ends_unwritten(step, flow.channel_arg@, username)
    } else {
        asked(step) == Some(ReadAsk::Resolve) && exists|anchor: Option<String>|
            anchor is Some && #[trigger] newest_authored(posts, anchor) && goes_on(
                flow,
                step,
                ReadStage::Resolving { anchor },
            )
    }
}

/// What follows where it is known where the post to read on from is.
pub open spec fn after_check(
    flow: ReadFlow,
    channel_id: String,
    anchor: String,
    found: Result<String, CoreError>,
    step: ReadStep,
) -> bool {
    match found {
        Ok(place) => if place@ == channel_id@ {
            &&& step matches ReadStep::Ask(next, ReadAsk::Page(request)) && request@
                == page_request(channel_id@, anchor@, 0) && next.channel_arg == flow.channel_arg
                && next.mode == flow.mode && (next.stage matches ReadStage::Paging {
                channel_id: c,
                anchor: a,
                scan,
            } && c == channel_id && a == anchor && scan.page == 0 && scan.collected@
                == Seq::<Message>::empty())
        } else {
            step matches ReadStep::Done(Err(e)) && not_in_channel(e, anchor@, flow.channel_arg@)
        },
        Err(err) => step matches ReadStep::Done(Err(e)) && (absent(err) ==> (e matches
            CoreError::AnchorNotFound(id) && id@ == anchor@)) && (!absent(err) ==> e == err),
    }
}

/// What follows a page of what follows a post.
pub open spec fn after_page(
    flow: ReadFlow,
    channel_id: String,
    anchor: String,
    scan: AfterScan,
    page: Seq<Message>,
    step: ReadStep,
) -> bool {
    match step {
        ReadStep::Ask(next, ask) => next.stage matches ReadStage::Paging {
            channel_id: c,
            anchor: a,
            scan: more,
        } && c == channel_id && a == anchor && absorbed(scan, page, AfterStep::More(more))
            && next.channel_arg == flow.channel_arg && next.mode == flow.mode && (ask matches
            ReadAsk::Page(request) && request@ == page_request(
            channel_id@,
            anchor@,
            more.page,
        )),
        ReadStep::Done(r) => r matches Ok(all) && absorbed(scan, page, AfterStep::Done(all)),
    }
}

/// `step` is what follows an answer.
pub open spec fn read_step(flow: ReadFlow, event: ReadEvent, step: ReadStep) -> bool {
    match (flow.stage, event) {
        (ReadStage::Naming, ReadEvent::Me(Ok(me))) => goes_on(
            flow,
            step,
            ReadStage::Seeking { username: me.username },
        ) && asked(step) == Some(ReadAsk::Resolve),
        (ReadStage::Seeking { username }, ReadEvent::Resolved(Ok(r))) => goes_on(
            flow,
            step,
            ReadStage::Searching { username },
        ) && (asked(step) matches Some(ReadAsk::Search(request)) && request@ == author_request(
            r.team_id@,
            username@,
            r.channel_name@,
        )),
        (ReadStage::Searching { username }, ReadEvent::Authored(Ok(posts))) => after_search(
            flow,
            username@,
            posts@,
            step,
        ),
        (ReadStage::Resolving { anchor }, ReadEvent::Resolved(Ok(r))) => match anchor {
            Some(a) => goes_on(
                flow,
                step,
                ReadStage::Checking { channel_id: r.channel_id, anchor: a },
            ) && (asked(step) matches Some(ReadAsk::Fetch(request)) && request@ == get(
                "/posts/"@ + a@,
            )),
            None => if span_of(flow.mode) is Some {
                goes_on(flow, step, ReadStage::Timing { channel_id: r.channel_id }) && asked(step)
                    == Some(ReadAsk::Now)
            } else {
                goes_on(flow, step, ReadStage::Single) && (asked(step) matches Some(
                    ReadAsk::Page(request),
                ) && request@ == single_request(flow.mode, r.channel_id@))
            },
        },
        (ReadStage::Timing { channel_id }, ReadEvent::Now(now)) => goes_on(
            flow,
            step,
            ReadStage::Single,
        ) && (asked(step) matches Some(ReadAsk::Page(request)) && request@ == span_request(
            flow.mode,
            channel_id@,
            now,
        )),
        (ReadStage::Checking { channel_id, anchor }, ReadEvent::Found(found)) => after_check(
            flow,
            channel_id,
            anchor,
            found,
            step,
        ),
        (ReadStage::Paging { channel_id, anchor, scan }, ReadEvent::Page(Ok(page))) => after_page(
            flow,
            channel_id,
            anchor,
            scan,
            page@,
            step,
        ),
        (ReadStage::Single, ReadEvent::Page(Ok(page))) => step == ReadStep::Done(Ok(page)),
        (ReadStage::Naming, ReadEvent::Me(Err(e))) => ends_with(step, e),
        (ReadStage::Seeking { .. }, ReadEvent::Resolved(Err(e))) => ends_with(step, e),
        (ReadStage::Searching { .. }, ReadEvent::Authored(Err(e))) => ends_with(step, e),
        (ReadStage::Resolving { .. }, ReadEvent::Resolved(Err(e))) => ends_with(step, e),
        (ReadStage::Paging { .. }, ReadEvent::Page(Err(e))) => ends_with(step, e),
        (ReadStage::Single, ReadEvent::Page(Err(e))) => ends_with(step, e),
        _ => false,
    }
}

impl ReadFlow {
    /// The answer is one to the question. No scan has as many pages as can be
    /// counted, and a span of time is one whose seconds can be counted.
    pub open spec fn expects(self, event: ReadEvent) -> bool {
        match self.stage {
            ReadStage::Naming => event is Me,
            ReadStage::Seeking { .. } | ReadStage::Resolving { .. } => event is Resolved,
            ReadStage::Searching { .. } => event is Authored,
            ReadStage::Checking { .. } => event is Found,
            ReadStage::Paging { scan, .. } => event is Page && scan.page < u64::MAX,
            ReadStage::Timing { .. } => event is Now && (span_of(self.mode) matches Some(seconds)
                && seconds <= u64::MAX),
            ReadStage::Single => event is Page,
        }
    }

    /// Begins a read.
    pub fn begin(channel_arg: String, mode: ReadMode) -> (r: ReadStep)
        ensures
            r matches ReadStep::Ask(flow, ask) && flow.channel_arg == channel_arg && flow.mode
                == mode && match mode {
                ReadMode::SinceLastMine => flow.stage is Naming && ask is WhoAmI,
                ReadMode::After(anchor) => ask is Resolve && (flow.stage matches
                    ReadStage::Resolving { anchor: Some(a) } && a@ == anchor@),
                _ => ask is Resolve && flow.stage == (ReadStage::Resolving { anchor: None }),
            },
    {
        match &mode {
            ReadMode::SinceLastMine => ReadStep::Ask(
                ReadFlow { channel_arg, mode, stage: ReadStage::Naming },
                ReadAsk::WhoAmI,
            ),
            ReadMode::After(post_id) => {
                let anchor = post_id.clone();
                ReadStep::Ask(
                    ReadFlow {
                        channel_arg,
                        mode,
                        stage: ReadStage::Resolving { anchor: Some(anchor) },
                    },
                    ReadAsk::Resolve,
                )
            },
            _ => ReadStep::Ask(
                ReadFlow { channel_arg, mode, stage: ReadStage::Resolving { anchor: None } },
                ReadAsk::Resolve,
            ),
        }
    }

    /// Goes on with an answer. An error ends the read.
    pub fn answer(self, event: ReadEvent) -> (r: ReadStep)
        requires
            self.expects(event),
        ensures
            read_step(self, event, r),
    {
        let channel_arg = self.channel_arg;
        let mode = self.mode;
        match (self.stage, event) {
            (ReadStage::Naming, ReadEvent::Me(me)) => match me {
                Ok(identity) => ReadStep::Ask(
                    ReadFlow {
                        channel_arg,
                        mode,
                        stage: ReadStage::Seeking { username: identity.username },
                    },
                    ReadAsk::Resolve,
                ),
                Err(e) => ReadStep::Done(Err(e)),
            },
            (ReadStage::Seeking { username }, ReadEvent::Resolved(found)) => match found {
                Ok(resolved) => {
                    let terms = authored_terms(username.as_str(), resolved.channel_name.as_str());
                    let request = request_for(
                        &ApiCall::SearchLatest {
                            team_id: resolved.team_id.as_str(),
                            terms: terms.as_str(),
                        },
                    );
                    ReadStep::Ask(
                        ReadFlow { channel_arg, mode, stage: ReadStage::Searching { username } },
                        ReadAsk::Search(request),
                    )
                },
                Err(e) => ReadStep::Done(Err(e)),
            },
            (ReadStage::Searching { username }, ReadEvent::Authored(posts)) => match posts {
                Ok(posts) => {
                    let found = latest_authored(&posts);
                    let ghost newest = found;
                    match read_channel_since_last_mine(
                        found,
                        channel_arg.as_str(),
                        username.as_str(),
                    ) {
                        Ok(anchor) => {
                            proof {
                                assert(newest == Some(anchor));
                                assert(newest_authored(posts@, Some(anchor)));
                            }
                            ReadStep::Ask(
                                ReadFlow {
                                    channel_arg,
                                    mode,
                                    stage: ReadStage::Resolving { anchor: Some(anchor) },
                                },
                                ReadAsk::Resolve,
                            )
                        },
                        Err(e) => ReadStep::Done(Err(e)),
                    }
                },
                Err(e) => ReadStep::Done(Err(e)),
            },
            (ReadStage::Resolving { anchor }, ReadEvent::Resolved(found)) => match found {
                Ok(resolved) => match anchor {
                    Some(anchor) => {
                        let request = request_for(&ApiCall::Post { post_id: anchor.as_str() });
                        ReadStep::Ask(
                            ReadFlow {
                                channel_arg,
                                mode,
                                stage: ReadStage::Checking {
                                    channel_id: resolved.channel_id,
                                    anchor,
                                },
                            },
                            ReadAsk::Fetch(request),
                        )
                    },
                    None => {
                        let timed = match &mode {
                            ReadMode::SinceMinutes(_) | ReadMode::SinceSeconds(_) => true,
                            _ => false,
                        };
                        if timed {
                            return ReadStep::Ask(
                                ReadFlow {
                                    channel_arg,
                                    mode,
                                    stage: ReadStage::Timing { channel_id: resolved.channel_id },
                                },
                                ReadAsk::Now,
                            );
                        }
                        let channel_id = resolved.channel_id.as_str();
                        let request = match &mode {
                            ReadMode::Latest(limit) => request_for(
                                &ApiCall::LatestPosts { channel_id, limit: *limit },
                            ),
                            _ => request_for(&ApiCall::PinnedPosts { channel_id }),
                        };
                        ReadStep::Ask(
                            ReadFlow { channel_arg, mode, stage: ReadStage::Single },
                            ReadAsk::Page(request),
                        )
                    },
                },
                Err(e) => ReadStep::Done(Err(e)),
            },
            (ReadStage::Timing { channel_id }, ReadEvent::Now(now)) => {
                let since: i64 = match &mode {
                    ReadMode::SinceMinutes(minutes) => minutes_before(now, *minutes),
                    ReadMode::SinceSeconds(seconds) => seconds_before(now, *seconds),
                    _ => now,
                };
                let request = request_for(
                    &ApiCall::PostsSince { channel_id: channel_id.as_str(), since },
                );
                ReadStep::Ask(
                    ReadFlow { channel_arg, mode, stage: ReadStage::Single },
                    ReadAsk::Page(request),
                )
            },
            (ReadStage::Checking { channel_id, anchor }, ReadEvent::Found(found)) => {
                match assert_post_in_channel(
                    found,
                    channel_id.as_str(),
                    channel_arg.as_str(),
                    anchor.as_str(),
                ) {
                    Ok(_) => {
                        let request = request_for(
                            &ApiCall::PostsAfter {
                                channel_id: channel_id.as_str(),
                                after: anchor.as_str(),
                                page: 0,
                            },
                        );
                        ReadStep::Ask(
                            ReadFlow {
                                channel_arg,
                                mode,
                                stage: ReadStage::Paging {
                                    channel_id,
                                    anchor,
                                    scan: AfterScan::new(),
                                },
                            },
                            ReadAsk::Page(request),
                        )
                    },
                    Err(e) => ReadStep::Done(Err(e)),
                }
            },
            (ReadStage::Paging { channel_id, anchor, scan }, ReadEvent::Page(page)) => match page {
                Ok(messages) => match scan.absorb(messages) {
                    AfterStep::More(next) => {
                        let request = request_for(
                            &ApiCall::PostsAfter {
                                channel_id: channel_id.as_str(),
                                after: anchor.as_str(),
                                page: next.page,
                            },
                        );
                        ReadStep::Ask(
                            ReadFlow {
                                channel_arg,
                                mode,
                                stage: ReadStage::Paging { channel_id, anchor, scan: next },
                            },
                            ReadAsk::Page(request),
                        )
                    },
                    AfterStep::Done(all) => ReadStep::Done(Ok(all)),
                },
                Err(e) => ReadStep::Done(Err(e)),
            },
            (ReadStage::Single, ReadEvent::Page(page)) => ReadStep::Done(page),
            _ => {
                proof {
                    assert(false);
                }
                ReadStep::Done(Err(CoreError::UnsupportedProvider))
            },
        }
    }
}

/// What follows a post is read only once that post was found in the channel.
pub proof fn anchors_are_checked(flow: ReadFlow, event: ReadEvent, step: ReadStep)
    requires
        read_step(flow, event, step),
    ensures
        step matches ReadStep::Ask(next, _) && next.stage is Paging && !(flow.stage is Paging) ==> (
        flow.stage matches ReadStage::Checking { channel_id, anchor } && (event matches
            ReadEvent::Found(Ok(place)) && place@ == channel_id@)),
{
}

/// A span of time ends when its page is asked for: the time is asked for once the
/// channel is known.
pub proof fn spans_end_at_their_page(flow: ReadFlow, event: ReadEvent, step: ReadStep)
    requires
        read_step(flow, event, step),
        span_of(flow.mode) is Some,
        flow.stage == (ReadStage::Resolving { anchor: None }) || flow.stage is Timing,
    ensures
        asked(step) matches Some(ReadAsk::Page(_)) ==> flow.stage is Timing,
        asked(step) matches Some(ReadAsk::Now) ==> (event matches ReadEvent::Resolved(Ok(r))
            && step->Ask_0.stage == (ReadStage::Timing { channel_id: r.channel_id })),
{
}

/// The post after which is read is looked up, and the read goes on only in the channel that
/// was resolved and that the post is in.
pub proof fn reads_stay_in_their_channel(flow: ReadFlow, event: ReadEvent, step: ReadStep)
    requires
        read_step(flow, event, step),
    ensures
        flow.stage is Resolving && event is Resolved && event->Resolved_0 is Ok
            && flow.stage->Resolving_anchor is Some ==> (step matches ReadStep::Ask(
            next,
            ReadAsk::Fetch(request),
        ) && next.mode == flow.mode && next.channel_arg == flow.channel_arg && (next.stage matches
            ReadStage::Checking { channel_id, anchor } && channel_id
            == event->Resolved_0->Ok_0.channel_id && Some(anchor) == flow.stage->Resolving_anchor
            && request.path@ == "/posts/"@ + anchor@ && request.method is Get)),
        flow.stage is Checking && event is Found && event->Found_0 is Ok
            && event->Found_0->Ok_0@ != flow.stage->Checking_channel_id@ ==> (step matches
            ReadStep::Done(Err(CoreError::AnchorChannelMismatch { post_id, channel })) && post_id@
            == flow.stage->Checking_anchor@ && channel@ == flow.channel_arg@),
        flow.stage is Checking && event is Found && event->Found_0 is Err
            && event->Found_0->Err_0 is Api && event->Found_0->Err_0->Api_status == 404 ==> (
        step matches ReadStep::Done(Err(CoreError::AnchorNotFound(id))) && id@
            == flow.stage->Checking_anchor@),
{
}

/// The pages of what follows a post are asked for one after another, each of its own channel
/// and post, and what comes of the last is everything that came.
pub proof fn pages_follow_one_another(
    flow: ReadFlow,
    channel_id: String,
    anchor: String,
    scan: AfterScan,
    page: Vec<Message>,
    step: ReadStep,
)
    requires
        flow.stage == (ReadStage::Paging { channel_id, anchor, scan }),
        read_step(flow, ReadEvent::Page(Ok(page)), step),
    ensures
        page@.len() >= 200 ==> (step matches ReadStep::Ask(next, ReadAsk::Page(request))
            && request.path@ == "/channels/"@ + channel_id@ + "/posts?after="@ + anchor@ + "&page="@
            + decimal_text((scan.page + 1) as nat) + "&per_page=200"@ && request.method is Get),
        page@.len() < 200 ==> (step matches ReadStep::Done(Ok(all)) && all@.to_multiset()
            == scan.collected@.to_multiset().add(page@.to_multiset())),
{
    match step {
        ReadStep::Ask(next, ask) => {
            let more = next.stage->Paging_scan;
            crate::posts::scans_end_with_a_short_page(scan, page@, AfterStep::More(more));
        },
        ReadStep::Done(r) => {
            crate::posts::scans_end_with_a_short_page(scan, page@, AfterStep::Done(r->Ok_0));
        },
    }
}

/// One page is read as it comes, and what fails ends the read with its error.
pub proof fn reads_end_with_their_page(flow: ReadFlow, event: ReadEvent, step: ReadStep)
    requires
        read_step(flow, event, step),
    ensures
        flow.stage is Single && event is Page ==> step == ReadStep::Done(event->Page_0),
        event is Me && event->Me_0 is Err ==> step == ReadStep::Done(Err(event->Me_0->Err_0)),
        event is Resolved && event->Resolved_0 is Err ==> step == ReadStep::Done(
            Err(event->Resolved_0->Err_0),
        ),
        event is Authored && event->Authored_0 is Err ==> step == ReadStep::Done(
            Err(event->Authored_0->Err_0),
        ),
        event is Page && event->Page_0 is Err ==> step == ReadStep::Done(Err(event->Page_0->Err_0)),
{
}

/// Each way of reading asks for its own page: a span for what came since, the latest for so
/// many, and the pinned ones for those.
pub proof fn each_way_of_reading_has_its_page(
    flow: ReadFlow,
    resolved: ResolvedChannel,
    now: i64,
    step: ReadStep,
)
    ensures
        flow.stage == (ReadStage::Resolving { anchor: None }) && read_step(
            flow,
            ReadEvent::Resolved(Ok(resolved)),
            step,
        ) && flow.mode is Pinned ==> (step matches ReadStep::Ask(_, ReadAsk::Page(request))
            && request.path@ == "/channels/"@ + resolved.channel_id@ + "/pinned"@),
        flow.stage == (ReadStage::Resolving { anchor: None }) && read_step(
            flow,
            ReadEvent::Resolved(Ok(resolved)),
            step,
        ) && flow.mode is Latest ==> (step matches ReadStep::Ask(_, ReadAsk::Page(request))
            && request.path@ == "/channels/"@ + resolved.channel_id@ + "/posts?per_page="@
            + decimal_text(flow.mode->Latest_0 as nat)),
        flow.stage is Timing && read_step(flow, ReadEvent::Now(now), step)
            && flow.mode is SinceMinutes && i64::MIN <= now - flow.mode->SinceMinutes_0 * 60_000 && flow.mode->SinceMinutes_0 * 60
            <= u64::MAX ==> (step matches ReadStep::Ask(_, ReadAsk::Page(request)) && request.path@
            == "/channels/"@ + flow.stage->Timing_channel_id@ + "/posts?since="@ + integer_text(
            now - flow.mode->SinceMinutes_0 * 60_000,
        ) + "&per_page=30"@),
        flow.stage is Timing && read_step(flow, ReadEvent::Now(now), step)
            && flow.mode is SinceSeconds && i64::MIN <= now - flow.mode->SinceSeconds_0 * 1000 ==> (
        step matches ReadStep::Ask(_, ReadAsk::Page(request)) && request.path@ == "/channels/"@
            + flow.stage->Timing_channel_id@ + "/posts?since="@ + integer_text(
            now - flow.mode->SinceSeconds_0 * 1000,
        ) + "&per_page=30"@),
{
    if flow.mode is SinceSeconds && i64::MIN <= now - flow.mode->SinceSeconds_0 * 1000 {
        crate::clock::spans_are_a_thousand_for_a_second(now, flow.mode->SinceSeconds_0);
    }
    if flow.mode is SinceMinutes && flow.mode->SinceMinutes_0 * 60 <= u64::MAX && i64::MIN <= now
        - flow.mode->SinceMinutes_0 * 60_000 {
        crate::clock::spans_are_a_thousand_for_a_second(
            now,
            (flow.mode->SinceMinutes_0 * 60) as u64,
        );
    }
}

/// What one wrote is looked for in the team and the channel that were resolved, under one's
/// own name, and what follows the latest of it is read. Who wrote nothing there reads nothing.
pub proof fn own_posts_are_looked_for(flow: ReadFlow, event: ReadEvent, step: ReadStep)
    requires
        read_step(flow, event, step),
    ensures
        flow.stage is Naming && event is Me && event->Me_0 is Ok ==> (step matches ReadStep::Ask(
            next,
            ReadAsk::Resolve,
        ) && next.stage == (ReadStage::Seeking { username: event->Me_0->Ok_0.username })),
        flow.stage is Seeking && event is Resolved && event->Resolved_0 is Ok ==> (step matches
            ReadStep::Ask(next, ReadAsk::Search(request)) && request.path@ == "/teams/"@
            + event->Resolved_0->Ok_0.team_id@ + "/posts/search"@ && request.method is Post && (
        request@.body matches BodyView::Record(fields) && fields[0] == (FieldView {
            name: "terms"@,
            value: ValueView::Text(
                "from:"@ + flow.stage->Seeking_username@ + " in:"@
                    + event->Resolved_0->Ok_0.channel_name@,
            ),
        }) && fields[1] == (FieldView { name: "is_or_search"@, value: ValueView::Flag(false) }))),
        flow.stage is Searching && event is Authored && event->Authored_0 is Ok
            && event->Authored_0->Ok_0@.len() == 0 ==> (step matches ReadStep::Done(
            Err(CoreError::NoPriorAuthoredPost { channel, username }),
        ) && channel@ == flow.channel_arg@ && username@ == flow.stage->Searching_username@),
        flow.stage is Searching && event is Authored && event->Authored_0 is Ok
            && event->Authored_0->Ok_0@.len() > 0 ==> (step matches ReadStep::Ask(
            next,
            ReadAsk::Resolve,
        ) && (next.stage matches ReadStage::Resolving { anchor } && newest_authored(
            event->Authored_0->Ok_0@,
            anchor,
        ))),
{
}

} // verus!
