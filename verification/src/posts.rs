//! Posts: from what the provider sends to messages, in their order, and bound to
//! the channel that was asked for.
use vstd::prelude::*;
use vstd::string::*;

use crate::collections::{TextMap, TextSet};
use crate::error::CoreError;
use crate::mentions::{mentions, message_mentions_username};
use crate::order::{arranged, stable_sort, stably_sorted, Order};
use crate::profile::DEFAULT_NOTIFICATIONS_CHANNEL;
use crate::paths::opt_view;
use crate::text::{opt_text, str_eq, text_before, text_before_irreflexive, text_before_total,
    text_before_transitive, text_lt, texts};
use crate::types::{MentionSummary, Message, Notification, PostReceipt, ResolvedChannel,
    SearchResult};

verus! {

/// How many posts one read of a time window asks for. Who receives as many cannot
/// tell whether there are more.
pub const CHANNEL_WINDOW_PAGE_SIZE: usize = 30;

/// How many posts one page of the posts after an anchor holds at most.
pub const AFTER_PAGE_SIZE: usize = 200;

/// A post as the provider sends it. It names the author by id alone, and its
/// `root_id` is empty for a top-level post.
#[derive(Debug, PartialEq, Eq)]
pub struct RawPost {
    pub id: String,
    pub channel_id: String,
    pub user_id: String,
    pub message: String,
    pub create_at: i64,
    pub root_id: String,
}

impl Clone for RawPost {
    fn clone(&self) -> (r: Self)
        ensures
            r == *self,
    {
        RawPost {
            id: self.id.clone(),
            channel_id: self.channel_id.clone(),
            user_id: self.user_id.clone(),
            message: self.message.clone(),
            create_at: self.create_at,
            root_id: self.root_id.clone(),
        }
    }
}

/// A list of posts as the provider sends it: the ids in its own order, and the
/// posts by id.
pub struct PostsEnvelope {
    pub order: Vec<String>,
    pub posts: TextMap<RawPost>,
}

// ---------------------------------------------------------------------------
// Threads and channels of posts
// ---------------------------------------------------------------------------

/// The thread of a post.
pub open spec fn thread_root(provider_root_id: Seq<char>, post_id: Seq<char>) -> Seq<char> {
    if provider_root_id.len() == 0 {
        post_id
    } else {
        provider_root_id
    }
}

/// The thread of a post: the post itself where the provider names none.
pub fn normalize_root_id(provider_root_id: &str, post_id: &str) -> (r: String)
    ensures
        r@ == thread_root(provider_root_id@, post_id@),
{
    if provider_root_id.is_empty() {
        post_id.to_owned()
    } else {
        provider_root_id.to_owned()
    }
}

/// The thread of a post with an id is never empty, and naming it again changes
/// nothing.
pub proof fn thread_root_is_named(provider_root_id: Seq<char>, post_id: Seq<char>)
    requires
        post_id.len() > 0,
    ensures
        thread_root(provider_root_id, post_id).len() > 0,
        thread_root(thread_root(provider_root_id, post_id), post_id) == thread_root(
            provider_root_id,
            post_id,
        ),
{
}

/// A post is in the channel that was asked for. An unknown channel on either side
/// is never a match.
pub open spec fn bound(actual: Seq<char>, expected: Seq<char>) -> bool {
    actual.len() > 0 && actual == expected
}

pub fn binding_holds(actual_channel_id: &str, expected_channel_id: &str) -> (r: bool)
    ensures
        r == bound(actual_channel_id@, expected_channel_id@),
{
    !actual_channel_id.is_empty() && !expected_channel_id.is_empty() && str_eq(
        actual_channel_id,
        expected_channel_id,
    )
}

// ---------------------------------------------------------------------------
// Messages
// ---------------------------------------------------------------------------

/// The name under which an author is shown: the known name, else the id.
pub open spec fn author_name(user_id: Seq<char>, authors: Map<Seq<char>, String>) -> Seq<char> {
    if authors.contains_key(user_id) {
        authors[user_id]@
    } else {
        user_id
    }
}

/// `m` is the message that a post becomes.
pub open spec fn message_of(post: RawPost, authors: Map<Seq<char>, String>, m: Message) -> bool {
    &&& m.id == post.id
    &&& m.user_id == post.user_id
    &&& m.username@ == author_name(post.user_id@, authors)
    &&& m.message == post.message
    &&& m.create_at == post.create_at
    &&& m.root_id@ == thread_root(post.root_id@, post.id@)
}

/// `ms` are the messages that posts become, in the same order.
pub open spec fn messages_of(
    posts: Seq<RawPost>,
    authors: Map<Seq<char>, String>,
    ms: Seq<Message>,
) -> bool {
    ms.len() == posts.len() && forall|i: int|
        0 <= i < ms.len() ==> message_of(posts[i], authors, #[trigger] ms[i])
}

/// The name under which an author is shown.
pub fn author_username(user_id: &str, authors: &TextMap<String>) -> (r: String)
    ensures
        r@ == author_name(user_id@, authors@),
{
    match authors.get(user_id) {
        Some(name) => name.clone(),
        None => user_id.to_owned(),
    }
}

fn hydrate_post(post: &RawPost, authors: &TextMap<String>) -> (r: Message)
    ensures
        message_of(*post, authors@, r),
{
    Message {
        id: post.id.clone(),
        user_id: post.user_id.clone(),
        username: author_username(post.user_id.as_str(), authors),
        message: post.message.clone(),
        create_at: post.create_at,
        root_id: normalize_root_id(post.root_id.as_str(), post.id.as_str()),
    }
}

/// The messages that posts become, in the same order.
pub fn hydrate_posts(posts: &Vec<RawPost>, authors: &TextMap<String>) -> (r: Vec<Message>)
    ensures
        messages_of(posts@, authors@, r@),
{
    let mut out: Vec<Message> = Vec::new();
    let mut i: usize = 0;
    while i < posts.len()
        invariant
            i <= posts@.len(),
            out@.len() == i,
            forall|j: int| 0 <= j < i ==> message_of(posts@[j], authors@, #[trigger] out@[j]),
        decreases posts.len() - i,
    {
        out.push(hydrate_post(&posts[i], authors));
        i += 1;
    }
    out
}

/// The authors of posts.
pub open spec fn authors_of(posts: Seq<RawPost>) -> Set<Seq<char>>
    decreases posts.len(),
{
    if posts.len() == 0 {
        Set::empty()
    } else {
        authors_of(posts.drop_last()).insert(posts.last().user_id@)
    }
}

/// The authors whose names are wanted, each once.
pub fn wanted_authors(posts: &Vec<RawPost>) -> (r: TextSet)
    ensures
        r@ == authors_of(posts@),
{
    let mut out = TextSet::new();
    let mut i: usize = 0;
    proof {
        assert(posts@.take(0) =~= Seq::empty());
    }
    while i < posts.len()
        invariant
            i <= posts@.len(),
            out@ == authors_of(posts@.take(i as int)),
        decreases posts.len() - i,
    {
        let _ = out.insert(posts[i].user_id.clone());
        i += 1;
        proof {
            assert(posts@.take(i as int).drop_last() =~= posts@.take(i - 1));
        }
    }
    proof {
        assert(posts@.take(i as int) =~= posts@);
    }
    out
}

// ---------------------------------------------------------------------------
// Order
// ---------------------------------------------------------------------------

/// Order of posts by time, then by id.
pub open spec fn earlier(a_at: i64, a_id: Seq<char>, b_at: i64, b_id: Seq<char>) -> bool {
    a_at < b_at || (a_at == b_at && text_before(a_id, b_id))
}

fn is_earlier(a_at: i64, a_id: &str, b_at: i64, b_id: &str) -> (r: bool)
    ensures
        r == earlier(a_at, a_id@, b_at, b_id@),
{
    a_at < b_at || (a_at == b_at && text_lt(a_id, b_id))
}

proof fn earlier_asymmetric(a_at: i64, a_id: Seq<char>, b_at: i64, b_id: Seq<char>)
    requires
        earlier(a_at, a_id, b_at, b_id),
    ensures
        !earlier(b_at, b_id, a_at, a_id),
{
    if text_before(a_id, b_id) && text_before(b_id, a_id) {
        text_before_transitive(a_id, b_id, a_id);
        text_before_irreflexive(a_id);
    }
}

proof fn earlier_negatively_transitive(
    a_at: i64,
    a_id: Seq<char>,
    b_at: i64,
    b_id: Seq<char>,
    c_at: i64,
    c_id: Seq<char>,
)
    requires
        !earlier(a_at, a_id, b_at, b_id),
        !earlier(b_at, b_id, c_at, c_id),
    ensures
        !earlier(a_at, a_id, c_at, c_id),
{
    text_before_total(a_id, b_id);
    text_before_total(b_id, c_id);
    if text_before(a_id, c_id) && text_before(b_id, a_id) {
        text_before_transitive(b_id, a_id, c_id);
    }
}

/// Chronological order, posts of one moment by id.
pub struct Chronological;

impl Order<Message> for Chronological {
    open spec fn before(&self, a: Message, b: Message) -> bool {
        earlier(a.create_at, a.id@, b.create_at, b.id@)
    }

    proof fn asymmetric(&self, a: Message, b: Message) {
        earlier_asymmetric(a.create_at, a.id@, b.create_at, b.id@);
    }

    proof fn negatively_transitive(&self, a: Message, b: Message, c: Message) {
        earlier_negatively_transitive(
            a.create_at,
            a.id@,
            b.create_at,
            b.id@,
            c.create_at,
            c.id@,
        );
    }

    fn is_before(&self, a: &Message, b: &Message) -> (r: bool) {
        is_earlier(a.create_at, a.id.as_str(), b.create_at, b.id.as_str())
    }
}

/// Puts messages into chronological order.
pub fn sort_chronologically(messages: Vec<Message>) -> (r: Vec<Message>)
    ensures
        stably_sorted(Chronological, messages@, r@),
{
    stable_sort(&Chronological, messages)
}

/// No two messages have both the moment and the id in common.
pub open spec fn distinct_posts(ms: Seq<Message>) -> bool {
    forall|i: int, j: int|
        #![trigger ms[i], ms[j]]
        0 <= i < j < ms.len() ==> ms[i].create_at != ms[j].create_at || ms[i].id@ != ms[j].id@
}

/// Chronological order does not depend on the order of arrival.
pub proof fn chronological_order_is_unique(
    a: Seq<Message>,
    b: Seq<Message>,
    x: Seq<Message>,
    y: Seq<Message>,
)
    requires
        a.to_multiset() == b.to_multiset(),
        stably_sorted(Chronological, a, x),
        stably_sorted(Chronological, b, y),
        distinct_posts(x),
        distinct_posts(y),
    ensures
        x == y,
{
    assert(in_order(x)) by {
        let p = choose|p: Seq<int>| arranged(Chronological, a, p, x);
        sorted_is_strict(a, p, x);
    }
    assert(in_order(y)) by {
        let p = choose|p: Seq<int>| arranged(Chronological, b, p, y);
        sorted_is_strict(b, p, y);
    }
    in_order_unique(x, y);
}

/// Each message comes strictly before the next ones.
pub open spec fn in_order(ms: Seq<Message>) -> bool {
    forall|i: int, j: int|
        #![trigger ms[i], ms[j]]
        0 <= i < j < ms.len() ==> earlier(ms[i].create_at, ms[i].id@, ms[j].create_at, ms[j].id@)
}

proof fn sorted_is_strict(a: Seq<Message>, p: Seq<int>, x: Seq<Message>)
    requires
        arranged(Chronological, a, p, x),
        distinct_posts(x),
    ensures
        in_order(x),
{
    assert forall|i: int, j: int|
        #![trigger x[i], x[j]]
        0 <= i < j < x.len() implies earlier(x[i].create_at, x[i].id@, x[j].create_at, x[j].id@) by {
        assert(!Chronological.before(x[j], x[i]));
        text_before_total(x[i].id@, x[j].id@);
    }
}

proof fn in_order_unique(x: Seq<Message>, y: Seq<Message>)
    requires
        in_order(x),
        in_order(y),
        x.to_multiset() == y.to_multiset(),
    ensures
        x == y,
    decreases x.len(),
{
    broadcast use vstd::seq_lib::group_to_multiset_ensures;

    x.to_multiset_ensures();
    y.to_multiset_ensures();
    assert(x.len() == y.len());
    if x.len() == 0 {
        assert(x =~= y);
    } else {
        let u = x[0];
        let v = y[0];
        assert(x.contains(u) && y.contains(v));
        assert(y.to_multiset().count(u) > 0);
        assert(x.to_multiset().count(v) > 0);
        assert(y.contains(u) && x.contains(v));
        let i = y.index_of(u);
        let j = x.index_of(v);
        if u != v {
            assert(earlier(y[0].create_at, y[0].id@, y[i].create_at, y[i].id@));
            assert(earlier(x[0].create_at, x[0].id@, x[j].create_at, x[j].id@));
            earlier_asymmetric(u.create_at, u.id@, v.create_at, v.id@);
        }
        let x1 = x.drop_first();
        let y1 = y.drop_first();
        assert(x1 =~= x.remove(0));
        assert(y1 =~= y.remove(0));
        assert forall|i: int, j: int|
            #![trigger x1[i], x1[j]]
            0 <= i < j < x1.len() implies earlier(
            x1[i].create_at,
            x1[i].id@,
            x1[j].create_at,
            x1[j].id@,
        ) by {
            assert(x1[i] == x[i + 1] && x1[j] == x[j + 1]);
        }
        assert forall|i: int, j: int|
            #![trigger y1[i], y1[j]]
            0 <= i < j < y1.len() implies earlier(
            y1[i].create_at,
            y1[i].id@,
            y1[j].create_at,
            y1[j].id@,
        ) by {
            assert(y1[i] == y[i + 1] && y1[j] == y[j + 1]);
        }
        in_order_unique(x1, y1);
        assert(x =~= seq![u] + x1);
        assert(y =~= seq![v] + y1);
    }
}

/// The messages of a page, in chronological order.
pub open spec fn page_of(
    posts: Seq<RawPost>,
    authors: Map<Seq<char>, String>,
    ms: Seq<Message>,
) -> bool {
    exists|h: Seq<Message>| messages_of(posts, authors, h) && #[trigger] stably_sorted(Chronological, h, ms)
}

/// The messages of a page of a channel, in chronological order.
pub fn channel_page(posts: &Vec<RawPost>, authors: &TextMap<String>) -> (r: Vec<Message>)
    ensures
        page_of(posts@, authors@, r@),
        r@.len() == posts@.len(),
{
    let hydrated = hydrate_posts(posts, authors);
    let ghost h = hydrated@;
    let sorted = sort_chronologically(hydrated);
    proof {
        assert(stably_sorted(Chronological, h, sorted@));
    }
    sorted
}

/// The id of the newest message of a page, in chronological order.
pub fn newest_id(messages: &Vec<Message>) -> (r: Option<String>)
    ensures
        match r {
            Some(id) => messages@.len() > 0 && id == messages@.last().id,
            None => messages@.len() == 0,
        },
{
    if messages.len() == 0 {
        None
    } else {
        Some(messages[messages.len() - 1].id.clone())
    }
}

// ---------------------------------------------------------------------------
// The posts after an anchor
// ---------------------------------------------------------------------------

/// How far a scan of the posts after an anchor has come.
pub struct AfterScan {
    pub page: u64,
    pub collected: Vec<Message>,
}

/// What a page means for the scan.
pub enum AfterStep {
    /// Ask for the next page.
    More(AfterScan),
    /// These are all.
    Done(Vec<Message>),
}

/// `all` is what was collected before, followed by a page in chronological order.
pub open spec fn with_page(before: Seq<Message>, page: Seq<Message>, all: Seq<Message>) -> bool {
    exists|sorted: Seq<Message>| #[trigger]
        stably_sorted(Chronological, page, sorted) && all == before + sorted
}

/// `step` is what a page means for a scan.
pub open spec fn absorbed(scan: AfterScan, page: Seq<Message>, step: AfterStep) -> bool {
    match step {
        AfterStep::More(next) => {
            &&& page.len() >= AFTER_PAGE_SIZE
            &&& next.page == scan.page + 1
            &&& with_page(scan.collected@, page, next.collected@)
        },
        AfterStep::Done(all) => {
            &&& page.len() < AFTER_PAGE_SIZE
            &&& exists|total: Seq<Message>| #[trigger]
                with_page(scan.collected@, page, total) && stably_sorted(Chronological, total, all@)
        },
    }
}

impl AfterScan {
    pub fn new() -> (r: Self)
        ensures
            r.page == 0,
            r.collected@ == Seq::<Message>::empty(),
    {
        AfterScan { page: 0, collected: Vec::new() }
    }

    /// Takes the messages of a page. A page that is not full is the last one; what
    /// was collected is then put into chronological order.
    pub fn absorb(self, page_messages: Vec<Message>) -> (r: AfterStep)
        requires
            self.page < u64::MAX,
        ensures
            absorbed(self, page_messages@, r),
    {
        let ghost given = page_messages@;
        let ghost before = self.collected@;
        let mut collected = self.collected;
        let mut sorted = sort_chronologically(page_messages);
        let n: usize = sorted.len();
        let ghost page = sorted@;
        collected.append(&mut sorted);
        proof {
            assert(stably_sorted(Chronological, given, page));
            assert(with_page(before, given, collected@));
        }
        if n < AFTER_PAGE_SIZE {
            AfterStep::Done(sort_chronologically(collected))
        } else {
            AfterStep::More(AfterScan { page: self.page + 1, collected })
        }
    }
}

/// Nothing is lost or made up on the way: what a scan holds after a page is what
/// it held before and the page.
pub proof fn with_page_keeps_all(before: Seq<Message>, page: Seq<Message>, all: Seq<Message>)
    requires
        with_page(before, page, all),
    ensures
        all.to_multiset() == before.to_multiset().add(page.to_multiset()),
{
    let sorted = choose|sorted: Seq<Message>| #[trigger]
        stably_sorted(Chronological, page, sorted) && all == before + sorted;
    vstd::seq_lib::lemma_multiset_commutative(before, sorted);
}

// ---------------------------------------------------------------------------
// Search results
// ---------------------------------------------------------------------------

/// The posts of the first `limit` ids that are there, in the order of the ids.
pub open spec fn ranked(
    order: Seq<Seq<char>>,
    posts: Map<Seq<char>, RawPost>,
    limit: int,
) -> Seq<RawPost>
    decreases order.len(),
{
    if order.len() == 0 || limit <= 0 {
        Seq::empty()
    } else {
        let rest = ranked(order.drop_first(), posts, limit - 1);
        if posts.contains_key(order[0]) {
            seq![posts[order[0]]] + rest
        } else {
            rest
        }
    }
}

/// The posts that a search found, in the order of the provider, at most `limit`.
pub fn ranked_posts(envelope: &PostsEnvelope, limit: u32) -> (r: Vec<RawPost>)
    ensures
        r@ == ranked(texts(envelope.order@), envelope.posts@, limit as int),
{
    let ghost order = texts(envelope.order@);
    let ghost posts = envelope.posts@;
    let mut out: Vec<RawPost> = Vec::new();
    let n: u32 = limit;
    let mut i: usize = 0;
    let mut left: u32 = n;
    proof {
        assert(order.skip(0) =~= order);
        assert(out@ + ranked(order, posts, n as int) =~= ranked(order, posts, n as int));
    }
    while i < envelope.order.len() && left > 0
        invariant
            i <= envelope.order@.len(),
            order == texts(envelope.order@),
            posts == envelope.posts@,
            out@ + ranked(order.skip(i as int), posts, left as int) == ranked(
                order,
                posts,
                n as int,
            ),
        decreases envelope.order.len() - i,
    {
        let ghost rest = order.skip(i as int);
        let ghost before = out@;
        proof {
            assert(rest[0] == envelope.order@[i as int]@);
            assert(rest.drop_first() =~= order.skip(i + 1));
        }
        match envelope.posts.get(envelope.order[i].as_str()) {
            Some(post) => {
                out.push(post.clone());
                proof {
                    assert(out@ + ranked(rest.drop_first(), posts, left - 1) =~= before + ranked(
                        rest,
                        posts,
                        left as int,
                    ));
                }
            },
            None => {},
        }
        i += 1;
        left -= 1;
    }
    proof {
        assert(ranked(order.skip(i as int), posts, left as int) =~= Seq::empty());
        assert(out@ + ranked(order.skip(i as int), posts, left as int) =~= out@);
    }
    out
}

/// Never more posts are shown than were asked for.
pub proof fn ranked_is_limited(
    order: Seq<Seq<char>>,
    posts: Map<Seq<char>, RawPost>,
    limit: int,
)
    requires
        0 <= limit,
    ensures
        ranked(order, posts, limit).len() <= limit,
        ranked(order, posts, limit).len() <= order.len(),
    decreases order.len(),
{
    if order.len() > 0 && limit > 0 {
        ranked_is_limited(order.drop_first(), posts, limit - 1);
    }
}

/// A post that an author wrote.
pub struct AuthoredPost {
    pub id: String,
    pub create_at: i64,
}

/// `r` is the newest of the posts; of several of one moment the last one.
pub open spec fn newest_authored(posts: Seq<AuthoredPost>, r: Option<String>) -> bool {
    match r {
        None => posts.len() == 0,
        Some(id) => exists|i: int|
            #![trigger posts[i]]
            0 <= i < posts.len() && id == posts[i].id && (forall|j: int|
                0 <= j < posts.len() ==> (#[trigger] posts[j]).create_at <= posts[i].create_at) && (
            forall|j: int|
                i < j < posts.len() ==> (#[trigger] posts[j]).create_at < posts[i].create_at),
    }
}

/// The newest of the posts; of several of one moment the last one.
pub fn latest_authored(posts: &Vec<AuthoredPost>) -> (r: Option<String>)
    ensures
        newest_authored(posts@, r),
{
    if posts.len() == 0 {
        return None;
    }
    let mut best: usize = 0;
    let mut i: usize = 1;
    while i < posts.len()
        invariant
            best < i <= posts@.len(),
            forall|j: int|
                0 <= j < i ==> (#[trigger] posts@[j]).create_at <= posts@[best as int].create_at,
            forall|j: int|
                best < j < i ==> (#[trigger] posts@[j]).create_at < posts@[best as int].create_at,
        decreases posts.len() - i,
    {
        if posts[i].create_at >= posts[best].create_at {
            best = i;
        }
        i += 1;
    }
    let id = posts[best].id.clone();
    proof {
        assert(posts@[best as int].id == id);
    }
    Some(id)
}

// ---------------------------------------------------------------------------
// Single posts
// ---------------------------------------------------------------------------

/// The error is that a post is not in the channel that was asked for.
pub open spec fn not_in_channel(e: CoreError, id: Seq<char>, channel: Seq<char>) -> bool {
    e matches CoreError::AnchorChannelMismatch { post_id, channel: c } && post_id@ == id && c@
        == channel
}

fn refuse(post_id: &str, channel_name: &str) -> (r: CoreError)
    ensures
        not_in_channel(r, post_id@, channel_name@),
{
    CoreError::AnchorChannelMismatch {
        post_id: post_id.to_owned(),
        channel: channel_name.to_owned(),
    }
}

/// The answer is that there is no such thing.
pub open spec fn absent(e: CoreError) -> bool {
    e matches CoreError::Api { status, .. } && status == 404
}

/// The error of a post that could not be fetched: an absent one is an unknown
/// anchor, other errors stay.
pub fn fetch_error(err: CoreError, post_id: &str) -> (r: CoreError)
    ensures
        absent(err) ==> (r matches CoreError::AnchorNotFound(id) && id@ == post_id@),
        !absent(err) ==> r == err,
{
    match err {
        CoreError::Api { status, message } => {
            if status == 404 {
                CoreError::AnchorNotFound(post_id.to_owned())
            } else {
                CoreError::Api { status, message }
            }
        },
        other => other,
    }
}

/// Accepts a post in the channel that was asked for. `found` is the channel of
/// the post that the provider sent.
pub fn assert_post_in_channel(
    found: Result<String, CoreError>,
    expected_channel_id: &str,
    channel_name: &str,
    post_id: &str,
) -> (r: Result<(), CoreError>)
    ensures
        match found {
            Ok(channel) => {
                &&& r is Ok <==> channel@ == expected_channel_id@
                &&& r matches Err(e) ==> not_in_channel(e, post_id@, channel_name@)
            },
            Err(err) => r matches Err(e) && (absent(err) ==> (e matches CoreError::AnchorNotFound(
                id,
            ) && id@ == post_id@)) && (!absent(err) ==> e == err),
        },
{
    match found {
        Ok(channel) => {
            if !str_eq(channel.as_str(), expected_channel_id) {
                return Err(refuse(post_id, channel_name));
            }
            Ok(())
        },
        Err(err) => Err(fetch_error(err, post_id)),
    }
}

/// Whether a post in the channel that was asked for is pinned. `found` is the
/// channel of the post that the provider sent, and whether it is pinned.
pub fn fetch_post_pinned_state(
    found: Result<(String, bool), CoreError>,
    expected_channel_id: &str,
    channel_name: &str,
    post_id: &str,
) -> (r: Result<bool, CoreError>)
    ensures
        match found {
            Ok((channel, pinned)) => if channel@ == expected_channel_id@ {
                r == Ok::<bool, CoreError>(pinned)
            } else {
                r matches Err(e) && not_in_channel(e, post_id@, channel_name@)
            },
            Err(err) => r matches Err(e) && (absent(err) ==> (e matches CoreError::AnchorNotFound(
                id,
            ) && id@ == post_id@)) && (!absent(err) ==> e == err),
        },
{
    match found {
        Ok((channel, pinned)) => {
            if !str_eq(channel.as_str(), expected_channel_id) {
                return Err(refuse(post_id, channel_name));
            }
            Ok(pinned)
        },
        Err(err) => Err(fetch_error(err, post_id)),
    }
}

/// The post is the one that was asked for, in the channel that was asked for.
pub open spec fn asked_for(post: RawPost, expected: Seq<char>, id: Seq<char>) -> bool {
    post.id@ == id && bound(post.channel_id@, expected)
}

/// Accepts the post that was asked for, before anything of it is used.
pub fn get_post_in_channel(
    found: Result<RawPost, CoreError>,
    expected_channel_id: &str,
    channel_name: &str,
    post_id: &str,
) -> (r: Result<RawPost, CoreError>)
    ensures
        match found {
            Ok(post) => if asked_for(post, expected_channel_id@, post_id@) {
                r == Ok::<RawPost, CoreError>(post)
            } else {
                r matches Err(e) && not_in_channel(e, post_id@, channel_name@)
            },
            Err(err) => r matches Err(e) && (absent(err) ==> (e matches CoreError::AnchorNotFound(
                id,
            ) && id@ == post_id@)) && (!absent(err) ==> e == err),
        },
{
    match found {
        Ok(post) => {
            if !str_eq(post.id.as_str(), post_id) {
                return Err(refuse(post_id, channel_name));
            }
            if !binding_holds(post.channel_id.as_str(), expected_channel_id) {
                return Err(refuse(post_id, channel_name));
            }
            Ok(post)
        },
        Err(err) => Err(fetch_error(err, post_id)),
    }
}

// ---------------------------------------------------------------------------
// Threads
// ---------------------------------------------------------------------------

/// A post belongs to the thread: it is filed under its own id, it is in the
/// channel, and it is the root or a reply to it.
pub open spec fn thread_member(
    key: Seq<char>,
    post: RawPost,
    expected: Seq<char>,
    root: Seq<char>,
) -> bool {
    &&& post.id@ == key
    &&& bound(post.channel_id@, expected)
    &&& post.root_id@ == (if post.id@ == root {
        Seq::<char>::empty()
    } else {
        root
    })
}

/// The posts are the thread that was asked for, in the channel that was asked
/// for.
pub open spec fn thread_of(
    posts: Map<Seq<char>, RawPost>,
    expected: Seq<char>,
    root: Seq<char>,
) -> bool {
    &&& posts.contains_key(root)
    &&& forall|k: Seq<char>|
        posts.contains_key(k) ==> thread_member(k, #[trigger] posts[k], expected, root)
}

/// The root first, then replies in chronological order.
pub struct RootFirst {
    pub root: String,
}

impl Order<RawPost> for RootFirst {
    open spec fn before(&self, a: RawPost, b: RawPost) -> bool {
        let a_root = a.id@ == self.root@;
        let b_root = b.id@ == self.root@;
        if a_root != b_root {
            a_root
        } else {
            earlier(a.create_at, a.id@, b.create_at, b.id@)
        }
    }

    proof fn asymmetric(&self, a: RawPost, b: RawPost) {
        if (a.id@ == self.root@) == (b.id@ == self.root@) {
            earlier_asymmetric(a.create_at, a.id@, b.create_at, b.id@);
        }
    }

    proof fn negatively_transitive(&self, a: RawPost, b: RawPost, c: RawPost) {
        if (a.id@ == self.root@) == (b.id@ == self.root@) && (b.id@ == self.root@) == (c.id@
            == self.root@) {
            earlier_negatively_transitive(
                a.create_at,
                a.id@,
                b.create_at,
                b.id@,
                c.create_at,
                c.id@,
            );
        }
    }

    fn is_before(&self, a: &RawPost, b: &RawPost) -> (r: bool) {
        let a_root = str_eq(a.id.as_str(), self.root.as_str());
        let b_root = str_eq(b.id.as_str(), self.root.as_str());
        if a_root != b_root {
            a_root
        } else {
            is_earlier(a.create_at, a.id.as_str(), b.create_at, b.id.as_str())
        }
    }
}

fn is_thread_member(key: &str, post: &RawPost, expected: &str, root: &str) -> (r: bool)
    ensures
        r == thread_member(key@, *post, expected@, root@),
{
    if !str_eq(key, post.id.as_str()) {
        return false;
    }
    if !binding_holds(post.channel_id.as_str(), expected) {
        return false;
    }
    if str_eq(post.id.as_str(), root) {
        let none = post.root_id.as_str().is_empty();
        proof {
            if none {
                assert(post.root_id@ =~= Seq::<char>::empty());
            }
        }
        none
    } else {
        str_eq(post.root_id.as_str(), root)
    }
}

/// The posts of the thread, in the order of their ids.
pub open spec fn listed_posts(posts: Map<Seq<char>, RawPost>, s: Seq<RawPost>) -> bool {
    &&& s.len() == posts.dom().len()
    &&& forall|i: int|
        0 <= i < s.len() ==> posts.contains_key((#[trigger] s[i]).id@) && posts[s[i].id@] == s[i]
    &&& forall|i: int, j: int|
        #![trigger s[i], s[j]]
        0 <= i < j < s.len() ==> text_before(s[i].id@, s[j].id@)
}

/// Accepts a thread, and puts its root first and the replies behind it in
/// chronological order. A refusal names the post that was asked for, never one
/// that came back.
pub fn read_thread_in_channel(
    posts: TextMap<RawPost>,
    expected_channel_id: &str,
    channel_name: &str,
    root_post_id: &str,
) -> (r: Result<Vec<RawPost>, CoreError>)
    ensures
        match r {
            Ok(thread) => {
                &&& thread_of(posts@, expected_channel_id@, root_post_id@)
                &&& exists|o: RootFirst, s: Seq<RawPost>| #[trigger]
                    stably_sorted(o, s, thread@) && o.root@ == root_post_id@ && listed_posts(
                        posts@,
                        s,
                    )
                &&& thread@.len() > 0
                &&& thread@[0].id@ == root_post_id@
                &&& forall|i: int|
                    0 <= i < thread@.len() ==> bound(
                        (#[trigger] thread@[i]).channel_id@,
                        expected_channel_id@,
                    )
                &&& forall|i: int|
                    1 <= i < thread@.len() ==> (#[trigger] thread@[i]).root_id@ == root_post_id@
            },
            Err(e) => if posts@.dom().len() == 0 {
                e matches CoreError::EmptyThread { root_id } && root_id@ == root_post_id@
            } else {
                !thread_of(posts@, expected_channel_id@, root_post_id@) && not_in_channel(
                    e,
                    root_post_id@,
                    channel_name@,
                )
            },
        },
{
    let n: usize = posts.len();
    if n == 0 {
        return Err(CoreError::EmptyThread { root_id: root_post_id.to_owned() });
    }
    let mut i: usize = 0;
    while i < n
        invariant
            i <= n,
            n == posts.listed().len(),
            n == posts@.dom().len(),
            n > 0,
            forall|j: int|
                0 <= j < i ==> thread_member(
                    #[trigger] posts.listed()[j],
                    posts@[posts.listed()[j]],
                    expected_channel_id@,
                    root_post_id@,
                ),
        decreases n - i,
    {
        let key = posts.key_at(i);
        let post = posts.value_at(i);
        if !is_thread_member(key.as_str(), post, expected_channel_id, root_post_id) {
            proof {
                assert(posts@.contains_key(key@));
                assert(posts@[key@] == *post);
            }
            return Err(refuse(root_post_id, channel_name));
        }
        i += 1;
    }
    if !posts.contains_key(root_post_id) {
        return Err(refuse(root_post_id, channel_name));
    }
    let ghost m = posts@;
    let ghost keys = posts.listed();
    let values = posts.into_values();
    let ghost s = values@;
    proof {
        assert forall|k: Seq<char>| m.contains_key(k) implies thread_member(
            k,
            #[trigger] m[k],
            expected_channel_id@,
            root_post_id@,
        ) by {
            assert(keys.to_set().contains(k));
            let j = keys.index_of(k);
            assert(keys[j] == k);
        }
        assert forall|j: int| 0 <= j < s.len() implies m.contains_key((#[trigger] s[j]).id@)
            && m[s[j].id@] == s[j] by {
            assert(m[keys[j]] == s[j]);
            assert(thread_member(keys[j], m[keys[j]], expected_channel_id@, root_post_id@));
        }
        assert forall|j: int, k: int|
            #![trigger s[j], s[k]]
            0 <= j < k < s.len() implies text_before(s[j].id@, s[k].id@) by {
            assert(m[keys[j]] == s[j] && m[keys[k]] == s[k]);
            assert(thread_member(keys[j], m[keys[j]], expected_channel_id@, root_post_id@));
            assert(thread_member(keys[k], m[keys[k]], expected_channel_id@, root_post_id@));
        }
        assert(listed_posts(m, s));
    }
    let order = RootFirst { root: root_post_id.to_owned() };
    let thread = stable_sort(&order, values);
    proof {
        assert(stably_sorted(order, s, thread@));
        let p = choose|p: Seq<int>| arranged(order, s, p, thread@);
        // The root is among the posts, so it is first.
        let k = keys.index_of(root_post_id@);
        assert(keys.to_set().contains(root_post_id@));
        assert(keys[k] == root_post_id@);
        assert(m[keys[k]] == s[k]);
        assert(s[k].id@ == root_post_id@) by {
            assert(thread_member(keys[k], m[keys[k]], expected_channel_id@, root_post_id@));
        }
        thread_keeps(order, s, p, thread@, k);
        let at = choose|at: int| 0 <= at < thread@.len() && #[trigger] thread@[at] == s[k];
        if at > 0 && thread@[0].id@ != root_post_id@ {
            assert(!order.before(thread@[at], thread@[0]));
        }
        assert(thread@[0].id@ == root_post_id@);
        assert forall|j: int| 0 <= j < thread@.len() implies bound(
            (#[trigger] thread@[j]).channel_id@,
            expected_channel_id@,
        ) && (j >= 1 ==> thread@[j].root_id@ == root_post_id@) by {
            assert(thread@[j] == s[p[j]]);
            let id = s[p[j]].id@;
            assert(m[id] == s[p[j]]);
            assert(thread_member(id, m[id], expected_channel_id@, root_post_id@));
            if j >= 1 && id == root_post_id@ {
                // Two posts with the id of the root would be filed twice.
                assert(thread@[0] == s[p[0]]);
                if p[0] < p[j] {
                    assert(text_before(s[p[0]].id@, s[p[j]].id@));
                } else {
                    assert(p[0] != p[j]);
                    assert(text_before(s[p[j]].id@, s[p[0]].id@));
                }
                text_before_irreflexive(root_post_id@);
            }
        }
    }
    Ok(thread)
}

/// What is sorted is still there.
proof fn thread_keeps(
    o: RootFirst,
    s: Seq<RawPost>,
    p: Seq<int>,
    r: Seq<RawPost>,
    k: int,
)
    requires
        arranged(o, s, p, r),
        r.to_multiset() == s.to_multiset(),
        0 <= k < s.len(),
    ensures
        exists|at: int| 0 <= at < r.len() && #[trigger] r[at] == s[k],
{
    broadcast use vstd::seq_lib::group_to_multiset_ensures;

    s.to_multiset_ensures();
    r.to_multiset_ensures();
    assert(s.contains(s[k]));
    assert(s.to_multiset().count(s[k]) > 0);
    assert(r.to_multiset().count(s[k]) > 0);
    assert(r.contains(s[k]));
}

/// A thread read without a channel is refused: it could not be bound to one.
pub fn read_thread(_root_post_id: &str) -> (r: Result<Vec<Message>, CoreError>)
    ensures
        r == Err::<Vec<Message>, CoreError>(CoreError::UnboundThreadReadRemoved),
{
    Err(CoreError::UnboundThreadReadRemoved)
}

// ---------------------------------------------------------------------------
// Mentions
// ---------------------------------------------------------------------------

/// The messages that mention a user, in their order.
pub open spec fn mentioning(ms: Seq<Message>, username: Seq<char>) -> Seq<Message>
    decreases ms.len(),
{
    if ms.len() == 0 {
        Seq::empty()
    } else {
        let rest = mentioning(ms.drop_last(), username);
        if mentions(ms.last().message@, username) {
            rest.push(ms.last())
        } else {
            rest
        }
    }
}

/// The messages that mention a user, in their order.
fn select_mentions(messages: &Vec<Message>, username: &str) -> (r: Vec<Message>)
    ensures
        r@ == mentioning(messages@, username@),
{
    let mut out: Vec<Message> = Vec::new();
    let mut i: usize = 0;
    proof {
        assert(messages@.take(0) =~= Seq::empty());
    }
    while i < messages.len()
        invariant
            i <= messages@.len(),
            out@ == mentioning(messages@.take(i as int), username@),
        decreases messages.len() - i,
    {
        proof {
            assert(messages@.take(i + 1).drop_last() =~= messages@.take(i as int));
        }
        if message_mentions_username(messages[i].message.as_str(), username) {
            out.push(messages[i].clone());
        }
        i += 1;
    }
    proof {
        assert(messages@.take(i as int) =~= messages@);
    }
    out
}

/// The notifications among the messages of the notifications channel.
pub fn notifications(messages: &Vec<Message>, my_username: &str) -> (r: Vec<Notification>)
    ensures
        r@.len() == mentioning(messages@, my_username@).len(),
        forall|i: int|
            0 <= i < r@.len() ==> (#[trigger] r@[i]).message == mentioning(
                messages@,
                my_username@,
            )[i] && r@[i].from_channel@ == DEFAULT_NOTIFICATIONS_CHANNEL@,
{
    let selected = select_mentions(messages, my_username);
    let mut out: Vec<Notification> = Vec::new();
    let mut i: usize = 0;
    while i < selected.len()
        invariant
            i <= selected@.len(),
            out@.len() == i,
            forall|j: int|
                0 <= j < i ==> (#[trigger] out@[j]).message == selected@[j]
                    && out@[j].from_channel@ == DEFAULT_NOTIFICATIONS_CHANNEL@,
        decreases selected.len() - i,
    {
        out.push(
            Notification {
                from_channel: DEFAULT_NOTIFICATIONS_CHANNEL.to_owned(),
                message: selected[i].clone(),
            },
        );
        i += 1;
    }
    out
}

/// Which posts mention the user, and when they were made.
pub fn mention_summaries(messages: &Vec<Message>, my_username: &str) -> (r: Vec<MentionSummary>)
    ensures
        r@.len() == mentioning(messages@, my_username@).len(),
        forall|i: int|
            0 <= i < r@.len() ==> (#[trigger] r@[i]).post_id == mentioning(
                messages@,
                my_username@,
            )[i].id && r@[i].create_at == mentioning(messages@, my_username@)[i].create_at,
{
    let selected = select_mentions(messages, my_username);
    let mut out: Vec<MentionSummary> = Vec::new();
    let mut i: usize = 0;
    while i < selected.len()
        invariant
            i <= selected@.len(),
            out@.len() == i,
            forall|j: int|
                0 <= j < i ==> (#[trigger] out@[j]).post_id == selected@[j].id
                    && out@[j].create_at == selected@[j].create_at,
        decreases selected.len() - i,
    {
        out.push(
            MentionSummary { post_id: selected[i].id.clone(), create_at: selected[i].create_at },
        );
        i += 1;
    }
    out
}

/// What a search found: the ranked posts as messages, in the rank that the provider
/// gave them.
pub fn search_channel(
    resolved: &ResolvedChannel,
    envelope: &PostsEnvelope,
    limit: u32,
    authors: &TextMap<String>,
) -> (r: SearchResult)
    ensures
        r.team == resolved.team_name,
        r.channel == resolved.channel_name,
        messages_of(
            ranked(texts(envelope.order@), envelope.posts@, limit as int),
            authors@,
            r.posts@,
        ),
{
    let found = ranked_posts(envelope, limit);
    SearchResult {
        team: resolved.team_name.clone(),
        channel: resolved.channel_name.clone(),
        posts: hydrate_posts(&found, authors),
    }
}

/// The post to read on from, where the reader wrote one; it is an error where there
/// is none.
pub fn read_channel_since_last_mine(found: Option<String>, channel_name: &str, my_username: &str)
    -> (r: Result<String, CoreError>)
    ensures
        match found {
            Some(id) => r == Ok::<String, CoreError>(id),
            None => r matches Err(CoreError::NoPriorAuthoredPost { channel, username }) && channel@
                == channel_name@ && username@ == my_username@,
        },
{
    match found {
        Some(id) => Ok(id),
        None => Err(
            CoreError::NoPriorAuthoredPost {
                channel: channel_name.to_owned(),
                username: my_username.to_owned(),
            },
        ),
    }
}

/// The receipt of a post. That of a reply names the post replied to.
pub fn post_receipt(id: String, root_id: Option<&str>) -> (r: PostReceipt)
    ensures
        r.id == id,
        opt_text(r.parent_id) == opt_view(root_id),
{
    PostReceipt {
        id,
        parent_id: match root_id {
            Some(root) => Some(root.to_owned()),
            None => None,
        },
    }
}

/// The message that notifies a bot.
pub fn notify_text(bot_username: &str, message: &str) -> (r: String)
    ensures
        r@ == "@"@ + bot_username@ + " **[notify]** "@ + message@,
{
    let mut m = "@".to_owned();
    m.append(bot_username);
    m.append(" **[notify]** ");
    m.append(message);
    m
}

// ---------------------------------------------------------------------------
// Laws
// ---------------------------------------------------------------------------

/// A post without a root is a root itself; any other belongs to the root that it names.
pub proof fn posts_without_a_root_are_roots(root: Seq<char>, id: Seq<char>)
    ensures
        root.len() == 0 ==> thread_root(root, id) == id,
        root.len() > 0 ==> thread_root(root, id) == root,
{
}

/// A post is bound to a channel where it names that channel and no empty one.
pub proof fn posts_are_bound_by_name(actual: Seq<char>, expected: Seq<char>)
    ensures
        bound(actual, expected) <==> actual == expected && actual.len() > 0 && expected.len() > 0,
{
}

/// A message says what its post says. Its author goes by the name that is known, else by
/// the id, and it names the thread that it belongs to.
pub proof fn messages_say_what_posts_say(
    posts: Seq<RawPost>,
    authors: Map<Seq<char>, String>,
    ms: Seq<Message>,
    i: int,
)
    requires
        messages_of(posts, authors, ms),
        0 <= i < posts.len(),
    ensures
        ms.len() == posts.len(),
        ms[i].id@ == posts[i].id@,
        ms[i].user_id@ == posts[i].user_id@,
        ms[i].message@ == posts[i].message@,
        ms[i].create_at == posts[i].create_at,
        ms[i].username@ == (if authors.contains_key(posts[i].user_id@) {
            authors[posts[i].user_id@]@
        } else {
            posts[i].user_id@
        }),
        ms[i].root_id@ == (if posts[i].root_id@.len() == 0 {
            posts[i].id@
        } else {
            posts[i].root_id@
        }),
{
    assert(message_of(posts[i], authors, ms[i]));
}

/// The authors of posts are those who wrote one.
pub proof fn authors_wrote_a_post(posts: Seq<RawPost>, id: Seq<char>)
    ensures
        authors_of(posts).contains(id) <==> exists|i: int|
            0 <= i < posts.len() && (#[trigger] posts[i]).user_id@ == id,
    decreases posts.len(),
{
    if posts.len() > 0 {
        let front = posts.drop_last();
        authors_wrote_a_post(front, id);
        if exists|i: int| 0 <= i < front.len() && (#[trigger] front[i]).user_id@ == id {
            let i = choose|i: int| 0 <= i < front.len() && (#[trigger] front[i]).user_id@ == id;
            assert(posts[i].user_id@ == id);
        }
        if exists|i: int| 0 <= i < posts.len() && (#[trigger] posts[i]).user_id@ == id {
            let i = choose|i: int| 0 <= i < posts.len() && (#[trigger] posts[i]).user_id@ == id;
            if i < front.len() {
                assert(front[i].user_id@ == id);
            }
        }
        assert(posts[posts.len() - 1] == posts.last());
    }
}

/// In chronological order nothing stands in front of an older message, nor, of one moment,
/// in front of one whose id comes first.
pub proof fn older_messages_stand_first(a: Seq<Message>, x: Seq<Message>, i: int, j: int)
    requires
        stably_sorted(Chronological, a, x),
        0 <= i < j < x.len(),
    ensures
        x[i].create_at <= x[j].create_at,
        x[i].create_at == x[j].create_at ==> !text_before(x[j].id@, x[i].id@),
        x.to_multiset() == a.to_multiset(),
{
    crate::order::sorted_items_are_in_order(Chronological, a, x);
    assert(!Chronological.before(x[j], x[i]));
}

/// A page holds a message for each post, the oldest first.
pub proof fn pages_hold_every_post(
    posts: Seq<RawPost>,
    authors: Map<Seq<char>, String>,
    ms: Seq<Message>,
    k: int,
)
    requires
        page_of(posts, authors, ms),
        0 <= k < posts.len(),
    ensures
        ms.len() == posts.len(),
        exists|i: int| 0 <= i < ms.len() && (#[trigger] ms[i]).id@ == posts[k].id@ && ms[i].message@
            == posts[k].message@,
        forall|i: int, j: int|
            #![trigger ms[i], ms[j]]
            0 <= i < j < ms.len() ==> ms[i].create_at <= ms[j].create_at,
{
    let h = choose|h: Seq<Message>|
        messages_of(posts, authors, h) && #[trigger] stably_sorted(Chronological, h, ms);
    crate::order::sorted_items_are_in_order(Chronological, h, ms);
    assert(message_of(posts[k], authors, h[k]));
    assert(h.contains(h[k]));
    crate::order::sorting_keeps_every_item(Chronological, h, ms, h[k]);
    let i = ms.index_of(h[k]);
    assert(ms[i].id@ == posts[k].id@);
    assert forall|i: int, j: int|
        #![trigger ms[i], ms[j]]
        0 <= i < j < ms.len() implies ms[i].create_at <= ms[j].create_at by {
        older_messages_stand_first(h, ms, i, j);
    }
}

/// A scan goes on after a page of two hundred, and ends after a shorter one. It keeps every
/// message, and in the end the oldest stands first.
pub proof fn scans_end_with_a_short_page(scan: AfterScan, page: Seq<Message>, step: AfterStep)
    requires
        absorbed(scan, page, step),
    ensures
        step is More <==> page.len() >= 200,
        match step {
            AfterStep::More(next) => next.page == scan.page + 1 && next.collected@.to_multiset()
                == scan.collected@.to_multiset().add(page.to_multiset()),
            AfterStep::Done(all) => all@.to_multiset() == scan.collected@.to_multiset().add(
                page.to_multiset(),
            ) && forall|i: int, j: int|
                #![trigger all@[i], all@[j]]
                0 <= i < j < all@.len() ==> all@[i].create_at <= all@[j].create_at,
        },
{
    match step {
        AfterStep::More(next) => {
            with_page_keeps_all(scan.collected@, page, next.collected@);
        },
        AfterStep::Done(all) => {
            let total = choose|total: Seq<Message>| #[trigger]
                with_page(scan.collected@, page, total) && stably_sorted(Chronological, total, all@);
            with_page_keeps_all(scan.collected@, page, total);
            assert forall|i: int, j: int|
                #![trigger all@[i], all@[j]]
                0 <= i < j < all@.len() implies all@[i].create_at <= all@[j].create_at by {
                older_messages_stand_first(total, all@, i, j);
            }
        },
    }
}

/// Hits come in the order that the provider gave them, as many as were asked for. A hit
/// that the provider did not send counts, and is left out.
pub proof fn hits_keep_their_rank(
    order: Seq<Seq<char>>,
    posts: Map<Seq<char>, RawPost>,
    limit: int,
)
    requires
        forall|i: int| 0 <= i < order.len() ==> posts.contains_key(#[trigger] order[i]),
        0 <= limit,
    ensures
        ranked(order, posts, limit).len() == (if order.len() <= limit {
            order.len() as int
        } else {
            limit
        }),
        forall|i: int|
            0 <= i < ranked(order, posts, limit).len() ==> #[trigger] ranked(order, posts, limit)[i]
                == posts[order[i]],
    decreases order.len(),
{
    if order.len() > 0 && limit > 0 {
        let rest = order.drop_first();
        assert forall|i: int| 0 <= i < rest.len() implies posts.contains_key(#[trigger] rest[i]) by {
            assert(rest[i] == order[i + 1]);
        }
        hits_keep_their_rank(rest, posts, limit - 1);
        assert(posts.contains_key(order[0]));
        let all = ranked(order, posts, limit);
        let later = ranked(rest, posts, limit - 1);
        assert(all =~= seq![posts[order[0]]] + later);
        assert forall|i: int| 0 <= i < all.len() implies #[trigger] all[i] == posts[order[i]] by {
            if i > 0 {
                assert(all[i] == later[i - 1]);
                assert(rest[i - 1] == order[i]);
            }
        }
    }
}

/// A hit that the provider did not send is left out, and takes its place in the count.
pub proof fn missing_hits_are_left_out(
    id: Seq<char>,
    order: Seq<Seq<char>>,
    posts: Map<Seq<char>, RawPost>,
    limit: int,
)
    requires
        limit > 0,
    ensures
        !posts.contains_key(id) ==> ranked(seq![id] + order, posts, limit) == ranked(
            order,
            posts,
            limit - 1,
        ),
        posts.contains_key(id) ==> ranked(seq![id] + order, posts, limit) == seq![posts[id]]
            + ranked(order, posts, limit - 1),
        ranked(order, posts, 0) == Seq::<RawPost>::empty(),
{
    assert((seq![id] + order).drop_first() =~= order);
}

/// The latest of one's posts is not older than any other of them.
pub proof fn the_latest_post_is_not_older(posts: Seq<AuthoredPost>, r: Option<String>, k: int)
    requires
        newest_authored(posts, r),
        0 <= k < posts.len(),
    ensures
        r is Some,
        exists|i: int|
            0 <= i < posts.len() && (#[trigger] posts[i]).id@ == r->0@ && posts[k].create_at
                <= posts[i].create_at,
{
    let id = r->0;
    let i = choose|i: int|
        #![trigger posts[i]]
        0 <= i < posts.len() && id == posts[i].id && (forall|j: int|
            0 <= j < posts.len() ==> (#[trigger] posts[j]).create_at <= posts[i].create_at) && (
        forall|j: int| i < j < posts.len() ==> (#[trigger] posts[j]).create_at < posts[i].create_at);
    assert(posts[k].create_at <= posts[i].create_at);
}

/// A post is absent where the provider answers 404.
pub proof fn absent_means_404(e: CoreError)
    ensures
        absent(e) <==> e is Api && e->Api_status == 404,
{
}

/// The post that was asked for has its id and names its channel, which is not empty.
pub proof fn posts_that_were_asked_for(post: RawPost, expected: Seq<char>, id: Seq<char>)
    ensures
        asked_for(post, expected, id) <==> post.id@ == id && post.channel_id@ == expected
            && expected.len() > 0,
{
}

/// A conversation is one where its root is there, and every post of it is in the channel
/// and, unless it is the root, answers the root.
pub proof fn conversations_are_of_one_root(
    posts: Map<Seq<char>, RawPost>,
    expected: Seq<char>,
    root: Seq<char>,
)
    ensures
        thread_of(posts, expected, root) <==> posts.contains_key(root) && forall|k: Seq<char>|
            #![trigger posts[k]]
            posts.contains_key(k) ==> posts[k].id@ == k && posts[k].channel_id@ == expected
                && expected.len() > 0 && (k == root ==> posts[k].root_id@.len() == 0) && (k != root
                ==> posts[k].root_id@ == root),
{
    let right = posts.contains_key(root) && forall|k: Seq<char>|
        #![trigger posts[k]]
        posts.contains_key(k) ==> posts[k].id@ == k && posts[k].channel_id@ == expected
            && expected.len() > 0 && (k == root ==> posts[k].root_id@.len() == 0) && (k != root
            ==> posts[k].root_id@ == root);
    if right {
        assert forall|k: Seq<char>| posts.contains_key(k) implies thread_member(
            k,
            #[trigger] posts[k],
            expected,
            root,
        ) by {
            if k == root {
                assert(posts[k].root_id@ =~= Seq::<char>::empty());
            }
        }
    }
    if thread_of(posts, expected, root) {
        assert forall|k: Seq<char>|
            #![trigger posts[k]]
            posts.contains_key(k) implies posts[k].id@ == k && posts[k].channel_id@ == expected
            && expected.len() > 0 && (k == root ==> posts[k].root_id@.len() == 0) && (k != root
            ==> posts[k].root_id@ == root) by {
            assert(thread_member(k, posts[k], expected, root));
        }
    }
}

/// In a conversation the root stands first, and then the older posts before the newer ones.
pub proof fn conversations_begin_with_their_root(
    o: RootFirst,
    s: Seq<RawPost>,
    r: Seq<RawPost>,
    i: int,
    j: int,
)
    requires
        stably_sorted(o, s, r),
        0 <= i < j < r.len(),
        r[i].id@ != r[j].id@,
    ensures
        r[j].id@ != o.root@,
        r[i].id@ == o.root@ || r[i].create_at <= r[j].create_at,
{
    crate::order::sorted_items_are_in_order(o, s, r);
    assert(!o.before(r[j], r[i]));
}

/// A message is reported if and only if it mentions the bot, and in the order in which it
/// came.
pub proof fn mentions_are_reported(ms: Seq<Message>, username: Seq<char>)
    ensures
        forall|m: Message| #[trigger]
            mentioning(ms, username).contains(m) <==> ms.contains(m) && mentions(
                m.message@,
                username,
            ),
        mentioning(ms, username) == ms.filter(|m: Message| mentions(m.message@, username)),
    decreases ms.len(),
{
    reveal(Seq::filter);
    if ms.len() > 0 {
        let front = ms.drop_last();
        mentions_are_reported(front, username);
        let all = mentioning(ms, username);
        let rest = mentioning(front, username);
        assert forall|m: Message| #[trigger] all.contains(m) <==> ms.contains(m) && mentions(
            m.message@,
            username,
        ) by {
            if all.contains(m) {
                let k = all.index_of(m);
                if k < rest.len() {
                    assert(rest[k] == m);
                    assert(rest.contains(m));
                    let i = front.index_of(m);
                    assert(ms[i] == m);
                } else {
                    assert(ms[ms.len() - 1] == m);
                }
            }
            if ms.contains(m) && mentions(m.message@, username) {
                let i = ms.index_of(m);
                if i < front.len() {
                    assert(front[i] == m);
                    assert(rest.contains(m));
                    let k = rest.index_of(m);
                    assert(all[k] == m);
                } else {
                    assert(all[all.len() - 1] == m);
                }
            }
        }
    }
}

/// A post is in the channel where it says so; one that is elsewhere or absent is refused.
pub proof fn posts_are_checked_against_their_channel(
    found: Result<String, CoreError>,
    expected: &str,
    channel_name: &str,
    post_id: &str,
    r: Result<(), CoreError>,
)
    requires
        call_ensures(assert_post_in_channel, (found, expected, channel_name, post_id), r),
    ensures
        r is Ok <==> found is Ok && found->Ok_0@ == expected@,
        found is Ok && found->Ok_0@ != expected@ ==> (r matches Err(
            CoreError::AnchorChannelMismatch { post_id: id, channel },
        ) && id@ == post_id@ && channel@ == channel_name@),
        found is Err && found->Err_0 is Api && found->Err_0->Api_status == 404 ==> (r matches Err(
            CoreError::AnchorNotFound(id),
        ) && id@ == post_id@),
        found is Err && !(found->Err_0 is Api && found->Err_0->Api_status == 404) ==> r == Err::<
            (),
            CoreError,
        >(found->Err_0),
{
}

/// Whether a post is pinned is told only of a post in the channel.
pub proof fn pins_are_told_of_posts_in_the_channel(
    found: Result<(String, bool), CoreError>,
    expected: &str,
    channel_name: &str,
    post_id: &str,
    r: Result<bool, CoreError>,
)
    requires
        call_ensures(fetch_post_pinned_state, (found, expected, channel_name, post_id), r),
    ensures
        r is Ok <==> found is Ok && (found->Ok_0).0@ == expected@,
        r is Ok ==> r->Ok_0 == (found->Ok_0).1,
{
}

/// A post is handed out only where it is the one that was asked for, in the channel that was
/// named.
pub proof fn posts_elsewhere_are_not_handed_out(
    found: Result<RawPost, CoreError>,
    expected: &str,
    channel_name: &str,
    post_id: &str,
    r: Result<RawPost, CoreError>,
)
    requires
        call_ensures(get_post_in_channel, (found, expected, channel_name, post_id), r),
    ensures
        r is Ok <==> found is Ok && found->Ok_0.id@ == post_id@ && found->Ok_0.channel_id@
            == expected@ && expected@.len() > 0,
        r is Ok ==> r->Ok_0 == found->Ok_0,
        found is Ok && r is Err ==> r->Err_0 is AnchorChannelMismatch,
        found is Err && found->Err_0 is Api && found->Err_0->Api_status == 404 ==> r->Err_0 is
            AnchorNotFound,
{
}

/// A conversation is handed out only where it is one, its root first; an empty one is an
/// error of its own.
pub proof fn conversations_are_handed_out_whole(
    posts: TextMap<RawPost>,
    expected: &str,
    channel_name: &str,
    root: &str,
    r: Result<Vec<RawPost>, CoreError>,
)
    requires
        call_ensures(read_thread_in_channel, (posts, expected, channel_name, root), r),
    ensures
        r is Ok ==> r->Ok_0@.len() > 0 && r->Ok_0@[0].id@ == root@ && r->Ok_0@.len()
            == posts@.dom().len(),
        r is Ok ==> forall|i: int|
            0 <= i < r->Ok_0@.len() ==> (#[trigger] r->Ok_0@[i]).channel_id@ == expected@,
        r is Ok ==> forall|i: int, j: int|
            #![trigger r->Ok_0@[i], r->Ok_0@[j]]
            1 <= i < j < r->Ok_0@.len() ==> r->Ok_0@[i].create_at <= r->Ok_0@[j].create_at
                || r->Ok_0@[i].id@ == r->Ok_0@[j].id@,
        posts@.dom().len() == 0 ==> r is Err,
        r is Err && posts@.dom().len() == 0 ==> r->Err_0 is EmptyThread,
        r is Err && posts@.dom().len() > 0 ==> r->Err_0 is AnchorChannelMismatch,
{
    if r is Ok {
        let thread = r->Ok_0@;
        let (o, s) = choose|o: RootFirst, s: Seq<RawPost>| #[trigger]
            stably_sorted(o, s, thread) && o.root@ == root@ && listed_posts(posts@, s);
        crate::order::sorted_items_are_in_order(o, s, thread);
        assert forall|i: int, j: int|
            #![trigger thread[i], thread[j]]
            1 <= i < j < thread.len() implies thread[i].create_at <= thread[j].create_at
            || thread[i].id@ == thread[j].id@ by {
            if thread[i].id@ != thread[j].id@ {
                conversations_begin_with_their_root(o, s, thread, i, j);
                if thread[i].id@ == o.root@ {
                    assert(thread[0].id@ != thread[i].id@ || thread[0].id@ == o.root@);
                    let p = choose|p: Seq<int>| arranged(o, s, p, thread);
                    assert(p[0] != p[i]);
                    assert(s[p[0]] == thread[0] && s[p[i]] == thread[i]);
                    if p[0] < p[i] {
                        assert(text_before(s[p[0]].id@, s[p[i]].id@));
                    } else {
                        assert(text_before(s[p[i]].id@, s[p[0]].id@));
                    }
                    crate::text::text_before_irreflexive(o.root@);
                }
            }
        }
    }
}

/// The newest of messages in chronological order is the last, and nothing where there is
/// none.
pub proof fn the_newest_message_is_the_last(messages: &Vec<Message>, r: Option<String>)
    requires
        call_ensures(newest_id, (messages,), r),
    ensures
        r is None <==> messages@.len() == 0,
        r is Some ==> r->0@ == messages@[messages@.len() - 1].id@,
{
}

/// Every message that mentions the bot is reported, as it is, and no other.
pub proof fn notifications_are_the_mentions(
    messages: &Vec<Message>,
    my_username: &str,
    r: Vec<Notification>,
    m: Message,
)
    requires
        call_ensures(notifications, (messages, my_username), r),
    ensures
        messages@.contains(m) && mentions(m.message@, my_username@) ==> exists|i: int|
            0 <= i < r@.len() && (#[trigger] r@[i]).message == m,
        forall|i: int|
            0 <= i < r@.len() ==> messages@.contains((#[trigger] r@[i]).message) && mentions(
                r@[i].message.message@,
                my_username@,
            ) && r@[i].from_channel@ == "agent-notifications"@,
{
    let found = mentioning(messages@, my_username@);
    mentions_are_reported(messages@, my_username@);
    if messages@.contains(m) && mentions(m.message@, my_username@) {
        assert(found.contains(m));
        let i = found.index_of(m);
        assert(r@[i].message == m);
    }
    assert forall|i: int| 0 <= i < r@.len() implies messages@.contains((#[trigger] r@[i]).message)
        && mentions(r@[i].message.message@, my_username@) && r@[i].from_channel@
        == "agent-notifications"@ by {
        assert(found.contains(found[i]));
        assert(r@[i].message == found[i]);
    }
}

/// Every message that mentions the bot is counted, with its id and its moment.
pub proof fn summaries_are_the_mentions(
    messages: &Vec<Message>,
    my_username: &str,
    r: Vec<MentionSummary>,
    m: Message,
)
    requires
        call_ensures(mention_summaries, (messages, my_username), r),
    ensures
        messages@.contains(m) && mentions(m.message@, my_username@) ==> exists|i: int|
            0 <= i < r@.len() && (#[trigger] r@[i]).post_id == m.id && r@[i].create_at == m.create_at,
        r@.len() <= messages@.len(),
{
    let found = mentioning(messages@, my_username@);
    mentions_are_reported(messages@, my_username@);
    messages@.lemma_filter_len(|m: Message| mentions(m.message@, my_username@));
    if messages@.contains(m) && mentions(m.message@, my_username@) {
        assert(found.contains(m));
        let i = found.index_of(m);
        assert(r@[i].post_id == found[i].id);
    }
}

/// A search reports where it looked, and its hits in the order of the provider.
pub proof fn searches_report_their_hits(
    resolved: &ResolvedChannel,
    envelope: &PostsEnvelope,
    limit: u32,
    authors: &TextMap<String>,
    r: SearchResult,
    i: int,
)
    requires
        call_ensures(search_channel, (resolved, envelope, limit, authors), r),
        forall|k: int|
            0 <= k < envelope.order@.len() ==> envelope.posts@.contains_key(
                (#[trigger] envelope.order@[k])@,
            ),
        0 <= i < envelope.order@.len(),
        i < limit,
    ensures
        r.team == resolved.team_name && r.channel == resolved.channel_name,
        i < r.posts@.len() && r.posts@[i].id == envelope.posts@[envelope.order@[i]@].id
            && r.posts@[i].message == envelope.posts@[envelope.order@[i]@].message,
        r.posts@.len() <= limit,
{
    let order = texts(envelope.order@);
    assert forall|k: int| 0 <= k < order.len() implies envelope.posts@.contains_key(
        #[trigger] order[k],
    ) by {
        assert(order[k] == envelope.order@[k]@);
    }
    hits_keep_their_rank(order, envelope.posts@, limit as int);
    let hits = ranked(order, envelope.posts@, limit as int);
    assert(hits[i] == envelope.posts@[order[i]]);
    assert(message_of(hits[i], authors@, r.posts@[i]));
}

/// A notice is addressed to the bot that it is for; a receipt names the new post, and the
/// post that it answers.
pub proof fn notices_and_receipts(
    bot: &str,
    message: &str,
    text: String,
    id: String,
    root: Option<&str>,
    receipt: PostReceipt,
)
    requires
        call_ensures(notify_text, (bot, message), text),
        call_ensures(post_receipt, (id, root), receipt),
    ensures
        text@ == "@"@ + bot@ + " **[notify]** "@ + message@,
        receipt.id == id,
        receipt.parent_id is Some <==> root is Some,
        root is Some ==> receipt.parent_id->0@ == root->0@,
{
}

/// An unbound read of a conversation is always refused.
pub proof fn unbound_reads_are_refused(root: &str, r: Result<Vec<Message>, CoreError>)
    requires
        call_ensures(read_thread, (root,), r),
    ensures
        r is Err && r->Err_0 is UnboundThreadReadRemoved,
{
}

/// What follows one's latest post is read from that post; without one nothing is.
pub proof fn reading_on_needs_a_post(
    found: Option<String>,
    channel: &str,
    me: &str,
    r: Result<String, CoreError>,
)
    requires
        call_ensures(read_channel_since_last_mine, (found, channel, me), r),
    ensures
        found is Some ==> r == Ok::<String, CoreError>(found->0),
        found is None ==> r is Err && r->Err_0 is NoPriorAuthoredPost,
{
}

/// A post that is not there is told by its id; any other failure is handed on.
pub proof fn missing_posts_are_told_by_their_id(err: CoreError, post_id: &str, r: CoreError)
    requires
        call_ensures(fetch_error, (err, post_id), r),
    ensures
        err is Api && err->Api_status == 404 ==> r is AnchorNotFound && r->AnchorNotFound_0@
            == post_id@,
        !(err is Api && err->Api_status == 404) ==> r == err,
{
}

/// The posts that came are listed each once, by their ids.
pub proof fn every_post_is_listed_once(posts: Map<Seq<char>, RawPost>, s: Seq<RawPost>, i: int, j: int)
    requires
        listed_posts(posts, s),
        0 <= i < j < s.len(),
    ensures
        s.len() == posts.dom().len(),
        posts.contains_key(s[i].id@) && posts[s[i].id@] == s[i],
        s[i].id@ != s[j].id@,
{
    text_before_irreflexive(s[i].id@);
}

} // verus!
