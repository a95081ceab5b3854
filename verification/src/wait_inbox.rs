//! The inbox wait: the cursor that says which direct messages were seen, and
//! the records of `wait_inbox_follow_v1`.
use vstd::prelude::*;
use vstd::string::*;
use vstd::utf8::encode_utf8;

use crate::base64url::{b64url_decode, b64url_encode, decoded, decoded_encoded, encoded};
use crate::collections::{ascending, ascending_no_duplicates, ascending_unique, TextSet};
use crate::error::CoreError;
use crate::inbox_wire::{members_of, read_wire, wire_json, wire_members, CursorWire};
use crate::json::{json_list, json_quote, json_quoted};
use crate::text::{byte_len, concat3, contains, contains_text, i64_text, join, opt_str, opt_text,
    split_at_first, split_once, starts_with, str_eq, strip_prefix, text_before,
    text_before_irreflexive, texts};
use crate::types::Message;
use crate::wait_follow::{fault_of, is_mattermost_post_id, post_id, WaitFollowMode};

verus! {

pub const WAIT_INBOX_V1_METHOD: &'static str = "wait_inbox_v1";

pub const WAIT_INBOX_FOLLOW_V1_METHOD: &'static str = "wait_inbox_follow_v1";

pub const WAIT_INBOX_FOLLOW_V1_EVENT_METHOD: &'static str = "wait_inbox_follow_v1.event";

pub const WAIT_INBOX_FOLLOW_V1_EVENT_SCHEMA: &'static str = "wait_inbox_follow_v1.event";

pub const WAIT_INBOX_HELP: &'static str =
    "wait for any DM to this bot; do not pass a channel id.";

pub const INBOX_CURSOR_PREFIX: &'static str = "inv1.";

pub const INBOX_CURSOR_MAX_BYTES: usize = 32_768;

pub const INBOX_MAX_DMS: usize = 1024;

pub const INBOX_MAX_BACKFILL: usize = 512;

pub const INBOX_MAX_WATERMARK_IDS: usize = 128;

pub const INBOX_PAGE_SIZE: usize = 200;

pub const DM_CLASS_OWNERSHIP_KEY: &'static str = "dm-class";

pub const DM_CLASS_TEAM: &'static str = "direct";

pub const DM_CLASS_CHANNEL: &'static str = "inbox";

pub const POST_ID_NOT_INBOX_CURSOR: &'static str = "inbox cursor, not Mattermost post id";

/// Request to wait for any direct message.
#[derive(Debug, Clone, PartialEq, Eq)]
pub struct WaitInboxV1Params {
    pub timeout_secs: u64,
    pub contains: Option<String>,
    pub pattern: Option<String>,
    pub after: Option<String>,
    pub replace_wait_id: Option<String>,
    pub mention: bool,
}

/// The direct message that ended a wait.
#[derive(Debug, Clone, PartialEq, Eq)]
pub struct WaitInboxV1Result {
    pub peer_username: String,
    pub dm_name: String,
    pub matched_post_id: String,
    pub next_inbox_cursor: String,
    pub messages: Vec<Message>,
    pub wait_id: Option<String>,
    pub replaced_wait_id: Option<String>,
}

#[derive(Debug, Clone, Copy, PartialEq, Eq, Structural)]
pub enum WaitInboxFollowSchema {
    V1,
}

/// A record of the inbox follow stream.
#[derive(Debug, Clone, PartialEq, Eq)]
pub struct WaitInboxFollowEvent {
    pub schema: WaitInboxFollowSchema,
    pub wait_id: String,
    pub kind: WaitInboxFollowEventKind,
}

#[derive(Debug, Clone, PartialEq, Eq)]
pub enum WaitInboxFollowEventKind {
    Armed { replaced_wait_id: Option<String> },
    Backlog {
        matched_post_id: String,
        peer_username: String,
        dm_name: String,
        next_inbox_cursor: String,
        truncated: bool,
        messages: [Message; 1],
    },
    Live {
        matched_post_id: String,
        peer_username: String,
        dm_name: String,
        next_inbox_cursor: String,
        truncated: bool,
        messages: [Message; 1],
    },
    Deadman { inbox_cursor: Option<String> },
    Canceled { inbox_cursor: Option<String> },
    Replaced { replaced_by_wait_id: String, inbox_cursor: Option<String> },
    Failed { reason_code: WaitInboxFailureReason, inbox_cursor: Option<String> },
}

#[derive(Debug, Clone, Copy, PartialEq, Eq, Structural)]
pub enum WaitInboxFailureReason {
    ProviderFailed,
    ProviderOverflow,
    ProviderOutage,
    CursorUncertain,
    Capacity,
    ProviderDegraded,
    OwnershipLost,
    DaemonShutdown,
}

/// How an inbox follow ended.
#[derive(Debug, Clone, PartialEq, Eq)]
pub struct WaitInboxFollowResult {
    pub wait_id: String,
    pub kind: WaitInboxFollowResultKind,
}

#[derive(Debug, Clone, PartialEq, Eq)]
pub enum WaitInboxFollowResultKind {
    Deadman { inbox_cursor: Option<String> },
    Replaced { replaced_by_wait_id: String, inbox_cursor: Option<String> },
}

/// A direct channel in the catalog of the bot.
#[derive(Debug, Clone, PartialEq, Eq)]
pub struct DirectCatalogEntry {
    pub id: String,
    pub name: String,
    pub last_post_at: i64,
}

// ---------------------------------------------------------------------------
// Errors
// ---------------------------------------------------------------------------

/// The error of an input that is refused, with its reason.
pub open spec fn refused(e: CoreError) -> Option<Seq<char>> {
    match e {
        CoreError::WaitFilterInvalid(why) => Some(why@),
        _ => None,
    }
}

/// The reason for which a check refused, if it did.
pub open spec fn refusal_of<T>(r: Result<T, CoreError>) -> Option<Seq<char>> {
    match r {
        Ok(_) => None,
        Err(e) => refused(e),
    }
}

pub fn cursor_uncertain(message: &str) -> (r: CoreError)
    ensures
        refused(r) == Some(message@),
{
    CoreError::WaitFilterInvalid(message.to_owned())
}

pub fn inbox_capacity(message: &str) -> (r: CoreError)
    ensures
        refused(r) == Some(message@),
{
    CoreError::WaitFilterInvalid(message.to_owned())
}

// ---------------------------------------------------------------------------
// Names of direct channels
// ---------------------------------------------------------------------------

/// The user at the other end of a direct channel with this name.
pub open spec fn peer_of(name: Seq<char>, my_id: Seq<char>) -> Option<Seq<char>> {
    match split_at_first(name, "__"@) {
        Some((left, right)) => if contains_text(right, "__"@) {
            None
        } else if left == my_id {
            Some(right)
        } else if right == my_id {
            Some(left)
        } else {
            None
        },
        None => None,
    }
}

pub fn peer_user_id_from_dm_name<'a>(name: &'a str, my_id: &str) -> (r: Option<&'a str>)
    ensures
        match r {
            Some(peer) => peer_of(name@, my_id@) == Some(peer@),
            None => peer_of(name@, my_id@) is None,
        },
{
    match split_once(name, "__") {
        None => None,
        Some((left, right)) => {
            if contains(right, "__") {
                return None;
            }
            if str_eq(left, my_id) {
                Some(right)
            } else if str_eq(right, my_id) {
                Some(left)
            } else {
                None
            }
        },
    }
}

/// Why a text cannot be the start of an inbox wait.
pub open spec fn after_fault(after: Seq<char>) -> Option<Seq<char>> {
    if after.len() == 0 {
        Some("empty --after is refused"@)
    } else if post_id(after) {
        Some(POST_ID_NOT_INBOX_CURSOR@)
    } else {
        None
    }
}

pub fn refuse_inbox_after(after: &str) -> (r: Result<(), CoreError>)
    ensures
        refusal_of(r) == after_fault(after@),
        r is Ok <==> after_fault(after@) is None,
{
    if after.is_empty() {
        return Err(cursor_uncertain("empty --after is refused"));
    }
    if is_mattermost_post_id(after) {
        return Err(CoreError::WaitFilterInvalid(POST_ID_NOT_INBOX_CURSOR.to_owned()));
    }
    Ok(())
}

// ---------------------------------------------------------------------------
// The cursor
// ---------------------------------------------------------------------------

/// Up to which direct message a bot has seen: everything before the watermark,
/// and at the watermark the posts whose ids are listed.
#[derive(Debug, PartialEq, Eq)]
pub struct InboxCursorV1 {
    pub profile: String,
    pub bot_user_id: String,
    pub watermark: i64,
    pub observed_ids: TextSet,
}

/// A cursor as a value.
#[verifier::ext_equal]
pub struct InboxCursor {
    pub profile: Seq<char>,
    pub bot_user_id: Seq<char>,
    pub watermark: i64,
    /// The ids in ascending order.
    pub ids: Seq<Seq<char>>,
}

impl InboxCursor {
    /// Cursors that can be written and read back.
    pub open spec fn valid(self) -> bool {
        &&& 0 <= self.watermark
        &&& ascending(self.ids)
        &&& self.ids.len() <= INBOX_MAX_WATERMARK_IDS
        &&& forall|i: int| 0 <= i < self.ids.len() ==> post_id(#[trigger] self.ids[i])
    }

    /// Whether the cursor lets a post through.
    pub open spec fn lets(self, create_at: i64, id: Seq<char>) -> bool {
        create_at > self.watermark || (create_at == self.watermark && !self.ids.contains(id))
    }

    /// The text of the cursor.
    pub open spec fn text(self) -> Seq<char> {
        INBOX_CURSOR_PREFIX@ + encoded(encode_utf8(self.json()))
    }

    /// What the text of the cursor carries.
    pub open spec fn json(self) -> Seq<char> {
        wire_json(self.profile, self.bot_user_id, self.watermark, self.ids)
    }
}

impl InboxCursorV1 {
    pub open spec fn view(&self) -> InboxCursor {
        InboxCursor {
            profile: self.profile@,
            bot_user_id: self.bot_user_id@,
            watermark: self.watermark,
            ids: self.observed_ids.listed(),
        }
    }
}

impl Clone for InboxCursorV1 {
    fn clone(&self) -> (r: Self)
        ensures
            r@ == self@,
    {
        InboxCursorV1 {
            profile: self.profile.clone(),
            bot_user_id: self.bot_user_id.clone(),
            watermark: self.watermark,
            observed_ids: self.observed_ids.clone(),
        }
    }
}

/// What is wrong with the first id that is no post id or repeats another.
pub open spec fn ids_fault(ids: Seq<Seq<char>>) -> Option<Seq<char>>
    decreases ids.len(),
{
    if ids.len() == 0 {
        None
    } else if ids_fault(ids.drop_last()) is Some {
        ids_fault(ids.drop_last())
    } else if !post_id(ids.last()) {
        Some("inbox cursor observed id is not a post id"@)
    } else if ids.drop_last().contains(ids.last()) {
        Some("inbox cursor observed-id set is not canonical"@)
    } else {
        None
    }
}

/// The ascending listing of the texts in a sequence.
pub open spec fn listing(ids: Seq<Seq<char>>) -> Seq<Seq<char>> {
    choose|s: Seq<Seq<char>>| ascending(s) && s.to_set() == ids.to_set()
}

/// What is wrong with the members of a cursor object that came as `raw`.
pub open spec fn members_fault(
    raw: Seq<char>,
    members: (u8, Seq<char>, Seq<char>, i64, Seq<Seq<char>>),
    profile: Seq<char>,
    bot: Seq<char>,
) -> Option<Seq<char>> {
    let (v, p, b, w, ids) = members;
    if v != 1 {
        Some("unprovable inbox cursor version"@)
    } else if p != profile || b != bot {
        Some("inbox cursor does not bind this profile/bot"@)
    } else if w < 0 {
        Some("inbox cursor watermark is negative"@)
    } else if ids.len() > INBOX_MAX_WATERMARK_IDS {
        Some("inbox cursor equal-watermark id set exceeds 128"@)
    } else if ids_fault(ids) is Some {
        ids_fault(ids)
    } else {
        let text = (InboxCursor {
            profile: p,
            bot_user_id: b,
            watermark: w,
            ids: listing(ids),
        }).text();
        if encode_utf8(text).len() > INBOX_CURSOR_MAX_BYTES {
            Some("inbox cursor exceeds the 32 KiB encoded cap"@)
        } else if text != raw {
            Some("inbox cursor encoding is not canonical"@)
        } else {
            None
        }
    }
}

/// What is wrong with the text of a cursor.
pub open spec fn cursor_fault(raw: Seq<char>, profile: Seq<char>, bot: Seq<char>) -> Option<
    Seq<char>,
> {
    if after_fault(raw) is Some {
        after_fault(raw)
    } else if encode_utf8(raw).len() > INBOX_CURSOR_MAX_BYTES {
        Some("inbox cursor exceeds the 32 KiB encoded cap"@)
    } else if !INBOX_CURSOR_PREFIX@.is_prefix_of(raw) {
        Some("malformed inbox cursor (expected inv1. prefix)"@)
    } else {
        let payload = raw.skip(INBOX_CURSOR_PREFIX@.len() as int);
        match decoded(payload) {
            None => Some("malformed inbox cursor (base64)"@),
            Some(bytes) => match wire_members(bytes) {
                None => Some("malformed inbox cursor (json)"@),
                Some(members) => members_fault(raw, members, profile, bot),
            },
        }
    }
}

/// The ids as the list of a cursor object shows them.
fn quoted_ids(set: &TextSet) -> (r: String)
    ensures
        r@ == json_list(set.listed()),
{
    let mut quoted: Vec<String> = Vec::new();
    let n: usize = set.len();
    let mut i: usize = 0;
    let ghost all = set.listed().map_values(|s: Seq<char>| json_quoted(s));
    while i < n
        invariant
            i <= n,
            n == set.listed().len(),
            all == set.listed().map_values(|s: Seq<char>| json_quoted(s)),
            texts(quoted@) == all.take(i as int),
        decreases n - i,
    {
        let ghost before = quoted@;
        quoted.push(json_quote(set.at(i).as_str()));
        i += 1;
        proof {
            assert(texts(quoted@) =~= texts(before).push(all[i - 1]));
            assert(all.take(i as int) =~= all.take(i - 1).push(all[i - 1]));
        }
    }
    proof {
        assert(all.take(i as int) =~= all);
    }
    concat3("[", join(&quoted, ",").as_str(), "]")
}

/// The texts of a list, each once.
fn collect_ids(ids: &Vec<String>) -> (r: Result<TextSet, CoreError>)
    ensures
        refusal_of(r) == ids_fault(texts(ids@)),
        r matches Ok(set) ==> ids_fault(texts(ids@)) is None && set@ == texts(ids@).to_set(),
        r is Err ==> refusal_of(r) is Some,
{
    let mut seen = TextSet::new();
    let mut i: usize = 0;
    let ghost all = texts(ids@);
    proof {
        assert(all.take(0) =~= Seq::empty());
        assert(all.take(0).to_set() =~= Set::empty());
    }
    while i < ids.len()
        invariant
            i <= ids@.len(),
            all == texts(ids@),
            ids_fault(all.take(i as int)) is None,
            seen@ == all.take(i as int).to_set(),
        decreases ids.len() - i,
    {
        let ghost front = all.take(i + 1);
        proof {
            assert(front.drop_last() =~= all.take(i as int));
            assert(front.last() == ids@[i as int]@);
        }
        if !is_mattermost_post_id(ids[i].as_str()) {
            proof {
                ids_fault_extends(all, i as int);
            }
            return Err(cursor_uncertain("inbox cursor observed id is not a post id"));
        }
        let ghost before = seen@;
        if !seen.insert(ids[i].clone()) {
            proof {
                assert(all.take(i as int).contains(front.last()));
                ids_fault_extends(all, i as int);
            }
            return Err(cursor_uncertain("inbox cursor observed-id set is not canonical"));
        }
        proof {
            assert(!all.take(i as int).contains(front.last()));
            assert(front =~= all.take(i as int).push(front.last()));
            assert(front.to_set() =~= before.insert(front.last())) by {
                assert forall|t: Seq<char>| front.contains(t) == (all.take(i as int).contains(t)
                    || t == front.last()) by {
                    if all.take(i as int).contains(t) {
                        let k = all.take(i as int).index_of(t);
                        assert(front[k] == t);
                    }
                    if t == front.last() {
                        assert(front[i as int] == t);
                    }
                    if front.contains(t) && t != front.last() {
                        let k = front.index_of(t);
                        assert(all.take(i as int)[k] == t);
                    }
                }
            }
        }
        i += 1;
    }
    proof {
        assert(all.take(i as int) =~= all);
    }
    Ok(seen)
}

/// A fault in a prefix is the fault of the whole.
proof fn ids_fault_extends(ids: Seq<Seq<char>>, i: int)
    requires
        0 <= i < ids.len(),
        ids_fault(ids.take(i + 1)) is Some,
    ensures
        ids_fault(ids) == ids_fault(ids.take(i + 1)),
    decreases ids.len(),
{
    if i + 1 == ids.len() {
        assert(ids.take(i + 1) =~= ids);
    } else {
        assert(ids.drop_last().take(i + 1) =~= ids.take(i + 1));
        ids_fault_extends(ids.drop_last(), i);
    }
}

/// Ascending post ids have no fault.
proof fn ascending_ids_fault(ids: Seq<Seq<char>>)
    requires
        ascending(ids),
        forall|i: int| 0 <= i < ids.len() ==> post_id(#[trigger] ids[i]),
    ensures
        ids_fault(ids) is None,
    decreases ids.len(),
{
    if ids.len() > 0 {
        let front = ids.drop_last();
        assert forall|i: int, j: int|
            #![trigger front[i], front[j]]
            0 <= i < j < front.len() implies text_before(front[i], front[j]) by {
            assert(front[i] == ids[i] && front[j] == ids[j]);
        }
        assert forall|i: int| 0 <= i < front.len() implies post_id(#[trigger] front[i]) by {
            assert(front[i] == ids[i]);
        }
        ascending_ids_fault(front);
        if front.contains(ids.last()) {
            let k = front.index_of(ids.last());
            assert(text_before(ids[k], ids[ids.len() - 1]));
            text_before_irreflexive(ids.last());
        }
    }
}

/// Ids without a fault are post ids.
proof fn faultless_ids(ids: Seq<Seq<char>>, t: Seq<char>)
    requires
        ids_fault(ids) is None,
        ids.contains(t),
    ensures
        post_id(t),
    decreases ids.len(),
{
    let k = ids.index_of(t);
    if k < ids.len() - 1 {
        assert(ids.drop_last()[k] == t);
        faultless_ids(ids.drop_last(), t);
    }
}

/// The listing of a set is the one ascending sequence that holds it.
proof fn listing_is(ids: Seq<Seq<char>>, s: Seq<Seq<char>>)
    requires
        ascending(s),
        s.to_set() == ids.to_set(),
    ensures
        listing(ids) == s,
{
    ascending_unique(s, listing(ids));
}

/// The text of a cursor begins with the prefix and is no post id.
proof fn cursor_text_shape(c: InboxCursor)
    ensures
        INBOX_CURSOR_PREFIX@.is_prefix_of(c.text()),
        c.text().skip(INBOX_CURSOR_PREFIX@.len() as int) == encoded(encode_utf8(c.json())),
        after_fault(c.text()) is None,
{
    reveal_strlit("inv1.");
    let payload = encoded(encode_utf8(c.json()));
    assert(c.text().skip(INBOX_CURSOR_PREFIX@.len() as int) =~= payload);
    assert(INBOX_CURSOR_PREFIX@ =~= c.text().subrange(0, INBOX_CURSOR_PREFIX@.len() as int));
    assert(c.text()[4] == '.');
}

/// The text of a valid cursor that binds profile and bot, and is not too long,
/// has no fault once its members are read back as they were written.
proof fn written_cursor_has_no_fault(c: InboxCursor, profile: Seq<char>, bot: Seq<char>)
    requires
        c.valid(),
        c.profile == profile,
        c.bot_user_id == bot,
        encode_utf8(c.text()).len() <= INBOX_CURSOR_MAX_BYTES,
        wire_members(encode_utf8(c.json())) == Some(
            (1u8, c.profile, c.bot_user_id, c.watermark, c.ids),
        ),
    ensures
        cursor_fault(c.text(), profile, bot) is None,
        listing(c.ids) == c.ids,
{
    cursor_text_shape(c);
    decoded_encoded(encode_utf8(c.json()));
    ascending_ids_fault(c.ids);
    listing_is(c.ids, c.ids);
}

impl InboxCursorV1 {
    /// The cursor of a bot that has seen nothing.
    pub fn empty(profile: &str, bot_user_id: &str) -> (r: Self)
        ensures
            r@ == (InboxCursor {
                profile: profile@,
                bot_user_id: bot_user_id@,
                watermark: 0,
                ids: Seq::empty(),
            }),
    {
        InboxCursorV1 {
            profile: profile.to_owned(),
            bot_user_id: bot_user_id.to_owned(),
            watermark: 0,
            observed_ids: TextSet::new(),
        }
    }

    /// The text of the cursor.
    pub fn encode(&self) -> (r: Result<String, CoreError>)
        ensures
            match r {
                Ok(t) => t@ == self@.text() && encode_utf8(t@).len() <= INBOX_CURSOR_MAX_BYTES,
                Err(e) => encode_utf8(self@.text()).len() > INBOX_CURSOR_MAX_BYTES && refused(e)
                    == Some("inbox cursor exceeds the 32 KiB encoded cap"@),
            },
    {
        let mut json = String::new();
        json.append("{\"v\":1,\"p\":");
        json.append(json_quote(self.profile.as_str()).as_str());
        json.append(",\"b\":");
        json.append(json_quote(self.bot_user_id.as_str()).as_str());
        json.append(",\"w\":");
        json.append(i64_text(self.watermark).as_str());
        json.append(",\"i\":");
        json.append(quoted_ids(&self.observed_ids).as_str());
        json.append("}");
        proof {
            assert(json@ =~= self@.json());
        }
        let mut text = INBOX_CURSOR_PREFIX.to_owned();
        text.append(b64url_encode(json.as_str().as_bytes()).as_str());
        if byte_len(text.as_str()) > INBOX_CURSOR_MAX_BYTES {
            return Err(inbox_capacity("inbox cursor exceeds the 32 KiB encoded cap"));
        }
        Ok(text)
    }

    /// Reads the text of a cursor that binds `profile` and `bot_user_id`. Only the
    /// one text that `encode` writes for a cursor is accepted.
    pub fn decode(raw: &str, profile: &str, bot_user_id: &str) -> (r: Result<Self, CoreError>)
        ensures
            refusal_of(r) == cursor_fault(raw@, profile@, bot_user_id@),
            r is Ok <==> cursor_fault(raw@, profile@, bot_user_id@) is None,
            r matches Ok(c) ==> {
                &&& c@.valid()
                &&& c@.text() == raw@
                &&& c@.profile == profile@
                &&& c@.bot_user_id == bot_user_id@
            },
            // What was written for this profile and bot is read back.
            forall|c: InboxCursor|
                raw@ == #[trigger] c.text() && c.valid() && c.profile == profile@ && c.bot_user_id
                    == bot_user_id@ && encode_utf8(raw@).len() <= INBOX_CURSOR_MAX_BYTES ==> (
                r matches Ok(d) && d@ == c),
    {
        let ghost good = |c: InboxCursor|
            raw@ == c.text() && c.valid() && c.profile == profile@ && c.bot_user_id == bot_user_id@
                && encode_utf8(raw@).len() <= INBOX_CURSOR_MAX_BYTES;
        proof {
            assert forall|c: InboxCursor| good(c) implies after_fault(raw@) is None
                && INBOX_CURSOR_PREFIX@.is_prefix_of(raw@) && decoded(
                raw@.skip(INBOX_CURSOR_PREFIX@.len() as int),
            ) == Some(encode_utf8(#[trigger] c.json())) by {
                cursor_text_shape(c);
                decoded_encoded(encode_utf8(c.json()));
            }
        }
        match refuse_inbox_after(raw) {
            Ok(_) => {},
            Err(e) => {
                return Err(e);
            },
        }
        if byte_len(raw) > INBOX_CURSOR_MAX_BYTES {
            return Err(inbox_capacity("inbox cursor exceeds the 32 KiB encoded cap"));
        }
        let payload = match strip_prefix(raw, INBOX_CURSOR_PREFIX) {
            Some(rest) => rest,
            None => {
                return Err(cursor_uncertain("malformed inbox cursor (expected inv1. prefix)"));
            },
        };
        let bytes = match b64url_decode(payload) {
            Ok(bytes) => bytes,
            Err(_) => {
                return Err(cursor_uncertain("malformed inbox cursor (base64)"));
            },
        };
        let wire = match read_wire(bytes.as_slice()) {
            Some(wire) => wire,
            None => {
                return Err(cursor_uncertain("malformed inbox cursor (json)"));
            },
        };
        proof {
            assert forall|c: InboxCursor| good(c) implies members_of(Some(wire)) == Some(
                (1u8, c.profile, c.bot_user_id, c.watermark, c.ids),
            ) && #[trigger] c.text() == raw@ && cursor_fault(raw@, profile@, bot_user_id@) is None
                && listing(c.ids) == c.ids by {
                assert(bytes@ == encode_utf8(c.json()));
                assert(c.json() == wire_json(c.profile, c.bot_user_id, c.watermark, c.ids));
                written_cursor_has_no_fault(c, profile@, bot_user_id@);
            }
        }
        Self::accept(raw, wire, profile, bot_user_id)
    }

    /// Accepts the members of a cursor object that came as `raw`.
    pub fn accept(raw: &str, wire: CursorWire, profile: &str, bot_user_id: &str) -> (r: Result<
        Self,
        CoreError,
    >)
        ensures
            refusal_of(r) == members_fault(
                raw@,
                members_of(Some(wire))->0,
                profile@,
                bot_user_id@,
            ),
            r is Err ==> refusal_of(r) is Some,
            r matches Ok(c) ==> c@ == (InboxCursor {
                profile: profile@,
                bot_user_id: bot_user_id@,
                watermark: wire.w,
                ids: listing(texts(wire.i@)),
            }) && c@.valid() && c@.text() == raw@,
    {
        if wire.v != 1 {
            return Err(cursor_uncertain("unprovable inbox cursor version"));
        }
        if !str_eq(wire.p.as_str(), profile) || !str_eq(wire.b.as_str(), bot_user_id) {
            return Err(cursor_uncertain("inbox cursor does not bind this profile/bot"));
        }
        if wire.w < 0 {
            return Err(cursor_uncertain("inbox cursor watermark is negative"));
        }
        if wire.i.len() > INBOX_MAX_WATERMARK_IDS {
            return Err(cursor_uncertain("inbox cursor equal-watermark id set exceeds 128"));
        }
        let ids = match collect_ids(&wire.i) {
            Ok(ids) => ids,
            Err(e) => {
                return Err(e);
            },
        };
        let n: usize = ids.len();
        proof {
            let given = texts(wire.i@);
            listing_is(given, ids.listed());
            vstd::seq_lib::seq_to_set_is_finite(given);
            given.lemma_cardinality_of_set();
            assert(n <= INBOX_MAX_WATERMARK_IDS);
            assert forall|i: int| 0 <= i < ids.listed().len() implies post_id(
                #[trigger] ids.listed()[i],
            ) by {
                assert(ids@.contains(ids.listed()[i]));
                faultless_ids(given, ids.listed()[i]);
            }
        }
        let decoded = InboxCursorV1 {
            profile: wire.p,
            bot_user_id: wire.b,
            watermark: wire.w,
            observed_ids: ids,
        };
        let canonical = match decoded.encode() {
            Ok(text) => text,
            Err(e) => {
                return Err(e);
            },
        };
        if !str_eq(canonical.as_str(), raw) {
            return Err(cursor_uncertain("inbox cursor encoding is not canonical"));
        }
        Ok(decoded)
    }

    /// Whether the cursor lets a post through.
    pub fn admits(&self, create_at: i64, post_id: &str) -> (r: bool)
        ensures
            r == self@.lets(create_at, post_id@),
    {
        if create_at > self.watermark {
            return true;
        }
        if create_at == self.watermark {
            return !self.observed_ids.contains(post_id);
        }
        false
    }

    /// The cursor after a post was seen.
    pub fn advance(&self, create_at: i64, post_id: &str) -> (r: Result<Self, CoreError>)
        ensures
            match r {
                Ok(next) => {
                    &&& advance_fault(self@, create_at, post_id@) is None
                    &&& advanced(self@, create_at, post_id@, next@)
                },
                Err(e) => advance_fault(self@, create_at, post_id@) is Some && refused(e)
                    == advance_fault(self@, create_at, post_id@),
            },
    {
        if !is_mattermost_post_id(post_id) {
            return Err(cursor_uncertain("matched post id is not a Mattermost post id"));
        }
        let mut next = self.clone();
        if create_at > next.watermark {
            next.watermark = create_at;
            next.observed_ids.clear();
            let _ = next.observed_ids.insert(post_id.to_owned());
            let _ = next.observed_ids.len();
            proof {
                assert(next.observed_ids@ =~= set![post_id@]);
            }
        } else if create_at == next.watermark {
            let _ = next.observed_ids.insert(post_id.to_owned());
            let n: usize = next.observed_ids.len();
            if n > INBOX_MAX_WATERMARK_IDS {
                return Err(
                    cursor_uncertain("inbox equal-watermark observed-id set exceeds 128"),
                );
            }
        } else {
            return Err(cursor_uncertain("cannot advance inbox cursor with a lower watermark"));
        }
        Ok(next)
    }
}

/// Why a cursor cannot advance to a post.
pub open spec fn advance_fault(c: InboxCursor, create_at: i64, id: Seq<char>) -> Option<
    Seq<char>,
> {
    if !post_id(id) {
        Some("matched post id is not a Mattermost post id"@)
    } else if create_at < c.watermark {
        Some("cannot advance inbox cursor with a lower watermark"@)
    } else if create_at == c.watermark && c.ids.to_set().insert(id).len()
        > INBOX_MAX_WATERMARK_IDS {
        Some("inbox equal-watermark observed-id set exceeds 128"@)
    } else {
        None
    }
}

/// `next` is `c` with one more post seen.
pub open spec fn advanced(c: InboxCursor, create_at: i64, id: Seq<char>, next: InboxCursor) -> bool {
    &&& next.profile == c.profile
    &&& next.bot_user_id == c.bot_user_id
    &&& next.watermark == create_at
    &&& ascending(next.ids)
    &&& next.ids.to_set() == if create_at > c.watermark {
        set![id]
    } else {
        c.ids.to_set().insert(id)
    }
}

/// Advancing never goes back: the post is not let through again, nothing is let
/// through that was not before, the watermark does not sink, and the cursor
/// stays bound to its profile and bot.
pub proof fn advance_only_narrows(
    c: InboxCursor,
    create_at: i64,
    id: Seq<char>,
    next: InboxCursor,
    other_at: i64,
    other: Seq<char>,
)
    requires
        advance_fault(c, create_at, id) is None,
        advanced(c, create_at, id, next),
    ensures
        !next.lets(create_at, id),
        next.lets(other_at, other) ==> c.lets(other_at, other),
        c.lets(other_at, other) && (other_at > create_at || (other_at == create_at && other != id))
            ==> next.lets(other_at, other),
        next.watermark >= c.watermark,
        next.profile == c.profile && next.bot_user_id == c.bot_user_id,
{
    assert(next.ids.to_set().contains(id));
    assert(next.ids.contains(other) == next.ids.to_set().contains(other));
    assert(c.ids.contains(other) == c.ids.to_set().contains(other));
}

/// Advancing keeps a cursor valid.
pub proof fn advance_keeps_valid(c: InboxCursor, create_at: i64, id: Seq<char>, next: InboxCursor)
    requires
        c.valid(),
        advance_fault(c, create_at, id) is None,
        advanced(c, create_at, id, next),
    ensures
        next.valid(),
{
    ascending_no_duplicates(next.ids);
    next.ids.unique_seq_to_set();
    assert(set![id].len() == 1);
    assert forall|i: int| 0 <= i < next.ids.len() implies post_id(#[trigger] next.ids[i]) by {
        let t = next.ids[i];
        assert(next.ids.to_set().contains(t));
        if t != id {
            assert(c.ids.to_set().contains(t));
            let k = c.ids.index_of(t);
            assert(post_id(c.ids[k]));
        }
    }
}

// ---------------------------------------------------------------------------
// Records
// ---------------------------------------------------------------------------

/// What a record of this kind reports.
pub open spec fn inbox_mode(kind: WaitInboxFollowEventKind) -> WaitFollowMode {
    match kind {
        WaitInboxFollowEventKind::Armed { .. } => WaitFollowMode::Armed,
        WaitInboxFollowEventKind::Backlog { .. } => WaitFollowMode::Backlog,
        WaitInboxFollowEventKind::Live { .. } => WaitFollowMode::Live,
        WaitInboxFollowEventKind::Deadman { .. } => WaitFollowMode::Deadman,
        WaitInboxFollowEventKind::Canceled { .. } => WaitFollowMode::Canceled,
        WaitInboxFollowEventKind::Replaced { .. } => WaitFollowMode::Replaced,
        WaitInboxFollowEventKind::Failed { .. } => WaitFollowMode::Failed,
    }
}

/// The cursor from which a consumer of the record goes on.
pub open spec fn record_cursor(kind: WaitInboxFollowEventKind) -> Option<Seq<char>> {
    match kind {
        WaitInboxFollowEventKind::Backlog { next_inbox_cursor, .. } => Some(next_inbox_cursor@),
        WaitInboxFollowEventKind::Live { next_inbox_cursor, .. } => Some(next_inbox_cursor@),
        WaitInboxFollowEventKind::Deadman { inbox_cursor } => opt_text(inbox_cursor),
        WaitInboxFollowEventKind::Canceled { inbox_cursor } => opt_text(inbox_cursor),
        WaitInboxFollowEventKind::Failed { inbox_cursor, .. } => opt_text(
            inbox_cursor,
        ),
        WaitInboxFollowEventKind::Replaced { inbox_cursor, .. } => opt_text(
            inbox_cursor,
        ),
        WaitInboxFollowEventKind::Armed { .. } => None,
    }
}

/// The content of a message record.
#[verifier::ext_equal]
pub struct InboxRecord {
    pub matched: Seq<char>,
    pub peer: Seq<char>,
    pub dm_name: Seq<char>,
    pub cursor: Seq<char>,
    pub truncated: bool,
    pub messages: Seq<Message>,
}

/// What a message record says.
pub open spec fn record_content(kind: WaitInboxFollowEventKind) -> Option<InboxRecord> {
    match kind {
        WaitInboxFollowEventKind::Backlog {
            matched_post_id,
            peer_username,
            dm_name,
            next_inbox_cursor,
            truncated,
            messages,
        } => Some(
            InboxRecord {
                matched: matched_post_id@,
                peer: peer_username@,
                dm_name: dm_name@,
                cursor: next_inbox_cursor@,
                truncated,
                messages: messages@,
            },
        ),
        WaitInboxFollowEventKind::Live {
            matched_post_id,
            peer_username,
            dm_name,
            next_inbox_cursor,
            truncated,
            messages,
        } => Some(
            InboxRecord {
                matched: matched_post_id@,
                peer: peer_username@,
                dm_name: dm_name@,
                cursor: next_inbox_cursor@,
                truncated,
                messages: messages@,
            },
        ),
        _ => None,
    }
}

/// Why no message record is made.
pub open spec fn inbox_message_refusal(
    mode: WaitFollowMode,
    next_inbox_cursor: Seq<char>,
    message: Message,
    truncated: bool,
) -> Option<Seq<char>> {
    if !post_id(message.id@) {
        Some("inbox message id is not a Mattermost post id"@)
    } else if next_inbox_cursor == message.id@ || post_id(next_inbox_cursor) {
        Some("next_inbox_cursor must not be a Mattermost post id"@)
    } else if !INBOX_CURSOR_PREFIX@.is_prefix_of(next_inbox_cursor) {
        Some("next_inbox_cursor must be an inv1. inbox cursor"@)
    } else if mode is Live && truncated {
        Some("live inbox records cannot be truncated"@)
    } else if !(mode is Live) && !(mode is Backlog) {
        Some("message record requires backlog or live mode"@)
    } else {
        None
    }
}

pub open spec fn optional_cursor_fault(cursor: Option<String>) -> Option<Seq<char>> {
    match cursor {
        None => None,
        Some(value) => if post_id(value@) {
            Some("inbox_cursor must not be a Mattermost post id"@)
        } else if !INBOX_CURSOR_PREFIX@.is_prefix_of(value@) {
            Some("inbox_cursor must be an inv1. inbox cursor"@)
        } else {
            None
        },
    }
}

pub fn validate_optional_inbox_cursor(cursor: &Option<String>) -> (r: Result<(), &'static str>)
    ensures
        fault_of(r) == optional_cursor_fault(*cursor),
{
    match cursor {
        None => Ok(()),
        Some(value) => {
            if is_mattermost_post_id(value.as_str()) {
                Err("inbox_cursor must not be a Mattermost post id")
            } else if !starts_with(value.as_str(), INBOX_CURSOR_PREFIX) {
                Err("inbox_cursor must be an inv1. inbox cursor")
            } else {
                Ok(())
            }
        },
    }
}

/// An id of 1 to 64 bytes.
pub open spec fn sized_id(id: Seq<char>) -> bool {
    id.len() > 0 && encode_utf8(id).len() <= 64
}

fn is_sized_id(id: &str) -> (r: bool)
    ensures
        r == sized_id(id@),
{
    !id.is_empty() && byte_len(id) <= 64
}

pub open spec fn inbox_record_fault(matched: Seq<char>, cursor: Seq<char>, message: Message) -> Option<
    Seq<char>,
> {
    if matched != message.id@ {
        Some("matched_post_id must equal the sole message id"@)
    } else if post_id(cursor) || cursor == matched {
        Some("next_inbox_cursor must not be a Mattermost post id"@)
    } else {
        None
    }
}

pub open spec fn inbox_event_fault(event: WaitInboxFollowEvent) -> Option<Seq<char>> {
    if !sized_id(event.wait_id@) {
        Some("inbox wait id must contain 1 to 64 bytes"@)
    } else {
        match event.kind {
            WaitInboxFollowEventKind::Backlog {
                matched_post_id,
                next_inbox_cursor,
                messages,
                ..
            } => inbox_record_fault(matched_post_id@, next_inbox_cursor@, messages@[0]),
            WaitInboxFollowEventKind::Live {
                matched_post_id,
                next_inbox_cursor,
                messages,
                truncated,
                ..
            } => if truncated {
                Some("live inbox records cannot be truncated"@)
            } else {
                inbox_record_fault(matched_post_id@, next_inbox_cursor@, messages@[0])
            },
            WaitInboxFollowEventKind::Armed { replaced_wait_id } => match replaced_wait_id {
                Some(id) => if sized_id(id@) {
                    None
                } else {
                    Some("replaced wait id must contain 1 to 64 bytes"@)
                },
                None => None,
            },
            WaitInboxFollowEventKind::Replaced { replaced_by_wait_id, inbox_cursor } => if !sized_id(
                replaced_by_wait_id@,
            ) {
                Some("replaced_by wait id must contain 1 to 64 bytes"@)
            } else {
                optional_cursor_fault(inbox_cursor)
            },
            WaitInboxFollowEventKind::Deadman { inbox_cursor } => optional_cursor_fault(
                inbox_cursor,
            ),
            WaitInboxFollowEventKind::Canceled { inbox_cursor } => optional_cursor_fault(
                inbox_cursor,
            ),
            WaitInboxFollowEventKind::Failed { inbox_cursor, .. } => optional_cursor_fault(
                inbox_cursor,
            ),
        }
    }
}

fn validate_inbox_record(matched: &str, cursor: &str, message: &Message) -> (r: Result<
    (),
    &'static str,
>)
    ensures
        fault_of(r) == inbox_record_fault(matched@, cursor@, *message),
{
    if !str_eq(matched, message.id.as_str()) {
        return Err("matched_post_id must equal the sole message id");
    }
    if is_mattermost_post_id(cursor) || str_eq(cursor, matched) {
        return Err("next_inbox_cursor must not be a Mattermost post id");
    }
    Ok(())
}

impl WaitInboxFollowEvent {
    /// The record that a follow began.
    pub fn armed(wait_id: &str, replaced_wait_id: Option<String>) -> (r: Self)
        ensures
            r.wait_id@ == wait_id@,
            r.kind == (WaitInboxFollowEventKind::Armed { replaced_wait_id }),
    {
        WaitInboxFollowEvent {
            schema: WaitInboxFollowSchema::V1,
            wait_id: wait_id.to_owned(),
            kind: WaitInboxFollowEventKind::Armed { replaced_wait_id },
        }
    }

    /// The record of one direct message.
    pub fn message(
        wait_id: &str,
        mode: WaitFollowMode,
        peer_username: String,
        dm_name: String,
        next_inbox_cursor: String,
        message: Message,
        truncated: bool,
    ) -> (r: Result<Self, &'static str>)
        ensures
            match r {
                Ok(event) => {
                    &&& inbox_message_refusal(mode, next_inbox_cursor@, message, truncated) is None
                    &&& event.wait_id@ == wait_id@
                    &&& inbox_mode(event.kind) == mode
                    &&& record_content(event.kind) == Some(
                        InboxRecord {
                            matched: message.id@,
                            peer: peer_username@,
                            dm_name: dm_name@,
                            cursor: next_inbox_cursor@,
                            truncated,
                            messages: seq![message],
                        },
                    )
                },
                Err(e) => inbox_message_refusal(mode, next_inbox_cursor@, message, truncated)
                    == Some(e@),
            },
    {
        if !is_mattermost_post_id(message.id.as_str()) {
            return Err("inbox message id is not a Mattermost post id");
        }
        if str_eq(next_inbox_cursor.as_str(), message.id.as_str()) || is_mattermost_post_id(
            next_inbox_cursor.as_str(),
        ) {
            return Err("next_inbox_cursor must not be a Mattermost post id");
        }
        if !starts_with(next_inbox_cursor.as_str(), INBOX_CURSOR_PREFIX) {
            return Err("next_inbox_cursor must be an inv1. inbox cursor");
        }
        let matched_post_id = message.id.clone();
        let kind = match mode {
            WaitFollowMode::Backlog => WaitInboxFollowEventKind::Backlog {
                matched_post_id,
                peer_username,
                dm_name,
                next_inbox_cursor,
                truncated,
                messages: [message],
            },
            WaitFollowMode::Live => {
                if truncated {
                    return Err("live inbox records cannot be truncated");
                }
                WaitInboxFollowEventKind::Live {
                    matched_post_id,
                    peer_username,
                    dm_name,
                    next_inbox_cursor,
                    truncated: false,
                    messages: [message],
                }
            },
            _ => {
                return Err("message record requires backlog or live mode");
            },
        };
        proof {
            assert(record_content(kind)->0.messages =~= seq![message]);
        }
        Ok(
            WaitInboxFollowEvent {
                schema: WaitInboxFollowSchema::V1,
                wait_id: wait_id.to_owned(),
                kind,
            },
        )
    }

    pub fn mode(&self) -> (r: WaitFollowMode)
        ensures
            r == inbox_mode(self.kind),
    {
        match &self.kind {
            WaitInboxFollowEventKind::Armed { .. } => WaitFollowMode::Armed,
            WaitInboxFollowEventKind::Backlog { .. } => WaitFollowMode::Backlog,
            WaitInboxFollowEventKind::Live { .. } => WaitFollowMode::Live,
            WaitInboxFollowEventKind::Deadman { .. } => WaitFollowMode::Deadman,
            WaitInboxFollowEventKind::Canceled { .. } => WaitFollowMode::Canceled,
            WaitInboxFollowEventKind::Replaced { .. } => WaitFollowMode::Replaced,
            WaitInboxFollowEventKind::Failed { .. } => WaitFollowMode::Failed,
        }
    }

    /// The cursor from which a consumer of the record goes on.
    pub fn inbox_cursor(&self) -> (r: Option<&str>)
        ensures
            match r {
                Some(c) => record_cursor(self.kind) == Some(c@),
                None => record_cursor(self.kind) is None,
            },
    {
        match &self.kind {
            WaitInboxFollowEventKind::Backlog { next_inbox_cursor, .. } => Some(
                next_inbox_cursor.as_str(),
            ),
            WaitInboxFollowEventKind::Live { next_inbox_cursor, .. } => Some(
                next_inbox_cursor.as_str(),
            ),
            WaitInboxFollowEventKind::Deadman { inbox_cursor } => opt_str(inbox_cursor),
            WaitInboxFollowEventKind::Canceled { inbox_cursor } => opt_str(inbox_cursor),
            WaitInboxFollowEventKind::Failed { inbox_cursor, .. } => opt_str(inbox_cursor),
            WaitInboxFollowEventKind::Replaced { inbox_cursor, .. } => opt_str(inbox_cursor),
            WaitInboxFollowEventKind::Armed { .. } => None,
        }
    }

    /// Accepts a record that consumers can rely on.
    pub fn validate(&self) -> (r: Result<(), &'static str>)
        ensures
            fault_of(r) == inbox_event_fault(*self),
    {
        if !is_sized_id(self.wait_id.as_str()) {
            return Err("inbox wait id must contain 1 to 64 bytes");
        }
        match &self.kind {
            WaitInboxFollowEventKind::Backlog {
                matched_post_id,
                next_inbox_cursor,
                messages,
                ..
            } => validate_inbox_record(
                matched_post_id.as_str(),
                next_inbox_cursor.as_str(),
                &messages[0],
            ),
            WaitInboxFollowEventKind::Live {
                matched_post_id,
                next_inbox_cursor,
                messages,
                truncated,
                ..
            } => {
                if *truncated {
                    return Err("live inbox records cannot be truncated");
                }
                validate_inbox_record(
                    matched_post_id.as_str(),
                    next_inbox_cursor.as_str(),
                    &messages[0],
                )
            },
            WaitInboxFollowEventKind::Armed { replaced_wait_id } => {
                match replaced_wait_id {
                    Some(id) => {
                        if !is_sized_id(id.as_str()) {
                            return Err("replaced wait id must contain 1 to 64 bytes");
                        }
                    },
                    None => {},
                }
                Ok(())
            },
            WaitInboxFollowEventKind::Replaced { replaced_by_wait_id, inbox_cursor } => {
                if !is_sized_id(replaced_by_wait_id.as_str()) {
                    return Err("replaced_by wait id must contain 1 to 64 bytes");
                }
                validate_optional_inbox_cursor(inbox_cursor)
            },
            WaitInboxFollowEventKind::Deadman { inbox_cursor } => validate_optional_inbox_cursor(
                inbox_cursor,
            ),
            WaitInboxFollowEventKind::Canceled { inbox_cursor } => validate_optional_inbox_cursor(
                inbox_cursor,
            ),
            WaitInboxFollowEventKind::Failed { inbox_cursor, .. } =>
                validate_optional_inbox_cursor(inbox_cursor),
        }
    }
}

/// A message record that was made under a sound wait id is valid.
pub proof fn made_inbox_record_is_valid(
    event: WaitInboxFollowEvent,
    mode: WaitFollowMode,
    message: Message,
)
    requires
        record_content(event.kind) is Some,
        inbox_message_refusal(
            mode,
            record_content(event.kind)->0.cursor,
            message,
            record_content(event.kind)->0.truncated,
        ) is None,
        sized_id(event.wait_id@),
        inbox_mode(event.kind) == mode,
        record_content(event.kind)->0.matched == message.id@,
        record_content(event.kind)->0.messages == seq![message],
    ensures
        inbox_event_fault(event) is None,
        record_cursor(event.kind) == Some(record_content(event.kind)->0.cursor),
{
    assert(record_content(event.kind)->0.messages[0] == message);
}

/// A cursor lets a post through where it is newer than everything that was seen, or as new
/// and not among what was seen then.
pub proof fn cursors_let_new_posts_through(c: InboxCursor, create_at: i64, id: Seq<char>)
    ensures
        c.lets(create_at, id) <==> create_at > c.watermark || (create_at == c.watermark && !(exists|
            i: int,
        |
            0 <= i < c.ids.len() && #[trigger] c.ids[i] == id)),
{
    if c.ids.contains(id) {
        let i = c.ids.index_of(id);
        assert(c.ids[i] == id);
    }
}

/// A cursor can be moved on to a post unless the post has no proper id, is older than what
/// was seen, or would be one too many of its moment.
pub proof fn cursors_move_on(c: InboxCursor, create_at: i64, id: Seq<char>)
    ensures
        advance_fault(c, create_at, id) is None <==> post_id(id) && create_at >= c.watermark && (
        create_at > c.watermark || c.ids.to_set().insert(id).len() <= 128),
{
}

/// A cursor that was moved on is at the post: it remembers it, and what else was seen at
/// that moment, and nothing of earlier moments.
pub proof fn cursors_are_at_the_last_post(
    c: InboxCursor,
    create_at: i64,
    id: Seq<char>,
    next: InboxCursor,
    other: Seq<char>,
)
    requires
        advanced(c, create_at, id, next),
        create_at >= c.watermark,
    ensures
        next.watermark == create_at,
        next.profile == c.profile && next.bot_user_id == c.bot_user_id,
        next.ids.contains(id),
        next.ids.contains(other) <==> other == id || (create_at == c.watermark && c.ids.contains(
            other,
        )),
{
    assert(next.ids.to_set().contains(id));
    assert(next.ids.to_set().contains(other) <==> next.ids.contains(other));
    assert(c.ids.to_set().contains(other) <==> c.ids.contains(other));
}

/// A text can start an inbox wait unless it is empty or the id of a post.
pub proof fn starts_of_inbox_waits(after: Seq<char>)
    ensures
        after_fault(after) is None <==> after.len() > 0 && !post_id(after),
        after.len() == 0 ==> after_fault(after) == Some("empty --after is refused"@),
        post_id(after) ==> after_fault(after) == Some("inbox cursor, not Mattermost post id"@),
{
}

/// The text of a cursor is a prefix and, encoded, a record of its version, profile, bot,
/// moment and ids.
pub proof fn cursor_texts(c: InboxCursor)
    ensures
        c.text() == "inv1."@ + encoded(encode_utf8(c.json())),
        c.json() == "{\"v\":1,\"p\":"@ + json_quoted(c.profile) + ",\"b\":"@ + json_quoted(
            c.bot_user_id,
        ) + ",\"w\":"@ + crate::text::integer_text(c.watermark as int) + ",\"i\":"@ + json_list(
            c.ids,
        ) + "}"@,
        json_list(c.ids) == "["@ + crate::text::joined(
            c.ids.map_values(|s: Seq<char>| json_quoted(s)),
            ","@,
        ) + "]"@,
{
}

/// A cursor that is accepted is of this version, of this profile and bot, and not too long.
pub proof fn accepted_cursors(raw: Seq<char>, profile: Seq<char>, bot: Seq<char>)
    requires
        cursor_fault(raw, profile, bot) is None,
    ensures
        raw.len() > 0 && !post_id(raw),
        encode_utf8(raw).len() <= 32_768,
        "inv1."@.is_prefix_of(raw),
        ({
            let bytes = decoded(raw.skip("inv1."@.len() as int));
            &&& bytes is Some
            &&& wire_members(bytes->0) matches Some((v, p, b, w, ids)) && v == 1 && p == profile
                && b == bot && w >= 0 && ids.len() <= 128 && (forall|i: int|
                0 <= i < ids.len() ==> post_id(#[trigger] ids[i])) && (forall|i: int, j: int|
                #![trigger ids[i], ids[j]]
                0 <= i < j < ids.len() ==> ids[i] != ids[j])
        }),
{
    let members = wire_members(decoded(raw.skip("inv1."@.len() as int))->0)->0;
    let ids = members.4;
    assert forall|i: int| 0 <= i < ids.len() implies post_id(#[trigger] ids[i]) by {
        assert(ids.contains(ids[i]));
        faultless_ids(ids, ids[i]);
    }
    faultless_ids_differ(ids);
}

proof fn faultless_ids_differ(ids: Seq<Seq<char>>)
    requires
        ids_fault(ids) is None,
    ensures
        forall|i: int, j: int|
            #![trigger ids[i], ids[j]]
            0 <= i < j < ids.len() ==> ids[i] != ids[j],
    decreases ids.len(),
{
    if ids.len() > 0 {
        let front = ids.drop_last();
        faultless_ids_differ(front);
        assert forall|i: int, j: int|
            #![trigger ids[i], ids[j]]
            0 <= i < j < ids.len() implies ids[i] != ids[j] by {
            assert(front[i] == ids[i]);
            if j < front.len() {
                assert(front[j] == ids[j]);
            } else {
                assert(front.contains(ids[i]));
            }
        }
    }
}

/// A record is of the mode that it is made as.
pub proof fn inbox_records_are_of_their_kind(kind: WaitInboxFollowEventKind)
    ensures
        inbox_mode(kind) is Armed <==> kind is Armed,
        inbox_mode(kind) is Backlog <==> kind is Backlog,
        inbox_mode(kind) is Live <==> kind is Live,
        inbox_mode(kind) is Deadman <==> kind is Deadman,
        inbox_mode(kind) is Canceled <==> kind is Canceled,
        inbox_mode(kind) is Replaced <==> kind is Replaced,
        inbox_mode(kind) is Failed <==> kind is Failed,
{
}

/// A direct message becomes a record if and only if it has the id of a post, the cursor
/// behind it is one, and the record is of backlog, or live and whole.
pub proof fn direct_messages_become_records(
    mode: WaitFollowMode,
    cursor: Seq<char>,
    message: Message,
    truncated: bool,
)
    ensures
        inbox_message_refusal(mode, cursor, message, truncated) is None <==> post_id(message.id@)
            && !post_id(cursor) && "inv1."@.is_prefix_of(cursor) && (mode is Backlog || (mode is Live
            && !truncated)),
{
}

/// A record of a direct message carries the message, its sender and the cursor behind it;
/// every other record but that of arming carries the cursor that it has.
pub proof fn inbox_records_carry_a_cursor(kind: WaitInboxFollowEventKind)
    ensures
        match kind {
            WaitInboxFollowEventKind::Backlog {
                matched_post_id,
                peer_username,
                dm_name,
                next_inbox_cursor,
                truncated,
                messages,
            } => record_cursor(kind) == Some(next_inbox_cursor@) && (record_content(kind) matches Some(
                r,
            ) && r.matched == matched_post_id@ && r.peer == peer_username@ && r.dm_name == dm_name@
                && r.cursor == next_inbox_cursor@ && r.truncated == truncated && r.messages
                == messages@),
            WaitInboxFollowEventKind::Live {
                matched_post_id,
                peer_username,
                dm_name,
                next_inbox_cursor,
                truncated,
                messages,
            } => record_cursor(kind) == Some(next_inbox_cursor@) && (record_content(kind) matches Some(
                r,
            ) && r.matched == matched_post_id@ && r.peer == peer_username@ && r.dm_name == dm_name@
                && r.cursor == next_inbox_cursor@ && r.truncated == truncated && r.messages
                == messages@),
            WaitInboxFollowEventKind::Deadman { inbox_cursor } => record_content(kind) is None
                && record_cursor(kind) == opt_text(inbox_cursor),
            WaitInboxFollowEventKind::Canceled { inbox_cursor } => record_content(kind) is None
                && record_cursor(kind) == opt_text(inbox_cursor),
            WaitInboxFollowEventKind::Failed { inbox_cursor, .. } => record_content(kind) is None
                && record_cursor(kind) == opt_text(inbox_cursor),
            WaitInboxFollowEventKind::Replaced { inbox_cursor, .. } => record_content(kind) is None
                && record_cursor(kind) == opt_text(inbox_cursor),
            WaitInboxFollowEventKind::Armed { .. } => record_content(kind) is None && record_cursor(
                kind,
            ) is None,
        },
{
}

/// An inbox record is valid if and only if its ids are short, it names the message that it
/// carries, no cursor is the id of a post, cursors that end it are cursors, and a live record
/// is whole.
pub proof fn valid_inbox_records(event: WaitInboxFollowEvent)
    ensures
        inbox_event_fault(event) is None <==> (0 < event.wait_id@.len() && encode_utf8(
            event.wait_id@,
        ).len() <= 64 && match event.kind {
            WaitInboxFollowEventKind::Backlog {
                matched_post_id,
                next_inbox_cursor,
                messages,
                ..
            } => matched_post_id@ == messages@[0].id@ && !post_id(next_inbox_cursor@)
                && next_inbox_cursor@ != matched_post_id@,
            WaitInboxFollowEventKind::Live {
                matched_post_id,
                next_inbox_cursor,
                messages,
                truncated,
                ..
            } => matched_post_id@ == messages@[0].id@ && !post_id(next_inbox_cursor@)
                && next_inbox_cursor@ != matched_post_id@ && !truncated,
            WaitInboxFollowEventKind::Armed { replaced_wait_id } => replaced_wait_id is Some ==> 0
                < replaced_wait_id->0@.len() && encode_utf8(replaced_wait_id->0@).len() <= 64,
            WaitInboxFollowEventKind::Replaced { replaced_by_wait_id, inbox_cursor } => 0
                < replaced_by_wait_id@.len() && encode_utf8(replaced_by_wait_id@).len() <= 64 && (
            inbox_cursor is Some ==> !post_id(inbox_cursor->0@) && "inv1."@.is_prefix_of(
                inbox_cursor->0@,
            )),
            WaitInboxFollowEventKind::Deadman { inbox_cursor } => inbox_cursor is Some ==> !post_id(
                inbox_cursor->0@,
            ) && "inv1."@.is_prefix_of(inbox_cursor->0@),
            WaitInboxFollowEventKind::Canceled { inbox_cursor } => inbox_cursor is Some ==> !post_id(
                inbox_cursor->0@,
            ) && "inv1."@.is_prefix_of(inbox_cursor->0@),
            WaitInboxFollowEventKind::Failed { inbox_cursor, .. } => inbox_cursor is Some
                ==> !post_id(inbox_cursor->0@) && "inv1."@.is_prefix_of(inbox_cursor->0@),
        }),
{
}

/// The peer of a direct channel is the one of its two users that one is not.
pub proof fn peers_are_the_other_user(a: Seq<char>, b: Seq<char>, my_id: Seq<char>)
    requires
        !contains_text(b, "__"@),
        split_at_first(a + "__"@ + b, "__"@) == Some((a, b)),
    ensures
        peer_of(a + "__"@ + b, my_id) == (if my_id == a {
            Some(b)
        } else if my_id == b {
            Some(a)
        } else {
            None
        }),
{
}

/// A refusal is the reason that the error gives.
pub proof fn refusals_give_their_reason(e: CoreError, why: Seq<char>)
    ensures
        refused(e) == Some(why) <==> (e matches CoreError::WaitFilterInvalid(text) && text@ == why),
{
}

/// A cursor lets a post through if it is newer than its watermark, or of that moment and not yet
/// seen; one whose text is beyond the limit is not written.
pub proof fn cursors_let_unseen_posts_through(
    cursor: &InboxCursorV1,
    create_at: i64,
    post_id: &str,
    r: bool,
    text: Result<String, CoreError>,
)
    requires
        call_ensures(InboxCursorV1::admits, (cursor, create_at, post_id), r),
        call_ensures(InboxCursorV1::encode, (cursor,), text),
    ensures
        r <==> create_at > cursor@.watermark || (create_at == cursor@.watermark
            && !cursor@.ids.contains(post_id@)),
        text is Ok <==> encode_utf8(cursor@.text()).len() <= 32_768,
        text is Ok ==> text->Ok_0@ == cursor@.text(),
{
    cursors_let_new_posts_through(cursor@, create_at, post_id@);
}

/// What is said of a start that is no cursor.
pub proof fn starts_are_refused_with_a_reason(raw: Seq<char>, profile: Seq<char>, bot: Seq<char>)
    ensures
        raw.len() == 0 ==> cursor_fault(raw, profile, bot) == Some("empty --after is refused"@),
        raw.len() > 0 && post_id(raw) ==> cursor_fault(raw, profile, bot) == Some(
            "inbox cursor, not Mattermost post id"@,
        ),
        raw.len() > 0 && !post_id(raw) && encode_utf8(raw).len() > 32_768 ==> cursor_fault(
            raw,
            profile,
            bot,
        ) == Some("inbox cursor exceeds the 32 KiB encoded cap"@),
        raw.len() > 0 && !post_id(raw) && encode_utf8(raw).len() <= 32_768 && !"inv1."@.is_prefix_of(
            raw,
        ) ==> cursor_fault(raw, profile, bot) == Some(
            "malformed inbox cursor (expected inv1. prefix)"@,
        ),
        !post_id(raw) && encode_utf8(raw).len() <= 32_768 && "inv1."@.is_prefix_of(raw) && decoded(
            raw.skip("inv1."@.len() as int),
        ) is None ==> cursor_fault(raw, profile, bot) == Some("malformed inbox cursor (base64)"@),
        !post_id(raw) && encode_utf8(raw).len() <= 32_768 && "inv1."@.is_prefix_of(raw) && decoded(
            raw.skip("inv1."@.len() as int),
        ) is Some && wire_members(decoded(raw.skip("inv1."@.len() as int))->0) is None
            ==> cursor_fault(raw, profile, bot) == Some("malformed inbox cursor (json)"@),
{
    reveal_strlit("inv1.");
}

/// What is said of a cursor that is not this profile's and bot's, or not a valid one.
pub proof fn cursors_are_refused_with_a_reason(
    raw: Seq<char>,
    v: u8,
    p: Seq<char>,
    b: Seq<char>,
    w: i64,
    ids: Seq<Seq<char>>,
    profile: Seq<char>,
    bot: Seq<char>,
)
    ensures
        ({
            let fault = members_fault(raw, (v, p, b, w, ids), profile, bot);
            let bound = v == 1 && p == profile && b == bot;
            &&& v != 1 ==> fault == Some("unprovable inbox cursor version"@)
            &&& v == 1 && (p != profile || b != bot) ==> fault == Some(
                "inbox cursor does not bind this profile/bot"@,
            )
            &&& bound && w < 0 ==> fault == Some("inbox cursor watermark is negative"@)
            &&& bound && w >= 0 && ids.len() > 128 ==> fault == Some(
                "inbox cursor equal-watermark id set exceeds 128"@,
            )
            &&& bound && w >= 0 && ids.len() <= 128 && ids_fault(ids) is Some ==> fault
                == ids_fault(ids)
            &&& bound && w >= 0 && ids.len() <= 128 && ids_fault(ids) is None ==> {
                let text = (InboxCursor {
                    profile: p,
                    bot_user_id: b,
                    watermark: w,
                    ids: listing(ids),
                }).text();
                &&& encode_utf8(text).len() > 32_768 ==> fault == Some(
                    "inbox cursor exceeds the 32 KiB encoded cap"@,
                )
                &&& encode_utf8(text).len() <= 32_768 && text != raw ==> fault == Some(
                    "inbox cursor encoding is not canonical"@,
                )
                &&& encode_utf8(text).len() <= 32_768 && text == raw ==> fault is None
            }
        }),
{
}

/// What is said of a list of ids: the first that is none, or that stands in it twice.
pub proof fn ids_are_refused_with_a_reason(ids: Seq<Seq<char>>, id: Seq<char>)
    ensures
        ids_fault(ids) is Some ==> ids_fault(ids.push(id)) == ids_fault(ids),
        ids_fault(ids) is None && !post_id(id) ==> ids_fault(ids.push(id)) == Some(
            "inbox cursor observed id is not a post id"@,
        ),
        ids_fault(ids) is None && post_id(id) && ids.contains(id) ==> ids_fault(ids.push(id))
            == Some("inbox cursor observed-id set is not canonical"@),
        ids_fault(ids) is None && post_id(id) && !ids.contains(id) ==> ids_fault(ids.push(id)) is
            None,
{
    assert(ids.push(id).drop_last() =~= ids);
}

/// What is said of a post that a cursor cannot move on to.
pub proof fn moves_are_refused_with_a_reason(c: InboxCursor, create_at: i64, id: Seq<char>)
    ensures
        !post_id(id) ==> advance_fault(c, create_at, id) == Some(
            "matched post id is not a Mattermost post id"@,
        ),
        post_id(id) && create_at < c.watermark ==> advance_fault(c, create_at, id) == Some(
            "cannot advance inbox cursor with a lower watermark"@,
        ),
        post_id(id) && create_at == c.watermark && c.ids.to_set().insert(id).len() > 128
            ==> advance_fault(c, create_at, id) == Some(
            "inbox equal-watermark observed-id set exceeds 128"@,
        ),
        post_id(id) && create_at > c.watermark ==> advance_fault(c, create_at, id) is None,
{
}

/// What is said of a record of the inbox that is at fault.
pub proof fn inbox_records_are_refused_with_a_reason(
    matched: Seq<char>,
    cursor: String,
    message: Message,
    event: WaitInboxFollowEvent,
)
    ensures
        matched != message.id@ ==> inbox_record_fault(matched, cursor@, message) == Some(
            "matched_post_id must equal the sole message id"@,
        ),
        matched == message.id@ && (post_id(cursor@) || cursor@ == matched) ==> inbox_record_fault(
            matched,
            cursor@,
            message,
        ) == Some("next_inbox_cursor must not be a Mattermost post id"@),
        post_id(cursor@) ==> optional_cursor_fault(Some(cursor)) == Some(
            "inbox_cursor must not be a Mattermost post id"@,
        ),
        !post_id(cursor@) && !"inv1."@.is_prefix_of(cursor@) ==> optional_cursor_fault(Some(cursor))
            == Some("inbox_cursor must be an inv1. inbox cursor"@),
        !sized_id(event.wait_id@) ==> inbox_event_fault(event) == Some(
            "inbox wait id must contain 1 to 64 bytes"@,
        ),
        sized_id(event.wait_id@) && event.kind is Live && event.kind->Live_truncated
            ==> inbox_event_fault(event) == Some("live inbox records cannot be truncated"@),
        sized_id(event.wait_id@) && event.kind is Armed && event.kind->Armed_replaced_wait_id is Some
            && !sized_id(event.kind->Armed_replaced_wait_id->0@) ==> inbox_event_fault(event)
            == Some("replaced wait id must contain 1 to 64 bytes"@),
        sized_id(event.wait_id@) && event.kind is Replaced && !sized_id(
            event.kind->Replaced_replaced_by_wait_id@,
        ) ==> inbox_event_fault(event) == Some("replaced_by wait id must contain 1 to 64 bytes"@),
{
}

/// What is said of a direct message that no record can be made of.
pub proof fn direct_messages_are_refused_with_a_reason(
    mode: WaitFollowMode,
    cursor: Seq<char>,
    m: Message,
    truncated: bool,
)
    ensures
        ({
            let why = inbox_message_refusal(mode, cursor, m, truncated);
            let good = post_id(m.id@) && cursor != m.id@ && !post_id(cursor);
            &&& !post_id(m.id@) ==> why == Some("inbox message id is not a Mattermost post id"@)
            &&& post_id(m.id@) && (cursor == m.id@ || post_id(cursor)) ==> why == Some(
                "next_inbox_cursor must not be a Mattermost post id"@,
            )
            &&& good && !"inv1."@.is_prefix_of(cursor) ==> why == Some(
                "next_inbox_cursor must be an inv1. inbox cursor"@,
            )
            &&& good && "inv1."@.is_prefix_of(cursor) && mode is Live && truncated ==> why == Some(
                "live inbox records cannot be truncated"@,
            )
            &&& good && "inv1."@.is_prefix_of(cursor) && !(mode is Live) && !(mode is Backlog)
                ==> why == Some("message record requires backlog or live mode"@)
        }),
{
}

} // verus!
