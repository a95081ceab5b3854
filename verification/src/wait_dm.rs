//! Waiting for a direct message of one user.
use vstd::prelude::*;
use vstd::string::*;
use vstd::utf8::encode_utf8;

use crate::error::CoreError;
use crate::text::{byte_len, concat3, contains, contains_text, find_from, lowered, occurs_at,
    split_at_first, split_once, strip_prefix, strip_suffix, text_before, text_before_irreflexive,
    text_before_total, text_before_transitive, text_lt};
use crate::types::Message;
use crate::wait_channels::WAIT_CHANNELS_UTF8_MAX_BYTES;
use crate::wait_follow::{fault_of, is_mattermost_post_id, post_id, result_fault, WaitFollowResult,
    WaitFollowResultKind};
use crate::wait_inbox::{peer_of, refusal_of, refused};

verus! {

pub const WAIT_DM_V1_METHOD: &'static str = "wait_dm_v1";

pub const WAIT_DM_FOLLOW_V1_METHOD: &'static str = "wait_dm_follow_v1";

pub const WAIT_DM_FOLLOW_V2_METHOD: &'static str = "wait_dm_follow_v2";

pub const NOT_A_WAITABLE_PEER: &'static str = "not a waitable peer";

pub const WAIT_DM_HELP: &'static str =
    "wait for a DM from this user; do not pass a channel id.";

/// Request to wait for a direct message of one user.
#[derive(Debug, Clone, PartialEq, Eq)]
pub struct WaitDmV1Params {
    pub username: String,
    pub timeout_secs: u64,
    pub contains: Option<String>,
    pub pattern: Option<String>,
    pub after: Option<String>,
    pub replace_wait_id: Option<String>,
    pub mention: bool,
}

/// Request to follow the direct messages of one user, live messages coalesced
/// over a window.
#[derive(Debug, Clone, PartialEq, Eq)]
pub struct WaitDmFollowV2Params {
    pub username: String,
    pub timeout_secs: u64,
    pub contains: Option<String>,
    pub pattern: Option<String>,
    pub after: Option<String>,
    pub replace_wait_id: Option<String>,
    pub mention: bool,
    pub coalesce_ms: u64,
}

/// The direct messages that ended a wait.
#[derive(Debug, Clone, PartialEq, Eq)]
pub struct WaitDmV1Result {
    pub peer_username: String,
    pub dm_name: String,
    pub channel: String,
    pub messages: Vec<Message>,
    pub wait_id: Option<String>,
    pub replaced_wait_id: Option<String>,
}

/// How a direct follow ended.
#[derive(Debug, Clone, PartialEq, Eq)]
pub struct WaitDmFollowResult {
    pub wait_id: String,
    pub peer_username: String,
    pub dm_name: String,
    pub kind: WaitFollowResultKind,
}

/// A direct channel.
#[derive(Debug, Clone, PartialEq, Eq)]
pub struct DirectChannel {
    pub id: String,
    pub name: String,
}

/// The error of a user that cannot be waited for.
pub fn not_a_waitable_peer() -> (r: CoreError)
    ensures
        refused(r) == Some(NOT_A_WAITABLE_PEER@),
{
    CoreError::WaitFilterInvalid(NOT_A_WAITABLE_PEER.to_owned())
}

/// The provider answered that the user is unknown, malformed or out of bounds.
pub open spec fn inaccessible(e: CoreError) -> bool {
    e matches CoreError::Api { status, .. } && (status == 400 || status == 403 || status == 404)
}

/// Folds the answers that say a user cannot be reached into one error; other
/// errors stay.
pub fn map_inaccessible_peer(err: CoreError) -> (r: CoreError)
    ensures
        inaccessible(err) ==> refused(r) == Some(NOT_A_WAITABLE_PEER@),
        !inaccessible(err) ==> r == err,
{
    match err {
        CoreError::Api { status, message } => {
            if status == 404 || status == 400 || status == 403 {
                not_a_waitable_peer()
            } else {
                CoreError::Api { status, message }
            }
        },
        other => other,
    }
}

// ---------------------------------------------------------------------------
// Names of direct channels
// ---------------------------------------------------------------------------

/// The name of the direct channel of two users: their ids in order.
pub open spec fn dm_name(a: Seq<char>, b: Seq<char>) -> Seq<char> {
    if text_before(b, a) {
        b + "__"@ + a
    } else {
        a + "__"@ + b
    }
}

pub fn canonical_dm_name(left_user_id: &str, right_user_id: &str) -> (r: String)
    ensures
        r@ == dm_name(left_user_id@, right_user_id@),
{
    if text_lt(right_user_id, left_user_id) {
        concat3(right_user_id, "__", left_user_id)
    } else {
        concat3(left_user_id, "__", right_user_id)
    }
}

/// The name does not depend on which of the two users asks.
pub proof fn dm_name_symmetric(a: Seq<char>, b: Seq<char>)
    ensures
        dm_name(a, b) == dm_name(b, a),
{
    text_before_total(a, b);
    text_before_irreflexive(a);
    if text_before(a, b) && text_before(b, a) {
        text_before_transitive(a, b, a);
    }
}

proof fn no_separator_in_post_id(s: Seq<char>)
    requires
        post_id(s),
    ensures
        !contains_text(s, "__"@),
        forall|i: int| 0 <= i < s.len() ==> s[i] != '_',
{
    reveal_strlit("__");
    if contains_text(s, "__"@) {
        let i = choose|i: int| occurs_at(s, "__"@, i);
        assert(s.subrange(i, i + 2)[0] == s[i]);
        assert("__"@[0] == '_');
    }
}

proof fn separator_found_at(a: Seq<char>, b: Seq<char>, i: int)
    requires
        post_id(a),
        0 <= i <= a.len(),
    ensures
        find_from(a + "__"@ + b, "__"@, i) == Some(a.len() as int),
    decreases a.len() - i,
{
    reveal_strlit("__");
    let s = a + "__"@ + b;
    no_separator_in_post_id(a);
    if i < a.len() {
        separator_found_at(a, b, i + 1);
        if occurs_at(s, "__"@, i) {
            assert(s.subrange(i, i + 2)[0] == a[i]);
        }
    } else {
        assert(s.subrange(i, i + 2) =~= "__"@);
    }
}

/// The name of the channel of two users splits into their ids, and each of them
/// finds the other in it.
pub proof fn dm_name_splits(a: Seq<char>, b: Seq<char>)
    requires
        post_id(a),
        post_id(b),
    ensures
        peer_of(dm_name(a, b), a) == Some(b),
        peer_of(dm_name(a, b), b) == Some(a),
        dm_channel_name(dm_name(a, b)),
{
    reveal_strlit("__");
    no_separator_in_post_id(a);
    no_separator_in_post_id(b);
    separator_found_at(a, b, 0);
    separator_found_at(b, a, 0);
    let ab = a + "__"@ + b;
    let ba = b + "__"@ + a;
    assert(ab.take(a.len() as int) =~= a);
    assert(ab.skip(a.len() as int + 2) =~= b);
    assert(ba.take(b.len() as int) =~= b);
    assert(ba.skip(b.len() as int + 2) =~= a);
}

/// Two ids joined by two underscores.
pub open spec fn dm_channel_name(s: Seq<char>) -> bool {
    match split_at_first(s, "__"@) {
        None => false,
        Some((left, right)) => !contains_text(right, "__"@) && post_id(left) && post_id(right),
    }
}

pub fn is_dm_channel_name(value: &str) -> (r: bool)
    ensures
        r == dm_channel_name(value@),
{
    match split_once(value, "__") {
        None => false,
        Some((left, right)) => {
            if contains(right, "__") {
                return false;
            }
            is_mattermost_post_id(left) && is_mattermost_post_id(right)
        },
    }
}

// ---------------------------------------------------------------------------
// UUIDs
// ---------------------------------------------------------------------------

pub open spec fn hex_digit(c: char) -> bool {
    ('0' <= c && c <= '9') || ('a' <= c && c <= 'f') || ('A' <= c && c <= 'F')
}

/// 36 characters, hyphens at places 8, 13, 18 and 23, hexadecimal digits at the
/// others.
pub open spec fn hyphenated_uuid(s: Seq<char>) -> bool {
    s.len() == 36 && forall|i: int|
        0 <= i < 36 ==> if i == 8 || i == 13 || i == 18 || i == 23 {
            #[trigger] s[i] == '-'
        } else {
            hex_digit(s[i])
        }
}

/// The four forms in which a UUID is written: 32 hexadecimal digits, with
/// hyphens, with hyphens in braces, with hyphens behind `urn:uuid:`.
pub open spec fn uuid_text(s: Seq<char>) -> bool {
    ||| s.len() == 32 && forall|i: int| 0 <= i < 32 ==> hex_digit(#[trigger] s[i])
    ||| hyphenated_uuid(s)
    ||| s.len() == 38 && s[0] == '{' && s[37] == '}' && hyphenated_uuid(s.subrange(1, 37))
    ||| s.len() == 45 && lowered(s.take(9)) == "urn:uuid:"@ && hyphenated_uuid(s.skip(9))
}

/// `uuid::Uuid::try_parse`: succeeds on the four written forms of a UUID, in
/// either case of the digits and of the `urn:uuid:` prefix, and on nothing else.
#[verifier::external_body]
fn parses_as_uuid(s: &str) -> (r: bool)
    ensures
        r == uuid_text(s@),
{
    uuid::Uuid::try_parse(s).is_ok()
}

/// A UUID, also with another pair of braces round it.
pub open spec fn rfc_uuid(s: Seq<char>) -> bool {
    if "{"@.is_prefix_of(s) && "}"@.is_suffix_of(s.skip(1)) {
        uuid_text(s.skip(1).take(s.len() - 2))
    } else {
        uuid_text(s)
    }
}

pub fn is_rfc_uuid(value: &str) -> (r: bool)
    ensures
        r == rfc_uuid(value@),
{
    proof {
        reveal_strlit("{");
        reveal_strlit("}");
    }
    match strip_prefix(value, "{") {
        Some(inner) => match strip_suffix(inner, "}") {
            Some(bare) => parses_as_uuid(bare),
            None => parses_as_uuid(value),
        },
        None => parses_as_uuid(value),
    }
}

// ---------------------------------------------------------------------------
// Users and results
// ---------------------------------------------------------------------------

/// A text that can be the name of a user, rather than an id of some kind.
pub open spec fn waitable(username: Seq<char>) -> bool {
    &&& username.len() > 0
    &&& encode_utf8(username).len() <= WAIT_CHANNELS_UTF8_MAX_BYTES
    &&& !rfc_uuid(username)
    &&& !post_id(username)
    &&& !dm_channel_name(username)
}

/// Accepts the name of a user; the name is taken as it stands.
pub fn classify_wait_dm_username(username: &str) -> (r: Result<(), CoreError>)
    ensures
        r is Ok <==> waitable(username@),
        r is Err ==> refusal_of(r) == Some(NOT_A_WAITABLE_PEER@),
{
    if username.is_empty() || byte_len(username) > WAIT_CHANNELS_UTF8_MAX_BYTES || is_rfc_uuid(
        username,
    ) || is_mattermost_post_id(username) || is_dm_channel_name(username) {
        return Err(not_a_waitable_peer());
    }
    Ok(())
}

impl WaitDmFollowResult {
    pub fn from_follow(
        peer_username: String,
        dm_name: String,
        result: WaitFollowResult,
    ) -> (r: Self)
        ensures
            r.wait_id == result.wait_id,
            r.peer_username == peer_username,
            r.dm_name == dm_name,
            r.kind == result.kind,
    {
        WaitDmFollowResult { wait_id: result.wait_id, peer_username, dm_name, kind: result.kind }
    }

    /// Accepts a result that consumers can rely on.
    pub fn validate(&self) -> (r: Result<(), &'static str>)
        ensures
            fault_of(r) == (if self.peer_username@.len() == 0 || self.dm_name@.len() == 0 {
                Some("dm follow result must name peer and dm_name"@)
            } else {
                result_fault(self.wait_id@, self.kind)
            }),
    {
        if self.peer_username.as_str().is_empty() || self.dm_name.as_str().is_empty() {
            return Err("dm follow result must name peer and dm_name");
        }
        let result = WaitFollowResult { wait_id: self.wait_id.clone(), kind: self.kind.clone() };
        result.validate()
    }
}

/// A peer that the provider does not show is not waitable: it answered 400, 403 or 404.
pub proof fn hidden_peers_are_not_waitable(err: CoreError, r: CoreError)
    requires
        inaccessible(err) ==> refused(r) == Some(NOT_A_WAITABLE_PEER@),
        !inaccessible(err) ==> r == err,
    ensures
        err is Api && (err->Api_status == 400 || err->Api_status == 403 || err->Api_status == 404)
            ==> (r matches CoreError::WaitFilterInvalid(why) && why@ == "not a waitable peer"@),
        !(err is Api && (err->Api_status == 400 || err->Api_status == 403 || err->Api_status
            == 404)) ==> r == err,
{
}

/// A direct channel is named by its two users, the one that comes first before the other,
/// with two underscores between them.
pub proof fn direct_channels_name_both_users(a: Seq<char>, b: Seq<char>)
    requires
        text_before(a, b),
    ensures
        dm_name(a, b) == a + seq!['_', '_'] + b,
        dm_name(b, a) == a + seq!['_', '_'] + b,
{
    reveal_strlit("__");
    assert("__"@ =~= seq!['_', '_']);
    if text_before(b, a) {
        crate::text::text_before_transitive(a, b, a);
        crate::text::text_before_irreflexive(a);
    }
}

/// Only a name can be waited for: neither the id of a user nor a UUID nor the name of a
/// direct channel, and none that is empty or too long.
pub proof fn only_names_are_waitable(username: Seq<char>, a: Seq<char>, b: Seq<char>)
    ensures
        waitable(username) ==> 0 < username.len() && encode_utf8(username).len() <= 256,
        waitable(username) ==> !(username.len() == 26 && forall|i: int|
            0 <= i < 26 ==> ('a' <= #[trigger] username[i] && username[i] <= 'z') || ('0'
                <= username[i] && username[i] <= '9')),
        post_id(a) && post_id(b) ==> !waitable(a + seq!['_', '_'] + b),
        username.len() == 36 && (forall|i: int|
            0 <= i < 36 ==> if i == 8 || i == 13 || i == 18 || i == 23 {
                #[trigger] username[i] == '-'
            } else {
                ('0' <= username[i] && username[i] <= '9') || ('a' <= username[i] && username[i]
                    <= 'f') || ('A' <= username[i] && username[i] <= 'F')
            }) ==> !waitable(username),
{
    if post_id(a) && post_id(b) {
        reveal_strlit("__");
        assert("__"@ =~= seq!['_', '_']);
        let s = a + "__"@ + b;
        separator_found_at(a, b, 0);
        no_separator_in_post_id(b);
        assert(s.take(a.len() as int) =~= a);
        assert(s.skip(a.len() as int + 2) =~= b);
        assert(dm_channel_name(s));
    }
    if username.len() == 36 {
        reveal_strlit("{");
        if "{"@.is_prefix_of(username) {
            assert("{"@[0] == username[0]);
            assert(username[0] == '{');
        }
        if hyphenated_uuid(username) {
            assert(uuid_text(username));
        }
    }
}

/// A short name of letters that is no id, no UUID and no direct channel can be waited for.
pub proof fn ordinary_names_are_waitable(username: Seq<char>)
    requires
        0 < username.len() < 26,
        encode_utf8(username).len() <= 256,
    ensures
        waitable(username),
{
    reveal_strlit("{");
    reveal_strlit("}");
    if dm_channel_name(username) {
        let parts = split_at_first(username, "__"@)->0;
        crate::text::splits_come_together_again(username, "__"@);
        assert(parts.0.len() == 26);
    }
}

/// A peer that cannot be reached is refused as one that is not waitable is, and other failures
/// are handed on.
pub proof fn hidden_peers_are_refused_alike(
    err: CoreError,
    r: CoreError,
    username: &str,
    accepted: Result<(), CoreError>,
)
    requires
        call_ensures(map_inaccessible_peer, (err,), r),
        call_ensures(classify_wait_dm_username, (username,), accepted),
    ensures
        inaccessible(err) ==> refused(r) == Some("not a waitable peer"@),
        !inaccessible(err) ==> r == err,
        accepted is Ok <==> waitable(username@),
        accepted is Err ==> refused(accepted->Err_0) == Some("not a waitable peer"@),
{
}

/// The result of a wait for a direct message is that of the wait, with its peer.
pub proof fn results_name_their_peer(
    peer: String,
    dm: String,
    result: WaitFollowResult,
    r: WaitDmFollowResult,
)
    requires
        call_ensures(WaitDmFollowResult::from_follow, (peer, dm, result), r),
    ensures
        r.peer_username == peer && r.dm_name == dm && r.wait_id == result.wait_id && r.kind
            == result.kind,
{
}

/// A result that does not name its peer and channel is refused as such, and any other as the
/// result of a wait is.
pub proof fn results_without_a_peer_are_refused(r: &WaitDmFollowResult, v: Result<(), &'static str>)
    requires
        call_ensures(WaitDmFollowResult::validate, (r,), v),
    ensures
        r.peer_username@.len() == 0 || r.dm_name@.len() == 0 ==> v is Err && v->Err_0@
            == "dm follow result must name peer and dm_name"@,
        r.peer_username@.len() > 0 && r.dm_name@.len() > 0 ==> (v is Ok <==> result_fault(
            r.wait_id@,
            r.kind,
        ) is None),
{
}

/// A UUID is written with or without hyphens, in braces, or behind `urn:uuid:`.
pub proof fn uuids_are_written_in_four_ways(s: Seq<char>)
    requires
        hyphenated_uuid(s),
    ensures
        uuid_text(s),
        s.len() == 36 ==> uuid_text(seq!['{'] + s + seq!['}']),
        s.len() == 36 ==> uuid_text("urn:uuid:"@ + s),
{
    reveal_strlit("urn:uuid:");
    if s.len() == 36 {
        assert((seq!['{'] + s + seq!['}']).subrange(1, 37) =~= s);
        let t = "urn:uuid:"@ + s;
        assert(t.skip(9) =~= s);
        assert(t.take(9) =~= "urn:uuid:"@);
        assert(lowered("urn:uuid:"@) =~= "urn:uuid:"@);
    }
}

} // verus!
