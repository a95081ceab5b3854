//! Records of the follow streams `wait_follow_v1` and `wait_follow_v2`.
//!
//! A first-version message record carries one message and names it as its tip;
//! a second-version record carries up to 32 messages in strict order and names
//! the last one.
use vstd::prelude::*;
use vstd::string::*;
use vstd::utf8::encode_utf8;

use crate::text::{byte_len, chars_of, str_eq, text_before, text_before_transitive, text_lt};
use crate::types::Message;

verus! {

pub const WAIT_FOLLOW_V1_METHOD: &'static str = "wait_follow_v1";

pub const WAIT_FOLLOW_V1_EVENT_METHOD: &'static str = "wait_follow_v1.event";

pub const WAIT_FOLLOW_V1_EVENT_SCHEMA: &'static str = "wait_follow_v1.event";

pub const WAIT_FOLLOW_V2_METHOD: &'static str = "wait_follow_v2";

pub const WAIT_FOLLOW_V2_EVENT_METHOD: &'static str = "wait_follow_v2.event";

pub const WAIT_FOLLOW_V2_EVENT_SCHEMA: &'static str = "wait_follow_v2.event";

pub const WAIT_FOLLOW_COALESCE_MS_MIN: u64 = 1;

pub const WAIT_FOLLOW_COALESCE_MS_MAX: u64 = 10_000;

pub const WAIT_FOLLOW_COALESCE_MAX_MESSAGES: usize = 32;

/// The fault that a check reported, if any.
pub open spec fn fault_of(r: Result<(), &'static str>) -> Option<Seq<char>> {
    match r {
        Ok(_) => None,
        Err(e) => Some(e@),
    }
}

/// Accepts a coalescing window of 1 to 10000 milliseconds.
pub fn validate_coalesce_ms(coalesce_ms: u64) -> (r: Result<(), String>)
    ensures
        r is Ok <==> WAIT_FOLLOW_COALESCE_MS_MIN <= coalesce_ms <= WAIT_FOLLOW_COALESCE_MS_MAX,
        r is Ok <==> 1 <= coalesce_ms <= 10_000,
        r matches Err(e) ==> e@ == "coalesce_ms must be 1..=10000"@,
{
    if WAIT_FOLLOW_COALESCE_MS_MIN <= coalesce_ms && coalesce_ms <= WAIT_FOLLOW_COALESCE_MS_MAX {
        Ok(())
    } else {
        Err("coalesce_ms must be 1..=10000".to_owned())
    }
}

/// Request to follow a channel, one record per message.
#[derive(Debug, Clone, PartialEq, Eq)]
pub struct WaitFollowV1Params {
    pub channel: String,
    pub timeout_secs: u64,
    pub team: Option<String>,
    pub contains: Option<String>,
    pub pattern: Option<String>,
    pub after: Option<String>,
    pub replace_wait_id: Option<String>,
    pub mention: bool,
}

/// Request to follow a channel, live messages coalesced over a window.
#[derive(Debug, Clone, PartialEq, Eq)]
pub struct WaitFollowV2Params {
    pub channel: String,
    pub timeout_secs: u64,
    pub team: Option<String>,
    pub contains: Option<String>,
    pub pattern: Option<String>,
    pub after: Option<String>,
    pub replace_wait_id: Option<String>,
    pub mention: bool,
    pub coalesce_ms: u64,
}

#[derive(Debug, Clone, Copy, PartialEq, Eq, Structural)]
pub enum WaitFollowSchema {
    V1,
}

/// What a follow record reports.
#[derive(Debug, Clone, Copy, PartialEq, Eq, Structural)]
pub enum WaitFollowMode {
    Armed,
    Backlog,
    Live,
    Deadman,
    Canceled,
    Replaced,
    Failed,
}

/// A first-version record.
#[derive(Debug, Clone, PartialEq, Eq)]
pub struct WaitFollowEvent {
    pub schema: WaitFollowSchema,
    pub wait_id: String,
    pub kind: WaitFollowEventKind,
}

#[derive(Debug, Clone, PartialEq, Eq)]
pub enum WaitFollowEventKind {
    Armed { replaced_wait_id: Option<String> },
    Backlog { tip: String, truncated: bool, messages: [Message; 1] },
    Live { tip: String, truncated: bool, messages: [Message; 1] },
    Deadman,
    Canceled,
    Replaced { replaced_by_wait_id: String },
    Failed { reason_code: WaitFollowFailureReason },
}

#[derive(Debug, Clone, Copy, PartialEq, Eq, Structural)]
pub enum WaitFollowFailureReason {
    ProviderFailed,
    ProviderOverflow,
    ProviderOutage,
    CursorUncertain,
    ProviderDegraded,
    OwnershipLost,
    DaemonShutdown,
}

// ---------------------------------------------------------------------------
// Faults
// ---------------------------------------------------------------------------

/// An id as the provider makes them: 26 lower-case letters and digits.
pub open spec fn post_id(s: Seq<char>) -> bool {
    s.len() == 26 && forall|i: int|
        0 <= i < s.len() ==> ('a' <= #[trigger] s[i] && s[i] <= 'z') || ('0' <= s[i] && s[i] <= '9')
}

/// Whether a text is an id as the provider makes them.
pub fn is_mattermost_post_id(value: &str) -> (r: bool)
    ensures
        r == post_id(value@),
{
    let cs = chars_of(value);
    if cs.len() != 26 {
        return false;
    }
    let mut i: usize = 0;
    while i < cs.len()
        invariant
            i <= cs.len(),
            cs@ == value@,
            cs@.len() == 26,
            forall|j: int|
                0 <= j < i ==> ('a' <= #[trigger] cs@[j] && cs@[j] <= 'z') || ('0' <= cs@[j]
                    && cs@[j] <= '9'),
        decreases cs.len() - i,
    {
        let c = cs[i];
        if !(('a' <= c && c <= 'z') || ('0' <= c && c <= '9')) {
            return false;
        }
        i += 1;
    }
    true
}

pub open spec fn wait_id_fault(id: Seq<char>) -> Option<Seq<char>> {
    if id.len() == 0 || encode_utf8(id).len() > 64 {
        Some("follow wait id must contain 1 to 64 bytes"@)
    } else {
        None
    }
}

pub fn validate_wait_id(value: &str) -> (r: Result<(), &'static str>)
    ensures
        fault_of(r) == wait_id_fault(value@),
{
    if value.is_empty() || byte_len(value) > 64 {
        return Err("follow wait id must contain 1 to 64 bytes");
    }
    Ok(())
}

pub open spec fn optional_tip_fault(tip: Option<String>) -> Option<Seq<char>> {
    match tip {
        Some(t) if !post_id(t@) => Some("follow tip is not a Mattermost post id"@),
        _ => None,
    }
}

pub fn validate_optional_tip(tip: &Option<String>) -> (r: Result<(), &'static str>)
    ensures
        fault_of(r) == optional_tip_fault(*tip),
{
    match tip {
        None => Ok(()),
        Some(t) => {
            if is_mattermost_post_id(t.as_str()) {
                Ok(())
            } else {
                Err("follow tip is not a Mattermost post id")
            }
        },
    }
}

pub open spec fn message_fields_fault(m: Message) -> Option<Seq<char>> {
    if !post_id(m.id@) {
        Some("follow message id is not a Mattermost post id"@)
    } else if m.user_id@.len() == 0 || m.username@.len() == 0 || m.root_id@.len() == 0
        || m.create_at < 0 {
        Some("follow message violates the event document"@)
    } else {
        None
    }
}

pub fn validate_message_fields(message: &Message) -> (r: Result<(), &'static str>)
    ensures
        fault_of(r) == message_fields_fault(*message),
{
    if !is_mattermost_post_id(message.id.as_str()) {
        return Err("follow message id is not a Mattermost post id");
    }
    if message.user_id.as_str().is_empty() || message.username.as_str().is_empty()
        || message.root_id.as_str().is_empty() || message.create_at < 0 {
        return Err("follow message violates the event document");
    }
    Ok(())
}

pub open spec fn message_record_fault(tip: Seq<char>, m: Message) -> Option<Seq<char>> {
    if message_fields_fault(m) is Some {
        message_fields_fault(m)
    } else if tip != m.id@ {
        Some("follow tip must equal its sole Mattermost message id"@)
    } else {
        None
    }
}

pub fn validate_message_record(tip: &str, message: &Message) -> (r: Result<(), &'static str>)
    ensures
        fault_of(r) == message_record_fault(tip@, *message),
{
    match validate_message_fields(message) {
        Ok(_) => {},
        Err(e) => {
            return Err(e);
        },
    }
    if !is_mattermost_post_id(tip) || !str_eq(tip, message.id.as_str()) {
        return Err("follow tip must equal its sole Mattermost message id");
    }
    Ok(())
}

/// Strict order by time, then by id.
pub open spec fn key_before(a: (i64, Seq<char>), b: (i64, Seq<char>)) -> bool {
    a.0 < b.0 || (a.0 == b.0 && text_before(a.1, b.1))
}

/// The keys of messages.
pub open spec fn message_keys(ms: Seq<Message>) -> Seq<(i64, Seq<char>)> {
    ms.map_values(|m: Message| (m.create_at, m.id@))
}

/// What is wrong with the first key that repeats an id or does not come after
/// its predecessor.
pub open spec fn order_fault(keys: Seq<(i64, Seq<char>)>) -> Option<Seq<char>>
    decreases keys.len(),
{
    if keys.len() == 0 {
        None
    } else if order_fault(keys.drop_last()) is Some {
        order_fault(keys.drop_last())
    } else if exists|i: int| 0 <= i < keys.len() - 1 && (#[trigger] keys[i]).1 == keys.last().1 {
        Some("coalesced messages must have unique ids"@)
    } else if keys.len() >= 2 && !key_before(keys[keys.len() - 2], keys.last()) {
        Some("coalesced messages must be in strict (create_at, id) order"@)
    } else {
        None
    }
}

/// Strictly ascending keys without a repeated id.
pub open spec fn strictly_ordered(keys: Seq<(i64, Seq<char>)>) -> bool {
    &&& forall|i: int, j: int|
        #![trigger keys[i], keys[j]]
        0 <= i < j < keys.len() ==> key_before(keys[i], keys[j])
    &&& forall|i: int, j: int|
        #![trigger keys[i], keys[j]]
        0 <= i < j < keys.len() ==> keys[i].1 != keys[j].1
}

proof fn key_before_transitive(a: (i64, Seq<char>), b: (i64, Seq<char>), c: (i64, Seq<char>))
    requires
        key_before(a, b),
        key_before(b, c),
    ensures
        key_before(a, c),
{
    if a.0 == b.0 && b.0 == c.0 {
        text_before_transitive(a.1, b.1, c.1);
    }
}

/// Keys are free of faults if and only if they ascend strictly and no id occurs
/// twice.
pub proof fn order_fault_iff(keys: Seq<(i64, Seq<char>)>)
    ensures
        order_fault(keys) is None <==> strictly_ordered(keys),
    decreases keys.len(),
{
    if keys.len() > 0 {
        let front = keys.drop_last();
        let n = keys.len() as int;
        order_fault_iff(front);
        if order_fault(keys) is None {
            assert forall|i: int, j: int|
                #![trigger keys[i], keys[j]]
                0 <= i < j < keys.len() implies key_before(keys[i], keys[j]) && keys[i].1
                != keys[j].1 by {
                assert(front[i] == keys[i]);
                if j < n - 1 {
                    assert(front[j] == keys[j]);
                } else if i < n - 2 {
                    assert(front[n - 2] == keys[n - 2]);
                    key_before_transitive(keys[i], keys[n - 2], keys[n - 1]);
                }
            }
        }
        if strictly_ordered(keys) {
            assert forall|i: int, j: int|
                #![trigger front[i], front[j]]
                0 <= i < j < front.len() implies key_before(front[i], front[j]) && front[i].1
                != front[j].1 by {
                assert(front[i] == keys[i] && front[j] == keys[j]);
            }
            assert(strictly_ordered(front));
        }
    }
}

/// The keys that pairs of time and id stand for.
pub open spec fn pair_keys(keys: Seq<(i64, &str)>) -> Seq<(i64, Seq<char>)> {
    keys.map_values(|k: (i64, &str)| (k.0, k.1@))
}

/// Accepts keys that ascend strictly by time and id and repeat no id.
pub fn validate_strict_create_at_id_order(keys: &Vec<(i64, &str)>) -> (r: Result<(), &'static str>)
    ensures
        fault_of(r) == order_fault(pair_keys(keys@)),
{
    let ghost all = pair_keys(keys@);
    let mut i: usize = 0;
    proof {
        assert(all.take(0) =~= Seq::empty());
    }
    while i < keys.len()
        invariant
            i <= keys@.len(),
            all == pair_keys(keys@),
            order_fault(all.take(i as int)) is None,
        decreases keys.len() - i,
    {
        let ghost front = all.take(i + 1);
        let (create_at, id) = keys[i];
        proof {
            assert(front.drop_last() =~= all.take(i as int));
            assert(front.last() == (create_at, id@));
        }
        let mut j: usize = 0;
        while j < i
            invariant
                j <= i < keys@.len(),
                all == pair_keys(keys@),
                front == all.take(i + 1),
                front.last() == (create_at, id@),
                order_fault(front.drop_last()) is None,
                forall|k: int| 0 <= k < j ==> (#[trigger] front[k]).1 != id@,
            decreases i - j,
        {
            if str_eq(keys[j].1, id) {
                proof {
                    assert(front[j as int].1 == front.last().1);
                    order_fault_extends(all, i as int);
                }
                return Err("coalesced messages must have unique ids");
            }
            j += 1;
        }
        if i > 0 {
            let (prev_at, prev_id) = keys[i - 1];
            let after = prev_at < create_at || (prev_at == create_at && text_lt(prev_id, id));
            if !after {
                proof {
                    assert(front[front.len() - 2] == (prev_at, prev_id@));
                    order_fault_extends(all, i as int);
                }
                return Err("coalesced messages must be in strict (create_at, id) order");
            }
            proof {
                assert(front[front.len() - 2] == (prev_at, prev_id@));
            }
        }
        i += 1;
    }
    proof {
        assert(all.take(i as int) =~= all);
    }
    Ok(())
}

/// A fault in a prefix is the fault of the whole.
proof fn order_fault_extends(keys: Seq<(i64, Seq<char>)>, i: int)
    requires
        0 <= i < keys.len(),
        order_fault(keys.take(i + 1)) is Some,
    ensures
        order_fault(keys) == order_fault(keys.take(i + 1)),
    decreases keys.len(),
{
    if i + 1 == keys.len() {
        assert(keys.take(i + 1) =~= keys);
    } else {
        assert(keys.drop_last().take(i + 1) =~= keys.take(i + 1));
        order_fault_extends(keys.drop_last(), i);
    }
}

/// What is wrong with the fields of the first faulty message.
pub open spec fn fields_fault(ms: Seq<Message>) -> Option<Seq<char>>
    decreases ms.len(),
{
    if ms.len() == 0 {
        None
    } else if message_fields_fault(ms[0]) is Some {
        message_fields_fault(ms[0])
    } else {
        fields_fault(ms.drop_first())
    }
}

pub open spec fn v2_record_fault(tip: Seq<char>, ms: Seq<Message>) -> Option<Seq<char>> {
    if ms.len() == 0 || ms.len() > 32 {
        Some("follow v2 messages must contain 1 to 32 entries"@)
    } else if fields_fault(ms) is Some {
        fields_fault(ms)
    } else if order_fault(message_keys(ms)) is Some {
        order_fault(message_keys(ms))
    } else if tip != ms.last().id@ {
        Some("follow v2 tip must equal the last Mattermost message id"@)
    } else {
        None
    }
}

proof fn fields_fault_none(ms: Seq<Message>, i: int)
    requires
        fields_fault(ms) is None,
        0 <= i < ms.len(),
    ensures
        message_fields_fault(ms[i]) is None,
    decreases ms.len(),
{
    if i > 0 {
        fields_fault_none(ms.drop_first(), i - 1);
    }
}

pub fn validate_v2_message_record(tip: &str, messages: &Vec<Message>) -> (r: Result<
    (),
    &'static str,
>)
    ensures
        fault_of(r) == v2_record_fault(tip@, messages@),
{
    if messages.len() == 0 || messages.len() > WAIT_FOLLOW_COALESCE_MAX_MESSAGES {
        return Err("follow v2 messages must contain 1 to 32 entries");
    }
    let mut keys: Vec<(i64, &str)> = Vec::new();
    let mut i: usize = 0;
    proof {
        assert(messages@.skip(0) =~= messages@);
    }
    while i < messages.len()
        invariant
            i <= messages@.len(),
            1 <= messages@.len() <= 32,
            fields_fault(messages@) == fields_fault(messages@.skip(i as int)),
            pair_keys(keys@) == message_keys(messages@.take(i as int)),
        decreases messages.len() - i,
    {
        proof {
            assert(messages@.skip(i as int).drop_first() =~= messages@.skip(i + 1));
        }
        match validate_message_fields(&messages[i]) {
            Ok(_) => {},
            Err(e) => {
                return Err(e);
            },
        }
        let ghost keys0 = keys@;
        keys.push((messages[i].create_at, messages[i].id.as_str()));
        i += 1;
        proof {
            let m = messages@[i - 1];
            assert(messages@.take(i as int) =~= messages@.take(i - 1).push(m));
            assert(pair_keys(keys@) =~= pair_keys(keys0).push((m.create_at, m.id@)));
            assert(message_keys(messages@.take(i as int)) =~= message_keys(
                messages@.take(i - 1),
            ).push((m.create_at, m.id@)));
        }
    }
    proof {
        assert(messages@.take(i as int) =~= messages@);
        fields_fault_none(messages@, messages@.len() - 1);
    }
    match validate_strict_create_at_id_order(&keys) {
        Ok(_) => {},
        Err(e) => {
            return Err(e);
        },
    }
    let last = &messages[messages.len() - 1];
    if !is_mattermost_post_id(tip) || !str_eq(tip, last.id.as_str()) {
        return Err("follow v2 tip must equal the last Mattermost message id");
    }
    Ok(())
}

// ---------------------------------------------------------------------------
// First-version records
// ---------------------------------------------------------------------------

/// What a record of this kind reports.
pub open spec fn kind_mode(kind: WaitFollowEventKind) -> WaitFollowMode {
    match kind {
        WaitFollowEventKind::Armed { .. } => WaitFollowMode::Armed,
        WaitFollowEventKind::Backlog { .. } => WaitFollowMode::Backlog,
        WaitFollowEventKind::Live { .. } => WaitFollowMode::Live,
        WaitFollowEventKind::Deadman => WaitFollowMode::Deadman,
        WaitFollowEventKind::Canceled => WaitFollowMode::Canceled,
        WaitFollowEventKind::Replaced { .. } => WaitFollowMode::Replaced,
        WaitFollowEventKind::Failed { .. } => WaitFollowMode::Failed,
    }
}

/// The tip that a record names.
pub open spec fn kind_tip(kind: WaitFollowEventKind) -> Option<Seq<char>> {
    match kind {
        WaitFollowEventKind::Backlog { tip, .. } => Some(tip@),
        WaitFollowEventKind::Live { tip, .. } => Some(tip@),
        _ => None,
    }
}

/// The messages that a record carries.
pub open spec fn kind_messages(kind: WaitFollowEventKind) -> Seq<Message> {
    match kind {
        WaitFollowEventKind::Backlog { messages, .. } => messages@,
        WaitFollowEventKind::Live { messages, .. } => messages@,
        _ => Seq::empty(),
    }
}

/// Whether a record says that messages were left out.
pub open spec fn kind_truncated(kind: WaitFollowEventKind) -> bool {
    match kind {
        WaitFollowEventKind::Backlog { truncated, .. } => truncated,
        WaitFollowEventKind::Live { truncated, .. } => truncated,
        _ => false,
    }
}

/// A record after which a follow ends.
pub open spec fn terminal_mode(mode: WaitFollowMode) -> bool {
    mode is Deadman || mode is Canceled || mode is Replaced || mode is Failed
}

/// Why no message record is made.
pub open spec fn message_refusal(
    mode: WaitFollowMode,
    message: Message,
    truncated: bool,
) -> Option<Seq<char>> {
    if !post_id(message.id@) {
        Some("follow message id is not a Mattermost post id"@)
    } else if mode is Live && truncated {
        Some("live follow records cannot be truncated"@)
    } else if !(mode is Live) && !(mode is Backlog) {
        Some("message record requires backlog or live mode"@)
    } else {
        None
    }
}

pub open spec fn event_fault(event: WaitFollowEvent) -> Option<Seq<char>> {
    if wait_id_fault(event.wait_id@) is Some {
        wait_id_fault(event.wait_id@)
    } else {
        match event.kind {
            WaitFollowEventKind::Armed { replaced_wait_id } => match replaced_wait_id {
                Some(id) => wait_id_fault(id@),
                None => None,
            },
            WaitFollowEventKind::Backlog { tip, messages, .. } => message_record_fault(
                tip@,
                messages@[0],
            ),
            WaitFollowEventKind::Live { tip, truncated, messages } => if truncated {
                Some("live follow records cannot be truncated"@)
            } else {
                message_record_fault(tip@, messages@[0])
            },
            WaitFollowEventKind::Replaced { replaced_by_wait_id } => wait_id_fault(
                replaced_by_wait_id@,
            ),
            _ => None,
        }
    }
}

impl WaitFollowEvent {
    /// The record that a follow began.
    pub fn armed(wait_id: &str, replaced_wait_id: Option<String>) -> (r: Self)
        ensures
            r.wait_id@ == wait_id@,
            r.kind == (WaitFollowEventKind::Armed { replaced_wait_id }),
    {
        WaitFollowEvent {
            schema: WaitFollowSchema::V1,
            wait_id: wait_id.to_owned(),
            kind: WaitFollowEventKind::Armed { replaced_wait_id },
        }
    }

    /// The record of one message.
    pub fn message(
        wait_id: &str,
        mode: WaitFollowMode,
        message: Message,
        truncated: bool,
    ) -> (r: Result<Self, &'static str>)
        ensures
            match r {
                Ok(event) => {
                    &&& message_refusal(mode, message, truncated) is None
                    &&& event.wait_id@ == wait_id@
                    &&& kind_mode(event.kind) == mode
                    &&& kind_tip(event.kind) == Some(message.id@)
                    &&& kind_messages(event.kind) == seq![message]
                    &&& kind_truncated(event.kind) == truncated
                },
                Err(e) => message_refusal(mode, message, truncated) == Some(e@),
            },
    {
        if !is_mattermost_post_id(message.id.as_str()) {
            return Err("follow message id is not a Mattermost post id");
        }
        let tip = message.id.clone();
        let kind = match mode {
            WaitFollowMode::Backlog => WaitFollowEventKind::Backlog {
                tip,
                truncated,
                messages: [message],
            },
            WaitFollowMode::Live => {
                if truncated {
                    return Err("live follow records cannot be truncated");
                }
                WaitFollowEventKind::Live { tip, truncated: false, messages: [message] }
            },
            _ => {
                return Err("message record requires backlog or live mode");
            },
        };
        proof {
            assert(kind_messages(kind) =~= seq![message]);
        }
        Ok(WaitFollowEvent { schema: WaitFollowSchema::V1, wait_id: wait_id.to_owned(), kind })
    }

    /// The record that a follow ended.
    pub fn terminal(wait_id: &str, kind: WaitFollowEventKind) -> (r: Self)
        requires
            terminal_mode(kind_mode(kind)),
        ensures
            r.wait_id@ == wait_id@,
            r.kind == kind,
    {
        WaitFollowEvent { schema: WaitFollowSchema::V1, wait_id: wait_id.to_owned(), kind }
    }

    pub fn mode(&self) -> (r: WaitFollowMode)
        ensures
            r == kind_mode(self.kind),
    {
        match &self.kind {
            WaitFollowEventKind::Armed { .. } => WaitFollowMode::Armed,
            WaitFollowEventKind::Backlog { .. } => WaitFollowMode::Backlog,
            WaitFollowEventKind::Live { .. } => WaitFollowMode::Live,
            WaitFollowEventKind::Deadman => WaitFollowMode::Deadman,
            WaitFollowEventKind::Canceled => WaitFollowMode::Canceled,
            WaitFollowEventKind::Replaced { .. } => WaitFollowMode::Replaced,
            WaitFollowEventKind::Failed { .. } => WaitFollowMode::Failed,
        }
    }

    pub fn tip(&self) -> (r: Option<&str>)
        ensures
            match r {
                Some(t) => kind_tip(self.kind) == Some(t@),
                None => kind_tip(self.kind) is None,
            },
    {
        match &self.kind {
            WaitFollowEventKind::Backlog { tip, .. } => Some(tip.as_str()),
            WaitFollowEventKind::Live { tip, .. } => Some(tip.as_str()),
            _ => None,
        }
    }

    pub fn messages(&self) -> (r: &[Message])
        ensures
            r@ == kind_messages(self.kind),
    {
        match &self.kind {
            WaitFollowEventKind::Backlog { messages, .. } => messages.as_slice(),
            WaitFollowEventKind::Live { messages, .. } => messages.as_slice(),
            _ => {
                let none: &[Message] = &[];
                proof {
                    assert(none@ =~= Seq::<Message>::empty());
                }
                none
            },
        }
    }

    /// Accepts a record that consumers can rely on.
    pub fn validate(&self) -> (r: Result<(), &'static str>)
        ensures
            fault_of(r) == event_fault(*self),
    {
        match validate_wait_id(self.wait_id.as_str()) {
            Ok(_) => {},
            Err(e) => {
                return Err(e);
            },
        }
        match &self.kind {
            WaitFollowEventKind::Armed { replaced_wait_id } => match replaced_wait_id {
                Some(id) => validate_wait_id(id.as_str()),
                None => Ok(()),
            },
            WaitFollowEventKind::Backlog { tip, messages, .. } => validate_message_record(
                tip.as_str(),
                &messages[0],
            ),
            WaitFollowEventKind::Live { tip, truncated, messages } => {
                if *truncated {
                    return Err("live follow records cannot be truncated");
                }
                validate_message_record(tip.as_str(), &messages[0])
            },
            WaitFollowEventKind::Replaced { replaced_by_wait_id } => validate_wait_id(
                replaced_by_wait_id.as_str(),
            ),
            _ => Ok(()),
        }
    }
}

/// A valid message record carries one message, and its tip is the id of that
/// message.
pub proof fn valid_record_names_its_message(event: WaitFollowEvent)
    requires
        event_fault(event) is None,
        kind_mode(event.kind) is Backlog || kind_mode(event.kind) is Live,
    ensures
        kind_messages(event.kind).len() == 1,
        kind_tip(event.kind) == Some(kind_messages(event.kind)[0].id@),
        post_id(kind_messages(event.kind)[0].id@),
        kind_mode(event.kind) is Live ==> !kind_truncated(event.kind),
{
}

/// A message record that was made for a sound message under a sound wait id is
/// valid.
pub proof fn made_record_is_valid(event: WaitFollowEvent, message: Message, mode: WaitFollowMode)
    requires
        message_refusal(mode, message, kind_truncated(event.kind)) is None,
        message_fields_fault(message) is None,
        wait_id_fault(event.wait_id@) is None,
        kind_mode(event.kind) == mode,
        kind_tip(event.kind) == Some(message.id@),
        kind_messages(event.kind) == seq![message],
    ensures
        event_fault(event) is None,
{
    assert(kind_messages(event.kind)[0] == message);
}

// ---------------------------------------------------------------------------
// Second-version records
// ---------------------------------------------------------------------------

#[derive(Debug, Clone, Copy, PartialEq, Eq, Structural)]
pub enum WaitFollowV2Schema {
    V2,
}

/// A second-version record.
#[derive(Debug, Clone, PartialEq, Eq)]
pub struct WaitFollowV2Event {
    pub schema: WaitFollowV2Schema,
    pub wait_id: String,
    pub kind: WaitFollowV2EventKind,
}

#[derive(Debug, Clone, PartialEq, Eq)]
pub enum WaitFollowV2EventKind {
    Armed { replaced_wait_id: Option<String> },
    Backlog { tip: String, truncated: bool, messages: Vec<Message> },
    Live { tip: String, truncated: bool, messages: Vec<Message> },
    Deadman,
    Canceled,
    Replaced { replaced_by_wait_id: String },
    Failed { reason_code: WaitFollowFailureReason },
}

/// What a record of this kind reports.
pub open spec fn v2_mode(kind: WaitFollowV2EventKind) -> WaitFollowMode {
    match kind {
        WaitFollowV2EventKind::Armed { .. } => WaitFollowMode::Armed,
        WaitFollowV2EventKind::Backlog { .. } => WaitFollowMode::Backlog,
        WaitFollowV2EventKind::Live { .. } => WaitFollowMode::Live,
        WaitFollowV2EventKind::Deadman => WaitFollowMode::Deadman,
        WaitFollowV2EventKind::Canceled => WaitFollowMode::Canceled,
        WaitFollowV2EventKind::Replaced { .. } => WaitFollowMode::Replaced,
        WaitFollowV2EventKind::Failed { .. } => WaitFollowMode::Failed,
    }
}

/// The tip that a record names.
pub open spec fn v2_tip(kind: WaitFollowV2EventKind) -> Option<Seq<char>> {
    match kind {
        WaitFollowV2EventKind::Backlog { tip, .. } => Some(tip@),
        WaitFollowV2EventKind::Live { tip, .. } => Some(tip@),
        _ => None,
    }
}

/// The messages that a record carries.
pub open spec fn v2_messages(kind: WaitFollowV2EventKind) -> Seq<Message> {
    match kind {
        WaitFollowV2EventKind::Backlog { messages, .. } => messages@,
        WaitFollowV2EventKind::Live { messages, .. } => messages@,
        _ => Seq::empty(),
    }
}

/// Whether a record says that messages were left out.
pub open spec fn v2_truncated(kind: WaitFollowV2EventKind) -> bool {
    match kind {
        WaitFollowV2EventKind::Backlog { truncated, .. } => truncated,
        WaitFollowV2EventKind::Live { truncated, .. } => truncated,
        _ => false,
    }
}

pub open spec fn last_id(ms: Seq<Message>) -> Seq<char> {
    if ms.len() == 0 {
        Seq::empty()
    } else {
        ms.last().id@
    }
}

/// Why no record is made of these messages.
pub open spec fn messages_refusal(
    mode: WaitFollowMode,
    ms: Seq<Message>,
    truncated: bool,
) -> Option<Seq<char>> {
    if v2_record_fault(last_id(ms), ms) is Some {
        v2_record_fault(last_id(ms), ms)
    } else if !(mode is Live) && !(mode is Backlog) {
        Some("message record requires backlog or live mode"@)
    } else if truncated {
        Some("v2 follow records cannot be truncated"@)
    } else {
        None
    }
}

pub open spec fn v2_event_fault(event: WaitFollowV2Event) -> Option<Seq<char>> {
    if wait_id_fault(event.wait_id@) is Some {
        wait_id_fault(event.wait_id@)
    } else {
        match event.kind {
            WaitFollowV2EventKind::Armed { replaced_wait_id } => match replaced_wait_id {
                Some(id) => wait_id_fault(id@),
                None => None,
            },
            WaitFollowV2EventKind::Replaced { replaced_by_wait_id } => wait_id_fault(
                replaced_by_wait_id@,
            ),
            WaitFollowV2EventKind::Backlog { .. } | WaitFollowV2EventKind::Live { .. } => if v2_truncated(
                event.kind,
            ) {
                Some("v2 follow records cannot be truncated"@)
            } else {
                v2_record_fault(v2_tip(event.kind)->0, v2_messages(event.kind))
            },
            _ => None,
        }
    }
}

impl WaitFollowV2Event {
    /// The record that a follow began.
    pub fn armed(wait_id: &str, replaced_wait_id: Option<String>) -> (r: Self)
        ensures
            r.wait_id@ == wait_id@,
            r.kind == (WaitFollowV2EventKind::Armed { replaced_wait_id }),
    {
        WaitFollowV2Event {
            schema: WaitFollowV2Schema::V2,
            wait_id: wait_id.to_owned(),
            kind: WaitFollowV2EventKind::Armed { replaced_wait_id },
        }
    }

    /// The record of a run of messages.
    pub fn messages(
        wait_id: &str,
        mode: WaitFollowMode,
        messages: Vec<Message>,
        truncated: bool,
    ) -> (r: Result<Self, &'static str>)
        ensures
            match r {
                Ok(event) => {
                    &&& messages_refusal(mode, messages@, truncated) is None
                    &&& event.wait_id@ == wait_id@
                    &&& v2_mode(event.kind) == mode
                    &&& v2_tip(event.kind) == Some(messages@.last().id@)
                    &&& v2_messages(event.kind) == messages@
                    &&& !v2_truncated(event.kind)
                },
                Err(e) => messages_refusal(mode, messages@, truncated) == Some(e@),
            },
    {
        let tip = if messages.len() == 0 {
            String::new()
        } else {
            messages[messages.len() - 1].id.clone()
        };
        match validate_v2_message_record(tip.as_str(), &messages) {
            Ok(_) => {},
            Err(e) => {
                return Err(e);
            },
        }
        let kind = match mode {
            WaitFollowMode::Backlog => {
                if truncated {
                    return Err("v2 follow records cannot be truncated");
                }
                WaitFollowV2EventKind::Backlog { tip, truncated: false, messages }
            },
            WaitFollowMode::Live => {
                if truncated {
                    return Err("v2 follow records cannot be truncated");
                }
                WaitFollowV2EventKind::Live { tip, truncated: false, messages }
            },
            _ => {
                return Err("message record requires backlog or live mode");
            },
        };
        Ok(WaitFollowV2Event { schema: WaitFollowV2Schema::V2, wait_id: wait_id.to_owned(), kind })
    }

    /// The record that a follow ended.
    pub fn terminal(wait_id: &str, kind: WaitFollowV2EventKind) -> (r: Self)
        requires
            terminal_mode(v2_mode(kind)),
        ensures
            r.wait_id@ == wait_id@,
            r.kind == kind,
    {
        WaitFollowV2Event { schema: WaitFollowV2Schema::V2, wait_id: wait_id.to_owned(), kind }
    }

    pub fn mode(&self) -> (r: WaitFollowMode)
        ensures
            r == v2_mode(self.kind),
    {
        match &self.kind {
            WaitFollowV2EventKind::Armed { .. } => WaitFollowMode::Armed,
            WaitFollowV2EventKind::Backlog { .. } => WaitFollowMode::Backlog,
            WaitFollowV2EventKind::Live { .. } => WaitFollowMode::Live,
            WaitFollowV2EventKind::Deadman => WaitFollowMode::Deadman,
            WaitFollowV2EventKind::Canceled => WaitFollowMode::Canceled,
            WaitFollowV2EventKind::Replaced { .. } => WaitFollowMode::Replaced,
            WaitFollowV2EventKind::Failed { .. } => WaitFollowMode::Failed,
        }
    }

    pub fn tip(&self) -> (r: Option<&str>)
        ensures
            match r {
                Some(t) => v2_tip(self.kind) == Some(t@),
                None => v2_tip(self.kind) is None,
            },
    {
        match &self.kind {
            WaitFollowV2EventKind::Backlog { tip, .. } => Some(tip.as_str()),
            WaitFollowV2EventKind::Live { tip, .. } => Some(tip.as_str()),
            _ => None,
        }
    }

    pub fn messages_slice(&self) -> (r: &[Message])
        ensures
            r@ == v2_messages(self.kind),
    {
        match &self.kind {
            WaitFollowV2EventKind::Backlog { messages, .. } => messages.as_slice(),
            WaitFollowV2EventKind::Live { messages, .. } => messages.as_slice(),
            _ => {
                let none: &[Message] = &[];
                proof {
                    assert(none@ =~= Seq::<Message>::empty());
                }
                none
            },
        }
    }

    /// Accepts a record that consumers can rely on.
    pub fn validate(&self) -> (r: Result<(), &'static str>)
        ensures
            fault_of(r) == v2_event_fault(*self),
    {
        match validate_wait_id(self.wait_id.as_str()) {
            Ok(_) => {},
            Err(e) => {
                return Err(e);
            },
        }
        match &self.kind {
            WaitFollowV2EventKind::Armed { replaced_wait_id } => match replaced_wait_id {
                Some(id) => validate_wait_id(id.as_str()),
                None => Ok(()),
            },
            WaitFollowV2EventKind::Backlog { tip, truncated, messages } => {
                if *truncated {
                    return Err("v2 follow records cannot be truncated");
                }
                validate_v2_message_record(tip.as_str(), messages)
            },
            WaitFollowV2EventKind::Live { tip, truncated, messages } => {
                if *truncated {
                    return Err("v2 follow records cannot be truncated");
                }
                validate_v2_message_record(tip.as_str(), messages)
            },
            WaitFollowV2EventKind::Replaced { replaced_by_wait_id } => validate_wait_id(
                replaced_by_wait_id.as_str(),
            ),
            _ => Ok(()),
        }
    }
}

/// A valid second-version message record carries 1 to 32 messages in strict
/// order without a repeated id, is not truncated, and names the last message.
pub proof fn valid_v2_record_is_ordered(event: WaitFollowV2Event)
    requires
        v2_event_fault(event) is None,
        v2_mode(event.kind) is Backlog || v2_mode(event.kind) is Live,
    ensures
        1 <= v2_messages(event.kind).len() <= 32,
        strictly_ordered(message_keys(v2_messages(event.kind))),
        v2_tip(event.kind) == Some(v2_messages(event.kind).last().id@),
        !v2_truncated(event.kind),
{
    order_fault_iff(message_keys(v2_messages(event.kind)));
}

/// A second-version record that was made under a sound wait id is valid.
pub proof fn made_v2_record_is_valid(
    event: WaitFollowV2Event,
    mode: WaitFollowMode,
    ms: Seq<Message>,
)
    requires
        messages_refusal(mode, ms, false) is None,
        wait_id_fault(event.wait_id@) is None,
        v2_mode(event.kind) == mode,
        v2_tip(event.kind) == Some(ms.last().id@),
        v2_messages(event.kind) == ms,
        !v2_truncated(event.kind),
    ensures
        v2_event_fault(event) is None,
{
}

// ---------------------------------------------------------------------------
// Results
// ---------------------------------------------------------------------------

/// How a follow ended.
#[derive(Debug, PartialEq, Eq)]
pub struct WaitFollowResult {
    pub wait_id: String,
    pub kind: WaitFollowResultKind,
}

#[derive(Debug, PartialEq, Eq)]
pub enum WaitFollowResultKind {
    Deadman { tip: Option<String> },
    Replaced { replaced_by_wait_id: String, tip: Option<String> },
}

impl Clone for WaitFollowResultKind {
    fn clone(&self) -> (r: Self)
        ensures
            r == *self,
    {
        match self {
            WaitFollowResultKind::Deadman { tip } => WaitFollowResultKind::Deadman {
                tip: tip.clone(),
            },
            WaitFollowResultKind::Replaced { replaced_by_wait_id, tip } =>
                WaitFollowResultKind::Replaced {
                    replaced_by_wait_id: replaced_by_wait_id.clone(),
                    tip: tip.clone(),
                },
        }
    }
}

impl Clone for WaitFollowResult {
    fn clone(&self) -> (r: Self)
        ensures
            r == *self,
    {
        WaitFollowResult { wait_id: self.wait_id.clone(), kind: self.kind.clone() }
    }
}

pub open spec fn result_fault(wait_id: Seq<char>, kind: WaitFollowResultKind) -> Option<Seq<char>> {
    if wait_id_fault(wait_id) is Some {
        wait_id_fault(wait_id)
    } else {
        match kind {
            WaitFollowResultKind::Deadman { tip } => optional_tip_fault(tip),
            WaitFollowResultKind::Replaced { replaced_by_wait_id, tip } => if wait_id_fault(
                replaced_by_wait_id@,
            ) is Some {
                wait_id_fault(replaced_by_wait_id@)
            } else {
                optional_tip_fault(tip)
            },
        }
    }
}

impl WaitFollowResult {
    pub fn mode(&self) -> (r: WaitFollowMode)
        ensures
            r == (match self.kind {
                WaitFollowResultKind::Deadman { .. } => WaitFollowMode::Deadman,
                WaitFollowResultKind::Replaced { .. } => WaitFollowMode::Replaced,
            }),
    {
        match &self.kind {
            WaitFollowResultKind::Deadman { .. } => WaitFollowMode::Deadman,
            WaitFollowResultKind::Replaced { .. } => WaitFollowMode::Replaced,
        }
    }

    /// Accepts a result that consumers can rely on.
    pub fn validate(&self) -> (r: Result<(), &'static str>)
        ensures
            fault_of(r) == result_fault(self.wait_id@, self.kind),
    {
        match validate_wait_id(self.wait_id.as_str()) {
            Ok(_) => {},
            Err(e) => {
                return Err(e);
            },
        }
        match &self.kind {
            WaitFollowResultKind::Deadman { tip } => validate_optional_tip(tip),
            WaitFollowResultKind::Replaced { replaced_by_wait_id, tip } => {
                match validate_wait_id(replaced_by_wait_id.as_str()) {
                    Ok(_) => {},
                    Err(e) => {
                        return Err(e);
                    },
                }
                validate_optional_tip(tip)
            },
        }
    }
}

/// The id of a post is 26 small ASCII letters and digits.
pub proof fn post_ids_are_letters_and_digits(s: Seq<char>)
    ensures
        post_id(s) <==> s.len() == 26 && forall|i: int|
            0 <= i < 26 ==> ('a' <= #[trigger] s[i] && s[i] <= 'z') || ('0' <= s[i] && s[i] <= '9'),
{
}

/// The id of a wait has one to 64 bytes.
pub proof fn wait_ids_are_short(id: Seq<char>)
    ensures
        wait_id_fault(id) is None <==> 0 < id.len() && encode_utf8(id).len() <= 64,
{
}

/// A record is of the mode that it is made as.
pub proof fn records_are_of_their_kind(kind: WaitFollowEventKind)
    ensures
        kind_mode(kind) is Armed <==> kind is Armed,
        kind_mode(kind) is Backlog <==> kind is Backlog,
        kind_mode(kind) is Live <==> kind is Live,
        kind_mode(kind) is Deadman <==> kind is Deadman,
        kind_mode(kind) is Canceled <==> kind is Canceled,
        kind_mode(kind) is Replaced <==> kind is Replaced,
        kind_mode(kind) is Failed <==> kind is Failed,
{
}

/// A record is of the mode that it is made as.
pub proof fn v2_records_are_of_their_kind(kind: WaitFollowV2EventKind)
    ensures
        v2_mode(kind) is Armed <==> kind is Armed,
        v2_mode(kind) is Backlog <==> kind is Backlog,
        v2_mode(kind) is Live <==> kind is Live,
        v2_mode(kind) is Deadman <==> kind is Deadman,
        v2_mode(kind) is Canceled <==> kind is Canceled,
        v2_mode(kind) is Replaced <==> kind is Replaced,
        v2_mode(kind) is Failed <==> kind is Failed,
{
}

/// What a record of messages carries is what its kind carries; no other record carries
/// anything.
pub proof fn records_carry_messages(kind: WaitFollowEventKind)
    ensures
        match kind {
            WaitFollowEventKind::Backlog { tip, truncated, messages } => kind_tip(kind) == Some(tip@)
                && kind_truncated(kind) == truncated && kind_messages(kind) == messages@,
            WaitFollowEventKind::Live { tip, truncated, messages } => kind_tip(kind) == Some(tip@)
                && kind_truncated(kind) == truncated && kind_messages(kind) == messages@,
            _ => kind_tip(kind) is None && !kind_truncated(kind) && kind_messages(kind).len() == 0,
        },
{
}

/// What a record of messages carries is what its kind carries; no other record carries
/// anything.
pub proof fn v2_records_carry_messages(kind: WaitFollowV2EventKind)
    ensures
        match kind {
            WaitFollowV2EventKind::Backlog { tip, truncated, messages } => v2_tip(kind) == Some(tip@)
                && v2_truncated(kind) == truncated && v2_messages(kind) == messages@,
            WaitFollowV2EventKind::Live { tip, truncated, messages } => v2_tip(kind) == Some(tip@)
                && v2_truncated(kind) == truncated && v2_messages(kind) == messages@,
            _ => v2_tip(kind) is None && !v2_truncated(kind) && v2_messages(kind).len() == 0,
        },
{
}

/// A message becomes a record if and only if it has the id of a post and the record is of
/// backlog, or live and whole.
pub proof fn messages_become_records(mode: WaitFollowMode, message: Message, truncated: bool)
    ensures
        message_refusal(mode, message, truncated) is None <==> post_id(message.id@) && (
        mode is Backlog || (mode is Live && !truncated)),
{
}

/// A message is complete where it has the id of a post, an author with a name and a
/// thread, and no time before the epoch.
pub proof fn complete_messages(m: Message)
    ensures
        message_fields_fault(m) is None <==> post_id(m.id@) && m.user_id@.len() > 0
            && m.username@.len() > 0 && m.root_id@.len() > 0 && m.create_at >= 0,
{
}

/// A record is valid if and only if its ids are short and, where it carries a message, the
/// message is complete, the tip is its id, and a live record is whole.
pub proof fn valid_records(event: WaitFollowEvent)
    ensures
        event_fault(event) is None <==> (0 < event.wait_id@.len() && encode_utf8(
            event.wait_id@,
        ).len() <= 64 && match event.kind {
            WaitFollowEventKind::Armed { replaced_wait_id } => replaced_wait_id is Some ==> 0
                < replaced_wait_id->0@.len() && encode_utf8(replaced_wait_id->0@).len() <= 64,
            WaitFollowEventKind::Backlog { tip, messages, .. } => {
                let m = messages@[0];
                post_id(m.id@) && m.user_id@.len() > 0 && m.username@.len() > 0 && m.root_id@.len()
                    > 0 && m.create_at >= 0 && tip@ == m.id@
            },
            WaitFollowEventKind::Live { tip, truncated, messages } => {
                let m = messages@[0];
                post_id(m.id@) && m.user_id@.len() > 0 && m.username@.len() > 0 && m.root_id@.len()
                    > 0 && m.create_at >= 0 && tip@ == m.id@ && !truncated
            },
            WaitFollowEventKind::Replaced { replaced_by_wait_id } => 0 < replaced_by_wait_id@.len()
                && encode_utf8(replaced_by_wait_id@).len() <= 64,
            _ => true,
        }),
{
}

/// Messages are in order where each is older than the next ones, or of the same moment
/// with an id that comes first, and no id is there twice.
pub proof fn ordered_messages(ms: Seq<Message>)
    ensures
        order_fault(message_keys(ms)) is None <==> (forall|i: int, j: int|
            #![trigger ms[i], ms[j]]
            0 <= i < j < ms.len() ==> ms[i].id@ != ms[j].id@ && (ms[i].create_at < ms[j].create_at
                || (ms[i].create_at == ms[j].create_at && text_before(ms[i].id@, ms[j].id@)))),
{
    let keys = message_keys(ms);
    order_fault_iff(keys);
    assert forall|i: int| 0 <= i < ms.len() implies #[trigger] keys[i] == (ms[i].create_at, ms[i].id@) by {}
    if strictly_ordered(keys) {
        assert forall|i: int, j: int|
            #![trigger ms[i], ms[j]]
            0 <= i < j < ms.len() implies ms[i].id@ != ms[j].id@ && (ms[i].create_at
            < ms[j].create_at || (ms[i].create_at == ms[j].create_at && text_before(
            ms[i].id@,
            ms[j].id@,
        ))) by {
            assert(key_before(keys[i], keys[j]));
            assert(keys[i].1 != keys[j].1);
        }
    }
    if forall|i: int, j: int|
        #![trigger ms[i], ms[j]]
        0 <= i < j < ms.len() ==> ms[i].id@ != ms[j].id@ && (ms[i].create_at < ms[j].create_at || (
        ms[i].create_at == ms[j].create_at && text_before(ms[i].id@, ms[j].id@))) {
        assert forall|i: int, j: int|
            #![trigger keys[i], keys[j]]
            0 <= i < j < keys.len() implies key_before(keys[i], keys[j]) && keys[i].1 != keys[j].1 by {
            assert(ms[i].id@ != ms[j].id@);
        }
        assert(strictly_ordered(keys));
    }
}

proof fn complete_messages_have_no_fault(ms: Seq<Message>)
    ensures
        fields_fault(ms) is None <==> forall|i: int|
            0 <= i < ms.len() ==> message_fields_fault(#[trigger] ms[i]) is None,
    decreases ms.len(),
{
    if ms.len() > 0 {
        let rest = ms.drop_first();
        complete_messages_have_no_fault(rest);
        if fields_fault(ms) is None {
            assert forall|i: int| 0 <= i < ms.len() implies message_fields_fault(
                #[trigger] ms[i],
            ) is None by {
                if i > 0 {
                    assert(rest[i - 1] == ms[i]);
                }
            }
        }
        if forall|i: int| 0 <= i < ms.len() ==> message_fields_fault(#[trigger] ms[i]) is None {
            assert forall|i: int| 0 <= i < rest.len() implies message_fields_fault(
                #[trigger] rest[i],
            ) is None by {
                assert(rest[i] == ms[i + 1]);
            }
            assert(message_fields_fault(ms[0]) is None);
        }
    }
}

/// Messages become a record together if and only if there are one to 32 of them, complete
/// and in order, the record is of backlog or live, and nothing was left out.
pub proof fn messages_become_a_record_together(
    mode: WaitFollowMode,
    ms: Seq<Message>,
    truncated: bool,
)
    ensures
        messages_refusal(mode, ms, truncated) is None <==> {
            &&& 1 <= ms.len() <= 32
            &&& forall|i: int|
                0 <= i < ms.len() ==> post_id((#[trigger] ms[i]).id@) && ms[i].user_id@.len() > 0
                    && ms[i].username@.len() > 0 && ms[i].root_id@.len() > 0 && ms[i].create_at >= 0
            &&& forall|i: int, j: int|
                #![trigger ms[i], ms[j]]
                0 <= i < j < ms.len() ==> ms[i].id@ != ms[j].id@ && (ms[i].create_at
                    < ms[j].create_at || (ms[i].create_at == ms[j].create_at && text_before(
                    ms[i].id@,
                    ms[j].id@,
                )))
            &&& mode is Live || mode is Backlog
            &&& !truncated
        },
{
    complete_messages_have_no_fault(ms);
    ordered_messages(ms);
    assert forall|i: int| 0 <= i < ms.len() implies (message_fields_fault(#[trigger] ms[i]) is None
        <==> post_id(ms[i].id@) && ms[i].user_id@.len() > 0 && ms[i].username@.len() > 0
        && ms[i].root_id@.len() > 0 && ms[i].create_at >= 0) by {}
}

/// A record of several messages is valid if and only if its ids are short and, where it
/// carries messages, they could have become a record together and the tip is the last of
/// their ids.
pub proof fn valid_v2_records(event: WaitFollowV2Event)
    ensures
        v2_event_fault(event) is None <==> (0 < event.wait_id@.len() && encode_utf8(
            event.wait_id@,
        ).len() <= 64 && match event.kind {
            WaitFollowV2EventKind::Armed { replaced_wait_id } => replaced_wait_id is Some ==> 0
                < replaced_wait_id->0@.len() && encode_utf8(replaced_wait_id->0@).len() <= 64,
            WaitFollowV2EventKind::Backlog { tip, truncated, messages } => messages_refusal(
                WaitFollowMode::Backlog,
                messages@,
                truncated,
            ) is None && tip@ == messages@.last().id@,
            WaitFollowV2EventKind::Live { tip, truncated, messages } => messages_refusal(
                WaitFollowMode::Live,
                messages@,
                truncated,
            ) is None && tip@ == messages@.last().id@,
            WaitFollowV2EventKind::Replaced { replaced_by_wait_id } => 0
                < replaced_by_wait_id@.len() && encode_utf8(replaced_by_wait_id@).len() <= 64,
            _ => true,
        }),
{
}

/// A result is valid if and only if its ids are short and its tip, where it has one, is the
/// id of a post.
pub proof fn valid_results(wait_id: Seq<char>, kind: WaitFollowResultKind)
    ensures
        result_fault(wait_id, kind) is None <==> (0 < wait_id.len() && encode_utf8(wait_id).len()
            <= 64 && match kind {
            WaitFollowResultKind::Deadman { tip } => tip is Some ==> post_id(tip->0@),
            WaitFollowResultKind::Replaced { replaced_by_wait_id, tip } => 0
                < replaced_by_wait_id@.len() && encode_utf8(replaced_by_wait_id@).len() <= 64 && (
            tip is Some ==> post_id(tip->0@)),
        }),
{
}

/// What is said of a record that is at fault.
pub proof fn records_are_refused_with_a_reason(id: Seq<char>, tip: String, m: Message)
    ensures
        id.len() == 0 || encode_utf8(id).len() > 64 ==> wait_id_fault(id) == Some(
            "follow wait id must contain 1 to 64 bytes"@,
        ),
        !post_id(tip@) ==> optional_tip_fault(Some(tip)) == Some(
            "follow tip is not a Mattermost post id"@,
        ),
        !post_id(m.id@) ==> message_record_fault(tip@, m) == Some(
            "follow message id is not a Mattermost post id"@,
        ),
        post_id(m.id@) && (m.user_id@.len() == 0 || m.username@.len() == 0 || m.root_id@.len() == 0
            || m.create_at < 0) ==> message_record_fault(tip@, m) == Some(
            "follow message violates the event document"@,
        ),
        message_fields_fault(m) is None && tip@ != m.id@ ==> message_record_fault(tip@, m) == Some(
            "follow tip must equal its sole Mattermost message id"@,
        ),
{
}

/// What is said of messages that are told together and are at fault: how many they are, the first
/// whose fields are at fault, their ids, their order, or which of them is the last.
pub proof fn batches_are_refused_with_a_reason(tip: Seq<char>, ms: Seq<Message>, m: Message)
    ensures
        ms.len() == 0 || ms.len() > 32 ==> v2_record_fault(tip, ms) == Some(
            "follow v2 messages must contain 1 to 32 entries"@,
        ),
        0 < ms.len() <= 32 && fields_fault(ms) is Some ==> v2_record_fault(tip, ms)
            == fields_fault(ms),
        0 < ms.len() <= 32 && fields_fault(ms) is None && order_fault(message_keys(ms)) is None
            && tip != ms.last().id@ ==> v2_record_fault(tip, ms) == Some(
            "follow v2 tip must equal the last Mattermost message id"@,
        ),
        message_fields_fault(m) is Some ==> fields_fault(seq![m] + ms) == message_fields_fault(m),
        message_fields_fault(m) is None ==> fields_fault(seq![m] + ms) == fields_fault(ms),
        order_fault(message_keys(ms)) is None && (exists|i: int|
            0 <= i < ms.len() && (#[trigger] ms[i]).id@ == m.id@) ==> order_fault(
            message_keys(ms.push(m)),
        ) == Some("coalesced messages must have unique ids"@),
        order_fault(message_keys(ms)) is None && ms.len() > 0 && (forall|i: int|
            0 <= i < ms.len() ==> (#[trigger] ms[i]).id@ != m.id@) && m.create_at
            < ms.last().create_at ==> order_fault(message_keys(ms.push(m))) == Some(
            "coalesced messages must be in strict (create_at, id) order"@,
        ),
{
    assert((seq![m] + ms).drop_first() =~= ms);
    let keys = message_keys(ms);
    let all = message_keys(ms.push(m));
    assert(all.drop_last() =~= keys);
    assert(all.last() == (m.create_at, m.id@));
    if exists|i: int| 0 <= i < ms.len() && (#[trigger] ms[i]).id@ == m.id@ {
        let i = choose|i: int| 0 <= i < ms.len() && (#[trigger] ms[i]).id@ == m.id@;
        assert(all[i].1 == all.last().1);
    }
    if forall|i: int| 0 <= i < ms.len() ==> (#[trigger] ms[i]).id@ != m.id@ {
        assert forall|i: int| 0 <= i < all.len() - 1 implies (#[trigger] all[i]).1
            != all.last().1 by {
            assert(all[i].1 == ms[i].id@);
        }
        if ms.len() > 0 {
            assert(all[all.len() - 2] == (ms.last().create_at, ms.last().id@));
        }
    }
}

/// What is said of an event that is at fault.
pub proof fn events_are_refused_with_a_reason(event: WaitFollowEvent, v2: WaitFollowV2Event)
    ensures
        wait_id_fault(event.wait_id@) is Some ==> event_fault(event) == wait_id_fault(
            event.wait_id@,
        ),
        wait_id_fault(event.wait_id@) is None && event.kind is Live && event.kind->Live_truncated
            ==> event_fault(event) == Some("live follow records cannot be truncated"@),
        wait_id_fault(event.wait_id@) is None && event.kind is Live && !event.kind->Live_truncated
            ==> event_fault(event) == message_record_fault(
            event.kind->Live_tip@,
            event.kind->Live_messages@[0],
        ),
        wait_id_fault(event.wait_id@) is None && event.kind is Backlog ==> event_fault(event)
            == message_record_fault(event.kind->Backlog_tip@, event.kind->Backlog_messages@[0]),
        wait_id_fault(event.wait_id@) is None && event.kind is Replaced ==> event_fault(event)
            == wait_id_fault(event.kind->Replaced_replaced_by_wait_id@),
        wait_id_fault(v2.wait_id@) is Some ==> v2_event_fault(v2) == wait_id_fault(v2.wait_id@),
        wait_id_fault(v2.wait_id@) is None && (v2.kind is Live || v2.kind is Backlog)
            && v2_truncated(v2.kind) ==> v2_event_fault(v2) == Some(
            "v2 follow records cannot be truncated"@,
        ),
        wait_id_fault(v2.wait_id@) is None && v2.kind is Replaced ==> v2_event_fault(v2)
            == wait_id_fault(v2.kind->Replaced_replaced_by_wait_id@),
{
}

/// Records that a wait begins with and those that end it are made of what they are given.
pub proof fn first_and_last_records(
    wait_id: &str,
    replaced: Option<String>,
    armed: WaitFollowEvent,
    kind: WaitFollowEventKind,
    last: WaitFollowEvent,
    coalesce_ms: u64,
    r: Result<(), String>,
)
    requires
        call_ensures(WaitFollowEvent::armed, (wait_id, replaced), armed),
        kind is Deadman || kind is Canceled || kind is Replaced || kind is Failed,
        call_ensures(WaitFollowEvent::terminal, (wait_id, kind), last),
        call_ensures(validate_coalesce_ms, (coalesce_ms,), r),
    ensures
        armed.wait_id@ == wait_id@ && armed.kind == (WaitFollowEventKind::Armed {
            replaced_wait_id: replaced,
        }),
        last.wait_id@ == wait_id@ && last.kind == kind,
        call_requires(WaitFollowEvent::terminal, (wait_id, kind)),
        r is Ok <==> 1 <= coalesce_ms <= 10_000,
        r is Err ==> r->Err_0@ == "coalesce_ms must be 1..=10000"@,
{
}

/// What is said of a message that no record can be made of.
pub proof fn messages_without_a_record_are_refused_with_a_reason(
    mode: WaitFollowMode,
    m: Message,
    ms: Seq<Message>,
    truncated: bool,
)
    ensures
        !post_id(m.id@) ==> message_refusal(mode, m, truncated) == Some(
            "follow message id is not a Mattermost post id"@,
        ),
        post_id(m.id@) && mode is Live && truncated ==> message_refusal(mode, m, truncated) == Some(
            "live follow records cannot be truncated"@,
        ),
        post_id(m.id@) && !(mode is Live) && !(mode is Backlog) ==> message_refusal(
            mode,
            m,
            truncated,
        ) == Some("message record requires backlog or live mode"@),
        v2_record_fault(last_id(ms), ms) is Some ==> messages_refusal(mode, ms, truncated)
            == v2_record_fault(last_id(ms), ms),
        v2_record_fault(last_id(ms), ms) is None && !(mode is Live) && !(mode is Backlog)
            ==> messages_refusal(mode, ms, truncated) == Some(
            "message record requires backlog or live mode"@,
        ),
        v2_record_fault(last_id(ms), ms) is None && (mode is Live || mode is Backlog) && truncated
            ==> messages_refusal(mode, ms, truncated) == Some(
            "v2 follow records cannot be truncated"@,
        ),
{
}

} // verus!
