//! Waiting on several channels at once: selectors, limits, the first match.
use vstd::prelude::*;
use vstd::string::*;
use vstd::utf8::encode_utf8;

use crate::error::CoreError;
use crate::text::{byte_len, concat2, concat3, decimal_text, drop_leading, lowered, split_at_first,
    split_once, str_eq, text_before, text_before_irreflexive, text_before_total,
    text_before_transitive, text_lt, texts, to_ascii_lower, trim, trim_start_char, trimmed,
    u64_text, white_space};
use crate::types::Message;
use crate::wait_inbox::{refusal_of, refused};

verus! {

pub const WAIT_CHANNELS_V1_METHOD: &'static str = "wait_channels_v1";

/// Cap on teams, channels, post ids and filters, in UTF-8 bytes.
pub const WAIT_CHANNELS_UTF8_MAX_BYTES: usize = 256;

pub const WAIT_CHANNELS_MIN_ARMS: usize = 2;

pub const WAIT_CHANNELS_MAX_ARMS: usize = 8;

/// A channel with its team.
#[derive(Debug, PartialEq, Eq, Hash)]
pub struct WaitChannelSelector {
    pub team: String,
    pub channel: String,
}

impl Clone for WaitChannelSelector {
    fn clone(&self) -> (r: Self)
        ensures
            r == *self,
    {
        WaitChannelSelector { team: self.team.clone(), channel: self.channel.clone() }
    }
}

/// The key by which two requested channels are the same.
pub open spec fn requested_key(team: Seq<char>, channel: Seq<char>) -> Seq<char> {
    lowered(team) + "/"@ + lowered(channel)
}

impl WaitChannelSelector {
    pub fn new(team: &str, channel: &str) -> (r: Self)
        ensures
            r.team@ == team@,
            r.channel@ == channel@,
    {
        WaitChannelSelector { team: team.to_owned(), channel: channel.to_owned() }
    }

    pub fn qualified(&self) -> (r: String)
        ensures
            r@ == self.team@ + "/"@ + self.channel@,
    {
        concat3(self.team.as_str(), "/", self.channel.as_str())
    }

    /// The key by which duplicates among the requested channels are found.
    pub fn requested_key(&self) -> (r: String)
        ensures
            r@ == requested_key(self.team@, self.channel@),
    {
        concat3(
            to_ascii_lower(self.team.as_str()).as_str(),
            "/",
            to_ascii_lower(self.channel.as_str()).as_str(),
        )
    }
}

/// One of the channels of a wait, with the post after which it starts.
#[derive(Debug, Clone, PartialEq, Eq)]
pub struct WaitChannelArm {
    pub team: String,
    pub channel: String,
    pub after: Option<String>,
}

impl WaitChannelArm {
    pub fn selector(&self) -> (r: WaitChannelSelector)
        ensures
            r.team@ == self.team@,
            r.channel@ == self.channel@,
    {
        WaitChannelSelector::new(self.team.as_str(), self.channel.as_str())
    }
}

/// Request to wait on several channels.
#[derive(Debug, Clone, PartialEq, Eq)]
pub struct WaitChannelsParams {
    pub arms: Vec<WaitChannelArm>,
    pub timeout_secs: u64,
    pub contains: Option<String>,
    pub pattern: Option<String>,
}

/// The first match of a wait.
#[derive(Debug, Clone, PartialEq, Eq)]
pub struct WaitChannelsResult {
    pub mode: String,
    pub channels: Vec<WaitChannelSelector>,
    pub matched_channel: WaitChannelSelector,
    pub messages: Vec<Message>,
}

impl WaitChannelsResult {
    pub const MODE_FAN_IN: &'static str = "fan_in";

    pub fn match_one(
        channels: Vec<WaitChannelSelector>,
        matched_channel: WaitChannelSelector,
        message: Message,
    ) -> (r: Self)
        ensures
            r.mode@ == Self::MODE_FAN_IN@,
            r.channels == channels,
            r.matched_channel == matched_channel,
            r.messages@ == seq![message],
    {
        let mut messages: Vec<Message> = Vec::new();
        messages.push(message);
        proof {
            assert(messages@ =~= seq![message]);
        }
        WaitChannelsResult {
            mode: Self::MODE_FAN_IN.to_owned(),
            channels,
            matched_channel,
            messages,
        }
    }
}

// ---------------------------------------------------------------------------
// Checks
// ---------------------------------------------------------------------------

/// The error of a refused input.
pub fn input(message: String) -> (r: CoreError)
    ensures
        refused(r) == Some(message@),
{
    CoreError::WaitFilterInvalid(message)
}

pub open spec fn segment_fault(name: Seq<char>, value: Seq<char>) -> Option<Seq<char>> {
    if value.len() == 0 {
        Some("wait "@ + name + " must be non-empty"@)
    } else if encode_utf8(value).len() > WAIT_CHANNELS_UTF8_MAX_BYTES {
        Some("wait "@ + name + " exceeds 256 UTF-8 bytes"@)
    } else {
        None
    }
}

pub fn check_segment(name: &str, value: &str) -> (r: Result<(), CoreError>)
    ensures
        refusal_of(r) == segment_fault(name@, value@),
        r is Err ==> refusal_of(r) is Some,
{
    if value.is_empty() {
        return Err(input(concat3("wait ", name, " must be non-empty")));
    }
    if byte_len(value) > WAIT_CHANNELS_UTF8_MAX_BYTES {
        return Err(input(concat3("wait ", name, " exceeds 256 UTF-8 bytes")));
    }
    Ok(())
}

pub open spec fn filter_fault(name: Seq<char>, value: Option<String>) -> Option<Seq<char>> {
    match value {
        None => None,
        Some(s) => if s@.len() == 0 {
            Some("empty --"@ + name + " is refused (not match-all)"@)
        } else {
            segment_fault(name, s@)
        },
    }
}

pub fn check_optional_filter(name: &str, value: &Option<String>) -> (r: Result<(), CoreError>)
    ensures
        refusal_of(r) == filter_fault(name@, *value),
        r is Err ==> refusal_of(r) is Some,
{
    match value {
        None => Ok(()),
        Some(s) => {
            if s.as_str().is_empty() {
                Err(input(concat3("empty --", name, " is refused (not match-all)")))
            } else {
                check_segment(name, s.as_str())
            }
        },
    }
}

/// The keys of requested channels.
pub open spec fn arm_keys(arms: Seq<WaitChannelArm>) -> Seq<Seq<char>> {
    arms.map_values(|a: WaitChannelArm| requested_key(a.team@, a.channel@))
}

/// What is wrong with one of the channels in itself.
pub open spec fn arm_fault(arm: WaitChannelArm) -> Option<Seq<char>> {
    if segment_fault("team"@, arm.team@) is Some {
        segment_fault("team"@, arm.team@)
    } else if segment_fault("channel"@, arm.channel@) is Some {
        segment_fault("channel"@, arm.channel@)
    } else {
        match arm.after {
            Some(after) => segment_fault("after"@, after@),
            None => None,
        }
    }
}

/// What is wrong with the first channel that is faulty or repeats another.
pub open spec fn arms_fault(arms: Seq<WaitChannelArm>) -> Option<Seq<char>>
    decreases arms.len(),
{
    if arms.len() == 0 {
        None
    } else if arms_fault(arms.drop_last()) is Some {
        arms_fault(arms.drop_last())
    } else if arm_fault(arms.last()) is Some {
        arm_fault(arms.last())
    } else if arm_keys(arms.drop_last()).contains(
        requested_key(arms.last().team@, arms.last().channel@),
    ) {
        Some("duplicate wait arm "@ + (arms.last().team@ + "/"@ + arms.last().channel@))
    } else {
        None
    }
}

pub open spec fn wait_channels_fault(p: WaitChannelsParams) -> Option<Seq<char>> {
    if p.timeout_secs == 0 {
        Some("wait timeout must be greater than zero"@)
    } else if !(WAIT_CHANNELS_MIN_ARMS <= p.arms@.len() <= WAIT_CHANNELS_MAX_ARMS) {
        Some("wait_channels_v1 requires 2\u{2013}8 arms, got "@ + decimal_text(p.arms@.len()))
    } else if arms_fault(p.arms@) is Some {
        arms_fault(p.arms@)
    } else if filter_fault("contains"@, p.contains) is Some {
        filter_fault("contains"@, p.contains)
    } else {
        filter_fault("pattern"@, p.pattern)
    }
}

proof fn arms_fault_extends(arms: Seq<WaitChannelArm>, i: int)
    requires
        0 <= i < arms.len(),
        arms_fault(arms.take(i + 1)) is Some,
    ensures
        arms_fault(arms) == arms_fault(arms.take(i + 1)),
    decreases arms.len(),
{
    if i + 1 == arms.len() {
        assert(arms.take(i + 1) =~= arms);
    } else {
        assert(arms.drop_last().take(i + 1) =~= arms.take(i + 1));
        arms_fault_extends(arms.drop_last(), i);
    }
}

fn check_arm(arm: &WaitChannelArm) -> (r: Result<(), CoreError>)
    ensures
        refusal_of(r) == arm_fault(*arm),
        r is Err ==> refusal_of(r) is Some,
{
    match check_segment("team", arm.team.as_str()) {
        Ok(_) => {},
        Err(e) => {
            return Err(e);
        },
    }
    match check_segment("channel", arm.channel.as_str()) {
        Ok(_) => {},
        Err(e) => {
            return Err(e);
        },
    }
    match &arm.after {
        Some(after) => check_segment("after", after.as_str()),
        None => Ok(()),
    }
}

fn check_arms(arms: &Vec<WaitChannelArm>) -> (r: Result<(), CoreError>)
    ensures
        refusal_of(r) == arms_fault(arms@),
        r is Err ==> refusal_of(r) is Some,
{
    let mut seen: Vec<String> = Vec::new();
    let mut i: usize = 0;
    proof {
        assert(arms@.take(0) =~= Seq::empty());
    }
    while i < arms.len()
        invariant
            i <= arms@.len(),
            arms_fault(arms@.take(i as int)) is None,
            texts(seen@) == arm_keys(arms@.take(i as int)),
        decreases arms.len() - i,
    {
        let ghost front = arms@.take(i + 1);
        proof {
            assert(front.drop_last() =~= arms@.take(i as int));
            assert(front.last() == arms@[i as int]);
        }
        match check_arm(&arms[i]) {
            Ok(_) => {},
            Err(e) => {
                proof {
                    arms_fault_extends(arms@, i as int);
                }
                return Err(e);
            },
        }
        let selector = arms[i].selector();
        let key = selector.requested_key();
        let mut j: usize = 0;
        while j < seen.len()
            invariant
                j <= seen@.len(),
                i < arms@.len(),
                front == arms@.take(i + 1),
                front.drop_last() == arms@.take(i as int),
                front.last() == arms@[i as int],
                arms_fault(front.drop_last()) is None,
                arm_fault(front.last()) is None,
                selector.team@ == front.last().team@,
                selector.channel@ == front.last().channel@,
                key@ == requested_key(front.last().team@, front.last().channel@),
                texts(seen@) == arm_keys(front.drop_last()),
                forall|k: int| 0 <= k < j ==> texts(seen@)[k] != key@,
            decreases seen.len() - j,
        {
            if str_eq(seen[j].as_str(), key.as_str()) {
                proof {
                    assert(texts(seen@)[j as int] == key@);
                    assert(arm_keys(front.drop_last()).contains(key@));
                    arms_fault_extends(arms@, i as int);
                }
                return Err(
                    input(concat2("duplicate wait arm ", selector.qualified().as_str())),
                );
            }
            j += 1;
        }
        proof {
            assert(!arm_keys(front.drop_last()).contains(key@)) by {
                if arm_keys(front.drop_last()).contains(key@) {
                    let k = arm_keys(front.drop_last()).index_of(key@);
                    assert(texts(seen@)[k] != key@);
                }
            }
        }
        let ghost seen0 = seen@;
        let ghost text = key@;
        seen.push(key);
        i += 1;
        proof {
            assert(texts(seen@) =~= texts(seen0).push(text));
            assert(arm_keys(front) =~= arm_keys(front.drop_last()).push(text));
        }
    }
    proof {
        assert(arms@.take(i as int) =~= arms@);
    }
    Ok(())
}

/// Accepts a request to wait on several channels.
pub fn validate_wait_channels_params(params: &WaitChannelsParams) -> (r: Result<(), CoreError>)
    ensures
        refusal_of(r) == wait_channels_fault(*params),
        r is Ok <==> wait_channels_fault(*params) is None,
{
    if params.timeout_secs == 0 {
        return Err(input("wait timeout must be greater than zero".to_owned()));
    }
    let n: usize = params.arms.len();
    if !(WAIT_CHANNELS_MIN_ARMS <= n && n <= WAIT_CHANNELS_MAX_ARMS) {
        let mut m = "wait_channels_v1 requires 2\u{2013}8 arms, got ".to_owned();
        m.append(u64_text(n as u64).as_str());
        return Err(input(m));
    }
    match check_arms(&params.arms) {
        Ok(_) => {},
        Err(e) => {
            return Err(e);
        },
    }
    match check_optional_filter("contains", &params.contains) {
        Ok(_) => {},
        Err(e) => {
            return Err(e);
        },
    }
    check_optional_filter("pattern", &params.pattern)
}

/// Requested channels without a fault are different channels, whatever the case
/// of their letters.
pub proof fn accepted_arms_differ(arms: Seq<WaitChannelArm>, i: int, j: int)
    requires
        arms_fault(arms) is None,
        0 <= i < j < arms.len(),
    ensures
        requested_key(arms[i].team@, arms[i].channel@) != requested_key(
            arms[j].team@,
            arms[j].channel@,
        ),
    decreases arms.len(),
{
    let front = arms.drop_last();
    if j < arms.len() - 1 {
        accepted_arms_differ(front, i, j);
    } else {
        assert(arm_keys(front)[i] == requested_key(arms[i].team@, arms[i].channel@));
    }
}

// ---------------------------------------------------------------------------
// Selectors
// ---------------------------------------------------------------------------

/// Team and channel that `team/channel` names.
pub open spec fn selector_parts(raw: Seq<char>) -> Option<(Seq<char>, Seq<char>)> {
    match split_at_first(drop_leading(trimmed(raw), '#'), "/"@) {
        None => None,
        Some((team, channel)) => {
            let t = trimmed(team);
            let c = drop_leading(trimmed(channel), '#');
            if t.len() == 0 || c.len() == 0 {
                None
            } else {
                Some((t, c))
            }
        },
    }
}

pub open spec fn selector_fault(raw: Seq<char>) -> Option<Seq<char>> {
    match selector_parts(raw) {
        None => Some("fan-in --channel requires an explicit team/channel selector"@),
        Some((team, channel)) => if segment_fault("team"@, team) is Some {
            segment_fault("team"@, team)
        } else {
            segment_fault("channel"@, channel)
        },
    }
}

/// Reads `team/channel`; a channel without a team is refused.
pub fn parse_qualified_wait_selector(raw: &str) -> (r: Result<WaitChannelSelector, CoreError>)
    ensures
        refusal_of(r) == selector_fault(raw@),
        r is Err ==> refusal_of(r) is Some,
        r matches Ok(sel) ==> selector_parts(raw@) == Some((sel.team@, sel.channel@)),
{
    let stripped = trim_start_char(trim(raw), '#');
    match split_once(stripped, "/") {
        None => Err(
            input("fan-in --channel requires an explicit team/channel selector".to_owned()),
        ),
        Some((team, channel)) => {
            let team = trim(team);
            let channel = trim_start_char(trim(channel), '#');
            if team.is_empty() || channel.is_empty() {
                return Err(
                    input("fan-in --channel requires an explicit team/channel selector".to_owned()),
                );
            }
            match check_segment("team", team) {
                Ok(_) => {},
                Err(e) => {
                    return Err(e);
                },
            }
            match check_segment("channel", channel) {
                Ok(_) => {},
                Err(e) => {
                    return Err(e);
                },
            }
            Ok(WaitChannelSelector::new(team, channel))
        },
    }
}

pub open spec fn after_flag_fault(raw: Seq<char>) -> Option<Seq<char>> {
    match split_at_first(raw, "="@) {
        None => Some("--after-channel requires the form team/channel=post-id"@),
        Some((selector, after)) => if after.len() == 0 {
            Some("empty --after-channel post id is refused"@)
        } else if segment_fault("after"@, after) is Some {
            segment_fault("after"@, after)
        } else {
            selector_fault(selector)
        },
    }
}

/// Reads `team/channel=post-id`.
pub fn parse_after_channel_flag(raw: &str) -> (r: Result<(WaitChannelSelector, String), CoreError>)
    ensures
        refusal_of(r) == after_flag_fault(raw@),
        r is Err ==> refusal_of(r) is Some,
        r matches Ok(p) ==> (split_at_first(raw@, "="@) matches Some(parts) && selector_parts(
            parts.0,
        ) == Some((p.0.team@, p.0.channel@)) && p.1@ == parts.1),
{
    match split_once(raw, "=") {
        None => Err(input("--after-channel requires the form team/channel=post-id".to_owned())),
        Some((selector, after)) => {
            if after.is_empty() {
                return Err(input("empty --after-channel post id is refused".to_owned()));
            }
            match check_segment("after", after) {
                Ok(_) => {},
                Err(e) => {
                    return Err(e);
                },
            }
            match parse_qualified_wait_selector(selector) {
                Ok(sel) => Ok((sel, after.to_owned())),
                Err(e) => Err(e),
            }
        },
    }
}

// ---------------------------------------------------------------------------
// The first match
// ---------------------------------------------------------------------------

/// Order of candidates: by time, then post id, then channel id.
pub open spec fn candidate_before<T>(a: (T, Message, String), b: (T, Message, String)) -> bool {
    ||| a.1.create_at < b.1.create_at
    ||| a.1.create_at == b.1.create_at && text_before(a.1.id@, b.1.id@)
    ||| a.1.create_at == b.1.create_at && a.1.id@ == b.1.id@ && text_before(a.2@, b.2@)
}

fn is_candidate_before<T>(a: &(T, Message, String), b: &(T, Message, String)) -> (r: bool)
    ensures
        r == candidate_before(*a, *b),
{
    if a.1.create_at != b.1.create_at {
        return a.1.create_at < b.1.create_at;
    }
    if !str_eq(a.1.id.as_str(), b.1.id.as_str()) {
        return text_lt(a.1.id.as_str(), b.1.id.as_str());
    }
    proof {
        text_before_irreflexive(a.1.id@);
    }
    text_lt(a.2.as_str(), b.2.as_str())
}

proof fn candidate_not_before_transitive<T>(
    a: (T, Message, String),
    b: (T, Message, String),
    c: (T, Message, String),
)
    requires
        !candidate_before(a, b),
        candidate_before(c, b),
    ensures
        candidate_before(c, a),
{
    text_before_total(a.1.id@, b.1.id@);
    text_before_total(c.1.id@, b.1.id@);
    text_before_total(a.1.id@, c.1.id@);
    text_before_total(a.2@, b.2@);
    text_before_total(c.2@, a.2@);
    text_before_irreflexive(a.1.id@);
    text_before_irreflexive(b.1.id@);
    text_before_irreflexive(b.2@);
    if text_before(c.1.id@, b.1.id@) && text_before(b.1.id@, a.1.id@) {
        text_before_transitive(c.1.id@, b.1.id@, a.1.id@);
    }
    if text_before(c.2@, b.2@) && text_before(b.2@, a.2@) {
        text_before_transitive(c.2@, b.2@, a.2@);
    }
}

/// The candidate that comes first; of tied ones the one listed first.
pub fn first_backfill_winner<'a, T>(candidates: &[&'a (T, Message, String)]) -> (r: Option<
    &'a (T, Message, String),
>)
    ensures
        r is None <==> candidates@.len() == 0,
        r matches Some(w) ==> exists|i: int|
            #![trigger candidates@[i]]
            0 <= i < candidates@.len() && *w == *candidates@[i] && (forall|j: int|
                0 <= j < candidates@.len() ==> !candidate_before(*(#[trigger] candidates@[j]), *w))
                && (forall|j: int|
                0 <= j < i ==> candidate_before(*w, *(#[trigger] candidates@[j]))),
        // No candidate is older; of one moment none has an id that comes first.
        r matches Some(w) ==> forall|j: int|
            0 <= j < candidates@.len() ==> w.1.create_at <= (#[trigger] candidates@[j]).1.create_at
                && (w.1.create_at == candidates@[j].1.create_at ==> !text_before(
                candidates@[j].1.id@,
                w.1.id@,
            )) && (w.1.create_at == candidates@[j].1.create_at && w.1.id@ == candidates@[j].1.id@
                ==> !text_before(candidates@[j].2@, w.2@)),
{
    if candidates.len() == 0 {
        return None;
    }
    let mut best: usize = 0;
    let mut i: usize = 1;
    proof {
        candidate_asymmetric(*candidates@[0], *candidates@[0]);
    }
    while i < candidates.len()
        invariant
            best < i <= candidates@.len(),
            forall|j: int|
                0 <= j < i ==> !candidate_before(
                    *(#[trigger] candidates@[j]),
                    *candidates@[best as int],
                ),
            forall|j: int|
                0 <= j < best ==> candidate_before(
                    *candidates@[best as int],
                    *(#[trigger] candidates@[j]),
                ),
        decreases candidates.len() - i,
    {
        if is_candidate_before(candidates[i], candidates[best]) {
            proof {
                assert forall|j: int| 0 <= j < i implies candidate_before(
                    *candidates@[i as int],
                    *(#[trigger] candidates@[j]),
                ) by {
                    candidate_not_before_transitive(
                        *candidates@[j],
                        *candidates@[best as int],
                        *candidates@[i as int],
                    );
                }
                assert forall|j: int| 0 <= j < i + 1 implies !candidate_before(
                    *(#[trigger] candidates@[j]),
                    *candidates@[i as int],
                ) by {
                    candidate_asymmetric(*candidates@[i as int], *candidates@[j]);
                }
            }
            best = i;
        }
        i += 1;
    }
    proof {
        assert(candidates@[best as int] == candidates@[best as int]);
    }
    Some(candidates[best])
}

proof fn candidate_asymmetric<T>(a: (T, Message, String), b: (T, Message, String))
    ensures
        candidate_before(a, b) ==> !candidate_before(b, a),
        !candidate_before(a, a),
{
    text_before_irreflexive(a.1.id@);
    text_before_irreflexive(a.2@);
    if text_before(a.1.id@, b.1.id@) && text_before(b.1.id@, a.1.id@) {
        text_before_transitive(a.1.id@, b.1.id@, a.1.id@);
    }
    if text_before(a.2@, b.2@) && text_before(b.2@, a.2@) {
        text_before_transitive(a.2@, b.2@, a.2@);
    }
}

/// A candidate before which no other comes is the oldest; of one moment it has the
/// smallest id, and of one id the smallest channel.
pub proof fn first_candidate_is_the_oldest<T>(
    candidates: Seq<(T, Message, String)>,
    w: (T, Message, String),
)
    requires
        forall|j: int| 0 <= j < candidates.len() ==> !candidate_before(#[trigger] candidates[j], w),
    ensures
        forall|j: int|
            #![trigger candidates[j]]
            0 <= j < candidates.len() ==> {
                let c = candidates[j];
                ||| w.1.create_at < c.1.create_at
                ||| w.1.create_at == c.1.create_at && text_before(w.1.id@, c.1.id@)
                ||| w.1.create_at == c.1.create_at && w.1.id@ == c.1.id@ && (w.2@ == c.2@
                    || text_before(w.2@, c.2@))
            },
{
    assert forall|j: int| 0 <= j < candidates.len() implies {
        let c = #[trigger] candidates[j];
        ||| w.1.create_at < c.1.create_at
        ||| w.1.create_at == c.1.create_at && text_before(w.1.id@, c.1.id@)
        ||| w.1.create_at == c.1.create_at && w.1.id@ == c.1.id@ && (w.2@ == c.2@ || text_before(
            w.2@,
            c.2@,
        ))
    } by {
        text_before_total(w.1.id@, candidates[j].1.id@);
        text_before_total(w.2@, candidates[j].2@);
    }
}

/// An arm is good where its team and its channel are there and not too long, and so is the
/// post that it starts after, if one is named.
spec fn good_arm(arm: WaitChannelArm) -> bool {
    &&& 0 < arm.team@.len() && encode_utf8(arm.team@).len() <= 256
    &&& 0 < arm.channel@.len() && encode_utf8(arm.channel@).len() <= 256
    &&& arm.after matches Some(after) ==> 0 < after@.len() && encode_utf8(after@).len() <= 256
}

proof fn good_arms_have_no_fault(arms: Seq<WaitChannelArm>)
    ensures
        arms_fault(arms) is None <==> (forall|i: int|
            #![trigger arms[i]]
            0 <= i < arms.len() ==> good_arm(arms[i]))
            && (forall|i: int, j: int|
            #![trigger arms[i], arms[j]]
            0 <= i < j < arms.len() ==> lowered(arms[i].team@) + seq!['/'] + lowered(arms[i].channel@)
                != lowered(arms[j].team@) + seq!['/'] + lowered(arms[j].channel@)),
    decreases arms.len(),
{
    reveal_strlit("/");
    assert("/"@ =~= seq!['/']);
    if arms.len() > 0 {
        let front = arms.drop_last();
        let last = arms.len() - 1;
        good_arms_have_no_fault(front);
        assert forall|i: int| 0 <= i < front.len() implies front[i] == #[trigger] arms[i] by {}
        let keys = arm_keys(front);
        let key = requested_key(arms.last().team@, arms.last().channel@);
        assert(keys.contains(key) <==> exists|i: int|
            0 <= i < front.len() && requested_key((#[trigger] front[i]).team@, front[i].channel@)
                == key) by {
            if keys.contains(key) {
                let i = keys.index_of(key);
                assert(requested_key(front[i].team@, front[i].channel@) == key);
            }
            if exists|i: int|
                0 <= i < front.len() && requested_key((#[trigger] front[i]).team@, front[i].channel@)
                    == key {
                let i = choose|i: int|
                    0 <= i < front.len() && requested_key(
                        (#[trigger] front[i]).team@,
                        front[i].channel@,
                    ) == key;
                assert(keys[i] == key);
            }
        }
        assert(arm_fault(arms.last()) is None <==> good_arm(arms[last]));
        if arms_fault(arms) is None {
            assert forall|i: int, j: int|
                #![trigger arms[i], arms[j]]
                0 <= i < j < arms.len() implies lowered(arms[i].team@) + seq!['/'] + lowered(
                arms[i].channel@,
            ) != lowered(arms[j].team@) + seq!['/'] + lowered(arms[j].channel@) by {
                assert(front[i] == arms[i]);
                if j < last {
                    assert(front[j] == arms[j]);
                }
            }
        }
    }
}

/// A wait on several channels is accepted if and only if it has a time, two to eight good
/// arms no two of which are the same but for the case of their letters, and filters that
/// are there and not too long where they are given.
pub proof fn accepted_waits(p: WaitChannelsParams)
    ensures
        wait_channels_fault(p) is None <==> {
            &&& p.timeout_secs > 0
            &&& 2 <= p.arms@.len() <= 8
            &&& forall|i: int|
                #![trigger p.arms@[i]]
                0 <= i < p.arms@.len() ==> {
                    let arm = p.arms@[i];
                    &&& 0 < arm.team@.len() && encode_utf8(arm.team@).len() <= 256
                    &&& 0 < arm.channel@.len() && encode_utf8(arm.channel@).len() <= 256
                    &&& arm.after matches Some(after) ==> 0 < after@.len() && encode_utf8(
                        after@,
                    ).len() <= 256
                }
            &&& forall|i: int, j: int|
                #![trigger p.arms@[i], p.arms@[j]]
                0 <= i < j < p.arms@.len() ==> lowered(p.arms@[i].team@) + seq!['/'] + lowered(
                    p.arms@[i].channel@,
                ) != lowered(p.arms@[j].team@) + seq!['/'] + lowered(p.arms@[j].channel@)
            &&& p.contains matches Some(s) ==> 0 < s@.len() && encode_utf8(s@).len() <= 256
            &&& p.pattern matches Some(s) ==> 0 < s@.len() && encode_utf8(s@).len() <= 256
        },
{
    good_arms_have_no_fault(p.arms@);
    assert forall|i: int|
        #![trigger p.arms@[i]]
        0 <= i < p.arms@.len() implies (good_arm(p.arms@[i]) <==> {
        let arm = p.arms@[i];
        &&& 0 < arm.team@.len() && encode_utf8(arm.team@).len() <= 256
        &&& 0 < arm.channel@.len() && encode_utf8(arm.channel@).len() <= 256
        &&& arm.after matches Some(after) ==> 0 < after@.len() && encode_utf8(after@).len() <= 256
    }) by {}
}

/// An arm asks for the same channel however its letters are written.
pub proof fn arms_ignore_case(team: Seq<char>, channel: Seq<char>, other: Seq<char>, beside: Seq<char>)
    requires
        lowered(team) == lowered(other),
        lowered(channel) == lowered(beside),
    ensures
        requested_key(team, channel) == requested_key(other, beside),
        requested_key(team, channel) == lowered(team) + seq!['/'] + lowered(channel),
{
    reveal_strlit("/");
    assert("/"@ =~= seq!['/']);
}

/// A selector names its team and its channel as they stand, without the `#` before either
/// of them and without the space around them.
pub proof fn selectors_name_team_and_channel(team: Seq<char>, channel: Seq<char>, marks: nat, more: nat)
    requires
        team.len() > 0,
        channel.len() > 0,
        !team.contains('/'),
        team[0] != '#',
        channel[0] != '#',
        !white_space(team[0]) && !white_space(team.last()),
        !white_space(channel[0]) && !white_space(channel.last()),
    ensures
        selector_parts(
            Seq::new(marks, |i: int| '#') + team + seq!['/'] + Seq::new(more, |i: int| '#')
                + channel,
        ) == Some((team, channel)),
{
    let first = Seq::new(marks, |i: int| '#');
    let second = Seq::new(more, |i: int| '#');
    let tail = second + channel;
    let rest = team + seq!['/'] + tail;
    let raw = first + team + seq!['/'] + second + channel;
    assert(raw =~= first + rest);
    crate::text::space_is_white_space('#');
    crate::text::trimming_drops_the_space_around(Seq::empty(), raw, Seq::empty());
    assert(Seq::<char>::empty() + raw + Seq::<char>::empty() =~= raw);
    crate::text::leading_copies_go('#', marks, rest);
    reveal_strlit("/");
    assert("/"@ =~= seq!['/']);
    crate::text::split_at_a_mark(team, '/', tail);
    crate::text::trimming_drops_the_space_around(Seq::empty(), team, Seq::empty());
    assert(Seq::<char>::empty() + team + Seq::<char>::empty() =~= team);
    assert(tail[0] == '#' || tail[0] == channel[0]);
    crate::text::trimming_drops_the_space_around(Seq::empty(), tail, Seq::empty());
    assert(Seq::<char>::empty() + tail + Seq::<char>::empty() =~= tail);
    crate::text::leading_copies_go('#', more, channel);
}

/// A selector without `/` is none.
pub proof fn selectors_have_a_slash(raw: Seq<char>)
    requires
        !raw.contains('/'),
    ensures
        selector_parts(raw) is None,
        selector_fault(raw) == Some(
            "fan-in --channel requires an explicit team/channel selector"@,
        ),
{
    let rest = drop_leading(trimmed(raw), '#');
    parts_of(raw);
    reveal_strlit("/");
    crate::text::splits_come_together_again(rest, "/"@);
    match split_at_first(rest, "/"@) {
        Some((front, back)) => {
            assert(rest[front.len() as int] == '/');
            assert(rest.contains('/'));
        },
        None => {},
    }
}

/// What is left of a text holds nothing that the text does not hold.
proof fn parts_of(raw: Seq<char>)
    ensures
        forall|c: char| drop_leading(trimmed(raw), '#').contains(c) ==> #[trigger] raw.contains(c),
{
    front_of(raw);
    let a = crate::text::trim_front(raw);
    back_of(a);
    let b = crate::text::trim_back(a);
    leading_of(b, '#');
    assert forall|c: char| drop_leading(trimmed(raw), '#').contains(c) implies #[trigger] raw.contains(c) by {
        assert(b.contains(c));
        assert(a.contains(c));
    }
}

proof fn front_of(s: Seq<char>)
    ensures
        forall|c: char| #[trigger] crate::text::trim_front(s).contains(c) ==> s.contains(c),
    decreases s.len(),
{
    if s.len() > 0 && white_space(s[0]) {
        let t = s.drop_first();
        front_of(t);
        assert forall|c: char| #[trigger] crate::text::trim_front(s).contains(c) implies s.contains(c) by {
            assert(crate::text::trim_front(t).contains(c));
            assert(t.contains(c));
            let k = t.index_of(c);
            assert(s[k + 1] == c);
        }
    }
}

proof fn back_of(s: Seq<char>)
    ensures
        forall|c: char| #[trigger] crate::text::trim_back(s).contains(c) ==> s.contains(c),
    decreases s.len(),
{
    if s.len() > 0 && white_space(s.last()) {
        let t = s.drop_last();
        back_of(t);
        assert forall|c: char| #[trigger] crate::text::trim_back(s).contains(c) implies s.contains(c) by {
            assert(crate::text::trim_back(t).contains(c));
            assert(t.contains(c));
            let k = t.index_of(c);
            assert(s[k] == c);
        }
    }
}

proof fn leading_of(s: Seq<char>, d: char)
    ensures
        forall|c: char| #[trigger] drop_leading(s, d).contains(c) ==> s.contains(c),
    decreases s.len(),
{
    if s.len() > 0 && s[0] == d {
        let t = s.drop_first();
        leading_of(t, d);
        assert forall|c: char| #[trigger] drop_leading(s, d).contains(c) implies s.contains(c) by {
            assert(drop_leading(t, d).contains(c));
            assert(t.contains(c));
            let k = t.index_of(c);
            assert(s[k + 1] == c);
        }
    }
}

/// What starts a channel is split off at the first `=`, and has to be there.
pub proof fn starts_stand_behind_the_first_sign(selector: Seq<char>, after: Seq<char>)
    requires
        !selector.contains('='),
    ensures
        split_at_first(selector + seq!['='] + after, "="@) == Some((selector, after)),
        after_flag_fault(selector + seq!['='] + after) is None <==> 0 < after.len() && encode_utf8(
            after,
        ).len() <= 256 && selector_fault(selector) is None,
{
    reveal_strlit("=");
    assert("="@ =~= seq!['=']);
    crate::text::split_at_a_mark(selector, '=', after);
}

/// Of the messages found while catching up the oldest is handed out, by its id and then its
/// channel where several are of one moment, and one is handed out wherever there is one.
pub proof fn the_oldest_message_is_handed_out<'a, T>(
    candidates: &[&'a (T, Message, String)],
    r: Option<&'a (T, Message, String)>,
    i: int,
)
    requires
        call_ensures(first_backfill_winner::<T>, (candidates,), r),
        0 <= i < candidates@.len(),
    ensures
        r is Some,
        exists|k: int| #![trigger candidates@[k]] 0 <= k < candidates@.len() && *r->0 == *candidates@[k],
        (r->0).1.create_at <= candidates@[i].1.create_at,
        (r->0).1.create_at == candidates@[i].1.create_at ==> (r->0).1.id@ == candidates@[i].1.id@
            || text_before((r->0).1.id@, candidates@[i].1.id@),
        (r->0).1.create_at == candidates@[i].1.create_at && (r->0).1.id@ == candidates@[i].1.id@ ==> (r->0).2@
            == candidates@[i].2@ || text_before((r->0).2@, candidates@[i].2@),
{
    text_before_total((r->0).1.id@, candidates@[i].1.id@);
    text_before_total((r->0).2@, candidates@[i].2@);
}

/// A wait is accepted or refused for its first fault, and what is accepted is what was given.
pub proof fn waits_are_refused_for_their_faults(
    params: &WaitChannelsParams,
    accepted: Result<(), CoreError>,
    raw: &str,
    selector: Result<WaitChannelSelector, CoreError>,
    start: Result<(WaitChannelSelector, String), CoreError>,
)
    requires
        call_ensures(validate_wait_channels_params, (params,), accepted),
        call_ensures(parse_qualified_wait_selector, (raw,), selector),
        call_ensures(parse_after_channel_flag, (raw,), start),
    ensures
        accepted is Ok <==> wait_channels_fault(*params) is None,
        selector is Ok <==> selector_fault(raw@) is None,
        selector is Ok ==> selector_parts(raw@) == Some((selector->Ok_0.team@, selector->Ok_0.channel@)),
        start is Ok <==> after_flag_fault(raw@) is None,
{
}

/// The one message that ended a wait is handed out with the channel that it is in.
pub proof fn one_message_ends_a_wait(
    channels: Vec<WaitChannelSelector>,
    matched: WaitChannelSelector,
    message: Message,
    r: WaitChannelsResult,
)
    requires
        call_ensures(WaitChannelsResult::match_one, (channels, matched, message), r),
    ensures
        r.mode@ == "fan_in"@ && r.channels == channels && r.matched_channel == matched,
        r.messages@ == seq![message],
{
}

/// Names and filters are refused where they are empty or beyond 256 bytes, and the refusal says
/// which.
pub proof fn names_are_refused_with_a_reason(name: Seq<char>, value: String)
    ensures
        value@.len() == 0 ==> segment_fault(name, value@) == Some(
            "wait "@ + name + " must be non-empty"@,
        ),
        encode_utf8(value@).len() > 256 && value@.len() > 0 ==> segment_fault(name, value@) == Some(
            "wait "@ + name + " exceeds 256 UTF-8 bytes"@,
        ),
        value@.len() == 0 ==> filter_fault(name, Some(value)) == Some(
            "empty --"@ + name + " is refused (not match-all)"@,
        ),
        value@.len() > 0 && encode_utf8(value@).len() > 256 ==> filter_fault(name, Some(value))
            == Some("wait "@ + name + " exceeds 256 UTF-8 bytes"@),
        filter_fault(name, None) is None,
{
}

/// A wait is refused for its first fault: its time, the number of its arms, an arm, a filter.
pub proof fn waits_are_refused_with_a_reason(p: WaitChannelsParams)
    ensures
        p.timeout_secs == 0 ==> wait_channels_fault(p) == Some(
            "wait timeout must be greater than zero"@,
        ),
        p.timeout_secs > 0 && (p.arms@.len() < 2 || p.arms@.len() > 8) ==> wait_channels_fault(p)
            == Some("wait_channels_v1 requires 2\u{2013}8 arms, got "@ + decimal_text(p.arms@.len())),
        p.timeout_secs > 0 && 2 <= p.arms@.len() <= 8 && arms_fault(p.arms@) is Some
            ==> wait_channels_fault(p) == arms_fault(p.arms@),
        p.timeout_secs > 0 && 2 <= p.arms@.len() <= 8 && arms_fault(p.arms@) is None && p.contains
            is Some && p.contains->0@.len() == 0 ==> wait_channels_fault(p) == Some(
            "empty --"@ + "contains"@ + " is refused (not match-all)"@,
        ),
        p.timeout_secs > 0 && 2 <= p.arms@.len() <= 8 && arms_fault(p.arms@) is None && p.contains
            is None && p.pattern is Some && p.pattern->0@.len() == 0 ==> wait_channels_fault(p)
            == Some("empty --"@ + "pattern"@ + " is refused (not match-all)"@),
{
}

/// Arms are refused for the first that is at fault: its team, its channel, its start, or that an
/// earlier one has its name.
pub proof fn arms_are_refused_with_a_reason(arms: Seq<WaitChannelArm>, arm: WaitChannelArm)
    ensures
        arms_fault(arms) is Some ==> arms_fault(arms.push(arm)) == arms_fault(arms),
        arms_fault(arms) is None && arm.team@.len() == 0 ==> arms_fault(arms.push(arm)) == Some(
            "wait "@ + "team"@ + " must be non-empty"@,
        ),
        arms_fault(arms) is None && segment_fault("team"@, arm.team@) is None && arm.channel@.len()
            == 0 ==> arms_fault(arms.push(arm)) == Some("wait "@ + "channel"@ + " must be non-empty"@),
        arms_fault(arms) is None && segment_fault("team"@, arm.team@) is None && segment_fault(
            "channel"@,
            arm.channel@,
        ) is None && arm.after is Some && arm.after->0@.len() == 0 ==> arms_fault(arms.push(arm))
            == Some("wait "@ + "after"@ + " must be non-empty"@),
        arms_fault(arms) is None && arm_fault(arm) is None && (exists|i: int|
            0 <= i < arms.len() && lowered((#[trigger] arms[i]).team@) == lowered(arm.team@)
                && lowered(arms[i].channel@) == lowered(arm.channel@)) ==> arms_fault(
            arms.push(arm),
        ) == Some("duplicate wait arm "@ + (arm.team@ + "/"@ + arm.channel@)),
{
    let all = arms.push(arm);
    assert(all.drop_last() =~= arms);
    assert(all.last() == arm);
    if exists|i: int|
        0 <= i < arms.len() && lowered((#[trigger] arms[i]).team@) == lowered(arm.team@) && lowered(
            arms[i].channel@,
        ) == lowered(arm.channel@) {
        let i = choose|i: int|
            0 <= i < arms.len() && lowered((#[trigger] arms[i]).team@) == lowered(arm.team@)
                && lowered(arms[i].channel@) == lowered(arm.channel@);
        assert(arm_keys(arms)[i] == requested_key(arm.team@, arm.channel@));
    }
}

/// A selector without a team and a channel, and a start without its sign or id, are refused as
/// such.
pub proof fn selectors_are_refused_with_a_reason(raw: Seq<char>)
    ensures
        selector_parts(raw) is None ==> selector_fault(raw) == Some(
            "fan-in --channel requires an explicit team/channel selector"@,
        ),
        selector_parts(raw) is Some ==> selector_fault(raw) == (if segment_fault(
            "team"@,
            (selector_parts(raw)->0).0,
        ) is Some {
            segment_fault("team"@, (selector_parts(raw)->0).0)
        } else {
            segment_fault("channel"@, (selector_parts(raw)->0).1)
        }),
        split_at_first(raw, "="@) is None ==> after_flag_fault(raw) == Some(
            "--after-channel requires the form team/channel=post-id"@,
        ),
        split_at_first(raw, "="@) is Some && (split_at_first(raw, "="@)->0).1.len() == 0
            ==> after_flag_fault(raw) == Some("empty --after-channel post id is refused"@),
{
}

} // verus!
