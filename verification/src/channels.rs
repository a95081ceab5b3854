//! Channels, direct conversations, reactions and pins: what becomes of the
//! provider's answers.
use vstd::prelude::*;
use vstd::string::*;

use crate::error::CoreError;
use crate::order::{stable_sort, stably_sorted, Order};
use crate::posts::absent;
use crate::search::{emoji_name, normalize_emoji_name};
use crate::text::{str_eq, text_before, text_before_irreflexive, text_before_total,
    text_before_transitive, text_lt, texts};
use crate::types::{Channel, DmConversation, LegacyChannel, PinResult, ReactionResult,
    ResolvedChannel, TeamChannels, TeamInfo, UnpinResult};

verus! {

/// How long the list of teams stays usable, in milliseconds.
pub const TEAM_LIST_TTL: u64 = 900_000;

/// How many direct conversations are listed at most.
pub const DM_LIST_SIZE: usize = 20;

/// A channel as the provider sends it; `last_post_at` is zero for a channel
/// without posts.
#[derive(Debug, Clone, PartialEq, Eq)]
pub struct RawChannel {
    pub id: String,
    pub name: String,
    pub display_name: String,
    pub channel_type: String,
    pub last_post_at: i64,
}

// ---------------------------------------------------------------------------
// Listing
// ---------------------------------------------------------------------------

/// `c` is the channel that is reported for a raw one.
pub open spec fn channel_of(raw: RawChannel, c: Channel) -> bool {
    &&& c.id == raw.id
    &&& c.name == raw.name
    &&& c.display_name == raw.display_name
    &&& c.channel_type == raw.channel_type
    &&& c.last_post_at == (if raw.last_post_at > 0 {
        Some(raw.last_post_at)
    } else {
        None
    })
}

/// The channels that the provider lists, in its order.
pub fn list_channels(raw: &Vec<RawChannel>) -> (r: Vec<Channel>)
    ensures
        r@.len() == raw@.len(),
        forall|i: int| 0 <= i < r@.len() ==> channel_of(raw@[i], #[trigger] r@[i]),
{
    let mut out: Vec<Channel> = Vec::new();
    let mut i: usize = 0;
    while i < raw.len()
        invariant
            i <= raw@.len(),
            out@.len() == i,
            forall|j: int| 0 <= j < i ==> channel_of(raw@[j], #[trigger] out@[j]),
        decreases raw.len() - i,
    {
        let at: i64 = raw[i].last_post_at;
        out.push(
            Channel {
                id: raw[i].id.clone(),
                name: raw[i].name.clone(),
                display_name: raw[i].display_name.clone(),
                channel_type: raw[i].channel_type.clone(),
                last_post_at: if at > 0 {
                    Some(at)
                } else {
                    None
                },
            },
        );
        i += 1;
    }
    out
}

impl Channel {
    /// The shape without activity.
    pub fn to_legacy(&self) -> (r: LegacyChannel)
        ensures
            r.id == self.id,
            r.name == self.name,
            r.display_name == self.display_name,
            r.channel_type == self.channel_type,
    {
        LegacyChannel {
            id: self.id.clone(),
            name: self.name.clone(),
            display_name: self.display_name.clone(),
            channel_type: self.channel_type.clone(),
        }
    }
}

/// The channel that was just created: it has no posts.
pub fn created_channel(raw: RawChannel) -> (r: Channel)
    ensures
        r.id == raw.id,
        r.name == raw.name,
        r.display_name == raw.display_name,
        r.channel_type == raw.channel_type,
        r.last_post_at is None,
{
    Channel {
        id: raw.id,
        name: raw.name,
        display_name: raw.display_name,
        channel_type: raw.channel_type,
        last_post_at: None,
    }
}

/// The name of a channel by its id; the id itself where it is not listed.
pub fn channel_name_of(channels: &Vec<Channel>, channel_id: &str) -> (r: String)
    ensures
        (forall|i: int|
            0 <= i < channels@.len() ==> (#[trigger] channels@[i]).id@ != channel_id@) ==> r@
            == channel_id@,
        (exists|i: int| 0 <= i < channels@.len() && (#[trigger] channels@[i]).id@ == channel_id@)
            ==> exists|i: int|
            #![trigger channels@[i]]
            0 <= i < channels@.len() && channels@[i].id@ == channel_id@ && r == channels@[i].name
                && forall|j: int| 0 <= j < i ==> (#[trigger] channels@[j]).id@ != channel_id@,
{
    let mut i: usize = 0;
    while i < channels.len()
        invariant
            i <= channels@.len(),
            forall|j: int| 0 <= j < i ==> (#[trigger] channels@[j]).id@ != channel_id@,
        decreases channels.len() - i,
    {
        if str_eq(channels[i].id.as_str(), channel_id) {
            let name = channels[i].name.clone();
            proof {
                assert(channels@[i as int].name == name);
            }
            return name;
        }
        i += 1;
    }
    channel_id.to_owned()
}

/// The primary team first, then by name.
pub struct PrimaryFirst {
    pub primary: String,
}

impl Order<TeamChannels> for PrimaryFirst {
    open spec fn before(&self, a: TeamChannels, b: TeamChannels) -> bool {
        let a_primary = a.team_name@ == self.primary@;
        let b_primary = b.team_name@ == self.primary@;
        if a_primary != b_primary {
            a_primary
        } else {
            text_before(a.team_name@, b.team_name@)
        }
    }

    proof fn asymmetric(&self, a: TeamChannels, b: TeamChannels) {
        if text_before(a.team_name@, b.team_name@) && text_before(b.team_name@, a.team_name@) {
            text_before_transitive(a.team_name@, b.team_name@, a.team_name@);
            text_before_irreflexive(a.team_name@);
        }
    }

    proof fn negatively_transitive(&self, a: TeamChannels, b: TeamChannels, c: TeamChannels) {
        text_before_total(a.team_name@, b.team_name@);
        text_before_total(b.team_name@, c.team_name@);
        if text_before(a.team_name@, c.team_name@) && text_before(b.team_name@, a.team_name@) {
            text_before_transitive(b.team_name@, a.team_name@, c.team_name@);
        }
    }

    fn is_before(&self, a: &TeamChannels, b: &TeamChannels) -> (r: bool) {
        let a_primary = str_eq(a.team_name.as_str(), self.primary.as_str());
        let b_primary = str_eq(b.team_name.as_str(), self.primary.as_str());
        if a_primary != b_primary {
            a_primary
        } else {
            text_lt(a.team_name.as_str(), b.team_name.as_str())
        }
    }
}

/// The channels of all teams, the primary team first, the others by name.
pub fn list_channels_across_teams(groups: Vec<TeamChannels>, primary_team: &str) -> (r: Vec<
    TeamChannels,
>)
    ensures
        exists|o: PrimaryFirst| #[trigger]
            stably_sorted(o, groups@, r@) && o.primary@ == primary_team@,
{
    let order = PrimaryFirst { primary: primary_team.to_owned() };
    let sorted = stable_sort(&order, groups);
    proof {
        assert(stably_sorted(order, groups@, sorted@));
    }
    sorted
}

/// Direct conversations among channels, in their order.
pub open spec fn direct_only(raw: Seq<RawChannel>) -> Seq<RawChannel>
    decreases raw.len(),
{
    if raw.len() == 0 {
        Seq::empty()
    } else if raw.last().channel_type@ == "D"@ {
        direct_only(raw.drop_last()).push(raw.last())
    } else {
        direct_only(raw.drop_last())
    }
}

/// `cs` are the conversations of these channels.
pub open spec fn conversations_of(raw: Seq<RawChannel>, cs: Seq<DmConversation>) -> bool {
    cs.len() == raw.len() && forall|i: int|
        0 <= i < cs.len() ==> (#[trigger] cs[i]).id == raw[i].id && cs[i].name == raw[i].name
            && cs[i].last_post_at == raw[i].last_post_at
}

/// The most recent conversation first.
pub struct MostRecentFirst;

impl Order<DmConversation> for MostRecentFirst {
    open spec fn before(&self, a: DmConversation, b: DmConversation) -> bool {
        a.last_post_at > b.last_post_at
    }

    proof fn asymmetric(&self, a: DmConversation, b: DmConversation) {
    }

    proof fn negatively_transitive(&self, a: DmConversation, b: DmConversation, c: DmConversation) {
    }

    fn is_before(&self, a: &DmConversation, b: &DmConversation) -> (r: bool) {
        a.last_post_at > b.last_post_at
    }
}

fn direct_conversations(raw: &Vec<RawChannel>) -> (r: Vec<DmConversation>)
    ensures
        conversations_of(direct_only(raw@), r@),
{
    let mut out: Vec<DmConversation> = Vec::new();
    let mut i: usize = 0;
    proof {
        assert(raw@.take(0) =~= Seq::empty());
    }
    while i < raw.len()
        invariant
            i <= raw@.len(),
            conversations_of(direct_only(raw@.take(i as int)), out@),
        decreases raw.len() - i,
    {
        proof {
            assert(raw@.take(i + 1).drop_last() =~= raw@.take(i as int));
        }
        if str_eq(raw[i].channel_type.as_str(), "D") {
            out.push(
                DmConversation {
                    id: raw[i].id.clone(),
                    name: raw[i].name.clone(),
                    last_post_at: raw[i].last_post_at,
                },
            );
        }
        i += 1;
    }
    proof {
        assert(raw@.take(i as int) =~= raw@);
    }
    out
}

/// `r` are the most recent direct conversations among these channels.
pub open spec fn recent_conversations(raw: Seq<RawChannel>, r: Seq<DmConversation>) -> bool {
    exists|found: Seq<DmConversation>, sorted: Seq<DmConversation>|
        conversations_of(direct_only(raw), found) && #[trigger] stably_sorted(
            MostRecentFirst,
            found,
            sorted,
        ) && r == sorted.take(
            if sorted.len() < DM_LIST_SIZE {
                sorted.len() as int
            } else {
                DM_LIST_SIZE as int
            },
        )
}

/// The most recent direct conversations.
pub fn list_dms(raw: &Vec<RawChannel>) -> (r: Vec<DmConversation>)
    ensures
        recent_conversations(raw@, r@),
        r@.len() <= DM_LIST_SIZE,
{
    let found = direct_conversations(raw);
    let ghost f = found@;
    let mut sorted = stable_sort(&MostRecentFirst, found);
    let ghost s = sorted@;
    if sorted.len() > DM_LIST_SIZE {
        sorted.truncate(DM_LIST_SIZE);
    }
    proof {
        assert(stably_sorted(MostRecentFirst, f, s));
        assert(sorted@ =~= s.take(
            if s.len() < DM_LIST_SIZE {
                s.len() as int
            } else {
                DM_LIST_SIZE as int
            },
        ));
    }
    sorted
}

// ---------------------------------------------------------------------------
// Teams
// ---------------------------------------------------------------------------

/// Whether a list of teams that was fetched at one moment can be used at another.
pub fn team_list_usable(fetched_at: u64, now: u64) -> (r: bool)
    ensures
        r == (now - fetched_at < TEAM_LIST_TTL),
{
    now < fetched_at || now - fetched_at < TEAM_LIST_TTL
}

/// The names of teams.
pub open spec fn team_names(teams: Seq<TeamInfo>) -> Seq<Seq<char>> {
    teams.map_values(|t: TeamInfo| t.name@)
}

pub fn names_of_teams(teams: &Vec<TeamInfo>) -> (r: Vec<String>)
    ensures
        texts(r@) == team_names(teams@),
{
    let mut out: Vec<String> = Vec::new();
    let mut i: usize = 0;
    while i < teams.len()
        invariant
            i <= teams@.len(),
            out@.len() == i,
            forall|j: int| 0 <= j < i ==> (#[trigger] out@[j])@ == teams@[j].name@,
        decreases teams.len() - i,
    {
        out.push(teams[i].name.clone());
        i += 1;
    }
    proof {
        assert(texts(out@) =~= team_names(teams@));
    }
    out
}

/// The first team with this name.
pub fn find_team<'a>(teams: &'a Vec<TeamInfo>, slug: &str) -> (r: Option<&'a TeamInfo>)
    ensures
        r is None <==> !team_names(teams@).contains(slug@),
        r matches Some(team) ==> exists|i: int|
            #![trigger teams@[i]]
            0 <= i < teams@.len() && *team == teams@[i] && team.name@ == slug@ && forall|j: int|
                0 <= j < i ==> (#[trigger] teams@[j]).name@ != slug@,
{
    let mut i: usize = 0;
    while i < teams.len()
        invariant
            i <= teams@.len(),
            forall|j: int| 0 <= j < i ==> (#[trigger] teams@[j]).name@ != slug@,
        decreases teams.len() - i,
    {
        if str_eq(teams[i].name.as_str(), slug) {
            proof {
                assert(team_names(teams@)[i as int] == slug@);
                assert(teams@[i as int].name@ == slug@);
            }
            return Some(&teams[i]);
        }
        i += 1;
    }
    proof {
        if team_names(teams@).contains(slug@) {
            let j = team_names(teams@).index_of(slug@);
            assert(teams@[j].name@ == slug@);
        }
    }
    None
}

// ---------------------------------------------------------------------------
// Reactions and pins
// ---------------------------------------------------------------------------

/// What is reported of a reaction that was made or withdrawn.
pub fn reaction_result(resolved: &ResolvedChannel, post_id: &str, emoji: &str) -> (r:
    ReactionResult)
    ensures
        r.team == resolved.team_name,
        r.channel == resolved.channel_name,
        r.post_id@ == post_id@,
        r.emoji@ == emoji_name(emoji@),
        r.ok,
{
    ReactionResult {
        team: resolved.team_name.clone(),
        channel: resolved.channel_name.clone(),
        post_id: post_id.to_owned(),
        emoji: normalize_emoji_name(emoji),
        ok: true,
    }
}

/// Withdrawing a reaction that is not there succeeds.
pub fn unreact_by_id(
    answer: Result<(), CoreError>,
    resolved: &ResolvedChannel,
    post_id: &str,
    emoji: &str,
) -> (r: Result<ReactionResult, CoreError>)
    ensures
        match answer {
            Err(e) if !absent(e) => r == Err::<ReactionResult, CoreError>(e),
            _ => r matches Ok(done) && done.team == resolved.team_name && done.channel
                == resolved.channel_name && done.post_id@ == post_id@ && done.emoji@ == emoji_name(
                emoji@,
            ) && done.ok,
        },
{
    match answer {
        Ok(_) => {},
        Err(CoreError::Api { status, message }) => {
            if status != 404 {
                return Err(CoreError::Api { status, message });
            }
        },
        Err(e) => {
            return Err(e);
        },
    }
    Ok(reaction_result(resolved, post_id, emoji))
}

/// The answer is that the bot may not do this.
pub open spec fn forbidden(e: CoreError) -> bool {
    e matches CoreError::Api { status, .. } && status == 403
}

pub fn is_forbidden(e: &CoreError) -> (r: bool)
    ensures
        r == forbidden(*e),
{
    match e {
        CoreError::Api { status, .. } => *status == 403,
        _ => false,
    }
}

/// The error of a pin that was not made: a refusal names the permission that is
/// missing, other errors stay.
pub fn pin_error(
    err: CoreError,
    verb: &str,
    bot_username: String,
    resolved: &ResolvedChannel,
) -> (r: CoreError)
    ensures
        !forbidden(err) ==> r == err,
        forbidden(err) ==> (r matches CoreError::PinPermissionDenied {
            verb: v,
            bot_username: b,
            team,
            channel,
            message,
        } && v@ == verb@ && b == bot_username && team == resolved.team_name && channel
            == resolved.channel_name && message == err->Api_message),
{
    match err {
        CoreError::Api { status, message } => {
            if status == 403 {
                CoreError::PinPermissionDenied {
                    verb: verb.to_owned(),
                    bot_username,
                    team: resolved.team_name.clone(),
                    channel: resolved.channel_name.clone(),
                    message,
                }
            } else {
                CoreError::Api { status, message }
            }
        },
        other => other,
    }
}

/// What is reported of a post that was pinned.
pub fn pin_by_id(resolved: &ResolvedChannel, post_id: &str, was_already_pinned: bool) -> (r:
    PinResult)
    ensures
        r.verb@ == "pin"@,
        r.team == resolved.team_name,
        r.channel == resolved.channel_name,
        r.channel_id == resolved.channel_id,
        r.post_id@ == post_id@,
        r.result@ == "pinned"@,
        r.was_already_pinned == was_already_pinned,
        r.ok,
{
    PinResult {
        verb: "pin".to_owned(),
        team: resolved.team_name.clone(),
        channel: resolved.channel_name.clone(),
        channel_id: resolved.channel_id.clone(),
        post_id: post_id.to_owned(),
        result: "pinned".to_owned(),
        was_already_pinned,
        ok: true,
    }
}

/// What is reported of a post that was unpinned.
pub fn unpin_by_id(resolved: &ResolvedChannel, post_id: &str, was_pinned: bool) -> (r: UnpinResult)
    ensures
        r.verb@ == "unpin"@,
        r.team == resolved.team_name,
        r.channel == resolved.channel_name,
        r.channel_id == resolved.channel_id,
        r.post_id@ == post_id@,
        r.result@ == "unpinned"@,
        r.was_already_unpinned == !was_pinned,
        r.ok,
{
    UnpinResult {
        verb: "unpin".to_owned(),
        team: resolved.team_name.clone(),
        channel: resolved.channel_name.clone(),
        channel_id: resolved.channel_id.clone(),
        post_id: post_id.to_owned(),
        result: "unpinned".to_owned(),
        was_already_unpinned: !was_pinned,
        ok: true,
    }
}

// ---------------------------------------------------------------------------
// Laws
// ---------------------------------------------------------------------------

/// A channel is reported as it is; a channel in which nothing was posted has no moment.
pub proof fn channels_are_reported_as_they_are(raw: RawChannel, c: Channel)
    requires
        channel_of(raw, c),
    ensures
        c.id@ == raw.id@ && c.name@ == raw.name@ && c.display_name@ == raw.display_name@
            && c.channel_type@ == raw.channel_type@,
        raw.last_post_at > 0 ==> c.last_post_at == Some(raw.last_post_at),
        raw.last_post_at <= 0 ==> c.last_post_at is None,
{
}

/// The primary team stands first, and the others follow in the order of their names.
pub proof fn the_primary_team_stands_first(
    o: PrimaryFirst,
    groups: Seq<TeamChannels>,
    r: Seq<TeamChannels>,
    i: int,
    j: int,
)
    requires
        stably_sorted(o, groups, r),
        0 <= i < j < r.len(),
    ensures
        r[j].team_name@ == o.primary@ ==> r[i].team_name@ == o.primary@,
        r[i].team_name@ != o.primary@ ==> r[i].team_name@ == r[j].team_name@ || text_before(
            r[i].team_name@,
            r[j].team_name@,
        ),
        r.to_multiset() == groups.to_multiset(),
{
    crate::order::sorted_items_are_in_order(o, groups, r);
    assert(!o.before(r[j], r[i]));
    crate::text::text_before_total(r[i].team_name@, r[j].team_name@);
}

/// Only direct channels are conversations, and every one of them is.
pub proof fn conversations_are_direct_channels(raw: Seq<RawChannel>, c: RawChannel)
    ensures
        direct_only(raw).contains(c) <==> raw.contains(c) && c.channel_type@ == "D"@,
        direct_only(raw).len() <= raw.len(),
    decreases raw.len(),
{
    if raw.len() > 0 {
        let front = raw.drop_last();
        conversations_are_direct_channels(front, c);
        let all = direct_only(raw);
        let rest = direct_only(front);
        if all.contains(c) {
            let k = all.index_of(c);
            if k < rest.len() {
                assert(rest[k] == c);
                let i = front.index_of(c);
                assert(raw[i] == c);
            } else {
                assert(raw[raw.len() - 1] == c);
            }
        }
        if raw.contains(c) && c.channel_type@ == "D"@ {
            let i = raw.index_of(c);
            if i < front.len() {
                assert(front[i] == c);
                let k = rest.index_of(c);
                assert(all[k] == c);
            } else {
                assert(all[all.len() - 1] == c);
            }
        }
    }
}

/// The conversations that are listed are direct channels, at most twenty, the most recent
/// first, and none that is left out is more recent than one that is listed.
pub proof fn recent_conversations_come_first(
    raw: Seq<RawChannel>,
    r: Seq<DmConversation>,
    c: RawChannel,
    j: int,
)
    requires
        recent_conversations(raw, r),
        0 <= j < r.len(),
    ensures
        r.len() <= 20,
        forall|i: int, k: int|
            #![trigger r[i], r[k]]
            0 <= i < k < r.len() ==> r[i].last_post_at >= r[k].last_post_at,
        exists|i: int|
            0 <= i < raw.len() && (#[trigger] raw[i]).channel_type@ == "D"@ && raw[i].id == r[j].id
                && raw[i].name == r[j].name && raw[i].last_post_at == r[j].last_post_at,
        raw.contains(c) && c.channel_type@ == "D"@ && c.last_post_at > r[j].last_post_at ==> exists|
            i: int,
        |
            0 <= i < r.len() && (#[trigger] r[i]).id == c.id && r[i].last_post_at == c.last_post_at,
        raw.contains(c) && c.channel_type@ == "D"@ && r.len() < 20 ==> exists|i: int|
            0 <= i < r.len() && (#[trigger] r[i]).id == c.id && r[i].last_post_at == c.last_post_at,
{
    let (found, sorted) = choose|found: Seq<DmConversation>, sorted: Seq<DmConversation>|
        conversations_of(direct_only(raw), found) && #[trigger] stably_sorted(
            MostRecentFirst,
            found,
            sorted,
        ) && r == sorted.take(
            if sorted.len() < DM_LIST_SIZE {
                sorted.len() as int
            } else {
                DM_LIST_SIZE as int
            },
        );
    let direct = direct_only(raw);
    crate::order::sorted_items_are_in_order(MostRecentFirst, found, sorted);
    assert forall|i: int, k: int|
        #![trigger r[i], r[k]]
        0 <= i < k < r.len() implies r[i].last_post_at >= r[k].last_post_at by {
        assert(!MostRecentFirst.before(sorted[k], sorted[i]));
    }
    assert(sorted[j] == r[j]);
    assert(sorted.contains(r[j]));
    crate::order::sorting_keeps_every_item(MostRecentFirst, found, sorted, r[j]);
    let f = found.index_of(r[j]);
    assert(found[f].id == direct[f].id);
    assert(direct.contains(direct[f]));
    conversations_are_direct_channels(raw, direct[f]);
    let at = raw.index_of(direct[f]);
    assert(raw[at].id == r[j].id);
    if raw.contains(c) && c.channel_type@ == "D"@ {
        conversations_are_direct_channels(raw, c);
        let d = direct.index_of(c);
        assert(found[d].id == c.id && found[d].last_post_at == c.last_post_at);
        assert(found.contains(found[d]));
        crate::order::sorting_keeps_every_item(MostRecentFirst, found, sorted, found[d]);
        let k = sorted.index_of(found[d]);
        if c.last_post_at > r[j].last_post_at {
            if k >= r.len() {
                assert(!MostRecentFirst.before(sorted[k], sorted[j]));
            }
            assert(r[k].id == c.id);
        }
        if r.len() < 20 {
            assert(r[k].id == c.id);
        }
    }
}

/// Something is forbidden where the provider answers 403.
pub proof fn forbidden_means_403(e: CoreError)
    ensures
        forbidden(e) <==> e is Api && e->Api_status == 403,
{
}

/// What is known of teams is used for a quarter of an hour.
pub proof fn teams_are_kept_for_a_quarter_of_an_hour()
    ensures
        TEAM_LIST_TTL == 15 * 60 * 1000,
        DM_LIST_SIZE == 20,
{
}

/// A reaction that is withdrawn is withdrawn also where it was not there; any other error
/// stays one.
pub proof fn missing_reactions_are_withdrawn(
    answer: Result<(), CoreError>,
    resolved: &ResolvedChannel,
    post_id: &str,
    emoji: &str,
    r: Result<ReactionResult, CoreError>,
)
    requires
        call_ensures(unreact_by_id, (answer, resolved, post_id, emoji), r),
    ensures
        r is Ok <==> answer is Ok || (answer->Err_0 is Api && answer->Err_0->Api_status == 404),
        r is Ok ==> r->Ok_0.post_id@ == post_id@ && r->Ok_0.channel == resolved.channel_name
            && r->Ok_0.team == resolved.team_name,
        r is Err ==> r->Err_0 == answer->Err_0,
{
}

/// A pin that was forbidden is reported as such, with the bot and the place.
pub proof fn forbidden_pins_name_the_bot(
    err: CoreError,
    verb: &str,
    bot: String,
    resolved: &ResolvedChannel,
    r: CoreError,
)
    requires
        call_ensures(pin_error, (err, verb, bot, resolved), r),
    ensures
        err is Api && err->Api_status == 403 ==> (r matches CoreError::PinPermissionDenied {
            verb: v,
            bot_username,
            team,
            channel,
            ..
        } && v@ == verb@ && bot_username == bot && team == resolved.team_name && channel
            == resolved.channel_name),
        !(err is Api && err->Api_status == 403) ==> r == err,
{
}

/// What a pin, an unpin and a reaction report.
pub proof fn pins_report_what_was_before(
    resolved: &ResolvedChannel,
    post_id: &str,
    before: bool,
    pin: PinResult,
    unpin: UnpinResult,
    emoji: &str,
    reaction: ReactionResult,
)
    requires
        call_ensures(pin_by_id, (resolved, post_id, before), pin),
        call_ensures(unpin_by_id, (resolved, post_id, before), unpin),
        call_ensures(reaction_result, (resolved, post_id, emoji), reaction),
    ensures
        pin.was_already_pinned == before && pin.post_id@ == post_id@ && pin.channel_id
            == resolved.channel_id && pin.result@ == "pinned"@ && pin.verb@ == "pin"@,
        unpin.was_already_unpinned == !before && unpin.post_id@ == post_id@ && unpin.channel_id
            == resolved.channel_id && unpin.result@ == "unpinned"@ && unpin.verb@ == "unpin"@,
        reaction.post_id@ == post_id@ && reaction.emoji@ == emoji_name(emoji@) && reaction.ok,
{
}

/// A channel goes by its name, and by its id where it is not among those that are known.
pub proof fn unknown_channels_go_by_their_id(
    channels: &Vec<Channel>,
    channel_id: &str,
    r: String,
    i: int,
)
    requires
        call_ensures(channel_name_of, (channels, channel_id), r),
        0 <= i < channels@.len(),
        channels@[i].id@ == channel_id@,
        forall|j: int| 0 <= j < i ==> (#[trigger] channels@[j]).id@ != channel_id@,
    ensures
        r == channels@[i].name,
{
    assert(exists|i: int| 0 <= i < channels@.len() && (#[trigger] channels@[i]).id@ == channel_id@);
    let k = choose|k: int|
        #![trigger channels@[k]]
        0 <= k < channels@.len() && channels@[k].id@ == channel_id@ && r == channels@[k].name
            && forall|j: int| 0 <= j < k ==> (#[trigger] channels@[j]).id@ != channel_id@;
    if k < i {
        assert(channels@[k].id@ != channel_id@);
    }
    if i < k {
        assert(channels@[i].id@ != channel_id@);
    }
}

/// The list of teams is used until it is a quarter of an hour old.
pub proof fn old_lists_of_teams_are_not_used(fetched_at: u64, now: u64, r: bool)
    requires
        call_ensures(team_list_usable, (fetched_at, now), r),
    ensures
        r <==> now < fetched_at + 900_000,
{
}

/// A channel that was just created has no posts.
pub proof fn new_channels_have_no_posts(raw: RawChannel, r: Channel)
    requires
        call_ensures(created_channel, (raw,), r),
    ensures
        r.last_post_at is None && r.id == raw.id && r.name == raw.name && r.display_name
            == raw.display_name && r.channel_type == raw.channel_type,
{
}

/// A team is found where one has the name, and it is the first.
pub proof fn the_first_team_of_a_name_is_found<'a>(
    teams: &'a Vec<TeamInfo>,
    slug: &str,
    r: Option<&'a TeamInfo>,
    i: int,
)
    requires
        call_ensures(find_team, (teams, slug), r),
        0 <= i < teams@.len(),
        teams@[i].name@ == slug@,
        forall|j: int| 0 <= j < i ==> (#[trigger] teams@[j]).name@ != slug@,
    ensures
        r is Some && *r->0 == teams@[i],
{
    assert(team_names(teams@)[i] == slug@);
}

/// Every channel is listed, in its place; one without a post has no last post.
pub proof fn every_channel_is_listed(raw: &Vec<RawChannel>, r: Vec<Channel>, i: int)
    requires
        call_ensures(list_channels, (raw,), r),
        0 <= i < raw@.len(),
    ensures
        r@.len() == raw@.len(),
        r@[i].id == raw@[i].id && r@[i].name == raw@[i].name && r@[i].display_name
            == raw@[i].display_name && r@[i].channel_type == raw@[i].channel_type,
        raw@[i].last_post_at > 0 ==> r@[i].last_post_at == Some(raw@[i].last_post_at),
        raw@[i].last_post_at <= 0 ==> r@[i].last_post_at is None,
{
    assert(channel_of(raw@[i], r@[i]));
}

/// Of the teams' channels those of the primary team stand first, then the teams by name, and none
/// is left out.
pub proof fn teams_are_listed_after_the_primary_one(
    groups: Vec<TeamChannels>,
    primary: &str,
    r: Vec<TeamChannels>,
    i: int,
    j: int,
)
    requires
        call_ensures(list_channels_across_teams, (groups, primary), r),
        0 <= i < j < r@.len(),
    ensures
        r@[j].team_name@ == primary@ ==> r@[i].team_name@ == primary@,
        r@[i].team_name@ != primary@ ==> r@[i].team_name@ == r@[j].team_name@ || text_before(
            r@[i].team_name@,
            r@[j].team_name@,
        ),
        r@.to_multiset() == groups@.to_multiset(),
{
    let o = choose|o: PrimaryFirst| #[trigger]
        stably_sorted(o, groups@, r@) && o.primary@ == primary@;
    the_primary_team_stands_first(o, groups@, r@, i, j);
}

} // verus!
