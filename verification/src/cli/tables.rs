//! Tables: channels, conversations, cursors.
use vstd::prelude::*;
use vstd::string::*;
use vstd::utf8::encode_utf8;

use crate::cli::args::ChannelsArgs;
use crate::cli::render::{attention_source_label, cut, cuttable, format_dm_timestamp,
    format_last_active, format_ts, last_active_text, source_label, truncate, ts_text,
    HumanReadable};
use crate::clock::{millis_were_read, moment_text, now_unix_millis};
use crate::order::{stable_sort, stably_sorted, Order};
use crate::text::{byte_len, concat3, decimal_text, join, joined, pad, padded, str_eq, texts,
    u64_text};
use crate::types::{AttentionChannelEntry, AttentionListResult, AttentionMentionEntry,
    AttentionShowResult, Channel, DmConversation, LegacyChannel, QuarantinedCursor, TeamChannels};

verus! {

// ---------------------------------------------------------------------------
// Channels of one team
// ---------------------------------------------------------------------------

/// The length of the longest text in bytes.
pub open spec fn widest(ss: Seq<Seq<char>>) -> nat
    decreases ss.len(),
{
    if ss.len() == 0 {
        0
    } else {
        let rest = widest(ss.drop_last());
        let n = encode_utf8(ss.last()).len();
        if n > rest {
            n
        } else {
            rest
        }
    }
}

fn widest_of(ss: &Vec<String>) -> (r: usize)
    ensures
        r == widest(texts(ss@)),
{
    let ghost all = texts(ss@);
    let mut w: usize = 0;
    let mut i: usize = 0;
    proof {
        assert(all.take(0) =~= Seq::empty());
    }
    while i < ss.len()
        invariant
            i <= ss@.len(),
            all == texts(ss@),
            w == widest(all.take(i as int)),
        decreases ss.len() - i,
    {
        proof {
            assert(all.take(i + 1).drop_last() =~= all.take(i as int));
        }
        let n: usize = byte_len(ss[i].as_str());
        if n > w {
            w = n;
        }
        i += 1;
    }
    proof {
        assert(all.take(i as int) =~= all);
    }
    w
}

pub open spec fn channel_names(cs: Seq<Channel>) -> Seq<Seq<char>> {
    cs.map_values(|c: Channel| c.name@)
}

pub open spec fn display_names(cs: Seq<Channel>) -> Seq<Seq<char>> {
    cs.map_values(|c: Channel| c.display_name@)
}

fn displays(cs: &Vec<Channel>) -> (r: Vec<String>)
    ensures
        texts(r@) == display_names(cs@),
{
    let mut out: Vec<String> = Vec::new();
    let mut i: usize = 0;
    while i < cs.len()
        invariant
            i <= cs@.len(),
            out@.len() == i,
            forall|j: int| 0 <= j < i ==> (#[trigger] out@[j])@ == cs@[j].display_name@,
        decreases cs.len() - i,
    {
        out.push(cs[i].display_name.clone());
        i += 1;
    }
    proof {
        assert(texts(out@) =~= display_names(cs@));
    }
    out
}

fn names(cs: &Vec<Channel>) -> (r: Vec<String>)
    ensures
        texts(r@) == channel_names(cs@),
{
    let mut out: Vec<String> = Vec::new();
    let mut i: usize = 0;
    while i < cs.len()
        invariant
            i <= cs@.len(),
            out@.len() == i,
            forall|j: int| 0 <= j < i ==> (#[trigger] out@[j])@ == cs@[j].name@,
        decreases cs.len() - i,
    {
        out.push(cs[i].name.clone());
        i += 1;
    }
    proof {
        assert(texts(out@) =~= channel_names(cs@));
    }
    out
}

/// A row: the name, the display name and the type, the first two padded.
pub open spec fn channel_row(c: Channel, name_width: nat, display_width: nat) -> Seq<char> {
    padded(c.name@, name_width) + "  "@ + padded(c.display_name@, display_width) + "  "@
        + c.channel_type@
}

pub open spec fn channel_rows(cs: Seq<Channel>) -> Seq<Seq<char>> {
    let nw = widest(channel_names(cs));
    let dw = widest(display_names(cs));
    cs.map_values(|c: Channel| channel_row(c, nw, dw))
}

impl HumanReadable for Vec<Channel> {
    open spec fn human(&self) -> Seq<char> {
        joined(channel_rows(self@), "\n"@)
    }

    fn to_human_string(&self) -> (r: String) {
        let nw: usize = widest_of(&names(self));
        let dw: usize = widest_of(&displays(self));
        let ghost shown = channel_rows(self@);
        let mut lines: Vec<String> = Vec::new();
        let mut i: usize = 0;
        while i < self.len()
            invariant
                i <= self@.len(),
                nw == widest(channel_names(self@)),
                dw == widest(display_names(self@)),
                shown == channel_rows(self@),
                texts(lines@) == shown.take(i as int),
            decreases self.len() - i,
        {
            let ghost before = lines@;
            let mut m = pad(self[i].name.as_str(), nw);
            m.append("  ");
            m.append(pad(self[i].display_name.as_str(), dw).as_str());
            m.append("  ");
            m.append(self[i].channel_type.as_str());
            let ghost t = m@;
            lines.push(m);
            i += 1;
            proof {
                assert(texts(lines@) =~= texts(before).push(t));
                assert(shown.take(i as int) =~= shown.take(i - 1).push(t));
            }
        }
        proof {
            assert(shown.take(i as int) =~= shown);
        }
        join(&lines, "\n")
    }
}

/// The channels in the shape without activity.
pub fn legacy_channels(channels: &Vec<Channel>) -> (r: Vec<LegacyChannel>)
    ensures
        r@.len() == channels@.len(),
        forall|i: int|
            0 <= i < r@.len() ==> (#[trigger] r@[i]).id == channels@[i].id && r@[i].name
                == channels@[i].name && r@[i].display_name == channels@[i].display_name
                && r@[i].channel_type == channels@[i].channel_type,
{
    let mut out: Vec<LegacyChannel> = Vec::new();
    let mut i: usize = 0;
    while i < channels.len()
        invariant
            i <= channels@.len(),
            out@.len() == i,
            forall|j: int|
                0 <= j < i ==> (#[trigger] out@[j]).id == channels@[j].id && out@[j].name
                    == channels@[j].name && out@[j].display_name == channels@[j].display_name
                    && out@[j].channel_type == channels@[j].channel_type,
        decreases channels.len() - i,
    {
        out.push(channels[i].to_legacy());
        i += 1;
    }
    out
}

// ---------------------------------------------------------------------------
// Conversations
// ---------------------------------------------------------------------------

pub open spec fn conversation_line(c: DmConversation) -> Seq<char> {
    moment_text(c.last_post_at, "%Y-%m-%d %H:%M"@) + " "@ + c.id@ + " "@ + c.name@
}

impl HumanReadable for Vec<DmConversation> {
    open spec fn human(&self) -> Seq<char> {
        joined(
            self@.map_values(|c: DmConversation| conversation_line(c)) + seq![
                Seq::<char>::empty(),
                "Use 'chanvoy dm read <username>' to read a conversation."@,
            ],
            "\n"@,
        )
    }

    fn to_human_string(&self) -> (r: String) {
        let ghost shown = self@.map_values(|c: DmConversation| conversation_line(c));
        let mut lines: Vec<String> = Vec::new();
        let mut i: usize = 0;
        while i < self.len()
            invariant
                i <= self@.len(),
                shown == self@.map_values(|c: DmConversation| conversation_line(c)),
                texts(lines@) == shown.take(i as int),
            decreases self.len() - i,
        {
            let ghost before = lines@;
            let mut m = format_dm_timestamp(self[i].last_post_at);
            m.append(" ");
            m.append(self[i].id.as_str());
            m.append(" ");
            m.append(self[i].name.as_str());
            let ghost t = m@;
            lines.push(m);
            i += 1;
            proof {
                assert(texts(lines@) =~= texts(before).push(t));
                assert(shown.take(i as int) =~= shown.take(i - 1).push(t));
            }
        }
        let ghost before = lines@;
        lines.push(String::new());
        lines.push("Use 'chanvoy dm read <username>' to read a conversation.".to_owned());
        proof {
            assert(shown.take(i as int) =~= shown);
            assert(texts(lines@) =~= shown + seq![
                Seq::<char>::empty(),
                "Use 'chanvoy dm read <username>' to read a conversation."@,
            ]);
        }
        join(&lines, "\n")
    }
}

// ---------------------------------------------------------------------------
// Channels of all teams
// ---------------------------------------------------------------------------

/// The most recently active channel first, those without activity last.
pub struct MostActiveFirst;

pub open spec fn activity(c: Channel) -> int {
    match c.last_post_at {
        Some(at) => at as int,
        None => i64::MIN as int,
    }
}

impl Order<Channel> for MostActiveFirst {
    open spec fn before(&self, a: Channel, b: Channel) -> bool {
        activity(a) > activity(b)
    }

    proof fn asymmetric(&self, a: Channel, b: Channel) {
    }

    proof fn negatively_transitive(&self, a: Channel, b: Channel, c: Channel) {
    }

    fn is_before(&self, a: &Channel, b: &Channel) -> (r: bool) {
        let x: i64 = match a.last_post_at {
            Some(at) => at,
            None => i64::MIN,
        };
        let y: i64 = match b.last_post_at {
            Some(at) => at,
            None => i64::MIN,
        };
        x > y
    }
}

/// `r` is a group with its channels sorted by activity.
pub open spec fn sorted_group(g: TeamChannels, r: TeamChannels) -> bool {
    &&& r.team_id == g.team_id
    &&& r.team_name == g.team_name
    &&& r.team_display_name == g.team_display_name
    &&& stably_sorted(MostActiveFirst, g.channels@, r.channels@)
}

/// Sorts the channels of each team by activity. The order of the teams stays.
pub fn sort_groups_by_active(groups: Vec<TeamChannels>) -> (r: Vec<TeamChannels>)
    ensures
        r@.len() == groups@.len(),
        forall|i: int| 0 <= i < r@.len() ==> sorted_group(groups@[i], #[trigger] r@[i]),
{
    let ghost all = groups@;
    let mut rest = groups;
    let mut out: Vec<TeamChannels> = Vec::new();
    let n: usize = rest.len();
    let mut i: usize = 0;
    while i < n
        invariant
            i <= n,
            n == all.len(),
            rest@ == all.skip(i as int),
            out@.len() == i,
            forall|j: int| 0 <= j < i ==> sorted_group(all[j], #[trigger] out@[j]),
        decreases n - i,
    {
        let g = rest.remove(0);
        proof {
            assert(g == all[i as int]);
            assert(rest@ =~= all.skip(i + 1));
        }
        out.push(
            TeamChannels {
                team_id: g.team_id,
                team_name: g.team_name,
                team_display_name: g.team_display_name,
                channels: stable_sort(&MostActiveFirst, g.channels),
            },
        );
        i += 1;
    }
    out
}

/// The groups of one team, in their order.
pub open spec fn of_team(groups: Seq<TeamChannels>, team: Seq<char>) -> Seq<TeamChannels>
    decreases groups.len(),
{
    if groups.len() == 0 {
        Seq::empty()
    } else if groups[0].team_name@ == team {
        seq![groups[0]] + of_team(groups.drop_first(), team)
    } else {
        of_team(groups.drop_first(), team)
    }
}

/// The groups of one team.
pub fn retain_team(groups: Vec<TeamChannels>, team: &str) -> (r: Vec<TeamChannels>)
    ensures
        r@ == of_team(groups@, team@),
{
    let ghost all = groups@;
    let mut rest = groups;
    let mut out: Vec<TeamChannels> = Vec::new();
    proof {
        assert(out@ + of_team(all, team@) =~= of_team(all, team@));
    }
    while rest.len() > 0
        invariant
            out@ + of_team(rest@, team@) == of_team(all, team@),
        decreases rest@.len(),
    {
        let ghost before = rest@;
        let ghost kept = out@;
        let g = rest.remove(0);
        proof {
            assert(rest@ =~= before.drop_first());
        }
        if str_eq(g.team_name.as_str(), team) {
            out.push(g);
            proof {
                assert(out@ + of_team(rest@, team@) =~= kept + of_team(before, team@));
            }
        }
    }
    proof {
        assert(out@ + of_team(rest@, team@) =~= out@);
    }
    out
}

/// The groups that a listing shows, before any sorting.
pub open spec fn listed_groups(
    groups: Seq<TeamChannels>,
    team: Option<String>,
) -> Seq<TeamChannels> {
    match team {
        Some(name) => of_team(groups, name@),
        None => groups,
    }
}

/// Whether a listing is sorted by activity.
pub open spec fn by_activity(args: ChannelsArgs) -> bool {
    args.sort matches Some(s) && s@ == "active"@
}

/// The groups that a listing shows: those of one team where one is named, and their
/// channels by activity where that is asked for.
pub fn handle_channels_command(args: &ChannelsArgs, groups: Vec<TeamChannels>) -> (r: Vec<
    TeamChannels,
>)
    ensures
        !by_activity(*args) ==> r@ == listed_groups(groups@, args.team),
        by_activity(*args) ==> r@.len() == listed_groups(groups@, args.team).len() && forall|
            i: int,
        |
            0 <= i < r@.len() ==> sorted_group(
                listed_groups(groups@, args.team)[i],
                #[trigger] r@[i],
            ),
{
    let kept = match &args.team {
        Some(name) => retain_team(groups, name.as_str()),
        None => groups,
    };
    let sorts = match &args.sort {
        Some(s) => str_eq(s.as_str(), "active"),
        None => false,
    };
    if sorts {
        sort_groups_by_active(kept)
    } else {
        kept
    }
}

/// `team/channel`.
pub open spec fn qualified_name(team: Seq<char>, channel: Seq<char>) -> Seq<char> {
    team + "/"@ + channel
}

pub open spec fn qualified_names(g: TeamChannels) -> Seq<Seq<char>> {
    g.channels@.map_values(|c: Channel| qualified_name(g.team_name@, c.name@))
}

fn qualifieds(g: &TeamChannels) -> (r: Vec<String>)
    ensures
        texts(r@) == qualified_names(*g),
{
    let mut out: Vec<String> = Vec::new();
    let mut i: usize = 0;
    while i < g.channels.len()
        invariant
            i <= g.channels@.len(),
            out@.len() == i,
            forall|j: int|
                0 <= j < i ==> (#[trigger] out@[j])@ == qualified_name(
                    g.team_name@,
                    g.channels@[j].name@,
                ),
        decreases g.channels.len() - i,
    {
        out.push(concat3(g.team_name.as_str(), "/", g.channels[i].name.as_str()));
        i += 1;
    }
    proof {
        assert(texts(out@) =~= qualified_names(*g));
    }
    out
}

/// A row: the qualified name and the display name, padded, the type, and how long
/// ago the channel was active.
pub open spec fn team_row(team: Seq<char>, c: Channel, nw: nat, dw: nat, now: i64) -> Seq<char> {
    "  "@ + padded(qualified_name(team, c.name@), nw) + "  "@ + padded(c.display_name@, dw) + "  "@
        + c.channel_type@ + "  "@ + last_active_text(c.last_post_at, now) + "\n"@
}

/// The rows of a team one after another.
pub open spec fn team_rows(
    team: Seq<char>,
    cs: Seq<Channel>,
    nw: nat,
    dw: nat,
    now: i64,
) -> Seq<char>
    decreases cs.len(),
{
    if cs.len() == 0 {
        Seq::empty()
    } else {
        team_rows(team, cs.drop_last(), nw, dw, now) + team_row(team, cs.last(), nw, dw, now)
    }
}

/// A team: its name, and its channels.
pub open spec fn team_block(g: TeamChannels, now: i64) -> Seq<char> {
    "=== "@ + g.team_name@ + " ===\n"@ + (if g.channels@.len() == 0 {
        "  (no channels)\n"@
    } else {
        team_rows(
            g.team_name@,
            g.channels@,
            widest(qualified_names(g)),
            widest(display_names(g.channels@)),
            now,
        )
    })
}

fn render_team(g: &TeamChannels, now: i64) -> (r: String)
    ensures
        r@ == team_block(*g, now),
{
    let mut out = concat3("=== ", g.team_name.as_str(), " ===\n");
    if g.channels.len() == 0 {
        out.append("  (no channels)\n");
        return out;
    }
    let nw: usize = widest_of(&qualifieds(g));
    let dw: usize = widest_of(&displays(&g.channels));
    let ghost head = out@;
    let mut rows = String::new();
    let mut i: usize = 0;
    proof {
        assert(g.channels@.take(0) =~= Seq::empty());
        assert(rows@ =~= team_rows(g.team_name@, g.channels@.take(0), nw as nat, dw as nat, now));
    }
    while i < g.channels.len()
        invariant
            i <= g.channels@.len(),
            rows@ == team_rows(
                g.team_name@,
                g.channels@.take(i as int),
                nw as nat,
                dw as nat,
                now,
            ),
        decreases g.channels.len() - i,
    {
        let ghost before = rows@;
        proof {
            assert(g.channels@.take(i + 1).drop_last() =~= g.channels@.take(i as int));
        }
        let c = &g.channels[i];
        rows.append("  ");
        rows.append(
            pad(concat3(g.team_name.as_str(), "/", c.name.as_str()).as_str(), nw).as_str(),
        );
        rows.append("  ");
        rows.append(pad(c.display_name.as_str(), dw).as_str());
        rows.append("  ");
        rows.append(c.channel_type.as_str());
        rows.append("  ");
        rows.append(format_last_active(c.last_post_at, now).as_str());
        rows.append("\n");
        proof {
            assert(rows@ =~= before + team_row(g.team_name@, *c, nw as nat, dw as nat, now));
        }
        i += 1;
    }
    proof {
        assert(g.channels@.take(i as int) =~= g.channels@);
    }
    out.append(rows.as_str());
    out
}

/// The teams with their channels, a blank line between two teams.
pub open spec fn team_blocks(groups: Seq<TeamChannels>, now: i64) -> Seq<char>
    decreases groups.len(),
{
    if groups.len() == 0 {
        Seq::empty()
    } else if groups.len() == 1 {
        team_block(groups[0], now)
    } else {
        team_blocks(groups.drop_last(), now) + "\n"@ + team_block(groups.last(), now)
    }
}

/// The teams with their channels as they are at the moment `now_millis`.
pub fn render_team_channels_at(groups: &Vec<TeamChannels>, now_millis: i64) -> (r: String)
    ensures
        r@ == team_blocks(groups@, now_millis),
{
    let mut out = String::new();
    let mut i: usize = 0;
    proof {
        assert(groups@.take(0) =~= Seq::empty());
    }
    while i < groups.len()
        invariant
            i <= groups@.len(),
            out@ == team_blocks(groups@.take(i as int), now_millis),
        decreases groups.len() - i,
    {
        let ghost before = out@;
        proof {
            assert(groups@.take(i + 1).drop_last() =~= groups@.take(i as int));
        }
        if i > 0 {
            out.append("\n");
        }
        out.append(render_team(&groups[i], now_millis).as_str());
        proof {
            if i == 0 {
                assert(out@ =~= team_block(groups@[0], now_millis));
                assert(groups@.take(1)[0] == groups@[0]);
            }
        }
        i += 1;
    }
    proof {
        assert(groups@.take(i as int) =~= groups@);
    }
    out
}

/// The teams with their channels as they are now.
pub fn render_team_channels_human(groups: &Vec<TeamChannels>) -> (r: String)
    ensures
        exists|now: i64| millis_were_read(now) && r@ == #[trigger] team_blocks(groups@, now),
{
    let now = now_unix_millis();
    let r = render_team_channels_at(groups, now);
    proof {
        assert(r@ == team_blocks(groups@, now));
    }
    r
}

// ---------------------------------------------------------------------------
// Cursors
// ---------------------------------------------------------------------------

pub open spec fn dash_or(s: Option<String>) -> Seq<char> {
    match s {
        Some(t) => t@,
        None => "\u{2014}"@,
    }
}

fn text_or_dash(s: &Option<String>) -> (r: String)
    ensures
        r@ == dash_or(*s),
{
    match s {
        Some(t) => t.clone(),
        None => "\u{2014}".to_owned(),
    }
}

/// The mention cursor, behind a blank line.
pub open spec fn mentions_line(m: AttentionMentionEntry) -> Seq<char> {
    "\nmentions: source="@ + source_label(m.source) + " newest_seen="@ + dash_or(m.newest_seen)
        + " updated="@ + ts_text(m.updated_at) + "\n"@
}

fn show_mentions(m: &AttentionMentionEntry) -> (r: String)
    ensures
        r@ == mentions_line(*m),
{
    let mut out = "\nmentions: source=".to_owned();
    out.append(attention_source_label(&m.source));
    out.append(" newest_seen=");
    out.append(text_or_dash(&m.newest_seen).as_str());
    out.append(" updated=");
    out.append(format_ts(m.updated_at).as_str());
    out.append("\n");
    out
}

/// The texts of the entry can be cut to the width of their columns.
pub open spec fn entry_fits(e: AttentionChannelEntry) -> bool {
    cuttable(e.channel@, 24) && (e.newest_seen matches Some(id) ==> cuttable(id@, 20))
}

pub open spec fn quarantine_fits(q: QuarantinedCursor) -> bool {
    cuttable(q.legacy_channel_name@, 24) && cuttable(
        joined(texts(q.ambiguous_teams@), ", "@),
        40,
    )
}

/// The texts of the listing can be cut to the width of their columns.
pub open spec fn list_fits(r: AttentionListResult) -> bool {
    &&& forall|i: int| 0 <= i < r.channels@.len() ==> entry_fits(#[trigger] r.channels@[i])
    &&& forall|i: int| 0 <= i < r.quarantined@.len() ==> quarantine_fits(#[trigger] r.quarantined@[i])
}

pub open spec fn newest_cell(s: Option<String>) -> Seq<char> {
    match s {
        Some(id) => cut(id@, 20),
        None => "\u{2014}"@,
    }
}

/// A row of five columns.
pub open spec fn five_columns(
    a: Seq<char>,
    b: Seq<char>,
    c: Seq<char>,
    d: Seq<char>,
    e: Seq<char>,
) -> Seq<char> {
    padded(a, 24) + " "@ + padded(b, 20) + " "@ + padded(c, 20) + " "@ + padded(d, 18) + " "@ + e
        + "\n"@
}

fn row_of_five(a: &str, b: &str, c: &str, d: &str, e: &str) -> (r: String)
    ensures
        r@ == five_columns(a@, b@, c@, d@, e@),
{
    let mut out = pad(a, 24);
    out.append(" ");
    out.append(pad(b, 20).as_str());
    out.append(" ");
    out.append(pad(c, 20).as_str());
    out.append(" ");
    out.append(pad(d, 18).as_str());
    out.append(" ");
    out.append(e);
    out.append("\n");
    out
}

pub open spec fn entry_row(e: AttentionChannelEntry) -> Seq<char> {
    five_columns(
        cut(e.channel@, 24),
        source_label(e.source),
        newest_cell(e.newest_seen),
        ts_text(e.updated_at),
        ts_text(e.last_checked_at),
    )
}

pub open spec fn entry_rows(es: Seq<AttentionChannelEntry>) -> Seq<char>
    decreases es.len(),
{
    if es.len() == 0 {
        Seq::empty()
    } else {
        entry_rows(es.drop_last()) + entry_row(es.last())
    }
}

fn show_entry(e: &AttentionChannelEntry) -> (r: String)
    requires
        entry_fits(*e),
    ensures
        r@ == entry_row(*e),
{
    let newest = match &e.newest_seen {
        Some(id) => truncate(id.as_str(), 20).to_owned(),
        None => "\u{2014}".to_owned(),
    };
    row_of_five(
        truncate(e.channel.as_str(), 24),
        attention_source_label(&e.source),
        newest.as_str(),
        format_ts(e.updated_at).as_str(),
        format_ts(e.last_checked_at).as_str(),
    )
}

fn show_entries(es: &Vec<AttentionChannelEntry>) -> (r: String)
    requires
        forall|i: int| 0 <= i < es@.len() ==> entry_fits(#[trigger] es@[i]),
    ensures
        r@ == entry_rows(es@),
{
    let mut out = String::new();
    let mut i: usize = 0;
    proof {
        assert(es@.take(0) =~= Seq::empty());
    }
    while i < es.len()
        invariant
            i <= es@.len(),
            forall|j: int| 0 <= j < es@.len() ==> entry_fits(#[trigger] es@[j]),
            out@ == entry_rows(es@.take(i as int)),
        decreases es.len() - i,
    {
        proof {
            assert(es@.take(i + 1).drop_last() =~= es@.take(i as int));
        }
        out.append(show_entry(&es[i]).as_str());
        i += 1;
    }
    proof {
        assert(es@.take(i as int) =~= es@);
    }
    out
}

/// A row of three columns.
pub open spec fn three_columns(a: Seq<char>, b: Seq<char>, c: Seq<char>) -> Seq<char> {
    "  "@ + padded(a, 24) + " "@ + padded(b, 40) + " "@ + c + "\n"@
}

fn row_of_three(a: &str, b: &str, c: &str) -> (r: String)
    ensures
        r@ == three_columns(a@, b@, c@),
{
    let mut out = "  ".to_owned();
    out.append(pad(a, 24).as_str());
    out.append(" ");
    out.append(pad(b, 40).as_str());
    out.append(" ");
    out.append(c);
    out.append("\n");
    out
}

pub open spec fn quarantine_row(q: QuarantinedCursor) -> Seq<char> {
    three_columns(
        cut(q.legacy_channel_name@, 24),
        cut(joined(texts(q.ambiguous_teams@), ", "@), 40),
        ts_text(Some(q.quarantined_at)),
    )
}

pub open spec fn quarantine_rows(qs: Seq<QuarantinedCursor>) -> Seq<char>
    decreases qs.len(),
{
    if qs.len() == 0 {
        Seq::empty()
    } else {
        quarantine_rows(qs.drop_last()) + quarantine_row(qs.last())
    }
}

fn show_quarantine_rows(qs: &Vec<QuarantinedCursor>) -> (r: String)
    requires
        forall|i: int| 0 <= i < qs@.len() ==> quarantine_fits(#[trigger] qs@[i]),
    ensures
        r@ == quarantine_rows(qs@),
{
    let mut out = String::new();
    let mut i: usize = 0;
    proof {
        assert(qs@.take(0) =~= Seq::empty());
    }
    while i < qs.len()
        invariant
            i <= qs@.len(),
            forall|j: int| 0 <= j < qs@.len() ==> quarantine_fits(#[trigger] qs@[j]),
            out@ == quarantine_rows(qs@.take(i as int)),
        decreases qs.len() - i,
    {
        proof {
            assert(qs@.take(i + 1).drop_last() =~= qs@.take(i as int));
        }
        let q = &qs[i];
        let teams = join(&q.ambiguous_teams, ", ");
        out.append(
            row_of_three(
                truncate(q.legacy_channel_name.as_str(), 24),
                truncate(teams.as_str(), 40),
                format_ts(Some(q.quarantined_at)).as_str(),
            ).as_str(),
        );
        i += 1;
    }
    proof {
        assert(qs@.take(i as int) =~= qs@);
    }
    out
}

/// The cursors that were set aside; nothing where there are none.
pub open spec fn quarantine_section(qs: Seq<QuarantinedCursor>) -> Seq<char> {
    if qs.len() == 0 {
        Seq::empty()
    } else {
        "\nquarantined ("@ + decimal_text(qs.len()) + (if qs.len() == 1 {
            " record"@
        } else {
            " records"@
        }) + "):\n"@ + three_columns("LEGACY_NAME"@, "AMBIGUOUS_TEAMS"@, "QUARANTINED_AT"@)
            + quarantine_rows(qs)
            + "  (re-establish per-team cursors via `--team <slug>` or `<team>/<channel>` syntax)\n"@
    }
}

/// The listing of cursors.
pub open spec fn attention_list_text(r: AttentionListResult) -> Seq<char> {
    "profile: "@ + r.profile@ + "\n"@ + (if r.channels@.len() == 0 {
        "(no tracked channels)\n"@
    } else {
        five_columns("CHANNEL"@, "SOURCE"@, "NEWEST_SEEN"@, "UPDATED"@, "CHECKED"@) + entry_rows(
            r.channels@,
        )
    }) + mentions_line(r.mentions) + quarantine_section(r.quarantined@)
}

/// The listing of cursors, with those that were set aside.
pub fn render_attention_list_text(result: &AttentionListResult) -> (r: String)
    requires
        list_fits(*result),
    ensures
        r@ == attention_list_text(*result),
{
    let mut out = concat3("profile: ", result.profile.as_str(), "\n");
    if result.channels.len() == 0 {
        out.append("(no tracked channels)\n");
    } else {
        let mut table = row_of_five("CHANNEL", "SOURCE", "NEWEST_SEEN", "UPDATED", "CHECKED");
        table.append(show_entries(&result.channels).as_str());
        out.append(table.as_str());
    }
    out.append(show_mentions(&result.mentions).as_str());
    let ghost before = out@;
    let mut section = String::new();
    if result.quarantined.len() > 0 {
        section.append("\nquarantined (");
        section.append(u64_text(result.quarantined.len() as u64).as_str());
        if result.quarantined.len() == 1 {
            section.append(" record");
        } else {
            section.append(" records");
        }
        section.append("):\n");
        section.append(row_of_three("LEGACY_NAME", "AMBIGUOUS_TEAMS", "QUARANTINED_AT").as_str());
        section.append(show_quarantine_rows(&result.quarantined).as_str());
        section.append(
            "  (re-establish per-team cursors via `--team <slug>` or `<team>/<channel>` syntax)\n",
        );
    }
    proof {
        assert(section@ =~= quarantine_section(result.quarantined@));
    }
    out.append(section.as_str());
    out
}

fn is_cuttable(s: &str, max: usize) -> (r: bool)
    ensures
        r == cuttable(s@, max as int),
{
    byte_len(s) <= max || s.is_char_boundary(max)
}

/// Whether the texts of the listing can be cut to the width of their columns.
pub fn attention_list_fits(result: &AttentionListResult) -> (r: bool)
    ensures
        r == list_fits(*result),
{
    let mut i: usize = 0;
    while i < result.channels.len()
        invariant
            i <= result.channels@.len(),
            forall|j: int| 0 <= j < i ==> entry_fits(#[trigger] result.channels@[j]),
        decreases result.channels.len() - i,
    {
        let e = &result.channels[i];
        let newest_fits = match &e.newest_seen {
            Some(id) => is_cuttable(id.as_str(), 20),
            None => true,
        };
        if !is_cuttable(e.channel.as_str(), 24) || !newest_fits {
            proof {
                assert(!entry_fits(result.channels@[i as int]));
            }
            return false;
        }
        i += 1;
    }
    let mut k: usize = 0;
    while k < result.quarantined.len()
        invariant
            k <= result.quarantined@.len(),
            forall|j: int|
                0 <= j < result.channels@.len() ==> entry_fits(#[trigger] result.channels@[j]),
            forall|j: int| 0 <= j < k ==> quarantine_fits(#[trigger] result.quarantined@[j]),
        decreases result.quarantined.len() - k,
    {
        let q = &result.quarantined[k];
        let teams = join(&q.ambiguous_teams, ", ");
        if !is_cuttable(q.legacy_channel_name.as_str(), 24) || !is_cuttable(teams.as_str(), 40) {
            proof {
                assert(!quarantine_fits(result.quarantined@[k as int]));
            }
            return false;
        }
        k += 1;
    }
    true
}

/// The cursor of one channel.
pub open spec fn attention_show_text(r: AttentionShowResult) -> Seq<char> {
    "profile: "@ + r.profile@ + "\nchannel: "@ + r.channel.channel@ + "\nsource:  "@
        + source_label(r.channel.source) + "\nnewest_seen:     "@ + dash_or(r.channel.newest_seen)
        + "\nupdated_at:      "@ + ts_text(r.channel.updated_at) + "\nlast_checked_at: "@
        + ts_text(r.channel.last_checked_at) + "\n"@ + mentions_line(r.mentions)
}

pub fn render_attention_show_text(result: &AttentionShowResult) -> (r: String)
    ensures
        r@ == attention_show_text(*result),
{
    let entry = &result.channel;
    let mut out = "profile: ".to_owned();
    out.append(result.profile.as_str());
    out.append("\nchannel: ");
    out.append(entry.channel.as_str());
    out.append("\nsource:  ");
    out.append(attention_source_label(&entry.source));
    out.append("\nnewest_seen:     ");
    out.append(text_or_dash(&entry.newest_seen).as_str());
    out.append("\nupdated_at:      ");
    out.append(format_ts(entry.updated_at).as_str());
    out.append("\nlast_checked_at: ");
    out.append(format_ts(entry.last_checked_at).as_str());
    out.append("\n");
    out.append(show_mentions(&result.mentions).as_str());
    out
}

// ---------------------------------------------------------------------------
// Laws
// ---------------------------------------------------------------------------

/// A column is as wide as its widest text, and no wider.
pub proof fn columns_are_as_wide_as_their_texts(ss: Seq<Seq<char>>, i: int)
    ensures
        0 <= i < ss.len() ==> encode_utf8(ss[i]).len() <= widest(ss),
        ss.len() > 0 ==> exists|k: int| 0 <= k < ss.len() && encode_utf8(#[trigger] ss[k]).len()
            == widest(ss),
        ss.len() == 0 ==> widest(ss) == 0,
    decreases ss.len(),
{
    if ss.len() > 0 {
        let front = ss.drop_last();
        let last = ss.len() - 1;
        columns_are_as_wide_as_their_texts(front, i);
        if 0 <= i < last {
            assert(front[i] == ss[i]);
        }
        if widest(ss) == encode_utf8(ss.last()).len() {
            assert(ss[last] == ss.last());
        } else {
            let k = choose|k: int|
                0 <= k < front.len() && encode_utf8(#[trigger] front[k]).len() == widest(front);
            assert(ss[k] == front[k]);
        }
    }
}

/// A channel is shown with its name, its display name and its type.
pub proof fn channels_are_shown_in_columns(cs: Seq<Channel>, i: int)
    requires
        0 <= i < cs.len(),
    ensures
        channel_rows(cs).len() == cs.len(),
        channel_rows(cs)[i] == padded(cs[i].name@, widest(channel_names(cs))) + "  "@ + padded(
            cs[i].display_name@,
            widest(display_names(cs)),
        ) + "  "@ + cs[i].channel_type@,
        channel_names(cs)[i] == cs[i].name@,
        display_names(cs)[i] == cs[i].display_name@,
{
}

/// A conversation is shown with its moment, its id and its name.
pub proof fn conversations_are_shown(c: DmConversation)
    ensures
        conversation_line(c) == moment_text(c.last_post_at, "%Y-%m-%d %H:%M"@) + " "@ + c.id@ + " "@
            + c.name@,
{
}

/// Of two channels the one with the later post stands first, and one without posts last.
pub proof fn active_channels_stand_first(g: TeamChannels, r: TeamChannels, i: int, j: int)
    requires
        sorted_group(g, r),
        0 <= i < j < r.channels@.len(),
    ensures
        r.team_name == g.team_name && r.team_id == g.team_id && r.team_display_name
            == g.team_display_name,
        r.channels@[i].last_post_at is Some && r.channels@[j].last_post_at is Some
            ==> r.channels@[i].last_post_at->0 >= r.channels@[j].last_post_at->0,
        r.channels@[i].last_post_at is None && r.channels@[j].last_post_at is Some
            ==> r.channels@[j].last_post_at->0 == i64::MIN,
        r.channels@.to_multiset() == g.channels@.to_multiset(),
{
    crate::order::sorted_items_are_in_order(MostActiveFirst, g.channels@, r.channels@);
    assert(!MostActiveFirst.before(r.channels@[j], r.channels@[i]));
}

/// The channels of a team that is asked for are those of that team alone, and without one
/// those of all teams.
pub proof fn teams_are_kept_by_name(groups: Seq<TeamChannels>, team: Seq<char>, g: TeamChannels)
    ensures
        of_team(groups, team).contains(g) <==> groups.contains(g) && g.team_name@ == team,
        listed_groups(groups, None) == groups,
    decreases groups.len(),
{
    if groups.len() > 0 {
        let rest = groups.drop_first();
        teams_are_kept_by_name(rest, team, g);
        let all = of_team(groups, team);
        let later = of_team(rest, team);
        if all.contains(g) {
            let k = all.index_of(g);
            if all.len() == later.len() {
                assert(later[k] == g);
                let i = rest.index_of(g);
                assert(groups[i + 1] == g);
            } else if k > 0 {
                assert(later[k - 1] == g);
                let i = rest.index_of(g);
                assert(groups[i + 1] == g);
            } else {
                assert(groups[0] == g);
            }
        }
        if groups.contains(g) && g.team_name@ == team {
            let i = groups.index_of(g);
            if i == 0 {
                assert(all[0] == g);
            } else {
                assert(rest[i - 1] == g);
                let k = later.index_of(g);
                if all.len() == later.len() {
                    assert(all[k] == g);
                } else {
                    assert(all[k + 1] == g);
                }
            }
        }
    }
}

/// Channels are sorted by activity only where that is asked for.
pub proof fn sorting_is_asked_for(args: ChannelsArgs)
    ensures
        by_activity(args) <==> args.sort is Some && args.sort->0@ == "active"@,
        args.team is Some ==> forall|groups: Seq<TeamChannels>| #[trigger]
            listed_groups(groups, args.team) == of_team(groups, args.team->0@),
{
}

/// A team is shown under its name, with a row for each channel that names team and channel,
/// display name, type and activity.
pub proof fn teams_are_shown_channel_by_channel(
    g: TeamChannels,
    team: Seq<char>,
    c: Channel,
    rest: Seq<Channel>,
    nw: nat,
    dw: nat,
    now: i64,
)
    ensures
        g.channels@.len() == 0 ==> team_block(g, now) == "=== "@ + g.team_name@ + " ===\n"@
            + "  (no channels)\n"@,
        g.channels@.len() > 0 ==> team_block(g, now) == "=== "@ + g.team_name@ + " ===\n"@
            + team_rows(
            g.team_name@,
            g.channels@,
            widest(qualified_names(g)),
            widest(display_names(g.channels@)),
            now,
        ),
        team_rows(team, rest.push(c), nw, dw, now) == team_rows(team, rest, nw, dw, now) + ("  "@
            + padded(team + "/"@ + c.name@, nw) + "  "@ + padded(c.display_name@, dw) + "  "@
            + c.channel_type@ + "  "@ + last_active_text(c.last_post_at, now) + "\n"@),
        team_rows(team, Seq::empty(), nw, dw, now) == Seq::<char>::empty(),
{
    assert(rest.push(c).drop_last() =~= rest);
}

/// Teams are shown one after another, with an empty line between them.
pub proof fn teams_are_shown_one_after_another(groups: Seq<TeamChannels>, g: TeamChannels, now: i64)
    ensures
        team_blocks(seq![g], now) == team_block(g, now),
        groups.len() > 0 ==> team_blocks(groups.push(g), now) == team_blocks(groups, now) + "\n"@
            + team_block(g, now),
        team_blocks(Seq::empty(), now) == Seq::<char>::empty(),
{
    assert(groups.push(g).drop_last() =~= groups);
}

/// The list of cursors shows the profile, a row for each channel with where its cursor comes
/// from, what it saw and when, the mentions, and what was set aside where there is any.
pub proof fn cursors_are_listed(
    r: AttentionListResult,
    es: Seq<AttentionChannelEntry>,
    e: AttentionChannelEntry,
)
    ensures
        r.channels@.len() == 0 && r.quarantined@.len() == 0 ==> attention_list_text(r)
            == "profile: "@ + r.profile@ + "\n"@ + "(no tracked channels)\n"@ + mentions_line(
            r.mentions,
        ),
        r.channels@.len() > 0 && r.quarantined@.len() == 0 ==> attention_list_text(r)
            == "profile: "@ + r.profile@ + "\n"@ + (five_columns(
            "CHANNEL"@,
            "SOURCE"@,
            "NEWEST_SEEN"@,
            "UPDATED"@,
            "CHECKED"@,
        ) + entry_rows(r.channels@)) + mentions_line(r.mentions),
        r.quarantined@.len() > 0 ==> attention_list_text(r) == "profile: "@ + r.profile@ + "\n"@ + (
        if r.channels@.len() == 0 {
            "(no tracked channels)\n"@
        } else {
            five_columns("CHANNEL"@, "SOURCE"@, "NEWEST_SEEN"@, "UPDATED"@, "CHECKED"@)
                + entry_rows(r.channels@)
        }) + mentions_line(r.mentions) + quarantine_section(r.quarantined@),
        entry_rows(es.push(e)) == entry_rows(es) + (padded(cut(e.channel@, 24), 24) + " "@ + padded(
            source_label(e.source),
            20,
        ) + " "@ + padded(
            if e.newest_seen is Some {
                cut(e.newest_seen->0@, 20)
            } else {
                "\u{2014}"@
            },
            20,
        ) + " "@ + padded(ts_text(e.updated_at), 18) + " "@ + ts_text(e.last_checked_at) + "\n"@),
        entry_rows(Seq::empty()) == Seq::<char>::empty(),
{
    assert(es.push(e).drop_last() =~= es);
    let base = "profile: "@ + r.profile@ + "\n"@ + (if r.channels@.len() == 0 {
        "(no tracked channels)\n"@
    } else {
        five_columns("CHANNEL"@, "SOURCE"@, "NEWEST_SEEN"@, "UPDATED"@, "CHECKED"@) + entry_rows(
            r.channels@,
        )
    }) + mentions_line(r.mentions);
    assert(base + Seq::<char>::empty() =~= base);
}

/// What was set aside is counted and shown with its name, the teams that it could be of, and
/// when it was set aside.
pub proof fn what_was_set_aside_is_shown(qs: Seq<QuarantinedCursor>, q: QuarantinedCursor)
    ensures
        qs.len() == 0 ==> quarantine_section(qs) == Seq::<char>::empty(),
        qs.len() == 1 ==> quarantine_section(qs) == "\nquarantined ("@ + decimal_text(1)
            + " record"@ + "):\n"@ + three_columns(
            "LEGACY_NAME"@,
            "AMBIGUOUS_TEAMS"@,
            "QUARANTINED_AT"@,
        ) + quarantine_rows(qs)
            + "  (re-establish per-team cursors via `--team <slug>` or `<team>/<channel>` syntax)\n"@,
        qs.len() > 1 ==> quarantine_section(qs) == "\nquarantined ("@ + decimal_text(qs.len())
            + " records"@ + "):\n"@ + three_columns(
            "LEGACY_NAME"@,
            "AMBIGUOUS_TEAMS"@,
            "QUARANTINED_AT"@,
        ) + quarantine_rows(qs)
            + "  (re-establish per-team cursors via `--team <slug>` or `<team>/<channel>` syntax)\n"@,
        quarantine_rows(qs.push(q)) == quarantine_rows(qs) + ("  "@ + padded(
            cut(q.legacy_channel_name@, 24),
            24,
        ) + " "@ + padded(cut(joined(texts(q.ambiguous_teams@), ", "@), 40), 40) + " "@ + ts_text(
            Some(q.quarantined_at),
        ) + "\n"@),
{
    assert(qs.push(q).drop_last() =~= qs);
}

/// Mentions are shown with their source, the newest that was seen, and when.
pub proof fn mentions_and_single_cursors_are_shown(
    m: AttentionMentionEntry,
    r: AttentionShowResult,
)
    ensures
        mentions_line(m) == "\nmentions: source="@ + source_label(m.source) + " newest_seen="@ + (
        if m.newest_seen is Some {
            m.newest_seen->0@
        } else {
            "\u{2014}"@
        }) + " updated="@ + ts_text(m.updated_at) + "\n"@,
        attention_show_text(r) == "profile: "@ + r.profile@ + "\nchannel: "@ + r.channel.channel@
            + "\nsource:  "@ + source_label(r.channel.source) + "\nnewest_seen:     "@ + (
        if r.channel.newest_seen is Some {
            r.channel.newest_seen->0@
        } else {
            "\u{2014}"@
        }) + "\nupdated_at:      "@ + ts_text(r.channel.updated_at) + "\nlast_checked_at: "@
            + ts_text(r.channel.last_checked_at) + "\n"@ + mentions_line(r.mentions),
{
}

/// Without a team every group is listed, in its place, with its channels.
pub proof fn every_group_is_listed(
    args: &ChannelsArgs,
    groups: Vec<TeamChannels>,
    r: Vec<TeamChannels>,
    i: int,
)
    requires
        call_ensures(handle_channels_command, (args, groups), r),
        args.team is None,
        0 <= i < groups@.len(),
    ensures
        r@.len() == groups@.len(),
        r@[i].team_id == groups@[i].team_id && r@[i].team_name == groups@[i].team_name
            && r@[i].team_display_name == groups@[i].team_display_name,
        r@[i].channels@.to_multiset() == groups@[i].channels@.to_multiset(),
        !(args.sort is Some && args.sort->0@ == "active"@) ==> r@ == groups@,
{
    if by_activity(*args) {
        assert(sorted_group(groups@[i], r@[i]));
    }
}

/// Each channel keeps its place in the older form, which leaves only its last post out.
pub proof fn older_forms_keep_the_channels(
    channels: &Vec<Channel>,
    r: Vec<LegacyChannel>,
    i: int,
)
    requires
        call_ensures(legacy_channels, (channels,), r),
        0 <= i < channels@.len(),
    ensures
        r@.len() == channels@.len(),
        r@[i].id == channels@[i].id && r@[i].name == channels@[i].name && r@[i].display_name
            == channels@[i].display_name && r@[i].channel_type == channels@[i].channel_type,
{
}

/// Channels are shown one to a line, and conversations too, under which stands how one is read.
pub proof fn lists_are_shown_line_by_line(channels: Vec<Channel>, dms: Vec<DmConversation>, i: int)
    requires
        0 <= i < dms@.len(),
    ensures
        channels.human() == joined(channel_rows(channels@), "\n"@),
        exists|lines: Seq<Seq<char>>|
            dms.human() == #[trigger] joined(lines, "\n"@) && lines.len() == dms@.len() + 2 && lines[i]
                == conversation_line(dms@[i]) && lines[dms@.len() as int].len() == 0 && lines.last()
                == "Use 'chanvoy dm read <username>' to read a conversation."@,
{
    let lines = dms@.map_values(|c: DmConversation| conversation_line(c)) + seq![
        Seq::<char>::empty(),
        "Use 'chanvoy dm read <username>' to read a conversation."@,
    ];
    assert(dms.human() == joined(lines, "\n"@));
}

} // verus!
