//! Which channel a name means.
//!
//! `<team>/<channel>` and an explicit team name one team, of which the bot has to
//! be a member. Any other name is looked up in the primary team, then in the other
//! teams of the bot, where it has to be unique. A list of teams that does not do
//! is fetched afresh once.
//!
//! The search asks one question at a time; whoever runs it gets the answers.
use vstd::prelude::*;
use vstd::string::*;

use crate::channels::{find_team, names_of_teams, team_names};
use crate::error::CoreError;
use crate::paths::opt_view;
use crate::posts::absent;
use crate::text::{drop_leading, split_at_first, split_once, str_eq, texts, trim_start_char};
use crate::types::{ResolutionSource, ResolvedChannel, TeamInfo};

verus! {

/// A channel that was found by its name.
#[derive(Debug, PartialEq, Eq)]
pub struct FoundChannel {
    pub id: String,
    pub name: String,
}

/// A question of the search.
#[derive(Debug, PartialEq, Eq)]
pub enum Ask {
    /// The teams of the bot; a recent list will do.
    ListTeams,
    /// A fresh list of the teams of the bot.
    RefreshTeams,
    /// The id of a team.
    TeamId { slug: String },
    /// A channel of a team, by name.
    Channel { team_id: String, channel: String },
}

/// The answer to a question.
pub enum Answer {
    Teams(Result<Vec<TeamInfo>, CoreError>),
    TeamId(Result<String, CoreError>),
    Channel(Result<FoundChannel, CoreError>),
}

/// How far a search has come: which answer it waits for.
pub enum Stage {
    /// The teams, to find this one among them.
    Member { team: String, refreshed: bool },
    /// The fresh list, to find this team among them.
    MemberRefresh { team: String },
    /// The channel in this team.
    InTeam { team: TeamInfo },
    /// The id of the primary team.
    PrimaryId,
    /// The channel in the primary team.
    Primary { team_id: String },
    /// The teams, to look into all but the primary one.
    Others { refreshed: bool },
    /// The fresh list, to look into all but the primary one.
    OthersRefresh,
    /// The channel in the team at place `next`.
    Scan { refreshed: bool, teams: Vec<TeamInfo>, next: usize, matches: Vec<ResolvedChannel> },
    /// The teams, to report that none has the channel.
    Report,
}

/// A search for a channel.
pub struct ChannelSearch {
    pub primary: String,
    pub channel: String,
    pub stage: Stage,
}

/// What a search does next.
pub enum SearchStep {
    Ask(ChannelSearch, Ask),
    Done(Result<ResolvedChannel, CoreError>),
}

// ---------------------------------------------------------------------------
// What a name means
// ---------------------------------------------------------------------------

/// A channel with its team.
#[verifier::ext_equal]
pub struct Hit {
    pub channel_id: Seq<char>,
    pub channel_name: Seq<char>,
    pub team_id: Seq<char>,
    pub team_name: Seq<char>,
}

/// What a name means.
pub enum Meaning {
    Found { hit: Hit, source: ResolutionSource },
    NotAMember { team: Seq<char>, teams: Seq<Seq<char>> },
    NotFound { channel: Seq<char>, teams: Seq<Seq<char>> },
    Ambiguous { channel: Seq<char>, teams: Seq<Seq<char>> },
}

/// The teams and channels of the provider.
pub struct Directory {
    /// The teams that a recent list names.
    pub recent: Seq<TeamInfo>,
    /// The teams that a fresh list names.
    pub fresh: Seq<TeamInfo>,
    /// The id of the primary team.
    pub primary_id: Seq<char>,
    /// Id and name of the channel that a team has under a name.
    pub channels: spec_fn(Seq<char>, Seq<char>) -> Option<(Seq<char>, Seq<char>)>,
}

/// The channel that a team has under a name.
pub open spec fn hit_in(dir: Directory, team_id: Seq<char>, team: Seq<char>, channel: Seq<char>) -> Option<
    Hit,
> {
    match (dir.channels)(team_id, channel) {
        Some((id, name)) => Some(
            Hit { channel_id: id, channel_name: name, team_id, team_name: team },
        ),
        None => None,
    }
}

/// The channels under a name in all teams but the primary one.
pub open spec fn hits(
    dir: Directory,
    primary: Seq<char>,
    channel: Seq<char>,
    teams: Seq<TeamInfo>,
) -> Seq<Hit>
    decreases teams.len(),
{
    if teams.len() == 0 {
        Seq::empty()
    } else {
        let rest = hits(dir, primary, channel, teams.drop_first());
        let team = teams[0];
        if team.name@ == primary {
            rest
        } else {
            match hit_in(dir, team.id@, team.name@, channel) {
                Some(hit) => seq![hit] + rest,
                None => rest,
            }
        }
    }
}

pub open spec fn hit_teams(found: Seq<Hit>) -> Seq<Seq<char>> {
    found.map_values(|h: Hit| h.team_name)
}

/// What a name means if these are the channels in the other teams.
pub open spec fn among_others(channel: Seq<char>, found: Seq<Hit>) -> Option<Meaning> {
    if found.len() == 0 {
        None
    } else if found.len() == 1 {
        Some(Meaning::Found { hit: found[0], source: ResolutionSource::Fallback })
    } else {
        Some(Meaning::Ambiguous { channel, teams: hit_teams(found) })
    }
}

/// What a name means if the primary team has no such channel and a recent list of
/// teams does not help.
pub open spec fn meaning_afresh(dir: Directory, primary: Seq<char>, channel: Seq<char>) -> Meaning {
    match among_others(channel, hits(dir, primary, channel, dir.fresh)) {
        Some(m) => m,
        None => Meaning::NotFound { channel, teams: team_names(dir.fresh) },
    }
}

/// What a name means if the primary team has no such channel.
pub open spec fn meaning_elsewhere(dir: Directory, primary: Seq<char>, channel: Seq<char>) -> Meaning {
    match among_others(channel, hits(dir, primary, channel, dir.recent)) {
        Some(m) => m,
        None => meaning_afresh(dir, primary, channel),
    }
}

/// What a bare name means.
pub open spec fn meaning_of_name(dir: Directory, primary: Seq<char>, channel: Seq<char>) -> Meaning {
    match hit_in(dir, dir.primary_id, primary, channel) {
        Some(hit) => Meaning::Found { hit, source: ResolutionSource::Primary },
        None => meaning_elsewhere(dir, primary, channel),
    }
}

/// The first team with this name.
pub open spec fn team_named(teams: Seq<TeamInfo>, name: Seq<char>) -> Option<TeamInfo>
    decreases teams.len(),
{
    if teams.len() == 0 {
        None
    } else if teams[0].name@ == name {
        Some(teams[0])
    } else {
        team_named(teams.drop_first(), name)
    }
}

/// What a name means in a team that the bot is a member of.
pub open spec fn meaning_in_team(dir: Directory, team: TeamInfo, channel: Seq<char>) -> Meaning {
    match hit_in(dir, team.id@, team.name@, channel) {
        Some(hit) => Meaning::Found { hit, source: ResolutionSource::Explicit },
        None => Meaning::NotFound { channel, teams: seq![team.name@] },
    }
}

/// What a name means in a team that a recent list does not name.
pub open spec fn meaning_in_fresh_team(dir: Directory, team: Seq<char>, channel: Seq<char>) -> Meaning {
    match team_named(dir.fresh, team) {
        Some(t) => meaning_in_team(dir, t, channel),
        None => Meaning::NotAMember { team, teams: team_names(dir.fresh) },
    }
}

/// What a name means in a team.
pub open spec fn meaning_in(dir: Directory, team: Seq<char>, channel: Seq<char>) -> Meaning {
    match team_named(dir.recent, team) {
        Some(t) => meaning_in_team(dir, t, channel),
        None => meaning_in_fresh_team(dir, team, channel),
    }
}

/// The team and the channel that an argument names. `<team>/<channel>` wins over
/// the team that was given beside it; a leading `#` does not count.
pub open spec fn named(arg: Seq<char>, team_override: Option<Seq<char>>) -> (
    Option<Seq<char>>,
    Seq<char>,
) {
    let bare = drop_leading(arg, '#');
    match split_at_first(bare, "/"@) {
        Some((team, channel)) => (Some(team), drop_leading(channel, '#')),
        None => (team_override, bare),
    }
}

/// What an argument means.
pub open spec fn meaning(
    dir: Directory,
    primary: Seq<char>,
    arg: Seq<char>,
    team_override: Option<Seq<char>>,
) -> Meaning {
    let (team, channel) = named(arg, team_override);
    match team {
        Some(t) => meaning_in(dir, t, channel),
        None => meaning_of_name(dir, primary, channel),
    }
}

/// The result says what the name means.
pub open spec fn says(r: Result<ResolvedChannel, CoreError>, m: Meaning) -> bool {
    match m {
        Meaning::Found { hit, source } => r matches Ok(c) && hit_of(c) == hit && c.resolution_source
            == source,
        Meaning::NotAMember { team, teams } => r matches Err(
            CoreError::NotAMemberOfTeam { team: t, teams: ts },
        ) && t@ == team && texts(ts@) == teams,
        Meaning::NotFound { channel, teams } => r matches Err(
            CoreError::ChannelNotFoundInAnyTeam { channel: c, teams: ts },
        ) && c@ == channel && texts(ts@) == teams,
        Meaning::Ambiguous { channel, teams } => r matches Err(
            CoreError::AmbiguousChannel { channel: c, teams: ts },
        ) && c@ == channel && texts(ts@) == teams,
    }
}

pub open spec fn hit_of(c: ResolvedChannel) -> Hit {
    Hit {
        channel_id: c.channel_id@,
        channel_name: c.channel_name@,
        team_id: c.team_id@,
        team_name: c.team_name@,
    }
}

pub open spec fn hits_of(cs: Seq<ResolvedChannel>) -> Seq<Hit> {
    cs.map_values(|c: ResolvedChannel| hit_of(c))
}

// ---------------------------------------------------------------------------
// What a search will find
// ---------------------------------------------------------------------------

/// What a search through the other teams will find: `found` so far, `rest` still
/// to be looked into.
pub open spec fn scan_meaning(
    dir: Directory,
    primary: Seq<char>,
    channel: Seq<char>,
    refreshed: bool,
    found: Seq<Hit>,
    rest: Seq<TeamInfo>,
) -> Meaning {
    match among_others(channel, found + hits(dir, primary, channel, rest)) {
        Some(m) => m,
        None => if refreshed {
            Meaning::NotFound { channel, teams: team_names(dir.fresh) }
        } else {
            meaning_afresh(dir, primary, channel)
        },
    }
}

impl ChannelSearch {
    /// Places and matches make sense.
    pub open spec fn wf(self) -> bool {
        match self.stage {
            Stage::Scan { teams, next, matches, .. } => next < teams@.len() && teams@[next as int].name@
                != self.primary@ && forall|i: int|
                0 <= i < matches@.len() ==> (#[trigger] matches@[i]).resolution_source is Fallback,
            _ => true,
        }
    }

    /// What the search will find in this directory.
    pub open spec fn will_find(self, dir: Directory) -> Meaning {
        let primary = self.primary@;
        let channel = self.channel@;
        match self.stage {
            Stage::Member { team, refreshed } => if refreshed {
                meaning_in_fresh_team(dir, team@, channel)
            } else {
                meaning_in(dir, team@, channel)
            },
            Stage::MemberRefresh { team } => meaning_in_fresh_team(dir, team@, channel),
            Stage::InTeam { team } => meaning_in_team(dir, team, channel),
            Stage::PrimaryId => meaning_of_name(dir, primary, channel),
            Stage::Primary { team_id } => match hit_in(dir, team_id@, primary, channel) {
                Some(hit) => Meaning::Found { hit, source: ResolutionSource::Primary },
                None => meaning_elsewhere(dir, primary, channel),
            },
            Stage::Others { refreshed } => if refreshed {
                meaning_afresh(dir, primary, channel)
            } else {
                meaning_elsewhere(dir, primary, channel)
            },
            Stage::OthersRefresh => meaning_afresh(dir, primary, channel),
            Stage::Scan { refreshed, teams, next, matches } => scan_meaning(
                dir,
                primary,
                channel,
                refreshed,
                hits_of(matches@),
                teams@.skip(next as int),
            ),
            Stage::Report => Meaning::NotFound { channel, teams: team_names(dir.fresh) },
        }
    }

    /// The question that the search waits for.
    pub open spec fn asks(self, ask: Ask) -> bool {
        match self.stage {
            Stage::Member { .. } | Stage::Others { .. } | Stage::Report => ask is ListTeams,
            Stage::MemberRefresh { .. } | Stage::OthersRefresh => ask is RefreshTeams,
            Stage::PrimaryId => ask matches Ask::TeamId { slug } && slug@ == self.primary@,
            Stage::InTeam { team } => ask matches Ask::Channel { team_id, channel } && team_id@
                == team.id@ && channel@ == self.channel@,
            Stage::Primary { team_id: id } => ask matches Ask::Channel { team_id, channel }
                && team_id@ == id@ && channel@ == self.channel@,
            Stage::Scan { teams, next, .. } => ask matches Ask::Channel { team_id, channel }
                && team_id@ == teams@[next as int].id@ && channel@ == self.channel@,
        }
    }

    /// The answer is one to the question.
    pub open spec fn expects(self, answer: Answer) -> bool {
        match self.stage {
            Stage::Member { .. } | Stage::Others { .. } | Stage::Report | Stage::MemberRefresh {
                ..
            } | Stage::OthersRefresh => answer is Teams,
            Stage::PrimaryId => answer is TeamId,
            Stage::InTeam { .. } | Stage::Primary { .. } | Stage::Scan { .. } => answer is Channel,
        }
    }

    /// The answer is what this directory says.
    pub open spec fn answered_by(self, answer: Answer, dir: Directory) -> bool {
        match self.stage {
            Stage::Member { refreshed, .. } => answer matches Answer::Teams(Ok(v)) && v@ == (
            if refreshed {
                dir.fresh
            } else {
                dir.recent
            }),
            Stage::Others { refreshed } => answer matches Answer::Teams(Ok(v)) && v@ == (
            if refreshed {
                dir.fresh
            } else {
                dir.recent
            }),
            Stage::Report => answer matches Answer::Teams(Ok(v)) && v@ == dir.fresh,
            Stage::MemberRefresh { .. } | Stage::OthersRefresh => answer matches Answer::Teams(Ok(_)),
            Stage::PrimaryId => answer matches Answer::TeamId(Ok(id)) && id@ == dir.primary_id,
            Stage::InTeam { team } => lookup_by(answer, dir, team.id@, self.channel@),
            Stage::Primary { team_id } => lookup_by(answer, dir, team_id@, self.channel@),
            Stage::Scan { teams, next, .. } => lookup_by(
                answer,
                dir,
                teams@[next as int].id@,
                self.channel@,
            ),
        }
    }
}

/// The answer to a lookup is what the directory says; that there is no such
/// channel is an answer.
pub open spec fn lookup_by(answer: Answer, dir: Directory, team_id: Seq<char>, channel: Seq<char>) -> bool {
    match (dir.channels)(team_id, channel) {
        Some((id, name)) => answer matches Answer::Channel(Ok(c)) && c.id@ == id && c.name@ == name,
        None => answer matches Answer::Channel(Err(e)) && absent(e),
    }
}

/// The error that an answer brings, unless it only says that there is no such
/// channel.
pub open spec fn failure(answer: Answer) -> Option<CoreError> {
    match answer {
        Answer::Teams(Err(e)) => Some(e),
        Answer::TeamId(Err(e)) => Some(e),
        Answer::Channel(Err(e)) if !absent(e) => Some(e),
        _ => None,
    }
}

/// What the step leads to in this directory.
pub open spec fn leads_to(step: SearchStep, dir: Directory, m: Meaning) -> bool {
    match step {
        SearchStep::Ask(next, ask) => next.will_find(dir) == m,
        SearchStep::Done(r) => says(r, m),
    }
}

/// The step leads to what the name means, whatever the directory.
pub open spec fn searches_for(
    step: SearchStep,
    primary: Seq<char>,
    channel_arg: Seq<char>,
    team: Option<Seq<char>>,
) -> bool {
    forall|dir: Directory| #[trigger] leads_to(step, dir, meaning(dir, primary, channel_arg, team))
}

/// How many sorts of questions are left at most.
pub open spec fn phases_left(stage: Stage) -> nat {
    match stage {
        Stage::PrimaryId => 9,
        Stage::Primary { .. } => 8,
        Stage::Others { refreshed } => if refreshed {
            4
        } else {
            7
        },
        Stage::Scan { refreshed, .. } => if refreshed {
            3
        } else {
            6
        },
        Stage::OthersRefresh => 5,
        Stage::Report => 2,
        Stage::Member { refreshed, .. } => if refreshed {
            3
        } else {
            5
        },
        Stage::MemberRefresh { .. } => 4,
        Stage::InTeam { .. } => 2,
    }
}

/// How many teams are left to be looked into at most.
pub open spec fn teams_left(stage: Stage) -> int {
    match stage {
        Stage::Scan { teams, next, .. } => teams@.len() - next,
        _ => 0,
    }
}

/// A step ends the search or brings it nearer to its end.
pub open spec fn proceeds(step: SearchStep, from: Stage) -> bool {
    match step {
        SearchStep::Ask(next, _) => phases_left(next.stage) < phases_left(from) || (phases_left(
            next.stage,
        ) == phases_left(from) && 0 <= teams_left(next.stage) < teams_left(from)),
        SearchStep::Done(_) => true,
    }
}

/// The step can be taken: a question goes with the state that waits for it.
pub open spec fn step_wf(step: SearchStep) -> bool {
    match step {
        SearchStep::Ask(next, ask) => next.wf() && next.asks(ask),
        SearchStep::Done(_) => true,
    }
}

proof fn team_named_from(teams: Seq<TeamInfo>, name: Seq<char>, i: int)
    requires
        0 <= i < teams.len(),
        teams[i].name@ == name,
        forall|j: int| 0 <= j < i ==> (#[trigger] teams[j]).name@ != name,
    ensures
        team_named(teams, name) == Some(teams[i]),
    decreases i,
{
    if i > 0 {
        let t = teams.drop_first();
        assert(teams[0].name@ != name);
        assert forall|j: int| 0 <= j < i - 1 implies (#[trigger] t[j]).name@ != name by {
            assert(t[j] == teams[j + 1]);
        }
        team_named_from(t, name, i - 1);
    }
}

proof fn team_named_none(teams: Seq<TeamInfo>, name: Seq<char>)
    requires
        !team_names(teams).contains(name),
    ensures
        team_named(teams, name) is None,
    decreases teams.len(),
{
    if teams.len() > 0 {
        let t = teams.drop_first();
        assert(team_names(teams)[0] == teams[0].name@);
        if team_names(t).contains(name) {
            let j = team_names(t).index_of(name);
            assert(team_names(teams)[j + 1] == name);
        }
        team_named_none(t, name);
    }
}

fn resolved(
    found: FoundChannel,
    team_id: &str,
    team_name: &str,
    source: ResolutionSource,
) -> (r: ResolvedChannel)
    ensures
        hit_of(r) == (Hit {
            channel_id: found.id@,
            channel_name: found.name@,
            team_id: team_id@,
            team_name: team_name@,
        }),
        r.resolution_source == source,
{
    ResolvedChannel {
        channel_id: found.id,
        channel_name: found.name,
        team_id: team_id.to_owned(),
        team_name: team_name.to_owned(),
        resolution_source: source,
    }
}

/// The first place at or after `from` whose team is not the primary one.
fn next_other(teams: &Vec<TeamInfo>, primary: &str, from: usize) -> (r: usize)
    requires
        from <= teams@.len(),
    ensures
        from <= r <= teams@.len(),
        r < teams@.len() ==> teams@[r as int].name@ != primary@,
        forall|dir: Directory, channel: Seq<char>|
            #![trigger hits(dir, primary@, channel, teams@.skip(from as int))]
            hits(dir, primary@, channel, teams@.skip(from as int)) == hits(
                dir,
                primary@,
                channel,
                teams@.skip(r as int),
            ),
{
    let mut i: usize = from;
    while i < teams.len() && str_eq(teams[i].name.as_str(), primary)
        invariant
            from <= i <= teams@.len(),
            forall|dir: Directory, channel: Seq<char>|
                #![trigger hits(dir, primary@, channel, teams@.skip(from as int))]
                hits(dir, primary@, channel, teams@.skip(from as int)) == hits(
                    dir,
                    primary@,
                    channel,
                    teams@.skip(i as int),
                ),
        decreases teams.len() - i,
    {
        proof {
            assert(teams@.skip(i as int).drop_first() =~= teams@.skip(i + 1));
        }
        i += 1;
    }
    i
}

fn team_names_of(matches: &Vec<ResolvedChannel>) -> (r: Vec<String>)
    ensures
        texts(r@) == hit_teams(hits_of(matches@)),
{
    let mut out: Vec<String> = Vec::new();
    let mut i: usize = 0;
    while i < matches.len()
        invariant
            i <= matches@.len(),
            out@.len() == i,
            forall|j: int| 0 <= j < i ==> (#[trigger] out@[j])@ == matches@[j].team_name@,
        decreases matches.len() - i,
    {
        out.push(matches[i].team_name.clone());
        i += 1;
    }
    proof {
        assert(texts(out@) =~= hit_teams(hits_of(matches@)));
    }
    out
}

impl ChannelSearch {
    fn at(primary: String, channel: String, stage: Stage) -> (r: Self)
        ensures
            r.primary == primary,
            r.channel == channel,
            r.stage == stage,
    {
        ChannelSearch { primary, channel, stage }
    }

    /// Begins the search for an argument. `primary` is the name of the primary
    /// team.
    pub fn begin(channel_arg: &str, team_override: Option<&str>, primary: &str) -> (r: SearchStep)
        ensures
            r is Ask,
            step_wf(r),
            searches_for(r, primary@, channel_arg@, opt_view(team_override)),
    {
        let bare = trim_start_char(channel_arg, '#');
        let (team, channel) = match split_once(bare, "/") {
            Some((team, channel)) => (Some(team), trim_start_char(channel, '#')),
            None => (team_override, bare),
        };
        match team {
            Some(t) => SearchStep::Ask(
                Self::at(
                    primary.to_owned(),
                    channel.to_owned(),
                    Stage::Member { team: t.to_owned(), refreshed: false },
                ),
                Ask::ListTeams,
            ),
            None => SearchStep::Ask(
                Self::at(primary.to_owned(), channel.to_owned(), Stage::PrimaryId),
                Ask::TeamId { slug: primary.to_owned() },
            ),
        }
    }

    /// Goes on with the list of teams, looking for one of them.
    fn with_member_teams(self, team: String, refreshed: bool, teams: Vec<TeamInfo>) -> (r:
        SearchStep)
        requires
            self.stage == (Stage::Member { team, refreshed }),
        ensures
            step_wf(r),
            proceeds(r, self.stage),
            forall|dir: Directory|
                teams@ == (if refreshed {
                    dir.fresh
                } else {
                    dir.recent
                }) ==> #[trigger] leads_to(r, dir, self.will_find(dir)),
    {
        proof {
            if !team_names(teams@).contains(team@) {
                team_named_none(teams@, team@);
            }
        }
        match find_team(&teams, team.as_str()) {
            Some(found) => {
                proof {
                    let i = choose|i: int|
                        #![trigger teams@[i]]
                        0 <= i < teams@.len() && *found == teams@[i] && found.name@ == team@
                            && forall|j: int| 0 <= j < i ==> (#[trigger] teams@[j]).name@ != team@;
                    team_named_from(teams@, team@, i);
                }
                let t = found.clone();
                let ask = Ask::Channel { team_id: t.id.clone(), channel: self.channel.clone() };
                SearchStep::Ask(
                    Self::at(self.primary, self.channel, Stage::InTeam { team: t }),
                    ask,
                )
            },
            None => {
                if refreshed {
                    SearchStep::Done(
                        Err(CoreError::NotAMemberOfTeam { team, teams: names_of_teams(&teams) }),
                    )
                } else {
                    SearchStep::Ask(
                        Self::at(self.primary, self.channel, Stage::MemberRefresh { team }),
                        Ask::RefreshTeams,
                    )
                }
            },
        }
    }

    /// Goes on to the team at place `from`, or decides.
    fn scan_from(
        self,
        refreshed: bool,
        teams: Vec<TeamInfo>,
        from: usize,
        matches: Vec<ResolvedChannel>,
    ) -> (r: SearchStep)
        requires
            from <= teams@.len(),
            forall|i: int|
                0 <= i < matches@.len() ==> (#[trigger] matches@[i]).resolution_source is Fallback,
        ensures
            step_wf(r),
            r matches SearchStep::Ask(next, _) ==> phases_left(next.stage) < (if refreshed {
                3nat
            } else {
                6nat
            }) || (phases_left(next.stage) == (if refreshed {
                3nat
            } else {
                6nat
            }) && 0 <= teams_left(next.stage) <= teams@.len() - from),
            forall|dir: Directory|
                #[trigger] leads_to(
                    r,
                    dir,
                    scan_meaning(
                        dir,
                        self.primary@,
                        self.channel@,
                        refreshed,
                        hits_of(matches@),
                        teams@.skip(from as int),
                    ),
                ),
    {
        let next = next_other(&teams, self.primary.as_str(), from);
        if next < teams.len() {
            let ask = Ask::Channel {
                team_id: teams[next].id.clone(),
                channel: self.channel.clone(),
            };
            return SearchStep::Ask(
                Self::at(
                    self.primary,
                    self.channel,
                    Stage::Scan { refreshed, teams, next, matches },
                ),
                ask,
            );
        }
        let ghost found = hits_of(matches@);
        proof {
            assert(teams@.skip(next as int) =~= Seq::<TeamInfo>::empty());
            assert(found + Seq::<Hit>::empty() =~= found);
        }
        if matches.len() == 0 {
            if refreshed {
                SearchStep::Ask(
                    Self::at(self.primary, self.channel, Stage::Report),
                    Ask::ListTeams,
                )
            } else {
                SearchStep::Ask(
                    Self::at(self.primary, self.channel, Stage::OthersRefresh),
                    Ask::RefreshTeams,
                )
            }
        } else if matches.len() == 1 {
            let only = matches[0].clone();
            proof {
                assert(found[0] == hit_of(only));
            }
            SearchStep::Done(Ok(only))
        } else {
            SearchStep::Done(
                Err(
                    CoreError::AmbiguousChannel {
                        channel: self.channel,
                        teams: team_names_of(&matches),
                    },
                ),
            )
        }
    }

    /// Goes on with an answer. An error ends the search; that there is no such
    /// channel does not.
    pub fn answer(self, answer: Answer) -> (r: SearchStep)
        requires
            self.wf(),
            self.expects(answer),
        ensures
            step_wf(r),
            proceeds(r, self.stage),
            failure(answer) matches Some(e) ==> r == SearchStep::Done(Err(e)),
            forall|dir: Directory|
                self.answered_by(answer, dir) ==> #[trigger] leads_to(r, dir, self.will_find(dir)),
    {
        let primary = self.primary;
        let channel = self.channel;
        let ghost before = self;
        match (self.stage, answer) {
            (Stage::Member { team, refreshed }, Answer::Teams(teams)) => match teams {
                Err(e) => SearchStep::Done(Err(e)),
                Ok(teams) => {
                    let stage = Stage::Member { team: team.clone(), refreshed };
                    Self::at(primary, channel, stage).with_member_teams(team, refreshed, teams)
                },
            },
            (Stage::MemberRefresh { team }, Answer::Teams(teams)) => match teams {
                Err(e) => SearchStep::Done(Err(e)),
                Ok(_) => SearchStep::Ask(
                    Self::at(primary, channel, Stage::Member { team, refreshed: true }),
                    Ask::ListTeams,
                ),
            },
            (Stage::InTeam { team }, Answer::Channel(found)) => match found {
                Ok(found) => SearchStep::Done(
                    Ok(
                        resolved(
                            found,
                            team.id.as_str(),
                            team.name.as_str(),
                            ResolutionSource::Explicit,
                        ),
                    ),
                ),
                Err(e) => {
                    if is_absent(&e) {
                        let mut teams: Vec<String> = Vec::new();
                        teams.push(team.name);
                        proof {
                            assert(texts(teams@) =~= seq![team.name@]);
                        }
                        SearchStep::Done(
                            Err(CoreError::ChannelNotFoundInAnyTeam { channel, teams }),
                        )
                    } else {
                        SearchStep::Done(Err(e))
                    }
                },
            },
            (Stage::PrimaryId, Answer::TeamId(id)) => match id {
                Err(e) => SearchStep::Done(Err(e)),
                Ok(team_id) => {
                    let ask = Ask::Channel { team_id: team_id.clone(), channel: channel.clone() };
                    SearchStep::Ask(Self::at(primary, channel, Stage::Primary { team_id }), ask)
                },
            },
            (Stage::Primary { team_id }, Answer::Channel(found)) => match found {
                Ok(found) => SearchStep::Done(
                    Ok(
                        resolved(
                            found,
                            team_id.as_str(),
                            primary.as_str(),
                            ResolutionSource::Primary,
                        ),
                    ),
                ),
                Err(e) => {
                    if is_absent(&e) {
                        SearchStep::Ask(
                            Self::at(primary, channel, Stage::Others { refreshed: false }),
                            Ask::ListTeams,
                        )
                    } else {
                        SearchStep::Done(Err(e))
                    }
                },
            },
            (Stage::Others { refreshed }, Answer::Teams(teams)) => match teams {
                Err(e) => SearchStep::Done(Err(e)),
                Ok(teams) => {
                    let none: Vec<ResolvedChannel> = Vec::new();
                    let r = Self::at(primary, channel, Stage::Report).scan_from(
                        refreshed,
                        teams,
                        0,
                        none,
                    );
                    proof {
                        assert forall|dir: Directory|
                            before.answered_by(answer, dir) implies #[trigger] leads_to(
                            r,
                            dir,
                            before.will_find(dir),
                        ) by {
                            let p = before.primary@;
                            let c = before.channel@;
                            assert(teams@.skip(0) =~= teams@);
                            assert(hits_of(none@) + hits(dir, p, c, teams@) =~= hits(
                                dir,
                                p,
                                c,
                                teams@,
                            ));
                            assert(leads_to(
                                r,
                                dir,
                                scan_meaning(
                                    dir,
                                    p,
                                    c,
                                    refreshed,
                                    hits_of(none@),
                                    teams@.skip(0),
                                ),
                            ));
                        }
                    }
                    r
                },
            },
            (Stage::OthersRefresh, Answer::Teams(teams)) => match teams {
                Err(e) => SearchStep::Done(Err(e)),
                Ok(_) => SearchStep::Ask(
                    Self::at(primary, channel, Stage::Others { refreshed: true }),
                    Ask::ListTeams,
                ),
            },
            (Stage::Scan { refreshed, teams, next, matches }, Answer::Channel(found)) => {
                let n: usize = teams.len();
                let mut matches = matches;
                let ghost matches0 = matches@;
                let ghost rest = teams@.skip(next as int);
                proof {
                    assert(n == teams@.len());
                    assert(rest.drop_first() =~= teams@.skip(next + 1));
                    assert(rest[0] == teams@[next as int]);
                }
                match found {
                    Ok(found) => {
                        let hit = resolved(
                            found,
                            teams[next].id.as_str(),
                            teams[next].name.as_str(),
                            ResolutionSource::Fallback,
                        );
                        matches.push(hit);
                        proof {
                            assert(hits_of(matches@) =~= hits_of(matches0).push(hit_of(hit)));
                        }
                    },
                    Err(e) => {
                        if !is_absent(&e) {
                            return SearchStep::Done(Err(e));
                        }
                    },
                }
                let ghost found_now = hits_of(matches@);
                let r = Self::at(primary, channel, Stage::Report).scan_from(
                    refreshed,
                    teams,
                    next + 1,
                    matches,
                );
                proof {
                    assert forall|dir: Directory|
                        before.answered_by(answer, dir) implies #[trigger] leads_to(
                        r,
                        dir,
                        before.will_find(dir),
                    ) by {
                        let p = before.primary@;
                        let c = before.channel@;
                        let tail = teams@.skip(next + 1);
                        assert(hits_of(matches0) + hits(dir, p, c, rest) =~= found_now + hits(
                            dir,
                            p,
                            c,
                            tail,
                        ));
                        assert(leads_to(
                            r,
                            dir,
                            scan_meaning(dir, p, c, refreshed, found_now, tail),
                        ));
                    }
                }
                r
            },
            (Stage::Report, Answer::Teams(teams)) => match teams {
                Err(e) => SearchStep::Done(Err(e)),
                Ok(teams) => SearchStep::Done(
                    Err(
                        CoreError::ChannelNotFoundInAnyTeam {
                            channel,
                            teams: names_of_teams(&teams),
                        },
                    ),
                ),
            },
            _ => {
                proof {
                    assert(false);
                }
                SearchStep::Done(Err(CoreError::UnsupportedProvider))
            },
        }
    }
}

/// A channel of the primary team wins, whatever the other teams have.
pub proof fn primary_team_wins(dir: Directory, primary: Seq<char>, channel: Seq<char>)
    requires
        (dir.channels)(dir.primary_id, channel) is Some,
    ensures
        meaning_of_name(dir, primary, channel) matches Meaning::Found { hit, source } && hit.team_name
            == primary && source is Primary,
{
}

/// A team in the argument wins over a team given beside it, and neither the
/// primary team nor any other is looked into.
pub proof fn explicit_team_wins(
    dir: Directory,
    a: Seq<char>,
    b: Seq<char>,
    arg: Seq<char>,
    x: Option<Seq<char>>,
    y: Option<Seq<char>>,
)
    requires
        split_at_first(drop_leading(arg, '#'), "/"@) is Some,
    ensures
        meaning(dir, a, arg, x) == meaning(dir, b, arg, y),
{
}

/// A name is never resolved to one of several candidates: outside the primary
/// team it is found only where it is unique.
pub proof fn fallback_is_unique(dir: Directory, primary: Seq<char>, channel: Seq<char>)
    requires
        meaning_of_name(dir, primary, channel) matches Meaning::Found { hit, source }
            && source is Fallback,
    ensures
        hits(dir, primary, channel, dir.recent).len() == 1 || (hits(
            dir,
            primary,
            channel,
            dir.recent,
        ).len() == 0 && hits(dir, primary, channel, dir.fresh).len() == 1),
        (dir.channels)(dir.primary_id, channel) is None,
{
}

/// The id of a team that the bot is a member of.
pub fn member_team_id(teams: &Vec<TeamInfo>, slug: &str) -> (r: Option<String>)
    ensures
        match r {
            Some(id) => team_named(teams@, slug@) matches Some(t) && id == t.id,
            None => team_named(teams@, slug@) is None,
        },
{
    proof {
        if !team_names(teams@).contains(slug@) {
            team_named_none(teams@, slug@);
        }
    }
    match find_team(teams, slug) {
        Some(found) => {
            proof {
                let i = choose|i: int|
                    #![trigger teams@[i]]
                    0 <= i < teams@.len() && *found == teams@[i] && found.name@ == slug@
                        && forall|j: int| 0 <= j < i ==> (#[trigger] teams@[j]).name@ != slug@;
                team_named_from(teams@, slug@, i);
            }
            Some(found.id.clone())
        },
        None => None,
    }
}

/// The id of a team that the bot is a member of, from a fresh list: one that is
/// not on it is refused.
pub fn team_id_for_member_slug(teams: &Vec<TeamInfo>, slug: &str) -> (r: Result<String, CoreError>)
    ensures
        match team_named(teams@, slug@) {
            Some(t) => r == Ok::<String, CoreError>(t.id),
            None => r matches Err(CoreError::NotAMemberOfTeam { team, teams: names }) && team@
                == slug@ && texts(names@) == team_names(teams@),
        },
{
    match member_team_id(teams, slug) {
        Some(id) => Ok(id),
        None => Err(
            CoreError::NotAMemberOfTeam { team: slug.to_owned(), teams: names_of_teams(teams) },
        ),
    }
}

fn is_absent(e: &CoreError) -> (r: bool)
    ensures
        r == absent(*e),
{
    match e {
        CoreError::Api { status, .. } => *status == 404,
        _ => false,
    }
}

// ---------------------------------------------------------------------------
// Laws
// ---------------------------------------------------------------------------

/// A channel is found where a team other than the primary one has it, under the id and the
/// name that it has there.
pub proof fn hits_are_in_other_teams(
    dir: Directory,
    primary: Seq<char>,
    channel: Seq<char>,
    teams: Seq<TeamInfo>,
    h: Hit,
)
    ensures
        hits(dir, primary, channel, teams).contains(h) <==> exists|i: int|
            0 <= i < teams.len() && (#[trigger] teams[i]).name@ != primary && (dir.channels)(
                teams[i].id@,
                channel,
            ) == Some((h.channel_id, h.channel_name)) && h.team_id == teams[i].id@ && h.team_name
                == teams[i].name@,
    decreases teams.len(),
{
    if teams.len() > 0 {
        let rest = teams.drop_first();
        hits_are_in_other_teams(dir, primary, channel, rest, h);
        let all = hits(dir, primary, channel, teams);
        let later = hits(dir, primary, channel, rest);
        if all.contains(h) {
            let k = all.index_of(h);
            if all.len() == later.len() || k > 0 {
                let at = if all.len() == later.len() {
                    k
                } else {
                    k - 1
                };
                assert(later[at] == h);
                assert(later.contains(h));
                let i = choose|i: int|
                    0 <= i < rest.len() && (#[trigger] rest[i]).name@ != primary && (dir.channels)(
                        rest[i].id@,
                        channel,
                    ) == Some((h.channel_id, h.channel_name)) && h.team_id == rest[i].id@
                        && h.team_name == rest[i].name@;
                assert(teams[i + 1] == rest[i]);
            } else {
                assert(teams[0].name@ == h.team_name);
            }
        }
        if exists|i: int|
            0 <= i < teams.len() && (#[trigger] teams[i]).name@ != primary && (dir.channels)(
                teams[i].id@,
                channel,
            ) == Some((h.channel_id, h.channel_name)) && h.team_id == teams[i].id@ && h.team_name
                == teams[i].name@ {
            let i = choose|i: int|
                0 <= i < teams.len() && (#[trigger] teams[i]).name@ != primary && (dir.channels)(
                    teams[i].id@,
                    channel,
                ) == Some((h.channel_id, h.channel_name)) && h.team_id == teams[i].id@
                    && h.team_name == teams[i].name@;
            if i == 0 {
                assert(all[0] == h);
            } else {
                assert(rest[i - 1] == teams[i]);
                let k = later.index_of(h);
                if all.len() == later.len() {
                    assert(all[k] == h);
                } else {
                    assert(all[k + 1] == h);
                }
            }
        }
    }
}

proof fn nothing_is_found(
    dir: Directory,
    primary: Seq<char>,
    channel: Seq<char>,
    teams: Seq<TeamInfo>,
)
    requires
        forall|j: int|
            0 <= j < teams.len() && (#[trigger] teams[j]).name@ != primary ==> (dir.channels)(
                teams[j].id@,
                channel,
            ) is None,
    ensures
        hits(dir, primary, channel, teams).len() == 0,
    decreases teams.len(),
{
    if teams.len() > 0 {
        let rest = teams.drop_first();
        assert forall|j: int| 0 <= j < rest.len() && (#[trigger] rest[j]).name@ != primary implies (
        dir.channels)(rest[j].id@, channel) is None by {
            assert(rest[j] == teams[j + 1]);
        }
        nothing_is_found(dir, primary, channel, rest);
        assert(teams[0].name@ != primary ==> (dir.channels)(teams[0].id@, channel) is None);
    }
}

proof fn one_is_found(
    dir: Directory,
    primary: Seq<char>,
    channel: Seq<char>,
    teams: Seq<TeamInfo>,
    i: int,
)
    requires
        0 <= i < teams.len(),
        teams[i].name@ != primary,
        (dir.channels)(teams[i].id@, channel) is Some,
        forall|j: int|
            0 <= j < teams.len() && j != i && (#[trigger] teams[j]).name@ != primary ==> (
            dir.channels)(teams[j].id@, channel) is None,
    ensures
        hits(dir, primary, channel, teams) == seq![
            Hit {
                channel_id: ((dir.channels)(teams[i].id@, channel)->0).0,
                channel_name: ((dir.channels)(teams[i].id@, channel)->0).1,
                team_id: teams[i].id@,
                team_name: teams[i].name@,
            },
        ],
    decreases teams.len(),
{
    let rest = teams.drop_first();
    if i == 0 {
        assert forall|j: int| 0 <= j < rest.len() && (#[trigger] rest[j]).name@ != primary implies (
        dir.channels)(rest[j].id@, channel) is None by {
            assert(rest[j] == teams[j + 1]);
        }
        nothing_is_found(dir, primary, channel, rest);
        let hit = Hit {
            channel_id: ((dir.channels)(teams[i].id@, channel)->0).0,
            channel_name: ((dir.channels)(teams[i].id@, channel)->0).1,
            team_id: teams[i].id@,
            team_name: teams[i].name@,
        };
        assert(hits(dir, primary, channel, teams) =~= seq![hit]);
    } else {
        assert(rest[i - 1] == teams[i]);
        assert forall|j: int|
            0 <= j < rest.len() && j != i - 1 && (#[trigger] rest[j]).name@ != primary implies (
        dir.channels)(rest[j].id@, channel) is None by {
            assert(rest[j] == teams[j + 1]);
        }
        one_is_found(dir, primary, channel, rest, i - 1);
        assert(teams[0].name@ != primary ==> (dir.channels)(teams[0].id@, channel) is None);
    }
}

/// A bare name is the channel of that name in the primary team, where the team has it.
pub proof fn the_primary_team_is_asked_first(
    dir: Directory,
    primary: Seq<char>,
    channel: Seq<char>,
    r: Result<ResolvedChannel, CoreError>,
)
    requires
        says(r, meaning_of_name(dir, primary, channel)),
        (dir.channels)(dir.primary_id, channel) is Some,
    ensures
        r matches Ok(c) && c.channel_id@ == ((dir.channels)(dir.primary_id, channel)->0).0
            && c.channel_name@ == ((dir.channels)(dir.primary_id, channel)->0).1 && c.team_id@
            == dir.primary_id && c.team_name@ == primary && c.resolution_source is Primary,
{
}

/// A bare name that the primary team does not have is the channel of the one other team that
/// has it.
pub proof fn the_only_other_team_is_taken(
    dir: Directory,
    primary: Seq<char>,
    channel: Seq<char>,
    r: Result<ResolvedChannel, CoreError>,
    i: int,
)
    requires
        says(r, meaning_of_name(dir, primary, channel)),
        (dir.channels)(dir.primary_id, channel) is None,
        0 <= i < dir.recent.len(),
        dir.recent[i].name@ != primary,
        (dir.channels)(dir.recent[i].id@, channel) is Some,
        forall|j: int|
            0 <= j < dir.recent.len() && j != i && (#[trigger] dir.recent[j]).name@ != primary ==> (
            dir.channels)(dir.recent[j].id@, channel) is None,
    ensures
        r matches Ok(c) && c.channel_id@ == ((dir.channels)(dir.recent[i].id@, channel)->0).0
            && c.channel_name@ == ((dir.channels)(dir.recent[i].id@, channel)->0).1 && c.team_id@
            == dir.recent[i].id@ && c.team_name@ == dir.recent[i].name@
            && c.resolution_source is Fallback,
{
    one_is_found(dir, primary, channel, dir.recent, i);
}

/// A bare name that two other teams have, and the primary one has not, is refused, and every
/// team that has it is named.
pub proof fn two_other_teams_are_ambiguous(
    dir: Directory,
    primary: Seq<char>,
    channel: Seq<char>,
    r: Result<ResolvedChannel, CoreError>,
    i: int,
    j: int,
)
    requires
        says(r, meaning_of_name(dir, primary, channel)),
        (dir.channels)(dir.primary_id, channel) is None,
        0 <= i < dir.recent.len(),
        0 <= j < dir.recent.len(),
        dir.recent[i].name@ != dir.recent[j].name@,
        dir.recent[i].name@ != primary,
        dir.recent[j].name@ != primary,
        (dir.channels)(dir.recent[i].id@, channel) is Some,
        (dir.channels)(dir.recent[j].id@, channel) is Some,
    ensures
        r matches Err(CoreError::AmbiguousChannel { channel: c, teams }) && c@ == channel && texts(
            teams@,
        ).contains(dir.recent[i].name@) && texts(teams@).contains(dir.recent[j].name@),
{
    let found = hits(dir, primary, channel, dir.recent);
    let x = Hit {
        channel_id: ((dir.channels)(dir.recent[i].id@, channel)->0).0,
        channel_name: ((dir.channels)(dir.recent[i].id@, channel)->0).1,
        team_id: dir.recent[i].id@,
        team_name: dir.recent[i].name@,
    };
    let y = Hit {
        channel_id: ((dir.channels)(dir.recent[j].id@, channel)->0).0,
        channel_name: ((dir.channels)(dir.recent[j].id@, channel)->0).1,
        team_id: dir.recent[j].id@,
        team_name: dir.recent[j].name@,
    };
    hits_are_in_other_teams(dir, primary, channel, dir.recent, x);
    hits_are_in_other_teams(dir, primary, channel, dir.recent, y);
    let a = found.index_of(x);
    let b = found.index_of(y);
    assert(found[a] == x && found[b] == y && a != b);
    assert(hit_teams(found)[a] == x.team_name);
    assert(hit_teams(found)[b] == y.team_name);
}

/// A bare name that no team has is refused, once the teams were listed afresh, with the
/// teams that were looked at.
pub proof fn unknown_names_are_refused(
    dir: Directory,
    primary: Seq<char>,
    channel: Seq<char>,
    r: Result<ResolvedChannel, CoreError>,
)
    requires
        says(r, meaning_of_name(dir, primary, channel)),
        (dir.channels)(dir.primary_id, channel) is None,
        forall|j: int|
            0 <= j < dir.recent.len() && (#[trigger] dir.recent[j]).name@ != primary ==> (
            dir.channels)(dir.recent[j].id@, channel) is None,
        forall|j: int|
            0 <= j < dir.fresh.len() && (#[trigger] dir.fresh[j]).name@ != primary ==> (
            dir.channels)(dir.fresh[j].id@, channel) is None,
    ensures
        r matches Err(CoreError::ChannelNotFoundInAnyTeam { channel: c, teams }) && c@ == channel
            && teams@.len() == dir.fresh.len() && forall|j: int|
            0 <= j < dir.fresh.len() ==> (#[trigger] teams@[j])@ == dir.fresh[j].name@,
{
    nothing_is_found(dir, primary, channel, dir.recent);
    nothing_is_found(dir, primary, channel, dir.fresh);
    let teams = r->Err_0->ChannelNotFoundInAnyTeam_teams;
    assert(texts(teams@) == team_names(dir.fresh));
    assert(texts(teams@).len() == teams@.len());
    assert forall|j: int| 0 <= j < dir.fresh.len() implies (#[trigger] teams@[j])@
        == dir.fresh[j].name@ by {
        assert(texts(teams@)[j] == teams@[j]@);
        assert(team_names(dir.fresh)[j] == dir.fresh[j].name@);
    }
}

/// A team that is listed afresh is found though it was not known before.
pub proof fn new_teams_are_found(
    dir: Directory,
    primary: Seq<char>,
    channel: Seq<char>,
    r: Result<ResolvedChannel, CoreError>,
    i: int,
)
    requires
        says(r, meaning_of_name(dir, primary, channel)),
        (dir.channels)(dir.primary_id, channel) is None,
        forall|j: int|
            0 <= j < dir.recent.len() && (#[trigger] dir.recent[j]).name@ != primary ==> (
            dir.channels)(dir.recent[j].id@, channel) is None,
        0 <= i < dir.fresh.len(),
        dir.fresh[i].name@ != primary,
        (dir.channels)(dir.fresh[i].id@, channel) is Some,
        forall|j: int|
            0 <= j < dir.fresh.len() && j != i && (#[trigger] dir.fresh[j]).name@ != primary ==> (
            dir.channels)(dir.fresh[j].id@, channel) is None,
    ensures
        r matches Ok(c) && c.channel_id@ == ((dir.channels)(dir.fresh[i].id@, channel)->0).0
            && c.team_id@ == dir.fresh[i].id@ && c.team_name@ == dir.fresh[i].name@
            && c.resolution_source is Fallback,
{
    nothing_is_found(dir, primary, channel, dir.recent);
    one_is_found(dir, primary, channel, dir.fresh, i);
}

/// A team is the first that has the name.
pub proof fn teams_go_by_their_name(teams: Seq<TeamInfo>, name: Seq<char>)
    ensures
        match team_named(teams, name) {
            Some(t) => t.name@ == name && exists|i: int|
                0 <= i < teams.len() && #[trigger] teams[i] == t && forall|j: int|
                    0 <= j < i ==> (#[trigger] teams[j]).name@ != name,
            None => forall|i: int| 0 <= i < teams.len() ==> (#[trigger] teams[i]).name@ != name,
        },
    decreases teams.len(),
{
    if teams.len() > 0 {
        if teams[0].name@ == name {
            assert(teams[0] == team_named(teams, name)->0);
        } else {
            let rest = teams.drop_first();
            teams_go_by_their_name(rest, name);
            match team_named(rest, name) {
                Some(t) => {
                    let i = choose|i: int|
                        0 <= i < rest.len() && #[trigger] rest[i] == t && forall|j: int|
                            0 <= j < i ==> (#[trigger] rest[j]).name@ != name;
                    assert(teams[i + 1] == t);
                    assert forall|j: int| 0 <= j < i + 1 implies (#[trigger] teams[j]).name@ != name by {
                        if j > 0 {
                            assert(rest[j - 1] == teams[j]);
                        }
                    }
                },
                None => {
                    assert forall|i: int| 0 <= i < teams.len() implies (#[trigger] teams[i]).name@
                        != name by {
                        if i > 0 {
                            assert(rest[i - 1] == teams[i]);
                        }
                    }
                },
            }
        }
    }
}

/// A channel of a team that is named is looked for in that team alone.
pub proof fn named_teams_are_the_only_ones_asked(
    dir: Directory,
    team: Seq<char>,
    channel: Seq<char>,
    r: Result<ResolvedChannel, CoreError>,
    i: int,
)
    requires
        says(r, meaning_in(dir, team, channel)),
        0 <= i < dir.recent.len(),
        dir.recent[i].name@ == team,
        forall|j: int| 0 <= j < i ==> (#[trigger] dir.recent[j]).name@ != team,
    ensures
        match (dir.channels)(dir.recent[i].id@, channel) {
            Some((id, name)) => r matches Ok(c) && c.channel_id@ == id && c.channel_name@ == name
                && c.team_id@ == dir.recent[i].id@ && c.team_name@ == team
                && c.resolution_source is Explicit,
            None => r matches Err(CoreError::ChannelNotFoundInAnyTeam { channel: c, teams }) && c@
                == channel && texts(teams@) == seq![team],
        },
{
    team_named_from(dir.recent, team, i);
}

/// A team that the bot is no member of is refused as such, with the teams that it is in.
pub proof fn foreign_teams_are_refused(
    dir: Directory,
    team: Seq<char>,
    channel: Seq<char>,
    r: Result<ResolvedChannel, CoreError>,
)
    requires
        says(r, meaning_in(dir, team, channel)),
        forall|j: int| 0 <= j < dir.recent.len() ==> (#[trigger] dir.recent[j]).name@ != team,
        forall|j: int| 0 <= j < dir.fresh.len() ==> (#[trigger] dir.fresh[j]).name@ != team,
    ensures
        r matches Err(CoreError::NotAMemberOfTeam { team: t, teams }) && t@ == team && texts(teams@)
            == team_names(dir.fresh),
{
    teams_go_by_their_name(dir.recent, team);
    teams_go_by_their_name(dir.fresh, team);
}

/// A name with a `/` names its team, whatever team is given beside it; a name without one is
/// of the team that is given. The `#` before a name is no part of it.
pub proof fn names_may_name_their_team(
    team: Seq<char>,
    channel: Seq<char>,
    beside: Option<Seq<char>>,
    marks: nat,
    more: nat,
)
    requires
        !team.contains('/'),
        !channel.contains('/'),
        team.len() > 0 ==> team[0] != '#',
        channel.len() > 0 ==> channel[0] != '#',
    ensures
        named(
            Seq::new(marks, |i: int| '#') + (team + seq!['/'] + (Seq::new(more, |i: int| '#')
                + channel)),
            beside,
        ) == (Some(team), channel),
        named(Seq::new(marks, |i: int| '#') + channel, beside) == (beside, channel),
{
    reveal_strlit("/");
    assert("/"@ =~= seq!['/']);
    let tail = Seq::new(more, |i: int| '#') + channel;
    let rest = team + seq!['/'] + tail;
    assert(rest[0] != '#');
    crate::text::leading_copies_go('#', marks, rest);
    crate::text::split_at_a_mark(team, '/', tail);
    crate::text::leading_copies_go('#', more, channel);
    crate::text::leading_copies_go('#', marks, channel);
    crate::text::splits_come_together_again(channel, "/"@);
    match split_at_first(channel, "/"@) {
        Some((front, back)) => {
            assert(channel[front.len() as int] == '/');
        },
        None => {},
    }
}

/// A search for a channel ends with what the name means.
pub proof fn a_name_means_its_team_or_any(
    dir: Directory,
    primary: Seq<char>,
    arg: Seq<char>,
    beside: Option<Seq<char>>,
)
    ensures
        meaning(dir, primary, arg, beside) == (match named(arg, beside).0 {
            Some(team) => meaning_in(dir, team, named(arg, beside).1),
            None => meaning_of_name(dir, primary, named(arg, beside).1),
        }),
{
}

/// A team goes by its id where the user is in it, and is refused with the teams that they are in
/// where not.
pub proof fn teams_are_found_by_name(
    teams: &Vec<TeamInfo>,
    slug: &str,
    r: Result<String, CoreError>,
    id: Option<String>,
)
    requires
        call_ensures(team_id_for_member_slug, (teams, slug), r),
        call_ensures(member_team_id, (teams, slug), id),
    ensures
        r is Ok <==> id is Some,
        r is Ok ==> Some(r->Ok_0) == id,
        r is Ok ==> team_named(teams@, slug@) is Some && r->Ok_0 == team_named(teams@, slug@)->0.id,
        r is Err ==> r->Err_0 is NotAMemberOfTeam && r->Err_0->NotAMemberOfTeam_team@ == slug@
            && texts(r->Err_0->NotAMemberOfTeam_teams@) == team_names(teams@),
{
}

/// What is answered is what was asked for: the channel that the directory holds under the team
/// and the name in the question, the id of the primary team, or the teams.
pub proof fn answers_are_to_the_question(s: ChannelSearch, ask: Ask, answer: Answer, dir: Directory)
    requires
        s.asks(ask),
    ensures
        ask is Channel ==> ask->channel@ == s.channel@,
        ask is Channel ==> (s.answered_by(answer, dir) <==> match (dir.channels)(
            ask->team_id@,
            ask->channel@,
        ) {
            Some((id, name)) => answer is Channel && answer->Channel_0 is Ok
                && answer->Channel_0->Ok_0.id@ == id && answer->Channel_0->Ok_0.name@ == name,
            None => answer is Channel && answer->Channel_0 is Err && answer->Channel_0->Err_0 is Api
                && answer->Channel_0->Err_0->Api_status == 404,
        }),
        ask is TeamId ==> ask->slug@ == s.primary@ && (s.answered_by(answer, dir) <==> answer is
            TeamId && answer->TeamId_0 is Ok && answer->TeamId_0->Ok_0@ == dir.primary_id),
        ask is RefreshTeams ==> (s.answered_by(answer, dir) <==> answer is Teams
            && answer->Teams_0 is Ok),
        ask is ListTeams ==> (s.answered_by(answer, dir) ==> answer is Teams && answer->Teams_0 is Ok
            && (answer->Teams_0->Ok_0@ == dir.recent || answer->Teams_0->Ok_0@ == dir.fresh)),
        s.answered_by(answer, dir) ==> s.expects(answer),
{
}

/// A search begins with a question, and is one for what the name means.
pub proof fn searches_begin_with_a_question(
    channel_arg: &str,
    team: Option<&str>,
    primary: &str,
    r: SearchStep,
    dir: Directory,
)
    requires
        call_ensures(ChannelSearch::begin, (channel_arg, team, primary), r),
    ensures
        r is Ask && r->Ask_0.wf() && r->Ask_0.asks(r->Ask_1),
        r->Ask_0.will_find(dir) == meaning(dir, primary@, channel_arg@, opt_view(team)),
{
    assert(searches_for(r, primary@, channel_arg@, opt_view(team)));
    assert(leads_to(r, dir, meaning(dir, primary@, channel_arg@, opt_view(team))));
}

/// An answer of the directory leads to the next question, after which the search is still one
/// for the same, or to the end, which is what was searched for; any other failure ends it.
pub proof fn searches_end_with_what_was_searched_for(
    s: ChannelSearch,
    answer: Answer,
    r: SearchStep,
    dir: Directory,
)
    requires
        s.wf(),
        s.expects(answer),
        call_ensures(ChannelSearch::answer, (s, answer), r),
    ensures
        s.answered_by(answer, dir) && r is Ask ==> r->Ask_0.will_find(dir) == s.will_find(dir),
        r is Ask ==> r->Ask_0.wf() && r->Ask_0.asks(r->Ask_1),
        s.answered_by(answer, dir) && r is Done ==> (r->Done_0 is Ok <==> s.will_find(dir) is Found),
        s.answered_by(answer, dir) && r is Done && r->Done_0 is Ok ==> {
            let c = r->Done_0->Ok_0;
            let hit = s.will_find(dir)->hit;
            c.channel_id@ == hit.channel_id && c.channel_name@ == hit.channel_name && c.team_id@
                == hit.team_id && c.team_name@ == hit.team_name && c.resolution_source
                == s.will_find(dir)->source
        },
        answer is Teams && answer->Teams_0 is Err ==> r is Done && r->Done_0 == Err::<
            ResolvedChannel,
            CoreError,
        >(answer->Teams_0->Err_0),
        answer is TeamId && answer->TeamId_0 is Err ==> r is Done && r->Done_0 == Err::<
            ResolvedChannel,
            CoreError,
        >(answer->TeamId_0->Err_0),
        answer is Channel && answer->Channel_0 is Err && !(answer->Channel_0->Err_0 is Api
            && answer->Channel_0->Err_0->Api_status == 404) ==> r is Done && r->Done_0 == Err::<
            ResolvedChannel,
            CoreError,
        >(answer->Channel_0->Err_0),
{
    if s.answered_by(answer, dir) {
        assert(leads_to(r, dir, s.will_find(dir)));
    }
}

} // verus!
