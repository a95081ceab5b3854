//! Cursors: which post of a channel was seen last.
//!
//! A cursor is kept under `<team>/<channel>`. Cursors that are kept under a bare
//! channel name are moved there once the team is known; one whose name is on
//! several teams is set aside.
use vstd::prelude::*;
use vstd::string::*;

use crate::collections::{ascending_no_duplicates, TextMap, TextSet};
use crate::error::{core_error_text, CoreError};
use crate::text::{chars_of, concat3, str_eq, texts};
use crate::types::{AttentionState, Channel, ChannelCursorState, Message, QuarantinedCursor,
    ResolvedChannel, SeededChannelOutcome};

verus! {

/// The key of a cursor.
pub open spec fn cursor_key(team: Seq<char>, channel: Seq<char>) -> Seq<char> {
    team + "/"@ + channel
}

pub fn attention_key_for(team_name: &str, channel_name: &str) -> (r: String)
    ensures
        r@ == cursor_key(team_name@, channel_name@),
{
    concat3(team_name, "/", channel_name)
}

// ---------------------------------------------------------------------------
// Seeding
// ---------------------------------------------------------------------------

/// A channel that gets a cursor: a public or private one that has none yet.
pub open spec fn to_seed(c: Channel, primary_team: Seq<char>, existing: Set<Seq<char>>) -> bool {
    &&& c.channel_type@ == "O"@ || c.channel_type@ == "P"@
    &&& !existing.contains(cursor_key(primary_team, c.name@))
    &&& !existing.contains(c.name@)
}

/// The channels that get a cursor, in their order.
pub open spec fn seeds(cs: Seq<Channel>, primary_team: Seq<char>, existing: Set<Seq<char>>) -> Seq<
    Channel,
>
    decreases cs.len(),
{
    if cs.len() == 0 {
        Seq::empty()
    } else {
        let rest = seeds(cs.drop_last(), primary_team, existing);
        if to_seed(cs.last(), primary_team, existing) {
            rest.push(cs.last())
        } else {
            rest
        }
    }
}

/// The channels of the primary team that get a cursor.
pub fn seed_candidates(channels: &Vec<Channel>, primary_team: &str, existing: &TextSet) -> (r: Vec<
    Channel,
>)
    ensures
        r@ == seeds(channels@, primary_team@, existing@),
{
    let mut out: Vec<Channel> = Vec::new();
    let mut i: usize = 0;
    proof {
        assert(channels@.take(0) =~= Seq::empty());
    }
    while i < channels.len()
        invariant
            i <= channels@.len(),
            out@ == seeds(channels@.take(i as int), primary_team@, existing@),
        decreases channels.len() - i,
    {
        proof {
            assert(channels@.take(i + 1).drop_last() =~= channels@.take(i as int));
        }
        let c = &channels[i];
        let joined_channel = str_eq(c.channel_type.as_str(), "O") || str_eq(
            c.channel_type.as_str(),
            "P",
        );
        if joined_channel && !existing.contains(
            attention_key_for(primary_team, c.name.as_str()).as_str(),
        ) && !existing.contains(c.name.as_str()) {
            out.push(c.clone());
        }
        i += 1;
    }
    proof {
        assert(channels@.take(i as int) =~= channels@);
    }
    out
}

/// `o` is what seeding did with a channel whose newest posts are `head`.
pub open spec fn seeded(
    channel: Seq<char>,
    head: Result<Vec<Message>, CoreError>,
    o: SeededChannelOutcome,
) -> bool {
    match head {
        Err(e) => o matches SeededChannelOutcome::Failed { channel: c, reason } && c@ == channel
            && reason@ == core_error_text(e),
        Ok(posts) => if posts@.len() == 0 {
            o matches SeededChannelOutcome::UnseededEmptyChannel { channel: c } && c@ == channel
        } else {
            o matches SeededChannelOutcome::Seeded { channel: c, post_id } && c@ == channel
                && post_id@ == posts@.last().id@
        },
    }
}

/// What seeding does with a channel whose newest posts are `head`. A channel that
/// could not be read does not stop the others.
pub fn seed_outcome(channel: &Channel, head: &Result<Vec<Message>, CoreError>) -> (r:
    SeededChannelOutcome)
    ensures
        seeded(channel.name@, *head, r),
{
    match head {
        Err(e) => SeededChannelOutcome::Failed {
            channel: channel.name.clone(),
            reason: e.message(),
        },
        Ok(posts) => {
            if posts.len() == 0 {
                SeededChannelOutcome::UnseededEmptyChannel { channel: channel.name.clone() }
            } else {
                SeededChannelOutcome::Seeded {
                    channel: channel.name.clone(),
                    post_id: posts[posts.len() - 1].id.clone(),
                }
            }
        },
    }
}

/// What seeding did with the candidates, each with its newest posts.
pub fn compute_seed_outcomes(
    candidates: &Vec<Channel>,
    heads: &Vec<Result<Vec<Message>, CoreError>>,
) -> (r: Vec<SeededChannelOutcome>)
    requires
        candidates@.len() == heads@.len(),
    ensures
        r@.len() == candidates@.len(),
        forall|i: int|
            0 <= i < r@.len() ==> seeded(candidates@[i].name@, heads@[i], #[trigger] r@[i]),
{
    let mut out: Vec<SeededChannelOutcome> = Vec::new();
    let mut i: usize = 0;
    while i < candidates.len()
        invariant
            candidates@.len() == heads@.len(),
            i <= candidates@.len(),
            out@.len() == i,
            forall|j: int|
                0 <= j < i ==> seeded(candidates@[j].name@, heads@[j], #[trigger] out@[j]),
        decreases candidates.len() - i,
    {
        out.push(seed_outcome(&candidates[i], &heads[i]));
        i += 1;
    }
    out
}

/// A channel with a cursor is never seeded again, and direct channels never are.
pub proof fn seeding_is_monotonic(
    cs: Seq<Channel>,
    primary_team: Seq<char>,
    existing: Set<Seq<char>>,
    c: Channel,
)
    requires
        seeds(cs, primary_team, existing).contains(c),
    ensures
        cs.contains(c),
        to_seed(c, primary_team, existing),
    decreases cs.len(),
{
    if cs.len() > 0 {
        let rest = seeds(cs.drop_last(), primary_team, existing);
        if rest.contains(c) {
            seeding_is_monotonic(cs.drop_last(), primary_team, existing, c);
            let i = cs.drop_last().index_of(c);
            assert(cs[i] == c);
        } else {
            let all = seeds(cs, primary_team, existing);
            let i = all.index_of(c);
            if i < rest.len() {
                assert(rest[i] == c);
            }
            assert(cs[cs.len() - 1] == c);
        }
    }
}

// ---------------------------------------------------------------------------
// Migration
// ---------------------------------------------------------------------------

/// What became of the cursors under bare names.
#[derive(Debug, Clone, Copy, PartialEq, Eq)]
pub struct MigrationOutcome {
    pub migrated: usize,
    pub quarantined: usize,
    pub skipped: usize,
}

/// A key that names a team.
pub open spec fn qualified(key: Seq<char>) -> bool {
    key.contains('/')
}

/// The keys that do not name a team, in their order.
pub open spec fn bare_keys(keys: Seq<Seq<char>>) -> Seq<Seq<char>>
    decreases keys.len(),
{
    if keys.len() == 0 {
        Seq::empty()
    } else if qualified(keys.last()) {
        bare_keys(keys.drop_last())
    } else {
        bare_keys(keys.drop_last()).push(keys.last())
    }
}

fn is_qualified(key: &str) -> (r: bool)
    ensures
        r == qualified(key@),
{
    let cs = chars_of(key);
    let mut i: usize = 0;
    while i < cs.len()
        invariant
            i <= cs@.len(),
            cs@ == key@,
            forall|j: int| 0 <= j < i ==> cs@[j] != '/',
        decreases cs.len() - i,
    {
        if cs[i] == '/' {
            proof {
                assert(key@[i as int] == '/');
            }
            return true;
        }
        i += 1;
    }
    false
}

/// The bare names under which cursors are kept.
pub fn legacy_keys(channels: &TextMap<ChannelCursorState>) -> (r: Vec<String>)
    ensures
        texts(r@) == bare_keys(channels.listed()),
{
    let n: usize = channels.len();
    let ghost keys = channels.listed();
    let mut out: Vec<String> = Vec::new();
    let mut i: usize = 0;
    proof {
        assert(keys.take(0) =~= Seq::empty());
        assert(texts(out@) =~= bare_keys(keys.take(0)));
    }
    while i < n
        invariant
            i <= n,
            n == keys.len(),
            keys == channels.listed(),
            texts(out@) == bare_keys(keys.take(i as int)),
        decreases n - i,
    {
        let ghost out0 = out@;
        proof {
            assert(keys.take(i + 1).drop_last() =~= keys.take(i as int));
        }
        let key = channels.key_at(i);
        if !is_qualified(key.as_str()) {
            out.push(key.clone());
            proof {
                assert(texts(out@) =~= texts(out0).push(key@));
            }
        }
        i += 1;
    }
    proof {
        assert(keys.take(i as int) =~= keys);
    }
    out
}

/// What is known of the channel under a bare name.
pub enum LegacyAnswer {
    Resolved(ResolvedChannel),
    Ambiguous(Vec<String>),
    Unresolved,
}

/// What is known of a bare name from the search in the primary team and, where
/// that failed, from the search everywhere.
pub fn legacy_answer(
    primary: Result<ResolvedChannel, CoreError>,
    anywhere: Result<ResolvedChannel, CoreError>,
) -> (r: LegacyAnswer)
    ensures
        match primary {
            Ok(c) => r == LegacyAnswer::Resolved(c),
            Err(_) => match anywhere {
                Ok(c) => r == LegacyAnswer::Resolved(c),
                Err(CoreError::AmbiguousChannel { teams, .. }) => r == LegacyAnswer::Ambiguous(
                    teams,
                ),
                Err(_) => r is Unresolved,
            },
        },
{
    match primary {
        Ok(c) => LegacyAnswer::Resolved(c),
        Err(_) => match anywhere {
            Ok(c) => LegacyAnswer::Resolved(c),
            Err(CoreError::AmbiguousChannel { teams, .. }) => LegacyAnswer::Ambiguous(teams),
            Err(_) => LegacyAnswer::Unresolved,
        },
    }
}

/// A cursor with its channel: what was seen is kept.
pub open spec fn placed(state: ChannelCursorState, at: ResolvedChannel) -> ChannelCursorState {
    ChannelCursorState {
        last_seen_post_id: state.last_seen_post_id,
        updated_at: state.updated_at,
        last_known_stale: state.last_known_stale,
        last_checked_at: state.last_checked_at,
        channel_id: at.channel_id,
        team_id: at.team_id,
        team_name: at.team_name,
        channel_name: at.channel_name,
    }
}

/// The cursors after one bare name was dealt with.
pub open spec fn moved(
    m: Map<Seq<char>, ChannelCursorState>,
    key: Seq<char>,
    answer: LegacyAnswer,
) -> Map<Seq<char>, ChannelCursorState> {
    if !m.contains_key(key) {
        m
    } else {
        match answer {
            LegacyAnswer::Resolved(at) => m.remove(key).insert(
                cursor_key(at.team_name@, at.channel_name@),
                placed(m[key], at),
            ),
            LegacyAnswer::Ambiguous(_) => m.remove(key),
            LegacyAnswer::Unresolved => m,
        }
    }
}

/// The cursors after bare names were dealt with, one after another.
pub open spec fn moved_all(
    m: Map<Seq<char>, ChannelCursorState>,
    keys: Seq<Seq<char>>,
    answers: Seq<LegacyAnswer>,
) -> Map<Seq<char>, ChannelCursorState>
    decreases keys.len(),
{
    if keys.len() == 0 {
        m
    } else {
        moved(
            moved_all(m, keys.drop_last(), answers.drop_last()),
            keys.last(),
            answers.last(),
        )
    }
}

/// A cursor that was set aside.
pub open spec fn set_aside(
    q: QuarantinedCursor,
    key: Seq<char>,
    answer: LegacyAnswer,
    state: ChannelCursorState,
    now: i64,
) -> bool {
    answer matches LegacyAnswer::Ambiguous(teams) && q.legacy_channel_name@ == key
        && q.ambiguous_teams == teams && q.state == state && q.quarantined_at == now
}

/// The places of the answers that say that a name is ambiguous.
pub open spec fn ambiguous_places(answers: Seq<LegacyAnswer>) -> Seq<int>
    decreases answers.len(),
{
    if answers.len() == 0 {
        Seq::empty()
    } else {
        let before = ambiguous_places(answers.drop_last());
        if answers.last() is Ambiguous {
            before.push(answers.len() - 1)
        } else {
            before
        }
    }
}

/// The cursors whose names are ambiguous were set aside, in the order of their
/// names, behind those that were there.
pub open spec fn all_set_aside(
    before: Seq<QuarantinedCursor>,
    after: Seq<QuarantinedCursor>,
    keys: Seq<Seq<char>>,
    answers: Seq<LegacyAnswer>,
    cursors: Map<Seq<char>, ChannelCursorState>,
    now: i64,
) -> bool {
    let places = ambiguous_places(answers);
    &&& before.is_prefix_of(after)
    &&& after.len() == before.len() + places.len()
    &&& forall|j: int|
        0 <= j < places.len() ==> set_aside(
            after[before.len() + j],
            keys[#[trigger] places[j]],
            answers[places[j]],
            cursors[keys[places[j]]],
            now,
        )
}

/// How many answers name a channel.
pub open spec fn resolved_count(answers: Seq<LegacyAnswer>) -> nat
    decreases answers.len(),
{
    if answers.len() == 0 {
        0
    } else {
        resolved_count(answers.drop_last()) + (if answers.last() is Resolved {
            1nat
        } else {
            0nat
        })
    }
}

proof fn key_of_cursor_is_qualified(team: Seq<char>, channel: Seq<char>)
    ensures
        qualified(cursor_key(team, channel)),
{
    reveal_strlit("/");
    assert(cursor_key(team, channel)[team.len() as int] == '/');
}

/// What a bare name that was not dealt with yet holds.
proof fn moved_all_keeps_bare(
    m: Map<Seq<char>, ChannelCursorState>,
    keys: Seq<Seq<char>>,
    answers: Seq<LegacyAnswer>,
    key: Seq<char>,
)
    requires
        keys.len() == answers.len(),
        !keys.contains(key),
        !qualified(key),
    ensures
        moved_all(m, keys, answers).contains_key(key) == m.contains_key(key),
        m.contains_key(key) ==> moved_all(m, keys, answers)[key] == m[key],
    decreases keys.len(),
{
    if keys.len() > 0 {
        let front = keys.drop_last();
        if front.contains(key) {
            assert(keys[front.index_of(key)] == key);
        }
        moved_all_keeps_bare(m, front, answers.drop_last(), key);
        assert(keys[keys.len() - 1] != key);
        match answers.last() {
            LegacyAnswer::Resolved(at) => {
                key_of_cursor_is_qualified(at.team_name@, at.channel_name@);
            },
            _ => {},
        }
    }
}

/// A cursor under a qualified key stays, unless a bare name turns out to be the
/// same channel.
pub proof fn qualified_cursors_stay(
    m: Map<Seq<char>, ChannelCursorState>,
    keys: Seq<Seq<char>>,
    answers: Seq<LegacyAnswer>,
    key: Seq<char>,
)
    requires
        keys.len() == answers.len(),
        forall|i: int| 0 <= i < keys.len() ==> !qualified(#[trigger] keys[i]),
        qualified(key),
        m.contains_key(key),
        forall|i: int|
            0 <= i < answers.len() ==> (#[trigger] answers[i] matches LegacyAnswer::Resolved(at)
                ==> cursor_key(at.team_name@, at.channel_name@) != key),
    ensures
        moved_all(m, keys, answers).contains_key(key),
        moved_all(m, keys, answers)[key] == m[key],
    decreases keys.len(),
{
    if keys.len() > 0 {
        let front = keys.drop_last();
        let fa = answers.drop_last();
        assert forall|i: int| 0 <= i < front.len() implies !qualified(#[trigger] front[i]) by {
            assert(front[i] == keys[i]);
        }
        assert forall|i: int| 0 <= i < fa.len() implies (#[trigger] fa[i] matches
            LegacyAnswer::Resolved(at) ==> cursor_key(at.team_name@, at.channel_name@) != key) by {
            assert(fa[i] == answers[i]);
        }
        qualified_cursors_stay(m, front, fa, key);
        assert(!qualified(keys[keys.len() - 1]));
        assert(answers[answers.len() - 1] == answers.last());
    }
}

/// Without bare names nothing changes: migrating twice is migrating once, but for
/// names that found no channel.
pub proof fn nothing_to_migrate(m: Map<Seq<char>, ChannelCursorState>, keys: Seq<Seq<char>>)
    requires
        forall|i: int| 0 <= i < keys.len() ==> qualified(#[trigger] keys[i]),
    ensures
        bare_keys(keys).len() == 0,
        moved_all(m, bare_keys(keys), Seq::empty()) == m,
    decreases keys.len(),
{
    if keys.len() > 0 {
        let front = keys.drop_last();
        assert forall|i: int| 0 <= i < front.len() implies qualified(#[trigger] front[i]) by {
            assert(front[i] == keys[i]);
        }
        nothing_to_migrate(m, front);
        assert(qualified(keys[keys.len() - 1]));
    }
}

/// After migration a bare name that found a channel, or several, is gone; one that
/// found none is still there.
pub proof fn migrated_names_are_gone(
    m: Map<Seq<char>, ChannelCursorState>,
    keys: Seq<Seq<char>>,
    answers: Seq<LegacyAnswer>,
    i: int,
)
    requires
        keys.len() == answers.len(),
        keys.no_duplicates(),
        forall|j: int|
            0 <= j < keys.len() ==> !qualified(#[trigger] keys[j]) && m.contains_key(keys[j]),
        0 <= i < keys.len(),
    ensures
        moved_all(m, keys, answers).contains_key(keys[i]) == (answers[i] is Unresolved),
        answers[i] is Unresolved ==> moved_all(m, keys, answers)[keys[i]] == m[keys[i]],
    decreases keys.len(),
{
    let front = keys.drop_last();
    let fa = answers.drop_last();
    let key = keys[i];
    assert(!qualified(key));
    match answers.last() {
        LegacyAnswer::Resolved(at) => {
            key_of_cursor_is_qualified(at.team_name@, at.channel_name@);
        },
        _ => {},
    }
    if i < keys.len() - 1 {
        assert forall|j: int| 0 <= j < front.len() implies !qualified(#[trigger] front[j])
            && m.contains_key(front[j]) by {
            assert(front[j] == keys[j]);
        }
        migrated_names_are_gone(m, front, fa, i);
        assert(front[i] == key && fa[i] == answers[i]);
        assert(keys[keys.len() - 1] != key);
    } else {
        if front.contains(key) {
            assert(keys[front.index_of(key)] == key);
        }
        moved_all_keeps_bare(m, front, fa, key);
    }
}

/// Moves the cursors under bare names. `answers` says what is known of each of
/// them, in the order of the keys.
pub fn migrate_attention_state(
    state: &mut AttentionState,
    answers: Vec<LegacyAnswer>,
    now: i64,
) -> (r: MigrationOutcome)
    requires
        answers@.len() == bare_keys(old(state).channels.listed()).len(),
    ensures
        final(state).channels@ == moved_all(
            old(state).channels@,
            bare_keys(old(state).channels.listed()),
            answers@,
        ),
        final(state).mentions == old(state).mentions,
        all_set_aside(
            old(state).quarantined@,
            final(state).quarantined@,
            bare_keys(old(state).channels.listed()),
            answers@,
            old(state).channels@,
            now,
        ),
        r.migrated == resolved_count(answers@),
        r.quarantined == ambiguous_places(answers@).len(),
        r.migrated + r.quarantined + r.skipped == answers@.len(),
{
    let ghost start = state.channels@;
    let ghost q0 = state.quarantined@;
    let ghost keys = bare_keys(state.channels.listed());
    let ghost given = answers@;
    let legacy = legacy_keys(&state.channels);
    let _ = state.channels.len();
    proof {
        bare_keys_of(state.channels.listed());
        ascending_no_duplicates(state.channels.listed());
        assert forall|j: int| 0 <= j < keys.len() implies start.contains_key(#[trigger] keys[j]) by {
            assert(state.channels.listed().contains(keys[j]));
            assert(state.channels.listed().to_set().contains(keys[j]));
        }
        assert(given.take(0) =~= Seq::empty());
        assert(keys.take(0) =~= Seq::empty());
    }
    let mut rest = answers;
    let mut migrated: usize = 0;
    let mut quarantined: usize = 0;
    let mut skipped: usize = 0;
    let mut i: usize = 0;
    while i < legacy.len()
        invariant
            i <= legacy@.len(),
            texts(legacy@) == keys,
            keys.len() == given.len(),
            keys.no_duplicates(),
            forall|j: int|
                0 <= j < keys.len() ==> !qualified(#[trigger] keys[j]) && start.contains_key(
                    keys[j],
                ),
            rest@ == given.skip(i as int),
            state.channels@ == moved_all(start, keys.take(i as int), given.take(i as int)),
            state.mentions == old(state).mentions,
            all_set_aside(
                q0,
                state.quarantined@,
                keys.take(i as int),
                given.take(i as int),
                start,
                now,
            ),
            migrated == resolved_count(given.take(i as int)),
            quarantined == ambiguous_places(given.take(i as int)).len(),
            quarantined <= i,
            migrated + quarantined + skipped == i,
        decreases legacy.len() - i,
    {
        let answer = rest.remove(0);
        let name = legacy[i].clone();
        let ghost key = keys[i as int];
        let ghost m = state.channels@;
        let ghost qs = state.quarantined@;
        proof {
            assert(answer == given[i as int]);
            assert(rest@ =~= given.skip(i + 1));
            assert(given.take(i + 1).drop_last() =~= given.take(i as int));
            assert(given.take(i + 1).last() == answer);
            assert(keys.take(i + 1).drop_last() =~= keys.take(i as int));
            assert(keys.take(i + 1).last() == key);
            assert(name@ == key);
            if keys.take(i as int).contains(key) {
                let k = keys.take(i as int).index_of(key);
                assert(keys[k] == keys[i as int]);
            }
            moved_all_keeps_bare(start, keys.take(i as int), given.take(i as int), key);
        }
        match state.channels.remove(name.as_str()) {
            None => {},
            Some(cursor) => match answer {
                LegacyAnswer::Resolved(at) => {
                    let new_key = attention_key_for(at.team_name.as_str(), at.channel_name.as_str());
                    state.channels.insert(
                        new_key,
                        ChannelCursorState {
                            last_seen_post_id: cursor.last_seen_post_id,
                            updated_at: cursor.updated_at,
                            last_known_stale: cursor.last_known_stale,
                            last_checked_at: cursor.last_checked_at,
                            channel_id: at.channel_id,
                            team_id: at.team_id,
                            team_name: at.team_name,
                            channel_name: at.channel_name,
                        },
                    );
                    migrated += 1;
                },
                LegacyAnswer::Ambiguous(teams) => {
                    state.quarantined.push(
                        QuarantinedCursor {
                            legacy_channel_name: name,
                            ambiguous_teams: teams,
                            state: cursor,
                            quarantined_at: now,
                        },
                    );
                    quarantined += 1;
                },
                LegacyAnswer::Unresolved => {
                    state.channels.insert(name, cursor);
                    proof {
                        assert(state.channels@ =~= m);
                    }
                    skipped += 1;
                },
            },
        }
        proof {
            let places = ambiguous_places(given.take(i as int));
            let all = ambiguous_places(given.take(i + 1));
            ambiguous_places_are_places(given.take(i as int));
            assert forall|j: int| 0 <= j < all.len() implies set_aside(
                state.quarantined@[q0.len() + j],
                keys.take(i + 1)[#[trigger] all[j]],
                given.take(i + 1)[all[j]],
                start[keys.take(i + 1)[all[j]]],
                now,
            ) by {
                if j < places.len() {
                    assert(all[j] == places[j]);
                    assert(state.quarantined@[q0.len() + j] == qs[q0.len() + j]);
                    assert(keys.take(i + 1)[places[j]] == keys.take(i as int)[places[j]]);
                    assert(given.take(i + 1)[places[j]] == given.take(i as int)[places[j]]);
                }
            }
        }
        i += 1;
    }
    proof {
        assert(keys.take(i as int) =~= keys);
        assert(given.take(i as int) =~= given);
    }
    MigrationOutcome { migrated, quarantined, skipped }
}

proof fn ambiguous_places_are_places(answers: Seq<LegacyAnswer>)
    ensures
        forall|j: int|
            0 <= j < ambiguous_places(answers).len() ==> 0 <= #[trigger] ambiguous_places(
                answers,
            )[j] < answers.len(),
    decreases answers.len(),
{
    if answers.len() > 0 {
        let before = ambiguous_places(answers.drop_last());
        ambiguous_places_are_places(answers.drop_last());
        assert forall|j: int| 0 <= j < ambiguous_places(answers).len() implies 0
            <= #[trigger] ambiguous_places(answers)[j] < answers.len() by {
            if j < before.len() {
                assert(ambiguous_places(answers)[j] == before[j]);
            }
        }
    }
}

/// The bare keys are among the keys, none is qualified, and none occurs twice.
proof fn bare_keys_of(keys: Seq<Seq<char>>)
    ensures
        forall|i: int|
            0 <= i < bare_keys(keys).len() ==> keys.contains(#[trigger] bare_keys(keys)[i])
                && !qualified(bare_keys(keys)[i]),
        keys.no_duplicates() ==> bare_keys(keys).no_duplicates(),
    decreases keys.len(),
{
    if keys.len() > 0 {
        let front = keys.drop_last();
        bare_keys_of(front);
        let bare = bare_keys(keys);
        assert forall|i: int| 0 <= i < bare.len() implies keys.contains(#[trigger] bare[i])
            && !qualified(bare[i]) by {
            if i < bare_keys(front).len() {
                assert(bare[i] == bare_keys(front)[i]);
                let k = front.index_of(bare[i]);
                assert(keys[k] == bare[i]);
            } else {
                assert(keys[keys.len() - 1] == bare[i]);
            }
        }
        if keys.no_duplicates() {
            assert(front.no_duplicates());
            assert forall|i: int, j: int|
                0 <= i < bare.len() && 0 <= j < bare.len() && i != j implies bare[i] != bare[j] by {
                let n = bare_keys(front).len();
                if i >= n {
                    assert(front.contains(bare_keys(front)[j]));
                    let k = front.index_of(bare[j]);
                    assert(keys[k] == bare[j]);
                } else if j >= n {
                    assert(front.contains(bare_keys(front)[i]));
                    let k = front.index_of(bare[i]);
                    assert(keys[k] == bare[i]);
                }
            }
        }
    }
}

// ---------------------------------------------------------------------------
// Laws
// ---------------------------------------------------------------------------

/// A cursor goes by its team and its channel, with a `/` between them.
pub proof fn cursors_go_by_team_and_channel(team: Seq<char>, channel: Seq<char>)
    ensures
        cursor_key(team, channel) == team + seq!['/'] + channel,
{
    reveal_strlit("/");
    assert("/"@ =~= seq!['/']);
}

/// A channel gets a cursor if and only if it is public or private, and has none yet, neither
/// under its name alone nor under that of its team.
pub proof fn channels_without_a_cursor_get_one(
    cs: Seq<Channel>,
    primary_team: Seq<char>,
    existing: Set<Seq<char>>,
    c: Channel,
)
    ensures
        seeds(cs, primary_team, existing).contains(c) <==> cs.contains(c) && (c.channel_type@ == "O"@
            || c.channel_type@ == "P"@) && !existing.contains(c.name@) && !existing.contains(
            primary_team + seq!['/'] + c.name@,
        ),
    decreases cs.len(),
{
    cursors_go_by_team_and_channel(primary_team, c.name@);
    if cs.len() > 0 {
        let front = cs.drop_last();
        channels_without_a_cursor_get_one(front, primary_team, existing, c);
        let all = seeds(cs, primary_team, existing);
        let rest = seeds(front, primary_team, existing);
        if all.contains(c) {
            let k = all.index_of(c);
            if k < rest.len() {
                assert(rest[k] == c);
                let i = front.index_of(c);
                assert(cs[i] == c);
            } else {
                assert(cs[cs.len() - 1] == c);
            }
        }
        if cs.contains(c) && to_seed(c, primary_team, existing) {
            let i = cs.index_of(c);
            if i < front.len() {
                assert(front[i] == c);
                let k = rest.index_of(c);
                assert(all[k] == c);
            } else {
                assert(all[all.len() - 1] == c);
            }
        }
    }
}

/// A cursor is put at the newest post; a channel without posts gets none, and a channel that
/// could not be read is reported with the reason.
pub proof fn cursors_are_put_at_the_newest_post(
    channel: Seq<char>,
    head: Result<Vec<Message>, CoreError>,
    o: SeededChannelOutcome,
)
    requires
        seeded(channel, head, o),
    ensures
        head is Err ==> (o matches SeededChannelOutcome::Failed { channel: c, reason } && c@
            == channel && reason@ == core_error_text(head->Err_0)),
        head is Ok && head->Ok_0@.len() == 0 ==> (o matches
            SeededChannelOutcome::UnseededEmptyChannel { channel: c } && c@ == channel),
        head is Ok && head->Ok_0@.len() > 0 ==> (o matches SeededChannelOutcome::Seeded {
            channel: c,
            post_id,
        } && c@ == channel && post_id@ == head->Ok_0@[head->Ok_0@.len() - 1].id@),
{
}

/// The names that are moved are those without a `/`, each once.
pub proof fn bare_names_are_moved(keys: Seq<Seq<char>>, key: Seq<char>)
    ensures
        bare_keys(keys).contains(key) <==> keys.contains(key) && !key.contains('/'),
    decreases keys.len(),
{
    if keys.len() > 0 {
        let front = keys.drop_last();
        bare_names_are_moved(front, key);
        let all = bare_keys(keys);
        let rest = bare_keys(front);
        if all.contains(key) {
            let k = all.index_of(key);
            if k < rest.len() {
                assert(rest[k] == key);
                let i = front.index_of(key);
                assert(keys[i] == key);
            } else {
                assert(keys[keys.len() - 1] == key);
            }
        }
        if keys.contains(key) && !key.contains('/') {
            let i = keys.index_of(key);
            if i < front.len() {
                assert(front[i] == key);
                let k = rest.index_of(key);
                assert(all[k] == key);
            } else {
                assert(all[all.len() - 1] == key);
            }
        }
    }
}

/// A cursor that is moved keeps what it saw and when, and learns where it is. One that is not
/// found stays as it is; one that could be several is no longer among the cursors.
pub proof fn moved_cursors_keep_what_they_saw(
    m: Map<Seq<char>, ChannelCursorState>,
    key: Seq<char>,
    at: ResolvedChannel,
    teams: Vec<String>,
)
    requires
        m.contains_key(key),
        !key.contains('/'),
    ensures
        ({
            let after = moved(m, key, LegacyAnswer::Resolved(at));
            let place = at.team_name@ + seq!['/'] + at.channel_name@;
            &&& !after.contains_key(key)
            &&& after.contains_key(place)
            &&& after[place].last_seen_post_id == m[key].last_seen_post_id
            &&& after[place].updated_at == m[key].updated_at
            &&& after[place].last_known_stale == m[key].last_known_stale
            &&& after[place].last_checked_at == m[key].last_checked_at
            &&& after[place].channel_id == at.channel_id
            &&& after[place].team_id == at.team_id
            &&& after[place].team_name == at.team_name
            &&& after[place].channel_name == at.channel_name
            &&& forall|k: Seq<char>|
                k != key && k != place && #[trigger] m.contains_key(k) ==> after.contains_key(k)
                    && after[k] == m[k]
        }),
        !moved(m, key, LegacyAnswer::Ambiguous(teams)).contains_key(key),
        forall|k: Seq<char>|
            k != key && #[trigger] m.contains_key(k) ==> moved(
                m,
                key,
                LegacyAnswer::Ambiguous(teams),
            ).contains_key(k) && moved(m, key, LegacyAnswer::Ambiguous(teams))[k] == m[k],
        moved(m, key, LegacyAnswer::Unresolved) == m,
{
    cursors_go_by_team_and_channel(at.team_name@, at.channel_name@);
    key_of_cursor_is_qualified(at.team_name@, at.channel_name@);
}

/// Names are moved one after another.
pub proof fn names_are_moved_in_turn(
    m: Map<Seq<char>, ChannelCursorState>,
    keys: Seq<Seq<char>>,
    answers: Seq<LegacyAnswer>,
    key: Seq<char>,
    answer: LegacyAnswer,
)
    requires
        keys.len() == answers.len(),
    ensures
        moved_all(m, keys.push(key), answers.push(answer)) == moved(
            moved_all(m, keys, answers),
            key,
            answer,
        ),
        moved_all(m, Seq::empty(), Seq::empty()) == m,
{
    assert(keys.push(key).drop_last() =~= keys);
    assert(answers.push(answer).drop_last() =~= answers);
}

/// Every name that could be several is set aside with its cursor and the teams, and nothing
/// else is; what was set aside before stays.
pub proof fn ambiguous_names_are_set_aside(
    before: Seq<QuarantinedCursor>,
    after: Seq<QuarantinedCursor>,
    keys: Seq<Seq<char>>,
    answers: Seq<LegacyAnswer>,
    cursors: Map<Seq<char>, ChannelCursorState>,
    now: i64,
    i: int,
)
    requires
        all_set_aside(before, after, keys, answers, cursors, now),
        keys.len() == answers.len(),
        0 <= i < answers.len(),
    ensures
        forall|j: int| 0 <= j < before.len() ==> after[j] == #[trigger] before[j],
        answers[i] is Ambiguous ==> exists|j: int|
            before.len() <= j < after.len() && (#[trigger] after[j]).legacy_channel_name@ == keys[i]
                && after[j].ambiguous_teams == answers[i]->Ambiguous_0 && after[j].state
                == cursors[keys[i]] && after[j].quarantined_at == now,
        forall|j: int|
            before.len() <= j < after.len() ==> exists|k: int|
                0 <= k < keys.len() && answers[k] is Ambiguous && (
                #[trigger] after[j]).legacy_channel_name@ == #[trigger] keys[k],
{
    let places = ambiguous_places(answers);
    ambiguous_places_are_ambiguous(answers);
    assert forall|j: int| 0 <= j < before.len() implies after[j] == #[trigger] before[j] by {}
    if answers[i] is Ambiguous {
        let p = choose|p: int| 0 <= p < places.len() && #[trigger] places[p] == i;
        assert(set_aside(
            after[before.len() + p],
            keys[places[p]],
            answers[places[p]],
            cursors[keys[places[p]]],
            now,
        ));
        let j = before.len() + p;
        assert(after[j].legacy_channel_name@ == keys[i]);
    }
    assert forall|j: int| before.len() <= j < after.len() implies exists|k: int|
        0 <= k < keys.len() && answers[k] is Ambiguous && (#[trigger] after[j]).legacy_channel_name@
            == #[trigger] keys[k] by {
        let p = j - before.len();
        assert(answers[places[p]] is Ambiguous);
        assert(set_aside(
            after[before.len() + p],
            keys[places[p]],
            answers[places[p]],
            cursors[keys[places[p]]],
            now,
        ));
        let k = places[p];
        assert(after[j].legacy_channel_name@ == keys[k]);
    }
}

proof fn ambiguous_places_are_ambiguous(answers: Seq<LegacyAnswer>)
    ensures
        forall|j: int|
            0 <= j < ambiguous_places(answers).len() ==> 0 <= #[trigger] ambiguous_places(
                answers,
            )[j] < answers.len() && answers[ambiguous_places(answers)[j]] is Ambiguous,
        forall|i: int|
            #![trigger answers[i]]
            0 <= i < answers.len() && answers[i] is Ambiguous ==> exists|j: int|
                0 <= j < ambiguous_places(answers).len() && #[trigger] ambiguous_places(answers)[j]
                    == i,
    decreases answers.len(),
{
    if answers.len() > 0 {
        let front = answers.drop_last();
        ambiguous_places_are_ambiguous(front);
        let all = ambiguous_places(answers);
        let rest = ambiguous_places(front);
        assert forall|j: int| 0 <= j < all.len() implies 0 <= #[trigger] all[j] < answers.len()
            && answers[all[j]] is Ambiguous by {
            if j < rest.len() {
                assert(all[j] == rest[j]);
                assert(front[rest[j]] == answers[rest[j]]);
            }
        }
        assert forall|i: int|
            #![trigger answers[i]]
            0 <= i < answers.len() && answers[i] is Ambiguous implies exists|j: int|
            0 <= j < all.len() && #[trigger] all[j] == i by {
            if i < front.len() {
                assert(front[i] == answers[i]);
                let j = choose|j: int| 0 <= j < rest.len() && #[trigger] rest[j] == i;
                assert(all[j] == i);
            } else {
                assert(all[all.len() - 1] == i);
            }
        }
    }
}

/// The count of moved cursors is that of the names that were found.
pub proof fn found_names_are_counted(answers: Seq<LegacyAnswer>, answer: LegacyAnswer)
    ensures
        resolved_count(answers.push(answer)) == resolved_count(answers) + (if answer is Resolved {
            1nat
        } else {
            0nat
        }),
        resolved_count(Seq::empty()) == 0,
        ambiguous_places(answers.push(answer)).len() == ambiguous_places(answers).len() + (
        if answer is Ambiguous {
            1nat
        } else {
            0nat
        }),
        ambiguous_places(Seq::empty()).len() == 0,
{
    assert(answers.push(answer).drop_last() =~= answers);
}

/// An old name is that of the primary team where the team has it, else of the one team that
/// has it, and is set aside where several have it.
pub proof fn old_names_are_of_the_primary_team_first(
    primary: Result<ResolvedChannel, CoreError>,
    anywhere: Result<ResolvedChannel, CoreError>,
    r: LegacyAnswer,
)
    requires
        call_ensures(legacy_answer, (primary, anywhere), r),
    ensures
        primary is Ok ==> r == LegacyAnswer::Resolved(primary->Ok_0),
        primary is Err && anywhere is Ok ==> r == LegacyAnswer::Resolved(anywhere->Ok_0),
        primary is Err && anywhere is Err && anywhere->Err_0 is AmbiguousChannel ==> r
            == LegacyAnswer::Ambiguous(anywhere->Err_0->AmbiguousChannel_teams),
        primary is Err && anywhere is Err && !(anywhere->Err_0 is AmbiguousChannel) ==> r is
            Unresolved,
{
}

/// Each candidate has its outcome, in its place.
pub proof fn every_candidate_has_its_outcome(
    candidates: &Vec<Channel>,
    heads: &Vec<Result<Vec<Message>, CoreError>>,
    r: Vec<SeededChannelOutcome>,
    i: int,
)
    requires
        candidates@.len() == heads@.len(),
        call_ensures(compute_seed_outcomes, (candidates, heads), r),
        0 <= i < candidates@.len(),
    ensures
        r@.len() == candidates@.len(),
        heads@[i] is Err ==> r@[i] is Failed && r@[i]->Failed_channel@ == candidates@[i].name@,
        heads@[i] is Ok && heads@[i]->Ok_0@.len() == 0 ==> r@[i] is UnseededEmptyChannel,
        heads@[i] is Ok && heads@[i]->Ok_0@.len() > 0 ==> r@[i] is Seeded
            && r@[i]->Seeded_channel@ == candidates@[i].name@ && r@[i]->Seeded_post_id@
            == heads@[i]->Ok_0@[heads@[i]->Ok_0@.len() - 1].id@,
{
    assert(seeded(candidates@[i].name@, heads@[i], r@[i]));
}

/// Every name is moved, set aside or skipped, the first are counted as they were answered, and
/// mentions stay as they are.
pub proof fn moves_are_counted(
    state: &mut AttentionState,
    answers: Vec<LegacyAnswer>,
    now: i64,
    r: MigrationOutcome,
)
    requires
        answers@.len() == bare_keys(old(state).channels.listed()).len(),
        call_ensures(migrate_attention_state, (state, answers, now), r),
    ensures
        final(state).mentions == old(state).mentions,
        r.migrated == resolved_count(answers@),
        r.quarantined == ambiguous_places(answers@).len(),
        r.migrated + r.quarantined + r.skipped == answers@.len(),
        final(state).channels@ == moved_all(
            old(state).channels@,
            bare_keys(old(state).channels.listed()),
            answers@,
        ),
{
}

} // verus!
