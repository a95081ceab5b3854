//! Names of authors, remembered for a while.
//!
//! Moments are milliseconds on one clock. The cache holds ids and names only.
use vstd::prelude::*;
use vstd::string::*;

use crate::collections::{ascending, TextMap, TextSet};
use crate::text::texts;

verus! {

/// How long a name stays usable, in milliseconds.
pub const AUTHOR_CACHE_TTL: u64 = 900_000;

/// How many names are remembered at most.
pub const AUTHOR_CACHE_MAX_ENTRIES: usize = 1024;

/// How long the lookup of one name may take, in milliseconds.
pub const AUTHOR_RESOLVE_TIMEOUT: u64 = 5_000;

/// A name and when it was learned.
#[derive(Debug, PartialEq, Eq)]
pub struct AuthorCacheEntry {
    pub username: String,
    pub fetched_at: u64,
}

impl Clone for AuthorCacheEntry {
    fn clone(&self) -> (r: Self)
        ensures
            r == *self,
    {
        AuthorCacheEntry { username: self.username.clone(), fetched_at: self.fetched_at }
    }
}

/// The entry is too old to be used.
pub open spec fn expired(entry: AuthorCacheEntry, now: u64) -> bool {
    now - entry.fetched_at >= AUTHOR_CACHE_TTL
}

fn is_expired(entry: &AuthorCacheEntry, now: u64) -> (r: bool)
    ensures
        r == expired(*entry, now),
{
    now >= entry.fetched_at && now - entry.fetched_at >= AUTHOR_CACHE_TTL
}

/// The entries that can still be used.
pub open spec fn usable_entries(m: Map<Seq<char>, AuthorCacheEntry>, now: u64) -> Map<
    Seq<char>,
    AuthorCacheEntry,
> {
    m.restrict(Set::new(|k: Seq<char>| m.contains_key(k) && !expired(m[k], now)))
}

/// `kept` is `m` without its oldest entries.
pub open spec fn without_oldest(
    m: Map<Seq<char>, AuthorCacheEntry>,
    kept: Map<Seq<char>, AuthorCacheEntry>,
) -> bool {
    &&& kept.submap_of(m)
    &&& forall|gone: Seq<char>, k: Seq<char>|
        #![trigger m.contains_key(gone), kept.contains_key(k)]
        m.contains_key(gone) && !kept.contains_key(gone) && kept.contains_key(k)
            ==> m[gone].fetched_at <= kept[k].fetched_at
}

fn drop_expired(cache: &TextMap<AuthorCacheEntry>, now: u64) -> (r: TextMap<AuthorCacheEntry>)
    ensures
        r@ == usable_entries(cache@, now),
{
    let n: usize = cache.len();
    let mut out: TextMap<AuthorCacheEntry> = TextMap::new();
    let ghost m = cache@;
    let ghost keys = cache.listed();
    let mut i: usize = 0;
    proof {
        assert(out@ =~= usable_entries(m, now).restrict(keys.take(0).to_set()));
    }
    while i < n
        invariant
            i <= n,
            n == keys.len(),
            keys == cache.listed(),
            m == cache@,
            ascending(keys),
            m.dom() == keys.to_set(),
            out@ == usable_entries(m, now).restrict(keys.take(i as int).to_set()),
        decreases n - i,
    {
        let entry = cache.value_at(i);
        let ghost before = out@;
        let ghost key = keys[i as int];
        proof {
            assert(keys.take(i + 1) =~= keys.take(i as int).push(key));
            assert forall|k: Seq<char>| keys.take(i + 1).contains(k) == (keys.take(
                i as int,
            ).contains(k) || k == key) by {
                if keys.take(i as int).contains(k) {
                    assert(keys.take(i + 1)[keys.take(i as int).index_of(k)] == k);
                }
                assert(keys.take(i + 1)[i as int] == key);
                if keys.take(i + 1).contains(k) && k != key {
                    let j = keys.take(i + 1).index_of(k);
                    assert(keys.take(i as int)[j] == k);
                }
            }
        }
        if !is_expired(entry, now) {
            out.insert(cache.key_at(i).clone(), entry.clone());
        }
        proof {
            let after = usable_entries(m, now).restrict(keys.take(i + 1).to_set());
            assert(m.contains_key(key) && m[key] == *entry);
            assert forall|k: Seq<char>| out@.contains_key(k) == after.contains_key(k) by {
                assert(keys.take(i + 1).to_set().contains(k) == keys.take(i + 1).contains(k));
                assert(keys.take(i as int).to_set().contains(k) == keys.take(i as int).contains(
                    k,
                ));
            }
            assert forall|k: Seq<char>| #[trigger] out@.contains_key(k) implies out@[k]
                == after[k] by {
                if k != key {
                    assert(before.contains_key(k));
                    assert(before[k] == m[k]);
                }
                assert(after.contains_key(k));
            }
            assert(out@.dom() =~= after.dom());
            assert(out@ =~= after);
        }
        i += 1;
    }
    proof {
        assert(keys.take(i as int) =~= keys);
        assert(out@ =~= usable_entries(m, now));
    }
    out
}

/// The place of an oldest entry.
fn oldest(cache: &TextMap<AuthorCacheEntry>) -> (r: usize)
    requires
        cache.listed().len() > 0,
    ensures
        r < cache.listed().len(),
        forall|k: Seq<char>| #[trigger]
            cache@.contains_key(k) ==> cache@[cache.listed()[r as int]].fetched_at
                <= cache@[k].fetched_at,
{
    let n: usize = cache.len();
    let ghost keys = cache.listed();
    let mut best: usize = 0;
    let mut i: usize = 1;
    while i < n
        invariant
            best < i <= n,
            n == keys.len(),
            keys == cache.listed(),
            forall|j: int|
                0 <= j < i ==> cache@[keys[best as int]].fetched_at <= cache@[#[trigger]
                keys[j]].fetched_at,
        decreases n - i,
    {
        if cache.value_at(i).fetched_at < cache.value_at(best).fetched_at {
            best = i;
        }
        i += 1;
    }
    proof {
        assert forall|k: Seq<char>| #[trigger]
            cache@.contains_key(k) implies cache@[keys[best as int]].fetched_at
            <= cache@[k].fetched_at by {
            assert(keys.to_set().contains(k));
            assert(keys[keys.index_of(k)] == k);
        }
    }
    best
}

/// Drops oldest entries until there is room for one more.
fn make_room(cache: &mut TextMap<AuthorCacheEntry>)
    ensures
        without_oldest(old(cache)@, final(cache)@),
        final(cache)@.dom().len() == (if old(cache)@.dom().len() < AUTHOR_CACHE_MAX_ENTRIES {
            old(cache)@.dom().len() as int
        } else {
            AUTHOR_CACHE_MAX_ENTRIES - 1
        }),
        final(cache)@.dom().finite(),
{
    let ghost start = cache@;
    let mut n: usize = cache.len();
    while n >= AUTHOR_CACHE_MAX_ENTRIES
        invariant
            n == cache@.dom().len(),
            n == cache.listed().len(),
            cache@.dom().finite(),
            without_oldest(start, cache@),
            start.dom().len() >= n,
            n + 1 >= AUTHOR_CACHE_MAX_ENTRIES || start.dom().len() == n,
        decreases n,
    {
        let ghost before = cache@;
        let k = oldest(cache);
        let key = cache.key_at(k).clone();
        let _ = cache.remove(key.as_str());
        n = cache.len();
        proof {
            assert(cache@ =~= before.remove(key@));
            assert(cache@.dom() =~= before.dom().remove(key@));
            assert(without_oldest(start, cache@)) by {
                assert forall|gone: Seq<char>, k: Seq<char>|
                    #![trigger start.contains_key(gone), cache@.contains_key(k)]
                    start.contains_key(gone) && !cache@.contains_key(gone) && cache@.contains_key(
                        k,
                    ) implies start[gone].fetched_at <= cache@[k].fetched_at by {
                    assert(before.contains_key(k));
                    if before.contains_key(gone) {
                        assert(gone == key@);
                    }
                }
            }
        }
    }
}

/// `after` is what a cache holds once it remembers an entry. A full cache has first
/// dropped what can no longer be used, then its oldest entries.
pub open spec fn remembered(
    before: Map<Seq<char>, AuthorCacheEntry>,
    user_id: Seq<char>,
    entry: AuthorCacheEntry,
    after: Map<Seq<char>, AuthorCacheEntry>,
) -> bool {
    if before.contains_key(user_id) || before.dom().len() < AUTHOR_CACHE_MAX_ENTRIES {
        after == before.insert(user_id, entry)
    } else {
        let usable = usable_entries(before, entry.fetched_at);
        exists|kept: Map<Seq<char>, AuthorCacheEntry>| #[trigger]
            without_oldest(usable, kept) && kept.dom().len() == (if usable.dom().len()
                < AUTHOR_CACHE_MAX_ENTRIES {
                usable.dom().len() as int
            } else {
                AUTHOR_CACHE_MAX_ENTRIES - 1
            }) && after == kept.insert(user_id, entry)
    }
}

/// Remembers a name. A full cache first drops what can no longer be used, then
/// its oldest entries, so that it never grows past its bound.
pub fn insert_author_entry(
    cache: &mut TextMap<AuthorCacheEntry>,
    user_id: String,
    username: String,
    now: u64,
)
    ensures
        remembered(
            old(cache)@,
            user_id@,
            AuthorCacheEntry { username, fetched_at: now },
            final(cache)@,
        ),
        final(cache)@.contains_key(user_id@),
        final(cache)@.dom().len() <= AUTHOR_CACHE_MAX_ENTRIES || final(cache)@.dom().len() == old(
            cache,
        )@.dom().len(),
{
    let ghost before = cache@;
    let n: usize = cache.len();
    if !cache.contains_key(user_id.as_str()) && n >= AUTHOR_CACHE_MAX_ENTRIES {
        let mut kept = drop_expired(cache, now);
        make_room(&mut kept);
        proof {
            assert(without_oldest(usable_entries(before, now), kept@));
        }
        let ghost k = kept@;
        let ghost id = user_id@;
        let entry = AuthorCacheEntry { username, fetched_at: now };
        kept.insert(user_id, entry);
        proof {
            assert(kept@.dom() =~= k.dom().insert(id));
            assert(without_oldest(usable_entries(before, entry.fetched_at), k));
            assert(remembered(before, id, entry, kept@));
        }
        *cache = kept;
    } else {
        let ghost id = user_id@;
        cache.insert(user_id, AuthorCacheEntry { username, fetched_at: now });
        proof {
            assert(cache@.dom() =~= before.dom().insert(id));
            if before.contains_key(id) {
                assert(before.dom().insert(id) =~= before.dom());
            }
        }
    }
}

/// The names that the cache knows of the wanted authors.
pub open spec fn known_names(
    cache: Map<Seq<char>, AuthorCacheEntry>,
    wanted: Set<Seq<char>>,
    now: u64,
    names: Map<Seq<char>, String>,
) -> bool {
    &&& forall|k: Seq<char>| #[trigger]
        names.contains_key(k) <==> wanted.contains(k) && cache.contains_key(k) && !expired(
            cache[k],
            now,
        )
    &&& forall|k: Seq<char>| #[trigger]
        names.contains_key(k) ==> names[k] == cache[k].username
}

/// The authors that have to be looked up, in their order.
pub open spec fn unknown_authors(
    ids: Seq<Seq<char>>,
    cache: Map<Seq<char>, AuthorCacheEntry>,
    now: u64,
) -> Seq<Seq<char>> {
    ids.filter(|id: Seq<char>| !(cache.contains_key(id) && !expired(cache[id], now)))
}

/// The names that the cache knows, and the authors that have to be looked up.
pub fn lookup_authors(cache: &TextMap<AuthorCacheEntry>, wanted: &TextSet, now: u64) -> (r: (
    TextMap<String>,
    Vec<String>,
))
    ensures
        known_names(cache@, wanted@, now, r.0@),
        texts(r.1@) == unknown_authors(wanted.listed(), cache@, now),
{
    let mut names: TextMap<String> = TextMap::new();
    let mut missing: Vec<String> = Vec::new();
    let n: usize = wanted.len();
    let ghost ids = wanted.listed();
    let mut i: usize = 0;
    proof {
        reveal(Seq::filter);
        assert(texts(missing@) =~= unknown_authors(ids.take(0), cache@, now));
    }
    while i < n
        invariant
            i <= n,
            n == ids.len(),
            ids == wanted.listed(),
            forall|k: Seq<char>| #[trigger]
                names@.contains_key(k) <==> ids.take(i as int).contains(k) && cache@.contains_key(k)
                    && !expired(cache@[k], now),
            forall|k: Seq<char>| #[trigger]
                names@.contains_key(k) ==> names@[k] == cache@[k].username,
            texts(missing@) == unknown_authors(ids.take(i as int), cache@, now),
        decreases n - i,
    {
        let id = wanted.at(i);
        let ghost missing0 = missing@;
        let ghost names0 = names@;
        proof {
            reveal(Seq::filter);
            assert(ids.take(i + 1).drop_last() =~= ids.take(i as int));
            assert forall|k: Seq<char>| ids.take(i + 1).contains(k) == (ids.take(
                i as int,
            ).contains(k) || k == id@) by {
                if ids.take(i as int).contains(k) {
                    assert(ids.take(i + 1)[ids.take(i as int).index_of(k)] == k);
                }
                assert(ids.take(i + 1)[i as int] == id@);
                if ids.take(i + 1).contains(k) && k != id@ {
                    let j = ids.take(i + 1).index_of(k);
                    assert(ids.take(i as int)[j] == k);
                }
            }
        }
        let known = match cache.get(id.as_str()) {
            Some(entry) => {
                if !is_expired(entry, now) {
                    names.insert(id.clone(), entry.username.clone());
                    true
                } else {
                    false
                }
            },
            None => false,
        };
        proof {
            assert(known == (cache@.contains_key(id@) && !expired(cache@[id@], now)));
            assert forall|k: Seq<char>| #[trigger] names@.contains_key(k) <==> ids.take(
                i + 1,
            ).contains(k) && cache@.contains_key(k) && !expired(cache@[k], now) by {
                assert(names@.contains_key(k) <==> names0.contains_key(k) || (known && k == id@));
                assert(ids.take(i + 1).contains(k) == (ids.take(i as int).contains(k) || k == id@));
            }
        }
        if !known {
            missing.push(id.clone());
            proof {
                assert(texts(missing@) =~= texts(missing0).push(id@));
            }
        }
        i += 1;
    }
    proof {
        assert(ids.take(i as int) =~= ids);
        assert forall|k: Seq<char>| ids.contains(k) == wanted@.contains(k) by {}
    }
    (names, missing)
}

/// `after` is what a cache holds once it remembers names that were looked up, one
/// after the other.
pub open spec fn all_remembered(
    before: Map<Seq<char>, AuthorCacheEntry>,
    fetched: Seq<(String, String)>,
    now: u64,
    after: Map<Seq<char>, AuthorCacheEntry>,
) -> bool
    decreases fetched.len(),
{
    if fetched.len() == 0 {
        after == before
    } else {
        exists|between: Map<Seq<char>, AuthorCacheEntry>|
            all_remembered(before, fetched.drop_last(), now, between) && #[trigger] remembered(
                between,
                fetched.last().0@,
                AuthorCacheEntry { username: fetched.last().1, fetched_at: now },
                after,
            )
    }
}

proof fn one_more_remembered(
    before: Map<Seq<char>, AuthorCacheEntry>,
    fetched: Seq<(String, String)>,
    now: u64,
    between: Map<Seq<char>, AuthorCacheEntry>,
    after: Map<Seq<char>, AuthorCacheEntry>,
)
    requires
        fetched.len() > 0,
        all_remembered(before, fetched.drop_last(), now, between),
        remembered(
            between,
            fetched.last().0@,
            AuthorCacheEntry { username: fetched.last().1, fetched_at: now },
            after,
        ),
    ensures
        all_remembered(before, fetched, now, after),
{
}

/// Remembers the names that were looked up, and adds them to the known ones. What
/// could not be looked up is not remembered.
pub fn remember_authors(
    cache: &mut TextMap<AuthorCacheEntry>,
    names: &mut TextMap<String>,
    fetched: &Vec<(String, String)>,
    now: u64,
)
    ensures
        final(names)@ == fetched_names(old(names)@, fetched@),
        final(cache)@.dom().len() <= AUTHOR_CACHE_MAX_ENTRIES || final(cache)@.dom().len() <= old(
            cache,
        )@.dom().len(),
        all_remembered(old(cache)@, fetched@, now, final(cache)@),
{
    let mut i: usize = 0;
    let ghost size = cache@.dom().len();
    let ghost start = cache@;
    let ghost names0 = names@;
    proof {
        assert(fetched@.take(0) =~= Seq::empty());
    }
    while i < fetched.len()
        invariant
            i <= fetched@.len(),
            cache@.dom().len() <= AUTHOR_CACHE_MAX_ENTRIES || cache@.dom().len() <= size,
            all_remembered(start, fetched@.take(i as int), now, cache@),
            names@ == fetched_names(names0, fetched@.take(i as int)),
        decreases fetched.len() - i,
    {
        let ghost between = cache@;
        let user_id = fetched[i].0.clone();
        let username = fetched[i].1.clone();
        insert_author_entry(cache, user_id.clone(), username.clone(), now);
        names.insert(user_id, username);
        i += 1;
        proof {
            assert(fetched@.take(i as int).drop_last() =~= fetched@.take(i - 1));
            assert(fetched@.take(i as int).last() == fetched@[i - 1]);
            one_more_remembered(start, fetched@.take(i as int), now, between, cache@);
        }
    }
    proof {
        assert(fetched@.take(i as int) =~= fetched@);
    }
}

/// Names with those that were looked up, later ones overriding earlier ones.
pub open spec fn fetched_names(names: Map<Seq<char>, String>, fetched: Seq<(String, String)>) -> Map<
    Seq<char>,
    String,
>
    decreases fetched.len(),
{
    if fetched.len() == 0 {
        names
    } else {
        fetched_names(names, fetched.drop_last()).insert(fetched.last().0@, fetched.last().1)
    }
}

// ---------------------------------------------------------------------------
// Laws
// ---------------------------------------------------------------------------

/// A name is used for a quarter of an hour after it was fetched; at most 1024 names are
/// kept, and one lookup has five seconds.
pub proof fn names_are_kept_for_a_quarter_of_an_hour(entry: AuthorCacheEntry, now: u64)
    ensures
        expired(entry, now) <==> now >= entry.fetched_at + 15 * 60 * 1000,
        AUTHOR_CACHE_MAX_ENTRIES == 1024,
        AUTHOR_RESOLVE_TIMEOUT == 5 * 1000,
{
}

/// A name that was fetched is known from then on, whatever was known before.
pub proof fn fetched_names_are_known(
    before: Map<Seq<char>, AuthorCacheEntry>,
    user_id: Seq<char>,
    entry: AuthorCacheEntry,
    after: Map<Seq<char>, AuthorCacheEntry>,
    other: Seq<char>,
)
    requires
        remembered(before, user_id, entry, after),
    ensures
        after.contains_key(user_id) && after[user_id] == entry,
        after.contains_key(other) && other != user_id ==> before.contains_key(other) && after[other]
            == before[other],
        before.contains_key(other) && other != user_id && (before.contains_key(user_id)
            || before.dom().len() < 1024) ==> after.contains_key(other),
{
    if !(before.contains_key(user_id) || before.dom().len() < AUTHOR_CACHE_MAX_ENTRIES) {
        let usable = usable_entries(before, entry.fetched_at);
        let kept = choose|kept: Map<Seq<char>, AuthorCacheEntry>| #[trigger]
            without_oldest(usable, kept) && kept.dom().len() == (if usable.dom().len()
                < AUTHOR_CACHE_MAX_ENTRIES {
                usable.dom().len() as int
            } else {
                AUTHOR_CACHE_MAX_ENTRIES - 1
            }) && after == kept.insert(user_id, entry);
        if after.contains_key(other) && other != user_id {
            assert(kept.contains_key(other));
            assert(kept.dom().contains(other));
            assert(usable.contains_key(other));
        }
    }
}

/// A full cache forgets names that can no longer be used, and then only names that are not
/// younger than the ones it keeps.
pub proof fn old_names_are_forgotten_first(
    before: Map<Seq<char>, AuthorCacheEntry>,
    user_id: Seq<char>,
    entry: AuthorCacheEntry,
    after: Map<Seq<char>, AuthorCacheEntry>,
    gone: Seq<char>,
    kept: Seq<char>,
)
    requires
        remembered(before, user_id, entry, after),
        before.contains_key(gone),
        !after.contains_key(gone),
        after.contains_key(kept),
        kept != user_id,
    ensures
        before.contains_key(kept),
        entry.fetched_at >= before[gone].fetched_at + 15 * 60 * 1000 || before[gone].fetched_at
            <= before[kept].fetched_at,
        !(entry.fetched_at >= before[kept].fetched_at + 15 * 60 * 1000),
{
    let usable = usable_entries(before, entry.fetched_at);
    if !(before.contains_key(user_id) || before.dom().len() < AUTHOR_CACHE_MAX_ENTRIES) {
        let left = choose|left: Map<Seq<char>, AuthorCacheEntry>| #[trigger]
            without_oldest(usable, left) && left.dom().len() == (if usable.dom().len()
                < AUTHOR_CACHE_MAX_ENTRIES {
                usable.dom().len() as int
            } else {
                AUTHOR_CACHE_MAX_ENTRIES - 1
            }) && after == left.insert(user_id, entry);
        assert(left.contains_key(kept));
        assert(left.dom().contains(kept));
        assert(usable.contains_key(kept) && usable[kept] == left[kept]);
        assert(!left.contains_key(gone));
        if !expired(before[gone], entry.fetched_at) {
            assert(usable.contains_key(gone));
        }
    }
}

/// A name is taken from what is known if and only if it is wanted and can still be used;
/// every other wanted name is asked for.
pub proof fn unknown_names_are_asked_for(
    cache: Map<Seq<char>, AuthorCacheEntry>,
    wanted: Set<Seq<char>>,
    ids: Seq<Seq<char>>,
    now: u64,
    names: Map<Seq<char>, String>,
    k: Seq<char>,
)
    requires
        known_names(cache, wanted, now, names),
        forall|t: Seq<char>| wanted.contains(t) <==> #[trigger] ids.contains(t),
    ensures
        names.contains_key(k) <==> wanted.contains(k) && cache.contains_key(k) && now
            < cache[k].fetched_at + 15 * 60 * 1000,
        names.contains_key(k) ==> names[k] == cache[k].username,
        unknown_authors(ids, cache, now).contains(k) <==> wanted.contains(k) && !names.contains_key(
            k,
        ),
{
    let unknown = |id: Seq<char>| !(cache.contains_key(id) && !expired(cache[id], now));
    let asked = ids.filter(unknown);
    if asked.contains(k) {
        ids.lemma_filter_contains_rev(unknown, k);
        let i = asked.index_of(k);
        assert(asked[i] == k);
    }
    if ids.contains(k) && unknown(k) {
        ids.lemma_filter_contains(unknown, ids.index_of(k));
    }
}

/// Names that were fetched are added to those that were known; of two the later counts.
pub proof fn fetched_names_are_added(
    names: Map<Seq<char>, String>,
    fetched: Seq<(String, String)>,
    k: Seq<char>,
)
    ensures
        (forall|i: int| 0 <= i < fetched.len() ==> (#[trigger] fetched[i]).0@ != k) ==> (
        fetched_names(names, fetched).contains_key(k) <==> names.contains_key(k)) && (
        names.contains_key(k) ==> fetched_names(names, fetched)[k] == names[k]),
        forall|i: int|
            #![trigger fetched[i]]
            0 <= i < fetched.len() && fetched[i].0@ == k && (forall|j: int|
                i < j < fetched.len() ==> (#[trigger] fetched[j]).0@ != k) ==> fetched_names(
                names,
                fetched,
            ).contains_key(k) && fetched_names(names, fetched)[k] == fetched[i].1,
    decreases fetched.len(),
{
    if fetched.len() > 0 {
        let front = fetched.drop_last();
        fetched_names_are_added(names, front, k);
        assert forall|i: int| 0 <= i < front.len() implies #[trigger] front[i] == fetched[i] by {}
        assert forall|i: int|
            #![trigger fetched[i]]
            0 <= i < fetched.len() && fetched[i].0@ == k && (forall|j: int|
                i < j < fetched.len() ==> (#[trigger] fetched[j]).0@ != k) implies fetched_names(
            names,
            fetched,
        ).contains_key(k) && fetched_names(names, fetched)[k] == fetched[i].1 by {
            if i < front.len() {
                assert(front[i] == fetched[i]);
                assert(fetched[fetched.len() - 1].0@ != k);
                assert forall|j: int| i < j < front.len() implies (#[trigger] front[j]).0@ != k by {
                    assert(fetched[j].0@ != k);
                }
            }
        }
        if forall|i: int| 0 <= i < fetched.len() ==> (#[trigger] fetched[i]).0@ != k {
            assert forall|i: int| 0 <= i < front.len() implies (#[trigger] front[i]).0@ != k by {
                assert(fetched[i].0@ != k);
            }
            assert(fetched[fetched.len() - 1].0@ != k);
        }
    }
}

} // verus!
