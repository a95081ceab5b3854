use chanvoy::authors::{
    insert_author_entry, lookup_authors, remember_authors, AuthorCacheEntry,
    AUTHOR_CACHE_MAX_ENTRIES, AUTHOR_CACHE_TTL, AUTHOR_RESOLVE_TIMEOUT,
};
use chanvoy::collections::{TextMap, TextSet};

fn author_cache_of(entries: &[(&str, u64)]) -> TextMap<AuthorCacheEntry> {
    let mut cache = TextMap::new();
    for (user_id, fetched_at) in entries {
        cache.insert(
            (*user_id).to_string(),
            AuthorCacheEntry {
                username: format!("name-of-{user_id}"),
                fetched_at: *fetched_at,
            },
        );
    }
    cache
}

#[test]
fn author_cache_never_grows_past_its_bound() {
    let base: u64 = 5_000_000;
    let mut cache = TextMap::new();
    for index in 0..(AUTHOR_CACHE_MAX_ENTRIES * 2) {
        insert_author_entry(
            &mut cache,
            format!("user-{index}"),
            format!("name-{index}"),
            base + index as u64,
        );
        assert!(
            cache.len() <= AUTHOR_CACHE_MAX_ENTRIES,
            "cache exceeded its bound at insert {index}: {}",
            cache.len()
        );
    }
}

#[test]
fn author_cache_drops_expired_entries_before_live_ones() {
    let base: u64 = 5_000_000;
    let stale_at = base;
    let fresh_at = base + AUTHOR_CACHE_TTL;
    let mut entries: Vec<(String, u64)> = Vec::new();
    for index in 0..(AUTHOR_CACHE_MAX_ENTRIES - 1) {
        entries.push((format!("stale-{index}"), stale_at));
    }
    entries.push(("still-fresh".to_string(), fresh_at));
    let borrowed: Vec<(&str, u64)> =
        entries.iter().map(|(id, at)| (id.as_str(), *at)).collect();
    let mut cache = author_cache_of(&borrowed);
    assert_eq!(cache.len(), AUTHOR_CACHE_MAX_ENTRIES);

    let now = fresh_at + 1_000;
    insert_author_entry(&mut cache, "newcomer".to_string(), "new".to_string(), now);

    assert!(cache.contains_key("newcomer"));
    assert!(
        cache.contains_key("still-fresh"),
        "a live entry must not be evicted while expired ones remain"
    );
    assert!(
        !cache.contains_key("stale-0"),
        "expired entries are the first to go"
    );
}

#[test]
fn author_cache_drops_the_oldest_when_nothing_has_expired() {
    let base: u64 = 5_000_000;
    let entries: Vec<(String, u64)> = (0..AUTHOR_CACHE_MAX_ENTRIES)
        .map(|index| {
            (
                format!("user-{index}"),
                base + index as u64,
            )
        })
        .collect();
    let borrowed: Vec<(&str, u64)> =
        entries.iter().map(|(id, at)| (id.as_str(), *at)).collect();
    let mut cache = author_cache_of(&borrowed);

    let now = base + AUTHOR_CACHE_MAX_ENTRIES as u64;
    insert_author_entry(&mut cache, "newcomer".to_string(), "new".to_string(), now);

    assert_eq!(cache.len(), AUTHOR_CACHE_MAX_ENTRIES);
    assert!(cache.contains_key("newcomer"));
    assert!(
        !cache.contains_key("user-0"),
        "the oldest entry is the one evicted"
    );
    assert!(cache.contains_key("user-1"), "newer entries are retained");
}

#[test]
fn refreshing_a_cached_author_does_not_evict_anything() {
    let base: u64 = 5_000_000;
    let entries: Vec<(String, u64)> = (0..AUTHOR_CACHE_MAX_ENTRIES)
        .map(|index| (format!("user-{index}"), base))
        .collect();
    let borrowed: Vec<(&str, u64)> =
        entries.iter().map(|(id, at)| (id.as_str(), *at)).collect();
    let mut cache = author_cache_of(&borrowed);

    insert_author_entry(
        &mut cache,
        "user-0".to_string(),
        "renamed".to_string(),
        base + 1,
    );

    assert_eq!(cache.len(), AUTHOR_CACHE_MAX_ENTRIES);
    assert_eq!(cache.get("user-0").unwrap().username, "renamed");
}

#[test]
fn the_author_deadline_is_bounded_and_short() {
    assert!(
        AUTHOR_RESOLVE_TIMEOUT <= 10_000,
        "author resolution is a courtesy on top of a read; it must not \
         dominate the read's latency"
    );
}

fn wanted(ids: &[&str]) -> TextSet {
    let mut set = TextSet::new();
    for id in ids {
        set.insert(id.to_string());
    }
    set
}

#[test]
fn an_expired_entry_is_refreshed_from_the_provider() {
    let mut cache = author_cache_of(&[("u-1", 0), ("u-2", 1)]);
    let now = AUTHOR_CACHE_TTL;
    let (mut names, missing) = lookup_authors(&cache, &wanted(&["u-1", "u-2", "u-3"]), now);
    assert_eq!(missing, vec!["u-1".to_string(), "u-3".to_string()]);
    assert_eq!(names.len(), 1);
    assert_eq!(names.get("u-2"), Some(&"name-of-u-2".to_string()));
    let fetched = vec![("u-1".to_string(), "renamed".to_string())];
    remember_authors(&mut cache, &mut names, &fetched, now);
    assert_eq!(names.get("u-1"), Some(&"renamed".to_string()));
    assert_eq!(names.get("u-3"), None);
    let (again, missing) = lookup_authors(&cache, &wanted(&["u-1"]), now + 1);
    assert!(missing.is_empty());
    assert_eq!(again.get("u-1"), Some(&"renamed".to_string()));
}
