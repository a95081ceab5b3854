use chanvoy::search::{
    authored_terms, check_search_operator_conflicts, iter_unquoted_tokens, normalize_emoji_name,
    search_terms, ChanvoyScopes,
};

#[test]
fn bare_emoji_unchanged() {
    assert_eq!(normalize_emoji_name("+1"), "+1");
    assert_eq!(normalize_emoji_name("thumbsup"), "thumbsup");
    assert_eq!(normalize_emoji_name("heavy_check_mark"), "heavy_check_mark");
}

#[test]
fn colon_wrapped_stripped() {
    assert_eq!(normalize_emoji_name(":+1:"), "+1");
    assert_eq!(normalize_emoji_name(":eyes:"), "eyes");
}

#[test]
fn unmatched_colon_preserved() {
    assert_eq!(normalize_emoji_name(":+1"), ":+1");
    assert_eq!(normalize_emoji_name("+1:"), "+1:");
}

#[test]
fn whitespace_trimmed() {
    assert_eq!(normalize_emoji_name("  +1  "), "+1");
    assert_eq!(normalize_emoji_name("  :+1:  "), "+1");
}

#[test]
fn empty_or_only_colons() {
    assert_eq!(normalize_emoji_name(":"), ":");
    assert_eq!(normalize_emoji_name("::"), "");
}

fn all_scopes() -> ChanvoyScopes {
    ChanvoyScopes {
        channel_arg: true,
        from_flag: true,
        since_flag: true,
    }
}

#[test]
fn no_inline_operators_passes() {
    let r = check_search_operator_conflicts("parent_pid validation", &all_scopes());
    assert!(r.is_ok(), "plain text query should pass: {r:?}");
}

#[test]
fn inline_in_conflicts_with_channel_arg() {
    let r = check_search_operator_conflicts(
        "parent_pid in:other-channel",
        &ChanvoyScopes {
            channel_arg: true,
            ..Default::default()
        },
    );
    let err = r.unwrap_err();
    assert!(
        err.contains("`in:`"),
        "diagnostic should name `in:`; got: {err}"
    );
    assert!(
        err.contains("channel argument"),
        "diagnostic should name the conflict; got: {err}"
    );
    assert!(
        !err.contains("--team-wide"),
        "diagnostic must NOT name nonexistent --team-wide flag; got: {err}"
    );
}

#[test]
fn inline_from_conflicts_with_from_flag() {
    let r = check_search_operator_conflicts(
        "validation from:entarch",
        &ChanvoyScopes {
            from_flag: true,
            ..Default::default()
        },
    );
    let err = r.unwrap_err();
    assert!(err.contains("`from:`"), "got: {err}");
    assert!(err.contains("--from"), "got: {err}");
}

#[test]
fn inline_before_conflicts_with_since_flag() {
    let r = check_search_operator_conflicts(
        "x before:2026-05-01",
        &ChanvoyScopes {
            since_flag: true,
            ..Default::default()
        },
    );
    let err = r.unwrap_err();
    assert!(err.contains("`before:`"), "got: {err}");
    assert!(err.contains("--since"), "got: {err}");
}

#[test]
fn inline_after_conflicts_with_since_flag() {
    let r = check_search_operator_conflicts(
        "x after:2026-05-01",
        &ChanvoyScopes {
            since_flag: true,
            ..Default::default()
        },
    );
    let err = r.unwrap_err();
    assert!(err.contains("`after:`"), "got: {err}");
}

#[test]
fn non_conflicting_inline_passes() {
    let r =
        check_search_operator_conflicts("validation from:entarch", &ChanvoyScopes::default());
    assert!(r.is_ok(), "from: without flag should pass: {r:?}");
    let r = check_search_operator_conflicts("x before:2026-05-01", &ChanvoyScopes::default());
    assert!(r.is_ok());
}

#[test]
fn unknown_inline_operator_passes_through() {
    let r = check_search_operator_conflicts("validation has:link", &all_scopes());
    assert!(r.is_ok(), "unknown operator should pass: {r:?}");
}

#[test]
fn quoted_in_is_search_text_not_operator() {
    let r = check_search_operator_conflicts(
        "\"in: the brief\" parent_pid",
        &ChanvoyScopes {
            channel_arg: true,
            ..Default::default()
        },
    );
    assert!(
        r.is_ok(),
        "quoted in: should be search text, not operator: {r:?}"
    );
}

#[test]
fn quoted_from_is_search_text() {
    let r = check_search_operator_conflicts(
        "\"from: anywhere\" validation",
        &ChanvoyScopes {
            from_flag: true,
            ..Default::default()
        },
    );
    assert!(r.is_ok(), "quoted from: should pass: {r:?}");
}

#[test]
fn case_insensitive_operator_match() {
    for variant in ["IN:other", "In:other", "iN:other"] {
        let r = check_search_operator_conflicts(
            variant,
            &ChanvoyScopes {
                channel_arg: true,
                ..Default::default()
            },
        );
        assert!(r.is_err(), "variant {variant} should conflict");
    }
}

#[test]
fn empty_query_passes() {
    let r = check_search_operator_conflicts("", &all_scopes());
    assert!(r.is_ok());
}

#[test]
fn quoted_region_with_unclosed_trailing_quote_treated_as_quoted() {
    let r = check_search_operator_conflicts(
        "parent_pid \"in: stuff",
        &ChanvoyScopes {
            channel_arg: true,
            ..Default::default()
        },
    );
    assert!(
        r.is_ok(),
        "unclosed quote: rest is text, not operator: {r:?}"
    );
}

#[test]
fn first_conflict_wins_diagnostic_is_specific() {
    let r = check_search_operator_conflicts("in:chan from:user", &all_scopes());
    let err = r.unwrap_err();
    assert!(err.contains("`in:`"), "got: {err}");
}

#[test]
fn words_outside_quotes_are_listed() {
    assert_eq!(
        iter_unquoted_tokens("a \"b c\" d  e"),
        vec!["a".to_string(), "d".to_string(), "e".to_string()]
    );
    assert!(iter_unquoted_tokens("\"all of it\"").is_empty());
}

#[test]
fn conflict_diagnostics_quote_the_word() {
    let err = check_search_operator_conflicts("x from:\u{e9}va", &all_scopes()).unwrap_err();
    assert_eq!(
        err,
        "inline `from:` operator in search query conflicts with the `--from` flag; pick one (offending token: \"from:\u{e9}va\")"
    );
    let err = check_search_operator_conflicts("in:a\tb", &all_scopes()).unwrap_err();
    assert!(err.contains("(offending token: \"in:a\")"));
}

#[test]
fn no_scope_set_means_no_conflict() {
    let scopes = ChanvoyScopes::default();
    for query in ["in:a", "from:b", "before:c after:d", "in:\"x\" from:"] {
        assert!(check_search_operator_conflicts(query, &scopes).is_ok());
    }
}

#[test]
fn terms_name_the_scopes() {
    assert_eq!(search_terms("boom", "ops", None, None), "boom in:ops");
    assert_eq!(
        search_terms("boom", "ops", Some("bot"), Some(1_700_000_000_000)),
        "boom in:ops from:bot after:2023-11-14"
    );
    assert_eq!(
        search_terms("boom", "ops", None, Some(i64::MIN)),
        "boom in:ops after:1970-01-01"
    );
    assert_eq!(authored_terms("bot", "ops"), "from:bot in:ops");
}
