use chanvoy::error::CoreError;
use chanvoy::profile::{
    default_capability_class, default_credential_mode, default_team_name, identity_reduces,
    is_profile_file, list_profiles, load_active_profile, load_token, named_profile,
    parse_env_file, parse_env_text, posting_provenance_tags, profile_read_error,
    resolve_profile_name, store_active_profile, strip_quotes, token_source, FallbackPolicy,
    ResolverError, ResolverInputs, TokenSource,
};
use chanvoy::safe_read::SafeReadError;
use chanvoy::types::{CapabilityClass, CredentialMode, Profile, Provider, ResolutionSource};

fn inputs<'a>(
    profiles: &'a [String],
    running: &'a [String],
    active: Option<&'a str>,
    role: Option<&'a str>,
    scope: Option<&'a str>,
    chanvoy_profile: Option<&'a str>,
) -> ResolverInputs<'a> {
    ResolverInputs {
        profiles,
        running_daemon_profiles: running,
        active_profile: active,
        env_role: role,
        env_scope: scope,
        env_chanvoy_profile: chanvoy_profile,
    }
}

fn names(items: &[&str]) -> Vec<String> {
    items.iter().map(|s| s.to_string()).collect()
}

#[test]
fn explicit_flag_wins_even_when_env_disagrees() {
    let profiles = names(&["bravo-devlead-lanytehq", "cxotech-lanytehq"]);
    let inputs = inputs(
        &profiles,
        &[],
        Some("cxotech-lanytehq"),
        Some("bravo-devlead"),
        Some("lanytehq"),
        None,
    );
    let resolved = resolve_profile_name(
        Some("cxotech-lanytehq"),
        FallbackPolicy::ExplicitOnly,
        &inputs,
    )
    .unwrap();
    assert_eq!(resolved, "cxotech-lanytehq");
}

#[test]
fn explicit_flag_is_not_validated_against_profile_list() {
    let inputs = inputs(&[], &[], None, None, None, None);
    let resolved = resolve_profile_name(
        Some("typo-profile"),
        FallbackPolicy::AllowReadFallbacks,
        &inputs,
    )
    .unwrap();
    assert_eq!(resolved, "typo-profile");
}

#[test]
fn chanvoy_profile_env_resolves_when_profile_exists() {
    let profiles = names(&["bravo-devlead-lanytehq", "cxotech-enacthq"]);
    let inputs = inputs(&profiles, &[], None, None, None, Some("cxotech-enacthq"));
    let resolved =
        resolve_profile_name(None, FallbackPolicy::AllowReadFallbacks, &inputs).unwrap();
    assert_eq!(resolved, "cxotech-enacthq");
}

#[test]
fn chanvoy_profile_env_refuses_when_profile_missing() {
    let profiles = names(&["bravo-devlead-lanytehq"]);
    let running = names(&["bravo-devlead-lanytehq"]);
    let inputs = inputs(
        &profiles,
        &running,
        Some("bravo-devlead-lanytehq"),
        Some("bravo-devlead"),
        Some("lanytehq"),
        Some("nonexistent-profile"),
    );
    let err = resolve_profile_name(None, FallbackPolicy::AllowReadFallbacks, &inputs)
        .unwrap_err();
    match err {
        ResolverError::EnvProfileNotFound { name, .. } => {
            assert_eq!(name, "nonexistent-profile");
        }
        other => panic!("expected EnvProfileNotFound, got {other:?}"),
    }
}

#[test]
fn env_exact_name_wins_when_profile_exists() {
    let profiles = names(&["bravo-devlead-lanytehq", "cxotech-lanytehq"]);
    let inputs = inputs(
        &profiles,
        &[],
        None,
        Some("bravo-devlead"),
        Some("lanytehq"),
        None,
    );
    let resolved =
        resolve_profile_name(None, FallbackPolicy::AllowReadFallbacks, &inputs).unwrap();
    assert_eq!(resolved, "bravo-devlead-lanytehq");
}

#[test]
fn env_exact_name_wins_over_sibling_profiles_sharing_role_scope() {
    let profiles = names(&[
        "bravo-devlead-lanytehq",
        "bravo-devlead-bootstrap",
        "bravo-devlead-custom-team",
    ]);
    let inputs = inputs(
        &profiles,
        &[],
        None,
        Some("bravo-devlead"),
        Some("lanytehq"),
        None,
    );
    let resolved =
        resolve_profile_name(None, FallbackPolicy::AllowReadFallbacks, &inputs).unwrap();
    assert_eq!(resolved, "bravo-devlead-lanytehq");
}

#[test]
fn env_set_but_no_exact_match_refuses_hard() {
    let profiles = names(&["cxotech-lanytehq", "dispatch-lanytehq"]);
    let running = names(&["cxotech-lanytehq"]);
    let inputs = inputs(
        &profiles,
        &running,
        Some("cxotech-lanytehq"),
        Some("bravo-devlead"),
        Some("lanytehq"),
        None,
    );
    let err = resolve_profile_name(None, FallbackPolicy::AllowReadFallbacks, &inputs)
        .unwrap_err();
    match err {
        ResolverError::EnvExactMatchNotFound {
            expected,
            role,
            scope,
            ..
        } => {
            assert_eq!(expected, "bravo-devlead-lanytehq");
            assert_eq!(role, "bravo-devlead");
            assert_eq!(scope, "lanytehq");
        }
        other => panic!("expected EnvExactMatchNotFound, got {other:?}"),
    }
}

#[test]
fn env_unset_single_daemon_resolves_with_read_fallbacks() {
    let profiles = names(&["bravo-devlead-lanytehq", "cxotech-lanytehq"]);
    let running = names(&["cxotech-lanytehq"]);
    let inputs = inputs(&profiles, &running, None, None, None, None);
    let resolved =
        resolve_profile_name(None, FallbackPolicy::AllowReadFallbacks, &inputs).unwrap();
    assert_eq!(resolved, "cxotech-lanytehq");
}

#[test]
fn env_unset_multi_daemon_refuses_with_running_list() {
    let profiles = names(&["a-x", "b-x", "c-x"]);
    let running = names(&["a-x", "b-x"]);
    let inputs = inputs(&profiles, &running, None, None, None, None);
    let err = resolve_profile_name(None, FallbackPolicy::AllowReadFallbacks, &inputs)
        .unwrap_err();
    match err {
        ResolverError::AmbiguousMultiDaemon { running } => {
            assert_eq!(running, names(&["a-x", "b-x"]));
        }
        other => panic!("expected AmbiguousMultiDaemon, got {other:?}"),
    }
}

#[test]
fn env_unset_no_daemons_active_profile_resolves_with_read_fallbacks() {
    let profiles = names(&["bravo-devlead-lanytehq", "cxotech-lanytehq"]);
    let inputs = inputs(
        &profiles,
        &[],
        Some("bravo-devlead-lanytehq"),
        None,
        None,
        None,
    );
    let resolved =
        resolve_profile_name(None, FallbackPolicy::AllowReadFallbacks, &inputs).unwrap();
    assert_eq!(resolved, "bravo-devlead-lanytehq");
}

#[test]
fn active_profile_never_overrides_env_derived() {
    let profiles = names(&["bravo-devlead-lanytehq", "cxotech-lanytehq"]);
    let inputs = inputs(
        &profiles,
        &[],
        Some("cxotech-lanytehq"),
        Some("bravo-devlead"),
        Some("lanytehq"),
        None,
    );
    let resolved =
        resolve_profile_name(None, FallbackPolicy::AllowReadFallbacks, &inputs).unwrap();
    assert_eq!(resolved, "bravo-devlead-lanytehq");
}

#[test]
fn stale_active_profile_pointer_refuses_with_dedicated_variant() {
    let profiles = names(&["bravo-devlead-lanytehq", "cxotech-lanytehq"]);
    let inputs = inputs(
        &profiles,
        &[],
        Some("bravo-devlead"),
        None,
        None,
        None,
    );
    let err = resolve_profile_name(None, FallbackPolicy::AllowReadFallbacks, &inputs)
        .unwrap_err();
    match err {
        ResolverError::ActiveProfileNotFound { name, available } => {
            assert_eq!(name, "bravo-devlead");
            assert_eq!(available, profiles);
        }
        other => panic!("expected ActiveProfileNotFound, got {other:?}"),
    }
}

#[test]
fn no_inputs_at_all_refuses_with_available_list() {
    let profiles = names(&["bravo-devlead-lanytehq", "cxotech-lanytehq"]);
    let inputs = inputs(&profiles, &[], None, None, None, None);
    let err = resolve_profile_name(None, FallbackPolicy::AllowReadFallbacks, &inputs)
        .unwrap_err();
    match err {
        ResolverError::CannotResolve { available } => {
            assert_eq!(available, profiles);
        }
        other => panic!("expected CannotResolve, got {other:?}"),
    }
}

#[test]
fn explicit_only_refuses_on_single_daemon_fallback() {
    let profiles = names(&["dispatch-lanytehq"]);
    let running = names(&["dispatch-lanytehq"]);
    let inputs = inputs(&profiles, &running, None, None, None, None);
    let err =
        resolve_profile_name(None, FallbackPolicy::ExplicitOnly, &inputs).unwrap_err();
    assert!(matches!(
        err,
        ResolverError::DestructiveRequiresExplicit { .. }
    ));
}

#[test]
fn explicit_only_refuses_on_active_profile_fallback() {
    let profiles = names(&["bravo-devlead-lanytehq"]);
    let inputs = inputs(
        &profiles,
        &[],
        Some("bravo-devlead-lanytehq"),
        None,
        None,
        None,
    );
    let err =
        resolve_profile_name(None, FallbackPolicy::ExplicitOnly, &inputs).unwrap_err();
    assert!(matches!(
        err,
        ResolverError::DestructiveRequiresExplicit { .. }
    ));
}

#[test]
fn explicit_only_accepts_explicit_flag() {
    let inputs = inputs(&[], &[], None, None, None, None);
    let resolved = resolve_profile_name(
        Some("bravo-devlead-lanytehq"),
        FallbackPolicy::ExplicitOnly,
        &inputs,
    )
    .unwrap();
    assert_eq!(resolved, "bravo-devlead-lanytehq");
}

#[test]
fn explicit_only_accepts_chanvoy_profile_env_when_valid() {
    let profiles = names(&["bravo-devlead-lanytehq"]);
    let inputs = inputs(
        &profiles,
        &[],
        None,
        None,
        None,
        Some("bravo-devlead-lanytehq"),
    );
    let resolved =
        resolve_profile_name(None, FallbackPolicy::ExplicitOnly, &inputs).unwrap();
    assert_eq!(resolved, "bravo-devlead-lanytehq");
}

#[test]
fn explicit_only_accepts_env_exact_name_match() {
    let profiles = names(&["bravo-devlead-lanytehq"]);
    let inputs = inputs(
        &profiles,
        &[],
        None,
        Some("bravo-devlead"),
        Some("lanytehq"),
        None,
    );
    let resolved =
        resolve_profile_name(None, FallbackPolicy::ExplicitOnly, &inputs).unwrap();
    assert_eq!(resolved, "bravo-devlead-lanytehq");
}

#[test]
fn identity_reduces_only_outside_team() {
    assert!(!identity_reduces("org-acme", "org-acme"));
    assert!(identity_reduces("org-acme", "org-3leaps"));
    assert!(identity_reduces("org-acme", "org-fulmenhq"));
}

#[test]
fn provenance_tags_name_both_paths_independently() {
    assert!(posting_provenance_tags(ResolutionSource::Primary, false).is_empty());
    assert_eq!(
        posting_provenance_tags(ResolutionSource::Fallback, false),
        vec!["team-fallback"]
    );
    assert_eq!(
        posting_provenance_tags(ResolutionSource::Primary, true),
        vec!["identity-reduce"]
    );
    assert_eq!(
        posting_provenance_tags(ResolutionSource::Fallback, true),
        vec!["team-fallback", "identity-reduce"]
    );
    assert_eq!(
        posting_provenance_tags(ResolutionSource::Explicit, true),
        vec!["identity-reduce"]
    );
}

fn env_file_profile(env_file: &str) -> Profile {
    Profile {
        name: "cred-test".to_string(),
        role: "test".to_string(),
        scope: "test".to_string(),
        provider: Provider::Mattermost,
        bot_username: String::new(),
        team_name: "org-test".to_string(),
        server_url: "https://mm.example.com".to_string(),
        env_name: "LANYTE_MM_TOKEN".to_string(),
        env_file: Some(env_file.to_string()),
        credential_mode: CredentialMode::EnvFile,
        capability_class: CapabilityClass::Standard,
        monitored_channels: Vec::new(),
        ipc: None,
        reduce: None,
    }
}

#[test]
fn parses_env_file_lines() {
    let contents = "export LANYTE_MM_TOKEN=\"secret\"\n# comment\nOTHER=value\n";
    let values = parse_env_file(Ok(contents.to_string())).unwrap();
    assert_eq!(values.get("LANYTE_MM_TOKEN"), Some(&"secret".to_string()));
    assert_eq!(values.get("OTHER"), Some(&"value".to_string()));
    assert_eq!(values.len(), 2);
}

#[test]
fn later_lines_override_and_odd_lines_are_skipped() {
    let values = parse_env_text("A=1\r\n  export B = \"x y\" \nno equals\n\nA=2=3\n=empty\nC=\"open");
    assert_eq!(values.get("A"), Some(&"2=3".to_string()));
    assert_eq!(values.get("B"), Some(&"x y".to_string()));
    assert_eq!(values.get(""), Some(&"empty".to_string()));
    assert_eq!(values.get("C"), Some(&"\"open".to_string()));
    assert_eq!(values.len(), 4);
}

#[test]
fn quotes_come_off_in_pairs() {
    assert_eq!(strip_quotes("\"a\""), "a");
    assert_eq!(strip_quotes("\"a"), "\"a");
    assert_eq!(strip_quotes("a\""), "a\"");
    assert_eq!(strip_quotes("\""), "\"");
    assert_eq!(strip_quotes("\"\""), "");
}

#[test]
fn load_token_reads_owner_only_env_file() {
    let profile = env_file_profile("/tmp/mm.env");
    let token = load_token(&profile, None, Ok("LANYTE_MM_TOKEN=tok-123\n".to_string())).unwrap();
    assert_eq!(token, "tok-123");
    let source = token_source(&profile).unwrap();
    assert_eq!(
        source,
        TokenSource::File {
            path: "/tmp/mm.env".to_string(),
            name: "LANYTE_MM_TOKEN".to_string()
        }
    );
}

#[test]
fn load_token_refuses_loose_permission_env_file() {
    let refused = SafeReadError::LoosePermissions {
        path: "/tmp/loose.env".to_string(),
        mode: 0o644,
    };
    let err = load_token(&env_file_profile("/tmp/loose.env"), Some("ignored"), Err(refused))
        .expect_err("0644 env-file must be refused");
    assert!(
        matches!(
            err,
            CoreError::SafeRead(SafeReadError::LoosePermissions { .. })
        ),
        "expected LoosePermissions, got {err:?}"
    );
}

#[test]
fn a_file_without_the_name_has_no_token() {
    let profile = env_file_profile("/tmp/mm.env");
    for contents in ["OTHER=x\n", "LANYTE_MM_TOKEN=\n", ""] {
        let err = load_token(&profile, None, Ok(contents.to_string())).unwrap_err();
        assert_eq!(err.message(), "missing credential source LANYTE_MM_TOKEN");
    }
}

#[test]
fn a_file_has_to_be_named() {
    let mut profile = env_file_profile("");
    profile.env_file = None;
    let err = load_token(&profile, Some("x"), Ok(String::new())).unwrap_err();
    assert_eq!(
        err.message(),
        "credential mode env_file requires --env-file in the profile"
    );
}

#[test]
fn other_modes_read_the_variable() {
    for mode in [CredentialMode::EnvName, CredentialMode::SeclusorRun] {
        let mut profile = env_file_profile("/tmp/mm.env");
        profile.credential_mode = mode;
        assert_eq!(
            load_token(&profile, Some("tok"), Ok(String::new())).unwrap(),
            "tok"
        );
        assert!(load_token(&profile, Some(""), Ok(String::new())).is_err());
        assert!(load_token(&profile, None, Ok("LANYTE_MM_TOKEN=x".to_string())).is_err());
        assert_eq!(
            token_source(&profile).unwrap(),
            TokenSource::Variable("LANYTE_MM_TOKEN".to_string())
        );
    }
}

#[test]
fn the_marker_is_read_back() {
    let stored = store_active_profile("bravo-devlead");
    assert_eq!(stored, "bravo-devlead\n");
    assert_eq!(
        load_active_profile(Ok(stored)).unwrap(),
        Some("bravo-devlead".to_string())
    );
}

#[test]
fn no_marker_means_no_active_profile() {
    assert_eq!(load_active_profile(Ok(" \n\t".to_string())).unwrap(), None);
    let absent = SafeReadError::NotFound {
        path: "/x".to_string(),
    };
    assert_eq!(load_active_profile(Err(absent)).unwrap(), None);
    let refused = SafeReadError::NonRegular {
        path: "/x".to_string(),
    };
    assert!(matches!(
        load_active_profile(Err(refused)),
        Err(CoreError::SafeRead(SafeReadError::NonRegular { .. }))
    ));
}

#[test]
fn an_absent_profile_is_unknown() {
    let absent = SafeReadError::NotFound {
        path: "/x".to_string(),
    };
    let err = profile_read_error("ghost", absent);
    assert!(matches!(&err, CoreError::ProfileNotFound(name) if name == "ghost"));
    let refused = SafeReadError::NonRegular {
        path: "/x".to_string(),
    };
    assert!(matches!(
        profile_read_error("ghost", refused),
        CoreError::SafeRead(_)
    ));
}

#[test]
fn a_nameless_profile_takes_the_name_of_its_file() {
    let mut profile = env_file_profile("/x");
    profile.name = String::new();
    assert_eq!(named_profile(profile, "from-file").name, "from-file");
    assert_eq!(named_profile(env_file_profile("/x"), "from-file").name, "cred-test");
}

#[test]
fn profiles_are_listed_by_name() {
    let named = |name: &str, role: &str| {
        let mut profile = env_file_profile("/x");
        profile.name = name.to_string();
        profile.role = role.to_string();
        profile
    };
    let listed = list_profiles(vec![named("b", "1"), named("a", "2"), named("b", "3")]);
    let shown: Vec<(&str, &str)> = listed
        .iter()
        .map(|p| (p.name.as_str(), p.role.as_str()))
        .collect();
    assert_eq!(shown, vec![("a", "2"), ("b", "1"), ("b", "3")]);
    assert!(is_profile_file(Some("toml")));
    assert!(!is_profile_file(Some("bak")));
    assert!(!is_profile_file(None));
}

#[test]
fn defaults() {
    assert_eq!(default_team_name(), "org-lanytehq");
    assert_eq!(default_credential_mode(), CredentialMode::EnvName);
    assert_eq!(default_capability_class(), CapabilityClass::Standard);
}

#[test]
fn resolver_diagnostics_list_what_there_is() {
    let known = names(&["a", "b"]);
    let running = names(&["a", "b"]);
    let err = resolve_profile_name(
        None,
        FallbackPolicy::AllowReadFallbacks,
        &inputs(&known, &running, None, None, None, None),
    )
    .unwrap_err();
    assert_eq!(
        err.message(),
        "multiple chanvoy daemons are running ([\"a\", \"b\"]); pass --profile to disambiguate"
    );
    let err = resolve_profile_name(
        None,
        FallbackPolicy::ExplicitOnly,
        &inputs(&known, &running, Some("a"), None, None, None),
    )
    .unwrap_err();
    assert!(matches!(err, ResolverError::DestructiveRequiresExplicit { .. }));
    assert!(err.message().ends_with("Available profiles: [\"a\", \"b\"]"));
}
