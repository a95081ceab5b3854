use chanvoy::cli::args::{
    CliCapabilityClass, CliCredentialMode, ProfileCreateArgs, ProfileCreateFromEnvArgs,
};
use chanvoy::cli::auto_setup::{
    auto_setup_report_text, build_desired_profile_from_env, check_token_available,
    classify_preflight_error, decide_profile_action, derive_team_name, env_var_nonempty,
    identity_drift_text, identity_surface_diff, merge_forward_for_refresh,
    profile_from_create_args, profile_from_env_args, refreshable_profile_diff, report_failure,
    required_env, setup_exit_code, should_activate, validate_profile_create_args, DaemonState,
    ProfileAction, ProfileState, SeedOutcome, SetupEnv, SetupFailure,
};
use chanvoy::cli::error::{CliError, DaemonFailure};
use chanvoy::cli::setup::{handle_auto_setup, SetupAction, SetupEvent, SetupMove, SetupState};
use chanvoy::error::CoreError;
use chanvoy::profile::load_token;
use chanvoy::types::{
    CapabilityClass, CredentialMode, Identity, Profile, Provider, ReducePolicy,
    SeededChannelOutcome,
};

#[test]
fn profile_create_team_name_derives_from_scope_when_flag_absent() {
    let args = ProfileCreateArgs {
        name: "delta-devlead-enacthq".into(),
        role: "delta-devlead".into(),
        scope: "enacthq".into(),
        bot_username: "agent-delta-devlead".into(),
        server_url: "https://mm.example.com".into(),
        env_name: "LANYTE_MM_TOKEN".into(),
        team_name: None,
        env_file: None,
        credential_mode: CliCredentialMode::EnvName,
        capability_class: CliCapabilityClass::Standard,
        activate: false,
    };
    let profile = profile_from_create_args(&args);
    assert_eq!(profile.team_name, "org-enacthq");
}

#[test]
fn profile_create_team_name_uses_explicit_flag_when_provided() {
    let args = ProfileCreateArgs {
        name: "n".into(),
        role: "r".into(),
        scope: "enacthq".into(),
        bot_username: "b".into(),
        server_url: "https://mm.example.com".into(),
        env_name: "LANYTE_MM_TOKEN".into(),
        team_name: Some("custom-team".into()),
        env_file: None,
        credential_mode: CliCredentialMode::EnvName,
        capability_class: CliCapabilityClass::Standard,
        activate: false,
    };
    let profile = profile_from_create_args(&args);
    assert_eq!(profile.team_name, "custom-team");
}

fn sample_profile() -> Profile {
    Profile {
        name: "bravo-devlead".to_string(),
        role: "bravo-devlead".to_string(),
        scope: "lanytehq".to_string(),
        provider: Provider::Mattermost,
        bot_username: "agent-bravo-devlead".to_string(),
        team_name: "org-lanytehq".to_string(),
        server_url: "https://mm.example.com".to_string(),
        env_name: "LANYTE_MM_TOKEN".to_string(),
        env_file: None,
        credential_mode: CredentialMode::EnvName,
        capability_class: CapabilityClass::Standard,
        monitored_channels: Vec::new(),
        ipc: None,
        reduce: None,
    }
}

#[test]
fn decide_profile_action_creates_when_absent() {
    let desired = sample_profile();
    assert_eq!(decide_profile_action(&desired, None), ProfileAction::Create);
}

#[test]
fn decide_profile_action_reuses_when_all_compared_fields_match() {
    let desired = sample_profile();
    let mut existing = sample_profile();
    existing.bot_username = "stale-username".to_string();
    existing.monitored_channels = vec!["extra-channel".to_string()];
    assert_eq!(
        decide_profile_action(&desired, Some(&existing)),
        ProfileAction::Reuse
    );
}

#[test]
fn decide_profile_action_refreshes_on_refreshable_diff_only() {
    let mut desired = sample_profile();
    desired.env_name = "NEW_TOKEN_ENV".to_string();
    let existing = sample_profile();
    match decide_profile_action(&desired, Some(&existing)) {
        ProfileAction::Refresh(diff) => {
            assert_eq!(diff.len(), 1);
            assert_eq!(diff[0].field, "env_name");
        }
        other => panic!("expected Refresh, got {other:?}"),
    }
}

#[test]
fn decide_profile_action_hard_errors_on_identity_drift() {
    let desired = sample_profile();
    let mut existing = sample_profile();
    existing.server_url = "https://old.example.com".to_string();
    existing.team_name = "old-team".to_string();
    match decide_profile_action(&desired, Some(&existing)) {
        ProfileAction::IdentityDrift(diff) => {
            let fields: Vec<&str> = diff.iter().map(|d| d.field.as_str()).collect();
            assert!(fields.contains(&"server_url"));
            assert!(fields.contains(&"team_name"));
            assert_eq!(fields.len(), 2);
        }
        other => panic!("expected IdentityDrift, got {other:?}"),
    }
}

#[test]
fn identity_drift_takes_precedence_over_refreshable_diff() {
    let mut desired = sample_profile();
    desired.env_name = "NEW_TOKEN_ENV".to_string();
    let mut existing = sample_profile();
    existing.scope = "other-scope".to_string();
    match decide_profile_action(&desired, Some(&existing)) {
        ProfileAction::IdentityDrift(diff) => {
            let fields: Vec<&str> = diff.iter().map(|d| d.field.as_str()).collect();
            assert_eq!(fields, vec!["scope"]);
        }
        other => panic!("expected IdentityDrift, got {other:?}"),
    }
}

#[test]
fn refreshable_diff_excludes_identity_and_non_env_fields() {
    let mut a = sample_profile();
    let mut b = sample_profile();
    a.name = "a-name".to_string();
    b.name = "b-name".to_string();
    a.bot_username = "bot-a".to_string();
    b.bot_username = "bot-b".to_string();
    a.monitored_channels = vec!["chan-a".to_string()];
    b.monitored_channels = vec!["chan-b".to_string()];
    assert!(refreshable_profile_diff(&a, &b).is_empty());
    assert!(identity_surface_diff(&a, &b).is_empty());
}

fn reduce_to(name: &str) -> Option<ReducePolicy> {
    Some(ReducePolicy {
        use_profile: name.to_string(),
    })
}

#[test]
fn changing_reduce_policy_is_a_refresh_not_identity_drift() {
    let mut desired = sample_profile();
    desired.reduce = reduce_to("dataeng-galaxy");
    let existing = sample_profile();
    match decide_profile_action(&desired, Some(&existing)) {
        ProfileAction::Refresh(diff) => {
            assert_eq!(diff.len(), 1);
            assert_eq!(diff[0].field, "reduce.use_profile");
            assert_eq!(diff[0].to, "dataeng-galaxy");
        }
        other => panic!("expected Refresh, got {other:?}"),
    }
}

#[test]
fn omitting_reduce_flag_on_refresh_preserves_existing_policy() {
    let desired = sample_profile();
    let mut existing = sample_profile();
    existing.reduce = reduce_to("dataeng-galaxy");
    assert_eq!(
        decide_profile_action(&desired, Some(&existing)),
        ProfileAction::Reuse
    );
    let merged = merge_forward_for_refresh(desired, &existing);
    assert_eq!(
        merged.reduce.as_ref().map(|r| r.use_profile.as_str()),
        Some("dataeng-galaxy"),
        "omitting --reduce-profile must preserve the existing policy"
    );
}

#[test]
fn unchanged_reduce_policy_reuses() {
    let mut desired = sample_profile();
    desired.reduce = reduce_to("dataeng-galaxy");
    let mut existing = sample_profile();
    existing.reduce = reduce_to("dataeng-galaxy");
    assert_eq!(
        decide_profile_action(&desired, Some(&existing)),
        ProfileAction::Reuse
    );
}

#[test]
fn repointing_reduce_target_is_a_refresh() {
    let mut desired = sample_profile();
    desired.reduce = reduce_to("dataeng-galaxy-new");
    let mut existing = sample_profile();
    existing.reduce = reduce_to("dataeng-galaxy-old");
    match decide_profile_action(&desired, Some(&existing)) {
        ProfileAction::Refresh(diff) => {
            assert_eq!(diff.len(), 1);
            assert_eq!(diff[0].field, "reduce.use_profile");
            assert_eq!(diff[0].from, "dataeng-galaxy-old");
            assert_eq!(diff[0].to, "dataeng-galaxy-new");
        }
        other => panic!("expected Refresh, got {other:?}"),
    }
}

#[test]
fn merge_forward_preserves_non_env_fields() {
    let mut existing = sample_profile();
    existing.monitored_channels = vec!["per-008".to_string(), "per-009".to_string()];
    existing.env_file = Some("/secrets/bravo.env".to_string());
    let mut desired = sample_profile();
    desired.env_name = "REFRESHED_TOKEN_ENV".to_string();
    assert!(desired.monitored_channels.is_empty());
    assert_eq!(desired.env_file, None);

    let merged = merge_forward_for_refresh(desired, &existing);
    assert_eq!(merged.monitored_channels, existing.monitored_channels);
    assert_eq!(merged.env_file, existing.env_file);
    assert_eq!(merged.env_name, "REFRESHED_TOKEN_ENV");
}

#[test]
fn team_name_uses_mattermost_env_when_present() {
    assert_eq!(
        derive_team_name("lanytehq", Some("custom-team".to_string())),
        "custom-team"
    );
    assert_eq!(
        derive_team_name("lanytehq", Some("  ".to_string())),
        "org-lanytehq"
    );
}

#[test]
fn team_name_derives_org_scope_for_non_lanytehq_scope() {
    assert_eq!(derive_team_name("enacthq", None), "org-enacthq");
    assert_eq!(derive_team_name("fulmenhq", None), "org-fulmenhq");
    assert_eq!(derive_team_name("lanytehq", None), "org-lanytehq");
}

#[test]
fn check_token_available_maps_missing_env_to_bootstrap() {
    let mut profile = sample_profile();
    profile.env_name = "CHANVOY_UNSET_TOKEN_FOR_UNIT_TEST_98765_XYZ".to_string();
    let token = load_token(&profile, None, Ok(String::new()));
    let err = check_token_available(&profile.env_name, token).expect_err("must fail when env unset");
    assert!(
        matches!(err, CliError::Bootstrap(_)),
        "expected Bootstrap (maps to EXIT_ENV_INPUT), got {err:?}"
    );
    assert_eq!(
        err.message(),
        "bootstrap error: token unavailable via CHANVOY_UNSET_TOKEN_FOR_UNIT_TEST_98765_XYZ: missing credential source CHANVOY_UNSET_TOKEN_FOR_UNIT_TEST_98765_XYZ"
    );
}

fn env() -> SetupEnv {
    SetupEnv {
        role: Some("devlead".to_string()),
        scope: Some("enacthq".to_string()),
        server_url: Some("https://mm.example.com".to_string()),
        profile: None,
        team: None,
        token_env_name: None,
    }
}

#[test]
fn blank_variables_count_as_unset() {
    assert_eq!(env_var_nonempty(Some(" \t".to_string())), None);
    assert_eq!(env_var_nonempty(None), None);
    assert_eq!(
        env_var_nonempty(Some(" x ".to_string())),
        Some(" x ".to_string())
    );
    let err = required_env("LANYTE_MM_URL", Some(String::new())).unwrap_err();
    assert_eq!(
        err.message(),
        "bootstrap error: missing required environment variable LANYTE_MM_URL"
    );
}

#[test]
fn a_profile_comes_from_the_environment() {
    let desired = build_desired_profile_from_env(env(), None, None).unwrap();
    assert_eq!(desired.name, "devlead-enacthq");
    assert_eq!(desired.team_name, "org-enacthq");
    assert_eq!(desired.env_name, "LANYTE_MM_TOKEN");
    assert_eq!(desired.bot_username, "");
    assert_eq!(desired.reduce, None);
    let mut named = env();
    named.profile = Some("from-env".to_string());
    named.token_env_name = Some("OTHER".to_string());
    let desired = build_desired_profile_from_env(named, None, Some("fam")).unwrap();
    assert_eq!(desired.name, "from-env");
    assert_eq!(desired.env_name, "OTHER");
    assert_eq!(desired.reduce, reduce_to("fam"));
    let mut named = env();
    named.profile = Some("from-env".to_string());
    let desired = build_desired_profile_from_env(named, Some("flag"), None).unwrap();
    assert_eq!(desired.name, "flag");
    let mut missing = env();
    missing.scope = None;
    let err = build_desired_profile_from_env(missing, None, None).unwrap_err();
    assert!(err.message().ends_with("LANYTE_AGENT_SCOPE"));
}

#[test]
fn a_file_mode_needs_a_file() {
    let args = ProfileCreateFromEnvArgs {
        name: None,
        team_name: None,
        env_name: "TOKEN".to_string(),
        env_file: None,
        credential_mode: CliCredentialMode::EnvFile,
        capability_class: CliCapabilityClass::Standard,
        activate: false,
    };
    assert!(profile_from_env_args(&args, env()).is_err());
    let mut profile = sample_profile();
    profile.credential_mode = CredentialMode::EnvFile;
    assert!(validate_profile_create_args(&profile).is_err());
    profile.env_file = Some("/x".to_string());
    assert!(validate_profile_create_args(&profile).is_ok());
}

#[test]
fn a_first_profile_becomes_active() {
    assert!(should_activate(false, None));
    assert!(should_activate(true, Some("x")));
    assert!(!should_activate(false, Some("x")));
}

fn api(status: u16) -> CliError {
    CliError::Core(CoreError::Api {
        status,
        message: "why".to_string(),
    })
}

#[test]
fn answers_of_the_provider_are_classified() {
    for (status, code, line) in [
        (401, "token_invalid", "401 Unauthorized: why"),
        (403, "bot_not_in_team", "403 Forbidden: why"),
        (404, "team_missing", "404 Not Found: why"),
        (500, "preflight_failed", "500 Internal Server Error: why"),
    ] {
        let (found, message) = classify_preflight_error(&api(status));
        assert_eq!(found, code);
        assert_eq!(message, line);
    }
    let (code, message) = classify_preflight_error(&CliError::Io("gone".to_string()));
    assert_eq!(code, "preflight_failed");
    assert_eq!(message, CliError::Io("gone".to_string()).message());
}

#[test]
fn failures_have_their_codes() {
    let cases = [
        (SetupFailure::EnvInput(api(401)), "env_input", 2),
        (SetupFailure::Preflight(api(401)), "token_invalid", 3),
        (SetupFailure::RefreshStop(api(401)), "daemon_refresh_stop", 4),
        (SetupFailure::DaemonStart(api(401)), "daemon_start", 4),
        (SetupFailure::DaemonUnreachable, "daemon_unreachable", 4),
    ];
    for (failure, code, exit) in cases {
        let report = report_failure(&failure);
        assert_eq!(report.code, code);
        assert_eq!(report.exit_code, exit);
    }
}

fn identity(username: &str) -> Identity {
    Identity {
        id: "bot-id".to_string(),
        username: username.to_string(),
        is_bot: true,
        nickname: None,
        email: None,
    }
}

fn go(no_activate: bool, state: SetupState, event: SetupEvent) -> SetupMove {
    handle_auto_setup(no_activate, state, event)
}

#[test]
fn a_new_profile_is_stored_once_the_provider_accepts_it() {
    let m = go(
        false,
        SetupState::Begun,
        SetupEvent::Environment(Ok(sample_profile())),
    );
    assert!(matches!(m.action, SetupAction::Load));
    let m = go(false, m.state, SetupEvent::Found(Ok(None)));
    assert!(matches!(m.action, SetupAction::Validate));
    let m = go(false, m.state, SetupEvent::Validated(Ok(identity("agent-x"))));
    assert!(matches!(m.action, SetupAction::Store));
    match &m.state {
        SetupState::Storing { accepted } => {
            assert_eq!(accepted.profile.bot_username, "agent-x");
            assert_eq!(accepted.step.state, ProfileState::Created);
        }
        _ => panic!("expected to store"),
    }
    let m = go(false, m.state, SetupEvent::Stored(Ok(())));
    assert!(matches!(m.action, SetupAction::Mark));
    let m = go(false, m.state, SetupEvent::Marked(Ok(None)));
    assert!(matches!(m.action, SetupAction::EnsureDaemon));
    let m = go(false, m.state, SetupEvent::Daemon(Ok(DaemonState::Started)));
    assert!(matches!(m.action, SetupAction::Seed));
    let outcomes = vec![
        SeededChannelOutcome::Seeded {
            channel: "a".to_string(),
            post_id: "p".to_string(),
        },
        SeededChannelOutcome::UnseededEmptyChannel {
            channel: "b".to_string(),
        },
    ];
    let m = go(false, m.state, SetupEvent::Seeds(Ok(outcomes)));
    match m.action {
        SetupAction::Report(report) => {
            assert!(report.is_active);
            assert!(!report.degraded);
            assert_eq!(setup_exit_code(&report), 0);
            let text = auto_setup_report_text(&report);
            assert!(text.contains("  seeded: a -> p"));
            assert!(text.contains("  unseeded: b (empty channel)"));
        }
        _ => panic!("expected a report"),
    }
    assert!(matches!(m.state, SetupState::Ended));
}

#[test]
fn a_rotated_bot_refreshes_a_profile_that_is_reused() {
    let m = go(
        true,
        SetupState::Loading {
            desired: sample_profile(),
        },
        SetupEvent::Found(Ok(Some(sample_profile()))),
    );
    let m = go(true, m.state, SetupEvent::Validated(Ok(identity("agent-new"))));
    assert!(matches!(m.action, SetupAction::Store));
    let m = go(true, m.state, SetupEvent::Stored(Ok(())));
    assert!(matches!(m.action, SetupAction::StopDaemon));
    let m = go(true, m.state, SetupEvent::Stopped(Ok(())));
    assert!(matches!(m.action, SetupAction::ReadMarker));
    let m = go(true, m.state, SetupEvent::Marked(Ok(Some("other".to_string()))));
    match &m.state {
        SetupState::Starting { accepted, is_active } => {
            assert!(!is_active);
            assert_eq!(accepted.step.state, ProfileState::Refreshed);
            assert_eq!(accepted.step.diff[0].field, "bot_username");
            assert_eq!(accepted.step.diff[0].to, "agent-new");
        }
        _ => panic!("expected to start"),
    }
}

#[test]
fn a_profile_that_is_used_as_it_is_is_not_stored() {
    let m = go(
        true,
        SetupState::Loading {
            desired: sample_profile(),
        },
        SetupEvent::Found(Ok(Some(sample_profile()))),
    );
    let m = go(
        true,
        m.state,
        SetupEvent::Validated(Ok(identity("agent-bravo-devlead"))),
    );
    assert!(matches!(m.action, SetupAction::ReadMarker));
    let m = go(
        true,
        m.state,
        SetupEvent::Marked(Ok(Some("bravo-devlead".to_string()))),
    );
    let m = go(true, m.state, SetupEvent::Daemon(Ok(DaemonState::AlreadyRunning)));
    let gone = DaemonFailure::NotRunning("bravo-devlead".to_string());
    let m = go(true, m.state, SetupEvent::Seeds(Err(gone)));
    assert!(matches!(
        m.action,
        SetupAction::Refuse(SetupFailure::DaemonUnreachable)
    ));
}

#[test]
fn a_failed_seeding_degrades() {
    let m = go(
        true,
        SetupState::Loading {
            desired: sample_profile(),
        },
        SetupEvent::Found(Ok(Some(sample_profile()))),
    );
    let m = go(
        true,
        m.state,
        SetupEvent::Validated(Ok(identity("agent-bravo-devlead"))),
    );
    let m = go(true, m.state, SetupEvent::Marked(Ok(None)));
    let m = go(true, m.state, SetupEvent::Daemon(Ok(DaemonState::AlreadyRunning)));
    let failed = DaemonFailure::Rpc {
        code: 1,
        message: "no".to_string(),
    };
    let m = go(true, m.state, SetupEvent::Seeds(Err(failed)));
    match m.action {
        SetupAction::Report(report) => {
            assert!(report.degraded);
            assert_eq!(setup_exit_code(&report), 1);
            assert_eq!(
                report.seed_outcomes,
                vec![SeedOutcome::Failed {
                    channel: "<membership-enumeration>".to_string(),
                    reason: "no".to_string()
                }]
            );
        }
        _ => panic!("expected a report"),
    }
}

#[test]
fn another_identity_ends_a_setup() {
    let mut existing = sample_profile();
    existing.scope = "other".to_string();
    let m = go(
        false,
        SetupState::Loading {
            desired: sample_profile(),
        },
        SetupEvent::Found(Ok(Some(existing))),
    );
    match m.action {
        SetupAction::RefuseDrift(diff) => {
            assert_eq!(
                identity_drift_text(&diff),
                "identity_drift: persisted profile identity does not match env-derived identity\n  * scope: persisted=other env=lanytehq\nrecovery: resolve the mismatch (correct the env, or rename/remove the persisted profile), then re-run auto-setup"
            );
        }
        _ => panic!("expected a refusal"),
    }
}

#[test]
fn failures_end_a_setup() {
    let m = go(false, SetupState::Begun, SetupEvent::Environment(Err(api(1))));
    assert!(matches!(
        m.action,
        SetupAction::Refuse(SetupFailure::EnvInput(_))
    ));
    let m = go(
        false,
        SetupState::Loading {
            desired: sample_profile(),
        },
        SetupEvent::Found(Err(CoreError::MissingEnvFile)),
    );
    assert!(matches!(m.action, SetupAction::Fail(CliError::Core(_))));
    let m = go(
        false,
        SetupState::Validating {
            action: ProfileAction::Create,
            profile: sample_profile(),
            existing: None,
        },
        SetupEvent::Validated(Err(api(401))),
    );
    assert!(matches!(
        m.action,
        SetupAction::Refuse(SetupFailure::Preflight(_))
    ));
    assert!(matches!(m.state, SetupState::Ended));
}
