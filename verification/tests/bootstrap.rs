use chanvoy::bootstrap::{
    build_bootstrap_state, build_bootstrap_state_at, compute_profile_fingerprint, generate_nonce,
    now_epoch_secs, validate_bootstrap_state, validate_bootstrap_state_at, BootstrapError,
    BOOTSTRAP_MAX_AGE_SECS,
};
use chanvoy::clock::{
    minutes_ago_millis, minutes_before, now_unix_millis, seconds_ago_millis, seconds_before,
};
use chanvoy::error::CoreError;
use chanvoy::paths::{
    active_profile_path, attention_state_path, bootstrap_path_for_profile,
    default_chanvoy_config_dir, default_profile_dir, default_runtime_dir, join_path,
    pid_path_for_profile, profile_path, socket_path_for_profile,
};
use chanvoy::types::{CapabilityClass, CredentialMode, Profile, Provider};

fn sample_profile() -> Profile {
    Profile {
        name: "bravo-devlead-lanytehq".to_string(),
        role: "bravo-devlead".to_string(),
        scope: "lanytehq".to_string(),
        provider: Provider::Mattermost,
        bot_username: "agent-bravo-devlead".to_string(),
        team_name: "org-lanytehq".to_string(),
        server_url: "https://mm.3leaps.dev".to_string(),
        env_name: "LANYTE_MM_TOKEN".to_string(),
        env_file: None,
        credential_mode: CredentialMode::EnvName,
        capability_class: CapabilityClass::Standard,
        monitored_channels: Vec::new(),
        ipc: None,
        reduce: None,
    }
}

#[test]
fn fingerprint_is_stable_for_unchanged_profile() {
    let p = sample_profile();
    assert_eq!(
        compute_profile_fingerprint(&p),
        compute_profile_fingerprint(&p)
    );
}

#[test]
fn fingerprint_changes_when_canonical_field_changes() {
    let p = sample_profile();
    let mut q = sample_profile();
    q.bot_username = "agent-other".to_string();
    assert_ne!(
        compute_profile_fingerprint(&p),
        compute_profile_fingerprint(&q),
    );
}

#[test]
fn fingerprint_format_is_sha256_prefixed_hex() {
    let fp = compute_profile_fingerprint(&sample_profile());
    assert!(fp.starts_with("sha256:"), "fp={fp}");
    let hex = &fp["sha256:".len()..];
    assert_eq!(hex.len(), 64, "expected 64 hex chars, got {hex}");
    assert!(hex.chars().all(|c| c.is_ascii_hexdigit()));
}

#[test]
fn validate_rejects_stale_state() {
    let p = sample_profile();
    let nonce = generate_nonce();
    let mut state = build_bootstrap_state(&p, "uid-1", &nonce, 12345).expect("build");
    state.issued_at = state.issued_at.saturating_sub(BOOTSTRAP_MAX_AGE_SECS + 5);
    let err = validate_bootstrap_state(&state, &p, Some(&nonce)).unwrap_err();
    assert!(matches!(err, BootstrapError::Stale { .. }), "got {err:?}");
}

#[test]
fn validate_rejects_fingerprint_mismatch() {
    let p = sample_profile();
    let nonce = generate_nonce();
    let state = build_bootstrap_state(&p, "uid-1", &nonce, 12345).expect("build");
    let mut q = sample_profile();
    q.bot_username = "agent-mutated".to_string();
    let err = validate_bootstrap_state(&state, &q, Some(&nonce)).unwrap_err();
    assert!(
        matches!(err, BootstrapError::FingerprintMismatch { .. }),
        "got {err:?}"
    );
}

#[test]
fn validate_rejects_nonce_mismatch() {
    let p = sample_profile();
    let nonce = generate_nonce();
    let state = build_bootstrap_state(&p, "uid-1", &nonce, 12345).expect("build");
    let err = validate_bootstrap_state(&state, &p, Some("wrong-nonce")).unwrap_err();
    assert!(matches!(err, BootstrapError::NonceMismatch), "got {err:?}");
}

#[test]
fn validate_rejects_missing_nonce_env() {
    let p = sample_profile();
    let nonce = generate_nonce();
    let state = build_bootstrap_state(&p, "uid-1", &nonce, 12345).expect("build");
    let err = validate_bootstrap_state(&state, &p, None).unwrap_err();
    assert!(
        matches!(err, BootstrapError::NonceEnvMissing(_)),
        "got {err:?}"
    );
}

#[test]
fn validate_rejects_username_mismatch() {
    let p = sample_profile();
    let nonce = generate_nonce();
    let mut state = build_bootstrap_state(&p, "uid-1", &nonce, 12345).expect("build");
    state.username = "agent-impersonator".to_string();
    let err = validate_bootstrap_state(&state, &p, Some(&nonce)).unwrap_err();
    assert!(
        matches!(err, BootstrapError::UsernameMismatch { .. }),
        "got {err:?}"
    );
}

#[test]
fn validate_accepts_fresh_matched_state() {
    let p = sample_profile();
    let nonce = generate_nonce();
    let state = build_bootstrap_state(&p, "uid-1", &nonce, 12345).expect("build");
    validate_bootstrap_state(&state, &p, Some(&nonce)).expect("valid");
}

#[test]
fn bootstrap_path_for_profile_uses_dot_extension_convention() {
    let path = bootstrap_path_for_profile("/run/chanvoy", "alpha-foo-lanytehq");
    let filename = std::path::Path::new(&path)
        .file_name()
        .and_then(|s| s.to_str())
        .unwrap();
    assert_eq!(
        filename, "alpha-foo-lanytehq.bootstrap.json",
        "filename should follow `<profile>.<ext>` convention",
    );
}

#[test]
fn the_fingerprint_is_that_of_the_joined_fields() {
    let mut p = sample_profile();
    assert_eq!(
        compute_profile_fingerprint(&p),
        "sha256:582975dcce36c5331fefea07b91d92b38e15e63ffdf704bae2b9644e289bd868"
    );
    p.credential_mode = CredentialMode::EnvFile;
    assert_ne!(
        compute_profile_fingerprint(&p),
        compute_profile_fingerprint(&sample_profile())
    );
}

#[test]
fn the_age_of_a_hand_over_is_bounded() {
    let p = sample_profile();
    let state = build_bootstrap_state_at(&p, "uid", "n", 1, 1_000);
    let nonce = Some("n");
    assert!(validate_bootstrap_state_at(&state, &p, nonce, 1_000 + BOOTSTRAP_MAX_AGE_SECS).is_ok());
    let late = 1_001 + BOOTSTRAP_MAX_AGE_SECS;
    let err = validate_bootstrap_state_at(&state, &p, nonce, late).unwrap_err();
    match err {
        BootstrapError::Stale { issued_at, age, max } => {
            assert_eq!((issued_at, age, max), (1_000, 61, 60));
        }
        other => panic!("expected Stale, got {other:?}"),
    }
    assert!(validate_bootstrap_state_at(&state, &p, nonce, 0).is_ok());
}

#[test]
fn a_nonce_is_a_random_identifier() {
    let nonce = generate_nonce();
    assert_eq!(nonce.len(), 36);
    assert_eq!(nonce.as_bytes()[14], b'4');
    assert_ne!(nonce, generate_nonce());
}

#[test]
fn a_failed_hand_over_is_an_error_of_the_library() {
    let err: CoreError = BootstrapError::NonceMismatch.into_core();
    assert!(!err.message().is_empty());
}

#[test]
fn paths_of_a_profile() {
    assert_eq!(socket_path_for_profile("/run/c", "p"), "/run/c/p.sock");
    assert_eq!(pid_path_for_profile("/run/c/", "p"), "/run/c/p.pid");
    assert_eq!(active_profile_path("/cfg"), "/cfg/active_profile");
    assert_eq!(attention_state_path("/cfg", "p"), "/cfg/state-p.json");
    assert_eq!(default_profile_dir("/cfg"), "/cfg/profiles");
    assert_eq!(profile_path("/cfg/profiles", "p"), "/cfg/profiles/p.toml");
    assert_eq!(join_path("/a", "/b"), "/b");
    assert_eq!(join_path("", "b"), "b");
}

#[test]
fn directories_can_be_overridden() {
    assert_eq!(default_chanvoy_config_dir(Some("/o"), Some("/home/.config")), "/o");
    assert_eq!(
        default_chanvoy_config_dir(None, Some("/home/.config")),
        "/home/.config/lanytehq/chanvoy"
    );
    assert_eq!(default_chanvoy_config_dir(None, None), "./lanytehq/chanvoy");
    assert_eq!(default_runtime_dir(Some("/o"), Some("/s"), None, "/tmp"), "/o");
    assert_eq!(default_runtime_dir(None, Some("/s"), None, "/tmp"), "/s/chanvoy");
    assert_eq!(default_runtime_dir(None, None, Some("/p"), "/tmp"), "/p/chanvoy");
    assert_eq!(default_runtime_dir(None, None, None, "/tmp"), "/tmp/chanvoy");
}

#[test]
fn moments_before() {
    assert_eq!(seconds_before(10_000, 3), 7_000);
    assert_eq!(seconds_before(0, 9_223_372_036_854_776), i64::MAX - 191);
    let before = now_unix_millis();
    let ago = seconds_ago_millis(60);
    let after = now_unix_millis();
    assert!(before - 60_000 <= ago && ago <= after - 60_000);
    assert_eq!(minutes_before(1_000_000, 3), 820_000);
    let before = now_unix_millis();
    let ago = minutes_ago_millis(5);
    let after = now_unix_millis();
    assert!(before - 300_000 <= ago && ago <= after - 300_000);
}

#[test]
fn the_clock_gives_seconds() {
    let before = now_epoch_secs().unwrap();
    let millis = now_unix_millis() / 1000;
    let after = now_epoch_secs().unwrap();
    assert!(before <= millis as u64 && millis as u64 <= after);
    assert!(before > 1_600_000_000);
}

#[test]
fn a_failed_hand_over_shows_its_path() {
    let err = CoreError::BootstrapHandoffFailed {
        profile: "seat".to_string(),
        nonce_env: "CHANVOY_BOOTSTRAP_NONCE".to_string(),
        path: "/run/it's \"here\"".to_string(),
    };
    let shown = format!("{:?}", std::path::Path::new("/run/it's \"here\""));
    assert_eq!(
        err.message(),
        format!(
            "PER-014 bootstrap handoff failed for profile seat: CHANVOY_BOOTSTRAP_NONCE is set but {shown} is missing. Likely runtime-dir drift between auto-setup and daemon, sandbox temp-dir cleanup, or a consume race. Re-run `chanvoy auto-setup` to re-validate identity."
        )
    );
    assert!(shown.starts_with("\"/run/it"));
}
