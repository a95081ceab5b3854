use chanvoy::cli::host_build_info as binary;
use chanvoy::host_build_info::{
    format_basic, format_extended, generation_match, resolve, short_from_full, BuildEnv,
    HostBuildInfo,
};

fn sample(commit: &str, short: &str, dirty: Option<bool>) -> HostBuildInfo {
    HostBuildInfo {
        version: "0.3.0".into(),
        commit: commit.into(),
        commit_short: short.into(),
        build_date: "2026-08-07T12:00:00Z".into(),
        dirty,
        rustc: "rustc 1.89.0".into(),
        platform: "macos/aarch64".into(),
    }
}

fn binary_sample(commit: &str, dirty: Option<bool>) -> binary::HostBuildInfo {
    binary::HostBuildInfo {
        version: "0.3.0".into(),
        commit: commit.into(),
        build_date: "2026-08-07T12:00:00Z".into(),
        dirty,
        rustc: "rustc 1.89.0".into(),
        platform: "macos/aarch64".into(),
    }
}

fn empty_env() -> BuildEnv {
    BuildEnv {
        version: None,
        package_version: "0.3.0".to_string(),
        commit: None,
        commit_short: None,
        build_date: None,
        dirty: None,
        rustc: None,
        os: "linux".to_string(),
        arch: "x86_64".to_string(),
    }
}

#[test]
fn basic_line_names_the_binary() {
    let info = sample(
        "abcdef1234567890abcdef1234567890abcdef12",
        "abcdef1",
        Some(false),
    );
    assert_eq!(format_basic(&info), "chanvoy 0.3.0");
}

#[test]
fn host_build_info_basic_line_names_the_binary() {
    let info = binary_sample("abcdef1", Some(false));
    assert_eq!(binary::format_basic(&info), "chanvoy 0.3.0");
}

#[test]
fn extended_uses_short_commit_for_human_line() {
    let full = "abcdef1234567890abcdef1234567890abcdef12";
    let info = sample(full, "abcdef1", Some(true));
    let text = format_extended(&info);
    assert!(text.contains("chanvoy 0.3.0"));
    assert!(text.contains("Commit: abcdef1"));
    assert!(!text.contains(&format!("Commit: {full}")));
    assert!(text.contains("Built: 2026-08-07T12:00:00Z"));
    assert!(text.contains("Rustc: rustc 1.89.0"));
    assert!(text.contains("Platform: macos/aarch64"));
    assert!(text.contains("Dirty: true"));
}

#[test]
fn extended_includes_host_fields_and_dirty_when_known() {
    let text = binary::format_extended(&binary_sample("abcdef1", Some(true)));
    assert!(text.contains("chanvoy 0.3.0"));
    assert!(text.contains("Commit: abcdef1"));
    assert!(text.contains("Built: 2026-08-07T12:00:00Z"));
    assert!(text.contains("Rustc: rustc 1.89.0"));
    assert!(text.contains("Platform: macos/aarch64"));
    assert!(text.contains("Dirty: true"));
}

#[test]
fn short_from_full_takes_seven_when_long() {
    assert_eq!(
        short_from_full("abcdef1234567890abcdef1234567890abcdef12"),
        "abcdef1"
    );
    assert_eq!(short_from_full("unknown"), "unknown");
    assert_eq!(short_from_full("abc"), "abc");
}

#[test]
fn extended_omits_dirty_when_unknown() {
    let info = HostBuildInfo {
        version: "0.3.0".into(),
        commit: "unknown".into(),
        commit_short: "unknown".into(),
        build_date: "unknown".into(),
        dirty: None,
        rustc: "unknown".into(),
        platform: "linux/x86_64".into(),
    };
    let text = format_extended(&info);
    assert!(!text.to_lowercase().contains("dirty:"));
}

#[test]
fn host_build_info_extended_omits_dirty_when_unknown() {
    let info = binary::HostBuildInfo {
        version: "0.3.0".into(),
        commit: "unknown".into(),
        build_date: "unknown".into(),
        dirty: None,
        rustc: "unknown".into(),
        platform: "linux/x86_64".into(),
    };
    let text = binary::format_extended(&info);
    assert!(!text.to_lowercase().contains("dirty:"));
}

#[test]
fn generation_match_true_when_commit_and_dirty_agree() {
    let full = "abcdef1234567890abcdef1234567890abcdef12";
    let a = sample(full, "abcdef1", Some(false));
    let b = sample(full, "abcdef1", Some(false));
    assert_eq!(generation_match(&a, Some(&b)), Some(true));
}

#[test]
fn generation_match_false_on_commit_skew() {
    let a = sample(
        "aaaaaaaaaaaaaaaaaaaaaaaaaaaaaaaaaaaaaaaa",
        "aaaaaaa",
        Some(false),
    );
    let b = sample(
        "bbbbbbbbbbbbbbbbbbbbbbbbbbbbbbbbbbbbbbbb",
        "bbbbbbb",
        Some(false),
    );
    assert_eq!(generation_match(&a, Some(&b)), Some(false));
}

#[test]
fn generation_match_none_when_daemon_missing_or_unknown() {
    let a = sample(
        "aaaaaaaaaaaaaaaaaaaaaaaaaaaaaaaaaaaaaaaa",
        "aaaaaaa",
        Some(false),
    );
    assert_eq!(generation_match(&a, None), None);
    let unknown = sample("unknown", "unknown", None);
    assert_eq!(generation_match(&a, Some(&unknown)), None);
    assert_eq!(generation_match(&unknown, Some(&a)), None);
}

#[test]
fn generation_differs_when_only_one_side_is_dirty() {
    let full = "abcdef1234567890abcdef1234567890abcdef12";
    let clean = sample(full, "abcdef1", Some(false));
    let dirty = sample(full, "abcdef1", Some(true));
    assert_eq!(generation_match(&clean, Some(&dirty)), Some(false));
}

#[test]
fn an_empty_build_environment_is_unknown() {
    let info = resolve(empty_env());
    assert_eq!(info.version, "0.3.0");
    assert_eq!(info.commit, "unknown");
    assert_eq!(info.commit_short, "unknown");
    assert_eq!(info.build_date, "unknown");
    assert_eq!(info.dirty, None);
    assert_eq!(info.rustc, "unknown");
    assert_eq!(info.platform, "linux/x86_64");
    let own = binary::resolve(empty_env());
    assert_eq!(own.commit, "unknown");
    assert_eq!(own.platform, "linux/x86_64");
}

#[test]
fn a_build_environment_is_taken_over() {
    let mut env = empty_env();
    env.version = Some("1.2.3".to_string());
    env.commit = Some("0123456789abcdef".to_string());
    env.dirty = Some("true".to_string());
    let info = resolve(env);
    assert_eq!(info.version, "1.2.3");
    assert_eq!(info.commit, "0123456789abcdef");
    assert_eq!(info.commit_short, "0123456");
    assert_eq!(info.dirty, Some(true));
    assert_eq!(
        format_extended(&info),
        "chanvoy 1.2.3\nCommit: 0123456\nBuilt: unknown\nRustc: unknown\nPlatform: linux/x86_64\nDirty: true"
    );
}
