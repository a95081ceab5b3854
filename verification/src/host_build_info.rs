//! Which build this process is.
//!
//! The build hands in what it knows; what it does not know is reported as
//! unknown. Comparing the build of the client with that of the daemon tells
//! whether an installation took effect.
use vstd::prelude::*;
use vstd::string::*;

use crate::text::{byte_len, concat2, concat3, join, joined, opt_text, str_eq, texts};
use vstd::utf8::encode_utf8;

verus! {

/// The identity of a build.
#[derive(Debug, Clone, PartialEq, Eq)]
pub struct HostBuildInfo {
    pub version: String,
    /// The full name of the commit.
    pub commit: String,
    /// The name of the commit as it is shown.
    pub commit_short: String,
    pub build_date: String,
    /// Absent where it is not known.
    pub dirty: Option<bool>,
    pub rustc: String,
    pub platform: String,
}

/// What the build knows of itself.
#[derive(Debug, Clone, PartialEq, Eq)]
pub struct BuildEnv {
    pub version: Option<String>,
    pub package_version: String,
    pub commit: Option<String>,
    pub commit_short: Option<String>,
    pub build_date: Option<String>,
    pub dirty: Option<String>,
    pub rustc: Option<String>,
    pub os: String,
    pub arch: String,
}

/// A value, or `unknown`.
pub open spec fn or_unknown(s: Option<String>) -> Seq<char> {
    match s {
        Some(t) => t@,
        None => "unknown"@,
    }
}

pub fn text_or_unknown(s: Option<String>) -> (r: String)
    ensures
        r@ == or_unknown(s),
{
    match s {
        Some(t) => t,
        None => "unknown".to_owned(),
    }
}

/// `true` and `false` are known, everything else is not.
pub open spec fn known_flag(s: Option<Seq<char>>) -> Option<bool> {
    if s == Some("true"@) {
        Some(true)
    } else if s == Some("false"@) {
        Some(false)
    } else {
        None
    }
}

pub fn parse_flag(s: &Option<String>) -> (r: Option<bool>)
    ensures
        r == known_flag(opt_text(*s)),
{
    proof {
        reveal_strlit("true");
        reveal_strlit("false");
    }
    match s {
        Some(t) => {
            if str_eq(t.as_str(), "true") {
                Some(true)
            } else if str_eq(t.as_str(), "false") {
                Some(false)
            } else {
                None
            }
        },
        None => None,
    }
}

/// The first seven characters of a commit name; an unknown or short one stays.
pub open spec fn short_commit(commit: Seq<char>) -> Seq<char> {
    if commit == "unknown"@ || encode_utf8(commit).len() < 7 {
        commit
    } else if commit.len() < 7 {
        commit
    } else {
        commit.take(7)
    }
}

pub fn short_from_full(commit: &str) -> (r: String)
    ensures
        r@ == short_commit(commit@),
{
    if str_eq(commit, "unknown") || byte_len(commit) < 7 || commit.unicode_len() < 7 {
        return commit.to_owned();
    }
    let head = commit.substring_char(0, 7);
    proof {
        assert(head@ =~= commit@.take(7));
    }
    head.to_owned()
}

/// `info` is the identity of a build that knows `env` of itself.
pub open spec fn resolved_from(env: BuildEnv, info: HostBuildInfo) -> bool {
    &&& info.version@ == (match env.version {
        Some(v) => v@,
        None => env.package_version@,
    })
    &&& info.commit@ == or_unknown(env.commit)
    &&& info.commit_short@ == (match env.commit_short {
        Some(s) => s@,
        None => short_commit(or_unknown(env.commit)),
    })
    &&& info.build_date@ == or_unknown(env.build_date)
    &&& info.dirty == known_flag(opt_text(env.dirty))
    &&& info.rustc@ == or_unknown(env.rustc)
    &&& info.platform@ == env.os@ + "/"@ + env.arch@
}

/// The identity of a build, with what is not known marked as such.
pub fn resolve(env: BuildEnv) -> (r: HostBuildInfo)
    ensures
        resolved_from(env, r),
{
    let commit = text_or_unknown(env.commit);
    let commit_short = match env.commit_short {
        Some(s) => s,
        None => short_from_full(commit.as_str()),
    };
    let version = match env.version {
        Some(v) => v,
        None => env.package_version,
    };
    HostBuildInfo {
        version,
        commit,
        commit_short,
        build_date: text_or_unknown(env.build_date),
        dirty: parse_flag(&env.dirty),
        rustc: text_or_unknown(env.rustc),
        platform: concat3(env.os.as_str(), "/", env.arch.as_str()),
    }
}

/// Whether two builds are the same; nothing where one of them is not known.
pub open spec fn same_generation(cli: HostBuildInfo, daemon: Option<HostBuildInfo>) -> Option<bool> {
    match daemon {
        None => None,
        Some(d) => if cli.commit@ == "unknown"@ || d.commit@ == "unknown"@ {
            None
        } else {
            Some(cli.commit@ == d.commit@ && cli.dirty == d.dirty)
        },
    }
}

pub open spec fn opt_deref<T>(o: Option<&T>) -> Option<T> {
    match o {
        Some(t) => Some(*t),
        None => None,
    }
}

pub fn generation_match(cli: &HostBuildInfo, daemon: Option<&HostBuildInfo>) -> (r: Option<bool>)
    ensures
        r == same_generation(*cli, opt_deref(daemon)),
{
    match daemon {
        None => None,
        Some(d) => {
            if str_eq(cli.commit.as_str(), "unknown") || str_eq(d.commit.as_str(), "unknown") {
                return None;
            }
            Some(
                str_eq(cli.commit.as_str(), d.commit.as_str()) && same_flag(cli.dirty, d.dirty),
            )
        },
    }
}

fn same_flag(a: Option<bool>, b: Option<bool>) -> (r: bool)
    ensures
        r == (a == b),
{
    match (a, b) {
        (Some(x), Some(y)) => x == y,
        (None, None) => true,
        _ => false,
    }
}

/// An unknown build is never taken for the same one, and the comparison does not
/// depend on which side asks.
pub proof fn unknown_build_never_matches(a: HostBuildInfo, b: HostBuildInfo)
    ensures
        a.commit@ == "unknown"@ || b.commit@ == "unknown"@ ==> same_generation(a, Some(b)) is None,
        same_generation(a, None) is None,
        same_generation(a, Some(b)) == same_generation(b, Some(a)),
{
}

pub open spec fn basic_line(version: Seq<char>) -> Seq<char> {
    "chanvoy "@ + version
}

/// The line `chanvoy <version>`.
pub fn format_basic(info: &HostBuildInfo) -> (r: String)
    ensures
        r@ == basic_line(info.version@),
{
    concat2("chanvoy ", info.version.as_str())
}

/// The lines of the extended form; the last one is left out where it is not
/// known.
pub open spec fn extended_lines(
    version: Seq<char>,
    commit: Seq<char>,
    built: Seq<char>,
    rustc: Seq<char>,
    platform: Seq<char>,
    dirty: Option<bool>,
) -> Seq<Seq<char>> {
    let lines = seq![
        basic_line(version),
        "Commit: "@ + commit,
        "Built: "@ + built,
        "Rustc: "@ + rustc,
        "Platform: "@ + platform,
    ];
    match dirty {
        Some(true) => lines.push("Dirty: true"@),
        Some(false) => lines.push("Dirty: false"@),
        None => lines,
    }
}

/// The extended form of these values.
pub fn extended_block(
    version: &str,
    commit: &str,
    built: &str,
    rustc: &str,
    platform: &str,
    dirty: Option<bool>,
) -> (r: String)
    ensures
        r@ == joined(
            extended_lines(version@, commit@, built@, rustc@, platform@, dirty),
            "\n"@,
        ),
{
    let mut lines: Vec<String> = Vec::new();
    lines.push(concat2("chanvoy ", version));
    lines.push(concat2("Commit: ", commit));
    lines.push(concat2("Built: ", built));
    lines.push(concat2("Rustc: ", rustc));
    lines.push(concat2("Platform: ", platform));
    match dirty {
        Some(d) => {
            if d {
                lines.push("Dirty: true".to_owned());
            } else {
                lines.push("Dirty: false".to_owned());
            }
        },
        None => {},
    }
    proof {
        assert(texts(lines@) =~= extended_lines(
            version@,
            commit@,
            built@,
            rustc@,
            platform@,
            dirty,
        ));
    }
    join(&lines, "\n")
}

/// The extended form, with the short name of the commit.
pub fn format_extended(info: &HostBuildInfo) -> (r: String)
    ensures
        r@ == joined(
            extended_lines(
                info.version@,
                info.commit_short@,
                info.build_date@,
                info.rustc@,
                info.platform@,
                info.dirty,
            ),
            "\n"@,
        ),
{
    extended_block(
        info.version.as_str(),
        info.commit_short.as_str(),
        info.build_date.as_str(),
        info.rustc.as_str(),
        info.platform.as_str(),
        info.dirty,
    )
}

/// What a build says of itself is what it was built with, and unknown where nothing was said.
pub proof fn builds_say_what_they_were_built_with(env: BuildEnv, info: HostBuildInfo)
    requires
        resolved_from(env, info),
    ensures
        env.version is Some ==> info.version@ == env.version->0@,
        env.version is None ==> info.version@ == env.package_version@,
        env.commit is Some ==> info.commit@ == env.commit->0@,
        env.commit is None ==> info.commit@ == "unknown"@,
        env.build_date is Some ==> info.build_date@ == env.build_date->0@,
        env.build_date is None ==> info.build_date@ == "unknown"@,
        env.rustc is Some ==> info.rustc@ == env.rustc->0@,
        env.rustc is None ==> info.rustc@ == "unknown"@,
        info.platform@ == env.os@ + "/"@ + env.arch@,
        info.dirty == Some(true) <==> env.dirty is Some && env.dirty->0@ == "true"@,
        info.dirty == Some(false) <==> env.dirty is Some && env.dirty->0@ == "false"@,
        env.commit_short is Some ==> info.commit_short@ == env.commit_short->0@,
        env.commit_short is None && env.commit is Some && env.commit->0@ != "unknown"@
            && env.commit->0@.len() >= 7 && encode_utf8(env.commit->0@).len() >= 7
            ==> info.commit_short@ == env.commit->0@.take(7),
{
    reveal_strlit("true");
    reveal_strlit("false");
    assert("true"@.len() != "false"@.len());
}

/// Two builds are of one generation where they are of one commit and equally dirty; of an
/// unknown commit nothing can be said.
pub proof fn generations_go_by_commit(a: HostBuildInfo, b: HostBuildInfo)
    requires
        a.commit@ != "unknown"@,
        b.commit@ != "unknown"@,
    ensures
        same_generation(a, Some(b)) == Some(a.commit@ == b.commit@ && a.dirty == b.dirty),
{
}

/// The lines of a build name its version, commit, date, compiler and platform, and whether it
/// is dirty where that is known.
pub proof fn build_lines(
    version: Seq<char>,
    commit: Seq<char>,
    built: Seq<char>,
    rustc: Seq<char>,
    platform: Seq<char>,
    dirty: Option<bool>,
)
    ensures
        ({
            let lines = extended_lines(version, commit, built, rustc, platform, dirty);
            &&& lines.len() == (if dirty is Some {
                6int
            } else {
                5int
            })
            &&& lines[0] == "chanvoy "@ + version
            &&& lines[1] == "Commit: "@ + commit
            &&& lines[2] == "Built: "@ + built
            &&& lines[3] == "Rustc: "@ + rustc
            &&& lines[4] == "Platform: "@ + platform
            &&& dirty == Some(true) ==> lines[5] == "Dirty: true"@
            &&& dirty == Some(false) ==> lines[5] == "Dirty: false"@
        }),
        basic_line(version) == "chanvoy "@ + version,
{
}

} // verus!
