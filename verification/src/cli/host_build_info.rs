//! Which build the command-line program is.
use vstd::prelude::*;
use vstd::string::*;

use crate::host_build_info::{basic_line, extended_block, extended_lines, known_flag, or_unknown,
    parse_flag, text_or_unknown, BuildEnv};
use crate::text::{concat2, concat3, joined, opt_text};

verus! {

/// The identity of the program.
#[derive(Debug, Clone, PartialEq, Eq)]
pub struct HostBuildInfo {
    pub version: String,
    pub commit: String,
    pub build_date: String,
    /// Absent where it is not known.
    pub dirty: Option<bool>,
    pub rustc: String,
    pub platform: String,
}

/// The identity of the program, with what is not known marked as such.
pub fn resolve(env: BuildEnv) -> (r: HostBuildInfo)
    ensures
        r.version@ == (match env.version {
            Some(v) => v@,
            None => env.package_version@,
        }),
        r.commit@ == or_unknown(env.commit),
        r.build_date@ == or_unknown(env.build_date),
        r.dirty == known_flag(opt_text(env.dirty)),
        r.rustc@ == or_unknown(env.rustc),
        r.platform@ == env.os@ + "/"@ + env.arch@,
{
    let version = match env.version {
        Some(v) => v,
        None => env.package_version,
    };
    HostBuildInfo {
        version,
        commit: text_or_unknown(env.commit),
        build_date: text_or_unknown(env.build_date),
        dirty: parse_flag(&env.dirty),
        rustc: text_or_unknown(env.rustc),
        platform: concat3(env.os.as_str(), "/", env.arch.as_str()),
    }
}

/// The line `chanvoy <version>`.
pub fn format_basic(info: &HostBuildInfo) -> (r: String)
    ensures
        r@ == basic_line(info.version@),
{
    concat2("chanvoy ", info.version.as_str())
}

/// The extended form.
pub fn format_extended(info: &HostBuildInfo) -> (r: String)
    ensures
        r@ == joined(
            extended_lines(
                info.version@,
                info.commit@,
                info.build_date@,
                info.rustc@,
                info.platform@,
                info.dirty,
            ),
            "\n"@,
        ),
{
    extended_block(
        info.version.as_str(),
        info.commit.as_str(),
        info.build_date.as_str(),
        info.rustc.as_str(),
        info.platform.as_str(),
        info.dirty,
    )
}

} // verus!
