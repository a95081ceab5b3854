//! Why a command failed.
use vstd::prelude::*;
use vstd::string::*;

use crate::error::{core_error_text, CoreError};
use crate::profile::{resolver_error_text, ResolverError};
use crate::text::{concat2, concat3};

verus! {

/// What the daemon answered instead of a result.
#[derive(Debug)]
pub enum DaemonFailure {
    NotRunning(String),
    Rpc { code: i64, message: String },
    /// Any other failure, by its diagnostic.
    Other(String),
}

/// Why a command failed.
#[derive(Debug)]
pub enum CliError {
    Daemon(DaemonFailure),
    Core(CoreError),
    Io(String),
    Json(String),
    Bootstrap(String),
    Resolver(ResolverError),
}

/// The diagnostic of a failure of the daemon.
pub open spec fn daemon_failure_text(e: DaemonFailure) -> Seq<char> {
    match e {
        DaemonFailure::NotRunning(profile) => "daemon for profile "@ + profile@
            + " is not running"@,
        DaemonFailure::Rpc { message, .. } => message@,
        DaemonFailure::Other(why) => why@,
    }
}

/// The diagnostic of an error.
pub open spec fn cli_error_text(e: CliError) -> Seq<char> {
    match e {
        CliError::Daemon(f) => daemon_failure_text(f),
        CliError::Core(c) => core_error_text(c),
        CliError::Io(why) => why@,
        CliError::Json(why) => why@,
        CliError::Bootstrap(why) => "bootstrap error: "@ + why@,
        CliError::Resolver(r) => resolver_error_text(r),
    }
}

impl DaemonFailure {
    /// The diagnostic.
    pub fn message(&self) -> (r: String)
        ensures
            r@ == daemon_failure_text(*self),
    {
        match self {
            DaemonFailure::NotRunning(profile) => concat3(
                "daemon for profile ",
                profile.as_str(),
                " is not running",
            ),
            DaemonFailure::Rpc { message, .. } => message.clone(),
            DaemonFailure::Other(why) => why.clone(),
        }
    }
}

impl CliError {
    /// The diagnostic.
    pub fn message(&self) -> (r: String)
        ensures
            r@ == cli_error_text(*self),
    {
        match self {
            CliError::Daemon(f) => f.message(),
            CliError::Core(c) => c.message(),
            CliError::Io(why) => why.clone(),
            CliError::Json(why) => why.clone(),
            CliError::Bootstrap(why) => concat2("bootstrap error: ", why.as_str()),
            CliError::Resolver(r) => r.message(),
        }
    }
}

/// The error is one of the input, with this diagnostic.
pub open spec fn bootstrap_error(e: CliError) -> Option<Seq<char>> {
    match e {
        CliError::Bootstrap(why) => Some(why@),
        _ => None,
    }
}

/// A failure says what failed: the daemon what it answered, everything else its own words.
pub proof fn failures_say_what_failed(e: CliError, why: String, profile: String)
    ensures
        daemon_failure_text(DaemonFailure::NotRunning(profile)) == "daemon for profile "@ + profile@
            + " is not running"@,
        daemon_failure_text(DaemonFailure::Other(why)) == why@,
        cli_error_text(CliError::Io(why)) == why@,
        cli_error_text(CliError::Json(why)) == why@,
        cli_error_text(CliError::Bootstrap(why)) == "bootstrap error: "@ + why@,
        e is Core ==> cli_error_text(e) == core_error_text(e->Core_0),
        e is Resolver ==> cli_error_text(e) == resolver_error_text(e->Resolver_0),
        e is Daemon ==> cli_error_text(e) == daemon_failure_text(e->Daemon_0),
        bootstrap_error(e) is Some <==> e is Bootstrap,
        e is Bootstrap ==> bootstrap_error(e)->0 == e->Bootstrap_0@,
{
}

} // verus!
