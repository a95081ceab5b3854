//! Setting up a profile and its daemon from the environment.
//!
//! The profile that the environment describes is held against the stored one:
//! it is created, refreshed, used as it is, or refused where it would be another
//! identity.
use vstd::prelude::*;
use vstd::string::*;

use crate::cli::args::{CliCapabilityClass, CliCredentialMode, ProfileCreateArgs,
    ProfileCreateFromEnvArgs};
use crate::cli::error::{bootstrap_error, cli_error_text, daemon_failure_text, CliError,
    DaemonFailure};
use crate::error::{core_error_text, show_status, shown_status, CoreError};
use crate::host_build_info::opt_deref;
use crate::paths::opt_view;
use crate::profile::{copy_strings, env_profile_name};
use crate::text::{concat2, concat3, join, joined, opt_text, str_eq, texts, trim, trimmed};
use crate::types::{CapabilityClass, CredentialMode, Identity, Profile, Provider, ReducePolicy,
    SeededChannelOutcome};

verus! {

/// Set up, but a channel could not be seeded.
pub const EXIT_SOFT_DEGRADED: i32 = 1;

/// The environment does not describe a profile.
pub const EXIT_ENV_INPUT: i32 = 2;

/// The provider does not accept the profile.
pub const EXIT_PREFLIGHT_FAILED: i32 = 3;

/// The daemon does not run.
pub const EXIT_DAEMON_FAILED: i32 = 4;

/// The stored profile is another identity.
pub const EXIT_IDENTITY_DRIFT: i32 = 5;

// ---------------------------------------------------------------------------
// The environment
// ---------------------------------------------------------------------------

/// A value that is not blank.
pub open spec fn given(value: Option<Seq<char>>) -> Option<Seq<char>> {
    match value {
        Some(v) => if trimmed(v).len() == 0 {
            None
        } else {
            Some(v)
        },
        None => None,
    }
}

/// A variable counts only where it is not blank.
pub fn env_var_nonempty(value: Option<String>) -> (r: Option<String>)
    ensures
        opt_text(r) == given(opt_text(value)),
{
    match value {
        Some(v) => {
            if trim(v.as_str()).is_empty() {
                None
            } else {
                Some(v)
            }
        },
        None => None,
    }
}

/// A variable that has to be set.
pub fn required_env(name: &str, value: Option<String>) -> (r: Result<String, CliError>)
    ensures
        match r {
            Ok(v) => given(opt_text(value)) == Some(v@),
            Err(e) => given(opt_text(value)) is None && bootstrap_error(e) == Some(
                "missing required environment variable "@ + name@,
            ),
        },
{
    match env_var_nonempty(value) {
        Some(v) => Ok(v),
        None => Err(
            CliError::Bootstrap(concat2("missing required environment variable ", name)),
        ),
    }
}

/// The variables that describe a profile.
#[derive(Debug, PartialEq, Eq)]
pub struct SetupEnv {
    /// `LANYTE_AGENT_ROLE`
    pub role: Option<String>,
    /// `LANYTE_AGENT_SCOPE`
    pub scope: Option<String>,
    /// `LANYTE_MM_URL`
    pub server_url: Option<String>,
    /// `CHANVOY_PROFILE`
    pub profile: Option<String>,
    /// `LANYTE_MM_TEAM`
    pub team: Option<String>,
    /// `CHANVOY_TOKEN_ENV_NAME`
    pub token_env_name: Option<String>,
}

/// The first required variable that is missing.
pub open spec fn missing_variable(env: SetupEnv) -> Option<Seq<char>> {
    if given(opt_text(env.role)) is None {
        Some("LANYTE_AGENT_ROLE"@)
    } else if given(opt_text(env.scope)) is None {
        Some("LANYTE_AGENT_SCOPE"@)
    } else if given(opt_text(env.server_url)) is None {
        Some("LANYTE_MM_URL"@)
    } else {
        None
    }
}

/// The team of a scope, unless the environment names another one.
pub open spec fn team_of(team: Option<Seq<char>>, scope: Seq<char>) -> Seq<char> {
    match given(team) {
        Some(t) => t,
        None => "org-"@ + scope,
    }
}

/// The team of a scope: `org-<scope>`, unless the environment names another one.
pub fn derive_team_name(scope: &str, team: Option<String>) -> (r: String)
    requires
        given(opt_text(team)) is Some || scope@.len() > 0,
    ensures
        r@ == team_of(opt_text(team), scope@),
{
    match env_var_nonempty(team) {
        Some(t) => t,
        None => concat2("org-", scope),
    }
}

/// `p` is the profile that the environment describes.
pub open spec fn described(
    env: SetupEnv,
    profile_override: Option<Seq<char>>,
    reduce: Option<Seq<char>>,
    p: Profile,
) -> bool {
    let role = opt_text(env.role)->0;
    let scope = opt_text(env.scope)->0;
    &&& p.name@ == (match profile_override {
        Some(name) => name,
        None => match given(opt_text(env.profile)) {
            Some(name) => name,
            None => env_profile_name(role, scope),
        },
    })
    &&& p.role@ == role
    &&& p.scope@ == scope
    &&& p.provider is Mattermost
    &&& p.bot_username@.len() == 0
    &&& p.team_name@ == team_of(opt_text(env.team), scope)
    &&& p.server_url@ == opt_text(env.server_url)->0
    &&& p.env_name@ == (match given(opt_text(env.token_env_name)) {
        Some(name) => name,
        None => "LANYTE_MM_TOKEN"@,
    })
    &&& p.env_file is None
    &&& p.credential_mode is EnvName
    &&& p.capability_class is Standard
    &&& p.monitored_channels@.len() == 0
    &&& p.ipc is None
    &&& reduce_target(p) == reduce
}

/// The profile to which a profile reduces.
pub open spec fn reduce_target(p: Profile) -> Option<Seq<char>> {
    match p.reduce {
        Some(policy) => Some(policy.use_profile@),
        None => None,
    }
}

/// The profile that the environment describes.
pub fn build_desired_profile_from_env(
    env: SetupEnv,
    profile_override: Option<&str>,
    reduce_profile: Option<&str>,
) -> (r: Result<Profile, CliError>)
    ensures
        match r {
            Ok(p) => missing_variable(env) is None && described(
                env,
                opt_view(profile_override),
                opt_view(reduce_profile),
                p,
            ),
            Err(e) => missing_variable(env) matches Some(name) && bootstrap_error(e) == Some(
                "missing required environment variable "@ + name,
            ),
        },
{
    let role = match required_env("LANYTE_AGENT_ROLE", env.role) {
        Ok(v) => v,
        Err(e) => {
            return Err(e);
        },
    };
    let scope = match required_env("LANYTE_AGENT_SCOPE", env.scope) {
        Ok(v) => v,
        Err(e) => {
            return Err(e);
        },
    };
    let server_url = match required_env("LANYTE_MM_URL", env.server_url) {
        Ok(v) => v,
        Err(e) => {
            return Err(e);
        },
    };
    let name = match profile_override {
        Some(name) => name.to_owned(),
        None => match env_var_nonempty(env.profile) {
            Some(name) => name,
            None => concat3(role.as_str(), "-", scope.as_str()),
        },
    };
    proof {
        given_is_not_empty(scope@);
    }
    let team_name = derive_team_name(scope.as_str(), env.team);
    let env_name = match env_var_nonempty(env.token_env_name) {
        Some(name) => name,
        None => "LANYTE_MM_TOKEN".to_owned(),
    };
    let reduce = match reduce_profile {
        Some(name) => Some(ReducePolicy { use_profile: name.to_owned() }),
        None => None,
    };
    Ok(
        Profile {
            name,
            role,
            scope,
            provider: Provider::Mattermost,
            bot_username: String::new(),
            team_name,
            server_url,
            env_name,
            env_file: None,
            credential_mode: CredentialMode::EnvName,
            capability_class: CapabilityClass::Standard,
            monitored_channels: Vec::new(),
            ipc: None,
            reduce,
        },
    )
}

proof fn given_is_not_empty(v: Seq<char>)
    requires
        given(Some(v)) == Some(v),
    ensures
        v.len() > 0,
{
    if v.len() == 0 {
        assert(trimmed(v).len() == 0);
    }
}

/// The error of a profile whose token is not there: it is one of the input.
pub fn check_token_available(env_name: &str, token: Result<String, CoreError>) -> (r: Result<
    (),
    CliError,
>)
    ensures
        match token {
            Ok(_) => r is Ok,
            Err(e) => r matches Err(c) && bootstrap_error(c) == Some(
                "token unavailable via "@ + env_name@ + ": "@ + core_error_text(e),
            ),
        },
{
    match token {
        Ok(_) => Ok(()),
        Err(e) => {
            let mut m = "token unavailable via ".to_owned();
            m.append(env_name);
            m.append(": ");
            m.append(e.message().as_str());
            Err(CliError::Bootstrap(m))
        },
    }
}

// ---------------------------------------------------------------------------
// Profiles from arguments
// ---------------------------------------------------------------------------

/// A profile that reads its token from a file has to name the file.
pub fn validate_profile_create_args(profile: &Profile) -> (r: Result<(), CliError>)
    ensures
        r is Ok <==> !(profile.credential_mode is EnvFile && profile.env_file is None),
        r matches Err(e) ==> e == CliError::Core(CoreError::MissingEnvFile),
{
    match profile.credential_mode {
        CredentialMode::EnvFile => {
            if profile.env_file.is_none() {
                return Err(CliError::Core(CoreError::MissingEnvFile));
            }
        },
        _ => {},
    }
    Ok(())
}

pub open spec fn mode_of(mode: CliCredentialMode) -> CredentialMode {
    match mode {
        CliCredentialMode::EnvName => CredentialMode::EnvName,
        CliCredentialMode::EnvFile => CredentialMode::EnvFile,
        CliCredentialMode::SeclusorRun => CredentialMode::SeclusorRun,
    }
}

fn to_mode(mode: CliCredentialMode) -> (r: CredentialMode)
    ensures
        r == mode_of(mode),
{
    match mode {
        CliCredentialMode::EnvName => CredentialMode::EnvName,
        CliCredentialMode::EnvFile => CredentialMode::EnvFile,
        CliCredentialMode::SeclusorRun => CredentialMode::SeclusorRun,
    }
}

pub open spec fn class_of(class: CliCapabilityClass) -> CapabilityClass {
    match class {
        CliCapabilityClass::Standard => CapabilityClass::Standard,
        CliCapabilityClass::Elevated => CapabilityClass::Elevated,
    }
}

fn to_class(class: CliCapabilityClass) -> (r: CapabilityClass)
    ensures
        r == class_of(class),
{
    match class {
        CliCapabilityClass::Standard => CapabilityClass::Standard,
        CliCapabilityClass::Elevated => CapabilityClass::Elevated,
    }
}

/// The profile that arguments describe. Without a team it is that of the scope.
pub fn profile_from_create_args(args: &ProfileCreateArgs) -> (r: Profile)
    ensures
        r.name@ == args.name@,
        r.role@ == args.role@,
        r.scope@ == args.scope@,
        r.provider is Mattermost,
        r.bot_username@ == args.bot_username@,
        r.team_name@ == (match args.team_name {
            Some(t) => t@,
            None => "org-"@ + args.scope@,
        }),
        r.server_url@ == args.server_url@,
        r.env_name@ == args.env_name@,
        r.env_file == args.env_file,
        r.credential_mode == mode_of(args.credential_mode),
        r.capability_class == class_of(args.capability_class),
        r.monitored_channels@.len() == 0,
        r.ipc is None,
        r.reduce is None,
{
    let team_name = match &args.team_name {
        Some(t) => t.clone(),
        None => concat2("org-", args.scope.as_str()),
    };
    Profile {
        name: args.name.clone(),
        role: args.role.clone(),
        scope: args.scope.clone(),
        provider: Provider::Mattermost,
        bot_username: args.bot_username.clone(),
        team_name,
        server_url: args.server_url.clone(),
        env_name: args.env_name.clone(),
        env_file: args.env_file.clone(),
        credential_mode: to_mode(args.credential_mode),
        capability_class: to_class(args.capability_class),
        monitored_channels: Vec::new(),
        ipc: None,
        reduce: None,
    }
}

/// `p` is the profile that arguments and the environment describe.
pub open spec fn described_by_args(args: ProfileCreateFromEnvArgs, env: SetupEnv, p: Profile) -> bool {
    let role = opt_text(env.role)->0;
    let scope = opt_text(env.scope)->0;
    &&& p.name@ == (match args.name {
        Some(name) => name@,
        None => env_profile_name(role, scope),
    })
    &&& p.role@ == role
    &&& p.scope@ == scope
    &&& p.provider is Mattermost
    &&& p.bot_username@.len() == 0
    &&& p.team_name@ == (match args.team_name {
        Some(t) => t@,
        None => team_of(opt_text(env.team), scope),
    })
    &&& p.server_url@ == opt_text(env.server_url)->0
    &&& p.env_name@ == args.env_name@
    &&& p.env_file == args.env_file
    &&& p.credential_mode == mode_of(args.credential_mode)
    &&& p.capability_class == class_of(args.capability_class)
    &&& p.monitored_channels@.len() == 0
    &&& p.ipc is None
    &&& p.reduce is None
}

/// The profile that arguments and the environment describe, before the provider
/// has named its bot.
pub fn profile_from_env_args(args: &ProfileCreateFromEnvArgs, env: SetupEnv) -> (r: Result<
    Profile,
    CliError,
>)
    ensures
        match r {
            Ok(p) => missing_variable(env) is None && described_by_args(*args, env, p) && !(
            p.credential_mode is EnvFile && p.env_file is None),
            Err(e) => match missing_variable(env) {
                Some(name) => bootstrap_error(e) == Some(
                    "missing required environment variable "@ + name,
                ),
                None => args.credential_mode is EnvFile && args.env_file is None && e
                    == CliError::Core(CoreError::MissingEnvFile),
            },
        },
{
    let role = match required_env("LANYTE_AGENT_ROLE", env.role) {
        Ok(v) => v,
        Err(e) => {
            return Err(e);
        },
    };
    let scope = match required_env("LANYTE_AGENT_SCOPE", env.scope) {
        Ok(v) => v,
        Err(e) => {
            return Err(e);
        },
    };
    let server_url = match required_env("LANYTE_MM_URL", env.server_url) {
        Ok(v) => v,
        Err(e) => {
            return Err(e);
        },
    };
    let name = match &args.name {
        Some(name) => name.clone(),
        None => concat3(role.as_str(), "-", scope.as_str()),
    };
    proof {
        given_is_not_empty(scope@);
    }
    let team_name = match &args.team_name {
        Some(t) => t.clone(),
        None => derive_team_name(scope.as_str(), env.team),
    };
    let profile = Profile {
        name,
        role,
        scope,
        provider: Provider::Mattermost,
        bot_username: String::new(),
        team_name,
        server_url,
        env_name: args.env_name.clone(),
        env_file: args.env_file.clone(),
        credential_mode: to_mode(args.credential_mode),
        capability_class: to_class(args.capability_class),
        monitored_channels: Vec::new(),
        ipc: None,
        reduce: None,
    };
    match validate_profile_create_args(&profile) {
        Ok(_) => Ok(profile),
        Err(e) => Err(e),
    }
}

/// The profile with the name of the bot that the provider gave.
pub fn finalize_profile(profile: Profile, identity: &Identity) -> (r: Profile)
    ensures
        r == (Profile { bot_username: identity.username, ..profile }),
{
    let mut p = profile;
    p.bot_username = identity.username.clone();
    p
}

// ---------------------------------------------------------------------------
// Differences
// ---------------------------------------------------------------------------

/// A field in which two profiles differ.
#[derive(Debug, Clone, PartialEq, Eq)]
pub struct ProfileFieldDiff {
    pub field: String,
    pub from: String,
    pub to: String,
}

/// A difference as a value.
#[verifier::ext_equal]
pub struct FieldDiff {
    pub field: Seq<char>,
    pub from: Seq<char>,
    pub to: Seq<char>,
}

impl ProfileFieldDiff {
    pub open spec fn view(&self) -> FieldDiff {
        FieldDiff { field: self.field@, from: self.from@, to: self.to@ }
    }
}

pub open spec fn diff_views(d: Seq<ProfileFieldDiff>) -> Seq<FieldDiff> {
    d.map_values(|x: ProfileFieldDiff| x@)
}

/// The difference in one field, if there is one.
pub open spec fn diff_in(field: Seq<char>, from: Seq<char>, to: Seq<char>) -> Seq<FieldDiff> {
    if from == to {
        Seq::empty()
    } else {
        seq![FieldDiff { field, from, to }]
    }
}

/// What a profile is: who it is, and where.
pub open spec fn identity_diff(from: Profile, to: Profile) -> Seq<FieldDiff> {
    diff_in("role"@, from.role@, to.role@) + diff_in("scope"@, from.scope@, to.scope@) + diff_in(
        "server_url"@,
        from.server_url@,
        to.server_url@,
    ) + diff_in("team_name"@, from.team_name@, to.team_name@)
}

pub open spec fn mode_label(mode: CredentialMode) -> Seq<char> {
    match mode {
        CredentialMode::EnvName => "EnvName"@,
        CredentialMode::EnvFile => "EnvFile"@,
        CredentialMode::SeclusorRun => "SeclusorRun"@,
    }
}

pub open spec fn class_label(class: CapabilityClass) -> Seq<char> {
    match class {
        CapabilityClass::Standard => "Standard"@,
        CapabilityClass::Elevated => "Elevated"@,
    }
}

fn show_mode(mode: CredentialMode) -> (r: &'static str)
    ensures
        r@ == mode_label(mode),
{
    match mode {
        CredentialMode::EnvName => "EnvName",
        CredentialMode::EnvFile => "EnvFile",
        CredentialMode::SeclusorRun => "SeclusorRun",
    }
}

fn show_class(class: CapabilityClass) -> (r: &'static str)
    ensures
        r@ == class_label(class),
{
    match class {
        CapabilityClass::Standard => "Standard",
        CapabilityClass::Elevated => "Elevated",
    }
}

/// The reduction as it is shown.
pub open spec fn reduce_label(p: Profile) -> Seq<char> {
    match reduce_target(p) {
        Some(name) => name,
        None => "(none)"@,
    }
}

/// What a refresh changes. A profile that says nothing of reduction leaves it as it
/// is.
pub open spec fn refreshable_diff(from: Profile, to: Profile) -> Seq<FieldDiff> {
    diff_in("env_name"@, from.env_name@, to.env_name@) + diff_in(
        "credential_mode"@,
        mode_label(from.credential_mode),
        mode_label(to.credential_mode),
    ) + diff_in(
        "capability_class"@,
        class_label(from.capability_class),
        class_label(to.capability_class),
    ) + (if reduce_target(to) is Some {
        diff_in("reduce.use_profile"@, reduce_label(from), reduce_label(to))
    } else {
        Seq::empty()
    })
}

pub fn push_if_diff(diff: &mut Vec<ProfileFieldDiff>, field: &str, from: &str, to: &str)
    ensures
        diff_views(final(diff)@) == diff_views(old(diff)@) + diff_in(field@, from@, to@),
{
    let ghost before = diff@;
    if !str_eq(from, to) {
        diff.push(
            ProfileFieldDiff {
                field: field.to_owned(),
                from: from.to_owned(),
                to: to.to_owned(),
            },
        );
    }
    proof {
        assert(diff_views(diff@) =~= diff_views(before) + diff_in(field@, from@, to@));
    }
}

/// The differences in who the profile is and where.
pub fn identity_surface_diff(from: &Profile, to: &Profile) -> (r: Vec<ProfileFieldDiff>)
    ensures
        diff_views(r@) == identity_diff(*from, *to),
{
    let mut diff: Vec<ProfileFieldDiff> = Vec::new();
    proof {
        assert(diff_views(diff@) =~= Seq::empty());
    }
    push_if_diff(&mut diff, "role", from.role.as_str(), to.role.as_str());
    push_if_diff(&mut diff, "scope", from.scope.as_str(), to.scope.as_str());
    push_if_diff(&mut diff, "server_url", from.server_url.as_str(), to.server_url.as_str());
    push_if_diff(&mut diff, "team_name", from.team_name.as_str(), to.team_name.as_str());
    proof {
        assert(diff_views(diff@) =~= identity_diff(*from, *to));
    }
    diff
}

fn show_reduce(p: &Profile) -> (r: String)
    ensures
        r@ == reduce_label(*p),
{
    match &p.reduce {
        Some(policy) => policy.use_profile.clone(),
        None => "(none)".to_owned(),
    }
}

/// The differences that a refresh takes over.
pub fn refreshable_profile_diff(from: &Profile, to: &Profile) -> (r: Vec<ProfileFieldDiff>)
    ensures
        diff_views(r@) == refreshable_diff(*from, *to),
{
    let mut diff: Vec<ProfileFieldDiff> = Vec::new();
    proof {
        assert(diff_views(diff@) =~= Seq::empty());
    }
    push_if_diff(&mut diff, "env_name", from.env_name.as_str(), to.env_name.as_str());
    push_if_diff(
        &mut diff,
        "credential_mode",
        show_mode(from.credential_mode),
        show_mode(to.credential_mode),
    );
    push_if_diff(
        &mut diff,
        "capability_class",
        show_class(from.capability_class),
        show_class(to.capability_class),
    );
    if to.reduce.is_some() {
        push_if_diff(
            &mut diff,
            "reduce.use_profile",
            show_reduce(from).as_str(),
            show_reduce(to).as_str(),
        );
    }
    proof {
        assert(diff_views(diff@) =~= refreshable_diff(*from, *to));
    }
    diff
}

/// What has to be done with a profile.
#[derive(Debug, PartialEq, Eq)]
pub enum ProfileAction {
    Create,
    Refresh(Vec<ProfileFieldDiff>),
    Reuse,
    IdentityDrift(Vec<ProfileFieldDiff>),
}

/// `a` is what has to be done: a profile that is there is never taken for another
/// identity.
pub open spec fn action_for(desired: Profile, existing: Option<Profile>, a: ProfileAction) -> bool {
    match existing {
        None => a is Create,
        Some(e) => {
            let drift = identity_diff(e, desired);
            let refresh = refreshable_diff(e, desired);
            if drift.len() > 0 {
                a matches ProfileAction::IdentityDrift(d) && diff_views(d@) == drift
            } else if refresh.len() > 0 {
                a matches ProfileAction::Refresh(d) && diff_views(d@) == refresh
            } else {
                a is Reuse
            }
        },
    }
}

pub fn decide_profile_action(desired: &Profile, existing: Option<&Profile>) -> (r: ProfileAction)
    ensures
        action_for(*desired, opt_deref(existing), r),
{
    match existing {
        None => ProfileAction::Create,
        Some(e) => {
            let drift = identity_surface_diff(e, desired);
            if drift.len() > 0 {
                proof {
                    assert(diff_views(drift@).len() == drift@.len());
                }
                return ProfileAction::IdentityDrift(drift);
            }
            proof {
                assert(diff_views(drift@).len() == 0);
            }
            let refresh = refreshable_profile_diff(e, desired);
            proof {
                assert(diff_views(refresh@).len() == refresh@.len());
            }
            if refresh.len() == 0 {
                ProfileAction::Reuse
            } else {
                ProfileAction::Refresh(refresh)
            }
        },
    }
}

/// A profile is refreshed or used as it is only under the same identity.
pub proof fn same_identity_unless_refused(desired: Profile, existing: Profile, a: ProfileAction)
    requires
        action_for(desired, Some(existing), a),
    ensures
        (a is Refresh || a is Reuse) <==> existing.role@ == desired.role@ && existing.scope@
            == desired.scope@ && existing.server_url@ == desired.server_url@
            && existing.team_name@ == desired.team_name@,
        !(a is Create),
{
    let a1 = diff_in("role"@, existing.role@, desired.role@);
    let a2 = diff_in("scope"@, existing.scope@, desired.scope@);
    let a3 = diff_in("server_url"@, existing.server_url@, desired.server_url@);
    let a4 = diff_in("team_name"@, existing.team_name@, desired.team_name@);
    assert(identity_diff(existing, desired).len() == a1.len() + a2.len() + a3.len() + a4.len());
}

/// A profile that is set up again unchanged is used as it is.
pub proof fn unchanged_profile_is_reused(p: Profile, a: ProfileAction)
    requires
        action_for(p, Some(p), a),
    ensures
        a is Reuse,
{
    assert(identity_diff(p, p) =~= Seq::empty());
    assert(refreshable_diff(p, p) =~= Seq::empty());
}

/// The profile that a refresh stores: what the environment owns is new, what the
/// user set beside it stays.
pub open spec fn merged(desired: Profile, existing: Profile, r: Profile) -> bool {
    &&& r.name == desired.name
    &&& r.role == desired.role
    &&& r.scope == desired.scope
    &&& r.provider == desired.provider
    &&& r.bot_username == desired.bot_username
    &&& r.team_name == desired.team_name
    &&& r.server_url == desired.server_url
    &&& r.env_name == desired.env_name
    &&& r.credential_mode == desired.credential_mode
    &&& r.capability_class == desired.capability_class
    &&& r.monitored_channels@ == existing.monitored_channels@
    &&& r.ipc == existing.ipc
    &&& r.env_file == (match desired.env_file {
        Some(f) => Some(f),
        None => existing.env_file,
    })
    &&& r.reduce == (match desired.reduce {
        Some(p) => Some(p),
        None => existing.reduce,
    })
}

pub fn merge_forward_for_refresh(desired: Profile, existing: &Profile) -> (r: Profile)
    ensures
        merged(desired, *existing, r),
{
    let mut p = desired;
    p.monitored_channels = copy_strings(existing.monitored_channels.as_slice());
    p.ipc = existing.ipc.clone();
    if p.env_file.is_none() {
        p.env_file = existing.env_file.clone();
    }
    if p.reduce.is_none() {
        p.reduce = existing.reduce.clone();
    }
    p
}

/// A refresh settles: the same environment then finds nothing to change.
pub proof fn refresh_settles(desired: Profile, existing: Profile, stored: Profile, a: ProfileAction)
    requires
        merged(desired, existing, stored),
        action_for(desired, Some(stored), a),
    ensures
        a is Reuse,
{
    assert(identity_diff(stored, desired) =~= Seq::empty());
    assert(refreshable_diff(stored, desired) =~= Seq::empty());
}

// ---------------------------------------------------------------------------
// The course of a setup
// ---------------------------------------------------------------------------

/// What became of the profile.
#[derive(Debug, Clone, Copy, PartialEq, Eq, Structural)]
pub enum ProfileState {
    Created,
    Refreshed,
    Reused,
}

/// What became of the daemon.
#[derive(Debug, Clone, Copy, PartialEq, Eq, Structural)]
pub enum DaemonState {
    AlreadyRunning,
    Started,
}

/// What has to be done once the provider accepted the profile.
#[derive(Debug, PartialEq, Eq)]
pub struct SetupStep {
    pub state: ProfileState,
    /// Store the profile.
    pub store: bool,
    /// Stop a running daemon, which holds the old profile and token.
    pub stop_daemon: bool,
    pub diff: Vec<ProfileFieldDiff>,
}

/// The same profile.
pub open spec fn same_profile(a: Profile, b: Profile) -> bool {
    &&& a.monitored_channels@ == b.monitored_channels@
    &&& a == (Profile { monitored_channels: a.monitored_channels, ..b })
}

/// A copy of a profile.
pub fn copy_profile(p: &Profile) -> (r: Profile)
    ensures
        same_profile(r, *p),
{
    Profile {
        name: p.name.clone(),
        role: p.role.clone(),
        scope: p.scope.clone(),
        provider: p.provider,
        bot_username: p.bot_username.clone(),
        team_name: p.team_name.clone(),
        server_url: p.server_url.clone(),
        env_name: p.env_name.clone(),
        env_file: p.env_file.clone(),
        credential_mode: p.credential_mode,
        capability_class: p.capability_class,
        monitored_channels: copy_strings(p.monitored_channels.as_slice()),
        ipc: p.ipc.clone(),
        reduce: p.reduce.clone(),
    }
}

/// The profile that the provider is asked about: on every path that goes on there
/// is one, so that success is never reported for a token that was not tried.
pub fn profile_to_validate(
    action: &ProfileAction,
    desired: Profile,
    existing: Option<&Profile>,
) -> (r: Option<Profile>)
    requires
        action is Refresh || action is Reuse ==> existing is Some,
    ensures
        match action {
            ProfileAction::Create => r == Some(desired),
            ProfileAction::Refresh(_) => r matches Some(p) && merged(desired, *existing->0, p),
            ProfileAction::Reuse => r matches Some(p) && same_profile(p, *existing->0),
            ProfileAction::IdentityDrift(_) => r is None,
        },
{
    match (action, existing) {
        (ProfileAction::Create, _) => Some(desired),
        (ProfileAction::Refresh(_), Some(e)) => Some(merge_forward_for_refresh(desired, e)),
        (ProfileAction::Reuse, Some(e)) => Some(copy_profile(e)),
        _ => None,
    }
}

/// `s` is what has to be done with a profile that the provider accepted. A profile
/// that is used as it is, but whose token now belongs to another bot, is refreshed
/// after all.
pub open spec fn settled(
    action: ProfileAction,
    existing: Option<Profile>,
    validated: Profile,
    s: SetupStep,
) -> bool {
    match action {
        ProfileAction::Create => s.state is Created && s.store && !s.stop_daemon
            && s.diff@.len() == 0,
        ProfileAction::Refresh(d) => s.state is Refreshed && s.store && s.stop_daemon && s.diff@
            == d@,
        ProfileAction::Reuse => {
            let old_bot = existing->0.bot_username@;
            if validated.bot_username@ != old_bot {
                s.state is Refreshed && s.store && s.stop_daemon && diff_views(s.diff@) == seq![
                    FieldDiff {
                        field: "bot_username"@,
                        from: old_bot,
                        to: validated.bot_username@,
                    },
                ]
            } else {
                s.state is Reused && !s.store && !s.stop_daemon && s.diff@.len() == 0
            }
        },
        ProfileAction::IdentityDrift(_) => false,
    }
}

/// What has to be done with a profile that the provider accepted.
pub fn settle(action: ProfileAction, existing: Option<&Profile>, validated: &Profile) -> (r:
    SetupStep)
    requires
        !(action is IdentityDrift),
        action is Reuse ==> existing is Some,
    ensures
        settled(action, opt_deref(existing), *validated, r),
{
    match action {
        ProfileAction::Refresh(diff) => SetupStep {
            state: ProfileState::Refreshed,
            store: true,
            stop_daemon: true,
            diff,
        },
        ProfileAction::Reuse => {
            let mut diff: Vec<ProfileFieldDiff> = Vec::new();
            let mut changed = false;
            match existing {
                Some(e) => {
                    proof {
                        assert(diff_views(diff@) =~= Seq::empty());
                    }
                    push_if_diff(
                        &mut diff,
                        "bot_username",
                        e.bot_username.as_str(),
                        validated.bot_username.as_str(),
                    );
                    changed = !str_eq(
                        e.bot_username.as_str(),
                        validated.bot_username.as_str(),
                    );
                    proof {
                        assert(diff_views(diff@).len() == diff@.len());
                        if changed {
                            assert(diff_views(diff@) =~= seq![
                                FieldDiff {
                                    field: "bot_username"@,
                                    from: e.bot_username@,
                                    to: validated.bot_username@,
                                },
                            ]);
                        }
                    }
                },
                None => {},
            }
            SetupStep {
                state: if changed {
                    ProfileState::Refreshed
                } else {
                    ProfileState::Reused
                },
                store: changed,
                stop_daemon: changed,
                diff,
            }
        },
        _ => SetupStep {
            state: ProfileState::Created,
            store: true,
            stop_daemon: false,
            diff: Vec::new(),
        },
    }
}

/// Whether the profile is the active one in the end. Unless it was asked not to be,
/// it is made so.
pub fn is_active_after(no_activate: bool, marker: Option<&str>, name: &str) -> (r: bool)
    ensures
        r == (!no_activate || opt_view(marker) == Some(name@)),
{
    if !no_activate {
        return true;
    }
    match marker {
        Some(active) => str_eq(active, name),
        None => false,
    }
}

/// Whether a stored profile is made the active one: where it was asked to be, and
/// where there is none.
pub fn should_activate(activate_requested: bool, marker: Option<&str>) -> (r: bool)
    ensures
        r == (activate_requested || marker is None),
{
    activate_requested || marker.is_none()
}

// ---------------------------------------------------------------------------
// Failures
// ---------------------------------------------------------------------------

/// Why a setup did not succeed.
pub enum SetupFailure {
    EnvInput(CliError),
    Preflight(CliError),
    RefreshStop(CliError),
    DaemonStart(CliError),
    DaemonUnreachable,
}

/// How a failure is reported.
pub struct FailureReport {
    pub code: &'static str,
    pub message: String,
    pub exit_code: i32,
}

/// The class of an answer of the provider.
pub open spec fn preflight_code(e: CliError) -> Seq<char> {
    match e {
        CliError::Core(CoreError::Api { status, .. }) => if status == 401 {
            "token_invalid"@
        } else if status == 403 {
            "bot_not_in_team"@
        } else if status == 404 {
            "team_missing"@
        } else {
            "preflight_failed"@
        },
        _ => "preflight_failed"@,
    }
}

/// What is said of an answer of the provider.
pub open spec fn preflight_message(e: CliError) -> Seq<char> {
    match e {
        CliError::Core(CoreError::Api { status, message }) => shown_status(status) + ": "@
            + message@,
        _ => cli_error_text(e),
    }
}

pub fn classify_preflight_error(err: &CliError) -> (r: (&'static str, String))
    ensures
        r.0@ == preflight_code(*err),
        r.1@ == preflight_message(*err),
{
    match err {
        CliError::Core(CoreError::Api { status, message }) => {
            let code = if *status == 401 {
                "token_invalid"
            } else if *status == 403 {
                "bot_not_in_team"
            } else if *status == 404 {
                "team_missing"
            } else {
                "preflight_failed"
            };
            (code, concat3(show_status(*status).as_str(), ": ", message.as_str()))
        },
        _ => ("preflight_failed", err.message()),
    }
}

pub open spec fn failure_code(f: SetupFailure) -> Seq<char> {
    match f {
        SetupFailure::EnvInput(_) => "env_input"@,
        SetupFailure::Preflight(e) => preflight_code(e),
        SetupFailure::RefreshStop(_) => "daemon_refresh_stop"@,
        SetupFailure::DaemonStart(_) => "daemon_start"@,
        SetupFailure::DaemonUnreachable => "daemon_unreachable"@,
    }
}

pub open spec fn failure_message(f: SetupFailure) -> Seq<char> {
    match f {
        SetupFailure::EnvInput(e) => cli_error_text(e),
        SetupFailure::Preflight(e) => preflight_message(e),
        SetupFailure::RefreshStop(e) => cli_error_text(e),
        SetupFailure::DaemonStart(e) => cli_error_text(e),
        SetupFailure::DaemonUnreachable =>
            "daemon socket unavailable during seed_cursors RPC \u{2014} daemon exited after the health check"@,
    }
}

pub open spec fn failure_exit(f: SetupFailure) -> int {
    match f {
        SetupFailure::EnvInput(_) => EXIT_ENV_INPUT as int,
        SetupFailure::Preflight(_) => EXIT_PREFLIGHT_FAILED as int,
        SetupFailure::RefreshStop(_) => EXIT_DAEMON_FAILED as int,
        SetupFailure::DaemonStart(_) => EXIT_DAEMON_FAILED as int,
        SetupFailure::DaemonUnreachable => EXIT_DAEMON_FAILED as int,
    }
}

/// How a failure is reported.
pub fn report_failure(failure: &SetupFailure) -> (r: FailureReport)
    ensures
        r.code@ == failure_code(*failure),
        r.message@ == failure_message(*failure),
        r.exit_code == failure_exit(*failure),
{
    match failure {
        SetupFailure::EnvInput(e) => FailureReport {
            code: "env_input",
            message: e.message(),
            exit_code: EXIT_ENV_INPUT,
        },
        SetupFailure::Preflight(e) => {
            let (code, message) = classify_preflight_error(e);
            FailureReport { code, message, exit_code: EXIT_PREFLIGHT_FAILED }
        },
        SetupFailure::RefreshStop(e) => FailureReport {
            code: "daemon_refresh_stop",
            message: e.message(),
            exit_code: EXIT_DAEMON_FAILED,
        },
        SetupFailure::DaemonStart(e) => FailureReport {
            code: "daemon_start",
            message: e.message(),
            exit_code: EXIT_DAEMON_FAILED,
        },
        SetupFailure::DaemonUnreachable => FailureReport {
            code: "daemon_unreachable",
            message:
                "daemon socket unavailable during seed_cursors RPC \u{2014} daemon exited after the health check".to_owned(),
            exit_code: EXIT_DAEMON_FAILED,
        },
    }
}

/// A failure never exits as a success, nor as a setup that is merely degraded.
pub proof fn failures_are_told_apart(f: SetupFailure)
    ensures
        failure_exit(f) != 0,
        failure_exit(f) != EXIT_SOFT_DEGRADED,
        failure_exit(f) != EXIT_IDENTITY_DRIFT,
        f is EnvInput <==> failure_exit(f) == EXIT_ENV_INPUT,
        f is Preflight <==> failure_exit(f) == EXIT_PREFLIGHT_FAILED,
{
}

/// How a refused identity is reported: the fields that differ, and what to do.
pub open spec fn drift_lines(diff: Seq<FieldDiff>) -> Seq<Seq<char>> {
    seq!["identity_drift: persisted profile identity does not match env-derived identity"@]
        + diff.map_values(
        |d: FieldDiff| "  * "@ + d.field + ": persisted="@ + d.from + " env="@ + d.to,
    ) + seq![
        "recovery: resolve the mismatch (correct the env, or rename/remove the persisted profile), then re-run auto-setup"@,
    ]
}

pub fn identity_drift_text(diff: &Vec<ProfileFieldDiff>) -> (r: String)
    ensures
        r@ == joined(drift_lines(diff_views(diff@)), "\n"@),
{
    let mut lines: Vec<String> = Vec::new();
    lines.push(
        "identity_drift: persisted profile identity does not match env-derived identity".to_owned(),
    );
    let ghost head = seq![
        "identity_drift: persisted profile identity does not match env-derived identity"@,
    ];
    let ghost shown = diff_views(diff@).map_values(
        |d: FieldDiff| "  * "@ + d.field + ": persisted="@ + d.from + " env="@ + d.to,
    );
    let mut i: usize = 0;
    proof {
        assert(texts(lines@) =~= head + shown.take(0));
    }
    while i < diff.len()
        invariant
            i <= diff@.len(),
            shown == diff_views(diff@).map_values(
                |d: FieldDiff| "  * "@ + d.field + ": persisted="@ + d.from + " env="@ + d.to,
            ),
            texts(lines@) == head + shown.take(i as int),
        decreases diff.len() - i,
    {
        let ghost before = lines@;
        let mut m = "  * ".to_owned();
        m.append(diff[i].field.as_str());
        m.append(": persisted=");
        m.append(diff[i].from.as_str());
        m.append(" env=");
        m.append(diff[i].to.as_str());
        lines.push(m);
        i += 1;
        proof {
            assert(texts(lines@) =~= texts(before).push(m@));
            assert(shown[i - 1] == m@);
            assert(texts(lines@) =~= head + shown.take(i as int));
        }
    }
    let ghost before = lines@;
    lines.push(
        "recovery: resolve the mismatch (correct the env, or rename/remove the persisted profile), then re-run auto-setup".to_owned(),
    );
    proof {
        assert(shown.take(i as int) =~= shown);
        assert(texts(lines@) =~= drift_lines(diff_views(diff@)));
    }
    join(&lines, "\n")
}

// ---------------------------------------------------------------------------
// The report
// ---------------------------------------------------------------------------

/// What seeding did with one channel.
#[derive(Debug, Clone, PartialEq, Eq)]
pub enum SeedOutcome {
    Seeded { channel: String, post_id: String },
    UnseededEmptyChannel { channel: String },
    Failed { channel: String, reason: String },
}

/// The outcome as the report has it.
pub open spec fn reported(o: SeededChannelOutcome, r: SeedOutcome) -> bool {
    match o {
        SeededChannelOutcome::Seeded { channel, post_id } => r == (SeedOutcome::Seeded {
            channel,
            post_id,
        }),
        SeededChannelOutcome::UnseededEmptyChannel { channel } => r == (
        SeedOutcome::UnseededEmptyChannel { channel }),
        SeededChannelOutcome::Failed { channel, reason } => r == (SeedOutcome::Failed {
            channel,
            reason,
        }),
    }
}

fn report_outcome(o: SeededChannelOutcome) -> (r: SeedOutcome)
    ensures
        reported(o, r),
{
    match o {
        SeededChannelOutcome::Seeded { channel, post_id } => SeedOutcome::Seeded {
            channel,
            post_id,
        },
        SeededChannelOutcome::UnseededEmptyChannel { channel } =>
            SeedOutcome::UnseededEmptyChannel { channel },
        SeededChannelOutcome::Failed { channel, reason } => SeedOutcome::Failed {
            channel,
            reason,
        },
    }
}

/// The outcomes that a report has for the answer of a daemon that runs.
pub open spec fn seeds_reported(
    answer: Result<Vec<SeededChannelOutcome>, DaemonFailure>,
    reports: Seq<SeedOutcome>,
) -> bool {
    match answer {
        Ok(outcomes) => reports.len() == outcomes@.len() && forall|i: int|
            0 <= i < reports.len() ==> reported(outcomes@[i], #[trigger] reports[i]),
        Err(e) => reports.len() == 1 && (reports[0] matches SeedOutcome::Failed { channel, reason }
            && channel@ == "<membership-enumeration>"@ && reason@ == daemon_failure_text(e)),
    }
}

/// What the answer of the daemon to seeding means. A daemon that is gone is a
/// failure of the setup; any other error is reported as one failed seed.
pub fn seed_report(answer: Result<Vec<SeededChannelOutcome>, DaemonFailure>) -> (r: Result<
    Vec<SeedOutcome>,
    SetupFailure,
>)
    ensures
        match answer {
            Err(DaemonFailure::NotRunning(_)) => r matches Err(f) && f is DaemonUnreachable,
            _ => r matches Ok(reports) && seeds_reported(answer, reports@),
        },
{
    match answer {
        Ok(outcomes) => {
            let ghost all = outcomes@;
            let mut rest = outcomes;
            let mut reports: Vec<SeedOutcome> = Vec::new();
            let n: usize = rest.len();
            let mut i: usize = 0;
            while i < n
                invariant
                    i <= n,
                    n == all.len(),
                    rest@ == all.skip(i as int),
                    reports@.len() == i,
                    forall|j: int| 0 <= j < i ==> reported(all[j], #[trigger] reports@[j]),
                decreases n - i,
            {
                let o = rest.remove(0);
                proof {
                    assert(o == all[i as int]);
                    assert(rest@ =~= all.skip(i + 1));
                }
                reports.push(report_outcome(o));
                i += 1;
            }
            Ok(reports)
        },
        Err(DaemonFailure::NotRunning(_)) => Err(SetupFailure::DaemonUnreachable),
        Err(e) => {
            let mut reports: Vec<SeedOutcome> = Vec::new();
            reports.push(
                SeedOutcome::Failed {
                    channel: "<membership-enumeration>".to_owned(),
                    reason: e.message(),
                },
            );
            Ok(reports)
        },
    }
}

/// What a setup reports.
#[derive(Debug, PartialEq, Eq)]
pub struct AutoSetupReport {
    pub profile_name: String,
    pub bot_username: String,
    pub profile_state: ProfileState,
    pub daemon_state: DaemonState,
    pub is_active: bool,
    pub degraded: bool,
    pub refresh_diff: Vec<ProfileFieldDiff>,
    pub seed_outcomes: Vec<SeedOutcome>,
}

/// A seed failed.
pub open spec fn any_failed(outcomes: Seq<SeedOutcome>) -> bool {
    exists|i: int| 0 <= i < outcomes.len() && #[trigger] outcomes[i] is Failed
}

/// The report of a setup.
pub fn setup_report(
    profile: &Profile,
    step: SetupStep,
    daemon_state: DaemonState,
    is_active: bool,
    seed_outcomes: Vec<SeedOutcome>,
) -> (r: AutoSetupReport)
    ensures
        r.profile_name == profile.name,
        r.bot_username == profile.bot_username,
        r.profile_state == step.state,
        r.daemon_state == daemon_state,
        r.is_active == is_active,
        r.refresh_diff == step.diff,
        r.seed_outcomes == seed_outcomes,
        r.degraded == any_failed(seed_outcomes@),
{
    let mut degraded = false;
    let mut i: usize = 0;
    while i < seed_outcomes.len()
        invariant
            i <= seed_outcomes@.len(),
            degraded == exists|j: int| 0 <= j < i && #[trigger] seed_outcomes@[j] is Failed,
        decreases seed_outcomes.len() - i,
    {
        match &seed_outcomes[i] {
            SeedOutcome::Failed { .. } => {
                degraded = true;
                proof {
                    assert(seed_outcomes@[i as int] is Failed);
                }
            },
            _ => {},
        }
        i += 1;
    }
    AutoSetupReport {
        profile_name: profile.name.clone(),
        bot_username: profile.bot_username.clone(),
        profile_state: step.state,
        daemon_state,
        is_active,
        degraded,
        refresh_diff: step.diff,
        seed_outcomes,
    }
}

/// The exit code of a setup that succeeded.
pub fn setup_exit_code(report: &AutoSetupReport) -> (r: i32)
    ensures
        r == (if report.degraded {
            EXIT_SOFT_DEGRADED
        } else {
            0
        }),
{
    if report.degraded {
        EXIT_SOFT_DEGRADED
    } else {
        0
    }
}

pub open spec fn outcome_line(o: SeedOutcome) -> Seq<char> {
    match o {
        SeedOutcome::Seeded { channel, post_id } => "  seeded: "@ + channel@ + " -> "@ + post_id@,
        SeedOutcome::UnseededEmptyChannel { channel } => "  unseeded: "@ + channel@
            + " (empty channel)"@,
        SeedOutcome::Failed { channel, reason } => "  seed_failed: "@ + channel@ + " ("@ + reason@
            + ")"@,
    }
}

fn show_outcome(o: &SeedOutcome) -> (r: String)
    ensures
        r@ == outcome_line(*o),
{
    match o {
        SeedOutcome::Seeded { channel, post_id } => {
            let mut m = "  seeded: ".to_owned();
            m.append(channel.as_str());
            m.append(" -> ");
            m.append(post_id.as_str());
            m
        },
        SeedOutcome::UnseededEmptyChannel { channel } => concat3(
            "  unseeded: ",
            channel.as_str(),
            " (empty channel)",
        ),
        SeedOutcome::Failed { channel, reason } => {
            let mut m = "  seed_failed: ".to_owned();
            m.append(channel.as_str());
            m.append(" (");
            m.append(reason.as_str());
            m.append(")");
            m
        },
    }
}

pub open spec fn state_word(state: ProfileState) -> Seq<char> {
    match state {
        ProfileState::Created => " created"@,
        ProfileState::Refreshed => " refreshed"@,
        ProfileState::Reused => " reused"@,
    }
}

pub open spec fn daemon_line(state: DaemonState) -> Seq<char> {
    match state {
        DaemonState::AlreadyRunning => "daemon already running"@,
        DaemonState::Started => "daemon started"@,
    }
}

pub open spec fn refresh_line(d: FieldDiff) -> Seq<char> {
    "  refresh "@ + d.field + ": "@ + d.from + " -> "@ + d.to
}

/// The lines of a report: the state of profile and daemon, then the details.
pub open spec fn report_lines(r: AutoSetupReport) -> Seq<Seq<char>> {
    seq![
        "profile "@ + r.profile_name@ + state_word(r.profile_state),
        daemon_line(r.daemon_state),
        "bot_username: "@ + r.bot_username@,
    ] + (if r.is_active {
        seq!["active: "@ + r.profile_name@]
    } else {
        Seq::empty()
    }) + (if r.degraded {
        seq!["status: degraded (see seed outcomes below)"@]
    } else {
        Seq::empty()
    }) + diff_views(r.refresh_diff@).map_values(|d: FieldDiff| refresh_line(d))
        + r.seed_outcomes@.map_values(|o: SeedOutcome| outcome_line(o))
}

fn push_refresh_lines(lines: &mut Vec<String>, diff: &Vec<ProfileFieldDiff>)
    ensures
        texts(final(lines)@) == texts(old(lines)@) + diff_views(diff@).map_values(
            |d: FieldDiff| refresh_line(d),
        ),
{
    let ghost start = texts(lines@);
    let ghost shown = diff_views(diff@).map_values(|d: FieldDiff| refresh_line(d));
    let mut i: usize = 0;
    proof {
        assert(texts(lines@) =~= start + shown.take(0));
    }
    while i < diff.len()
        invariant
            i <= diff@.len(),
            shown == diff_views(diff@).map_values(|d: FieldDiff| refresh_line(d)),
            texts(lines@) == start + shown.take(i as int),
        decreases diff.len() - i,
    {
        let ghost before = lines@;
        let mut m = "  refresh ".to_owned();
        m.append(diff[i].field.as_str());
        m.append(": ");
        m.append(diff[i].from.as_str());
        m.append(" -> ");
        m.append(diff[i].to.as_str());
        lines.push(m);
        i += 1;
        proof {
            assert(texts(lines@) =~= texts(before).push(m@));
            assert(shown[i - 1] == m@);
            assert(texts(lines@) =~= start + shown.take(i as int));
        }
    }
    proof {
        assert(shown.take(i as int) =~= shown);
    }
}

fn push_outcome_lines(lines: &mut Vec<String>, outcomes: &Vec<SeedOutcome>)
    ensures
        texts(final(lines)@) == texts(old(lines)@) + outcomes@.map_values(
            |o: SeedOutcome| outcome_line(o),
        ),
{
    let ghost start = texts(lines@);
    let ghost shown = outcomes@.map_values(|o: SeedOutcome| outcome_line(o));
    let mut i: usize = 0;
    proof {
        assert(texts(lines@) =~= start + shown.take(0));
    }
    while i < outcomes.len()
        invariant
            i <= outcomes@.len(),
            shown == outcomes@.map_values(|o: SeedOutcome| outcome_line(o)),
            texts(lines@) == start + shown.take(i as int),
        decreases outcomes.len() - i,
    {
        let ghost before = lines@;
        let m = show_outcome(&outcomes[i]);
        let ghost t = m@;
        lines.push(m);
        i += 1;
        proof {
            assert(texts(lines@) =~= texts(before).push(t));
            assert(shown[i - 1] == t);
            assert(texts(lines@) =~= start + shown.take(i as int));
        }
    }
    proof {
        assert(shown.take(i as int) =~= shown);
    }
}

/// The text of a report.
pub fn auto_setup_report_text(report: &AutoSetupReport) -> (r: String)
    ensures
        r@ == joined(report_lines(*report), "\n"@),
{
    let mut lines: Vec<String> = Vec::new();
    let state = match report.profile_state {
        ProfileState::Created => " created",
        ProfileState::Refreshed => " refreshed",
        ProfileState::Reused => " reused",
    };
    lines.push(concat3("profile ", report.profile_name.as_str(), state));
    lines.push(
        match report.daemon_state {
            DaemonState::AlreadyRunning => "daemon already running".to_owned(),
            DaemonState::Started => "daemon started".to_owned(),
        },
    );
    lines.push(concat2("bot_username: ", report.bot_username.as_str()));
    if report.is_active {
        lines.push(concat2("active: ", report.profile_name.as_str()));
    }
    if report.degraded {
        lines.push("status: degraded (see seed outcomes below)".to_owned());
    }
    let ghost head = texts(lines@);
    push_refresh_lines(&mut lines, &report.refresh_diff);
    push_outcome_lines(&mut lines, &report.seed_outcomes);
    proof {
        assert(texts(lines@) =~= report_lines(*report));
    }
    join(&lines, "\n")
}

// ---------------------------------------------------------------------------
// Laws
// ---------------------------------------------------------------------------

/// A variable is given where it says something, and is then taken as it stands.
pub proof fn blank_variables_are_not_given(v: Seq<char>)
    ensures
        given(None) is None,
        given(Some(v)) is Some <==> trimmed(v).len() > 0,
        given(Some(v)) is Some ==> given(Some(v))->0 == v,
{
}

/// A setup needs a role, a scope and a server, and says which of them is missing first.
pub proof fn setups_need_role_scope_and_server(env: SetupEnv)
    ensures
        missing_variable(env) is None <==> given(opt_text(env.role)) is Some && given(
            opt_text(env.scope),
        ) is Some && given(opt_text(env.server_url)) is Some,
        given(opt_text(env.role)) is None ==> missing_variable(env) == Some("LANYTE_AGENT_ROLE"@),
        given(opt_text(env.role)) is Some && given(opt_text(env.scope)) is None
            ==> missing_variable(env) == Some("LANYTE_AGENT_SCOPE"@),
        given(opt_text(env.role)) is Some && given(opt_text(env.scope)) is Some && given(
            opt_text(env.server_url),
        ) is None ==> missing_variable(env) == Some("LANYTE_MM_URL"@),
{
}

/// The team is the one that is given, else that of the scope.
pub proof fn teams_follow_the_scope(team: Option<Seq<char>>, scope: Seq<char>)
    ensures
        given(team) is Some ==> team_of(team, scope) == given(team)->0,
        given(team) is None ==> team_of(team, scope) == "org-"@ + scope,
{
}

/// The profile that the environment describes has its role, scope, server and team, goes by
/// the name that is asked for, else by that of role and scope, and takes its token from the
/// variable that is named.
pub proof fn profiles_follow_the_environment(
    env: SetupEnv,
    asked: Option<Seq<char>>,
    reduce: Option<Seq<char>>,
    p: Profile,
)
    requires
        missing_variable(env) is None,
        described(env, asked, reduce, p),
    ensures
        p.role@ == env.role->0@,
        p.scope@ == env.scope->0@,
        p.server_url@ == env.server_url->0@,
        asked is Some ==> p.name@ == asked->0,
        asked is None && env.profile is Some && trimmed(env.profile->0@).len() > 0 ==> p.name@
            == env.profile->0@,
        asked is None && env.profile is None ==> p.name@ == env.role->0@ + "-"@ + env.scope->0@,
        env.team is None ==> p.team_name@ == "org-"@ + env.scope->0@,
        env.team is Some && trimmed(env.team->0@).len() > 0 ==> p.team_name@ == env.team->0@,
        env.token_env_name is None ==> p.env_name@ == "LANYTE_MM_TOKEN"@,
        env.token_env_name is Some && trimmed(env.token_env_name->0@).len() > 0 ==> p.env_name@
            == env.token_env_name->0@,
        p.credential_mode is EnvName && p.capability_class is Standard && p.env_file is None,
        reduce is None <==> p.reduce is None,
        reduce is Some ==> p.reduce->0.use_profile@ == reduce->0,
{
}

/// A profile that is made of arguments and the environment takes the arguments first.
pub proof fn arguments_count_before_the_environment(
    args: ProfileCreateFromEnvArgs,
    env: SetupEnv,
    p: Profile,
)
    requires
        missing_variable(env) is None,
        described_by_args(args, env, p),
    ensures
        p.role@ == env.role->0@ && p.scope@ == env.scope->0@ && p.server_url@ == env.server_url->0@,
        args.name is Some ==> p.name@ == args.name->0@,
        args.name is None ==> p.name@ == env.role->0@ + "-"@ + env.scope->0@,
        args.team_name is Some ==> p.team_name@ == args.team_name->0@,
        args.team_name is None && env.team is None ==> p.team_name@ == "org-"@ + env.scope->0@,
        p.env_name@ == args.env_name@ && p.env_file == args.env_file,
        p.credential_mode is EnvFile <==> args.credential_mode is EnvFile,
        p.credential_mode is SeclusorRun <==> args.credential_mode is SeclusorRun,
        p.capability_class is Elevated <==> args.capability_class is Elevated,
{
}

/// A profile drifts if and only if its role, scope, server or team is another, and is
/// refreshed where only its variable, mode, class or reduction is.
pub proof fn drift_and_refresh(desired: Profile, existing: Profile, a: ProfileAction)
    requires
        action_for(desired, Some(existing), a),
    ensures
        a is IdentityDrift <==> existing.role@ != desired.role@ || existing.scope@ != desired.scope@
            || existing.server_url@ != desired.server_url@ || existing.team_name@
            != desired.team_name@,
        a is Refresh <==> !(a is IdentityDrift) && (existing.env_name@ != desired.env_name@
            || existing.credential_mode != desired.credential_mode || existing.capability_class
            != desired.capability_class || (desired.reduce is Some && reduce_label(existing)
            != desired.reduce->0.use_profile@)),
        a is Reuse <==> !(a is IdentityDrift) && !(a is Refresh),
{
    reveal_strlit("EnvName");
    reveal_strlit("EnvFile");
    reveal_strlit("SeclusorRun");
    reveal_strlit("Standard");
    reveal_strlit("Elevated");
    assert("EnvName"@.len() == 7 && "EnvFile"@.len() == 7 && "SeclusorRun"@.len() == 11);
    assert("EnvName"@[3] == 'N' && "EnvFile"@[3] == 'F');
    assert("Standard"@[0] == 'S' && "Elevated"@[0] == 'E');
    assert(mode_label(existing.credential_mode) == mode_label(desired.credential_mode)
        <==> existing.credential_mode == desired.credential_mode);
    assert(class_label(existing.capability_class) == class_label(desired.capability_class)
        <==> existing.capability_class == desired.capability_class);
}

/// A difference names the field, what it was and what it is to be.
pub proof fn differences_name_both_values(field: Seq<char>, from: Seq<char>, to: Seq<char>)
    ensures
        from == to ==> diff_in(field, from, to).len() == 0,
        from != to ==> diff_in(field, from, to).len() == 1 && diff_in(field, from, to)[0].field
            == field && diff_in(field, from, to)[0].from == from && diff_in(field, from, to)[0].to
            == to,
{
}

/// A profile that is refreshed takes what is desired, and keeps the channels, the connection
/// and what was not asked for.
pub proof fn refreshed_profiles_keep_the_rest(desired: Profile, existing: Profile, r: Profile)
    requires
        merged(desired, existing, r),
    ensures
        r.name == desired.name && r.role == desired.role && r.scope == desired.scope && r.server_url
            == desired.server_url && r.team_name == desired.team_name && r.env_name
            == desired.env_name && r.credential_mode == desired.credential_mode
            && r.capability_class == desired.capability_class,
        r.monitored_channels@ == existing.monitored_channels@ && r.ipc == existing.ipc,
        desired.reduce is None ==> r.reduce == existing.reduce,
        desired.reduce is Some ==> r.reduce == desired.reduce,
        desired.env_file is None ==> r.env_file == existing.env_file,
        desired.env_file is Some ==> r.env_file == desired.env_file,
{
}

/// A profile is stored where it is new or has changed, and a daemon is stopped only where the
/// profile that it runs under has changed.
pub proof fn only_changes_are_stored(
    action: ProfileAction,
    existing: Option<Profile>,
    validated: Profile,
    s: SetupStep,
)
    requires
        settled(action, existing, validated, s),
    ensures
        s.store <==> action is Create || action is Refresh || (action is Reuse
            && existing->0.bot_username@ != validated.bot_username@),
        s.stop_daemon <==> s.store && !(action is Create),
        s.state is Created <==> action is Create,
        s.state is Reused <==> !s.store,
        s.state is Refreshed <==> s.stop_daemon,
{
}

/// What a check of the token failed for is told by its status.
pub proof fn preflight_failures_are_told_by_status(e: CliError)
    ensures
        e is Core && e->Core_0 is Api && e->Core_0->Api_status == 401 ==> preflight_code(e)
            == "token_invalid"@,
        e is Core && e->Core_0 is Api && e->Core_0->Api_status == 403 ==> preflight_code(e)
            == "bot_not_in_team"@,
        e is Core && e->Core_0 is Api && e->Core_0->Api_status == 404 ==> preflight_code(e)
            == "team_missing"@,
        !(e is Core && e->Core_0 is Api && (e->Core_0->Api_status == 401 || e->Core_0->Api_status
            == 403 || e->Core_0->Api_status == 404)) ==> preflight_code(e) == "preflight_failed"@,
{
}

/// Exit codes: 1 where something could not be seeded, 2 for the environment, 3 for the token,
/// 4 for the daemon, 5 for drift.
pub proof fn failures_have_their_exit_code(f: SetupFailure)
    ensures
        f is EnvInput ==> failure_exit(f) == 2 && failure_code(f) == "env_input"@,
        f is Preflight ==> failure_exit(f) == 3,
        f is RefreshStop ==> failure_exit(f) == 4 && failure_code(f) == "daemon_refresh_stop"@,
        f is DaemonStart ==> failure_exit(f) == 4 && failure_code(f) == "daemon_start"@,
        f is DaemonUnreachable ==> failure_exit(f) == 4 && failure_code(f)
            == "daemon_unreachable"@,
        EXIT_SOFT_DEGRADED == 1 && EXIT_IDENTITY_DRIFT == 5,
{
}

/// Each outcome of seeding is reported as what it is.
pub proof fn outcomes_are_reported_as_they_are(o: SeededChannelOutcome, r: SeedOutcome)
    requires
        reported(o, r),
    ensures
        o is Seeded <==> r is Seeded,
        o is UnseededEmptyChannel <==> r is UnseededEmptyChannel,
        o is Failed <==> r is Failed,
        o is Seeded ==> r->Seeded_channel == o->Seeded_channel && r->Seeded_post_id
            == o->Seeded_post_id,
        o is UnseededEmptyChannel ==> r->UnseededEmptyChannel_channel
            == o->UnseededEmptyChannel_channel,
        o is Failed ==> r->Failed_channel == o->Failed_channel && r->Failed_reason
            == o->Failed_reason,
{
}

/// A setup is degraded where a channel failed; an empty channel is no failure.
pub proof fn failures_degrade_a_setup(outcomes: Seq<SeedOutcome>)
    ensures
        any_failed(outcomes) <==> exists|i: int|
            0 <= i < outcomes.len() && #[trigger] outcomes[i] is Failed,
        (forall|i: int|
            0 <= i < outcomes.len() ==> #[trigger] outcomes[i] is Seeded
                || outcomes[i] is UnseededEmptyChannel) ==> !any_failed(outcomes),
{
}

/// The report names the profile and what became of it, the daemon, the bot, and then what
/// changed and what was seeded.
pub proof fn reports_name_the_profile_first(r: AutoSetupReport)
    ensures
        ({
            let lines = report_lines(r);
            &&& lines.len() >= 3
            &&& lines[0] == "profile "@ + r.profile_name@ + (match r.profile_state {
                ProfileState::Created => " created"@,
                ProfileState::Refreshed => " refreshed"@,
                ProfileState::Reused => " reused"@,
            })
            &&& lines[1] == (match r.daemon_state {
                DaemonState::AlreadyRunning => "daemon already running"@,
                DaemonState::Started => "daemon started"@,
            })
            &&& lines[2] == "bot_username: "@ + r.bot_username@
            &&& r.is_active ==> lines[3] == "active: "@ + r.profile_name@
            &&& lines.len() == 3 + (if r.is_active {
                1int
            } else {
                0
            }) + (if r.degraded {
                1int
            } else {
                0
            }) + r.refresh_diff@.len() + r.seed_outcomes@.len()
            &&& r.seed_outcomes@.len() > 0 ==> lines.last() == outcome_line(r.seed_outcomes@.last())
        }),
{
}

/// The line of an outcome names its channel and what came of it.
pub proof fn outcome_lines(o: SeedOutcome)
    ensures
        o is Seeded ==> outcome_line(o) == "  seeded: "@ + o->Seeded_channel@ + " -> "@
            + o->Seeded_post_id@,
        o is UnseededEmptyChannel ==> outcome_line(o) == "  unseeded: "@
            + o->UnseededEmptyChannel_channel@ + " (empty channel)"@,
        o is Failed ==> outcome_line(o) == "  seed_failed: "@ + o->Failed_channel@ + " ("@
            + o->Failed_reason@ + ")"@,
{
}

/// What drifted is told field by field.
pub proof fn drift_is_told_field_by_field(diff: Seq<FieldDiff>, i: int)
    requires
        0 <= i < diff.len(),
    ensures
        drift_lines(diff).len() == diff.len() + 2,
        drift_lines(diff)[i + 1] == "  * "@ + diff[i].field + ": persisted="@ + diff[i].from
            + " env="@ + diff[i].to,
        refresh_line(diff[i]) == "  refresh "@ + diff[i].field + ": "@ + diff[i].from + " -> "@
            + diff[i].to,
{
}

/// A profile that is created is what the arguments say, with the team of its scope where none is
/// named.
pub proof fn created_profiles_are_what_was_asked_for(args: &ProfileCreateArgs, r: Profile)
    requires
        call_ensures(profile_from_create_args, (args,), r),
    ensures
        r.name@ == args.name@ && r.role@ == args.role@ && r.scope@ == args.scope@,
        r.bot_username@ == args.bot_username@ && r.server_url@ == args.server_url@,
        r.env_name@ == args.env_name@ && r.env_file == args.env_file,
        args.team_name is Some ==> r.team_name@ == args.team_name->0@,
        args.team_name is None ==> r.team_name@ == "org-"@ + args.scope@,
        args.credential_mode is EnvName <==> r.credential_mode is EnvName,
        args.credential_mode is EnvFile <==> r.credential_mode is EnvFile,
        args.credential_mode is SeclusorRun <==> r.credential_mode is SeclusorRun,
        args.capability_class is Standard <==> r.capability_class is Standard,
        args.capability_class is Elevated <==> r.capability_class is Elevated,
        r.provider is Mattermost && r.monitored_channels@.len() == 0 && r.ipc is None && r.reduce
            is None,
{
}

/// A profile that takes its token from a file names the file.
pub proof fn files_of_tokens_are_named(profile: &Profile, r: Result<(), CliError>)
    requires
        call_ensures(validate_profile_create_args, (profile,), r),
    ensures
        r is Err <==> profile.credential_mode is EnvFile && profile.env_file is None,
        r is Err ==> r->Err_0 == CliError::Core(CoreError::MissingEnvFile),
{
}

/// A profile is stored under the name of the bot that the provider knows.
pub proof fn profiles_are_of_the_bot_that_answered(profile: Profile, identity: &Identity, r: Profile)
    requires
        call_ensures(finalize_profile, (profile, identity), r),
    ensures
        r.bot_username == identity.username,
        r.name == profile.name && r.role == profile.role && r.scope == profile.scope && r.team_name
            == profile.team_name && r.server_url == profile.server_url && r.env_name
            == profile.env_name && r.env_file == profile.env_file && r.credential_mode
            == profile.credential_mode && r.capability_class == profile.capability_class
            && r.monitored_channels == profile.monitored_channels && r.ipc == profile.ipc
            && r.reduce == profile.reduce,
{
}

/// A profile is active where it was not forbidden or already was; it is made active where that
/// was asked for or no other is.
pub proof fn active_profiles(
    no_activate: bool,
    asked: bool,
    marker: Option<&str>,
    name: &str,
    after: bool,
    made: bool,
)
    requires
        call_ensures(is_active_after, (no_activate, marker, name), after),
        call_ensures(should_activate, (asked, marker), made),
    ensures
        after <==> !no_activate || (marker is Some && marker->0@ == name@),
        made <==> asked || marker is None,
{
}

/// A missing token is told with the variable that it was looked for under.
pub proof fn missing_tokens_are_told(
    env_name: &str,
    token: Result<String, CoreError>,
    r: Result<(), CliError>,
)
    requires
        call_ensures(check_token_available, (env_name, token), r),
    ensures
        r is Ok <==> token is Ok,
        r is Err ==> r->Err_0 is Bootstrap && r->Err_0->Bootstrap_0@ == "token unavailable via "@
            + env_name@ + ": "@ + core_error_text(token->Err_0),
{
}

/// A variable that is needed is missing where it is not set or blank, and is told by its name.
pub proof fn missing_variables_are_told(
    name: &str,
    value: Option<String>,
    r: Result<String, CliError>,
)
    requires
        call_ensures(required_env, (name, value), r),
    ensures
        r is Ok <==> value is Some && trimmed(value->0@).len() > 0,
        r is Ok ==> r->Ok_0@ == value->0@,
        r is Err ==> r->Err_0 is Bootstrap && r->Err_0->Bootstrap_0@
            == "missing required environment variable "@ + name@,
{
}

/// What is held against the provider: a new profile as it is wanted, a kept one as it is, and
/// none where the identity has drifted.
pub proof fn drifted_profiles_are_not_validated(
    action: &ProfileAction,
    desired: Profile,
    existing: Option<&Profile>,
    r: Option<Profile>,
)
    requires
        action is Refresh || action is Reuse ==> existing is Some,
        call_ensures(profile_to_validate, (action, desired, existing), r),
    ensures
        r is None <==> action is IdentityDrift,
        action is Create ==> r == Some(desired),
        action is Refresh ==> r->0.server_url == desired.server_url && r->0.ipc == existing->0.ipc
            && r->0.monitored_channels@ == existing->0.monitored_channels@,
        action is Reuse ==> r->0.name == existing->0.name && r->0.server_url
            == existing->0.server_url && r->0.bot_username == existing->0.bot_username
            && r->0.env_name == existing->0.env_name && r->0.monitored_channels@
            == existing->0.monitored_channels@,
{
}

/// What is said of a failure, and what of a provider that refused.
pub proof fn failures_are_told_in_full(
    err: &CliError,
    preflight: (&'static str, String),
    failure: &SetupFailure,
    r: FailureReport,
)
    requires
        call_ensures(classify_preflight_error, (err,), preflight),
        call_ensures(report_failure, (failure,), r),
    ensures
        err is Core && err->Core_0 is Api ==> preflight.1@ == shown_status(err->Core_0->Api_status)
            + ": "@ + err->Core_0->Api_message@,
        !(err is Core && err->Core_0 is Api) ==> preflight.1@ == cli_error_text(*err),
        preflight.0@ == preflight_code(*err),
        failure is EnvInput ==> r.exit_code == 2 && r.message@ == cli_error_text(
            failure->EnvInput_0,
        ),
        failure is Preflight ==> r.exit_code == 3 && r.code@ == preflight_code(failure->Preflight_0)
            && r.message@ == preflight_message(failure->Preflight_0),
        failure is RefreshStop ==> r.exit_code == 4 && r.message@ == cli_error_text(
            failure->RefreshStop_0,
        ),
        failure is DaemonStart ==> r.exit_code == 4 && r.message@ == cli_error_text(
            failure->DaemonStart_0,
        ),
        failure is DaemonUnreachable ==> r.exit_code == 4 && r.message@
            == "daemon socket unavailable during seed_cursors RPC \u{2014} daemon exited after the health check"@,
{
}

/// Each cursor's outcome is reported in its place; a refusal is one failed report, and a daemon
/// that is gone fails the setup.
pub proof fn cursors_are_reported(
    answer: Result<Vec<SeededChannelOutcome>, DaemonFailure>,
    r: Result<Vec<SeedOutcome>, SetupFailure>,
)
    requires
        call_ensures(seed_report, (answer,), r),
    ensures
        r is Err <==> answer is Err && answer->Err_0 is NotRunning,
        r is Err ==> r->Err_0 is DaemonUnreachable,
        answer is Ok ==> r->Ok_0@.len() == answer->Ok_0@.len(),
        answer is Err && r is Ok ==> r->Ok_0@.len() == 1 && r->Ok_0@[0] is Failed
            && r->Ok_0@[0]->Failed_channel@ == "<membership-enumeration>"@
            && r->Ok_0@[0]->Failed_reason@ == daemon_failure_text(answer->Err_0),
{
}

/// A report says what was set up, and a degraded one exits with 1.
pub proof fn setups_are_reported(
    profile: &Profile,
    step: SetupStep,
    daemon_state: DaemonState,
    is_active: bool,
    seeds: Vec<SeedOutcome>,
    r: AutoSetupReport,
    code: i32,
)
    requires
        call_ensures(setup_report, (profile, step, daemon_state, is_active, seeds), r),
        call_ensures(setup_exit_code, (&r,), code),
    ensures
        r.profile_name == profile.name && r.bot_username == profile.bot_username,
        r.profile_state == step.state && r.refresh_diff == step.diff && r.daemon_state
            == daemon_state && r.is_active == is_active && r.seed_outcomes == seeds,
        r.degraded == any_failed(seeds@),
        code == 1 <==> any_failed(seeds@),
        code == 0 <==> !any_failed(seeds@),
{
}

/// Each line of a report stands in its place: what changed, then what was seeded.
pub proof fn changes_and_seeds_are_reported_in_turn(r: AutoSetupReport, i: int, j: int)
    requires
        0 <= i < r.refresh_diff@.len(),
        0 <= j < r.seed_outcomes@.len(),
    ensures
        ({
            let lines = report_lines(r);
            let first = 3 + (if r.is_active {
                1int
            } else {
                0
            }) + (if r.degraded {
                1int
            } else {
                0
            });
            &&& r.degraded ==> lines[first - 1] == "status: degraded (see seed outcomes below)"@
            &&& lines[first + i] == "  refresh "@ + r.refresh_diff@[i].field@ + ": "@
                + r.refresh_diff@[i].from@ + " -> "@ + r.refresh_diff@[i].to@
            &&& lines[first + r.refresh_diff@.len() + j] == outcome_line(r.seed_outcomes@[j])
        }),
{
    assert(diff_views(r.refresh_diff@)[i] == r.refresh_diff@[i]@);
}

/// A degraded report says so, whatever else it tells.
pub proof fn degraded_setups_say_so(r: AutoSetupReport)
    requires
        r.degraded,
    ensures
        report_lines(r)[if r.is_active {
            4int
        } else {
            3
        }] == "status: degraded (see seed outcomes below)"@,
{
}

/// A drift is told under what it is, and ends with what can be done.
pub proof fn drift_says_what_can_be_done(diff: Seq<FieldDiff>)
    ensures
        drift_lines(diff)[0]
            == "identity_drift: persisted profile identity does not match env-derived identity"@,
        drift_lines(diff).last()
            == "recovery: resolve the mismatch (correct the env, or rename/remove the persisted profile), then re-run auto-setup"@,
{
}

/// What a refresh changes is told under the name of the field.
pub proof fn refreshes_name_their_fields(from: Profile, to: Profile, i: int)
    requires
        0 <= i < refreshable_diff(from, to).len(),
    ensures
        ({
            let d = refreshable_diff(from, to)[i];
            ||| d.field == "env_name"@ && d.from == from.env_name@ && d.to == to.env_name@
            ||| d.field == "credential_mode"@ && d.from == mode_label(from.credential_mode) && d.to
                == mode_label(to.credential_mode)
            ||| d.field == "capability_class"@ && d.from == class_label(from.capability_class)
                && d.to == class_label(to.capability_class)
            ||| d.field == "reduce.use_profile"@ && d.from == reduce_label(from) && d.to
                == reduce_label(to)
        }),
{
}

/// A bot that was renamed is told as such.
pub proof fn renamed_bots_are_told(
    existing: Profile,
    validated: Profile,
    s: SetupStep,
)
    requires
        settled(ProfileAction::Reuse, Some(existing), validated, s),
        existing.bot_username@ != validated.bot_username@,
    ensures
        s.diff@.len() == 1,
        s.diff@[0].field@ == "bot_username"@ && s.diff@[0].from@ == existing.bot_username@
            && s.diff@[0].to@ == validated.bot_username@,
{
    let views = diff_views(s.diff@);
    assert(views.len() == 1);
    assert(views[0] == s.diff@[0]@);
}

/// Each cursor that the daemon put is reported in its place.
pub proof fn every_cursor_is_reported(
    outcomes: Vec<SeededChannelOutcome>,
    r: Result<Vec<SeedOutcome>, SetupFailure>,
    i: int,
)
    requires
        call_ensures(seed_report, (Ok(outcomes),), r),
        0 <= i < outcomes@.len(),
    ensures
        r is Ok && r->Ok_0@.len() == outcomes@.len(),
        outcomes@[i] is Seeded ==> r->Ok_0@[i] == (SeedOutcome::Seeded {
            channel: outcomes@[i]->Seeded_channel,
            post_id: outcomes@[i]->Seeded_post_id,
        }),
        outcomes@[i] is UnseededEmptyChannel ==> r->Ok_0@[i] is UnseededEmptyChannel,
        outcomes@[i] is Failed ==> r->Ok_0@[i] == (SeedOutcome::Failed {
            channel: outcomes@[i]->Failed_channel,
            reason: outcomes@[i]->Failed_reason,
        }),
{
    assert(reported(outcomes@[i], r->Ok_0@[i]));
}

/// A profile is shown with the one that it posts under elsewhere, or with none.
pub proof fn profiles_without_a_target_say_so(p: Profile)
    ensures
        p.reduce is None ==> reduce_label(p) == "(none)"@,
        p.reduce is Some ==> reduce_label(p) == p.reduce->0.use_profile@,
{
}

} // verus!
