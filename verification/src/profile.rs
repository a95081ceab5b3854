//! Profiles: which one a command works under, under whose identity it posts,
//! and where its token comes from.
use vstd::prelude::*;
use vstd::string::*;

use crate::collections::TextMap;
use crate::error::CoreError;
use crate::order::{stable_sort, stably_sorted, Order};
use crate::paths::opt_view;
use crate::safe_read::SafeReadError;
use crate::text::{concat2, concat3, debug_list, debug_strings, opt_text, split_at_first, split_char,
    split_on, split_once, starts_with, str_eq, strip_prefix, strip_suffix, text_before,
    text_before_irreflexive, text_before_total, text_before_transitive, text_lt, texts, trim,
    trim_back, trim_front, trimmed, white_space};
use crate::types::{CapabilityClass, CredentialMode, Profile, ResolutionSource};

verus! {

pub const DEFAULT_TEAM: &'static str = "org-lanytehq";

pub const DEFAULT_NOTIFICATIONS_CHANNEL: &'static str = "agent-notifications";

pub const WAIT_POLL_SECONDS: u64 = 2;

// ---------------------------------------------------------------------------
// Defaults
// ---------------------------------------------------------------------------

pub fn default_team_name() -> (r: String)
    ensures
        r@ == DEFAULT_TEAM@,
{
    DEFAULT_TEAM.to_owned()
}

pub fn default_credential_mode() -> (r: CredentialMode)
    ensures
        r == CredentialMode::EnvName,
{
    CredentialMode::EnvName
}

pub fn default_capability_class() -> (r: CapabilityClass)
    ensures
        r == CapabilityClass::Standard,
{
    CapabilityClass::Standard
}

// ---------------------------------------------------------------------------
// Identity reduction
// ---------------------------------------------------------------------------

/// Whether a post into `resolved_team_name` is made under the reduced identity:
/// everywhere but in the own team.
pub fn identity_reduces(profile_team_name: &str, resolved_team_name: &str) -> (r: bool)
    ensures
        r == (profile_team_name@ != resolved_team_name@),
{
    !str_eq(profile_team_name, resolved_team_name)
}

/// The texts of static strings.
pub open spec fn labels(v: Seq<&'static str>) -> Seq<Seq<char>> {
    v.map_values(|s: &'static str| s@)
}

/// The tags of a post: how the channel was found, and whether the identity was
/// reduced. Neither depends on the other.
pub open spec fn provenance(source: ResolutionSource, identity_reduced: bool) -> Seq<Seq<char>> {
    (if source is Fallback {
        seq!["team-fallback"@]
    } else {
        Seq::empty()
    }) + (if identity_reduced {
        seq!["identity-reduce"@]
    } else {
        Seq::empty()
    })
}

pub fn posting_provenance_tags(
    resolution_source: ResolutionSource,
    identity_reduced: bool,
) -> (r: Vec<&'static str>)
    ensures
        labels(r@) == provenance(resolution_source, identity_reduced),
{
    let mut tags: Vec<&'static str> = Vec::new();
    if resolution_source == ResolutionSource::Fallback {
        tags.push("team-fallback");
    }
    if identity_reduced {
        tags.push("identity-reduce");
    }
    proof {
        assert(labels(tags@) =~= provenance(resolution_source, identity_reduced));
    }
    tags
}

// ---------------------------------------------------------------------------
// Which profile
// ---------------------------------------------------------------------------

/// How far the choice of a profile may go.
#[derive(Debug, Clone, Copy, PartialEq, Eq, Structural)]
pub enum FallbackPolicy {
    /// Only what the caller or the environment says.
    ExplicitOnly,
    /// Also the one running daemon, and the marker of the active profile.
    AllowReadFallbacks,
}

/// What the choice of a profile rests on.
pub struct ResolverInputs<'a> {
    pub profiles: &'a [String],
    pub running_daemon_profiles: &'a [String],
    pub active_profile: Option<&'a str>,
    pub env_role: Option<&'a str>,
    pub env_scope: Option<&'a str>,
    pub env_chanvoy_profile: Option<&'a str>,
}

/// Why no profile was chosen.
#[derive(Debug, Clone, PartialEq, Eq)]
pub enum ResolverError {
    EnvProfileNotFound { name: String, available: Vec<String> },
    EnvExactMatchNotFound { role: String, scope: String, expected: String, available: Vec<String> },
    AmbiguousMultiDaemon { running: Vec<String> },
    DestructiveRequiresExplicit { available: Vec<String> },
    ActiveProfileNotFound { name: String, available: Vec<String> },
    CannotResolve { available: Vec<String> },
}

/// The diagnostic of an error.
pub open spec fn resolver_error_text(e: ResolverError) -> Seq<char> {
    match e {
        ResolverError::EnvProfileNotFound { name, available } =>
            "CHANVOY_PROFILE is set to '"@ + name@
                + "' but no such profile exists; create it or unset the env var. Available profiles: "@
                + debug_list(texts(available@)),
        ResolverError::EnvExactMatchNotFound { role, scope, expected, available } =>
            "env identity is "@ + role@ + "/"@ + scope@ + " but no profile named '"@ + expected@
                + "' exists; run `chanvoy auto-setup` to materialize it. Available profiles: "@
                + debug_list(texts(available@)),
        ResolverError::AmbiguousMultiDaemon { running } =>
            "multiple chanvoy daemons are running ("@ + debug_list(texts(running@))
                + "); pass --profile to disambiguate"@,
        ResolverError::DestructiveRequiresExplicit { available } =>
            "side-effecting daemon-lifecycle verb requires explicit profile selection; pass --profile, set CHANVOY_PROFILE, or source an identity script. Available profiles: "@
                + debug_list(texts(available@)),
        ResolverError::ActiveProfileNotFound { name, available } =>
            "the persistent active_profile marker points at '"@ + name@
                + "' but no such profile exists (likely renamed or deleted); pass --profile, set LANYTE_AGENT_ROLE+LANYTE_AGENT_SCOPE, or run `chanvoy auto-setup` to refresh the marker. Available profiles: "@
                + debug_list(texts(available@)),
        ResolverError::CannotResolve { available } =>
            "unable to resolve a chanvoy profile; pass --profile or set LANYTE_AGENT_ROLE+LANYTE_AGENT_SCOPE. Available profiles: "@
                + debug_list(texts(available@)),
    }
}

impl ResolverError {
    /// The diagnostic.
    pub fn message(&self) -> (r: String)
        ensures
            r@ == resolver_error_text(*self),
    {
        match self {
            ResolverError::EnvProfileNotFound { name, available } => {
                let mut m = String::new();
                m.append("CHANVOY_PROFILE is set to '");
                m.append(name.as_str());
                m.append("' but no such profile exists; create it or unset the env var. Available profiles: ");
                m.append(debug_strings(available).as_str());
                proof {
                    assert(m@ =~= resolver_error_text(*self));
                }
                m
            },
            ResolverError::EnvExactMatchNotFound { role, scope, expected, available } => {
                let mut m = String::new();
                m.append("env identity is ");
                m.append(role.as_str());
                m.append("/");
                m.append(scope.as_str());
                m.append(" but no profile named '");
                m.append(expected.as_str());
                m.append("' exists; run `chanvoy auto-setup` to materialize it. Available profiles: ");
                m.append(debug_strings(available).as_str());
                proof {
                    assert(m@ =~= resolver_error_text(*self));
                }
                m
            },
            ResolverError::AmbiguousMultiDaemon { running } => {
                let mut m = String::new();
                m.append("multiple chanvoy daemons are running (");
                m.append(debug_strings(running).as_str());
                m.append("); pass --profile to disambiguate");
                proof {
                    assert(m@ =~= resolver_error_text(*self));
                }
                m
            },
            ResolverError::DestructiveRequiresExplicit { available } => {
                let mut m = String::new();
                m.append("side-effecting daemon-lifecycle verb requires explicit profile selection; pass --profile, set CHANVOY_PROFILE, or source an identity script. Available profiles: ");
                m.append(debug_strings(available).as_str());
                proof {
                    assert(m@ =~= resolver_error_text(*self));
                }
                m
            },
            ResolverError::ActiveProfileNotFound { name, available } => {
                let mut m = String::new();
                m.append("the persistent active_profile marker points at '");
                m.append(name.as_str());
                m.append("' but no such profile exists (likely renamed or deleted); pass --profile, set LANYTE_AGENT_ROLE+LANYTE_AGENT_SCOPE, or run `chanvoy auto-setup` to refresh the marker. Available profiles: ");
                m.append(debug_strings(available).as_str());
                proof {
                    assert(m@ =~= resolver_error_text(*self));
                }
                m
            },
            ResolverError::CannotResolve { available } => {
                let mut m = String::new();
                m.append("unable to resolve a chanvoy profile; pass --profile or set LANYTE_AGENT_ROLE+LANYTE_AGENT_SCOPE. Available profiles: ");
                m.append(debug_strings(available).as_str());
                proof {
                    assert(m@ =~= resolver_error_text(*self));
                }
                m
            },
        }
    }
}

/// The name that the environment gives a profile.
pub open spec fn env_profile_name(role: Seq<char>, scope: Seq<char>) -> Seq<char> {
    role + "-"@ + scope
}

/// `r` is the choice that these inputs call for: the flag as it stands; else the
/// profile that the environment names, which has to exist; else the profile of
/// role and scope, which has to exist; else, where fallbacks are allowed, the
/// profile of the only running daemon, else the active profile, which has to
/// exist.
pub open spec fn resolution(
    flag: Option<Seq<char>>,
    policy: FallbackPolicy,
    inputs: ResolverInputs<'_>,
    r: Result<String, ResolverError>,
) -> bool {
    let profiles = texts(inputs.profiles@);
    let running = texts(inputs.running_daemon_profiles@);
    if flag is Some {
        r matches Ok(name) && name@ == flag->0
    } else if inputs.env_chanvoy_profile is Some {
        let wanted = inputs.env_chanvoy_profile->0@;
        if profiles.contains(wanted) {
            r matches Ok(name) && name@ == wanted
        } else {
            r matches Err(ResolverError::EnvProfileNotFound { name, available }) && name@ == wanted
                && texts(available@) == profiles
        }
    } else if inputs.env_role is Some && inputs.env_scope is Some {
        let wanted = env_profile_name(inputs.env_role->0@, inputs.env_scope->0@);
        if profiles.contains(wanted) {
            r matches Ok(name) && name@ == wanted
        } else {
            r matches Err(
                ResolverError::EnvExactMatchNotFound { role, scope, expected, available },
            ) && role@ == inputs.env_role->0@ && scope@ == inputs.env_scope->0@ && expected@
                == wanted && texts(available@) == profiles
        }
    } else if policy is ExplicitOnly {
        r matches Err(ResolverError::DestructiveRequiresExplicit { available }) && texts(
            available@,
        ) == profiles
    } else if running.len() == 1 {
        r matches Ok(name) && name@ == running[0]
    } else if running.len() > 1 {
        r matches Err(ResolverError::AmbiguousMultiDaemon { running: named }) && texts(named@)
            == running
    } else if inputs.active_profile is Some {
        let wanted = inputs.active_profile->0@;
        if profiles.contains(wanted) {
            r matches Ok(name) && name@ == wanted
        } else {
            r matches Err(ResolverError::ActiveProfileNotFound { name, available }) && name@
                == wanted && texts(available@) == profiles
        }
    } else {
        r matches Err(ResolverError::CannotResolve { available }) && texts(available@) == profiles
    }
}

/// The same strings.
pub fn copy_strings(v: &[String]) -> (r: Vec<String>)
    ensures
        texts(r@) == texts(v@),
        r@ == v@,
{
    let mut out: Vec<String> = Vec::new();
    let mut i: usize = 0;
    while i < v.len()
        invariant
            i <= v@.len(),
            out@ == v@.take(i as int),
        decreases v.len() - i,
    {
        out.push(v[i].clone());
        i += 1;
        proof {
            assert(v@.take(i as int) =~= v@.take(i - 1).push(v@[i - 1]));
        }
    }
    proof {
        assert(v@.take(i as int) =~= v@);
    }
    out
}

/// Whether a text is among strings.
pub fn contains_string(v: &[String], s: &str) -> (r: bool)
    ensures
        r == texts(v@).contains(s@),
{
    let mut i: usize = 0;
    while i < v.len()
        invariant
            i <= v@.len(),
            forall|j: int| 0 <= j < i ==> texts(v@)[j] != s@,
        decreases v.len() - i,
    {
        if str_eq(v[i].as_str(), s) {
            proof {
                assert(texts(v@)[i as int] == s@);
            }
            return true;
        }
        i += 1;
    }
    false
}

/// The profile that a command works under.
pub fn resolve_profile_name(
    profile_flag: Option<&str>,
    policy: FallbackPolicy,
    inputs: &ResolverInputs<'_>,
) -> (r: Result<String, ResolverError>)
    ensures
        resolution(opt_view(profile_flag), policy, *inputs, r),
{
    match profile_flag {
        Some(name) => {
            return Ok(name.to_owned());
        },
        None => {},
    }
    match inputs.env_chanvoy_profile {
        Some(name) => {
            if contains_string(inputs.profiles, name) {
                return Ok(name.to_owned());
            }
            return Err(
                ResolverError::EnvProfileNotFound {
                    name: name.to_owned(),
                    available: copy_strings(inputs.profiles),
                },
            );
        },
        None => {},
    }
    match (inputs.env_role, inputs.env_scope) {
        (Some(role), Some(scope)) => {
            let expected = concat3(role, "-", scope);
            if contains_string(inputs.profiles, expected.as_str()) {
                return Ok(expected);
            }
            return Err(
                ResolverError::EnvExactMatchNotFound {
                    role: role.to_owned(),
                    scope: scope.to_owned(),
                    expected,
                    available: copy_strings(inputs.profiles),
                },
            );
        },
        _ => {},
    }
    if policy == FallbackPolicy::ExplicitOnly {
        return Err(
            ResolverError::DestructiveRequiresExplicit {
                available: copy_strings(inputs.profiles),
            },
        );
    }
    if inputs.running_daemon_profiles.len() == 1 {
        return Ok(inputs.running_daemon_profiles[0].clone());
    }
    if inputs.running_daemon_profiles.len() > 1 {
        return Err(
            ResolverError::AmbiguousMultiDaemon {
                running: copy_strings(inputs.running_daemon_profiles),
            },
        );
    }
    match inputs.active_profile {
        Some(active) => {
            if contains_string(inputs.profiles, active) {
                return Ok(active.to_owned());
            }
            return Err(
                ResolverError::ActiveProfileNotFound {
                    name: active.to_owned(),
                    available: copy_strings(inputs.profiles),
                },
            );
        },
        None => {},
    }
    Err(ResolverError::CannotResolve { available: copy_strings(inputs.profiles) })
}

/// An explicit profile always wins.
pub proof fn explicit_profile_wins(
    name: Seq<char>,
    policy: FallbackPolicy,
    inputs: ResolverInputs<'_>,
    r: Result<String, ResolverError>,
)
    requires
        resolution(Some(name), policy, inputs, r),
    ensures
        r matches Ok(chosen) && chosen@ == name,
{
}

/// Without fallbacks, running daemons and the active profile change nothing.
pub proof fn explicit_only_ignores_fallbacks(
    flag: Option<Seq<char>>,
    a: ResolverInputs<'_>,
    b: ResolverInputs<'_>,
    r: Result<String, ResolverError>,
)
    requires
        resolution(flag, FallbackPolicy::ExplicitOnly, a, r),
        a.profiles == b.profiles,
        a.env_role == b.env_role,
        a.env_scope == b.env_scope,
        a.env_chanvoy_profile == b.env_chanvoy_profile,
    ensures
        resolution(flag, FallbackPolicy::ExplicitOnly, b, r),
{
}

/// An environment that names an identity is never overruled by a running daemon
/// or by the active profile: the choice is the named profile, or none.
pub proof fn environment_is_never_overruled(
    policy: FallbackPolicy,
    inputs: ResolverInputs<'_>,
    r: Result<String, ResolverError>,
)
    requires
        resolution(None, policy, inputs, r),
        inputs.env_chanvoy_profile is None,
        inputs.env_role is Some,
        inputs.env_scope is Some,
    ensures
        r matches Ok(chosen) ==> chosen@ == env_profile_name(
            inputs.env_role->0@,
            inputs.env_scope->0@,
        ),
{
}

/// A choice that was not forced by the flag is a known profile or that of the
/// one running daemon.
pub proof fn chosen_profile_is_known(
    policy: FallbackPolicy,
    inputs: ResolverInputs<'_>,
    r: Result<String, ResolverError>,
)
    requires
        resolution(None, policy, inputs, r),
    ensures
        r matches Ok(chosen) ==> texts(inputs.profiles@).contains(chosen@) || texts(
            inputs.running_daemon_profiles@,
        ) == seq![chosen@],
{
    if texts(inputs.running_daemon_profiles@).len() == 1 && r is Ok {
        assert(seq![r->Ok_0@] =~= texts(inputs.running_daemon_profiles@)
            || texts(inputs.profiles@).contains(r->Ok_0@));
    }
}

// ---------------------------------------------------------------------------
// Environment files
// ---------------------------------------------------------------------------

/// A text without the double quotes round it.
pub open spec fn unquoted(s: Seq<char>) -> Seq<char> {
    if s.len() >= 2 && s[0] == '"' && s.last() == '"' {
        s.subrange(1, s.len() - 1)
    } else {
        s
    }
}

pub fn strip_quotes(input: &str) -> (r: &str)
    ensures
        r@ == unquoted(input@),
{
    proof {
        reveal_strlit("\"");
    }
    match strip_prefix(input, "\"") {
        Some(rest) => {
            proof {
                assert("\""@ =~= seq!['"']);
                assert(input@.subrange(0, 1)[0] == '"');
            }
            match strip_suffix(rest, "\"") {
                Some(inner) => {
                    proof {
                        assert(rest@.subrange(rest@.len() - 1, rest@.len() as int)[0] == '"');
                        assert(inner@ =~= input@.subrange(1, input@.len() - 1));
                    }
                    inner
                },
                None => {
                    proof {
                        if rest@.len() > 0 && rest@.last() == '"' {
                            assert(rest@.subrange(rest@.len() - 1, rest@.len() as int)
                                =~= "\""@);
                        }
                    }
                    input
                },
            }
        },
        None => {
            proof {
                if input@.len() > 0 && input@[0] == '"' {
                    assert(input@.subrange(0, 1) =~= "\""@);
                }
            }
            input
        },
    }
}

/// What a line of an environment file sets: nothing for a blank line, a comment
/// or a line without `=`.
pub open spec fn env_entry(line: Seq<char>) -> Option<(Seq<char>, Seq<char>)> {
    let t = trimmed(line);
    if t.len() == 0 || "#"@.is_prefix_of(t) {
        None
    } else {
        let n = if "export "@.is_prefix_of(t) {
            t.skip("export "@.len() as int)
        } else {
            t
        };
        match split_at_first(n, "="@) {
            Some((key, value)) => Some((trimmed(key), unquoted(trimmed(value)))),
            None => None,
        }
    }
}

/// What lines set, later ones overriding earlier ones.
pub open spec fn env_entries(lines: Seq<Seq<char>>) -> Map<Seq<char>, Seq<char>>
    decreases lines.len(),
{
    if lines.len() == 0 {
        Map::empty()
    } else {
        let before = env_entries(lines.drop_last());
        match env_entry(lines.last()) {
            Some((key, value)) => before.insert(key, value),
            None => before,
        }
    }
}

/// The texts of a map's values.
pub open spec fn value_texts(m: Map<Seq<char>, String>) -> Map<Seq<char>, Seq<char>> {
    m.map_values(|s: String| s@)
}

fn parse_env_line(line: &str) -> (r: Option<(String, String)>)
    ensures
        match r {
            Some((key, value)) => env_entry(line@) == Some((key@, value@)),
            None => env_entry(line@) is None,
        },
{
    let t = trim(line);
    if t.is_empty() || starts_with(t, "#") {
        return None;
    }
    let n = match strip_prefix(t, "export ") {
        Some(rest) => rest,
        None => t,
    };
    match split_once(n, "=") {
        Some((key, value)) => Some((trim(key).to_owned(), strip_quotes(trim(value)).to_owned())),
        None => None,
    }
}

/// What the text of an environment file sets.
pub fn parse_env_text(contents: &str) -> (r: TextMap<String>)
    ensures
        value_texts(r@) == env_entries(split_on(contents@, '\n')),
{
    let lines = split_char(contents, '\n');
    let ghost all = texts(lines@);
    let mut values: TextMap<String> = TextMap::new();
    let mut i: usize = 0;
    proof {
        assert(all.take(0) =~= Seq::empty());
        assert(value_texts(values@) =~= Map::empty());
    }
    while i < lines.len()
        invariant
            i <= lines@.len(),
            all == texts(lines@),
            value_texts(values@) == env_entries(all.take(i as int)),
        decreases lines.len() - i,
    {
        let ghost before = values@;
        proof {
            assert(all.take(i + 1).drop_last() =~= all.take(i as int));
            assert(all.take(i + 1).last() == lines@[i as int]@);
        }
        match parse_env_line(lines[i].as_str()) {
            Some((key, value)) => {
                let ghost k = key@;
                let ghost v = value;
                values.insert(key, value);
                proof {
                    assert(value_texts(values@) =~= value_texts(before).insert(k, v@));
                }
            },
            None => {},
        }
        i += 1;
    }
    proof {
        assert(all.take(i as int) =~= all);
    }
    values
}

/// What an environment file sets, from what reading it gave. A read that was refused
/// is the error.
pub fn parse_env_file(contents: Result<String, SafeReadError>) -> (r: Result<
    TextMap<String>,
    CoreError,
>)
    ensures
        match contents {
            Ok(text) => r matches Ok(values) && value_texts(values@) == env_entries(
                split_on(text@, '\n'),
            ),
            Err(e) => r == Err::<TextMap<String>, CoreError>(CoreError::SafeRead(e)),
        },
{
    match contents {
        Ok(text) => Ok(parse_env_text(text.as_str())),
        Err(e) => Err(CoreError::SafeRead(e)),
    }
}

// ---------------------------------------------------------------------------
// Tokens and stored profiles
// ---------------------------------------------------------------------------

/// A token that is not empty.
pub open spec fn usable(token: Option<Seq<char>>) -> bool {
    token matches Some(t) && t.len() > 0
}

/// Takes the token that was found under the name that the profile gives.
pub fn token_from_value(env_name: &str, value: Option<&str>) -> (r: Result<String, CoreError>)
    ensures
        match r {
            Ok(token) => usable(opt_view(value)) && Some(token@) == opt_view(value),
            Err(e) => !usable(opt_view(value)) && (e matches CoreError::MissingCredential(name)
                && name@ == env_name@),
        },
{
    match value {
        Some(token) => {
            if !token.is_empty() {
                return Ok(token.to_owned());
            }
        },
        None => {},
    }
    Err(CoreError::MissingCredential(env_name.to_owned()))
}

/// Where the token of a profile has to be looked up.
#[derive(Debug, Clone, PartialEq, Eq)]
pub enum TokenSource {
    /// An environment variable.
    Variable(String),
    /// A name in an environment file.
    File { path: String, name: String },
}

/// Where the token of a profile has to be looked up; a profile that reads it from
/// a file has to name the file.
pub fn token_source(profile: &Profile) -> (r: Result<TokenSource, CoreError>)
    ensures
        profile.credential_mode is EnvFile ==> match profile.env_file {
            Some(file) => r matches Ok(TokenSource::File { path, name }) && path@ == file@ && name@
                == profile.env_name@,
            None => r matches Err(e) && e is MissingEnvFile,
        },
        !(profile.credential_mode is EnvFile) ==> (r matches Ok(TokenSource::Variable(name))
            && name@ == profile.env_name@),
{
    match profile.credential_mode {
        CredentialMode::EnvName => Ok(TokenSource::Variable(profile.env_name.clone())),
        CredentialMode::SeclusorRun => Ok(TokenSource::Variable(profile.env_name.clone())),
        CredentialMode::EnvFile => match &profile.env_file {
            Some(path) => Ok(
                TokenSource::File { path: path.clone(), name: profile.env_name.clone() },
            ),
            None => Err(CoreError::MissingEnvFile),
        },
    }
}

/// What an environment file sets for a name.
pub open spec fn env_value(contents: Seq<char>, name: Seq<char>) -> Option<Seq<char>> {
    let entries = env_entries(split_on(contents, '\n'));
    if entries.contains_key(name) {
        Some(entries[name])
    } else {
        None
    }
}

/// The token is the one that was found, or there is none that can be used.
pub open spec fn takes_token(
    r: Result<String, CoreError>,
    found: Option<Seq<char>>,
    env_name: Seq<char>,
) -> bool {
    match r {
        Ok(token) => usable(found) && Some(token@) == found,
        Err(e) => !usable(found) && (e matches CoreError::MissingCredential(name) && name@
            == env_name),
    }
}

/// The token of a profile. `variable` is the value of the environment variable that
/// the profile names; `file` is what reading its environment file gave. A profile
/// looks at one of the two.
pub fn load_token(
    profile: &Profile,
    variable: Option<&str>,
    file: Result<String, SafeReadError>,
) -> (r: Result<String, CoreError>)
    ensures
        !(profile.credential_mode is EnvFile) ==> takes_token(
            r,
            opt_view(variable),
            profile.env_name@,
        ),
        profile.credential_mode is EnvFile && profile.env_file is None ==> (r matches Err(e)
            && e is MissingEnvFile),
        profile.credential_mode is EnvFile && profile.env_file is Some ==> match file {
            Ok(contents) => takes_token(
                r,
                env_value(contents@, profile.env_name@),
                profile.env_name@,
            ),
            Err(e) => r == Err::<String, CoreError>(CoreError::SafeRead(e)),
        },
{
    let env_name = profile.env_name.as_str();
    match token_source(profile) {
        Ok(TokenSource::Variable(_)) => token_from_value(env_name, variable),
        Ok(TokenSource::File { .. }) => match parse_env_file(file) {
            Ok(values) => {
                proof {
                    assert(value_texts(values@).contains_key(env_name@) == values@.contains_key(
                        env_name@,
                    ));
                }
                match values.get(env_name) {
                    Some(value) => token_from_value(env_name, Some(value.as_str())),
                    None => token_from_value(env_name, None),
                }
            },
            Err(e) => Err(e),
        },
        Err(e) => Err(e),
    }
}

/// A stored profile without a name gets the name of its file.
pub fn named_profile(profile: Profile, name: &str) -> (r: Profile)
    ensures
        profile.name@.len() > 0 ==> r == profile,
        profile.name@.len() == 0 ==> r.name@ == name@ && r == (Profile { name: r.name, ..profile }),
{
    let mut p = profile;
    if p.name.as_str().is_empty() {
        p.name = name.to_owned();
    }
    p
}

/// The error of a profile that could not be read: an absent file is an unknown
/// profile.
pub fn profile_read_error(name: &str, err: SafeReadError) -> (r: CoreError)
    ensures
        err is NotFound ==> (r matches CoreError::ProfileNotFound(n) && n@ == name@),
        !(err is NotFound) ==> r == CoreError::SafeRead(err),
{
    if err.is_not_found() {
        CoreError::ProfileNotFound(name.to_owned())
    } else {
        CoreError::SafeRead(err)
    }
}

/// The active profile that the marker file names: none where the file is absent
/// or blank.
pub fn load_active_profile(marker: Result<String, SafeReadError>) -> (r: Result<
    Option<String>,
    CoreError,
>)
    ensures
        match marker {
            Ok(contents) => r matches Ok(active) && opt_text(active) == (if trimmed(
                contents@,
            ).len() == 0 {
                None
            } else {
                Some(trimmed(contents@))
            }),
            Err(e) => if e is NotFound {
                r == Ok::<Option<String>, CoreError>(None)
            } else {
                r == Err::<Option<String>, CoreError>(CoreError::SafeRead(e))
            },
        },
{
    match marker {
        Ok(contents) => {
            let name = trim(contents.as_str());
            if name.is_empty() {
                Ok(None)
            } else {
                Ok(Some(name.to_owned()))
            }
        },
        Err(err) => {
            if err.is_not_found() {
                Ok(None)
            } else {
                Err(CoreError::SafeRead(err))
            }
        },
    }
}

/// The text of the marker file that names a profile.
pub fn store_active_profile(name: &str) -> (r: String)
    ensures
        r@ == name@ + "\n"@,
{
    concat2(name, "\n")
}

/// What the marker file names is what was written to it, for a name that neither
/// begins nor ends with white space and is not empty.
pub proof fn marker_is_read_back(name: Seq<char>)
    requires
        name.len() > 0,
        !white_space(name[0]),
        !white_space(name.last()),
    ensures
        trimmed(name + "\n"@) == name,
{
    reveal_strlit("\n");
    let s = name + "\n"@;
    assert(s[0] == name[0]);
    assert(trim_front(s) == s);
    assert(s.last() == '\n');
    assert(s.drop_last() =~= name);
    assert(white_space('\n'));
    assert(trim_back(s) == trim_back(name));
    assert(trim_back(name) == name);
}

/// Order of profiles by name.
pub struct ByProfileName;

impl Order<Profile> for ByProfileName {
    open spec fn before(&self, a: Profile, b: Profile) -> bool {
        text_before(a.name@, b.name@)
    }

    proof fn asymmetric(&self, a: Profile, b: Profile) {
        if text_before(b.name@, a.name@) {
            text_before_transitive(a.name@, b.name@, a.name@);
            text_before_irreflexive(a.name@);
        }
    }

    proof fn negatively_transitive(&self, a: Profile, b: Profile, c: Profile) {
        text_before_total(a.name@, b.name@);
        text_before_total(b.name@, c.name@);
        if text_before(a.name@, c.name@) {
            if text_before(b.name@, a.name@) {
                text_before_transitive(b.name@, a.name@, c.name@);
            }
        }
    }

    fn is_before(&self, a: &Profile, b: &Profile) -> (r: bool) {
        text_lt(a.name.as_str(), b.name.as_str())
    }
}

/// The stored profiles in the order of their names.
pub fn list_profiles(found: Vec<Profile>) -> (r: Vec<Profile>)
    ensures
        stably_sorted(ByProfileName, found@, r@),
{
    stable_sort(&ByProfileName, found)
}

/// A file is a stored profile if its extension is `toml`.
pub fn is_profile_file(extension: Option<&str>) -> (r: bool)
    ensures
        r == (opt_view(extension) == Some("toml"@)),
{
    match extension {
        Some(ext) => str_eq(ext, "toml"),
        None => false,
    }
}

// ---------------------------------------------------------------------------
// Laws
// ---------------------------------------------------------------------------

/// A post outside the profile's team goes out under the other identity, and a channel that
/// was found elsewhere is marked as such: the two marks do not depend on each other.
pub proof fn marks_say_how_a_post_went_out(source: ResolutionSource, reduced: bool)
    ensures
        provenance(source, reduced).contains("team-fallback"@) <==> source is Fallback,
        provenance(source, reduced).contains("identity-reduce"@) <==> reduced,
        provenance(source, reduced).len() == (if source is Fallback {
            1int
        } else {
            0
        }) + (if reduced {
            1int
        } else {
            0
        }),
        source is Fallback && reduced ==> provenance(source, reduced)[0] == "team-fallback"@,
{
    reveal_strlit("team-fallback");
    reveal_strlit("identity-reduce");
    let p = provenance(source, reduced);
    assert("team-fallback"@.len() != "identity-reduce"@.len());
    if source is Fallback {
        assert(p[0] == "team-fallback"@);
    }
    if reduced {
        assert(p[p.len() - 1] == "identity-reduce"@);
    }
}

/// The profile that the environment names is taken where it exists, and nothing else is
/// where it does not.
pub proof fn the_named_profile_is_taken_or_none(
    policy: FallbackPolicy,
    inputs: ResolverInputs<'_>,
    r: Result<String, ResolverError>,
)
    requires
        resolution(None, policy, inputs, r),
        inputs.env_chanvoy_profile is Some,
    ensures
        r is Ok <==> exists|i: int|
            0 <= i < inputs.profiles@.len() && (#[trigger] inputs.profiles@[i])@
                == inputs.env_chanvoy_profile->0@,
        r is Ok ==> r->Ok_0@ == inputs.env_chanvoy_profile->0@,
        r is Err ==> (r->Err_0 matches ResolverError::EnvProfileNotFound { name, .. } && name@
            == inputs.env_chanvoy_profile->0@),
{
    profiles_are_among(inputs.profiles@, inputs.env_chanvoy_profile->0@);
}

proof fn profiles_are_among(v: Seq<String>, name: Seq<char>)
    ensures
        texts(v).contains(name) <==> exists|i: int| 0 <= i < v.len() && (#[trigger] v[i])@ == name,
{
    if texts(v).contains(name) {
        let i = texts(v).index_of(name);
        assert(v[i]@ == name);
    }
    if exists|i: int| 0 <= i < v.len() && (#[trigger] v[i])@ == name {
        let i = choose|i: int| 0 <= i < v.len() && (#[trigger] v[i])@ == name;
        assert(texts(v)[i] == name);
    }
}

/// The profile of a role and a scope is taken where it exists, and nothing else is where it
/// does not.
pub proof fn the_profile_of_the_role_is_taken_or_none(
    policy: FallbackPolicy,
    inputs: ResolverInputs<'_>,
    r: Result<String, ResolverError>,
)
    requires
        resolution(None, policy, inputs, r),
        inputs.env_chanvoy_profile is None,
        inputs.env_role is Some,
        inputs.env_scope is Some,
    ensures
        ({
            let wanted = inputs.env_role->0@ + seq!['-'] + inputs.env_scope->0@;
            &&& r is Ok <==> exists|i: int|
                0 <= i < inputs.profiles@.len() && (#[trigger] inputs.profiles@[i])@ == wanted
            &&& r is Ok ==> r->Ok_0@ == wanted
            &&& r is Err ==> (r->Err_0 matches ResolverError::EnvExactMatchNotFound {
                expected,
                ..
            } && expected@ == wanted)
        }),
{
    reveal_strlit("-");
    assert("-"@ =~= seq!['-']);
    profiles_are_among(
        inputs.profiles@,
        inputs.env_role->0@ + seq!['-'] + inputs.env_scope->0@,
    );
}

/// Where nobody names a profile, the only running daemon decides, and then the marker; a
/// command that may not fall back is refused.
pub proof fn fallbacks_come_last(
    policy: FallbackPolicy,
    inputs: ResolverInputs<'_>,
    r: Result<String, ResolverError>,
)
    requires
        resolution(None, policy, inputs, r),
        inputs.env_chanvoy_profile is None,
        inputs.env_role is None || inputs.env_scope is None,
    ensures
        policy is ExplicitOnly ==> r is Err && r->Err_0 is DestructiveRequiresExplicit,
        policy is AllowReadFallbacks && inputs.running_daemon_profiles@.len() == 1 ==> r is Ok
            && r->Ok_0@ == inputs.running_daemon_profiles@[0]@,
        policy is AllowReadFallbacks && inputs.running_daemon_profiles@.len() > 1 ==> r is Err
            && r->Err_0 is AmbiguousMultiDaemon,
        policy is AllowReadFallbacks && inputs.running_daemon_profiles@.len() == 0
            && inputs.active_profile is None ==> r is Err && r->Err_0 is CannotResolve,
        policy is AllowReadFallbacks && inputs.running_daemon_profiles@.len() == 0
            && inputs.active_profile is Some ==> (if exists|i: int|
            0 <= i < inputs.profiles@.len() && (#[trigger] inputs.profiles@[i])@
                == inputs.active_profile->0@ {
            r is Ok && r->Ok_0@ == inputs.active_profile->0@
        } else {
            r is Err && r->Err_0 is ActiveProfileNotFound
        }),
{
    assert(texts(inputs.running_daemon_profiles@).len() == inputs.running_daemon_profiles@.len());
    if inputs.active_profile is Some {
        profiles_are_among(inputs.profiles@, inputs.active_profile->0@);
    }
}

/// A line `NAME=value` gives the value its name, with or without `export`, quotes and space.
pub proof fn lines_name_their_values(name: Seq<char>, value: Seq<char>)
    requires
        name.len() > 0,
        !name.contains('='),
        name[0] != '#',
        !white_space(name[0]) && !white_space(name.last()),
        value.len() > 0,
        !white_space(value[0]) && !white_space(value.last()),
        !(value[0] == '"' && value.last() == '"'),
        !"export "@.is_prefix_of(name + seq!['='] + value),
        !"export "@.is_prefix_of(name + seq!['='] + (seq!['"'] + value + seq!['"'])),
    ensures
        env_entry(name + seq!['='] + value) == Some((name, value)),
        env_entry(name + seq!['='] + (seq!['"'] + value + seq!['"'])) == Some((name, value)),
        env_entry("export "@ + (name + seq!['='] + value)) == Some((name, value)),
{
    plain_line(name, value);
    let quoted = seq!['"'] + value + seq!['"'];
    crate::text::space_is_white_space('"');
    plain_line(name, quoted);
    assert(quoted.subrange(1, quoted.len() - 1) =~= value);
    reveal_strlit("export ");
    reveal_strlit("#");
    reveal_strlit("=");
    assert("="@ =~= seq!['=']);
    let line = name + seq!['='] + value;
    let exported = "export "@ + line;
    assert(exported[0] == 'e');
    crate::text::space_is_white_space('e');
    whole_text(exported);
    if "#"@.is_prefix_of(exported) {
        assert("#"@[0] == exported[0]);
    }
    assert("export "@ =~= exported.subrange(0, "export "@.len() as int));
    assert(exported.skip("export "@.len() as int) =~= line);
    crate::text::split_at_a_mark(name, '=', value);
    whole_text(name);
    whole_text(value);
}

proof fn whole_text(s: Seq<char>)
    requires
        s.len() > 0,
        !white_space(s[0]),
        !white_space(s.last()),
    ensures
        trimmed(s) == s,
{
    crate::text::trimming_drops_the_space_around(Seq::empty(), s, Seq::empty());
    assert(Seq::<char>::empty() + s + Seq::<char>::empty() =~= s);
}

proof fn plain_line(name: Seq<char>, value: Seq<char>)
    requires
        name.len() > 0,
        !name.contains('='),
        name[0] != '#',
        !white_space(name[0]) && !white_space(name.last()),
        value.len() > 0,
        !white_space(value[0]) && !white_space(value.last()),
        !"export "@.is_prefix_of(name + seq!['='] + value),
    ensures
        env_entry(name + seq!['='] + value) == Some((name, unquoted(value))),
{
    let line = name + seq!['='] + value;
    reveal_strlit("#");
    reveal_strlit("=");
    assert("="@ =~= seq!['=']);
    whole_text(line);
    if "#"@.is_prefix_of(line) {
        assert("#"@[0] == line[0]);
    }
    crate::text::split_at_a_mark(name, '=', value);
    whole_text(name);
    whole_text(value);
}

/// A blank line, a comment and a line without `=` say nothing.
pub proof fn comments_say_nothing(s: Seq<char>)
    requires
        trimmed(s).len() == 0 || trimmed(s)[0] == '#' || !trimmed(s).contains('='),
    ensures
        env_entry(s) is None,
{
    let t = trimmed(s);
    reveal_strlit("#");
    reveal_strlit("=");
    if t.len() > 0 && t[0] == '#' {
        assert("#"@ =~= t.subrange(0, 1));
    }
    if t.len() > 0 && !t.contains('=') {
        let n = if "export "@.is_prefix_of(t) {
            t.skip("export "@.len() as int)
        } else {
            t
        };
        crate::text::splits_come_together_again(n, "="@);
        match split_at_first(n, "="@) {
            Some((front, back)) => {
                assert(n[front.len() as int] == '=');
                if "export "@.is_prefix_of(t) {
                    assert(t[front.len() as int + "export "@.len()] == '=');
                }
                assert(t.contains('='));
            },
            None => {},
        }
    }
}

/// Of two lines for one name the later counts.
pub proof fn later_lines_count(lines: Seq<Seq<char>>, line: Seq<char>, name: Seq<char>)
    ensures
        env_entry(line) is Some && (env_entry(line)->0).0 == name ==> env_entries(
            lines.push(line),
        ).contains_key(name) && env_entries(lines.push(line))[name] == (env_entry(line)->0).1,
        env_entry(line) is None || (env_entry(line)->0).0 != name ==> env_entries(
            lines.push(line),
        ).contains_key(name) == env_entries(lines).contains_key(name) && (env_entries(
            lines,
        ).contains_key(name) ==> env_entries(lines.push(line))[name] == env_entries(lines)[name]),
        !env_entries(Seq::empty()).contains_key(name),
{
    assert(lines.push(line).drop_last() =~= lines);
}

/// A token is taken where it is there and not empty, and is then the one that was found.
pub proof fn empty_tokens_are_missing(
    r: Result<String, CoreError>,
    found: Option<Seq<char>>,
    env_name: Seq<char>,
)
    requires
        takes_token(r, found, env_name),
    ensures
        r is Ok <==> found is Some && found->0.len() > 0,
        r is Ok ==> r->Ok_0@ == found->0,
        r is Err ==> (r->Err_0 matches CoreError::MissingCredential(name) && name@ == env_name),
{
}

/// Profiles are listed by their names.
pub proof fn profiles_are_listed_by_name(found: Seq<Profile>, r: Seq<Profile>, i: int, j: int)
    requires
        stably_sorted(ByProfileName, found, r),
        0 <= i < j < r.len(),
    ensures
        !text_before(r[j].name@, r[i].name@),
        r.to_multiset() == found.to_multiset(),
{
    crate::order::sorted_items_are_in_order(ByProfileName, found, r);
    assert(!ByProfileName.before(r[j], r[i]));
}

/// A profile that cannot be chosen is refused with the reason and the profiles that there are.
pub proof fn refusals_of_a_profile_say_why(e: ResolverError)
    ensures
        resolver_error_text(e) == (match e {
        ResolverError::EnvProfileNotFound { name, available } =>
            "CHANVOY_PROFILE is set to '"@ + name@
                + "' but no such profile exists; create it or unset the env var. Available profiles: "@
                + debug_list(texts(available@)),
        ResolverError::EnvExactMatchNotFound { role, scope, expected, available } =>
            "env identity is "@ + role@ + "/"@ + scope@ + " but no profile named '"@ + expected@
                + "' exists; run `chanvoy auto-setup` to materialize it. Available profiles: "@
                + debug_list(texts(available@)),
        ResolverError::AmbiguousMultiDaemon { running } =>
            "multiple chanvoy daemons are running ("@ + debug_list(texts(running@))
                + "); pass --profile to disambiguate"@,
        ResolverError::DestructiveRequiresExplicit { available } =>
            "side-effecting daemon-lifecycle verb requires explicit profile selection; pass --profile, set CHANVOY_PROFILE, or source an identity script. Available profiles: "@
                + debug_list(texts(available@)),
        ResolverError::ActiveProfileNotFound { name, available } =>
            "the persistent active_profile marker points at '"@ + name@
                + "' but no such profile exists (likely renamed or deleted); pass --profile, set LANYTE_AGENT_ROLE+LANYTE_AGENT_SCOPE, or run `chanvoy auto-setup` to refresh the marker. Available profiles: "@
                + debug_list(texts(available@)),
        ResolverError::CannotResolve { available } =>
            "unable to resolve a chanvoy profile; pass --profile or set LANYTE_AGENT_ROLE+LANYTE_AGENT_SCOPE. Available profiles: "@
                + debug_list(texts(available@)),
    }),
{
}

/// A post goes out under the other identity if and only if it leaves the profile's team.
pub proof fn posts_elsewhere_are_reduced(profile_team: &str, team: &str, r: bool)
    requires
        call_ensures(identity_reduces, (profile_team, team), r),
    ensures
        r <==> profile_team@ != team@,
{
}

/// A token comes from the file where the profile says so, and else from the variable.
pub proof fn tokens_come_from_where_the_profile_says(
    profile: &Profile,
    variable: Option<&str>,
    file: Result<String, SafeReadError>,
    r: Result<String, CoreError>,
)
    requires
        call_ensures(load_token, (profile, variable, file), r),
    ensures
        !(profile.credential_mode is EnvFile) && variable is Some && variable->0@.len() > 0 ==> r is Ok
            && r->Ok_0@ == variable->0@,
        !(profile.credential_mode is EnvFile) && (variable is None || variable->0@.len() == 0) ==> r
            is Err && r->Err_0 is MissingCredential,
        profile.credential_mode is EnvFile && profile.env_file is None ==> r is Err && r->Err_0 is
            MissingEnvFile,
        profile.credential_mode is EnvFile && profile.env_file is Some && file is Err ==> r == Err::<
            String,
            CoreError,
        >(CoreError::SafeRead(file->Err_0)),
        profile.credential_mode is EnvFile && profile.env_file is Some && file is Ok ==> (r is Ok
            <==> env_entries(split_on(file->Ok_0@, '\n')).contains_key(profile.env_name@)
            && env_entries(split_on(file->Ok_0@, '\n'))[profile.env_name@].len() > 0),
        profile.credential_mode is EnvFile && r is Ok ==> r->Ok_0@ == env_entries(
            split_on(file->Ok_0@, '\n'),
        )[profile.env_name@],
{
}

/// The marker names the active profile, without the space around it; an empty or missing one
/// names none.
pub proof fn markers_name_the_active_profile(
    marker: Result<String, SafeReadError>,
    r: Result<Option<String>, CoreError>,
    name: &str,
    stored: String,
)
    requires
        call_ensures(load_active_profile, (marker,), r),
        call_ensures(store_active_profile, (name,), stored),
    ensures
        marker is Ok && trimmed(marker->Ok_0@).len() > 0 ==> r is Ok && r->Ok_0 is Some
            && r->Ok_0->0@ == trimmed(marker->Ok_0@),
        marker is Ok && trimmed(marker->Ok_0@).len() == 0 ==> r is Ok && r->Ok_0 is None,
        marker is Err && marker->Err_0 is NotFound ==> r is Ok && r->Ok_0 is None,
        marker is Err && !(marker->Err_0 is NotFound) ==> r is Err,
        stored@ == name@ + "\n"@,
{
}

/// A profile without a name goes by that of its file; one that is not there is not found.
pub proof fn profiles_go_by_their_file(
    profile: Profile,
    name: &str,
    r: Profile,
    err: SafeReadError,
    e: CoreError,
)
    requires
        call_ensures(named_profile, (profile, name), r),
        call_ensures(profile_read_error, (name, err), e),
    ensures
        profile.name@.len() > 0 ==> r == profile,
        profile.name@.len() == 0 ==> r.name@ == name@ && r.role == profile.role && r.server_url
            == profile.server_url,
        err is NotFound ==> e is ProfileNotFound && e->ProfileNotFound_0@ == name@,
        !(err is NotFound) ==> e == CoreError::SafeRead(err),
{
}

/// Where a token is looked for, and which files are profiles.
pub proof fn tokens_are_looked_for_by_name(
    profile: &Profile,
    r: Result<TokenSource, CoreError>,
    name: &str,
    value: Option<&str>,
    token: Result<String, CoreError>,
    extension: Option<&str>,
    is_profile: bool,
)
    requires
        call_ensures(token_source, (profile,), r),
        call_ensures(token_from_value, (name, value), token),
        call_ensures(is_profile_file, (extension,), is_profile),
    ensures
        !(profile.credential_mode is EnvFile) ==> r is Ok && r->Ok_0 is Variable
            && r->Ok_0->Variable_0@ == profile.env_name@,
        profile.credential_mode is EnvFile && profile.env_file is Some ==> r is Ok && r->Ok_0 is File
            && r->Ok_0->File_path@ == profile.env_file->0@ && r->Ok_0->File_name@
            == profile.env_name@,
        profile.credential_mode is EnvFile && profile.env_file is None ==> r is Err && r->Err_0 is
            MissingEnvFile,
        token is Ok <==> value is Some && value->0@.len() > 0,
        token is Ok ==> token->Ok_0@ == value->0@,
        token is Err ==> token->Err_0 is MissingCredential && token->Err_0->MissingCredential_0@
            == name@,
        is_profile <==> extension is Some && extension->0@ == "toml"@,
{
}

/// What a profile holds where it says nothing.
pub proof fn profiles_have_defaults(team: String, mode: CredentialMode, class: CapabilityClass)
    requires
        call_ensures(default_team_name, (), team),
        call_ensures(default_credential_mode, (), mode),
        call_ensures(default_capability_class, (), class),
    ensures
        team@ == "org-lanytehq"@ && mode is EnvName && class is Standard,
{
}

} // verus!
