//! Where the files of a profile are.
//!
//! Directories are found from the environment; the functions here take what
//! the environment says and name the files in them.
use vstd::prelude::*;
use vstd::string::*;

use crate::text::{concat2, concat3, ends_with, starts_with};

verus! {

/// A path below a directory: an absolute name stands alone, and one slash
/// separates a name from its directory.
pub open spec fn joined_path(dir: Seq<char>, name: Seq<char>) -> Seq<char> {
    if "/"@.is_prefix_of(name) || dir.len() == 0 {
        name
    } else if "/"@.is_suffix_of(dir) {
        dir + name
    } else {
        dir + "/"@ + name
    }
}

pub fn join_path(dir: &str, name: &str) -> (r: String)
    ensures
        r@ == joined_path(dir@, name@),
{
    if starts_with(name, "/") || dir.is_empty() {
        name.to_owned()
    } else if ends_with(dir, "/") {
        concat2(dir, name)
    } else {
        concat3(dir, "/", name)
    }
}

/// The configuration directory: the override, else a directory below the
/// configuration directory of the platform, else one below the current one.
pub open spec fn config_dir(overridden: Option<Seq<char>>, platform: Option<Seq<char>>) -> Seq<
    char,
> {
    match overridden {
        Some(dir) => dir,
        None => match platform {
            Some(dir) => joined_path(dir, "lanytehq/chanvoy"@),
            None => joined_path("."@, "lanytehq/chanvoy"@),
        },
    }
}

/// The view of an optional text.
pub open spec fn opt_view(s: Option<&str>) -> Option<Seq<char>> {
    match s {
        Some(t) => Some(t@),
        None => None,
    }
}

/// `overridden` is `CHANVOY_CONFIG_DIR`, `platform` the directory that the
/// platform keeps for configuration.
pub fn default_chanvoy_config_dir(overridden: Option<&str>, platform: Option<&str>) -> (r: String)
    ensures
        r@ == config_dir(opt_view(overridden), opt_view(platform)),
{
    match overridden {
        Some(dir) => dir.to_owned(),
        None => match platform {
            Some(dir) => join_path(dir, "lanytehq/chanvoy"),
            None => join_path(".", "lanytehq/chanvoy"),
        },
    }
}

/// The directory of sockets and process ids: the override, else a directory
/// below the first of the session's, the platform's and the temporary one.
pub open spec fn runtime_dir(
    overridden: Option<Seq<char>>,
    session: Option<Seq<char>>,
    platform: Option<Seq<char>>,
    temp: Seq<char>,
) -> Seq<char> {
    match overridden {
        Some(dir) => dir,
        None => match session {
            Some(dir) => joined_path(dir, "chanvoy"@),
            None => match platform {
                Some(dir) => joined_path(dir, "chanvoy"@),
                None => joined_path(temp, "chanvoy"@),
            },
        },
    }
}

/// `overridden` is `CHANVOY_RUNTIME_DIR`, `session` is `XDG_RUNTIME_DIR`.
pub fn default_runtime_dir(
    overridden: Option<&str>,
    session: Option<&str>,
    platform: Option<&str>,
    temp: &str,
) -> (r: String)
    ensures
        r@ == runtime_dir(opt_view(overridden), opt_view(session), opt_view(platform), temp@),
{
    match overridden {
        Some(dir) => dir.to_owned(),
        None => match session {
            Some(dir) => join_path(dir, "chanvoy"),
            None => match platform {
                Some(dir) => join_path(dir, "chanvoy"),
                None => join_path(temp, "chanvoy"),
            },
        },
    }
}

pub fn default_profile_dir(config_dir: &str) -> (r: String)
    ensures
        r@ == joined_path(config_dir@, "profiles"@),
{
    join_path(config_dir, "profiles")
}

pub fn socket_path_for_profile(runtime_dir: &str, profile: &str) -> (r: String)
    ensures
        r@ == joined_path(runtime_dir@, profile@ + ".sock"@),
{
    join_path(runtime_dir, concat2(profile, ".sock").as_str())
}

pub fn pid_path_for_profile(runtime_dir: &str, profile: &str) -> (r: String)
    ensures
        r@ == joined_path(runtime_dir@, profile@ + ".pid"@),
{
    join_path(runtime_dir, concat2(profile, ".pid").as_str())
}

pub fn bootstrap_path_for_profile(runtime_dir: &str, profile: &str) -> (r: String)
    ensures
        r@ == joined_path(runtime_dir@, profile@ + ".bootstrap.json"@),
{
    join_path(runtime_dir, concat2(profile, ".bootstrap.json").as_str())
}

pub fn active_profile_path(config_dir: &str) -> (r: String)
    ensures
        r@ == joined_path(config_dir@, "active_profile"@),
{
    join_path(config_dir, "active_profile")
}

pub fn attention_state_path(config_dir: &str, profile_name: &str) -> (r: String)
    ensures
        r@ == joined_path(config_dir@, "state-"@ + profile_name@ + ".json"@),
{
    join_path(config_dir, concat3("state-", profile_name, ".json").as_str())
}

pub fn profile_path(profile_dir: &str, name: &str) -> (r: String)
    ensures
        r@ == joined_path(profile_dir@, name@ + ".toml"@),
{
    join_path(profile_dir, concat2(name, ".toml").as_str())
}

/// A name stands below its directory; a name that is a path of its own stays.
pub proof fn names_stand_below_their_directory(dir: Seq<char>, name: Seq<char>)
    requires
        dir.len() > 0,
        name.len() > 0,
    ensures
        name[0] == '/' ==> joined_path(dir, name) == name,
        name[0] != '/' && dir.last() != '/' ==> joined_path(dir, name) == dir + seq!['/'] + name,
        name[0] != '/' && dir.last() == '/' ==> joined_path(dir, name) == dir + name,
{
    reveal_strlit("/");
    assert("/"@ =~= seq!['/']);
    if name[0] == '/' {
        assert("/"@ =~= name.subrange(0, 1));
    } else if "/"@.is_prefix_of(name) {
        assert("/"@[0] == name[0]);
    }
    if dir.last() == '/' {
        assert("/"@ =~= dir.subrange(dir.len() - 1, dir.len() as int));
    } else if "/"@.is_suffix_of(dir) {
        assert("/"@.last() == dir.last());
    }
}

/// A directory that is set counts before every other; then that of the session, then that of
/// the platform, then the one for temporary files.
pub proof fn set_directories_count_first(
    set: Seq<char>,
    session: Option<Seq<char>>,
    platform: Option<Seq<char>>,
    temp: Seq<char>,
)
    ensures
        config_dir(Some(set), platform) == set,
        runtime_dir(Some(set), session, platform, temp) == set,
        session is Some ==> runtime_dir(None, session, platform, temp) == joined_path(
            session->0,
            "chanvoy"@,
        ),
        session is None && platform is Some ==> runtime_dir(None, session, platform, temp)
            == joined_path(platform->0, "chanvoy"@),
        session is None && platform is None ==> runtime_dir(None, session, platform, temp)
            == joined_path(temp, "chanvoy"@),
        platform is Some ==> config_dir(None, platform) == joined_path(
            platform->0,
            "lanytehq/chanvoy"@,
        ),
        platform is None ==> config_dir(None, platform) == joined_path("."@, "lanytehq/chanvoy"@),
{
}

/// Where the files of a profile stand.
pub proof fn files_stand_by_their_profile(
    dir: &str,
    profile: &str,
    socket: String,
    pid: String,
    bootstrap: String,
    state: String,
    toml: String,
    active: String,
    profiles: String,
)
    requires
        call_ensures(socket_path_for_profile, (dir, profile), socket),
        call_ensures(pid_path_for_profile, (dir, profile), pid),
        call_ensures(bootstrap_path_for_profile, (dir, profile), bootstrap),
        call_ensures(attention_state_path, (dir, profile), state),
        call_ensures(profile_path, (dir, profile), toml),
        call_ensures(active_profile_path, (dir,), active),
        call_ensures(default_profile_dir, (dir,), profiles),
    ensures
        socket@ == joined_path(dir@, profile@ + ".sock"@),
        pid@ == joined_path(dir@, profile@ + ".pid"@),
        bootstrap@ == joined_path(dir@, profile@ + ".bootstrap.json"@),
        state@ == joined_path(dir@, "state-"@ + profile@ + ".json"@),
        toml@ == joined_path(dir@, profile@ + ".toml"@),
        active@ == joined_path(dir@, "active_profile"@),
        profiles@ == joined_path(dir@, "profiles"@),
{
}

} // verus!
