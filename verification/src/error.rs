//! The errors of the library and the diagnostics that they carry.
use vstd::prelude::*;
use vstd::string::*;

use crate::safe_read::{safe_read_text, SafeReadError};
use crate::text::{debug_list, debug_path, debug_quoted, debug_quoted_path, debug_str, debug_strings,
    decimal_text, texts, u64_text};

verus! {

/// Why an operation failed.
#[derive(Debug)]
#[non_exhaustive]
pub enum CoreError {
    MissingCredential(String),
    MissingEnvFile,
    ProfileIdentityMismatch { expected: String, actual: String },
    BootstrapHandoffFailed { profile: String, nonce_env: String, path: String },
    ChannelNotFoundInAnyTeam { channel: String, teams: Vec<String> },
    NotAMemberOfTeam { team: String, teams: Vec<String> },
    AmbiguousChannel { channel: String, teams: Vec<String> },
    AnchorNotFound(String),
    AnchorChannelMismatch { post_id: String, channel: String },
    NoPriorAuthoredPost { channel: String, username: String },
    UnboundThreadReadRemoved,
    EmptyThread { root_id: String },
    NoStoredCursor { channel: String },
    RequiresElevatedCapability,
    WaitTimeout(String),
    WaitFilterInvalid(String),
    WaitProviderDegraded { channel: String, message: String },
    ProfileNotFound(String),
    ReduceProfileNotFound { calling: String, missing: String, available: Vec<String> },
    ReduceIdentityMismatch { profile: String, expected: String, actual: String },
    SafeRead(SafeReadError),
    UnsupportedProvider,
    Io(String),
    TomlDe(String),
    TomlSer(String),
    Http(String),
    Json(String),
    Api { status: u16, message: String },
    PinPermissionDenied {
        verb: String,
        bot_username: String,
        team: String,
        channel: String,
        message: String,
    },
}

/// How an HTTP status code is shown: the number and its reason phrase.
pub uninterp spec fn status_line(code: u16) -> Seq<char>;

/// `reqwest::StatusCode`: shows a status code as its number followed by its
/// reason phrase. The text is a function of the code.
#[verifier::external_body]
fn status_text(code: u16) -> (r: String)
    requires
        100 <= code <= 999,
    ensures
        r@ == status_line(code),
{
    match reqwest::StatusCode::from_u16(code) {
        Ok(status) => status.to_string(),
        Err(err) => err.to_string(),
    }
}

/// A status as diagnostics show it; a number outside the range of status codes
/// is shown alone.
pub open spec fn shown_status(code: u16) -> Seq<char> {
    if 100 <= code <= 999 {
        status_line(code)
    } else {
        decimal_text(code as nat)
    }
}

pub fn show_status(code: u16) -> (r: String)
    ensures
        r@ == shown_status(code),
{
    if 100 <= code && code <= 999 {
        status_text(code)
    } else {
        u64_text(code as u64)
    }
}

/// The diagnostic of an error.
pub open spec fn core_error_text(e: CoreError) -> Seq<char> {
    match e {
        CoreError::MissingCredential(name) => "missing credential source "@ + name@,
        CoreError::MissingEnvFile =>
            "credential mode env_file requires --env-file in the profile"@,
        CoreError::ProfileIdentityMismatch { expected, actual } =>
            "profile bot username mismatch: expected "@ + expected@ + ", got "@ + actual@,
        CoreError::BootstrapHandoffFailed { profile, nonce_env, path } =>
            "PER-014 bootstrap handoff failed for profile "@ + profile@ + ": "@ + nonce_env@
                + " is set but "@ + debug_quoted_path(path@)
                + " is missing. Likely runtime-dir drift between auto-setup and daemon, sandbox temp-dir cleanup, or a consume race. Re-run `chanvoy auto-setup` to re-validate identity."@,
        CoreError::ChannelNotFoundInAnyTeam { channel, teams } =>
            "channel "@ + debug_quoted(channel@)
                + " not found on any team you are a member of. Teams searched: "@
                + debug_list(texts(teams@))
                + ". If the channel exists on a different team, ask dispatch to add the bot, or use the `<team>/<channel>` syntax with a team you are a member of."@,
        CoreError::NotAMemberOfTeam { team, teams } =>
            "team "@ + debug_quoted(team@)
                + " requested via <team>/<channel> syntax, but you are not a member of it. Teams you are a member of: "@
                + debug_list(texts(teams@)) + "."@,
        CoreError::AmbiguousChannel { channel, teams } =>
            "channel "@ + debug_quoted(channel@)
                + " is ambiguous \u{2014} found on multiple teams: "@ + debug_list(texts(teams@))
                + ". Use `--team <slug>` or `<team>/<channel>` syntax to disambiguate."@,
        CoreError::AnchorNotFound(id) => "anchor post "@ + id@ + " not found"@,
        CoreError::AnchorChannelMismatch { post_id, channel } =>
            "anchor post "@ + post_id@ + " is not in channel "@ + channel@,
        CoreError::NoPriorAuthoredPost { channel, username } =>
            "no prior authored post found in channel "@ + channel@ + " for "@ + username@,
        CoreError::UnboundThreadReadRemoved =>
            "read_thread was removed: it could not verify which channel a thread belonged to. Call read_thread_in_channel(expected_channel_id, channel_name, root_post_id) instead."@,
        CoreError::EmptyThread { root_id } =>
            "thread "@ + root_id@
                + " came back empty. A thread always contains at least its root post, so this means the post was deleted, the id belongs to a channel this bot cannot read, or the id is not a post id. Check the post id and the bot's channel access."@,
        CoreError::NoStoredCursor { channel } =>
            "no stored cursor exists for channel "@ + channel@,
        CoreError::RequiresElevatedCapability => "operation requires elevated capability"@,
        CoreError::WaitTimeout(channel) => "timeout waiting for channel "@ + channel@,
        CoreError::WaitFilterInvalid(why) => "wait input error: "@ + why@,
        CoreError::WaitProviderDegraded { channel, message } =>
            "wait observation failed for channel "@ + channel@ + ": "@ + message@,
        CoreError::ProfileNotFound(name) => "profile "@ + name@ + " not found"@,
        CoreError::ReduceProfileNotFound { calling, missing, available } =>
            "profile '"@ + calling@ + "' has reduce.use_profile = '"@ + missing@
                + "' but no such profile exists; create it (`chanvoy auto-setup` under the family identity) or correct the reduce policy. Available profiles: "@
                + debug_list(texts(available@)),
        CoreError::ReduceIdentityMismatch { profile, expected, actual } =>
            "reduce target profile '"@ + profile@ + "' is configured for bot '"@ + expected@
                + "', but the token resolved for it authenticates as '"@ + actual@
                + "' \u{2014} the family profile likely shares an env_name/token source with the calling (stream) profile. Give the family profile its own token env (distinct `env_name`) so its identity cannot be shadowed by the stream's."@,
        CoreError::SafeRead(e) => safe_read_text(e),
        CoreError::UnsupportedProvider => "unknown provider in profile"@,
        CoreError::Io(why) => "io error: "@ + why@,
        CoreError::TomlDe(why) => "toml parse error: "@ + why@,
        CoreError::TomlSer(why) => "toml serialize error: "@ + why@,
        CoreError::Http(why) => "http error: "@ + why@,
        CoreError::Json(why) => "serialization error: "@ + why@,
        CoreError::Api { status, message } =>
            "api error "@ + shown_status(status) + ": "@ + message@,
        CoreError::PinPermissionDenied { verb, bot_username, team, channel, message } =>
            "bot "@ + debug_quoted(bot_username@)
                + " lacks the channel-admin permission required to "@ + verb@ + " posts in "@
                + debug_quoted(team@) + "/"@ + debug_quoted(channel@)
                + ". Ask your Mattermost workspace admin to grant the bot the `manage_public_channel_members` / `manage_private_channel_members` scheme role on the channel, or use a profile whose bot already has channel-admin there. Mattermost reported: "@
                + message@,
    }
}

impl CoreError {
    /// The diagnostic.
    pub fn message(&self) -> (r: String)
        ensures
            r@ == core_error_text(*self),
    {
        match self {
            CoreError::MissingCredential(name) => {
                let mut m = String::new();
                m.append("missing credential source ");
                m.append(name.as_str());
                proof {
                    assert(m@ =~= core_error_text(*self));
                }
                m
            },
            CoreError::MissingEnvFile => {
                let mut m = String::new();
                m.append("credential mode env_file requires --env-file in the profile");
                proof {
                    assert(m@ =~= core_error_text(*self));
                }
                m
            },
            CoreError::ProfileIdentityMismatch { expected, actual } => {
                let mut m = String::new();
                m.append("profile bot username mismatch: expected ");
                m.append(expected.as_str());
                m.append(", got ");
                m.append(actual.as_str());
                proof {
                    assert(m@ =~= core_error_text(*self));
                }
                m
            },
            CoreError::BootstrapHandoffFailed { profile, nonce_env, path } => {
                let mut m = String::new();
                m.append("PER-014 bootstrap handoff failed for profile ");
                m.append(profile.as_str());
                m.append(": ");
                m.append(nonce_env.as_str());
                m.append(" is set but ");
                m.append(debug_path(path.as_str()).as_str());
                m.append(" is missing. Likely runtime-dir drift between auto-setup and daemon, sandbox temp-dir cleanup, or a consume race. Re-run `chanvoy auto-setup` to re-validate identity.");
                proof {
                    assert(m@ =~= core_error_text(*self));
                }
                m
            },
            CoreError::ChannelNotFoundInAnyTeam { channel, teams } => {
                let mut m = String::new();
                m.append("channel ");
                m.append(debug_str(channel.as_str()).as_str());
                m.append(" not found on any team you are a member of. Teams searched: ");
                m.append(debug_strings(teams).as_str());
                m.append(". If the channel exists on a different team, ask dispatch to add the bot, or use the `<team>/<channel>` syntax with a team you are a member of.");
                proof {
                    assert(m@ =~= core_error_text(*self));
                }
                m
            },
            CoreError::NotAMemberOfTeam { team, teams } => {
                let mut m = String::new();
                m.append("team ");
                m.append(debug_str(team.as_str()).as_str());
                m.append(" requested via <team>/<channel> syntax, but you are not a member of it. Teams you are a member of: ");
                m.append(debug_strings(teams).as_str());
                m.append(".");
                proof {
                    assert(m@ =~= core_error_text(*self));
                }
                m
            },
            CoreError::AmbiguousChannel { channel, teams } => {
                let mut m = String::new();
                m.append("channel ");
                m.append(debug_str(channel.as_str()).as_str());
                m.append(" is ambiguous \u{2014} found on multiple teams: ");
                m.append(debug_strings(teams).as_str());
                m.append(". Use `--team <slug>` or `<team>/<channel>` syntax to disambiguate.");
                proof {
                    assert(m@ =~= core_error_text(*self));
                }
                m
            },
            CoreError::AnchorNotFound(id) => {
                let mut m = String::new();
                m.append("anchor post ");
                m.append(id.as_str());
                m.append(" not found");
                proof {
                    assert(m@ =~= core_error_text(*self));
                }
                m
            },
            CoreError::AnchorChannelMismatch { post_id, channel } => {
                let mut m = String::new();
                m.append("anchor post ");
                m.append(post_id.as_str());
                m.append(" is not in channel ");
                m.append(channel.as_str());
                proof {
                    assert(m@ =~= core_error_text(*self));
                }
                m
            },
            CoreError::NoPriorAuthoredPost { channel, username } => {
                let mut m = String::new();
                m.append("no prior authored post found in channel ");
                m.append(channel.as_str());
                m.append(" for ");
                m.append(username.as_str());
                proof {
                    assert(m@ =~= core_error_text(*self));
                }
                m
            },
            CoreError::UnboundThreadReadRemoved => {
                let mut m = String::new();
                m.append("read_thread was removed: it could not verify which channel a thread belonged to. Call read_thread_in_channel(expected_channel_id, channel_name, root_post_id) instead.");
                proof {
                    assert(m@ =~= core_error_text(*self));
                }
                m
            },
            CoreError::EmptyThread { root_id } => {
                let mut m = String::new();
                m.append("thread ");
                m.append(root_id.as_str());
                m.append(" came back empty. A thread always contains at least its root post, so this means the post was deleted, the id belongs to a channel this bot cannot read, or the id is not a post id. Check the post id and the bot's channel access.");
                proof {
                    assert(m@ =~= core_error_text(*self));
                }
                m
            },
            CoreError::NoStoredCursor { channel } => {
                let mut m = String::new();
                m.append("no stored cursor exists for channel ");
                m.append(channel.as_str());
                proof {
                    assert(m@ =~= core_error_text(*self));
                }
                m
            },
            CoreError::RequiresElevatedCapability => {
                let mut m = String::new();
                m.append("operation requires elevated capability");
                proof {
                    assert(m@ =~= core_error_text(*self));
                }
                m
            },
            CoreError::WaitTimeout(channel) => {
                let mut m = String::new();
                m.append("timeout waiting for channel ");
                m.append(channel.as_str());
                proof {
                    assert(m@ =~= core_error_text(*self));
                }
                m
            },
            CoreError::WaitFilterInvalid(why) => {
                let mut m = String::new();
                m.append("wait input error: ");
                m.append(why.as_str());
                proof {
                    assert(m@ =~= core_error_text(*self));
                }
                m
            },
            CoreError::WaitProviderDegraded { channel, message } => {
                let mut m = String::new();
                m.append("wait observation failed for channel ");
                m.append(channel.as_str());
                m.append(": ");
                m.append(message.as_str());
                proof {
                    assert(m@ =~= core_error_text(*self));
                }
                m
            },
            CoreError::ProfileNotFound(name) => {
                let mut m = String::new();
                m.append("profile ");
                m.append(name.as_str());
                m.append(" not found");
                proof {
                    assert(m@ =~= core_error_text(*self));
                }
                m
            },
            CoreError::ReduceProfileNotFound { calling, missing, available } => {
                let mut m = String::new();
                m.append("profile '");
                m.append(calling.as_str());
                m.append("' has reduce.use_profile = '");
                m.append(missing.as_str());
                m.append("' but no such profile exists; create it (`chanvoy auto-setup` under the family identity) or correct the reduce policy. Available profiles: ");
                m.append(debug_strings(available).as_str());
                proof {
                    assert(m@ =~= core_error_text(*self));
                }
                m
            },
            CoreError::ReduceIdentityMismatch { profile, expected, actual } => {
                let mut m = String::new();
                m.append("reduce target profile '");
                m.append(profile.as_str());
                m.append("' is configured for bot '");
                m.append(expected.as_str());
                m.append("', but the token resolved for it authenticates as '");
                m.append(actual.as_str());
                m.append("' \u{2014} the family profile likely shares an env_name/token source with the calling (stream) profile. Give the family profile its own token env (distinct `env_name`) so its identity cannot be shadowed by the stream's.");
                proof {
                    assert(m@ =~= core_error_text(*self));
                }
                m
            },
            CoreError::SafeRead(e) => {
                let mut m = String::new();
                m.append(e.message().as_str());
                proof {
                    assert(m@ =~= core_error_text(*self));
                }
                m
            },
            CoreError::UnsupportedProvider => {
                let mut m = String::new();
                m.append("unknown provider in profile");
                proof {
                    assert(m@ =~= core_error_text(*self));
                }
                m
            },
            CoreError::Io(why) => {
                let mut m = String::new();
                m.append("io error: ");
                m.append(why.as_str());
                proof {
                    assert(m@ =~= core_error_text(*self));
                }
                m
            },
            CoreError::TomlDe(why) => {
                let mut m = String::new();
                m.append("toml parse error: ");
                m.append(why.as_str());
                proof {
                    assert(m@ =~= core_error_text(*self));
                }
                m
            },
            CoreError::TomlSer(why) => {
                let mut m = String::new();
                m.append("toml serialize error: ");
                m.append(why.as_str());
                proof {
                    assert(m@ =~= core_error_text(*self));
                }
                m
            },
            CoreError::Http(why) => {
                let mut m = String::new();
                m.append("http error: ");
                m.append(why.as_str());
                proof {
                    assert(m@ =~= core_error_text(*self));
                }
                m
            },
            CoreError::Json(why) => {
                let mut m = String::new();
                m.append("serialization error: ");
                m.append(why.as_str());
                proof {
                    assert(m@ =~= core_error_text(*self));
                }
                m
            },
            CoreError::Api { status, message } => {
                let mut m = String::new();
                m.append("api error ");
                m.append(show_status(*status).as_str());
                m.append(": ");
                m.append(message.as_str());
                proof {
                    assert(m@ =~= core_error_text(*self));
                }
                m
            },
            CoreError::PinPermissionDenied { verb, bot_username, team, channel, message } => {
                let mut m = String::new();
                m.append("bot ");
                m.append(debug_str(bot_username.as_str()).as_str());
                m.append(" lacks the channel-admin permission required to ");
                m.append(verb.as_str());
                m.append(" posts in ");
                m.append(debug_str(team.as_str()).as_str());
                m.append("/");
                m.append(debug_str(channel.as_str()).as_str());
                m.append(". Ask your Mattermost workspace admin to grant the bot the `manage_public_channel_members` / `manage_private_channel_members` scheme role on the channel, or use a profile whose bot already has channel-admin there. Mattermost reported: ");
                m.append(message.as_str());
                proof {
                    assert(m@ =~= core_error_text(*self));
                }
                m
            },
        }
    }
}

/// An error says what is wrong, and of which thing: the post, the channel, the teams, the
/// profile or the bot that it is about.
pub proof fn errors_say_what_is_wrong(e: CoreError)
    ensures
        core_error_text(e) == (match e {
        CoreError::MissingCredential(name) => "missing credential source "@ + name@,
        CoreError::MissingEnvFile =>
            "credential mode env_file requires --env-file in the profile"@,
        CoreError::ProfileIdentityMismatch { expected, actual } =>
            "profile bot username mismatch: expected "@ + expected@ + ", got "@ + actual@,
        CoreError::BootstrapHandoffFailed { profile, nonce_env, path } =>
            "PER-014 bootstrap handoff failed for profile "@ + profile@ + ": "@ + nonce_env@
                + " is set but "@ + debug_quoted_path(path@)
                + " is missing. Likely runtime-dir drift between auto-setup and daemon, sandbox temp-dir cleanup, or a consume race. Re-run `chanvoy auto-setup` to re-validate identity."@,
        CoreError::ChannelNotFoundInAnyTeam { channel, teams } =>
            "channel "@ + debug_quoted(channel@)
                + " not found on any team you are a member of. Teams searched: "@
                + debug_list(texts(teams@))
                + ". If the channel exists on a different team, ask dispatch to add the bot, or use the `<team>/<channel>` syntax with a team you are a member of."@,
        CoreError::NotAMemberOfTeam { team, teams } =>
            "team "@ + debug_quoted(team@)
                + " requested via <team>/<channel> syntax, but you are not a member of it. Teams you are a member of: "@
                + debug_list(texts(teams@)) + "."@,
        CoreError::AmbiguousChannel { channel, teams } =>
            "channel "@ + debug_quoted(channel@)
                + " is ambiguous \u{2014} found on multiple teams: "@ + debug_list(texts(teams@))
                + ". Use `--team <slug>` or `<team>/<channel>` syntax to disambiguate."@,
        CoreError::AnchorNotFound(id) => "anchor post "@ + id@ + " not found"@,
        CoreError::AnchorChannelMismatch { post_id, channel } =>
            "anchor post "@ + post_id@ + " is not in channel "@ + channel@,
        CoreError::NoPriorAuthoredPost { channel, username } =>
            "no prior authored post found in channel "@ + channel@ + " for "@ + username@,
        CoreError::UnboundThreadReadRemoved =>
            "read_thread was removed: it could not verify which channel a thread belonged to. Call read_thread_in_channel(expected_channel_id, channel_name, root_post_id) instead."@,
        CoreError::EmptyThread { root_id } =>
            "thread "@ + root_id@
                + " came back empty. A thread always contains at least its root post, so this means the post was deleted, the id belongs to a channel this bot cannot read, or the id is not a post id. Check the post id and the bot's channel access."@,
        CoreError::NoStoredCursor { channel } =>
            "no stored cursor exists for channel "@ + channel@,
        CoreError::RequiresElevatedCapability => "operation requires elevated capability"@,
        CoreError::WaitTimeout(channel) => "timeout waiting for channel "@ + channel@,
        CoreError::WaitFilterInvalid(why) => "wait input error: "@ + why@,
        CoreError::WaitProviderDegraded { channel, message } =>
            "wait observation failed for channel "@ + channel@ + ": "@ + message@,
        CoreError::ProfileNotFound(name) => "profile "@ + name@ + " not found"@,
        CoreError::ReduceProfileNotFound { calling, missing, available } =>
            "profile '"@ + calling@ + "' has reduce.use_profile = '"@ + missing@
                + "' but no such profile exists; create it (`chanvoy auto-setup` under the family identity) or correct the reduce policy. Available profiles: "@
                + debug_list(texts(available@)),
        CoreError::ReduceIdentityMismatch { profile, expected, actual } =>
            "reduce target profile '"@ + profile@ + "' is configured for bot '"@ + expected@
                + "', but the token resolved for it authenticates as '"@ + actual@
                + "' \u{2014} the family profile likely shares an env_name/token source with the calling (stream) profile. Give the family profile its own token env (distinct `env_name`) so its identity cannot be shadowed by the stream's."@,
        CoreError::SafeRead(e) => safe_read_text(e),
        CoreError::UnsupportedProvider => "unknown provider in profile"@,
        CoreError::Io(why) => "io error: "@ + why@,
        CoreError::TomlDe(why) => "toml parse error: "@ + why@,
        CoreError::TomlSer(why) => "toml serialize error: "@ + why@,
        CoreError::Http(why) => "http error: "@ + why@,
        CoreError::Json(why) => "serialization error: "@ + why@,
        CoreError::Api { status, message } =>
            "api error "@ + shown_status(status) + ": "@ + message@,
        CoreError::PinPermissionDenied { verb, bot_username, team, channel, message } =>
            "bot "@ + debug_quoted(bot_username@)
                + " lacks the channel-admin permission required to "@ + verb@ + " posts in "@
                + debug_quoted(team@) + "/"@ + debug_quoted(channel@)
                + ". Ask your Mattermost workspace admin to grant the bot the `manage_public_channel_members` / `manage_private_channel_members` scheme role on the channel, or use a profile whose bot already has channel-admin there. Mattermost reported: "@
                + message@,
    }),
{
}

/// A status of three digits is shown with its meaning, and any other as the number that it is.
pub proof fn statuses_are_shown_with_their_meaning(code: u16)
    ensures
        100 <= code <= 999 ==> shown_status(code) == status_line(code),
        code < 100 || code > 999 ==> shown_status(code) == decimal_text(code as nat),
{
}

} // verus!
