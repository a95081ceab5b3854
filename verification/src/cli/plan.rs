//! What a command asks of the daemon, and under which profile.
//!
//! Setting up and managing profiles needs no profile. Every other command works
//! under one; a daemon is brought up or stopped only under a profile that was named.
use vstd::prelude::*;
use vstd::string::*;

use crate::cli::args::{AttentionCommand, ChannelCommand, ChannelsArgs, CommandSet, DaemonCommand,
    DmCommand, ReadArgs, SearchArgs};
use crate::cli::error::{bootstrap_error, CliError, DaemonFailure};
use crate::paths::opt_view;
use crate::profile::{resolution, resolve_profile_name, FallbackPolicy, ResolverError,
    ResolverInputs};
use crate::search::{check_search_operator_conflicts, first_conflict, unquoted_words,
    ChanvoyScopes};
use crate::text::{concat2, concat3, decimal_text, join, joined, parse_u64, str_eq, texts, u64_text,
    u64_written};
use crate::time_window::{parse_time_window, window_seconds, TimeWindowDefaultUnit};
use crate::types::PostReceipt;

verus! {

// ---------------------------------------------------------------------------
// The profile
// ---------------------------------------------------------------------------

/// Where a command goes first.
#[derive(Debug, Clone, Copy, PartialEq, Eq, Structural)]
pub enum Route {
    /// It sets up a profile: none is needed.
    Setup,
    /// It manages stored profiles: none is needed.
    Profiles,
    /// It works under a profile that is chosen by this policy.
    UnderProfile(FallbackPolicy),
}

/// The command brings a daemon up or stops one.
pub open spec fn changes_a_daemon(command: CommandSet) -> bool {
    match command {
        CommandSet::Daemon(c) => c is Start || c is Serve || c is Stop,
        _ => false,
    }
}

/// The route of a command. One that brings a daemon up or stops one names its profile:
/// a fallback could start a daemon under an identity that nobody named, or stop that of
/// somebody else.
pub open spec fn route_of(command: CommandSet) -> Route {
    match command {
        CommandSet::AutoSetup(_) => Route::Setup,
        CommandSet::Profile(_) => Route::Profiles,
        CommandSet::Daemon(
            DaemonCommand::Start | DaemonCommand::Serve | DaemonCommand::Stop,
        ) => Route::UnderProfile(FallbackPolicy::ExplicitOnly),
        _ => Route::UnderProfile(FallbackPolicy::AllowReadFallbacks),
    }
}

/// Where a command goes first.
pub fn route(command: &CommandSet) -> (r: Route)
    ensures
        r == route_of(*command),
{
    match command {
        CommandSet::AutoSetup(_) => Route::Setup,
        CommandSet::Profile(_) => Route::Profiles,
        CommandSet::Daemon(
            DaemonCommand::Start | DaemonCommand::Serve | DaemonCommand::Stop,
        ) => Route::UnderProfile(FallbackPolicy::ExplicitOnly),
        _ => Route::UnderProfile(FallbackPolicy::AllowReadFallbacks),
    }
}

/// Neither the caller nor the environment names a profile.
pub open spec fn nobody_names_a_profile(flag: Option<Seq<char>>, inputs: ResolverInputs<'_>) -> bool {
    flag is None && inputs.env_chanvoy_profile is None && (inputs.env_role is None
        || inputs.env_scope is None)
}

/// `r` is what a command works under: nothing where it needs no profile, else what the
/// policy of its route gives.
pub open spec fn works_under(
    command: CommandSet,
    flag: Option<Seq<char>>,
    inputs: ResolverInputs<'_>,
    r: Result<Option<String>, CliError>,
) -> bool {
    match route_of(command) {
        Route::UnderProfile(policy) => match r {
            Ok(Some(name)) => resolution(flag, policy, inputs, Ok(name)),
            Err(CliError::Resolver(e)) => resolution(flag, policy, inputs, Err(e)),
            _ => false,
        },
        _ => r == Ok::<Option<String>, CliError>(None),
    }
}

/// The profile that a command works under, if it needs one.
pub fn profile_for(command: &CommandSet, flag: Option<&str>, inputs: &ResolverInputs<'_>) -> (r:
    Result<Option<String>, CliError>)
    ensures
        works_under(*command, opt_view(flag), *inputs, r),
        changes_a_daemon(*command) && nobody_names_a_profile(opt_view(flag), *inputs) ==> (
        r matches Err(CliError::Resolver(ResolverError::DestructiveRequiresExplicit { available }))
            && texts(available@) == texts(inputs.profiles@)),
{
    match route(command) {
        Route::UnderProfile(policy) => match resolve_profile_name(flag, policy, inputs) {
            Ok(name) => Ok(Some(name)),
            Err(e) => Err(CliError::Resolver(e)),
        },
        _ => Ok(None),
    }
}

/// Bringing a daemon up and stopping one are the commands that never fall back to a
/// profile that nobody named.
pub proof fn changing_a_daemon_needs_a_named_profile(command: CommandSet)
    ensures
        route_of(command) == Route::UnderProfile(FallbackPolicy::ExplicitOnly)
            <==> changes_a_daemon(command),
{
}

/// Which daemons run and which profile is active has no part in what such a command
/// works under.
pub proof fn changing_a_daemon_ignores_fallbacks(
    command: CommandSet,
    flag: Option<Seq<char>>,
    a: ResolverInputs<'_>,
    b: ResolverInputs<'_>,
    r: Result<Option<String>, CliError>,
)
    requires
        changes_a_daemon(command),
        works_under(command, flag, a, r),
        a.profiles == b.profiles,
        a.env_role == b.env_role,
        a.env_scope == b.env_scope,
        a.env_chanvoy_profile == b.env_chanvoy_profile,
    ensures
        works_under(command, flag, b, r),
{
}

// ---------------------------------------------------------------------------
// What is asked of the daemon
// ---------------------------------------------------------------------------

/// A request to the daemon.
#[derive(Debug, PartialEq, Eq)]
pub enum DaemonCall {
    Whoami,
    ListDms,
    ReadChannel {
        channel: String,
        since_secs: Option<u64>,
        after: Option<String>,
        since_last_mine: bool,
        since_bootstrap: bool,
        limit: Option<u32>,
        advance: bool,
        team: Option<String>,
    },
    CheckChannel { channel: String, after: Option<String>, team: Option<String> },
    PostMessage {
        channel: String,
        message: String,
        team: Option<String>,
        reply_to: Option<String>,
    },
    DirectMessage { username: String, message: String },
    ReadDirectMessages { username: String, since_minutes: u64 },
    Notify { bot_username: String, message: String },
    Notifications { since_secs: u64, unread_only: bool },
    WaitChannel { channel: String, timeout_secs: u64, team: Option<String> },
    PinnedChannel { channel: String, team: Option<String> },
    AckChannel { channel: String, team: Option<String> },
    ReactPost { channel: String, post_id: String, emoji: String, team: Option<String> },
    UnreactPost { channel: String, post_id: String, emoji: String, team: Option<String> },
    PinPost { channel: String, post_id: String, team: Option<String> },
    UnpinPost { channel: String, post_id: String, team: Option<String> },
    SearchChannel {
        channel: String,
        query: String,
        limit: Option<u32>,
        from: Option<String>,
        since_secs: Option<u64>,
        team: Option<String>,
    },
    CreateChannel {
        name: String,
        display_name: String,
        purpose: Option<String>,
        team: Option<String>,
    },
    ArchiveChannel { name: String },
    RestoreChannel { name: String },
    AddMember { channel: String, username: String },
    AttentionList,
    AttentionShow { channel: String, team: Option<String> },
}

/// What a command does under a profile.
#[derive(Debug, PartialEq, Eq)]
pub enum Plan {
    /// It manages the daemon itself.
    Daemon(DaemonCommand),
    /// It lists channels.
    Channels(ChannelsArgs),
    /// It asks the daemon for something.
    Call(DaemonCall),
}

/// A limit without a way of reading is refused.
pub open spec fn bare_limit(args: ReadArgs) -> bool {
    args.limit is Some && args.since is None && args.after is None && !args.since_last_mine
        && !args.since_bootstrap
}

/// The seconds of an optional span; an error where it cannot be read.
pub open spec fn window_of(since: Option<String>) -> Result<Option<u64>, Seq<char>> {
    match since {
        None => Ok(None),
        Some(raw) => match window_seconds(raw@, TimeWindowDefaultUnit::Minutes) {
            Ok(n) => Ok(Some(n)),
            Err(e) => Err(e),
        },
    }
}

fn optional_window(since: &Option<String>) -> (r: Result<Option<u64>, CliError>)
    ensures
        match r {
            Ok(w) => window_of(*since) == Ok::<Option<u64>, Seq<char>>(w),
            Err(e) => window_of(*since) is Err && bootstrap_error(e) == Some(
                window_of(*since)->Err_0,
            ),
        },
{
    match since {
        None => Ok(None),
        Some(raw) => match parse_time_window(raw.as_str(), TimeWindowDefaultUnit::Minutes) {
            Ok(n) => Ok(Some(n)),
            Err(e) => Err(CliError::Bootstrap(e)),
        },
    }
}

pub open spec fn bare_limit_text() -> Seq<char> {
    "`--limit` requires an explicit read-mode flag \u{2014} use `--since-bootstrap --limit N` for 'give me the latest N posts', or `--since <window> --limit N` to cap a time-window read. Bare `read --limit N` is rejected."@
}

/// Why reading is refused.
pub open spec fn read_refusal(args: ReadArgs) -> Option<Seq<char>> {
    if bare_limit(args) {
        Some(bare_limit_text())
    } else {
        match window_of(args.since) {
            Ok(_) => None,
            Err(e) => Some(e),
        }
    }
}

/// What reading asks for.
pub fn plan_read(args: ReadArgs) -> (r: Result<DaemonCall, CliError>)
    ensures
        match r {
            Ok(call) => read_refusal(args) is None && call == (DaemonCall::ReadChannel {
                channel: args.channel,
                since_secs: window_of(args.since)->Ok_0,
                after: args.after,
                since_last_mine: args.since_last_mine,
                since_bootstrap: args.since_bootstrap,
                limit: args.limit,
                advance: args.advance,
                team: args.team,
            }),
            Err(e) => read_refusal(args) is Some && bootstrap_error(e) == read_refusal(args),
        },
{
    if args.limit.is_some() && args.since.is_none() && args.after.is_none()
        && !args.since_last_mine && !args.since_bootstrap {
        return Err(
            CliError::Bootstrap(
                "`--limit` requires an explicit read-mode flag \u{2014} use `--since-bootstrap --limit N` for 'give me the latest N posts', or `--since <window> --limit N` to cap a time-window read. Bare `read --limit N` is rejected.".to_owned(),
            ),
        );
    }
    match optional_window(&args.since) {
        Ok(since_secs) => Ok(
            DaemonCall::ReadChannel {
                channel: args.channel,
                since_secs,
                after: args.after,
                since_last_mine: args.since_last_mine,
                since_bootstrap: args.since_bootstrap,
                limit: args.limit,
                advance: args.advance,
                team: args.team,
            },
        ),
        Err(e) => Err(e),
    }
}

/// The scopes that a search sets itself.
pub open spec fn search_scopes(args: SearchArgs) -> ChanvoyScopes {
    ChanvoyScopes {
        channel_arg: true,
        from_flag: args.from is Some,
        since_flag: args.since is Some,
    }
}

/// Why searching is refused.
pub open spec fn search_refusal(args: SearchArgs) -> Option<Seq<char>> {
    let conflict = first_conflict(unquoted_words(args.query@), search_scopes(args));
    if conflict is Some {
        conflict
    } else {
        match window_of(args.since) {
            Ok(_) => None,
            Err(e) => Some(e),
        }
    }
}

/// What searching asks for.
pub fn plan_search(args: SearchArgs) -> (r: Result<DaemonCall, CliError>)
    ensures
        match r {
            Ok(call) => search_refusal(args) is None && call == (DaemonCall::SearchChannel {
                channel: args.channel,
                query: args.query,
                limit: Some(args.limit),
                from: args.from,
                since_secs: window_of(args.since)->Ok_0,
                team: args.team,
            }),
            Err(e) => search_refusal(args) is Some && bootstrap_error(e) == search_refusal(args),
        },
{
    let scopes = ChanvoyScopes {
        channel_arg: true,
        from_flag: args.from.is_some(),
        since_flag: args.since.is_some(),
    };
    match check_search_operator_conflicts(args.query.as_str(), &scopes) {
        Ok(_) => {},
        Err(e) => {
            return Err(CliError::Bootstrap(e));
        },
    }
    match optional_window(&args.since) {
        Ok(since_secs) => Ok(
            DaemonCall::SearchChannel {
                channel: args.channel,
                query: args.query,
                limit: Some(args.limit),
                from: args.from,
                since_secs,
                team: args.team,
            },
        ),
        Err(e) => Err(e),
    }
}

// ---------------------------------------------------------------------------
// Direct messages without a verb
// ---------------------------------------------------------------------------

pub open spec fn dm_usage_text() -> Seq<char> {
    "usage: chanvoy dm <username> <message>\n       chanvoy dm read <username> [--since <minutes>]"@
}

pub fn dm_usage_error() -> (r: CliError)
    ensures
        bootstrap_error(r) == Some(dm_usage_text()),
{
    CliError::Bootstrap(
        "usage: chanvoy dm <username> <message>\n       chanvoy dm read <username> [--since <minutes>]".to_owned(),
    )
}

/// The minutes that the words behind a name ask for: 60 unless `--since` says
/// otherwise.
pub open spec fn since_of(words: Seq<Seq<char>>) -> Result<u64, Seq<char>> {
    if words.len() == 0 {
        Ok(60)
    } else if words.len() == 2 && words[0] == "--since"@ {
        match u64_written(words[1]) {
            Some(n) => Ok(n),
            None => Err("invalid --since value for dm read"@),
        }
    } else {
        Err(dm_usage_text())
    }
}

/// Reads the words from place `from` on.
pub fn parse_since_arg(args: &Vec<String>, from: usize) -> (r: Result<u64, CliError>)
    requires
        from <= args@.len(),
    ensures
        match r {
            Ok(n) => since_of(texts(args@).skip(from as int)) == Ok::<u64, Seq<char>>(n),
            Err(e) => since_of(texts(args@).skip(from as int)) is Err && bootstrap_error(e) == Some(
                since_of(texts(args@).skip(from as int))->Err_0,
            ),
        },
{
    let ghost words = texts(args@).skip(from as int);
    let n: usize = args.len() - from;
    if n == 0 {
        return Ok(60);
    }
    if n == 2 && str_eq(args[from].as_str(), "--since") {
        proof {
            assert(words[0] == args@[from as int]@);
            assert(words[1] == args@[from + 1]@);
        }
        return match parse_u64(args[from + 1].as_str()) {
            Ok(v) => Ok(v),
            Err(_) => Err(CliError::Bootstrap("invalid --since value for dm read".to_owned())),
        };
    }
    proof {
        if n == 2 {
            assert(words[0] == args@[from as int]@);
        }
    }
    Err(dm_usage_error())
}

/// Why the words are refused.
pub open spec fn raw_refusal(words: Seq<Seq<char>>) -> Option<Seq<char>> {
    if words.len() > 0 && words[0] == "read"@ {
        if words.len() < 2 {
            Some(dm_usage_text())
        } else {
            match since_of(words.skip(2)) {
                Ok(_) => None,
                Err(e) => Some(e),
            }
        }
    } else if words.len() < 2 {
        Some(dm_usage_text())
    } else {
        None
    }
}

/// `call` is what the words ask for.
pub open spec fn raw_call(words: Seq<Seq<char>>, call: DaemonCall) -> bool {
    if words[0] == "read"@ {
        call matches DaemonCall::ReadDirectMessages { username, since_minutes } && username@
            == words[1] && since_of(words.skip(2)) == Ok::<u64, Seq<char>>(since_minutes)
    } else {
        call matches DaemonCall::DirectMessage { username, message } && username@ == words[0]
            && message@ == joined(words.skip(1), " "@)
    }
}

/// What the words of a direct command without a verb ask for.
pub fn handle_dm_raw(args: &Vec<String>) -> (r: Result<DaemonCall, CliError>)
    ensures
        match r {
            Ok(call) => raw_refusal(texts(args@)) is None && raw_call(texts(args@), call),
            Err(e) => raw_refusal(texts(args@)) is Some && bootstrap_error(e) == raw_refusal(
                texts(args@),
            ),
        },
{
    let ghost words = texts(args@);
    if args.len() == 0 {
        return Err(dm_usage_error());
    }
    proof {
        assert(words[0] == args@[0]@);
    }
    if str_eq(args[0].as_str(), "read") {
        if args.len() < 2 {
            return Err(dm_usage_error());
        }
        proof {
            assert(words[1] == args@[1]@);
        }
        return match parse_since_arg(args, 2) {
            Ok(since_minutes) => Ok(
                DaemonCall::ReadDirectMessages { username: args[1].clone(), since_minutes },
            ),
            Err(e) => Err(e),
        };
    }
    if args.len() < 2 {
        return Err(dm_usage_error());
    }
    let mut rest: Vec<String> = Vec::new();
    let mut i: usize = 1;
    while i < args.len()
        invariant
            1 <= i <= args@.len(),
            rest@.len() == i - 1,
            forall|j: int| 0 <= j < rest@.len() ==> (#[trigger] rest@[j])@ == args@[j + 1]@,
        decreases args.len() - i,
    {
        rest.push(args[i].clone());
        i += 1;
    }
    proof {
        assert(texts(rest@) =~= words.skip(1));
    }
    Ok(DaemonCall::DirectMessage { username: args[0].clone(), message: join(&rest, " ") })
}

// ---------------------------------------------------------------------------
// All commands
// ---------------------------------------------------------------------------

/// `call` is what a command asks for whose arguments need no reading.
pub open spec fn plain_call(command: CommandSet, call: DaemonCall) -> bool {
    match command {
        CommandSet::Whoami => call == DaemonCall::Whoami,
        CommandSet::Dms => call == DaemonCall::ListDms,
        CommandSet::Check(a) => call == (DaemonCall::CheckChannel {
            channel: a.channel,
            after: a.after,
            team: a.team,
        }),
        CommandSet::Post(a) => call == (DaemonCall::PostMessage {
            channel: a.channel,
            message: a.message,
            team: a.team,
            reply_to: a.reply_to,
        }),
        CommandSet::Dm(DmCommand::Send(a)) => call == (DaemonCall::DirectMessage {
            username: a.username,
            message: a.message,
        }),
        CommandSet::Dm(DmCommand::Read(a)) => call == (DaemonCall::ReadDirectMessages {
            username: a.username,
            since_minutes: a.since,
        }),
        CommandSet::Notify(a) => call == (DaemonCall::Notify {
            bot_username: a.bot_username,
            message: a.message,
        }),
        CommandSet::Pinned(a) => call == (DaemonCall::PinnedChannel {
            channel: a.channel,
            team: a.team,
        }),
        CommandSet::Ack(a) => call == (DaemonCall::AckChannel { channel: a.channel, team: a.team }),
        CommandSet::React(a) => call == (DaemonCall::ReactPost {
            channel: a.channel,
            post_id: a.post_id,
            emoji: a.emoji,
            team: a.team,
        }),
        CommandSet::Unreact(a) => call == (DaemonCall::UnreactPost {
            channel: a.channel,
            post_id: a.post_id,
            emoji: a.emoji,
            team: a.team,
        }),
        CommandSet::Pin(a) => call == (DaemonCall::PinPost {
            channel: a.channel,
            post_id: a.post_id,
            team: a.team,
        }),
        CommandSet::Unpin(a) => call == (DaemonCall::UnpinPost {
            channel: a.channel,
            post_id: a.post_id,
            team: a.team,
        }),
        CommandSet::Channel(ChannelCommand::Create(a)) => call == (DaemonCall::CreateChannel {
            name: a.name,
            display_name: a.display_name,
            purpose: a.purpose,
            team: a.team,
        }),
        CommandSet::Channel(ChannelCommand::Archive(a)) => call == (DaemonCall::ArchiveChannel {
            name: a.name,
        }),
        CommandSet::Channel(ChannelCommand::Restore(a)) => call == (DaemonCall::RestoreChannel {
            name: a.name,
        }),
        CommandSet::Channel(ChannelCommand::AddMember(a)) => call == (DaemonCall::AddMember {
            channel: a.channel,
            username: a.username,
        }),
        CommandSet::Attention(AttentionCommand::List) => call == DaemonCall::AttentionList,
        CommandSet::Attention(AttentionCommand::Show(a)) => call == (DaemonCall::AttentionShow {
            channel: a.channel,
            team: a.team,
        }),
        _ => false,
    }
}

/// Why a command is refused before the daemon is asked.
pub open spec fn refusal(command: CommandSet) -> Option<Seq<char>> {
    match command {
        CommandSet::Read(a) => read_refusal(a),
        CommandSet::Search(a) => search_refusal(a),
        CommandSet::Dm(DmCommand::Raw(words)) => raw_refusal(texts(words@)),
        CommandSet::Notifications(a) => match window_seconds(
            a.since@,
            TimeWindowDefaultUnit::Minutes,
        ) {
            Ok(_) => None,
            Err(e) => Some(e),
        },
        CommandSet::Wait(a) => match window_seconds(a.timeout@, TimeWindowDefaultUnit::Minutes) {
            Ok(_) => None,
            Err(e) => Some(e),
        },
        _ => None,
    }
}

/// `p` is what a command does.
pub open spec fn planned(command: CommandSet, p: Plan) -> bool {
    match command {
        CommandSet::Daemon(c) => p == Plan::Daemon(c),
        CommandSet::Channels(a) => p == Plan::Channels(a),
        CommandSet::Read(a) => p == Plan::Call(
            DaemonCall::ReadChannel {
                channel: a.channel,
                since_secs: window_of(a.since)->Ok_0,
                after: a.after,
                since_last_mine: a.since_last_mine,
                since_bootstrap: a.since_bootstrap,
                limit: a.limit,
                advance: a.advance,
                team: a.team,
            },
        ),
        CommandSet::Search(a) => p == Plan::Call(
            DaemonCall::SearchChannel {
                channel: a.channel,
                query: a.query,
                limit: Some(a.limit),
                from: a.from,
                since_secs: window_of(a.since)->Ok_0,
                team: a.team,
            },
        ),
        CommandSet::Dm(DmCommand::Raw(words)) => p matches Plan::Call(call) && raw_call(
            texts(words@),
            call,
        ),
        CommandSet::Notifications(a) => p == Plan::Call(
            DaemonCall::Notifications {
                since_secs: window_seconds(a.since@, TimeWindowDefaultUnit::Minutes)->Ok_0,
                unread_only: a.unread,
            },
        ),
        CommandSet::Wait(a) => p == Plan::Call(
            DaemonCall::WaitChannel {
                channel: a.channel,
                timeout_secs: window_seconds(a.timeout@, TimeWindowDefaultUnit::Minutes)->Ok_0,
                team: a.team,
            },
        ),
        _ => p matches Plan::Call(call) && plain_call(command, call),
    }
}

/// What a command does under a profile, or why it is refused before the daemon is
/// asked.
pub fn execute(command: CommandSet) -> (r: Result<Plan, CliError>)
    requires
        route_of(command) is UnderProfile,
    ensures
        match r {
            Ok(p) => refusal(command) is None && planned(command, p),
            Err(e) => refusal(command) is Some && bootstrap_error(e) == refusal(command),
        },
{
    let call = match command {
        CommandSet::Daemon(c) => {
            return Ok(Plan::Daemon(c));
        },
        CommandSet::Channels(a) => {
            return Ok(Plan::Channels(a));
        },
        CommandSet::Read(a) => {
            return match plan_read(a) {
                Ok(call) => Ok(Plan::Call(call)),
                Err(e) => Err(e),
            };
        },
        CommandSet::Search(a) => {
            return match plan_search(a) {
                Ok(call) => Ok(Plan::Call(call)),
                Err(e) => Err(e),
            };
        },
        CommandSet::Dm(DmCommand::Raw(words)) => {
            return match handle_dm_raw(&words) {
                Ok(call) => Ok(Plan::Call(call)),
                Err(e) => Err(e),
            };
        },
        CommandSet::Notifications(a) => {
            match parse_time_window(a.since.as_str(), TimeWindowDefaultUnit::Minutes) {
                Ok(since_secs) => DaemonCall::Notifications { since_secs, unread_only: a.unread },
                Err(e) => {
                    return Err(CliError::Bootstrap(e));
                },
            }
        },
        CommandSet::Wait(a) => {
            match parse_time_window(a.timeout.as_str(), TimeWindowDefaultUnit::Minutes) {
                Ok(timeout_secs) => DaemonCall::WaitChannel {
                    channel: a.channel,
                    timeout_secs,
                    team: a.team,
                },
                Err(e) => {
                    return Err(CliError::Bootstrap(e));
                },
            }
        },
        CommandSet::Whoami => DaemonCall::Whoami,
        CommandSet::Dms => DaemonCall::ListDms,
        CommandSet::Check(a) => DaemonCall::CheckChannel {
            channel: a.channel,
            after: a.after,
            team: a.team,
        },
        CommandSet::Post(a) => DaemonCall::PostMessage {
            channel: a.channel,
            message: a.message,
            team: a.team,
            reply_to: a.reply_to,
        },
        CommandSet::Dm(DmCommand::Send(a)) => DaemonCall::DirectMessage {
            username: a.username,
            message: a.message,
        },
        CommandSet::Dm(DmCommand::Read(a)) => DaemonCall::ReadDirectMessages {
            username: a.username,
            since_minutes: a.since,
        },
        CommandSet::Notify(a) => DaemonCall::Notify {
            bot_username: a.bot_username,
            message: a.message,
        },
        CommandSet::Pinned(a) => DaemonCall::PinnedChannel { channel: a.channel, team: a.team },
        CommandSet::Ack(a) => DaemonCall::AckChannel { channel: a.channel, team: a.team },
        CommandSet::React(a) => DaemonCall::ReactPost {
            channel: a.channel,
            post_id: a.post_id,
            emoji: a.emoji,
            team: a.team,
        },
        CommandSet::Unreact(a) => DaemonCall::UnreactPost {
            channel: a.channel,
            post_id: a.post_id,
            emoji: a.emoji,
            team: a.team,
        },
        CommandSet::Pin(a) => DaemonCall::PinPost {
            channel: a.channel,
            post_id: a.post_id,
            team: a.team,
        },
        CommandSet::Unpin(a) => DaemonCall::UnpinPost {
            channel: a.channel,
            post_id: a.post_id,
            team: a.team,
        },
        CommandSet::Channel(ChannelCommand::Create(a)) => DaemonCall::CreateChannel {
            name: a.name,
            display_name: a.display_name,
            purpose: a.purpose,
            team: a.team,
        },
        CommandSet::Channel(ChannelCommand::Archive(a)) => DaemonCall::ArchiveChannel {
            name: a.name,
        },
        CommandSet::Channel(ChannelCommand::Restore(a)) => DaemonCall::RestoreChannel {
            name: a.name,
        },
        CommandSet::Channel(ChannelCommand::AddMember(a)) => DaemonCall::AddMember {
            channel: a.channel,
            username: a.username,
        },
        CommandSet::Attention(AttentionCommand::List) => DaemonCall::AttentionList,
        CommandSet::Attention(AttentionCommand::Show(a)) => DaemonCall::AttentionShow {
            channel: a.channel,
            team: a.team,
        },
        CommandSet::AutoSetup(_) | CommandSet::Profile(_) => {
            proof {
                assert(false);
            }
            DaemonCall::Whoami
        },
    };
    Ok(Plan::Call(call))
}

// ---------------------------------------------------------------------------
// What follows an answer
// ---------------------------------------------------------------------------

/// The exit code of a check: 1 where there is nothing new.
pub fn check_exit_code(has_new_messages: bool) -> (r: i32)
    ensures
        r == (if has_new_messages {
            0int
        } else {
            1int
        }),
{
    if has_new_messages {
        0
    } else {
        1
    }
}

/// The code with which the daemon says that a wait ended without a message.
pub const WAIT_TIMEOUT_CODE: i64 = -32005;

/// Whether a wait ended without a message; any other failure is an error.
pub fn wait_timed_out(failure: &DaemonFailure) -> (r: Option<String>)
    ensures
        match r {
            Some(m) => failure matches DaemonFailure::Rpc { code, message } && code
                == WAIT_TIMEOUT_CODE && m == message,
            None => !(failure matches DaemonFailure::Rpc { code, .. } && code
                == WAIT_TIMEOUT_CODE),
        },
{
    match failure {
        DaemonFailure::Rpc { code, message } => {
            if *code == WAIT_TIMEOUT_CODE {
                Some(message.clone())
            } else {
                None
            }
        },
        _ => None,
    }
}

/// What is said while waiting.
pub fn waiting_text(channel: &str, timeout_secs: u64) -> (r: String)
    ensures
        r@ == "waiting for new message in #"@ + channel@ + " (timeout: "@ + decimal_text(
            timeout_secs as nat,
        ) + "s)..."@,
{
    let mut m = "waiting for new message in #".to_owned();
    m.append(channel);
    m.append(" (timeout: ");
    m.append(u64_text(timeout_secs).as_str());
    m.append("s)...");
    m
}

/// What is said when a wait ended without a message.
pub fn wait_timeout_text(channel: &str, timeout_secs: u64) -> (r: String)
    ensures
        r@ == "timeout: no new messages in #"@ + channel@ + " after "@ + decimal_text(
            timeout_secs as nat,
        ) + " seconds"@,
{
    let mut m = "timeout: no new messages in #".to_owned();
    m.append(channel);
    m.append(" after ");
    m.append(u64_text(timeout_secs).as_str());
    m.append(" seconds");
    m
}

/// What is said of a post.
pub fn receipt_text(label: &str, receipt: &PostReceipt) -> (r: String)
    ensures
        r@ == label@ + ": "@ + receipt.id@,
{
    concat3(label, ": ", receipt.id.as_str())
}

/// What is said of a direct message.
pub fn dm_receipt_text(username: &str, receipt: &PostReceipt) -> (r: String)
    ensures
        r@ == "dm sent: "@ + receipt.id@ + " (to @"@ + username@ + ")"@,
{
    let mut m = "dm sent: ".to_owned();
    m.append(receipt.id.as_str());
    m.append(" (to @");
    m.append(username);
    m.append(")");
    m
}

/// What is said of a notification.
pub fn notify_receipt_text(username: &str, receipt: &PostReceipt) -> (r: String)
    ensures
        r@ == "notified @"@ + username@ + ": "@ + receipt.id@,
{
    let mut m = "notified @".to_owned();
    m.append(username);
    m.append(": ");
    m.append(receipt.id.as_str());
    m
}

pub fn archived_text(name: &str) -> (r: String)
    ensures
        r@ == "archived: #"@ + name@,
{
    concat2("archived: #", name)
}

pub fn restored_text(name: &str) -> (r: String)
    ensures
        r@ == "restored: #"@ + name@,
{
    concat2("restored: #", name)
}

pub fn member_added_text(channel: &str, username: &str) -> (r: String)
    ensures
        r@ == "added: @"@ + username@ + " \u{2192} #"@ + channel@,
{
    let mut m = "added: @".to_owned();
    m.append(username);
    m.append(" \u{2192} #");
    m.append(channel);
    m
}

/// Every command asks for the call of its own name, and no other command asks for it.
pub proof fn each_command_asks_for_its_own_call(command: CommandSet, p: Plan)
    requires
        planned(command, p),
        route_of(command) is UnderProfile,
    ensures
        (p matches Plan::Call(call) && call is Whoami) <==> command matches CommandSet::Whoami,
        (p matches Plan::Call(call) && call is ListDms) <==> command matches CommandSet::Dms,
        (p matches Plan::Call(call) && call is CheckChannel) <==> command matches CommandSet::Check(_),
        (p matches Plan::Call(call) && call is PostMessage) <==> command matches CommandSet::Post(_),
        (p matches Plan::Call(call) && call is Notify) <==> command matches CommandSet::Notify(_),
        (p matches Plan::Call(call) && call is PinnedChannel) <==> command matches CommandSet::Pinned(_),
        (p matches Plan::Call(call) && call is AckChannel) <==> command matches CommandSet::Ack(_),
        (p matches Plan::Call(call) && call is ReactPost) <==> command matches CommandSet::React(_),
        (p matches Plan::Call(call) && call is UnreactPost) <==> command matches CommandSet::Unreact(_),
        (p matches Plan::Call(call) && call is PinPost) <==> command matches CommandSet::Pin(_),
        (p matches Plan::Call(call) && call is UnpinPost) <==> command matches CommandSet::Unpin(_),
        (p matches Plan::Call(call) && call is CreateChannel) <==> command matches CommandSet::Channel(ChannelCommand::Create(_)),
        (p matches Plan::Call(call) && call is ArchiveChannel) <==> command matches CommandSet::Channel(ChannelCommand::Archive(_)),
        (p matches Plan::Call(call) && call is RestoreChannel) <==> command matches CommandSet::Channel(ChannelCommand::Restore(_)),
        (p matches Plan::Call(call) && call is AddMember) <==> command matches CommandSet::Channel(ChannelCommand::AddMember(_)),
        (p matches Plan::Call(call) && call is AttentionList) <==> command matches CommandSet::Attention(AttentionCommand::List),
        (p matches Plan::Call(call) && call is AttentionShow) <==> command matches CommandSet::Attention(AttentionCommand::Show(_)),
        (p matches Plan::Call(call) && call is SearchChannel) <==> command matches CommandSet::Search(_),
        (p matches Plan::Call(call) && call is ReadChannel) <==> command matches CommandSet::Read(_),
        (p matches Plan::Call(call) && call is WaitChannel) <==> command matches CommandSet::Wait(_),
        (p matches Plan::Call(call) && call is Notifications) <==> command matches CommandSet::Notifications(_),
        (p matches Plan::Call(call) && call is DirectMessage) ==> command matches CommandSet::Dm(_),
        (p matches Plan::Call(call) && call is ReadDirectMessages) ==> command matches CommandSet::Dm(
            _,
        ),
        command matches CommandSet::Dm(_) ==> (p matches Plan::Call(call) && (call is DirectMessage
            || call is ReadDirectMessages)),
        (p is Daemon) <==> command matches CommandSet::Daemon(_),
        (p is Channels) <==> command matches CommandSet::Channels(_),
{
}

/// What a command was given goes to the daemon as it was given.
pub proof fn arguments_are_handed_on(command: CommandSet, p: Plan)
    requires
        planned(command, p),
        route_of(command) is UnderProfile,
    ensures
        command matches CommandSet::Check(a) ==> (p matches Plan::Call(
            DaemonCall::CheckChannel { channel, after, team },
        ) && channel == a.channel && after == a.after && team == a.team),
        command matches CommandSet::Post(a) ==> (p matches Plan::Call(
            DaemonCall::PostMessage { channel, message, team, reply_to },
        ) && channel == a.channel && message == a.message && team == a.team && reply_to == a.reply_to),
        command matches CommandSet::Notify(a) ==> (p matches Plan::Call(
            DaemonCall::Notify { bot_username, message },
        ) && bot_username == a.bot_username && message == a.message),
        command matches CommandSet::Pinned(a) ==> (p matches Plan::Call(
            DaemonCall::PinnedChannel { channel, team },
        ) && channel == a.channel && team == a.team),
        command matches CommandSet::Ack(a) ==> (p matches Plan::Call(
            DaemonCall::AckChannel { channel, team },
        ) && channel == a.channel && team == a.team),
        command matches CommandSet::React(a) ==> (p matches Plan::Call(
            DaemonCall::ReactPost { channel, post_id, emoji, team },
        ) && channel == a.channel && post_id == a.post_id && emoji == a.emoji && team == a.team),
        command matches CommandSet::Unreact(a) ==> (p matches Plan::Call(
            DaemonCall::UnreactPost { channel, post_id, emoji, team },
        ) && channel == a.channel && post_id == a.post_id && emoji == a.emoji && team == a.team),
        command matches CommandSet::Pin(a) ==> (p matches Plan::Call(
            DaemonCall::PinPost { channel, post_id, team },
        ) && channel == a.channel && post_id == a.post_id && team == a.team),
        command matches CommandSet::Unpin(a) ==> (p matches Plan::Call(
            DaemonCall::UnpinPost { channel, post_id, team },
        ) && channel == a.channel && post_id == a.post_id && team == a.team),
        command matches CommandSet::Channel(ChannelCommand::Create(a)) ==> (p matches Plan::Call(
            DaemonCall::CreateChannel { name, display_name, purpose, team },
        ) && name == a.name && display_name == a.display_name && purpose == a.purpose && team == a.team),
        command matches CommandSet::Channel(ChannelCommand::Archive(a)) ==> (p matches Plan::Call(
            DaemonCall::ArchiveChannel { name },
        ) && name == a.name),
        command matches CommandSet::Channel(ChannelCommand::Restore(a)) ==> (p matches Plan::Call(
            DaemonCall::RestoreChannel { name },
        ) && name == a.name),
        command matches CommandSet::Channel(ChannelCommand::AddMember(a)) ==> (p matches Plan::Call(
            DaemonCall::AddMember { channel, username },
        ) && channel == a.channel && username == a.username),
        command matches CommandSet::Attention(AttentionCommand::Show(a)) ==> (p matches Plan::Call(
            DaemonCall::AttentionShow { channel, team },
        ) && channel == a.channel && team == a.team),
        command matches CommandSet::Search(a) ==> (p matches Plan::Call(
            DaemonCall::SearchChannel { channel, query, from, team, .. },
        ) && channel == a.channel && query == a.query && from == a.from && team == a.team),
        command matches CommandSet::Read(a) ==> (p matches Plan::Call(
            DaemonCall::ReadChannel { channel, after, since_last_mine, since_bootstrap, limit, advance, team, .. },
        ) && channel == a.channel && after == a.after && since_last_mine == a.since_last_mine && since_bootstrap == a.since_bootstrap && limit == a.limit && advance == a.advance && team == a.team),
        command matches CommandSet::Wait(a) ==> (p matches Plan::Call(
            DaemonCall::WaitChannel { channel, team, .. },
        ) && channel == a.channel && team == a.team),
        command matches CommandSet::Search(a) ==> (p matches Plan::Call(
            DaemonCall::SearchChannel { limit, .. },
        ) && limit == Some(a.limit)),
        command matches CommandSet::Notifications(a) ==> (p matches Plan::Call(
            DaemonCall::Notifications { unread_only, .. },
        ) && unread_only == a.unread),
        command matches CommandSet::Dm(DmCommand::Send(a)) ==> (p matches Plan::Call(
            DaemonCall::DirectMessage { username, message },
        ) && username == a.username && message == a.message),
        command matches CommandSet::Dm(DmCommand::Read(a)) ==> (p matches Plan::Call(
            DaemonCall::ReadDirectMessages { username, since_minutes },
        ) && username == a.username && since_minutes == a.since),
        command matches CommandSet::Daemon(c) ==> p == Plan::Daemon(c),
        command matches CommandSet::Channels(a) ==> p == Plan::Channels(a),
{
}

/// Starting, serving and stopping a daemon take a profile that was named; setting up and
/// managing profiles take none; everything else may fall back.
pub proof fn what_each_command_works_under(command: CommandSet)
    ensures
        route_of(CommandSet::Daemon(DaemonCommand::Start)) == Route::UnderProfile(
            FallbackPolicy::ExplicitOnly,
        ),
        route_of(CommandSet::Daemon(DaemonCommand::Serve)) == Route::UnderProfile(
            FallbackPolicy::ExplicitOnly,
        ),
        route_of(CommandSet::Daemon(DaemonCommand::Stop)) == Route::UnderProfile(
            FallbackPolicy::ExplicitOnly,
        ),
        route_of(CommandSet::Daemon(DaemonCommand::Status)) == Route::UnderProfile(
            FallbackPolicy::AllowReadFallbacks,
        ),
        command is AutoSetup <==> route_of(command) is Setup,
        command is Profile <==> route_of(command) is Profiles,
        !(command is AutoSetup) && !(command is Profile) && !(command is Daemon) ==> route_of(
            command,
        ) == Route::UnderProfile(FallbackPolicy::AllowReadFallbacks),
{
}

/// A daemon is not started, served or stopped under a profile that neither the caller nor the
/// environment names, whichever daemons run and whichever profile is active.
pub proof fn no_daemon_is_changed_under_a_fallback(
    c: DaemonCommand,
    inputs: ResolverInputs<'_>,
    r: Result<Option<String>, CliError>,
)
    requires
        works_under(CommandSet::Daemon(c), None, inputs, r),
        !(c is Status),
        inputs.env_chanvoy_profile is None,
        inputs.env_role is None || inputs.env_scope is None,
    ensures
        r matches Err(CliError::Resolver(ResolverError::DestructiveRequiresExplicit { .. })),
{
}

/// A profile that the caller names is worked under, whatever else is the case.
pub proof fn the_named_profile_is_worked_under(
    command: CommandSet,
    name: Seq<char>,
    inputs: ResolverInputs<'_>,
    r: Result<Option<String>, CliError>,
)
    requires
        works_under(command, Some(name), inputs, r),
        !(command is AutoSetup) && !(command is Profile),
    ensures
        r matches Ok(Some(chosen)) && chosen@ == name,
{
}

/// Reading is refused where a limit stands alone, or the span of time cannot be read.
pub proof fn refused_reads(args: ReadArgs)
    ensures
        read_refusal(args) is None <==> !(args.limit is Some && args.since is None && args.after
            is None && !args.since_last_mine && !args.since_bootstrap) && (args.since is None
            || window_seconds(args.since->0@, TimeWindowDefaultUnit::Minutes) is Ok),
{
}

/// A span of time goes to the daemon in seconds, and none where none is given.
pub proof fn spans_go_out_in_seconds(command: CommandSet, p: Plan)
    requires
        planned(command, p),
        refusal(command) is None,
    ensures
        command matches CommandSet::Read(a) ==> (p matches Plan::Call(
            DaemonCall::ReadChannel { since_secs, .. },
        ) && (a.since is None ==> since_secs is None) && (a.since is Some ==> since_secs is Some
            && window_seconds(a.since->0@, TimeWindowDefaultUnit::Minutes) == Ok::<u64, Seq<char>>(
            since_secs->0,
        ))),
        command matches CommandSet::Search(a) ==> (p matches Plan::Call(
            DaemonCall::SearchChannel { since_secs, .. },
        ) && (a.since is None ==> since_secs is None) && (a.since is Some ==> since_secs is Some
            && window_seconds(a.since->0@, TimeWindowDefaultUnit::Minutes) == Ok::<u64, Seq<char>>(
            since_secs->0,
        ))),
        command matches CommandSet::Notifications(a) ==> (p matches Plan::Call(
            DaemonCall::Notifications { since_secs, .. },
        ) && window_seconds(a.since@, TimeWindowDefaultUnit::Minutes) == Ok::<u64, Seq<char>>(
            since_secs,
        )),
        command matches CommandSet::Wait(a) ==> (p matches Plan::Call(
            DaemonCall::WaitChannel { timeout_secs, .. },
        ) && window_seconds(a.timeout@, TimeWindowDefaultUnit::Minutes) == Ok::<u64, Seq<char>>(
            timeout_secs,
        )),
{
}

/// Searching is refused where a word of the query conflicts with the channel, which is always
/// set, or with the author or the span of time, where they are, or where the span cannot be
/// read.
pub proof fn refused_searches(args: SearchArgs)
    ensures
        search_refusal(args) is None <==> (args.since is None || window_seconds(
            args.since->0@,
            TimeWindowDefaultUnit::Minutes,
        ) is Ok) && forall|i: int|
            #![trigger unquoted_words(args.query@)[i]]
            0 <= i < unquoted_words(args.query@).len() ==> {
                let word = crate::text::lowered(unquoted_words(args.query@)[i]);
                &&& !"in:"@.is_prefix_of(word)
                &&& args.from is Some ==> !"from:"@.is_prefix_of(word)
                &&& args.since is Some ==> !"before:"@.is_prefix_of(word) && !"after:"@.is_prefix_of(
                    word,
                )
            },
{
    let ws = unquoted_words(args.query@);
    let scopes = search_scopes(args);
    crate::search::accepted_iff_no_word_conflicts(ws, scopes);
    assert forall|i: int|
        #![trigger ws[i]]
        0 <= i < ws.len() implies (crate::search::word_conflict(ws[i], scopes) is None <==> {
        let word = crate::text::lowered(ws[i]);
        &&& !"in:"@.is_prefix_of(word)
        &&& args.from is Some ==> !"from:"@.is_prefix_of(word)
        &&& args.since is Some ==> !"before:"@.is_prefix_of(word) && !"after:"@.is_prefix_of(word)
    }) by {
        crate::search::operators_conflict_with_their_scope(ws[i], scopes);
    }
}

/// Only reading, searching, waiting, notifications and bare words can be refused before the
/// daemon is asked.
pub proof fn other_commands_are_not_refused(command: CommandSet)
    requires
        !(command is Read) && !(command is Search) && !(command is Wait) && !(command is Notifications)
            && !(command is Dm),
    ensures
        refusal(command) is None,
{
}

/// A direct message without a verb goes to the first word and says the others, with spaces
/// between them; behind `read` the messages of the next word are read, of an hour unless
/// `--since` says otherwise.
pub proof fn bare_words_send_or_read(
    user: Seq<char>,
    rest: Seq<Seq<char>>,
    minutes: u64,
    call: DaemonCall,
)
    ensures
        user != "read"@ && rest.len() > 0 ==> raw_refusal(seq![user] + rest) is None,
        user != "read"@ && rest.len() == 0 ==> raw_refusal(seq![user] + rest) is Some,
        user != "read"@ && raw_call(seq![user] + rest, call) ==> (call matches
            DaemonCall::DirectMessage { username, message } && username@ == user && message@
            == joined(rest, " "@)),
        raw_refusal(seq!["read"@, user]) is None,
        raw_call(seq!["read"@, user], call) ==> (call matches DaemonCall::ReadDirectMessages {
            username,
            since_minutes,
        } && username@ == user && since_minutes == 60),
        raw_refusal(seq!["read"@, user, "--since"@, decimal_text(minutes as nat)]) is None,
        raw_call(seq!["read"@, user, "--since"@, decimal_text(minutes as nat)], call) ==> (
        call matches DaemonCall::ReadDirectMessages { username, since_minutes } && username@ == user
            && since_minutes == minutes),
        raw_refusal(Seq::empty()) is Some && raw_refusal(seq!["read"@]) is Some,
{
    let words = seq![user] + rest;
    assert(words.skip(1) =~= rest);
    assert(words[0] == user);
    let read = seq!["read"@, user];
    assert(read.skip(2) =~= Seq::<Seq<char>>::empty());
    let since = seq!["read"@, user, "--since"@, decimal_text(minutes as nat)];
    assert(since.skip(2) =~= seq!["--since"@, decimal_text(minutes as nat)]);
    assert(since.skip(2)[0] == "--since"@ && since.skip(2)[1] == decimal_text(minutes as nat));
    crate::text::written_numbers_are_read_back(minutes as nat);
}

/// What a command is carried out by: the call of its own name, with its own arguments.
pub proof fn commands_are_carried_out_by_their_own_call(command: CommandSet, r: Result<Plan, CliError>)
    requires
        route_of(command) is UnderProfile,
        call_ensures(execute, (command,), r),
    ensures
        command is Pin ==> r == Ok::<Plan, CliError>(
            Plan::Call(
                DaemonCall::PinPost {
                    channel: command->Pin_0.channel,
                    post_id: command->Pin_0.post_id,
                    team: command->Pin_0.team,
                },
            ),
        ),
        command is Unpin ==> r == Ok::<Plan, CliError>(
            Plan::Call(
                DaemonCall::UnpinPost {
                    channel: command->Unpin_0.channel,
                    post_id: command->Unpin_0.post_id,
                    team: command->Unpin_0.team,
                },
            ),
        ),
        command is React ==> r == Ok::<Plan, CliError>(
            Plan::Call(
                DaemonCall::ReactPost {
                    channel: command->React_0.channel,
                    post_id: command->React_0.post_id,
                    emoji: command->React_0.emoji,
                    team: command->React_0.team,
                },
            ),
        ),
        command is Unreact ==> r == Ok::<Plan, CliError>(
            Plan::Call(
                DaemonCall::UnreactPost {
                    channel: command->Unreact_0.channel,
                    post_id: command->Unreact_0.post_id,
                    emoji: command->Unreact_0.emoji,
                    team: command->Unreact_0.team,
                },
            ),
        ),
        command is Post ==> r == Ok::<Plan, CliError>(
            Plan::Call(
                DaemonCall::PostMessage {
                    channel: command->Post_0.channel,
                    message: command->Post_0.message,
                    team: command->Post_0.team,
                    reply_to: command->Post_0.reply_to,
                },
            ),
        ),
        command is Check ==> r == Ok::<Plan, CliError>(
            Plan::Call(
                DaemonCall::CheckChannel {
                    channel: command->Check_0.channel,
                    after: command->Check_0.after,
                    team: command->Check_0.team,
                },
            ),
        ),
        command is Ack ==> r == Ok::<Plan, CliError>(
            Plan::Call(
                DaemonCall::AckChannel { channel: command->Ack_0.channel, team: command->Ack_0.team },
            ),
        ),
        command is Pinned ==> r == Ok::<Plan, CliError>(
            Plan::Call(
                DaemonCall::PinnedChannel {
                    channel: command->Pinned_0.channel,
                    team: command->Pinned_0.team,
                },
            ),
        ),
        command is Notify ==> r == Ok::<Plan, CliError>(
            Plan::Call(
                DaemonCall::Notify {
                    bot_username: command->Notify_0.bot_username,
                    message: command->Notify_0.message,
                },
            ),
        ),
        command is Whoami ==> r == Ok::<Plan, CliError>(Plan::Call(DaemonCall::Whoami)),
        command is Dms ==> r == Ok::<Plan, CliError>(Plan::Call(DaemonCall::ListDms)),
        command is Channels ==> r == Ok::<Plan, CliError>(Plan::Channels(command->Channels_0)),
        command is Daemon ==> r == Ok::<Plan, CliError>(Plan::Daemon(command->Daemon_0)),
        command is Read && r is Ok ==> r->Ok_0 is Call && r->Ok_0->Call_0 is ReadChannel,
        command is Search && r is Ok ==> r->Ok_0 is Call && r->Ok_0->Call_0 is SearchChannel,
        command is Wait && r is Ok ==> r->Ok_0 is Call && r->Ok_0->Call_0 is WaitChannel,
        command is Notifications && r is Ok ==> r->Ok_0 is Call && r->Ok_0->Call_0 is Notifications,
{
}

/// A channel or a cursor is managed by the call of the command's own name.
pub proof fn management_is_carried_out_by_its_own_call(command: CommandSet, r: Result<Plan, CliError>)
    requires
        command is Channel || command is Attention,
        call_ensures(execute, (command,), r),
    ensures
        r is Ok && r->Ok_0 is Call,
        command is Channel && command->Channel_0 is Create ==> r->Ok_0->Call_0 == (
        DaemonCall::CreateChannel {
            name: command->Channel_0->Create_0.name,
            display_name: command->Channel_0->Create_0.display_name,
            purpose: command->Channel_0->Create_0.purpose,
            team: command->Channel_0->Create_0.team,
        }),
        command is Channel && command->Channel_0 is Archive ==> r->Ok_0->Call_0 == (
        DaemonCall::ArchiveChannel { name: command->Channel_0->Archive_0.name }),
        command is Channel && command->Channel_0 is Restore ==> r->Ok_0->Call_0 == (
        DaemonCall::RestoreChannel { name: command->Channel_0->Restore_0.name }),
        command is Channel && command->Channel_0 is AddMember ==> r->Ok_0->Call_0 == (
        DaemonCall::AddMember {
            channel: command->Channel_0->AddMember_0.channel,
            username: command->Channel_0->AddMember_0.username,
        }),
        command is Attention && command->Attention_0 is List ==> r->Ok_0->Call_0
            == DaemonCall::AttentionList,
        command is Attention && command->Attention_0 is Show ==> r->Ok_0->Call_0 == (
        DaemonCall::AttentionShow {
            channel: command->Attention_0->Show_0.channel,
            team: command->Attention_0->Show_0.team,
        }),
{
}

/// A check fails where nothing is new, and only a wait that ran out is told from other failures.
pub proof fn exits_of_checks_and_waits(
    new: bool,
    code: i32,
    failure: &DaemonFailure,
    r: Option<String>,
)
    requires
        call_ensures(check_exit_code, (new,), code),
        call_ensures(wait_timed_out, (failure,), r),
    ensures
        new ==> code == 0,
        !new ==> code == 1,
        r is Some <==> failure is Rpc && failure->Rpc_code == -32005,
        r is Some ==> r->0 == failure->Rpc_message,
{
}

/// What is said of a command that was carried out.
pub proof fn what_is_said_of_a_command(
    channel: &str,
    secs: u64,
    waiting: String,
    timeout: String,
    label: &str,
    receipt: &PostReceipt,
    said: String,
    username: &str,
    dm: String,
    notified: String,
    archived: String,
    restored: String,
    added: String,
)
    requires
        call_ensures(waiting_text, (channel, secs), waiting),
        call_ensures(wait_timeout_text, (channel, secs), timeout),
        call_ensures(receipt_text, (label, receipt), said),
        call_ensures(dm_receipt_text, (username, receipt), dm),
        call_ensures(notify_receipt_text, (username, receipt), notified),
        call_ensures(archived_text, (channel,), archived),
        call_ensures(restored_text, (channel,), restored),
        call_ensures(member_added_text, (channel, username), added),
    ensures
        waiting@ == "waiting for new message in #"@ + channel@ + " (timeout: "@ + decimal_text(
            secs as nat,
        ) + "s)..."@,
        timeout@ == "timeout: no new messages in #"@ + channel@ + " after "@ + decimal_text(
            secs as nat,
        ) + " seconds"@,
        said@ == label@ + ": "@ + receipt.id@,
        dm@ == "dm sent: "@ + receipt.id@ + " (to @"@ + username@ + ")"@,
        notified@ == "notified @"@ + username@ + ": "@ + receipt.id@,
        archived@ == "archived: #"@ + channel@,
        restored@ == "restored: #"@ + channel@,
        added@ == "added: @"@ + username@ + " \u{2192} #"@ + channel@,
{
}

/// What is said of a read that only has a limit, and of bare words that say too little.
pub proof fn refusals_say_what_to_do(
    args: ReadArgs,
    words: Seq<Seq<char>>,
    name: Seq<char>,
    value: Seq<char>,
)
    ensures
        args.limit is Some && args.since is None && args.after is None && !args.since_last_mine
            && !args.since_bootstrap ==> read_refusal(args) == Some(
            "`--limit` requires an explicit read-mode flag \u{2014} use `--since-bootstrap --limit N` for 'give me the latest N posts', or `--since <window> --limit N` to cap a time-window read. Bare `read --limit N` is rejected."@,
        ),
        words.len() < 2 ==> raw_refusal(words) == Some(
            "usage: chanvoy dm <username> <message>\n       chanvoy dm read <username> [--since <minutes>]"@,
        ),
        u64_written(value) is None ==> raw_refusal(seq!["read"@, name, "--since"@, value]) == Some(
            "invalid --since value for dm read"@,
        ),
        u64_written(value) is Some ==> raw_refusal(seq!["read"@, name, "--since"@, value]) is None,
        raw_refusal(seq!["read"@, name]) is None,
        words.len() >= 2 && words[0] != "read"@ ==> raw_refusal(words) is None,
{
    let asked = seq!["read"@, name, "--since"@, value];
    assert(asked.skip(2) =~= seq!["--since"@, value]);
    assert(seq!["read"@, name].skip(2).len() == 0);
}

/// A setup and the commands on profiles work under no profile; every other command works under
/// one or is refused.
pub proof fn only_setup_and_profiles_work_under_none(
    command: CommandSet,
    flag: Option<&str>,
    inputs: &ResolverInputs<'_>,
    r: Result<Option<String>, CliError>,
)
    requires
        call_ensures(profile_for, (&command, flag, inputs), r),
    ensures
        command is AutoSetup || command is Profile ==> r is Ok && r->Ok_0 is None,
        !(command is AutoSetup || command is Profile) ==> (r is Ok && r->Ok_0 is Some) || (r is Err
            && r->Err_0 is Resolver),
{
}

/// A read and a search are asked for with all their arguments, or refused.
pub proof fn reads_and_searches_keep_their_arguments(
    read: ReadArgs,
    reading: Result<DaemonCall, CliError>,
    search: SearchArgs,
    searching: Result<DaemonCall, CliError>,
)
    requires
        call_ensures(plan_read, (read,), reading),
        call_ensures(plan_search, (search,), searching),
    ensures
        reading is Ok <==> read_refusal(read) is None,
        reading is Ok ==> reading->Ok_0 is ReadChannel && reading->Ok_0->ReadChannel_channel
            == read.channel && reading->Ok_0->ReadChannel_after == read.after
            && reading->Ok_0->ReadChannel_since_last_mine == read.since_last_mine
            && reading->Ok_0->ReadChannel_since_bootstrap == read.since_bootstrap
            && reading->Ok_0->ReadChannel_limit == read.limit && reading->Ok_0->ReadChannel_advance
            == read.advance && reading->Ok_0->ReadChannel_team == read.team,
        reading is Ok && read.since is None ==> reading->Ok_0->ReadChannel_since_secs is None,
        reading is Ok && read.since is Some ==> reading->Ok_0->ReadChannel_since_secs is Some
            && window_seconds(read.since->0@, TimeWindowDefaultUnit::Minutes) == Ok::<
            u64,
            Seq<char>,
        >(reading->Ok_0->ReadChannel_since_secs->0),
        searching is Ok <==> search_refusal(search) is None,
        searching is Ok ==> searching->Ok_0 is SearchChannel
            && searching->Ok_0->SearchChannel_channel == search.channel
            && searching->Ok_0->SearchChannel_query == search.query
            && searching->Ok_0->SearchChannel_limit == Some(search.limit)
            && searching->Ok_0->SearchChannel_from == search.from
            && searching->Ok_0->SearchChannel_team == search.team,
        searching is Ok && search.since is None ==> searching->Ok_0->SearchChannel_since_secs is
            None,
{
}

/// Bare words send a message that is made of all of them but the first, which names the peer, or
/// read what was said in the last hour or in so many minutes.
pub proof fn bare_words_are_kept(args: &Vec<String>, r: Result<DaemonCall, CliError>)
    requires
        call_ensures(handle_dm_raw, (args,), r),
        args@.len() >= 2,
    ensures
        args@[0]@ != "read"@ ==> r is Ok && r->Ok_0 is DirectMessage
            && r->Ok_0->DirectMessage_username@ == args@[0]@ && r->Ok_0->DirectMessage_message@
            == joined(texts(args@).skip(1), " "@),
        args@[0]@ == "read"@ && args@.len() == 2 ==> r is Ok && r->Ok_0 is ReadDirectMessages
            && r->Ok_0->ReadDirectMessages_username@ == args@[1]@
            && r->Ok_0->ReadDirectMessages_since_minutes == 60,
        args@[0]@ == "read"@ && r is Ok ==> r->Ok_0 is ReadDirectMessages
            && r->Ok_0->ReadDirectMessages_username@ == args@[1]@,
{
    let words = texts(args@);
    assert(words.len() == args@.len());
    assert(words[0] == args@[0]@ && words[1] == args@[1]@);
}

} // verus!
