//! Commands as the user gives them.
use vstd::prelude::*;

verus! {

/// A command.
#[derive(Debug, PartialEq, Eq)]
pub enum CommandSet {
    Daemon(DaemonCommand),
    Profile(ProfileCommand),
    Whoami,
    Channels(ChannelsArgs),
    Dms,
    Read(ReadArgs),
    Check(CheckArgs),
    Post(PostArgs),
    Dm(DmCommand),
    Notify(NotifyArgs),
    Notifications(ReadWindowArgs),
    Wait(WaitArgs),
    Pinned(PinnedArgs),
    Ack(AckArgs),
    React(ReactArgs),
    Unreact(ReactArgs),
    Pin(PinArgs),
    Unpin(PinArgs),
    Search(SearchArgs),
    Channel(ChannelCommand),
    AutoSetup(AutoSetupArgs),
    Attention(AttentionCommand),
}

#[derive(Debug, PartialEq, Eq)]
pub enum AttentionCommand {
    List,
    Show(AttentionShowArgs),
}

#[derive(Debug, PartialEq, Eq)]
pub struct ChannelsArgs {
    pub team: Option<String>,
    pub primary_team: bool,
    pub sort: Option<String>,
}

#[derive(Debug, PartialEq, Eq)]
pub struct AttentionShowArgs {
    pub channel: String,
    pub team: Option<String>,
}

#[derive(Debug, PartialEq, Eq)]
pub struct AutoSetupArgs {
    pub no_activate: bool,
    pub reduce_profile: Option<String>,
}

#[derive(Debug, Clone, Copy, PartialEq, Eq, Structural)]
pub enum DaemonCommand {
    Start,
    Serve,
    Stop,
    Status,
}

#[derive(Debug, PartialEq, Eq)]
pub enum ProfileCommand {
    List,
    Active,
    Create(ProfileCreateArgs),
    CreateFromEnv(ProfileCreateFromEnvArgs),
    Show(ProfileShowArgs),
}

#[derive(Debug, PartialEq, Eq)]
pub struct ProfileShowArgs {
    pub name: String,
}

#[derive(Debug, PartialEq, Eq)]
pub enum DmCommand {
    Send(DmSendArgs),
    Read(DmReadArgs),
    /// The words of a command without a verb.
    Raw(Vec<String>),
}

#[derive(Debug, PartialEq, Eq)]
pub enum ChannelCommand {
    Create(ChannelCreateArgs),
    Archive(ChannelNameArgs),
    Restore(ChannelNameArgs),
    AddMember(ChannelAddMemberArgs),
}

#[derive(Debug, PartialEq, Eq)]
pub struct ReadArgs {
    pub channel: String,
    pub since: Option<String>,
    pub after: Option<String>,
    pub since_last_mine: bool,
    pub since_bootstrap: bool,
    pub limit: Option<u32>,
    pub advance: bool,
    pub team: Option<String>,
}

#[derive(Debug, PartialEq, Eq)]
pub struct ReadWindowArgs {
    pub since: String,
    pub unread: bool,
}

#[derive(Debug, PartialEq, Eq)]
pub struct PinnedArgs {
    pub channel: String,
    pub team: Option<String>,
}

#[derive(Debug, PartialEq, Eq)]
pub struct AckArgs {
    pub channel: String,
    pub team: Option<String>,
}

#[derive(Debug, PartialEq, Eq)]
pub struct CheckArgs {
    pub channel: String,
    pub after: Option<String>,
    pub team: Option<String>,
}

#[derive(Debug, PartialEq, Eq)]
pub struct WaitArgs {
    pub channel: String,
    pub timeout: String,
    pub team: Option<String>,
}

#[derive(Debug, PartialEq, Eq)]
pub struct PostArgs {
    pub channel: String,
    pub message: String,
    pub reply_to: Option<String>,
    pub team: Option<String>,
}

#[derive(Debug, PartialEq, Eq)]
pub struct SearchArgs {
    pub channel: String,
    pub query: String,
    pub limit: u32,
    pub from: Option<String>,
    pub since: Option<String>,
    pub team: Option<String>,
}

#[derive(Debug, PartialEq, Eq)]
pub struct ReactArgs {
    pub channel: String,
    pub post_id: String,
    pub emoji: String,
    pub team: Option<String>,
}

#[derive(Debug, PartialEq, Eq)]
pub struct PinArgs {
    pub channel: String,
    pub post_id: String,
    pub team: Option<String>,
}

#[derive(Debug, PartialEq, Eq)]
pub struct DmSendArgs {
    pub username: String,
    pub message: String,
}

#[derive(Debug, PartialEq, Eq)]
pub struct DmReadArgs {
    pub username: String,
    pub since: u64,
}

#[derive(Debug, PartialEq, Eq)]
pub struct NotifyArgs {
    pub bot_username: String,
    pub message: String,
}

#[derive(Debug, PartialEq, Eq)]
pub struct ChannelCreateArgs {
    pub name: String,
    pub display_name: String,
    pub purpose: Option<String>,
    pub team: Option<String>,
}

#[derive(Debug, PartialEq, Eq)]
pub struct ChannelNameArgs {
    pub name: String,
}

#[derive(Debug, PartialEq, Eq)]
pub struct ChannelAddMemberArgs {
    pub channel: String,
    pub username: String,
}

#[derive(Debug, PartialEq, Eq)]
pub struct ProfileCreateArgs {
    pub name: String,
    pub role: String,
    pub scope: String,
    pub bot_username: String,
    pub server_url: String,
    pub env_name: String,
    pub team_name: Option<String>,
    pub env_file: Option<String>,
    pub credential_mode: CliCredentialMode,
    pub capability_class: CliCapabilityClass,
    pub activate: bool,
}

#[derive(Debug, PartialEq, Eq)]
pub struct ProfileCreateFromEnvArgs {
    pub name: Option<String>,
    pub team_name: Option<String>,
    pub env_name: String,
    pub env_file: Option<String>,
    pub credential_mode: CliCredentialMode,
    pub capability_class: CliCapabilityClass,
    pub activate: bool,
}

#[derive(Debug, Clone, Copy, PartialEq, Eq, Structural)]
pub enum CliCredentialMode {
    EnvName,
    EnvFile,
    SeclusorRun,
}

#[derive(Debug, Clone, Copy, PartialEq, Eq, Structural)]
pub enum CliCapabilityClass {
    Standard,
    Elevated,
}

} // verus!
