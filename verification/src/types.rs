//! The data that the library works on.
use vstd::prelude::*;

use crate::collections::TextMap;

verus! {

/// The chat service that a profile talks to.
#[derive(Debug, Clone, Copy, PartialEq, Eq, Structural)]
pub enum Provider {
    Mattermost,
}

/// Where the token of a profile comes from.
#[derive(Debug, Clone, Copy, PartialEq, Eq, Structural)]
pub enum CredentialMode {
    EnvName,
    EnvFile,
    SeclusorRun,
}

/// What a profile may do.
#[derive(Debug, Clone, Copy, PartialEq, Eq, Structural)]
pub enum CapabilityClass {
    Standard,
    Elevated,
}

/// A bot identity: who it is, which server and team it works on, and where its
/// token comes from.
#[derive(Debug, Clone, PartialEq, Eq)]
pub struct Profile {
    pub name: String,
    pub role: String,
    pub scope: String,
    pub provider: Provider,
    pub bot_username: String,
    pub team_name: String,
    pub server_url: String,
    pub env_name: String,
    pub env_file: Option<String>,
    pub credential_mode: CredentialMode,
    pub capability_class: CapabilityClass,
    pub monitored_channels: Vec<String>,
    pub ipc: Option<IpcConfig>,
    pub reduce: Option<ReducePolicy>,
}

/// Names the profile under whose identity posts outside the own team are made.
#[derive(Debug, PartialEq, Eq)]
pub struct ReducePolicy {
    pub use_profile: String,
}

impl Clone for ReducePolicy {
    fn clone(&self) -> (r: Self)
        ensures
            r == *self,
    {
        ReducePolicy {
            use_profile: self.use_profile.clone(),
        }
    }
}

/// Settings of the local gateway.
#[derive(Debug, PartialEq, Eq)]
pub struct IpcConfig {
    pub enabled: bool,
    pub gateway_socket: String,
}

impl Clone for IpcConfig {
    fn clone(&self) -> (r: Self)
        ensures
            r == *self,
    {
        IpcConfig {
            enabled: self.enabled,
            gateway_socket: self.gateway_socket.clone(),
        }
    }
}

/// What `profile show` reports.
#[derive(Debug, Clone, PartialEq, Eq)]
pub struct ProfileStatus {
    pub profile_name: String,
    pub role: String,
    pub scope: String,
    pub provider: Provider,
    pub bot_username: String,
    pub server_url: String,
    pub socket_path: String,
}

/// Who the provider says the token belongs to.
#[derive(Debug, PartialEq, Eq)]
pub struct Identity {
    pub id: String,
    pub username: String,
    pub is_bot: bool,
    pub nickname: Option<String>,
    pub email: Option<String>,
}

impl Clone for Identity {
    fn clone(&self) -> (r: Self)
        ensures
            r == *self,
    {
        Identity {
            id: self.id.clone(),
            username: self.username.clone(),
            is_bot: self.is_bot,
            nickname: self.nickname.clone(),
            email: self.email.clone(),
        }
    }
}

/// A channel as the library reports it. `last_post_at` is absent for a channel
/// without posts.
#[derive(Debug, PartialEq, Eq)]
pub struct Channel {
    pub id: String,
    pub name: String,
    pub display_name: String,
    pub channel_type: String,
    pub last_post_at: Option<i64>,
}

impl Clone for Channel {
    fn clone(&self) -> (r: Self)
        ensures
            r == *self,
    {
        Channel {
            id: self.id.clone(),
            name: self.name.clone(),
            display_name: self.display_name.clone(),
            channel_type: self.channel_type.clone(),
            last_post_at: self.last_post_at,
        }
    }
}

/// The channel shape without activity.
#[derive(Debug, Clone, PartialEq, Eq)]
pub struct LegacyChannel {
    pub id: String,
    pub name: String,
    pub display_name: String,
    pub channel_type: String,
}

/// A post. `root_id` names the thread: the id of the post itself for a top-level
/// post, the id of the first post of the thread for a reply.
#[derive(Debug, PartialEq, Eq)]
pub struct Message {
    pub id: String,
    pub user_id: String,
    pub username: String,
    pub message: String,
    pub create_at: i64,
    pub root_id: String,
}

impl Clone for Message {
    fn clone(&self) -> (r: Self)
        ensures
            r == *self,
    {
        Message {
            id: self.id.clone(),
            user_id: self.user_id.clone(),
            username: self.username.clone(),
            message: self.message.clone(),
            create_at: self.create_at,
            root_id: self.root_id.clone(),
        }
    }
}

/// The id of a post that was made, with the thread root for a threaded reply.
#[derive(Debug, Clone, PartialEq, Eq)]
pub struct PostReceipt {
    pub id: String,
    pub parent_id: Option<String>,
}

/// What a channel wait returned.
#[derive(Debug, Clone, PartialEq, Eq)]
pub struct WaitResult {
    pub channel: String,
    pub messages: Vec<Message>,
}

/// A message that mentions the bot.
#[derive(Debug, Clone, PartialEq, Eq)]
pub struct Notification {
    pub from_channel: String,
    pub message: Message,
}

/// Which post mentions the bot, and when it was made.
#[derive(Debug, Clone, PartialEq, Eq)]
pub struct MentionSummary {
    pub post_id: String,
    pub create_at: i64,
}

/// A direct-message channel and its last activity.
#[derive(Debug, Clone, PartialEq, Eq)]
pub struct DmConversation {
    pub id: String,
    pub name: String,
    pub last_post_at: i64,
}

/// The error of a response.
#[derive(Debug, Clone, PartialEq, Eq)]
pub struct ErrorDetail {
    pub code: i64,
    pub message: String,
}

/// State of the push connection.
#[derive(Debug, Clone, Copy, PartialEq, Eq, Structural)]
pub enum WsConnectionState {
    Disconnected,
    Connecting,
    Healthy,
    Degraded,
}

/// Health of the daemon as it is reported.
#[derive(Debug, Clone, Copy, PartialEq, Eq, Structural)]
pub enum DaemonHealthState {
    Disconnected,
    Connecting,
    Healthy,
    Degraded,
    Recovering,
}

/// The push connection at one moment.
#[derive(Debug, Clone, PartialEq, Eq)]
pub struct WsStatusSnapshot {
    pub connection_state: Option<WsConnectionState>,
    pub last_event_at: Option<i64>,
    pub last_error: Option<String>,
    pub reconnect_count: Option<u64>,
    pub last_disconnect_at: Option<i64>,
    pub last_recovered_at: Option<i64>,
    pub suspected_gap: Option<bool>,
    pub recovering_until: i64,
}

/// The local gateway at one moment.
#[derive(Debug, Clone, PartialEq, Eq)]
pub struct IpcStatusSnapshot {
    pub connected: Option<bool>,
    pub peer_id: Option<String>,
    pub reconnect_count: Option<u64>,
}

/// What a pushed event is about.
#[derive(Debug, Clone, Copy, PartialEq, Eq, Structural)]
pub enum DaemonEventKind {
    InboundMessage,
    InboundMention,
    ConnectionStateChanged,
    Gap,
}

/// A pushed message.
#[derive(Debug, Clone, PartialEq, Eq)]
pub struct InboundEventPayload {
    pub profile: String,
    pub provider: Provider,
    pub channel_id: String,
    pub channel_name: String,
    pub post_id: String,
    pub root_id: String,
    pub sender_id: String,
    pub sender_username: String,
    pub message: String,
    pub create_at: i64,
    pub received_at: i64,
    pub mentioned: bool,
}

/// A change of the push connection.
#[derive(Debug, Clone, PartialEq, Eq)]
pub struct ConnectionStateChangedPayload {
    pub profile: String,
    pub provider: Provider,
    pub state: WsConnectionState,
    pub message: String,
}

/// A range of events that a subscriber missed.
#[derive(Debug, Clone, PartialEq, Eq)]
pub struct GapPayload {
    pub subscription_id: String,
    pub missed_from_seq: u64,
    pub missed_to_seq: u64,
}

/// A pushed event with its sequence number.
#[derive(Debug, Clone, PartialEq, Eq)]
pub struct DaemonEvent {
    pub seq: u64,
    pub kind: DaemonEventKind,
    pub payload: DaemonEventPayloadInner,
}

/// The content of a pushed event.
#[derive(Debug, Clone, PartialEq, Eq)]
pub enum DaemonEventPayloadInner {
    Inbound(InboundEventPayload),
    ConnectionStateChanged(ConnectionStateChangedPayload),
    Gap(GapPayload),
}

/// Which events a subscriber wants.
#[derive(Debug, Clone, PartialEq, Eq)]
pub enum SubscriptionFilter {
    AllMonitored,
    ChannelByName(String),
    MentionsOnly,
    ConnectionState,
}

/// Request to subscribe.
#[derive(Debug, Clone, PartialEq, Eq)]
pub struct SubscribeParams {
    pub filter: SubscriptionFilter,
}

/// Request to end a subscription.
#[derive(Debug, Clone, PartialEq, Eq)]
pub struct UnsubscribeParams {
    pub subscription_id: String,
}

/// Answer to a subscription.
#[derive(Debug, Clone, PartialEq, Eq)]
pub struct SubscriptionAck {
    pub subscription_id: String,
    pub start_sequence: u64,
}

/// A notification; `params` is JSON text.
#[derive(Debug, Clone, PartialEq, Eq)]
pub struct JsonRpcNotification {
    pub jsonrpc: String,
    pub method: String,
    pub params: String,
}

/// A request; `params` is JSON text.
#[derive(Debug, Clone, PartialEq, Eq)]
pub struct JsonRpcRequest {
    pub jsonrpc: String,
    pub id: String,
    pub method: String,
    pub params: String,
}

/// A response; `result` is JSON text.
#[derive(Debug, Clone, PartialEq, Eq)]
pub struct JsonRpcResponse {
    pub jsonrpc: String,
    pub id: String,
    pub result: Option<String>,
    pub error: Option<ErrorDetail>,
}

/// Request to read a channel.
#[derive(Debug, Clone, PartialEq, Eq)]
pub struct ReadChannelParams {
    pub channel: String,
    pub since_minutes: Option<u64>,
    pub since_secs: Option<u64>,
    pub after_post_id: Option<String>,
    pub since_last_mine: bool,
    pub since_bootstrap: bool,
    pub limit: Option<u32>,
    pub advance: bool,
    pub team: Option<String>,
}

/// Request to post a message.
#[derive(Debug, Clone, PartialEq, Eq)]
pub struct PostMessageParams {
    pub channel: String,
    pub message: String,
    pub team: Option<String>,
    pub thread_root_id: Option<String>,
}

/// Request to send a direct message.
#[derive(Debug, Clone, PartialEq, Eq)]
pub struct DirectMessageParams {
    pub username: String,
    pub message: String,
}

/// Request to read a direct conversation.
#[derive(Debug, Clone, PartialEq, Eq)]
pub struct ReadDirectMessageParams {
    pub username: String,
    pub since_minutes: u64,
}

/// Request to list mentions.
#[derive(Debug, Clone, PartialEq, Eq)]
pub struct NotificationsParams {
    pub since_minutes: Option<u64>,
    pub since_secs: Option<u64>,
    pub unread_only: bool,
}

/// Request to look for new messages.
#[derive(Debug, Clone, PartialEq, Eq)]
pub struct CheckChannelParams {
    pub channel: String,
    pub after_post_id: Option<String>,
    pub team: Option<String>,
}

/// Request to show one cursor.
#[derive(Debug, Clone, PartialEq, Eq)]
pub struct AttentionShowParams {
    pub channel: String,
    pub team: Option<String>,
}

/// Request to list the pinned posts of a channel.
#[derive(Debug, Clone, PartialEq, Eq)]
pub struct PinnedChannelParams {
    pub channel: String,
    pub team: Option<String>,
}

/// Request to fetch one post of a channel.
#[derive(Debug, Clone, PartialEq, Eq)]
pub struct GetPostParams {
    pub channel: String,
    pub post_id: String,
    pub team: Option<String>,
}

/// Request to read a thread, named by any of its posts.
#[derive(Debug, Clone, PartialEq, Eq)]
pub struct ReadThreadParams {
    pub channel: String,
    pub post_id: String,
    pub latest: bool,
    pub team: Option<String>,
}

/// Request to react to a post.
#[derive(Debug, Clone, PartialEq, Eq)]
pub struct ReactParams {
    pub channel: String,
    pub post_id: String,
    pub emoji: String,
    pub team: Option<String>,
}

/// Request to withdraw a reaction.
#[derive(Debug, Clone, PartialEq, Eq)]
pub struct UnreactParams {
    pub channel: String,
    pub post_id: String,
    pub emoji: String,
    pub team: Option<String>,
}

/// Outcome of a reaction.
#[derive(Debug, Clone, PartialEq, Eq)]
pub struct ReactionResult {
    pub team: String,
    pub channel: String,
    pub post_id: String,
    pub emoji: String,
    pub ok: bool,
}

/// Request to pin a post.
#[derive(Debug, Clone, PartialEq, Eq)]
pub struct PinParams {
    pub channel: String,
    pub post_id: String,
    pub team: Option<String>,
}

/// Request to unpin a post.
#[derive(Debug, Clone, PartialEq, Eq)]
pub struct UnpinParams {
    pub channel: String,
    pub post_id: String,
    pub team: Option<String>,
}

/// Outcome of pinning.
#[derive(Debug, Clone, PartialEq, Eq)]
pub struct PinResult {
    pub verb: String,
    pub team: String,
    pub channel: String,
    pub channel_id: String,
    pub post_id: String,
    pub result: String,
    pub was_already_pinned: bool,
    pub ok: bool,
}

/// Outcome of unpinning.
#[derive(Debug, Clone, PartialEq, Eq)]
pub struct UnpinResult {
    pub verb: String,
    pub team: String,
    pub channel: String,
    pub channel_id: String,
    pub post_id: String,
    pub result: String,
    pub was_already_unpinned: bool,
    pub ok: bool,
}

/// Request to search a channel.
#[derive(Debug, Clone, PartialEq, Eq)]
pub struct SearchParams {
    pub channel: String,
    pub query: String,
    pub limit: Option<u32>,
    pub from: Option<String>,
    pub since_secs: Option<u64>,
    pub team: Option<String>,
}

/// Posts found, in the order of the provider.
#[derive(Debug, Clone, PartialEq, Eq)]
pub struct SearchResult {
    pub team: String,
    pub channel: String,
    pub posts: Vec<Message>,
}

/// Request to move the cursor to the head of a channel.
#[derive(Debug, Clone, PartialEq, Eq)]
pub struct AckChannelParams {
    pub channel: String,
    pub team: Option<String>,
}

/// Where the cursor went; no post id for a channel without posts.
#[derive(Debug, Clone, PartialEq, Eq)]
pub struct AckResult {
    pub channel: String,
    pub team: String,
    pub cursor_post_id: Option<String>,
}

/// Whether a channel has messages after the anchor.
#[derive(Debug, Clone, PartialEq, Eq)]
pub struct CheckResult {
    pub channel: String,
    pub anchor: Option<String>,
    pub anchor_source: String,
    pub has_new_messages: bool,
    pub count: usize,
    pub newest_post_id: Option<String>,
}

/// What seeding did with one channel.
#[derive(Debug, Clone, PartialEq, Eq)]
pub enum SeededChannelOutcome {
    Seeded { channel: String, post_id: String },
    UnseededEmptyChannel { channel: String },
    Failed { channel: String, reason: String },
}

/// What seeding did.
#[derive(Debug, Clone, PartialEq, Eq, Default)]
pub struct SeedCursorsResult {
    pub outcomes: Vec<SeededChannelOutcome>,
}

/// Where the anchor of a channel comes from.
#[derive(Debug, Clone, Copy, PartialEq, Eq, Structural, Default)]
pub enum AttentionSource {
    #[default]
    NoAnchor,
    PostCursor,
    NotificationsCursor,
    StaleCursor,
}

/// One row of the attention listing.
#[derive(Debug, Clone, PartialEq, Eq)]
pub struct AttentionChannelEntry {
    pub channel: String,
    pub source: AttentionSource,
    pub newest_seen: Option<String>,
    pub updated_at: Option<i64>,
    pub last_checked_at: Option<i64>,
}

/// The mention cursor of the attention listing.
#[derive(Debug, Clone, PartialEq, Eq, Default)]
pub struct AttentionMentionEntry {
    pub source: AttentionSource,
    pub newest_seen: Option<String>,
    pub updated_at: Option<i64>,
}

/// The attention listing.
#[derive(Debug, Clone, PartialEq, Eq, Default)]
pub struct AttentionListResult {
    pub profile: String,
    pub channels: Vec<AttentionChannelEntry>,
    pub mentions: AttentionMentionEntry,
    pub quarantined: Vec<QuarantinedCursor>,
}

/// The attention state of one channel.
#[derive(Debug, Clone, PartialEq, Eq)]
pub struct AttentionShowResult {
    pub profile: String,
    pub channel: AttentionChannelEntry,
    pub mentions: AttentionMentionEntry,
}

/// Number of unread mentions.
#[derive(Debug, Clone, PartialEq, Eq)]
pub struct UnreadNotifications {
    pub count: usize,
}

/// The cursors of a profile, keyed by `<team>/<channel>`.
#[derive(Debug, Clone, PartialEq, Eq, Default)]
pub struct AttentionState {
    pub channels: TextMap<ChannelCursorState>,
    pub mentions: MentionCursorState,
    pub quarantined: Vec<QuarantinedCursor>,
}

/// A cursor whose channel name is on several teams, held aside.
#[derive(Debug, Clone, PartialEq, Eq)]
pub struct QuarantinedCursor {
    pub legacy_channel_name: String,
    pub ambiguous_teams: Vec<String>,
    pub state: ChannelCursorState,
    pub quarantined_at: i64,
}

/// The cursor of one channel.
#[derive(Debug, PartialEq, Eq, Default)]
pub struct ChannelCursorState {
    pub last_seen_post_id: Option<String>,
    pub updated_at: Option<i64>,
    pub last_known_stale: bool,
    pub last_checked_at: Option<i64>,
    pub channel_id: String,
    pub team_id: String,
    pub team_name: String,
    pub channel_name: String,
}

impl Clone for ChannelCursorState {
    fn clone(&self) -> (r: Self)
        ensures
            r == *self,
    {
        ChannelCursorState {
            last_seen_post_id: self.last_seen_post_id.clone(),
            updated_at: self.updated_at,
            last_known_stale: self.last_known_stale,
            last_checked_at: self.last_checked_at,
            channel_id: self.channel_id.clone(),
            team_id: self.team_id.clone(),
            team_name: self.team_name.clone(),
            channel_name: self.channel_name.clone(),
        }
    }
}

/// The cursor of the mentions.
#[derive(Debug, PartialEq, Eq, Default)]
pub struct MentionCursorState {
    pub last_seen_post_id: Option<String>,
    pub updated_at: Option<i64>,
}

impl Clone for MentionCursorState {
    fn clone(&self) -> (r: Self)
        ensures
            r == *self,
    {
        MentionCursorState {
            last_seen_post_id: self.last_seen_post_id.clone(),
            updated_at: self.updated_at,
        }
    }
}

/// Request to notify another bot.
#[derive(Debug, Clone, PartialEq, Eq)]
pub struct NotifyParams {
    pub bot_username: String,
    pub message: String,
}

/// Request to wait for a message.
#[derive(Debug, Clone, PartialEq, Eq)]
pub struct WaitChannelParams {
    pub channel: String,
    pub timeout_minutes: u64,
    pub timeout_secs: Option<u64>,
    pub team: Option<String>,
}

/// Request to wait for a message that passes a filter.
#[derive(Debug, Clone, PartialEq, Eq)]
pub struct WaitChannelV2Params {
    pub channel: String,
    pub timeout_secs: u64,
    pub team: Option<String>,
    pub contains: Option<String>,
    pub pattern: Option<String>,
    pub after: Option<String>,
}

/// Request to create a channel.
#[derive(Debug, Clone, PartialEq, Eq)]
pub struct CreateChannelParams {
    pub name: String,
    pub display_name: String,
    pub purpose: Option<String>,
    pub team: Option<String>,
}

/// Request to archive a channel.
#[derive(Debug, Clone, PartialEq, Eq)]
pub struct ArchiveChannelParams {
    pub name: String,
}

/// Request to add a user to a channel.
#[derive(Debug, Clone, PartialEq, Eq)]
pub struct AddMemberParams {
    pub channel: String,
    pub username: String,
}

/// Answer to a shutdown request.
#[derive(Debug, Clone, PartialEq, Eq)]
pub struct ShutdownResult {
    pub stopping: bool,
}

/// Answer to a ping.
#[derive(Debug, Clone, PartialEq, Eq)]
pub struct DaemonHealth {
    pub profile: String,
    pub socket_path: String,
}

/// What the daemon reports of itself.
#[derive(Debug, Clone, PartialEq, Eq)]
pub struct DaemonStatus {
    pub profile_name: String,
    pub socket_path: String,
    pub mattermost_username: String,
    pub mattermost_ok: bool,
    pub ws_connection_state: Option<WsConnectionState>,
    pub ws_last_event_at: Option<i64>,
    pub ws_last_error: Option<String>,
    pub ws_reconnect_count: Option<u64>,
    pub ipc_connected: Option<bool>,
    pub ipc_peer_id: Option<String>,
    pub ipc_reconnect_count: Option<u64>,
    pub health: Option<DaemonHealthState>,
    pub ws_last_disconnect_at: Option<i64>,
    pub ws_last_recovered_at: Option<i64>,
    pub ws_suspected_gap: Option<bool>,
    pub mattermost_last_error: Option<String>,
    pub mattermost_identity_drift: Option<bool>,
}

/// The configuration file.
#[derive(Debug, Clone, PartialEq, Eq)]
pub struct ConfigFile {
    pub mattermost: Option<MattermostConfig>,
}

/// The provider section of the configuration file.
#[derive(Debug, Clone, PartialEq, Eq)]
pub struct MattermostConfig {
    pub server_url: Option<String>,
    pub team_name: Option<String>,
    pub bot_token: Option<String>,
}

/// A channel that a name was resolved to.
#[derive(Debug, PartialEq, Eq)]
pub struct ResolvedChannel {
    pub channel_id: String,
    pub channel_name: String,
    pub team_id: String,
    pub team_name: String,
    pub resolution_source: ResolutionSource,
}

impl Clone for ResolvedChannel {
    fn clone(&self) -> (r: Self)
        ensures
            r == *self,
    {
        ResolvedChannel {
            channel_id: self.channel_id.clone(),
            channel_name: self.channel_name.clone(),
            team_id: self.team_id.clone(),
            team_name: self.team_name.clone(),
            resolution_source: self.resolution_source,
        }
    }
}

/// On which path a channel name was resolved.
#[derive(Debug, Clone, Copy, PartialEq, Eq, Structural)]
pub enum ResolutionSource {
    Primary,
    Fallback,
    Explicit,
}

/// A team that the bot is a member of.
#[derive(Debug, PartialEq, Eq)]
pub struct TeamInfo {
    pub id: String,
    pub name: String,
    pub display_name: String,
}

impl Clone for TeamInfo {
    fn clone(&self) -> (r: Self)
        ensures
            r == *self,
    {
        TeamInfo {
            id: self.id.clone(),
            name: self.name.clone(),
            display_name: self.display_name.clone(),
        }
    }
}

/// The channels of one team.
#[derive(Debug, Clone, PartialEq, Eq)]
pub struct TeamChannels {
    pub team_id: String,
    pub team_name: String,
    pub team_display_name: String,
    pub channels: Vec<Channel>,
}

} // verus!
