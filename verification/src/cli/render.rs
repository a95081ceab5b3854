//! Results as texts for people.
use vstd::prelude::*;
use vstd::string::*;
use vstd::utf8::{decode_utf8, encode_utf8, is_char_boundary};

use crate::clock::{moment_text, show_moment};
use crate::text::{byte_len, concat2, decimal_text, i64_text, integer_text, join, joined, opt_text,
    texts, u64_text};
use crate::types::{AckResult, AttentionSource, Channel, CheckResult, DaemonHealthState,
    DaemonStatus, Message, Notification, PinResult, Profile, ProfileStatus, ReactionResult,
    SearchResult, UnpinResult, UnreadNotifications, WaitResult, WsConnectionState};

verus! {

/// What has a text for people.
pub trait HumanReadable {
    spec fn human(&self) -> Seq<char>;

    fn to_human_string(&self) -> (r: String)
        ensures
            r@ == self.human(),
    ;
}

// ---------------------------------------------------------------------------
// Moments
// ---------------------------------------------------------------------------

/// A moment, or a dash.
pub open spec fn ts_text(millis: Option<i64>) -> Seq<char> {
    match millis {
        Some(ms) => moment_text(ms, "%Y-%m-%d %H:%MZ"@),
        None => "\u{2014}"@,
    }
}

pub fn format_ts(millis: Option<i64>) -> (r: String)
    ensures
        r@ == ts_text(millis),
{
    match millis {
        Some(ms) => show_moment(ms, "%Y-%m-%d %H:%MZ"),
        None => "\u{2014}".to_owned(),
    }
}

pub fn format_timestamp(millis: i64) -> (r: String)
    ensures
        r@ == moment_text(millis, "%Y-%m-%d %H:%M:%S"@),
{
    show_moment(millis, "%Y-%m-%d %H:%M:%S")
}

pub fn format_dm_timestamp(millis: i64) -> (r: String)
    ensures
        r@ == moment_text(millis, "%Y-%m-%d %H:%M"@),
{
    show_moment(millis, "%Y-%m-%d %H:%M")
}

/// How long ago a channel was active.
pub open spec fn last_active_text(last_post_at: Option<i64>, now_millis: i64) -> Seq<char> {
    match last_post_at {
        None => "\u{2014}"@,
        Some(ts) => if ts <= 0 {
            "\u{2014}"@
        } else if now_millis < ts {
            "just now"@
        } else {
            let s = (now_millis - ts) / 1000;
            if s < 60 {
                integer_text(s) + "s ago"@
            } else if s < 3600 {
                integer_text(s / 60) + "m ago"@
            } else if s < 86400 {
                integer_text(s / 3600) + "h ago"@
            } else if s < 604800 {
                integer_text(s / 86400) + "d ago"@
            } else if s < 31536000 {
                integer_text(s / 604800) + "w ago"@
            } else {
                integer_text(s / 31536000) + "y ago"@
            }
        },
    }
}

/// How long ago a channel was active; a dash where it never was.
pub fn format_last_active(last_post_at: Option<i64>, now_millis: i64) -> (r: String)
    ensures
        r@ == last_active_text(last_post_at, now_millis),
{
    let ts: i64 = match last_post_at {
        None => {
            return "\u{2014}".to_owned();
        },
        Some(ts) => ts,
    };
    if ts <= 0 {
        return "\u{2014}".to_owned();
    }
    if now_millis < ts {
        return "just now".to_owned();
    }
    let s: i64 = (now_millis - ts) / 1000;
    if s < 60 {
        concat2(i64_text(s).as_str(), "s ago")
    } else if s < 3600 {
        concat2(i64_text(s / 60).as_str(), "m ago")
    } else if s < 86400 {
        concat2(i64_text(s / 3600).as_str(), "h ago")
    } else if s < 604800 {
        concat2(i64_text(s / 86400).as_str(), "d ago")
    } else if s < 31536000 {
        concat2(i64_text(s / 604800).as_str(), "w ago")
    } else {
        concat2(i64_text(s / 31536000).as_str(), "y ago")
    }
}

// ---------------------------------------------------------------------------
// Cutting
// ---------------------------------------------------------------------------

/// The text can be cut after `max` bytes: it is not longer, or a character ends
/// there.
pub open spec fn cuttable(s: Seq<char>, max: int) -> bool {
    encode_utf8(s).len() <= max || is_char_boundary(encode_utf8(s), max)
}

/// At most the first `max` bytes of a text.
pub open spec fn cut(s: Seq<char>, max: int) -> Seq<char> {
    if encode_utf8(s).len() <= max {
        s
    } else {
        decode_utf8(encode_utf8(s).subrange(0, max))
    }
}

pub fn truncate(s: &str, max: usize) -> (r: &str)
    requires
        cuttable(s@, max as int),
    ensures
        r@ == cut(s@, max as int),
        encode_utf8(r@).len() <= max,
{
    if byte_len(s) <= max {
        s
    } else {
        let (head, _tail) = s.split_at(max);
        proof {
            vstd::utf8::encode_utf8_decode_utf8(head@);
        }
        head
    }
}

/// The first eight bytes of an id, if a character ends there.
pub open spec fn short_id(id: Seq<char>) -> Seq<char> {
    if encode_utf8(id).len() >= 8 && is_char_boundary(encode_utf8(id), 8) {
        decode_utf8(encode_utf8(id).subrange(0, 8))
    } else {
        id
    }
}

pub fn short_post_id(id: &str) -> (r: &str)
    ensures
        r@ == short_id(id@),
{
    if byte_len(id) >= 8 && id.is_char_boundary(8) {
        let (head, _tail) = id.split_at(8);
        proof {
            vstd::utf8::encode_utf8_decode_utf8(head@);
        }
        head
    } else {
        id
    }
}

// ---------------------------------------------------------------------------
// Labels
// ---------------------------------------------------------------------------

pub open spec fn source_label(source: AttentionSource) -> Seq<char> {
    match source {
        AttentionSource::NoAnchor => "no_anchor"@,
        AttentionSource::PostCursor => "post_cursor"@,
        AttentionSource::NotificationsCursor => "notifications_cursor"@,
        AttentionSource::StaleCursor => "stale_cursor"@,
    }
}

pub fn attention_source_label(source: &AttentionSource) -> (r: &'static str)
    ensures
        r@ == source_label(*source),
{
    match source {
        AttentionSource::NoAnchor => "no_anchor",
        AttentionSource::PostCursor => "post_cursor",
        AttentionSource::NotificationsCursor => "notifications_cursor",
        AttentionSource::StaleCursor => "stale_cursor",
    }
}

pub open spec fn health_word(h: DaemonHealthState) -> Seq<char> {
    match h {
        DaemonHealthState::Healthy => "healthy"@,
        DaemonHealthState::Connecting => "connecting"@,
        DaemonHealthState::Degraded => "degraded"@,
        DaemonHealthState::Disconnected => "disconnected"@,
        DaemonHealthState::Recovering => "recovering"@,
    }
}

pub fn health_label(h: DaemonHealthState) -> (r: &'static str)
    ensures
        r@ == health_word(h),
{
    match h {
        DaemonHealthState::Healthy => "healthy",
        DaemonHealthState::Connecting => "connecting",
        DaemonHealthState::Degraded => "degraded",
        DaemonHealthState::Disconnected => "disconnected",
        DaemonHealthState::Recovering => "recovering",
    }
}

pub open spec fn ws_state_word(s: WsConnectionState) -> Seq<char> {
    match s {
        WsConnectionState::Disconnected => "disconnected"@,
        WsConnectionState::Connecting => "connecting"@,
        WsConnectionState::Healthy => "healthy"@,
        WsConnectionState::Degraded => "degraded"@,
    }
}

pub fn ws_state_label(s: WsConnectionState) -> (r: &'static str)
    ensures
        r@ == ws_state_word(s),
{
    match s {
        WsConnectionState::Disconnected => "disconnected",
        WsConnectionState::Connecting => "connecting",
        WsConnectionState::Healthy => "healthy",
        WsConnectionState::Degraded => "degraded",
    }
}

// ---------------------------------------------------------------------------
// Messages
// ---------------------------------------------------------------------------

pub open spec fn message_text(m: Message) -> Seq<char> {
    moment_text(m.create_at, "%Y-%m-%d %H:%M:%S"@) + " ["@ + m.username@ + "]\n"@ + m.message@
        + "\n---"@
}

pub fn format_message(message: &Message) -> (r: String)
    ensures
        r@ == message_text(*message),
{
    let mut out = format_timestamp(message.create_at);
    out.append(" [");
    out.append(message.username.as_str());
    out.append("]\n");
    out.append(message.message.as_str());
    out.append("\n---");
    out
}

pub open spec fn message_texts(ms: Seq<Message>) -> Seq<Seq<char>> {
    ms.map_values(|m: Message| message_text(m))
}

fn push_messages(lines: &mut Vec<String>, messages: &Vec<Message>)
    ensures
        texts(final(lines)@) == texts(old(lines)@) + message_texts(messages@),
{
    let ghost start = texts(lines@);
    let ghost shown = message_texts(messages@);
    let mut i: usize = 0;
    proof {
        assert(texts(lines@) =~= start + shown.take(0));
    }
    while i < messages.len()
        invariant
            i <= messages@.len(),
            shown == message_texts(messages@),
            texts(lines@) == start + shown.take(i as int),
        decreases messages.len() - i,
    {
        let ghost before = lines@;
        let m = format_message(&messages[i]);
        let ghost t = m@;
        lines.push(m);
        i += 1;
        proof {
            assert(texts(lines@) =~= texts(before).push(t));
            assert(shown[i - 1] == t);
            assert(texts(lines@) =~= start + shown.take(i as int));
        }
    }
    proof {
        assert(shown.take(i as int) =~= shown);
    }
}

fn messages_text(messages: &Vec<Message>) -> (r: String)
    ensures
        r@ == joined(message_texts(messages@), "\n"@),
{
    let mut lines: Vec<String> = Vec::new();
    proof {
        assert(texts(lines@) =~= Seq::empty());
    }
    push_messages(&mut lines, messages);
    proof {
        assert(texts(lines@) =~= message_texts(messages@));
    }
    join(&lines, "\n")
}

impl HumanReadable for Vec<Message> {
    open spec fn human(&self) -> Seq<char> {
        joined(message_texts(self@), "\n"@)
    }

    fn to_human_string(&self) -> (r: String) {
        messages_text(self)
    }
}

impl HumanReadable for WaitResult {
    open spec fn human(&self) -> Seq<char> {
        joined(message_texts(self.messages@), "\n"@)
    }

    fn to_human_string(&self) -> (r: String) {
        messages_text(&self.messages)
    }
}

/// The messages of notifications.
pub open spec fn notified(ns: Seq<Notification>) -> Seq<Message> {
    ns.map_values(|n: Notification| n.message)
}

impl HumanReadable for Vec<Notification> {
    open spec fn human(&self) -> Seq<char> {
        if self@.len() == 0 {
            "(no notifications)"@
        } else {
            joined(message_texts(notified(self@)), "\n"@)
        }
    }

    fn to_human_string(&self) -> (r: String) {
        if self.len() == 0 {
            return "(no notifications)".to_owned();
        }
        let mut messages: Vec<Message> = Vec::new();
        let mut i: usize = 0;
        while i < self.len()
            invariant
                i <= self@.len(),
                messages@ == notified(self@).take(i as int),
            decreases self.len() - i,
        {
            messages.push(self[i].message.clone());
            i += 1;
            proof {
                assert(notified(self@).take(i as int) =~= notified(self@).take(i - 1).push(
                    self@[i - 1].message,
                ));
            }
        }
        proof {
            assert(notified(self@).take(i as int) =~= notified(self@));
        }
        messages_text(&messages)
    }
}

impl HumanReadable for SearchResult {
    open spec fn human(&self) -> Seq<char> {
        if self.posts@.len() == 0 {
            "no matches in "@ + self.team@ + "/"@ + self.channel@
        } else {
            joined(
                seq![
                    decimal_text(self.posts@.len()) + " match(es) in "@ + self.team@ + "/"@
                        + self.channel@ + ":"@,
                ] + message_texts(self.posts@),
                "\n"@,
            )
        }
    }

    fn to_human_string(&self) -> (r: String) {
        if self.posts.len() == 0 {
            let mut m = "no matches in ".to_owned();
            m.append(self.team.as_str());
            m.append("/");
            m.append(self.channel.as_str());
            return m;
        }
        let mut header = u64_text(self.posts.len() as u64);
        header.append(" match(es) in ");
        header.append(self.team.as_str());
        header.append("/");
        header.append(self.channel.as_str());
        header.append(":");
        let ghost head = header@;
        let mut lines: Vec<String> = Vec::new();
        lines.push(header);
        proof {
            assert(texts(lines@) =~= seq![head]);
        }
        push_messages(&mut lines, &self.posts);
        join(&lines, "\n")
    }
}

// ---------------------------------------------------------------------------
// Results of commands
// ---------------------------------------------------------------------------

pub open spec fn or_else(s: Option<String>, other: Seq<char>) -> Seq<char> {
    match s {
        Some(t) => t@,
        None => other,
    }
}

fn text_or(s: &Option<String>, other: &str) -> (r: String)
    ensures
        r@ == or_else(*s, other@),
{
    match s {
        Some(t) => t.clone(),
        None => other.to_owned(),
    }
}

impl HumanReadable for CheckResult {
    open spec fn human(&self) -> Seq<char> {
        if self.has_new_messages {
            "new: "@ + decimal_text(self.count as nat) + " newest="@ + or_else(
                self.newest_post_id,
                ""@,
            ) + " anchor="@ + or_else(self.anchor, "none"@) + " source="@ + self.anchor_source@
        } else {
            "new: 0 anchor="@ + or_else(self.anchor, "none"@) + " source="@ + self.anchor_source@
        }
    }

    fn to_human_string(&self) -> (r: String) {
        if self.has_new_messages {
            let mut m = "new: ".to_owned();
            m.append(u64_text(self.count as u64).as_str());
            m.append(" newest=");
            m.append(text_or(&self.newest_post_id, "").as_str());
            m.append(" anchor=");
            m.append(text_or(&self.anchor, "none").as_str());
            m.append(" source=");
            m.append(self.anchor_source.as_str());
            m
        } else {
            let mut m = "new: 0 anchor=".to_owned();
            m.append(text_or(&self.anchor, "none").as_str());
            m.append(" source=");
            m.append(self.anchor_source.as_str());
            m
        }
    }
}

impl HumanReadable for UnreadNotifications {
    open spec fn human(&self) -> Seq<char> {
        "unread: "@ + decimal_text(self.count as nat)
    }

    fn to_human_string(&self) -> (r: String) {
        concat2("unread: ", u64_text(self.count as u64).as_str())
    }
}

impl HumanReadable for AckResult {
    open spec fn human(&self) -> Seq<char> {
        match self.cursor_post_id {
            Some(post_id) => "ack: "@ + self.team@ + "/"@ + self.channel@ + " cursor advanced to "@
                + post_id@,
            None => "ack: "@ + self.team@ + "/"@ + self.channel@
                + " channel has no posts; cursor unchanged"@,
        }
    }

    fn to_human_string(&self) -> (r: String) {
        let mut m = "ack: ".to_owned();
        m.append(self.team.as_str());
        m.append("/");
        m.append(self.channel.as_str());
        match &self.cursor_post_id {
            Some(post_id) => {
                m.append(" cursor advanced to ");
                m.append(post_id.as_str());
            },
            None => {
                m.append(" channel has no posts; cursor unchanged");
            },
        }
        m
    }
}

impl HumanReadable for ReactionResult {
    open spec fn human(&self) -> Seq<char> {
        "ok: "@ + self.team@ + "/"@ + self.channel@ + " "@ + self.emoji@ + " on post "@
            + self.post_id@
    }

    fn to_human_string(&self) -> (r: String) {
        let mut m = "ok: ".to_owned();
        m.append(self.team.as_str());
        m.append("/");
        m.append(self.channel.as_str());
        m.append(" ");
        m.append(self.emoji.as_str());
        m.append(" on post ");
        m.append(self.post_id.as_str());
        m
    }
}

impl HumanReadable for PinResult {
    open spec fn human(&self) -> Seq<char> {
        "pinned: "@ + short_id(self.post_id@) + " in "@ + self.team@ + "/"@ + self.channel@
    }

    fn to_human_string(&self) -> (r: String) {
        let mut m = "pinned: ".to_owned();
        m.append(short_post_id(self.post_id.as_str()));
        m.append(" in ");
        m.append(self.team.as_str());
        m.append("/");
        m.append(self.channel.as_str());
        m
    }
}

impl HumanReadable for UnpinResult {
    open spec fn human(&self) -> Seq<char> {
        "unpinned: "@ + short_id(self.post_id@) + " in "@ + self.team@ + "/"@ + self.channel@
    }

    fn to_human_string(&self) -> (r: String) {
        let mut m = "unpinned: ".to_owned();
        m.append(short_post_id(self.post_id.as_str()));
        m.append(" in ");
        m.append(self.team.as_str());
        m.append("/");
        m.append(self.channel.as_str());
        m
    }
}

impl HumanReadable for Channel {
    open spec fn human(&self) -> Seq<char> {
        "created: #"@ + self.name@ + " ("@ + self.id@ + ")"@
    }

    fn to_human_string(&self) -> (r: String) {
        let mut m = "created: #".to_owned();
        m.append(self.name.as_str());
        m.append(" (");
        m.append(self.id.as_str());
        m.append(")");
        m
    }
}

pub open spec fn profile_line(p: Profile) -> Seq<char> {
    p.name@ + " ("@ + p.scope@ + "/"@ + p.role@ + ")"@
}

impl HumanReadable for Vec<Profile> {
    open spec fn human(&self) -> Seq<char> {
        joined(self@.map_values(|p: Profile| profile_line(p)), "\n"@)
    }

    fn to_human_string(&self) -> (r: String) {
        let ghost shown = self@.map_values(|p: Profile| profile_line(p));
        let mut lines: Vec<String> = Vec::new();
        let mut i: usize = 0;
        while i < self.len()
            invariant
                i <= self@.len(),
                shown == self@.map_values(|p: Profile| profile_line(p)),
                texts(lines@) == shown.take(i as int),
            decreases self.len() - i,
        {
            let ghost before = lines@;
            let mut m = self[i].name.clone();
            m.append(" (");
            m.append(self[i].scope.as_str());
            m.append("/");
            m.append(self[i].role.as_str());
            m.append(")");
            let ghost t = m@;
            lines.push(m);
            i += 1;
            proof {
                assert(texts(lines@) =~= texts(before).push(t));
                assert(shown.take(i as int) =~= shown.take(i - 1).push(t));
            }
        }
        proof {
            assert(shown.take(i as int) =~= shown);
        }
        join(&lines, "\n")
    }
}

impl HumanReadable for ProfileStatus {
    open spec fn human(&self) -> Seq<char> {
        "profile: "@ + self.profile_name@ + "\nrole: "@ + self.role@ + "\nscope: "@ + self.scope@
            + "\nbot: "@ + self.bot_username@ + "\nserver: "@ + self.server_url@ + "\nsocket: "@
            + self.socket_path@
    }

    fn to_human_string(&self) -> (r: String) {
        let mut m = "profile: ".to_owned();
        m.append(self.profile_name.as_str());
        m.append("\nrole: ");
        m.append(self.role.as_str());
        m.append("\nscope: ");
        m.append(self.scope.as_str());
        m.append("\nbot: ");
        m.append(self.bot_username.as_str());
        m.append("\nserver: ");
        m.append(self.server_url.as_str());
        m.append("\nsocket: ");
        m.append(self.socket_path.as_str());
        m
    }
}

/// A line where there is something to say.
pub open spec fn line_if(label: Seq<char>, value: Option<Seq<char>>) -> Seq<char> {
    match value {
        Some(v) => label + v,
        None => Seq::empty(),
    }
}

fn append_if(out: &mut String, label: &str, value: Option<String>)
    ensures
        final(out)@ == old(out)@ + line_if(label@, opt_text(value)),
{
    let ghost before = out@;
    match value {
        Some(v) => {
            out.append(label);
            out.append(v.as_str());
        },
        None => {},
    }
    proof {
        assert(out@ =~= before + line_if(label@, opt_text(value)));
    }
}

pub open spec fn moment_if(millis: Option<i64>) -> Option<Seq<char>> {
    match millis {
        Some(ms) => Some(moment_text(ms, "%Y-%m-%d %H:%M:%S"@)),
        None => None,
    }
}

fn show_moment_if(millis: Option<i64>) -> (r: Option<String>)
    ensures
        opt_text(r) == moment_if(millis),
{
    match millis {
        Some(ms) => Some(format_timestamp(ms)),
        None => None,
    }
}

impl HumanReadable for DaemonStatus {
    open spec fn human(&self) -> Seq<char> {
        let head = "profile: "@ + self.profile_name@ + "\nsocket: "@ + self.socket_path@
            + "\nmattermost_username: "@ + self.mattermost_username@ + "\nmattermost_ok: "@ + (
        if self.mattermost_ok {
            "true"@
        } else {
            "false"@
        });
        head + line_if(
            "\nhealth: "@,
            match self.health {
                Some(h) => Some(health_word(h)),
                None => None,
            },
        ) + line_if(
            "\nws_state: "@,
            match self.ws_connection_state {
                Some(s) => Some(ws_state_word(s)),
                None => None,
            },
        ) + line_if(
            "\nreconnect_count: "@,
            match self.ws_reconnect_count {
                Some(n) => Some(decimal_text(n as nat)),
                None => None,
            },
        ) + line_if("\nws_last_event_at: "@, moment_if(self.ws_last_event_at)) + line_if(
            "\nws_last_disconnect_at: "@,
            moment_if(self.ws_last_disconnect_at),
        ) + line_if("\nws_last_recovered_at: "@, moment_if(self.ws_last_recovered_at)) + (
        if self.ws_suspected_gap == Some(true) {
            "\nsuspected_gap: yes"@
        } else {
            Seq::empty()
        }) + line_if("\nmattermost_last_error: "@, opt_text(self.mattermost_last_error))
    }

    fn to_human_string(&self) -> (r: String) {
        let mut out = "profile: ".to_owned();
        out.append(self.profile_name.as_str());
        out.append("\nsocket: ");
        out.append(self.socket_path.as_str());
        out.append("\nmattermost_username: ");
        out.append(self.mattermost_username.as_str());
        out.append("\nmattermost_ok: ");
        if self.mattermost_ok {
            out.append("true");
        } else {
            out.append("false");
        }
        append_if(
            &mut out,
            "\nhealth: ",
            match self.health {
                Some(h) => Some(health_label(h).to_owned()),
                None => None,
            },
        );
        append_if(
            &mut out,
            "\nws_state: ",
            match self.ws_connection_state {
                Some(s) => Some(ws_state_label(s).to_owned()),
                None => None,
            },
        );
        append_if(
            &mut out,
            "\nreconnect_count: ",
            match self.ws_reconnect_count {
                Some(n) => Some(u64_text(n)),
                None => None,
            },
        );
        append_if(&mut out, "\nws_last_event_at: ", show_moment_if(self.ws_last_event_at));
        append_if(
            &mut out,
            "\nws_last_disconnect_at: ",
            show_moment_if(self.ws_last_disconnect_at),
        );
        append_if(&mut out, "\nws_last_recovered_at: ", show_moment_if(self.ws_last_recovered_at));
        let ghost before = out@;
        match self.ws_suspected_gap {
            Some(gap) => {
                if gap {
                    out.append("\nsuspected_gap: yes");
                }
            },
            None => {},
        }
        proof {
            assert(out@ =~= before + (if self.ws_suspected_gap == Some(true) {
                "\nsuspected_gap: yes"@
            } else {
                Seq::empty()
            }));
        }
        append_if(&mut out, "\nmattermost_last_error: ", self.mattermost_last_error.clone());
        out
    }
}

// ---------------------------------------------------------------------------
// Laws
// ---------------------------------------------------------------------------

/// A message is shown with its moment, its author and its text.
pub proof fn messages_are_shown_with_their_author(m: Message)
    ensures
        message_text(m) == moment_text(m.create_at, "%Y-%m-%d %H:%M:%S"@) + " ["@ + m.username@
            + "]\n"@ + m.message@ + "\n---"@,
{
}

/// Messages are shown one after another, each of them and in their order.
pub proof fn all_messages_are_shown(ms: Seq<Message>, i: int)
    requires
        0 <= i < ms.len(),
    ensures
        message_texts(ms).len() == ms.len(),
        message_texts(ms)[i] == message_text(ms[i]),
{
}

/// What a list of messages, a wait, notifications and a search show.
pub proof fn lists_show_their_messages(
    ms: Vec<Message>,
    waited: WaitResult,
    ns: Vec<Notification>,
    found: SearchResult,
)
    ensures
        ms.human() == joined(message_texts(ms@), "\n"@),
        waited.human() == joined(message_texts(waited.messages@), "\n"@),
        ns@.len() == 0 ==> ns.human() == "(no notifications)"@,
        ns@.len() > 0 ==> ns.human() == joined(
            message_texts(Seq::new(ns@.len(), |i: int| ns@[i].message)),
            "\n"@,
        ),
        found.posts@.len() == 0 ==> found.human() == "no matches in "@ + found.team@ + "/"@
            + found.channel@,
        found.posts@.len() > 0 ==> found.human() == joined(
            seq![
                decimal_text(found.posts@.len()) + " match(es) in "@ + found.team@ + "/"@
                    + found.channel@ + ":"@,
            ] + message_texts(found.posts@),
            "\n"@,
        ),
{
    assert(notified(ns@) =~= Seq::new(ns@.len(), |i: int| ns@[i].message));
}

/// A check says how many messages are new and since when, and where nothing is new that.
pub proof fn checks_say_what_is_new(c: CheckResult)
    ensures
        c.has_new_messages && c.newest_post_id is Some && c.anchor is Some ==> c.human() == "new: "@
            + decimal_text(c.count as nat) + " newest="@ + c.newest_post_id->0@ + " anchor="@
            + c.anchor->0@ + " source="@ + c.anchor_source@,
        c.has_new_messages && c.newest_post_id is Some && c.anchor is None ==> c.human() == "new: "@
            + decimal_text(c.count as nat) + " newest="@ + c.newest_post_id->0@ + " anchor="@
            + "none"@ + " source="@ + c.anchor_source@,
        !c.has_new_messages && c.anchor is Some ==> c.human() == "new: 0 anchor="@ + c.anchor->0@
            + " source="@ + c.anchor_source@,
        !c.has_new_messages && c.anchor is None ==> c.human() == "new: 0 anchor="@ + "none"@
            + " source="@ + c.anchor_source@,
{
}

/// What was done is shown with the place where it was done.
pub proof fn outcomes_name_their_place(
    ack: AckResult,
    reaction: ReactionResult,
    pin: PinResult,
    unpin: UnpinResult,
    created: Channel,
    unread: UnreadNotifications,
)
    ensures
        ack.cursor_post_id is Some ==> ack.human() == "ack: "@ + ack.team@ + "/"@ + ack.channel@
            + " cursor advanced to "@ + ack.cursor_post_id->0@,
        ack.cursor_post_id is None ==> ack.human() == "ack: "@ + ack.team@ + "/"@ + ack.channel@
            + " channel has no posts; cursor unchanged"@,
        reaction.human() == "ok: "@ + reaction.team@ + "/"@ + reaction.channel@ + " "@
            + reaction.emoji@ + " on post "@ + reaction.post_id@,
        pin.human() == "pinned: "@ + short_id(pin.post_id@) + " in "@ + pin.team@ + "/"@
            + pin.channel@,
        unpin.human() == "unpinned: "@ + short_id(unpin.post_id@) + " in "@ + unpin.team@ + "/"@
            + unpin.channel@,
        created.human() == "created: #"@ + created.name@ + " ("@ + created.id@ + ")"@,
        unread.human() == "unread: "@ + decimal_text(unread.count as nat),
{
}

/// Profiles are shown line by line with their scope and role, and the status of one with all
/// that it is.
pub proof fn profiles_are_shown(ps: Vec<Profile>, status: ProfileStatus)
    ensures
        ps.human() == joined(
            Seq::new(
                ps@.len(),
                |i: int| ps@[i].name@ + " ("@ + ps@[i].scope@ + "/"@ + ps@[i].role@ + ")"@,
            ),
            "\n"@,
        ),
        status.human() == "profile: "@ + status.profile_name@ + "\nrole: "@ + status.role@
            + "\nscope: "@ + status.scope@ + "\nbot: "@ + status.bot_username@ + "\nserver: "@
            + status.server_url@ + "\nsocket: "@ + status.socket_path@,
{
    assert(ps@.map_values(|p: Profile| profile_line(p)) =~= Seq::new(
        ps@.len(),
        |i: int| ps@[i].name@ + " ("@ + ps@[i].scope@ + "/"@ + ps@[i].role@ + ")"@,
    ));
}

/// Each state goes by its own word.
pub proof fn states_go_by_their_word(
    h: DaemonHealthState,
    s: WsConnectionState,
    a: AttentionSource,
)
    ensures
        h is Healthy ==> health_word(h) == "healthy"@,
        h is Connecting ==> health_word(h) == "connecting"@,
        h is Degraded ==> health_word(h) == "degraded"@,
        h is Disconnected ==> health_word(h) == "disconnected"@,
        h is Recovering ==> health_word(h) == "recovering"@,
        s is Disconnected ==> ws_state_word(s) == "disconnected"@,
        s is Connecting ==> ws_state_word(s) == "connecting"@,
        s is Healthy ==> ws_state_word(s) == "healthy"@,
        s is Degraded ==> ws_state_word(s) == "degraded"@,
        a is NoAnchor ==> source_label(a) == "no_anchor"@,
        a is PostCursor ==> source_label(a) == "post_cursor"@,
        a is NotificationsCursor ==> source_label(a) == "notifications_cursor"@,
        a is StaleCursor ==> source_label(a) == "stale_cursor"@,
{
}

/// How long ago something was is told in the largest unit that it fills, and not at all where
/// it never was.
pub proof fn the_past_is_told_in_whole_units(ts: i64, now: i64)
    ensures
        last_active_text(None, now) == "\u{2014}"@,
        ts <= 0 ==> last_active_text(Some(ts), now) == "\u{2014}"@,
        ts > 0 && now < ts ==> last_active_text(Some(ts), now) == "just now"@,
        ts > 0 && 0 <= now - ts < 60_000 ==> last_active_text(Some(ts), now) == integer_text(
            (now - ts) / 1000,
        ) + "s ago"@,
        ts > 0 && 60_000 <= now - ts < 3_600_000 ==> last_active_text(Some(ts), now)
            == integer_text((now - ts) / 60_000) + "m ago"@,
        ts > 0 && 3_600_000 <= now - ts < 86_400_000 ==> last_active_text(Some(ts), now)
            == integer_text((now - ts) / 3_600_000) + "h ago"@,
        ts > 0 && 86_400_000 <= now - ts < 604_800_000 ==> last_active_text(Some(ts), now)
            == integer_text((now - ts) / 86_400_000) + "d ago"@,
        ts > 0 && 604_800_000 <= now - ts < 31_536_000_000 ==> last_active_text(Some(ts), now)
            == integer_text((now - ts) / 604_800_000) + "w ago"@,
        ts > 0 && 31_536_000_000 <= now - ts ==> last_active_text(Some(ts), now) == integer_text(
            (now - ts) / 31_536_000_000,
        ) + "y ago"@,
{
    let d = now - ts;
    if ts > 0 && d >= 0 {
        vstd::arithmetic::div_mod::lemma_div_denominator(d, 1000, 60);
        vstd::arithmetic::div_mod::lemma_div_denominator(d, 1000, 3600);
        vstd::arithmetic::div_mod::lemma_div_denominator(d, 1000, 86400);
        vstd::arithmetic::div_mod::lemma_div_denominator(d, 1000, 604800);
        vstd::arithmetic::div_mod::lemma_div_denominator(d, 1000, 31536000);
    }
}

/// A short id is the first eight bytes, and a text is cut only where it is too long.
pub proof fn short_texts_stay(s: Seq<char>, max: int)
    requires
        0 <= max,
    ensures
        encode_utf8(s).len() <= max ==> cut(s, max) == s,
        encode_utf8(s).len() < 8 ==> short_id(s) == s,
        encode_utf8(s).len() > max ==> cut(s, max) == decode_utf8(encode_utf8(s).subrange(0, max)),
        encode_utf8(s).len() >= 8 && is_char_boundary(encode_utf8(s), 8) ==> short_id(s)
            == decode_utf8(encode_utf8(s).subrange(0, 8)),
{
}

/// The status of a daemon begins with the profile, the socket and what the provider says, and
/// has a line for everything else that is known.
pub proof fn statuses_show_what_is_known(d: DaemonStatus)
    ensures
        d.health is None && d.ws_connection_state is None && d.ws_reconnect_count is None
            && d.ws_last_event_at is None && d.ws_last_disconnect_at is None
            && d.ws_last_recovered_at is None && d.ws_suspected_gap != Some(true)
            && d.mattermost_last_error is None ==> d.human() == "profile: "@ + d.profile_name@
            + "\nsocket: "@ + d.socket_path@ + "\nmattermost_username: "@ + d.mattermost_username@
            + "\nmattermost_ok: "@ + (if d.mattermost_ok {
            "true"@
        } else {
            "false"@
        }),
        d.health is Some && d.ws_connection_state is Some && d.ws_reconnect_count is Some
            && d.ws_last_event_at is Some && d.ws_last_disconnect_at is Some
            && d.ws_last_recovered_at is Some && d.ws_suspected_gap == Some(true)
            && d.mattermost_last_error is Some ==> d.human() == "profile: "@ + d.profile_name@
            + "\nsocket: "@ + d.socket_path@ + "\nmattermost_username: "@ + d.mattermost_username@
            + "\nmattermost_ok: "@ + (if d.mattermost_ok {
            "true"@
        } else {
            "false"@
        }) + ("\nhealth: "@ + health_word(d.health->0)) + ("\nws_state: "@ + ws_state_word(
            d.ws_connection_state->0,
        )) + ("\nreconnect_count: "@ + decimal_text(d.ws_reconnect_count->0 as nat)) + (
        "\nws_last_event_at: "@ + moment_text(d.ws_last_event_at->0, "%Y-%m-%d %H:%M:%S"@)) + (
        "\nws_last_disconnect_at: "@ + moment_text(
            d.ws_last_disconnect_at->0,
            "%Y-%m-%d %H:%M:%S"@,
        )) + ("\nws_last_recovered_at: "@ + moment_text(
            d.ws_last_recovered_at->0,
            "%Y-%m-%d %H:%M:%S"@,
        )) + "\nsuspected_gap: yes"@ + ("\nmattermost_last_error: "@
            + d.mattermost_last_error->0@),
{
    let head = "profile: "@ + d.profile_name@ + "\nsocket: "@ + d.socket_path@
        + "\nmattermost_username: "@ + d.mattermost_username@ + "\nmattermost_ok: "@ + (
    if d.mattermost_ok {
        "true"@
    } else {
        "false"@
    });
    let none = Seq::<char>::empty();
    assert(head + none + none + none + none + none + none + none + none =~= head);
    match d.ws_suspected_gap {
        Some(gap) => {
            if gap {
                assert(d.ws_suspected_gap == Some(true));
            } else {
                assert(d.ws_suspected_gap == Some(false));
            }
        },
        None => {},
    }
}

/// A moment is shown to the minute, and a dash where there is none.
pub proof fn missing_moments_are_dashes(millis: i64)
    ensures
        ts_text(None) == "\u{2014}"@,
        ts_text(Some(millis)) == moment_text(millis, "%Y-%m-%d %H:%MZ"@),
{
}

} // verus!
