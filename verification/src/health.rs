//! Health of the daemon: what it reports of itself, and the recovery after the
//! push connection was lost.
use vstd::prelude::*;
use vstd::string::*;

use crate::text::{decimal_text, opt_text, str_eq, u64_text};
use crate::types::{DaemonHealthState, DaemonStatus, IpcStatusSnapshot, WsConnectionState,
    WsStatusSnapshot};

verus! {

/// How long after a reconnect the daemon counts as recovering, in milliseconds.
pub const RECOVERY_GRACE_MS: i64 = 10_000;

/// How long the status report waits for the provider, in milliseconds.
pub const STATUS_PROBE_TIMEOUT_MS: u64 = 2_000;

// ---------------------------------------------------------------------------
// Status
// ---------------------------------------------------------------------------

/// The health that follows from the state of the connection.
pub open spec fn health_of(
    now_millis: i64,
    connection_state: Option<WsConnectionState>,
    suspected_gap: bool,
    recovering_until_millis: i64,
) -> Option<DaemonHealthState> {
    match connection_state {
        None => None,
        Some(WsConnectionState::Disconnected) => Some(DaemonHealthState::Disconnected),
        Some(WsConnectionState::Connecting) => Some(DaemonHealthState::Connecting),
        Some(WsConnectionState::Degraded) => Some(DaemonHealthState::Degraded),
        Some(WsConnectionState::Healthy) => Some(
            if now_millis < recovering_until_millis || suspected_gap {
                DaemonHealthState::Recovering
            } else {
                DaemonHealthState::Healthy
            },
        ),
    }
}

pub fn derive_daemon_health(
    now_millis: i64,
    connection_state: Option<WsConnectionState>,
    suspected_gap: bool,
    recovering_until_millis: i64,
) -> (r: Option<DaemonHealthState>)
    ensures
        r == health_of(now_millis, connection_state, suspected_gap, recovering_until_millis),
{
    match connection_state {
        None => None,
        Some(WsConnectionState::Disconnected) => Some(DaemonHealthState::Disconnected),
        Some(WsConnectionState::Connecting) => Some(DaemonHealthState::Connecting),
        Some(WsConnectionState::Degraded) => Some(DaemonHealthState::Degraded),
        Some(WsConnectionState::Healthy) => {
            if now_millis < recovering_until_millis || suspected_gap {
                Some(DaemonHealthState::Recovering)
            } else {
                Some(DaemonHealthState::Healthy)
            }
        },
    }
}

/// What is known of the identity: nothing without an answer of the provider, and
/// nothing where no name is configured.
pub open spec fn identity_drift(configured: Seq<char>, answer: Result<String, String>) -> Option<
    bool,
> {
    match answer {
        Ok(username) => if configured.len() == 0 {
            None
        } else {
            Some(username@ != configured)
        },
        Err(_) => None,
    }
}

/// The status of the daemon. It is always there: where the provider does not
/// answer, that is part of the status.
pub fn build_daemon_status(
    profile_name: String,
    socket_path: String,
    configured_bot_username: String,
    whoami_result: Result<String, String>,
    ws: WsStatusSnapshot,
    ipc: IpcStatusSnapshot,
    now_millis: i64,
) -> (r: DaemonStatus)
    ensures
        r.profile_name == profile_name,
        r.socket_path == socket_path,
        r.mattermost_username@ == (match whoami_result {
            Ok(username) => username@,
            Err(_) => configured_bot_username@,
        }),
        r.mattermost_ok == (whoami_result is Ok),
        opt_text(r.mattermost_last_error) == (match whoami_result {
            Ok(_) => None,
            Err(msg) => Some(msg@),
        }),
        r.mattermost_identity_drift == identity_drift(configured_bot_username@, whoami_result),
        r.ws_connection_state == ws.connection_state,
        r.ws_last_event_at == ws.last_event_at,
        r.ws_last_error == ws.last_error,
        r.ws_reconnect_count == ws.reconnect_count,
        r.ipc_connected == ipc.connected,
        r.ipc_peer_id == ipc.peer_id,
        r.ipc_reconnect_count == ipc.reconnect_count,
        r.health == health_of(
            now_millis,
            ws.connection_state,
            ws.suspected_gap == Some(true),
            ws.recovering_until,
        ),
        r.ws_last_disconnect_at == ws.last_disconnect_at,
        r.ws_last_recovered_at == ws.last_recovered_at,
        r.ws_suspected_gap == ws.suspected_gap,
{
    let (mattermost_username, mattermost_ok, mattermost_last_error, mattermost_identity_drift) =
        match whoami_result {
        Ok(username) => {
            let drift = if configured_bot_username.as_str().is_empty() {
                None
            } else {
                Some(!str_eq(username.as_str(), configured_bot_username.as_str()))
            };
            (username, true, None, drift)
        },
        Err(msg) => (configured_bot_username, false, Some(msg), None),
    };
    let gap = match ws.suspected_gap {
        Some(g) => g,
        None => false,
    };
    let health = derive_daemon_health(now_millis, ws.connection_state, gap, ws.recovering_until);
    DaemonStatus {
        profile_name,
        socket_path,
        mattermost_username,
        mattermost_ok,
        ws_connection_state: ws.connection_state,
        ws_last_event_at: ws.last_event_at,
        ws_last_error: ws.last_error,
        ws_reconnect_count: ws.reconnect_count,
        ipc_connected: ipc.connected,
        ipc_peer_id: ipc.peer_id,
        ipc_reconnect_count: ipc.reconnect_count,
        health,
        ws_last_disconnect_at: ws.last_disconnect_at,
        ws_last_recovered_at: ws.last_recovered_at,
        ws_suspected_gap: ws.suspected_gap,
        mattermost_last_error,
        mattermost_identity_drift,
    }
}

/// What a probe of the provider found: the name, an error, or that the time was
/// up.
pub enum ProbeOutcome {
    Answered(String),
    Refused(String),
    TimedOut,
}

/// What a probe contributes to the status.
pub fn probe_result(outcome: ProbeOutcome, timeout_ms: u64) -> (r: Result<String, String>)
    ensures
        match outcome {
            ProbeOutcome::Answered(name) => r == Ok::<String, String>(name),
            ProbeOutcome::Refused(why) => r == Err::<String, String>(why),
            ProbeOutcome::TimedOut => r matches Err(why) && why@
                == "reachability probe timed out after "@ + decimal_text(
                timeout_ms as nat,
            ) + "ms"@,
        },
{
    match outcome {
        ProbeOutcome::Answered(name) => Ok(name),
        ProbeOutcome::Refused(why) => Err(why),
        ProbeOutcome::TimedOut => {
            let mut m = "reachability probe timed out after ".to_owned();
            m.append(u64_text(timeout_ms).as_str());
            m.append("ms");
            Err(m)
        },
    }
}

// ---------------------------------------------------------------------------
// Recovery
// ---------------------------------------------------------------------------

/// The push connection as the daemon follows it. Moments are milliseconds since
/// the Unix epoch; zero means never.
#[derive(Debug, PartialEq, Eq)]
pub struct WsState {
    pub connection_state: WsConnectionState,
    pub last_event_at: i64,
    pub last_error: Option<String>,
    pub reconnect_count: u64,
    pub last_disconnect_at: i64,
    pub last_disconnect_seq: u64,
    pub suspected_gap: bool,
    pub recovering_until: i64,
    pub last_recovered_at: i64,
    pub catchup_in_flight: bool,
}

/// What to do when the grace period is over.
#[derive(Debug, Clone, Copy, PartialEq, Eq, Structural)]
pub enum GraceDecision {
    /// A later reconnect has set another target: nothing.
    Superseded,
    /// The messages of the outage are still being fetched: look again.
    Wait,
    /// Fetching takes too long: leave the gap flagged.
    GiveUp,
    /// The recovery is complete.
    Recovered,
    /// The connection is not healthy: nothing.
    NotHealthy,
}

/// The connection before the first attempt.
pub open spec fn fresh(ws: WsState) -> bool {
    &&& ws.connection_state is Disconnected
    &&& ws.last_event_at == 0
    &&& ws.last_error is None
    &&& ws.reconnect_count == 0
    &&& ws.last_disconnect_at == 0
    &&& ws.last_disconnect_seq == 0
    &&& !ws.suspected_gap
    &&& ws.recovering_until == 0
    &&& ws.last_recovered_at == 0
    &&& !ws.catchup_in_flight
}

impl Default for WsState {
    fn default() -> (r: Self)
        ensures
            fresh(r),
    {
        WsState::new()
    }
}

impl WsState {
    pub fn new() -> (r: Self)
        ensures
            fresh(r),
    {
        WsState {
            connection_state: WsConnectionState::Disconnected,
            last_event_at: 0,
            last_error: None,
            reconnect_count: 0,
            last_disconnect_at: 0,
            last_disconnect_seq: 0,
            suspected_gap: false,
            recovering_until: 0,
            last_recovered_at: 0,
            catchup_in_flight: false,
        }
    }

    /// Sets the state; a disconnect is stamped with `now`.
    pub fn set_state(&mut self, state: WsConnectionState, now: i64)
        ensures
            *final(self) == (WsState {
                connection_state: state,
                last_disconnect_at: if state is Disconnected {
                    now
                } else {
                    old(self).last_disconnect_at
                },
                ..*old(self)
            }),
    {
        if state == WsConnectionState::Disconnected {
            self.last_disconnect_at = now;
        }
        self.connection_state = state;
    }

    pub fn record_disconnect_seq(&mut self, seq: u64)
        ensures
            *final(self) == (WsState { last_disconnect_seq: seq, ..*old(self) }),
    {
        self.last_disconnect_seq = seq;
    }

    pub fn set_error(&mut self, msg: String)
        ensures
            *final(self) == (WsState { last_error: Some(msg), ..*old(self) }),
    {
        self.last_error = Some(msg);
    }

    pub fn touch_event(&mut self, now: i64)
        ensures
            *final(self) == (WsState { last_event_at: now, ..*old(self) }),
    {
        self.last_event_at = now;
    }

    /// Counts a reconnect; the counter wraps.
    pub fn bump_reconnect(&mut self)
        ensures
            *final(self) == (WsState {
                reconnect_count: if old(self).reconnect_count == u64::MAX {
                    0
                } else {
                    (old(self).reconnect_count + 1) as u64
                },
                ..*old(self)
            }),
    {
        if self.reconnect_count == u64::MAX {
            self.reconnect_count = 0;
        } else {
            self.reconnect_count = self.reconnect_count + 1;
        }
    }

    /// Starts the grace period after a reconnect and says when it ends; at the
    /// first connection there is nothing to recover from.
    pub fn arm_recovery_window(&mut self, now: i64) -> (r: Option<i64>)
        requires
            now <= i64::MAX - RECOVERY_GRACE_MS,
        ensures
            old(self).last_disconnect_at == 0 ==> r is None && *final(self) == *old(self),
            old(self).last_disconnect_at != 0 ==> r == Some((now + RECOVERY_GRACE_MS) as i64)
                && *final(self) == (WsState {
                recovering_until: (now + RECOVERY_GRACE_MS) as i64,
                ..*old(self)
            }),
    {
        if self.last_disconnect_at == 0 {
            return None;
        }
        let target: i64 = now + RECOVERY_GRACE_MS;
        self.recovering_until = target;
        Some(target)
    }

    /// What to do once the grace period with this target is over.
    pub open spec fn grace(self, target: i64, waited_secs: u64) -> GraceDecision {
        if self.recovering_until != target {
            GraceDecision::Superseded
        } else if self.catchup_in_flight {
            if waited_secs >= 60 {
                GraceDecision::GiveUp
            } else {
                GraceDecision::Wait
            }
        } else if self.connection_state is Healthy {
            GraceDecision::Recovered
        } else {
            GraceDecision::NotHealthy
        }
    }

    /// Ends the grace period with this target. The gap is cleared only where no
    /// later reconnect has begun another one, the missed messages have been
    /// fetched and the connection is healthy.
    pub fn finish_grace(&mut self, target: i64, waited_secs: u64, now: i64) -> (r: GraceDecision)
        ensures
            r == old(self).grace(target, waited_secs),
            r is Recovered ==> *final(self) == (WsState {
                last_recovered_at: now,
                suspected_gap: false,
                ..*old(self)
            }),
            !(r is Recovered) ==> *final(self) == *old(self),
    {
        if self.recovering_until != target {
            return GraceDecision::Superseded;
        }
        if self.catchup_in_flight {
            if waited_secs >= 60 {
                return GraceDecision::GiveUp;
            }
            return GraceDecision::Wait;
        }
        if self.connection_state == WsConnectionState::Healthy {
            self.last_recovered_at = now;
            self.suspected_gap = false;
            return GraceDecision::Recovered;
        }
        GraceDecision::NotHealthy
    }

    /// Begins fetching what was missed: the gap of an earlier outage is forgotten.
    pub fn begin_catchup(&mut self)
        ensures
            *final(self) == (WsState {
                catchup_in_flight: true,
                suspected_gap: false,
                ..*old(self)
            }),
    {
        self.catchup_in_flight = true;
        self.suspected_gap = false;
    }

    /// Ends fetching what was missed; an outage beyond the window leaves a gap.
    pub fn end_catchup(&mut self, outage_exceeded_window: bool)
        ensures
            *final(self) == (WsState {
                catchup_in_flight: false,
                suspected_gap: outage_exceeded_window || old(self).suspected_gap,
                ..*old(self)
            }),
    {
        if outage_exceeded_window {
            self.suspected_gap = true;
        }
        self.catchup_in_flight = false;
    }

    /// The health at the moment `now`.
    pub fn health(&self, now: i64) -> (r: Option<DaemonHealthState>)
        ensures
            r == health_of(
                now,
                Some(self.connection_state),
                self.suspected_gap,
                self.recovering_until,
            ),
    {
        derive_daemon_health(
            now,
            Some(self.connection_state),
            self.suspected_gap,
            self.recovering_until,
        )
    }
}

/// After a reconnect the daemon counts as recovering until the grace period is
/// over, and as healthy from then on once the period was finished.
pub proof fn recovery_ends_with_the_grace_period(
    before: WsState,
    armed_at: i64,
    target: i64,
    finished: WsState,
    now: i64,
    finished_at: i64,
)
    requires
        before.last_disconnect_at != 0,
        target == armed_at + RECOVERY_GRACE_MS,
        finished == (WsState {
            recovering_until: target,
            last_recovered_at: finished_at,
            suspected_gap: false,
            ..before
        }),
        before.connection_state is Healthy,
    ensures
        now < target ==> health_of(
            now,
            Some(before.connection_state),
            before.suspected_gap,
            target,
        ) == Some(DaemonHealthState::Recovering),
        now >= target ==> health_of(
            now,
            Some(finished.connection_state),
            finished.suspected_gap,
            finished.recovering_until,
        ) == Some(DaemonHealthState::Healthy),
{
}

/// A healthy connection reads as recovering while the grace period lasts or a gap is
/// suspected, and as healthy otherwise; any other connection reads as what it is.
pub proof fn health_is_that_of_the_connection(
    now: i64,
    state: WsConnectionState,
    gap: bool,
    until: i64,
)
    ensures
        health_of(now, None, gap, until) is None,
        ({
            let h = health_of(now, Some(state), gap, until);
            &&& h is Some
            &&& h->0 is Disconnected <==> state is Disconnected
            &&& h->0 is Connecting <==> state is Connecting
            &&& h->0 is Degraded <==> state is Degraded
            &&& h->0 is Recovering <==> state is Healthy && (now < until || gap)
            &&& h->0 is Healthy <==> state is Healthy && now >= until && !gap
        }),
{
}

/// An identity has drifted where the provider knows the token under another name than the one
/// that is configured; without an answer or a configured name nothing is known.
pub proof fn drift_is_another_name(configured: Seq<char>, answer: Result<String, String>)
    ensures
        identity_drift(configured, answer) == Some(true) <==> answer is Ok && configured.len() > 0
            && answer->Ok_0@ != configured,
        identity_drift(configured, answer) == Some(false) <==> answer is Ok && configured.len() > 0
            && answer->Ok_0@ == configured,
        identity_drift(configured, answer) is None <==> answer is Err || configured.len() == 0,
{
}

/// A recovery counts once the messages of the outage were fetched, and only where the
/// connection is healthy and no later one has taken over. Nobody waits longer than a minute.
pub proof fn recoveries_wait_for_what_was_missed(ws: WsState, target: i64, waited_secs: u64)
    ensures
        ws.grace(target, waited_secs) is Recovered <==> ws.recovering_until == target
            && !ws.catchup_in_flight && ws.connection_state is Healthy,
        ws.grace(target, waited_secs) is Superseded <==> ws.recovering_until != target,
        ws.grace(target, waited_secs) is Wait <==> ws.recovering_until == target
            && ws.catchup_in_flight && waited_secs < 60,
        ws.grace(target, waited_secs) is GiveUp <==> ws.recovering_until == target
            && ws.catchup_in_flight && waited_secs >= 60,
        RECOVERY_GRACE_MS == 10_000,
        STATUS_PROBE_TIMEOUT_MS == 2_000,
{
}

/// A new connection has never been connected, and nothing is wrong with it yet.
pub proof fn new_connections_know_nothing(ws: WsState)
    requires
        fresh(ws),
    ensures
        ws.connection_state is Disconnected,
        ws.last_event_at == 0 && ws.last_disconnect_at == 0 && ws.last_recovered_at == 0
            && ws.recovering_until == 0,
        ws.reconnect_count == 0 && ws.last_disconnect_seq == 0,
        ws.last_error is None && !ws.suspected_gap && !ws.catchup_in_flight,
{
}

/// The status is what the daemon knows, and says what the provider answered, or that it did
/// not and why.
pub proof fn statuses_say_what_the_provider_answered(
    profile: String,
    socket: String,
    configured: String,
    answer: Result<String, String>,
    ws: WsStatusSnapshot,
    ipc: IpcStatusSnapshot,
    now: i64,
    r: DaemonStatus,
)
    requires
        call_ensures(build_daemon_status, (profile, socket, configured, answer, ws, ipc, now), r),
    ensures
        r.mattermost_ok <==> answer is Ok,
        answer is Ok ==> r.mattermost_username@ == answer->Ok_0@ && r.mattermost_last_error is None,
        answer is Err ==> r.mattermost_username@ == configured@ && r.mattermost_last_error is Some
            && r.mattermost_last_error->0@ == answer->Err_0@,
        r.profile_name == profile && r.socket_path == socket,
        r.ws_connection_state == ws.connection_state && r.ws_reconnect_count == ws.reconnect_count
            && r.ws_last_disconnect_at == ws.last_disconnect_at && r.ws_last_recovered_at
            == ws.last_recovered_at && r.ws_suspected_gap == ws.suspected_gap,
        r.ipc_connected == ipc.connected && r.ipc_peer_id == ipc.peer_id,
        r.health == health_of(
            now,
            ws.connection_state,
            ws.suspected_gap == Some(true),
            ws.recovering_until,
        ),
        r.mattermost_identity_drift == Some(true) <==> answer is Ok && configured@.len() > 0
            && answer->Ok_0@ != configured@,
{
}

/// A probe that is not answered in time says for how long it waited.
pub proof fn probes_say_what_came_of_them(
    outcome: ProbeOutcome,
    timeout_ms: u64,
    r: Result<String, String>,
)
    requires
        call_ensures(probe_result, (outcome, timeout_ms), r),
    ensures
        outcome is Answered ==> r == Ok::<String, String>(outcome->Answered_0),
        outcome is Refused ==> r == Err::<String, String>(outcome->Refused_0),
        outcome is TimedOut ==> r is Err && r->Err_0@ == "reachability probe timed out after "@
            + decimal_text(timeout_ms as nat) + "ms"@,
{
}

/// A state is taken on and nothing else changes, but that a loss is dated.
pub proof fn losses_are_dated(ws: &mut WsState, state: WsConnectionState, now: i64)
    requires
        call_ensures(WsState::set_state, (ws, state, now), ()),
    ensures
        final(ws).connection_state == state,
        state is Disconnected ==> final(ws).last_disconnect_at == now,
        !(state is Disconnected) ==> final(ws).last_disconnect_at == old(ws).last_disconnect_at,
        final(ws).reconnect_count == old(ws).reconnect_count,
        final(ws).last_event_at == old(ws).last_event_at,
        final(ws).last_error == old(ws).last_error,
        final(ws).suspected_gap == old(ws).suspected_gap,
        final(ws).recovering_until == old(ws).recovering_until,
{
}

/// A reconnection counts as one more.
pub proof fn reconnections_are_counted(ws: &mut WsState)
    requires
        call_ensures(WsState::bump_reconnect, (ws,), ()),
    ensures
        old(ws).reconnect_count < u64::MAX ==> final(ws).reconnect_count
            == old(ws).reconnect_count + 1,
        final(ws).connection_state == old(ws).connection_state,
        final(ws).last_disconnect_at == old(ws).last_disconnect_at,
{
}

/// The last event, error and number before a loss are kept, each in its place.
pub proof fn the_last_event_is_kept(ws: &mut WsState, now: i64)
    requires
        call_ensures(WsState::touch_event, (ws, now), ()),
    ensures
        final(ws).last_event_at == now,
        final(ws).last_error == old(ws).last_error,
        final(ws).last_disconnect_at == old(ws).last_disconnect_at,
        final(ws).connection_state == old(ws).connection_state,
{
}

/// The last error is kept, and changes nothing else that is shown.
pub proof fn the_last_error_is_kept(ws: &mut WsState, msg: String)
    requires
        call_ensures(WsState::set_error, (ws, msg), ()),
    ensures
        final(ws).last_error == Some(msg),
        final(ws).last_event_at == old(ws).last_event_at,
        final(ws).connection_state == old(ws).connection_state,
{
}

/// The number of the last event before a loss is kept.
pub proof fn the_last_number_is_kept(ws: &mut WsState, seq: u64)
    requires
        call_ensures(WsState::record_disconnect_seq, (ws, seq), ()),
    ensures
        final(ws).last_disconnect_seq == seq,
        final(ws).last_disconnect_at == old(ws).last_disconnect_at,
        final(ws).connection_state == old(ws).connection_state,
{
}

/// Ten seconds of recovery follow a loss, and none a first connection.
pub proof fn recovery_follows_a_loss(ws: &mut WsState, now: i64, r: Option<i64>)
    requires
        now <= i64::MAX - 10_000,
        call_ensures(WsState::arm_recovery_window, (ws, now), r),
    ensures
        old(ws).last_disconnect_at == 0 ==> r is None && *final(ws) == *old(ws),
        old(ws).last_disconnect_at != 0 ==> r == Some((now + 10_000) as i64)
            && final(ws).recovering_until == now + 10_000,
        final(ws).connection_state == old(ws).connection_state,
        final(ws).last_disconnect_at == old(ws).last_disconnect_at,
{
}

/// A connection has recovered where it is healthy once everything missed was fetched, within the
/// recovery that was begun for it; only then is the gap closed.
pub proof fn recovered_connections_have_no_gap(
    ws: &mut WsState,
    target: i64,
    waited_secs: u64,
    now: i64,
    r: GraceDecision,
)
    requires
        call_ensures(WsState::finish_grace, (ws, target, waited_secs, now), r),
    ensures
        r is Recovered <==> old(ws).recovering_until == target && !old(ws).catchup_in_flight
            && old(ws).connection_state is Healthy,
        r is Superseded <==> old(ws).recovering_until != target,
        r is Wait <==> old(ws).recovering_until == target && old(ws).catchup_in_flight
            && waited_secs < 60,
        r is GiveUp <==> old(ws).recovering_until == target && old(ws).catchup_in_flight
            && waited_secs >= 60,
        r is Recovered ==> final(ws).last_recovered_at == now && !final(ws).suspected_gap,
        !(r is Recovered) ==> *final(ws) == *old(ws),
{
}

/// While what was missed is fetched the earlier gap is forgotten.
pub proof fn gaps_are_forgotten_by_a_new_catchup(ws: &mut WsState)
    requires
        call_ensures(WsState::begin_catchup, (ws,), ()),
    ensures
        final(ws).catchup_in_flight && !final(ws).suspected_gap,
        final(ws).recovering_until == old(ws).recovering_until,
        final(ws).connection_state == old(ws).connection_state,
{
}

/// A gap is left by an outage that was too long, and one that was there stays.
pub proof fn gaps_are_left_by_long_outages(ws: &mut WsState, exceeded: bool)
    requires
        call_ensures(WsState::end_catchup, (ws, exceeded), ()),
    ensures
        !final(ws).catchup_in_flight,
        final(ws).suspected_gap <==> exceeded || old(ws).suspected_gap,
        final(ws).connection_state == old(ws).connection_state,
{
}

} // verus!
