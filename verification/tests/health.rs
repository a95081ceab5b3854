use chanvoy::health::{
    build_daemon_status, derive_daemon_health, probe_result, GraceDecision, ProbeOutcome, WsState,
    RECOVERY_GRACE_MS,
};
use chanvoy::types::{
    DaemonHealthState, IpcStatusSnapshot, WsConnectionState, WsStatusSnapshot,
};

#[test]
fn derive_none_when_no_transport() {
    assert_eq!(derive_daemon_health(1000, None, false, 0), None);
}

#[test]
fn derive_maps_non_healthy_transport_one_to_one() {
    let now = 1_000_000;
    assert_eq!(
        derive_daemon_health(now, Some(WsConnectionState::Disconnected), false, 0),
        Some(DaemonHealthState::Disconnected)
    );
    assert_eq!(
        derive_daemon_health(now, Some(WsConnectionState::Connecting), false, 0),
        Some(DaemonHealthState::Connecting)
    );
    assert_eq!(
        derive_daemon_health(now, Some(WsConnectionState::Degraded), false, 0),
        Some(DaemonHealthState::Degraded)
    );
}

#[test]
fn derive_healthy_when_transport_healthy_and_no_grace_no_gap() {
    let now = 1_000_000;
    assert_eq!(
        derive_daemon_health(now, Some(WsConnectionState::Healthy), false, 0),
        Some(DaemonHealthState::Healthy)
    );
}

#[test]
fn derive_recovering_during_grace_window() {
    let now = 1_000_000;
    let recovering_until = now + 5_000;
    assert_eq!(
        derive_daemon_health(
            now,
            Some(WsConnectionState::Healthy),
            false,
            recovering_until
        ),
        Some(DaemonHealthState::Recovering)
    );
}

#[test]
fn derive_recovering_when_suspected_gap_even_after_grace() {
    let now = 1_000_000;
    assert_eq!(
        derive_daemon_health(now, Some(WsConnectionState::Healthy), true, 0),
        Some(DaemonHealthState::Recovering)
    );
}

#[test]
fn derive_healthy_after_grace_elapsed_no_gap() {
    let now = 1_000_000;
    let recovering_until = now - 1;
    assert_eq!(
        derive_daemon_health(
            now,
            Some(WsConnectionState::Healthy),
            false,
            recovering_until
        ),
        Some(DaemonHealthState::Healthy)
    );
}

fn ws_snapshot_for(
    connection_state: Option<WsConnectionState>,
    suspected_gap: Option<bool>,
    last_disconnect_at: Option<i64>,
    reconnect_count: Option<u64>,
    recovering_until: i64,
) -> WsStatusSnapshot {
    WsStatusSnapshot {
        connection_state,
        last_event_at: None,
        last_error: None,
        reconnect_count,
        last_disconnect_at,
        last_recovered_at: None,
        suspected_gap,
        recovering_until,
    }
}

fn ipc_absent() -> IpcStatusSnapshot {
    IpcStatusSnapshot {
        connected: None,
        peer_id: None,
        reconnect_count: None,
    }
}

#[test]
fn build_status_surfaces_reconnect_fields_when_whoami_fails() {
    let now = 1_777_050_000_000;
    let ws = ws_snapshot_for(
        Some(WsConnectionState::Disconnected),
        Some(true),
        Some(now - 30_000),
        Some(4),
        0,
    );
    let status = build_daemon_status(
        "bravo-devlead".to_string(),
        "/tmp/chanvoy/bravo-devlead.sock".to_string(),
        "agent-bravo-devlead".to_string(),
        Err("io error: connection refused".to_string()),
        ws,
        ipc_absent(),
        now,
    );
    assert!(!status.mattermost_ok);
    assert_eq!(status.mattermost_username, "agent-bravo-devlead");
    assert_eq!(
        status.mattermost_last_error.as_deref(),
        Some("io error: connection refused")
    );
    assert_eq!(
        status.ws_connection_state,
        Some(WsConnectionState::Disconnected)
    );
    assert_eq!(status.health, Some(DaemonHealthState::Disconnected));
    assert_eq!(status.ws_suspected_gap, Some(true));
    assert_eq!(status.ws_last_disconnect_at, Some(now - 30_000));
    assert_eq!(status.ws_reconnect_count, Some(4));
}

#[test]
fn build_status_uses_whoami_username_when_ok() {
    let now = 1_777_050_000_000;
    let ws = ws_snapshot_for(
        Some(WsConnectionState::Healthy),
        Some(false),
        None,
        Some(0),
        0,
    );
    let status = build_daemon_status(
        "bravo-devlead".to_string(),
        "/tmp/chanvoy/bravo-devlead.sock".to_string(),
        "agent-bravo-devlead".to_string(),
        Ok("agent-bravo-devlead".to_string()),
        ws,
        ipc_absent(),
        now,
    );
    assert!(status.mattermost_ok);
    assert_eq!(status.mattermost_username, "agent-bravo-devlead");
    assert_eq!(status.mattermost_last_error, None);
    assert_eq!(status.health, Some(DaemonHealthState::Healthy));
    assert_eq!(status.mattermost_identity_drift, Some(false));
}

#[test]
fn build_status_marks_identity_drift_when_whoami_returns_other_user() {
    let now = 1_777_050_000_000;
    let ws = ws_snapshot_for(
        Some(WsConnectionState::Healthy),
        Some(false),
        None,
        Some(0),
        0,
    );
    let status = build_daemon_status(
        "bravo-devlead".to_string(),
        "/tmp/chanvoy/bravo-devlead.sock".to_string(),
        "agent-bravo-devlead".to_string(),
        Ok("agent-impersonator".to_string()),
        ws,
        ipc_absent(),
        now,
    );
    assert!(status.mattermost_ok);
    assert_eq!(status.mattermost_username, "agent-impersonator");
    assert_eq!(
        status.mattermost_identity_drift,
        Some(true),
        "drift must be surfaced when whoami returns a different username"
    );
}

#[test]
fn build_status_drift_is_none_when_probe_failed() {
    let now = 1_777_050_000_000;
    let ws = ws_snapshot_for(
        Some(WsConnectionState::Healthy),
        Some(false),
        None,
        Some(0),
        0,
    );
    let status = build_daemon_status(
        "bravo-devlead".to_string(),
        "/tmp/chanvoy/bravo-devlead.sock".to_string(),
        "agent-bravo-devlead".to_string(),
        Err("probe timed out".to_string()),
        ws,
        ipc_absent(),
        now,
    );
    assert!(!status.mattermost_ok);
    assert_eq!(status.mattermost_identity_drift, None);
}

const NOW: i64 = 1_777_050_000_000;

fn reconnected() -> WsState {
    let mut ws = WsState::new();
    ws.set_state(WsConnectionState::Disconnected, NOW);
    ws.set_state(WsConnectionState::Healthy, NOW + 1);
    ws
}

#[test]
fn healthy_steady_state_reads_healthy() {
    let mut ws = WsState::new();
    ws.set_state(WsConnectionState::Healthy, NOW);
    assert_eq!(ws.health(NOW), Some(DaemonHealthState::Healthy));
}

#[test]
fn disconnect_stamps_last_disconnect_and_reads_disconnected() {
    let mut ws = WsState::new();
    ws.set_state(WsConnectionState::Healthy, NOW);
    ws.set_state(WsConnectionState::Disconnected, NOW + 5);
    assert!(ws.last_disconnect_at > 0);
    assert_eq!(ws.last_disconnect_at, NOW + 5);
    assert_eq!(ws.health(NOW + 5), Some(DaemonHealthState::Disconnected));
}

#[test]
fn reconnect_within_grace_reads_recovering() {
    let mut ws = reconnected();
    assert_eq!(ws.arm_recovery_window(NOW + 2), Some(NOW + 2 + RECOVERY_GRACE_MS));
    assert_eq!(ws.health(NOW + 2), Some(DaemonHealthState::Recovering));
    assert!(ws.recovering_until > NOW + 2);
}

#[test]
fn suspected_gap_keeps_recovering_past_grace() {
    let mut ws = WsState::new();
    ws.set_state(WsConnectionState::Healthy, NOW);
    ws.suspected_gap = true;
    assert_eq!(ws.health(NOW), Some(DaemonHealthState::Recovering));
}

#[test]
fn grace_window_task_stamps_last_recovered_at_when_still_healthy() {
    let mut ws = reconnected();
    let target = ws.arm_recovery_window(NOW).unwrap();
    assert_eq!(ws.finish_grace(target, 0, target + 10), GraceDecision::Recovered);
    assert_eq!(ws.last_recovered_at, target + 10);
}

#[test]
fn grace_window_task_is_idempotent_against_later_reconnect() {
    let mut ws = reconnected();
    let first_target = ws.arm_recovery_window(NOW).unwrap();
    let second_target = ws.arm_recovery_window(NOW + 5).unwrap();
    assert!(
        second_target > first_target,
        "restamp must advance the target"
    );
    assert_eq!(
        ws.finish_grace(first_target, 0, first_target + 10),
        GraceDecision::Superseded
    );
    assert_eq!(ws.last_recovered_at, 0);
    assert_eq!(
        ws.finish_grace(second_target, 0, second_target + 10),
        GraceDecision::Recovered
    );
    assert!(ws.last_recovered_at > 0);
}

#[test]
fn gap_triggered_recovery_clears_suspected_gap_after_grace() {
    let mut ws = reconnected();
    let target = ws.arm_recovery_window(NOW).unwrap();
    ws.suspected_gap = true;
    assert_eq!(ws.health(NOW), Some(DaemonHealthState::Recovering));
    ws.finish_grace(target, 0, target + 10);
    assert!(ws.last_recovered_at > 0);
    assert!(!ws.suspected_gap);
    assert_eq!(ws.health(target + 10), Some(DaemonHealthState::Healthy));
}

#[test]
fn gap_detected_after_grace_still_returns_to_healthy() {
    let mut ws = reconnected();
    ws.begin_catchup();
    let target = ws.arm_recovery_window(NOW).unwrap();
    assert_eq!(ws.finish_grace(target, 0, target + 10), GraceDecision::Wait);
    assert_eq!(ws.last_recovered_at, 0);
    ws.end_catchup(true);
    assert!(ws.suspected_gap);
    assert_eq!(ws.finish_grace(target, 1, target + 500), GraceDecision::Recovered);
    assert!(!ws.suspected_gap);
    assert!(ws.last_recovered_at > 0);
    assert_eq!(ws.health(target + 500), Some(DaemonHealthState::Healthy));
}

#[test]
fn a_catchup_that_never_ends_leaves_the_gap() {
    let mut ws = reconnected();
    ws.begin_catchup();
    let target = ws.arm_recovery_window(NOW).unwrap();
    ws.suspected_gap = true;
    assert_eq!(ws.finish_grace(target, 59, target), GraceDecision::Wait);
    assert_eq!(ws.finish_grace(target, 60, target), GraceDecision::GiveUp);
    assert!(ws.suspected_gap);
}

#[test]
fn a_lost_connection_does_not_count_as_recovered() {
    let mut ws = reconnected();
    let target = ws.arm_recovery_window(NOW).unwrap();
    ws.set_state(WsConnectionState::Disconnected, NOW + 3);
    assert_eq!(ws.finish_grace(target, 0, target), GraceDecision::NotHealthy);
    assert_eq!(ws.last_recovered_at, 0);
}

#[test]
fn cold_start_auth_does_not_arm_recovery() {
    let mut ws = WsState::default();
    ws.set_state(WsConnectionState::Healthy, NOW);
    assert_eq!(ws.arm_recovery_window(NOW), None);
    assert_eq!(ws.recovering_until, 0);
    assert_eq!(ws.health(NOW), Some(DaemonHealthState::Healthy));
}

#[test]
fn probe_whoami_returns_promptly_when_remote_is_stalled() {
    let err = probe_result(ProbeOutcome::TimedOut, 200).unwrap_err();
    assert!(err.contains("timed out"));
    assert_eq!(err, "reachability probe timed out after 200ms");
    assert_eq!(
        probe_result(ProbeOutcome::Answered("bot".to_string()), 200),
        Ok("bot".to_string())
    );
    assert_eq!(
        probe_result(ProbeOutcome::Refused("no".to_string()), 200),
        Err("no".to_string())
    );
}

#[test]
fn drift_is_unknown_without_a_configured_name() {
    let status = build_daemon_status(
        "p".to_string(),
        "/tmp/p.sock".to_string(),
        String::new(),
        Ok("bot".to_string()),
        ws_snapshot_for(None, None, None, None, 0),
        ipc_absent(),
        NOW,
    );
    assert_eq!(status.mattermost_identity_drift, None);
    assert_eq!(status.health, None);
}

#[test]
fn counters_and_stamps() {
    let mut ws = WsState::new();
    ws.bump_reconnect();
    ws.bump_reconnect();
    ws.touch_event(7);
    ws.record_disconnect_seq(3);
    ws.set_error("gone".to_string());
    assert_eq!(ws.reconnect_count, 2);
    assert_eq!(ws.last_event_at, 7);
    assert_eq!(ws.last_disconnect_seq, 3);
    assert_eq!(ws.last_error, Some("gone".to_string()));
    ws.reconnect_count = u64::MAX;
    ws.bump_reconnect();
    assert_eq!(ws.reconnect_count, 0);
}
