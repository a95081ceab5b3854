use chanvoy::doctor::{
    classify_clock_skew, clock_check_from_observation, doctor_exit_code,
    observe_server_time_from_date_header, parse_http_date_ms, provider_status_class, CheckVerdict,
    ClockVerdict, CLOCK_SUSPECT_THRESHOLD_MS,
};

#[test]
fn parse_http_date_rfc1123() {
    let ms = parse_http_date_ms("Tue, 11 Aug 2026 12:00:00 GMT").expect("parse");
    assert!(ms > 0);
}

#[test]
fn parse_http_date_rejects_garbage() {
    assert!(parse_http_date_ms("").is_none());
    assert!(parse_http_date_ms("not-a-date").is_none());
}

#[test]
fn classify_unavailable_without_server() {
    let (v, d, r) = classify_clock_skew(1_000_000, None, 50);
    assert_eq!(v, ClockVerdict::Unavailable);
    assert!(d.is_none());
    assert!(r.is_some());
}

#[test]
fn classify_healthy_within_noise() {
    let server = 1_000_000;
    let (v, d, _) = classify_clock_skew(server + 2_000, Some(server), 100);
    assert_eq!(v, ClockVerdict::Healthy);
    assert_eq!(d, Some(2_000));
}

#[test]
fn classify_suspected_ahead_above_threshold() {
    let server = 1_000_000;
    let (v, d, reason) = classify_clock_skew(server + 60_000, Some(server), 200);
    assert_eq!(v, ClockVerdict::SuspectedAhead);
    assert_eq!(d, Some(60_000));
    assert!(reason.unwrap().contains("ahead"));
}

#[test]
fn classify_suspected_behind_above_threshold() {
    let server = 1_000_000;
    let (v, d, reason) = classify_clock_skew(server - 90_000, Some(server), 200);
    assert_eq!(v, ClockVerdict::SuspectedBehind);
    assert_eq!(d, Some(-90_000));
    assert!(reason.unwrap().contains("behind"));
}

#[test]
fn classify_rtt_eats_into_residual() {
    let server = 1_000_000;
    let (v, _, _) = classify_clock_skew(server + 40_000, Some(server), 30_000);
    assert_eq!(v, ClockVerdict::Healthy);
}

#[test]
fn classify_between_noise_and_suspect_stays_healthy() {
    let server = 1_000_000;
    let (v, d, reason) = classify_clock_skew(server + 15_000, Some(server), 0);
    assert_eq!(v, ClockVerdict::Healthy);
    assert_eq!(d, Some(15_000));
    assert!(reason.unwrap().contains("suspicion threshold"));
}

#[test]
fn threshold_edge_exactly_suspect_bound() {
    let server = 1_000_000;
    let (v_eq, _, _) =
        classify_clock_skew(server + CLOCK_SUSPECT_THRESHOLD_MS, Some(server), 0);
    assert_eq!(v_eq, ClockVerdict::Healthy);
    let (v_over, _, _) =
        classify_clock_skew(server + CLOCK_SUSPECT_THRESHOLD_MS + 1, Some(server), 0);
    assert_eq!(v_over, ClockVerdict::SuspectedAhead);
}

#[test]
fn observe_missing_date_unavailable() {
    let obs = observe_server_time_from_date_header(100, 150, None);
    assert!(!obs.date_header_present);
    assert!(obs.server_ms.is_none());
    let check = clock_check_from_observation(&obs);
    assert_eq!(check.verdict, ClockVerdict::Unavailable);
    assert_eq!(check.check, CheckVerdict::Unavailable);
    assert!(check.guidance.is_none());
}

#[test]
fn observe_valid_date_and_ahead_guidance() {
    let date = "Tue, 11 Aug 2026 12:00:00 GMT";
    let server = parse_http_date_ms(date).unwrap();
    let obs =
        observe_server_time_from_date_header(server + 120_000, server + 120_100, Some(date));
    assert!(obs.date_header_parse_ok);
    let check = clock_check_from_observation(&obs);
    assert_eq!(check.verdict, ClockVerdict::SuspectedAhead);
    assert_eq!(check.check, CheckVerdict::Warn);
    let guidance = check.guidance.as_ref().expect("suspected_ahead guidance");
    assert!(
        guidance.contains("--after") && guidance.contains("check"),
        "guidance should point at catch-up SOP, got {guidance}"
    );
}

#[test]
fn doctor_exit_codes() {
    assert_eq!(doctor_exit_code(&[CheckVerdict::Pass], false), 0);
    assert_eq!(doctor_exit_code(&[CheckVerdict::Warn], false), 1);
    assert_eq!(doctor_exit_code(&[CheckVerdict::Unavailable], false), 1);
    assert_eq!(doctor_exit_code(&[CheckVerdict::Fail], false), 2);
    assert_eq!(doctor_exit_code(&[CheckVerdict::Pass], true), 2);
}

#[test]
fn provider_status_class_table() {
    assert_eq!(provider_status_class(401), "credential_or_forbidden");
    assert_eq!(provider_status_class(403), "credential_or_forbidden");
    assert_eq!(provider_status_class(404), "not_found");
    assert_eq!(provider_status_class(429), "throttled");
    assert_eq!(provider_status_class(500), "server_error");
    assert_eq!(provider_status_class(418), "provider_error");
}

#[test]
fn a_date_is_read_exactly() {
    assert_eq!(
        parse_http_date_ms("  Tue, 11 Aug 2026 12:00:00 GMT "),
        Some(1_786_449_600_000)
    );
    assert_eq!(parse_http_date_ms("Mon, 11 Aug 2026 12:00:00 GMT"), None);
}

#[test]
fn a_date_that_cannot_be_read_is_no_evidence() {
    let obs = observe_server_time_from_date_header(100, 50, Some("nonsense"));
    assert!(obs.date_header_present);
    assert!(!obs.date_header_parse_ok);
    assert_eq!(obs.server_ms, None);
    assert_eq!(obs.rtt_ms, 0);
    let check = clock_check_from_observation(&obs);
    assert_eq!(check.verdict, ClockVerdict::Unavailable);
}

#[test]
fn more_checks_never_lower_the_code() {
    let checks = [CheckVerdict::Pass, CheckVerdict::Warn, CheckVerdict::Fail];
    assert_eq!(doctor_exit_code(&checks[..1], false), 0);
    assert_eq!(doctor_exit_code(&checks[..2], false), 1);
    assert_eq!(doctor_exit_code(&checks, false), 2);
    assert_eq!(doctor_exit_code(&[], false), 0);
}
