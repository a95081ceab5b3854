//! Diagnostics: is the clock of this machine right, what does the provider
//! answer, what does the run as a whole report.
use vstd::prelude::*;
use vstd::string::*;

use crate::paths::opt_view;
use crate::text::{i64_text, integer_text, opt_text, trim, trimmed};

verus! {

/// What counts as noise, in milliseconds.
pub const CLOCK_HEALTHY_BOUND_MS: i64 = 5_000;

/// Above this a wrong clock is suspected, in milliseconds.
pub const CLOCK_SUSPECT_THRESHOLD_MS: i64 = 30_000;

/// Outcome of one check.
#[derive(Debug, Clone, Copy, PartialEq, Eq, Structural)]
pub enum CheckVerdict {
    Pass,
    Warn,
    Fail,
    Unavailable,
}

/// What is known of the clock.
#[derive(Debug, Clone, Copy, PartialEq, Eq, Structural)]
pub enum ClockVerdict {
    Healthy,
    SuspectedAhead,
    SuspectedBehind,
    Unavailable,
}

/// How the time of the server was observed.
#[derive(Debug, Clone, Copy, PartialEq, Eq, Structural)]
pub enum ServerTimeSource {
    /// The `Date` header of a response.
    HttpDate,
}

/// One observation of the time of the server.
#[derive(Debug, Clone, PartialEq, Eq)]
pub struct ServerTimeObservation {
    pub local_before_ms: i64,
    pub local_after_ms: i64,
    pub local_mid_ms: i64,
    pub rtt_ms: i64,
    pub server_ms: Option<i64>,
    pub source: ServerTimeSource,
    pub date_header_present: bool,
    pub date_header_parse_ok: bool,
    pub unavailable_reason: Option<String>,
}

/// The clock in the report.
#[derive(Debug, Clone, PartialEq, Eq)]
pub struct ClockCheck {
    pub verdict: ClockVerdict,
    pub check: CheckVerdict,
    /// Local time minus server time.
    pub delta_ms: Option<i64>,
    pub local_mid_ms: i64,
    pub server_ms: Option<i64>,
    pub rtt_ms: i64,
    pub source: ServerTimeSource,
    pub reason: Option<String>,
    pub guidance: Option<String>,
}

// ---------------------------------------------------------------------------
// Dates
// ---------------------------------------------------------------------------

/// The moment that an RFC 2822 date names, in milliseconds since the Unix epoch.
pub uninterp spec fn rfc2822_millis(s: Seq<char>) -> Option<i64>;

/// `chrono::DateTime::parse_from_rfc2822` and `timestamp_millis`: the moment that
/// a date names; nothing where the text is no RFC 2822 date. The result is a
/// function of the text.
#[verifier::external_body]
fn parse_rfc2822(s: &str) -> (r: Option<i64>)
    ensures
        r == rfc2822_millis(s@),
{
    match chrono::DateTime::parse_from_rfc2822(s) {
        Ok(date) => Some(date.timestamp_millis()),
        Err(_) => None,
    }
}

/// The moment that an HTTP date names: nothing for an empty text, else what the
/// text without surrounding white space says.
pub open spec fn http_date(value: Seq<char>) -> Option<i64> {
    if trimmed(value).len() == 0 {
        None
    } else {
        rfc2822_millis(trimmed(value))
    }
}

pub fn parse_http_date_ms(value: &str) -> (r: Option<i64>)
    ensures
        r == http_date(value@),
{
    let date = trim(value);
    if date.is_empty() {
        return None;
    }
    parse_rfc2822(date)
}

// ---------------------------------------------------------------------------
// Skew
// ---------------------------------------------------------------------------

/// Half of the round trip, which the observation cannot rule out.
pub open spec fn half_trip(rtt_ms: i64) -> int {
    if rtt_ms == i64::MIN {
        i64::MAX / 2
    } else if rtt_ms < 0 {
        (-rtt_ms) / 2
    } else {
        rtt_ms / 2
    }
}

/// How far the clocks are apart at least.
pub open spec fn residual(local_mid_ms: i64, server_ms: i64, rtt_ms: i64) -> int {
    let apart = if local_mid_ms < server_ms {
        server_ms - local_mid_ms
    } else {
        local_mid_ms - server_ms
    };
    apart - half_trip(rtt_ms)
}

/// What an observation says of the clock.
pub open spec fn skew_verdict(local_mid_ms: i64, server_ms: Option<i64>, rtt_ms: i64) -> ClockVerdict {
    match server_ms {
        None => ClockVerdict::Unavailable,
        Some(server) => if residual(local_mid_ms, server, rtt_ms) <= CLOCK_SUSPECT_THRESHOLD_MS {
            ClockVerdict::Healthy
        } else if local_mid_ms > server {
            ClockVerdict::SuspectedAhead
        } else {
            ClockVerdict::SuspectedBehind
        },
    }
}

/// The reason that goes with the verdict.
pub open spec fn skew_reason(local_mid_ms: i64, server_ms: Option<i64>, rtt_ms: i64) -> Option<
    Seq<char>,
> {
    match server_ms {
        None => Some("no trustworthy server-time observation"@),
        Some(server) => {
            let gap = residual(local_mid_ms, server, rtt_ms);
            if gap <= CLOCK_HEALTHY_BOUND_MS {
                None
            } else if gap <= CLOCK_SUSPECT_THRESHOLD_MS {
                Some(
                    "measured |skew| residual ~"@ + integer_text(gap)
                        + "ms is above noise but below the 30000ms suspicion threshold"@,
                )
            } else if local_mid_ms > server {
                Some(
                    "local clock appears ahead of server by ~"@ + integer_text(gap)
                        + "ms after RTT allowance; short --since windows can return empty while post-id catch-up still works"@,
                )
            } else {
                Some(
                    "local clock appears behind server by ~"@ + integer_text(gap)
                        + "ms after RTT allowance"@,
                )
            }
        },
    }
}

/// The two clocks are close enough for their difference to be a number.
pub open spec fn comparable(local_mid_ms: i64, server_ms: Option<i64>) -> bool {
    server_ms matches Some(server) ==> -i64::MAX <= local_mid_ms - server <= i64::MAX
}

/// Compares the local time with an observation of the server's. A wrong clock is
/// suspected only where the difference exceeds the threshold by more than the
/// round trip can explain; without an observation nothing is claimed.
pub fn classify_clock_skew(local_mid_ms: i64, server_ms: Option<i64>, rtt_ms: i64) -> (r: (
    ClockVerdict,
    Option<i64>,
    Option<String>,
))
    requires
        comparable(local_mid_ms, server_ms),
    ensures
        r.0 == skew_verdict(local_mid_ms, server_ms, rtt_ms),
        r.1 == (match server_ms {
            Some(server) => Some((local_mid_ms - server) as i64),
            None => None,
        }),
        opt_text(r.2) == skew_reason(local_mid_ms, server_ms, rtt_ms),
{
    let server: i64 = match server_ms {
        Some(server) => server,
        None => {
            return (
                ClockVerdict::Unavailable,
                None,
                Some("no trustworthy server-time observation".to_owned()),
            );
        },
    };
    let delta: i64 = local_mid_ms - server;
    let magnitude: i64 = if rtt_ms == i64::MIN {
        i64::MAX
    } else if rtt_ms < 0 {
        -rtt_ms
    } else {
        rtt_ms
    };
    let apart: i64 = if delta < 0 {
        -delta
    } else {
        delta
    };
    let gap: i64 = apart - magnitude / 2;
    if gap <= CLOCK_HEALTHY_BOUND_MS {
        return (ClockVerdict::Healthy, Some(delta), None);
    }
    if gap > CLOCK_SUSPECT_THRESHOLD_MS {
        if delta > 0 {
            let mut m = "local clock appears ahead of server by ~".to_owned();
            m.append(i64_text(gap).as_str());
            m.append(
                "ms after RTT allowance; short --since windows can return empty while post-id catch-up still works",
            );
            return (ClockVerdict::SuspectedAhead, Some(delta), Some(m));
        }
        let mut m = "local clock appears behind server by ~".to_owned();
        m.append(i64_text(gap).as_str());
        m.append("ms after RTT allowance");
        return (ClockVerdict::SuspectedBehind, Some(delta), Some(m));
    }
    let mut m = "measured |skew| residual ~".to_owned();
    m.append(i64_text(gap).as_str());
    m.append("ms is above noise but below the 30000ms suspicion threshold");
    (ClockVerdict::Healthy, Some(delta), Some(m))
}

/// A wrong clock is never suspected without a server time, and never where the
/// difference is within the threshold.
pub proof fn no_suspicion_without_evidence(local_mid_ms: i64, server_ms: Option<i64>, rtt_ms: i64)
    ensures
        server_ms is None <==> skew_verdict(local_mid_ms, server_ms, rtt_ms) is Unavailable,
        skew_verdict(local_mid_ms, server_ms, rtt_ms) is SuspectedAhead ==> local_mid_ms
            - server_ms->0 > CLOCK_SUSPECT_THRESHOLD_MS,
        skew_verdict(local_mid_ms, server_ms, rtt_ms) is SuspectedBehind ==> server_ms->0
            - local_mid_ms > CLOCK_SUSPECT_THRESHOLD_MS,
{
}

/// The check that goes with what is known of the clock.
pub open spec fn clock_check(verdict: ClockVerdict) -> CheckVerdict {
    match verdict {
        ClockVerdict::Healthy => CheckVerdict::Pass,
        ClockVerdict::SuspectedAhead => CheckVerdict::Warn,
        ClockVerdict::SuspectedBehind => CheckVerdict::Warn,
        ClockVerdict::Unavailable => CheckVerdict::Unavailable,
    }
}

/// The report on the clock that an observation allows.
pub fn clock_check_from_observation(obs: &ServerTimeObservation) -> (r: ClockCheck)
    requires
        comparable(obs.local_mid_ms, obs.server_ms),
    ensures
        r.verdict == skew_verdict(obs.local_mid_ms, obs.server_ms, obs.rtt_ms),
        r.check == clock_check(r.verdict),
        r.delta_ms == (match obs.server_ms {
            Some(server) => Some((obs.local_mid_ms - server) as i64),
            None => None,
        }),
        r.local_mid_ms == obs.local_mid_ms,
        r.server_ms == obs.server_ms,
        r.rtt_ms == obs.rtt_ms,
        r.source == obs.source,
        opt_text(r.reason) == (match skew_reason(
            obs.local_mid_ms,
            obs.server_ms,
            obs.rtt_ms,
        ) {
            Some(why) => Some(why),
            None => opt_text(obs.unavailable_reason),
        }),
        opt_text(r.guidance) == (if r.verdict is SuspectedAhead {
            Some(
                "For catch-up use: chanvoy check <channel> --json  then  chanvoy read <channel> --after <anchor>. Fix host time sync; chanvoy cannot compensate for a wrong clock."@,
            )
        } else {
            None
        }),
{
    let (verdict, delta_ms, reason) = classify_clock_skew(
        obs.local_mid_ms,
        obs.server_ms,
        obs.rtt_ms,
    );
    let reason = match reason {
        Some(why) => Some(why),
        None => obs.unavailable_reason.clone(),
    };
    let check = match verdict {
        ClockVerdict::Healthy => CheckVerdict::Pass,
        ClockVerdict::SuspectedAhead => CheckVerdict::Warn,
        ClockVerdict::SuspectedBehind => CheckVerdict::Warn,
        ClockVerdict::Unavailable => CheckVerdict::Unavailable,
    };
    let guidance = match verdict {
        ClockVerdict::SuspectedAhead => Some(
            "For catch-up use: chanvoy check <channel> --json  then  chanvoy read <channel> --after <anchor>. Fix host time sync; chanvoy cannot compensate for a wrong clock.".to_owned(),
        ),
        _ => None,
    };
    ClockCheck {
        verdict,
        check,
        delta_ms,
        local_mid_ms: obs.local_mid_ms,
        server_ms: obs.server_ms,
        rtt_ms: obs.rtt_ms,
        source: obs.source,
        reason,
        guidance,
    }
}

/// The observation that two local times and a parsed header make. `present` says
/// whether there was a header with something in it.
pub fn observe_server_time(
    local_before_ms: i64,
    local_after_ms: i64,
    present: bool,
    parsed: Option<i64>,
) -> (r: ServerTimeObservation)
    requires
        local_after_ms - local_before_ms <= i64::MAX,
    ensures
        r.local_before_ms == local_before_ms,
        r.local_after_ms == local_after_ms,
        r.rtt_ms == (if local_after_ms < local_before_ms {
            0
        } else {
            local_after_ms - local_before_ms
        }),
        r.local_mid_ms == local_before_ms + r.rtt_ms / 2,
        r.server_ms == parsed,
        r.date_header_present == present,
        r.date_header_parse_ok == (parsed is Some),
        opt_text(r.unavailable_reason) == (if !present {
            Some("provider response omitted Date header"@)
        } else if parsed is None {
            Some("provider Date header was not a valid HTTP-date"@)
        } else {
            None
        }),
{
    let rtt_ms: i64 = if local_after_ms < local_before_ms {
        0
    } else {
        local_after_ms - local_before_ms
    };
    let local_mid_ms: i64 = local_before_ms + rtt_ms / 2;
    let unavailable_reason = if !present {
        Some("provider response omitted Date header".to_owned())
    } else if parsed.is_none() {
        Some("provider Date header was not a valid HTTP-date".to_owned())
    } else {
        None
    };
    ServerTimeObservation {
        local_before_ms,
        local_after_ms,
        local_mid_ms,
        rtt_ms,
        server_ms: parsed,
        source: ServerTimeSource::HttpDate,
        date_header_present: present,
        date_header_parse_ok: parsed.is_some(),
        unavailable_reason,
    }
}

/// A header that is there and is not blank.
pub open spec fn header_present(date_header: Option<Seq<char>>) -> bool {
    date_header matches Some(h) && trimmed(h).len() > 0
}

/// The observation that two local times and a `Date` header make.
pub fn observe_server_time_from_date_header(
    local_before_ms: i64,
    local_after_ms: i64,
    date_header: Option<&str>,
) -> (r: ServerTimeObservation)
    requires
        local_after_ms - local_before_ms <= i64::MAX,
    ensures
        r.local_before_ms == local_before_ms,
        r.local_after_ms == local_after_ms,
        r.rtt_ms == (if local_after_ms < local_before_ms {
            0
        } else {
            local_after_ms - local_before_ms
        }),
        r.local_mid_ms == local_before_ms + r.rtt_ms / 2,
        r.server_ms == (match date_header {
            Some(h) => http_date(h@),
            None => None,
        }),
        r.date_header_present == header_present(opt_view(date_header)),
        r.date_header_parse_ok == (r.server_ms is Some),
        opt_text(r.unavailable_reason) == (if !r.date_header_present {
            Some("provider response omitted Date header"@)
        } else if r.server_ms is None {
            Some("provider Date header was not a valid HTTP-date"@)
        } else {
            None
        }),
{
    let (present, parsed) = match date_header {
        Some(h) => (!trim(h).is_empty(), parse_http_date_ms(h)),
        None => (false, None),
    };
    observe_server_time(local_before_ms, local_after_ms, present, parsed)
}

// ---------------------------------------------------------------------------
// The run as a whole
// ---------------------------------------------------------------------------

/// The class of a status that the provider answered with.
pub open spec fn status_class(status: u16) -> Seq<char> {
    if status == 401 || status == 403 {
        "credential_or_forbidden"@
    } else if status == 404 {
        "not_found"@
    } else if status == 429 {
        "throttled"@
    } else if 500 <= status < 600 {
        "server_error"@
    } else {
        "provider_error"@
    }
}

pub fn provider_status_class(status: u16) -> (r: &'static str)
    ensures
        r@ == status_class(status),
{
    if status == 401 || status == 403 {
        "credential_or_forbidden"
    } else if status == 404 {
        "not_found"
    } else if status == 429 {
        "throttled"
    } else if 500 <= status && status < 600 {
        "server_error"
    } else {
        "provider_error"
    }
}

/// The exit code of a run: 2 for a failure, 1 for a finding, 0 for none.
pub open spec fn run_exit_code(checks: Seq<CheckVerdict>, hard_failure: bool) -> int {
    if hard_failure || checks.contains(CheckVerdict::Fail) {
        2
    } else if checks.contains(CheckVerdict::Warn) || checks.contains(CheckVerdict::Unavailable) {
        1
    } else {
        0
    }
}

pub fn doctor_exit_code(checks: &[CheckVerdict], hard_failure: bool) -> (r: i32)
    ensures
        r == run_exit_code(checks@, hard_failure),
{
    if hard_failure {
        return 2;
    }
    let mut failed = false;
    let mut found = false;
    let mut i: usize = 0;
    proof {
        assert(checks@.take(0) =~= Seq::empty());
    }
    while i < checks.len()
        invariant
            i <= checks@.len(),
            failed == checks@.take(i as int).contains(CheckVerdict::Fail),
            found == (checks@.take(i as int).contains(CheckVerdict::Warn) || checks@.take(
                i as int,
            ).contains(CheckVerdict::Unavailable)),
        decreases checks.len() - i,
    {
        proof {
            let a = checks@.take(i as int);
            let b = checks@.take(i + 1);
            assert(b =~= a.push(checks@[i as int]));
            assert forall|v: CheckVerdict| b.contains(v) == (a.contains(v) || v
                == checks@[i as int]) by {
                assert(b[i as int] == checks@[i as int]);
                if a.contains(v) {
                    assert(b[a.index_of(v)] == v);
                }
                if b.contains(v) && v != checks@[i as int] {
                    assert(a[b.index_of(v)] == v);
                }
            }
        }
        match checks[i] {
            CheckVerdict::Fail => {
                failed = true;
            },
            CheckVerdict::Warn => {
                found = true;
            },
            CheckVerdict::Unavailable => {
                found = true;
            },
            CheckVerdict::Pass => {},
        }
        i += 1;
    }
    proof {
        assert(checks@.take(i as int) =~= checks@);
    }
    if failed {
        2
    } else if found {
        1
    } else {
        0
    }
}

/// One more check never lowers the exit code.
pub proof fn more_checks_never_lower_the_exit_code(
    checks: Seq<CheckVerdict>,
    more: CheckVerdict,
    hard_failure: bool,
)
    ensures
        run_exit_code(checks, hard_failure) <= run_exit_code(checks.push(more), hard_failure),
        0 <= run_exit_code(checks, hard_failure) <= 2,
{
    let all = checks.push(more);
    assert forall|v: CheckVerdict| checks.contains(v) implies all.contains(v) by {
        assert(all[checks.index_of(v)] == v);
    }
}

/// A clock is suspected if and only if it is more than thirty seconds off once half of the
/// time that the question took is allowed for, and then of what it is.
pub proof fn clocks_are_suspected_when_far_off(local_mid_ms: i64, server_ms: i64, rtt_ms: i64)
    requires
        rtt_ms >= 0,
    ensures
        ({
            let v = skew_verdict(local_mid_ms, Some(server_ms), rtt_ms);
            &&& v is SuspectedAhead <==> local_mid_ms - server_ms - rtt_ms / 2 > 30_000
            &&& v is SuspectedBehind <==> server_ms - local_mid_ms - rtt_ms / 2 > 30_000
            &&& v is Healthy <==> !(v is SuspectedAhead) && !(v is SuspectedBehind)
            &&& !(v is Unavailable)
        }),
        skew_reason(local_mid_ms, Some(server_ms), rtt_ms) is None <==> -5_000 - rtt_ms / 2
            <= local_mid_ms - server_ms <= 5_000 + rtt_ms / 2,
{
}

/// A clock that is well passes, a suspected one is a warning, and one of which nothing is
/// known is no pass.
pub proof fn suspicions_are_warnings(verdict: ClockVerdict)
    ensures
        clock_check(verdict) is Pass <==> verdict is Healthy,
        clock_check(verdict) is Warn <==> verdict is SuspectedAhead || verdict is SuspectedBehind,
        clock_check(verdict) is Unavailable <==> verdict is Unavailable,
{
}

/// The exit code is 2 where something failed, else 1 where something is not as it should be,
/// else 0.
pub proof fn the_worst_check_decides(checks: Seq<CheckVerdict>, hard_failure: bool)
    ensures
        run_exit_code(checks, hard_failure) == 2 <==> hard_failure || exists|i: int|
            0 <= i < checks.len() && #[trigger] checks[i] is Fail,
        run_exit_code(checks, hard_failure) == 0 <==> !hard_failure && forall|i: int|
            0 <= i < checks.len() ==> !(#[trigger] checks[i] is Fail) && !(checks[i] is Warn) && !(
            checks[i] is Unavailable),
        0 <= run_exit_code(checks, hard_failure) <= 2,
{
    if checks.contains(CheckVerdict::Fail) {
        let i = checks.index_of(CheckVerdict::Fail);
        assert(checks[i] is Fail);
    }
    if checks.contains(CheckVerdict::Warn) {
        let i = checks.index_of(CheckVerdict::Warn);
        assert(checks[i] is Warn);
    }
    if checks.contains(CheckVerdict::Unavailable) {
        let i = checks.index_of(CheckVerdict::Unavailable);
        assert(checks[i] is Unavailable);
    }
    if exists|i: int| 0 <= i < checks.len() && #[trigger] checks[i] is Fail {
        let i = choose|i: int| 0 <= i < checks.len() && #[trigger] checks[i] is Fail;
        assert(checks[i] == CheckVerdict::Fail);
    }
    if run_exit_code(checks, hard_failure) == 0 {
        assert forall|i: int| 0 <= i < checks.len() implies !(#[trigger] checks[i] is Fail) && !(
        checks[i] is Warn) && !(checks[i] is Unavailable) by {
            assert(checks.contains(checks[i]));
        }
    }
}

/// Answers of the provider are told apart by their status: a refused credential, a missing
/// thing, too many questions, a fault of its own, and anything else.
pub proof fn statuses_are_told_apart(status: u16)
    ensures
        status == 401 || status == 403 ==> status_class(status) == "credential_or_forbidden"@,
        status == 404 ==> status_class(status) == "not_found"@,
        status == 429 ==> status_class(status) == "throttled"@,
        500 <= status <= 599 ==> status_class(status) == "server_error"@,
        !(status == 401 || status == 403 || status == 404 || status == 429 || 500 <= status <= 599)
            ==> status_class(status) == "provider_error"@,
{
}

/// A date is read of a header that says something, without the space around it.
pub proof fn blank_headers_are_absent(header: Seq<char>)
    ensures
        header_present(Some(header)) <==> trimmed(header).len() > 0,
        !header_present(None),
        trimmed(header).len() == 0 ==> http_date(header) is None,
        trimmed(header).len() > 0 ==> http_date(header) == rfc2822_millis(trimmed(header)),
{
}

/// A clock is judged by what was observed, how far it is off is told, and advice is given where
/// it is ahead.
pub proof fn clocks_are_judged_by_what_was_observed(obs: &ServerTimeObservation, r: ClockCheck)
    requires
        comparable(obs.local_mid_ms, obs.server_ms),
        call_ensures(clock_check_from_observation, (obs,), r),
    ensures
        r.verdict == skew_verdict(obs.local_mid_ms, obs.server_ms, obs.rtt_ms),
        obs.server_ms is Some ==> r.delta_ms == Some((obs.local_mid_ms - obs.server_ms->0) as i64),
        obs.server_ms is None ==> r.delta_ms is None && r.check is Unavailable,
        r.guidance is Some <==> r.verdict is SuspectedAhead,
        r.check is Pass <==> r.verdict is Healthy,
        r.check is Warn <==> r.verdict is SuspectedAhead || r.verdict is SuspectedBehind,
{
}

/// What is observed is the middle of the question and what the provider said then.
pub proof fn observations_are_made_in_the_middle(
    before: i64,
    after: i64,
    header: Option<&str>,
    r: ServerTimeObservation,
)
    requires
        after - before <= i64::MAX,
        before <= after,
        call_ensures(observe_server_time_from_date_header, (before, after, header), r),
    ensures
        r.rtt_ms == after - before,
        r.local_mid_ms == before + (after - before) / 2,
        header is Some ==> r.server_ms == http_date(header->0@),
        header is None ==> r.server_ms is None && !r.date_header_present,
        r.date_header_parse_ok <==> r.server_ms is Some,
        r.unavailable_reason is None <==> r.date_header_present && r.server_ms is Some,
{
}

/// What is said of a clock that is off, or that could not be compared.
pub proof fn clocks_that_are_off_are_told(local: i64, server: i64, rtt: i64)
    ensures
        skew_reason(local, None, rtt) == Some("no trustworthy server-time observation"@),
        residual(local, server, rtt) <= 5_000 ==> skew_reason(local, Some(server), rtt) is None,
        5_000 < residual(local, server, rtt) <= 30_000 ==> skew_reason(local, Some(server), rtt)
            == Some(
            "measured |skew| residual ~"@ + integer_text(residual(local, server, rtt))
                + "ms is above noise but below the 30000ms suspicion threshold"@,
        ),
        residual(local, server, rtt) > 30_000 && local > server ==> skew_reason(
            local,
            Some(server),
            rtt,
        ) == Some(
            "local clock appears ahead of server by ~"@ + integer_text(residual(local, server, rtt))
                + "ms after RTT allowance; short --since windows can return empty while post-id catch-up still works"@,
        ),
        residual(local, server, rtt) > 30_000 && local <= server ==> skew_reason(
            local,
            Some(server),
            rtt,
        ) == Some(
            "local clock appears behind server by ~"@ + integer_text(residual(local, server, rtt))
                + "ms after RTT allowance"@,
        ),
{
}

/// What is said where the provider gave no time, and what of a clock that is ahead.
pub proof fn missing_times_are_told(
    before: i64,
    after: i64,
    header: Option<&str>,
    seen: ServerTimeObservation,
    obs: &ServerTimeObservation,
    r: ClockCheck,
)
    requires
        after - before <= i64::MAX,
        call_ensures(observe_server_time_from_date_header, (before, after, header), seen),
        comparable(obs.local_mid_ms, obs.server_ms),
        call_ensures(clock_check_from_observation, (obs,), r),
    ensures
        header is None ==> seen.unavailable_reason->0@ == "provider response omitted Date header"@,
        seen.date_header_present && seen.server_ms is None ==> seen.unavailable_reason->0@
            == "provider Date header was not a valid HTTP-date"@,
        r.verdict is SuspectedAhead ==> r.guidance->0@
            == "For catch-up use: chanvoy check <channel> --json  then  chanvoy read <channel> --after <anchor>. Fix host time sync; chanvoy cannot compensate for a wrong clock."@,
        r.rtt_ms == obs.rtt_ms && r.server_ms == obs.server_ms && r.local_mid_ms
            == obs.local_mid_ms,
        skew_reason(obs.local_mid_ms, obs.server_ms, obs.rtt_ms) is Some ==> r.reason->0@
            == skew_reason(obs.local_mid_ms, obs.server_ms, obs.rtt_ms)->0,
{
}

/// A clock is compared by how far it is ahead, and what was observed is what was measured.
pub proof fn clocks_are_compared(
    local: i64,
    server: Option<i64>,
    rtt: i64,
    r: (ClockVerdict, Option<i64>, Option<String>),
    before: i64,
    after: i64,
    present: bool,
    seen: ServerTimeObservation,
)
    requires
        comparable(local, server),
        call_ensures(classify_clock_skew, (local, server, rtt), r),
        before <= after,
        after - before <= i64::MAX,
        call_ensures(observe_server_time, (before, after, present, server), seen),
    ensures
        r.0 == skew_verdict(local, server, rtt),
        server is Some ==> r.1 == Some((local - server->0) as i64),
        server is None ==> r.1 is None,
        seen.server_ms == server && seen.rtt_ms == after - before && seen.local_mid_ms == before + (
        after - before) / 2 && seen.date_header_present == present,
        seen.local_before_ms == before && seen.local_after_ms == after,
{
}

} // verus!
