//! Reading the clock, and moments before now.
use vstd::prelude::*;
use vstd::string::*;

use crate::text::{i64_text, integer_text, opt_text};

verus! {

/// `std::time::SystemTime::now`: the seconds since the Unix epoch; nothing where
/// the clock stands before it. What comes back depends on the moment.
#[verifier::external_body]
fn epoch_seconds() -> (r: Option<u64>) {
    match std::time::SystemTime::now().duration_since(std::time::UNIX_EPOCH) {
        Ok(since) => Some(since.as_secs()),
        Err(_) => None,
    }
}

/// `std::time::SystemTime::now`: the milliseconds since the Unix epoch, zero
/// where the clock stands before it. What comes back depends on the moment.
#[verifier::external_body]
pub fn now_unix_millis() -> (r: i64) {
    match std::time::SystemTime::now().duration_since(std::time::UNIX_EPOCH) {
        Ok(since) => since.as_millis() as i64,
        Err(_) => 0,
    }
}

/// The clock gave these seconds since the Unix epoch, or stood before it.
pub closed spec fn seconds_were_read(now: Option<u64>) -> bool {
    call_ensures(epoch_seconds, (), now)
}

/// The seconds since the Unix epoch; nothing where the clock stands before it.
pub(crate) fn seconds_now() -> (r: Option<u64>)
    ensures
        seconds_were_read(r),
{
    epoch_seconds()
}

/// The clock gave these milliseconds since the Unix epoch.
pub open spec fn millis_were_read(now: i64) -> bool {
    call_ensures(now_unix_millis, (), now)
}

/// A number as 64 bits keep it.
pub open spec fn low_bits(n: int) -> int {
    let m = n % 0x1_0000_0000_0000_0000;
    if m > i64::MAX {
        m - 0x1_0000_0000_0000_0000
    } else {
        m
    }
}

/// The only number that 64 bits can hold and that differs from `n` by whole turns.
proof fn low_bits_unique(n: int, turns: int, r: int)
    requires
        n == turns * 0x1_0000_0000_0000_0000 + r,
        i64::MIN <= r <= i64::MAX,
    ensures
        low_bits(n) == r,
{
    let full: int = 0x1_0000_0000_0000_0000;
    if r >= 0 {
        vstd::arithmetic::div_mod::lemma_fundamental_div_mod_converse(n, full, turns, r);
    } else {
        vstd::arithmetic::div_mod::lemma_fundamental_div_mod_converse(
            n,
            full,
            turns - 1,
            r + full,
        );
    }
}

/// The moment `seconds` before `now_millis`. A span that is too long for 64 bits
/// wraps around.
pub open spec fn moment_before(now_millis: i64, seconds: u64) -> int {
    low_bits(now_millis - seconds * 1000)
}

/// The moment `seconds` before `now_millis`.
pub fn seconds_before(now_millis: i64, seconds: u64) -> (r: i64)
    ensures
        r == moment_before(now_millis, seconds),
        i64::MIN <= now_millis - seconds * 1000 ==> r == now_millis - seconds * 1000,
{
    let millis: u64 = seconds.wrapping_mul(1000);
    let span: i64 = if millis <= i64::MAX as u64 {
        millis as i64
    } else {
        -((u64::MAX - millis) as i64) - 1
    };
    let r: i64 = now_millis.wrapping_sub(span);
    proof {
        let full: int = 0x1_0000_0000_0000_0000;
        let product = seconds * 1000;
        let turns = product / full;
        vstd::arithmetic::div_mod::lemma_fundamental_div_mod(product, full);
        assert(millis == product % full);
        let a: int = if span == millis {
            0
        } else {
            1
        };
        assert(span == millis - a * full);
        let b: int = if now_millis - span > i64::MAX {
            1
        } else if now_millis - span < i64::MIN {
            -1
        } else {
            0
        };
        assert(r == now_millis - span - b * full);
        let whole = b - a - turns;
        assert(now_millis - product == whole * full + r) by (nonlinear_arith)
            requires
                product == full * turns + millis,
                span == millis - a * full,
                r == now_millis - span - b * full,
                whole == b - a - turns,
        ;
        low_bits_unique(now_millis - product, whole, r as int);
        if i64::MIN <= now_millis - product {
            low_bits_unique(now_millis - product, 0, now_millis - product);
        }
    }
    r
}

/// The moment `minutes` before `now_millis`.
pub fn minutes_before(now_millis: i64, minutes: u64) -> (r: i64)
    requires
        minutes * 60 <= u64::MAX,
    ensures
        r == moment_before(now_millis, (minutes * 60) as u64),
        i64::MIN <= now_millis - minutes * 60_000 ==> r == now_millis - minutes * 60_000,
{
    seconds_before(now_millis, minutes * 60)
}

/// The moment `seconds` before now, in milliseconds since the Unix epoch. It is
/// what `seconds_before` gives for what the clock says.
pub fn seconds_ago_millis(seconds: u64) -> (r: i64)
    ensures
        exists|now: i64| millis_were_read(now) && r == #[trigger] moment_before(now, seconds),
{
    let now = now_unix_millis();
    seconds_before(now, seconds)
}

/// The moment `minutes` before now, in milliseconds since the Unix epoch. It is
/// what `minutes_before` gives for what the clock says.
pub fn minutes_ago_millis(minutes: u64) -> (r: i64)
    requires
        minutes * 60 <= u64::MAX,
    ensures
        exists|now: i64|
            millis_were_read(now) && r == #[trigger] moment_before(now, (minutes * 60) as u64),
{
    let now = now_unix_millis();
    minutes_before(now, minutes)
}

// ---------------------------------------------------------------------------
// Moments as texts
// ---------------------------------------------------------------------------

/// The forms in which moments are shown.
pub open spec fn moment_form(pattern: Seq<char>) -> bool {
    ||| pattern == "%Y-%m-%d"@
    ||| pattern == "%Y-%m-%d %H:%M"@
    ||| pattern == "%Y-%m-%d %H:%MZ"@
    ||| pattern == "%Y-%m-%d %H:%M:%S"@
}

/// A moment in UTC, in one of these forms.
pub uninterp spec fn utc_shown(millis: i64, pattern: Seq<char>) -> Option<Seq<char>>;

/// `chrono::DateTime::from_timestamp_millis` and `format`: a moment in UTC;
/// nothing where it is out of the range of dates. The result is a function of the
/// moment and the form.
#[verifier::external_body]
fn show_utc(millis: i64, pattern: &str) -> (r: Option<String>)
    requires
        moment_form(pattern@),
    ensures
        opt_text(r) == utc_shown(millis, pattern@),
{
    let moment = chrono::DateTime::from_timestamp_millis(millis)?;
    Some(moment.format(pattern).to_string())
}

/// A moment in UTC; as a number where it is out of the range of dates.
pub open spec fn moment_text(millis: i64, pattern: Seq<char>) -> Seq<char> {
    match utc_shown(millis, pattern) {
        Some(t) => t,
        None => integer_text(millis as int),
    }
}

pub fn show_moment(millis: i64, pattern: &str) -> (r: String)
    requires
        moment_form(pattern@),
    ensures
        r@ == moment_text(millis, pattern@),
{
    match show_utc(millis, pattern) {
        Some(t) => t,
        None => i64_text(millis),
    }
}

/// The day of a moment; the first day of the epoch where it is out of the range of
/// dates.
pub open spec fn day_text(millis: i64) -> Seq<char> {
    match utc_shown(millis, "%Y-%m-%d"@) {
        Some(t) => t,
        None => "1970-01-01"@,
    }
}

pub fn show_day(millis: i64) -> (r: String)
    ensures
        r@ == day_text(millis),
{
    match show_utc(millis, "%Y-%m-%d") {
        Some(t) => t,
        None => "1970-01-01".to_owned(),
    }
}

// ---------------------------------------------------------------------------
// Laws
// ---------------------------------------------------------------------------

/// A moment that can be counted is as many milliseconds earlier as the span has seconds, a
/// thousand for each.
pub proof fn spans_are_a_thousand_for_a_second(now_millis: i64, seconds: u64)
    requires
        i64::MIN <= now_millis - seconds * 1000,
    ensures
        moment_before(now_millis, seconds) == now_millis - seconds * 1000,
{
    low_bits_unique(now_millis - seconds * 1000, 0, now_millis - seconds * 1000);
}

/// A number of 64 bits is the number less whole turns.
pub proof fn numbers_wrap_by_whole_turns(n: int)
    ensures
        i64::MIN <= low_bits(n) <= i64::MAX,
        (n - low_bits(n)) % 0x1_0000_0000_0000_0000 == 0,
{
}

/// A moment is shown in UTC, and as a number where it is none that can be shown; a day is then
/// the first of the epoch.
pub proof fn moments_are_shown_where_they_can_be(millis: i64, pattern: Seq<char>)
    ensures
        utc_shown(millis, pattern) is Some ==> moment_text(millis, pattern) == utc_shown(
            millis,
            pattern,
        )->0,
        utc_shown(millis, pattern) is None ==> moment_text(millis, pattern) == integer_text(
            millis as int,
        ),
        utc_shown(millis, "%Y-%m-%d"@) is Some ==> day_text(millis) == utc_shown(
            millis,
            "%Y-%m-%d"@,
        )->0,
        utc_shown(millis, "%Y-%m-%d"@) is None ==> day_text(millis) == "1970-01-01"@,
{
}

/// So many seconds or minutes before a moment.
pub proof fn moments_before_another(now: i64, span: u64, s: i64, m: i64)
    requires
        call_ensures(seconds_before, (now, span), s),
        span * 60 <= u64::MAX,
        call_ensures(minutes_before, (now, span), m),
    ensures
        i64::MIN <= now - span * 1000 ==> s == now - span * 1000,
        i64::MIN <= now - span * 60_000 ==> m == now - span * 60_000,
{
}

} // verus!
