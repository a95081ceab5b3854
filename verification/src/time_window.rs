//! Spans of time as users write them.
use vstd::prelude::*;
use vstd::string::*;

use crate::text::{decimal_text, ascii_digit, chars_of, debug_quoted, debug_str, ends_with, lowered, number_fault,
    parse_u64, to_ascii_lower, trim, trimmed, u64_written, NumberFault};

verus! {

/// What a number without a suffix counts.
#[derive(Debug, Clone, Copy, PartialEq, Eq, Structural)]
pub enum TimeWindowDefaultUnit {
    Minutes,
    Seconds,
}

pub const TIME_WINDOW_SUFFIX_HELP: &'static str =
    "Accepted suffixes: s (seconds), m (minutes), h (hours), d (days). Bare integer (no suffix) preserves today's per-flag default unit. Rejected with diagnostic: uppercase 'M' and 'mo' (months/minutes ambiguity given chanvoy's existing minutes-default).";

/// The number of seconds that a suffix stands for.
pub open spec fn suffix_seconds(c: char) -> Option<int> {
    if c == 's' {
        Some(1)
    } else if c == 'm' {
        Some(60)
    } else if c == 'h' {
        Some(3600)
    } else if c == 'd' {
        Some(86400)
    } else {
        None
    }
}

pub open spec fn unit_seconds(unit: TimeWindowDefaultUnit) -> int {
    match unit {
        TimeWindowDefaultUnit::Minutes => 60,
        TimeWindowDefaultUnit::Seconds => 1,
    }
}

/// How a fault in a number is described.
pub open spec fn number_fault_text(f: NumberFault) -> Seq<char> {
    match f {
        NumberFault::Empty => "cannot parse integer from empty string"@,
        NumberFault::InvalidDigit => "invalid digit found in string"@,
        NumberFault::TooLarge => "number too large to fit in target type"@,
    }
}

fn describe_number_fault(f: NumberFault) -> (r: &'static str)
    ensures
        r@ == number_fault_text(f),
{
    match f {
        NumberFault::Empty => "cannot parse integer from empty string",
        NumberFault::InvalidDigit => "invalid digit found in string",
        NumberFault::TooLarge => "number too large to fit in target type",
    }
}

/// The seconds that `number` units of `unit` seconds make; `whole` is what the
/// user wrote.
pub open spec fn counted(whole: Seq<char>, number: Seq<char>, unit: int) -> Result<u64, Seq<char>> {
    match u64_written(number) {
        None => Err(
            "time-window value "@ + debug_quoted(whole) + " contains invalid integer "@
                + debug_quoted(number) + ": "@ + number_fault_text(number_fault(number)->0),
        ),
        Some(n) => if n * unit > u64::MAX {
            Err(
                "time-window value "@ + debug_quoted(whole)
                    + " overflows u64 seconds (max \u{2248} 5.84e11 years; pick a saner window)"@,
            )
        } else {
            Ok((n * unit) as u64)
        },
    }
}

/// The seconds that a span stands for, or the diagnostic.
pub open spec fn window_seconds(input: Seq<char>, unit: TimeWindowDefaultUnit) -> Result<
    u64,
    Seq<char>,
> {
    let t = trimmed(input);
    if t.len() == 0 {
        Err("empty time-window value; "@ + TIME_WINDOW_SUFFIX_HELP@)
    } else if "mo"@.is_suffix_of(lowered(t)) {
        Err(
            "time-window value "@ + debug_quoted(t)
                + " uses 'mo' suffix; rejected to avoid month/minute ambiguity given chanvoy's existing minutes-default. Months are not supported today; use s/m/h/d for sub-month windows."@,
        )
    } else if ascii_digit(t.last()) {
        counted(t, t, unit_seconds(unit))
    } else if t.last() == 'M' {
        Err(
            "time-window value "@ + debug_quoted(t)
                + " uses uppercase 'M' suffix; rejected to avoid month/minute ambiguity. Use lowercase 'm' for minutes."@,
        )
    } else {
        match suffix_seconds(t.last()) {
            Some(seconds) => counted(t, t.drop_last(), seconds),
            None => Err(
                "time-window value "@ + debug_quoted(t) + " has unknown suffix "@ + debug_quoted(
                    seq![t.last()],
                ) + "; "@ + TIME_WINDOW_SUFFIX_HELP@,
            ),
        }
    }
}

/// `r` is the outcome `o`.
pub open spec fn outcome_is(r: Result<u64, String>, o: Result<u64, Seq<char>>) -> bool {
    match r {
        Ok(n) => o == Ok::<u64, Seq<char>>(n),
        Err(e) => o == Err::<u64, Seq<char>>(e@),
    }
}

fn count_seconds(whole: &str, number: &str, unit: u64) -> (r: Result<u64, String>)
    requires
        1 <= unit <= 86400,
    ensures
        outcome_is(r, counted(whole@, number@, unit as int)),
{
    match parse_u64(number) {
        Err(f) => {
            let mut m = "time-window value ".to_owned();
            m.append(debug_str(whole).as_str());
            m.append(" contains invalid integer ");
            m.append(debug_str(number).as_str());
            m.append(": ");
            m.append(describe_number_fault(f));
            Err(m)
        },
        Ok(n) => {
            if n > u64::MAX / unit {
                proof {
                    assert(n * unit > u64::MAX) by (nonlinear_arith)
                        requires
                            n > u64::MAX / unit,
                            unit >= 1,
                    ;
                }
                let mut m = "time-window value ".to_owned();
                m.append(debug_str(whole).as_str());
                m.append(
                    " overflows u64 seconds (max \u{2248} 5.84e11 years; pick a saner window)",
                );
                return Err(m);
            }
            proof {
                assert(n * unit <= u64::MAX) by (nonlinear_arith)
                    requires
                        n <= u64::MAX / unit,
                        unit >= 1,
                ;
            }
            Ok(n * unit)
        },
    }
}

/// Reads a span of time: a number with one of the suffixes `s`, `m`, `h`, `d`, or
/// without one in the default unit. Suffixes that could mean months are refused.
pub fn parse_time_window(input: &str, default_unit: TimeWindowDefaultUnit) -> (r: Result<
    u64,
    String,
>)
    ensures
        outcome_is(r, window_seconds(input@, default_unit)),
{
    let t = trim(input);
    if t.is_empty() {
        let mut m = "empty time-window value; ".to_owned();
        m.append(TIME_WINDOW_SUFFIX_HELP);
        return Err(m);
    }
    if ends_with(to_ascii_lower(t).as_str(), "mo") {
        let mut m = "time-window value ".to_owned();
        m.append(debug_str(t).as_str());
        m.append(
            " uses 'mo' suffix; rejected to avoid month/minute ambiguity given chanvoy's existing minutes-default. Months are not supported today; use s/m/h/d for sub-month windows.",
        );
        return Err(m);
    }
    let cs = chars_of(t);
    let n: usize = cs.len();
    let last = cs[n - 1];
    if '0' <= last && last <= '9' {
        let unit: u64 = match default_unit {
            TimeWindowDefaultUnit::Minutes => 60,
            TimeWindowDefaultUnit::Seconds => 1,
        };
        return count_seconds(t, t, unit);
    }
    if last == 'M' {
        let mut m = "time-window value ".to_owned();
        m.append(debug_str(t).as_str());
        m.append(
            " uses uppercase 'M' suffix; rejected to avoid month/minute ambiguity. Use lowercase 'm' for minutes.",
        );
        return Err(m);
    }
    let unit: u64 = if last == 's' {
        1
    } else if last == 'm' {
        60
    } else if last == 'h' {
        3600
    } else if last == 'd' {
        86400
    } else {
        let suffix = t.substring_char(n - 1, n);
        proof {
            assert(suffix@ =~= seq![t@.last()]);
        }
        let mut m = "time-window value ".to_owned();
        m.append(debug_str(t).as_str());
        m.append(" has unknown suffix ");
        m.append(debug_str(suffix).as_str());
        m.append("; ");
        m.append(TIME_WINDOW_SUFFIX_HELP);
        return Err(m);
    };
    let number = t.substring_char(0, n - 1);
    proof {
        assert(number@ =~= t@.drop_last());
    }
    count_seconds(t, number, unit)
}

/// What is accepted ends in a digit or in one of the four suffixes, and never in
/// `mo` or `M`.
pub proof fn accepted_window_suffixes(input: Seq<char>, unit: TimeWindowDefaultUnit)
    requires
        window_seconds(input, unit) is Ok,
    ensures
        trimmed(input).len() > 0,
        ascii_digit(trimmed(input).last()) || suffix_seconds(trimmed(input).last()) is Some,
        !"mo"@.is_suffix_of(lowered(trimmed(input))),
{
}

/// A number of seconds, minutes, hours or days is as many seconds as it has, and a number
/// without a suffix counts in the unit that is meant.
pub proof fn windows_are_counted_in_seconds(n: u64, unit: TimeWindowDefaultUnit)
    ensures
        window_seconds(decimal_text(n as nat) + seq!['s'], unit) == Ok::<u64, Seq<char>>(n),
        n * 60 <= u64::MAX ==> window_seconds(decimal_text(n as nat) + seq!['m'], unit) == Ok::<
            u64,
            Seq<char>,
        >((n * 60) as u64),
        n * 3600 <= u64::MAX ==> window_seconds(decimal_text(n as nat) + seq!['h'], unit) == Ok::<
            u64,
            Seq<char>,
        >((n * 3600) as u64),
        n * 86400 <= u64::MAX ==> window_seconds(decimal_text(n as nat) + seq!['d'], unit) == Ok::<
            u64,
            Seq<char>,
        >((n * 86400) as u64),
        unit is Seconds ==> window_seconds(decimal_text(n as nat), unit) == Ok::<u64, Seq<char>>(n),
        unit is Minutes && n * 60 <= u64::MAX ==> window_seconds(decimal_text(n as nat), unit)
            == Ok::<u64, Seq<char>>((n * 60) as u64),
        n * 86400 > u64::MAX ==> window_seconds(decimal_text(n as nat) + seq!['d'], unit) is Err,
{
    let t = decimal_text(n as nat);
    crate::text::written_numbers_are_read_back(n as nat);
    number_then(t, 's', unit);
    number_then(t, 'm', unit);
    number_then(t, 'h', unit);
    number_then(t, 'd', unit);
    digits_alone(t);
}

proof fn digits_alone(t: Seq<char>)
    requires
        t.len() > 0,
        forall|i: int| 0 <= i < t.len() ==> '0' <= #[trigger] t[i] && t[i] <= '9',
    ensures
        trimmed(t) == t,
        !"mo"@.is_suffix_of(lowered(t)),
        ascii_digit(t.last()),
{
    reveal_strlit("mo");
    crate::text::space_is_white_space(t[0]);
    crate::text::space_is_white_space(t.last());
    crate::text::trimming_drops_the_space_around(Seq::empty(), t, Seq::empty());
    assert(Seq::<char>::empty() + t + Seq::<char>::empty() =~= t);
    crate::text::only_ascii_capitals_are_lowered(t);
    if "mo"@.is_suffix_of(lowered(t)) {
        assert(lowered(t).last() == "mo"@.last());
        assert(lowered(t)[t.len() - 1] == t[t.len() - 1]);
    }
}

proof fn number_then(t: Seq<char>, c: char, unit: TimeWindowDefaultUnit)
    requires
        t.len() > 0,
        forall|i: int| 0 <= i < t.len() ==> '0' <= #[trigger] t[i] && t[i] <= '9',
        c == 's' || c == 'm' || c == 'h' || c == 'd',
    ensures
        trimmed(t + seq![c]) == t + seq![c],
        !"mo"@.is_suffix_of(lowered(t + seq![c])),
        (t + seq![c]).drop_last() == t,
        (t + seq![c]).last() == c,
{
    let s = t + seq![c];
    reveal_strlit("mo");
    crate::text::space_is_white_space(t[0]);
    crate::text::space_is_white_space(c);
    crate::text::trimming_drops_the_space_around(Seq::empty(), s, Seq::empty());
    assert(Seq::<char>::empty() + s + Seq::<char>::empty() =~= s);
    crate::text::only_ascii_capitals_are_lowered(s);
    if "mo"@.is_suffix_of(lowered(s)) {
        assert(lowered(s).last() == "mo"@.last());
        assert(lowered(s)[s.len() - 1] == s[s.len() - 1]);
    }
    assert(s.drop_last() =~= t);
}

/// Months are refused, in whatever case they are written, and so is a capital `M`, and any
/// other suffix but `s`, `m`, `h` and `d`.
pub proof fn ambiguous_windows_are_refused(front: Seq<char>, c: char, unit: TimeWindowDefaultUnit)
    requires
        front.len() > 0,
        !crate::text::white_space(front[0]),
    ensures
        window_seconds(front + seq!['m', 'o'], unit) is Err,
        window_seconds(front + seq!['M', 'O'], unit) is Err,
        window_seconds(front + seq!['M'], unit) is Err,
        !crate::text::white_space(c) && !('0' <= c && c <= '9') && c != 's' && c != 'm' && c != 'h'
            && c != 'd' ==> window_seconds(front + seq![c], unit) is Err,
{
    reveal_strlit("mo");
    crate::text::space_is_white_space('o');
    crate::text::space_is_white_space('O');
    crate::text::space_is_white_space('M');
    months(front + seq!['m', 'o']);
    months(front + seq!['M', 'O']);
    whole(front + seq!['M']);
    if !crate::text::white_space(c) {
        whole(front + seq![c]);
    }
}

proof fn whole(s: Seq<char>)
    requires
        s.len() > 0,
        !crate::text::white_space(s[0]),
        !crate::text::white_space(s.last()),
    ensures
        trimmed(s) == s,
{
    crate::text::trimming_drops_the_space_around(Seq::empty(), s, Seq::empty());
    assert(Seq::<char>::empty() + s + Seq::<char>::empty() =~= s);
}

proof fn months(s: Seq<char>)
    requires
        s.len() > 2,
        !crate::text::white_space(s[0]),
        (s[s.len() - 2] == 'm' && s.last() == 'o') || (s[s.len() - 2] == 'M' && s.last() == 'O'),
    ensures
        trimmed(s) == s,
        "mo"@.is_suffix_of(lowered(s)),
{
    reveal_strlit("mo");
    crate::text::space_is_white_space('o');
    crate::text::space_is_white_space('O');
    whole(s);
    crate::text::only_ascii_capitals_are_lowered(s);
    let l = lowered(s);
    assert(l[s.len() - 2] as u32 == 'm' as u32);
    assert(l[s.len() - 1] as u32 == 'o' as u32);
    assert(l.subrange(l.len() - 2, l.len() as int) =~= "mo"@);
}

/// A window is counted or refused as the contract says.
pub proof fn outcomes_are_what_they_are(r: Result<u64, String>, o: Result<u64, Seq<char>>)
    requires
        outcome_is(r, o),
    ensures
        r is Ok <==> o is Ok,
        r is Ok ==> r->Ok_0 == o->Ok_0,
        r is Err ==> r->Err_0@ == o->Err_0,
{
}

/// What is said of a window that is none.
pub proof fn windows_are_refused_with_a_reason(input: Seq<char>, unit: TimeWindowDefaultUnit)
    ensures
        ({
            let t = trimmed(input);
            let r = window_seconds(input, unit);
            let value = "time-window value "@ + debug_quoted(t);
            &&& t.len() == 0 ==> r == Err::<u64, Seq<char>>(
                "empty time-window value; "@ + TIME_WINDOW_SUFFIX_HELP@,
            )
            &&& t.len() > 0 && "mo"@.is_suffix_of(lowered(t)) ==> r == Err::<u64, Seq<char>>(
                value
                    + " uses 'mo' suffix; rejected to avoid month/minute ambiguity given chanvoy's existing minutes-default. Months are not supported today; use s/m/h/d for sub-month windows."@,
            )
            &&& t.len() > 0 && t.last() == 'M' ==> r == Err::<u64, Seq<char>>(
                value
                    + " uses uppercase 'M' suffix; rejected to avoid month/minute ambiguity. Use lowercase 'm' for minutes."@,
            )
            &&& t.len() > 0 && !"mo"@.is_suffix_of(lowered(t)) && !('0' <= t.last() && t.last()
                <= '9') && t.last() != 'M' && t.last() != 's' && t.last() != 'm' && t.last() != 'h'
                && t.last() != 'd' ==> r == Err::<u64, Seq<char>>(
                value + " has unknown suffix "@ + debug_quoted(seq![t.last()]) + "; "@
                    + TIME_WINDOW_SUFFIX_HELP@,
            )
        }),
{
    reveal_strlit("mo");
    let t = trimmed(input);
    if t.len() > 0 {
        let low = lowered(t);
        assert("mo"@.is_suffix_of(low) ==> low[low.len() - 1] == "mo"@[1]);
        assert("mo"@[1] == 'o');
        assert(low[low.len() - 1] == 'o' ==> t.last() == 'o' || t.last() == 'O');
    }
}

/// What is said of a count that is no number, or too large.
pub proof fn counts_are_refused_with_a_reason(whole: Seq<char>, number: Seq<char>, unit: int)
    ensures
        u64_written(number) is None && number_fault(number) == Some(NumberFault::Empty) ==> counted(
            whole,
            number,
            unit,
        ) == Err::<u64, Seq<char>>(
            "time-window value "@ + debug_quoted(whole) + " contains invalid integer "@
                + debug_quoted(number) + ": "@ + "cannot parse integer from empty string"@,
        ),
        u64_written(number) is None && number_fault(number) == Some(NumberFault::InvalidDigit)
            ==> counted(whole, number, unit) == Err::<u64, Seq<char>>(
            "time-window value "@ + debug_quoted(whole) + " contains invalid integer "@
                + debug_quoted(number) + ": "@ + "invalid digit found in string"@,
        ),
        u64_written(number) is None && number_fault(number) == Some(NumberFault::TooLarge)
            ==> counted(whole, number, unit) == Err::<u64, Seq<char>>(
            "time-window value "@ + debug_quoted(whole) + " contains invalid integer "@
                + debug_quoted(number) + ": "@ + "number too large to fit in target type"@,
        ),
        u64_written(number) is Some && u64_written(number)->0 * unit > u64::MAX ==> counted(
            whole,
            number,
            unit,
        ) == Err::<u64, Seq<char>>(
            "time-window value "@ + debug_quoted(whole)
                + " overflows u64 seconds (max \u{2248} 5.84e11 years; pick a saner window)"@,
        ),
{
}

} // verus!
