//! Text as sequences of characters: comparison, searching, splitting,
//! trimming, numbers.
//!
//! A `str` or `String` is modelled by its view, a `Seq<char>`. Lengths that the
//! library limits in bytes are lengths of the UTF-8 encoding.
use vstd::prelude::*;
use vstd::string::*;
use vstd::utf8::encode_utf8;

verus! {

/// `String::push` appends one character to the end of the text.
pub assume_specification[ String::push ](s: &mut String, c: char)
    ensures
        final(s)@ == old(s)@.push(c),
;

// ---------------------------------------------------------------------------
// Models
// ---------------------------------------------------------------------------

/// The texts held by a sequence of strings.
pub open spec fn texts(v: Seq<String>) -> Seq<Seq<char>> {
    v.map_values(|s: String| s@)
}

/// The text of an optional string.
pub open spec fn opt_text(s: Option<String>) -> Option<Seq<char>> {
    match s {
        Some(t) => Some(t@),
        None => None,
    }
}

/// Strict order of texts: by the code point at the first difference, a proper
/// prefix coming first.
pub open spec fn text_before(a: Seq<char>, b: Seq<char>) -> bool
    decreases a.len(),
{
    if b.len() == 0 {
        false
    } else if a.len() == 0 {
        true
    } else if a[0] == b[0] {
        text_before(a.drop_first(), b.drop_first())
    } else {
        a[0] < b[0]
    }
}

/// The Unicode `White_Space` property.
pub open spec fn white_space(c: char) -> bool {
    let u = c as u32;
    ||| 0x09 <= u <= 0x0d
    ||| u == 0x20
    ||| u == 0x85
    ||| u == 0xa0
    ||| u == 0x1680
    ||| 0x2000 <= u <= 0x200a
    ||| u == 0x2028
    ||| u == 0x2029
    ||| u == 0x202f
    ||| u == 0x205f
    ||| u == 0x3000
}

/// `s` without its leading white space.
pub open spec fn trim_front(s: Seq<char>) -> Seq<char>
    decreases s.len(),
{
    if s.len() > 0 && white_space(s[0]) {
        trim_front(s.drop_first())
    } else {
        s
    }
}

/// `s` without its trailing white space.
pub open spec fn trim_back(s: Seq<char>) -> Seq<char>
    decreases s.len(),
{
    if s.len() > 0 && white_space(s.last()) {
        trim_back(s.drop_last())
    } else {
        s
    }
}

/// `s` without leading and trailing white space.
pub open spec fn trimmed(s: Seq<char>) -> Seq<char> {
    trim_back(trim_front(s))
}

/// `s` without the copies of `c` at its start.
pub open spec fn drop_leading(s: Seq<char>, c: char) -> Seq<char>
    decreases s.len(),
{
    if s.len() > 0 && s[0] == c {
        drop_leading(s.drop_first(), c)
    } else {
        s
    }
}

/// `s` without the copies of `c` at its end.
pub open spec fn drop_trailing(s: Seq<char>, c: char) -> Seq<char>
    decreases s.len(),
{
    if s.len() > 0 && s.last() == c {
        drop_trailing(s.drop_last(), c)
    } else {
        s
    }
}

/// `pat` stands in `s` at position `i`.
pub open spec fn occurs_at(s: Seq<char>, pat: Seq<char>, i: int) -> bool {
    0 <= i && i + pat.len() <= s.len() && s.subrange(i, i + pat.len()) == pat
}

/// The first position at or after `i` at which `pat` stands in `s`.
pub open spec fn find_from(s: Seq<char>, pat: Seq<char>, i: int) -> Option<int>
    decreases s.len() + 1 - i,
{
    if i < 0 || i + pat.len() > s.len() {
        None
    } else if occurs_at(s, pat, i) {
        Some(i)
    } else {
        find_from(s, pat, i + 1)
    }
}

/// `pat` stands somewhere in `s`.
pub open spec fn contains_text(s: Seq<char>, pat: Seq<char>) -> bool {
    exists|i: int| occurs_at(s, pat, i)
}

/// The parts of `s` before and after the first `pat`.
pub open spec fn split_at_first(s: Seq<char>, pat: Seq<char>) -> Option<(Seq<char>, Seq<char>)> {
    match find_from(s, pat, 0) {
        Some(i) => Some((s.take(i), s.skip(i + pat.len()))),
        None => None,
    }
}

/// What follows place `i` of `s`, with `to` for each `pat`.
pub open spec fn replaced_from(s: Seq<char>, pat: Seq<char>, to: Seq<char>, i: int) -> Seq<char>
    decreases s.len() - i,
{
    match find_from(s, pat, i) {
        None => s.skip(i),
        Some(k) => if pat.len() == 0 || k < i || k + pat.len() > s.len() {
            s.skip(i)
        } else {
            s.subrange(i, k) + to + replaced_from(s, pat, to, k + pat.len())
        },
    }
}

/// `s` with `to` for each `pat`.
pub open spec fn replaced(s: Seq<char>, pat: Seq<char>, to: Seq<char>) -> Seq<char> {
    replaced_from(s, pat, to, 0)
}

/// The parts of `s` between the separators `sep`.
pub open spec fn split_on(s: Seq<char>, sep: char) -> Seq<Seq<char>>
    decreases s.len(),
{
    if s.len() == 0 {
        seq![s]
    } else {
        let rest = split_on(s.drop_first(), sep);
        if s[0] == sep {
            seq![Seq::<char>::empty()] + rest
        } else {
            rest.update(0, seq![s[0]] + rest[0])
        }
    }
}

/// The ASCII lower-case form of a character.
pub open spec fn ascii_lower(c: char) -> char {
    if 'A' <= c && c <= 'Z' {
        ((c as u32 + 32) as u32) as char
    } else {
        c
    }
}

/// `s` with its ASCII letters in lower case.
pub open spec fn lowered(s: Seq<char>) -> Seq<char> {
    s.map_values(|c: char| ascii_lower(c))
}

pub open spec fn ascii_digit(c: char) -> bool {
    '0' <= c && c <= '9'
}

pub open spec fn ascii_alphanumeric(c: char) -> bool {
    ascii_digit(c) || ('a' <= c && c <= 'z') || ('A' <= c && c <= 'Z')
}

/// The number that a sequence of decimal digits writes.
pub open spec fn decimal_value(ds: Seq<char>) -> nat
    decreases ds.len(),
{
    if ds.len() == 0 {
        0
    } else {
        decimal_value(ds.drop_last()) * 10 + (ds.last() as u32 - '0' as u32) as nat
    }
}

/// The unsigned 64-bit number that a text writes in decimal: digits, with at
/// most one leading `+`.
pub open spec fn u64_written(s: Seq<char>) -> Option<u64> {
    if s.len() > 0 && s[0] == '+' {
        u64_digits(s.drop_first())
    } else {
        u64_digits(s)
    }
}

pub open spec fn all_digits(ds: Seq<char>) -> bool {
    forall|i: int| 0 <= i < ds.len() ==> ascii_digit(#[trigger] ds[i])
}

/// The unsigned 64-bit number that a text of digits alone writes.
pub open spec fn u64_digits(ds: Seq<char>) -> Option<u64> {
    if ds.len() > 0 && all_digits(ds) && decimal_value(ds) <= u64::MAX {
        Some(decimal_value(ds) as u64)
    } else {
        None
    }
}

/// Why a text writes no unsigned 64-bit number.
#[derive(Debug, Clone, Copy, PartialEq, Eq, Structural)]
pub enum NumberFault {
    Empty,
    InvalidDigit,
    TooLarge,
}

/// How many digits a text begins with.
pub open spec fn leading_digits(s: Seq<char>) -> nat
    decreases s.len(),
{
    if s.len() > 0 && ascii_digit(s[0]) {
        1 + leading_digits(s.drop_first())
    } else {
        0
    }
}

/// What goes wrong first, reading digits from the front.
pub open spec fn digits_fault(ds: Seq<char>) -> Option<NumberFault> {
    let k = leading_digits(ds) as int;
    if decimal_value(ds.take(k)) > u64::MAX {
        Some(NumberFault::TooLarge)
    } else if k < ds.len() || ds.len() == 0 {
        Some(NumberFault::InvalidDigit)
    } else {
        None
    }
}

/// Why a text writes no unsigned 64-bit number.
pub open spec fn number_fault(s: Seq<char>) -> Option<NumberFault> {
    if s.len() == 0 {
        Some(NumberFault::Empty)
    } else if s[0] == '+' {
        digits_fault(s.drop_first())
    } else {
        digits_fault(s)
    }
}

pub open spec fn digit_char(d: nat) -> char {
    ((48 + d) as u32) as char
}

/// A natural number in decimal, without leading zeros.
pub open spec fn decimal_text(n: nat) -> Seq<char>
    decreases n,
{
    if n < 10 {
        seq![digit_char(n)]
    } else {
        decimal_text(n / 10).push(digit_char(n % 10))
    }
}

/// An integer in decimal, with a leading `-` where it is negative.
pub open spec fn integer_text(n: int) -> Seq<char> {
    if n < 0 {
        seq!['-'] + decimal_text((-n) as nat)
    } else {
        decimal_text(n as nat)
    }
}

/// `n` copies of `c`.
pub open spec fn copies(c: char, n: nat) -> Seq<char> {
    Seq::new(n, |i: int| c)
}

/// `s` followed by spaces up to `width` characters; a longer text is kept.
pub open spec fn padded(s: Seq<char>, width: nat) -> Seq<char> {
    if s.len() >= width {
        s
    } else {
        s + copies(' ', (width - s.len()) as nat)
    }
}

/// `parts` one after another, with `sep` between two neighbours.
pub open spec fn joined(parts: Seq<Seq<char>>, sep: Seq<char>) -> Seq<char>
    decreases parts.len(),
{
    if parts.len() == 0 {
        Seq::empty()
    } else if parts.len() == 1 {
        parts[0]
    } else {
        joined(parts.drop_last(), sep) + sep + parts.last()
    }
}

// ---------------------------------------------------------------------------
// Comparison
// ---------------------------------------------------------------------------

/// Whether two texts are the same.
pub fn str_eq(a: &str, b: &str) -> (r: bool)
    ensures
        r == (a@ == b@),
{
    let x = a.as_bytes();
    let y = b.as_bytes();
    proof {
        vstd::utf8::encode_utf8_decode_utf8(a@);
        vstd::utf8::encode_utf8_decode_utf8(b@);
    }
    if x.len() != y.len() {
        return false;
    }
    let mut i: usize = 0;
    while i < x.len()
        invariant
            i <= x.len(),
            x@.len() == y@.len(),
            x@ == encode_utf8(a@),
            y@ == encode_utf8(b@),
            forall|j: int| 0 <= j < i ==> x@[j] == y@[j],
        decreases x.len() - i,
    {
        if x[i] != y[i] {
            return false;
        }
        i += 1;
    }
    proof {
        assert(x@ =~= y@);
    }
    true
}

/// The text of an optional string.
pub fn opt_str(s: &Option<String>) -> (r: Option<&str>)
    ensures
        match r {
            Some(t) => opt_text(*s) == Some(t@),
            None => s is None,
        },
{
    match s {
        Some(t) => Some(t.as_str()),
        None => None,
    }
}

/// The characters of a text.
pub fn chars_of(s: &str) -> (r: Vec<char>)
    ensures
        r@ == s@,
{
    let mut out: Vec<char> = Vec::new();
    for c in it: s.chars()
        invariant
            out@ == it.seq().take(it.index() as int),
            it.seq() == s@,
    {
        out.push(c);
    }
    proof {
        assert(s@.take(s@.len() as int) =~= s@);
    }
    out
}

/// The text made of `chars[from..to]`.
pub fn string_of(chars: &Vec<char>, from: usize, to: usize) -> (r: String)
    requires
        from <= to <= chars@.len(),
    ensures
        r@ == chars@.subrange(from as int, to as int),
{
    let mut out = String::new();
    let mut i: usize = from;
    while i < to
        invariant
            from <= i <= to <= chars@.len(),
            out@ == chars@.subrange(from as int, i as int),
        decreases to - i,
    {
        out.push(chars[i]);
        i += 1;
        proof {
            assert(chars@.subrange(from as int, i as int) =~= chars@.subrange(
                from as int,
                i - 1,
            ).push(chars@[i - 1]));
        }
    }
    out
}

/// The length of a text in UTF-8 bytes.
pub fn byte_len(s: &str) -> (n: usize)
    ensures
        n == encode_utf8(s@).len(),
{
    s.as_bytes().len()
}

fn chars_before(x: &Vec<char>, y: &Vec<char>) -> (r: bool)
    ensures
        r == text_before(x@, y@),
{
    let mut i: usize = 0;
    proof {
        assert(x@.skip(0) =~= x@);
        assert(y@.skip(0) =~= y@);
    }
    while i < x.len() && i < y.len()
        invariant
            i <= x.len(),
            i <= y.len(),
            text_before(x@, y@) == text_before(x@.skip(i as int), y@.skip(i as int)),
        decreases x.len() - i,
    {
        if x[i] != y[i] {
            return x[i] < y[i];
        }
        proof {
            assert(x@.skip(i as int).drop_first() =~= x@.skip(i + 1));
            assert(y@.skip(i as int).drop_first() =~= y@.skip(i + 1));
        }
        i += 1;
    }
    i < y.len()
}

/// Whether `a` comes strictly before `b`.
pub fn text_lt(a: &str, b: &str) -> (r: bool)
    ensures
        r == text_before(a@, b@),
{
    chars_before(&chars_of(a), &chars_of(b))
}

/// No text comes before itself.
pub proof fn text_before_irreflexive(a: Seq<char>)
    ensures
        !text_before(a, a),
    decreases a.len(),
{
    if a.len() > 0 {
        text_before_irreflexive(a.drop_first());
    }
}

/// The order of texts is transitive.
pub proof fn text_before_transitive(a: Seq<char>, b: Seq<char>, c: Seq<char>)
    requires
        text_before(a, b),
        text_before(b, c),
    ensures
        text_before(a, c),
    decreases a.len(),
{
    if a.len() > 0 && b.len() > 0 && c.len() > 0 && a[0] == b[0] && b[0] == c[0] {
        text_before_transitive(a.drop_first(), b.drop_first(), c.drop_first());
    }
}

/// Of two different texts one comes before the other.
pub proof fn text_before_total(a: Seq<char>, b: Seq<char>)
    ensures
        text_before(a, b) || text_before(b, a) || a == b,
    decreases a.len(),
{
    if a.len() > 0 && b.len() > 0 && a[0] == b[0] {
        text_before_total(a.drop_first(), b.drop_first());
        if a.drop_first() == b.drop_first() {
            assert(a =~= seq![a[0]] + a.drop_first());
            assert(b =~= seq![b[0]] + b.drop_first());
            assert(a == b);
        }
    } else if a.len() == 0 && b.len() == 0 {
        assert(a =~= b);
    }
}

// ---------------------------------------------------------------------------
// White space
// ---------------------------------------------------------------------------

pub fn is_white_space(c: char) -> (r: bool)
    ensures
        r == white_space(c),
{
    let u: u32 = c as u32;
    (0x09 <= u && u <= 0x0d) || u == 0x20 || u == 0x85 || u == 0xa0 || u == 0x1680 || (0x2000 <= u
        && u <= 0x200a) || u == 0x2028 || u == 0x2029 || u == 0x202f || u == 0x205f || u == 0x3000
}

/// The text without leading and trailing white space.
pub fn trim(s: &str) -> (r: &str)
    ensures
        r@ == trimmed(s@),
{
    let cs = chars_of(s);
    let mut i: usize = 0;
    proof {
        assert(cs@.skip(0) =~= cs@);
    }
    while i < cs.len() && is_white_space(cs[i])
        invariant
            i <= cs.len(),
            trim_front(cs@) == trim_front(cs@.skip(i as int)),
        decreases cs.len() - i,
    {
        proof {
            assert(cs@.skip(i as int).drop_first() =~= cs@.skip(i + 1));
        }
        i += 1;
    }
    let mut j: usize = cs.len();
    proof {
        assert(cs@.skip(i as int) =~= cs@.subrange(i as int, j as int));
    }
    while i < j && is_white_space(cs[j - 1])
        invariant
            i <= j <= cs.len(),
            trimmed(cs@) == trim_back(cs@.subrange(i as int, j as int)),
        decreases j,
    {
        proof {
            assert(cs@.subrange(i as int, j as int).drop_last() =~= cs@.subrange(i as int, j - 1));
        }
        j -= 1;
    }
    s.substring_char(i, j)
}

/// The text without the copies of `c` at its start.
pub fn trim_start_char(s: &str, c: char) -> (r: &str)
    ensures
        r@ == drop_leading(s@, c),
{
    let cs = chars_of(s);
    let mut i: usize = 0;
    proof {
        assert(cs@.skip(0) =~= cs@);
    }
    while i < cs.len() && cs[i] == c
        invariant
            i <= cs.len(),
            drop_leading(cs@, c) == drop_leading(cs@.skip(i as int), c),
        decreases cs.len() - i,
    {
        proof {
            assert(cs@.skip(i as int).drop_first() =~= cs@.skip(i + 1));
        }
        i += 1;
    }
    let r = s.substring_char(i, cs.len());
    proof {
        assert(r@ =~= cs@.skip(i as int));
    }
    r
}

/// The text without the copies of `c` at its end.
pub fn trim_end_char(s: &str, c: char) -> (r: &str)
    ensures
        r@ == drop_trailing(s@, c),
{
    let cs = chars_of(s);
    let mut j: usize = cs.len();
    proof {
        assert(cs@.take(j as int) =~= cs@);
    }
    while 0 < j && cs[j - 1] == c
        invariant
            j <= cs.len(),
            drop_trailing(cs@, c) == drop_trailing(cs@.take(j as int), c),
        decreases j,
    {
        proof {
            assert(cs@.take(j as int).drop_last() =~= cs@.take(j - 1));
        }
        j -= 1;
    }
    let r = s.substring_char(0, j);
    proof {
        assert(r@ =~= cs@.take(j as int));
    }
    r
}

// ---------------------------------------------------------------------------
// Searching and splitting
// ---------------------------------------------------------------------------

/// Whether `pat` stands in `cs` at position `i`.
pub fn chars_at(cs: &Vec<char>, pat: &Vec<char>, i: usize) -> (r: bool)
    ensures
        r == occurs_at(cs@, pat@, i as int),
{
    if pat.len() > cs.len() || i > cs.len() - pat.len() {
        return false;
    }
    let mut k: usize = 0;
    while k < pat.len()
        invariant
            k <= pat.len(),
            i + pat.len() <= cs.len(),
            cs@.subrange(i as int, i + k) == pat@.take(k as int),
        decreases pat.len() - k,
    {
        if cs[i + k] != pat[k] {
            proof {
                if cs@.subrange(i as int, i + pat.len()) == pat@ {
                    assert(cs@.subrange(i as int, i + pat.len())[k as int] == cs@[i + k]);
                }
            }
            return false;
        }
        proof {
            assert(cs@.subrange(i as int, i + k + 1) =~= cs@.subrange(i as int, i + k).push(
                cs@[i + k],
            ));
            assert(pat@.take(k + 1) =~= pat@.take(k as int).push(pat@[k as int]));
        }
        k += 1;
    }
    proof {
        assert(pat@.take(k as int) =~= pat@);
    }
    true
}

/// The first position at or after `from` at which `pat` stands in `cs`.
pub fn find_chars(cs: &Vec<char>, pat: &Vec<char>, from: usize) -> (r: Option<usize>)
    ensures
        match r {
            Some(i) => find_from(cs@, pat@, from as int) == Some(i as int) && i + pat@.len()
                <= cs@.len(),
            None => find_from(cs@, pat@, from as int) is None,
        },
{
    if pat.len() > cs.len() {
        return None;
    }
    let last: usize = cs.len() - pat.len();
    let mut i: usize = from;
    while i <= last
        invariant
            pat@.len() <= cs@.len(),
            last == cs@.len() - pat@.len(),
            find_from(cs@, pat@, from as int) == find_from(cs@, pat@, i as int),
        decreases last + 1 - i,
    {
        if chars_at(cs, pat, i) {
            return Some(i);
        }
        if i == last {
            proof {
                assert(find_from(cs@, pat@, i + 1) is None);
            }
            return None;
        }
        i += 1;
    }
    None
}

/// A text contains `pat` if and only if searching from the start finds it.
pub proof fn find_from_iff_contains(s: Seq<char>, pat: Seq<char>, i: int)
    requires
        0 <= i,
    ensures
        find_from(s, pat, i) is Some <==> exists|j: int| i <= j && #[trigger] occurs_at(s, pat, j),
        find_from(s, pat, i) is Some ==> i <= find_from(s, pat, i)->0 && occurs_at(
            s,
            pat,
            find_from(s, pat, i)->0,
        ),
        forall|j: int|
            i <= j && (find_from(s, pat, i) is Some ==> j < find_from(s, pat, i)->0) ==> !occurs_at(
                s,
                pat,
                j,
            ),
    decreases s.len() + 1 - i,
{
    if i + pat.len() > s.len() {
    } else if occurs_at(s, pat, i) {
    } else {
        find_from_iff_contains(s, pat, i + 1);
        if exists|j: int| i <= j && #[trigger] occurs_at(s, pat, j) {
            let j = choose|j: int| i <= j && #[trigger] occurs_at(s, pat, j);
            assert(j != i);
        }
    }
}

/// Whether `pat` stands somewhere in `s`.
pub fn contains(s: &str, pat: &str) -> (r: bool)
    ensures
        r == contains_text(s@, pat@),
{
    proof {
        find_from_iff_contains(s@, pat@, 0);
    }
    find_chars(&chars_of(s), &chars_of(pat), 0).is_some()
}

/// Whether `s` begins with `prefix`.
pub fn starts_with(s: &str, prefix: &str) -> (r: bool)
    ensures
        r == prefix@.is_prefix_of(s@),
{
    chars_at(&chars_of(s), &chars_of(prefix), 0)
}

/// Whether `s` ends with `suffix`.
pub fn ends_with(s: &str, suffix: &str) -> (r: bool)
    ensures
        r == suffix@.is_suffix_of(s@),
{
    let cs = chars_of(s);
    let pat = chars_of(suffix);
    if pat.len() > cs.len() {
        return false;
    }
    chars_at(&cs, &pat, cs.len() - pat.len())
}

/// What follows `prefix` in a text that begins with it.
pub fn strip_prefix<'a>(s: &'a str, prefix: &str) -> (r: Option<&'a str>)
    ensures
        match r {
            Some(rest) => prefix@.is_prefix_of(s@) && rest@ == s@.skip(prefix@.len() as int),
            None => !prefix@.is_prefix_of(s@),
        },
{
    if starts_with(s, prefix) {
        let n: usize = s.unicode_len();
        let k: usize = prefix.unicode_len();
        Some(s.substring_char(k, n))
    } else {
        None
    }
}

/// What precedes `suffix` in a text that ends with it.
pub fn strip_suffix<'a>(s: &'a str, suffix: &str) -> (r: Option<&'a str>)
    ensures
        match r {
            Some(rest) => suffix@.is_suffix_of(s@) && rest@ == s@.take(s@.len() - suffix@.len()),
            None => !suffix@.is_suffix_of(s@),
        },
{
    if ends_with(s, suffix) {
        let n: usize = s.unicode_len();
        let k: usize = suffix.unicode_len();
        Some(s.substring_char(0, n - k))
    } else {
        None
    }
}

/// The parts of `s` before and after the first `pat`.
pub fn split_once<'a>(s: &'a str, pat: &str) -> (r: Option<(&'a str, &'a str)>)
    ensures
        match r {
            Some((left, right)) => split_at_first(s@, pat@) == Some((left@, right@)),
            None => split_at_first(s@, pat@) is None,
        },
{
    let cs = chars_of(s);
    let p = chars_of(pat);
    let n: usize = cs.len();
    let k: usize = p.len();
    match find_chars(&cs, &p, 0) {
        Some(i) => {
            let left = s.substring_char(0, i);
            let right = s.substring_char(i + k, n);
            proof {
                assert(left@ =~= s@.take(i as int));
                assert(right@ =~= s@.skip(i + pat@.len()));
            }
            Some((left, right))
        },
        None => None,
    }
}

/// A text that begins with `j` characters other than the separator, followed by
/// it, splits off these characters.
proof fn split_on_first(s: Seq<char>, sep: char, j: int)
    requires
        0 <= j < s.len(),
        s[j] == sep,
        forall|k: int| 0 <= k < j ==> s[k] != sep,
    ensures
        split_on(s, sep) == seq![s.take(j)] + split_on(s.skip(j + 1), sep),
    decreases j,
{
    if j == 0 {
        assert(s.take(0) =~= Seq::<char>::empty());
        assert(s.drop_first() =~= s.skip(1));
    } else {
        let t = s.drop_first();
        split_on_first(t, sep, j - 1);
        let rest = split_on(t, sep);
        assert(t.skip(j) =~= s.skip(j + 1));
        assert(rest[0] =~= t.take(j - 1));
        assert(seq![s[0]] + t.take(j - 1) =~= s.take(j));
        assert(split_on(s, sep) =~= seq![s.take(j)] + split_on(s.skip(j + 1), sep));
    }
}

proof fn split_on_none(s: Seq<char>, sep: char)
    requires
        forall|k: int| 0 <= k < s.len() ==> s[k] != sep,
    ensures
        split_on(s, sep) == seq![s],
    decreases s.len(),
{
    if s.len() > 0 {
        split_on_none(s.drop_first(), sep);
        assert(seq![s[0]] + s.drop_first() =~= s);
        assert(split_on(s, sep) =~= seq![s]);
    }
}

/// The parts of the text between the separators.
pub fn split_char(s: &str, sep: char) -> (r: Vec<String>)
    ensures
        texts(r@) == split_on(s@, sep),
{
    let cs = chars_of(s);
    let mut out: Vec<String> = Vec::new();
    let mut start: usize = 0;
    let mut i: usize = 0;
    proof {
        assert(cs@.skip(0) =~= cs@);
        assert(texts(out@) + split_on(cs@, sep) =~= split_on(cs@, sep));
    }
    while i < cs.len()
        invariant
            start <= i <= cs@.len(),
            forall|k: int| start <= k < i ==> cs@[k] != sep,
            texts(out@) + split_on(cs@.skip(start as int), sep) == split_on(cs@, sep),
        decreases cs.len() - i,
    {
        if cs[i] == sep {
            let ghost tail = cs@.skip(start as int);
            let ghost out0 = out@;
            let ghost part = tail.take(i - start);
            proof {
                split_on_first(tail, sep, i - start);
                assert(tail.take(i - start) =~= cs@.subrange(start as int, i as int));
                assert(tail.skip(i - start + 1) =~= cs@.skip(i + 1));
            }
            out.push(string_of(&cs, start, i));
            start = i + 1;
            proof {
                assert(texts(out@) =~= texts(out0).push(part));
                assert(texts(out@) + split_on(cs@.skip(start as int), sep) =~= texts(out0)
                    + split_on(tail, sep));
            }
        }
        i += 1;
    }
    let ghost out0 = out@;
    let ghost tail = cs@.skip(start as int);
    out.push(string_of(&cs, start, i));
    proof {
        assert(tail =~= cs@.subrange(start as int, i as int));
        split_on_none(tail, sep);
        assert(texts(out@) =~= texts(out0) + seq![tail]);
    }
    out
}

/// The text with `to` for each `pat`.
pub fn replace_all(s: &str, pat: &str, to: &str) -> (r: String)
    requires
        pat@.len() > 0,
    ensures
        r@ == replaced(s@, pat@, to@),
{
    let cs = chars_of(s);
    let p = chars_of(pat);
    let n: usize = cs.len();
    let k: usize = p.len();
    let mut out = String::new();
    let mut i: usize = 0;
    proof {
        assert(out@ + replaced_from(s@, pat@, to@, 0) =~= replaced(s@, pat@, to@));
    }
    loop
        invariant
            cs@ == s@,
            p@ == pat@,
            n == cs@.len(),
            k == p@.len(),
            k > 0,
            i <= n,
            out@ + replaced_from(s@, pat@, to@, i as int) == replaced(s@, pat@, to@),
        decreases n - i,
    {
        let ghost before = out@;
        match find_chars(&cs, &p, i) {
            None => {
                out.append(string_of(&cs, i, n).as_str());
                proof {
                    assert(cs@.subrange(i as int, n as int) =~= s@.skip(i as int));
                }
                return out;
            },
            Some(at) => {
                proof {
                    find_from_iff_contains(s@, pat@, i as int);
                }
                out.append(string_of(&cs, i, at).as_str());
                out.append(to);
                proof {
                    assert(out@ + replaced_from(s@, pat@, to@, at + k) =~= before + replaced_from(
                        s@,
                        pat@,
                        to@,
                        i as int,
                    ));
                }
                i = at + k;
            },
        }
    }
}

// ---------------------------------------------------------------------------
// Letters and digits
// ---------------------------------------------------------------------------

/// The text with its ASCII letters in lower case.
pub fn to_ascii_lower(s: &str) -> (r: String)
    ensures
        r@ == lowered(s@),
{
    let cs = chars_of(s);
    let mut out = String::new();
    let mut i: usize = 0;
    while i < cs.len()
        invariant
            i <= cs.len(),
            cs@ == s@,
            out@ == lowered(s@.take(i as int)),
        decreases cs.len() - i,
    {
        out.push(lower_char(cs[i]));
        i += 1;
        proof {
            assert(s@.take(i as int) =~= s@.take(i - 1).push(s@[i - 1]));
            assert(lowered(s@.take(i as int)) =~= lowered(s@.take(i - 1)).push(
                ascii_lower(s@[i - 1]),
            ));
        }
    }
    proof {
        assert(s@.take(i as int) =~= s@);
    }
    out
}

fn lower_char(c: char) -> (r: char)
    ensures
        r == ascii_lower(c),
{
    if 'A' <= c && c <= 'Z' {
        let b: u8 = c as u8;
        (b + 32) as char
    } else {
        c
    }
}

/// Whether two texts agree but for the case of ASCII letters.
pub fn eq_ignore_ascii_case(a: &str, b: &str) -> (r: bool)
    ensures
        r == (lowered(a@) == lowered(b@)),
{
    str_eq(to_ascii_lower(a).as_str(), to_ascii_lower(b).as_str())
}

// ---------------------------------------------------------------------------
// Numbers
// ---------------------------------------------------------------------------

proof fn decimal_value_prefix(ds: Seq<char>, k: int)
    requires
        0 <= k <= ds.len(),
        all_digits(ds),
    ensures
        decimal_value(ds.take(k)) <= decimal_value(ds),
    decreases ds.len() - k,
{
    if k < ds.len() {
        decimal_value_prefix(ds, k + 1);
        assert(ds.take(k + 1).drop_last() =~= ds.take(k));
        assert(ascii_digit(ds[k]));
    } else {
        assert(ds.take(k) =~= ds);
    }
}

proof fn leading_digits_are(s: Seq<char>, k: int)
    requires
        0 <= k <= s.len(),
        forall|j: int| 0 <= j < k ==> ascii_digit(#[trigger] s[j]),
        k < s.len() ==> !ascii_digit(s[k]),
    ensures
        leading_digits(s) == k,
    decreases k,
{
    if k > 0 {
        let t = s.drop_first();
        assert forall|j: int| 0 <= j < k - 1 implies ascii_digit(#[trigger] t[j]) by {
            assert(t[j] == s[j + 1]);
        }
        leading_digits_are(t, k - 1);
        assert(ascii_digit(s[0]));
    }
}

proof fn leading_digits_at_least(s: Seq<char>, k: int)
    requires
        0 <= k <= s.len(),
        forall|j: int| 0 <= j < k ==> ascii_digit(#[trigger] s[j]),
    ensures
        k <= leading_digits(s) <= s.len(),
        forall|j: int| 0 <= j < leading_digits(s) ==> ascii_digit(#[trigger] s[j]),
    decreases s.len(),
{
    if s.len() > 0 && ascii_digit(s[0]) {
        let t = s.drop_first();
        let m = if k > 0 { k - 1 } else { 0 };
        assert forall|j: int| 0 <= j < m implies ascii_digit(#[trigger] t[j]) by {
            assert(t[j] == s[j + 1]);
        }
        leading_digits_at_least(t, m);
        assert forall|j: int| 0 <= j < leading_digits(s) implies ascii_digit(#[trigger] s[j]) by {
            if j > 0 {
                assert(t[j - 1] == s[j]);
            }
        }
    } else if k > 0 {
        assert(ascii_digit(s[0]));
    }
}

/// The unsigned 64-bit number that a text writes in decimal, or why it writes
/// none.
pub fn parse_u64(s: &str) -> (r: Result<u64, NumberFault>)
    ensures
        match r {
            Ok(n) => u64_written(s@) == Some(n) && number_fault(s@) is None,
            Err(f) => u64_written(s@) is None && number_fault(s@) == Some(f),
        },
{
    let cs = chars_of(s);
    if cs.len() == 0 {
        return Err(NumberFault::Empty);
    }
    let start: usize = if cs[0] == '+' {
        1
    } else {
        0
    };
    let ghost ds = if s@[0] == '+' {
        s@.drop_first()
    } else {
        s@
    };
    proof {
        assert(ds =~= s@.skip(start as int));
        assert(ds.take(0) =~= Seq::<char>::empty());
    }
    if cs.len() == start {
        return Err(NumberFault::InvalidDigit);
    }
    let mut value: u64 = 0;
    let mut i: usize = start;
    while i < cs.len()
        invariant
            start <= i <= cs.len(),
            start < cs.len(),
            cs@ == s@,
            ds == s@.skip(start as int),
            u64_written(s@) == u64_digits(ds),
            number_fault(s@) == digits_fault(ds),
            forall|j: int| 0 <= j < i - start ==> ascii_digit(#[trigger] ds[j]),
            value == decimal_value(ds.take(i - start)),
        decreases cs.len() - i,
    {
        let c = cs[i];
        proof {
            assert(c == ds[i - start]);
            assert(ds.take(i - start + 1).drop_last() =~= ds.take(i - start));
        }
        if !('0' <= c && c <= '9') {
            proof {
                assert(!ascii_digit(ds[i - start]));
                leading_digits_are(ds, i - start);
            }
            return Err(NumberFault::InvalidDigit);
        }
        let d: u64 = (c as u32 - 48) as u64;
        if value > (u64::MAX - d) / 10 {
            proof {
                assert(value * 10 + d > u64::MAX) by (nonlinear_arith)
                    requires
                        value > (u64::MAX - d) / 10,
                        d <= 9,
                ;
                leading_digits_at_least(ds, i - start + 1);
                let k = leading_digits(ds) as int;
                assert(ds.take(k).take(i - start + 1) =~= ds.take(i - start + 1));
                decimal_value_prefix(ds.take(k), i - start + 1);
                if all_digits(ds) {
                    decimal_value_prefix(ds, i - start + 1);
                }
            }
            return Err(NumberFault::TooLarge);
        }
        value = value * 10 + d;
        i += 1;
    }
    proof {
        assert(ds.take(i - start) =~= ds);
        leading_digits_are(ds, ds.len() as int);
    }
    Ok(value)
}

fn push_decimal(out: &mut String, n: u64)
    ensures
        final(out)@ == old(out)@ + decimal_text(n as nat),
    decreases n,
{
    if n >= 10 {
        push_decimal(out, n / 10);
    }
    let d: u8 = (n % 10) as u8;
    out.push((48 + d) as char);
    proof {
        assert(out@ =~= old(out)@ + decimal_text(n as nat));
    }
}

/// A number in decimal.
pub fn u64_text(n: u64) -> (r: String)
    ensures
        r@ == decimal_text(n as nat),
{
    let mut out = String::new();
    push_decimal(&mut out, n);
    proof {
        assert(out@ =~= decimal_text(n as nat));
    }
    out
}

/// A signed number in decimal.
pub fn i64_text(n: i64) -> (r: String)
    ensures
        r@ == integer_text(n as int),
{
    let mut out = String::new();
    if n < 0 {
        out.push('-');
        let magnitude: u64 = if n == i64::MIN {
            0x8000_0000_0000_0000
        } else {
            (-n) as u64
        };
        push_decimal(&mut out, magnitude);
        proof {
            assert(out@ =~= integer_text(n as int));
        }
    } else {
        push_decimal(&mut out, n as u64);
        proof {
            assert(out@ =~= integer_text(n as int));
        }
    }
    out
}

// ---------------------------------------------------------------------------
// Building
// ---------------------------------------------------------------------------

/// Appends `n` copies of `c`.
pub fn push_copies(out: &mut String, c: char, n: usize)
    ensures
        final(out)@ == old(out)@ + copies(c, n as nat),
{
    let mut i: usize = 0;
    proof {
        assert(out@ =~= old(out)@ + copies(c, 0));
    }
    while i < n
        invariant
            i <= n,
            out@ == old(out)@ + copies(c, i as nat),
        decreases n - i,
    {
        out.push(c);
        i += 1;
        proof {
            assert(out@ =~= old(out)@ + copies(c, i as nat));
        }
    }
}

/// The text followed by spaces up to `width` characters.
pub fn pad(s: &str, width: usize) -> (r: String)
    ensures
        r@ == padded(s@, width as nat),
{
    let n: usize = s.unicode_len();
    let mut out = s.to_owned();
    if n < width {
        push_copies(&mut out, ' ', width - n);
    }
    out
}

/// The texts one after another, with `sep` between two neighbours.
pub fn join(parts: &Vec<String>, sep: &str) -> (r: String)
    ensures
        r@ == joined(texts(parts@), sep@),
{
    let mut out = String::new();
    let mut i: usize = 0;
    proof {
        assert(texts(parts@.take(0)) =~= Seq::empty());
    }
    while i < parts.len()
        invariant
            i <= parts.len(),
            out@ == joined(texts(parts@.take(i as int)), sep@),
        decreases parts.len() - i,
    {
        if i > 0 {
            out.append(sep);
        }
        out.append(parts[i].as_str());
        proof {
            let before = texts(parts@.take(i as int));
            let after = texts(parts@.take(i + 1));
            assert(after =~= before.push(parts@[i as int]@));
            assert(after.drop_last() =~= before);
            if i == 0 {
                assert(out@ =~= parts@[0]@);
            }
        }
        i += 1;
    }
    proof {
        assert(parts@.take(i as int) =~= parts@);
    }
    out
}

/// `a` followed by `b`.
pub fn concat2(a: &str, b: &str) -> (r: String)
    ensures
        r@ == a@ + b@,
{
    let mut out = a.to_owned();
    out.append(b);
    out
}

/// `a`, `b` and `c` one after another.
pub fn concat3(a: &str, b: &str, c: &str) -> (r: String)
    ensures
        r@ == a@ + b@ + c@,
{
    let mut out = a.to_owned();
    out.append(b);
    out.append(c);
    out
}

// ---------------------------------------------------------------------------
// Quoting for diagnostics
// ---------------------------------------------------------------------------

/// What `{:?}` writes for a text: the text in double quotes, with escapes.
pub uninterp spec fn debug_quoted(s: Seq<char>) -> Seq<char>;

/// Characters that stand for themselves in a quoted text.
pub open spec fn plain_ascii(s: Seq<char>) -> bool {
    forall|i: int|
        0 <= i < s.len() ==> ' ' <= #[trigger] s[i] && s[i] <= '~' && s[i] != '"' && s[i] != '\\'
}

/// `<str as Debug>::fmt` with the plain `{:?}`: what it writes is a function of
/// the text; printable ASCII other than `"` and `\` is written as it stands,
/// between double quotes.
#[verifier::external_body]
pub(crate) fn debug_str(s: &str) -> (r: String)
    ensures
        r@ == debug_quoted(s@),
        plain_ascii(s@) ==> r@ == seq!['"'] + s@ + seq!['"'],
{
    format!("{s:?}")
}

/// What `{:?}` writes for a path: the path in double quotes, with escapes.
pub uninterp spec fn debug_quoted_path(path: Seq<char>) -> Seq<char>;

/// `<std::path::Path as Debug>::fmt` with the plain `{:?}`: what it writes is a
/// function of the path. Which characters it escapes is left unsaid.
#[verifier::external_body]
pub(crate) fn debug_path(path: &str) -> (r: String)
    ensures
        r@ == debug_quoted_path(path@),
{
    format!("{:?}", std::path::Path::new(path))
}

/// What `{:?}` writes for a list of texts.
pub open spec fn debug_list(ss: Seq<Seq<char>>) -> Seq<char> {
    seq!['['] + joined(ss.map_values(|s: Seq<char>| debug_quoted(s)), ", "@) + seq![']']
}

/// A list of texts as `{:?}` writes it.
pub fn debug_strings(v: &Vec<String>) -> (r: String)
    ensures
        r@ == debug_list(texts(v@)),
{
    let mut quoted: Vec<String> = Vec::new();
    let mut i: usize = 0;
    while i < v.len()
        invariant
            i <= v.len(),
            texts(quoted@) == texts(v@.take(i as int)).map_values(
                |s: Seq<char>| debug_quoted(s),
            ),
        decreases v.len() - i,
    {
        let ghost before = quoted@;
        quoted.push(debug_str(v[i].as_str()));
        i += 1;
        proof {
            assert(texts(quoted@) =~= texts(before).push(debug_quoted(v@[i - 1]@)));
            assert(texts(v@.take(i as int)) =~= texts(v@.take(i - 1)).push(v@[i - 1]@));
            assert(texts(quoted@) =~= texts(v@.take(i as int)).map_values(
                |s: Seq<char>| debug_quoted(s),
            ));
        }
    }
    proof {
        assert(v@.take(i as int) =~= v@);
    }
    let mut out = String::new();
    out.push('[');
    out.append(join(&quoted, ", ").as_str());
    out.push(']');
    proof {
        assert(out@ =~= debug_list(texts(v@)));
    }
    out
}

/// The first place at which two texts differ decides which comes first.
pub proof fn first_difference_decides(
    front: Seq<char>,
    a: char,
    b: char,
    x: Seq<char>,
    y: Seq<char>,
)
    requires
        a != b,
    ensures
        text_before(front + seq![a] + x, front + seq![b] + y) <==> (a as u32) < (b as u32),
    decreases front.len(),
{
    let s = front + seq![a] + x;
    let t = front + seq![b] + y;
    if front.len() > 0 {
        let rest = front.drop_first();
        assert(s.drop_first() =~= rest + seq![a] + x);
        assert(t.drop_first() =~= rest + seq![b] + y);
        first_difference_decides(rest, a, b, x, y);
    }
}

/// A text comes before what it is the beginning of.
pub proof fn beginnings_come_first(front: Seq<char>, rest: Seq<char>)
    requires
        rest.len() > 0,
    ensures
        text_before(front, front + rest),
        !text_before(front + rest, front),
    decreases front.len(),
{
    if front.len() > 0 {
        assert((front + rest).drop_first() =~= front.drop_first() + rest);
        beginnings_come_first(front.drop_first(), rest);
    }
}

// ---------------------------------------------------------------------------
// Laws
// ---------------------------------------------------------------------------

/// Space at both ends goes, and nothing else.
pub proof fn trimming_drops_the_space_around(front: Seq<char>, core: Seq<char>, back: Seq<char>)
    requires
        forall|i: int| 0 <= i < front.len() ==> white_space(#[trigger] front[i]),
        forall|i: int| 0 <= i < back.len() ==> white_space(#[trigger] back[i]),
        core.len() > 0,
        !white_space(core[0]),
        !white_space(core.last()),
    ensures
        trimmed(front + core + back) == core,
{
    front_space_goes(front, core + back);
    assert(front + core + back =~= front + (core + back));
    assert((core + back)[0] == core[0]);
    back_space_goes(core, back);
}

proof fn front_space_goes(front: Seq<char>, rest: Seq<char>)
    requires
        forall|i: int| 0 <= i < front.len() ==> white_space(#[trigger] front[i]),
        rest.len() > 0,
        !white_space(rest[0]),
    ensures
        trim_front(front + rest) == rest,
    decreases front.len(),
{
    if front.len() > 0 {
        let t = front.drop_first();
        assert forall|i: int| 0 <= i < t.len() implies white_space(#[trigger] t[i]) by {
            assert(t[i] == front[i + 1]);
        }
        assert(white_space(front[0]));
        assert((front + rest).drop_first() =~= t + rest);
        front_space_goes(t, rest);
    } else {
        assert(front + rest =~= rest);
    }
}

proof fn back_space_goes(rest: Seq<char>, back: Seq<char>)
    requires
        forall|i: int| 0 <= i < back.len() ==> white_space(#[trigger] back[i]),
        rest.len() > 0,
        !white_space(rest.last()),
    ensures
        trim_back(rest + back) == rest,
    decreases back.len(),
{
    if back.len() > 0 {
        let t = back.drop_last();
        assert forall|i: int| 0 <= i < t.len() implies white_space(#[trigger] t[i]) by {
            assert(t[i] == back[i]);
        }
        assert(white_space(back[back.len() - 1]));
        assert((rest + back).drop_last() =~= rest + t);
        back_space_goes(rest, t);
    } else {
        assert(rest + back =~= rest);
    }
}

/// A blank text has nothing left.
pub proof fn blank_texts_are_trimmed_away(s: Seq<char>)
    requires
        forall|i: int| 0 <= i < s.len() ==> white_space(#[trigger] s[i]),
    ensures
        trimmed(s) == Seq::<char>::empty(),
    decreases s.len(),
{
    if s.len() > 0 {
        let t = s.drop_first();
        assert forall|i: int| 0 <= i < t.len() implies white_space(#[trigger] t[i]) by {
            assert(t[i] == s[i + 1]);
        }
        assert(white_space(s[0]));
        blank_texts_are_trimmed_away(t);
    } else {
        assert(s =~= Seq::<char>::empty());
    }
}

/// Space is what Unicode counts as white space.
pub proof fn space_is_white_space(c: char)
    ensures
        c == ' ' || c == '\t' || c == '\n' || c == '\r' ==> white_space(c),
        '!' <= c && c <= '~' ==> !white_space(c),
        white_space(c) ==> (c as u32) <= 0x20 || (c as u32) >= 0x85,
{
}

/// The copies of a character at the start go, and nothing else.
pub proof fn leading_copies_go(c: char, n: nat, rest: Seq<char>)
    requires
        rest.len() > 0 ==> rest[0] != c,
    ensures
        drop_leading(Seq::new(n, |i: int| c) + rest, c) == rest,
    decreases n,
{
    let s = Seq::new(n, |i: int| c) + rest;
    if n > 0 {
        assert(s.drop_first() =~= Seq::new((n - 1) as nat, |i: int| c) + rest);
        leading_copies_go(c, (n - 1) as nat, rest);
    } else {
        assert(s =~= rest);
    }
}

/// The copies of a character at the end go, and nothing else.
pub proof fn trailing_copies_go(c: char, n: nat, rest: Seq<char>)
    requires
        rest.len() > 0 ==> rest.last() != c,
    ensures
        drop_trailing(rest + Seq::new(n, |i: int| c), c) == rest,
    decreases n,
{
    let s = rest + Seq::new(n, |i: int| c);
    if n > 0 {
        assert(s.drop_last() =~= rest + Seq::new((n - 1) as nat, |i: int| c));
        trailing_copies_go(c, (n - 1) as nat, rest);
    } else {
        assert(s =~= rest);
    }
}

/// A text stands in another where the other is made of it and of what is around it.
pub proof fn texts_stand_between(front: Seq<char>, pat: Seq<char>, back: Seq<char>, i: int)
    ensures
        occurs_at(front + pat + back, pat, front.len() as int),
        occurs_at(front, pat, i) ==> 0 <= i && i + pat.len() <= front.len() && front == front.take(i)
            + pat + front.skip(i + pat.len()),
{
    let s = front + pat + back;
    assert(s.subrange(front.len() as int, (front.len() + pat.len()) as int) =~= pat);
    if occurs_at(front, pat, i) {
        assert(front =~= front.take(i) + front.subrange(i, i + pat.len()) + front.skip(
            i + pat.len(),
        ));
    }
}

/// A text is split at the first place at which the other stands, and not at all where it
/// stands nowhere.
pub proof fn splits_come_together_again(s: Seq<char>, pat: Seq<char>)
    ensures
        match split_at_first(s, pat) {
            Some((front, back)) => s == front + pat + back && (forall|i: int|
                0 <= i < front.len() ==> !(i + pat.len() <= s.len() && #[trigger] s.subrange(
                    i,
                    i + pat.len(),
                ) == pat)),
            None => forall|i: int|
                0 <= i && i + pat.len() <= s.len() ==> #[trigger] s.subrange(i, i + pat.len())
                    != pat,
        },
{
    find_from_iff_contains(s, pat, 0);
    match find_from(s, pat, 0) {
        Some(k) => {
            texts_stand_between(s, pat, s, k);
            assert forall|i: int| 0 <= i < k implies !(i + pat.len() <= s.len()
                && #[trigger] s.subrange(i, i + pat.len()) == pat) by {
                assert(!occurs_at(s, pat, i));
            }
        },
        None => {
            assert forall|i: int| 0 <= i && i + pat.len() <= s.len() implies #[trigger] s.subrange(
                i,
                i + pat.len(),
            ) != pat by {
                assert(!occurs_at(s, pat, i));
            }
        },
    }
}

/// The parts between separators hold none, and come together to the text again.
pub proof fn parts_come_together_again(s: Seq<char>, sep: char)
    ensures
        split_on(s, sep).len() >= 1,
        joined(split_on(s, sep), seq![sep]) == s,
        forall|i: int|
            0 <= i < split_on(s, sep).len() ==> !(#[trigger] split_on(s, sep)[i]).contains(sep),
    decreases s.len(),
{
    if exists|j: int| 0 <= j < s.len() && s[j] == sep {
        let j = first_place(s, sep);
        split_on_first(s, sep, j);
        let back = s.skip(j + 1);
        parts_come_together_again(back, sep);
        let parts = split_on(s, sep);
        let rest = split_on(back, sep);
        assert(parts =~= seq![s.take(j)] + rest);
        joined_from_the_front(s.take(j), rest, seq![sep]);
        assert(s =~= s.take(j) + seq![sep] + back);
        assert forall|i: int| 0 <= i < parts.len() implies !(#[trigger] parts[i]).contains(sep) by {
            if i == 0 {
                if s.take(j).contains(sep) {
                    let k = s.take(j).index_of(sep);
                    assert(s[k] == sep);
                }
            } else {
                assert(parts[i] == rest[i - 1]);
            }
        }
    } else {
        split_on_none(s, sep);
        assert(split_on(s, sep)[0] == s);
        if s.contains(sep) {
            let k = s.index_of(sep);
            assert(s[k] == sep);
        }
    }
}

proof fn first_place(s: Seq<char>, c: char) -> (j: int)
    requires
        exists|j: int| 0 <= j < s.len() && s[j] == c,
    ensures
        0 <= j < s.len(),
        s[j] == c,
        forall|k: int| 0 <= k < j ==> s[k] != c,
    decreases s.len(),
{
    if s[0] == c {
        0
    } else {
        let t = s.drop_first();
        let j = choose|j: int| 0 <= j < s.len() && s[j] == c;
        assert(t[j - 1] == c);
        let k = first_place(t, c);
        assert forall|i: int| 0 <= i < k + 1 implies s[i] != c by {
            if i > 0 {
                assert(t[i - 1] == s[i]);
            }
        }
        k + 1
    }
}

/// Parts are joined from the front as from the back.
pub proof fn joined_from_the_front(first: Seq<char>, rest: Seq<Seq<char>>, sep: Seq<char>)
    ensures
        joined(seq![first], sep) == first,
        rest.len() > 0 ==> joined(seq![first] + rest, sep) == first + sep + joined(rest, sep),
        joined(Seq::<Seq<char>>::empty(), sep) == Seq::<char>::empty(),
    decreases rest.len(),
{
    if rest.len() > 0 {
        let all = seq![first] + rest;
        assert(all.drop_last() =~= seq![first] + rest.drop_last());
        assert(all.last() == rest.last());
        assert(joined(all, sep) == joined(all.drop_last(), sep) + sep + all.last());
        if rest.len() == 1 {
            assert(all.drop_last() =~= seq![first]);
            assert(joined(seq![first], sep) == seq![first][0]);
            assert(joined(rest, sep) == rest[0]);
        } else {
            assert(joined(rest, sep) == joined(rest.drop_last(), sep) + sep + rest.last());
            joined_from_the_front(first, rest.drop_last(), sep);
            assert(joined(all, sep) =~= first + sep + joined(rest, sep));
        }
    }
}

/// ASCII capitals become the small letters that belong to them; nothing else changes.
pub proof fn only_ascii_capitals_are_lowered(s: Seq<char>)
    ensures
        lowered(s).len() == s.len(),
        forall|i: int|
            0 <= i < s.len() ==> (if 'A' <= s[i] && s[i] <= 'Z' {
                (#[trigger] lowered(s)[i]) as u32 == s[i] as u32 + 32
            } else {
                lowered(s)[i] == s[i]
            }),
{
}

/// A number is read back from the digits that it is written with, which are ASCII digits
/// without a leading zero.
pub proof fn written_numbers_are_read_back(n: nat)
    ensures
        decimal_text(n).len() > 0,
        forall|i: int|
            0 <= i < decimal_text(n).len() ==> '0' <= #[trigger] decimal_text(n)[i]
                && decimal_text(n)[i] <= '9',
        decimal_text(n)[0] == '0' ==> decimal_text(n).len() == 1,
        decimal_value(decimal_text(n)) == n,
        n <= u64::MAX ==> u64_written(decimal_text(n)) == Some(n as u64),
        n <= u64::MAX ==> number_fault(decimal_text(n)) is None,
    decreases n,
{
    let t = decimal_text(n);
    if n < 10 {
        assert(t =~= seq![digit_char(n)]);
        assert(t.drop_last() =~= Seq::<char>::empty());
        assert(decimal_value(t.drop_last()) == 0);
        assert(n == 0 <==> t[0] == '0');
    } else {
        written_numbers_are_read_back(n / 10);
        let front = decimal_text(n / 10);
        assert(t.drop_last() =~= front);
        assert forall|i: int| 0 <= i < t.len() implies '0' <= #[trigger] t[i] && t[i] <= '9' by {
            if i < front.len() {
                assert(t[i] == front[i]);
            }
        }
        assert(t[0] == front[0]);
        if t[0] == '0' {
            assert(decimal_value(front.drop_last()) == 0) by {
                assert(front.drop_last() =~= Seq::<char>::empty());
            }
            assert(false) by {
                assert(n / 10 >= 1);
                assert(front.len() == 1);
                assert(decimal_value(front) == 0);
            }
        }
    }
    assert(all_digits(t));
    leading_digits_are(t, t.len() as int);
    assert(t.take(t.len() as int) =~= t);
}

/// A negative number is written as the number without its sign, behind a `-`.
pub proof fn signs_come_first(n: int)
    ensures
        n >= 0 ==> integer_text(n) == decimal_text(n as nat),
        n > 0 ==> integer_text(-n) == seq!['-'] + decimal_text(n as nat),
{
}

/// What is read as a number is digits behind at most one `+`.
pub proof fn numbers_are_digits(s: Seq<char>, d: char)
    ensures
        u64_written(s) is Some ==> s.len() > 0,
        u64_written(s) is Some ==> forall|i: int|
            0 <= i < s.len() ==> ('0' <= #[trigger] s[i] && s[i] <= '9') || (i == 0 && s[i] == '+'),
        '0' <= d && d <= '9' && u64_digits(s) is Some && u64_digits(s.push(d)) is Some ==> u64_digits(
            s.push(d),
        )->0 == u64_digits(s)->0 * 10 + (d as u32 - '0' as u32),
{
    if u64_written(s) is Some {
        if s[0] == '+' {
            assert forall|i: int| 0 <= i < s.len() implies ('0' <= #[trigger] s[i] && s[i] <= '9')
                || (i == 0 && s[i] == '+') by {
                if i > 0 {
                    assert(s.drop_first()[i - 1] == s[i]);
                }
            }
        }
    }
    assert(s.push(d).drop_last() =~= s);
}

/// A text that is too short is filled up with spaces; no text is cut.
pub proof fn padding_keeps_the_text(s: Seq<char>, width: nat)
    ensures
        padded(s, width).len() == if s.len() < width {
            width
        } else {
            s.len()
        },
        padded(s, width).take(s.len() as int) == s,
        forall|i: int| s.len() <= i < padded(s, width).len() ==> #[trigger] padded(s, width)[i] == ' ',
{
    assert(padded(s, width).take(s.len() as int) =~= s);
}

/// Where a text does not stand, nothing is replaced; where it stands first, it is
/// replaced, and what follows is replaced in turn.
pub proof fn each_place_is_replaced(s: Seq<char>, pat: Seq<char>, to: Seq<char>)
    requires
        pat.len() > 0,
    ensures
        match split_at_first(s, pat) {
            None => replaced(s, pat, to) == s,
            Some((front, back)) => replaced(s, pat, to) == front + to + replaced(back, pat, to),
        },
{
    find_from_iff_contains(s, pat, 0);
    match find_from(s, pat, 0) {
        None => {
            assert(s.skip(0) =~= s);
        },
        Some(k) => {
            replaced_behind(s, pat, to, k + pat.len(), 0);
            assert(s.subrange(0, k) =~= s.take(k));
            let back = s.skip(k + pat.len());
            assert(back.skip(0) =~= back);
        },
    }
}

proof fn found_behind(s: Seq<char>, pat: Seq<char>, at: int, i: int)
    requires
        0 <= at <= s.len(),
        0 <= i,
    ensures
        find_from(s.skip(at), pat, i) == (match find_from(s, pat, at + i) {
            Some(k) => Some(k - at),
            None => None,
        }),
    decreases s.len() + 1 - at - i,
{
    let t = s.skip(at);
    if i + pat.len() <= t.len() {
        assert(t.subrange(i, i + pat.len()) =~= s.subrange(at + i, at + i + pat.len()));
        if !occurs_at(t, pat, i) {
            found_behind(s, pat, at, i + 1);
        }
    }
}

proof fn replaced_behind(s: Seq<char>, pat: Seq<char>, to: Seq<char>, at: int, i: int)
    requires
        0 <= at <= s.len(),
        0 <= i <= s.len() - at,
        pat.len() > 0,
    ensures
        replaced_from(s.skip(at), pat, to, i) == replaced_from(s, pat, to, at + i),
    decreases s.len() - at - i,
{
    let t = s.skip(at);
    found_behind(s, pat, at, i);
    find_from_iff_contains(s, pat, at + i);
    match find_from(t, pat, i) {
        None => {
            assert(t.skip(i) =~= s.skip(at + i));
        },
        Some(k) => {
            replaced_behind(s, pat, to, at, k + pat.len());
            assert(t.subrange(i, k) =~= s.subrange(at + i, at + k));
        },
    }
}

/// A text is split at the first place at which a character stands.
pub proof fn split_at_a_mark(front: Seq<char>, mark: char, back: Seq<char>)
    requires
        !front.contains(mark),
    ensures
        split_at_first(front + seq![mark] + back, seq![mark]) == Some((front, back)),
{
    let s = front + seq![mark] + back;
    let pat = seq![mark];
    let at = front.len() as int;
    texts_stand_between(front, pat, back, 0);
    find_from_iff_contains(s, pat, 0);
    assert(occurs_at(s, pat, at));
    let k = find_from(s, pat, 0)->0;
    assert(s.subrange(k, k + 1)[0] == s[k]);
    if k < at {
        assert(front[k] == mark);
    }
    assert(k <= at) by {
        if k > at {
            assert(!occurs_at(s, pat, at));
        }
    }
    assert(s.take(at) =~= front);
    assert(s.skip(at + 1) =~= back);
}

/// What the tests and cuts of a text give: its beginning, its end and what is left of it.
pub proof fn beginnings_and_ends<'a>(
    s: &'a str,
    part: &str,
    begins: bool,
    ends: bool,
    rest: Option<&'a str>,
    front: Option<&'a str>,
)
    requires
        call_ensures(starts_with, (s, part), begins),
        call_ensures(ends_with, (s, part), ends),
        call_ensures(strip_prefix, (s, part), rest),
        call_ensures(strip_suffix, (s, part), front),
    ensures
        begins <==> exists|t: Seq<char>| s@ == #[trigger] (part@ + t),
        ends <==> exists|t: Seq<char>| s@ == #[trigger] (t + part@),
        begins <==> rest is Some,
        ends <==> front is Some,
        rest is Some ==> s@ == part@ + rest->0@,
        front is Some ==> s@ == front->0@ + part@,
{
    if begins {
        assert(s@ =~= part@ + s@.skip(part@.len() as int));
    }
    if exists|t: Seq<char>| s@ == #[trigger] (part@ + t) {
        let t = choose|t: Seq<char>| s@ == #[trigger] (part@ + t);
        assert(s@.subrange(0, part@.len() as int) =~= part@);
    }
    if ends {
        assert(s@ =~= s@.take(s@.len() - part@.len()) + part@);
    }
    if exists|t: Seq<char>| s@ == #[trigger] (t + part@) {
        let t = choose|t: Seq<char>| s@ == #[trigger] (t + part@);
        assert(s@.subrange(s@.len() - part@.len(), s@.len() as int) =~= part@);
    }
}

/// Texts are compared by their characters, or without regard to the case of ASCII letters, and
/// joined one after another.
pub proof fn texts_are_compared_and_joined(
    a: &str,
    b: &str,
    c: &str,
    same: bool,
    alike: bool,
    before: bool,
    two: String,
    three: String,
)
    requires
        call_ensures(str_eq, (a, b), same),
        call_ensures(eq_ignore_ascii_case, (a, b), alike),
        call_ensures(text_lt, (a, b), before),
        call_ensures(concat2, (a, b), two),
        call_ensures(concat3, (a, b, c), three),
    ensures
        same <==> a@ == b@,
        alike <==> lowered(a@) == lowered(b@),
        before <==> text_before(a@, b@),
        two@ == a@ + b@,
        three@ == a@ + b@ + c@,
{
}

} // verus!
