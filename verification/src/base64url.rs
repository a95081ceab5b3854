//! Unpadded URL-safe base64.
use vstd::prelude::*;
use vstd::string::*;

use crate::text::chars_of;

verus! {

/// The character for a number below 64.
pub open spec fn sextet_char(v: int) -> char {
    if v < 26 {
        (('A' as u32 + v) as u32) as char
    } else if v < 52 {
        (('a' as u32 + v - 26) as u32) as char
    } else if v < 62 {
        (('0' as u32 + v - 52) as u32) as char
    } else if v == 62 {
        '-'
    } else {
        '_'
    }
}

/// The number that a character stands for.
pub open spec fn sextet_value(c: char) -> Option<int> {
    if 'A' <= c && c <= 'Z' {
        Some(c as u32 - 'A' as u32)
    } else if 'a' <= c && c <= 'z' {
        Some(c as u32 - 'a' as u32 + 26)
    } else if '0' <= c && c <= '9' {
        Some(c as u32 - '0' as u32 + 52)
    } else if c == '-' {
        Some(62)
    } else if c == '_' {
        Some(63)
    } else {
        None
    }
}

/// Three bytes as one number.
pub open spec fn triple(a: u8, b: u8, c: u8) -> int {
    a * 65536 + b * 256 + c
}

/// The four characters that encode three bytes.
#[verifier::opaque]
pub open spec fn group(a: u8, b: u8, c: u8) -> Seq<char> {
    let n = triple(a, b, c);
    seq![
        sextet_char(n / 262144),
        sextet_char(n / 4096 % 64),
        sextet_char(n / 64 % 64),
        sextet_char(n % 64),
    ]
}

/// The text that encodes `bytes`: four characters for three bytes, two or three
/// for what is left over.
pub open spec fn encoded(bytes: Seq<u8>) -> Seq<char>
    decreases bytes.len(),
{
    if bytes.len() == 0 {
        Seq::empty()
    } else if bytes.len() == 1 {
        group(bytes[0], 0, 0).take(2)
    } else if bytes.len() == 2 {
        group(bytes[0], bytes[1], 0).take(3)
    } else {
        group(bytes[0], bytes[1], bytes[2]) + encoded(bytes.skip(3))
    }
}

pub open spec fn all_sextets(s: Seq<char>) -> bool {
    forall|i: int| 0 <= i < s.len() ==> sextet_value(#[trigger] s[i]) is Some
}

/// The number that the first four characters write, absent ones counting as zero.
#[verifier::opaque]
pub open spec fn quad(s: Seq<char>) -> int {
    let v = |i: int|
        if i < s.len() && sextet_value(s[i]) is Some {
            sextet_value(s[i])->0
        } else {
            0
        };
    v(0) * 262144 + v(1) * 4096 + v(2) * 64 + v(3)
}

/// The three bytes of a number.
#[verifier::opaque]
pub open spec fn bytes_of(n: int) -> Seq<u8> {
    seq![(n / 65536) as u8, (n / 256 % 256) as u8, (n % 256) as u8]
}

/// The bytes that a text of base64 characters writes: three for each full group
/// of four characters, one or two for what is left over.
pub open spec fn decoded_bytes(s: Seq<char>) -> Seq<u8>
    decreases s.len(),
{
    if s.len() < 2 {
        Seq::empty()
    } else if s.len() == 2 {
        bytes_of(quad(s)).take(1)
    } else if s.len() == 3 {
        bytes_of(quad(s)).take(2)
    } else {
        bytes_of(quad(s)) + decoded_bytes(s.skip(4))
    }
}

/// What a text decodes to: nothing where it holds another character or has a
/// length that no encoding has.
pub open spec fn decoded(s: Seq<char>) -> Option<Seq<u8>> {
    if s.len() % 4 != 1 && all_sextets(s) {
        Some(decoded_bytes(s))
    } else {
        None
    }
}

fn char_of_sextet(v: u32) -> (r: char)
    requires
        v < 64,
    ensures
        r == sextet_char(v as int),
{
    if v < 26 {
        (65 + v as u8) as char
    } else if v < 52 {
        (97 + (v - 26) as u8) as char
    } else if v < 62 {
        (48 + (v - 52) as u8) as char
    } else if v == 62 {
        '-'
    } else {
        '_'
    }
}

fn value_of_sextet(c: char) -> (r: Option<u32>)
    ensures
        match r {
            Some(v) => sextet_value(c) == Some(v as int) && v < 64,
            None => sextet_value(c) is None,
        },
{
    let u: u32 = c as u32;
    if 65 <= u && u <= 90 {
        Some(u - 65)
    } else if 97 <= u && u <= 122 {
        Some(u - 97 + 26)
    } else if 48 <= u && u <= 57 {
        Some(u - 48 + 52)
    } else if u == 45 {
        Some(62)
    } else if u == 95 {
        Some(63)
    } else {
        None
    }
}

/// Appends the first `k` characters of the group of three bytes.
fn push_group(out: &mut String, a: u8, b: u8, c: u8, k: usize)
    requires
        2 <= k <= 4,
    ensures
        final(out)@ == old(out)@ + group(a, b, c).take(k as int),
{
    let n: u32 = a as u32 * 65536 + b as u32 * 256 + c as u32;
    out.push(char_of_sextet(n / 262144));
    out.push(char_of_sextet(n / 4096 % 64));
    if k >= 3 {
        out.push(char_of_sextet(n / 64 % 64));
    }
    if k >= 4 {
        out.push(char_of_sextet(n % 64));
    }
    proof {
        reveal(group);
        assert(out@ =~= old(out)@ + group(a, b, c).take(k as int));
    }
}

/// Encodes bytes.
pub fn b64url_encode(input: &[u8]) -> (r: String)
    ensures
        r@ == encoded(input@),
{
    let mut out = String::new();
    let mut i: usize = 0;
    proof {
        assert(input@.skip(0) =~= input@);
        assert(out@ + encoded(input@) =~= encoded(input@));
    }
    while input.len() - i >= 3
        invariant
            i <= input@.len(),
            out@ + encoded(input@.skip(i as int)) == encoded(input@),
        decreases input@.len() - i,
    {
        let ghost rest = input@.skip(i as int);
        let ghost out0 = out@;
        push_group(&mut out, input[i], input[i + 1], input[i + 2], 4);
        i += 3;
        proof {
            let g = group(rest[0], rest[1], rest[2]);
            assert(g.len() == 4) by {
                reveal(group);
            }
            assert(g.take(4) =~= g);
            assert(encoded(rest) == g + encoded(rest.skip(3)));
            assert(rest.skip(3) =~= input@.skip(i as int));
            assert(out0 + g + encoded(rest.skip(3)) =~= out0 + (g + encoded(rest.skip(3))));
        }
    }
    let left: usize = input.len() - i;
    let ghost rest = input@.skip(i as int);
    let ghost out0 = out@;
    if left == 1 {
        push_group(&mut out, input[i], 0, 0, 2);
        proof {
            assert(encoded(rest) =~= group(rest[0], 0, 0).take(2));
        }
    } else if left == 2 {
        push_group(&mut out, input[i], input[i + 1], 0, 3);
        proof {
            assert(encoded(rest) =~= group(rest[0], rest[1], 0).take(3));
        }
    } else {
        proof {
            assert(encoded(rest) =~= Seq::empty());
            assert(out@ + encoded(rest) =~= out@);
        }
    }
    out
}

/// The value of the character `k` places after `i`, zero past the end.
fn sextet_at(cs: &Vec<char>, i: usize, k: usize) -> (r: Option<u32>)
    requires
        i <= cs@.len(),
    ensures
        i + k >= cs@.len() ==> r == Some(0u32),
        i + k < cs@.len() ==> match r {
            Some(v) => sextet_value(cs@[i + k]) == Some(v as int),
            None => sextet_value(cs@[i + k]) is None,
        },
        r is Some ==> r->0 < 64,
{
    if k < cs.len() - i {
        value_of_sextet(cs[i + k])
    } else {
        Some(0)
    }
}

/// The number that the group at place `i` writes.
fn quad_at(cs: &Vec<char>, i: usize) -> (r: Option<u32>)
    requires
        i < cs@.len(),
    ensures
        match r {
            Some(n) => n == quad(cs@.skip(i as int)) && n < 16777216 && (forall|j: int|
                i <= j < i + 4 && j < cs@.len() ==> sextet_value(#[trigger] cs@[j]) is Some),
            None => exists|j: int|
                i <= j < i + 4 && j < cs@.len() && sextet_value(#[trigger] cs@[j]) is None,
        },
{
    let ghost rest = cs@.skip(i as int);
    let a = sextet_at(cs, i, 0);
    let b = sextet_at(cs, i, 1);
    let c = sextet_at(cs, i, 2);
    let d = sextet_at(cs, i, 3);
    match (a, b, c, d) {
        (Some(a), Some(b), Some(c), Some(d)) => {
            proof {
                reveal(quad);
                assert(rest[0] == cs@[i as int]);
                assert(i + 1 < cs@.len() ==> rest[1] == cs@[i + 1]);
                assert(i + 2 < cs@.len() ==> rest[2] == cs@[i + 2]);
                assert(i + 3 < cs@.len() ==> rest[3] == cs@[i + 3]);
            }
            Some(a * 262144 + b * 4096 + c * 64 + d)
        },
        _ => {
            proof {
                if a is None {
                    assert(sextet_value(cs@[i as int]) is None);
                } else if b is None {
                    assert(sextet_value(cs@[i + 1]) is None);
                } else if c is None {
                    assert(sextet_value(cs@[i + 2]) is None);
                } else {
                    assert(sextet_value(cs@[i + 3]) is None);
                }
            }
            None
        },
    }
}

/// Appends the first `k` bytes of a number.
fn push_bytes(out: &mut Vec<u8>, n: u32, k: usize)
    requires
        n < 16777216,
        1 <= k <= 3,
    ensures
        final(out)@ == old(out)@ + bytes_of(n as int).take(k as int),
{
    out.push((n / 65536) as u8);
    if k >= 2 {
        out.push((n / 256 % 256) as u8);
    }
    if k >= 3 {
        out.push((n % 256) as u8);
    }
    proof {
        reveal(bytes_of);
        assert(out@ =~= old(out)@ + bytes_of(n as int).take(k as int));
    }
}

/// Decodes a text; an error where it is no encoding.
pub fn b64url_decode(input: &str) -> (r: Result<Vec<u8>, ()>)
    ensures
        match r {
            Ok(bytes) => decoded(input@) == Some(bytes@),
            Err(_) => decoded(input@) is None,
        },
{
    let cs = chars_of(input);
    let len: usize = cs.len();
    if len % 4 == 1 {
        return Err(());
    }
    let mut out: Vec<u8> = Vec::new();
    let mut i: usize = 0;
    proof {
        assert(cs@.skip(0) =~= cs@);
        assert(out@ + decoded_bytes(cs@) =~= decoded_bytes(cs@));
    }
    while i < len
        invariant
            len == cs@.len(),
            len % 4 != 1,
            cs@ == input@,
            i <= len,
            i % 4 == 0 || i == len,
            forall|j: int| 0 <= j < i ==> sextet_value(#[trigger] cs@[j]) is Some,
            out@ + decoded_bytes(cs@.skip(i as int)) == decoded_bytes(cs@),
        decreases len - i,
    {
        let ghost rest = cs@.skip(i as int);
        let ghost out0 = out@;
        let n: u32 = match quad_at(&cs, i) {
            Some(n) => n,
            None => {
                return Err(());
            },
        };
        let remain: usize = len - i;
        let ghost b = bytes_of(quad(rest));
        if remain >= 4 {
            push_bytes(&mut out, n, 3);
            i += 4;
            proof {
                assert(b.len() == 3) by {
                    reveal(bytes_of);
                }
                assert(b.take(3) =~= b);
                assert(rest.skip(4) =~= cs@.skip(i as int));
                assert(out0 + b + decoded_bytes(rest.skip(4)) =~= out0 + (b + decoded_bytes(
                    rest.skip(4),
                )));
            }
        } else {
            push_bytes(&mut out, n, remain - 1);
            i = len;
            proof {
                assert(cs@.skip(i as int) =~= Seq::<char>::empty());
                assert(out@ + decoded_bytes(cs@.skip(i as int)) =~= out@);
                assert(decoded_bytes(rest) == b.take(remain - 1));
            }
        }
    }
    proof {
        assert(cs@.skip(i as int) =~= Seq::<char>::empty());
        assert(out@ + decoded_bytes(cs@.skip(i as int)) =~= out@);
    }
    Ok(out)
}

// ---------------------------------------------------------------------------
// Laws
// ---------------------------------------------------------------------------

proof fn sextet_char_value(v: int)
    requires
        0 <= v < 64,
    ensures
        sextet_value(sextet_char(v)) == Some(v),
{
}

proof fn group_sextets(a: u8, b: u8, c: u8)
    ensures
        group(a, b, c).len() == 4,
        all_sextets(group(a, b, c)),
{
    reveal(group);
    let n = triple(a, b, c);
    sextet_char_value(n / 262144);
    sextet_char_value(n / 4096 % 64);
    sextet_char_value(n / 64 % 64);
    sextet_char_value(n % 64);
}

proof fn encoded_shape(bytes: Seq<u8>)
    ensures
        all_sextets(encoded(bytes)),
        encoded(bytes).len() % 4 != 1,
    decreases bytes.len(),
{
    if bytes.len() >= 3 {
        encoded_shape(bytes.skip(3));
        let g = group(bytes[0], bytes[1], bytes[2]);
        let tail = encoded(bytes.skip(3));
        group_sextets(bytes[0], bytes[1], bytes[2]);
        let e = encoded(bytes);
        assert forall|i: int| 0 <= i < e.len() implies sextet_value(#[trigger] e[i]) is Some by {
            if i >= 4 {
                assert(e[i] == tail[i - 4]);
            } else {
                assert(e[i] == g[i]);
            }
        }
    } else if bytes.len() == 2 {
        group_sextets(bytes[0], bytes[1], 0);
    } else if bytes.len() == 1 {
        group_sextets(bytes[0], 0, 0);
    }
}

proof fn sextets_sum(n: int)
    requires
        0 <= n < 16777216,
    ensures
        n == n / 262144 * 262144 + n / 4096 % 64 * 4096 + n / 64 % 64 * 64 + n % 64,
        0 <= n / 262144 < 64,
        n % 4096 == 0 ==> n / 64 % 64 == 0 && n % 64 == 0,
{
}

/// A group, or as much of one as its bytes need, writes the number of its bytes.
proof fn quad_of_group(a: u8, b: u8, c: u8, k: int, s: Seq<char>)
    requires
        2 <= k <= 4,
        k == 2 ==> b == 0 && c == 0,
        k == 3 ==> c == 0,
        s.len() >= k,
        s.len() == k || k == 4,
        s.take(k) == group(a, b, c).take(k),
    ensures
        quad(s) == triple(a, b, c),
{
    let n = triple(a, b, c);
    let g = group(a, b, c);
    let (n0, n1, n2, n3) = (n / 262144, n / 4096 % 64, n / 64 % 64, n % 64);
    sextets_sum(n);
    assert(k == 2 ==> n % 4096 == 0);
    assert(k == 3 ==> n % 64 == 0);
    assert(g =~= seq![sextet_char(n0), sextet_char(n1), sextet_char(n2), sextet_char(n3)]) by {
        reveal(group);
    }
    sextet_char_value(n0);
    sextet_char_value(n1);
    sextet_char_value(n2);
    sextet_char_value(n3);
    assert(s.take(k)[0] == s[0] && g.take(k)[0] == g[0]);
    assert(s.take(k)[1] == s[1] && g.take(k)[1] == g[1]);
    if k >= 3 {
        assert(s.take(k)[2] == s[2] && g.take(k)[2] == g[2]);
    }
    if k >= 4 {
        assert(s.take(k)[3] == s[3] && g.take(k)[3] == g[3]);
    }
    quad_value(s, n0, n1, n2, n3, k);
}

proof fn quad_value(s: Seq<char>, n0: int, n1: int, n2: int, n3: int, k: int)
    requires
        2 <= k <= 4,
        s.len() >= k,
        s.len() == k || k == 4,
        sextet_value(s[0]) == Some(n0),
        sextet_value(s[1]) == Some(n1),
        if k >= 3 { sextet_value(s[2]) == Some(n2) } else { n2 == 0 },
        if k >= 4 { sextet_value(s[3]) == Some(n3) } else { n3 == 0 },
    ensures
        quad(s) == n0 * 262144 + n1 * 4096 + n2 * 64 + n3,
{
    reveal(quad);
}

proof fn bytes_of_triple(a: u8, b: u8, c: u8)
    ensures
        bytes_of(triple(a, b, c)) =~= seq![a, b, c],
{
    reveal(bytes_of);
}

/// Decoding gives back what was encoded.
pub proof fn decoded_encoded(bytes: Seq<u8>)
    ensures
        decoded(encoded(bytes)) == Some(bytes),
{
    encoded_shape(bytes);
    decoded_bytes_encoded(bytes);
}

proof fn decoded_bytes_encoded(bytes: Seq<u8>)
    ensures
        decoded_bytes(encoded(bytes)) == bytes,
    decreases bytes.len(),
{
    let e = encoded(bytes);
    if bytes.len() == 0 {
        assert(decoded_bytes(e) =~= bytes);
    } else if bytes.len() == 1 {
        group_sextets(bytes[0], 0, 0);
        assert(e.take(2) =~= e);
        quad_of_group(bytes[0], 0, 0, 2, e);
        bytes_of_triple(bytes[0], 0, 0);
        assert(decoded_bytes(e) =~= bytes);
    } else if bytes.len() == 2 {
        group_sextets(bytes[0], bytes[1], 0);
        assert(e.take(3) =~= e);
        quad_of_group(bytes[0], bytes[1], 0, 3, e);
        bytes_of_triple(bytes[0], bytes[1], 0);
        assert(decoded_bytes(e) =~= bytes);
    } else {
        let g = group(bytes[0], bytes[1], bytes[2]);
        group_sextets(bytes[0], bytes[1], bytes[2]);
        assert(e.take(4) =~= g.take(4));
        quad_of_group(bytes[0], bytes[1], bytes[2], 4, e);
        bytes_of_triple(bytes[0], bytes[1], bytes[2]);
        decoded_bytes_encoded(bytes.skip(3));
        assert(e.skip(4) =~= encoded(bytes.skip(3)));
        assert(bytes =~= seq![bytes[0], bytes[1], bytes[2]] + bytes.skip(3));
    }
}

/// What is encoded is ASCII letters, digits, `-` and `_`, four for three bytes and no
/// padding.
pub proof fn encodings_are_url_safe(bytes: Seq<u8>)
    ensures
        forall|i: int|
            #![trigger encoded(bytes)[i]]
            0 <= i < encoded(bytes).len() ==> {
                let c = encoded(bytes)[i];
                ('A' <= c && c <= 'Z') || ('a' <= c && c <= 'z') || ('0' <= c && c <= '9') || c
                    == '-' || c == '_'
            },
        encoded(bytes).len() == (bytes.len() * 4 + 2) / 3,
    decreases bytes.len(),
{
    encoded_shape(bytes);
    if bytes.len() >= 3 {
        encodings_are_url_safe(bytes.skip(3));
        group_sextets(bytes[0], bytes[1], bytes[2]);
        let n = bytes.len() as int;
        assert(encoded(bytes).len() == 4 + ((n - 3) * 4 + 2) / 3);
    } else if bytes.len() == 2 {
        group_sextets(bytes[0], bytes[1], 0);
        assert(encoded(bytes).len() == 3);
    } else if bytes.len() == 1 {
        group_sextets(bytes[0], 0, 0);
        assert(encoded(bytes).len() == 2);
    }
}

/// The 64 characters stand for 0 to 63: capitals, small letters, digits, `-`, `_`.
pub proof fn characters_stand_for_six_bits(v: int, c: char)
    requires
        0 <= v < 64,
    ensures
        v < 26 ==> sextet_char(v) as u32 == 'A' as u32 + v,
        26 <= v < 52 ==> sextet_char(v) as u32 == 'a' as u32 + v - 26,
        52 <= v < 62 ==> sextet_char(v) as u32 == '0' as u32 + v - 52,
        v == 62 ==> sextet_char(v) == '-',
        v == 63 ==> sextet_char(v) == '_',
        sextet_value(c) is Some <==> ('A' <= c && c <= 'Z') || ('a' <= c && c <= 'z') || ('0' <= c && c
            <= '9') || c == '-' || c == '_',
{
}

proof fn group_has_four(a: u8, b: u8, c: u8)
    ensures
        group(a, b, c).len() == 4,
        group(a, b, c)[0] == sextet_char(triple(a, b, c) / 262144),
        group(a, b, c)[1] == sextet_char(triple(a, b, c) / 4096 % 64),
        group(a, b, c)[2] == sextet_char(triple(a, b, c) / 64 % 64),
        group(a, b, c)[3] == sextet_char(triple(a, b, c) % 64),
{
    reveal(group);
}

/// Three bytes are four characters, the first six bits first.
pub proof fn three_bytes_are_four_characters(a: u8, b: u8, c: u8, rest: Seq<u8>)
    ensures
        encoded(seq![a, b, c] + rest) == seq![
            sextet_char(a as int / 4),
            sextet_char(a as int % 4 * 16 + b as int / 16),
            sextet_char(b as int % 16 * 4 + c as int / 64),
            sextet_char(c as int % 64),
        ] + encoded(rest),
{
    let all = seq![a, b, c] + rest;
    assert(all.skip(3) =~= rest);
    let n = triple(a, b, c);
    let x = a as int;
    let y = b as int;
    let z = c as int;
    vstd::arithmetic::div_mod::lemma_fundamental_div_mod_converse(
        n,
        262144,
        x / 4,
        x % 4 * 65536 + y * 256 + z,
    );
    vstd::arithmetic::div_mod::lemma_fundamental_div_mod_converse(
        n,
        4096,
        x * 16 + y / 16,
        y % 16 * 256 + z,
    );
    vstd::arithmetic::div_mod::lemma_fundamental_div_mod_converse(
        x * 16 + y / 16,
        64,
        x / 4,
        x % 4 * 16 + y / 16,
    );
    vstd::arithmetic::div_mod::lemma_fundamental_div_mod_converse(
        n,
        64,
        x * 1024 + y * 4 + z / 64,
        z % 64,
    );
    vstd::arithmetic::div_mod::lemma_fundamental_div_mod_converse(
        x * 1024 + y * 4 + z / 64,
        64,
        x * 16 + y / 16,
        y % 16 * 4 + z / 64,
    );
    assert(all[0] == a && all[1] == b && all[2] == c);
    assert(n == x * 65536 + y * 256 + z);
    assert(n / 262144 == x / 4);
    assert(n / 4096 % 64 == x % 4 * 16 + y / 16);
    assert(n / 64 % 64 == y % 16 * 4 + z / 64);
    assert(n % 64 == z % 64);
    let g = group(a, b, c);
    group_has_four(a, b, c);
    assert(g =~= seq![
        sextet_char(x / 4),
        sextet_char(x % 4 * 16 + y / 16),
        sextet_char(y % 16 * 4 + z / 64),
        sextet_char(z % 64),
    ]);
}

} // verus!
