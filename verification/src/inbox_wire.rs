//! The JSON of an inbox cursor: an object with five members, or their list.
//!
//! Members may come in any order, each once; members of other names are passed over.
use vstd::prelude::*;
use vstd::slice::slice_subrange;
use vstd::string::*;
use vstd::utf8::encode_utf8;

use crate::json::{first_end, first_integer, first_text, first_texts, json_list, json_quoted, plain,
    read_first_integer, read_first_text, read_first_texts, skip_first};
use crate::text::{integer_text, opt_text, str_eq, texts};

verus! {

/// The members of a cursor object.
pub struct CursorWire {
    pub v: u8,
    pub p: String,
    pub b: String,
    pub w: i64,
    pub i: Vec<String>,
}

/// The members as values.
pub open spec fn members_of(wire: Option<CursorWire>) -> Option<
    (u8, Seq<char>, Seq<char>, i64, Seq<Seq<char>>),
> {
    match wire {
        Some(m) => Some((m.v, m.p@, m.b@, m.w, texts(m.i@))),
        None => None,
    }
}

/// The JSON object of a cursor.
pub open spec fn wire_json(
    profile: Seq<char>,
    bot: Seq<char>,
    watermark: i64,
    ids: Seq<Seq<char>>,
) -> Seq<char> {
    "{\"v\":1,\"p\":"@ + json_quoted(profile) + ",\"b\":"@ + json_quoted(bot) + ",\"w\":"@
        + integer_text(watermark as int) + ",\"i\":"@ + json_list(ids) + "}"@
}

// ---------------------------------------------------------------------------
// Marks and values
// ---------------------------------------------------------------------------

/// `,`
pub const COMMA: u8 = 0x2c;

/// `:`
pub const COLON: u8 = 0x3a;

/// `{`
pub const OBJECT_OPENS: u8 = 0x7b;

/// `}`
pub const OBJECT_ENDS: u8 = 0x7d;

/// `[`
pub const LIST_OPENS: u8 = 0x5b;

/// `]`
pub const LIST_ENDS: u8 = 0x5d;

/// A byte of space between values.
pub open spec fn is_space(b: u8) -> bool {
    b == 0x20 || b == 0x0a || b == 0x09 || b == 0x0d
}

/// The bytes behind leading space.
pub open spec fn unspaced(s: Seq<u8>) -> Seq<u8>
    decreases s.len(),
{
    if s.len() > 0 && is_space(s[0]) {
        unspaced(s.skip(1))
    } else {
        s
    }
}

/// The bytes behind a mark that stands first, after space.
pub open spec fn past(s: Seq<u8>, mark: u8) -> Option<Seq<u8>> {
    let u = unspaced(s);
    if u.len() > 0 && u[0] == mark {
        Some(u.skip(1))
    } else {
        None
    }
}

/// The bytes behind the first `n`, where there are so many.
pub open spec fn behind(s: Seq<u8>, n: nat) -> Option<Seq<u8>> {
    if 0 < n <= s.len() {
        Some(s.skip(n as int))
    } else {
        None
    }
}

/// The string that stands first, and what follows.
pub open spec fn text_in(s: Seq<u8>) -> Option<(Seq<char>, Seq<u8>)> {
    match first_text(s) {
        Some((t, n)) => match behind(s, n) {
            Some(rest) => Some((t, rest)),
            None => None,
        },
        None => None,
    }
}

/// The integer that stands first, and what follows.
pub open spec fn integer_in(s: Seq<u8>) -> Option<(i64, Seq<u8>)> {
    match first_integer(s) {
        Some((i, n)) => match behind(s, n) {
            Some(rest) => Some((i, rest)),
            None => None,
        },
        None => None,
    }
}

/// The integer of one byte that stands first, and what follows.
pub open spec fn octet_in(s: Seq<u8>) -> Option<(u8, Seq<u8>)> {
    match integer_in(s) {
        Some((i, rest)) => if 0 <= i <= 255 {
            Some((i as u8, rest))
        } else {
            None
        },
        None => None,
    }
}

/// The list of strings that stands first, and what follows.
pub open spec fn texts_in(s: Seq<u8>) -> Option<(Seq<Seq<char>>, Seq<u8>)> {
    match first_texts(s) {
        Some((t, n)) => match behind(s, n) {
            Some(rest) => Some((t, rest)),
            None => None,
        },
        None => None,
    }
}

/// What follows the value that stands first.
pub open spec fn any_in(s: Seq<u8>) -> Option<Seq<u8>> {
    match first_end(s) {
        Some(n) => behind(s, n),
        None => None,
    }
}

/// The name of a member, and what follows its colon.
pub open spec fn name_in(s: Seq<u8>) -> Option<(Seq<char>, Seq<u8>)> {
    match text_in(s) {
        Some((name, rest)) => match past(rest, COLON) {
            Some(value) => Some((name, value)),
            None => None,
        },
        None => None,
    }
}

proof fn unspaced_is_shorter(s: Seq<u8>)
    ensures
        unspaced(s).len() <= s.len(),
    decreases s.len(),
{
    if s.len() > 0 && is_space(s[0]) {
        unspaced_is_shorter(s.skip(1));
    }
}

// ---------------------------------------------------------------------------
// The object
// ---------------------------------------------------------------------------

/// The members that were found so far.
#[verifier::ext_equal]
pub struct Members {
    pub v: Option<u8>,
    pub p: Option<Seq<char>>,
    pub b: Option<Seq<char>>,
    pub w: Option<i64>,
    pub i: Option<Seq<Seq<char>>>,
}

/// No member.
pub open spec fn no_members() -> Members {
    Members { v: None, p: None, b: None, w: None, i: None }
}

/// The members with one more, whose value stands first, and what follows. Nothing where
/// the member is there already or its value is of another type.
pub open spec fn with_member(got: Members, name: Seq<char>, value: Seq<u8>) -> Option<
    (Members, Seq<u8>),
> {
    if name == "v"@ {
        match octet_in(value) {
            Some((v, rest)) if got.v is None => Some((Members { v: Some(v), ..got }, rest)),
            _ => None,
        }
    } else if name == "p"@ {
        match text_in(value) {
            Some((p, rest)) if got.p is None => Some((Members { p: Some(p), ..got }, rest)),
            _ => None,
        }
    } else if name == "b"@ {
        match text_in(value) {
            Some((b, rest)) if got.b is None => Some((Members { b: Some(b), ..got }, rest)),
            _ => None,
        }
    } else if name == "w"@ {
        match integer_in(value) {
            Some((w, rest)) if got.w is None => Some((Members { w: Some(w), ..got }, rest)),
            _ => None,
        }
    } else if name == "i"@ {
        match texts_in(value) {
            Some((i, rest)) if got.i is None => Some((Members { i: Some(i), ..got }, rest)),
            _ => None,
        }
    } else {
        match any_in(value) {
            Some(rest) => Some((got, rest)),
            None => None,
        }
    }
}

/// The members with the one that stands first, and what follows.
pub open spec fn member_in(got: Members, s: Seq<u8>) -> Option<(Members, Seq<u8>)> {
    match name_in(s) {
        Some((name, value)) => with_member(got, name, value),
        None => None,
    }
}

proof fn member_is_shorter(got: Members, s: Seq<u8>)
    ensures
        member_in(got, s) matches Some((_, rest)) ==> rest.len() < s.len(),
{
    match text_in(s) {
        Some((_, rest)) => {
            unspaced_is_shorter(rest);
        },
        None => {},
    }
}

/// The members up to the end of an object, and what follows it. `first` holds before the
/// first member.
pub open spec fn members_in(got: Members, first: bool, s: Seq<u8>) -> Option<(Members, Seq<u8>)>
    decreases s.len(),
    via members_in_ends
{
    match past(s, OBJECT_ENDS) {
        Some(rest) => Some((got, rest)),
        None => {
            let at = if first {
                Some(s)
            } else {
                past(s, COMMA)
            };
            match at {
                Some(member) => match member_in(got, member) {
                    Some((more, rest)) => members_in(more, false, rest),
                    None => None,
                },
                None => None,
            }
        },
    }
}

#[via_fn]
proof fn members_in_ends(got: Members, first: bool, s: Seq<u8>) {
    unspaced_is_shorter(s);
    member_is_shorter(got, s);
    match past(s, COMMA) {
        Some(member) => {
            member_is_shorter(got, member);
        },
        None => {},
    }
}

// ---------------------------------------------------------------------------
// The list
// ---------------------------------------------------------------------------

/// The string behind a comma, and what follows.
pub open spec fn next_text(s: Seq<u8>) -> Option<(Seq<char>, Seq<u8>)> {
    match past(s, COMMA) {
        Some(at) => text_in(at),
        None => None,
    }
}

/// The integer behind a comma, and what follows.
pub open spec fn next_integer(s: Seq<u8>) -> Option<(i64, Seq<u8>)> {
    match past(s, COMMA) {
        Some(at) => integer_in(at),
        None => None,
    }
}

/// The list of strings behind a comma, and what follows.
pub open spec fn next_texts(s: Seq<u8>) -> Option<(Seq<Seq<char>>, Seq<u8>)> {
    match past(s, COMMA) {
        Some(at) => texts_in(at),
        None => None,
    }
}

/// The five values up to the end of a list, and what follows it.
pub open spec fn elements_in(s: Seq<u8>) -> Option<(Members, Seq<u8>)> {
    match octet_in(s) {
        None => None,
        Some((v, s)) => match next_text(s) {
            None => None,
            Some((p, s)) => match next_text(s) {
                None => None,
                Some((b, s)) => match next_integer(s) {
                    None => None,
                    Some((w, s)) => match next_texts(s) {
                        None => None,
                        Some((i, s)) => match past(s, LIST_ENDS) {
                            None => None,
                            Some(rest) => Some(
                                (
                                    Members {
                                        v: Some(v),
                                        p: Some(p),
                                        b: Some(b),
                                        w: Some(w),
                                        i: Some(i),
                                    },
                                    rest,
                                ),
                            ),
                        },
                    },
                },
            },
        },
    }
}

/// All members, where all were found and nothing follows.
pub open spec fn complete(found: Option<(Members, Seq<u8>)>) -> Option<
    (u8, Seq<char>, Seq<char>, i64, Seq<Seq<char>>),
> {
    match found {
        Some((m, rest)) => if unspaced(rest).len() == 0 && m.v is Some && m.p is Some && m.b is Some
            && m.w is Some && m.i is Some {
            Some((m.v->0, m.p->0, m.b->0, m.w->0, m.i->0))
        } else {
            None
        },
        None => None,
    }
}

/// The members that a JSON text gives a cursor.
pub open spec fn wire_members(bytes: Seq<u8>) -> Option<
    (u8, Seq<char>, Seq<char>, i64, Seq<Seq<char>>),
> {
    match past(bytes, OBJECT_OPENS) {
        Some(rest) => complete(members_in(no_members(), true, rest)),
        None => match past(bytes, LIST_OPENS) {
            Some(rest) => complete(elements_in(rest)),
            None => None,
        },
    }
}

// ---------------------------------------------------------------------------
// What a cursor is written as
// ---------------------------------------------------------------------------

proof fn encoding_splits(a: Seq<char>, b: Seq<char>)
    ensures
        encode_utf8(a + b) == encode_utf8(a) + encode_utf8(b),
    decreases a.len(),
{
    if a.len() == 0 {
        assert(a + b =~= b);
        assert(encode_utf8(a) + encode_utf8(b) =~= encode_utf8(b));
    } else {
        assert((a + b).drop_first() =~= a.drop_first() + b);
        encoding_splits(a.drop_first(), b);
        assert(encode_utf8(a + b) =~= encode_utf8(a) + encode_utf8(b));
    }
}

/// A text that begins with a mark of one byte begins with that byte.
proof fn mark_comes_first(s: Seq<char>, mark: u8)
    requires
        s.len() > 0,
        s[0] == mark as char,
        0x20 < mark < 0x80,
    ensures
        past(encode_utf8(s), mark) == Some(encode_utf8(s.drop_first())),
        encode_utf8(s).len() > 0,
        encode_utf8(s)[0] == mark,
{
    let one = seq![s[0]];
    vstd::utf8::is_ascii_chars_encode_utf8(one);
    encoding_splits(one, s.drop_first());
    assert(one + s.drop_first() =~= s);
    assert(encode_utf8(s).skip(1) =~= encode_utf8(s.drop_first()));
}

proof fn tail_of(a: Seq<u8>, tail: Seq<u8>)
    ensures
        (a + tail).skip(a.len() as int) == tail,
{
    assert((a + tail).skip(a.len() as int) =~= tail);
}

/// The names of the members are five, and JSON shows them as they stand.
proof fn names_of_members()
    ensures
        plain("v"@) && plain("p"@) && plain("b"@) && plain("w"@) && plain("i"@),
        "v"@ != "p"@ && "v"@ != "b"@ && "v"@ != "w"@ && "v"@ != "i"@,
        "p"@ != "b"@ && "p"@ != "w"@ && "p"@ != "i"@,
        "b"@ != "w"@ && "b"@ != "i"@,
        "w"@ != "i"@,
{
    reveal_strlit("v");
    reveal_strlit("p");
    reveal_strlit("b");
    reveal_strlit("w");
    reveal_strlit("i");
    assert("v"@[0] == 'v' && "p"@[0] == 'p' && "b"@[0] == 'b' && "w"@[0] == 'w' && "i"@[0] == 'i');
}

/// What is left of the members of a cursor object where `k` of them were read.
pub open spec fn left(
    k: int,
    p: Seq<char>,
    b: Seq<char>,
    w: i64,
    ids: Seq<Seq<char>>,
) -> Seq<char> {
    let i_left = ",\"i\":"@ + json_list(ids) + "}"@;
    let w_left = ",\"w\":"@ + integer_text(w as int) + i_left;
    let b_left = ",\"b\":"@ + json_quoted(b) + w_left;
    let p_left = ",\"p\":"@ + json_quoted(p) + b_left;
    if k == 0 {
        "\"v\":1"@ + p_left
    } else if k == 1 {
        p_left
    } else if k == 2 {
        b_left
    } else if k == 3 {
        w_left
    } else if k == 4 {
        i_left
    } else {
        "}"@
    }
}

/// The same without the comma before the next member.
pub open spec fn member_left(
    k: int,
    p: Seq<char>,
    b: Seq<char>,
    w: i64,
    ids: Seq<Seq<char>>,
) -> Seq<char> {
    if k == 0 {
        left(0, p, b, w, ids)
    } else {
        left(k, p, b, w, ids).drop_first()
    }
}

/// The first `k` members of a cursor object.
pub open spec fn first_members(
    k: int,
    p: Seq<char>,
    b: Seq<char>,
    w: i64,
    ids: Seq<Seq<char>>,
) -> Members {
    Members {
        v: if k > 0 {
            Some(1u8)
        } else {
            None
        },
        p: if k > 1 {
            Some(p)
        } else {
            None
        },
        b: if k > 2 {
            Some(b)
        } else {
            None
        },
        w: if k > 3 {
            Some(w)
        } else {
            None
        },
        i: if k > 4 {
            Some(ids)
        } else {
            None
        },
    }
}

/// The name of the member after the first `k`.
spec fn name_at(k: int) -> Seq<char> {
    if k == 0 {
        "v"@
    } else if k == 1 {
        "p"@
    } else if k == 2 {
        "b"@
    } else if k == 3 {
        "w"@
    } else {
        "i"@
    }
}

/// The value of the member after the first `k`.
spec fn value_at(
    k: int,
    p: Seq<char>,
    b: Seq<char>,
    w: i64,
    ids: Seq<Seq<char>>,
) -> Seq<char> {
    if k == 0 {
        integer_text(1)
    } else if k == 1 {
        json_quoted(p)
    } else if k == 2 {
        json_quoted(b)
    } else if k == 3 {
        integer_text(w as int)
    } else {
        json_list(ids)
    }
}

proof fn member_shape(k: int, p: Seq<char>, b: Seq<char>, w: i64, ids: Seq<Seq<char>>)
    requires
        0 <= k < 5,
    ensures
        member_left(k, p, b, w, ids) == "\""@ + name_at(k) + "\":"@ + (value_at(k, p, b, w, ids)
            + left(k + 1, p, b, w, ids)),
        left(k + 1, p, b, w, ids).len() > 0,
        left(k + 1, p, b, w, ids)[0] == (if k < 4 {
            ','
        } else {
            '}'
        }),
{
    reveal_strlit("v");
    reveal_strlit("p");
    reveal_strlit("b");
    reveal_strlit("w");
    reveal_strlit("i");
    reveal_strlit("\"");
    reveal_strlit("\":");
    reveal_strlit("\"v\":1");
    reveal_strlit(",\"p\":");
    reveal_strlit(",\"b\":");
    reveal_strlit(",\"w\":");
    reveal_strlit(",\"i\":");
    reveal_strlit("}");
    assert(integer_text(1) =~= seq!['1']);
    assert(member_left(k, p, b, w, ids) =~= "\""@ + name_at(k) + "\":"@ + (value_at(
        k,
        p,
        b,
        w,
        ids,
    ) + left(k + 1, p, b, w, ids)));
}

/// What is left begins with the mark that ends the object or comes before a member.
proof fn left_begins(k: int, p: Seq<char>, b: Seq<char>, w: i64, ids: Seq<Seq<char>>)
    requires
        0 <= k <= 5,
    ensures
        past(encode_utf8(left(k, p, b, w, ids)), OBJECT_ENDS) == (if k == 5 {
            Some(Seq::<u8>::empty())
        } else {
            None
        }),
        1 <= k < 5 ==> past(encode_utf8(left(k, p, b, w, ids)), COMMA) == Some(
            encode_utf8(member_left(k, p, b, w, ids)),
        ),
{
    reveal_strlit("\"v\":1");
    reveal_strlit("}");
    let s = left(k, p, b, w, ids);
    if k == 0 {
        mark_comes_first(s, 0x22);
    } else if k < 5 {
        member_shape(k - 1, p, b, w, ids);
        mark_comes_first(s, COMMA);
    } else {
        mark_comes_first(s, OBJECT_ENDS);
        assert(s.drop_first() =~= Seq::empty());
        assert(encode_utf8(s.drop_first()) =~= Seq::empty());
    }
}

/// A cursor object is a mark and its members.
proof fn object_shape(p: Seq<char>, b: Seq<char>, w: i64, ids: Seq<Seq<char>>)
    ensures
        past(encode_utf8(wire_json(p, b, w, ids)), OBJECT_OPENS) == Some(
            encode_utf8(left(0, p, b, w, ids)),
        ),
{
    reveal_strlit("{\"v\":1,\"p\":");
    reveal_strlit("\"v\":1");
    reveal_strlit(",\"p\":");
    let s = wire_json(p, b, w, ids);
    mark_comes_first(s, OBJECT_OPENS);
    assert(s.drop_first() =~= left(0, p, b, w, ids));
}

// ---------------------------------------------------------------------------
// Reading
// ---------------------------------------------------------------------------

/// What follows a mark that stands first, after space.
fn skip_mark(bytes: &[u8], mark: u8) -> (r: Option<&[u8]>)
    requires
        !is_space(mark),
    ensures
        match r {
            Some(rest) => past(bytes@, mark) == Some(rest@),
            None => past(bytes@, mark) is None,
        },
{
    let mut i: usize = 0;
    proof {
        assert(bytes@.skip(0) =~= bytes@);
    }
    while i < bytes.len()
        invariant
            !is_space(mark),
            i <= bytes@.len(),
            unspaced(bytes@) == unspaced(bytes@.skip(i as int)),
        decreases bytes@.len() - i,
    {
        let b: u8 = bytes[i];
        if b == mark {
            let rest = slice_subrange(bytes, i + 1, bytes.len());
            proof {
                assert(rest@ =~= bytes@.skip(i as int).skip(1));
            }
            return Some(rest);
        }
        if !(b == 0x20 || b == 0x0a || b == 0x09 || b == 0x0d) {
            return None;
        }
        i += 1;
        proof {
            assert(bytes@.skip(i as int) =~= bytes@.skip(i - 1).skip(1));
        }
    }
    None
}

/// Whether only space is left.
fn is_blank(bytes: &[u8]) -> (r: bool)
    ensures
        r == (unspaced(bytes@).len() == 0),
{
    let mut i: usize = 0;
    proof {
        assert(bytes@.skip(0) =~= bytes@);
    }
    while i < bytes.len()
        invariant
            i <= bytes@.len(),
            unspaced(bytes@) == unspaced(bytes@.skip(i as int)),
        decreases bytes@.len() - i,
    {
        let b: u8 = bytes[i];
        if !(b == 0x20 || b == 0x0a || b == 0x09 || b == 0x0d) {
            return false;
        }
        i += 1;
        proof {
            assert(bytes@.skip(i as int) =~= bytes@.skip(i - 1).skip(1));
        }
    }
    true
}

/// The string that stands first, and what follows.
fn take_text(bytes: &[u8]) -> (r: Option<(String, &[u8])>)
    ensures
        match r {
            Some((t, rest)) => text_in(bytes@) == Some((t@, rest@)),
            None => text_in(bytes@) is None,
        },
        forall|s: Seq<char>, tail: Seq<char>|
            bytes@ == #[trigger] encode_utf8(json_quoted(s) + tail) ==> (r matches Some((t, rest))
                && t@ == s && rest@ == encode_utf8(tail)),
        forall|s: Seq<char>, tail: Seq<char>|
            plain(s) && bytes@ == #[trigger] encode_utf8("\""@ + s + "\""@ + tail) ==> (r matches Some(
                (t, rest),
            ) && t@ == s && rest@ == encode_utf8(tail)),
{
    let found = read_first_text(bytes);
    proof {
        assert forall|s: Seq<char>, tail: Seq<char>|
            bytes@ == #[trigger] encode_utf8(json_quoted(s) + tail) implies text_in(bytes@) == Some(
            (s, encode_utf8(tail)),
        ) by {
            encoding_splits(json_quoted(s), tail);
            tail_of(encode_utf8(json_quoted(s)), encode_utf8(tail));
        }
        assert forall|s: Seq<char>, tail: Seq<char>|
            plain(s) && bytes@ == #[trigger] encode_utf8(
                "\""@ + s + "\""@ + tail,
            ) implies text_in(bytes@) == Some((s, encode_utf8(tail))) by {
            encoding_splits("\""@ + s + "\""@, tail);
            tail_of(encode_utf8("\""@ + s + "\""@), encode_utf8(tail));
        }
    }
    match found {
        Some((t, n)) => {
            let rest = slice_subrange(bytes, n, bytes.len());
            proof {
                assert(rest@ =~= bytes@.skip(n as int));
            }
            Some((t, rest))
        },
        None => None,
    }
}

/// The integer that stands first, and what follows.
fn take_integer(bytes: &[u8]) -> (r: Option<(i64, &[u8])>)
    ensures
        match r {
            Some((i, rest)) => integer_in(bytes@) == Some((i, rest@)),
            None => integer_in(bytes@) is None,
        },
        forall|i: i64, tail: Seq<char>|
            bytes@ == #[trigger] encode_utf8(integer_text(i as int) + tail) && tail.len() > 0
                && tail[0] == ',' ==> (r matches Some((n, rest)) && n == i && rest@ == encode_utf8(
                tail,
            )),
{
    let found = read_first_integer(bytes);
    proof {
        assert forall|i: i64, tail: Seq<char>|
            bytes@ == #[trigger] encode_utf8(integer_text(i as int) + tail) && tail.len() > 0
                && tail[0] == ',' implies integer_in(bytes@) == Some((i, encode_utf8(tail))) by {
            encoding_splits(integer_text(i as int), tail);
            mark_comes_first(tail, COMMA);
            tail_of(encode_utf8(integer_text(i as int)), encode_utf8(tail));
        }
    }
    match found {
        Some((i, n)) => {
            let rest = slice_subrange(bytes, n, bytes.len());
            proof {
                assert(rest@ =~= bytes@.skip(n as int));
            }
            Some((i, rest))
        },
        None => None,
    }
}

/// The integer of one byte that stands first, and what follows.
fn take_octet(bytes: &[u8]) -> (r: Option<(u8, &[u8])>)
    ensures
        match r {
            Some((v, rest)) => octet_in(bytes@) == Some((v, rest@)),
            None => octet_in(bytes@) is None,
        },
        forall|v: u8, tail: Seq<char>|
            bytes@ == #[trigger] encode_utf8(integer_text(v as int) + tail) && tail.len() > 0
                && tail[0] == ',' ==> (r matches Some((n, rest)) && n == v && rest@ == encode_utf8(
                tail,
            )),
{
    let found = take_integer(bytes);
    proof {
        assert forall|v: u8, tail: Seq<char>|
            bytes@ == #[trigger] encode_utf8(integer_text(v as int) + tail) && tail.len() > 0
                && tail[0] == ',' implies octet_in(bytes@) == Some((v, encode_utf8(tail))) by {
            let i = v as i64;
            assert(bytes@ == encode_utf8(integer_text(i as int) + tail));
        }
    }
    match found {
        Some((i, rest)) => if 0 <= i && i <= 255 {
            Some((i as u8, rest))
        } else {
            None
        },
        None => None,
    }
}

/// The list of strings that stands first, and what follows.
fn take_texts(bytes: &[u8]) -> (r: Option<(Vec<String>, &[u8])>)
    ensures
        match r {
            Some((t, rest)) => texts_in(bytes@) == Some((texts(t@), rest@)),
            None => texts_in(bytes@) is None,
        },
        forall|items: Seq<Seq<char>>, tail: Seq<char>|
            bytes@ == #[trigger] encode_utf8(json_list(items) + tail) ==> (r matches Some((t, rest))
                && texts(t@) == items && rest@ == encode_utf8(tail)),
{
    let found = read_first_texts(bytes);
    proof {
        assert forall|items: Seq<Seq<char>>, tail: Seq<char>|
            bytes@ == #[trigger] encode_utf8(json_list(items) + tail) implies texts_in(bytes@)
            == Some((items, encode_utf8(tail))) by {
            encoding_splits(json_list(items), tail);
            tail_of(encode_utf8(json_list(items)), encode_utf8(tail));
        }
    }
    match found {
        Some((t, n)) => {
            let rest = slice_subrange(bytes, n, bytes.len());
            proof {
                assert(rest@ =~= bytes@.skip(n as int));
            }
            Some((t, rest))
        },
        None => None,
    }
}

/// What follows the value that stands first.
fn take_any(bytes: &[u8]) -> (r: Option<&[u8]>)
    ensures
        match r {
            Some(rest) => any_in(bytes@) == Some(rest@),
            None => any_in(bytes@) is None,
        },
{
    match skip_first(bytes) {
        Some(n) => {
            let rest = slice_subrange(bytes, n, bytes.len());
            proof {
                assert(rest@ =~= bytes@.skip(n as int));
            }
            Some(rest)
        },
        None => None,
    }
}

/// The name of a member, and what follows its colon.
fn take_name(bytes: &[u8]) -> (r: Option<(String, &[u8])>)
    ensures
        match r {
            Some((t, rest)) => name_in(bytes@) == Some((t@, rest@)),
            None => name_in(bytes@) is None,
        },
        forall|s: Seq<char>, tail: Seq<char>|
            plain(s) && bytes@ == #[trigger] encode_utf8("\""@ + s + "\":"@ + tail) ==> (
            r matches Some((t, rest)) && t@ == s && rest@ == encode_utf8(tail)),
{
    let found = take_text(bytes);
    proof {
        assert forall|s: Seq<char>, tail: Seq<char>|
            plain(s) && bytes@ == #[trigger] encode_utf8(
                "\""@ + s + "\":"@ + tail,
            ) implies name_in(bytes@) == Some((s, encode_utf8(tail))) by {
            reveal_strlit("\"");
            reveal_strlit("\":");
            reveal_strlit(":");
            let rest = ":"@ + tail;
            assert("\""@ + s + "\":"@ + tail =~= "\""@ + s + "\""@ + rest);
            mark_comes_first(rest, COLON);
            assert(rest.drop_first() =~= tail);
        }
    }
    match found {
        Some((name, rest)) => match skip_mark(rest, COLON) {
            Some(value) => Some((name, value)),
            None => None,
        },
        None => None,
    }
}

/// The members that were found so far.
struct Found {
    v: Option<u8>,
    p: Option<String>,
    b: Option<String>,
    w: Option<i64>,
    i: Option<Vec<String>>,
}

impl Found {
    spec fn view(&self) -> Members {
        Members {
            v: self.v,
            p: opt_text(self.p),
            b: opt_text(self.b),
            w: self.w,
            i: match self.i {
                Some(ids) => Some(texts(ids@)),
                None => None,
            },
        }
    }
}

/// The members with one more, whose value stands first, and what follows.
fn take_value(got: Found, name: String, value: &[u8]) -> (r: Option<(Found, &[u8])>)
    ensures
        match r {
            Some((more, rest)) => with_member(got@, name@, value@) == Some((more@, rest@)),
            None => with_member(got@, name@, value@) is None,
        },
        // Values as they are written are read back.
        forall|v: u8, tail: Seq<char>|
            name@ == "v"@ && got@.v is None && value@ == #[trigger] encode_utf8(
                integer_text(v as int) + tail,
            ) && tail.len() > 0 && tail[0] == ',' ==> (r matches Some((more, rest)) && more@ == (
            Members { v: Some(v), ..got@ }) && rest@ == encode_utf8(tail)),
        forall|s: Seq<char>, tail: Seq<char>|
            name@ == "p"@ && got@.p is None && value@ == #[trigger] encode_utf8(
                json_quoted(s) + tail,
            ) ==> (r matches Some((more, rest)) && more@ == (Members { p: Some(s), ..got@ })
                && rest@ == encode_utf8(tail)),
        forall|s: Seq<char>, tail: Seq<char>|
            name@ == "b"@ && got@.b is None && value@ == #[trigger] encode_utf8(
                json_quoted(s) + tail,
            ) ==> (r matches Some((more, rest)) && more@ == (Members { b: Some(s), ..got@ })
                && rest@ == encode_utf8(tail)),
        forall|i: i64, tail: Seq<char>|
            name@ == "w"@ && got@.w is None && value@ == #[trigger] encode_utf8(
                integer_text(i as int) + tail,
            ) && tail.len() > 0 && tail[0] == ',' ==> (r matches Some((more, rest)) && more@ == (
            Members { w: Some(i), ..got@ }) && rest@ == encode_utf8(tail)),
        forall|items: Seq<Seq<char>>, tail: Seq<char>|
            name@ == "i"@ && got@.i is None && value@ == #[trigger] encode_utf8(
                json_list(items) + tail,
            ) ==> (r matches Some((more, rest)) && more@ == (Members { i: Some(items), ..got@ })
                && rest@ == encode_utf8(tail)),
{
    proof {
        names_of_members();
    }
    let mut more = got;
    if str_eq(name.as_str(), "v") {
        match take_octet(value) {
            Some((v, rest)) if more.v.is_none() => {
                more.v = Some(v);
                Some((more, rest))
            },
            _ => None,
        }
    } else if str_eq(name.as_str(), "p") {
        match take_text(value) {
            Some((p, rest)) if more.p.is_none() => {
                more.p = Some(p);
                Some((more, rest))
            },
            _ => None,
        }
    } else if str_eq(name.as_str(), "b") {
        match take_text(value) {
            Some((b, rest)) if more.b.is_none() => {
                more.b = Some(b);
                Some((more, rest))
            },
            _ => None,
        }
    } else if str_eq(name.as_str(), "w") {
        match take_integer(value) {
            Some((w, rest)) if more.w.is_none() => {
                more.w = Some(w);
                Some((more, rest))
            },
            _ => None,
        }
    } else if str_eq(name.as_str(), "i") {
        match take_texts(value) {
            Some((i, rest)) if more.i.is_none() => {
                more.i = Some(i);
                Some((more, rest))
            },
            _ => None,
        }
    } else {
        match take_any(value) {
            Some(rest) => Some((more, rest)),
            None => None,
        }
    }
}

/// The members with the one that stands first, and what follows.
fn take_member(got: Found, bytes: &[u8]) -> (r: Option<(Found, &[u8])>)
    ensures
        match r {
            Some((more, rest)) => member_in(got@, bytes@) == Some((more@, rest@)),
            None => member_in(got@, bytes@) is None,
        },
        // The members that a cursor is written with are read back.
        forall|k: int, p: Seq<char>, b: Seq<char>, w: i64, ids: Seq<Seq<char>>|
            0 <= k < 5 && got@ == #[trigger] first_members(k, p, b, w, ids) && bytes@
                == encode_utf8(member_left(k, p, b, w, ids)) ==> (r matches Some((more, rest))
                && more@ == first_members(k + 1, p, b, w, ids) && rest@ == encode_utf8(
                left(k + 1, p, b, w, ids),
            )),
{
    let named = take_name(bytes);
    let ghost before = got@;
    proof {
        assert forall|k: int, p: Seq<char>, b: Seq<char>, w: i64, ids: Seq<Seq<char>>|
            0 <= k < 5 && before == #[trigger] first_members(k, p, b, w, ids) && bytes@
                == encode_utf8(member_left(k, p, b, w, ids)) implies (named matches Some(
            (name, value),
        ) && name@ == name_at(k) && value@ == encode_utf8(
            value_at(k, p, b, w, ids) + left(k + 1, p, b, w, ids),
        )) by {
            names_of_members();
            member_shape(k, p, b, w, ids);
        }
    }
    match named {
        Some((name, value)) => {
            let ghost n = name@;
            let ghost v = value@;
            let r = take_value(got, name, value);
            proof {
                assert forall|k: int, p: Seq<char>, b: Seq<char>, w: i64, ids: Seq<Seq<char>>|
                    0 <= k < 5 && before == #[trigger] first_members(k, p, b, w, ids) && bytes@
                        == encode_utf8(member_left(k, p, b, w, ids)) implies (r matches Some(
                    (more, rest),
                ) && more@ == first_members(k + 1, p, b, w, ids) && rest@ == encode_utf8(
                    left(k + 1, p, b, w, ids),
                )) by {
                    names_of_members();
                    member_shape(k, p, b, w, ids);
                    assert(n == name_at(k));
                    let one: u8 = 1;
                    assert(k == 0 ==> v == encode_utf8(
                        integer_text(one as int) + left(1, p, b, w, ids),
                    ));
                }
            }
            r
        },
        None => None,
    }
}

/// The members up to the end of an object, and what follows it.
fn take_members(bytes: &[u8]) -> (r: Option<(Found, &[u8])>)
    ensures
        match r {
            Some((got, rest)) => members_in(no_members(), true, bytes@) == Some((got@, rest@)),
            None => members_in(no_members(), true, bytes@) is None,
        },
        forall|p: Seq<char>, b: Seq<char>, w: i64, ids: Seq<Seq<char>>|
            bytes@ == encode_utf8(#[trigger] left(0, p, b, w, ids)) ==> (r matches Some(
                (got, rest),
            ) && got@ == first_members(5, p, b, w, ids) && rest@.len() == 0),
{
    let mut got = Found { v: None, p: None, b: None, w: None, i: None };
    let mut first = true;
    let mut rest = bytes;
    let ghost mut k: int = 0;
    proof {
        assert(got@ =~= no_members());
        assert forall|p: Seq<char>, b: Seq<char>, w: i64, ids: Seq<Seq<char>>|
            #![trigger left(0, p, b, w, ids)]
            first_members(0, p, b, w, ids) == no_members() by {
            assert(first_members(0, p, b, w, ids) =~= no_members());
        }
    }
    loop
        invariant
            0 <= k,
            first <==> k == 0,
            members_in(no_members(), true, bytes@) == members_in(got@, first, rest@),
            forall|p: Seq<char>, b: Seq<char>, w: i64, ids: Seq<Seq<char>>|
                bytes@ == encode_utf8(#[trigger] left(0, p, b, w, ids)) ==> k <= 5 && got@
                    == first_members(k, p, b, w, ids) && rest@ == encode_utf8(
                    left(k, p, b, w, ids),
                ),
        decreases rest@.len(),
    {
        let ghost before = rest@;
        let ghost had = got@;
        let closed = skip_mark(rest, OBJECT_ENDS);
        proof {
            assert forall|p: Seq<char>, b: Seq<char>, w: i64, ids: Seq<Seq<char>>|
                bytes@ == encode_utf8(#[trigger] left(0, p, b, w, ids)) implies (closed is Some
                <==> k == 5) && (k == 5 ==> closed->0@.len() == 0) by {
                left_begins(k, p, b, w, ids);
            }
        }
        match closed {
            Some(end) => {
                return Some((got, end));
            },
            None => {},
        }
        let at = if first {
            rest
        } else {
            match skip_mark(rest, COMMA) {
                Some(at) => at,
                None => {
                    proof {
                        assert forall|p: Seq<char>, b: Seq<char>, w: i64, ids: Seq<Seq<char>>|
                            bytes@ != encode_utf8(#[trigger] left(0, p, b, w, ids)) by {
                            if bytes@ == encode_utf8(left(0, p, b, w, ids)) {
                                left_begins(k, p, b, w, ids);
                            }
                        }
                    }
                    return None;
                },
            }
        };
        proof {
            unspaced_is_shorter(before);
            member_is_shorter(had, at@);
            assert forall|p: Seq<char>, b: Seq<char>, w: i64, ids: Seq<Seq<char>>|
                bytes@ == encode_utf8(#[trigger] left(0, p, b, w, ids)) implies k < 5 && at@
                == encode_utf8(member_left(k, p, b, w, ids)) by {
                left_begins(k, p, b, w, ids);
            }
        }
        match take_member(got, at) {
            Some((more, next)) => {
                got = more;
                rest = next;
                first = false;
                proof {
                    k = k + 1;
                }
            },
            None => {
                return None;
            },
        }
    }
}

/// The five values up to the end of a list, and what follows it.
fn take_elements(bytes: &[u8]) -> (r: Option<(Found, &[u8])>)
    ensures
        match r {
            Some((got, rest)) => elements_in(bytes@) == Some((got@, rest@)),
            None => elements_in(bytes@) is None,
        },
{
    let (v, rest) = take_octet(bytes)?;
    let (p, rest) = take_text(skip_mark(rest, COMMA)?)?;
    let (b, rest) = take_text(skip_mark(rest, COMMA)?)?;
    let (w, rest) = take_integer(skip_mark(rest, COMMA)?)?;
    let (i, rest) = take_texts(skip_mark(rest, COMMA)?)?;
    let rest = skip_mark(rest, LIST_ENDS)?;
    let got = Found { v: Some(v), p: Some(p), b: Some(b), w: Some(w), i: Some(i) };
    Some((got, rest))
}

/// All members, where all were found and nothing follows.
fn completed(found: Option<(Found, &[u8])>) -> (r: Option<CursorWire>)
    ensures
        members_of(r) == complete(
            match found {
                Some((got, rest)) => Some((got@, rest@)),
                None => None,
            },
        ),
{
    let (got, rest) = found?;
    if !is_blank(rest) {
        return None;
    }
    Some(CursorWire { v: got.v?, p: got.p?, b: got.b?, w: got.w?, i: got.i? })
}

/// The members that a JSON text gives a cursor. What a cursor is written as is read
/// back.
pub fn read_wire(bytes: &[u8]) -> (r: Option<CursorWire>)
    ensures
        members_of(r) == wire_members(bytes@),
        forall|p: Seq<char>, b: Seq<char>, w: i64, ids: Seq<Seq<char>>|
            bytes@ == encode_utf8(#[trigger] wire_json(p, b, w, ids)) ==> members_of(r) == Some(
                (1u8, p, b, w, ids),
            ),
{
    let object = skip_mark(bytes, OBJECT_OPENS);
    proof {
        assert forall|p: Seq<char>, b: Seq<char>, w: i64, ids: Seq<Seq<char>>|
            bytes@ == encode_utf8(#[trigger] wire_json(p, b, w, ids)) implies (object matches Some(
            rest,
        ) && rest@ == encode_utf8(left(0, p, b, w, ids))) by {
            object_shape(p, b, w, ids);
        }
    }
    match object {
        Some(rest) => completed(take_members(rest)),
        None => match skip_mark(bytes, LIST_OPENS) {
            Some(rest) => completed(take_elements(rest)),
            None => None,
        },
    }
}

// ---------------------------------------------------------------------------
// Laws
// ---------------------------------------------------------------------------

/// A member is read under its own name, once, and with a value of its own type; a member of
/// another name changes nothing.
pub proof fn members_are_read_by_name(got: Members, name: Seq<char>, value: Seq<u8>)
    ensures
        ({
            let r = with_member(got, name, value);
            &&& name == "v"@ && got.v is Some ==> r is None
            &&& name == "p"@ && got.p is Some ==> r is None
            &&& name == "b"@ && got.b is Some ==> r is None
            &&& name == "w"@ && got.w is Some ==> r is None
            &&& name == "i"@ && got.i is Some ==> r is None
            &&& r is Some ==> {
                let more = (r->0).0;
                &&& name == "v"@ ==> more.v is Some && more.p == got.p && more.b == got.b && more.w
                    == got.w && more.i == got.i && first_integer(value) is Some && more.v->0 == (
                first_integer(value)->0).0
                &&& name == "p"@ ==> more.p is Some && more.v == got.v && more.b == got.b && more.w
                    == got.w && more.i == got.i && first_text(value) is Some && more.p->0 == (
                first_text(value)->0).0
                &&& name == "b"@ ==> more.b is Some && more.v == got.v && more.p == got.p && more.w
                    == got.w && more.i == got.i && first_text(value) is Some && more.b->0 == (
                first_text(value)->0).0
                &&& name == "w"@ ==> more.w is Some && more.v == got.v && more.p == got.p && more.b
                    == got.b && more.i == got.i && first_integer(value) is Some && more.w->0 == (
                first_integer(value)->0).0
                &&& name == "i"@ ==> more.i is Some && more.v == got.v && more.p == got.p && more.b
                    == got.b && more.w == got.w && first_texts(value) is Some && more.i->0 == (
                first_texts(value)->0).0
                &&& name != "v"@ && name != "p"@ && name != "b"@ && name != "w"@ && name != "i"@
                    ==> more == got && first_end(value) is Some
            }
        }),
{
    names_of_members();
}

/// An object is read only where all five members are there and nothing follows.
pub proof fn objects_have_all_members(found: Option<(Members, Seq<u8>)>)
    ensures
        complete(found) is Some <==> found is Some && (found->0).0.v is Some && (found->0).0.p is Some
            && (found->0).0.b is Some && (found->0).0.w is Some && (found->0).0.i is Some
            && unspaced((found->0).1).len() == 0,
        complete(found) is Some ==> complete(found)->0 == (
            (found->0).0.v->0,
            (found->0).0.p->0,
            (found->0).0.b->0,
            (found->0).0.w->0,
            (found->0).0.i->0,
        ),
{
}

/// Space before a mark is passed over: blanks, tabs and line breaks.
pub proof fn space_is_passed_over(space: u8, mark: u8, rest: Seq<u8>)
    requires
        space == 0x20 || space == 0x09 || space == 0x0a || space == 0x0d,
        mark > 0x20,
    ensures
        past(seq![mark] + rest, mark) == Some(rest),
        past(seq![space, mark] + rest, mark) == Some(rest),
{
    let s = seq![mark] + rest;
    assert(s.skip(1) =~= rest);
    let t = seq![space, mark] + rest;
    assert(t.skip(1) =~= s);
}

/// A number is a byte where it is one from 0 to 255.
pub proof fn bytes_are_small_numbers(s: Seq<u8>, i: i64, rest: Seq<u8>)
    requires
        integer_in(s) == Some((i, rest)),
    ensures
        0 <= i <= 255 ==> octet_in(s) == Some((i as u8, rest)),
        i < 0 || i > 255 ==> octet_in(s) is None,
{
}

} // verus!
