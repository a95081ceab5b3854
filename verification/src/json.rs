//! JSON texts.
use vstd::prelude::*;
use vstd::string::*;
use vstd::utf8::encode_utf8;

use crate::text::{integer_text, joined, texts};

verus! {

/// A text as a JSON string.
pub uninterp spec fn json_quoted(s: Seq<char>) -> Seq<char>;

/// `serde_json::Value`: shows a text as a compact JSON string. What it writes is
/// a function of the text.
#[verifier::external_body]
pub(crate) fn json_quote(s: &str) -> (r: String)
    ensures
        r@ == json_quoted(s@),
{
    serde_json::Value::from(s).to_string()
}

// ---------------------------------------------------------------------------
// Values one after another
// ---------------------------------------------------------------------------

/// A text that JSON shows between quotes as it stands.
pub open spec fn plain(s: Seq<char>) -> bool {
    forall|i: int| 0 <= i < s.len() ==> #[trigger] s[i] >= ' ' && s[i] != '"' && s[i] != '\\'
}

/// A list of texts in JSON.
pub open spec fn json_list(items: Seq<Seq<char>>) -> Seq<char> {
    "["@ + joined(items.map_values(|s: Seq<char>| json_quoted(s)), ","@) + "]"@
}

/// A byte that ends a member of an object or an element of a list: `,`, `}` or `]`.
pub open spec fn ends_a_value(b: u8) -> bool {
    b == 0x2c || b == 0x7d || b == 0x5d
}

/// A string and the count of bytes up to its end, as values.
pub open spec fn text_and_end(r: Option<(String, usize)>) -> Option<(Seq<char>, nat)> {
    match r {
        Some((t, n)) => Some((t@, n as nat)),
        None => None,
    }
}

/// An integer and the count of bytes up to the end, as values.
pub open spec fn integer_and_end(r: Option<(i64, usize)>) -> Option<(i64, nat)> {
    match r {
        Some((t, n)) => Some((t, n as nat)),
        None => None,
    }
}

/// A list of strings and the count of bytes up to its end, as values.
pub open spec fn texts_and_end(r: Option<(Vec<String>, usize)>) -> Option<(Seq<Seq<char>>, nat)> {
    match r {
        Some((t, n)) => Some((texts(t@), n as nat)),
        None => None,
    }
}

/// A count of bytes as a value.
pub open spec fn end_of(r: Option<usize>) -> Option<nat> {
    match r {
        Some(n) => Some(n as nat),
        None => None,
    }
}

/// The string that stands first in JSON values, and how many bytes there are up to its
/// end.
pub uninterp spec fn first_text(bytes: Seq<u8>) -> Option<(Seq<char>, nat)>;

/// `serde_json::StreamDeserializer` over `String`: the value that stands first, after
/// space, and how many bytes there are up to its end; nothing where no string stands
/// there. The result is a function of the bytes. A text as `serde_json` writes it, and
/// a text between quotes that needs no escapes, is read back whatever follows.
#[verifier::external_body]
pub(crate) fn read_first_text(bytes: &[u8]) -> (r: Option<(String, usize)>)
    ensures
        text_and_end(r) == first_text(bytes@),
        r matches Some((_, n)) ==> 0 < n <= bytes@.len(),
        forall|s: Seq<char>, tail: Seq<u8>|
            bytes@ == #[trigger] (encode_utf8(json_quoted(s)) + tail) ==> text_and_end(r) == Some(
                (s, encode_utf8(json_quoted(s)).len()),
            ),
        forall|s: Seq<char>, tail: Seq<u8>|
            plain(s) && bytes@ == #[trigger] (encode_utf8("\""@ + s + "\""@) + tail) ==> text_and_end(
                r,
            ) == Some((s, encode_utf8("\""@ + s + "\""@).len())),
{
    let mut values = serde_json::Deserializer::from_slice(bytes).into_iter::<String>();
    let value = values.next()?.ok()?;
    Some((value, values.byte_offset()))
}

/// The integer that stands first in JSON values, and how many bytes there are up to its
/// end.
pub uninterp spec fn first_integer(bytes: Seq<u8>) -> Option<(i64, nat)>;

/// `serde_json::StreamDeserializer` over `i64`: the value that stands first, after
/// space, and how many bytes there are up to its end; nothing where no such integer
/// stands there. The result is a function of the bytes. An integer in decimal is read
/// back where the value ends behind it.
#[verifier::external_body]
pub(crate) fn read_first_integer(bytes: &[u8]) -> (r: Option<(i64, usize)>)
    ensures
        integer_and_end(r) == first_integer(bytes@),
        r matches Some((_, n)) ==> 0 < n <= bytes@.len(),
        forall|i: i64, tail: Seq<u8>|
            bytes@ == #[trigger] (encode_utf8(integer_text(i as int)) + tail) && tail.len() > 0
                && ends_a_value(tail[0]) ==> integer_and_end(r) == Some(
                (i, encode_utf8(integer_text(i as int)).len()),
            ),
{
    let mut values = serde_json::Deserializer::from_slice(bytes).into_iter::<i64>();
    let value = values.next()?.ok()?;
    Some((value, values.byte_offset()))
}

/// The list of strings that stands first in JSON values, and how many bytes there are up
/// to its end.
pub uninterp spec fn first_texts(bytes: Seq<u8>) -> Option<(Seq<Seq<char>>, nat)>;

/// `serde_json::StreamDeserializer` over `Vec<String>`: the value that stands first,
/// after space, and how many bytes there are up to its end; nothing where no list of
/// strings stands there. The result is a function of the bytes. A list of texts as
/// `serde_json` writes them is read back whatever follows.
#[verifier::external_body]
pub(crate) fn read_first_texts(bytes: &[u8]) -> (r: Option<(Vec<String>, usize)>)
    ensures
        texts_and_end(r) == first_texts(bytes@),
        r matches Some((_, n)) ==> 0 < n <= bytes@.len(),
        forall|items: Seq<Seq<char>>, tail: Seq<u8>|
            bytes@ == #[trigger] (encode_utf8(json_list(items)) + tail) ==> texts_and_end(r)
                == Some((items, encode_utf8(json_list(items)).len())),
{
    let mut values = serde_json::Deserializer::from_slice(bytes).into_iter::<Vec<String>>();
    let value = values.next()?.ok()?;
    Some((value, values.byte_offset()))
}

/// How many bytes there are up to the end of the value that stands first in JSON values,
/// whatever it is.
pub uninterp spec fn first_end(bytes: Seq<u8>) -> Option<nat>;

/// `serde_json::StreamDeserializer` over `serde::de::IgnoredAny`: how many bytes there
/// are up to the end of the value that stands first, after space; nothing where none
/// stands there. The result is a function of the bytes.
#[verifier::external_body]
pub(crate) fn skip_first(bytes: &[u8]) -> (r: Option<usize>)
    ensures
        end_of(r) == first_end(bytes@),
        r matches Some(n) ==> 0 < n <= bytes@.len(),
{
    let bytes = serde_json::Deserializer::from_slice(bytes);
    let mut values = bytes.into_iter::<serde::de::IgnoredAny>();
    values.next()?.ok()?;
    Some(values.byte_offset())
}

// ---------------------------------------------------------------------------
// Values at a place
// ---------------------------------------------------------------------------

/// What a JSON text holds at a place.
#[derive(Debug, Clone, PartialEq, Eq)]
pub enum JsonAt {
    /// Nothing; also where the text is no JSON.
    Absent,
    Text(String),
    /// A number, as far as it is an integer.
    Number { signed: Option<i64>, unsigned: Option<u64> },
    /// Something else.
    Other,
}

/// What a JSON text holds at a place, as values.
pub enum JsonValueAt {
    Absent,
    Text(Seq<char>),
    Number { signed: Option<i64>, unsigned: Option<u64> },
    Other,
}

impl JsonAt {
    pub open spec fn view(&self) -> JsonValueAt {
        match *self {
            JsonAt::Absent => JsonValueAt::Absent,
            JsonAt::Text(s) => JsonValueAt::Text(s@),
            JsonAt::Number { signed, unsigned } => JsonValueAt::Number { signed, unsigned },
            JsonAt::Other => JsonValueAt::Other,
        }
    }
}

/// What a JSON text holds at a place, named by a JSON pointer.
pub uninterp spec fn json_at(text: Seq<char>, pointer: Seq<char>) -> JsonValueAt;

/// `serde_json::from_str` and `serde_json::Value::pointer`: what a JSON text holds
/// at a place; nothing where the text is no JSON or holds nothing there. The
/// result is a function of both texts.
#[verifier::external_body]
pub(crate) fn read_json_at(text: &str, pointer: &str) -> (r: JsonAt)
    ensures
        r@ == json_at(text@, pointer@),
{
    let value: Option<serde_json::Value> = serde_json::from_str(text).ok();
    match value.as_ref().and_then(|v| v.pointer(pointer)) {
        None => JsonAt::Absent,
        Some(serde_json::Value::String(s)) => JsonAt::Text(s.clone()),
        Some(serde_json::Value::Number(n)) => JsonAt::Number {
            signed: n.as_i64(),
            unsigned: n.as_u64(),
        },
        Some(_) => JsonAt::Other,
    }
}

/// The text at a place, empty where there is none.
pub open spec fn text_or_empty(at: JsonValueAt) -> Seq<char> {
    match at {
        JsonValueAt::Text(s) => s,
        _ => Seq::empty(),
    }
}

pub fn into_text(at: JsonAt) -> (r: String)
    ensures
        r@ == text_or_empty(at@),
{
    match at {
        JsonAt::Text(s) => s,
        _ => String::new(),
    }
}

/// The integer at a place, zero where there is none.
pub open spec fn integer_or_zero(at: JsonValueAt) -> i64 {
    match at {
        JsonValueAt::Number { signed, .. } => match signed {
            Some(n) => n,
            None => 0,
        },
        _ => 0,
    }
}

pub fn into_integer(at: JsonAt) -> (r: i64)
    ensures
        r == integer_or_zero(at@),
{
    match at {
        JsonAt::Number { signed, .. } => match signed {
            Some(n) => n,
            None => 0,
        },
        _ => 0,
    }
}

/// The natural number at a place, zero where there is none.
pub open spec fn natural_or_zero(at: JsonValueAt) -> u64 {
    match at {
        JsonValueAt::Number { unsigned, .. } => match unsigned {
            Some(n) => n,
            None => 0,
        },
        _ => 0,
    }
}

pub fn into_natural(at: JsonAt) -> (r: u64)
    ensures
        r == natural_or_zero(at@),
{
    match at {
        JsonAt::Number { unsigned, .. } => match unsigned {
            Some(n) => n,
            None => 0,
        },
        _ => 0,
    }
}

} // verus!
