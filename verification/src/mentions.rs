//! Who is mentioned in a message.
use vstd::prelude::*;
use vstd::string::*;

use crate::text::{ascii_alphanumeric, chars_of, concat2, find_chars, find_from,
    find_from_iff_contains, occurs_at};

verus! {

/// A character that can be part of a name.
pub open spec fn name_char(c: char) -> bool {
    ascii_alphanumeric(c) || c == '_' || c == '-'
}

/// What stands at place `i`, or the end, ends a name.
pub open spec fn ends_name(s: Seq<char>, i: int) -> bool {
    i >= s.len() || !name_char(s[i])
}

/// A place at or after `from`, found by searching on behind each hit, at which
/// `needle` stands and ends a name.
pub open spec fn mentioned_from(s: Seq<char>, needle: Seq<char>, from: int) -> bool
    decreases s.len() - from,
{
    match find_from(s, needle, from) {
        None => false,
        Some(i) => if from < 0 || needle.len() == 0 || i < from || i + needle.len() > s.len() {
            false
        } else if ends_name(s, i + needle.len()) {
            true
        } else {
            mentioned_from(s, needle, i + needle.len())
        },
    }
}

/// The message mentions the user.
pub open spec fn mentions(message: Seq<char>, username: Seq<char>) -> bool {
    mentioned_from(message, "@"@ + username, 0)
}

fn is_name_char(c: char) -> (r: bool)
    ensures
        r == name_char(c),
{
    ('0' <= c && c <= '9') || ('a' <= c && c <= 'z') || ('A' <= c && c <= 'Z') || c == '_' || c
        == '-'
}

/// Whether a message mentions a user: `@` and the name, not followed by a
/// character that would make it a longer name.
pub fn message_mentions_username(message: &str, username: &str) -> (r: bool)
    ensures
        r == mentions(message@, username@),
{
    let cs = chars_of(message);
    let needle = chars_of(concat2("@", username).as_str());
    let n: usize = needle.len();
    let len: usize = cs.len();
    proof {
        reveal_strlit("@");
    }
    let mut from: usize = 0;
    loop
        invariant
            cs@ == message@,
            needle@ == "@"@ + username@,
            n == needle@.len(),
            n >= 1,
            len == cs@.len(),
            from <= len,
            mentions(message@, username@) == mentioned_from(cs@, needle@, from as int),
        decreases len - from,
    {
        match find_chars(&cs, &needle, from) {
            None => {
                return false;
            },
            Some(i) => {
                proof {
                    find_from_iff_contains(cs@, needle@, from as int);
                }
                let end: usize = i + n;
                if end >= len || !is_name_char(cs[end]) {
                    return true;
                }
                from = end;
            },
        }
    }
}

/// A name without `@` is mentioned if and only if somewhere `@` and the name
/// stand and end a name.
pub proof fn mentions_iff_named(message: Seq<char>, username: Seq<char>)
    requires
        forall|i: int| 0 <= i < username.len() ==> username[i] != '@',
    ensures
        mentions(message, username) <==> exists|i: int|
            #[trigger] occurs_at(message, "@"@ + username, i) && ends_name(
                message,
                i + ("@"@ + username).len(),
            ),
{
    mentioned_iff(message, username, 0);
}

proof fn mentioned_iff(s: Seq<char>, username: Seq<char>, from: int)
    requires
        0 <= from,
        forall|i: int| 0 <= i < username.len() ==> username[i] != '@',
    ensures
        mentioned_from(s, "@"@ + username, from) <==> exists|i: int|
            from <= i && #[trigger] occurs_at(s, "@"@ + username, i) && ends_name(
                s,
                i + ("@"@ + username).len(),
            ),
    decreases s.len() - from,
{
    reveal_strlit("@");
    let needle = "@"@ + username;
    let n = needle.len() as int;
    find_from_iff_contains(s, needle, from);
    match find_from(s, needle, from) {
        None => {},
        Some(i) => {
            if ends_name(s, i + n) {
                assert(occurs_at(s, needle, i));
            } else {
                mentioned_iff(s, username, i + n);
                // Nothing else stands between the hit and its end.
                assert forall|j: int| from <= j < i + n && #[trigger] occurs_at(
                    s,
                    needle,
                    j,
                ) implies j == i by {
                    if j > i {
                        assert(s.subrange(j, j + n)[0] == s[j]);
                        assert(s.subrange(i, i + n)[j - i] == s[j]);
                        assert(needle[j - i] == username[j - i - 1]);
                    }
                }
                if exists|j: int|
                    from <= j && #[trigger] occurs_at(s, needle, j) && ends_name(s, j + n) {
                    let j = choose|j: int|
                        from <= j && #[trigger] occurs_at(s, needle, j) && ends_name(s, j + n);
                    assert(j >= i + n);
                }
            }
        },
    }
}

/// A name without `@` is mentioned if and only if somewhere in the message `@` and the
/// name stand, and behind them the message ends or goes on with something that is no
/// ASCII letter, no ASCII digit, no `_` and no `-`.
pub proof fn mentioned_where_the_name_ends(message: Seq<char>, username: Seq<char>)
    requires
        forall|i: int| 0 <= i < username.len() ==> username[i] != '@',
    ensures
        mentions(message, username) <==> exists|i: int|
            {
                let end = i + 1 + username.len();
                &&& 0 <= i
                &&& end <= message.len()
                &&& message[i] == '@'
                &&& #[trigger] message.subrange(i + 1, i + 1 + username.len()) == username
                &&& end == message.len() || !(('a' <= message[end] && message[end] <= 'z') || ('A'
                    <= message[end] && message[end] <= 'Z') || ('0' <= message[end] && message[end]
                    <= '9') || message[end] == '_' || message[end] == '-')
            },
{
    reveal_strlit("@");
    mentions_iff_named(message, username);
    let needle = "@"@ + username;
    let n = username.len();
    assert forall|i: int| 0 <= i && i + 1 + n <= message.len() implies (#[trigger] occurs_at(
        message,
        needle,
        i,
    ) <==> message[i] == '@' && message.subrange(i + 1, i + 1 + n) == username) by {
        let here = message.subrange(i, i + 1 + n);
        assert(here[0] == message[i]);
        assert(here.drop_first() =~= message.subrange(i + 1, i + 1 + n));
        assert(needle.drop_first() =~= username);
        if message[i] == '@' && message.subrange(i + 1, i + 1 + n) == username {
            assert(here =~= seq!['@'] + here.drop_first());
            assert(needle =~= seq!['@'] + username);
        }
    }
    if mentions(message, username) {
        let i = choose|i: int| #[trigger]
            occurs_at(message, needle, i) && ends_name(message, i + needle.len());
        assert(message.subrange(i + 1, i + 1 + n) == username);
    }
    if exists|i: int|
        {
            let end = i + 1 + n;
            &&& 0 <= i
            &&& end <= message.len()
            &&& message[i] == '@'
            &&& #[trigger] message.subrange(i + 1, i + 1 + n) == username
            &&& end == message.len() || !(('a' <= message[end] && message[end] <= 'z') || ('A'
                <= message[end] && message[end] <= 'Z') || ('0' <= message[end] && message[end]
                <= '9') || message[end] == '_' || message[end] == '-')
        } {
        let i = choose|i: int|
            {
                let end = i + 1 + n;
                &&& 0 <= i
                &&& end <= message.len()
                &&& message[i] == '@'
                &&& #[trigger] message.subrange(i + 1, i + 1 + n) == username
                &&& end == message.len() || !(('a' <= message[end] && message[end] <= 'z') || ('A'
                    <= message[end] && message[end] <= 'Z') || ('0' <= message[end] && message[end]
                    <= '9') || message[end] == '_' || message[end] == '-')
            };
        assert(occurs_at(message, needle, i));
    }
}

/// A message that ends with `@` and a name mentions it.
pub proof fn mentioned_at_the_end(front: Seq<char>, username: Seq<char>)
    requires
        forall|i: int| 0 <= i < username.len() ==> username[i] != '@',
    ensures
        mentions(front + seq!['@'] + username, username),
{
    let message = front + seq!['@'] + username;
    mentioned_where_the_name_ends(message, username);
    let i = front.len() as int;
    assert(message.subrange(i + 1, i + 1 + username.len()) =~= username);
}

/// The character behind a name decides whether a message in which nothing else stands
/// behind an `@` mentions it.
pub proof fn next_character_decides(
    front: Seq<char>,
    username: Seq<char>,
    c: char,
    rest: Seq<char>,
)
    requires
        forall|i: int| 0 <= i < username.len() ==> username[i] != '@',
        forall|i: int| 0 <= i < front.len() ==> front[i] != '@',
        forall|i: int| 0 <= i < rest.len() ==> rest[i] != '@',
    ensures
        mentions(front + seq!['@'] + username + seq![c] + rest, username) <==> !(('a' <= c && c
            <= 'z') || ('A' <= c && c <= 'Z') || ('0' <= c && c <= '9') || c == '_' || c == '-'),
{
    let message = front + seq!['@'] + username + seq![c] + rest;
    mentioned_where_the_name_ends(message, username);
    let at = front.len() as int;
    let n = username.len();
    assert(message.subrange(at + 1, at + 1 + n) =~= username);
    assert(message[at + 1 + n] == c);
    assert forall|i: int| 0 <= i < message.len() && message[i] == '@' implies i == at || (i == at + 1
        + n && c == '@') by {
        if i < at {
            assert(message[i] == front[i]);
        } else if at < i < at + 1 + n {
            assert(message[i] == username[i - at - 1]);
        } else if i > at + 1 + n {
            assert(message[i] == rest[i - at - 2 - n]);
        }
    }
}

/// A message mentions a user wherever their name stands behind an `@` and ends there: at the end
/// of the message, or before a character that cannot be part of a name.
pub proof fn names_are_found_wherever_they_stand(
    message: &str,
    username: &str,
    r: bool,
    front: Seq<char>,
    rest: Seq<char>,
)
    requires
        call_ensures(message_mentions_username, (message, username), r),
        forall|i: int| 0 <= i < username@.len() ==> username@[i] != '@',
        message@ == front + seq!['@'] + username@ + rest,
        rest.len() > 0 ==> !(('a' <= rest[0] && rest[0] <= 'z') || ('A' <= rest[0] && rest[0]
            <= 'Z') || ('0' <= rest[0] && rest[0] <= '9') || rest[0] == '_' || rest[0] == '-'),
    ensures
        r,
{
    mentioned_where_the_name_ends(message@, username@);
    let i = front.len() as int;
    let end = i + 1 + username@.len();
    assert(message@[i] == '@');
    assert(message@.subrange(i + 1, end) =~= username@);
    if rest.len() > 0 {
        assert(message@[end] == rest[0]);
    }
}

} // verus!
