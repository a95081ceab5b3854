//! Search queries: operators that the tool sets itself, and the terms that it
//! sends.
use vstd::prelude::*;
use vstd::string::*;

use crate::clock::{day_text, show_day};
use crate::paths::opt_view;
use crate::text::{chars_of, debug_quoted, debug_str, lowered, opt_text, split_char, split_on,
    starts_with, texts, to_ascii_lower, trim, trimmed};

verus! {

/// Which parts of a search the tool sets itself.
#[derive(Debug, Clone, Copy, Default, PartialEq, Eq)]
pub struct ChanvoyScopes {
    /// The channel argument, sent as `in:`.
    pub channel_arg: bool,
    /// The author flag, sent as `from:`.
    pub from_flag: bool,
    /// The time flag, sent as `after:`.
    pub since_flag: bool,
}

// ---------------------------------------------------------------------------
// Words outside quotes
// ---------------------------------------------------------------------------

/// ASCII white space.
pub open spec fn ascii_space(c: char) -> bool {
    c == ' ' || c == '\t' || c == '\n' || c == '\u{c}' || c == '\r'
}

/// A text with a blank for each white-space character.
pub open spec fn blanked(s: Seq<char>) -> Seq<char> {
    s.map_values(
        |c: char|
            if ascii_space(c) {
                ' '
            } else {
                c
            },
    )
}

/// The parts that are not empty.
pub open spec fn non_empty(parts: Seq<Seq<char>>) -> Seq<Seq<char>>
    decreases parts.len(),
{
    if parts.len() == 0 {
        Seq::empty()
    } else if parts.last().len() == 0 {
        non_empty(parts.drop_last())
    } else {
        non_empty(parts.drop_last()).push(parts.last())
    }
}

/// The words of a text.
pub open spec fn words(s: Seq<char>) -> Seq<Seq<char>> {
    non_empty(split_on(blanked(s), ' '))
}

/// The words of every other part, beginning with the first.
pub open spec fn words_of_even(parts: Seq<Seq<char>>) -> Seq<Seq<char>>
    decreases parts.len(),
{
    if parts.len() == 0 {
        Seq::empty()
    } else if parts.len() % 2 == 1 {
        words_of_even(parts.drop_last()) + words(parts.last())
    } else {
        words_of_even(parts.drop_last())
    }
}

/// The words that stand outside double quotes. What follows an unmatched quote is
/// quoted to the end.
pub open spec fn unquoted_words(s: Seq<char>) -> Seq<Seq<char>> {
    words_of_even(split_on(s, '"'))
}

fn blank(s: &str) -> (r: String)
    ensures
        r@ == blanked(s@),
{
    let cs = chars_of(s);
    let mut out = String::new();
    let mut i: usize = 0;
    proof {
        assert(out@ =~= blanked(s@.take(0)));
    }
    while i < cs.len()
        invariant
            i <= cs@.len(),
            cs@ == s@,
            out@ == blanked(s@.take(i as int)),
        decreases cs.len() - i,
    {
        let c = cs[i];
        if c == ' ' || c == '\t' || c == '\n' || c == '\u{c}' || c == '\r' {
            out.push(' ');
        } else {
            out.push(c);
        }
        i += 1;
        proof {
            assert(s@.take(i as int) =~= s@.take(i - 1).push(c));
            assert(out@ =~= blanked(s@.take(i as int)));
        }
    }
    proof {
        assert(s@.take(i as int) =~= s@);
    }
    out
}

fn push_words(out: &mut Vec<String>, part: &str)
    ensures
        texts(final(out)@) == texts(old(out)@) + words(part@),
{
    let pieces = split_char(blank(part).as_str(), ' ');
    let ghost all = texts(pieces@);
    let ghost start = texts(out@);
    let mut i: usize = 0;
    proof {
        assert(all.take(0) =~= Seq::empty());
        assert(texts(out@) =~= start + non_empty(all.take(0)));
    }
    while i < pieces.len()
        invariant
            i <= pieces@.len(),
            all == texts(pieces@),
            texts(out@) == start + non_empty(all.take(i as int)),
        decreases pieces.len() - i,
    {
        let ghost before = out@;
        if !pieces[i].as_str().is_empty() {
            out.push(pieces[i].clone());
            proof {
                assert(texts(out@) =~= texts(before).push(all[i as int]));
            }
        }
        i += 1;
        proof {
            assert(all.take(i as int).drop_last() =~= all.take(i - 1));
            assert(texts(out@) =~= start + non_empty(all.take(i as int)));
        }
    }
    proof {
        assert(all.take(i as int) =~= all);
    }
}

/// The words that stand outside double quotes.
pub fn iter_unquoted_tokens(input: &str) -> (r: Vec<String>)
    ensures
        texts(r@) == unquoted_words(input@),
{
    let parts = split_char(input, '"');
    let ghost all = texts(parts@);
    let mut out: Vec<String> = Vec::new();
    let mut i: usize = 0;
    proof {
        assert(all.take(0) =~= Seq::empty());
        assert(texts(out@) =~= words_of_even(all.take(0)));
    }
    while i < parts.len()
        invariant
            i <= parts@.len(),
            all == texts(parts@),
            texts(out@) == words_of_even(all.take(i as int)),
        decreases parts.len() - i,
    {
        if i % 2 == 0 {
            push_words(&mut out, parts[i].as_str());
        }
        i += 1;
        proof {
            assert(all.take(i as int).drop_last() =~= all.take(i - 1));
        }
    }
    proof {
        assert(all.take(i as int) =~= all);
    }
    out
}

// ---------------------------------------------------------------------------
// Conflicts
// ---------------------------------------------------------------------------

/// The diagnostic of a word that is an operator which the tool sets itself.
pub open spec fn word_conflict(word: Seq<char>, scopes: ChanvoyScopes) -> Option<Seq<char>> {
    let lower = lowered(word);
    if "in:"@.is_prefix_of(lower) && scopes.channel_arg {
        Some(
            "inline `in:` operator in search query conflicts with the channel argument; channel argument defines search scope; remove inline `in:` or run a future team-wide search mode (offending token: "@
                + debug_quoted(word) + ")"@,
        )
    } else if "from:"@.is_prefix_of(lower) && scopes.from_flag {
        Some(
            "inline `from:` operator in search query conflicts with the `--from` flag; pick one (offending token: "@
                + debug_quoted(word) + ")"@,
        )
    } else if "before:"@.is_prefix_of(lower) && scopes.since_flag {
        Some(
            "inline `before:` operator in search query conflicts with the `--since` flag (both define the search time window); pick one (offending token: "@
                + debug_quoted(word) + ")"@,
        )
    } else if "after:"@.is_prefix_of(lower) && scopes.since_flag {
        Some(
            "inline `after:` operator in search query conflicts with the `--since` flag (both define the search time window); pick one (offending token: "@
                + debug_quoted(word) + ")"@,
        )
    } else {
        None
    }
}

/// The diagnostic of the first word that conflicts.
pub open spec fn first_conflict(ws: Seq<Seq<char>>, scopes: ChanvoyScopes) -> Option<Seq<char>>
    decreases ws.len(),
{
    if ws.len() == 0 {
        None
    } else if word_conflict(ws[0], scopes) is Some {
        word_conflict(ws[0], scopes)
    } else {
        first_conflict(ws.drop_first(), scopes)
    }
}

fn conflict_text(head: &str, word: &str) -> (r: String)
    ensures
        r@ == head@ + debug_quoted(word@) + ")"@,
{
    let mut m = head.to_owned();
    m.append(debug_str(word).as_str());
    m.append(")");
    m
}

fn check_word(word: &str, scopes: &ChanvoyScopes) -> (r: Option<String>)
    ensures
        opt_text(r) == word_conflict(word@, *scopes),
{
    let lower = to_ascii_lower(word);
    if starts_with(lower.as_str(), "in:") && scopes.channel_arg {
        return Some(
            conflict_text(
                "inline `in:` operator in search query conflicts with the channel argument; channel argument defines search scope; remove inline `in:` or run a future team-wide search mode (offending token: ",
                word,
            ),
        );
    }
    if starts_with(lower.as_str(), "from:") && scopes.from_flag {
        return Some(
            conflict_text(
                "inline `from:` operator in search query conflicts with the `--from` flag; pick one (offending token: ",
                word,
            ),
        );
    }
    if starts_with(lower.as_str(), "before:") && scopes.since_flag {
        return Some(
            conflict_text(
                "inline `before:` operator in search query conflicts with the `--since` flag (both define the search time window); pick one (offending token: ",
                word,
            ),
        );
    }
    if starts_with(lower.as_str(), "after:") && scopes.since_flag {
        return Some(
            conflict_text(
                "inline `after:` operator in search query conflicts with the `--since` flag (both define the search time window); pick one (offending token: ",
                word,
            ),
        );
    }
    None
}

/// Refuses a query with an operator that the tool sets itself. Quoted text is
/// search text, never an operator.
pub fn check_search_operator_conflicts(query: &str, scopes: &ChanvoyScopes) -> (r: Result<
    (),
    String,
>)
    ensures
        match r {
            Ok(_) => first_conflict(unquoted_words(query@), *scopes) is None,
            Err(e) => first_conflict(unquoted_words(query@), *scopes) == Some(e@),
        },
{
    let tokens = iter_unquoted_tokens(query);
    let ghost all = texts(tokens@);
    let mut i: usize = 0;
    proof {
        assert(all.skip(0) =~= all);
    }
    while i < tokens.len()
        invariant
            i <= tokens@.len(),
            all == texts(tokens@),
            all == unquoted_words(query@),
            first_conflict(all, *scopes) == first_conflict(all.skip(i as int), *scopes),
        decreases tokens.len() - i,
    {
        proof {
            assert(all.skip(i as int)[0] == tokens@[i as int]@);
            assert(all.skip(i as int).drop_first() =~= all.skip(i + 1));
        }
        match check_word(tokens[i].as_str(), scopes) {
            Some(e) => {
                return Err(e);
            },
            None => {},
        }
        i += 1;
    }
    Ok(())
}

/// A query without scopes is never refused.
pub proof fn no_scope_no_conflict(ws: Seq<Seq<char>>, scopes: ChanvoyScopes)
    requires
        !scopes.channel_arg,
        !scopes.from_flag,
        !scopes.since_flag,
    ensures
        first_conflict(ws, scopes) is None,
    decreases ws.len(),
{
    if ws.len() > 0 {
        no_scope_no_conflict(ws.drop_first(), scopes);
    }
}

/// A query is accepted if and only if no word outside quotes conflicts.
pub proof fn accepted_iff_no_word_conflicts(ws: Seq<Seq<char>>, scopes: ChanvoyScopes)
    ensures
        first_conflict(ws, scopes) is None <==> forall|i: int|
            0 <= i < ws.len() ==> word_conflict(#[trigger] ws[i], scopes) is None,
    decreases ws.len(),
{
    if ws.len() > 0 {
        let rest = ws.drop_first();
        accepted_iff_no_word_conflicts(rest, scopes);
        if first_conflict(ws, scopes) is None {
            assert forall|i: int| 0 <= i < ws.len() implies word_conflict(
                #[trigger] ws[i],
                scopes,
            ) is None by {
                if i > 0 {
                    assert(rest[i - 1] == ws[i]);
                }
            }
        }
        if forall|i: int| 0 <= i < ws.len() ==> word_conflict(#[trigger] ws[i], scopes) is None {
            assert forall|i: int| 0 <= i < rest.len() implies word_conflict(
                #[trigger] rest[i],
                scopes,
            ) is None by {
                assert(rest[i] == ws[i + 1]);
            }
            assert(word_conflict(ws[0], scopes) is None);
        }
    }
}

// ---------------------------------------------------------------------------
// Terms
// ---------------------------------------------------------------------------

/// The terms that are sent: the query, the channel, and the author and the day
/// where they are set.
pub open spec fn search_terms_text(
    query: Seq<char>,
    channel: Seq<char>,
    from: Option<Seq<char>>,
    after: Option<Seq<char>>,
) -> Seq<char> {
    let base = query + " in:"@ + channel;
    let authored = match from {
        Some(author) => base + " from:"@ + author,
        None => base,
    };
    match after {
        Some(day) => authored + " after:"@ + day,
        None => authored,
    }
}

/// The terms that are sent. `cutoff` is the moment, in milliseconds since the Unix
/// epoch, from whose day on posts are wanted.
pub fn search_terms(query: &str, channel: &str, from: Option<&str>, cutoff: Option<i64>) -> (r:
    String)
    ensures
        r@ == search_terms_text(
            query@,
            channel@,
            opt_view(from),
            match cutoff {
                Some(millis) => Some(day_text(millis)),
                None => None,
            },
        ),
{
    let mut terms = query.to_owned();
    terms.append(" in:");
    terms.append(channel);
    match from {
        Some(author) => {
            terms.append(" from:");
            terms.append(author);
        },
        None => {},
    }
    match cutoff {
        Some(millis) => {
            terms.append(" after:");
            terms.append(show_day(millis).as_str());
        },
        None => {},
    }
    terms
}

/// The terms that find the posts of one author in a channel.
pub fn authored_terms(username: &str, channel: &str) -> (r: String)
    ensures
        r@ == "from:"@ + username@ + " in:"@ + channel@,
{
    let mut terms = "from:".to_owned();
    terms.append(username);
    terms.append(" in:");
    terms.append(channel);
    terms
}

// ---------------------------------------------------------------------------
// Emoji names
// ---------------------------------------------------------------------------

/// The name of an emoji: without surrounding white space, and without the colons
/// that enclose it.
pub open spec fn emoji_name(input: Seq<char>) -> Seq<char> {
    let t = trimmed(input);
    if t.len() >= 2 && t[0] == ':' && t.last() == ':' {
        t.subrange(1, t.len() - 1)
    } else {
        t
    }
}

pub fn normalize_emoji_name(input: &str) -> (r: String)
    ensures
        r@ == emoji_name(input@),
{
    let t = trim(input);
    let n: usize = t.unicode_len();
    if n >= 2 && t.get_char(0) == ':' && t.get_char(n - 1) == ':' {
        t.substring_char(1, n - 1).to_owned()
    } else {
        t.to_owned()
    }
}

// ---------------------------------------------------------------------------
// Laws
// ---------------------------------------------------------------------------

/// A word conflicts if and only if it begins, in whatever case, with an operator whose scope
/// is set already: `in:` with the channel, `from:` with the author, `before:` and `after:`
/// with the span of time.
pub proof fn operators_conflict_with_their_scope(word: Seq<char>, scopes: ChanvoyScopes)
    ensures
        word_conflict(word, scopes) is Some <==> (scopes.channel_arg && "in:"@.is_prefix_of(
            lowered(word),
        )) || (scopes.from_flag && "from:"@.is_prefix_of(lowered(word))) || (scopes.since_flag && (
        "before:"@.is_prefix_of(lowered(word)) || "after:"@.is_prefix_of(lowered(word)))),
{
}

/// The first word that conflicts is the one that is named.
pub proof fn the_first_conflict_is_named(
    front: Seq<Seq<char>>,
    word: Seq<char>,
    rest: Seq<Seq<char>>,
    scopes: ChanvoyScopes,
)
    requires
        forall|i: int| 0 <= i < front.len() ==> word_conflict(#[trigger] front[i], scopes) is None,
        word_conflict(word, scopes) is Some,
    ensures
        first_conflict(front + seq![word] + rest, scopes) == word_conflict(word, scopes),
    decreases front.len(),
{
    let all = front + seq![word] + rest;
    if front.len() > 0 {
        let t = front.drop_first();
        assert forall|i: int| 0 <= i < t.len() implies word_conflict(#[trigger] t[i], scopes) is None by {
            assert(t[i] == front[i + 1]);
        }
        assert(all.drop_first() =~= t + seq![word] + rest);
        assert(all[0] == front[0]);
        the_first_conflict_is_named(t, word, rest, scopes);
    } else {
        assert(all[0] == word);
    }
}

/// What is searched for is the query, then the channel, then the author and the first day
/// where they are given.
pub proof fn terms_name_their_scopes(
    query: Seq<char>,
    channel: Seq<char>,
    author: Seq<char>,
    day: Seq<char>,
)
    ensures
        search_terms_text(query, channel, None, None) == query + " in:"@ + channel,
        search_terms_text(query, channel, Some(author), None) == query + " in:"@ + channel
            + " from:"@ + author,
        search_terms_text(query, channel, None, Some(day)) == query + " in:"@ + channel
            + " after:"@ + day,
        search_terms_text(query, channel, Some(author), Some(day)) == query + " in:"@ + channel
            + " from:"@ + author + " after:"@ + day,
{
}

/// A name between colons is the name; any other name stays as it is.
pub proof fn colons_around_a_name_go(name: Seq<char>)
    ensures
        emoji_name(seq![':'] + name + seq![':']) == name,
        name.len() > 0 && !crate::text::white_space(name[0]) && !crate::text::white_space(
            name.last(),
        ) && (name.len() == 1 || name[0] != ':' || name.last() != ':') ==> emoji_name(name) == name,
{
    let s = seq![':'] + name + seq![':'];
    crate::text::space_is_white_space(':');
    crate::text::trimming_drops_the_space_around(Seq::empty(), s, Seq::empty());
    assert(Seq::<char>::empty() + s + Seq::<char>::empty() =~= s);
    if name.len() > 0 && !crate::text::white_space(name[0]) && !crate::text::white_space(
        name.last(),
    ) {
        crate::text::trimming_drops_the_space_around(Seq::empty(), name, Seq::empty());
        assert(Seq::<char>::empty() + name + Seq::<char>::empty() =~= name);
    }
    assert(s.subrange(1, s.len() - 1) =~= name);
}

proof fn mark_splits(front: Seq<char>, sep: char, back: Seq<char>)
    requires
        !front.contains(sep),
    ensures
        split_on(front + seq![sep] + back, sep) == seq![front] + split_on(back, sep),
    decreases front.len(),
{
    let s = front + seq![sep] + back;
    if front.len() == 0 {
        assert(s.drop_first() =~= back);
        assert(front =~= Seq::<char>::empty());
    } else {
        let t = front.drop_first();
        assert(!t.contains(sep)) by {
            if t.contains(sep) {
                let k = t.index_of(sep);
                assert(front[k + 1] == sep);
            }
        }
        mark_splits(t, sep, back);
        assert(s.drop_first() =~= t + seq![sep] + back);
        assert(s[0] == front[0]);
        assert(front.contains(front[0]));
        let rest = split_on(s.drop_first(), sep);
        assert(rest[0] == t);
        assert(seq![front[0]] + t =~= front);
        assert(split_on(s, sep) =~= seq![front] + split_on(back, sep));
    }
}

proof fn no_mark_no_split(s: Seq<char>, sep: char)
    requires
        !s.contains(sep),
    ensures
        split_on(s, sep) == seq![s],
    decreases s.len(),
{
    if s.len() > 0 {
        let t = s.drop_first();
        assert(!t.contains(sep)) by {
            if t.contains(sep) {
                let k = t.index_of(sep);
                assert(s[k + 1] == sep);
            }
        }
        no_mark_no_split(t, sep);
        assert(s.contains(s[0]));
        assert(seq![s[0]] + t =~= s);
        assert(split_on(s, sep) =~= seq![s]);
    } else {
        assert(split_on(s, sep) =~= seq![s]);
    }
}

proof fn non_empty_from_the_front(first: Seq<char>, rest: Seq<Seq<char>>)
    ensures
        non_empty(seq![first] + rest) == (if first.len() == 0 {
            non_empty(rest)
        } else {
            seq![first] + non_empty(rest)
        }),
    decreases rest.len(),
{
    let all = seq![first] + rest;
    if rest.len() == 0 {
        assert(all.drop_last() =~= Seq::<Seq<char>>::empty());
        assert(all.last() == first);
        assert(non_empty(all.drop_last()) =~= Seq::<Seq<char>>::empty());
        assert(non_empty(rest) =~= Seq::<Seq<char>>::empty());
        assert(non_empty(all) =~= (if first.len() == 0 {
            non_empty(rest)
        } else {
            seq![first] + non_empty(rest)
        }));
    } else {
        assert(all.drop_last() =~= seq![first] + rest.drop_last());
        assert(all.last() == rest.last());
        non_empty_from_the_front(first, rest.drop_last());
        assert(non_empty(all) =~= (if first.len() == 0 {
            non_empty(rest)
        } else {
            seq![first] + non_empty(rest)
        }));
    }
}

/// Words are what stands between ASCII spaces: a word ends where a space follows, and
/// spaces make no words.
pub proof fn words_stand_between_spaces(word: Seq<char>, space: char, rest: Seq<char>)
    requires
        space == ' ' || space == '\t' || space == '\n' || space == '\r' || space == '\u{c}',
        forall|i: int|
            0 <= i < word.len() ==> #[trigger] word[i] != ' ' && word[i] != '\t' && word[i] != '\n'
                && word[i] != '\r' && word[i] != '\u{c}',
    ensures
        word.len() > 0 ==> words(word) == seq![word],
        word.len() > 0 ==> words(word + seq![space] + rest) == seq![word] + words(rest),
        word.len() == 0 ==> words(word + seq![space] + rest) == words(rest),
{
    let s = word + seq![space] + rest;
    assert(blanked(word) =~= word);
    assert(blanked(s) =~= word + seq![' '] + blanked(rest));
    assert(!word.contains(' ')) by {
        if word.contains(' ') {
            let k = word.index_of(' ');
            assert(word[k] == ' ');
        }
    }
    no_mark_no_split(word, ' ');
    mark_splits(word, ' ', blanked(rest));
    non_empty_from_the_front(word, split_on(blanked(rest), ' '));
    if word.len() > 0 {
        non_empty_from_the_front(word, Seq::empty());
        assert(seq![word] + Seq::<Seq<char>>::empty() =~= seq![word]);
        assert(non_empty(Seq::<Seq<char>>::empty()) =~= Seq::<Seq<char>>::empty());
    }
}

proof fn even_words_from_the_front(
    first: Seq<char>,
    second: Seq<char>,
    rest: Seq<Seq<char>>,
)
    ensures
        words_of_even(seq![first, second] + rest) == words(first) + words_of_even(rest),
    decreases rest.len(),
{
    let all = seq![first, second] + rest;
    if rest.len() == 0 {
        assert(all =~= seq![first, second]);
        assert(all.drop_last() =~= seq![first]);
        assert(seq![first].drop_last() =~= Seq::<Seq<char>>::empty());
        assert(words_of_even(Seq::<Seq<char>>::empty()) =~= Seq::<Seq<char>>::empty());
        assert(words_of_even(seq![first]) =~= words(first));
        assert(words_of_even(rest) =~= Seq::<Seq<char>>::empty());
        assert(words_of_even(all) =~= words(first) + words_of_even(rest));
    } else {
        assert(all.drop_last() =~= seq![first, second] + rest.drop_last());
        assert(all.last() == rest.last());
        even_words_from_the_front(first, second, rest.drop_last());
        assert(words_of_even(all) =~= words(first) + words_of_even(rest));
    }
}

/// What stands between two quotes is text and no operator: only the words outside of it
/// are looked at. A quote that is not closed reaches to the end.
pub proof fn quoted_words_are_passed_over(front: Seq<char>, quoted: Seq<char>, back: Seq<char>)
    requires
        !front.contains('"'),
        !quoted.contains('"'),
    ensures
        unquoted_words(front) == words(front),
        unquoted_words(front + seq!['"'] + quoted) == words(front),
        unquoted_words(front + seq!['"'] + quoted + seq!['"'] + back) == words(front)
            + unquoted_words(back),
{
    no_mark_no_split(front, '"');
    assert(seq![front].drop_last() =~= Seq::<Seq<char>>::empty());
    assert(words_of_even(Seq::<Seq<char>>::empty()) =~= Seq::<Seq<char>>::empty());
    assert(words_of_even(seq![front]) =~= words(front));
    mark_splits(front, '"', quoted);
    no_mark_no_split(quoted, '"');
    assert(seq![front] + seq![quoted] =~= seq![front, quoted] + Seq::<Seq<char>>::empty());
    even_words_from_the_front(front, quoted, Seq::empty());
    assert(words(front) + Seq::<Seq<char>>::empty() =~= words(front));
    let tail = quoted + seq!['"'] + back;
    assert(front + seq!['"'] + quoted + seq!['"'] + back =~= front + seq!['"'] + tail);
    mark_splits(front, '"', tail);
    mark_splits(quoted, '"', back);
    assert(seq![front] + (seq![quoted] + split_on(back, '"')) =~= seq![front, quoted] + split_on(
        back,
        '"',
    ));
    even_words_from_the_front(front, quoted, split_on(back, '"'));
}

/// The posts of a user in a channel are searched for by both names.
pub proof fn posts_are_searched_for_by_author(username: &str, channel: &str, r: String)
    requires
        call_ensures(authored_terms, (username, channel), r),
    ensures
        r@ == "from:"@ + username@ + " in:"@ + channel@,
{
}

/// What is said of a word that conflicts with what was asked for otherwise.
pub proof fn conflicts_name_the_word(word: Seq<char>, scopes: ChanvoyScopes)
    ensures
        ({
            let why = word_conflict(word, scopes);
            let lower = lowered(word);
            let token = debug_quoted(word) + ")"@;
            &&& "in:"@.is_prefix_of(lower) && scopes.channel_arg ==> why->0
                =~= "inline `in:` operator in search query conflicts with the channel argument; channel argument defines search scope; remove inline `in:` or run a future team-wide search mode (offending token: "@
                + token
            &&& "from:"@.is_prefix_of(lower) && scopes.from_flag ==> why->0
                =~= "inline `from:` operator in search query conflicts with the `--from` flag; pick one (offending token: "@
                + token
            &&& "before:"@.is_prefix_of(lower) && scopes.since_flag ==> why->0
                =~= "inline `before:` operator in search query conflicts with the `--since` flag (both define the search time window); pick one (offending token: "@
                + token
            &&& "after:"@.is_prefix_of(lower) && scopes.since_flag ==> why->0
                =~= "inline `after:` operator in search query conflicts with the `--since` flag (both define the search time window); pick one (offending token: "@
                + token
        }),
{
    reveal_strlit("in:");
    reveal_strlit("from:");
    reveal_strlit("before:");
    reveal_strlit("after:");
    let lower = lowered(word);
    assert("in:"@[0] == 'i' && "from:"@[0] == 'f' && "before:"@[0] == 'b' && "after:"@[0] == 'a');
    assert("in:"@.is_prefix_of(lower) ==> lower[0] == 'i');
    assert("from:"@.is_prefix_of(lower) ==> lower[0] == 'f');
    assert("before:"@.is_prefix_of(lower) ==> lower[0] == 'b');
    assert("after:"@.is_prefix_of(lower) ==> lower[0] == 'a');
}

} // verus!
