//! What the functions on text and on the other values give.

use vstd::prelude::*;

use crate::template_function::{
    fill_width, is_not_empty, signature_timestamp, Signature, SignatureFunction, StringFunction,
    StringListFunction, Timestamp, TimestampRange, TimestampRangeFunction,
};
use crate::text_util::{
    contains, first_line, is_part_of, is_white_space, lemma_before_index, lemma_index_of,
    lemma_word_len, lines, lines_of, lowercase, split_email, uppercase,
    white_space_sets_words_apart, words, words_of,
};

verus! {

/// The lines of a text are what comes before each of its line feeds, and what comes after the last
/// one unless that is nothing. A carriage return right before a line feed is no part of the line;
/// every other character is.
pub proof fn lines_are_set_apart_by_line_feeds(line: Seq<char>, rest: Seq<char>)
    requires
        !line.contains('\n'),
    ensures
        lines_of(Seq::empty()) == Seq::<Seq<char>>::empty(),
        line.len() > 0 ==> lines_of(line) == seq![line],
        !(line.len() > 0 && line.last() == '\r') ==> lines_of(line + seq!['\n'] + rest)
            == seq![line] + lines_of(rest),
        lines_of(line + seq!['\r', '\n'] + rest) == seq![line] + lines_of(rest),
{
    assert forall|i: int| 0 <= i < line.len() implies line[i] != '\n' by {
        assert(line.contains(line[i]));
    }
    let end = line.len() as int;
    lemma_index_of(line, '\n', end);
    let plain = line + seq!['\n'] + rest;
    lemma_index_of(plain, '\n', end);
    assert(plain.take(end) =~= line);
    assert(plain.skip(end + 1) =~= rest);
    let returned = line + seq!['\r', '\n'] + rest;
    lemma_index_of(returned, '\n', end + 1);
    assert(returned.take(end + 1) =~= line.push('\r'));
    assert(line.push('\r').drop_last() =~= line);
    assert(returned.skip(end + 2) =~= rest);
}

/// A text without white space is one word, unless it is empty. Where white space stands between two
/// texts, the words are those of the one and then those of the other.
pub proof fn words_are_set_apart_by_white_space(
    word: Seq<char>,
    before: Seq<char>,
    c: char,
    after: Seq<char>,
)
    ensures
        words_of(Seq::empty()) == Seq::<Seq<char>>::empty(),
        word.len() > 0 && (forall|i: int| 0 <= i < word.len() ==> !is_white_space(word[i]))
            ==> words_of(word) == seq![word],
        is_white_space(c) ==> words_of(before + seq![c] + after) == words_of(before) + words_of(
            after,
        ),
{
    if word.len() > 0 && (forall|i: int| 0 <= i < word.len() ==> !is_white_space(word[i])) {
        lemma_word_len(word, word.len() as int);
        assert(word.take(word.len() as int) =~= word);
        assert(words_of(word) =~= seq![word]);
    }
    if is_white_space(c) {
        assert(before + seq![c] + after =~= before.push(c) + after);
        white_space_sets_words_apart(before, c, after);
    }
}

/// A text is part of another exactly where the other is something, the text, and something else.
pub proof fn parts_have_surroundings(needle: Seq<char>, before: Seq<char>, after: Seq<char>)
    ensures
        is_part_of(needle, before + needle + after),
        forall|haystack: Seq<char>| #[trigger]
            is_part_of(needle, haystack) ==> exists|a: Seq<char>, b: Seq<char>|
                haystack == #[trigger] (a + needle + b),
{
    let whole = before + needle + after;
    let start = before.len() as int;
    assert(whole.subrange(start, start + needle.len()) =~= needle);
    assert forall|haystack: Seq<char>| #[trigger] is_part_of(needle, haystack) implies exists|
        a: Seq<char>,
        b: Seq<char>,
    | haystack == #[trigger] (a + needle + b) by {
        let i = choose|i: int|
            0 <= i <= haystack.len() - needle.len() && #[trigger] haystack.subrange(
                i,
                i + needle.len(),
            ) == needle;
        let a = haystack.take(i);
        let b = haystack.skip(i + needle.len());
        assert(haystack =~= a + haystack.subrange(i, i + needle.len()) + b);
        assert(haystack == a + needle + b);
    }
}

/// An address is split at its first `@`, which is in neither part. Without one, it is all in the
/// first part.
pub proof fn addresses_are_split_at_first_sign(
    address: &str,
    user: Seq<char>,
    domain: Seq<char>,
    parts: (String, Option<String>),
)
    requires
        !user.contains('@'),
        call_ensures(split_email, (address,), parts),
    ensures
        address@ == user + seq!['@'] + domain ==> {
            &&& parts.0@ == user
            &&& parts.1 matches Some(d)
            &&& d@ == domain
        },
        address@ == user ==> parts.0@ == user && parts.1 is None,
{
    assert forall|i: int| 0 <= i < user.len() implies user[i] != '@' by {
        assert(user.contains(user[i]));
    }
    let end = user.len() as int;
    lemma_index_of(user, '@', end);
    let whole = user + seq!['@'] + domain;
    lemma_index_of(whole, '@', end);
    assert(whole.take(end) =~= user);
    assert(whole.skip(end + 1) =~= domain);
    assert(user.take(end) =~= user);
}

/// `lines`, `first_line`, `words` and `contains` give what is said of them.
pub proof fn text_functions_return_their_values(
    s: &str,
    needle: &str,
    all: Vec<String>,
    first: String,
    found: bool,
)
    ensures
        call_ensures(lines, (s,), all) ==> all.deep_view() == lines_of(s@),
        call_ensures(words, (s,), all) ==> all.deep_view() == words_of(s@),
        call_ensures(first_line, (s,), first) ==> first@ == (if lines_of(s@).len() == 0 {
            Seq::empty()
        } else {
            lines_of(s@)[0]
        }),
        call_ensures(contains, (s, needle), found) ==> found == is_part_of(needle@, s@),
        call_ensures(is_not_empty, (s,), found) ==> (found <==> s@ != Seq::<char>::empty()),
{
    if s@.len() == 0 {
        assert(s@ =~= Seq::empty());
    }
}

/// The functions that properties apply to values give what they are named after. A width that is
/// no `usize` counts as 0.
pub proof fn value_functions_return_their_values(
    s: &str,
    signature: Signature,
    range: TimestampRange,
    width: i64,
)
    ensures
        forall|r: String| #[trigger]
            call_ensures(StringFunction::call, (StringFunction::Upper, s), r) ==> r@ == uppercase(
                s@,
            ),
        forall|r: String| #[trigger]
            call_ensures(StringFunction::call, (StringFunction::Lower, s), r) ==> r@ == lowercase(
                s@,
            ),
        forall|r: String| #[trigger]
            call_ensures(StringFunction::call, (StringFunction::FirstLine, s), r) ==> r@ == (
            if lines_of(s@).len() == 0 {
                Seq::empty()
            } else {
                lines_of(s@)[0]
            }),
        forall|r: Vec<String>| #[trigger]
            call_ensures(StringListFunction::call, (StringListFunction::Lines, s), r)
                ==> r.deep_view() == lines_of(s@),
        forall|r: Vec<String>| #[trigger]
            call_ensures(StringListFunction::call, (StringListFunction::Words, s), r)
                ==> r.deep_view() == words_of(s@),
        forall|r: String| #[trigger]
            call_ensures(SignatureFunction::call, (SignatureFunction::Name, signature), r) ==> r@
                == signature.name@,
        forall|r: String| #[trigger]
            call_ensures(SignatureFunction::call, (SignatureFunction::Email, signature), r) ==> r@
                == signature.email@,
        forall|r: String| #[trigger]
            call_ensures(SignatureFunction::call, (SignatureFunction::Username, signature), r) ==> {
                &&& r@.is_prefix_of(signature.email@)
                &&& !r@.contains('@')
                &&& r@.len() < signature.email@.len() ==> signature.email@[r@.len() as int] == '@'
            },
        forall|r: Timestamp| #[trigger]
            call_ensures(signature_timestamp, (&signature,), r) ==> r == signature.timestamp,
        forall|r: Timestamp| #[trigger]
            call_ensures(TimestampRangeFunction::call, (TimestampRangeFunction::Start, range), r)
                ==> r == range.start,
        forall|r: Timestamp| #[trigger]
            call_ensures(TimestampRangeFunction::call, (TimestampRangeFunction::End, range), r)
                ==> r == range.end,
        forall|r: usize| #[trigger]
            call_ensures(fill_width, (width,), r) ==> if 0 <= width <= usize::MAX {
                r == width
            } else {
                r == 0
            },
{
    lemma_before_index(signature.email@, '@');
}

} // verus!
