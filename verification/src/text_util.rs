//! Functions on text.

use vstd::prelude::*;

verus! {

/// `<str as PartialEq>::eq` tells whether the strings have the same characters.
pub assume_specification[ <str as PartialEq>::eq ](a: &str, b: &str) -> (equal: bool)
    ensures
        equal == (a@ == b@),
;

/// `String::push` appends the character to the string.
pub assume_specification[ std::string::String::push ](s: &mut std::string::String, c: char)
    ensures
        final(s)@ == old(s)@.push(c),
;

/// The string in upper case, by the Unicode mappings that `str::to_uppercase` uses.
pub uninterp spec fn uppercase(s: Seq<char>) -> Seq<char>;

/// `str::to_uppercase` gives the string in upper case. What that is, is not said here.
pub assume_specification[ str::to_uppercase ](s: &str) -> (upper: std::string::String)
    ensures
        upper@ == uppercase(s@),
;

/// The string in lower case, by the Unicode mappings that `str::to_lowercase` uses.
pub uninterp spec fn lowercase(s: Seq<char>) -> Seq<char>;

/// `str::to_lowercase` gives the string in lower case. What that is, is not said here.
pub assume_specification[ str::to_lowercase ](s: &str) -> (lower: std::string::String)
    ensures
        lower@ == lowercase(s@),
;

/// Whether the character has the property `White_Space`, as `PropList.txt` of the Unicode
/// Character Database lists it.
pub open spec fn is_white_space(c: char) -> bool {
    let n = c as u32;
    ||| 0x9 <= n <= 0xd
    ||| n == 0x20
    ||| n == 0x85
    ||| n == 0xa0
    ||| n == 0x1680
    ||| 0x2000 <= n <= 0x200a
    ||| 0x2028 <= n <= 0x2029
    ||| n == 0x202f
    ||| n == 0x205f
    ||| n == 0x3000
}

/// `char::is_whitespace` tells whether the character has the property `White_Space`.
pub assume_specification[ char::is_whitespace ](c: char) -> (white_space: bool)
    ensures
        white_space == is_white_space(c),
;

/// Whether `needle` is found somewhere in `haystack`.
pub open spec fn is_part_of(needle: Seq<char>, haystack: Seq<char>) -> bool {
    exists|i: int|
        0 <= i <= haystack.len() - needle.len() && #[trigger] haystack.subrange(
            i,
            i + needle.len(),
        ) == needle
}

/// `str::contains` with a string as the pattern tells whether the pattern matches a part of the
/// string.
#[verifier::external_body]
fn str_contains(haystack: &str, needle: &str) -> (found: bool)
    ensures
        found == is_part_of(needle@, haystack@),
{
    haystack.contains(needle)
}

/// How many characters come before the first `c`.
pub open spec fn index_of(s: Seq<char>, c: char) -> nat
    decreases s.len(),
{
    if s.len() == 0 || s[0] == c {
        0
    } else {
        1 + index_of(s.skip(1), c)
    }
}

/// The line without the carriage return at its end, if there is one.
pub open spec fn strip_carriage_return(line: Seq<char>) -> Seq<char> {
    if line.len() > 0 && line.last() == '\r' {
        line.drop_last()
    } else {
        line
    }
}

/// The lines of the text. A line ends with a line feed, or with a carriage return and a line feed,
/// which are no part of it. After the last line, the line feed may be missing.
pub open spec fn lines_of(s: Seq<char>) -> Seq<Seq<char>>
    decreases s.len(),
{
    let end = index_of(s, '\n') as int;
    if s.len() == 0 {
        Seq::empty()
    } else if end >= s.len() {
        seq![s]
    } else {
        seq![strip_carriage_return(s.take(end))] + lines_of(s.skip(end + 1))
    }
}

/// The first line of the text, or nothing if there is none.
pub open spec fn first_line_of(s: Seq<char>) -> Seq<char> {
    if lines_of(s).len() == 0 {
        Seq::empty()
    } else {
        lines_of(s)[0]
    }
}

/// How many characters come before the first white space.
pub open spec fn word_len(s: Seq<char>) -> nat
    decreases s.len(),
{
    if s.len() == 0 || is_white_space(s[0]) {
        0
    } else {
        1 + word_len(s.skip(1))
    }
}

/// The parts of the text that hold no white space and are as long as can be.
pub open spec fn words_of(s: Seq<char>) -> Seq<Seq<char>>
    decreases s.len(),
{
    if s.len() == 0 {
        Seq::empty()
    } else if is_white_space(s[0]) {
        words_of(s.skip(1))
    } else {
        let end = word_len(s) as int;
        seq![s.take(end)] + (if end < s.len() {
            words_of(s.skip(end))
        } else {
            Seq::empty()
        })
    }
}

/// `index_of` is the only index that has no `c` before it, and `c` or the end at it.
pub proof fn lemma_index_of(s: Seq<char>, c: char, n: int)
    requires
        0 <= n <= s.len(),
        forall|i: int| 0 <= i < n ==> s[i] != c,
        n < s.len() ==> s[n] == c,
    ensures
        index_of(s, c) == n,
    decreases n,
{
    if n > 0 {
        assert forall|i: int| 0 <= i < n - 1 implies s.skip(1)[i] != c by {
            assert(s[i + 1] != c);
        }
        lemma_index_of(s.skip(1), c, n - 1);
    }
}

/// `word_len` is the only length that has no white space below it, and white space or the end at
/// it.
pub proof fn lemma_word_len(s: Seq<char>, n: int)
    requires
        0 <= n <= s.len(),
        forall|i: int| 0 <= i < n ==> !is_white_space(s[i]),
        n < s.len() ==> is_white_space(s[n]),
    ensures
        word_len(s) == n,
    decreases n,
{
    if n > 0 {
        assert forall|i: int| 0 <= i < n - 1 implies !is_white_space(s.skip(1)[i]) by {
            assert(!is_white_space(s[i + 1]));
        }
        lemma_word_len(s.skip(1), n - 1);
    }
}

/// What comes before `index_of` is not `c`, and what comes at it is.
pub proof fn lemma_before_index(s: Seq<char>, c: char)
    ensures
        index_of(s, c) <= s.len(),
        forall|i: int| 0 <= i < index_of(s, c) ==> s[i] != c,
        index_of(s, c) < s.len() ==> s[index_of(s, c) as int] == c,
    decreases s.len(),
{
    if s.len() > 0 && s[0] != c {
        lemma_before_index(s.skip(1), c);
        assert forall|i: int| 0 <= i < index_of(s, c) implies s[i] != c by {
            if i > 0 {
                assert(s[i] == s.skip(1)[i - 1]);
            }
        }
    }
}

/// The first line is the start of the text and holds no line feed.
pub proof fn first_line_is_start(s: Seq<char>)
    ensures
        first_line_of(s).is_prefix_of(s),
        !first_line_of(s).contains('\n'),
{
    lemma_before_index(s, '\n');
    let end = index_of(s, '\n') as int;
    if 0 < s.len() && end < s.len() {
        assert(lines_of(s)[0] == strip_carriage_return(s.take(end)));
    }
}

/// What comes before `word_len` is not white space, and what comes at it is.
proof fn lemma_before_word_len(s: Seq<char>)
    ensures
        word_len(s) <= s.len(),
        forall|i: int| 0 <= i < word_len(s) ==> !is_white_space(s[i]),
        word_len(s) < s.len() ==> is_white_space(s[word_len(s) as int]),
    decreases s.len(),
{
    if s.len() > 0 && !is_white_space(s[0]) {
        lemma_before_word_len(s.skip(1));
        assert forall|i: int| 0 <= i < word_len(s) implies !is_white_space(s[i]) by {
            if i > 0 {
                assert(s[i] == s.skip(1)[i - 1]);
            }
        }
    }
}

/// White space sets words apart: what stands on either side of it gives its words by itself.
pub proof fn white_space_sets_words_apart(before: Seq<char>, c: char, after: Seq<char>)
    requires
        is_white_space(c),
    ensures
        words_of(before.push(c) + after) == words_of(before) + words_of(after),
    decreases before.len(),
{
    let s = before.push(c) + after;
    if before.len() == 0 {
        assert(s.skip(1) =~= after);
    } else if is_white_space(before[0]) {
        assert(s.skip(1) =~= before.skip(1).push(c) + after);
        white_space_sets_words_apart(before.skip(1), c, after);
    } else {
        lemma_before_word_len(before);
        let end = word_len(before) as int;
        assert forall|i: int| 0 <= i < end implies !is_white_space(s[i]) by {
            assert(s[i] == before[i]);
        }
        lemma_word_len(s, end);
        assert(s.take(end) =~= before.take(end));
        assert(s.skip(end) =~= before.skip(end).push(c) + after);
        white_space_sets_words_apart(before.skip(end), c, after);
        if end == before.len() {
            assert(before.skip(end) =~= Seq::<char>::empty());
        }
        assert(words_of(s) =~= words_of(before) + words_of(after));
    }
}

/// A word is not empty and holds no white space.
pub proof fn words_hold_no_white_space(s: Seq<char>, i: int, j: int)
    requires
        0 <= i < words_of(s).len(),
    ensures
        words_of(s)[i].len() > 0,
        0 <= j < words_of(s)[i].len() ==> !is_white_space(words_of(s)[i][j]),
    decreases s.len(),
{
    if is_white_space(s[0]) {
        words_hold_no_white_space(s.skip(1), i, j);
    } else {
        lemma_before_word_len(s);
        let end = word_len(s) as int;
        if i == 0 {
            assert(words_of(s)[0] == s.take(end));
        } else {
            words_hold_no_white_space(s.skip(end), i - 1, j);
        }
    }
}

/// The characters of the string.
fn to_chars(s: &str) -> (chars: Vec<char>)
    ensures
        chars@ == s@,
{
    let mut chars: Vec<char> = Vec::new();
    for c in it: s.chars()
        invariant
            it.seq() == s@,
            chars@ == s@.take(it.index()),
    {
        chars.push(c);
    }
    assert(chars@ =~= s@);
    chars
}

/// The characters from index `from` up to `to` as a string.
fn from_chars(chars: &Vec<char>, from: usize, to: usize) -> (s: String)
    requires
        from <= to <= chars@.len(),
    ensures
        s@ == chars@.subrange(from as int, to as int),
{
    let mut s = String::new();
    for i in from..to
        invariant
            from <= to <= chars@.len(),
            s@ == chars@.subrange(from as int, i as int),
    {
        s.push(chars[i]);
        assert(s@ =~= chars@.subrange(from as int, i + 1));
    }
    s
}

/// The index of the first `c` from index `from` on, or the end.
fn find_char(chars: &Vec<char>, from: usize, c: char) -> (end: usize)
    requires
        from <= chars@.len(),
    ensures
        from <= end <= chars@.len(),
        end - from == index_of(chars@.skip(from as int), c),
        end < chars@.len() ==> chars@[end as int] == c,
{
    let mut end: usize = from;
    while end < chars.len() && chars[end] != c
        invariant
            from <= end <= chars@.len(),
            forall|i: int| from <= i < end ==> chars@[i] != c,
        decreases chars@.len() - end,
    {
        end = end + 1;
    }
    proof {
        lemma_index_of(chars@.skip(from as int), c, end - from);
    }
    end
}

/// The line in the characters from index `from` up to `to`, where a line feed follows.
fn line_before(chars: &Vec<char>, from: usize, to: usize) -> (line: String)
    requires
        from <= to <= chars@.len(),
    ensures
        line@ == strip_carriage_return(chars@.subrange(from as int, to as int)),
{
    let ghost line = chars@.subrange(from as int, to as int);
    if from < to && chars[to - 1] == '\r' {
        assert(line.drop_last() =~= chars@.subrange(from as int, to - 1));
        from_chars(chars, from, to - 1)
    } else {
        from_chars(chars, from, to)
    }
}

/// The lines of the text.
pub fn lines(s: &str) -> (lines: Vec<String>)
    ensures
        lines.deep_view() == lines_of(s@),
{
    let chars = to_chars(s);
    let mut lines: Vec<String> = Vec::new();
    let mut from: usize = 0;
    assert(chars@.skip(0) =~= chars@);
    assert(lines.deep_view() =~= Seq::<Seq<char>>::empty());
    assert(lines.deep_view() + lines_of(chars@) =~= lines_of(s@));
    while from < chars.len()
        invariant
            from <= chars@.len(),
            lines_of(s@) == lines.deep_view() + lines_of(chars@.skip(from as int)),
        decreases chars@.len() - from,
    {
        let ghost rest = chars@.skip(from as int);
        let ghost before = lines.deep_view();
        let to = find_char(&chars, from, '\n');
        assert(rest.take(to - from) =~= chars@.subrange(from as int, to as int));
        if to < chars.len() {
            lines.push(line_before(&chars, from, to));
            assert(rest.skip(to - from + 1) =~= chars@.skip(to + 1));
            assert(lines.deep_view() =~= before.push(
                strip_carriage_return(rest.take(to - from)),
            ));
            assert(before + lines_of(rest) =~= lines.deep_view() + lines_of(chars@.skip(to + 1)));
            from = to + 1;
        } else {
            lines.push(from_chars(&chars, from, to));
            assert(rest =~= chars@.subrange(from as int, to as int));
            assert(lines.deep_view() =~= before.push(rest));
            assert(chars@.skip(to as int) =~= Seq::<char>::empty());
            assert(before + lines_of(rest) =~= lines.deep_view() + lines_of(
                chars@.skip(to as int),
            ));
            from = to;
        }
    }
    assert(chars@.skip(from as int) =~= Seq::<char>::empty());
    assert(lines.deep_view() + Seq::<Seq<char>>::empty() =~= lines.deep_view());
    lines
}

/// The first line of the text, or nothing if there is none.
pub fn first_line(s: &str) -> (line: String)
    ensures
        line@ == first_line_of(s@),
{
    let chars = to_chars(s);
    let to = find_char(&chars, 0, '\n');
    assert(chars@.skip(0) =~= s@);
    assert(chars@.subrange(0, to as int) =~= s@.take(to as int));
    if to < chars.len() {
        line_before(&chars, 0, to)
    } else {
        assert(s@.take(to as int) =~= s@);
        from_chars(&chars, 0, to)
    }
}

/// The words of the text, which are what white space sets apart.
pub fn words(s: &str) -> (words: Vec<String>)
    ensures
        words.deep_view() == words_of(s@),
{
    let chars = to_chars(s);
    let mut words: Vec<String> = Vec::new();
    let mut from: usize = 0;
    assert(chars@.skip(0) =~= chars@);
    assert(words.deep_view() + words_of(chars@) =~= words_of(s@));
    while from < chars.len()
        invariant
            from <= chars@.len(),
            words_of(s@) == words.deep_view() + words_of(chars@.skip(from as int)),
        decreases chars@.len() - from,
    {
        let ghost rest = chars@.skip(from as int);
        let ghost before = words.deep_view();
        if chars[from].is_whitespace() {
            assert(rest.skip(1) =~= chars@.skip(from + 1));
            from = from + 1;
        } else {
            let mut to: usize = from + 1;
            while to < chars.len() && !chars[to].is_whitespace()
                invariant
                    from < to <= chars@.len(),
                    forall|i: int| from <= i < to ==> !is_white_space(chars@[i]),
                decreases chars@.len() - to,
            {
                to = to + 1;
            }
            words.push(from_chars(&chars, from, to));
            proof {
                lemma_word_len(rest, to - from);
                assert(rest.take(to - from) =~= chars@.subrange(from as int, to as int));
                assert(rest.skip(to - from) =~= chars@.skip(to as int));
                assert(words.deep_view() =~= before.push(rest.take(to - from)));
                assert(before + words_of(rest) =~= words.deep_view() + words_of(
                    chars@.skip(to as int),
                ));
            }
            from = to;
        }
    }
    assert(chars@.skip(from as int) =~= Seq::<char>::empty());
    assert(words.deep_view() + Seq::<Seq<char>>::empty() =~= words.deep_view());
    words
}

/// Whether `needle` is found somewhere in `haystack`.
pub fn contains(haystack: &str, needle: &str) -> (found: bool)
    ensures
        found == is_part_of(needle@, haystack@),
{
    str_contains(haystack, needle)
}

/// Splits an email address at the first `@`.
///
/// The second part is missing where there is no `@`.
pub fn split_email(email: &str) -> (parts: (String, Option<String>))
    ensures
        parts.0@ == email@.take(index_of(email@, '@') as int),
        match parts.1 {
            Some(domain) => index_of(email@, '@') < email@.len() && domain@ == email@.skip(
                index_of(email@, '@') as int + 1,
            ),
            None => index_of(email@, '@') == email@.len(),
        },
{
    let chars = to_chars(email);
    let to = find_char(&chars, 0, '@');
    assert(chars@.skip(0) =~= email@);
    assert(chars@.subrange(0, to as int) =~= email@.take(to as int));
    let username = from_chars(&chars, 0, to);
    if to < chars.len() {
        assert(chars@.subrange(to + 1, chars@.len() as int) =~= email@.skip(to + 1));
        (username, Some(from_chars(&chars, to + 1, chars.len())))
    } else {
        (username, None)
    }
}

} // verus!
