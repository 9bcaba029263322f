//! Text operations of the workspace logic.

use vstd::prelude::*;
use vstd::string::*;
use vstd::utf8::*;

verus! {

/// The characters with the Unicode `White_Space` property.
pub open spec fn white_space(c: char) -> bool {
    let code = c as u32;
    ||| 0x09 <= code <= 0x0d
    ||| code == 0x20
    ||| code == 0x85
    ||| code == 0xa0
    ||| code == 0x1680
    ||| 0x2000 <= code <= 0x200a
    ||| code == 0x2028
    ||| code == 0x2029
    ||| code == 0x202f
    ||| code == 0x205f
    ||| code == 0x3000
}

/// `char::is_whitespace` tells whether a character has the Unicode `White_Space` property.
pub assume_specification[ char::is_whitespace ](c: char) -> (space: bool)
    ensures
        space == white_space(c),
;

/// A text without the white space at its two ends.
pub open spec fn trimmed(s: Seq<char>) -> Seq<char>
    decreases s.len(),
{
    if s.len() > 0 && white_space(s.first()) {
        trimmed(s.drop_first())
    } else if s.len() > 0 && white_space(s.last()) {
        trimmed(s.drop_last())
    } else {
        s
    }
}

/// A text without the copies of `c` at its end.
pub open spec fn without_trailing(s: Seq<char>, c: char) -> Seq<char>
    decreases s.len(),
{
    if s.len() > 0 && s.last() == c {
        without_trailing(s.drop_last(), c)
    } else {
        s
    }
}

/// The code of a character, with the capital letters of ASCII taken as small ones.
pub open spec fn ascii_folded(c: char) -> u32 {
    if 0x41 <= c as u32 <= 0x5a {
        (c as u32 + 0x20) as u32
    } else {
        c as u32
    }
}

/// Two texts are equal but for the case of ASCII letters.
pub open spec fn equal_ignoring_ascii_case(a: Seq<char>, b: Seq<char>) -> bool {
    &&& a.len() == b.len()
    &&& forall|i: int| 0 <= i < a.len() ==> ascii_folded(#[trigger] a[i]) == ascii_folded(b[i])
}

/// What text an optional borrowed string holds.
pub open spec fn opt_text(s: Option<&str>) -> Option<Seq<char>> {
    match s {
        Some(s) => Some(s@),
        None => None,
    }
}

/// What text an optional owned string holds.
pub open spec fn opt_string(s: Option<String>) -> Option<Seq<char>> {
    match s {
        Some(s) => Some(s@),
        None => None,
    }
}

/// The texts of a list of strings.
pub open spec fn texts(list: Seq<String>) -> Seq<Seq<char>> {
    Seq::new(list.len(), |i: int| list[i]@)
}

/// The text without the white space at its two ends.
pub fn trim<'a>(s: &'a str) -> (rest: &'a str)
    ensures
        rest@ == trimmed(s@),
{
    let mut from: usize = 0;
    let mut to: usize = s.unicode_len();
    assert(s@.subrange(0, s@.len() as int) == s@);
    while from < to && s.get_char(from).is_whitespace()
        invariant
            from <= to,
            to == s@.len(),
            trimmed(s@.subrange(from as int, to as int)) == trimmed(s@),
        decreases to - from,
    {
        assert(s@.subrange(from as int, to as int).drop_first() == s@.subrange(
            from + 1,
            to as int,
        ));
        from += 1;
    }
    while from < to && s.get_char(to - 1).is_whitespace()
        invariant
            from <= to <= s@.len(),
            from < to ==> !white_space(s@[from as int]),
            trimmed(s@.subrange(from as int, to as int)) == trimmed(s@),
        decreases to,
    {
        assert(s@.subrange(from as int, to as int).drop_last() == s@.subrange(from as int, to - 1));
        to -= 1;
    }
    s.substring_char(from, to)
}

/// The text without the copies of `c` at its end.
pub fn trim_end_matches<'a>(s: &'a str, c: char) -> (rest: &'a str)
    ensures
        rest@ == without_trailing(s@, c),
{
    let mut to: usize = s.unicode_len();
    assert(s@.subrange(0, s@.len() as int) == s@);
    while to > 0 && s.get_char(to - 1) == c
        invariant
            to <= s@.len(),
            without_trailing(s@.subrange(0, to as int), c) == without_trailing(s@, c),
        decreases to,
    {
        assert(s@.subrange(0, to as int).drop_last() == s@.subrange(0, to - 1));
        to -= 1;
    }
    s.substring_char(0, to)
}

/// Whether two texts are the same.
pub fn text_equal(a: &str, b: &str) -> (equal: bool)
    ensures
        equal == (a@ == b@),
{
    a.to_owned().eq(&b.to_owned())
}

fn ascii_fold(c: char) -> (code: u32)
    ensures
        code == ascii_folded(c),
{
    let code: u32 = c as u32;
    if 0x41 <= code && code <= 0x5a {
        code + 0x20
    } else {
        code
    }
}

/// Whether two texts are the same but for the case of ASCII letters.
pub fn eq_ignore_ascii_case(a: &str, b: &str) -> (equal: bool)
    ensures
        equal == equal_ignoring_ascii_case(a@, b@),
{
    let count: usize = a.unicode_len();
    if count != b.unicode_len() {
        return false;
    }
    let mut i: usize = 0;
    while i < count
        invariant
            i <= count,
            count == a@.len(),
            count == b@.len(),
            forall|j: int| 0 <= j < i ==> ascii_folded(#[trigger] a@[j]) == ascii_folded(b@[j]),
        decreases count - i,
    {
        let left = a.get_char(i);
        let right = b.get_char(i);
        if ascii_fold(left) != ascii_fold(right) {
            assert(a@[i as int] == left);
            return false;
        }
        i += 1;
    }
    true
}

/// The text that `{:?}` gives for a string: the string in double quotes, with escapes.
pub uninterp spec fn debug_text(s: Seq<char>) -> Seq<char>;

/// A printable ASCII character that a quoted string shows as it is.
pub open spec fn plain_character(c: char) -> bool {
    0x20 <= c as u32 <= 0x7e && c != '"' && c != '\\'
}

/// The `Debug` form of a `str`, as `format!` gives it for `{:?}`.
///
/// The escapes are left to the standard library. Stated is that a string of plain characters
/// comes out unchanged, between double quotes.
#[verifier::external_body]
pub(crate) fn quoted(s: &str) -> (quote: String)
    ensures
        quote@ == debug_text(s@),
        (forall|i: int| 0 <= i < s@.len() ==> plain_character(#[trigger] s@[i])) ==> quote@
            == seq!['"'] + s@ + seq!['"'],
{
    format!("{:?}", s)
}

/// The text that a lossy reading makes of bytes.
pub uninterp spec fn lossy_text(bytes: Seq<u8>) -> Seq<char>;

/// `String::from_utf8_lossy`: valid UTF-8 is read as it stands. What the replacement characters
/// stand for in other input is left to the standard library.
#[verifier::external_body]
pub(crate) fn from_utf8_lossy(bytes: &Vec<u8>) -> (text: String)
    ensures
        text@ == lossy_text(bytes@),
        valid_utf8(bytes@) ==> text@ == decode_utf8(bytes@),
{
    String::from_utf8_lossy(bytes).into_owned()
}

/// Trimming leaves a piece of the text with no white space at either end, and trimming that
/// piece again changes nothing.
pub proof fn trimming_is_idempotent(s: Seq<char>)
    ensures
        trimmed(s).len() > 0 ==> !white_space(trimmed(s).first()) && !white_space(
            trimmed(s).last(),
        ),
        trimmed(trimmed(s)) == trimmed(s),
        exists|from: int, to: int|
            0 <= from <= to <= s.len() && #[trigger] s.subrange(from, to) == trimmed(s),
    decreases s.len(),
{
    if s.len() > 0 && white_space(s.first()) {
        let rest = s.drop_first();
        trimming_is_idempotent(rest);
        let (from, to) = choose|from: int, to: int|
            0 <= from <= to <= rest.len() && #[trigger] rest.subrange(from, to) == trimmed(rest);
        assert(s.subrange(from + 1, to + 1) == rest.subrange(from, to));
    } else if s.len() > 0 && white_space(s.last()) {
        let rest = s.drop_last();
        trimming_is_idempotent(rest);
        let (from, to) = choose|from: int, to: int|
            0 <= from <= to <= rest.len() && #[trigger] rest.subrange(from, to) == trimmed(rest);
        assert(s.subrange(from, to) == rest.subrange(from, to));
    } else {
        assert(s.subrange(0, s.len() as int) == s);
    }
}

/// White space in ASCII is the tab, the line feed, the vertical tab, the form feed, the carriage
/// return and the space. Beyond ASCII it is the next line, the no-break spaces, the spaces of
/// printing, and the line and paragraph separators.
pub proof fn white_space_is_what_unicode_says(c: char)
    ensures
        (c as u32) < 0x80 ==> (white_space(c) <==> (c == '\t' || c == '\n' || c == '\x0b' || c
            == '\x0c' || c == '\r' || c == ' ')),
        (c as u32) >= 0x80 ==> (white_space(c) <==> (c == '\u{85}' || c == '\u{a0}' || c == '\u{1680}'
            || ('\u{2000}' <= c && c <= '\u{200a}') || c == '\u{2028}' || c == '\u{2029}' || c
            == '\u{202f}' || c == '\u{205f}' || c == '\u{3000}')),
{
}

/// Whatever white space stands around a text that has none at its ends, trimming gives that text.
pub proof fn trimming_gives_what_stands_between(
    before: Seq<char>,
    core: Seq<char>,
    behind: Seq<char>,
)
    requires
        forall|i: int| 0 <= i < before.len() ==> white_space(#[trigger] before[i]),
        forall|i: int| 0 <= i < behind.len() ==> white_space(#[trigger] behind[i]),
        core.len() > 0 ==> !white_space(core.first()) && !white_space(core.last()),
    ensures
        trimmed(before + core + behind) == core,
    decreases before.len() + behind.len(),
{
    let s = before + core + behind;
    if before.len() > 0 {
        assert(s.first() == before[0]);
        assert(s.drop_first() =~= before.drop_first() + core + behind);
        trimming_gives_what_stands_between(before.drop_first(), core, behind);
    } else if behind.len() > 0 {
        if core.len() == 0 {
            assert(s =~= behind);
            assert(s.first() == behind[0]);
            assert(s.drop_first() =~= before + core + behind.drop_first());
            trimming_gives_what_stands_between(before, core, behind.drop_first());
        } else {
            assert(s.first() == core.first());
            assert(s.last() == behind[behind.len() - 1]);
            assert(s.drop_last() =~= before + core + behind.drop_last());
            trimming_gives_what_stands_between(before, core, behind.drop_last());
        }
    } else {
        assert(s =~= core);
    }
}

/// However often a character stands behind a text that does not end in it, taking it off the end
/// gives that text.
pub proof fn taking_off_the_end_gives_the_rest(base: Seq<char>, c: char, times: nat)
    requires
        base.len() > 0 ==> base.last() != c,
    ensures
        without_trailing(base + Seq::new(times, |i: int| c), c) == base,
    decreases times,
{
    let s = base + Seq::new(times, |i: int| c);
    if times > 0 {
        let fewer = (times - 1) as nat;
        taking_off_the_end_gives_the_rest(base, c, fewer);
        assert(s.last() == c);
        assert(s.drop_last() =~= base + Seq::new(fewer, |i: int| c));
    } else {
        assert(s =~= base);
    }
}

/// What is taken off the end of a text is nothing but the character, and all of it: the rest
/// begins the text, does not end in the character, and only copies of the character follow it.
pub proof fn only_the_character_is_taken_off(s: Seq<char>, c: char)
    ensures
        ({
            let rest = without_trailing(s, c);
            &&& rest.len() <= s.len()
            &&& s.take(rest.len() as int) == rest
            &&& rest.len() > 0 ==> rest.last() != c
            &&& forall|i: int| rest.len() <= i < s.len() ==> s[i] == c
        }),
    decreases s.len(),
{
    if s.len() > 0 && s.last() == c {
        only_the_character_is_taken_off(s.drop_last(), c);
        let rest = without_trailing(s, c);
        assert(s.take(rest.len() as int) =~= s.drop_last().take(rest.len() as int));
        assert forall|i: int| rest.len() <= i < s.len() implies s[i] == c by {
            if i < s.len() - 1 {
                assert(s.drop_last()[i] == c);
            }
        }
    } else {
        assert(s.take(s.len() as int) =~= s);
    }
}

/// Two texts are equal but for ASCII case exactly when they are equally long and, character by
/// character, equal or the capital and the small form of one ASCII letter.
pub proof fn ascii_case_alone_is_ignored(a: Seq<char>, b: Seq<char>)
    ensures
        equal_ignoring_ascii_case(a, b) <==> a.len() == b.len() && (forall|i: int|
            0 <= i < a.len() ==> (#[trigger] a[i] == b[i] || ('A' <= a[i] && a[i] <= 'Z'
                && b[i] as u32 == a[i] as u32 + 32) || ('A' <= b[i] && b[i] <= 'Z' && a[i] as u32
                == b[i] as u32 + 32))),
{
    if equal_ignoring_ascii_case(a, b) {
        assert forall|i: int| 0 <= i < a.len() implies (#[trigger] a[i] == b[i] || ('A' <= a[i]
            && a[i] <= 'Z' && b[i] as u32 == a[i] as u32 + 32) || ('A' <= b[i] && b[i] <= 'Z'
            && a[i] as u32 == b[i] as u32 + 32)) by {
            assert(ascii_folded(a[i]) == ascii_folded(b[i]));
            lemma_folded_alike(a[i], b[i]);
        }
    }
}

proof fn lemma_folded_alike(a: char, b: char)
    ensures
        ascii_folded(a) == ascii_folded(b) ==> a == b || ('A' <= a && a <= 'Z' && b as u32 == a as u32
            + 32) || ('A' <= b && b <= 'Z' && a as u32 == b as u32 + 32),
{
}

/// The content of an optional text or of a list of strings is what the strings hold.
pub proof fn contents_of_texts_are_their_strings(
    borrowed: Option<&str>,
    owned: Option<String>,
    list: Seq<String>,
)
    ensures
        borrowed is None <==> opt_text(borrowed) is None,
        borrowed matches Some(text) ==> opt_text(borrowed) == Some(text@),
        owned is None <==> opt_string(owned) is None,
        owned matches Some(text) ==> opt_string(owned) == Some(text@),
        texts(list).len() == list.len(),
        forall|i: int| 0 <= i < list.len() ==> (#[trigger] texts(list)[i]) == list[i]@,
{
}

} // verus!
