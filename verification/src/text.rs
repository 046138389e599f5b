//! Text as sequences of characters: where a pattern occurs, what trimming and
//! case folding leave, and the standard string operations in those terms.
use vstd::prelude::*;
use vstd::string::StringExecFns;

verus! {

broadcast use vstd::string::group_string_axioms;

/// `pattern` stands in `text` starting at position `at`.
pub open spec fn occurs_at(text: Seq<char>, pattern: Seq<char>, at: int) -> bool {
    &&& 0 <= at
    &&& at + pattern.len() <= text.len()
    &&& text.subrange(at, at + pattern.len()) == pattern
}

/// `pattern` stands somewhere in `text`.
pub open spec fn occurs(text: Seq<char>, pattern: Seq<char>) -> bool {
    exists|at: int| occurs_at(text, pattern, at)
}

/// `at` is the leftmost position at which `pattern` stands in `text`.
pub open spec fn occurs_first_at(text: Seq<char>, pattern: Seq<char>, at: int) -> bool {
    &&& occurs_at(text, pattern, at)
    &&& forall|earlier: int| 0 <= earlier < at ==> !occurs_at(text, pattern, earlier)
}

/// The leftmost position at which `pattern` stands in `text`.
pub open spec fn first_occurrence(text: Seq<char>, pattern: Seq<char>) -> int
    recommends
        occurs(text, pattern),
{
    choose|at: int| occurs_first_at(text, pattern, at)
}

/// `text` with the leftmost `pattern` replaced, or `text` itself where there is none.
pub open spec fn first_replaced(
    text: Seq<char>,
    pattern: Seq<char>,
    replacement: Seq<char>,
) -> Seq<char> {
    if occurs(text, pattern) {
        let at = first_occurrence(text, pattern);
        text.take(at) + replacement + text.skip(at + pattern.len())
    } else {
        text
    }
}

/// What stands before the leftmost `pattern`, or all of `text` where there is none.
pub open spec fn before_first(text: Seq<char>, pattern: Seq<char>) -> Seq<char> {
    if occurs(text, pattern) {
        text.take(first_occurrence(text, pattern))
    } else {
        text
    }
}

/// The characters with the Unicode property `White_Space`.
pub open spec fn is_white_space(c: char) -> bool {
    ||| '\u{9}' <= c <= '\u{d}'
    ||| c == '\u{20}'
    ||| c == '\u{85}'
    ||| c == '\u{a0}'
    ||| c == '\u{1680}'
    ||| '\u{2000}' <= c <= '\u{200a}'
    ||| c == '\u{2028}'
    ||| c == '\u{2029}'
    ||| c == '\u{202f}'
    ||| c == '\u{205f}'
    ||| c == '\u{3000}'
}

/// `text` without the white space at its two ends.
pub open spec fn trimmed(text: Seq<char>) -> Seq<char>
    decreases text.len(),
{
    if text.len() > 0 && is_white_space(text.first()) {
        trimmed(text.drop_first())
    } else if text.len() > 0 && is_white_space(text.last()) {
        trimmed(text.drop_last())
    } else {
        text
    }
}

/// The lower case of an ASCII letter; any other character is its own.
pub open spec fn ascii_lower(c: char) -> char {
    if 'A' <= c <= 'Z' {
        ((c as int) + 32) as char
    } else {
        c
    }
}

/// `text` with its ASCII letters in lower case and every other character as it is.
pub open spec fn ascii_lowercased(text: Seq<char>) -> Seq<char> {
    text.map_values(|c: char| ascii_lower(c))
}

/// The upper case of an ASCII letter; any other character is its own.
pub open spec fn ascii_upper(c: char) -> char {
    if 'a' <= c <= 'z' {
        ((c as int) - 32) as char
    } else {
        c
    }
}

/// `text` with its ASCII letters in upper case and every other character as it is.
pub open spec fn ascii_uppercased(text: Seq<char>) -> Seq<char> {
    text.map_values(|c: char| ascii_upper(c))
}

/// The lower case that Unicode gives a text with characters beyond ASCII, as
/// `str::to_lowercase` computes it, multi-character expansions and the final
/// sigma included. The text comes with its ASCII letters in lower case already.
pub uninterp spec fn unicode_lowercase(text: Seq<char>) -> Seq<char>;

/// The lower case of `text`: letter by letter for ASCII, by Unicode's tables beyond.
pub open spec fn lowercased(text: Seq<char>) -> Seq<char> {
    if vstd::utf8::is_ascii_chars(text) {
        ascii_lowercased(text)
    } else {
        unicode_lowercase(ascii_lowercased(text))
    }
}

/// A leftmost position is the leftmost position.
pub proof fn lemma_first_occurrence(text: Seq<char>, pattern: Seq<char>, at: int)
    requires
        occurs_first_at(text, pattern, at),
    ensures
        occurs(text, pattern),
        first_occurrence(text, pattern) == at,
{
    let first = first_occurrence(text, pattern);
    assert(occurs_first_at(text, pattern, first));
    if first < at {
        assert(!occurs_at(text, pattern, first));
    }
    if at < first {
        assert(!occurs_at(text, pattern, at));
    }
}

/// Nothing but white space stands in `text`.
pub open spec fn is_blank(text: Seq<char>) -> bool {
    forall|i: int| 0 <= i < text.len() ==> is_white_space(text[i])
}

/// A trimmed text has no white space at its ends, so trimming it again changes
/// nothing; and trimming adds no character.
pub proof fn lemma_trimmed(text: Seq<char>)
    ensures
        trimmed(trimmed(text)) == trimmed(text),
        vstd::utf8::is_ascii_chars(text) ==> vstd::utf8::is_ascii_chars(trimmed(text)),
    decreases text.len(),
{
    if text.len() > 0 && is_white_space(text.first()) {
        lemma_trimmed(text.drop_first());
    } else if text.len() > 0 && is_white_space(text.last()) {
        lemma_trimmed(text.drop_last());
    }
}

/// White space around a text is trimmed away.
pub proof fn lemma_trimmed_padding(left: Seq<char>, text: Seq<char>, right: Seq<char>)
    requires
        is_blank(left),
        is_blank(right),
    ensures
        trimmed(left + text + right) == trimmed(text),
    decreases left.len() + text.len() + right.len(),
{
    let all = left + text + right;
    if left.len() > 0 {
        assert(all.first() == left[0]);
        assert(all.drop_first() =~= left.drop_first() + text + right);
        lemma_trimmed_padding(left.drop_first(), text, right);
    } else if text.len() > 0 && is_white_space(text.first()) {
        assert(all.first() == text.first());
        assert(all.drop_first() =~= left + text.drop_first() + right);
        lemma_trimmed_padding(left, text.drop_first(), right);
    } else if right.len() > 0 {
        assert(all.last() == right.last());
        if text.len() > 0 {
            assert(all.first() == text.first());
            assert(all.drop_last() =~= left + text + right.drop_last());
            lemma_trimmed_padding(left, text, right.drop_last());
        } else {
            assert(all.first() == right.first());
            assert(all.drop_first() =~= left + text + right.drop_first());
            lemma_trimmed_padding(left, text, right.drop_first());
        }
    } else {
        assert(all =~= text);
    }
}

/// Trimming and lowering the ASCII letters can be done in either order.
pub proof fn lemma_trimmed_ascii_lowercased(text: Seq<char>)
    ensures
        trimmed(ascii_lowercased(text)) == ascii_lowercased(trimmed(text)),
    decreases text.len(),
{
    let lower = ascii_lowercased(text);
    if text.len() > 0 && is_white_space(text.first()) {
        assert(lower.first() == text.first());
        assert(lower.drop_first() =~= ascii_lowercased(text.drop_first()));
        lemma_trimmed_ascii_lowercased(text.drop_first());
    } else if text.len() > 0 && is_white_space(text.last()) {
        assert(lower.first() == ascii_lower(text.first()));
        assert(lower.last() == text.last());
        assert(lower.drop_last() =~= ascii_lowercased(text.drop_last()));
        lemma_trimmed_ascii_lowercased(text.drop_last());
    } else if text.len() > 0 {
        assert(lower.first() == ascii_lower(text.first()));
        assert(lower.last() == ascii_lower(text.last()));
    }
}

/// Texts that are the same but for the case of their ASCII letters have the
/// same lower case.
pub proof fn lemma_lowercased_ignores_ascii_case(left: Seq<char>, right: Seq<char>)
    requires
        ascii_lowercased(left) == ascii_lowercased(right),
    ensures
        lowercased(left) == lowercased(right),
{
    assert(left.len() == ascii_lowercased(left).len());
    assert(right.len() == ascii_lowercased(right).len());
    assert forall|i: int| 0 <= i < left.len() implies ascii_lower(#[trigger] left[i])
        == ascii_lower(right[i]) by {
        assert(ascii_lowercased(left)[i] == ascii_lower(left[i]));
        assert(ascii_lowercased(right)[i] == ascii_lower(right[i]));
    }
    assert forall|i: int| 0 <= i < right.len() implies ascii_lower(#[trigger] right[i])
        == ascii_lower(left[i]) by {
        assert(ascii_lowercased(left)[i] == ascii_lower(left[i]));
        assert(ascii_lowercased(right)[i] == ascii_lower(right[i]));
    }
}

/// `str::eq`: two string slices are equal when they hold the same characters.
pub assume_specification[ <str as PartialEq>::eq ](left: &str, right: &str) -> (same: bool)
    ensures
        same == (left@ == right@),
;

/// `str::trim`: the slice without leading and trailing `White_Space`.
pub assume_specification[ str::trim ](s: &str) -> (rest: &str)
    ensures
        rest@ == trimmed(s@),
;

/// `str::to_lowercase`: ASCII letters `A` to `Z` become `a` to `z` and other
/// ASCII characters stay; a text with anything else goes by Unicode's tables.
/// They map one character after the other, except that a capital sigma looks at
/// the letters around it, and there an ASCII letter counts the same in either
/// case. So the case of the ASCII letters does not matter to the result. What
/// the tables map to is lower case, so the result is its own lower case; and
/// they turn nothing into white space and leave white space as it is, so a text
/// with none at its ends still has none there.
pub assume_specification[ str::to_lowercase ](s: &str) -> (lower: String)
    ensures
        vstd::utf8::is_ascii_chars(s@) ==> lower@ == ascii_lowercased(s@),
        !vstd::utf8::is_ascii_chars(s@) ==> lower@ == unicode_lowercase(ascii_lowercased(s@)),
        lowercased(lower@) == lower@,
        trimmed(s@) == s@ ==> trimmed(lower@) == lower@,
;

/// `str::strip_prefix` with a string pattern: what follows `prefix`, if `text`
/// starts with it.
#[verifier::external_body]
pub(crate) fn strip_prefix<'a>(text: &'a str, prefix: &str) -> (rest: Option<&'a str>)
    ensures
        rest is Some <==> occurs_at(text@, prefix@, 0),
        rest is Some ==> rest->0@ == text@.skip(prefix@.len() as int),
{
    text.strip_prefix(prefix)
}

/// `str::split_once` with a string pattern: what stands before and after the
/// leftmost `delimiter`, if there is one.
#[verifier::external_body]
pub(crate) fn split_once<'a>(text: &'a str, delimiter: &str) -> (parts: Option<(&'a str, &'a str)>)
    requires
        delimiter@.len() > 0,
    ensures
        match parts {
            Some((before, after)) => {
                &&& text@ == before@ + delimiter@ + after@
                &&& occurs_first_at(text@, delimiter@, before@.len() as int)
            },
            None => !occurs(text@, delimiter@),
        },
{
    text.split_once(delimiter)
}

/// `text` with the leftmost `pattern` replaced.
pub(crate) fn replace_first(text: &str, pattern: &str, replacement: &str) -> (replaced: String)
    requires
        pattern@.len() > 0,
    ensures
        replaced@ == first_replaced(text@, pattern@, replacement@),
{
    match split_once(text, pattern) {
        Some((before, after)) => {
            proof {
                lemma_first_occurrence(text@, pattern@, before@.len() as int);
            }
            assert(text@.take(before@.len() as int) == before@);
            assert(text@.skip(before@.len() as int + pattern@.len()) == after@);
            before.to_owned().concat(replacement).concat(after)
        },
        None => text.to_owned(),
    }
}

/// What stands in `text` before the leftmost `pattern`.
pub(crate) fn until_first<'a>(text: &'a str, pattern: &str) -> (head: &'a str)
    requires
        pattern@.len() > 0,
    ensures
        head@ == before_first(text@, pattern@),
{
    match split_once(text, pattern) {
        Some((before, _)) => {
            proof {
                lemma_first_occurrence(text@, pattern@, before@.len() as int);
            }
            assert(text@.take(before@.len() as int) == before@);
            before
        },
        None => text,
    }
}

/// Whether `wanted` stands in `text`.
pub(crate) fn contains_char(text: &str, wanted: char) -> (found: bool)
    ensures
        found == text@.contains(wanted),
{
    let mut found: bool = false;
    for c in chars: text.chars()
        invariant
            chars.seq() == text@,
            found == text@.take(chars.index() as int).contains(wanted),
    {
        proof {
            let seen = text@.take(chars.index() as int);
            assert(text@.take(chars.index() + 1) == seen.push(c));
            if seen.contains(wanted) {
                let at = choose|i: int| 0 <= i < seen.len() && seen[i] == wanted;
                assert(seen.push(c)[at] == wanted);
            }
            if c == wanted {
                assert(seen.push(c)[seen.len() as int] == wanted);
            }
        }
        found = found || c == wanted;
    }
    assert(text@.take(text@.len() as int) == text@);
    found
}

/// An owned copy of a text that may be absent.
pub(crate) fn owned(text: Option<&str>) -> (copy: Option<String>)
    ensures
        copy.deep_view() == text.deep_view(),
{
    match text {
        Some(present) => Some(present.to_owned()),
        None => None,
    }
}

/// A borrow of a text that may be absent.
pub(crate) fn borrowed(text: &Option<String>) -> (slice: Option<&str>)
    ensures
        slice.deep_view() == text.deep_view(),
{
    match text {
        Some(present) => Some(present.as_str()),
        None => None,
    }
}

} // verus!
