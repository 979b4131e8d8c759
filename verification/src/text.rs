//! Small questions about text, answered character by character.

use vstd::prelude::*;
use vstd::string::*;

verus! {

/// The characters with the Unicode property `White_Space`.
pub open spec fn is_white_space(c: char) -> bool {
    ||| '\u{9}' <= c <= '\u{d}'
    ||| c == ' '
    ||| c == '\u{85}'
    ||| c == '\u{a0}'
    ||| c == '\u{1680}'
    ||| '\u{2000}' <= c <= '\u{200a}'
    ||| c == '\u{2028}'
    ||| c == '\u{2029}'
    ||| c == '\u{202f}'
    ||| c == '\u{205f}'
    ||| c == '\u{3000}'
}

/// Text that holds nothing but white space; the empty text is blank.
pub open spec fn is_blank(text: Seq<char>) -> bool {
    forall|i: int| 0 <= i < text.len() ==> is_white_space(#[trigger] text[i])
}

/// The place of the first `c` in `text`, for text that holds one.
pub open spec fn is_first_index(text: Seq<char>, c: char, at: int) -> bool {
    &&& 0 <= at < text.len()
    &&& text[at] == c
    &&& forall|i: int| 0 <= i < at ==> text[i] != c
}

/// What stands before the first `c` of `text` and what stands after it.
pub open spec fn split_at_first(text: Seq<char>, c: char) -> Option<(Seq<char>, Seq<char>)> {
    if text.contains(c) {
        let at = choose|at: int| is_first_index(text, c, at);
        Some((text.take(at), text.skip(at + 1)))
    } else {
        None
    }
}

fn is_white_space_char(c: char) -> (white: bool)
    ensures
        white == is_white_space(c),
{
    ('\u{9}' <= c && c <= '\u{d}') || c == ' ' || c == '\u{85}' || c == '\u{a0}' || c == '\u{1680}'
        || ('\u{2000}' <= c && c <= '\u{200a}') || c == '\u{2028}' || c == '\u{2029}' || c
        == '\u{202f}' || c == '\u{205f}' || c == '\u{3000}'
}

/// Whether `text` is empty once the white space around it is gone.
pub fn is_blank_text(text: &str) -> (blank: bool)
    ensures
        blank == is_blank(text@),
{
    for c in it: text.chars()
        invariant
            it.seq() == text@,
            forall|i: int| 0 <= i < it.index() ==> is_white_space(#[trigger] text@[i]),
    {
        if !is_white_space_char(c) {
            assert(!is_white_space(text@[it.index()]));
            return false;
        }
    }
    true
}

/// Whether the two texts are equal.
pub fn same_text(left: &str, right: &str) -> (same: bool)
    ensures
        same == (left@ == right@),
{
    left.to_owned() == right.to_owned()
}

/// Whether `text` begins with `prefix`.
pub fn begins_with(text: &str, prefix: &str) -> (begins: bool)
    ensures
        begins == prefix@.is_prefix_of(text@),
{
    let whole: usize = text.unicode_len();
    let part: usize = prefix.unicode_len();
    if part > whole {
        return false;
    }
    same_text(text.substring_char(0, part), prefix)
}

/// Whether `text` ends with `suffix`.
pub fn closes_with(text: &str, suffix: &str) -> (closes: bool)
    ensures
        closes == suffix@.is_suffix_of(text@),
{
    let whole: usize = text.unicode_len();
    let part: usize = suffix.unicode_len();
    if part > whole {
        return false;
    }
    same_text(text.substring_char(whole - part, whole), suffix)
}

/// Splits `text` around its first `c`.
pub fn split_once<'a>(text: &'a str, c: char) -> (parts: Option<(&'a str, &'a str)>)
    ensures
        match parts {
            Some((head, tail)) => split_at_first(text@, c) == Some((head@, tail@)),
            None => split_at_first(text@, c) is None,
        },
{
    let whole: usize = text.unicode_len();
    let mut at: usize = 0;
    for d in it: text.chars()
        invariant
            it.seq() == text@,
            at == it.index(),
            whole == text@.len(),
            forall|i: int| 0 <= i < at ==> text@[i] != c,
    {
        if d == c {
            assert(is_first_index(text@, c, at as int));
            let ghost chosen = choose|i: int| is_first_index(text@, c, i);
            assert(chosen == at);
            let head = text.substring_char(0, at);
            let tail = text.substring_char(at + 1, whole);
            assert(head@ == text@.take(at as int));
            assert(tail@ == text@.skip(at + 1));
            return Some((head, tail));
        }
        at = at + 1;
    }
    None
}

/// Whether `text` holds `c`.
pub fn holds_char(text: &str, c: char) -> (holds: bool)
    ensures
        holds == text@.contains(c),
{
    for d in it: text.chars()
        invariant
            it.seq() == text@,
            forall|i: int| 0 <= i < it.index() ==> text@[i] != c,
    {
        if d == c {
            assert(text@[it.index()] == c);
            return true;
        }
    }
    false
}

/// The texts of a list of strings.
pub open spec fn texts(strings: Seq<String>) -> Seq<Seq<char>> {
    strings.map_values(|string: String| string@)
}

/// A copy of a list of strings.
pub fn copy_texts(strings: &Vec<String>) -> (copy: Vec<String>)
    ensures
        copy@ == strings@,
{
    let copy = strings.clone();
    assert(copy@ =~= strings@);
    copy
}

/// Text splits around its first `c`, whatever stands before it without one and after it, and text
/// without a `c` does not split.
pub proof fn law_text_splits_at_its_first(head: Seq<char>, c: char, tail: Seq<char>)
    requires
        !head.contains(c),
    ensures
        split_at_first(head + seq![c] + tail, c) == Some((head, tail)),
        split_at_first(head, c) is None,
{
    let text = head + seq![c] + tail;
    let at = head.len() as int;
    assert(text[at] == c);
    assert forall|i: int| 0 <= i < at implies text[i] != c by {
        assert(head.contains(head[i]));
    }
    assert(is_first_index(text, c, at));
    let chosen = choose|i: int| is_first_index(text, c, i);
    assert(chosen == at);
    assert(text.take(at) =~= head);
    assert(text.skip(at + 1) =~= tail);
}

/// Blank text is white space throughout: no text at all is blank, one character is blank exactly
/// when it is white space, and two texts together are blank exactly when both are.
pub proof fn law_blank_text_is_white_space_throughout(c: char, left: Seq<char>, right: Seq<char>)
    ensures
        is_blank(Seq::empty()),
        is_blank(seq![c]) <==> is_white_space(c),
        is_blank(left + right) <==> is_blank(left) && is_blank(right),
{
    assert(seq![c][0] == c);
    let both = left + right;
    if is_blank(both) {
        assert forall|i: int| 0 <= i < left.len() implies is_white_space(#[trigger] left[i]) by {
            assert(is_white_space(both[i]));
        }
        assert forall|i: int| 0 <= i < right.len() implies is_white_space(#[trigger] right[i]) by {
            assert(is_white_space(both[left.len() + i]));
        }
    }
}

/// The white space of ASCII is the space and the five controls from tab to carriage return; beyond
/// it, the white space is what Unicode calls so, up to the ideographic space.
pub proof fn law_white_space_is_that_of_unicode(c: char)
    ensures
        (c as u32) < 0x80 ==> (is_white_space(c) <==> c == ' ' || 9 <= c as u32 <= 13),
        0x80 <= c as u32 ==> (is_white_space(c) <==> set![
            0x85u32,
            0xa0,
            0x1680,
            0x2000,
            0x2001,
            0x2002,
            0x2003,
            0x2004,
            0x2005,
            0x2006,
            0x2007,
            0x2008,
            0x2009,
            0x200a,
            0x2028,
            0x2029,
            0x202f,
            0x205f,
            0x3000,
        ].contains(c as u32)),
{
}

} // verus!
