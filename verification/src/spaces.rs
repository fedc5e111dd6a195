//! White space in text: blank texts, and texts without the white space around them.

use crate::text::{chars_of, text_of};
use vstd::prelude::*;

verus! {

/// Whether a character is white space.
pub open spec fn is_space(c: char) -> bool {
    let n = c as u32;
    ||| 0x9 <= n <= 0xD
    ||| n == 0x20
    ||| n == 0x85
    ||| n == 0xA0
    ||| n == 0x1680
    ||| 0x2000 <= n <= 0x200A
    ||| n == 0x2028
    ||| n == 0x2029
    ||| n == 0x202F
    ||| n == 0x205F
    ||| n == 0x3000
}

/// Whether a character is white space.
pub fn is_whitespace(c: char) -> (space: bool)
    ensures
        space == is_space(c),
{
    let n: u32 = c as u32;
    (0x9 <= n && n <= 0xD) || n == 0x20 || n == 0x85 || n == 0xA0 || n == 0x1680 || (0x2000 <= n
        && n <= 0x200A) || n == 0x2028 || n == 0x2029 || n == 0x202F || n == 0x205F || n == 0x3000
}

/// A text without the white space at its beginning.
pub open spec fn trimmed_start(text: Seq<char>) -> Seq<char>
    decreases text.len(),
{
    if text.len() > 0 && is_space(text[0]) {
        trimmed_start(text.drop_first())
    } else {
        text
    }
}

/// A text without the white space at its end.
pub open spec fn trimmed_end(text: Seq<char>) -> Seq<char>
    decreases text.len(),
{
    if text.len() > 0 && is_space(text.last()) {
        trimmed_end(text.drop_last())
    } else {
        text
    }
}

/// A text without the white space around it.
pub open spec fn trimmed(text: Seq<char>) -> Seq<char> {
    trimmed_end(trimmed_start(text))
}

/// Cuts the white space around a text.
pub fn trim(text: &str) -> (cut: String)
    ensures
        cut@ == trimmed(text@),
{
    let chars = chars_of(text);
    let mut start: usize = 0;
    assert(chars@.skip(0) == chars@);
    while start < chars.len() && is_whitespace(chars[start])
        invariant
            start <= chars@.len(),
            trimmed_start(chars@) == trimmed_start(chars@.skip(start as int)),
        decreases chars@.len() - start,
    {
        assert(chars@.skip(start as int)[0] == chars@[start as int]);
        assert(chars@.skip(start as int).drop_first() == chars@.skip(start + 1));
        start += 1;
    }
    if start < chars.len() {
        assert(chars@.skip(start as int)[0] == chars@[start as int]);
    }
    let ghost rest = chars@.skip(start as int);
    assert(trimmed_start(chars@) == rest);
    let mut end: usize = chars.len();
    assert(chars@.subrange(start as int, end as int) == rest);
    while start < end && is_whitespace(chars[end - 1])
        invariant
            start <= end <= chars@.len(),
            trimmed_end(rest) == trimmed_end(chars@.subrange(start as int, end as int)),
        decreases end,
    {
        assert(chars@.subrange(start as int, end as int).last() == chars@[end - 1]);
        assert(chars@.subrange(start as int, end as int).drop_last() == chars@.subrange(
            start as int,
            end - 1,
        ));
        end -= 1;
    }
    let ghost middle = chars@.subrange(start as int, end as int);
    if start < end {
        assert(middle.last() == chars@[end - 1]);
    }
    assert(trimmed_end(rest) == middle);
    text_of(vstd::slice::slice_subrange(chars.as_slice(), start, end))
}

/// Whether a text holds nothing but white space.
pub open spec fn is_blank(text: Seq<char>) -> bool {
    forall|i: int| 0 <= i < text.len() ==> is_space(#[trigger] text[i])
}

/// Tells whether a text holds nothing but white space.
pub fn blank(text: &str) -> (found: bool)
    ensures
        found == is_blank(text@),
{
    let chars = chars_of(text);
    let mut i: usize = 0;
    while i < chars.len()
        invariant
            i <= chars@.len(),
            chars@ == text@,
            forall|j: int| 0 <= j < i ==> is_space(#[trigger] chars@[j]),
        decreases chars@.len() - i,
    {
        if !is_whitespace(chars[i]) {
            assert(!is_space(text@[i as int]));
            return false;
        }
        i += 1;
    }
    true
}

proof fn lemma_trimmed_start(text: Seq<char>)
    ensures
        trimmed_start(text).len() > 0 ==> !is_space(trimmed_start(text)[0]),
        is_blank(text) <==> trimmed_start(text).len() == 0,
    decreases text.len(),
{
    if text.len() > 0 && is_space(text[0]) {
        let rest = text.drop_first();
        lemma_trimmed_start(rest);
        if is_blank(rest) {
            assert forall|i: int| 0 <= i < text.len() implies is_space(#[trigger] text[i]) by {
                if i > 0 {
                    assert(text[i] == rest[i - 1]);
                }
            }
        }
        if is_blank(text) {
            assert forall|i: int| 0 <= i < rest.len() implies is_space(#[trigger] rest[i]) by {
                assert(rest[i] == text[i + 1]);
            }
        }
    } else if text.len() > 0 {
        assert(!is_space(text[0]));
    }
}

proof fn lemma_trimmed_end(text: Seq<char>)
    requires
        text.len() > 0,
        !is_space(text[0]),
    ensures
        trimmed_end(text).len() > 0,
        trimmed_end(text)[0] == text[0],
        !is_space(trimmed_end(text).last()),
    decreases text.len(),
{
    if is_space(text.last()) {
        lemma_trimmed_end(text.drop_last());
    }
}

/// What is left of a text has no white space at either end, and nothing is left exactly of a
/// blank text.
pub proof fn law_trimmed_has_no_space_around(text: Seq<char>)
    ensures
        is_blank(text) <==> trimmed(text).len() == 0,
        trimmed(text).len() > 0 ==> !is_space(trimmed(text)[0]) && !is_space(
            trimmed(text).last(),
        ),
{
    lemma_trimmed_start(text);
    if trimmed_start(text).len() > 0 {
        lemma_trimmed_end(trimmed_start(text));
    }
}

proof fn lemma_start_is_blank(text: Seq<char>) -> (front: Seq<char>)
    ensures
        text == front + trimmed_start(text),
        is_blank(front),
    decreases text.len(),
{
    if text.len() > 0 && is_space(text[0]) {
        let rest = lemma_start_is_blank(text.drop_first());
        let front = seq![text[0]] + rest;
        assert(text =~= seq![text[0]] + text.drop_first());
        assert(text =~= front + trimmed_start(text.drop_first()));
        assert forall|i: int| 0 <= i < front.len() implies is_space(#[trigger] front[i]) by {
            if i > 0 {
                assert(front[i] == rest[i - 1]);
            }
        }
        front
    } else {
        assert(text =~= Seq::<char>::empty() + text);
        Seq::empty()
    }
}

proof fn lemma_end_is_blank(text: Seq<char>) -> (back: Seq<char>)
    ensures
        text == trimmed_end(text) + back,
        is_blank(back),
    decreases text.len(),
{
    if text.len() > 0 && is_space(text.last()) {
        let rest = lemma_end_is_blank(text.drop_last());
        let back = rest.push(text.last());
        assert(text =~= text.drop_last().push(text.last()));
        assert(text =~= trimmed_end(text.drop_last()) + back);
        assert forall|i: int| 0 <= i < back.len() implies is_space(#[trigger] back[i]) by {
            if i < rest.len() {
                assert(back[i] == rest[i]);
            }
        }
        back
    } else {
        assert(text =~= text + Seq::<char>::empty());
        Seq::empty()
    }
}

/// Nothing but white space is cut: a text is what is left of it, between blank texts.
pub proof fn law_only_space_is_trimmed(text: Seq<char>)
    ensures
        exists|front: Seq<char>, back: Seq<char>|
            text == front + trimmed(text) + back && #[trigger] is_blank(front) && #[trigger] is_blank(
                back,
            ),
{
    let front = lemma_start_is_blank(text);
    let back = lemma_end_is_blank(trimmed_start(text));
    assert(text =~= front + trimmed(text) + back);
}

} // verus!
