//! Limits on text: cutting output at a number of bytes, and cutting messages at a number of
//! characters.

use crate::text::chars_of;
use vstd::prelude::*;
use vstd::utf8::*;

verus! {

/// The number of bytes that a text takes.
pub open spec fn byte_len(text: Seq<char>) -> nat {
    encode_utf8(text).len()
}

/// Whether `kept` is the longest beginning of a text that takes at most `max_bytes` bytes.
pub open spec fn longest_fitting(text: Seq<char>, kept: Seq<char>, max_bytes: nat) -> bool {
    &&& kept.is_prefix_of(text)
    &&& byte_len(kept) <= max_bytes
    &&& kept.len() < text.len() ==> byte_len(text.take(kept.len() as int + 1)) > max_bytes
}

/// The bytes of a text begin with those of its first characters, and a character boundary
/// follows them.
proof fn lemma_boundary_after(chars: Seq<char>, k: nat)
    requires
        k <= chars.len(),
    ensures
        byte_len(chars.take(k as int)) <= byte_len(chars),
        is_char_boundary(encode_utf8(chars), byte_len(chars.take(k as int)) as int),
    decreases k,
{
    encode_utf8_valid_utf8(chars);
    let front = chars.take(k as int);
    if k == 0 {
    } else {
        let rest = chars.drop_first();
        encode_utf8_first_scalar(chars);
        assert(pop_first_scalar(encode_utf8(chars)) =~= encode_utf8(rest));
        lemma_boundary_after(rest, (k - 1) as nat);
        assert(front.drop_first() == rest.take(k - 1));
        assert(front[0] == chars[0]);
    }
}

/// More characters take more bytes.
proof fn lemma_byte_len_grows(chars: Seq<char>, k: nat)
    requires
        k < chars.len(),
    ensures
        byte_len(chars.take(k as int)) < byte_len(chars.take(k as int + 1)),
    decreases k,
{
    let a = chars.take(k as int);
    let b = chars.take(k as int + 1);
    if k > 0 {
        let rest = chars.drop_first();
        lemma_byte_len_grows(rest, (k - 1) as nat);
        assert(a.drop_first() == rest.take(k - 1));
        assert(b.drop_first() == rest.take(k as int));
        assert(a[0] == b[0]);
    } else {
        assert(encode_scalar(b[0] as u32).len() > 0);
    }
}

/// The longest beginning of a text that takes at most `max_bytes` bytes.
pub open spec fn cut_text(text: Seq<char>, max_bytes: nat) -> Seq<char> {
    choose|kept: Seq<char>| longest_fitting(text, kept, max_bytes)
}

/// There is one longest beginning.
pub proof fn lemma_cut_text(text: Seq<char>, kept: Seq<char>, max_bytes: nat)
    requires
        longest_fitting(text, kept, max_bytes),
    ensures
        cut_text(text, max_bytes) == kept,
{
    let other = cut_text(text, max_bytes);
    assert(longest_fitting(text, other, max_bytes));
    if other.len() < kept.len() {
        lemma_boundary_after(kept, (other.len() + 1) as nat);
        assert(kept.take(other.len() as int + 1) == text.take(other.len() as int + 1));
    }
    if kept.len() < other.len() {
        lemma_boundary_after(other, (kept.len() + 1) as nat);
        assert(other.take(kept.len() as int + 1) == text.take(kept.len() as int + 1));
    }
    assert(other == kept);
}

/// There is a longest beginning for every limit.
proof fn lemma_cut_exists(text: Seq<char>, max_bytes: nat) -> (kept: Seq<char>)
    ensures
        longest_fitting(text, kept, max_bytes),
    decreases text.len(),
{
    if byte_len(text) <= max_bytes {
        text
    } else {
        let front = text.drop_last();
        let kept = lemma_cut_exists(front, max_bytes);
        if kept.len() < front.len() {
            assert(front.take(kept.len() as int + 1) == text.take(kept.len() as int + 1));
        } else {
            assert(text.take(kept.len() as int + 1) == text);
        }
        kept
    }
}

/// A text that is cut is the longest beginning of it that fits, and a text that fits is not
/// cut.
pub proof fn law_cut_text_fits(text: Seq<char>, max_bytes: nat)
    ensures
        longest_fitting(text, cut_text(text, max_bytes), max_bytes),
        byte_len(text) <= max_bytes ==> cut_text(text, max_bytes) == text,
{
    let kept = lemma_cut_exists(text, max_bytes);
    lemma_cut_text(text, kept, max_bytes);
    if byte_len(text) <= max_bytes {
        lemma_cut_text(text, text, max_bytes);
    }
}

/// Cuts a text at a number of bytes, at the end of a character, and tells whether anything
/// was cut.
pub fn truncate_utf8(value: &str, max_bytes: usize) -> (cut: (String, bool))
    ensures
        cut.1 <==> byte_len(value@) > max_bytes,
        longest_fitting(value@, cut.0@, max_bytes as nat),
        cut.0@ == cut_text(value@, max_bytes as nat),
        !cut.1 ==> cut.0@ == value@,
{
    let bytes = value.as_bytes();
    proof {
        encode_utf8_valid_utf8(value@);
        encode_utf8_decode_utf8(value@);
        is_char_boundary_start_end_of_seq(encode_utf8(value@));
    }
    if bytes.len() <= max_bytes {
        proof {
            lemma_cut_text(value@, value@, max_bytes as nat);
        }
        return (value.to_owned(), false);
    }
    let mut end: usize = max_bytes;
    while !value.is_char_boundary(end)
        invariant
            end <= max_bytes < byte_len(value@),
            is_char_boundary(encode_utf8(value@), 0),
            forall|j: int|
                end < j <= max_bytes ==> !#[trigger] is_char_boundary(encode_utf8(value@), j),
        decreases end,
    {
        end -= 1;
    }
    let (front, _) = value.split_at(end);
    let cut = front.to_owned();
    proof {
        let all = encode_utf8(value@);
        let len = all.len() as int;
        valid_utf8_split(all, end as int);
        decode_utf8_split(all, end as int);
        encode_utf8_decode_utf8(front@);
        let k = front@.len();
        assert(value@ == front@ + decode_utf8(all.subrange(end as int, len)));
        assert(value@.take(k as int) == front@);
        assert(byte_len(front@) == end);
        if k < value@.len() {
            lemma_byte_len_grows(value@, k);
            lemma_boundary_after(value@, k + 1);
        }
        lemma_cut_text(value@, front@, max_bytes as nat);
    }
    (cut, true)
}

/// The first characters of a text, at most `count` of them.
pub open spec fn first_chars(text: Seq<char>, count: nat) -> Seq<char> {
    if text.len() <= count {
        text
    } else {
        text.take(count as int)
    }
}

/// Cuts a text at a number of characters.
pub fn take_chars(text: &str, count: usize) -> (cut: String)
    ensures
        cut@ == first_chars(text@, count as nat),
{
    let chars = chars_of(text);
    let mut cut = String::new();
    let mut i: usize = 0;
    while i < chars.len() && i < count
        invariant
            i <= chars@.len(),
            i <= count,
            chars@ == text@,
            cut@ == text@.take(i as int),
        decreases chars@.len() - i,
    {
        cut.push(chars[i]);
        i += 1;
    }
    assert(text@.take(text@.len() as int) == text@);
    cut
}

/// The first characters of a text are a beginning of it: all of it, or as many characters as
/// there may be.
pub proof fn law_first_chars_begin_the_text(text: Seq<char>, count: nat)
    ensures
        first_chars(text, count).is_prefix_of(text),
        first_chars(text, count).len() == if text.len() < count {
            text.len()
        } else {
            count
        },
{
}

/// A text that is cut is a beginning of the whole one that takes no more bytes than it may, and
/// with one more character it would take more: nothing is cut that need not be.
pub proof fn law_no_more_is_cut_than_must_be(text: Seq<char>, max_bytes: nat)
    ensures
        ({
            let kept = cut_text(text, max_bytes);
            &&& kept.len() <= text.len()
            &&& kept == text.take(kept.len() as int)
            &&& encode_utf8(kept).len() <= max_bytes
            &&& kept.len() < text.len() ==> encode_utf8(text.take(kept.len() as int + 1)).len()
                > max_bytes
            &&& encode_utf8(text).len() <= max_bytes <==> kept == text
        }),
{
    law_cut_text_fits(text, max_bytes);
    let kept = cut_text(text, max_bytes);
    assert(kept =~= text.take(kept.len() as int));
}

} // verus!
