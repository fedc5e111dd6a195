//! Lines of output, and the percentages that a download tool prints.

use crate::shell::texts;
use crate::spaces::{blank, is_blank, is_space, is_whitespace, trim, trimmed};
use crate::text::{chars_of, text_of};
use vstd::prelude::*;

verus! {

/// A line without the carriage return at its end.
pub open spec fn without_return(line: Seq<char>) -> Seq<char> {
    if line.len() > 0 && line.last() == '\r' {
        line.drop_last()
    } else {
        line
    }
}

/// The lines of a text of which `line` was read: a line feed ends a line, with a carriage
/// return before it, and what is behind the last line feed is a line if it is anything.
pub open spec fn lines_from(text: Seq<char>, line: Seq<char>) -> Seq<Seq<char>>
    decreases text.len(),
{
    if text.len() == 0 {
        if line.len() == 0 {
            Seq::empty()
        } else {
            seq![line]
        }
    } else if text[0] == '\n' {
        seq![without_return(line)] + lines_from(text.drop_first(), Seq::empty())
    } else {
        lines_from(text.drop_first(), line.push(text[0]))
    }
}

/// The lines of a text.
pub open spec fn lines_of(text: Seq<char>) -> Seq<Seq<char>> {
    lines_from(text, Seq::empty())
}

/// Those of some lines that are not blank.
pub open spec fn not_blank(lines: Seq<Seq<char>>) -> Seq<Seq<char>>
    decreases lines.len(),
{
    if lines.len() == 0 {
        Seq::empty()
    } else if is_blank(lines.last()) {
        not_blank(lines.drop_last())
    } else {
        not_blank(lines.drop_last()).push(lines.last())
    }
}

/// The lines of a text that are not blank.
pub open spec fn shown_lines(text: Seq<char>) -> Seq<Seq<char>> {
    not_blank(lines_of(text))
}

/// Splits a text into its lines.
pub fn split_lines(text: &str) -> (lines: Vec<String>)
    ensures
        texts(lines@) == lines_of(text@),
{
    let chars = chars_of(text);
    let mut lines: Vec<String> = Vec::new();
    let mut line: Vec<char> = Vec::new();
    let mut i: usize = 0;
    assert(chars@.skip(0) == chars@);
    assert(texts(lines@) + lines_from(chars@.skip(0), line@) =~= lines_of(text@));
    while i < chars.len()
        invariant
            i <= chars@.len(),
            chars@ == text@,
            texts(lines@) + lines_from(chars@.skip(i as int), line@) == lines_of(text@),
        decreases chars@.len() - i,
    {
        let ghost rest = chars@.skip(i as int);
        let ghost before = texts(lines@);
        assert(rest[0] == chars@[i as int]);
        assert(rest.drop_first() == chars@.skip(i + 1));
        if chars[i] == '\n' {
            let ghost whole = line@;
            if line.len() > 0 && line[line.len() - 1] == '\r' {
                line.pop();
                assert(line@ == whole.drop_last());
            }
            assert(line@ == without_return(whole));
            lines.push(text_of(line.as_slice()));
            line = Vec::new();
            assert(texts(lines@) =~= before.push(without_return(whole)));
            assert(texts(lines@) + lines_from(rest.drop_first(), line@) =~= before + (seq![
                without_return(whole),
            ] + lines_from(rest.drop_first(), Seq::empty())));
        } else {
            line.push(chars[i]);
        }
        i += 1;
    }
    let ghost before = texts(lines@);
    assert(chars@.skip(i as int).len() == 0);
    if line.len() > 0 {
        lines.push(text_of(line.as_slice()));
        assert(texts(lines@) =~= before + seq![line@]);
    } else {
        assert(before + Seq::<Seq<char>>::empty() =~= before);
    }
    lines
}

/// Splits a text into its lines, and leaves out those that are blank.
pub fn visible_lines(text: &str) -> (lines: Vec<String>)
    ensures
        texts(lines@) == shown_lines(text@),
{
    let all = split_lines(text);
    let mut lines: Vec<String> = Vec::new();
    assert(texts(lines@) =~= not_blank(texts(all@).take(0)));
    for line in it: all
        invariant
            it.seq() == all@,
            texts(all@) == lines_of(text@),
            texts(lines@) == not_blank(texts(all@).take(it.index() as int)),
    {
        let ghost i = it.index() as int;
        let ghost before = texts(lines@);
        assert(texts(all@).take(i + 1).drop_last() =~= texts(all@).take(i));
        assert(texts(all@).take(i + 1).last() == line@);
        if !blank(line.as_str()) {
            lines.push(line);
            assert(texts(lines@) =~= before.push(line@));
        }
    }
    assert(texts(all@).take(texts(all@).len() as int) =~= texts(all@));
    lines
}

/// The parts of a text between its carriage returns, of which `part` was read.
pub open spec fn parts_from(text: Seq<char>, part: Seq<char>) -> Seq<Seq<char>>
    decreases text.len(),
{
    if text.len() == 0 {
        seq![part]
    } else if text[0] == '\r' {
        seq![part] + parts_from(text.drop_first(), Seq::empty())
    } else {
        parts_from(text.drop_first(), part.push(text[0]))
    }
}

/// The parts of a text between its carriage returns.
pub open spec fn parts_of(text: Seq<char>) -> Seq<Seq<char>> {
    parts_from(text, Seq::empty())
}

/// Splits a text at its carriage returns.
pub fn split_returns(text: &str) -> (parts: Vec<String>)
    ensures
        texts(parts@) == parts_of(text@),
{
    let chars = chars_of(text);
    let mut parts: Vec<String> = Vec::new();
    let mut part: Vec<char> = Vec::new();
    let mut i: usize = 0;
    assert(chars@.skip(0) == chars@);
    assert(texts(parts@) + parts_from(chars@.skip(0), part@) =~= parts_of(text@));
    while i < chars.len()
        invariant
            i <= chars@.len(),
            chars@ == text@,
            texts(parts@) + parts_from(chars@.skip(i as int), part@) == parts_of(text@),
        decreases chars@.len() - i,
    {
        let ghost rest = chars@.skip(i as int);
        let ghost before = texts(parts@);
        let ghost read = part@;
        assert(rest[0] == chars@[i as int]);
        assert(rest.drop_first() == chars@.skip(i + 1));
        if chars[i] == '\r' {
            parts.push(text_of(part.as_slice()));
            part = Vec::new();
            assert(texts(parts@) =~= before.push(read));
            assert(texts(parts@) + parts_from(rest.drop_first(), part@) =~= before + (seq![read]
                + parts_from(rest.drop_first(), Seq::empty())));
        } else {
            part.push(chars[i]);
        }
        i += 1;
    }
    let ghost before = texts(parts@);
    assert(chars@.skip(i as int).len() == 0);
    parts.push(text_of(part.as_slice()));
    assert(texts(parts@) =~= before + seq![part@]);
    parts
}

/// What stands before the last percent sign of a text, if it has one.
pub open spec fn before_percent(line: Seq<char>) -> Option<Seq<char>>
    decreases line.len(),
{
    if line.len() == 0 {
        None
    } else if line.last() == '%' {
        Some(line.drop_last())
    } else {
        before_percent(line.drop_last())
    }
}

/// Whether a character can end a number: a digit or a point.
pub open spec fn ends_number(c: char) -> bool {
    ('0' <= c && c <= '9') || c == '.'
}

/// A text without what stands behind its last digit or point.
pub open spec fn cut_behind_number(text: Seq<char>) -> Seq<char>
    decreases text.len(),
{
    if text.len() > 0 && !ends_number(text.last()) {
        cut_behind_number(text.drop_last())
    } else {
        text
    }
}

/// Whether a character can begin a number: a digit, a point or a sign.
pub open spec fn begins_number(c: char) -> bool {
    ends_number(c) || c == '+' || c == '-'
}

/// The last word of a text, which is empty where the text ends in white space.
pub open spec fn last_word(text: Seq<char>) -> Seq<char>
    decreases text.len(),
{
    if text.len() > 0 && !is_space(text.last()) {
        last_word(text.drop_last()).push(text.last())
    } else {
        Seq::empty()
    }
}

/// A word without the marks of a bar before its number.
pub open spec fn without_marks(word: Seq<char>) -> Seq<char>
    decreases word.len(),
{
    if word.len() > 0 && !begins_number(word[0]) {
        without_marks(word.skip(1))
    } else {
        word
    }
}

/// The text that should be the number before the last percent sign of a line: the last word
/// there, without the marks of a bar.
pub open spec fn percentage(line: Seq<char>) -> Option<Seq<char>> {
    match before_percent(line) {
        Some(before) => Some(without_marks(last_word(cut_behind_number(before)))),
        None => None,
    }
}

/// An optional text as its characters.
pub open spec fn percent_view(percent: Option<String>) -> Option<Seq<char>> {
    match percent {
        Some(text) => Some(text@),
        None => None,
    }
}

/// Finds the text that should be the number before the last percent sign of a line.
pub fn curl_percentage(line: &str) -> (percent: Option<String>)
    ensures
        percent_view(percent) == percentage(line@),
{
    let chars = chars_of(line);
    let mut end: usize = chars.len();
    assert(chars@.take(end as int) == chars@);
    while end > 0 && chars[end - 1] != '%'
        invariant
            end <= chars@.len(),
            before_percent(chars@) == before_percent(chars@.take(end as int)),
        decreases end,
    {
        assert(chars@.take(end as int).last() == chars@[end - 1]);
        assert(chars@.take(end as int).drop_last() == chars@.take(end - 1));
        end -= 1;
    }
    if end == 0 {
        return None;
    }
    assert(chars@.take(end as int).last() == chars@[end - 1]);
    assert(chars@.take(end as int).drop_last() == chars@.take(end - 1));
    end -= 1;
    let ghost before = chars@.take(end as int);
    while end > 0 && !(('0' <= chars[end - 1] && chars[end - 1] <= '9') || chars[end - 1] == '.')
        invariant
            end <= chars@.len(),
            cut_behind_number(before) == cut_behind_number(chars@.take(end as int)),
        decreases end,
    {
        assert(chars@.take(end as int).last() == chars@[end - 1]);
        assert(chars@.take(end as int).drop_last() == chars@.take(end - 1));
        end -= 1;
    }
    if end > 0 {
        assert(chars@.take(end as int).last() == chars@[end - 1]);
    }
    let ghost cut = chars@.take(end as int);
    assert(cut_behind_number(before) == cut);
    let mut start: usize = end;
    assert(chars@.subrange(end as int, end as int) == Seq::<char>::empty());
    assert(last_word(cut) + Seq::<char>::empty() == last_word(cut));
    while start > 0 && !is_whitespace(chars[start - 1])
        invariant
            start <= end <= chars@.len(),
            last_word(cut) == last_word(chars@.take(start as int)) + chars@.subrange(
                start as int,
                end as int,
            ),
        decreases start,
    {
        assert(chars@.take(start as int).last() == chars@[start - 1]);
        assert(chars@.take(start as int).drop_last() == chars@.take(start - 1));
        assert(last_word(chars@.take(start - 1)).push(chars@[start - 1]) + chars@.subrange(
            start as int,
            end as int,
        ) =~= last_word(chars@.take(start - 1)) + chars@.subrange(start - 1, end as int));
        start -= 1;
    }
    if start > 0 {
        assert(chars@.take(start as int).last() == chars@[start - 1]);
    }
    assert(last_word(cut) =~= chars@.subrange(start as int, end as int));
    while start < end && !(('0' <= chars[start] && chars[start] <= '9') || chars[start] == '.'
        || chars[start] == '+' || chars[start] == '-')
        invariant
            start <= end <= chars@.len(),
            without_marks(last_word(cut)) == without_marks(
                chars@.subrange(start as int, end as int),
            ),
        decreases end - start,
    {
        assert(chars@.subrange(start as int, end as int)[0] == chars@[start as int]);
        assert(chars@.subrange(start as int, end as int).skip(1) == chars@.subrange(
            start + 1,
            end as int,
        ));
        start += 1;
    }
    let number = vstd::slice::slice_subrange(chars.as_slice(), start, end);
    if start < end {
        assert(number@[0] == chars@[start as int]);
    }
    assert(number@ == without_marks(last_word(cut)));
    Some(text_of(number))
}

/// The percentages among the parts of some output.
pub open spec fn percentages_of(parts: Seq<Seq<char>>) -> Seq<Seq<char>>
    decreases parts.len(),
{
    if parts.len() == 0 {
        Seq::empty()
    } else {
        match percentage(trimmed(parts.last())) {
            Some(percent) => percentages_of(parts.drop_last()).push(percent),
            None => percentages_of(parts.drop_last()),
        }
    }
}

/// Finds the percentages in some output.
pub fn curl_percentages(output: &str) -> (percents: Vec<String>)
    ensures
        texts(percents@) == percentages_of(parts_of(output@)),
{
    let parts = split_returns(output);
    let mut percents: Vec<String> = Vec::new();
    assert(texts(percents@) =~= percentages_of(texts(parts@).take(0)));
    for part in it: parts
        invariant
            it.seq() == parts@,
            texts(parts@) == parts_of(output@),
            texts(percents@) == percentages_of(texts(parts@).take(it.index() as int)),
    {
        let ghost i = it.index() as int;
        let ghost before = texts(percents@);
        assert(texts(parts@).take(i + 1).drop_last() =~= texts(parts@).take(i));
        assert(texts(parts@).take(i + 1).last() == part@);
        match curl_percentage(trim(part.as_str()).as_str()) {
            Some(percent) => {
                percents.push(percent);
                assert(texts(percents@) =~= before.push(percent@));
            },
            None => {},
        }
    }
    assert(texts(parts@).take(texts(parts@).len() as int) =~= texts(parts@));
    percents
}

proof fn lemma_last_word(before: Seq<char>, end: Seq<char>)
    requires
        forall|i: int| 0 <= i < end.len() ==> !is_space(#[trigger] end[i]),
    ensures
        last_word(before + end) == last_word(before) + end,
    decreases end.len(),
{
    if end.len() == 0 {
        assert(before + end == before);
        assert(last_word(before) + end == last_word(before));
    } else {
        assert(!is_space(end[end.len() - 1]));
        assert((before + end).drop_last() == before + end.drop_last());
        lemma_last_word(before, end.drop_last());
        assert((last_word(before) + end.drop_last()).push(end.last()) == last_word(before) + end);
    }
}

proof fn lemma_without_marks(marks: Seq<char>, number: Seq<char>)
    requires
        number.len() > 0,
        begins_number(number[0]),
        forall|i: int| 0 <= i < marks.len() ==> !begins_number(#[trigger] marks[i]),
    ensures
        without_marks(marks + number) == number,
    decreases marks.len(),
{
    if marks.len() == 0 {
        assert(marks + number == number);
    } else {
        assert(!begins_number(marks[0]));
        assert((marks + number).skip(1) == marks.skip(1) + number);
        assert forall|i: int| 0 <= i < marks.skip(1).len() implies !begins_number(
            #[trigger] marks.skip(1)[i],
        ) by {
            assert(marks.skip(1)[i] == marks[i + 1]);
        }
        lemma_without_marks(marks.skip(1), number);
    }
}

proof fn lemma_before_percent(before: Seq<char>, behind: Seq<char>)
    requires
        !behind.contains('%'),
    ensures
        before_percent(before.push('%') + behind) == Some(before),
    decreases behind.len(),
{
    let line = before.push('%') + behind;
    if behind.len() == 0 {
        assert(line.drop_last() == before);
    } else {
        assert(behind.contains(behind[behind.len() - 1]));
        assert(line.drop_last() == before.push('%') + behind.drop_last());
        assert forall|i: int| 0 <= i < behind.drop_last().len() implies behind.drop_last()[i]
            != '%' by {
            assert(behind.contains(behind[i]));
        }
        lemma_before_percent(before, behind.drop_last());
    }
}

proof fn lemma_cut_behind_number(number: Seq<char>, behind: Seq<char>)
    requires
        number.len() > 0,
        ends_number(number.last()),
        forall|i: int| 0 <= i < behind.len() ==> !ends_number(#[trigger] behind[i]),
    ensures
        cut_behind_number(number + behind) == number,
    decreases behind.len(),
{
    if behind.len() == 0 {
        assert(number + behind == number);
    } else {
        assert(!ends_number(behind[behind.len() - 1]));
        assert((number + behind).drop_last() == number + behind.drop_last());
        lemma_cut_behind_number(number, behind.drop_last());
    }
}

/// A number before the last percent sign of a line is found whole, with its sign and exponent,
/// whatever stands before it in other words, whatever marks of a progress bar stand in its own,
/// and whatever stands between it and the sign and behind the sign.
pub proof fn law_percentage_is_found(
    bar: Seq<char>,
    number: Seq<char>,
    gap: Seq<char>,
    behind: Seq<char>,
)
    requires
        forall|i: int|
            0 <= i < last_word(bar).len() ==> !begins_number(#[trigger] last_word(bar)[i]),
        number.len() > 0,
        begins_number(number[0]),
        ends_number(number.last()),
        forall|i: int| 0 <= i < number.len() ==> !is_space(#[trigger] number[i]),
        forall|i: int| 0 <= i < gap.len() ==> !ends_number(#[trigger] gap[i]),
        !behind.contains('%'),
    ensures
        percentage((bar + number + gap).push('%') + behind) == Some(number),
{
    lemma_before_percent(bar + number + gap, behind);
    lemma_cut_behind_number(bar + number, gap);
    lemma_last_word(bar, number);
    lemma_without_marks(last_word(bar), number);
}

proof fn lemma_line_is_read(line: Seq<char>, rest: Seq<char>, before: Seq<char>)
    requires
        forall|i: int| 0 <= i < line.len() ==> #[trigger] line[i] != '\n',
    ensures
        lines_from(line + rest, before) == lines_from(rest, before + line),
    decreases line.len(),
{
    if line.len() == 0 {
        assert(line + rest =~= rest);
        assert(before + line =~= before);
    } else {
        assert((line + rest)[0] == line[0]);
        assert((line + rest).drop_first() =~= line.drop_first() + rest);
        assert forall|i: int| 0 <= i < line.drop_first().len() implies #[trigger] line.drop_first()[i]
            != '\n' by {
            assert(line.drop_first()[i] == line[i + 1]);
        }
        lemma_line_is_read(line.drop_first(), rest, before.push(line[0]));
        assert(before.push(line[0]) + line.drop_first() =~= before + line);
    }
}

/// A line that a line feed ends is the first of the lines of a text, without a carriage return
/// right before the line feed, and the others are those of the rest. A text without a line feed
/// is one line, if it is anything.
pub proof fn law_line_feeds_end_lines(line: Seq<char>, rest: Seq<char>)
    requires
        forall|i: int| 0 <= i < line.len() ==> #[trigger] line[i] != '\n',
    ensures
        lines_of(line.push('\n') + rest) == seq![
            if line.len() > 0 && line[line.len() - 1] == '\r' {
                line.take(line.len() - 1)
            } else {
                line
            },
        ] + lines_of(rest),
        lines_of(line) == if line.len() == 0 {
            Seq::empty()
        } else {
            seq![line]
        },
{
    let none = Seq::<char>::empty();
    let end = seq!['\n'] + rest;
    assert(line.push('\n') + rest =~= line + end);
    lemma_line_is_read(line, end, none);
    assert(none + line =~= line);
    assert(end[0] == '\n' && end.drop_first() =~= rest);
    if line.len() > 0 {
        assert(line.drop_last() =~= line.take(line.len() - 1));
    }
    lemma_line_is_read(line, none, none);
    assert(line + none =~= line);
}

proof fn lemma_part_is_read(part: Seq<char>, rest: Seq<char>, before: Seq<char>)
    requires
        forall|i: int| 0 <= i < part.len() ==> #[trigger] part[i] != '\r',
    ensures
        parts_from(part + rest, before) == parts_from(rest, before + part),
    decreases part.len(),
{
    if part.len() == 0 {
        assert(part + rest =~= rest);
        assert(before + part =~= before);
    } else {
        assert((part + rest)[0] == part[0]);
        assert((part + rest).drop_first() =~= part.drop_first() + rest);
        assert forall|i: int| 0 <= i < part.drop_first().len() implies #[trigger] part.drop_first()[i]
            != '\r' by {
            assert(part.drop_first()[i] == part[i + 1]);
        }
        lemma_part_is_read(part.drop_first(), rest, before.push(part[0]));
        assert(before.push(part[0]) + part.drop_first() =~= before + part);
    }
}

/// What stands before the first carriage return is the first part of a text, and the others are
/// those of the rest. A text without a carriage return is one part.
pub proof fn law_returns_end_parts(part: Seq<char>, rest: Seq<char>)
    requires
        forall|i: int| 0 <= i < part.len() ==> #[trigger] part[i] != '\r',
    ensures
        parts_of(part.push('\r') + rest) == seq![part] + parts_of(rest),
        parts_of(part) == seq![part],
{
    let none = Seq::<char>::empty();
    let end = seq!['\r'] + rest;
    assert(part.push('\r') + rest =~= part + end);
    lemma_part_is_read(part, end, none);
    assert(none + part =~= part);
    assert(end[0] == '\r' && end.drop_first() =~= rest);
    lemma_part_is_read(part, none, none);
    assert(part + none =~= part);
}

/// The lines that are shown are those that hold more than white space, all of them, in their
/// order.
pub proof fn law_all_lines_but_blank_ones_are_shown(lines: Seq<Seq<char>>)
    ensures
        not_blank(lines) == lines.filter(|line: Seq<char>| !is_blank(line)),
    decreases lines.len(),
{
    reveal(Seq::filter);
    if lines.len() > 0 {
        law_all_lines_but_blank_ones_are_shown(lines.drop_last());
    }
}

/// The lines of a text that are shown are its lines but for the blank ones.
pub proof fn law_shown_lines_are_lines(text: Seq<char>)
    ensures
        shown_lines(text) == lines_of(text).filter(|line: Seq<char>| !is_blank(line)),
{
    law_all_lines_but_blank_ones_are_shown(lines_of(text));
}

/// A line has a percentage exactly where it has a percent sign.
pub proof fn law_percentage_needs_a_sign(line: Seq<char>)
    ensures
        percentage(line) is Some <==> exists|i: int| 0 <= i < line.len() && #[trigger] line[i]
            == '%',
    decreases line.len(),
{
    if line.len() > 0 {
        let front = line.drop_last();
        law_percentage_needs_a_sign(front);
        if line.last() == '%' {
            assert(line[line.len() - 1] == '%');
        } else {
            if exists|i: int| 0 <= i < line.len() && #[trigger] line[i] == '%' {
                let i = choose|i: int| 0 <= i < line.len() && #[trigger] line[i] == '%';
                assert(front[i] == '%');
            }
            if exists|i: int| 0 <= i < front.len() && #[trigger] front[i] == '%' {
                let i = choose|i: int| 0 <= i < front.len() && #[trigger] front[i] == '%';
                assert(line[i] == '%');
            }
        }
    }
}

/// The percentages in some output come in its order: those of one part come before those of the
/// parts behind it, and each is the one of its part without the white space around it.
pub proof fn law_percentages_come_in_order(parts: Seq<Seq<char>>, last: Seq<char>)
    ensures
        percentages_of(parts.push(last)) == percentages_of(parts) + match percentage(
            trimmed(last),
        ) {
            Some(percent) => seq![percent],
            None => Seq::empty(),
        },
        percentages_of(Seq::empty()) == Seq::<Seq<char>>::empty(),
{
    assert(parts.push(last).drop_last() =~= parts);
    assert(percentages_of(parts.push(last)) =~= percentages_of(parts) + match percentage(
        trimmed(last),
    ) {
        Some(percent) => seq![percent],
        None => Seq::empty(),
    });
}

/// A percentage that is found says its characters.
pub proof fn law_found_percentage_says_what_it_holds(percent: Option<String>)
    ensures
        percent matches Some(text) ==> percent_view(percent) == Some(text@),
        percent is None ==> percent_view(percent) is None,
{
}

/// Whether a character is a digit or a decimal point.
pub open spec fn is_figure(c: char) -> bool {
    c == '.' || '0' <= c <= '9'
}

proof fn lemma_nothing_is_left(gap: Seq<char>)
    requires
        forall|i: int| 0 <= i < gap.len() ==> !is_figure(#[trigger] gap[i]),
    ensures
        cut_behind_number(gap) == Seq::<char>::empty(),
    decreases gap.len(),
{
    if gap.len() > 0 {
        assert(gap.last() == gap[gap.len() - 1]);
        lemma_nothing_is_left(gap.drop_last());
    } else {
        assert(gap =~= Seq::<char>::empty());
    }
}

/// The percentage of a line is the number that stands before its last percent sign, whatever
/// stands between the two but figures: it ends with a figure, and begins with the first figure or
/// sign of its word, so that the marks of a bar are left out. Where no figure stands before the
/// sign, it is empty.
pub proof fn law_percentage_is_the_number_before_the_sign(
    head: Seq<char>,
    marks: Seq<char>,
    number: Seq<char>,
    gap: Seq<char>,
    behind: Seq<char>,
)
    requires
        head.len() == 0 || is_space(head.last()),
        forall|i: int|
            0 <= i < marks.len() ==> !is_space(#[trigger] marks[i]) && !is_figure(marks[i])
                && marks[i] != '+' && marks[i] != '-',
        number.len() > 0 ==> is_figure(number[0]) || number[0] == '+' || number[0] == '-',
        number.len() > 0 ==> is_figure(number.last()),
        forall|i: int| 0 <= i < number.len() ==> !is_space(#[trigger] number[i]),
        forall|i: int| 0 <= i < gap.len() ==> !is_figure(#[trigger] gap[i]),
        !behind.contains('%'),
    ensures
        number.len() > 0 ==> percentage((head + marks + number + gap).push('%') + behind) == Some(
            number,
        ),
        percentage(gap.push('%') + behind) == Some(Seq::<char>::empty()),
{
    if number.len() > 0 {
        lemma_last_word(head, marks);
        assert(last_word(head) + marks =~= marks);
        law_percentage_is_found(head + marks, number, gap, behind);
    }
    lemma_before_percent(gap, behind);
    lemma_nothing_is_left(gap);
    assert(last_word(Seq::empty()) =~= Seq::<char>::empty());
}

} // verus!
