//! Shell commands that run on a server: quoting of arguments, and the command lines of the
//! file operations.

use crate::text::{cat3, chars_of};
use vstd::prelude::*;
use vstd::string::*;

verus! {

/// What stands for a single quote inside a single-quoted argument: the quote ends, an escaped
/// quote follows, and the quote begins again.
pub open spec fn quote_escape() -> Seq<char> {
    "'\\''"@
}

/// A text in which each single quote is replaced.
pub open spec fn replace_quotes(value: Seq<char>, replacement: Seq<char>) -> Seq<char>
    decreases value.len(),
{
    if value.len() == 0 {
        Seq::empty()
    } else {
        replace_quotes(value.drop_last(), replacement) + if value.last() == '\'' {
            replacement
        } else {
            seq![value.last()]
        }
    }
}

/// A text as one single-quoted argument of a shell.
pub open spec fn quoted(value: Seq<char>) -> Seq<char> {
    "'"@ + replace_quotes(value, quote_escape()) + "'"@
}

/// The characters of each text in a list.
pub open spec fn texts(values: Seq<String>) -> Seq<Seq<char>> {
    values.map_values(|value: String| value@)
}

/// Texts as single-quoted arguments of a shell, separated by spaces.
pub open spec fn quoted_list(values: Seq<Seq<char>>) -> Seq<char>
    decreases values.len(),
{
    if values.len() == 0 {
        Seq::empty()
    } else if values.len() == 1 {
        quoted(values[0])
    } else {
        quoted_list(values.drop_last()) + " "@ + quoted(values.last())
    }
}

/// Replaces each single quote of a text.
pub fn escape_quotes(value: &str, replacement: &str) -> (text: String)
    ensures
        text@ == replace_quotes(value@, replacement@),
{
    let chars = chars_of(value);
    let mut text = String::new();
    let mut i: usize = 0;
    while i < chars.len()
        invariant
            i <= chars@.len(),
            text@ == replace_quotes(chars@.take(i as int), replacement@),
        decreases chars@.len() - i,
    {
        assert(chars@.take(i + 1).drop_last() == chars@.take(i as int));
        if chars[i] == '\'' {
            text.append(replacement);
        } else {
            text.push(chars[i]);
        }
        i += 1;
        assert(text@ == replace_quotes(chars@.take(i as int), replacement@));
    }
    assert(chars@.take(chars@.len() as int) == chars@);
    text
}

/// Quotes a text as one argument of a shell.
pub fn shell_single_quote(value: &str) -> (text: String)
    ensures
        text@ == quoted(value@),
{
    cat3("'", escape_quotes(value, "'\\''").as_str(), "'")
}

/// Quotes each text of a list, with spaces between them.
pub fn quote_list(values: &Vec<String>) -> (text: String)
    ensures
        text@ == quoted_list(texts(values@)),
{
    let mut text = String::new();
    let mut i: usize = 0;
    while i < values.len()
        invariant
            i <= values@.len(),
            text@ == quoted_list(texts(values@).take(i as int)),
        decreases values@.len() - i,
    {
        assert(texts(values@).take(i + 1).drop_last() == texts(values@).take(i as int));
        assert(texts(values@)[i as int] == values@[i as int]@);
        if i > 0 {
            text.append(" ");
        }
        text.append(shell_single_quote(values[i].as_str()).as_str());
        i += 1;
        assert(text@ == quoted_list(texts(values@).take(i as int)));
    }
    assert(texts(values@).take(values@.len() as int) == texts(values@));
    text
}

/// Whether a character stands for itself in an unquoted word.
pub open spec fn plain_char(c: char) -> bool {
    ||| 'a' <= c <= 'z'
    ||| 'A' <= c <= 'Z'
    ||| '0' <= c <= '9'
    ||| c == '_'
    ||| c == '-'
    ||| c == '.'
    ||| c == '/'
    ||| c == ','
    ||| c == '+'
    ||| c == ':'
}

/// The word read so far, which may not have begun.
pub open spec fn word_so_far(word: Option<Seq<char>>) -> Seq<char> {
    match word {
        Some(w) => w,
        None => Seq::empty(),
    }
}

/// The words that a shell reads in a line of plain words, single-quoted texts and escaped
/// characters, after the words `done` and the beginning `word` of the next one. Nothing where
/// a quote stays open or the line holds anything else that means something to a shell.
pub open spec fn read_words(
    line: Seq<char>,
    word: Option<Seq<char>>,
    in_quotes: bool,
    done: Seq<Seq<char>>,
) -> Option<Seq<Seq<char>>>
    decreases line.len(),
{
    if line.len() == 0 {
        if in_quotes {
            None
        } else {
            match word {
                Some(w) => Some(done.push(w)),
                None => Some(done),
            }
        }
    } else if in_quotes {
        if line[0] == '\'' {
            read_words(line.skip(1), word, false, done)
        } else {
            read_words(line.skip(1), Some(word_so_far(word).push(line[0])), true, done)
        }
    } else if line[0] == '\'' {
        read_words(line.skip(1), Some(word_so_far(word)), true, done)
    } else if line[0] == '\\' {
        if line.len() < 2 {
            None
        } else {
            read_words(line.skip(2), Some(word_so_far(word).push(line[1])), false, done)
        }
    } else if line[0] == ' ' {
        match word {
            Some(w) => read_words(line.skip(1), None, false, done.push(w)),
            None => read_words(line.skip(1), None, false, done),
        }
    } else if plain_char(line[0]) || (line[0] == '#' && word is Some) {
        read_words(line.skip(1), Some(word_so_far(word).push(line[0])), false, done)
    } else {
        None
    }
}

/// The words of a whole command line.
pub open spec fn shell_words(line: Seq<char>) -> Option<Seq<Seq<char>>> {
    read_words(line, None, false, Seq::empty())
}

/// Replacing quotes in a text works on its parts.
pub proof fn lemma_replace_quotes_concat(a: Seq<char>, b: Seq<char>, replacement: Seq<char>)
    ensures
        replace_quotes(a + b, replacement) == replace_quotes(a, replacement) + replace_quotes(
            b,
            replacement,
        ),
    decreases b.len(),
{
    if b.len() == 0 {
        assert(a + b == a);
    } else {
        lemma_replace_quotes_concat(a, b.drop_last(), replacement);
        assert((a + b).drop_last() == a + b.drop_last());
        assert(replace_quotes(a + b, replacement) =~= replace_quotes(a, replacement)
            + replace_quotes(b, replacement));
    }
}

/// Inside quotes, a shell reads an escaped text back up to the closing quote.
proof fn lemma_read_escaped(
    value: Seq<char>,
    rest: Seq<char>,
    word: Seq<char>,
    done: Seq<Seq<char>>,
)
    ensures
        read_words(
            replace_quotes(value, quote_escape()) + seq!['\''] + rest,
            Some(word),
            true,
            done,
        ) == read_words(rest, Some(word + value), false, done),
    decreases value.len(),
{
    reveal_strlit("'\\''");
    let escape = quote_escape();
    let line = replace_quotes(value, escape) + seq!['\''] + rest;
    if value.len() == 0 {
        assert(line.skip(1) == rest);
        assert(word + value == word);
    } else {
        let c = value[0];
        let tail = value.skip(1);
        assert(value == seq![c] + tail);
        lemma_replace_quotes_concat(seq![c], tail, escape);
        assert(seq![c].drop_last() == Seq::<char>::empty());
        assert(replace_quotes(Seq::<char>::empty(), escape) == Seq::<char>::empty());
        let after = replace_quotes(tail, escape) + seq!['\''] + rest;
        lemma_read_escaped(tail, rest, word.push(c), done);
        assert(word.push(c) + tail == word + value);
        if c == '\'' {
            assert(replace_quotes(seq![c], escape) == escape);
            assert(line == escape + after);
            assert(escape.len() == 4);
            let l1 = line.skip(1);
            let l3 = l1.skip(2);
            let l4 = l3.skip(1);
            assert(l1[0] == '\\' && l1[1] == '\'');
            assert(l3[0] == '\'');
            assert(l4 == after);
            assert(read_words(line, Some(word), true, done) == read_words(
                l1,
                Some(word),
                false,
                done,
            ));
            assert(read_words(l1, Some(word), false, done) == read_words(
                l3,
                Some(word.push(c)),
                false,
                done,
            ));
            assert(read_words(l3, Some(word.push(c)), false, done) == read_words(
                l4,
                Some(word.push(c)),
                true,
                done,
            ));
        } else {
            assert(replace_quotes(seq![c], escape) == seq![c]);
            assert(line == seq![c] + after);
            assert(line.skip(1) == after);
        }
    }
}

/// A shell reads a quoted text as that text, as part of the word in which it stands.
pub proof fn lemma_quoted_is_read_back(
    value: Seq<char>,
    rest: Seq<char>,
    word: Option<Seq<char>>,
    done: Seq<Seq<char>>,
)
    ensures
        read_words(quoted(value) + rest, word, false, done) == read_words(
            rest,
            Some(word_so_far(word) + value),
            false,
            done,
        ),
{
    reveal_strlit("'");
    let line = quoted(value) + rest;
    assert(line[0] == '\'');
    assert(line.skip(1) == replace_quotes(value, quote_escape()) + seq!['\''] + rest);
    lemma_read_escaped(value, rest, word_so_far(word), done);
}

/// Quoting keeps a text whole: a shell reads `shell_single_quote` of any text as exactly one
/// word, and that word is the text.
pub proof fn law_quoting_is_read_back(value: Seq<char>)
    ensures
        shell_words(quoted(value)) == Some(seq![value]),
{
    let none: Option<Seq<char>> = None;
    lemma_quoted_is_read_back(value, Seq::empty(), none, Seq::empty());
    assert(quoted(value) + Seq::empty() == quoted(value));
    assert(Seq::<char>::empty() + value == value);
    assert(Seq::<Seq<char>>::empty().push(value) == seq![value]);
}

/// A shell reads a plain word as it stands.
pub proof fn lemma_plain_word(
    text: Seq<char>,
    rest: Seq<char>,
    word: Option<Seq<char>>,
    done: Seq<Seq<char>>,
)
    requires
        text.len() > 0,
        forall|i: int| 0 <= i < text.len() ==> plain_char(#[trigger] text[i]),
    ensures
        read_words(text + rest, word, false, done) == read_words(
            rest,
            Some(word_so_far(word) + text),
            false,
            done,
        ),
    decreases text.len(),
{
    let line = text + rest;
    let next = Some(word_so_far(word).push(text[0]));
    assert(line[0] == text[0]);
    assert(plain_char(text[0]));
    assert(line.skip(1) == text.skip(1) + rest);
    if text.len() == 1 {
        assert(text.skip(1) + rest == rest);
        assert(word_so_far(word) + text == word_so_far(word).push(text[0]));
    } else {
        assert forall|i: int| 0 <= i < text.skip(1).len() implies plain_char(
            #[trigger] text.skip(1)[i],
        ) by {
            assert(text.skip(1)[i] == text[i + 1]);
        }
        lemma_plain_word(text.skip(1), rest, next, done);
        assert(word_so_far(next) + text.skip(1) == word_so_far(word) + text);
    }
}

/// A shell ends a word at a space.
pub proof fn lemma_space(rest: Seq<char>, word: Seq<char>, done: Seq<Seq<char>>)
    ensures
        read_words(" "@ + rest, Some(word), false, done) == read_words(
            rest,
            None,
            false,
            done.push(word),
        ),
{
    reveal_strlit(" ");
    let line = " "@ + rest;
    assert(line[0] == ' ');
    assert(line.skip(1) == rest);
}

/// A shell reads a plain word and the space behind it as one word.
pub proof fn lemma_word_and_space(text: Seq<char>, rest: Seq<char>, done: Seq<Seq<char>>)
    requires
        text.len() > 0,
        forall|i: int| 0 <= i < text.len() ==> plain_char(#[trigger] text[i]),
    ensures
        read_words(text + (" "@ + rest), None, false, done) == read_words(
            rest,
            None,
            false,
            done.push(text),
        ),
{
    lemma_plain_word(text, " "@ + rest, None, done);
    assert(word_so_far(None) + text == text);
    lemma_space(rest, text, done);
}

/// A shell reads a list of quoted texts as one word for each text.
pub proof fn lemma_list_is_read_back(
    values: Seq<Seq<char>>,
    rest: Seq<char>,
    done: Seq<Seq<char>>,
)
    requires
        values.len() > 0,
    ensures
        read_words(quoted_list(values) + rest, None, false, done) == read_words(
            rest,
            Some(values.last()),
            false,
            done + values.drop_last(),
        ),
    decreases values.len(),
{
    let none: Option<Seq<char>> = None;
    let last = values.last();
    if values.len() == 1 {
        lemma_quoted_is_read_back(last, rest, none, done);
        assert(word_so_far(none) + last == last);
        assert(done + values.drop_last() == done);
    } else {
        let front = values.drop_last();
        let line = quoted_list(values) + rest;
        assert(line == quoted_list(front) + (" "@ + (quoted(last) + rest)));
        lemma_list_is_read_back(front, " "@ + (quoted(last) + rest), done);
        lemma_space(quoted(last) + rest, front.last(), done + front.drop_last());
        assert((done + front.drop_last()).push(front.last()) == done + front);
        lemma_quoted_is_read_back(last, rest, none, done + front);
        assert(word_so_far(none) + last == last);
    }
}

/// A line that ends behind a word.
pub proof fn lemma_line_end(word: Seq<char>, done: Seq<Seq<char>>)
    ensures
        read_words(Seq::empty(), Some(word), false, done) == Some(done.push(word)),
{
}

/// Texts say their characters, one by one, in their order.
pub proof fn law_texts_say_what_they_hold(values: Seq<String>)
    ensures
        texts(values).len() == values.len(),
        forall|i: int| 0 <= i < values.len() ==> #[trigger] texts(values)[i] == values[i]@,
{
}

} // verus!
