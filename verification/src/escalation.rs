//! Commands that try to become another user.

use crate::text::{chars_of, text_eq, text_of};
use vstd::prelude::*;

verus! {

/// Whether a character belongs to a word of a command.
pub open spec fn word_char(c: char) -> bool {
    ||| 'a' <= c <= 'z'
    ||| 'A' <= c <= 'Z'
    ||| '0' <= c <= '9'
    ||| c == '_'
    ||| c == '-'
}

/// A letter of the Latin alphabet without accents in lower case; any other character as it is.
pub open spec fn ascii_lower(c: char) -> char {
    if 'A' <= c <= 'Z' {
        ((c as u32) + 32) as char
    } else {
        c
    }
}

/// A text with its letters of the Latin alphabet in lower case.
pub open spec fn lower(text: Seq<char>) -> Seq<char> {
    text.map_values(|c: char| ascii_lower(c))
}

/// Whether the characters of a command from `start` to before `end` make a word: as many word
/// characters as stand together.
pub open spec fn is_word(command: Seq<char>, start: int, end: int) -> bool {
    &&& 0 <= start < end <= command.len()
    &&& forall|k: int| start <= k < end ==> word_char(#[trigger] command[k])
    &&& start == 0 || !word_char(command[start - 1])
    &&& end == command.len() || !word_char(command[end])
}

/// Whether a word names a program that runs commands as another user.
pub open spec fn escalation_word(word: Seq<char>) -> bool {
    word == "sudo"@ || word == "su"@ || word == "doas"@ || word == "pkexec"@
}

/// Whether a word of a command names a program that runs commands as another user, in upper
/// or lower case.
pub open spec fn escalates(command: Seq<char>) -> bool {
    exists|start: int, end: int| #[trigger]
        is_word(command, start, end) && escalation_word(lower(command.subrange(start, end)))
}

/// The answer to a command that would run as another user.
pub open spec fn escalation_message() -> Seq<char> {
    "Privilege escalation is not allowed with management access. Use the privileged command tool with system access."@
}

fn is_word_char(c: char) -> (found: bool)
    ensures
        found == word_char(c),
{
    ('a' <= c && c <= 'z') || ('A' <= c && c <= 'Z') || ('0' <= c && c <= '9') || c == '_' || c
        == '-'
}

/// Puts a letter of the Latin alphabet in lower case.
pub fn lower_char(c: char) -> (l: char)
    ensures
        l == ascii_lower(c),
{
    if 'A' <= c && c <= 'Z' {
        (c as u8 + 32) as char
    } else {
        c
    }
}

fn names_escalation(chars: &Vec<char>, start: usize, end: usize) -> (found: bool)
    requires
        start <= end <= chars@.len(),
    ensures
        found == escalation_word(lower(chars@.subrange(start as int, end as int))),
{
    let mut word: Vec<char> = Vec::new();
    let mut i: usize = start;
    while i < end
        invariant
            start <= i <= end <= chars@.len(),
            word@ == lower(chars@.subrange(start as int, i as int)),
        decreases end - i,
    {
        word.push(lower_char(chars[i]));
        i += 1;
        assert(chars@.subrange(start as int, i as int) == chars@.subrange(
            start as int,
            i - 1,
        ).push(chars@[i - 1]));
        assert(word@ == lower(chars@.subrange(start as int, i as int)));
    }
    let text = text_of(word.as_slice());
    text_eq(text.as_str(), "sudo") || text_eq(text.as_str(), "su") || text_eq(
        text.as_str(),
        "doas",
    ) || text_eq(text.as_str(), "pkexec")
}

/// The words that end where a run of word characters ends are that run alone.
proof fn lemma_words_up_to(command: Seq<char>, start: int, end: int)
    requires
        0 <= start <= end <= command.len(),
        forall|k: int| start <= k < end ==> word_char(#[trigger] command[k]),
        start == 0 || !word_char(command[start - 1]),
        end == command.len() || !word_char(command[end]),
    ensures
        forall|a: int, b: int| #[trigger]
            is_word(command, a, b) && start <= b <= end ==> a == start && b == end,
        start < end ==> is_word(command, start, end),
{
    assert forall|a: int, b: int| #[trigger]
        is_word(command, a, b) && start <= b <= end implies a == start && b == end by {
        if b < end {
            assert(word_char(command[b]));
        }
        if a < start {
            assert(word_char(command[start - 1]));
        }
        if a > start {
            assert(word_char(command[a - 1]));
        }
    }
}

/// Refuses a command in which a word names a program that runs commands as another user.
pub fn reject_privilege_escalation(command: &str) -> (outcome: Result<(), String>)
    ensures
        outcome is Err <==> escalates(command@),
        outcome is Err ==> outcome->Err_0@ == escalation_message(),
{
    let chars = chars_of(command);
    let mut start: usize = 0;
    let mut i: usize = 0;
    while i < chars.len()
        invariant
            chars@ == command@,
            start <= i <= chars@.len(),
            forall|k: int| start <= k < i ==> word_char(#[trigger] command@[k]),
            start == 0 || !word_char(command@[start - 1]),
            forall|a: int, b: int| #[trigger]
                is_word(command@, a, b) && b < start ==> !escalation_word(
                    lower(command@.subrange(a, b)),
                ),
        decreases chars@.len() - i,
    {
        if !is_word_char(chars[i]) {
            proof {
                lemma_words_up_to(command@, start as int, i as int);
            }
            if names_escalation(&chars, start, i) {
                proof {
                    lemma_nonempty_word(command@.subrange(start as int, i as int));
                }
                return Err(
                    "Privilege escalation is not allowed with management access. Use the privileged command tool with system access.".to_owned(),
                );
            }
            start = i + 1;
        }
        i += 1;
    }
    proof {
        lemma_words_up_to(command@, start as int, i as int);
    }
    if names_escalation(&chars, start, i) {
        proof {
            lemma_nonempty_word(command@.subrange(start as int, i as int));
        }
        return Err(
            "Privilege escalation is not allowed with management access. Use the privileged command tool with system access.".to_owned(),
        );
    }
    Ok(())
}

/// A word that names such a program is not empty.
proof fn lemma_nonempty_word(word: Seq<char>)
    requires
        escalation_word(lower(word)),
    ensures
        word.len() > 0,
{
    reveal_strlit("sudo");
    reveal_strlit("su");
    reveal_strlit("doas");
    reveal_strlit("pkexec");
    assert("sudo"@.len() == 4 && "su"@.len() == 2 && "doas"@.len() == 4 && "pkexec"@.len() == 6);
    assert(lower(word).len() == word.len());
}

/// Whether a text is a word in lower case, but for the case of its letters.
pub open spec fn same_but_case(text: Seq<char>, word: Seq<char>) -> bool {
    &&& text.len() == word.len()
    &&& forall|i: int|
        0 <= i < text.len() ==> (#[trigger] text[i] == word[i] || ('a' <= word[i] <= 'z'
            && text[i] as u32 + 32 == word[i] as u32))
}

/// Whether a character is a letter of the Latin alphabet, a digit, an underscore or a hyphen.
pub open spec fn joins_words(c: char) -> bool {
    ('a' <= c <= 'z') || ('A' <= c <= 'Z') || ('0' <= c <= '9') || c == '_' || c == '-'
}

/// Whether a text names a program that runs commands as another user, in upper or lower case.
pub open spec fn names_other_user(text: Seq<char>) -> bool {
    ||| same_but_case(text, "sudo"@)
    ||| same_but_case(text, "su"@)
    ||| same_but_case(text, "doas"@)
    ||| same_but_case(text, "pkexec"@)
}

proof fn lemma_same_but_case(text: Seq<char>, word: Seq<char>)
    requires
        forall|i: int| 0 <= i < word.len() ==> 'a' <= #[trigger] word[i] <= 'z',
    ensures
        same_but_case(text, word) <==> lower(text) == word,
        same_but_case(text, word) ==> forall|i: int|
            0 <= i < text.len() ==> word_char(#[trigger] text[i]),
{
    if same_but_case(text, word) {
        assert forall|i: int| 0 <= i < text.len() implies lower(text)[i] == #[trigger] word[i] by {
            assert(text[i] == word[i] || text[i] as u32 + 32 == word[i] as u32);
        }
        assert(lower(text) =~= word);
        assert forall|i: int| 0 <= i < text.len() implies word_char(#[trigger] text[i]) by {
            assert('a' <= word[i] <= 'z');
        }
    }
    if lower(text) == word {
        assert(lower(text).len() == text.len());
        assert forall|i: int| 0 <= i < text.len() implies (#[trigger] text[i] == word[i] || ('a'
            <= word[i] <= 'z' && text[i] as u32 + 32 == word[i] as u32)) by {
            assert(lower(text)[i] == ascii_lower(text[i]));
        }
    }
}

proof fn lemma_names_other_user(text: Seq<char>)
    ensures
        names_other_user(text) <==> escalation_word(lower(text)),
{
    reveal_strlit("sudo");
    reveal_strlit("su");
    reveal_strlit("doas");
    reveal_strlit("pkexec");
    lemma_same_but_case(text, "sudo"@);
    lemma_same_but_case(text, "su"@);
    lemma_same_but_case(text, "doas"@);
    lemma_same_but_case(text, "pkexec"@);
}

/// Whether what stands between two texts is not joined to either of them as one word.
pub open spec fn stands_alone(before: Seq<char>, behind: Seq<char>) -> bool {
    &&& before.len() > 0 ==> !joins_words(before[before.len() - 1])
    &&& behind.len() > 0 ==> !joins_words(behind[0])
}

/// A command is refused exactly where it names one of `sudo`, `su`, `doas` and `pkexec`, in upper
/// or lower case, as a word of its own: neither a letter, a digit, an underscore nor a hyphen
/// stands right before or right behind it.
pub proof fn law_commands_that_raise_privileges(command: Seq<char>)
    ensures
        escalates(command) <==> exists|before: Seq<char>, word: Seq<char>, behind: Seq<char>|
            {
                &&& command == before + word + behind
                &&& #[trigger] stands_alone(before, behind)
                &&& #[trigger] names_other_user(word)
            },
{
    if escalates(command) {
        let (start, end) = choose|start: int, end: int| #[trigger]
            is_word(command, start, end) && escalation_word(lower(command.subrange(start, end)));
        let before = command.take(start);
        let word = command.subrange(start, end);
        let behind = command.skip(end);
        lemma_names_other_user(word);
        assert(command =~= before + word + behind);
        assert(stands_alone(before, behind));
    }
    if exists|before: Seq<char>, word: Seq<char>, behind: Seq<char>|
        {
            &&& command == before + word + behind
            &&& #[trigger] stands_alone(before, behind)
            &&& #[trigger] names_other_user(word)
        } {
        let (before, word, behind) = choose|
            before: Seq<char>,
            word: Seq<char>,
            behind: Seq<char>,
        |
            {
                &&& command == before + word + behind
                &&& #[trigger] stands_alone(before, behind)
                &&& #[trigger] names_other_user(word)
            };
        lemma_names_other_user(word);
        lemma_nonempty_word(word);
        let start = before.len() as int;
        let end = start + word.len();
        assert(command.subrange(start, end) =~= word);
        lemma_names_are_words(word);
        assert forall|k: int| start <= k < end implies word_char(#[trigger] command[k]) by {
            assert(command[k] == word[k - start]);
        }
        assert(start > 0 ==> command[start - 1] == before[before.len() - 1]);
        assert(end < command.len() ==> command[end] == behind[0]);
        assert(is_word(command, start, end));
    }
}

proof fn lemma_names_are_words(word: Seq<char>)
    requires
        names_other_user(word),
    ensures
        forall|i: int| 0 <= i < word.len() ==> word_char(#[trigger] word[i]),
{
    reveal_strlit("sudo");
    reveal_strlit("su");
    reveal_strlit("doas");
    reveal_strlit("pkexec");
    lemma_same_but_case(word, "sudo"@);
    lemma_same_but_case(word, "su"@);
    lemma_same_but_case(word, "doas"@);
    lemma_same_but_case(word, "pkexec"@);
}

} // verus!
