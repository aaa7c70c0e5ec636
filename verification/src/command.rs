//! Command lines: a program and its arguments, separated by whitespace.
//! Quotes and escapes have no meaning here.
use crate::job_error::JobError;
use crate::text::{is_blank, white_space};
use vstd::prelude::*;

verus! {

/// How many characters from `from` on come before the next whitespace or
/// the end of the text.
pub open spec fn word_len(s: Seq<char>, from: int) -> nat
    decreases s.len() - from,
{
    if from < 0 || from >= s.len() || white_space(s[from]) {
        0
    } else {
        1 + word_len(s, from + 1)
    }
}

/// The words of `s` that begin at `from` or later, in their order.
pub open spec fn words_from(s: Seq<char>, from: int) -> Seq<Seq<char>>
    decreases s.len() - from,
    via words_from_terminates
{
    if from < 0 || from >= s.len() {
        Seq::empty()
    } else if white_space(s[from]) {
        words_from(s, from + 1)
    } else {
        let end = from + 1 + word_len(s, from + 1);
        seq![s.subrange(from, end)] + words_from(s, end)
    }
}

#[via_fn]
proof fn words_from_terminates(s: Seq<char>, from: int) {
    if 0 <= from < s.len() {
        lemma_word_len(s, from + 1);
    }
}

/// The words of a text: its longest stretches without whitespace.
pub open spec fn words(s: Seq<char>) -> Seq<Seq<char>> {
    words_from(s, 0)
}

/// The texts that a sequence of strings holds.
pub open spec fn texts(v: Seq<String>) -> Seq<Seq<char>> {
    Seq::new(v.len(), |i: int| v[i]@)
}

/// A word ends inside the text, and none of its characters is whitespace.
proof fn lemma_word_len(s: Seq<char>, from: int)
    requires
        0 <= from <= s.len(),
    ensures
        from + word_len(s, from) <= s.len(),
        forall|i: int| from <= i < from + word_len(s, from) ==> !white_space(#[trigger] s[i]),
        from + word_len(s, from) < s.len() ==> white_space(s[from + word_len(s, from)]),
    decreases s.len() - from,
{
    if from < s.len() && !white_space(s[from]) {
        lemma_word_len(s, from + 1);
    }
}

/// A text has no word from `from` on exactly if all is whitespace there.
proof fn lemma_words_from_empty(s: Seq<char>, from: int)
    requires
        0 <= from <= s.len(),
    ensures
        words_from(s, from).len() == 0 <==> forall|i: int|
            from <= i < s.len() ==> white_space(#[trigger] s[i]),
    decreases s.len() - from,
{
    if from < s.len() && white_space(s[from]) {
        lemma_words_from_empty(s, from + 1);
    }
}

/// A text has no word exactly if it is blank.
pub proof fn law_no_word_means_blank(s: Seq<char>)
    ensures
        words(s).len() == 0 <==> is_blank(s),
{
    lemma_words_from_empty(s, 0);
}

/// Every word of a text is non-empty and free of whitespace.
pub proof fn law_words_hold_no_whitespace(s: Seq<char>, k: int)
    requires
        0 <= k < words(s).len(),
    ensures
        words(s)[k].len() > 0,
        forall|i: int| 0 <= i < words(s)[k].len() ==> !white_space(#[trigger] words(s)[k][i]),
{
    lemma_words_from_clean(s, 0, k);
}

proof fn lemma_words_from_clean(s: Seq<char>, from: int, k: int)
    requires
        0 <= from <= s.len(),
        0 <= k < words_from(s, from).len(),
    ensures
        words_from(s, from)[k].len() > 0,
        forall|i: int|
            0 <= i < words_from(s, from)[k].len() ==> !white_space(
                #[trigger] words_from(s, from)[k][i],
            ),
    decreases s.len() - from,
{
    if from < s.len() {
        if white_space(s[from]) {
            lemma_words_from_clean(s, from + 1, k);
        } else {
            let end = from + 1 + word_len(s, from + 1);
            lemma_word_len(s, from + 1);
            if k > 0 {
                lemma_words_from_clean(s, end, k - 1);
            }
        }
    }
}

/// A stretch without whitespace, with whitespace or the end of the text
/// behind it, is the first of the words from its start on.
proof fn lemma_word_at(s: Seq<char>, start: int, end: int)
    requires
        0 <= start < end <= s.len(),
        forall|i: int| start <= i < end ==> !white_space(#[trigger] s[i]),
        end < s.len() ==> white_space(s[end]),
    ensures
        words_from(s, start) == seq![s.subrange(start, end)] + words_from(s, end),
{
    lemma_word_reaches(s, start + 1, end);
}

/// A word that holds no whitespace up to `end`, and ends there, has the
/// length that `word_len` counts.
proof fn lemma_word_reaches(s: Seq<char>, from: int, end: int)
    requires
        0 <= from <= end <= s.len(),
        forall|i: int| from <= i < end ==> !white_space(#[trigger] s[i]),
        end < s.len() ==> white_space(s[end]),
    ensures
        from + word_len(s, from) == end,
    decreases end - from,
{
    if from < end {
        lemma_word_reaches(s, from + 1, end);
    }
}

/// Splits a text into its words, in one pass over its characters.
pub fn split_whitespace(s: &str) -> (parts: Vec<String>)
    ensures
        texts(parts@) == words(s@),
{
    let mut parts: Vec<String> = Vec::new();
    let mut word = String::new();
    assert(texts(parts@) + words_from(s@, 0) =~= words(s@));
    for c in it: s.chars()
        invariant
            it.seq() == s@,
            word@.len() <= it.index(),
            word@ == s@.subrange(it.index() - word@.len(), it.index() as int),
            forall|i: int|
                it.index() - word@.len() <= i < it.index() ==> !white_space(#[trigger] s@[i]),
            texts(parts@) + words_from(s@, it.index() - word@.len()) == words(s@),
    {
        let ghost at = it.index() as int;
        let ghost start = at - word@.len();
        if c.is_whitespace() {
            if !word.as_str().is_empty() {
                let ghost before = parts@;
                proof {
                    lemma_word_at(s@, start, at);
                }
                parts.push(word);
                word = String::new();
                assert(texts(parts@) =~= texts(before) + seq![s@.subrange(start, at)]);
                assert(texts(parts@) + words_from(s@, at) =~= texts(before) + words_from(
                    s@,
                    start,
                ));
            }
            assert(word@.len() == 0);
            assert(word@ =~= s@.subrange(at + 1, at + 1));
        } else {
            word.push(c);
            assert(word@ =~= s@.subrange(start, at + 1));
        }
    }
    let ghost n = s@.len() as int;
    if !word.as_str().is_empty() {
        let ghost before = parts@;
        let ghost start = n - word@.len();
        proof {
            lemma_word_at(s@, start, n);
        }
        parts.push(word);
        assert(texts(parts@) =~= texts(before) + seq![s@.subrange(start, n)]);
        assert(texts(parts@) + words_from(s@, n) =~= texts(before) + words_from(s@, start));
    }
    assert(texts(parts@) + words_from(s@, n) =~= texts(parts@));
    parts
}

/// A command ready to be launched.
pub struct Command {
    /// The program to run: the first word of the command line.
    pub program: String,
    /// Its arguments: the other words, as they stand.
    pub args: Vec<String>,
}

impl Command {
    /// Whether `command` is what a command line that is not blank reads as:
    /// its first word is the program, the others are the arguments.
    pub open spec fn parse_ok(command_line: Seq<char>, command: Command) -> bool {
        &&& !is_blank(command_line)
        &&& command.program@ == words(command_line)[0]
        &&& texts(command.args@) == words(command_line).skip(1)
    }

    /// Reads a command line. A blank one names no program and is refused.
    pub fn parse(command_line: &str) -> (r: Result<Command, JobError>)
        ensures
            match r {
                Ok(command) => Command::parse_ok(command_line@, command),
                Err(JobError::InvalidCommand(text)) => {
                    &&& is_blank(command_line@)
                    &&& text@ == command_line@
                },
                Err(_) => false,
            },
    {
        let mut parts = split_whitespace(command_line);
        proof {
            law_no_word_means_blank(command_line@);
        }
        if parts.len() == 0 {
            Err(JobError::InvalidCommand(String::from_str(command_line)))
        } else {
            let ghost all = parts@;
            let program = parts.remove(0);
            assert(texts(parts@) =~= texts(all).skip(1));
            Ok(Command { program, args: parts })
        }
    }
}

} // verus!
