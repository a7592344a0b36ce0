//! The lines of the interactive console: how a line is cut into words and
//! which command it is.
//!
//! A line is cut at white space. Its first word names the command, its
//! second word is the argument of the commands that take one, and whatever
//! follows is not looked at.

use vstd::prelude::*;
use vstd::string::{StrSliceExecFns, StringExecFns};
use crate::ledger::Transaction;
use crate::utils::balance_limit;

verus! {

/// The usage messages of the console, one for each command that can be
/// given in a wrong shape.
#[derive(Clone, Copy, Debug, PartialEq, Eq, Structural)]
pub enum Usage {
    /// `add` without a name.
    Add,
    /// `depot` without an amount, or with one that is no number.
    Depot,
    /// `retrait` without an amount, or with one that is no number.
    Retrait,
}

/// A command of the console.
#[derive(Clone, Debug, PartialEq, Eq)]
pub enum Command {
    /// `exit` or `quit`: leave the console.
    Exit,
    /// `add <name>`: register the card that is read next under this name.
    Add(String),
    /// `reset`: forget the card that is read next.
    Reset,
    /// `help`: show the list of commands.
    Help,
    /// `depot <amount>` or `retrait <amount>`: change the balance.
    Transact(Transaction),
    /// A known command in a wrong shape.
    Usage(Usage),
    /// Anything else; it holds the line without the white space around it.
    Unknown(String),
}

/// Mathematical form of a [`Command`].
#[verifier::ext_equal]
pub enum CommandView {
    Exit,
    Add(Seq<char>),
    Reset,
    Help,
    Transact(Transaction),
    Usage(Usage),
    Unknown(Seq<char>),
}

impl View for Command {
    type V = CommandView;

    open spec fn view(&self) -> CommandView {
        match *self {
            Command::Exit => CommandView::Exit,
            Command::Add(name) => CommandView::Add(name@),
            Command::Reset => CommandView::Reset,
            Command::Help => CommandView::Help,
            Command::Transact(transaction) => CommandView::Transact(transaction),
            Command::Usage(usage) => CommandView::Usage(usage),
            Command::Unknown(line) => CommandView::Unknown(line@),
        }
    }
}

/// Whether `c` is white space: a character with the Unicode property
/// White_Space.
pub open spec fn is_space(c: char) -> bool {
    ('\u{9}' <= c <= '\u{D}') || c == ' ' || c == '\u{85}' || c == '\u{A0}' || c == '\u{1680}' || (
    '\u{2000}' <= c <= '\u{200A}') || c == '\u{2028}' || c == '\u{2029}' || c == '\u{202F}' || c
        == '\u{205F}' || c == '\u{3000}'
}

/// The place of the first character from `from` on that is no white
/// space, or the end of the text.
pub open spec fn word_start(text: Seq<char>, from: int) -> int
    decreases text.len() - from,
{
    if 0 <= from < text.len() && is_space(text[from]) {
        word_start(text, from + 1)
    } else {
        from
    }
}

/// The place of the first white space from `from` on, or the end of the
/// text.
pub open spec fn word_end(text: Seq<char>, from: int) -> int
    decreases text.len() - from,
{
    if 0 <= from < text.len() && !is_space(text[from]) {
        word_end(text, from + 1)
    } else {
        from
    }
}

/// The place where the word with number `n` starts, counting from 0; the
/// end of the text if it has no such word.
pub open spec fn nth_word_start(text: Seq<char>, n: nat) -> int
    decreases n,
{
    if n == 0 {
        word_start(text, 0)
    } else {
        let before = nth_word_start(text, (n - 1) as nat);
        word_start(text, word_end(text, before))
    }
}

/// The word with number `n` of `text`, counting from 0; empty if the text
/// has no such word.
pub open spec fn word(text: Seq<char>, n: nat) -> Seq<char> {
    let start = nth_word_start(text, n);
    text.subrange(start, word_end(text, start))
}

/// The place behind the last character of `text` that is no white space;
/// 0 if it has none.
pub open spec fn text_end(text: Seq<char>) -> int
    decreases text.len(),
{
    if text.len() > 0 && is_space(text.last()) {
        text_end(text.drop_last())
    } else {
        text.len() as int
    }
}

/// The text without the white space before and behind it.
pub open spec fn trimmed(text: Seq<char>) -> Seq<char> {
    if word_start(text, 0) < text_end(text) {
        text.subrange(word_start(text, 0), text_end(text))
    } else {
        Seq::empty()
    }
}

/// Whether `c` is a decimal digit.
pub open spec fn is_digit(c: char) -> bool {
    '0' <= c <= '9'
}

/// The number that the decimal digits of `digits` write.
pub open spec fn decimal_value(digits: Seq<char>) -> nat
    decreases digits.len(),
{
    if digits.len() == 0 {
        0
    } else {
        decimal_value(digits.drop_last()) * 10 + (digits.last() as nat - '0' as nat) as nat
    }
}

/// The amount that `word` writes: it is made of decimal digits, at least
/// one, and their number fits a balance. No sign is accepted.
pub open spec fn amount_of(word: Seq<char>) -> Option<u128> {
    if word.len() > 0 && (forall|i: int| 0 <= i < word.len() ==> is_digit(#[trigger] word[i]))
        && decimal_value(word) < balance_limit() {
        Some(decimal_value(word) as u128)
    } else {
        None
    }
}

/// The command that `line` gives.
pub open spec fn parse(line: Seq<char>) -> CommandView {
    let verb = word(line, 0);
    let argument = word(line, 1);
    if verb == "exit"@ || verb == "quit"@ {
        CommandView::Exit
    } else if verb == "add"@ {
        if argument.len() > 0 {
            CommandView::Add(argument)
        } else {
            CommandView::Usage(Usage::Add)
        }
    } else if verb == "reset"@ {
        CommandView::Reset
    } else if verb == "help"@ {
        CommandView::Help
    } else if verb == "depot"@ {
        match amount_of(argument) {
            Some(amount) => CommandView::Transact(Transaction::Depot(amount)),
            None => CommandView::Usage(Usage::Depot),
        }
    } else if verb == "retrait"@ {
        match amount_of(argument) {
            Some(amount) => CommandView::Transact(Transaction::Retrait(amount)),
            None => CommandView::Usage(Usage::Retrait),
        }
    } else {
        CommandView::Unknown(trimmed(line))
    }
}

impl Command {
    /// Reads the command that `line` gives.
    pub fn parse(line: &str) -> (command: Command)
        ensures
            command@ == parse(line@),
    {
        let chars = chars_of(line);
        let verb_start = skip_spaces(&chars, 0);
        let verb_end = skip_word(&chars, verb_start);
        let argument_start = skip_spaces(&chars, verb_end);
        let argument_end = skip_word(&chars, argument_start);
        assert(nth_word_start(line@, 1) == argument_start) by {
            reveal_with_fuel(nth_word_start, 2);
        }
        let verb = String::from_str(line.substring_char(verb_start, verb_end));
        if is_word(&verb, "exit") || is_word(&verb, "quit") {
            Command::Exit
        } else if is_word(&verb, "add") {
            if argument_start < argument_end {
                Command::Add(String::from_str(line.substring_char(argument_start, argument_end)))
            } else {
                Command::Usage(Usage::Add)
            }
        } else if is_word(&verb, "reset") {
            Command::Reset
        } else if is_word(&verb, "help") {
            Command::Help
        } else if is_word(&verb, "depot") {
            match read_amount(&chars, argument_start, argument_end) {
                Some(amount) => Command::Transact(Transaction::Depot(amount)),
                None => Command::Usage(Usage::Depot),
            }
        } else if is_word(&verb, "retrait") {
            match read_amount(&chars, argument_start, argument_end) {
                Some(amount) => Command::Transact(Transaction::Retrait(amount)),
                None => Command::Usage(Usage::Retrait),
            }
        } else {
            let end = skip_back(&chars);
            if verb_start < end {
                Command::Unknown(String::from_str(line.substring_char(verb_start, end)))
            } else {
                Command::Unknown(String::new())
            }
        }
    }
}

/// Tells whether `c` is white space.
fn is_space_char(c: char) -> (yes: bool)
    ensures
        yes == is_space(c),
{
    ('\u{9}' <= c && c <= '\u{D}') || c == ' ' || c == '\u{85}' || c == '\u{A0}' || c
        == '\u{1680}' || ('\u{2000}' <= c && c <= '\u{200A}') || c == '\u{2028}' || c
        == '\u{2029}' || c == '\u{202F}' || c == '\u{205F}' || c == '\u{3000}'
}

/// The characters of `line`, one by one.
fn chars_of(line: &str) -> (chars: Vec<char>)
    ensures
        chars@ == line@,
{
    let mut chars: Vec<char> = Vec::new();
    for c in it: line.chars()
        invariant
            chars@ == it.seq().take(it.index() as int),
            it.seq() == line@,
    {
        chars.push(c);
    }
    chars
}

/// Goes past the white space that starts at `from`.
fn skip_spaces(chars: &Vec<char>, from: usize) -> (at: usize)
    requires
        from <= chars.len(),
    ensures
        at == word_start(chars@, from as int),
        from <= at <= chars.len(),
{
    let mut at = from;
    while at < chars.len() && is_space_char(chars[at])
        invariant
            from <= at <= chars.len(),
            word_start(chars@, from as int) == word_start(chars@, at as int),
        decreases chars.len() - at,
    {
        at += 1;
    }
    at
}

/// Goes past the word that starts at `from`.
fn skip_word(chars: &Vec<char>, from: usize) -> (at: usize)
    requires
        from <= chars.len(),
    ensures
        at == word_end(chars@, from as int),
        from <= at <= chars.len(),
{
    let mut at = from;
    while at < chars.len() && !is_space_char(chars[at])
        invariant
            from <= at <= chars.len(),
            word_end(chars@, from as int) == word_end(chars@, at as int),
        decreases chars.len() - at,
    {
        at += 1;
    }
    at
}

/// Goes back over the white space at the end of the text.
fn skip_back(chars: &Vec<char>) -> (at: usize)
    ensures
        at == text_end(chars@),
        at <= chars.len(),
{
    let mut at = chars.len();
    assert(chars@.take(at as int) == chars@);
    while at > 0 && is_space_char(chars[at - 1])
        invariant
            at <= chars.len(),
            text_end(chars@) == text_end(chars@.take(at as int)),
        decreases at,
    {
        assert(chars@.take(at as int).drop_last() == chars@.take(at - 1));
        at -= 1;
    }
    at
}

/// Reads the amount that the characters from `start` to `end` write.
fn read_amount(chars: &Vec<char>, start: usize, end: usize) -> (amount: Option<u128>)
    requires
        start <= end <= chars.len(),
    ensures
        amount == amount_of(chars@.subrange(start as int, end as int)),
{
    let ghost word = chars@.subrange(start as int, end as int);
    if start == end {
        return None;
    }
    let mut value: u128 = 0;
    let mut at = start;
    while at < end
        invariant
            start <= at <= end <= chars.len(),
            word == chars@.subrange(start as int, end as int),
            forall|i: int| 0 <= i < at - start ==> is_digit(#[trigger] word[i]),
            value == decimal_value(word.take(at - start)),
        decreases end - at,
    {
        let c = chars[at];
        if !('0' <= c && c <= '9') {
            assert(!is_digit(word[at - start]));
            return None;
        }
        let digit: u128 = (c as u32 - '0' as u32) as u128;
        proof {
            assert(word.take(at - start + 1).drop_last() == word.take(at - start));
            lemma_decimal_value_grows(word, at - start + 1);
        }
        let next = match value.checked_mul(10) {
            Some(tens) => tens.checked_add(digit),
            None => None,
        };
        match next {
            Some(next) => {
                value = next;
            },
            None => {
                return None;
            },
        }
        at += 1;
    }
    proof {
        assert(word.take(end - start) == word);
    }
    Some(value)
}

/// Tells whether `word` is the word `literal`.
fn is_word(word: &String, literal: &str) -> (yes: bool)
    ensures
        yes == (word@ == literal@),
{
    let other = String::from_str(literal);
    *word == other
}

/// The number that some digits write is at least the number that the
/// first of them write.
pub proof fn lemma_decimal_value_grows(digits: Seq<char>, count: int)
    requires
        0 <= count <= digits.len(),
    ensures
        decimal_value(digits.take(count)) <= decimal_value(digits),
    decreases digits.len(),
{
    if count < digits.len() {
        assert(digits.drop_last().take(count) == digits.take(count));
        lemma_decimal_value_grows(digits.drop_last(), count);
    } else {
        assert(digits.take(count) == digits);
    }
}

} // verus!
