//! The shape of a command line: the keyword `PRODUCE` or `CONSUME`, one
//! space, a word, one space, and a token that starts with a word character.
//! A word is a run of ASCII letters, digits and underscores. What follows
//! the third token's first character is not constrained.

use vstd::prelude::*;
use crate::action::Command;

verus! {

/// Whether `c` is an ASCII letter, a digit or the underscore.
pub open spec fn is_word_char(c: char) -> bool {
    let code = c as u32;
    0x30 <= code <= 0x39 || 0x41 <= code <= 0x5A || code == 0x5F || 0x61 <= code <= 0x7A
}

/// Whether `c` is white space: the characters with the Unicode property
/// White_Space.
pub open spec fn is_whitespace(c: char) -> bool {
    let code = c as u32;
    0x09 <= code <= 0x0D || code == 0x20 || code == 0x85 || code == 0xA0 || code == 0x1680
        || 0x2000 <= code <= 0x200A || code == 0x2028 || code == 0x2029 || code == 0x202F || code
        == 0x205F || code == 0x3000
}

/// The keyword that starts a text, if one does.
pub open spec fn keyword(s: Seq<char>) -> Option<Command> {
    if s.len() >= 7 && s[0] == 'P' && s[1] == 'R' && s[2] == 'O' && s[3] == 'D' && s[4] == 'U'
        && s[5] == 'C' && s[6] == 'E' {
        Some(Command::Produce)
    } else if s.len() >= 7 && s[0] == 'C' && s[1] == 'O' && s[2] == 'N' && s[3] == 'S' && s[4]
        == 'U' && s[5] == 'M' && s[6] == 'E' {
        Some(Command::Consume)
    } else {
        None
    }
}

/// Where the run of word characters that starts at `pos` ends.
pub open spec fn word_end(s: Seq<char>, pos: int) -> int
    decreases s.len() - pos,
{
    if 0 <= pos < s.len() && is_word_char(s[pos]) {
        word_end(s, pos + 1)
    } else {
        pos
    }
}

/// Where the token that starts at `pos` ends: at the next space, or at the
/// end of the text.
pub open spec fn token_end(s: Seq<char>, pos: int) -> int
    decreases s.len() - pos,
{
    if 0 <= pos < s.len() && s[pos] != ' ' {
        token_end(s, pos + 1)
    } else {
        pos
    }
}

/// Where the text from `start` up to `end` ends once the white space at its
/// end is taken off.
pub open spec fn trimmed_end(s: Seq<char>, start: int, end: int) -> int
    decreases end - start,
{
    if start < end <= s.len() && is_whitespace(s[end - 1]) {
        trimmed_end(s, start, end - 1)
    } else {
        end
    }
}

/// The position of the identifier's first character: after the keyword and
/// its space.
pub open spec fn identifier_start() -> int {
    8
}

/// The position after the identifier.
pub open spec fn identifier_end(s: Seq<char>) -> int {
    word_end(s, identifier_start())
}

/// The position of the third token's first character.
pub open spec fn quantity_start(s: Seq<char>) -> int {
    identifier_end(s) + 1
}

/// The position after the third token, its trailing white space taken off.
pub open spec fn quantity_end(s: Seq<char>) -> int {
    trimmed_end(s, quantity_start(s), token_end(s, quantity_start(s)))
}

/// Whether a text has the shape of a command line.
pub open spec fn matches_pattern(s: Seq<char>) -> bool {
    &&& keyword(s) is Some
    &&& s.len() > 7
    &&& s[7] == ' '
    &&& identifier_end(s) > identifier_start()
    &&& identifier_end(s) < s.len()
    &&& s[identifier_end(s)] == ' '
    &&& quantity_start(s) < s.len()
    &&& is_word_char(s[quantity_start(s)])
}

/// The identifier of a command line.
pub open spec fn identifier_text(s: Seq<char>) -> Seq<char> {
    s.subrange(identifier_start(), identifier_end(s))
}

/// The quantity of a command line, as text.
pub open spec fn quantity_text(s: Seq<char>) -> Seq<char> {
    s.subrange(quantity_start(s), quantity_end(s))
}

/// The word run from `pos` ends at or after `pos`, within the text; every
/// character in it is a word character and the one after it, if any, is not.
pub proof fn lemma_word_end(s: Seq<char>, pos: int)
    requires
        0 <= pos <= s.len(),
    ensures
        pos <= word_end(s, pos) <= s.len(),
        forall|i: int| pos <= i < word_end(s, pos) ==> is_word_char(#[trigger] s[i]),
        word_end(s, pos) < s.len() ==> !is_word_char(s[word_end(s, pos)]),
    decreases s.len() - pos,
{
    if pos < s.len() && is_word_char(s[pos]) {
        lemma_word_end(s, pos + 1);
    }
}

/// The token from `pos` ends at or after `pos`, within the text; no
/// character in it is a space and the one after it, if any, is a space.
pub proof fn lemma_token_end(s: Seq<char>, pos: int)
    requires
        0 <= pos <= s.len(),
    ensures
        pos <= token_end(s, pos) <= s.len(),
        forall|i: int| pos <= i < token_end(s, pos) ==> #[trigger] s[i] != ' ',
        token_end(s, pos) < s.len() ==> s[token_end(s, pos)] == ' ',
    decreases s.len() - pos,
{
    if pos < s.len() && s[pos] != ' ' {
        lemma_token_end(s, pos + 1);
    }
}

/// Trimming leaves an end between the start and the old end, with no white
/// space before it, and takes off white space only.
pub proof fn lemma_trimmed_end(s: Seq<char>, start: int, end: int)
    requires
        0 <= start <= end <= s.len(),
    ensures
        start <= trimmed_end(s, start, end) <= end,
        trimmed_end(s, start, end) > start ==> !is_whitespace(s[trimmed_end(s, start, end) - 1]),
        forall|i: int| trimmed_end(s, start, end) <= i < end ==> is_whitespace(#[trigger] s[i]),
    decreases end - start,
{
    if start < end && is_whitespace(s[end - 1]) {
        lemma_trimmed_end(s, start, end - 1);
    }
}

/// Whether `c` is an ASCII letter, a digit or the underscore.
pub fn word_char(c: char) -> (b: bool)
    ensures
        b == is_word_char(c),
{
    let code: u32 = c as u32;
    (0x30 <= code && code <= 0x39) || (0x41 <= code && code <= 0x5A) || code == 0x5F || (0x61
        <= code && code <= 0x7A)
}

/// Whether `c` is white space.
pub fn whitespace(c: char) -> (b: bool)
    ensures
        b == is_whitespace(c),
{
    let code: u32 = c as u32;
    (0x09 <= code && code <= 0x0D) || code == 0x20 || code == 0x85 || code == 0xA0 || code
        == 0x1680 || (0x2000 <= code && code <= 0x200A) || code == 0x2028 || code == 0x2029
        || code == 0x202F || code == 0x205F || code == 0x3000
}

/// The keyword that starts the text, if one does.
pub fn read_keyword(chars: &[char]) -> (command: Option<Command>)
    ensures
        command == keyword(chars@),
{
    if chars.len() < 7 {
        None
    } else if chars[0] == 'P' && chars[1] == 'R' && chars[2] == 'O' && chars[3] == 'D'
        && chars[4] == 'U' && chars[5] == 'C' && chars[6] == 'E' {
        Some(Command::Produce)
    } else if chars[0] == 'C' && chars[1] == 'O' && chars[2] == 'N' && chars[3] == 'S'
        && chars[4] == 'U' && chars[5] == 'M' && chars[6] == 'E' {
        Some(Command::Consume)
    } else {
        None
    }
}

/// Finds the end of the word run that starts at `pos`.
pub fn find_word_end(chars: &[char], pos: usize) -> (end: usize)
    requires
        pos <= chars@.len(),
    ensures
        end == word_end(chars@, pos as int),
        pos <= end <= chars@.len(),
{
    let mut at: usize = pos;
    while at < chars.len() && word_char(chars[at])
        invariant
            pos <= at <= chars@.len(),
            word_end(chars@, pos as int) == word_end(chars@, at as int),
        decreases chars@.len() - at,
    {
        at = at + 1;
    }
    at
}

/// Finds the end of the token that starts at `pos`.
pub fn find_token_end(chars: &[char], pos: usize) -> (end: usize)
    requires
        pos <= chars@.len(),
    ensures
        end == token_end(chars@, pos as int),
        pos <= end <= chars@.len(),
{
    let mut at: usize = pos;
    while at < chars.len() && chars[at] != ' '
        invariant
            pos <= at <= chars@.len(),
            token_end(chars@, pos as int) == token_end(chars@, at as int),
        decreases chars@.len() - at,
    {
        at = at + 1;
    }
    at
}

/// Takes the white space off the end of the text from `start` up to `end`.
pub fn trim_end(chars: &[char], start: usize, end: usize) -> (trimmed: usize)
    requires
        start <= end <= chars@.len(),
    ensures
        trimmed == trimmed_end(chars@, start as int, end as int),
        start <= trimmed <= end,
{
    let mut at: usize = end;
    while start < at && whitespace(chars[at - 1])
        invariant
            start <= at <= end <= chars@.len(),
            trimmed_end(chars@, start as int, end as int) == trimmed_end(
                chars@,
                start as int,
                at as int,
            ),
        decreases at - start,
    {
        at = at - 1;
    }
    at
}

/// The parts of a command line: the keyword's command and where the
/// identifier and the quantity stand.
#[derive(Clone, Copy, Debug, PartialEq, Eq, Structural)]
pub struct CommandParts {
    /// The keyword's command.
    pub command: Command,
    /// The position of the identifier's first character.
    pub identifier_start: usize,
    /// The position after the identifier.
    pub identifier_end: usize,
    /// The position of the quantity's first character.
    pub quantity_start: usize,
    /// The position after the quantity.
    pub quantity_end: usize,
}

/// Splits a command line into its parts. `None` exactly where the text has
/// not the shape of a command line.
pub fn split_command(chars: &[char]) -> (r: Option<CommandParts>)
    ensures
        match r {
            Some(parts) => {
                &&& matches_pattern(chars@)
                &&& keyword(chars@) == Some(parts.command)
                &&& parts.identifier_start == identifier_start()
                &&& parts.identifier_end == identifier_end(chars@)
                &&& parts.quantity_start == quantity_start(chars@)
                &&& parts.quantity_end == quantity_end(chars@)
                &&& parts.identifier_start < parts.identifier_end < parts.quantity_start
                    < parts.quantity_end <= chars@.len()
            },
            None => !matches_pattern(chars@),
        },
{
    let command = match read_keyword(chars) {
        Some(command) => command,
        None => {
            return None;
        },
    };
    let n: usize = chars.len();
    if n <= 7 || chars[7] != ' ' {
        return None;
    }
    let identifier_end: usize = find_word_end(chars, 8);
    if identifier_end <= 8 || identifier_end >= n || chars[identifier_end] != ' ' {
        return None;
    }
    let quantity_start: usize = identifier_end + 1;
    if quantity_start >= n || !word_char(chars[quantity_start]) {
        return None;
    }
    let token_end: usize = find_token_end(chars, quantity_start);
    let quantity_end: usize = trim_end(chars, quantity_start, token_end);
    proof {
        // The token's first character is a word character: neither a space
        // nor white space, so trimming stops after it at the latest.
        lemma_token_end(chars@, quantity_start as int);
        lemma_trimmed_end(chars@, quantity_start as int, token_end as int);
        assert(token_end > quantity_start);
        if quantity_end == quantity_start {
            assert(is_whitespace(chars@[quantity_start as int]));
        }
    }
    Some(
        CommandParts {
            command,
            identifier_start: 8,
            identifier_end,
            quantity_start,
            quantity_end,
        },
    )
}

} // verus!
