//! The command of one input line: parsed from text, or read back from a
//! payload's wire form.

use vstd::prelude::*;
use vstd::string::*;
use vstd::slice::slice_subrange;
use crate::action::{decode_action, Action, ActionView, Command};
use crate::error::{unmarshal_text, ErrorKind, PCError};
use crate::grammar::{identifier_end, identifier_start, identifier_text, is_word_char, keyword,
    lemma_word_end, matches_pattern, quantity_text, split_command};
use crate::integer::{int_error_text, is_numeral, lemma_parse_i32_meaning, numeral_value,
    parse_i32, parse_i32_text};

verus! {

/// A command: what to do, to which item, with how many.
#[derive(Clone, Debug, PartialEq, Eq)]
pub struct ProduceConsumePayload {
    command: Command,
    identifier: String,
    quantity: i32,
}

/// The hint shown for a line that has not the shape of a command.
pub open spec fn format_hint() -> Seq<char> {
    "Please input \"[PRODUCE|CONSUME] <identifier> <quantity>\""@
}

/// What a line of text means: the command it spells, or the words that say
/// why it spells none. The line must have the shape of a command, and its
/// third token, white space at its end taken off, must be a 32-bit integer.
pub open spec fn parse_command(s: Seq<char>) -> Result<ActionView, Seq<char>> {
    if !matches_pattern(s) {
        Err(format_hint())
    } else {
        match parse_i32_text(quantity_text(s)) {
            Ok(quantity) => Ok(
                ActionView {
                    command: keyword(s).unwrap(),
                    identifier: identifier_text(s),
                    quantity: quantity as i32,
                },
            ),
            Err(kind) => Err(int_error_text(kind)),
        }
    }
}

/// Whether a line of text is a well-formed command: it has the shape of a
/// command and its quantity is a numeral that fits 32 bits.
pub open spec fn well_formed(s: Seq<char>) -> bool {
    &&& matches_pattern(s)
    &&& is_numeral(quantity_text(s))
    &&& i32::MIN <= numeral_value(quantity_text(s)) <= i32::MAX
}

/// Whether a text is a word: at least one character, each of them an ASCII
/// letter, a digit or the underscore.
pub open spec fn is_word(s: Seq<char>) -> bool {
    s.len() > 0 && forall|i: int| 0 <= i < s.len() ==> is_word_char(#[trigger] s[i])
}

/// Law: a line is parsed exactly where it is well formed, and the command
/// then has the line's keyword, its second token as the identifier, which is
/// a word, and the number of its third token as the quantity.
pub proof fn lemma_parse_command_meaning(s: Seq<char>)
    ensures
        match parse_command(s) {
            Ok(a) => {
                &&& well_formed(s)
                &&& Some(a.command) == keyword(s)
                &&& a.identifier == identifier_text(s)
                &&& is_word(a.identifier)
                &&& a.identifier.len() < s.len()
                &&& a.quantity == numeral_value(quantity_text(s))
            },
            Err(_) => !well_formed(s),
        },
{
    lemma_parse_i32_meaning(quantity_text(s));
    if matches_pattern(s) {
        lemma_word_end(s, identifier_start());
        let word = identifier_text(s);
        assert forall|i: int| 0 <= i < word.len() implies is_word_char(#[trigger] word[i]) by {
            assert(word[i] == s[identifier_start() + i]);
        }
    }
}

/// The characters of a text.
pub fn chars_of(text: &str) -> (chars: Vec<char>)
    ensures
        chars@ == text@,
{
    let n: usize = text.unicode_len();
    let mut chars: Vec<char> = Vec::new();
    let mut i: usize = 0;
    while i < n
        invariant
            n == text@.len(),
            i <= n,
            chars@ == text@.subrange(0, i as int),
        decreases n - i,
    {
        let c: char = text.get_char(i);
        assert(text@.subrange(0, i as int).push(c) =~= text@.subrange(0, i + 1));
        chars.push(c);
        i = i + 1;
    }
    assert(text@.subrange(0, n as int) =~= text@);
    chars
}

impl View for ProduceConsumePayload {
    type V = ActionView;

    closed spec fn view(&self) -> ActionView {
        ActionView {
            command: self.command,
            identifier: self.identifier@,
            quantity: self.quantity,
        }
    }
}

impl ProduceConsumePayload {
    /// Parses a command line. Anything but a well-formed command is a format
    /// error: a line of another shape with the hint of the expected syntax,
    /// a quantity that is no 32-bit integer with the reason.
    pub fn new(text: &str) -> (r: Result<ProduceConsumePayload, PCError>)
        ensures
            match parse_command(text@) {
                Ok(a) => r matches Ok(payload) && payload@ == a,
                Err(message) => r matches Err(e) && e.kind == ErrorKind::FormatError && e.message@
                    == message,
            },
    {
        let chars: Vec<char> = chars_of(text);
        let parts = match split_command(chars.as_slice()) {
            Some(parts) => parts,
            None => {
                return Err(
                    PCError::from_text(
                        ErrorKind::FormatError,
                        "Please input \"[PRODUCE|CONSUME] <identifier> <quantity>\"",
                    ),
                );
            },
        };
        let digits: &[char] = slice_subrange(
            chars.as_slice(),
            parts.quantity_start,
            parts.quantity_end,
        );
        let quantity: i32 = match parse_i32(digits) {
            Ok(quantity) => quantity,
            Err(kind) => {
                return Err(PCError::from_text(ErrorKind::FormatError, kind.message()));
            },
        };
        let identifier: String = String::from_str(
            text.substring_char(parts.identifier_start, parts.identifier_end),
        );
        Ok(ProduceConsumePayload { command: parts.command, identifier, quantity })
    }

    /// Reads a command back from a payload's wire form. It fails, as a codec
    /// error whose message is a fixed prefix and then the cause, exactly
    /// where the bytes are no well-formed payload.
    pub fn from(raw_bytes: &[u8]) -> (r: Result<ProduceConsumePayload, PCError>)
        ensures
            match decode_action(raw_bytes@) {
                Ok(a) => r matches Ok(payload) && payload@ == a,
                Err(cause) => r matches Err(e) && e.kind == ErrorKind::CodecError && e.message@
                    == unmarshal_text(cause),
            },
    {
        match Action::parse_from_bytes(raw_bytes) {
            Ok(action) => Ok(
                ProduceConsumePayload {
                    command: action.get_command(),
                    identifier: String::from_str(action.get_identifier()),
                    quantity: action.get_quantity(),
                },
            ),
            Err(e) => Err(e),
        }
    }

    /// The action.
    pub fn get_command(&self) -> (command: Command)
        ensures
            command == self@.command,
    {
        self.command
    }

    /// The identifier.
    pub fn get_identifier(&self) -> (identifier: String)
        ensures
            identifier@ == self@.identifier,
    {
        self.identifier.clone()
    }

    /// The quantity.
    pub fn get_quantity(&self) -> (quantity: i32)
        ensures
            quantity == self@.quantity,
    {
        self.quantity
    }
}

} // verus!
