//! From an input line to what a transaction carries: the payload bytes and
//! the addresses it reads and writes.

use vstd::prelude::*;
use vstd::string::*;
use vstd::utf8::{is_ascii_chars, is_ascii_chars_encode_utf8};
use crate::action::{decode_action, encodable, encode_action, lemma_action_round_trip, Action,
    ActionView};
use crate::address::{address_of, compute_address};
use crate::error::{ErrorKind, PCError, WireError};
use crate::grammar::{identifier_text, is_word_char};
use crate::payload::{lemma_parse_command_meaning, parse_command, well_formed,
    ProduceConsumePayload};

verus! {

/// Whether `addresses` is the one address of `identifier` and nothing else.
pub open spec fn is_single_address(addresses: Seq<Vec<u8>>, identifier: Seq<char>) -> bool {
    addresses.len() == 1 && addresses[0]@ == address_of(identifier)
}

/// Turns an input line into the payload bytes of its command, the addresses
/// the transaction reads and the addresses it writes: both are the one
/// address of the command's identifier.
///
/// A line that is no well-formed command is a format error. A command whose
/// identifier is too long to be written is a codec error.
pub fn transaction_payload(usr_input: &str) -> (r: Result<
    (Vec<u8>, Vec<Vec<u8>>, Vec<Vec<u8>>),
    PCError,
>)
    ensures
        match parse_command(usr_input@) {
            Err(message) => r matches Err(e) && e.kind == ErrorKind::FormatError && e.message@
                == message,
            Ok(a) => if encodable(a) {
                r matches Ok((payload, inputs, outputs)) && payload@ == encode_action(a)
                    && is_single_address(inputs@, a.identifier) && is_single_address(
                    outputs@,
                    a.identifier,
                )
            } else {
                r matches Err(e) && e.kind == ErrorKind::CodecError && e.message@
                    == "The identifier is too long to encode"@
            },
        },
{
    let pc_payload = match ProduceConsumePayload::new(usr_input) {
        Ok(read_payload) => read_payload,
        Err(err) => {
            return Err(err);
        },
    };
    let mut payload = Action::new();
    payload.set_command(pc_payload.get_command());
    payload.set_identifier(pc_payload.get_identifier());
    payload.set_quantity(pc_payload.get_quantity());
    assert(payload@ == pc_payload@);
    let payload_bytes: Vec<u8> = match payload.write_to_bytes() {
        Ok(bytes) => bytes,
        Err(err) => {
            return Err(err);
        },
    };
    let identifier: String = pc_payload.get_identifier();
    let input: Vec<u8> = compute_address(identifier.as_str());
    let output: Vec<u8> = compute_address(identifier.as_str());
    let mut inputs: Vec<Vec<u8>> = Vec::new();
    inputs.push(input);
    let mut outputs: Vec<Vec<u8>> = Vec::new();
    outputs.push(output);
    Ok((payload_bytes, inputs, outputs))
}

proof fn lemma_word_char_is_ascii(c: char)
    requires
        is_word_char(c),
    ensures
        '\0' <= c <= '\u{7f}',
{
}

/// Law: a well-formed command has a payload, and the payload, read back, is
/// the command of the line: the same action, identifier and quantity. The
/// identifier's length must fit the 32 bits that carry it on the wire.
pub proof fn lemma_payload_round_trip(text: Seq<char>)
    requires
        well_formed(text),
        identifier_text(text).len() <= u32::MAX,
    ensures
        parse_command(text) is Ok,
        encodable(parse_command(text)->Ok_0),
        decode_action(encode_action(parse_command(text)->Ok_0)) == Ok::<ActionView, WireError>(
            parse_command(text)->Ok_0,
        ),
{
    lemma_parse_command_meaning(text);
    let identifier = parse_command(text)->Ok_0.identifier;
    assert(is_ascii_chars(identifier)) by {
        assert forall|i: int| 0 <= i < identifier.len() implies '\0' <= #[trigger] identifier[i]
            <= '\u{7f}' by {
            lemma_word_char_is_ascii(identifier[i]);
        }
    }
    is_ascii_chars_encode_utf8(identifier);
    lemma_action_round_trip(parse_command(text)->Ok_0);
}

/// Law: a line that is not a well-formed command has no payload: it is
/// refused with the words that say why.
pub proof fn lemma_malformed_is_refused(text: Seq<char>)
    requires
        !well_formed(text),
    ensures
        parse_command(text) is Err,
{
    lemma_parse_command_meaning(text);
}

} // verus!
