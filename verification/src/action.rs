//! The payload message: which action, on which item, how many. Its wire form
//! is a sequence of tagged fields: the command as field 1 (an integer), the
//! identifier as field 2 (length-delimited UTF-8) and the quantity as field 3
//! (an integer), each left out where it has its default value.

use vstd::prelude::*;
use vstd::string::*;
use vstd::utf8::*;
use crate::error::{unmarshal_text, ErrorKind, PCError, WireError};
use crate::varint::{lemma_varint_round_trip, read_varint, varint_bytes, varint_read,
    write_varint};
use crate::wire::{copy_range, int32_bits, int32_from_bits, int32_of, int32_to_bits,
    lemma_int32_round_trip, lemma_tag_at_bounds, lemma_value_end_bounds,
    lemma_varint_prefix_bounds, length_delimited_at, read_length_delimited, read_tag,
    skip_unknown, string_from_utf8, tag_at, tag_value, unknown_end, group_end, value_end,
    write_tag, WIRE_LENGTH_DELIMITED, WIRE_VARINT};

verus! {

/// The field number of the command.
pub const FIELD_COMMAND: u32 = 1;

/// The field number of the identifier.
pub const FIELD_IDENTIFIER: u32 = 2;

/// The field number of the quantity.
pub const FIELD_QUANTITY: u32 = 3;

/// What a command does to the stored quantity of its item.
#[derive(Clone, Copy, Debug, PartialEq, Eq, Structural)]
pub enum Command {
    /// Adds to the stored quantity.
    Produce,
    /// Takes from the stored quantity.
    Consume,
}

/// A payload message as a mathematical value.
pub struct ActionView {
    /// The action.
    pub command: Command,
    /// The item's identifier.
    pub identifier: Seq<char>,
    /// The number of items.
    pub quantity: i32,
}

/// The payload message.
#[derive(Clone, Debug, PartialEq, Eq)]
pub struct Action {
    command: Command,
    identifier: String,
    quantity: i32,
}

/// The message whose fields all have their default values.
pub open spec fn default_action() -> ActionView {
    ActionView { command: Command::Produce, identifier: Seq::empty(), quantity: 0 }
}

/// The number that stands for a command on the wire.
pub open spec fn command_code(command: Command) -> i32 {
    match command {
        Command::Produce => 0,
        Command::Consume => 1,
    }
}

/// The command that a number stands for, if any.
pub open spec fn command_of_code(code: i32) -> Option<Command> {
    if code == 0 {
        Some(Command::Produce)
    } else if code == 1 {
        Some(Command::Consume)
    } else {
        None
    }
}

/// The bytes of the command field: none for the default command.
pub open spec fn command_field(command: Command) -> Seq<u8> {
    if command == Command::Produce {
        Seq::empty()
    } else {
        varint_bytes(tag_value(1, 0)) + varint_bytes(int32_bits(command_code(command)) as nat)
    }
}

/// The bytes of the identifier field: none for the empty identifier.
pub open spec fn identifier_field(identifier: Seq<char>) -> Seq<u8> {
    if identifier.len() == 0 {
        Seq::empty()
    } else {
        varint_bytes(tag_value(2, 2)) + varint_bytes(encode_utf8(identifier).len()) + encode_utf8(
            identifier,
        )
    }
}

/// The bytes of the quantity field: none for zero.
pub open spec fn quantity_field(quantity: i32) -> Seq<u8> {
    if quantity == 0 {
        Seq::empty()
    } else {
        varint_bytes(tag_value(3, 0)) + varint_bytes(int32_bits(quantity) as nat)
    }
}

/// The wire form of a message: its three fields in the order of their numbers.
pub open spec fn encode_action(a: ActionView) -> Seq<u8> {
    command_field(a.command) + identifier_field(a.identifier) + quantity_field(a.quantity)
}

/// Whether a message has a wire form: the identifier's length in bytes must
/// fit the 32 bits that carry it.
pub open spec fn encodable(a: ActionView) -> bool {
    encode_utf8(a.identifier).len() <= u32::MAX
}

/// What the field with the given number and wire type, whose value starts at
/// `pos`, makes of the message read so far, and where the field ends.
///
/// A known field must have its own wire type. A command number that stands for
/// no command leaves the command as it was. A field with another number is
/// skipped.
pub open spec fn field_at(s: Seq<u8>, pos: int, field: nat, wire: nat, acc: ActionView) -> Result<
    (ActionView, int),
    WireError,
> {
    if field == 1 {
        if wire != 0 {
            Err(WireError::UnexpectedWireType)
        } else {
            match varint_read(s.skip(pos)) {
                Err(cause) => Err(cause),
                Ok((v, n)) => Ok(
                    (
                        match command_of_code(int32_of(v)) {
                            Some(c) => ActionView { command: c, ..acc },
                            None => acc,
                        },
                        pos + n,
                    ),
                ),
            }
        }
    } else if field == 2 {
        if wire != 2 {
            Err(WireError::UnexpectedWireType)
        } else {
            match length_delimited_at(s, pos) {
                Err(cause) => Err(cause),
                Ok((start, end)) => {
                    let body = s.subrange(start, end);
                    if valid_utf8(body) {
                        Ok((ActionView { identifier: decode_utf8(body), ..acc }, end))
                    } else {
                        Err(WireError::InvalidUtf8)
                    }
                },
            }
        }
    } else if field == 3 {
        if wire != 0 {
            Err(WireError::UnexpectedWireType)
        } else {
            match varint_read(s.skip(pos)) {
                Err(cause) => Err(cause),
                Ok((v, n)) => Ok((ActionView { quantity: int32_of(v), ..acc }, pos + n)),
            }
        }
    } else {
        match unknown_end(s, pos, wire) {
            Err(cause) => Err(cause),
            Ok(end) => Ok((acc, end)),
        }
    }
}

/// The message that the fields from `pos` to the end make of `acc`: each
/// field in turn, a later value of a field replacing an earlier one. The
/// first tag or field that is malformed decides the failure.
pub open spec fn fields_from(s: Seq<u8>, pos: int, acc: ActionView) -> Result<
    ActionView,
    WireError,
>
    decreases s.len() - pos,
    when 0 <= pos <= s.len()
    via fields_from_decreases
{
    if pos >= s.len() {
        Ok(acc)
    } else {
        match tag_at(s, pos) {
            Err(cause) => Err(cause),
            Ok((field, wire, next)) => match field_at(s, next, field, wire, acc) {
                Err(cause) => Err(cause),
                Ok((updated, end)) => fields_from(s, end, updated),
            },
        }
    }
}

#[via_fn]
proof fn fields_from_decreases(s: Seq<u8>, pos: int, acc: ActionView) {
    lemma_tag_at_bounds(s, pos);
    if let Ok((field, wire, next)) = tag_at(s, pos) {
        lemma_field_at_bounds(s, next, field, wire, acc);
    }
}

/// The message that the bytes spell, or why they spell none.
pub open spec fn decode_action(s: Seq<u8>) -> Result<ActionView, WireError> {
    fields_from(s, 0, default_action())
}

/// A group that can be skipped ends after its start and within the bytes.
pub proof fn lemma_group_end_bounds(s: Seq<u8>, pos: int)
    requires
        0 <= pos <= s.len(),
    ensures
        group_end(s, pos) matches Ok(end) ==> pos < end <= s.len(),
    decreases s.len() - pos,
{
    lemma_tag_at_bounds(s, pos);
    if let Ok((_, wire, next)) = tag_at(s, pos) {
        if wire != 4 {
            lemma_value_end_bounds(s, next, wire);
            if let Ok(end) = value_end(s, next, wire) {
                lemma_group_end_bounds(s, end);
            }
        }
    }
}

/// A field that can be read ends within the bytes, not before its start.
pub proof fn lemma_field_at_bounds(s: Seq<u8>, pos: int, field: nat, wire: nat, acc: ActionView)
    requires
        0 <= pos <= s.len(),
    ensures
        field_at(s, pos, field, wire, acc) matches Ok((_, end)) ==> pos <= end <= s.len(),
{
    lemma_varint_prefix_bounds(s.skip(pos), 10);
    lemma_value_end_bounds(s, pos, wire);
    lemma_group_end_bounds(s, pos);
}

impl Command {
    /// The number that stands for the command on the wire.
    pub fn code(&self) -> (code: i32)
        ensures
            code == command_code(*self),
    {
        match self {
            Command::Produce => 0,
            Command::Consume => 1,
        }
    }

    /// The command that `code` stands for, if any.
    pub fn from_code(code: i32) -> (command: Option<Command>)
        ensures
            command == command_of_code(code),
    {
        if code == 0 {
            Some(Command::Produce)
        } else if code == 1 {
            Some(Command::Consume)
        } else {
            None
        }
    }
}

impl View for Action {
    type V = ActionView;

    closed spec fn view(&self) -> ActionView {
        ActionView {
            command: self.command,
            identifier: self.identifier@,
            quantity: self.quantity,
        }
    }
}

impl Action {
    /// The message with every field at its default.
    pub fn new() -> (action: Action)
        ensures
            action@ == default_action(),
    {
        Action { command: Command::Produce, identifier: String::new(), quantity: 0 }
    }

    /// Sets the action.
    pub fn set_command(&mut self, command: Command)
        ensures
            final(self)@ == (ActionView { command, ..old(self)@ }),
    {
        self.command = command;
    }

    /// Sets the identifier.
    pub fn set_identifier(&mut self, identifier: String)
        ensures
            final(self)@ == (ActionView { identifier: identifier@, ..old(self)@ }),
    {
        self.identifier = identifier;
    }

    /// Sets the quantity.
    pub fn set_quantity(&mut self, quantity: i32)
        ensures
            final(self)@ == (ActionView { quantity, ..old(self)@ }),
    {
        self.quantity = quantity;
    }

    /// The action.
    pub fn get_command(&self) -> (command: Command)
        ensures
            command == self@.command,
    {
        self.command
    }

    /// The identifier.
    pub fn get_identifier(&self) -> (identifier: &str)
        ensures
            identifier@ == self@.identifier,
    {
        self.identifier.as_str()
    }

    /// The quantity.
    pub fn get_quantity(&self) -> (quantity: i32)
        ensures
            quantity == self@.quantity,
    {
        self.quantity
    }

    /// The wire form of the message. It fails, as a codec error, only where
    /// the identifier is too long for its length to be written.
    pub fn write_to_bytes(&self) -> (r: Result<Vec<u8>, PCError>)
        ensures
            match r {
                Ok(bytes) => encodable(self@) && bytes@ == encode_action(self@),
                Err(e) => !encodable(self@) && e.kind == ErrorKind::CodecError && e.message@
                    == "The identifier is too long to encode"@,
            },
    {
        let text: &[u8] = self.identifier.as_str().as_bytes();
        if text.len() > 0xFFFF_FFFF {
            return Err(
                PCError::from_text(ErrorKind::CodecError, "The identifier is too long to encode"),
            );
        }
        let mut out: Vec<u8> = Vec::new();
        if self.command.code() != 0 {
            write_tag(&mut out, FIELD_COMMAND, WIRE_VARINT);
            write_varint(&mut out, int32_to_bits(self.command.code()));
        }
        assert(out@ =~= command_field(self@.command));
        if text.len() > 0 {
            proof {
                lemma_utf8_empty(self@.identifier);
            }
            write_tag(&mut out, FIELD_IDENTIFIER, WIRE_LENGTH_DELIMITED);
            write_varint(&mut out, text.len() as u64);
            let mut body: Vec<u8> = vstd::slice::slice_to_vec(text);
            out.append(&mut body);
        } else {
            proof {
                lemma_utf8_empty(self@.identifier);
            }
        }
        assert(out@ =~= command_field(self@.command) + identifier_field(self@.identifier));
        if self.quantity != 0 {
            write_tag(&mut out, FIELD_QUANTITY, WIRE_VARINT);
            write_varint(&mut out, int32_to_bits(self.quantity));
        }
        assert(out@ =~= encode_action(self@));
        Ok(out)
    }

    /// Reads a message from its wire form: every field that is present, in
    /// any order, the last value of a field standing; fields with other
    /// numbers are skipped. It fails, as a codec error that gives the cause,
    /// exactly where the bytes are no sequence of well-formed fields.
    pub fn parse_from_bytes(bytes: &[u8]) -> (r: Result<Action, PCError>)
        ensures
            match decode_action(bytes@) {
                Ok(a) => r matches Ok(action) && action@ == a,
                Err(cause) => r matches Err(e) && e.kind == ErrorKind::CodecError && e.message@
                    == unmarshal_text(cause),
            },
    {
        let mut action = Action::new();
        let mut pos: usize = 0;
        while pos < bytes.len()
            invariant
                pos <= bytes@.len(),
                decode_action(bytes@) == fields_from(bytes@, pos as int, action@),
            decreases bytes@.len() - pos,
        {
            let (field, wire, next) = match read_tag(bytes, pos) {
                Ok(tag) => tag,
                Err(cause) => {
                    return Err(PCError::unmarshal(cause));
                },
            };
            if field == FIELD_COMMAND {
                if wire != WIRE_VARINT {
                    return Err(PCError::unmarshal(WireError::UnexpectedWireType));
                }
                proof {
                    lemma_varint_prefix_bounds(bytes@.skip(next as int), 10);
                }
                match read_varint(bytes, next) {
                    Err(cause) => {
                        return Err(PCError::unmarshal(cause));
                    },
                    Ok((v, end)) => {
                        match Command::from_code(int32_from_bits(v)) {
                            Some(command) => {
                                action.set_command(command);
                            },
                            None => {},
                        }
                        pos = end;
                    },
                }
            } else if field == FIELD_IDENTIFIER {
                if wire != WIRE_LENGTH_DELIMITED {
                    return Err(PCError::unmarshal(WireError::UnexpectedWireType));
                }
                match read_length_delimited(bytes, next) {
                    Err(cause) => {
                        return Err(PCError::unmarshal(cause));
                    },
                    Ok((start, end)) => {
                        match string_from_utf8(copy_range(bytes, start, end)) {
                            None => {
                                return Err(PCError::unmarshal(WireError::InvalidUtf8));
                            },
                            Some(identifier) => {
                                action.set_identifier(identifier);
                            },
                        }
                        pos = end;
                    },
                }
            } else if field == FIELD_QUANTITY {
                if wire != WIRE_VARINT {
                    return Err(PCError::unmarshal(WireError::UnexpectedWireType));
                }
                proof {
                    lemma_varint_prefix_bounds(bytes@.skip(next as int), 10);
                }
                match read_varint(bytes, next) {
                    Err(cause) => {
                        return Err(PCError::unmarshal(cause));
                    },
                    Ok((v, end)) => {
                        action.set_quantity(int32_from_bits(v));
                        pos = end;
                    },
                }
            } else {
                match skip_unknown(bytes, next, wire) {
                    Err(cause) => {
                        return Err(PCError::unmarshal(cause));
                    },
                    Ok(end) => {
                        pos = end;
                    },
                }
            }
        }
        Ok(action)
    }
}

/// A text has no characters exactly where it has no bytes.
proof fn lemma_utf8_empty(chars: Seq<char>)
    ensures
        encode_utf8(chars).len() == 0 <==> chars.len() == 0,
    decreases chars.len(),
{
    reveal_with_fuel(encode_utf8, 2);
}

/// Where the bytes from `pos` on are `head` and then `tail`, the bytes from
/// the end of `head` on are `tail`, and `head` itself lies at `pos`.
proof fn lemma_skip_past(s: Seq<u8>, pos: int, head: Seq<u8>, tail: Seq<u8>)
    requires
        0 <= pos <= s.len(),
        s.skip(pos) == head + tail,
    ensures
        pos + head.len() <= s.len(),
        s.skip(pos + head.len()) == tail,
        s.subrange(pos, pos + head.len()) == head,
{
    assert(s.skip(pos).len() == s.len() - pos);
    assert(s.skip(pos + head.len()) =~= s.skip(pos).skip(head.len() as int));
    assert((head + tail).skip(head.len() as int) =~= tail);
    assert(s.subrange(pos, pos + head.len()) =~= s.skip(pos).take(head.len() as int));
    assert((head + tail).take(head.len() as int) =~= head);
}

/// A command field at `pos` sets the command and nothing else.
proof fn lemma_command_step(
    s: Seq<u8>,
    pos: int,
    acc: ActionView,
    command: Command,
    rest: Seq<u8>,
)
    requires
        0 <= pos <= s.len(),
        command != Command::Produce,
        s.skip(pos) == command_field(command) + rest,
    ensures
        pos + command_field(command).len() <= s.len(),
        fields_from(s, pos, acc) == fields_from(
            s,
            pos + command_field(command).len(),
            ActionView { command, ..acc },
        ),
{
    let tag = varint_bytes(tag_value(1, 0));
    let bits = int32_bits(command_code(command));
    let value = varint_bytes(bits as nat);
    assert(s.skip(pos) =~= tag + (value + rest));
    lemma_varint_round_trip(8u64, value + rest);
    let next = pos + tag.len();
    assert(tag_at(s, pos) == Ok::<(nat, nat, int), WireError>((1nat, 0nat, next)));
    lemma_skip_past(s, pos, tag, value + rest);
    lemma_varint_round_trip(bits, rest);
    lemma_int32_round_trip(command_code(command));
    assert(s.skip(pos).len() == s.len() - pos);
}

/// An identifier field at `pos` sets the identifier and nothing else.
proof fn lemma_identifier_step(
    s: Seq<u8>,
    pos: int,
    acc: ActionView,
    identifier: Seq<char>,
    rest: Seq<u8>,
)
    requires
        0 <= pos <= s.len(),
        identifier.len() > 0,
        encode_utf8(identifier).len() <= u32::MAX,
        s.skip(pos) == identifier_field(identifier) + rest,
    ensures
        pos + identifier_field(identifier).len() <= s.len(),
        fields_from(s, pos, acc) == fields_from(
            s,
            pos + identifier_field(identifier).len(),
            ActionView { identifier, ..acc },
        ),
{
    let tag = varint_bytes(tag_value(2, 2));
    let body = encode_utf8(identifier);
    let length = varint_bytes(body.len());
    assert(s.skip(pos) =~= tag + (length + (body + rest)));
    lemma_varint_round_trip(18u64, length + (body + rest));
    let next = pos + tag.len();
    assert(tag_at(s, pos) == Ok::<(nat, nat, int), WireError>((2nat, 2nat, next)));
    lemma_skip_past(s, pos, tag, length + (body + rest));
    lemma_varint_round_trip(body.len() as u64, body + rest);
    assert(s.skip(pos).len() == s.len() - pos);
    let start = next + length.len();
    let end = start + body.len();
    assert(length_delimited_at(s, next) == Ok::<(int, int), WireError>((start, end)));
    lemma_skip_past(s, next, length, body + rest);
    lemma_skip_past(s, start, body, rest);
    encode_utf8_valid_utf8(identifier);
    encode_utf8_decode_utf8(identifier);
}

/// A quantity field at `pos` sets the quantity and nothing else.
proof fn lemma_quantity_step(s: Seq<u8>, pos: int, acc: ActionView, quantity: i32, rest: Seq<u8>)
    requires
        0 <= pos <= s.len(),
        quantity != 0,
        s.skip(pos) == quantity_field(quantity) + rest,
    ensures
        pos + quantity_field(quantity).len() <= s.len(),
        fields_from(s, pos, acc) == fields_from(
            s,
            pos + quantity_field(quantity).len(),
            ActionView { quantity, ..acc },
        ),
{
    let tag = varint_bytes(tag_value(3, 0));
    let bits = int32_bits(quantity);
    let value = varint_bytes(bits as nat);
    assert(s.skip(pos) =~= tag + (value + rest));
    lemma_varint_round_trip(24u64, value + rest);
    let next = pos + tag.len();
    assert(tag_at(s, pos) == Ok::<(nat, nat, int), WireError>((3nat, 0nat, next)));
    lemma_skip_past(s, pos, tag, value + rest);
    lemma_varint_round_trip(bits, rest);
    lemma_int32_round_trip(quantity);
    assert(s.skip(pos).len() == s.len() - pos);
}

/// Law: a message that has a wire form is read back from it unchanged:
/// the same command, identifier and quantity.
pub proof fn lemma_action_round_trip(a: ActionView)
    requires
        encodable(a),
    ensures
        decode_action(encode_action(a)) == Ok::<ActionView, WireError>(a),
{
    let s = encode_action(a);
    let f1 = command_field(a.command);
    let f2 = identifier_field(a.identifier);
    let f3 = quantity_field(a.quantity);
    let a0 = default_action();
    let a1 = ActionView { command: a.command, ..a0 };
    let a2 = ActionView { identifier: a.identifier, ..a1 };
    let a3 = ActionView { quantity: a.quantity, ..a2 };
    let end1 = f1.len() as int;
    let end2 = end1 + f2.len();
    let end3 = end2 + f3.len();
    assert(s.len() == end3);
    assert(s.skip(0) =~= f1 + (f2 + f3));
    if a.command != Command::Produce {
        lemma_command_step(s, 0, a0, a.command, f2 + f3);
    }
    assert(fields_from(s, 0, a0) == fields_from(s, end1, a1));
    assert(s.skip(end1) =~= f2 + f3);
    if a.identifier.len() > 0 {
        lemma_identifier_step(s, end1, a1, a.identifier, f3);
    } else {
        assert(a.identifier =~= Seq::<char>::empty());
    }
    assert(fields_from(s, end1, a1) == fields_from(s, end2, a2));
    assert(s.skip(end2) =~= f3 + Seq::<u8>::empty());
    if a.quantity != 0 {
        lemma_quantity_step(s, end2, a2, a.quantity, Seq::<u8>::empty());
    }
    assert(fields_from(s, end2, a2) == fields_from(s, end3, a3));
    assert(a3 == a);
}

/// Law: the wire form is canonical: two messages with the same wire form are
/// the same message.
pub proof fn lemma_wire_form_is_canonical(a: ActionView, b: ActionView)
    requires
        encodable(a),
        encodable(b),
        encode_action(a) == encode_action(b),
    ensures
        a == b,
{
    lemma_action_round_trip(a);
    lemma_action_round_trip(b);
}

} // verus!
