//! The business rule of the family: producing adds to the stored quantity of
//! an item, consuming takes from it and is rejected where too little is
//! stored. One payload and the stored value give one write, or a rejection.
//!
//! A stored quantity is written as a variable-length integer; where nothing
//! is stored, the quantity is zero.

use vstd::prelude::*;
use vstd::string::*;
use crate::action::{decode_action, encodable, encode_action, lemma_action_round_trip,
    ActionView, Command};
use crate::address::{address_key, address_of, compute_address, hex_text};
use crate::error::unmarshal_text;
use crate::payload::ProduceConsumePayload;
use crate::state_handler::{StateChange, TransactionResult};
use crate::varint::{lemma_varint_round_trip, read_varint, varint_at, varint_bytes,
    write_varint};

verus! {

/// The name of the family.
pub const PRODUCE_CONSUME: &'static str = "produce-consume";

/// The version of the family.
pub const VERSION: &'static str = "1.0";

/// Why a command is rejected.
#[derive(Clone, Copy, Debug, PartialEq, Eq, Structural)]
pub enum Rejection {
    /// The quantity is negative.
    NegativeQuantity,
    /// Less is stored than is to be consumed.
    Insufficient,
    /// The stored quantity would no longer fit 32 bits.
    TooMany,
}

/// The words that give the reason of a rejection.
pub open spec fn rejection_text(rejection: Rejection) -> Seq<char> {
    match rejection {
        Rejection::NegativeQuantity => "The quantity must not be negative"@,
        Rejection::Insufficient => "Not enough items are stored to consume that many"@,
        Rejection::TooMany => "The stored quantity would exceed its limit"@,
    }
}

/// The cause given where the stored value is no quantity.
pub open spec fn unreadable_text() -> Seq<char> {
    "The stored quantity cannot be read"@
}

/// The stored quantity after a command, or why the command is rejected.
pub open spec fn settle(command: Command, stored: int, quantity: int) -> Result<int, Rejection> {
    if quantity < 0 {
        Err(Rejection::NegativeQuantity)
    } else {
        match command {
            Command::Produce => if stored + quantity > i32::MAX {
                Err(Rejection::TooMany)
            } else {
                Ok(stored + quantity)
            },
            Command::Consume => if quantity > stored {
                Err(Rejection::Insufficient)
            } else {
                Ok(stored - quantity)
            },
        }
    }
}

/// The bytes that store a quantity.
pub open spec fn quantity_bytes(quantity: int) -> Seq<u8> {
    varint_bytes(quantity as nat)
}

/// The quantity that a stored value holds: zero where nothing is stored,
/// `None` where the bytes are not exactly one integer from zero to the
/// largest 32-bit one.
pub open spec fn stored_quantity(stored: Option<Seq<u8>>) -> Option<int> {
    match stored {
        None => Some(0),
        Some(bytes) => match varint_at(bytes) {
            Some((v, n)) => if n == bytes.len() && v <= i32::MAX {
                Some(v as int)
            } else {
                None
            },
            None => None,
        },
    }
}

/// A stored value as a mathematical value.
pub open spec fn stored_view(stored: Option<Vec<u8>>) -> Option<Seq<u8>> {
    match stored {
        Some(bytes) => Some(bytes@),
        None => None,
    }
}

/// What a payload makes of a stored value: the key and the value of the one
/// write, or the words of the rejection.
pub open spec fn applied(payload: Seq<u8>, stored: Option<Seq<u8>>) -> Result<
    (Seq<char>, Seq<u8>),
    Seq<char>,
> {
    match decode_action(payload) {
        Err(cause) => Err(unmarshal_text(cause)),
        Ok(a) => match stored_quantity(stored) {
            None => Err(unreadable_text()),
            Some(before) => match settle(a.command, before, a.quantity as int) {
                Err(rejection) => Err(rejection_text(rejection)),
                Ok(after) => Ok((hex_text(address_of(a.identifier)), quantity_bytes(after))),
            },
        },
    }
}

/// Law: a quantity from zero to the largest 32-bit integer is read back from
/// the bytes that store it.
pub proof fn lemma_stored_round_trip(quantity: int)
    requires
        0 <= quantity <= i32::MAX,
    ensures
        stored_quantity(Some(quantity_bytes(quantity))) == Some(quantity),
{
    let bytes = quantity_bytes(quantity);
    lemma_varint_round_trip(quantity as u64, Seq::<u8>::empty());
    assert(bytes + Seq::<u8>::empty() =~= bytes);
}

/// Law: a command that is accepted leaves a quantity from zero to the
/// largest 32-bit integer, where the stored one was.
pub proof fn lemma_settle_in_range(command: Command, stored: int, quantity: int)
    requires
        0 <= stored <= i32::MAX,
    ensures
        settle(command, stored, quantity) matches Ok(after) ==> 0 <= after <= i32::MAX,
{
}

/// Law: producing `first` and then `second` of an item of which nothing was
/// stored stores the sum of the two: the second payload, applied to what the
/// first one wrote, writes the sum under the same key.
pub proof fn lemma_produce_twice(identifier: Seq<char>, first: i32, second: i32)
    requires
        0 <= first,
        0 <= second,
        first + second <= i32::MAX,
        encodable(ActionView { command: Command::Produce, identifier, quantity: first }),
    ensures
        applied(
            encode_action(ActionView { command: Command::Produce, identifier, quantity: first }),
            None,
        ) == Ok::<(Seq<char>, Seq<u8>), Seq<char>>(
            (hex_text(address_of(identifier)), quantity_bytes(first as int)),
        ),
        applied(
            encode_action(ActionView { command: Command::Produce, identifier, quantity: second }),
            Some(quantity_bytes(first as int)),
        ) == Ok::<(Seq<char>, Seq<u8>), Seq<char>>(
            (hex_text(address_of(identifier)), quantity_bytes(first + second)),
        ),
{
    lemma_action_round_trip(
        ActionView { command: Command::Produce, identifier, quantity: first },
    );
    lemma_action_round_trip(
        ActionView { command: Command::Produce, identifier, quantity: second },
    );
    lemma_stored_round_trip(first as int);
}

/// Law: consuming more of an item than is stored is rejected, with the words
/// for too little being stored.
pub proof fn lemma_overdraw_is_rejected(identifier: Seq<char>, stored: i32, quantity: i32)
    requires
        0 <= stored < quantity,
        encodable(ActionView { command: Command::Consume, identifier, quantity }),
    ensures
        applied(
            encode_action(ActionView { command: Command::Consume, identifier, quantity }),
            Some(quantity_bytes(stored as int)),
        ) == Err::<(Seq<char>, Seq<u8>), Seq<char>>(rejection_text(Rejection::Insufficient)),
        stored == 0 ==> applied(
            encode_action(ActionView { command: Command::Consume, identifier, quantity }),
            None,
        ) == Err::<(Seq<char>, Seq<u8>), Seq<char>>(rejection_text(Rejection::Insufficient)),
{
    lemma_action_round_trip(ActionView { command: Command::Consume, identifier, quantity });
    lemma_stored_round_trip(stored as int);
}

impl Rejection {
    /// The reason in words.
    pub fn message(&self) -> (text: &'static str)
        ensures
            text@ == rejection_text(*self),
    {
        match self {
            Rejection::NegativeQuantity => "The quantity must not be negative",
            Rejection::Insufficient => "Not enough items are stored to consume that many",
            Rejection::TooMany => "The stored quantity would exceed its limit",
        }
    }
}

/// Applies a command to a stored quantity.
pub fn settle_command(command: Command, stored: i32, quantity: i32) -> (r: Result<
    i32,
    Rejection,
>)
    ensures
        match settle(command, stored as int, quantity as int) {
            Ok(after) => r matches Ok(q) && q == after,
            Err(rejection) => r == Err::<i32, Rejection>(rejection),
        },
{
    if quantity < 0 {
        return Err(Rejection::NegativeQuantity);
    }
    match command {
        Command::Produce => {
            let sum: i64 = stored as i64 + quantity as i64;
            if sum > 0x7FFF_FFFF {
                Err(Rejection::TooMany)
            } else {
                Ok(sum as i32)
            }
        },
        Command::Consume => {
            if quantity > stored {
                Err(Rejection::Insufficient)
            } else {
                Ok(stored - quantity)
            }
        },
    }
}

/// Reads the quantity that a stored value holds.
pub fn read_stored(stored: &Option<Vec<u8>>) -> (r: Option<i32>)
    ensures
        match stored_quantity(stored_view(*stored)) {
            Some(quantity) => r matches Some(q) && q == quantity,
            None => r is None,
        },
{
    match stored {
        None => Some(0),
        Some(bytes) => {
            assert(bytes@.skip(0) =~= bytes@);
            match read_varint(bytes.as_slice(), 0) {
                Ok((v, next)) => {
                    if next == bytes.len() && v <= 0x7FFF_FFFF {
                        Some(v as i32)
                    } else {
                        None
                    }
                },
                Err(_) => None,
            }
        },
    }
}

/// The key under which the item of a payload is stored: the hexadecimal text
/// of the address of the payload's identifier. `None` exactly where the
/// payload is no message.
pub fn item_key(payload: &[u8]) -> (key: Option<String>)
    ensures
        match decode_action(payload@) {
            Ok(a) => key matches Some(k) && k@ == hex_text(address_of(a.identifier)),
            Err(_) => key is None,
        },
{
    match ProduceConsumePayload::from(payload) {
        Ok(command) => {
            let identifier: String = command.get_identifier();
            let address: Vec<u8> = compute_address(identifier.as_str());
            Some(address_key(address.as_slice()))
        },
        Err(_) => None,
    }
}

/// Applies a payload to the value stored for its item: one write of the new
/// quantity under the key of the item's address, or a rejection in words.
///
/// The payload is rejected where it is no message, where the stored value is
/// no quantity, where its quantity is negative, where it consumes more than
/// is stored, and where it produces more than can be stored.
pub fn apply(payload: &[u8], stored: Option<Vec<u8>>) -> (result: TransactionResult)
    ensures
        match applied(payload@, stored_view(stored)) {
            Ok((key, value)) => result matches TransactionResult::Valid { state_changes }
                && state_changes@.len() == 1 && (state_changes@[0] matches StateChange::Write {
                key: k,
                value: v,
            } && k@ == key && v@ == value),
            Err(cause) => result matches TransactionResult::Invalid { error_message }
                && error_message@ == cause,
        },
{
    let command = match ProduceConsumePayload::from(payload) {
        Ok(command) => command,
        Err(error) => {
            return TransactionResult::Invalid { error_message: error.message };
        },
    };
    let before: i32 = match read_stored(&stored) {
        Some(before) => before,
        None => {
            return TransactionResult::Invalid {
                error_message: String::from_str("The stored quantity cannot be read"),
            };
        },
    };
    match settle_command(command.get_command(), before, command.get_quantity()) {
        Err(rejection) => TransactionResult::Invalid {
            error_message: String::from_str(rejection.message()),
        },
        Ok(after) => {
            let identifier: String = command.get_identifier();
            let address: Vec<u8> = compute_address(identifier.as_str());
            let mut value: Vec<u8> = Vec::new();
            write_varint(&mut value, after as u64);
            assert(value@ =~= quantity_bytes(after as int));
            let mut state_changes: Vec<StateChange> = Vec::new();
            state_changes.push(StateChange::Write { key: address_key(address.as_slice()), value });
            TransactionResult::Valid { state_changes }
        },
    }
}

} // verus!
