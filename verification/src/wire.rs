//! The framing of the payload's wire form: tagged fields whose values are
//! variable-length integers, fixed-width words or length-delimited bytes.

use vstd::prelude::*;
use vstd::slice::*;
use vstd::utf8::*;
use crate::error::WireError;
use crate::varint::{read_varint, two_pow_64, varint_bytes, varint_prefix, varint_read,
    write_varint};

verus! {

/// The wire type of a variable-length integer.
pub const WIRE_VARINT: u8 = 0;

/// The wire type of an eight-byte word.
pub const WIRE_FIXED64: u8 = 1;

/// The wire type of a byte string that follows its length.
pub const WIRE_LENGTH_DELIMITED: u8 = 2;

/// The wire type that opens a group of fields.
pub const WIRE_START_GROUP: u8 = 3;

/// The wire type that closes a group of fields.
pub const WIRE_END_GROUP: u8 = 4;

/// The wire type of a four-byte word.
pub const WIRE_FIXED32: u8 = 5;

/// One more than the largest 32-bit value.
pub open spec fn two_pow_32() -> int {
    0x1_0000_0000
}

/// The low 32 bits of `v`.
pub open spec fn low32(v: u64) -> nat {
    (v as int % two_pow_32()) as nat
}

/// The signed 32-bit integer in the low 32 bits of `v`, two's complement.
pub open spec fn int32_of(v: u64) -> i32 {
    let low = low32(v);
    if low < 0x8000_0000 {
        low as i32
    } else {
        (low - two_pow_32()) as i32
    }
}

/// The 64 bits that carry `q` on the wire: its two's complement, sign-extended.
pub open spec fn int32_bits(q: i32) -> u64 {
    if q >= 0 {
        q as u64
    } else {
        (two_pow_64() + q) as u64
    }
}

/// Law: a signed 32-bit integer is recovered from the bits that carry it.
pub proof fn lemma_int32_round_trip(q: i32)
    ensures
        int32_of(int32_bits(q)) == q,
{
    if q < 0 {
        let v: int = two_pow_64() + q;
        assert(v == two_pow_32() * (two_pow_32() - 1) + (two_pow_32() + q));
        assert(v % two_pow_32() == two_pow_32() + q) by (nonlinear_arith)
            requires
                v == two_pow_32() * (two_pow_32() - 1) + (two_pow_32() + q),
                0 <= two_pow_32() + q < two_pow_32(),
        ;
    }
}

/// The integer carried in the low 32 bits of `v`.
pub fn int32_from_bits(v: u64) -> (q: i32)
    ensures
        q == int32_of(v),
{
    let low: u64 = v % 0x1_0000_0000;
    if low < 0x8000_0000 {
        low as i32
    } else {
        (low as i64 - 0x1_0000_0000) as i32
    }
}

/// The 64 bits that carry `q`.
pub fn int32_to_bits(q: i32) -> (v: u64)
    ensures
        v == int32_bits(q),
{
    if q >= 0 {
        q as u64
    } else {
        let magnitude: u64 = (-(q as i64)) as u64;
        (u64::MAX - magnitude) + 1
    }
}

/// The number that introduces a field: the field's number above three bits of
/// wire type.
pub open spec fn tag_value(field: nat, wire: nat) -> nat {
    field * 8 + wire
}

/// The tag that starts at `pos`: the field number, the wire type and the
/// position after the tag. It fails where no integer can be read there, and
/// as an incorrect tag where the wire type is none of the six or the field
/// number is zero.
pub open spec fn tag_at(s: Seq<u8>, pos: int) -> Result<(nat, nat, int), WireError> {
    match varint_read(s.skip(pos)) {
        Err(cause) => Err(cause),
        Ok((v, n)) => {
            let t = low32(v);
            if t % 8 > 5 || t / 8 == 0 {
                Err(WireError::IncorrectTag)
            } else {
                Ok((t / 8, t % 8, pos + n))
            }
        },
    }
}

/// The byte string that follows its length at `pos`: where its bytes start
/// and where they end. It fails where no length can be read, and as an
/// unexpected end where the bytes end before the string does.
pub open spec fn length_delimited_at(s: Seq<u8>, pos: int) -> Result<(int, int), WireError> {
    match varint_read(s.skip(pos)) {
        Err(cause) => Err(cause),
        Ok((v, n)) => {
            let end = pos + n + low32(v);
            if end <= s.len() {
                Ok((pos + n, end))
            } else {
                Err(WireError::UnexpectedEnd)
            }
        },
    }
}

/// Where the value of wire type `wire` that starts at `pos` ends. It fails
/// where the value is cut short, and as an unexpected wire type for the two
/// group types, which carry no value of their own.
pub open spec fn value_end(s: Seq<u8>, pos: int, wire: nat) -> Result<int, WireError> {
    if wire == 0 {
        match varint_read(s.skip(pos)) {
            Ok((_, n)) => Ok(pos + n),
            Err(cause) => Err(cause),
        }
    } else if wire == 1 {
        if pos + 8 <= s.len() {
            Ok(pos + 8)
        } else {
            Err(WireError::UnexpectedEnd)
        }
    } else if wire == 2 {
        match length_delimited_at(s, pos) {
            Ok((_, end)) => Ok(end),
            Err(cause) => Err(cause),
        }
    } else if wire == 5 {
        if pos + 4 <= s.len() {
            Ok(pos + 4)
        } else {
            Err(WireError::UnexpectedEnd)
        }
    } else {
        Err(WireError::UnexpectedWireType)
    }
}

/// Where the group whose fields start at `pos` ends: after the first tag of
/// the closing type, every field before it being skipped by its wire type. A
/// group inside a group is not accepted.
pub open spec fn group_end(s: Seq<u8>, pos: int) -> Result<int, WireError>
    decreases s.len() - pos,
    when 0 <= pos <= s.len()
    via group_end_decreases
{
    match tag_at(s, pos) {
        Err(cause) => Err(cause),
        Ok((_, wire, next)) => {
            if wire == 4 {
                Ok(next)
            } else {
                match value_end(s, next, wire) {
                    Err(cause) => Err(cause),
                    Ok(end) => group_end(s, end),
                }
            }
        },
    }
}

#[via_fn]
proof fn group_end_decreases(s: Seq<u8>, pos: int) {
    lemma_tag_at_bounds(s, pos);
    if let Ok((_, wire, next)) = tag_at(s, pos) {
        lemma_value_end_bounds(s, next, wire);
    }
}

/// Where a field that the message does not know ends, its tag having been
/// read: a group is skipped to its close, any other value by its wire type.
pub open spec fn unknown_end(s: Seq<u8>, pos: int, wire: nat) -> Result<int, WireError> {
    if wire == 3 {
        group_end(s, pos)
    } else {
        value_end(s, pos, wire)
    }
}

/// An integer that can be read takes between one and ten bytes, all of them
/// present.
pub proof fn lemma_varint_prefix_bounds(s: Seq<u8>, budget: nat)
    ensures
        varint_prefix(s, budget) matches Some((_, n)) ==> 1 <= n <= budget && n <= s.len(),
    decreases budget,
{
    if budget > 0 && s.len() > 0 && s[0] >= 128 {
        lemma_varint_prefix_bounds(s.skip(1), (budget - 1) as nat);
    }
}

/// A tag that can be read ends after where it starts and within the bytes.
pub proof fn lemma_tag_at_bounds(s: Seq<u8>, pos: int)
    requires
        0 <= pos <= s.len(),
    ensures
        tag_at(s, pos) matches Ok((field, wire, next)) ==> pos < next <= s.len() && wire <= 5
            && 1 <= field < 0x2000_0000,
{
    lemma_varint_prefix_bounds(s.skip(pos), 10);
}

/// A value that can be skipped ends within the bytes, not before its start.
pub proof fn lemma_value_end_bounds(s: Seq<u8>, pos: int, wire: nat)
    requires
        0 <= pos <= s.len(),
    ensures
        value_end(s, pos, wire) matches Ok(end) ==> pos <= end <= s.len(),
{
    lemma_varint_prefix_bounds(s.skip(pos), 10);
}

/// Reads the tag at `pos`: field number, wire type, position after the tag.
pub fn read_tag(bytes: &[u8], pos: usize) -> (r: Result<(u32, u8, usize), WireError>)
    requires
        pos <= bytes@.len(),
    ensures
        match tag_at(bytes@, pos as int) {
            Ok((field, wire, next)) => r matches Ok((f, w, n)) && f == field && w == wire && n
                == next && pos < n <= bytes@.len(),
            Err(cause) => r matches Err(e) && e == cause,
        },
{
    proof {
        lemma_tag_at_bounds(bytes@, pos as int);
    }
    match read_varint(bytes, pos) {
        Err(cause) => Err(cause),
        Ok((v, next)) => {
            let t: u64 = v % 0x1_0000_0000;
            let wire: u64 = t % 8;
            let field: u64 = t / 8;
            if wire > 5 || field == 0 {
                Err(WireError::IncorrectTag)
            } else {
                Ok((field as u32, wire as u8, next))
            }
        },
    }
}

/// Reads the length at `pos` and finds the byte string behind it: the
/// positions where the string starts and ends.
pub fn read_length_delimited(bytes: &[u8], pos: usize) -> (r: Result<
    (usize, usize),
    WireError,
>)
    requires
        pos <= bytes@.len(),
    ensures
        match length_delimited_at(bytes@, pos as int) {
            Ok((start, end)) => r matches Ok((a, b)) && a == start && b == end && pos < a <= b
                <= bytes@.len(),
            Err(cause) => r matches Err(e) && e == cause,
        },
{
    proof {
        lemma_varint_prefix_bounds(bytes@.skip(pos as int), 10);
    }
    match read_varint(bytes, pos) {
        Err(cause) => Err(cause),
        Ok((v, start)) => {
            let length: u64 = v % 0x1_0000_0000;
            let room: usize = bytes.len() - start;
            if length <= room as u64 {
                Ok((start, start + length as usize))
            } else {
                Err(WireError::UnexpectedEnd)
            }
        },
    }
}

/// Skips the value of wire type `wire` at `pos`: the position after it.
pub fn skip_value(bytes: &[u8], pos: usize, wire: u8) -> (r: Result<usize, WireError>)
    requires
        pos <= bytes@.len(),
    ensures
        match value_end(bytes@, pos as int, wire as nat) {
            Ok(end) => r matches Ok(e) && e == end && pos <= e <= bytes@.len(),
            Err(cause) => r matches Err(e) && e == cause,
        },
{
    proof {
        lemma_value_end_bounds(bytes@, pos as int, wire as nat);
    }
    if wire == WIRE_VARINT {
        match read_varint(bytes, pos) {
            Ok((_, next)) => Ok(next),
            Err(cause) => Err(cause),
        }
    } else if wire == WIRE_FIXED64 {
        if bytes.len() - pos >= 8 {
            Ok(pos + 8)
        } else {
            Err(WireError::UnexpectedEnd)
        }
    } else if wire == WIRE_LENGTH_DELIMITED {
        match read_length_delimited(bytes, pos) {
            Ok((_, end)) => Ok(end),
            Err(cause) => Err(cause),
        }
    } else if wire == WIRE_FIXED32 {
        if bytes.len() - pos >= 4 {
            Ok(pos + 4)
        } else {
            Err(WireError::UnexpectedEnd)
        }
    } else {
        Err(WireError::UnexpectedWireType)
    }
}

/// Skips the group whose fields start at `pos`: the position after its close.
pub fn skip_group(bytes: &[u8], pos: usize) -> (r: Result<usize, WireError>)
    requires
        pos <= bytes@.len(),
    ensures
        match group_end(bytes@, pos as int) {
            Ok(end) => r matches Ok(e) && e == end && pos < e <= bytes@.len(),
            Err(cause) => r matches Err(e) && e == cause,
        },
{
    let mut at: usize = pos;
    loop
        invariant
            pos <= at <= bytes@.len(),
            group_end(bytes@, pos as int) == group_end(bytes@, at as int),
        decreases bytes@.len() - at,
    {
        match read_tag(bytes, at) {
            Err(cause) => {
                return Err(cause);
            },
            Ok((_, wire, next)) => {
                if wire == WIRE_END_GROUP {
                    return Ok(next);
                }
                match skip_value(bytes, next, wire) {
                    Err(cause) => {
                        return Err(cause);
                    },
                    Ok(end) => {
                        at = end;
                    },
                }
            },
        }
    }
}

/// Skips a field that the message does not know, its tag having been read.
pub fn skip_unknown(bytes: &[u8], pos: usize, wire: u8) -> (r: Result<usize, WireError>)
    requires
        pos <= bytes@.len(),
    ensures
        match unknown_end(bytes@, pos as int, wire as nat) {
            Ok(end) => r matches Ok(e) && e == end && pos <= e <= bytes@.len(),
            Err(cause) => r matches Err(e) && e == cause,
        },
{
    if wire == WIRE_START_GROUP {
        skip_group(bytes, pos)
    } else {
        skip_value(bytes, pos, wire)
    }
}

/// Appends the tag of a field.
pub fn write_tag(out: &mut Vec<u8>, field: u32, wire: u8)
    requires
        1 <= field < 0x2000_0000,
        wire <= 5,
    ensures
        final(out)@ == old(out)@ + varint_bytes(tag_value(field as nat, wire as nat)),
{
    write_varint(out, field as u64 * 8 + wire as u64);
}

/// The text that the bytes spell in UTF-8, where they spell one: std's
/// `String::from_utf8`, which takes the bytes over unchanged when they are
/// valid UTF-8 and refuses them otherwise.
#[verifier::external_body]
pub(crate) fn string_from_utf8(bytes: Vec<u8>) -> (r: Option<String>)
    ensures
        match r {
            Some(text) => valid_utf8(bytes@) && text@ == decode_utf8(bytes@),
            None => !valid_utf8(bytes@),
        },
{
    String::from_utf8(bytes).ok()
}

/// Copies the bytes from `start` up to `end`.
pub fn copy_range(bytes: &[u8], start: usize, end: usize) -> (out: Vec<u8>)
    requires
        start <= end <= bytes@.len(),
    ensures
        out@ == bytes@.subrange(start as int, end as int),
{
    slice_to_vec(slice_subrange(bytes, start, end))
}

} // verus!
