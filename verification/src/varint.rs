//! Base-128 variable-length integers, least significant group first: the
//! integer encoding of the payload's wire form.

use vstd::prelude::*;
use crate::error::WireError;

verus! {

/// One more than the largest 64-bit value.
pub open spec fn two_pow_64() -> int {
    u64::MAX as int + 1
}

/// The bytes of `v`: seven bits per byte from the low end, the high bit set on
/// every byte but the last.
pub open spec fn varint_bytes(v: nat) -> Seq<u8>
    decreases v,
{
    if v < 128 {
        seq![v as u8]
    } else {
        seq![(v % 128 + 128) as u8] + varint_bytes(v / 128)
    }
}

/// The integer that starts `s`, read from at most `budget` bytes: its value,
/// not yet cut to any width, and the number of bytes it takes. `None` where
/// `s` ends, or the budget, before a byte without the high bit.
pub open spec fn varint_prefix(s: Seq<u8>, budget: nat) -> Option<(nat, nat)>
    decreases budget,
{
    if budget == 0 || s.len() == 0 {
        None
    } else if s[0] < 128 {
        Some((s[0] as nat, 1nat))
    } else {
        match varint_prefix(s.skip(1), (budget - 1) as nat) {
            Some((v, n)) => Some(((s[0] - 128) as nat + 128 * v, n + 1)),
            None => None,
        }
    }
}

/// The 64-bit integer that starts `s` and its length in bytes: at most ten
/// bytes are read, and bits above the 64th are dropped.
pub open spec fn varint_at(s: Seq<u8>) -> Option<(u64, nat)> {
    match varint_prefix(s, 10) {
        Some((v, n)) => Some(((v as int % two_pow_64()) as u64, n)),
        None => None,
    }
}

/// Why no integer can be read at the start of `s`, where none can: ten
/// bytes that do not finish it, or fewer bytes than it needs.
pub open spec fn varint_failure(s: Seq<u8>) -> WireError {
    if s.len() >= 10 {
        WireError::IncorrectVarint
    } else {
        WireError::UnexpectedEnd
    }
}

/// The 64-bit integer that starts `s` and its length in bytes, or why there
/// is none.
pub open spec fn varint_read(s: Seq<u8>) -> Result<(u64, nat), WireError> {
    match varint_at(s) {
        Some(read) => Ok(read),
        None => Err(varint_failure(s)),
    }
}

/// 128 to the power `i`.
spec fn pow128(i: nat) -> nat
    decreases i,
{
    if i == 0 {
        1
    } else {
        128 * pow128((i - 1) as nat)
    }
}

/// What the whole read gives once the bytes from the `i`-th on have given
/// `rest`, the first `i` bytes having contributed `acc` below `mult`.
spec fn resume(rest: Option<(nat, nat)>, acc: nat, mult: nat, i: nat) -> Option<
    (nat, nat),
> {
    match rest {
        Some((v, n)) => Some((acc + mult * v, n + i)),
        None => None,
    }
}

proof fn lemma_pow128_values(i: nat)
    requires
        i <= 9,
    ensures
        pow128(i) <= 0x8000_0000_0000_0000,
        i <= 8 ==> pow128(i) <= 0x0100_0000_0000_0000,
        i == 9 ==> pow128(i) == 0x8000_0000_0000_0000,
        pow128(i) >= 1,
{
    reveal_with_fuel(pow128, 11);
    assert(i == 0 || i == 1 || i == 2 || i == 3 || i == 4 || i == 5 || i == 6 || i == 7 || i == 8
        || i == 9);
}

/// A value below `128^k` takes at most `k` bytes, and at least one.
proof fn lemma_varint_length(v: nat, k: nat)
    requires
        k >= 1,
        v < pow128(k),
    ensures
        1 <= varint_bytes(v).len() <= k,
    decreases k,
{
    reveal_with_fuel(pow128, 2);
    if v >= 128 {
        assert(k >= 2);
        assert(v / 128 < pow128((k - 1) as nat)) by (nonlinear_arith)
            requires
                v < 128 * pow128((k - 1) as nat),
        ;
        lemma_varint_length(v / 128, (k - 1) as nat);
    }
}

/// Every 64-bit value takes between one and ten bytes.
pub proof fn lemma_varint_length_u64(v: nat)
    requires
        v <= u64::MAX,
    ensures
        1 <= varint_bytes(v).len() <= 10,
{
    lemma_pow128_values(9);
    assert(pow128(10) == 128 * pow128(9)) by {
        reveal_with_fuel(pow128, 2);
    }
    lemma_varint_length(v, 10);
}

/// Reading back what was written gives the value and the written length,
/// whatever follows, given enough budget for the bytes.
pub proof fn lemma_varint_prefix_of_bytes(v: nat, rest: Seq<u8>, budget: nat)
    requires
        varint_bytes(v).len() <= budget,
    ensures
        varint_prefix(varint_bytes(v) + rest, budget) == Some((v, varint_bytes(v).len())),
    decreases v,
{
    let s = varint_bytes(v) + rest;
    if v < 128 {
        assert(s[0] == v as u8);
    } else {
        let tail = varint_bytes(v / 128);
        assert(s[0] == (v % 128 + 128) as u8);
        assert(s.skip(1) =~= tail + rest);
        lemma_varint_prefix_of_bytes(v / 128, rest, (budget - 1) as nat);
        assert((s[0] - 128) as nat + 128 * (v / 128) == v);
    }
}

/// Law: a 64-bit value written and read back, whatever bytes follow it, is the
/// same value, and the read ends where the written bytes end.
pub proof fn lemma_varint_round_trip(v: u64, rest: Seq<u8>)
    ensures
        varint_at(varint_bytes(v as nat) + rest) == Some((v, varint_bytes(v as nat).len())),
{
    lemma_varint_length_u64(v as nat);
    lemma_varint_prefix_of_bytes(v as nat, rest, 10);
    assert((v as nat) as int % two_pow_64() == v as int);
}

/// Appends the bytes of `v` to `out`.
pub fn write_varint(out: &mut Vec<u8>, v: u64)
    ensures
        final(out)@ == old(out)@ + varint_bytes(v as nat),
{
    let mut rest: u64 = v;
    while rest >= 128
        invariant
            old(out)@ + varint_bytes(v as nat) == out@ + varint_bytes(rest as nat),
        decreases rest,
    {
        let low: u8 = (rest % 128 + 128) as u8;
        proof {
            assert(varint_bytes(rest as nat) == seq![low] + varint_bytes((rest / 128) as nat));
            assert(out@ + (seq![low] + varint_bytes((rest / 128) as nat)) =~= out@.push(low)
                + varint_bytes((rest / 128) as nat));
        }
        out.push(low);
        rest = rest / 128;
    }
    proof {
        assert(out@ + varint_bytes(rest as nat) =~= out@.push(rest as u8));
    }
    out.push(rest as u8);
}

/// Reads the integer that starts at `pos`: its value and the position after
/// it. It fails where the bytes end first, and where ten bytes do not finish
/// the integer.
pub fn read_varint(bytes: &[u8], pos: usize) -> (r: Result<(u64, usize), WireError>)
    requires
        pos <= bytes@.len(),
    ensures
        match varint_read(bytes@.skip(pos as int)) {
            Ok((v, n)) => r matches Ok((value, next)) && value == v && next == pos + n && next
                <= bytes@.len(),
            Err(cause) => r matches Err(e) && e == cause,
        },
{
    let ghost s = bytes@.skip(pos as int);
    assert(s.skip(0) =~= s);
    let avail: usize = bytes.len() - pos;
    let mut i: usize = 0;
    let mut acc: u64 = 0;
    let mut mult: u64 = 1;
    while i < 10
        invariant
            pos <= bytes@.len() <= usize::MAX,
            avail == bytes@.len() - pos,
            s == bytes@.skip(pos as int),
            i <= 9,
            i <= avail,
            mult == pow128(i as nat),
            acc < mult,
            varint_prefix(s, 10) == resume(
                varint_prefix(s.skip(i as int), (10 - i) as nat),
                acc as nat,
                mult as nat,
                i as nat,
            ),
        decreases 10 - i,
    {
        proof {
            lemma_pow128_values(i as nat);
        }
        if i >= avail {
            assert(s.skip(i as int).len() == 0);
            return Err(WireError::UnexpectedEnd);
        }
        let b: u8 = bytes[pos + i];
        let ghost t = s.skip(i as int);
        assert(t[0] == b);
        if b < 128 {
            assert(varint_prefix(t, (10 - i) as nat) == Some((b as nat, 1nat)));
            if i < 9 {
                assert(mult * b <= 0x0100_0000_0000_0000 * 127) by (nonlinear_arith)
                    requires
                        mult <= 0x0100_0000_0000_0000,
                        b < 128,
                ;
                let total: u64 = acc + mult * (b as u64);
                assert(varint_prefix(s, 10) == Some(
                    ((acc as nat + mult as nat * b as nat) as nat, (1 + i) as nat),
                ));
                assert((acc as nat + mult as nat * b as nat) as int % two_pow_64() == total);
                return Ok((total, pos + i + 1));
            } else {
                let top: u64 = (b % 2) as u64;
                let total: u64 = acc + top * 0x8000_0000_0000_0000;
                assert((acc as nat + mult as nat * b as nat) as int % two_pow_64() == total) by {
                    let q: int = (b / 2) as int;
                    assert(b as int == 2 * q + top);
                    assert(mult as nat * b as nat == 0x8000_0000_0000_0000 * (2 * q + top));
                    assert(acc + 0x8000_0000_0000_0000 * (2 * q + top) == two_pow_64() * q
                        + total) by (nonlinear_arith)
                        requires
                            total == acc + top * 0x8000_0000_0000_0000,
                            two_pow_64() == 2 * 0x8000_0000_0000_0000,
                    ;
                    assert((two_pow_64() * q + total) % two_pow_64() == total)
                        by (nonlinear_arith)
                        requires
                            0 <= total < two_pow_64(),
                            two_pow_64() > 0,
                    ;
                }
                return Ok((total, pos + i + 1));
            }
        }
        if i == 9 {
            assert(varint_prefix(t.skip(1), 0) is None);
            return Err(WireError::IncorrectVarint);
        }
        proof {
            let low: nat = (b - 128) as nat;
            assert(t.skip(1) =~= s.skip(i + 1));
            let inner = varint_prefix(s.skip(i + 1), (9 - i) as nat);
            assert(varint_prefix(t, (10 - i) as nat) == match inner {
                Some((v, n)) => Some((low + 128 * v, n + 1)),
                None => None,
            });
            assert(mult * low <= mult * 127) by (nonlinear_arith)
                requires
                    low <= 127,
                    mult >= 1,
            ;
            assert(pow128((i + 1) as nat) == 128 * pow128(i as nat)) by {
                reveal_with_fuel(pow128, 2);
            }
            lemma_pow128_values((i + 1) as nat);
            if let Some((v, n)) = inner {
                assert(acc + mult * (low + 128 * v) == (acc + mult * low) + (mult * 128) * v)
                    by (nonlinear_arith);
            }
        }
        acc = acc + mult * ((b - 128) as u64);
        mult = mult * 128;
        i = i + 1;
    }
    Err(WireError::IncorrectVarint)
}

} // verus!
