//! Signed 32-bit integers in decimal text: an optional sign, then digits.

use vstd::prelude::*;

verus! {

/// Why a text is no 32-bit integer.
#[derive(Clone, Copy, Debug, PartialEq, Eq, Structural)]
pub enum IntErrorKind {
    /// The text is empty.
    Empty,
    /// A character is no digit, or a sign stands alone.
    InvalidDigit,
    /// The number is above the largest 32-bit integer.
    PosOverflow,
    /// The number is below the smallest 32-bit integer.
    NegOverflow,
}

/// Whether `c` is one of the ten decimal digits.
pub open spec fn is_digit(c: char) -> bool {
    0x30 <= c as u32 <= 0x39
}

/// The value of a decimal digit.
pub open spec fn digit_value(c: char) -> int {
    c as u32 - 0x30
}

/// The result of reading the digits from `pos` on, left to right, the digits
/// before `pos` having given `acc`: each digit is appended to the number, away
/// from zero for a negative one. Reading stops at the first character that is
/// no digit, and at the first digit that takes the number out of range.
pub open spec fn scan_digits(s: Seq<char>, negative: bool, pos: int, acc: int) -> Result<
    int,
    IntErrorKind,
>
    decreases s.len() - pos,
{
    if pos >= s.len() {
        Ok(acc)
    } else if !is_digit(s[pos]) {
        Err(IntErrorKind::InvalidDigit)
    } else {
        let next = if negative {
            acc * 10 - digit_value(s[pos])
        } else {
            acc * 10 + digit_value(s[pos])
        };
        if next > i32::MAX {
            Err(IntErrorKind::PosOverflow)
        } else if next < i32::MIN {
            Err(IntErrorKind::NegOverflow)
        } else {
            scan_digits(s, negative, pos + 1, next)
        }
    }
}

/// Whether `c` is a plus or a minus sign.
pub open spec fn is_sign(c: char) -> bool {
    c == '+' || c == '-'
}

/// The integer that a text spells, or why it spells none.
pub open spec fn parse_i32_text(s: Seq<char>) -> Result<int, IntErrorKind> {
    if s.len() == 0 {
        Err(IntErrorKind::Empty)
    } else if is_sign(s[0]) {
        if s.len() == 1 {
            Err(IntErrorKind::InvalidDigit)
        } else {
            scan_digits(s, s[0] == '-', 1, 0)
        }
    } else {
        scan_digits(s, false, 0, 0)
    }
}

/// The number that a run of digits spells, read as a whole.
pub open spec fn decimal_value(digits: Seq<char>) -> int
    decreases digits.len(),
{
    if digits.len() == 0 {
        0
    } else {
        decimal_value(digits.drop_last()) * 10 + digit_value(digits.last())
    }
}

/// Whether every character of `s` from `from` on is a digit.
pub open spec fn all_digits(s: Seq<char>, from: int) -> bool {
    forall|i: int| from <= i < s.len() ==> is_digit(#[trigger] s[i])
}

/// Whether a text is a numeral: an optional sign, then at least one digit and
/// nothing but digits.
pub open spec fn is_numeral(s: Seq<char>) -> bool {
    if s.len() > 0 && is_sign(s[0]) {
        s.len() > 1 && all_digits(s, 1)
    } else {
        s.len() > 0 && all_digits(s, 0)
    }
}

/// The number that a numeral spells.
pub open spec fn numeral_value(s: Seq<char>) -> int {
    if s.len() > 0 && is_sign(s[0]) {
        if s[0] == '-' {
            -decimal_value(s.skip(1))
        } else {
            decimal_value(s.skip(1))
        }
    } else {
        decimal_value(s)
    }
}

/// The number spelled by the digits of `s` from `start` up to `pos`, with the
/// sign applied.
spec fn partial_value(s: Seq<char>, negative: bool, start: int, pos: int) -> int {
    if negative {
        -decimal_value(s.subrange(start, pos))
    } else {
        decimal_value(s.subrange(start, pos))
    }
}

proof fn lemma_decimal_value_step(s: Seq<char>, start: int, pos: int)
    requires
        0 <= start <= pos < s.len(),
    ensures
        decimal_value(s.subrange(start, pos + 1)) == decimal_value(s.subrange(start, pos)) * 10
            + digit_value(s[pos]),
{
    let longer = s.subrange(start, pos + 1);
    assert(longer.drop_last() =~= s.subrange(start, pos));
    assert(longer.last() == s[pos]);
}

proof fn lemma_decimal_value_nonnegative(digits: Seq<char>)
    requires
        all_digits(digits, 0),
    ensures
        decimal_value(digits) >= 0,
    decreases digits.len(),
{
    if digits.len() > 0 {
        assert(all_digits(digits.drop_last(), 0)) by {
            assert forall|i: int| 0 <= i < digits.drop_last().len() implies is_digit(
                #[trigger] digits.drop_last()[i],
            ) by {
                assert(digits.drop_last()[i] == digits[i]);
            }
        }
        assert(is_digit(digits.last()));
        lemma_decimal_value_nonnegative(digits.drop_last());
    }
}

/// Reading on from `pos` succeeds exactly where only digits follow and the
/// whole number is in range, and then gives the whole number.
proof fn lemma_scan_digits(s: Seq<char>, negative: bool, start: int, pos: int)
    requires
        0 <= start <= pos <= s.len(),
        all_digits(s.subrange(start, pos), 0),
        i32::MIN <= partial_value(s, negative, start, pos) <= i32::MAX,
    ensures
        match scan_digits(s, negative, pos, partial_value(s, negative, start, pos)) {
            Ok(v) => all_digits(s, start) && v == partial_value(s, negative, start, s.len() as int)
                && i32::MIN <= v <= i32::MAX,
            Err(_) => !(all_digits(s, start) && i32::MIN <= partial_value(
                s,
                negative,
                start,
                s.len() as int,
            ) <= i32::MAX),
        },
    decreases s.len() - pos,
{
    let acc = partial_value(s, negative, start, pos);
    let whole = partial_value(s, negative, start, s.len() as int);
    if pos >= s.len() {
        assert(s.subrange(start, pos) =~= s.subrange(start, s.len() as int));
        assert(all_digits(s, start)) by {
            assert forall|i: int| start <= i < s.len() implies is_digit(#[trigger] s[i]) by {
                assert(s.subrange(start, pos)[i - start] == s[i]);
            }
        }
    } else if !is_digit(s[pos]) {
    } else {
        lemma_decimal_value_step(s, start, pos);
        let next = partial_value(s, negative, start, pos + 1);
        assert(all_digits(s.subrange(start, pos + 1), 0)) by {
            assert forall|i: int| 0 <= i < pos + 1 - start implies is_digit(
                #[trigger] s.subrange(start, pos + 1)[i],
            ) by {
                if i < pos - start {
                    assert(s.subrange(start, pos)[i] == s[start + i]);
                }
            }
        }
        if next > i32::MAX || next < i32::MIN {
            if all_digits(s, start) {
                lemma_value_grows(s, negative, start, pos + 1, s.len() as int);
            }
        } else {
            lemma_scan_digits(s, negative, start, pos + 1);
        }
    }
}

/// Further digits take a number no nearer to zero.
proof fn lemma_value_grows(s: Seq<char>, negative: bool, start: int, pos: int, end: int)
    requires
        0 <= start <= pos <= end <= s.len(),
        all_digits(s, start),
    ensures
        negative ==> partial_value(s, negative, start, end) <= partial_value(
            s,
            negative,
            start,
            pos,
        ) <= 0,
        !negative ==> partial_value(s, negative, start, end) >= partial_value(
            s,
            negative,
            start,
            pos,
        ) >= 0,
    decreases end - pos,
{
    assert(all_digits(s.subrange(start, pos), 0)) by {
        assert forall|i: int| 0 <= i < pos - start implies is_digit(
            #[trigger] s.subrange(start, pos)[i],
        ) by {
            assert(is_digit(s[start + i]));
        }
    }
    lemma_decimal_value_nonnegative(s.subrange(start, pos));
    if pos < end {
        lemma_value_grows(s, negative, start, pos, end - 1);
        lemma_decimal_value_step(s, start, end - 1);
        assert(is_digit(s[end - 1]));
    }
}

/// Law: a text is read as an integer exactly where it is a numeral whose
/// number fits 32 bits, and is then read as that number.
pub proof fn lemma_parse_i32_meaning(s: Seq<char>)
    ensures
        match parse_i32_text(s) {
            Ok(v) => is_numeral(s) && v == numeral_value(s) && i32::MIN <= v <= i32::MAX,
            Err(_) => !(is_numeral(s) && i32::MIN <= numeral_value(s) <= i32::MAX),
        },
{
    let end = s.len() as int;
    if s.len() == 0 {
    } else if is_sign(s[0]) {
        if s.len() > 1 {
            assert(s.subrange(1, 1) =~= Seq::<char>::empty());
            assert(s.skip(1) =~= s.subrange(1, end));
            lemma_scan_digits(s, s[0] == '-', 1, 1);
        }
    } else {
        assert(s.subrange(0, 0) =~= Seq::<char>::empty());
        assert(s.subrange(0, end) =~= s);
        lemma_scan_digits(s, false, 0, 0);
    }
}

impl IntErrorKind {
    /// The reason in words.
    pub fn message(&self) -> (text: &'static str)
        ensures
            text@ == int_error_text(*self),
    {
        match self {
            IntErrorKind::Empty => "cannot parse integer from empty string",
            IntErrorKind::InvalidDigit => "invalid digit found in string",
            IntErrorKind::PosOverflow => "number too large to fit in target type",
            IntErrorKind::NegOverflow => "number too small to fit in target type",
        }
    }
}

/// The words that give the reason.
pub open spec fn int_error_text(kind: IntErrorKind) -> Seq<char> {
    match kind {
        IntErrorKind::Empty => "cannot parse integer from empty string"@,
        IntErrorKind::InvalidDigit => "invalid digit found in string"@,
        IntErrorKind::PosOverflow => "number too large to fit in target type"@,
        IntErrorKind::NegOverflow => "number too small to fit in target type"@,
    }
}

/// Reads a signed 32-bit integer from decimal text.
pub fn parse_i32(chars: &[char]) -> (r: Result<i32, IntErrorKind>)
    ensures
        match parse_i32_text(chars@) {
            Ok(v) => r matches Ok(q) && q == v,
            Err(kind) => r matches Err(k) && k == kind,
        },
{
    let n: usize = chars.len();
    if n == 0 {
        return Err(IntErrorKind::Empty);
    }
    let first: char = chars[0];
    let negative: bool = first == '-';
    let mut pos: usize = 0;
    if first == '+' || first == '-' {
        if n == 1 {
            return Err(IntErrorKind::InvalidDigit);
        }
        pos = 1;
    }
    let mut acc: i32 = 0;
    while pos < n
        invariant
            n == chars@.len(),
            pos <= n,
            parse_i32_text(chars@) == scan_digits(chars@, negative, pos as int, acc as int),
        decreases n - pos,
    {
        let code: u32 = chars[pos] as u32;
        if code < 0x30 || code > 0x39 {
            return Err(IntErrorKind::InvalidDigit);
        }
        let digit: i64 = (code - 0x30) as i64;
        let next: i64 = if negative {
            acc as i64 * 10 - digit
        } else {
            acc as i64 * 10 + digit
        };
        if next > 0x7FFF_FFFF {
            return Err(IntErrorKind::PosOverflow);
        }
        if next < -0x8000_0000 {
            return Err(IntErrorKind::NegOverflow);
        }
        acc = next as i32;
        pos = pos + 1;
    }
    Ok(acc)
}

} // verus!
