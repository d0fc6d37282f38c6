//! Storage addresses: the namespace tag, then the first half of the SHA-512
//! digest of the identifier. The state store knows an address by its
//! hexadecimal text.

use vstd::prelude::*;
use vstd::string::*;
use vstd::utf8::*;
use sha2::{Digest, Sha512};

verus! {

/// The length of an address in bytes.
pub const ADDRESS_LENGTH: usize = 35;

/// The SHA-512 digest of `data`.
pub uninterp spec fn sha512(data: Seq<u8>) -> Seq<u8>;

/// The fixed three-byte namespace tag that every address starts with.
pub open spec fn namespace_prefix() -> Seq<u8> {
    seq![0xce_u8, 0x22_u8, 0x92_u8]
}

/// The namespace tag in hexadecimal text.
pub open spec fn namespace_hex() -> Seq<char> {
    seq!['c', 'e', '2', '2', '9', '2']
}

/// The address of an identifier: the namespace tag, then the first 32 bytes
/// of the SHA-512 digest of the identifier's UTF-8 bytes.
pub open spec fn address_of(identifier: Seq<char>) -> Seq<u8> {
    namespace_prefix() + sha512(encode_utf8(identifier)).subrange(0, 32)
}

/// The lower-case hexadecimal digit for `n`.
pub open spec fn hex_digit(n: int) -> char {
    if n == 0 {
        '0'
    } else if n == 1 {
        '1'
    } else if n == 2 {
        '2'
    } else if n == 3 {
        '3'
    } else if n == 4 {
        '4'
    } else if n == 5 {
        '5'
    } else if n == 6 {
        '6'
    } else if n == 7 {
        '7'
    } else if n == 8 {
        '8'
    } else if n == 9 {
        '9'
    } else if n == 10 {
        'a'
    } else if n == 11 {
        'b'
    } else if n == 12 {
        'c'
    } else if n == 13 {
        'd'
    } else if n == 14 {
        'e'
    } else {
        'f'
    }
}

/// The value of a hexadecimal digit of either case.
pub open spec fn hex_digit_value(c: char) -> Option<int> {
    let code = c as u32;
    if 0x30 <= code <= 0x39 {
        Some(code - 0x30)
    } else if 0x41 <= code <= 0x46 {
        Some(code - 0x41 + 10)
    } else if 0x61 <= code <= 0x66 {
        Some(code - 0x61 + 10)
    } else {
        None
    }
}

/// The hexadecimal text of `data`: two lower-case digits per byte, the high
/// half first.
pub open spec fn hex_text(data: Seq<u8>) -> Seq<char> {
    Seq::new(
        2 * data.len(),
        |i: int|
            if i % 2 == 0 {
                hex_digit(data[i / 2] as int / 16)
            } else {
                hex_digit(data[i / 2] as int % 16)
            },
    )
}

/// Whether `text` is hexadecimal text: an even number of hexadecimal digits.
pub open spec fn is_hex_text(text: Seq<char>) -> bool {
    &&& text.len() % 2 == 0
    &&& forall|i: int| 0 <= i < text.len() ==> hex_digit_value(#[trigger] text[i]) is Some
}

/// The bytes that hexadecimal text spells.
pub open spec fn hex_bytes(text: Seq<char>) -> Seq<u8> {
    Seq::new(
        text.len() / 2,
        |i: int|
            (hex_digit_value(text[2 * i]).unwrap() * 16 + hex_digit_value(
                text[2 * i + 1],
            ).unwrap()) as u8,
    )
}

/// The SHA-512 digest of `data`: `Sha512::digest` of the `sha2` crate. The
/// digest is a function of the data alone and has 64 bytes.
#[verifier::external_body]
fn sha512_digest(data: &[u8]) -> (digest: Vec<u8>)
    ensures
        digest@ == sha512(data@),
        digest@.len() == 64,
{
    Sha512::digest(data).to_vec()
}

/// The hexadecimal text of `data`: `hex::encode`, which writes each byte as
/// two lower-case digits, the high half first.
#[verifier::external_body]
fn hex_encode(data: &[u8]) -> (text: String)
    ensures
        text@ == hex_text(data@),
{
    hex::encode(data)
}

/// The bytes that hexadecimal text spells: `hex::decode`, which accepts an
/// even number of digits of either case and refuses anything else.
#[verifier::external_body]
fn hex_decode(text: &str) -> (r: Option<Vec<u8>>)
    ensures
        match r {
            Some(bytes) => is_hex_text(text@) && bytes@ == hex_bytes(text@),
            None => !is_hex_text(text@),
        },
{
    hex::decode(text).ok()
}

proof fn lemma_hex_digit(n: int)
    requires
        0 <= n < 16,
    ensures
        hex_digit_value(hex_digit(n)) == Some(n),
{
}

/// Law: hexadecimal text written for some bytes spells those bytes.
pub proof fn lemma_hex_round_trip(data: Seq<u8>)
    ensures
        is_hex_text(hex_text(data)),
        hex_bytes(hex_text(data)) == data,
{
    let text = hex_text(data);
    assert forall|i: int| 0 <= i < text.len() implies hex_digit_value(#[trigger] text[i])
        is Some by {
        lemma_hex_digit(data[i / 2] as int / 16);
        lemma_hex_digit(data[i / 2] as int % 16);
    }
    assert forall|i: int| 0 <= i < data.len() implies hex_bytes(text)[i] == data[i] by {
        lemma_hex_digit(data[i] as int / 16);
        lemma_hex_digit(data[i] as int % 16);
        assert(text[2 * i] == hex_digit(data[i] as int / 16));
        assert(text[2 * i + 1] == hex_digit(data[i] as int % 16));
    }
    assert(hex_bytes(text) =~= data);
}

/// Derives the storage address of an identifier. The address is a function
/// of the identifier alone: the same identifier gives the same address in
/// every call and in every run.
pub fn compute_address(identifier: &str) -> (address: Vec<u8>)
    ensures
        address@ == address_of(identifier@),
        address@.len() == ADDRESS_LENGTH,
{
    let digest: Vec<u8> = sha512_digest(identifier.as_bytes());
    let digest_hex: String = hex_encode(digest.as_slice());
    let text: String = String::from_str("ce2292").concat(
        digest_hex.as_str().substring_char(0, 64),
    );
    proof {
        reveal_strlit("ce2292");
        let d = digest@;
        let t = text@;
        lemma_hex_round_trip(d);
        assert("ce2292"@ =~= namespace_hex());
        assert(t =~= namespace_hex() + hex_text(d).subrange(0, 64));
        assert(t.len() == 70);
        assert forall|i: int| 0 <= i < t.len() implies hex_digit_value(#[trigger] t[i])
            is Some by {
            if i >= 6 {
                assert(t[i] == hex_text(d)[i - 6]);
            }
        }
        assert(is_hex_text(t));
        let want = address_of(identifier@);
        assert(want.len() == 35);
        assert forall|i: int| 0 <= i < 35 implies hex_bytes(t)[i] == want[i] by {
            if i >= 3 {
                let j = i - 3;
                assert(t[2 * i] == hex_text(d)[2 * j]);
                assert(t[2 * i + 1] == hex_text(d)[2 * j + 1]);
                assert(hex_bytes(hex_text(d))[j] == d[j]);
                assert(want[i] == d[j]);
            }
        }
        assert(hex_bytes(t) =~= want);
    }
    match hex_decode(text.as_str()) {
        Some(address) => address,
        None => vstd::pervasive::unreached(),
    }
}

/// The key under which the state store knows an address: its hexadecimal
/// text.
pub fn address_key(address: &[u8]) -> (key: String)
    ensures
        key@ == hex_text(address@),
{
    hex_encode(address)
}

} // verus!
