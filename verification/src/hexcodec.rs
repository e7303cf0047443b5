//! Hex encoding and decoding of artifact bytes.
//!
//! Proofs are persisted as lowercase hex text and read back by decoding that
//! text. The encoding and decoding themselves are done by the `hex` crate;
//! their exact behaviour is stated here and the round trip is proved from
//! those statements, so a proof written to disk and read back is unchanged.
use vstd::prelude::*;

verus! {

/// The lowercase hex digit for a value below 16.
pub open spec fn hex_digit_of(n: u8) -> char
    recommends
        n < 16,
{
    if n < 10 {
        ((48 + n) as u8) as char
    } else {
        ((87 + n) as u8) as char
    }
}

/// The lowercase hex text for a byte sequence: two digits per byte, high
/// nibble first.
pub open spec fn hex_of(bytes: Seq<u8>) -> Seq<char> {
    Seq::new(
        bytes.len() * 2,
        |i: int| if i % 2 == 0 {
            hex_digit_of(bytes[i / 2] >> 4)
        } else {
            hex_digit_of(bytes[i / 2] & 15)
        },
    )
}

/// Whether a byte is the ASCII code of a hex digit, in either case.
pub open spec fn is_hex_digit(b: u8) -> bool {
    (48 <= b <= 57) || (97 <= b <= 102) || (65 <= b <= 70)
}

/// The value of a hex digit given as its ASCII code.
pub open spec fn hex_val(b: u8) -> u8
    recommends
        is_hex_digit(b),
{
    if 48 <= b <= 57 {
        (b - 48) as u8
    } else if 97 <= b <= 102 {
        (b - 87) as u8
    } else if 65 <= b <= 70 {
        (b - 55) as u8
    } else {
        0
    }
}

/// The bytes a hex text decodes to: each pair of digits one byte, high
/// nibble first.
pub open spec fn hex_decoded(text: Seq<u8>) -> Seq<u8> {
    Seq::new(text.len() / 2, |i: int| (hex_val(text[2 * i]) * 16 + hex_val(text[2 * i + 1])) as u8)
}

/// Why a hex text failed to decode: an odd number of digits, or a byte that
/// is no hex digit, reported with its position.
#[derive(Debug)]
pub enum HexDecodeError {
    OddLength,
    InvalidHexCharacter { c: char, index: usize },
}

/// Relies on `hex::encode`: lowercase hex, two digits per byte, high nibble
/// first.
#[verifier::external_body]
pub fn hex_encode(data: &Vec<u8>) -> (r: String)
    ensures
        r@ == hex_of(data@),
{
    hex::encode(data)
}

/// Relies on `<Vec<u8> as hex::FromHex>::from_hex` through `hex::decode`: a
/// text of even length whose bytes are all hex digits (either case) decodes
/// pairwise; an odd length is reported first, then the lowest position that
/// holds no hex digit.
#[verifier::external_body]
pub fn hex_decode(data: &Vec<u8>) -> (r: Result<Vec<u8>, HexDecodeError>)
    ensures
        match r {
            Ok(bytes) => {
                &&& data@.len() % 2 == 0
                &&& forall|i: int| 0 <= i < data@.len() ==> is_hex_digit(data@[i])
                &&& bytes@ == hex_decoded(data@)
            },
            Err(HexDecodeError::OddLength) => data@.len() % 2 == 1,
            Err(HexDecodeError::InvalidHexCharacter { c, index }) => {
                &&& data@.len() % 2 == 0
                &&& index < data@.len()
                &&& !is_hex_digit(data@[index as int])
                &&& forall|i: int| 0 <= i < index ==> is_hex_digit(data@[i])
                &&& c == data@[index as int] as char
            },
        },
{
    match hex::decode(data) {
        Ok(bytes) => Ok(bytes),
        Err(hex::FromHexError::OddLength) => Err(HexDecodeError::OddLength),
        Err(hex::FromHexError::InvalidHexCharacter { c, index }) => Err(
            HexDecodeError::InvalidHexCharacter { c, index },
        ),
        Err(hex::FromHexError::InvalidStringLength) => Err(HexDecodeError::OddLength),
    }
}

/// The ASCII codes of a character sequence, for text known to be ASCII.
pub open spec fn ascii_codes_of(text: Seq<char>) -> Seq<u8> {
    Seq::new(text.len(), |i: int| text[i] as u8)
}

/// Every character of an encoding is a lowercase hex digit, so the encoding
/// written to a file is exactly its ASCII codes, and those codes decode.
pub proof fn lemma_hex_of_is_hex(bytes: Seq<u8>)
    ensures
        forall|i: int| 0 <= i < hex_of(bytes).len() ==> is_hex_digit(hex_of(bytes)[i] as u8),
        forall|i: int| 0 <= i < hex_of(bytes).len() ==> ((hex_of(bytes)[i] as u8) < 128),
{
    assert forall|i: int| 0 <= i < hex_of(bytes).len() implies is_hex_digit(
        hex_of(bytes)[i] as u8,
    ) by {
        let b = bytes[i / 2];
        assert((b >> 4) < 16 && (b & 15) < 16) by (bit_vector);
    }
    assert forall|i: int| 0 <= i < hex_of(bytes).len() implies ((hex_of(bytes)[i] as u8) < 128) by {
        let b = bytes[i / 2];
        assert((b >> 4) < 16 && (b & 15) < 16) by (bit_vector);
    }
}

/// Decoding an encoding gives the bytes back: the hex text of `bytes`, laid
/// down as ASCII and decoded again, is `bytes` itself.
pub proof fn lemma_hex_round_trip(bytes: Seq<u8>)
    ensures
        ascii_codes_of(hex_of(bytes)).len() % 2 == 0,
        forall|i: int|
            0 <= i < ascii_codes_of(hex_of(bytes)).len() ==> is_hex_digit(
                ascii_codes_of(hex_of(bytes))[i],
            ),
        hex_decoded(ascii_codes_of(hex_of(bytes))) == bytes,
{
    lemma_hex_of_is_hex(bytes);
    let codes = ascii_codes_of(hex_of(bytes));
    assert forall|i: int| 0 <= i < bytes.len() implies hex_decoded(codes)[i] == bytes[i] by {
        let b = bytes[i];
        let hi = b >> 4;
        let lo = b & 15;
        assert((b >> 4) < 16 && (b & 15) < 16 && (b >> 4) * 16 + (b & 15) == b) by (bit_vector);
        assert(codes[2 * i] == hex_digit_of(hi) as u8);
        assert(codes[2 * i + 1] == hex_digit_of(lo) as u8);
        assert(hex_val(hex_digit_of(hi) as u8) == hi);
        assert(hex_val(hex_digit_of(lo) as u8) == lo);
    }
    assert(hex_decoded(codes) =~= bytes);
}

/// The encoding is injective: two different byte sequences never share a hex
/// text, so any change to stored bytes shows in the text and any change to
/// the text that still decodes yields different bytes.
pub proof fn lemma_hex_of_injective(a: Seq<u8>, b: Seq<u8>)
    requires
        hex_of(a) == hex_of(b),
    ensures
        a == b,
{
    lemma_hex_round_trip(a);
    lemma_hex_round_trip(b);
    assert(ascii_codes_of(hex_of(a)) =~= ascii_codes_of(hex_of(b)));
}

} // verus!
