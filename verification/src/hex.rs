//! Hexadecimal digits: what a digit string denotes, how bytes are written as
//! lower-case digits, and the decoder for 32-byte values.

use vstd::prelude::*;

verus! {

/// Whether `c` is an ASCII hexadecimal digit of either case.
pub open spec fn is_hex_digit(c: u8) -> bool {
    (0x30 <= c <= 0x39) || (0x41 <= c <= 0x46) || (0x61 <= c <= 0x66)
}

/// Whether `c` is a hexadecimal digit that is not an upper-case letter: one
/// of `0` to `9` or `a` to `f`.
pub open spec fn is_lower_hex_digit(c: u8) -> bool {
    (0x30 <= c <= 0x39) || (0x61 <= c <= 0x66)
}

/// The number that the hexadecimal digit `c` stands for.
pub open spec fn digit_value(c: u8) -> int {
    if 0x30 <= c <= 0x39 {
        c - 0x30
    } else if 0x41 <= c <= 0x46 {
        c - 0x41 + 10
    } else {
        c - 0x61 + 10
    }
}

/// Whether every byte of `digits` is a hexadecimal digit.
pub open spec fn all_hex(digits: Seq<u8>) -> bool {
    forall|i: int| 0 <= i < digits.len() ==> is_hex_digit(#[trigger] digits[i])
}

/// Whether every byte of `digits` is a hexadecimal digit and none an
/// upper-case letter.
pub open spec fn all_lower_hex(digits: Seq<u8>) -> bool {
    forall|i: int| 0 <= i < digits.len() ==> is_lower_hex_digit(#[trigger] digits[i])
}

/// The byte written by the two digits `high` and `low`.
pub open spec fn byte_of(high: u8, low: u8) -> u8 {
    (16 * digit_value(high) + digit_value(low)) as u8
}

/// The bytes written by `digits`, two digits to the byte, most significant
/// digit first. A trailing odd digit is not read.
pub open spec fn decode(digits: Seq<u8>) -> Seq<u8> {
    Seq::new((digits.len() / 2) as nat, |i: int| byte_of(digits[2 * i], digits[2 * i + 1]))
}

/// The lower-case digit for a value below sixteen.
pub open spec fn lower_digit(value: int) -> u8 {
    if value < 10 {
        (0x30 + value) as u8
    } else {
        (0x61 + value - 10) as u8
    }
}

/// `bytes` written as lower-case digits, two to the byte.
pub open spec fn encode_lower(bytes: Seq<u8>) -> Seq<u8> {
    Seq::new(
        2 * bytes.len(),
        |i: int|
            if i % 2 == 0 {
                lower_digit(bytes[i / 2] as int / 16)
            } else {
                lower_digit(bytes[i / 2] as int % 16)
            },
    )
}

/// Decoding undoes lower-case encoding: the encoding of any bytes consists of
/// hexadecimal digits only, none of them an upper-case letter, and decodes to
/// those bytes.
pub proof fn lemma_decode_encode_lower(bytes: Seq<u8>)
    ensures
        encode_lower(bytes).len() == 2 * bytes.len(),
        all_lower_hex(encode_lower(bytes)),
        all_hex(encode_lower(bytes)),
        decode(encode_lower(bytes)) == bytes,
{
    let digits = encode_lower(bytes);
    assert forall|i: int| 0 <= i < digits.len() implies is_lower_hex_digit(
        #[trigger] digits[i],
    ) by {
        let b = bytes[i / 2] as int;
        assert(0 <= b / 16 < 16 && 0 <= b % 16 < 16);
    }
    assert forall|i: int| 0 <= i < digits.len() implies is_hex_digit(#[trigger] digits[i]) by {
        assert(is_lower_hex_digit(digits[i]));
    }
    assert forall|i: int| 0 <= i < bytes.len() implies #[trigger] decode(digits)[i] == bytes[i] by {
        let b = bytes[i] as int;
        assert((2 * i) / 2 == i && (2 * i + 1) / 2 == i);
        assert((2 * i) % 2 == 0 && (2 * i + 1) % 2 == 1);
        assert(digits[2 * i] == lower_digit(b / 16));
        assert(digits[2 * i + 1] == lower_digit(b % 16));
        assert(0 <= b / 16 < 16 && 0 <= b % 16 < 16);
        assert(digit_value(lower_digit(b / 16)) == b / 16);
        assert(digit_value(lower_digit(b % 16)) == b % 16);
        assert(16 * (b / 16) + b % 16 == b);
    }
    assert(decode(digits) =~= bytes);
}

/// The error of `hex`, which says why digits were not decoded. It is never
/// looked into.
#[verifier::external_type_specification]
#[verifier::external_body]
pub struct ExFromHexError(hex::FromHexError);

/// Decodes exactly 64 hexadecimal digits into 32 bytes with
/// `hex::FromHex::from_hex` for `[u8; 32]`.
///
/// Trusted: the call succeeds exactly when `digits` holds 64 bytes that are
/// all hexadecimal digits of either case, and then yields the bytes they
/// write, each byte being sixteen times its first digit plus its second.
#[verifier::external_body]
pub(crate) fn decode_32(digits: &[u8]) -> (decoded: Result<[u8; 32], hex::FromHexError>)
    ensures
        match decoded {
            Ok(bytes) => digits@.len() == 64 && all_hex(digits@) && bytes@ == decode(digits@),
            Err(_) => !(digits@.len() == 64 && all_hex(digits@)),
        },
{
    let decoded: Result<[u8; 32], hex::FromHexError> = hex::FromHex::from_hex(digits);
    decoded
}

} // verus!
