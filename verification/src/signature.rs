//! The signature header of a webhook request.

use vstd::prelude::*;
use vstd::slice::slice_subrange;
use vstd::string::*;

use crate::hex::{all_lower_hex, decode, decode_32, is_hex_digit, is_lower_hex_digit};

verus! {

/// Why a signature header was not accepted.
#[derive(Debug, Clone, Copy, PartialEq, Eq, Structural)]
pub enum Error {
    /// The request carries no signature header.
    HeaderNotFound,
    /// The header is not as long as the prefix and 64 digits.
    InvalidLength,
    /// The header does not begin with `sha256=`.
    InvalidPrefix,
    /// What follows the prefix is not 64 lower-case hexadecimal digits.
    NotHex,
}

impl Error {
    /// The text shown for this error.
    pub open spec fn text(self) -> Seq<char> {
        match self {
            Error::HeaderNotFound => "`X-Hub-Signature-256` header isn't found"@,
            Error::InvalidLength => "`X-Hub-Signature-256` has invalid length"@,
            Error::InvalidPrefix => "`X-Hub-Signature-256` must start with `sha256=`"@,
            Error::NotHex => "signature must be 64 hex digits"@,
        }
    }

    /// The text shown for this error.
    pub fn message(&self) -> (text: String)
        ensures
            text@ == self.text(),
    {
        match self {
            Error::HeaderNotFound => String::from_str("`X-Hub-Signature-256` header isn't found"),
            Error::InvalidLength => String::from_str("`X-Hub-Signature-256` has invalid length"),
            Error::InvalidPrefix => String::from_str(
                "`X-Hub-Signature-256` must start with `sha256=`",
            ),
            Error::NotHex => String::from_str("signature must be 64 hex digits"),
        }
    }
}

/// The 32-byte authentication tag that a request claims for its body.
#[derive(Debug, Clone)]
pub struct Signature(pub [u8; 32]);

/// The bytes of `sha256=`, with which every signature header begins.
pub open spec fn prefix() -> Seq<u8> {
    seq![0x73u8, 0x68u8, 0x61u8, 0x32u8, 0x35u8, 0x36u8, 0x3du8]
}

/// Length of a well-formed header: the prefix and 64 digits.
pub open spec fn header_len() -> nat {
    71
}

/// What a signature header denotes: the tag it carries, or the first reason,
/// in the order absence, length, prefix, digits, for which it carries none.
/// The digits are `0` to `9` and `a` to `f`; an upper-case letter is no
/// digit here.
pub open spec fn parse_header(header: Option<Seq<u8>>) -> Result<Seq<u8>, Error> {
    match header {
        None => Err(Error::HeaderNotFound),
        Some(value) => {
            if value.len() != header_len() {
                Err(Error::InvalidLength)
            } else if value.subrange(0, 7) != prefix() {
                Err(Error::InvalidPrefix)
            } else if !all_lower_hex(value.subrange(7, 71)) {
                Err(Error::NotHex)
            } else {
                Ok(decode(value.subrange(7, 71)))
            }
        },
    }
}

/// The view of an optional header value.
pub open spec fn header_view(header: Option<&[u8]>) -> Option<Seq<u8>> {
    match header {
        None => None,
        Some(value) => Some(value@),
    }
}

impl Signature {
    /// Reads the signature from the value of the `X-Hub-Signature-256`
    /// header, `None` standing for a request without that header.
    pub fn from_headers(header: Option<&[u8]>) -> (parsed: Result<Signature, Error>)
        ensures
            match parsed {
                Ok(signature) => parse_header(header_view(header)) == Ok::<Seq<u8>, Error>(
                    signature.0@,
                ),
                Err(error) => parse_header(header_view(header)) == Err::<Seq<u8>, Error>(error),
            },
    {
        let value = match header {
            None => {
                return Err(Error::HeaderNotFound);
            },
            Some(value) => value,
        };
        if value.len() != 71 {
            return Err(Error::InvalidLength);
        }
        let expected: [u8; 7] = [0x73, 0x68, 0x61, 0x32, 0x35, 0x36, 0x3d];
        let mut i: usize = 0;
        while i < 7
            invariant
                0 <= i <= 7,
                value@.len() == 71,
                header_view(header) == Some(value@),
                expected@ == prefix(),
                forall|j: int| 0 <= j < i ==> value@[j] == expected@[j],
            decreases 7 - i,
        {
            if value[i] != expected[i] {
                assert(value@.subrange(0, 7)[i as int] == value@[i as int]);
                assert(prefix()[i as int] == expected@[i as int]);
                assert(value@.subrange(0, 7) != prefix());
                return Err(Error::InvalidPrefix);
            }
            i += 1;
        }
        assert(value@.subrange(0, 7) =~= prefix());
        let digits = slice_subrange(value, 7, 71);
        let mut j: usize = 0;
        while j < 64
            invariant
                0 <= j <= 64,
                value@.len() == 71,
                digits@ == value@.subrange(7, 71),
                header_view(header) == Some(value@),
                value@.subrange(0, 7) == prefix(),
                forall|k: int| 0 <= k < j ==> is_lower_hex_digit(#[trigger] digits@[k]),
            decreases 64 - j,
        {
            let digit = digits[j];
            let lower = (0x30 <= digit && digit <= 0x39) || (0x61 <= digit && digit <= 0x66);
            if !lower {
                assert(!is_lower_hex_digit(digits@[j as int]));
                return Err(Error::NotHex);
            }
            j += 1;
        }
        assert(all_lower_hex(digits@));
        assert forall|k: int| 0 <= k < digits@.len() implies is_hex_digit(
            #[trigger] digits@[k],
        ) by {
            assert(is_lower_hex_digit(digits@[k]));
        }
        match decode_32(digits) {
            Ok(bytes) => Ok(Signature(bytes)),
            Err(_) => Err(Error::NotHex),
        }
    }
}

} // verus!
