//! The keyed hash that authenticates a request body.

use hmac::{Mac, NewMac};
use vstd::prelude::*;

verus! {

/// The HMAC-SHA256 authentication tag of `message` under `key`.
pub uninterp spec fn hmac_sha256(key: Seq<u8>, message: Seq<u8>) -> [u8; 32];

/// The error with which a keyed hash refuses a key. It is never looked
/// into.
#[verifier::external_type_specification]
#[verifier::external_body]
pub struct ExInvalidKeyLength(hmac::crypto_mac::InvalidKeyLength);

/// Computes the tag of `message` under `key` with `hmac::Hmac<sha2::Sha256>`:
/// `new_varkey`, one `update`, `finalize`.
///
/// Trusted: the three calls yield HMAC-SHA256 of the message under the key,
/// and `new_varkey` of this type accepts a key of any length, so the result
/// is never an error.
#[verifier::external_body]
pub(crate) fn compute_tag(key: &[u8], message: &[u8]) -> (computed: Result<
    [u8; 32],
    hmac::crypto_mac::InvalidKeyLength,
>)
    ensures
        match computed {
            Ok(tag) => tag == hmac_sha256(key@, message@),
            Err(_) => false,
        },
{
    let mut mac = hmac::Hmac::<sha2::Sha256>::new_varkey(key)?;
    mac.update(message);
    Ok(mac.finalize().into_bytes().into())
}

/// Compares two tags with the constant-time equality of
/// `hmac::crypto_mac::Output`.
///
/// Trusted: the comparison is true exactly when the 32 bytes agree.
#[verifier::external_body]
pub(crate) fn tags_match(claimed: &[u8; 32], computed: &[u8; 32]) -> (same: bool)
    ensures
        same == (claimed@ == computed@),
{
    let claimed = hmac::crypto_mac::Output::<hmac::Hmac<sha2::Sha256>>::new((*claimed).into());
    let computed = hmac::crypto_mac::Output::<hmac::Hmac<sha2::Sha256>>::new((*computed).into());
    claimed == computed
}

} // verus!
