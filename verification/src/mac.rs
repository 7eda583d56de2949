//! The keyed message authentication code behind signed links.

use hmac::Hmac;
use hmac::Mac;
use sha2::Sha256;
use vstd::prelude::*;

verus! {

/// The HMAC-SHA256 code of `message` under `key`.
pub uninterp spec fn hmac_sha256(key: Seq<u8>, message: Seq<u8>) -> Seq<u8>;

/// The number of bytes in a code.
pub const CODE_LEN: usize = 32;

/// `Hmac::<Sha256>::new_from_slice`, `update` and `finalize`: the code of
/// `message` under `key`. HMAC takes a key of any length, so the keying never
/// fails, and a SHA-256 code has 32 bytes.
#[verifier::external_body]
pub(crate) fn code(key: &[u8], message: &[u8]) -> (tag: Option<Vec<u8>>)
    ensures
        tag is Some,
        tag->0@ == hmac_sha256(key@, message@),
        tag->0@.len() == CODE_LEN,
{
    match Hmac::<Sha256>::new_from_slice(key) {
        Ok(mut mac) => {
            mac.update(message);
            Some(mac.finalize().into_bytes().to_vec())
        },
        Err(_) => None,
    }
}

/// `Hmac::<Sha256>::new_from_slice`, `update` and `verify_slice`: whether
/// `candidate` is the code of `message` under `key`, compared in constant
/// time. A candidate that is not 32 bytes long is refused before any
/// comparison.
#[verifier::external_body]
pub(crate) fn matches_code(key: &[u8], message: &[u8], candidate: &[u8]) -> (same: bool)
    ensures
        same == (candidate@ == hmac_sha256(key@, message@)),
        same ==> candidate@.len() == CODE_LEN,
{
    match Hmac::<Sha256>::new_from_slice(key) {
        Ok(mut mac) => {
            mac.update(message);
            mac.verify_slice(candidate).is_ok()
        },
        Err(_) => false,
    }
}

} // verus!
