//! Base 58, in which a redemption carries its fingerprint.

use vstd::prelude::*;
use crate::error::CashError;

verus! {

/// The error of `bs58`'s decoder.
#[verifier::external_type_specification]
#[verifier::external_body]
pub struct ExDecodeError(bs58::decode::Error);

/// The bytes that a text stands for in base 58 with the Bitcoin alphabet:
/// what `bs58::decode` gives for it. `None` where the text holds a character
/// that is not of the alphabet.
pub uninterp spec fn base58_decoded(text: Seq<char>) -> Option<Seq<u8>>;

/// Calls `bs58::decode(..).into_vec()`. The result is a function of the text
/// alone; the contract names it `base58_decoded`.
#[verifier::external_body]
fn decode(text: &str) -> (r: Result<Vec<u8>, bs58::decode::Error>)
    ensures
        r matches Ok(bytes) ==> base58_decoded(text@) == Some(bytes@),
        r is Err ==> base58_decoded(text@) is None,
{
    bs58::decode(text).into_vec()
}

/// The bytes of a fingerprint that is written in base 58.
pub fn decode_fingerprint(fingerprint: &str) -> (r: Result<Vec<u8>, CashError>)
    ensures
        r matches Ok(bytes) ==> base58_decoded(fingerprint@) == Some(bytes@),
        r matches Err(e) ==> e == CashError::InvalidFingerprint && base58_decoded(fingerprint@)
            is None,
{
    match decode(fingerprint) {
        Ok(bytes) => Ok(bytes),
        Err(_) => Err(CashError::InvalidFingerprint),
    }
}

} // verus!
