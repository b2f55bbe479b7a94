use vstd::prelude::*;

use crate::identity::{all_zero, Identity, Signature};

verus! {

/// Whether `signature` is a valid Ed25519 signature by the key `pubkey` over
/// `message`. Ed25519 verification is a pure function of these three byte
/// strings; its definition is left to the cryptographic library.
pub uninterp spec fn ed25519_valid(pubkey: Seq<u8>, message: Seq<u8>, signature: Seq<u8>) -> bool;

/// Relies on ed25519_dalek: `VerifyingKey::from_bytes` (rejects bytes that are
/// not a canonical curve point), `Signature::from_bytes` (infallible), and
/// `VerifyingKey::verify_strict`, which accepts or rejects deterministically
/// from the three byte strings alone.
#[verifier::external_body]
fn ed25519_verify(pubkey: &[u8; 32], message: &[u8], signature: &[u8; 64]) -> (r: bool)
    ensures
        r == ed25519_valid(pubkey@, message@, signature@),
{
    match ed25519_dalek::VerifyingKey::from_bytes(pubkey) {
        Ok(vk) => {
            let sig = ed25519_dalek::Signature::from_bytes(signature);
            vk.verify_strict(message, &sig).is_ok()
        },
        Err(_) => false,
    }
}

/// A signature passes only if it is well formed (not all zero) and
/// cryptographically valid for the key and message.
pub open spec fn signature_accepted(pubkey: Seq<u8>, message: Seq<u8>, signature: Seq<u8>) -> bool {
    &&& !all_zero(signature)
    &&& ed25519_valid(pubkey, message, signature)
}

/// Validate an asymmetric signature against a message and a claimed identity.
/// All-zero signatures are rejected before any cryptographic check.
pub fn verify_signature(signature: &Signature, message: &Vec<u8>, pubkey: &Identity) -> (r: bool)
    ensures
        r == signature_accepted(pubkey@, message@, signature@),
{
    if signature.is_zero() {
        false
    } else {
        ed25519_verify(&pubkey.bytes, message.as_slice(), &signature.bytes)
    }
}

} // verus!
