//! Signing a message with a key pair, and checking a signature against a
//! public key and a message.
//!
//! The message is taken byte for byte: nothing is trimmed or re-encoded.
//! A signature travels as standard base64 text.

use vstd::prelude::*;
use crate::bytes::take_array;
use crate::codec::{base64_bytes, base64_decode, base64_encode, base64_text};
use crate::error::{outcome, ApiError};
use crate::keys::{ed25519_public_key, KeyPair, PublicKey};

verus! {

/// The Ed25519 signature that the owner of `seed` gives to `message`.
pub uninterp spec fn ed25519_sign(seed: Seq<u8>, message: Seq<u8>) -> Seq<u8>;

/// Whether strict Ed25519 verification accepts `signature` for `message`
/// under `public_key`.
pub uninterp spec fn ed25519_verify(signature: Seq<u8>, public_key: Seq<u8>, message: Seq<u8>) -> bool;

/// The encoding of the neutral element of the curve: a one and thirty-one
/// zeros.
pub open spec fn neutral_point() -> Seq<u8> {
    Seq::new(32, |i: int| if i == 0 { 1u8 } else { 0u8 })
}

/// Whether the first half of a signature, its nonce point, is the neutral
/// element. Strict verification turns every such signature down. A signer
/// arrives at this point only where the digest from which the nonce is taken
/// is a multiple of the group order; no message with such a digest is known.
pub open spec fn has_neutral_nonce(signature: Seq<u8>) -> bool {
    signature.subrange(0, 32) == neutral_point()
}

/// A sixty-four byte signature.
#[derive(Clone, Copy, Debug, PartialEq, Eq)]
pub struct Signature {
    pub bytes: [u8; 64],
}

impl View for Signature {
    type V = Seq<u8>;

    open spec fn view(&self) -> Seq<u8> {
        self.bytes@
    }
}

/// Calls `Keypair::new_from_array` of `solana_sdk::signature` and, on the
/// result, `Signer::sign_message`.
///
/// Trusted: the signature is a function of the seed and the message alone,
/// which [`ed25519_sign`] names; Ed25519 draws no randomness when it signs.
/// Strict verification accepts the signature under the seed's public key,
/// unless its nonce point is the neutral element: the verifier recomputes
/// that point from the second half of the signature and compares, after it
/// has turned down points of small order, of which the neutral element is the
/// only one that a signer can arrive at.
#[verifier::external_body]
fn sign_with_seed(seed: &[u8; 32], message: &[u8]) -> (signature: Signature)
    ensures
        signature@ == ed25519_sign(seed@, message@),
        !has_neutral_nonce(signature@) ==> ed25519_verify(
            signature@,
            ed25519_public_key(seed@),
            message@,
        ),
{
    let pair = solana_sdk::signature::Keypair::new_from_array(*seed);
    Signature { bytes: solana_sdk::signer::Signer::sign_message(&pair, message).into() }
}

/// Calls `Signature::verify` of `solana_sdk::signature`.
///
/// Trusted: the verdict is a function of the signature, the key and the
/// message alone, which [`ed25519_verify`] names.
#[verifier::external_body]
fn verify_strict(signature: &Signature, public_key: &PublicKey, message: &[u8]) -> (valid: bool)
    ensures
        valid == ed25519_verify(signature@, public_key@, message@),
{
    solana_sdk::signature::Signature::from(signature.bytes).verify(&public_key.bytes, message)
}

impl Signature {
    /// Reads a signature from raw bytes. Anything but sixty-four bytes is
    /// refused as [`ApiError::InvalidSignatureEncoding`].
    pub fn from_bytes(bytes: &[u8]) -> (r: Result<Signature, ApiError>)
        ensures
            outcome(r) == if bytes@.len() == 64 {
                Ok::<Seq<u8>, ApiError>(bytes@)
            } else {
                Err::<Seq<u8>, ApiError>(ApiError::InvalidSignatureEncoding)
            },
    {
        if bytes.len() != 64 {
            return Err(ApiError::InvalidSignatureEncoding);
        }
        let copied: [u8; 64] = take_array(bytes, 0);
        assert(bytes@.subrange(0, 64) =~= bytes@);
        Ok(Signature { bytes: copied })
    }
}

/// What [`decode_signature`] makes of a text.
pub open spec fn spec_decode_signature(text: Seq<char>) -> Result<Seq<u8>, ApiError> {
    match base64_bytes(text) {
        Some(bytes) if bytes.len() == 64 => Ok(bytes),
        _ => Err(ApiError::InvalidSignatureEncoding),
    }
}

/// Signs `message` with `key_pair`. The same pair and message always give the
/// same signature, and [`verify`] accepts it for the same message under the
/// pair's public key, unless its nonce point is the neutral element.
pub fn sign(message: &[u8], key_pair: &KeyPair) -> (signature: Signature)
    ensures
        signature@ == ed25519_sign(key_pair.seed(), message@),
        !has_neutral_nonce(signature@) ==> ed25519_verify(
            signature@,
            key_pair.public(),
            message@,
        ),
{
    sign_with_seed(key_pair.seed_bytes(), message)
}

/// Checks `signature` against `public_key` and `message`. A signature that
/// does not fit is an ordinary outcome, `false`, and no failure.
pub fn verify(signature: &Signature, public_key: &PublicKey, message: &[u8]) -> (valid: bool)
    ensures
        valid == ed25519_verify(signature@, public_key@, message@),
{
    verify_strict(signature, public_key, message)
}

/// The base64 text of a signature. [`decode_signature`] reads the signature
/// back from it.
pub fn encode_signature(signature: &Signature) -> (text: String)
    ensures
        text@ == base64_text(signature@),
        spec_decode_signature(text@) == Ok::<Seq<u8>, ApiError>(signature@),
{
    base64_encode(signature.bytes.as_slice())
}

/// Reads a signature from its base64 text. A text that is not base64, or does
/// not decode to sixty-four bytes, is refused as
/// [`ApiError::InvalidSignatureEncoding`].
pub fn decode_signature(text: &str) -> (r: Result<Signature, ApiError>)
    ensures
        outcome(r) == spec_decode_signature(text@),
{
    match base64_decode(text) {
        Ok(bytes) => Signature::from_bytes(bytes.as_slice()),
        Err(_) => Err(ApiError::InvalidSignatureEncoding),
    }
}

} // verus!
