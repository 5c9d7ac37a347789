//! Account keys and key pairs, and how they are read from text.

use vstd::prelude::*;
use crate::bytes::{same_bytes, take_array};
use crate::codec::{base58_bytes, base58_decode, is_base58};
use crate::error::{outcome, ApiError};

verus! {

/// The error of `Pubkey::from_str`, carried through unread.
#[verifier::external_type_specification]
#[verifier::external_body]
pub struct ExParsePubkeyError(solana_sdk::pubkey::ParsePubkeyError);

/// The thirty-two bytes of the account key that `text` spells in base58, or
/// `None` where `text` is not the base58 form of thirty-two bytes.
pub uninterp spec fn pubkey_from_text(text: Seq<char>) -> Option<Seq<u8>>;

/// The base58 text of an account key.
pub uninterp spec fn pubkey_to_text(bytes: Seq<u8>) -> Seq<char>;

/// The Ed25519 public key that belongs to a thirty-two byte secret seed.
pub uninterp spec fn ed25519_public_key(seed: Seq<u8>) -> Seq<u8>;

/// A thirty-two byte account key.
#[derive(Clone, Copy, Debug, PartialEq, Eq)]
pub struct PublicKey {
    pub bytes: [u8; 32],
}

impl View for PublicKey {
    type V = Seq<u8>;

    open spec fn view(&self) -> Seq<u8> {
        self.bytes@
    }
}

/// A secret seed together with the public key derived from it. The only way
/// to obtain one is [`decode_key_pair`], so the two halves always agree.
pub struct KeyPair {
    seed: [u8; 32],
    public: PublicKey,
}

impl View for KeyPair {
    type V = Seq<u8>;

    /// The sixty-four bytes of the pair: seed first, public key second.
    closed spec fn view(&self) -> Seq<u8> {
        self.seed@ + self.public@
    }
}

/// Whether `bytes` are a seed followed by the public key that the signature
/// scheme derives from that seed.
pub open spec fn is_key_pair(bytes: Seq<u8>) -> bool {
    &&& bytes.len() == 64
    &&& bytes.subrange(32, 64) == ed25519_public_key(bytes.subrange(0, 32))
}

impl KeyPair {
    #[verifier::type_invariant]
    closed spec fn halves_agree(self) -> bool {
        self.public@ == ed25519_public_key(self.seed@)
    }

    /// The secret half.
    pub open spec fn seed(self) -> Seq<u8> {
        self@.subrange(0, 32)
    }

    /// The public half.
    pub open spec fn public(self) -> Seq<u8> {
        self@.subrange(32, 64)
    }

    /// The public key of the pair. It is the one that the signature scheme
    /// derives from the seed, as it is for every pair in existence.
    pub fn public_key(&self) -> (key: PublicKey)
        ensures
            key@ == self.public(),
            is_key_pair(self@),
    {
        proof {
            use_type_invariant(self);
            assert(self@.subrange(0, 32) =~= self.seed@);
            assert(self@.subrange(32, 64) =~= self.public@);
        }
        self.public
    }

    /// The secret seed, for the signing call.
    pub(crate) fn seed_bytes(&self) -> (seed: &[u8; 32])
        ensures
            seed@ == self.seed(),
            is_key_pair(self@),
    {
        proof {
            use_type_invariant(self);
            assert(self@.subrange(0, 32) =~= self.seed@);
            assert(self@.subrange(32, 64) =~= self.public@);
        }
        &self.seed
    }
}

/// Calls `Pubkey::from_str` of `solana_sdk::pubkey`.
///
/// Trusted: the outcome is a function of the text alone, which
/// [`pubkey_from_text`] names; an error stands for `None`. The parser looks
/// every character up in the alphabet and fails on one that is not there.
#[verifier::external_body]
fn pubkey_parse(text: &str) -> (r: Result<PublicKey, solana_sdk::pubkey::ParsePubkeyError>)
    ensures
        r matches Ok(key) ==> pubkey_from_text(text@) == Some(key@),
        r is Err ==> pubkey_from_text(text@) is None,
        r is Ok ==> is_base58(text@),
{
    let parsed: Result<solana_sdk::pubkey::Pubkey, _> = std::str::FromStr::from_str(text);
    parsed.map(|key| PublicKey { bytes: key.to_bytes() })
}

/// Calls `Pubkey::to_string` of `solana_sdk::pubkey`.
///
/// Trusted: the text is a function of the key's bytes alone, which
/// [`pubkey_to_text`] names, and parsing it gives the key back.
#[verifier::external_body]
pub(crate) fn pubkey_text(key: &PublicKey) -> (text: String)
    ensures
        text@ == pubkey_to_text(key@),
        pubkey_from_text(text@) == Some(key@),
{
    solana_sdk::pubkey::Pubkey::new_from_array(key.bytes).to_string()
}

/// Calls `Keypair::new_from_array` of `solana_sdk::signature` and asks the
/// result for its `pubkey`.
///
/// Trusted: the key is a function of the seed alone, which
/// [`ed25519_public_key`] names.
#[verifier::external_body]
fn derive_public_key(seed: &[u8; 32]) -> (key: PublicKey)
    ensures
        key@ == ed25519_public_key(seed@),
{
    let pair = solana_sdk::signature::Keypair::new_from_array(*seed);
    PublicKey { bytes: solana_sdk::signer::Signer::pubkey(&pair).to_bytes() }
}

/// What [`decode_public_key`] makes of a text.
pub open spec fn spec_decode_public_key(text: Seq<char>) -> Result<Seq<u8>, ApiError> {
    match pubkey_from_text(text) {
        Some(bytes) => Ok(bytes),
        None => Err(ApiError::InvalidInputEncoding),
    }
}

/// What [`decode_key_pair`] makes of a text: the sixty-four bytes of the
/// pair, or the reason for refusing it.
pub open spec fn spec_decode_key_pair(text: Seq<char>) -> Result<Seq<u8>, ApiError> {
    match base58_bytes(text) {
        None => Err(ApiError::InvalidInputEncoding),
        Some(bytes) => if bytes.len() != 64 {
            Err(ApiError::InvalidInputEncoding)
        } else if !is_key_pair(bytes) {
            Err(ApiError::InvalidKeyMaterial)
        } else {
            Ok(bytes)
        },
    }
}

/// Reads an account key from its base58 text. A text with a character outside
/// the base58 alphabet, or one that does not decode to thirty-two bytes, is
/// refused as [`ApiError::InvalidInputEncoding`].
pub fn decode_public_key(text: &str) -> (r: Result<PublicKey, ApiError>)
    ensures
        outcome(r) == spec_decode_public_key(text@),
        !is_base58(text@) ==> r == Err::<PublicKey, ApiError>(ApiError::InvalidInputEncoding),
{
    match pubkey_parse(text) {
        Ok(key) => Ok(key),
        Err(_) => Err(ApiError::InvalidInputEncoding),
    }
}

/// Decoding is a function of the text: any two answers that
/// [`decode_public_key`] may give for one text are the same key or the same
/// error, and so are any two that [`decode_key_pair`] may give.
pub proof fn lemma_decoding_is_a_function(
    text: Seq<char>,
    first_key: Result<PublicKey, ApiError>,
    second_key: Result<PublicKey, ApiError>,
    first_pair: Result<KeyPair, ApiError>,
    second_pair: Result<KeyPair, ApiError>,
)
    requires
        outcome(first_key) == spec_decode_public_key(text),
        outcome(second_key) == spec_decode_public_key(text),
        outcome(first_pair) == spec_decode_key_pair(text),
        outcome(second_pair) == spec_decode_key_pair(text),
    ensures
        outcome(first_key) == outcome(second_key),
        outcome(first_pair) == outcome(second_pair),
{
}

/// Reads a key pair from the base58 text of its sixty-four bytes. A text that
/// is not base58, or does not decode to sixty-four bytes, is refused as
/// [`ApiError::InvalidInputEncoding`]; one whose second half is not the public
/// key of its first half, as [`ApiError::InvalidKeyMaterial`].
pub fn decode_key_pair(text: &str) -> (r: Result<KeyPair, ApiError>)
    ensures
        outcome(r) == spec_decode_key_pair(text@),
        !is_base58(text@) ==> r matches Err(ApiError::InvalidInputEncoding),
{
    let bytes = match base58_decode(text) {
        Ok(bytes) => bytes,
        Err(_) => {
            return Err(ApiError::InvalidInputEncoding);
        },
    };
    if bytes.len() != 64 {
        return Err(ApiError::InvalidInputEncoding);
    }
    let seed: [u8; 32] = take_array(bytes.as_slice(), 0);
    let claimed: [u8; 32] = take_array(bytes.as_slice(), 32);
    let derived = derive_public_key(&seed);
    if !same_bytes(claimed.as_slice(), derived.bytes.as_slice()) {
        return Err(ApiError::InvalidKeyMaterial);
    }
    let pair = KeyPair { seed, public: PublicKey { bytes: claimed } };
    assert(pair@ =~= bytes@);
    Ok(pair)
}

} // verus!
