//! Signing a message and checking a signature.

use vstd::prelude::*;
use vstd::utf8::encode_utf8;
use crate::codec::{base64_text, is_base58};
use crate::error::{outcome, ApiError};
use crate::keys::{
    decode_key_pair, decode_public_key, pubkey_text, pubkey_to_text, spec_decode_key_pair,
    spec_decode_public_key,
};
use crate::models::{
    SignMessageData, SignMessageDataView, SignMessageRequest, VerifyMessageData,
    VerifyMessageDataView, VerifyMessageRequest,
};
use crate::signature::{
    decode_signature, ed25519_sign, ed25519_verify, encode_signature, has_neutral_nonce, sign,
    spec_decode_signature, verify,
};

verus! {

/// What [`sign_message`] answers: the message must not be empty, nor the
/// secret; the secret must spell a key pair; the answer carries the signature
/// of the message's UTF-8 bytes, the signer's public key and the message as
/// it came.
pub open spec fn spec_sign_message(message: Seq<char>, secret: Seq<char>) -> Result<
    SignMessageDataView,
    ApiError,
> {
    if message.len() == 0 || secret.len() == 0 {
        Err(ApiError::MissingRequiredFields)
    } else {
        match spec_decode_key_pair(secret) {
            Err(e) => Err(e),
            Ok(pair) => Ok(
                SignMessageDataView {
                    signature: base64_text(spec_signature(message, pair)),
                    public_key: pubkey_to_text(pair.subrange(32, 64)),
                    message,
                },
            ),
        }
    }
}

/// What [`verify_message`] answers: the key is decoded first, then the
/// signature; the verdict is on the message's UTF-8 bytes.
pub open spec fn spec_verify_message(
    message: Seq<char>,
    signature: Seq<char>,
    pubkey: Seq<char>,
) -> Result<VerifyMessageDataView, ApiError> {
    match spec_decode_public_key(pubkey) {
        Err(e) => Err(e),
        Ok(key) => match spec_decode_signature(signature) {
            Err(e) => Err(e),
            Ok(bytes) => Ok(
                VerifyMessageDataView {
                    valid: ed25519_verify(bytes, key, encode_utf8(message)),
                    message,
                    pubkey,
                },
            ),
        },
    }
}

/// The signature that the holder of `pair` gives to the UTF-8 bytes of
/// `message`.
pub open spec fn spec_signature(message: Seq<char>, pair: Seq<u8>) -> Seq<u8> {
    ed25519_sign(pair.subrange(0, 32), encode_utf8(message))
}

/// What [`verify_message`] answers when it is handed an answer of
/// [`sign_message`] as it is: the verdict of the signature scheme on the
/// signature which the pair has just given to the message, under the pair's
/// own public key.
pub open spec fn spec_check_of_signed(message: Seq<char>, pair: Seq<u8>) -> VerifyMessageDataView {
    VerifyMessageDataView {
        valid: ed25519_verify(
            spec_signature(message, pair),
            pair.subrange(32, 64),
            encode_utf8(message),
        ),
        message,
        pubkey: pubkey_to_text(pair.subrange(32, 64)),
    }
}

/// Signs the message of a request with the key pair that its secret spells.
///
/// The answer can be handed to [`verify_message`] as it is: the signature and
/// the key are read back from their texts without loss, and the verdict is
/// `valid: true`, unless the nonce point of the signature is the neutral
/// element.
pub fn sign_message(req: SignMessageRequest) -> (r: Result<SignMessageData, ApiError>)
    ensures
        outcome(r) == spec_sign_message(req.message@, req.secret@),
        req.message@.len() > 0 && req.secret@.len() > 0 && !is_base58(req.secret@) ==> r == Err::<
            SignMessageData,
            ApiError,
        >(ApiError::InvalidInputEncoding),
        r matches Ok(data) ==> spec_verify_message(data.message@, data.signature@, data.public_key@)
            == Ok::<VerifyMessageDataView, ApiError>(
            spec_check_of_signed(req.message@, spec_decode_key_pair(req.secret@).unwrap()),
        ),
        r is Ok && !has_neutral_nonce(
            spec_signature(req.message@, spec_decode_key_pair(req.secret@).unwrap()),
        ) ==> spec_check_of_signed(req.message@, spec_decode_key_pair(req.secret@).unwrap()).valid,
{
    if req.message.as_str().is_empty() || req.secret.as_str().is_empty() {
        return Err(ApiError::MissingRequiredFields);
    }
    let key_pair = match decode_key_pair(req.secret.as_str()) {
        Ok(key_pair) => key_pair,
        Err(e) => {
            return Err(e);
        },
    };
    let signature = sign(req.message.as_str().as_bytes(), &key_pair);
    let public_key = key_pair.public_key();
    Ok(
        SignMessageData {
            signature: encode_signature(&signature),
            public_key: pubkey_text(&public_key),
            message: req.message,
        },
    )
}

/// Checks the signature of a request against its key and message. A
/// signature that does not fit gives `valid: false`; only an identifier that
/// cannot be decoded is a failure.
pub fn verify_message(req: VerifyMessageRequest) -> (r: Result<VerifyMessageData, ApiError>)
    ensures
        outcome(r) == spec_verify_message(req.message@, req.signature@, req.pubkey@),
        !is_base58(req.pubkey@) ==> r == Err::<VerifyMessageData, ApiError>(
            ApiError::InvalidInputEncoding,
        ),
{
    let pubkey = match decode_public_key(req.pubkey.as_str()) {
        Ok(pubkey) => pubkey,
        Err(e) => {
            return Err(e);
        },
    };
    let signature = match decode_signature(req.signature.as_str()) {
        Ok(signature) => signature,
        Err(e) => {
            return Err(e);
        },
    };
    let valid = verify(&signature, &pubkey, req.message.as_str().as_bytes());
    Ok(VerifyMessageData { valid, message: req.message, pubkey: req.pubkey })
}

} // verus!
