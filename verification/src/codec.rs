//! Text encodings of binary values: base58 for secrets, base64 for signatures
//! and instruction payloads.
//!
//! The encodings themselves are the work of the `bs58` and `base64` crates.
//! Each is given a name here, and the library's contracts speak of those names.

use vstd::prelude::*;

verus! {

/// The error of `bs58::decode`, carried through unread.
#[verifier::external_type_specification]
#[verifier::external_body]
pub struct ExBase58Error(bs58::decode::Error);

/// The error of base64 decoding, carried through unread.
#[verifier::external_type_specification]
#[verifier::external_body]
pub struct ExBase64Error(base64::DecodeError);

/// Whether `c` belongs to the base58 alphabet: the digits and the Latin
/// letters without `0`, `O`, `I` and `l`.
pub open spec fn is_base58_char(c: char) -> bool {
    ||| '1' <= c <= '9'
    ||| ('A' <= c <= 'Z' && c != 'I' && c != 'O')
    ||| ('a' <= c <= 'z' && c != 'l')
}

/// Whether every character of `text` belongs to the base58 alphabet.
pub open spec fn is_base58(text: Seq<char>) -> bool {
    forall|i: int| 0 <= i < text.len() ==> is_base58_char(#[trigger] text[i])
}

/// The bytes that `text` stands for in base58 (Bitcoin alphabet, no
/// checksum), or `None` where `text` is not base58.
pub uninterp spec fn base58_bytes(text: Seq<char>) -> Option<Seq<u8>>;

/// The standard, padded base64 text of `bytes`.
pub uninterp spec fn base64_text(bytes: Seq<u8>) -> Seq<char>;

/// The bytes that `text` stands for in standard, padded base64, or `None`
/// where `text` is not such a text.
pub uninterp spec fn base64_bytes(text: Seq<char>) -> Option<Seq<u8>>;

/// Calls `bs58::decode(text).into_vec()`.
///
/// Trusted: the outcome is a function of the text alone, which
/// [`base58_bytes`] names; an error stands for `None`. The decoder stops with
/// an error at the first character that is not in the alphabet.
#[verifier::external_body]
pub(crate) fn base58_decode(text: &str) -> (r: Result<Vec<u8>, bs58::decode::Error>)
    ensures
        r matches Ok(bytes) ==> base58_bytes(text@) == Some(bytes@),
        r is Err ==> base58_bytes(text@) is None,
        r is Ok ==> is_base58(text@),
{
    bs58::decode(text).into_vec()
}

/// Calls `Engine::encode` of `base64::engine::general_purpose::STANDARD`.
///
/// Trusted: the text is a function of the bytes alone, which
/// [`base64_text`] names, and decoding it gives the bytes back. The encoder
/// gives up only where the length of the text does not fit in `usize`; no
/// slice is long enough for that, as none holds more than `isize::MAX` bytes.
#[verifier::external_body]
pub(crate) fn base64_encode(bytes: &[u8]) -> (text: String)
    ensures
        text@ == base64_text(bytes@),
        base64_bytes(text@) == Some(bytes@),
{
    base64::Engine::encode(&base64::engine::general_purpose::STANDARD, bytes)
}

/// Calls `Engine::decode` of `base64::engine::general_purpose::STANDARD`.
///
/// Trusted: the outcome is a function of the text alone, which
/// [`base64_bytes`] names; an error stands for `None`.
#[verifier::external_body]
pub(crate) fn base64_decode(text: &str) -> (r: Result<Vec<u8>, base64::DecodeError>)
    ensures
        r matches Ok(bytes) ==> base64_bytes(text@) == Some(bytes@),
        r is Err ==> base64_bytes(text@) is None,
{
    base64::Engine::decode(&base64::engine::general_purpose::STANDARD, text)
}

} // verus!
