use sol_primitives::error::ApiError;
use sol_primitives::keys::{decode_key_pair, decode_public_key, PublicKey};

const PUBLIC_TEXT: &str = "FVen3X669xLzsi6N2V91DoiyzHzg1uAgqiT8jZ9nS96Z";
const PAIR_TEXT: &str =
    "49W385L4rePHy6PAaQUovbD2aacgN4HsKXSMeUzRg4fmwXszN91JuMFrQRj3vMDpZuRF3ZknQBuRBoWQJEfXstMw";
const SECOND_PAIR_TEXT: &str =
    "2Y4QjyJVZf9tTmTPP1SY9ACpFYTo7brW9iCQ8SunQht5yQ2r1U9KsVv5aMsCGnzj3NR8KG9P3NY7FKBiYbbTJ2no";
// The seed of the first pair followed by the public key of the second.
const MISMATCHED_PAIR_TEXT: &str =
    "49W385L4rePHy6PAaQUovbD2aacgN4HsKXSMeUzRg4fmmAKmRtx9Zv4guQziLvixpzbwmuov52LhLMddT2YyY2gT";
// Thirty-two bytes only: a seed without its public key.
const SEED_ONLY_TEXT: &str = "BbMQkQYZspmkytduTWvXEtc4mMURjsekJDvty2WtKeSb";

const PUBLIC_BYTES: [u8; 32] = [
    215, 90, 152, 1, 130, 177, 10, 183, 213, 75, 254, 211, 201, 100, 7, 58, 14, 225, 114, 243, 218,
    166, 35, 37, 175, 2, 26, 104, 247, 7, 81, 26,
];
const SECOND_PUBLIC_BYTES: [u8; 32] = [
    0x3d, 0x40, 0x17, 0xc3, 0xe8, 0x43, 0x89, 0x5a, 0x92, 0xb7, 0x0a, 0xa7, 0x4d, 0x1b, 0x7e, 0xbc,
    0x9c, 0x98, 0x2c, 0xcf, 0x2e, 0xc4, 0x96, 0x8c, 0xc0, 0xcd, 0x55, 0xf1, 0x2a, 0xf4, 0x66, 0x0c,
];

#[test]
fn public_key_is_read_from_base58() {
    let key = decode_public_key(PUBLIC_TEXT).unwrap();
    assert_eq!(key.bytes, PUBLIC_BYTES);
}

#[test]
fn all_zero_public_key_is_thirty_two_ones() {
    let key = decode_public_key("11111111111111111111111111111111").unwrap();
    assert_eq!(key, PublicKey { bytes: [0u8; 32] });
}

#[test]
fn public_key_with_a_zero_character_is_refused() {
    let text = "0Ven3X669xLzsi6N2V91DoiyzHzg1uAgqiT8jZ9nS96Z";
    assert_eq!(decode_public_key(text), Err(ApiError::InvalidInputEncoding));
}

#[test]
fn public_key_with_other_foreign_characters_is_refused() {
    assert_eq!(
        decode_public_key("OVen3X669xLzsi6N2V91DoiyzHzg1uAgqiT8jZ9nS96Z"),
        Err(ApiError::InvalidInputEncoding)
    );
    assert_eq!(
        decode_public_key("lVen3X669xLzsi6N2V91DoiyzHzg1uAgqiT8jZ9nS96Z"),
        Err(ApiError::InvalidInputEncoding)
    );
    assert_eq!(
        decode_public_key("FVen3X669xLzsi6N2V91DoiyzHzg1uAgqiT8jZ9nS96 "),
        Err(ApiError::InvalidInputEncoding)
    );
}

#[test]
fn public_key_of_the_wrong_length_is_refused() {
    // One character short, one character long, empty, and a whole key pair.
    assert_eq!(
        decode_public_key("FVen3X669xLzsi6N2V91DoiyzHzg1uAgqiT8jZ9nS9"),
        Err(ApiError::InvalidInputEncoding)
    );
    assert_eq!(
        decode_public_key("FVen3X669xLzsi6N2V91DoiyzHzg1uAgqiT8jZ9nS96ZZ"),
        Err(ApiError::InvalidInputEncoding)
    );
    assert_eq!(decode_public_key(""), Err(ApiError::InvalidInputEncoding));
    assert_eq!(decode_public_key(PAIR_TEXT), Err(ApiError::InvalidInputEncoding));
}

#[test]
fn decoding_a_public_key_twice_gives_the_same_answer() {
    assert_eq!(decode_public_key(PUBLIC_TEXT), decode_public_key(PUBLIC_TEXT));
    assert_eq!(decode_public_key("not base58!"), decode_public_key("not base58!"));
}

#[test]
fn key_pair_is_read_from_base58() {
    let pair = decode_key_pair(PAIR_TEXT).unwrap();
    assert_eq!(pair.public_key().bytes, PUBLIC_BYTES);
    let second = decode_key_pair(SECOND_PAIR_TEXT).unwrap();
    assert_eq!(second.public_key().bytes, SECOND_PUBLIC_BYTES);
}

#[test]
fn key_pair_that_is_not_base58_is_refused() {
    let text = PAIR_TEXT.replace('9', "0");
    assert!(matches!(decode_key_pair(&text), Err(ApiError::InvalidInputEncoding)));
    assert!(matches!(decode_key_pair("ünïcödé"), Err(ApiError::InvalidInputEncoding)));
}

#[test]
fn key_pair_of_the_wrong_length_is_refused() {
    assert!(matches!(decode_key_pair(SEED_ONLY_TEXT), Err(ApiError::InvalidInputEncoding)));
    assert!(matches!(decode_key_pair(""), Err(ApiError::InvalidInputEncoding)));
    let long = format!("{}1", PAIR_TEXT);
    assert!(matches!(decode_key_pair(&long), Err(ApiError::InvalidInputEncoding)));
}

#[test]
fn key_pair_with_a_foreign_public_half_is_refused() {
    assert!(matches!(decode_key_pair(MISMATCHED_PAIR_TEXT), Err(ApiError::InvalidKeyMaterial)));
}

#[test]
fn decoding_a_key_pair_twice_gives_the_same_answer() {
    let first = decode_key_pair(PAIR_TEXT).unwrap();
    let second = decode_key_pair(PAIR_TEXT).unwrap();
    assert_eq!(first.public_key(), second.public_key());
    assert!(matches!(decode_key_pair(MISMATCHED_PAIR_TEXT), Err(ApiError::InvalidKeyMaterial)));
    assert!(matches!(decode_key_pair(MISMATCHED_PAIR_TEXT), Err(ApiError::InvalidKeyMaterial)));
}

#[test]
fn every_failure_has_its_sentence() {
    assert_eq!(ApiError::MissingRequiredFields.message(), "Missing required fields");
    assert_eq!(ApiError::InvalidInputEncoding.message(), "Invalid base58 encoding");
    assert_eq!(ApiError::InvalidKeyMaterial.message(), "Invalid secret key");
    assert_eq!(ApiError::InvalidSignatureEncoding.message(), "Invalid signature encoding");
    assert_eq!(ApiError::ConstructionError.message(), "Failed to create instruction");
}
