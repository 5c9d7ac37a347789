use sol_primitives::handlers::message::sign_message;
use sol_primitives::builder::{
    build_initialize_mint, build_mint_to, build_sol_transfer, build_token_transfer,
    derive_associated_token_account,
};
use sol_primitives::instruction::Instruction;
use sol_primitives::keys::{decode_key_pair, decode_public_key, PublicKey};
use sol_primitives::models::SignMessageRequest;
use sol_primitives::response::normalize;
use sol_primitives::signature::{sign, verify, Signature};
use solana_program::pubkey::Pubkey;
use solana_sdk::signature::Keypair;
use solana_sdk::signer::Signer;

/// A few dozen byte strings that differ in every position.
fn samples() -> Vec<[u8; 32]> {
    let mut state: u64 = 0x9e37_79b9_7f4a_7c15;
    let mut out = Vec::new();
    for _ in 0..40 {
        let mut bytes = [0u8; 32];
        for byte in bytes.iter_mut() {
            state = state.wrapping_mul(6364136223846793005).wrapping_add(1442695040888963407);
            *byte = (state >> 56) as u8;
        }
        out.push(bytes);
    }
    out.push([0u8; 32]);
    out.push([255u8; 32]);
    out
}

fn same(instruction: &Instruction, theirs: &solana_program::instruction::Instruction) -> bool {
    instruction.program_id.bytes == theirs.program_id.to_bytes()
        && instruction.data == theirs.data
        && instruction.accounts.len() == theirs.accounts.len()
        && instruction.accounts.iter().zip(theirs.accounts.iter()).all(|(ours, theirs)| {
            ours.pubkey.bytes == theirs.pubkey.to_bytes()
                && ours.is_signer == theirs.is_signer
                && ours.is_writable == theirs.is_writable
        })
}

#[test]
fn derived_token_accounts_are_those_of_the_ledger_crate() {
    let keys = samples();
    for pair in keys.windows(2) {
        let theirs = spl_associated_token_account::get_associated_token_address(
            &Pubkey::new_from_array(pair[0]),
            &Pubkey::new_from_array(pair[1]),
        );
        let ours = derive_associated_token_account(
            &PublicKey { bytes: pair[0] },
            &PublicKey { bytes: pair[1] },
        );
        assert_eq!(ours, Some(PublicKey { bytes: theirs.to_bytes() }));
    }
}

#[test]
fn key_texts_are_those_of_the_ledger_crate() {
    for bytes in samples() {
        let text = Pubkey::new_from_array(bytes).to_string();
        assert_eq!(decode_public_key(&text), Ok(PublicKey { bytes }));
        let instruction =
            Instruction { program_id: PublicKey { bytes }, accounts: vec![], data: vec![] };
        assert_eq!(normalize(&instruction).program_id, text);
    }
}

#[test]
fn key_pairs_are_accepted_as_the_ledger_crate_accepts_them() {
    let seeds = samples();
    for pair in seeds.windows(2) {
        let honest = Keypair::new_from_array(pair[0]);
        let text = honest.to_base58_string();
        let decoded = decode_key_pair(&text).unwrap();
        assert_eq!(decoded.public_key().bytes, honest.pubkey().to_bytes());

        // The same seed with the public key of another seed.
        let other = Keypair::new_from_array(pair[1]);
        let mut bytes = honest.to_bytes();
        bytes[32..].copy_from_slice(&other.pubkey().to_bytes());
        let forged = bs58::encode(&bytes[..]).into_string();
        assert_eq!(Keypair::try_from(&bytes[..]).is_ok(), decode_key_pair(&forged).is_ok());
        assert!(decode_key_pair(&forged).is_err());

        // The same seed with a second half that is no public key at all.
        bytes[32..].copy_from_slice(&pair[1]);
        let garbled = bs58::encode(&bytes[..]).into_string();
        assert_eq!(Keypair::try_from(&bytes[..]).is_ok(), decode_key_pair(&garbled).is_ok());
    }
}

#[test]
fn signatures_are_those_of_the_ledger_crate() {
    for seed in samples() {
        let theirs = Keypair::new_from_array(seed);
        let ours = decode_key_pair(&theirs.to_base58_string()).unwrap();
        let message = &seed[..17];
        let signature = sign(message, &ours);
        assert_eq!(signature, Signature { bytes: theirs.sign_message(message).into() });
        assert!(verify(&signature, &ours.public_key(), message));
        assert!(!verify(&signature, &ours.public_key(), &seed[..16]));
    }
}

#[test]
fn sign_message_signs_the_utf8_bytes() {
    let pair = Keypair::new_from_array([7u8; 32]);
    let message = "żółć — 42";
    let answer = sign_message(SignMessageRequest {
        message: message.to_string(),
        secret: pair.to_base58_string(),
    })
    .unwrap();
    let expected: [u8; 64] = pair.sign_message(message.as_bytes()).into();
    assert_eq!(
        answer.signature,
        base64::Engine::encode(&base64::engine::general_purpose::STANDARD, expected)
    );
    assert_eq!(answer.public_key, pair.pubkey().to_string());
}

#[test]
fn instructions_are_those_of_the_ledger_crates() {
    let keys = samples();
    for (i, triple) in keys.windows(3).enumerate() {
        let amount = (i as u64).wrapping_mul(0x0123_4567_89ab_cdef);
        let [a, b, c] = [triple[0], triple[1], triple[2]];
        let (ka, kb, kc) = (PublicKey { bytes: a }, PublicKey { bytes: b }, PublicKey { bytes: c });
        let (pa, pb, pc) =
            (Pubkey::new_from_array(a), Pubkey::new_from_array(b), Pubkey::new_from_array(c));

        let theirs = solana_program::system_instruction::transfer(&pa, &pb, amount);
        assert!(same(&build_sol_transfer(&ka, &kb, amount), &theirs));

        let theirs = spl_token::instruction::initialize_mint(
            &spl_token::id(),
            &pa,
            &pb,
            Some(&pc),
            i as u8,
        )
        .unwrap();
        assert!(same(&build_initialize_mint(&ka, &kb, Some(kc), i as u8).unwrap(), &theirs));

        let theirs =
            spl_token::instruction::mint_to(&spl_token::id(), &pa, &pb, &pc, &[], amount).unwrap();
        assert!(same(&build_mint_to(&ka, &kb, &kc, amount).unwrap(), &theirs));

        let source = spl_associated_token_account::get_associated_token_address(&pb, &pa);
        let destination = spl_associated_token_account::get_associated_token_address(&pc, &pa);
        let theirs = spl_token::instruction::transfer(
            &spl_token::id(),
            &source,
            &destination,
            &pb,
            &[],
            amount,
        )
        .unwrap();
        assert!(same(&build_token_transfer(&ka, &kb, &kc, amount).unwrap(), &theirs));
    }
}
