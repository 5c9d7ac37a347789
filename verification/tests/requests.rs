use base64::Engine;
use sol_primitives::error::ApiError;
use sol_primitives::handlers::token::{create_token, mint_token};
use sol_primitives::handlers::transfer::{send_sol, send_token};
use sol_primitives::models::{
    AccountInfo, CreateTokenRequest, InstructionData, MintTokenRequest, SendSolRequest,
    SendTokenRequest, SolTransferData, TokenAccountInfo, TokenTransferData,
};

const ALICE: &str = "FVen3X669xLzsi6N2V91DoiyzHzg1uAgqiT8jZ9nS96Z";
const BOB: &str = "586Z7H2vpX9qNhN2T4e9Utugie3ogjbxzGaMtM3E6HR5";
const MINT: &str = "So11111111111111111111111111111111111111112";
const ALICE_TOKEN_ACCOUNT: &str = "43QbFUJCc1TjAMeUYQnDmDejbwnKz7c9UtZzpMHxWgVx";
const BOB_TOKEN_ACCOUNT: &str = "HdhjYyvuagmX8ULoBN5CeHyFXKpkfWBGcqRCe3MXTaCA";
const SYSTEM_PROGRAM: &str = "11111111111111111111111111111111";
const TOKEN_PROGRAM: &str = "TokenkegQfeZyiNwAJbNbGKPFXCWuBvf9Ss623VQ5DA";
const RENT_SYSVAR: &str = "SysvarRent111111111111111111111111111111111";
const WITH_ZERO: &str = "0Ven3X669xLzsi6N2V91DoiyzHzg1uAgqiT8jZ9nS96Z";
// Valid base58, but of a key pair, not of a key.
const TOO_LONG: &str =
    "49W385L4rePHy6PAaQUovbD2aacgN4HsKXSMeUzRg4fmwXszN91JuMFrQRj3vMDpZuRF3ZknQBuRBoWQJEfXstMw";

fn sol(from: &str, to: &str, lamports: u64) -> SendSolRequest {
    SendSolRequest { from: from.to_string(), to: to.to_string(), lamports }
}

fn token(destination: &str, mint: &str, owner: &str, amount: u64) -> SendTokenRequest {
    SendTokenRequest {
        destination: destination.to_string(),
        mint: mint.to_string(),
        owner: owner.to_string(),
        amount,
    }
}

fn mint(mint: &str, destination: &str, authority: &str, amount: u64) -> MintTokenRequest {
    MintTokenRequest {
        mint: mint.to_string(),
        destination: destination.to_string(),
        authority: authority.to_string(),
        amount,
    }
}

fn create(mint_authority: &str, mint: &str, decimals: u8) -> CreateTokenRequest {
    CreateTokenRequest {
        mint_authority: mint_authority.to_string(),
        mint: mint.to_string(),
        decimals,
    }
}

fn info(pubkey: &str, is_signer: bool, is_writable: bool) -> AccountInfo {
    AccountInfo { pubkey: pubkey.to_string(), is_signer, is_writable }
}

#[test]
fn send_sol_answers_with_the_normalized_transfer() {
    assert_eq!(
        send_sol(sol(ALICE, BOB, 1_000_000)),
        Ok(SolTransferData {
            program_id: SYSTEM_PROGRAM.to_string(),
            accounts: vec![ALICE.to_string(), BOB.to_string()],
            instruction_data: "AgAAAEBCDwAAAAAA".to_string(),
        })
    );
}

#[test]
fn send_sol_payload_decodes_to_the_amount() {
    let answer = send_sol(sol(ALICE, BOB, 1_000_000)).unwrap();
    let data = base64::engine::general_purpose::STANDARD.decode(&answer.instruction_data).unwrap();
    let mut last = [0u8; 8];
    last.copy_from_slice(&data[data.len() - 8..]);
    assert_eq!(u64::from_le_bytes(last), 1_000_000);
}

#[test]
fn send_sol_never_swaps_the_accounts() {
    let there = send_sol(sol(ALICE, BOB, 5)).unwrap();
    let back = send_sol(sol(BOB, ALICE, 5)).unwrap();
    assert_eq!(there.accounts, vec![ALICE.to_string(), BOB.to_string()]);
    assert_eq!(back.accounts, vec![BOB.to_string(), ALICE.to_string()]);
}

#[test]
fn send_sol_refuses_a_zero_amount() {
    assert_eq!(send_sol(sol(ALICE, BOB, 0)), Err(ApiError::MissingRequiredFields));
    // The amount is looked at before the keys are.
    assert_eq!(send_sol(sol(WITH_ZERO, BOB, 0)), Err(ApiError::MissingRequiredFields));
}

#[test]
fn send_sol_refuses_empty_fields() {
    assert_eq!(send_sol(sol("", BOB, 1)), Err(ApiError::MissingRequiredFields));
    assert_eq!(send_sol(sol(ALICE, "", 1)), Err(ApiError::MissingRequiredFields));
    assert_eq!(send_sol(sol(WITH_ZERO, "", 1)), Err(ApiError::MissingRequiredFields));
}

#[test]
fn send_sol_refuses_a_bad_key() {
    assert_eq!(send_sol(sol(WITH_ZERO, BOB, 1)), Err(ApiError::InvalidInputEncoding));
    assert_eq!(send_sol(sol(ALICE, WITH_ZERO, 1)), Err(ApiError::InvalidInputEncoding));
    assert_eq!(send_sol(sol(TOO_LONG, BOB, 1)), Err(ApiError::InvalidInputEncoding));
    assert_eq!(send_sol(sol(ALICE, "abc", 1)), Err(ApiError::InvalidInputEncoding));
}

#[test]
fn send_sol_takes_the_largest_amount() {
    let answer = send_sol(sol(ALICE, BOB, u64::MAX)).unwrap();
    assert_eq!(answer.instruction_data, "AgAAAP//////////");
}

#[test]
fn send_token_answers_with_the_normalized_transfer() {
    let account =
        |pubkey: &str, is_signer: bool| TokenAccountInfo { pubkey: pubkey.to_string(), is_signer };
    assert_eq!(
        send_token(token(BOB, MINT, ALICE, 42)),
        Ok(TokenTransferData {
            program_id: TOKEN_PROGRAM.to_string(),
            accounts: vec![
                account(ALICE_TOKEN_ACCOUNT, false),
                account(BOB_TOKEN_ACCOUNT, false),
                account(ALICE, true),
            ],
            instruction_data: "AyoAAAAAAAAA".to_string(),
        })
    );
}

#[test]
fn send_token_refuses_a_zero_amount() {
    assert_eq!(send_token(token(BOB, MINT, ALICE, 0)), Err(ApiError::MissingRequiredFields));
    assert_eq!(send_token(token(BOB, WITH_ZERO, ALICE, 0)), Err(ApiError::MissingRequiredFields));
}

#[test]
fn send_token_refuses_empty_fields() {
    assert_eq!(send_token(token("", MINT, ALICE, 1)), Err(ApiError::MissingRequiredFields));
    assert_eq!(send_token(token(BOB, "", ALICE, 1)), Err(ApiError::MissingRequiredFields));
    assert_eq!(send_token(token(BOB, MINT, "", 1)), Err(ApiError::MissingRequiredFields));
}

#[test]
fn send_token_refuses_a_bad_key() {
    assert_eq!(send_token(token(WITH_ZERO, MINT, ALICE, 1)), Err(ApiError::InvalidInputEncoding));
    assert_eq!(send_token(token(BOB, WITH_ZERO, ALICE, 1)), Err(ApiError::InvalidInputEncoding));
    assert_eq!(send_token(token(BOB, MINT, WITH_ZERO, 1)), Err(ApiError::InvalidInputEncoding));
}

#[test]
fn create_token_answers_with_the_normalized_initialisation() {
    assert_eq!(
        create_token(create(ALICE, MINT, 9)),
        Ok(InstructionData {
            program_id: TOKEN_PROGRAM.to_string(),
            accounts: vec![info(MINT, false, true), info(RENT_SYSVAR, false, false)],
            instruction_data: "AAnXWpgBgrEKt9VL/tPJZAc6DuFy89qmIyWvAhpo9wdRGgHXWpgBgrEKt9VL/tPJZAc6\
                               DuFy89qmIyWvAhpo9wdRGg=="
                .to_string(),
        })
    );
}

#[test]
fn create_token_takes_zero_decimals() {
    let answer = create_token(create(ALICE, MINT, 0)).unwrap();
    let data = base64::engine::general_purpose::STANDARD.decode(&answer.instruction_data).unwrap();
    assert_eq!(data[..2], [0, 0]);
    assert_eq!(data[34], 1);
    assert_eq!(data[2..34], data[35..67]);
}

#[test]
fn create_token_refuses_empty_fields() {
    assert_eq!(create_token(create("", MINT, 9)), Err(ApiError::MissingRequiredFields));
    assert_eq!(create_token(create(ALICE, "", 9)), Err(ApiError::MissingRequiredFields));
}

#[test]
fn create_token_refuses_a_bad_key() {
    assert_eq!(create_token(create(WITH_ZERO, MINT, 9)), Err(ApiError::InvalidInputEncoding));
    assert_eq!(create_token(create(ALICE, WITH_ZERO, 9)), Err(ApiError::InvalidInputEncoding));
}

#[test]
fn mint_token_answers_with_the_normalized_minting() {
    assert_eq!(
        mint_token(mint(MINT, BOB, ALICE, 500)),
        Ok(InstructionData {
            program_id: TOKEN_PROGRAM.to_string(),
            accounts: vec![
                info(MINT, false, true),
                info(BOB, false, true),
                info(ALICE, true, false),
            ],
            instruction_data: "B/QBAAAAAAAA".to_string(),
        })
    );
}

#[test]
fn mint_token_refuses_a_zero_amount() {
    assert_eq!(mint_token(mint(MINT, BOB, ALICE, 0)), Err(ApiError::MissingRequiredFields));
    assert_eq!(mint_token(mint(WITH_ZERO, BOB, ALICE, 0)), Err(ApiError::MissingRequiredFields));
}

#[test]
fn mint_token_refuses_empty_fields() {
    assert_eq!(mint_token(mint("", BOB, ALICE, 1)), Err(ApiError::MissingRequiredFields));
    assert_eq!(mint_token(mint(MINT, "", ALICE, 1)), Err(ApiError::MissingRequiredFields));
    assert_eq!(mint_token(mint(MINT, BOB, "", 1)), Err(ApiError::MissingRequiredFields));
}

#[test]
fn mint_token_refuses_a_bad_key() {
    assert_eq!(mint_token(mint(WITH_ZERO, BOB, ALICE, 1)), Err(ApiError::InvalidInputEncoding));
    assert_eq!(mint_token(mint(MINT, WITH_ZERO, ALICE, 1)), Err(ApiError::InvalidInputEncoding));
    assert_eq!(mint_token(mint(MINT, BOB, WITH_ZERO, 1)), Err(ApiError::InvalidInputEncoding));
}
