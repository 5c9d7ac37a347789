//! Initialising a mint and minting tokens.

use vstd::prelude::*;
use crate::codec::is_base58;
use crate::error::{outcome, ApiError};
use crate::builder::{build_initialize_mint, build_mint_to};
use crate::layout::{initialize_mint_layout, mint_to_layout, token_program_id};
use crate::keys::{decode_public_key, spec_decode_public_key};
use crate::models::{CreateTokenRequest, InstructionData, InstructionDataView, MintTokenRequest};
use crate::response::{normalize, spec_normalize};

verus! {

/// What [`create_token`] answers: both keys must be there; the authority is
/// decoded first, then the mint; the authority is also made the freeze
/// authority.
pub open spec fn spec_create_token(
    mint_authority: Seq<char>,
    mint: Seq<char>,
    decimals: u8,
) -> Result<InstructionDataView, ApiError> {
    if mint_authority.len() == 0 || mint.len() == 0 {
        Err(ApiError::MissingRequiredFields)
    } else {
        match spec_decode_public_key(mint_authority) {
            Err(e) => Err(e),
            Ok(authority_key) => match spec_decode_public_key(mint) {
                Err(e) => Err(e),
                Ok(mint_key) => Ok(
                    spec_normalize(
                        initialize_mint_layout(
                            token_program_id(),
                            mint_key,
                            authority_key,
                            Some(authority_key),
                            decimals,
                        ),
                    ),
                ),
            },
        }
    }
}

/// What [`mint_token`] answers: the three keys must be there and the amount
/// must not be zero; the keys are decoded in the order mint, destination,
/// authority.
pub open spec fn spec_mint_token(
    mint: Seq<char>,
    destination: Seq<char>,
    authority: Seq<char>,
    amount: u64,
) -> Result<InstructionDataView, ApiError> {
    if mint.len() == 0 || destination.len() == 0 || authority.len() == 0 || amount == 0 {
        Err(ApiError::MissingRequiredFields)
    } else {
        match spec_decode_public_key(mint) {
            Err(e) => Err(e),
            Ok(mint_key) => match spec_decode_public_key(destination) {
                Err(e) => Err(e),
                Ok(destination_key) => match spec_decode_public_key(authority) {
                    Err(e) => Err(e),
                    Ok(authority_key) => Ok(
                        spec_normalize(
                            mint_to_layout(
                                token_program_id(),
                                mint_key,
                                destination_key,
                                authority_key,
                                Seq::<Seq<u8>>::empty(),
                                amount,
                            ),
                        ),
                    ),
                },
            },
        }
    }
}

/// The minting of nothing is refused whatever the keys are, before any of
/// them is decoded and before any instruction is built.
pub proof fn lemma_zero_amount_is_refused(
    mint: Seq<char>,
    destination: Seq<char>,
    authority: Seq<char>,
)
    ensures
        spec_mint_token(mint, destination, authority, 0) == Err::<InstructionDataView, ApiError>(
            ApiError::MissingRequiredFields,
        ),
{
}

/// Builds the instruction that initialises the mint of a request.
pub fn create_token(req: CreateTokenRequest) -> (r: Result<InstructionData, ApiError>)
    ensures
        outcome(r) == spec_create_token(req.mint_authority@, req.mint@, req.decimals),
        req.mint_authority@.len() > 0 && req.mint@.len() > 0 && !(is_base58(req.mint_authority@)
            && is_base58(req.mint@)) ==> r == Err::<InstructionData, ApiError>(
            ApiError::InvalidInputEncoding,
        ),
{
    if req.mint_authority.as_str().is_empty() || req.mint.as_str().is_empty() {
        return Err(ApiError::MissingRequiredFields);
    }
    let mint_authority = match decode_public_key(req.mint_authority.as_str()) {
        Ok(key) => key,
        Err(e) => {
            return Err(e);
        },
    };
    let mint = match decode_public_key(req.mint.as_str()) {
        Ok(key) => key,
        Err(e) => {
            return Err(e);
        },
    };
    match build_initialize_mint(&mint, &mint_authority, Some(mint_authority), req.decimals) {
        Ok(instruction) => Ok(normalize(&instruction)),
        Err(e) => Err(e),
    }
}

/// Builds the instruction that mints the amount of a request.
pub fn mint_token(req: MintTokenRequest) -> (r: Result<InstructionData, ApiError>)
    ensures
        outcome(r) == spec_mint_token(req.mint@, req.destination@, req.authority@, req.amount),
        req.mint@.len() > 0 && req.destination@.len() > 0 && req.authority@.len() > 0 && req.amount
            > 0 && !(is_base58(req.mint@) && is_base58(req.destination@) && is_base58(
            req.authority@,
        )) ==> r == Err::<InstructionData, ApiError>(ApiError::InvalidInputEncoding),
{
    if req.mint.as_str().is_empty() || req.destination.as_str().is_empty()
        || req.authority.as_str().is_empty() || req.amount == 0 {
        return Err(ApiError::MissingRequiredFields);
    }
    let mint = match decode_public_key(req.mint.as_str()) {
        Ok(key) => key,
        Err(e) => {
            return Err(e);
        },
    };
    let destination = match decode_public_key(req.destination.as_str()) {
        Ok(key) => key,
        Err(e) => {
            return Err(e);
        },
    };
    let authority = match decode_public_key(req.authority.as_str()) {
        Ok(key) => key,
        Err(e) => {
            return Err(e);
        },
    };
    match build_mint_to(&mint, &destination, &authority, req.amount) {
        Ok(instruction) => Ok(normalize(&instruction)),
        Err(e) => Err(e),
    }
}

} // verus!
