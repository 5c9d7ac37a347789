//! Moving the native asset and moving tokens.

use vstd::prelude::*;
use crate::codec::is_base58;
use crate::error::{outcome, ApiError};
use crate::builder::{build_sol_transfer, build_token_transfer, spec_build_token_transfer};
use crate::layout::sol_transfer_layout;
use crate::keys::{decode_public_key, pubkey_to_text, spec_decode_public_key};
use crate::models::{
    SendSolRequest, SendTokenRequest, SolTransferData, SolTransferDataView, TokenTransferData,
    TokenTransferDataView,
};
use crate::response::{
    sol_transfer_data, spec_sol_transfer_data, spec_token_transfer_data, token_transfer_data,
};

verus! {

/// What [`send_sol`] answers: both keys must be there and the amount must not
/// be zero; the payer is decoded first, then the recipient.
pub open spec fn spec_send_sol(from: Seq<char>, to: Seq<char>, lamports: u64) -> Result<
    SolTransferDataView,
    ApiError,
> {
    if from.len() == 0 || to.len() == 0 || lamports == 0 {
        Err(ApiError::MissingRequiredFields)
    } else {
        match spec_decode_public_key(from) {
            Err(e) => Err(e),
            Ok(from_key) => match spec_decode_public_key(to) {
                Err(e) => Err(e),
                Ok(to_key) => Ok(
                    spec_sol_transfer_data(sol_transfer_layout(from_key, to_key, lamports)),
                ),
            },
        }
    }
}

/// What [`send_token`] answers: the three keys must be there and the amount
/// must not be zero; the keys are decoded in the order mint, owner,
/// destination; the token accounts of the two owners are derived.
pub open spec fn spec_send_token(
    destination: Seq<char>,
    mint: Seq<char>,
    owner: Seq<char>,
    amount: u64,
) -> Result<TokenTransferDataView, ApiError> {
    if destination.len() == 0 || mint.len() == 0 || owner.len() == 0 || amount == 0 {
        Err(ApiError::MissingRequiredFields)
    } else {
        match spec_decode_public_key(mint) {
            Err(e) => Err(e),
            Ok(mint_key) => match spec_decode_public_key(owner) {
                Err(e) => Err(e),
                Ok(owner_key) => match spec_decode_public_key(destination) {
                    Err(e) => Err(e),
                    Ok(destination_key) => match spec_build_token_transfer(
                        mint_key,
                        owner_key,
                        destination_key,
                        amount,
                    ) {
                        Err(e) => Err(e),
                        Ok(instruction) => Ok(spec_token_transfer_data(instruction)),
                    },
                },
            },
        }
    }
}

/// A transfer of nothing is refused whatever the keys are, before any of them
/// is decoded and before any instruction is built.
pub proof fn lemma_zero_amount_is_refused(
    from: Seq<char>,
    to: Seq<char>,
    destination: Seq<char>,
    mint: Seq<char>,
    owner: Seq<char>,
)
    ensures
        spec_send_sol(from, to, 0) == Err::<SolTransferDataView, ApiError>(
            ApiError::MissingRequiredFields,
        ),
        spec_send_token(destination, mint, owner, 0) == Err::<TokenTransferDataView, ApiError>(
            ApiError::MissingRequiredFields,
        ),
{
}

/// A native transfer that is granted lists exactly two accounts: the payer's
/// key first and the recipient's second.
pub proof fn lemma_payer_comes_first(from: Seq<char>, to: Seq<char>, lamports: u64)
    requires
        spec_send_sol(from, to, lamports) is Ok,
    ensures
        spec_decode_public_key(from) is Ok,
        spec_decode_public_key(to) is Ok,
        spec_send_sol(from, to, lamports).unwrap().accounts == seq![
            pubkey_to_text(spec_decode_public_key(from).unwrap()),
            pubkey_to_text(spec_decode_public_key(to).unwrap()),
        ],
{
    let from_key = spec_decode_public_key(from).unwrap();
    let to_key = spec_decode_public_key(to).unwrap();
    assert(spec_send_sol(from, to, lamports).unwrap().accounts =~= seq![
        pubkey_to_text(from_key),
        pubkey_to_text(to_key),
    ]);
}

/// Builds the native transfer of a request.
pub fn send_sol(req: SendSolRequest) -> (r: Result<SolTransferData, ApiError>)
    ensures
        outcome(r) == spec_send_sol(req.from@, req.to@, req.lamports),
        req.from@.len() > 0 && req.to@.len() > 0 && req.lamports > 0 && !(is_base58(req.from@)
            && is_base58(req.to@)) ==> r == Err::<SolTransferData, ApiError>(
            ApiError::InvalidInputEncoding,
        ),
{
    if req.from.as_str().is_empty() || req.to.as_str().is_empty() || req.lamports == 0 {
        return Err(ApiError::MissingRequiredFields);
    }
    let from = match decode_public_key(req.from.as_str()) {
        Ok(key) => key,
        Err(e) => {
            return Err(e);
        },
    };
    let to = match decode_public_key(req.to.as_str()) {
        Ok(key) => key,
        Err(e) => {
            return Err(e);
        },
    };
    let instruction = build_sol_transfer(&from, &to, req.lamports);
    Ok(sol_transfer_data(&instruction))
}

/// Builds the token transfer of a request.
pub fn send_token(req: SendTokenRequest) -> (r: Result<TokenTransferData, ApiError>)
    ensures
        outcome(r) == spec_send_token(req.destination@, req.mint@, req.owner@, req.amount),
        req.destination@.len() > 0 && req.mint@.len() > 0 && req.owner@.len() > 0 && req.amount
            > 0 && !(is_base58(req.destination@) && is_base58(req.mint@) && is_base58(req.owner@))
            ==> r == Err::<TokenTransferData, ApiError>(ApiError::InvalidInputEncoding),
{
    if req.destination.as_str().is_empty() || req.mint.as_str().is_empty()
        || req.owner.as_str().is_empty() || req.amount == 0 {
        return Err(ApiError::MissingRequiredFields);
    }
    let mint = match decode_public_key(req.mint.as_str()) {
        Ok(key) => key,
        Err(e) => {
            return Err(e);
        },
    };
    let owner = match decode_public_key(req.owner.as_str()) {
        Ok(key) => key,
        Err(e) => {
            return Err(e);
        },
    };
    let destination = match decode_public_key(req.destination.as_str()) {
        Ok(key) => key,
        Err(e) => {
            return Err(e);
        },
    };
    let instruction = match build_token_transfer(&mint, &owner, &destination, req.amount) {
        Ok(instruction) => instruction,
        Err(e) => {
            return Err(e);
        },
    };
    Ok(token_transfer_data(&instruction))
}

} // verus!
