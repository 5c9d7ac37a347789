//! Building the four supported instructions.
//!
//! The instructions are made by the ledger's own constructors. What is
//! verified here is that the library hands them the right arguments, and that
//! what comes back has the published layout.

use vstd::prelude::*;
use vstd::slice::slice_to_vec;
use crate::error::{found, outcome, ApiError};
use crate::instruction::{byte_views, key_views, AccountMeta, Instruction, InstructionView};
use crate::keys::PublicKey;
use crate::layout::{
    associated_token_program_id, initialize_mint_layout, mint_to_layout, sol_transfer_layout,
    token_program_id, token_transfer_layout,
};
use solana_program::pubkey::Pubkey;

verus! {

/// The error of the token program's instruction constructors, carried
/// through unread.
#[verifier::external_type_specification]
#[verifier::external_body]
pub struct ExProgramError(solana_program::program_error::ProgramError);

/// The program-derived address for `seeds` under `program`, with the bump
/// seed that was found for it, or `None` where the search finds none.
pub uninterp spec fn program_address(seeds: Seq<Seq<u8>>, program: Seq<u8>) -> Option<
    (Seq<u8>, u8),
>;

/// Calls `solana_program::system_instruction::transfer`.
///
/// Trusted: the instruction has the layout of [`sol_transfer_layout`]. The
/// constructor lists the payer as a writable signer and the recipient as
/// writable, and serialises the transfer variant, the third of the system
/// program's instructions, with bincode: a four-byte tag, then the amount.
#[verifier::external_body]
fn system_transfer(from: &PublicKey, to: &PublicKey, lamports: u64) -> (ix: Instruction)
    ensures
        ix@ == sol_transfer_layout(from@, to@, lamports),
{
    let raw =
        solana_program::system_instruction::transfer(&from.bytes.into(), &to.bytes.into(), lamports);
    Instruction::new(
        raw.program_id.to_bytes(),
        raw.accounts.iter().map(|a| AccountMeta::new(a.pubkey.to_bytes(), a.is_signer, a.is_writable))
            .collect(),
        raw.data,
    )
}

/// Calls `spl_token::id`.
///
/// Trusted: the address is the pinned [`token_program_id`].
#[verifier::external_body]
fn token_program() -> (key: PublicKey)
    ensures
        key@ == token_program_id(),
{
    PublicKey { bytes: spl_token::id().to_bytes() }
}

/// Calls `spl_associated_token_account::id`.
///
/// Trusted: the address is the pinned [`associated_token_program_id`].
#[verifier::external_body]
fn associated_token_program() -> (key: PublicKey)
    ensures
        key@ == associated_token_program_id(),
{
    PublicKey { bytes: spl_associated_token_account::id().to_bytes() }
}

/// Calls `spl_token::instruction::initialize_mint`.
///
/// Trusted: the constructor fails exactly when `program` is not the token
/// program, and otherwise gives the layout of [`initialize_mint_layout`].
#[verifier::external_body]
fn token_initialize_mint(
    program: &PublicKey,
    mint: &PublicKey,
    mint_authority: &PublicKey,
    freeze_authority: Option<PublicKey>,
    decimals: u8,
) -> (r: Result<Instruction, solana_program::program_error::ProgramError>)
    ensures
        r is Ok <==> program@ == token_program_id(),
        r matches Ok(ix) ==> ix@ == initialize_mint_layout(
            program@,
            mint@,
            mint_authority@,
            found(freeze_authority),
            decimals,
        ),
{
    let freeze: Option<Pubkey> = freeze_authority.map(|k| k.bytes.into());
    spl_token::instruction::initialize_mint(
        &program.bytes.into(),
        &mint.bytes.into(),
        &mint_authority.bytes.into(),
        freeze.as_ref(),
        decimals,
    ).map(|raw| Instruction::new(
        raw.program_id.to_bytes(),
        raw.accounts.iter().map(|a| AccountMeta::new(a.pubkey.to_bytes(), a.is_signer, a.is_writable))
            .collect(),
        raw.data,
    ))
}

/// Calls `spl_token::instruction::mint_to`.
///
/// Trusted: the constructor fails exactly when `program` is not the token
/// program, and otherwise gives the layout of [`mint_to_layout`].
#[verifier::external_body]
fn token_mint_to(
    program: &PublicKey,
    mint: &PublicKey,
    destination: &PublicKey,
    authority: &PublicKey,
    signers: &Vec<PublicKey>,
    amount: u64,
) -> (r: Result<Instruction, solana_program::program_error::ProgramError>)
    ensures
        r is Ok <==> program@ == token_program_id(),
        r matches Ok(ix) ==> ix@ == mint_to_layout(
            program@,
            mint@,
            destination@,
            authority@,
            key_views(signers@),
            amount,
        ),
{
    let keys: Vec<Pubkey> = signers.iter().map(|k| k.bytes.into()).collect();
    let refs: Vec<&Pubkey> = keys.iter().collect();
    let (program, mint) = (program.bytes.into(), mint.bytes.into());
    let (destination, authority) = (destination.bytes.into(), authority.bytes.into());
    spl_token::instruction::mint_to(&program, &mint, &destination, &authority, &refs, amount).map(
        |raw| Instruction::new(
            raw.program_id.to_bytes(),
            raw.accounts.iter().map(|a| AccountMeta::new(a.pubkey.to_bytes(), a.is_signer, a.is_writable))
                .collect(),
            raw.data,
        ),
    )
}

/// Calls `spl_token::instruction::transfer`.
///
/// Trusted: the constructor fails exactly when `program` is not the token
/// program, and otherwise gives the layout of [`token_transfer_layout`].
#[verifier::external_body]
fn token_transfer(
    program: &PublicKey,
    source: &PublicKey,
    destination: &PublicKey,
    authority: &PublicKey,
    signers: &Vec<PublicKey>,
    amount: u64,
) -> (r: Result<Instruction, solana_program::program_error::ProgramError>)
    ensures
        r is Ok <==> program@ == token_program_id(),
        r matches Ok(ix) ==> ix@ == token_transfer_layout(
            program@,
            source@,
            destination@,
            authority@,
            key_views(signers@),
            amount,
        ),
{
    let keys: Vec<Pubkey> = signers.iter().map(|k| k.bytes.into()).collect();
    let refs: Vec<&Pubkey> = keys.iter().collect();
    let (program, source) = (program.bytes.into(), source.bytes.into());
    let (destination, authority) = (destination.bytes.into(), authority.bytes.into());
    spl_token::instruction::transfer(&program, &source, &destination, &authority, &refs, amount).map(
        |raw| Instruction::new(
            raw.program_id.to_bytes(),
            raw.accounts.iter().map(|a| AccountMeta::new(a.pubkey.to_bytes(), a.is_signer, a.is_writable))
                .collect(),
            raw.data,
        ),
    )
}

/// Calls `Pubkey::try_find_program_address` of `solana_program::pubkey`.
///
/// Trusted: the outcome is a function of the seeds and the program address
/// alone, which [`program_address`] names. The search hashes the seeds with
/// one bump seed after another and keeps the first hash that is no point of
/// the curve.
#[verifier::external_body]
fn find_program_address(seeds: &Vec<Vec<u8>>, program: &PublicKey) -> (r: Option<(PublicKey, u8)>)
    ensures
        r matches Some(hit) ==> program_address(byte_views(seeds@), program@) == Some(
            (hit.0@, hit.1),
        ),
        r is None ==> program_address(byte_views(seeds@), program@) is None,
{
    let parts: Vec<&[u8]> = seeds.iter().map(|s| s.as_slice()).collect();
    Pubkey::try_find_program_address(&parts, &program.bytes.into()).map(
        |(key, bump)| (PublicKey { bytes: key.to_bytes() }, bump),
    )
}

/// The seeds from which the token account of `owner` for `mint` is derived.
pub open spec fn associated_token_seeds(owner: Seq<u8>, mint: Seq<u8>) -> Seq<Seq<u8>> {
    seq![owner, token_program_id(), mint]
}

/// The address of the token account that belongs to `owner` for the tokens
/// of `mint`. It depends on the two keys and on nothing else.
pub open spec fn associated_token_account(owner: Seq<u8>, mint: Seq<u8>) -> Option<Seq<u8>> {
    match program_address(associated_token_seeds(owner, mint), associated_token_program_id()) {
        Some(hit) => Some(hit.0),
        None => None,
    }
}

/// What [`build_token_transfer`] returns.
pub open spec fn spec_build_token_transfer(
    mint: Seq<u8>,
    owner: Seq<u8>,
    destination_owner: Seq<u8>,
    amount: u64,
) -> Result<InstructionView, ApiError> {
    match (associated_token_account(owner, mint), associated_token_account(destination_owner, mint)) {
        (Some(source), Some(destination)) => Ok(
            token_transfer_layout(
                token_program_id(),
                source,
                destination,
                owner,
                Seq::<Seq<u8>>::empty(),
                amount,
            ),
        ),
        _ => Err(ApiError::ConstructionError),
    }
}

/// Deriving a token account is a function of the owner and the mint: any two
/// answers that [`derive_associated_token_account`] may give for one pair are
/// the same address, or both none.
pub proof fn lemma_derivation_is_a_function(
    owner: Seq<u8>,
    mint: Seq<u8>,
    first: Option<PublicKey>,
    second: Option<PublicKey>,
)
    requires
        found(first) == associated_token_account(owner, mint),
        found(second) == associated_token_account(owner, mint),
    ensures
        found(first) == found(second),
{
}

/// Builds the native transfer of `lamports` from `from` to `to`.
pub fn build_sol_transfer(from: &PublicKey, to: &PublicKey, lamports: u64) -> (ix: Instruction)
    ensures
        ix@ == sol_transfer_layout(from@, to@, lamports),
{
    system_transfer(from, to, lamports)
}

/// Builds the initialisation of `mint` with the given authorities and number
/// of decimals. The token program's constructor accepts every such request.
pub fn build_initialize_mint(
    mint: &PublicKey,
    mint_authority: &PublicKey,
    freeze_authority: Option<PublicKey>,
    decimals: u8,
) -> (r: Result<Instruction, ApiError>)
    ensures
        outcome(r) == Ok::<InstructionView, ApiError>(
            initialize_mint_layout(
                token_program_id(),
                mint@,
                mint_authority@,
                found(freeze_authority),
                decimals,
            ),
        ),
{
    let program = token_program();
    match token_initialize_mint(&program, mint, mint_authority, freeze_authority, decimals) {
        Ok(ix) => Ok(ix),
        Err(_) => Err(ApiError::ConstructionError),
    }
}

/// Builds the minting of `amount` tokens of `mint` into the token account
/// `destination`, authorised by `authority` alone.
pub fn build_mint_to(
    mint: &PublicKey,
    destination: &PublicKey,
    authority: &PublicKey,
    amount: u64,
) -> (r: Result<Instruction, ApiError>)
    ensures
        outcome(r) == Ok::<InstructionView, ApiError>(
            mint_to_layout(
                token_program_id(),
                mint@,
                destination@,
                authority@,
                Seq::<Seq<u8>>::empty(),
                amount,
            ),
        ),
{
    let program = token_program();
    let signers: Vec<PublicKey> = Vec::new();
    assert(key_views(signers@) =~= Seq::<Seq<u8>>::empty());
    match token_mint_to(&program, mint, destination, authority, &signers, amount) {
        Ok(ix) => Ok(ix),
        Err(_) => Err(ApiError::ConstructionError),
    }
}

/// Derives the address of the token account that belongs to `owner` for the
/// tokens of `mint`. `None` means that no address exists for the pair.
pub fn derive_associated_token_account(owner: &PublicKey, mint: &PublicKey) -> (r: Option<PublicKey>)
    ensures
        found(r) == associated_token_account(owner@, mint@),
{
    let token = token_program();
    let program = associated_token_program();
    let mut seeds: Vec<Vec<u8>> = Vec::new();
    seeds.push(slice_to_vec(owner.bytes.as_slice()));
    seeds.push(slice_to_vec(token.bytes.as_slice()));
    seeds.push(slice_to_vec(mint.bytes.as_slice()));
    assert(byte_views(seeds@) =~= associated_token_seeds(owner@, mint@));
    match find_program_address(&seeds, &program) {
        Some(hit) => Some(hit.0),
        None => None,
    }
}

/// Builds the transfer of `amount` tokens of `mint` from the token account of
/// `owner` to the token account of `destination_owner`, authorised by `owner`
/// alone. Both token accounts are derived, never looked up. The request is
/// refused as [`ApiError::ConstructionError`] where either address does not
/// exist.
pub fn build_token_transfer(
    mint: &PublicKey,
    owner: &PublicKey,
    destination_owner: &PublicKey,
    amount: u64,
) -> (r: Result<Instruction, ApiError>)
    ensures
        outcome(r) == spec_build_token_transfer(mint@, owner@, destination_owner@, amount),
{
    let source = match derive_associated_token_account(owner, mint) {
        Some(key) => key,
        None => {
            return Err(ApiError::ConstructionError);
        },
    };
    let destination = match derive_associated_token_account(destination_owner, mint) {
        Some(key) => key,
        None => {
            return Err(ApiError::ConstructionError);
        },
    };
    let program = token_program();
    let signers: Vec<PublicKey> = Vec::new();
    assert(key_views(signers@) =~= Seq::<Seq<u8>>::empty());
    match token_transfer(&program, &source, &destination, owner, &signers, amount) {
        Ok(ix) => Ok(ix),
        Err(_) => Err(ApiError::ConstructionError),
    }
}

} // verus!
