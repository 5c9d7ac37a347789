//! Flattening an instruction into its transport form.
//!
//! Keys become base58 text, the payload becomes standard base64 text, and the
//! accounts keep the instruction's order: none is moved, merged or dropped.

use vstd::prelude::*;
use crate::codec::{base64_encode, base64_text};
use crate::instruction::{AccountMetaView, Instruction, InstructionView};
use crate::keys::{pubkey_text, pubkey_to_text};
use crate::models::{
    AccountInfo, AccountInfoView, InstructionData, InstructionDataView, SolTransferData,
    SolTransferDataView, TokenAccountInfo, TokenAccountInfoView, TokenTransferData,
    TokenTransferDataView,
};

verus! {

/// The transport form of one account, with both of its flags.
pub open spec fn account_info(account: AccountMetaView) -> AccountInfoView {
    AccountInfoView {
        pubkey: pubkey_to_text(account.pubkey),
        is_signer: account.is_signer,
        is_writable: account.is_writable,
    }
}

/// The transport form of one account of a token transfer.
pub open spec fn token_account_info(account: AccountMetaView) -> TokenAccountInfoView {
    TokenAccountInfoView { pubkey: pubkey_to_text(account.pubkey), is_signer: account.is_signer }
}

/// The transport form of an instruction.
pub open spec fn spec_normalize(ix: InstructionView) -> InstructionDataView {
    InstructionDataView {
        program_id: pubkey_to_text(ix.program_id),
        accounts: Seq::new(ix.accounts.len(), |i: int| account_info(ix.accounts[i])),
        instruction_data: base64_text(ix.data),
    }
}

/// The transport form of a native transfer.
pub open spec fn spec_sol_transfer_data(ix: InstructionView) -> SolTransferDataView {
    SolTransferDataView {
        program_id: pubkey_to_text(ix.program_id),
        accounts: Seq::new(ix.accounts.len(), |i: int| pubkey_to_text(ix.accounts[i].pubkey)),
        instruction_data: base64_text(ix.data),
    }
}

/// The transport form of a token transfer.
pub open spec fn spec_token_transfer_data(ix: InstructionView) -> TokenTransferDataView {
    TokenTransferDataView {
        program_id: pubkey_to_text(ix.program_id),
        accounts: Seq::new(ix.accounts.len(), |i: int| token_account_info(ix.accounts[i])),
        instruction_data: base64_text(ix.data),
    }
}

/// Flattens an instruction, keeping every account where it stands.
pub fn normalize(instruction: &Instruction) -> (data: InstructionData)
    ensures
        data@ == spec_normalize(instruction@),
{
    let mut accounts: Vec<AccountInfo> = Vec::new();
    let mut i: usize = 0;
    while i < instruction.accounts.len()
        invariant
            i <= instruction.accounts@.len(),
            accounts@.len() == i,
            forall|j: int| 0 <= j < i ==> accounts@[j]@ == account_info(instruction.accounts@[j]@),
        decreases instruction.accounts@.len() - i,
    {
        let account = &instruction.accounts[i];
        accounts.push(
            AccountInfo {
                pubkey: pubkey_text(&account.pubkey),
                is_signer: account.is_signer,
                is_writable: account.is_writable,
            },
        );
        i += 1;
    }
    let data = InstructionData {
        program_id: pubkey_text(&instruction.program_id),
        accounts,
        instruction_data: base64_encode(instruction.data.as_slice()),
    };
    assert(data@.accounts =~= spec_normalize(instruction@).accounts);
    data
}

/// Flattens a native transfer, listing its accounts by key alone.
pub fn sol_transfer_data(instruction: &Instruction) -> (data: SolTransferData)
    ensures
        data@ == spec_sol_transfer_data(instruction@),
{
    let mut accounts: Vec<String> = Vec::new();
    let mut i: usize = 0;
    while i < instruction.accounts.len()
        invariant
            i <= instruction.accounts@.len(),
            accounts@.len() == i,
            forall|j: int|
                0 <= j < i ==> accounts@[j]@ == pubkey_to_text(instruction.accounts@[j].pubkey@),
        decreases instruction.accounts@.len() - i,
    {
        accounts.push(pubkey_text(&instruction.accounts[i].pubkey));
        i += 1;
    }
    let data = SolTransferData {
        program_id: pubkey_text(&instruction.program_id),
        accounts,
        instruction_data: base64_encode(instruction.data.as_slice()),
    };
    assert(data@.accounts =~= spec_sol_transfer_data(instruction@).accounts);
    data
}

/// Flattens a token transfer, listing each account with its signer flag.
pub fn token_transfer_data(instruction: &Instruction) -> (data: TokenTransferData)
    ensures
        data@ == spec_token_transfer_data(instruction@),
{
    let mut accounts: Vec<TokenAccountInfo> = Vec::new();
    let mut i: usize = 0;
    while i < instruction.accounts.len()
        invariant
            i <= instruction.accounts@.len(),
            accounts@.len() == i,
            forall|j: int|
                0 <= j < i ==> accounts@[j]@ == token_account_info(instruction.accounts@[j]@),
        decreases instruction.accounts@.len() - i,
    {
        let account = &instruction.accounts[i];
        accounts.push(
            TokenAccountInfo { pubkey: pubkey_text(&account.pubkey), is_signer: account.is_signer },
        );
        i += 1;
    }
    let data = TokenTransferData {
        program_id: pubkey_text(&instruction.program_id),
        accounts,
        instruction_data: base64_encode(instruction.data.as_slice()),
    };
    assert(data@.accounts =~= spec_token_transfer_data(instruction@).accounts);
    data
}

} // verus!
