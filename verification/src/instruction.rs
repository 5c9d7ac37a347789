//! Instructions as values.
//!
//! An instruction names the program that will run it, the accounts it
//! touches, in the order the program expects them, and an opaque payload.

use vstd::prelude::*;
use crate::keys::PublicKey;

verus! {

/// One account that an instruction touches.
#[derive(Clone, Copy, Debug, PartialEq, Eq)]
pub struct AccountMeta {
    pub pubkey: PublicKey,
    pub is_signer: bool,
    pub is_writable: bool,
}

impl AccountMeta {
    /// An account reference from its parts.
    pub fn new(pubkey: [u8; 32], is_signer: bool, is_writable: bool) -> (meta: AccountMeta)
        ensures
            meta.pubkey@ == pubkey@,
            meta.is_signer == is_signer,
            meta.is_writable == is_writable,
    {
        AccountMeta { pubkey: PublicKey { bytes: pubkey }, is_signer, is_writable }
    }
}

/// An account reference as a mathematical value.
pub struct AccountMetaView {
    pub pubkey: Seq<u8>,
    pub is_signer: bool,
    pub is_writable: bool,
}

impl View for AccountMeta {
    type V = AccountMetaView;

    open spec fn view(&self) -> AccountMetaView {
        AccountMetaView {
            pubkey: self.pubkey@,
            is_signer: self.is_signer,
            is_writable: self.is_writable,
        }
    }
}

/// A unit of work for a ledger program. The order of `accounts` carries
/// meaning and is never changed.
#[derive(Clone, Debug, PartialEq, Eq)]
pub struct Instruction {
    pub program_id: PublicKey,
    pub accounts: Vec<AccountMeta>,
    pub data: Vec<u8>,
}

impl Instruction {
    /// An instruction from its parts.
    pub fn new(program_id: [u8; 32], accounts: Vec<AccountMeta>, data: Vec<u8>) -> (ix: Instruction)
        ensures
            ix.program_id@ == program_id@,
            ix.accounts == accounts,
            ix.data == data,
    {
        Instruction { program_id: PublicKey { bytes: program_id }, accounts, data }
    }
}

/// An instruction as a mathematical value.
pub struct InstructionView {
    pub program_id: Seq<u8>,
    pub accounts: Seq<AccountMetaView>,
    pub data: Seq<u8>,
}

impl View for Instruction {
    type V = InstructionView;

    open spec fn view(&self) -> InstructionView {
        InstructionView {
            program_id: self.program_id@,
            accounts: Seq::new(self.accounts@.len(), |i: int| self.accounts@[i]@),
            data: self.data@,
        }
    }
}

/// The views of a list of keys, in order.
pub open spec fn key_views(keys: Seq<PublicKey>) -> Seq<Seq<u8>> {
    Seq::new(keys.len(), |i: int| keys[i]@)
}

/// The views of a list of byte strings, in order.
pub open spec fn byte_views(parts: Seq<Vec<u8>>) -> Seq<Seq<u8>> {
    Seq::new(parts.len(), |i: int| parts[i]@)
}

} // verus!
