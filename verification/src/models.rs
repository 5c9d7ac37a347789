//! The requests that the operations take and the answers they give, as plain
//! values. Every text field is carried as it came; the views below are what
//! the contracts speak of.

use vstd::prelude::*;

verus! {

/// A request to sign `message` with the key pair that `secret` spells in
/// base58. It holds a secret, so it can be neither copied nor printed.
pub struct SignMessageRequest {
    pub message: String,
    pub secret: String,
}

/// A request to check a base64 `signature` of `message` against the base58
/// `pubkey`.
#[derive(Clone, Debug, PartialEq, Eq)]
pub struct VerifyMessageRequest {
    pub message: String,
    pub signature: String,
    pub pubkey: String,
}

/// A request to initialise `mint` with `mint_authority` as both its mint and
/// its freeze authority.
#[derive(Clone, Debug, PartialEq, Eq)]
pub struct CreateTokenRequest {
    pub mint_authority: String,
    pub mint: String,
    pub decimals: u8,
}

/// A request to mint `amount` tokens of `mint` into the token account
/// `destination`.
#[derive(Clone, Debug, PartialEq, Eq)]
pub struct MintTokenRequest {
    pub mint: String,
    pub destination: String,
    pub authority: String,
    pub amount: u64,
}

/// A request to move `lamports` of the native asset from `from` to `to`.
#[derive(Clone, Debug, PartialEq, Eq)]
pub struct SendSolRequest {
    pub from: String,
    pub to: String,
    pub lamports: u64,
}

/// A request to move `amount` tokens of `mint` from `owner` to the owner
/// `destination`.
#[derive(Clone, Debug, PartialEq, Eq)]
pub struct SendTokenRequest {
    pub destination: String,
    pub mint: String,
    pub owner: String,
    pub amount: u64,
}

/// A signature in base64, with the message it covers and the signer's public
/// key in base58.
#[derive(Clone, Debug, PartialEq, Eq)]
pub struct SignMessageData {
    pub signature: String,
    pub public_key: String,
    pub message: String,
}

/// A [`SignMessageData`] as a mathematical value.
pub struct SignMessageDataView {
    pub signature: Seq<char>,
    pub public_key: Seq<char>,
    pub message: Seq<char>,
}

impl View for SignMessageData {
    type V = SignMessageDataView;

    open spec fn view(&self) -> SignMessageDataView {
        SignMessageDataView {
            signature: self.signature@,
            public_key: self.public_key@,
            message: self.message@,
        }
    }
}

/// The verdict on a signature, with the message and key it was checked
/// against.
#[derive(Clone, Debug, PartialEq, Eq)]
pub struct VerifyMessageData {
    pub valid: bool,
    pub message: String,
    pub pubkey: String,
}

/// A [`VerifyMessageData`] as a mathematical value.
pub struct VerifyMessageDataView {
    pub valid: bool,
    pub message: Seq<char>,
    pub pubkey: Seq<char>,
}

impl View for VerifyMessageData {
    type V = VerifyMessageDataView;

    open spec fn view(&self) -> VerifyMessageDataView {
        VerifyMessageDataView { valid: self.valid, message: self.message@, pubkey: self.pubkey@ }
    }
}

/// One account of a normalised instruction.
#[derive(Clone, Debug, PartialEq, Eq)]
pub struct AccountInfo {
    pub pubkey: String,
    pub is_signer: bool,
    pub is_writable: bool,
}

/// An [`AccountInfo`] as a mathematical value.
pub struct AccountInfoView {
    pub pubkey: Seq<char>,
    pub is_signer: bool,
    pub is_writable: bool,
}

impl View for AccountInfo {
    type V = AccountInfoView;

    open spec fn view(&self) -> AccountInfoView {
        AccountInfoView {
            pubkey: self.pubkey@,
            is_signer: self.is_signer,
            is_writable: self.is_writable,
        }
    }
}

/// An instruction in its transport form: keys in base58, payload in base64,
/// accounts in the instruction's own order.
#[derive(Clone, Debug, PartialEq, Eq)]
pub struct InstructionData {
    pub program_id: String,
    pub accounts: Vec<AccountInfo>,
    pub instruction_data: String,
}

/// An [`InstructionData`] as a mathematical value.
pub struct InstructionDataView {
    pub program_id: Seq<char>,
    pub accounts: Seq<AccountInfoView>,
    pub instruction_data: Seq<char>,
}

impl View for InstructionData {
    type V = InstructionDataView;

    open spec fn view(&self) -> InstructionDataView {
        InstructionDataView {
            program_id: self.program_id@,
            accounts: Seq::new(self.accounts@.len(), |i: int| self.accounts@[i]@),
            instruction_data: self.instruction_data@,
        }
    }
}

/// A native transfer in its transport form. Its accounts are listed by key
/// alone.
#[derive(Clone, Debug, PartialEq, Eq)]
pub struct SolTransferData {
    pub program_id: String,
    pub accounts: Vec<String>,
    pub instruction_data: String,
}

/// A [`SolTransferData`] as a mathematical value.
pub struct SolTransferDataView {
    pub program_id: Seq<char>,
    pub accounts: Seq<Seq<char>>,
    pub instruction_data: Seq<char>,
}

impl View for SolTransferData {
    type V = SolTransferDataView;

    open spec fn view(&self) -> SolTransferDataView {
        SolTransferDataView {
            program_id: self.program_id@,
            accounts: Seq::new(self.accounts@.len(), |i: int| self.accounts@[i]@),
            instruction_data: self.instruction_data@,
        }
    }
}

/// One account of a token transfer in its transport form.
#[derive(Clone, Debug, PartialEq, Eq)]
pub struct TokenAccountInfo {
    pub pubkey: String,
    pub is_signer: bool,
}

/// A [`TokenAccountInfo`] as a mathematical value.
pub struct TokenAccountInfoView {
    pub pubkey: Seq<char>,
    pub is_signer: bool,
}

impl View for TokenAccountInfo {
    type V = TokenAccountInfoView;

    open spec fn view(&self) -> TokenAccountInfoView {
        TokenAccountInfoView { pubkey: self.pubkey@, is_signer: self.is_signer }
    }
}

/// A token transfer in its transport form.
#[derive(Clone, Debug, PartialEq, Eq)]
pub struct TokenTransferData {
    pub program_id: String,
    pub accounts: Vec<TokenAccountInfo>,
    pub instruction_data: String,
}

/// A [`TokenTransferData`] as a mathematical value.
pub struct TokenTransferDataView {
    pub program_id: Seq<char>,
    pub accounts: Seq<TokenAccountInfoView>,
    pub instruction_data: Seq<char>,
}

impl View for TokenTransferData {
    type V = TokenTransferDataView;

    open spec fn view(&self) -> TokenTransferDataView {
        TokenTransferDataView {
            program_id: self.program_id@,
            accounts: Seq::new(self.accounts@.len(), |i: int| self.accounts@[i]@),
            instruction_data: self.instruction_data@,
        }
    }
}

} // verus!
