//! The published layouts of the four supported instructions: which program
//! runs each, which accounts it lists in which order and with which flags,
//! and what its payload holds.

use vstd::prelude::*;
use vstd::arithmetic::div_mod::lemma_div_denominator;
use crate::instruction::{AccountMetaView, InstructionView};

verus! {

/// The address of the system program: thirty-two zero bytes
/// (`11111111111111111111111111111111`).
pub open spec fn system_program_id() -> Seq<u8> {
    Seq::new(32, |i: int| 0u8)
}

/// The address of the token program
/// (`TokenkegQfeZyiNwAJbNbGKPFXCWuBvf9Ss623VQ5DA`).
pub open spec fn token_program_id() -> Seq<u8> {
    seq![
        6u8, 221, 246, 225, 215, 101, 161, 147, 217, 203, 225, 70, 206, 235, 121, 172,
        28, 180, 133, 237, 95, 91, 55, 145, 58, 140, 245, 133, 126, 255, 0, 169,
    ]
}

/// The address of the associated-token-account program
/// (`ATokenGPvbdGVxr1b2hvZbsiqW5xWH25efTNsLJA8knL`).
pub open spec fn associated_token_program_id() -> Seq<u8> {
    seq![
        140u8, 151, 37, 143, 78, 36, 137, 241, 187, 61, 16, 41, 20, 142, 13, 131,
        11, 90, 19, 153, 218, 255, 16, 132, 4, 142, 123, 216, 219, 233, 248, 89,
    ]
}

/// The address of the rent sysvar
/// (`SysvarRent111111111111111111111111111111111`).
pub open spec fn rent_sysvar_id() -> Seq<u8> {
    seq![
        6u8, 167, 213, 23, 25, 44, 92, 81, 33, 140, 201, 76, 61, 74, 241, 127,
        88, 218, 238, 8, 155, 161, 253, 68, 227, 219, 217, 138, 0, 0, 0, 0,
    ]
}

/// The eight bytes of `amount`, least significant first.
pub open spec fn u64_le_bytes(amount: u64) -> Seq<u8> {
    seq![
        (amount % 0x100) as u8,
        (amount / 0x100 % 0x100) as u8,
        (amount / 0x1_0000 % 0x100) as u8,
        (amount / 0x100_0000 % 0x100) as u8,
        (amount / 0x1_0000_0000 % 0x100) as u8,
        (amount / 0x100_0000_0000 % 0x100) as u8,
        (amount / 0x1_0000_0000_0000 % 0x100) as u8,
        (amount / 0x100_0000_0000_0000 % 0x100) as u8,
    ]
}

/// The number that eight bytes spell, least significant first.
pub open spec fn u64_from_le_bytes(bytes: Seq<u8>) -> int
    recommends
        bytes.len() == 8,
{
    bytes[0] + bytes[1] * 0x100 + bytes[2] * 0x1_0000 + bytes[3] * 0x100_0000 + bytes[4]
        * 0x1_0000_0000 + bytes[5] * 0x100_0000_0000 + bytes[6] * 0x1_0000_0000_0000 + bytes[7]
        * 0x100_0000_0000_0000
}

/// An account that the instruction may change.
pub open spec fn writable(pubkey: Seq<u8>, is_signer: bool) -> AccountMetaView {
    AccountMetaView { pubkey, is_signer, is_writable: true }
}

/// An account that the instruction only reads.
pub open spec fn readonly(pubkey: Seq<u8>, is_signer: bool) -> AccountMetaView {
    AccountMetaView { pubkey, is_signer, is_writable: false }
}

/// The additional signers of a multisignature authority, each read-only and
/// signing.
pub open spec fn signer_accounts(signers: Seq<Seq<u8>>) -> Seq<AccountMetaView> {
    Seq::new(signers.len(), |i: int| readonly(signers[i], true))
}

/// The native transfer of `lamports` from `from` to `to`: the payer signs and
/// is debited, the recipient is credited; the payload is the system
/// program's tag for a transfer, as four bytes, and the amount.
pub open spec fn sol_transfer_layout(from: Seq<u8>, to: Seq<u8>, lamports: u64) -> InstructionView {
    InstructionView {
        program_id: system_program_id(),
        accounts: seq![writable(from, true), writable(to, false)],
        data: seq![2u8, 0u8, 0u8, 0u8] + u64_le_bytes(lamports),
    }
}

/// The payload form of an optional key: a presence flag, then the key.
pub open spec fn optional_key_bytes(key: Option<Seq<u8>>) -> Seq<u8> {
    match key {
        Some(bytes) => seq![1u8] + bytes,
        None => seq![0u8],
    }
}

/// The initialisation of a mint: the mint is written, the rent sysvar is
/// read; the payload is tag 0, the decimals, the mint authority and the
/// optional freeze authority.
pub open spec fn initialize_mint_layout(
    program: Seq<u8>,
    mint: Seq<u8>,
    mint_authority: Seq<u8>,
    freeze_authority: Option<Seq<u8>>,
    decimals: u8,
) -> InstructionView {
    InstructionView {
        program_id: program,
        accounts: seq![writable(mint, false), readonly(rent_sysvar_id(), false)],
        data: seq![0u8, decimals] + mint_authority + optional_key_bytes(freeze_authority),
    }
}

/// The accounts of a token instruction that moves or creates an amount: two
/// written accounts, then the authority, which signs by itself unless
/// `signers` sign for it, then those signers.
pub open spec fn amount_accounts(
    first: Seq<u8>,
    second: Seq<u8>,
    authority: Seq<u8>,
    signers: Seq<Seq<u8>>,
) -> Seq<AccountMetaView> {
    seq![writable(first, false), writable(second, false), readonly(authority, signers.len() == 0)]
        + signer_accounts(signers)
}

/// The minting of `amount` new tokens of `mint` into `destination`: payload
/// tag 7 and the amount.
pub open spec fn mint_to_layout(
    program: Seq<u8>,
    mint: Seq<u8>,
    destination: Seq<u8>,
    authority: Seq<u8>,
    signers: Seq<Seq<u8>>,
    amount: u64,
) -> InstructionView {
    InstructionView {
        program_id: program,
        accounts: amount_accounts(mint, destination, authority, signers),
        data: seq![7u8] + u64_le_bytes(amount),
    }
}

/// The transfer of `amount` tokens from the token account `source` to the
/// token account `destination`: payload tag 3 and the amount.
pub open spec fn token_transfer_layout(
    program: Seq<u8>,
    source: Seq<u8>,
    destination: Seq<u8>,
    authority: Seq<u8>,
    signers: Seq<Seq<u8>>,
    amount: u64,
) -> InstructionView {
    InstructionView {
        program_id: program,
        accounts: amount_accounts(source, destination, authority, signers),
        data: seq![3u8] + u64_le_bytes(amount),
    }
}

/// Eight bytes written least significant first spell the amount they were
/// written from.
pub proof fn lemma_amount_is_read_back(amount: u64)
    ensures
        u64_le_bytes(amount).len() == 8,
        u64_from_le_bytes(u64_le_bytes(amount)) == amount,
{
    let n = amount as int;
    let q1 = n / 0x100;
    let q2 = q1 / 0x100;
    let q3 = q2 / 0x100;
    let q4 = q3 / 0x100;
    let q5 = q4 / 0x100;
    let q6 = q5 / 0x100;
    let q7 = q6 / 0x100;
    assert(q2 == n / 0x1_0000) by {
        lemma_div_denominator(n, 0x100, 0x100);
    }
    assert(q3 == n / 0x100_0000) by {
        lemma_div_denominator(n, 0x1_0000, 0x100);
    }
    assert(q4 == n / 0x1_0000_0000) by {
        lemma_div_denominator(n, 0x100_0000, 0x100);
    }
    assert(q5 == n / 0x100_0000_0000) by {
        lemma_div_denominator(n, 0x1_0000_0000, 0x100);
    }
    assert(q6 == n / 0x1_0000_0000_0000) by {
        lemma_div_denominator(n, 0x100_0000_0000, 0x100);
    }
    assert(q7 == n / 0x100_0000_0000_0000) by {
        lemma_div_denominator(n, 0x1_0000_0000_0000, 0x100);
    }
    assert(q7 == q7 % 0x100);
    assert(n == 0x100 * q1 + n % 0x100);
    assert(q1 == 0x100 * q2 + q1 % 0x100);
    assert(q2 == 0x100 * q3 + q2 % 0x100);
    assert(q3 == 0x100 * q4 + q3 % 0x100);
    assert(q4 == 0x100 * q5 + q4 % 0x100);
    assert(q5 == 0x100 * q6 + q5 % 0x100);
    assert(q6 == 0x100 * q7 + q6 % 0x100);
}

/// The payload of a native transfer is twelve bytes long, and its last eight
/// spell the amount.
pub proof fn lemma_sol_transfer_payload(from: Seq<u8>, to: Seq<u8>, lamports: u64)
    ensures
        sol_transfer_layout(from, to, lamports).data.len() == 12,
        u64_from_le_bytes(sol_transfer_layout(from, to, lamports).data.subrange(4, 12))
            == lamports,
{
    lemma_amount_is_read_back(lamports);
    assert(sol_transfer_layout(from, to, lamports).data.subrange(4, 12) =~= u64_le_bytes(
        lamports,
    ));
}

/// The payload of a mint-to and of a token transfer is nine bytes long, and
/// its last eight spell the amount.
pub proof fn lemma_token_payload(
    program: Seq<u8>,
    first: Seq<u8>,
    second: Seq<u8>,
    authority: Seq<u8>,
    signers: Seq<Seq<u8>>,
    amount: u64,
)
    ensures
        mint_to_layout(program, first, second, authority, signers, amount).data.len() == 9,
        u64_from_le_bytes(
            mint_to_layout(program, first, second, authority, signers, amount).data.subrange(1, 9),
        ) == amount,
        token_transfer_layout(program, first, second, authority, signers, amount).data.len() == 9,
        u64_from_le_bytes(
            token_transfer_layout(program, first, second, authority, signers, amount).data.subrange(
                1,
                9,
            ),
        ) == amount,
{
    lemma_amount_is_read_back(amount);
    assert(mint_to_layout(program, first, second, authority, signers, amount).data.subrange(1, 9)
        =~= u64_le_bytes(amount));
    assert(token_transfer_layout(program, first, second, authority, signers, amount).data.subrange(
        1,
        9,
    ) =~= u64_le_bytes(amount));
}

/// A native transfer lists the payer first, signing and writable, and the
/// recipient second, writable and not signing; it lists nothing else.
pub proof fn lemma_sol_transfer_accounts(from: Seq<u8>, to: Seq<u8>, lamports: u64)
    ensures
        sol_transfer_layout(from, to, lamports).accounts.len() == 2,
        sol_transfer_layout(from, to, lamports).accounts[0] == writable(from, true),
        sol_transfer_layout(from, to, lamports).accounts[1] == writable(to, false),
{
}

/// With no additional signers, a mint-to and a token transfer list exactly
/// three accounts, the authority last and signing by itself.
pub proof fn lemma_single_authority_accounts(first: Seq<u8>, second: Seq<u8>, authority: Seq<u8>)
    ensures
        amount_accounts(first, second, authority, Seq::<Seq<u8>>::empty()) == seq![
            writable(first, false),
            writable(second, false),
            readonly(authority, true),
        ],
{
    assert(amount_accounts(first, second, authority, Seq::<Seq<u8>>::empty()) =~= seq![
        writable(first, false),
        writable(second, false),
        readonly(authority, true),
    ]);
}

} // verus!
