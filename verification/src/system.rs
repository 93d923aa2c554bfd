use vstd::prelude::*;
use vstd::bytes::spec_u64_to_le_bytes;
use crate::address::Address;
use crate::instruction::{AccountMeta, Instruction, InstructionView};

verus! {

/// The address of the system program, `11111111111111111111111111111111`.
pub const SYSTEM_PROGRAM_ID: [u8; 32] = [
    0, 0, 0, 0, 0, 0, 0, 0, 0, 0, 0, 0, 0, 0, 0, 0,
    0, 0, 0, 0, 0, 0, 0, 0, 0, 0, 0, 0, 0, 0, 0, 0,
];

/// The address of the system program.
pub open spec fn system_program() -> Address {
    Address { bytes: SYSTEM_PROGRAM_ID }
}

/// The instruction that asks the system program to create the account `to`,
/// paid for by `from`: both accounts writable and signing, and as data the
/// number of the request, 0, in four bytes, then the balance and the size as
/// eight little-endian bytes each, then the owner.
pub open spec fn create_account_instruction(
    from: Address,
    to: Address,
    lamports: u64,
    space: u64,
    owner: Address,
) -> InstructionView {
    InstructionView {
        program_id: system_program(),
        accounts: seq![
            AccountMeta { pubkey: from, is_signer: true, is_writable: true },
            AccountMeta { pubkey: to, is_signer: true, is_writable: true },
        ],
        data: seq![0u8, 0, 0, 0] + spec_u64_to_le_bytes(lamports) + spec_u64_to_le_bytes(space)
            + owner@,
    }
}

/// Calls `solana_program::system_program::id`, which returns the address that
/// the system program is declared under.
#[verifier::external_body]
pub(crate) fn id() -> (a: Address)
    ensures
        a == system_program(),
{
    Address { bytes: solana_program::system_program::id().to_bytes() }
}

/// Calls `solana_program::system_instruction::create_account`. The
/// instruction goes to the system program and names the payer and the new
/// account, both writable and signing; its data are the request to create an
/// account, the first of the system program's requests, serialised field
/// after field in fixed width.
#[verifier::external_body]
pub(crate) fn create_account(
    from: &Address,
    to: &Address,
    lamports: u64,
    space: u64,
    owner: &Address,
) -> (ix: Instruction)
    ensures
        ix@ == create_account_instruction(*from, *to, lamports, space, *owner),
{
    let ix = solana_program::system_instruction::create_account(&from.bytes.into(), &to.bytes.into(), lamports, space, &owner.bytes.into());
    Instruction {
        program_id: Address { bytes: ix.program_id.to_bytes() },
        accounts: ix.accounts.iter().map(|m| AccountMeta { pubkey: Address { bytes: m.pubkey.to_bytes() }, is_signer: m.is_signer, is_writable: m.is_writable }).collect(),
        data: ix.data,
    }
}

} // verus!
