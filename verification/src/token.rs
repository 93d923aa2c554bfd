use vstd::prelude::*;
use vstd::bytes::{spec_u64_from_le_bytes, spec_u64_to_le_bytes};
use crate::address::Address;
use crate::error::ProgramError;
use crate::instruction::{AccountMeta, Instruction, InstructionView};

verus! {

/// The address of the token program, `TokenkegQfeZyiNwAJbNbGKPFXCWuBvf9Ss623VQ5DA`.
pub const TOKEN_PROGRAM_ID: [u8; 32] = [
    6, 221, 246, 225, 215, 101, 161, 147, 217, 203, 225, 70, 206, 235, 121, 172,
    28, 180, 133, 237, 95, 91, 55, 145, 58, 140, 245, 133, 126, 255, 0, 169,
];

/// Number of bytes in the account of a mint.
pub const MINT_LEN: usize = 82;

/// Number of bytes in a token account.
pub const TOKEN_ACCOUNT_LEN: usize = 165;

/// What the account of a mint says about the token.
#[derive(Clone, Copy, Debug, PartialEq, Eq)]
pub struct Mint {
    /// Who may issue further units; nobody, where it is `None`.
    pub mint_authority: Option<Address>,
    /// Units issued so far.
    pub supply: u64,
    /// Decimal places of one unit.
    pub decimals: u8,
    pub is_initialized: bool,
    /// Who may freeze token accounts of this mint.
    pub freeze_authority: Option<Address>,
}

/// The condition of a token account.
#[derive(Clone, Copy, Debug, PartialEq, Eq, Structural)]
pub enum AccountState {
    Uninitialized,
    Initialized,
    Frozen,
}

/// What a token account says about the units it holds.
#[derive(Clone, Copy, Debug, PartialEq, Eq)]
pub struct TokenAccount {
    /// The mint whose units the account holds.
    pub mint: Address,
    /// Who may dispose of the units.
    pub owner: Address,
    /// Units held.
    pub amount: u64,
    pub state: AccountState,
}

/// The address of the token program.
pub open spec fn token_program() -> Address {
    Address { bytes: TOKEN_PROGRAM_ID }
}

/// The four bytes that say whether an optional field is there.
pub open spec fn option_tag(present: bool) -> Seq<u8> {
    if present {
        seq![1u8, 0, 0, 0]
    } else {
        seq![0u8, 0, 0, 0]
    }
}

/// Whether the 36 bytes of `field` hold the optional address `key`: the tag,
/// then the address where there is one, and anything where there is none.
pub open spec fn holds_optional_address(field: Seq<u8>, key: Option<Address>) -> bool {
    &&& field.subrange(0, 4) == option_tag(key.is_some())
    &&& key matches Some(k) ==> field.subrange(4, 36) == k@
}

/// Whether `data` are the bytes of a mint account that says `m`.
pub open spec fn mint_layout(data: Seq<u8>, m: Mint) -> bool {
    &&& data.len() == MINT_LEN
    &&& holds_optional_address(data.subrange(0, 36), m.mint_authority)
    &&& m.supply == spec_u64_from_le_bytes(data.subrange(36, 44))
    &&& m.decimals == data[44]
    &&& data[45] == (if m.is_initialized { 1u8 } else { 0u8 })
    &&& holds_optional_address(data.subrange(46, 82), m.freeze_authority)
}

/// What reading a mint account gives: invalid account data where the bytes
/// are no mint account, an uninitialised account where they say so, and what
/// the bytes say otherwise.
pub open spec fn mint_unpacking(data: Seq<u8>) -> Result<Mint, ProgramError> {
    if exists|m: Mint| mint_layout(data, m) {
        let m = choose|m: Mint| mint_layout(data, m);
        if m.is_initialized {
            Ok(m)
        } else {
            Err(ProgramError::UninitializedAccount)
        }
    } else {
        Err(ProgramError::InvalidAccountData)
    }
}

/// The byte that stands for a token account's condition.
pub open spec fn state_byte(state: AccountState) -> u8 {
    match state {
        AccountState::Uninitialized => 0,
        AccountState::Initialized => 1,
        AccountState::Frozen => 2,
    }
}

/// Whether `data` are the bytes of a token account that says `a`. Of the
/// optional fields that `a` does not hold (the delegate, the native reserve,
/// the close authority) only the tags are constrained.
pub open spec fn token_account_layout(data: Seq<u8>, a: TokenAccount) -> bool {
    &&& data.len() == TOKEN_ACCOUNT_LEN
    &&& data.subrange(0, 32) == a.mint@
    &&& data.subrange(32, 64) == a.owner@
    &&& a.amount == spec_u64_from_le_bytes(data.subrange(64, 72))
    &&& exists|delegated: bool| data.subrange(72, 76) == option_tag(delegated)
    &&& data[108] == state_byte(a.state)
    &&& exists|native: bool| data.subrange(109, 113) == option_tag(native)
    &&& exists|closable: bool| data.subrange(129, 133) == option_tag(closable)
}

/// What reading a token account gives: invalid account data where the bytes
/// are no token account, an uninitialised account where they say so, and
/// what the bytes say otherwise.
pub open spec fn token_account_unpacking(data: Seq<u8>) -> Result<TokenAccount, ProgramError> {
    if exists|a: TokenAccount| token_account_layout(data, a) {
        let a = choose|a: TokenAccount| token_account_layout(data, a);
        if a.state != AccountState::Uninitialized {
            Ok(a)
        } else {
            Err(ProgramError::UninitializedAccount)
        }
    } else {
        Err(ProgramError::InvalidAccountData)
    }
}

/// The tag says whether the field is there.
pub proof fn lemma_option_tag_injective(a: bool, b: bool)
    requires
        option_tag(a) == option_tag(b),
    ensures
        a == b,
{
    assert(option_tag(a)[0] == option_tag(b)[0]);
}

/// The bytes of a mint account say one thing only.
pub proof fn lemma_mint_layout_unique(data: Seq<u8>, a: Mint, b: Mint)
    requires
        mint_layout(data, a),
        mint_layout(data, b),
    ensures
        a == b,
{
    lemma_option_tag_injective(a.mint_authority.is_some(), b.mint_authority.is_some());
    lemma_option_tag_injective(a.freeze_authority.is_some(), b.freeze_authority.is_some());
    if a.mint_authority is Some {
        Address::lemma_view_injective(a.mint_authority->0, b.mint_authority->0);
    }
    if a.freeze_authority is Some {
        Address::lemma_view_injective(a.freeze_authority->0, b.freeze_authority->0);
    }
}

/// Reading a mint account gives what its bytes say.
pub proof fn lemma_mint_unpacking(data: Seq<u8>, m: Mint)
    requires
        mint_layout(data, m),
    ensures
        mint_unpacking(data) == if m.is_initialized {
            Ok::<Mint, ProgramError>(m)
        } else {
            Err(ProgramError::UninitializedAccount)
        },
{
    lemma_mint_layout_unique(data, m, choose|x: Mint| mint_layout(data, x));
}

/// The bytes of a token account say one thing only.
pub proof fn lemma_token_account_layout_unique(data: Seq<u8>, a: TokenAccount, b: TokenAccount)
    requires
        token_account_layout(data, a),
        token_account_layout(data, b),
    ensures
        a == b,
{
    Address::lemma_view_injective(a.mint, b.mint);
    Address::lemma_view_injective(a.owner, b.owner);
}

/// Reading a token account gives what its bytes say.
pub proof fn lemma_token_account_unpacking(data: Seq<u8>, a: TokenAccount)
    requires
        token_account_layout(data, a),
    ensures
        token_account_unpacking(data) == if a.state != AccountState::Uninitialized {
            Ok::<TokenAccount, ProgramError>(a)
        } else {
            Err(ProgramError::UninitializedAccount)
        },
{
    lemma_token_account_layout_unique(
        data,
        a,
        choose|x: TokenAccount| token_account_layout(data, x),
    );
}

/// The instruction that asks the token program to move `amount` units from
/// `source` to `destination` on the word of `authority` alone: the two token
/// accounts writable, the authority as the one signer, and as data the byte 3
/// and the amount as eight little-endian bytes.
pub open spec fn transfer_instruction(
    token_program_id: Address,
    source: Address,
    destination: Address,
    authority: Address,
    amount: u64,
) -> InstructionView {
    InstructionView {
        program_id: token_program_id,
        accounts: seq![
            AccountMeta { pubkey: source, is_signer: false, is_writable: true },
            AccountMeta { pubkey: destination, is_signer: false, is_writable: true },
            AccountMeta { pubkey: authority, is_signer: true, is_writable: false },
        ],
        data: seq![3u8] + spec_u64_to_le_bytes(amount),
    }
}

/// Calls `spl_token::id`, which returns the address that the token program
/// is declared under.
#[verifier::external_body]
pub(crate) fn id() -> (a: Address)
    ensures
        a == token_program(),
{
    Address { bytes: spl_token::id().to_bytes() }
}

/// Calls `spl_token::check_program_account`, which accepts the address of the
/// token program and answers any other with an incorrect program id.
#[verifier::external_body]
pub(crate) fn check_program_account(program_id: &Address) -> (r: Result<(), ProgramError>)
    ensures
        r == (if *program_id == token_program() {
            Ok::<(), ProgramError>(())
        } else {
            Err(ProgramError::IncorrectProgramId)
        }),
{
    match spl_token::check_program_account(&program_id.bytes.into()) {
        Ok(()) => Ok(()),
        Err(_) => Err(ProgramError::IncorrectProgramId),
    }
}

/// Calls `Pack::unpack` for `spl_token::state::Mint`. It refuses data of
/// another length than `MINT_LEN`, an option tag other than 0 or 1 and an
/// initialisation byte other than 0 or 1 as invalid account data, then a mint
/// that is not initialised as such, and returns the fields otherwise.
#[verifier::external_body]
pub(crate) fn unpack_mint(data: &[u8]) -> (r: Result<Mint, ProgramError>)
    ensures
        r == mint_unpacking(data@),
{
    match <spl_token::state::Mint as solana_program::program_pack::Pack>::unpack(data) {
        Ok(m) => Ok(Mint {
            mint_authority: Option::from(m.mint_authority).map(|k: solana_program::pubkey::Pubkey| Address { bytes: k.to_bytes() }),
            supply: m.supply,
            decimals: m.decimals,
            is_initialized: m.is_initialized,
            freeze_authority: Option::from(m.freeze_authority).map(|k: solana_program::pubkey::Pubkey| Address { bytes: k.to_bytes() }),
        }),
        Err(solana_program::program_error::ProgramError::UninitializedAccount) => Err(ProgramError::UninitializedAccount),
        Err(_) => Err(ProgramError::InvalidAccountData),
    }
}

/// Calls `Pack::unpack` for `spl_token::state::Account`. It refuses data of
/// another length than `TOKEN_ACCOUNT_LEN`, an option tag other than 0 or 1
/// and a state byte above 2 as invalid account data, then an account that is
/// not initialised as such, and returns the fields otherwise.
#[verifier::external_body]
pub(crate) fn unpack_token_account(data: &[u8]) -> (r: Result<TokenAccount, ProgramError>)
    ensures
        r == token_account_unpacking(data@),
{
    match <spl_token::state::Account as solana_program::program_pack::Pack>::unpack(data) {
        Ok(a) => Ok(TokenAccount {
            mint: Address { bytes: a.mint.to_bytes() },
            owner: Address { bytes: a.owner.to_bytes() },
            amount: a.amount,
            state: match a.state {
                spl_token::state::AccountState::Uninitialized => AccountState::Uninitialized,
                spl_token::state::AccountState::Initialized => AccountState::Initialized,
                spl_token::state::AccountState::Frozen => AccountState::Frozen,
            },
        }),
        Err(solana_program::program_error::ProgramError::UninitializedAccount) => Err(ProgramError::UninitializedAccount),
        Err(_) => Err(ProgramError::InvalidAccountData),
    }
}

/// Calls `spl_token::instruction::transfer` without multisignature signers.
/// It answers a program other than the token program with an incorrect
/// program id, and builds the transfer instruction otherwise.
#[verifier::external_body]
pub(crate) fn transfer(
    token_program_id: &Address,
    source: &Address,
    destination: &Address,
    authority: &Address,
    amount: u64,
) -> (r: Result<Instruction, ProgramError>)
    ensures
        match r {
            Ok(ix) => *token_program_id == token_program() && ix@ == transfer_instruction(
                *token_program_id,
                *source,
                *destination,
                *authority,
                amount,
            ),
            Err(e) => *token_program_id != token_program() && e == ProgramError::IncorrectProgramId,
        },
{
    match spl_token::instruction::transfer(&token_program_id.bytes.into(), &source.bytes.into(), &destination.bytes.into(), &authority.bytes.into(), &[], amount) {
        Ok(ix) => Ok(Instruction {
            program_id: Address { bytes: ix.program_id.to_bytes() },
            accounts: ix.accounts.iter().map(|m| AccountMeta { pubkey: Address { bytes: m.pubkey.to_bytes() }, is_signer: m.is_signer, is_writable: m.is_writable }).collect(),
            data: ix.data,
        }),
        Err(_) => Err(ProgramError::IncorrectProgramId),
    }
}

} // verus!
