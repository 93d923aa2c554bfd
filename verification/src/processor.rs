use vstd::prelude::*;
use crate::account::{views, Account, AccountView};
use crate::address::{derived_address, Address};
use crate::error::ProgramError;
use crate::instruction::{Args, Instruction, InstructionView, TradeYardInstruction};
use crate::state::{ItemMetadata, RECORD_LEN};
use crate::system::create_account_instruction;
use crate::token::{
    mint_unpacking, token_account_unpacking, token_program, transfer_instruction, AccountState,
    Mint, TokenAccount,
};
use crate::Seed;

verus! {

/// The seeds by which the program signs for one of its derived addresses:
/// the tag, the mint and the bump seed.
#[derive(Clone, Copy, Debug, PartialEq, Eq)]
pub struct SignerSeeds {
    pub seed: Seed,
    pub mint: Address,
    pub bump: u8,
}

/// A call of another program that an instruction needs.
#[derive(Clone, Debug, PartialEq, Eq)]
pub struct Invocation {
    pub instruction: Instruction,
    /// The accounts that go along with the call, by their position among the
    /// accounts of the running instruction.
    pub accounts: Vec<usize>,
    /// The derived address that the program signs for in this call, if any.
    /// The signatures of the transaction go along in either case.
    pub signer_seeds: Option<SignerSeeds>,
}

/// An `Invocation` as a mathematical value.
pub struct InvocationView {
    pub instruction: InstructionView,
    pub accounts: Seq<usize>,
    pub signer_seeds: Option<SignerSeeds>,
}

impl View for Invocation {
    type V = InvocationView;

    open spec fn view(&self) -> InvocationView {
        InvocationView {
            instruction: self.instruction@,
            accounts: self.accounts@,
            signer_seeds: self.signer_seeds,
        }
    }
}

/// What an instruction does to the listing record once the calls it needs
/// have succeeded. Accounts are named by their position.
#[derive(Clone, Copy, Debug, PartialEq, Eq)]
pub enum Settlement {
    /// The record is written into the account that was created for it.
    WriteRecord { account: usize, record: ItemMetadata },
    /// The record is destroyed: its balance goes to the recipient and its
    /// bytes are zeroed.
    CloseRecord { account: usize, recipient: usize },
}

/// What remains to be done for an instruction that passed its checks: the
/// calls of other programs, in their order, and then the settlement. Where a
/// call fails the instruction fails with it, and nothing is settled.
#[derive(Clone, Debug, PartialEq, Eq)]
pub struct Plan {
    pub invocations: Vec<Invocation>,
    pub settlement: Settlement,
}

/// A `Plan` as a mathematical value.
pub struct PlanView {
    pub invocations: Seq<InvocationView>,
    pub settlement: Settlement,
}

impl View for Plan {
    type V = PlanView;

    open spec fn view(&self) -> PlanView {
        PlanView {
            invocations: self.invocations@.map_values(|i: Invocation| i@),
            settlement: self.settlement,
        }
    }
}

/// Number of accounts that `Sell` reads: the seller, the holding account, the
/// mint, the account for the record, the payment account, the system program.
pub const SELL_ACCOUNTS: usize = 6;

/// Number of accounts that `Buy` reads: the buyer, the buyer's payment
/// account, the buyer's account for the token, the holding account, the
/// payment account, the record, the token program, the holding address.
pub const BUY_ACCOUNTS: usize = 8;

/// Number of accounts that `Cancel` reads: the seller, the record, the token
/// program, the holding account, the seller's account for the token, the
/// holding address.
pub const CANCEL_ACCOUNTS: usize = 6;

/// A mint whose token is unique: one unit issued, and nobody left who could
/// issue another.
pub open spec fn non_fungible(mint: Mint) -> bool {
    mint.mint_authority.is_none() && mint.supply == 1 && mint.is_initialized
}

/// A mint whose token is unique: one unit issued, and nobody left who could
/// issue another.
pub fn is_non_fungible(mint: &Mint) -> (r: bool)
    ensures
        r == non_fungible(*mint),
{
    mint.mint_authority.is_none() && mint.supply == 1 && mint.is_initialized
}

/// A token account that holds the one unit of `mint` on behalf of `holder`.
pub open spec fn in_custody(wallet: TokenAccount, holder: Address, mint: Address) -> bool {
    &&& wallet.owner == holder
    &&& wallet.amount == 1
    &&& wallet.mint == mint
    &&& wallet.state != AccountState::Uninitialized
}

/// A token account that holds the one unit of `mint` on behalf of `holder`.
pub fn is_in_custody(wallet: &TokenAccount, holder: &Address, mint: &Address) -> (r: bool)
    ensures
        r == in_custody(*wallet, *holder, *mint),
{
    wallet.owner == *holder && wallet.amount == 1 && wallet.mint == *mint && !(wallet.state
        == AccountState::Uninitialized)
}

/// The plan of a sale: the system program creates the record's account,
/// paid for by the seller and signed for by the program under the record's
/// seeds; then the record is written into it. No token moves.
pub open spec fn sell_plan(
    program_id: Address,
    seller: Address,
    wallet: Address,
    mint: Address,
    record: Address,
    payment: Address,
    price: u64,
    bump: u8,
    rent_exempt_lamports: u64,
) -> PlanView {
    PlanView {
        invocations: seq![
            InvocationView {
                instruction: create_account_instruction(
                    seller,
                    record,
                    rent_exempt_lamports,
                    RECORD_LEN as u64,
                    program_id,
                ),
                accounts: seq![0usize, 3],
                signer_seeds: Some(SignerSeeds { seed: Seed::ItemMetadata, mint, bump }),
            },
        ],
        settlement: Settlement::WriteRecord {
            account: 3,
            record: ItemMetadata { seller, mint, lamports: price, payment, item: wallet },
        },
    }
}

/// What `sell` answers. The checks come in this order, and the first that
/// fails decides the error: the number of accounts; the token program as
/// owner of the mint, the holding account and the payment account; the mint,
/// which must be readable and unique; the holding account, which must be
/// readable and hold the token on behalf of the holding address of the mint;
/// the payment account, which must be readable; the two arguments, which must
/// be there; the account for the record and the bump seed, which must be the
/// address and the bump seed that are derived for the record of the mint.
/// So a mint has one place for its record, and no sale is planned for
/// another.
pub open spec fn sell_outcome(
    program_id: Address,
    accounts: Seq<AccountView>,
    args: Args,
    rent_exempt_lamports: u64,
) -> Result<PlanView, ProgramError> {
    if accounts.len() < SELL_ACCOUNTS {
        Err(ProgramError::NotEnoughAccountKeys)
    } else {
        let seller = accounts[0];
        let wallet = accounts[1];
        let mint = accounts[2];
        let record = accounts[3];
        let payment = accounts[4];
        let holder = derived_address(Seed::Item.tag(), mint.key, program_id);
        let place = derived_address(Seed::ItemMetadata.tag(), mint.key, program_id);
        if mint.owner != token_program() || wallet.owner != token_program() || payment.owner
            != token_program() {
            Err(ProgramError::IncorrectProgramId)
        } else if mint_unpacking(mint.data) is Err {
            Err(mint_unpacking(mint.data)->Err_0)
        } else if !non_fungible(mint_unpacking(mint.data)->Ok_0) {
            Err(ProgramError::InvalidAccountData)
        } else if token_account_unpacking(wallet.data) is Err {
            Err(token_account_unpacking(wallet.data)->Err_0)
        } else if holder.is_none() {
            Err(ProgramError::InvalidSeeds)
        } else if !in_custody(
            token_account_unpacking(wallet.data)->Ok_0,
            holder.unwrap().0,
            mint.key,
        ) {
            Err(ProgramError::InvalidAccountData)
        } else if token_account_unpacking(payment.data) is Err {
            Err(token_account_unpacking(payment.data)->Err_0)
        } else if args.lamports.is_none() || args.metadata_bump.is_none() {
            Err(ProgramError::InvalidInstructionData)
        } else if place.is_none() {
            Err(ProgramError::InvalidSeeds)
        } else if place != Some((record.key, args.metadata_bump->0)) {
            Err(ProgramError::InvalidAccountData)
        } else {
            Ok(
                sell_plan(
                    program_id,
                    seller.key,
                    wallet.key,
                    mint.key,
                    record.key,
                    payment.key,
                    args.lamports->0,
                    args.metadata_bump->0,
                    rent_exempt_lamports,
                ),
            )
        }
    }
}

/// Checks a sale and plans it. `rent_exempt_lamports` is the balance that an
/// account of `RECORD_LEN` bytes needs to be kept for good.
pub fn sell(
    program_id: &Address,
    accounts: &[Account],
    args: Args,
    rent_exempt_lamports: u64,
) -> (r: Result<Plan, ProgramError>)
    ensures
        match r {
            Ok(plan) => sell_outcome(*program_id, views(accounts@), args, rent_exempt_lamports)
                == Ok::<PlanView, ProgramError>(plan@),
            Err(e) => sell_outcome(*program_id, views(accounts@), args, rent_exempt_lamports)
                == Err::<PlanView, ProgramError>(e),
        },
{
    if accounts.len() < SELL_ACCOUNTS {
        return Err(ProgramError::NotEnoughAccountKeys);
    }
    let seller = &accounts[0];
    let program_item_wallet = &accounts[1];
    let mint = &accounts[2];
    let item_metadata = &accounts[3];
    let seller_payment_wallet = &accounts[4];

    crate::token::check_program_account(&mint.owner)?;
    crate::token::check_program_account(&program_item_wallet.owner)?;
    crate::token::check_program_account(&seller_payment_wallet.owner)?;

    let mint_data = crate::token::unpack_mint(mint.data.as_slice())?;
    if !is_non_fungible(&mint_data) {
        return Err(ProgramError::InvalidAccountData);
    }
    let wallet_data = crate::token::unpack_token_account(program_item_wallet.data.as_slice())?;
    let holder = match crate::find_item_address(program_id, &mint.key) {
        Some((holder, _)) => holder,
        None => {
            return Err(ProgramError::InvalidSeeds);
        },
    };
    if !is_in_custody(&wallet_data, &holder, &mint.key) {
        return Err(ProgramError::InvalidAccountData);
    }
    crate::token::unpack_token_account(seller_payment_wallet.data.as_slice())?;

    let (price, bump) = match (args.lamports, args.metadata_bump) {
        (Some(price), Some(bump)) => (price, bump),
        _ => {
            return Err(ProgramError::InvalidInstructionData);
        },
    };
    match crate::find_item_metadata_address(program_id, &mint.key) {
        None => {
            return Err(ProgramError::InvalidSeeds);
        },
        Some((place, found)) => {
            if place != item_metadata.key || found != bump {
                return Err(ProgramError::InvalidAccountData);
            }
        },
    }
    let metadata = ItemMetadata {
        seller: seller.key,
        mint: mint.key,
        lamports: price,
        payment: seller_payment_wallet.key,
        item: program_item_wallet.key,
    };
    let create = Invocation {
        instruction: crate::system::create_account(
            &seller.key,
            &item_metadata.key,
            rent_exempt_lamports,
            RECORD_LEN as u64,
            program_id,
        ),
        accounts: vec![0, 3],
        signer_seeds: Some(SignerSeeds { seed: Seed::ItemMetadata, mint: mint.key, bump }),
    };
    let plan = Plan {
        invocations: vec![create],
        settlement: Settlement::WriteRecord { account: 3, record: metadata },
    };
    proof {
        let expected = sell_plan(
            *program_id,
            seller.key,
            program_item_wallet.key,
            mint.key,
            item_metadata.key,
            seller_payment_wallet.key,
            price,
            bump,
            rent_exempt_lamports,
        );
        assert(create@.accounts =~= seq![0usize, 3]);
        assert(create@ == expected.invocations[0]);
        assert(plan@.invocations =~= expected.invocations);
    }
    Ok(plan)
}

/// The plan of a purchase: the token program moves the price from the
/// buyer's payment account to the payment account that the record names, on
/// the buyer's signature; then it moves the one token from the holding account
/// that the record names to the buyer's account for it, signed for by the
/// program under the seeds of the holding address; then the record is
/// destroyed and its balance goes to the buyer.
pub open spec fn buy_plan(
    token_program_id: Address,
    buyer: Address,
    buyer_payment_wallet: Address,
    buyer_item_wallet: Address,
    record: ItemMetadata,
    holder: Address,
    bump: u8,
) -> PlanView {
    PlanView {
        invocations: seq![
            InvocationView {
                instruction: transfer_instruction(
                    token_program_id,
                    buyer_payment_wallet,
                    record.payment,
                    buyer,
                    record.lamports,
                ),
                accounts: seq![1usize, 4, 0],
                signer_seeds: None,
            },
            InvocationView {
                instruction: transfer_instruction(
                    token_program_id,
                    record.item,
                    buyer_item_wallet,
                    holder,
                    1,
                ),
                accounts: seq![3usize, 2, 7],
                signer_seeds: Some(SignerSeeds { seed: Seed::Item, mint: record.mint, bump }),
            },
        ],
        settlement: Settlement::CloseRecord { account: 5, recipient: 0 },
    }
}

/// What `buy` answers. The checks come in this order, and the first that
/// fails decides the error: the number of accounts; this program as owner of
/// the record's account, which must have a balance, for a record that was
/// closed has none and is no record any more; the record, which must be
/// readable; the token program, which the caller must have named rightly; the
/// holding address of the record's mint, which must exist.
pub open spec fn buy_outcome(program_id: Address, accounts: Seq<AccountView>) -> Result<
    PlanView,
    ProgramError,
> {
    if accounts.len() < BUY_ACCOUNTS {
        Err(ProgramError::NotEnoughAccountKeys)
    } else {
        let record = ItemMetadata::decoding(accounts[5].data);
        let holder = derived_address(Seed::Item.tag(), record->0.mint, program_id);
        if accounts[5].owner != program_id || accounts[5].lamports == 0 {
            Err(ProgramError::IllegalOwner)
        } else if record.is_none() {
            Err(ProgramError::BorshIoError)
        } else if accounts[6].key != token_program() {
            Err(ProgramError::IncorrectProgramId)
        } else if holder.is_none() {
            Err(ProgramError::InvalidSeeds)
        } else {
            Ok(
                buy_plan(
                    accounts[6].key,
                    accounts[0].key,
                    accounts[1].key,
                    accounts[2].key,
                    record->0,
                    holder.unwrap().0,
                    holder.unwrap().1,
                ),
            )
        }
    }
}

/// Checks a purchase and plans it.
pub fn buy(program_id: &Address, accounts: &[Account]) -> (r: Result<Plan, ProgramError>)
    ensures
        match r {
            Ok(plan) => buy_outcome(*program_id, views(accounts@)) == Ok::<PlanView, ProgramError>(
                plan@,
            ),
            Err(e) => buy_outcome(*program_id, views(accounts@)) == Err::<PlanView, ProgramError>(
                e,
            ),
        },
{
    if accounts.len() < BUY_ACCOUNTS {
        return Err(ProgramError::NotEnoughAccountKeys);
    }
    let buyer = &accounts[0];
    let buyer_payment_wallet = &accounts[1];
    let buyer_item_wallet = &accounts[2];
    let item_metadata = &accounts[5];
    let spl_token = &accounts[6];

    if item_metadata.owner != *program_id || item_metadata.lamports == 0 {
        return Err(ProgramError::IllegalOwner);
    }
    let metadata = ItemMetadata::unpack(item_metadata.data.as_slice())?;

    // Payment from the buyer to the seller
    let payment = Invocation {
        instruction: crate::token::transfer(
            &spl_token.key,
            &buyer_payment_wallet.key,
            &metadata.payment,
            &buyer.key,
            metadata.lamports,
        )?,
        accounts: vec![1, 4, 0],
        signer_seeds: None,
    };
    let (item_addr, item_bump) = match crate::find_item_address(program_id, &metadata.mint) {
        Some(found) => found,
        None => {
            return Err(ProgramError::InvalidSeeds);
        },
    };
    // The token from the program to the buyer
    let delivery = Invocation {
        instruction: crate::token::transfer(
            &spl_token.key,
            &metadata.item,
            &buyer_item_wallet.key,
            &item_addr,
            1,
        )?,
        accounts: vec![3, 2, 7],
        signer_seeds: Some(SignerSeeds { seed: Seed::Item, mint: metadata.mint, bump: item_bump }),
    };
    let plan = Plan {
        invocations: vec![payment, delivery],
        settlement: Settlement::CloseRecord { account: 5, recipient: 0 },
    };
    proof {
        let expected = buy_plan(
            spl_token.key,
            buyer.key,
            buyer_payment_wallet.key,
            buyer_item_wallet.key,
            metadata,
            item_addr,
            item_bump,
        );
        assert(payment@.accounts =~= seq![1usize, 4, 0]);
        assert(delivery@.accounts =~= seq![3usize, 2, 7]);
        assert(payment@ == expected.invocations[0]);
        assert(delivery@ == expected.invocations[1]);
        assert(plan@.invocations =~= expected.invocations);
    }
    Ok(plan)
}

/// The plan of a cancellation: the token program moves the one token from
/// the holding account that the record names to the seller's account for it,
/// signed for by the program under the seeds of the holding address; then the
/// record is destroyed and its balance goes to the seller. Nothing is paid.
pub open spec fn cancel_plan(
    token_program_id: Address,
    seller_item_wallet: Address,
    record: ItemMetadata,
    holder: Address,
    bump: u8,
) -> PlanView {
    PlanView {
        invocations: seq![
            InvocationView {
                instruction: transfer_instruction(
                    token_program_id,
                    record.item,
                    seller_item_wallet,
                    holder,
                    1,
                ),
                accounts: seq![3usize, 4, 5],
                signer_seeds: Some(SignerSeeds { seed: Seed::Item, mint: record.mint, bump }),
            },
        ],
        settlement: Settlement::CloseRecord { account: 1, recipient: 0 },
    }
}

/// What `cancel` answers. The checks come in this order, and the first that
/// fails decides the error: the number of accounts; the signature of the
/// first account; this program as owner of the record's account, which must
/// have a balance, for a record that was closed has none and is no record
/// any more; the record, which must be readable; the first account, which
/// must be the record's seller; the holding address of the record's mint,
/// which must exist; the token program, which the caller must have named
/// rightly.
pub open spec fn cancel_outcome(program_id: Address, accounts: Seq<AccountView>) -> Result<
    PlanView,
    ProgramError,
> {
    if accounts.len() < CANCEL_ACCOUNTS {
        Err(ProgramError::NotEnoughAccountKeys)
    } else {
        let record = ItemMetadata::decoding(accounts[1].data);
        let holder = derived_address(Seed::Item.tag(), record->0.mint, program_id);
        if !accounts[0].is_signer {
            Err(ProgramError::MissingRequiredSignature)
        } else if accounts[1].owner != program_id || accounts[1].lamports == 0 {
            Err(ProgramError::IllegalOwner)
        } else if record.is_none() {
            Err(ProgramError::BorshIoError)
        } else if record->0.seller != accounts[0].key {
            Err(ProgramError::InvalidAccountData)
        } else if holder.is_none() {
            Err(ProgramError::InvalidSeeds)
        } else if accounts[2].key != token_program() {
            Err(ProgramError::IncorrectProgramId)
        } else {
            Ok(
                cancel_plan(
                    accounts[2].key,
                    accounts[4].key,
                    record->0,
                    holder.unwrap().0,
                    holder.unwrap().1,
                ),
            )
        }
    }
}

/// Checks a cancellation and plans it.
pub fn cancel(program_id: &Address, accounts: &[Account]) -> (r: Result<Plan, ProgramError>)
    ensures
        match r {
            Ok(plan) => cancel_outcome(*program_id, views(accounts@)) == Ok::<
                PlanView,
                ProgramError,
            >(plan@),
            Err(e) => cancel_outcome(*program_id, views(accounts@)) == Err::<
                PlanView,
                ProgramError,
            >(e),
        },
{
    if accounts.len() < CANCEL_ACCOUNTS {
        return Err(ProgramError::NotEnoughAccountKeys);
    }
    let seller = &accounts[0];
    let item_metadata = &accounts[1];
    let spl_token = &accounts[2];
    let seller_item_wallet = &accounts[4];

    if !seller.is_signer {
        return Err(ProgramError::MissingRequiredSignature);
    }
    if item_metadata.owner != *program_id || item_metadata.lamports == 0 {
        return Err(ProgramError::IllegalOwner);
    }
    let metadata = ItemMetadata::unpack(item_metadata.data.as_slice())?;
    if metadata.seller != seller.key {
        return Err(ProgramError::InvalidAccountData);
    }
    let (item_addr, item_bump) = match crate::find_item_address(program_id, &metadata.mint) {
        Some(found) => found,
        None => {
            return Err(ProgramError::InvalidSeeds);
        },
    };
    // The token from the program back to the seller
    let giving_back = Invocation {
        instruction: crate::token::transfer(
            &spl_token.key,
            &metadata.item,
            &seller_item_wallet.key,
            &item_addr,
            1,
        )?,
        accounts: vec![3, 4, 5],
        signer_seeds: Some(SignerSeeds { seed: Seed::Item, mint: metadata.mint, bump: item_bump }),
    };
    let plan = Plan {
        invocations: vec![giving_back],
        settlement: Settlement::CloseRecord { account: 1, recipient: 0 },
    };
    proof {
        let expected = cancel_plan(
            spl_token.key,
            seller_item_wallet.key,
            metadata,
            item_addr,
            item_bump,
        );
        assert(giving_back@.accounts =~= seq![3usize, 4, 5]);
        assert(giving_back@ == expected.invocations[0]);
        assert(plan@.invocations =~= expected.invocations);
    }
    Ok(plan)
}

/// What `instruction_processor` answers: what reading the instruction data
/// gives, and then what the handler of the instruction answers.
pub open spec fn processing(
    program_id: Address,
    accounts: Seq<AccountView>,
    instruction_data: Seq<u8>,
    rent_exempt_lamports: u64,
) -> Result<PlanView, ProgramError> {
    match TradeYardInstruction::unpacking(instruction_data) {
        Err(e) => Err(e),
        Ok((TradeYardInstruction::Sell, args)) => sell_outcome(
            program_id,
            accounts,
            args,
            rent_exempt_lamports,
        ),
        Ok((TradeYardInstruction::Buy, _)) => buy_outcome(program_id, accounts),
        Ok((TradeYardInstruction::Cancel, _)) => cancel_outcome(program_id, accounts),
    }
}

/// Reads an instruction, checks it against its accounts and plans it.
/// `rent_exempt_lamports` is the balance that an account of `RECORD_LEN` bytes
/// needs to be kept for good; only `Sell` uses it.
pub fn instruction_processor(
    program_id: &Address,
    accounts: &[Account],
    instruction_data: &[u8],
    rent_exempt_lamports: u64,
) -> (r: Result<Plan, ProgramError>)
    ensures
        match r {
            Ok(plan) => processing(
                *program_id,
                views(accounts@),
                instruction_data@,
                rent_exempt_lamports,
            ) == Ok::<PlanView, ProgramError>(plan@),
            Err(e) => processing(
                *program_id,
                views(accounts@),
                instruction_data@,
                rent_exempt_lamports,
            ) == Err::<PlanView, ProgramError>(e),
        },
{
    let (instruction, args) = TradeYardInstruction::unpack(instruction_data)?;
    match instruction {
        TradeYardInstruction::Sell => sell(program_id, accounts, args, rent_exempt_lamports),
        TradeYardInstruction::Buy => buy(program_id, accounts),
        TradeYardInstruction::Cancel => cancel(program_id, accounts),
    }
}

/// What comes next while a plan is carried out.
#[derive(Clone, Copy, Debug, PartialEq, Eq)]
pub enum Step {
    /// The call at this position among the plan's calls is to be made.
    Call(usize),
    /// Every call has succeeded: the settlement is to be made.
    Settle,
    /// A call has failed: the instruction fails with the error of the call,
    /// and nothing is settled.
    Fail(ProgramError),
}

/// What comes next after `done` calls of a plan.
pub open spec fn step_after(plan: PlanView, done: usize, last: Option<ProgramError>) -> Step {
    match last {
        Some(e) => Step::Fail(e),
        None => if done < plan.invocations.len() {
            Step::Call(done)
        } else {
            Step::Settle
        },
    }
}

/// Says what comes next while a plan is carried out: `done` is the number of
/// calls made so far, and `last` the error of the last of them, if it
/// failed. The calls are made in their order; the first that fails ends the
/// instruction with its error; the settlement comes when all have succeeded,
/// and not before.
pub fn next_step(plan: &Plan, done: usize, last: Option<ProgramError>) -> (s: Step)
    ensures
        s == step_after(plan@, done, last),
{
    match last {
        Some(e) => Step::Fail(e),
        None => {
            if done < plan.invocations.len() {
                Step::Call(done)
            } else {
                Step::Settle
            }
        },
    }
}

/// An account after a record was written over the first `RECORD_LEN` bytes of
/// its data.
pub open spec fn written(account: AccountView, record: ItemMetadata) -> AccountView {
    AccountView { data: record.encoding() + account.data.skip(RECORD_LEN as int), ..account }
}

/// An account after `lamports` were added to its balance.
pub open spec fn credited(account: AccountView, lamports: u64) -> AccountView {
    AccountView { lamports: (account.lamports + lamports) as u64, ..account }
}

/// An account after it was destroyed: no balance, and every byte zero.
pub open spec fn closed(account: AccountView) -> AccountView {
    AccountView {
        lamports: 0,
        data: Seq::new(account.data.len(), |i: int| 0u8),
        ..account
    }
}

/// The accounts after a settlement, or why it cannot be made: an account that
/// is not among those passed, an account too small for the record, or a
/// balance that would not fit.
pub open spec fn settled(settlement: Settlement, accounts: Seq<AccountView>) -> Result<
    Seq<AccountView>,
    ProgramError,
> {
    match settlement {
        Settlement::WriteRecord { account, record } => {
            if account >= accounts.len() {
                Err(ProgramError::NotEnoughAccountKeys)
            } else if accounts[account as int].data.len() < RECORD_LEN {
                Err(ProgramError::BorshIoError)
            } else {
                Ok(accounts.update(account as int, written(accounts[account as int], record)))
            }
        },
        Settlement::CloseRecord { account, recipient } => {
            if account >= accounts.len() || recipient >= accounts.len() {
                Err(ProgramError::NotEnoughAccountKeys)
            } else if accounts[recipient as int].lamports + accounts[account as int].lamports
                > u64::MAX {
                Err(ProgramError::ArithmeticOverflow)
            } else {
                Ok(
                    accounts.update(
                        recipient as int,
                        credited(accounts[recipient as int], accounts[account as int].lamports),
                    ).update(account as int, closed(accounts[account as int])),
                )
            }
        },
    }
}

/// Writes `bytes` over the start of `data`.
fn overwrite(data: &mut Vec<u8>, bytes: &[u8])
    requires
        bytes@.len() <= old(data)@.len(),
    ensures
        final(data)@ == bytes@ + old(data)@.skip(bytes@.len() as int),
{
    let n = bytes.len();
    let mut i: usize = 0;
    while i < n
        invariant
            i <= n,
            n == bytes@.len(),
            data@.len() == old(data)@.len(),
            n <= data@.len(),
            data@ == bytes@.subrange(0, i as int) + old(data)@.skip(i as int),
        decreases n - i,
    {
        let ghost before = data@;
        data[i] = bytes[i];
        assert(data@ == before.update(i as int, bytes@[i as int]));
        assert(data@ =~= bytes@.subrange(0, i + 1) + old(data)@.skip(i + 1));
        i += 1;
    }
    assert(bytes@.subrange(0, n as int) =~= bytes@);
}

/// Sets every byte of `data` to zero.
fn zero(data: &mut Vec<u8>)
    ensures
        final(data)@ == Seq::new(old(data)@.len(), |i: int| 0u8),
{
    let n = data.len();
    let mut i: usize = 0;
    while i < n
        invariant
            i <= n,
            n == data@.len(),
            data@.len() == old(data)@.len(),
            forall|j: int| 0 <= j < i ==> data@[j] == 0,
        decreases n - i,
    {
        data[i] = 0;
        i += 1;
    }
    assert(data@ =~= Seq::new(old(data)@.len(), |i: int| 0u8));
}

/// Makes the settlement of a plan on the accounts of the instruction, as they
/// are after the plan's calls. Where it cannot be made, nothing changes.
pub fn settle(settlement: &Settlement, accounts: &mut Vec<Account>) -> (r: Result<
    (),
    ProgramError,
>)
    ensures
        final(accounts)@.len() == old(accounts)@.len(),
        match r {
            Ok(()) => settled(*settlement, views(old(accounts)@)) == Ok::<
                Seq<AccountView>,
                ProgramError,
            >(views(final(accounts)@)),
            Err(e) => settled(*settlement, views(old(accounts)@)) == Err::<
                Seq<AccountView>,
                ProgramError,
            >(e) && views(final(accounts)@) == views(old(accounts)@),
        },
{
    match *settlement {
        Settlement::WriteRecord { account, record } => {
            if account >= accounts.len() {
                return Err(ProgramError::NotEnoughAccountKeys);
            }
            if accounts[account].data.len() < RECORD_LEN {
                return Err(ProgramError::BorshIoError);
            }
            let bytes = record.pack();
            overwrite(&mut accounts[account].data, bytes.as_slice());
            assert(views(accounts@) =~= views(old(accounts)@).update(
                account as int,
                written(views(old(accounts)@)[account as int], record),
            ));
            Ok(())
        },
        Settlement::CloseRecord { account, recipient } => {
            if account >= accounts.len() || recipient >= accounts.len() {
                return Err(ProgramError::NotEnoughAccountKeys);
            }
            let metadata_lamports = accounts[account].lamports;
            let total = match accounts[recipient].lamports.checked_add(metadata_lamports) {
                Some(total) => total,
                None => {
                    return Err(ProgramError::ArithmeticOverflow);
                },
            };
            accounts[recipient].lamports = total;
            accounts[account].lamports = 0;
            zero(&mut accounts[account].data);
            assert(views(accounts@) =~= views(old(accounts)@).update(
                recipient as int,
                credited(views(old(accounts)@)[recipient as int], metadata_lamports),
            ).update(account as int, closed(views(old(accounts)@)[account as int])));
            Ok(())
        },
    }
}

} // verus!
