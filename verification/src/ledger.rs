//! The life of a listing, as the ledger and the program shape it together.
//!
//! The program asks and settles; the ledger creates accounts, lets the token
//! program move units, and gives up accounts that are left without a balance.
//! What the ledger does to the account of a listing record is written down
//! here as far as the life of a listing depends on it, and the life of a
//! listing is proved from it: no listing, a sale, a listing, a purchase or a
//! cancellation, no listing. A mint has one place for its record, so it has
//! one listing at a time.

use vstd::prelude::*;
use crate::account::AccountView;
use crate::address::{derived_address, Address};
use crate::error::ProgramError;
use crate::instruction::{
    lemma_unpacking_of_instruction_data, sell_instruction, Args, TradeYardInstruction,
};
use crate::processor::{
    buy_outcome, cancel_outcome, closed, credited, in_custody, non_fungible, processing,
    sell_outcome, sell_plan, settled, PlanView, Settlement, SignerSeeds, BUY_ACCOUNTS,
    CANCEL_ACCOUNTS, SELL_ACCOUNTS,
};
use crate::state::{ItemMetadata, RECORD_LEN};
use crate::system::{create_account_instruction, system_program};
use crate::token::{
    lemma_mint_unpacking, lemma_token_account_unpacking, mint_layout, token_account_layout,
    token_program, transfer_instruction, AccountState, Mint, TokenAccount,
};
use crate::Seed;

verus! {

/// What the ledger shows at an address where it keeps no account: nothing,
/// in the hands of the system program.
pub open spec fn vacant(account: AccountView) -> bool {
    account.lamports == 0 && account.data.len() == 0 && account.owner == system_program()
}

/// Whether an account signs a call that a program makes: its key has signed
/// the transaction, or the program signs for it with seeds. The ledger takes
/// the program's signature for the address that the seeds derive under the
/// program. Of such seeds, those with the bump seed that the derivation finds
/// are written down here: a plan of this program carries no others.
pub open spec fn signs(caller: Address, seeds: Option<SignerSeeds>, account: AccountView) -> bool {
    ||| account.is_signer
    ||| seeds matches Some(s) && derived_address(s.seed.tag(), s.mint, caller) == Some(
        (account.key, s.bump),
    )
}

/// What the system program makes of a request to create an account that a
/// program passes on with its seeds, by who signs, what stands at the address
/// and what the payer has. Where the payer or the new account does not sign,
/// the ledger refuses the call for want of a signature. An address in use is
/// refused with the system program's error 0, an account with the same
/// address already exists; a payer with too small a balance with its error 1;
/// else the payer gives the balance, and the account gets it, with the size,
/// all bytes zero, and the owner. The payer comes first in the result.
pub open spec fn created(
    caller: Address,
    seeds: Option<SignerSeeds>,
    payer: AccountView,
    target: AccountView,
    lamports: u64,
    space: u64,
    owner: Address,
) -> Result<(AccountView, AccountView), ProgramError> {
    if !signs(caller, seeds, payer) || !signs(caller, seeds, target) {
        Err(ProgramError::MissingRequiredSignature)
    } else if !vacant(target) {
        Err(ProgramError::Custom(0))
    } else if payer.lamports < lamports {
        Err(ProgramError::Custom(1))
    } else {
        Ok(
            (
                AccountView { lamports: (payer.lamports - lamports) as u64, ..payer },
                AccountView {
                    owner,
                    lamports,
                    data: Seq::new(space as nat, |i: int| 0u8),
                    ..target
                },
            ),
        )
    }
}

/// What the ledger keeps of an account when the transaction is over: an
/// account without a balance is given up, and its address is vacant again.
pub open spec fn kept(account: AccountView) -> AccountView {
    if account.lamports == 0 {
        AccountView { owner: system_program(), data: Seq::empty(), ..account }
    } else {
        account
    }
}

/// The open listing that stands in an account: the account is the program's
/// own, has a balance, and holds a record.
pub open spec fn listing(program_id: Address, account: AccountView) -> Option<ItemMetadata> {
    if account.owner == program_id && account.lamports > 0 {
        ItemMetadata::decoding(account.data)
    } else {
        None
    }
}

/// The place of a mint's record: the address that is derived for it, with
/// the bump seed.
pub open spec fn record_place(program_id: Address, mint: Address) -> Option<(Address, u8)> {
    derived_address(Seed::ItemMetadata.tag(), mint, program_id)
}

/// A sale of a unique token that is in the program's custody is accepted:
/// where the mint, the holding account and the payment account belong to the
/// token program, the mint says one unit and no issuer, the holding account
/// says one unit of the mint on behalf of the mint's holding address, the
/// payment account is in use, both arguments are there, and the account for
/// the record and the bump seed are those of the place of the mint's record,
/// `sell` plans the creation of the record's account and the writing of the
/// record.
pub proof fn lemma_sale_accepted(
    program_id: Address,
    accounts: Seq<AccountView>,
    args: Args,
    rent_exempt_lamports: u64,
    mint: Mint,
    wallet: TokenAccount,
    payment: TokenAccount,
)
    requires
        accounts.len() >= SELL_ACCOUNTS,
        accounts[1].owner == token_program(),
        accounts[2].owner == token_program(),
        accounts[4].owner == token_program(),
        mint_layout(accounts[2].data, mint),
        non_fungible(mint),
        token_account_layout(accounts[1].data, wallet),
        derived_address(Seed::Item.tag(), accounts[2].key, program_id) matches Some((holder, _))
            && in_custody(wallet, holder, accounts[2].key),
        token_account_layout(accounts[4].data, payment),
        payment.state != AccountState::Uninitialized,
        args.lamports.is_some(),
        args.metadata_bump.is_some(),
        record_place(program_id, accounts[2].key) == Some(
            (accounts[3].key, args.metadata_bump->0),
        ),
    ensures
        sell_outcome(program_id, accounts, args, rent_exempt_lamports) == Ok::<
            PlanView,
            ProgramError,
        >(
            sell_plan(
                program_id,
                accounts[0].key,
                accounts[1].key,
                accounts[2].key,
                accounts[3].key,
                accounts[4].key,
                args.lamports->0,
                args.metadata_bump->0,
                rent_exempt_lamports,
            ),
        ),
{
    lemma_mint_unpacking(accounts[2].data, mint);
    lemma_token_account_unpacking(accounts[1].data, wallet);
    lemma_token_account_unpacking(accounts[4].data, payment);
}

/// A sale is accepted for nothing else. Where `sell` plans a sale, the mint,
/// the holding account and the payment account belong to the token program,
/// the bytes of the mint's account say one unit and no issuer, the bytes of
/// the holding account say one unit of the mint on behalf of the mint's
/// holding address, the payment account is in use, both arguments are there,
/// and the account for the record and the bump seed are those of the place
/// of the mint's record.
pub proof fn lemma_sale_accepted_only_in_custody(
    program_id: Address,
    accounts: Seq<AccountView>,
    args: Args,
    rent_exempt_lamports: u64,
)
    requires
        sell_outcome(program_id, accounts, args, rent_exempt_lamports).is_ok(),
    ensures
        accounts.len() >= SELL_ACCOUNTS,
        accounts[1].owner == token_program(),
        accounts[2].owner == token_program(),
        accounts[4].owner == token_program(),
        exists|mint: Mint| mint_layout(accounts[2].data, mint) && non_fungible(mint),
        exists|wallet: TokenAccount, holder: Address, bump: u8|
            token_account_layout(accounts[1].data, wallet) && derived_address(
                Seed::Item.tag(),
                accounts[2].key,
                program_id,
            ) == Some((holder, bump)) && in_custody(wallet, holder, accounts[2].key),
        exists|payment: TokenAccount|
            token_account_layout(accounts[4].data, payment) && payment.state
                != AccountState::Uninitialized,
        args.lamports.is_some(),
        args.metadata_bump.is_some(),
        record_place(program_id, accounts[2].key) == Some(
            (accounts[3].key, args.metadata_bump->0),
        ),
{
    let mint = choose|m: Mint| mint_layout(accounts[2].data, m);
    assert(mint_layout(accounts[2].data, mint) && non_fungible(mint));
    let wallet = choose|a: TokenAccount| token_account_layout(accounts[1].data, a);
    let found = derived_address(Seed::Item.tag(), accounts[2].key, program_id).unwrap();
    assert(token_account_layout(accounts[1].data, wallet) && derived_address(
        Seed::Item.tag(),
        accounts[2].key,
        program_id,
    ) == Some((found.0, found.1)) && in_custody(wallet, found.0, accounts[2].key));
    let payment = choose|a: TokenAccount| token_account_layout(accounts[4].data, a);
    assert(token_account_layout(accounts[4].data, payment) && payment.state
        != AccountState::Uninitialized);
}

/// A sale as `instruction::sell` builds it is a sale at the place of the
/// mint's record. Where the accounts are those that the built instruction
/// names, in its order, and the program plans the sale from the data of the
/// built instruction, the account that the plan creates is the one at the
/// address derived for the record of the mint, and the seeds that the program
/// signs with are those of that address: the tag of records, the mint, and the
/// bump seed that the derivation found.
pub proof fn lemma_built_sale_signs_for_its_record(
    program_id: Address,
    seller: Address,
    program_item_wallet: Address,
    mint: Address,
    payment: Address,
    lamports: u64,
    accounts: Seq<AccountView>,
    rent_exempt_lamports: u64,
)
    requires
        sell_instruction(program_id, seller, program_item_wallet, mint, payment, lamports).is_some(),
        accounts.len() == SELL_ACCOUNTS,
        forall|i: int|
            0 <= i < SELL_ACCOUNTS ==> (#[trigger] accounts[i]).key == sell_instruction(
                program_id,
                seller,
                program_item_wallet,
                mint,
                payment,
                lamports,
            )->0.accounts[i].pubkey,
        processing(
            program_id,
            accounts,
            sell_instruction(program_id, seller, program_item_wallet, mint, payment, lamports)->0.data,
            rent_exempt_lamports,
        ).is_ok(),
    ensures
        ({
            let built = sell_instruction(
                program_id,
                seller,
                program_item_wallet,
                mint,
                payment,
                lamports,
            )->0;
            let plan = processing(program_id, accounts, built.data, rent_exempt_lamports)->Ok_0;
            let place = record_place(program_id, mint);
            &&& place.is_some()
            &&& plan.invocations.len() == 1
            &&& plan.invocations[0].instruction == create_account_instruction(
                seller,
                place.unwrap().0,
                rent_exempt_lamports,
                RECORD_LEN as u64,
                program_id,
            )
            &&& plan.invocations[0].signer_seeds == Some(
                SignerSeeds { seed: Seed::ItemMetadata, mint, bump: place.unwrap().1 },
            )
            &&& signs(program_id, plan.invocations[0].signer_seeds, accounts[3])
            &&& plan.settlement == Settlement::WriteRecord {
                account: 3,
                record: ItemMetadata {
                    seller,
                    mint,
                    lamports,
                    payment,
                    item: program_item_wallet,
                },
            }
        }),
{
    let place = record_place(program_id, mint);
    let args = Args { lamports: Some(lamports), metadata_bump: Some(place.unwrap().1) };
    lemma_unpacking_of_instruction_data(TradeYardInstruction::Sell, args);
    assert(accounts[0].key == seller);
    assert(accounts[1].key == program_item_wallet);
    assert(accounts[2].key == mint);
    assert(accounts[3].key == place.unwrap().0);
    assert(accounts[4].key == payment);
}

/// A sale opens the listing of a mint at the place of its record. Where
/// `sell` has planned a sale, the record's address is vacant, and the seller
/// has signed and has the balance that the record's account needs, which is
/// more than nothing: the account for the record is at the address derived
/// for the record of the mint. The plan holds one call and no other: the
/// system program is to create the record's account, paid for by the seller
/// and signed for by the program under the record's seeds; no token moves.
/// The system program creates the account as asked, the settlement writes the
/// record into it, no account but the seller's and the record's changes, and
/// the listing that then stands in the record's account names the seller,
/// the mint, the price, the payment account and the holding account of the
/// sale.
pub proof fn lemma_sale_opens_listing(
    program_id: Address,
    accounts: Seq<AccountView>,
    args: Args,
    rent_exempt_lamports: u64,
)
    requires
        sell_outcome(program_id, accounts, args, rent_exempt_lamports).is_ok(),
        vacant(accounts[3]),
        accounts[0].is_signer,
        accounts[0].lamports >= rent_exempt_lamports > 0,
    ensures
        ({
            let plan = sell_outcome(program_id, accounts, args, rent_exempt_lamports)->Ok_0;
            let made = created(
                program_id,
                plan.invocations[0].signer_seeds,
                accounts[0],
                accounts[3],
                rent_exempt_lamports,
                RECORD_LEN as u64,
                program_id,
            );
            let after = settled(
                plan.settlement,
                accounts.update(0, made.unwrap().0).update(3, made.unwrap().1),
            );
            &&& record_place(program_id, accounts[2].key) == Some(
                (accounts[3].key, args.metadata_bump->0),
            )
            &&& plan.invocations.len() == 1
            &&& plan.invocations[0].instruction == create_account_instruction(
                accounts[0].key,
                accounts[3].key,
                rent_exempt_lamports,
                RECORD_LEN as u64,
                program_id,
            )
            &&& plan.invocations[0].accounts == seq![0usize, 3]
            &&& plan.invocations[0].signer_seeds == Some(
                SignerSeeds {
                    seed: Seed::ItemMetadata,
                    mint: accounts[2].key,
                    bump: args.metadata_bump->0,
                },
            )
            &&& made.is_ok()
            &&& after.is_ok()
            &&& after->Ok_0 == accounts.update(0, after->Ok_0[0]).update(3, after->Ok_0[3])
            &&& after->Ok_0[0].lamports == accounts[0].lamports - rent_exempt_lamports
            &&& after->Ok_0[3].lamports == rent_exempt_lamports
            &&& after->Ok_0[3].key == accounts[3].key
            &&& listing(program_id, after->Ok_0[3]) == Some(
                ItemMetadata {
                    seller: accounts[0].key,
                    mint: accounts[2].key,
                    lamports: args.lamports->0,
                    payment: accounts[4].key,
                    item: accounts[1].key,
                },
            )
        }),
{
    let plan = sell_outcome(program_id, accounts, args, rent_exempt_lamports)->Ok_0;
    let record = ItemMetadata {
        seller: accounts[0].key,
        mint: accounts[2].key,
        lamports: args.lamports->0,
        payment: accounts[4].key,
        item: accounts[1].key,
    };
    let made = created(
        program_id,
        plan.invocations[0].signer_seeds,
        accounts[0],
        accounts[3],
        rent_exempt_lamports,
        RECORD_LEN as u64,
        program_id,
    )->Ok_0;
    let before = accounts.update(0, made.0).update(3, made.1);
    let after = settled(plan.settlement, before)->Ok_0;
    record.lemma_encoding_fields();
    assert(after[3].data =~= record.encoding());
    record.lemma_decoding_of_encoding();
    assert(after =~= accounts.update(0, after[0]).update(3, after[3]));
}

/// A mint that is listed is not sold again. Where a listing stands at the
/// place of a mint's record, every further sale of that mint fails, whatever
/// account is offered for the record and whatever the arguments are. For
/// another account than the one at the place of the record, `sell` refuses
/// the sale. For the account at the place of the record, which the ledger
/// shows as it stands, the creation that the plan asks for fails: with the
/// system program's error 0, an account with the same address already exists,
/// where the seller has signed, and with that error or for want of a
/// signature otherwise.
pub proof fn lemma_listed_mint_is_not_sold_again(
    program_id: Address,
    mint: Address,
    standing: AccountView,
    accounts: Seq<AccountView>,
    args: Args,
    rent_exempt_lamports: u64,
)
    requires
        record_place(program_id, mint) matches Some((place, _)) && standing.key == place,
        listing(program_id, standing).is_some(),
        accounts.len() >= SELL_ACCOUNTS ==> accounts[2].key == mint,
        accounts.len() >= SELL_ACCOUNTS && accounts[3].key == standing.key ==> accounts[3].owner
            == standing.owner && accounts[3].lamports == standing.lamports && accounts[3].data
            == standing.data,
    ensures
        match sell_outcome(program_id, accounts, args, rent_exempt_lamports) {
            Err(_) => true,
            Ok(plan) => {
                let made = created(
                    program_id,
                    plan.invocations[0].signer_seeds,
                    accounts[0],
                    accounts[3],
                    rent_exempt_lamports,
                    RECORD_LEN as u64,
                    program_id,
                );
                &&& accounts[3].key == standing.key
                &&& made.is_err()
                &&& accounts[0].is_signer ==> made->Err_0 == ProgramError::Custom(0)
                &&& made->Err_0 == ProgramError::Custom(0) || made->Err_0
                    == ProgramError::MissingRequiredSignature
            },
        },
        accounts.len() >= SELL_ACCOUNTS && accounts[3].key != standing.key ==> sell_outcome(
            program_id,
            accounts,
            args,
            rent_exempt_lamports,
        ).is_err(),
{
}

/// Whether the listing that stands in an account, if one does, stands at the
/// place of the record of its mint.
pub open spec fn in_place(program_id: Address, account: AccountView) -> bool {
    listing(program_id, account) matches Some(record) ==> (record_place(
        program_id,
        record.mint,
    ) matches Some((place, _)) && place == account.key)
}

/// Listings stay in their places, and only a sale, a purchase and a
/// cancellation make and unmake them. Take an instruction that the program
/// has planned on the accounts as it found them, and the same accounts as
/// they are when the plan's calls are through, under the keys they had.
/// Where every listing in them stands at the place of its mint's record,
/// leaving aside the record's account of the instruction itself, the same
/// holds of every account once the settlement is made. A sale changes the
/// record's account and no other, and the listing in it, where the account
/// has the size of a record, is the one that the sale describes. A purchase and a cancellation change the record's account,
/// in which no listing stands any more, and the balance of the first account,
/// and nothing else, so that every other listing is as it was, field for
/// field. The first account of a purchase or a cancellation gets the balance
/// of the record; it is taken not to be an account of the program.
pub proof fn lemma_listings_stay_in_place(
    program_id: Address,
    found: Seq<AccountView>,
    instruction_data: Seq<u8>,
    rent_exempt_lamports: u64,
    accounts: Seq<AccountView>,
)
    requires
        processing(program_id, found, instruction_data, rent_exempt_lamports).is_ok(),
        accounts.len() == found.len(),
        forall|i: int| 0 <= i < accounts.len() ==> (#[trigger] accounts[i]).key == found[i].key,
        ({
            let plan = processing(program_id, found, instruction_data, rent_exempt_lamports)->Ok_0;
            &&& settled(plan.settlement, accounts).is_ok()
            &&& plan.settlement is CloseRecord ==> accounts[0].owner != program_id
            &&& forall|i: int|
                0 <= i < accounts.len() && i != (match plan.settlement {
                    Settlement::WriteRecord { account, .. } => account,
                    Settlement::CloseRecord { account, .. } => account,
                }) ==> in_place(program_id, #[trigger] accounts[i])
        }),
    ensures
        ({
            let plan = processing(program_id, found, instruction_data, rent_exempt_lamports)->Ok_0;
            let after = settled(plan.settlement, accounts)->Ok_0;
            &&& after.len() == accounts.len()
            &&& forall|i: int| 0 <= i < after.len() ==> in_place(program_id, #[trigger] after[i])
            &&& match plan.settlement {
                Settlement::WriteRecord { account, record } => {
                    &&& forall|i: int|
                        0 <= i < after.len() && i != account ==> #[trigger] after[i]
                            == accounts[i]
                    &&& after[account as int].owner == program_id && after[account as int].lamports
                        > 0 && after[account as int].data.len() == RECORD_LEN ==> listing(
                        program_id,
                        after[account as int],
                    ) == Some(record)
                    &&& record_place(program_id, record.mint) matches Some((place, _)) && place
                        == after[account as int].key
                },
                Settlement::CloseRecord { account, recipient } => {
                    &&& forall|i: int|
                        0 <= i < after.len() && i != account && i != recipient
                            ==> #[trigger] after[i] == accounts[i]
                    &&& recipient == 0
                    &&& account != recipient
                    &&& listing(program_id, after[account as int]).is_none()
                    &&& listing(program_id, after[0]) == listing(program_id, accounts[0])
                },
            }
        }),
{
    let plan = processing(program_id, found, instruction_data, rent_exempt_lamports)->Ok_0;
    let after = settled(plan.settlement, accounts)->Ok_0;
    match plan.settlement {
        Settlement::WriteRecord { account, record } => {
            record.lemma_encoding_fields();
            ItemMetadata::lemma_decoding_defined(after[account as int].data);
            if after[account as int].data.len() == RECORD_LEN {
                assert(after[account as int].data =~= record.encoding());
                record.lemma_decoding_of_encoding();
            }
            assert(accounts[2].key == found[2].key);
            assert(accounts[3].key == found[3].key);
        },
        Settlement::CloseRecord { account, recipient } => {},
    }
}

/// An address in use is not created again: whoever asks, pays and signs, and
/// whatever balance, size and owner are asked for, where an account has a
/// balance the system program does not create it.
pub proof fn lemma_account_with_balance_is_not_created(
    caller: Address,
    seeds: Option<SignerSeeds>,
    payer: AccountView,
    target: AccountView,
    lamports: u64,
    space: u64,
    owner: Address,
)
    requires
        target.lamports > 0,
    ensures
        created(caller, seeds, payer, target, lamports, space, owner) == Err::<
            (AccountView, AccountView),
            ProgramError,
        >(
            if signs(caller, seeds, payer) && signs(caller, seeds, target) {
                ProgramError::Custom(0)
            } else {
                ProgramError::MissingRequiredSignature
            },
        ),
{
}

/// A purchase needs a listing, asks for the price and the token to be moved,
/// and leaves no listing. Where `buy` plans a purchase, a listing stands in
/// the record's account. The plan holds two calls of the token program and
/// no other: the first moves exactly the listed price from the buyer's
/// payment account to the payment account of the listing, on the buyer's
/// signature; the second moves exactly one unit from the holding account of
/// the listing to the buyer's account for the token, signed for by the
/// program as the holding address of the listing's mint. The settlement
/// then adds the whole balance of the record's account to the buyer's and
/// zeroes the record; no other account changes. From then on no listing
/// stands in the record's account, and when the transaction is over, its
/// address is vacant.
pub proof fn lemma_purchase(program_id: Address, accounts: Seq<AccountView>)
    requires
        buy_outcome(program_id, accounts).is_ok(),
        accounts[0].lamports + accounts[5].lamports <= u64::MAX,
    ensures
        ({
            let plan = buy_outcome(program_id, accounts)->Ok_0;
            let record = listing(program_id, accounts[5]);
            let holder = derived_address(Seed::Item.tag(), record->0.mint, program_id);
            let after = settled(plan.settlement, accounts);
            &&& record.is_some()
            &&& holder.is_some()
            &&& plan.invocations.len() == 2
            &&& plan.invocations[0].instruction == transfer_instruction(
                token_program(),
                accounts[1].key,
                record->0.payment,
                accounts[0].key,
                record->0.lamports,
            )
            &&& plan.invocations[0].signer_seeds.is_none()
            &&& plan.invocations[1].instruction == transfer_instruction(
                token_program(),
                record->0.item,
                accounts[2].key,
                holder.unwrap().0,
                1,
            )
            &&& plan.invocations[1].signer_seeds == Some(
                SignerSeeds { seed: Seed::Item, mint: record->0.mint, bump: holder.unwrap().1 },
            )
            &&& after.is_ok()
            &&& after->Ok_0 == accounts.update(0, after->Ok_0[0]).update(5, after->Ok_0[5])
            &&& after->Ok_0[0] == credited(accounts[0], accounts[5].lamports)
            &&& after->Ok_0[5] == closed(accounts[5])
            &&& listing(program_id, after->Ok_0[5]).is_none()
            &&& vacant(kept(after->Ok_0[5]))
        }),
{
    let plan = buy_outcome(program_id, accounts)->Ok_0;
    let after = settled(plan.settlement, accounts)->Ok_0;
    assert(after =~= accounts.update(0, after[0]).update(5, after[5]));
}

/// A cancellation needs the seller's signature and a listing of the seller,
/// asks for the token to be given back, and leaves no listing. Where `cancel`
/// plans a cancellation, the first account has signed, a listing stands in
/// the record's account, and its seller is the first account. The plan holds
/// one call of the token program and no other, which moves exactly one unit
/// from the holding account of the listing to the seller's account for the
/// token, signed for by the program as the holding address of the listing's
/// mint: nothing is paid. The settlement then adds the whole balance of the
/// record's account to the seller's and zeroes the record; no other account
/// changes. From then on no listing stands in the record's account, and
/// when the transaction is over, its address is vacant.
pub proof fn lemma_cancellation(program_id: Address, accounts: Seq<AccountView>)
    requires
        cancel_outcome(program_id, accounts).is_ok(),
        accounts[0].lamports + accounts[1].lamports <= u64::MAX,
    ensures
        ({
            let plan = cancel_outcome(program_id, accounts)->Ok_0;
            let record = listing(program_id, accounts[1]);
            let holder = derived_address(Seed::Item.tag(), record->0.mint, program_id);
            let after = settled(plan.settlement, accounts);
            &&& accounts[0].is_signer
            &&& record.is_some()
            &&& record->0.seller == accounts[0].key
            &&& holder.is_some()
            &&& plan.invocations.len() == 1
            &&& plan.invocations[0].instruction == transfer_instruction(
                token_program(),
                record->0.item,
                accounts[4].key,
                holder.unwrap().0,
                1,
            )
            &&& plan.invocations[0].signer_seeds == Some(
                SignerSeeds { seed: Seed::Item, mint: record->0.mint, bump: holder.unwrap().1 },
            )
            &&& after.is_ok()
            &&& after->Ok_0 == accounts.update(0, after->Ok_0[0]).update(1, after->Ok_0[1])
            &&& after->Ok_0[0] == credited(accounts[0], accounts[1].lamports)
            &&& after->Ok_0[1] == closed(accounts[1])
            &&& listing(program_id, after->Ok_0[1]).is_none()
            &&& vacant(kept(after->Ok_0[1]))
        }),
{
    let plan = cancel_outcome(program_id, accounts)->Ok_0;
    let after = settled(plan.settlement, accounts)->Ok_0;
    assert(after =~= accounts.update(0, after[0]).update(1, after[1]));
}

/// Without a listing there is nothing to buy and nothing to cancel. Where
/// the record's account is not the program's or has no balance, as it is
/// before a sale, at once after a purchase or a cancellation, while the
/// closed account is still the program's, and when the ledger has given the
/// account up, `buy` and `cancel` fail: with an illegal owner, unless they
/// fail before they look at the record, for want of accounts or of the
/// signature.
pub proof fn lemma_no_listing_no_deal(program_id: Address, accounts: Seq<AccountView>)
    ensures
        accounts.len() >= BUY_ACCOUNTS && (accounts[5].owner != program_id || accounts[5].lamports
            == 0) ==> buy_outcome(program_id, accounts) == Err::<PlanView, ProgramError>(
            ProgramError::IllegalOwner,
        ),
        accounts.len() < BUY_ACCOUNTS ==> buy_outcome(program_id, accounts) == Err::<
            PlanView,
            ProgramError,
        >(ProgramError::NotEnoughAccountKeys),
        accounts.len() >= CANCEL_ACCOUNTS && (accounts[1].owner != program_id
            || accounts[1].lamports == 0) ==> cancel_outcome(program_id, accounts) == Err::<
            PlanView,
            ProgramError,
        >(
            if accounts[0].is_signer {
                ProgramError::IllegalOwner
            } else {
                ProgramError::MissingRequiredSignature
            },
        ),
        accounts.len() < CANCEL_ACCOUNTS ==> cancel_outcome(program_id, accounts) == Err::<
            PlanView,
            ProgramError,
        >(ProgramError::NotEnoughAccountKeys),
        forall|account: AccountView| vacant(account) ==> account.lamports == 0,
        forall|account: AccountView| (#[trigger] closed(account)).lamports == 0,
        forall|account: AccountView| vacant(#[trigger] kept(closed(account))),
{
}

} // verus!
