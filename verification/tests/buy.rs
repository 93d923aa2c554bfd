use solana_program::pubkey::Pubkey;
use trade_yard::account::Account;
use trade_yard::address::Address;
use trade_yard::error::ProgramError;
use trade_yard::instruction::{AccountMeta, Instruction};
use trade_yard::processor::{buy, Invocation, Plan, Settlement, SignerSeeds};
use trade_yard::state::ItemMetadata;
use trade_yard::{find_item_address, Seed};

fn buy_key(n: u8) -> Address {
    Address::new([n; 32])
}

fn buy_pubkey(a: &Address) -> Pubkey {
    Pubkey::new_from_array(a.bytes)
}

fn buy_program() -> Address {
    buy_key(42)
}

fn buy_record() -> ItemMetadata {
    ItemMetadata {
        seller: buy_key(1),
        mint: buy_key(2),
        lamports: 1000,
        payment: buy_key(5),
        item: buy_key(3),
    }
}

fn buy_account(key: Address, owner: Address, lamports: u64, data: Vec<u8>, is_signer: bool) -> Account {
    Account { key, owner, lamports, data, is_signer, is_writable: true }
}

/// The accounts of a purchase that passes every check. What the token
/// accounts hold is for the token program to judge: the purchase does not
/// read them.
fn buy_accounts() -> Vec<Account> {
    let program = buy_program();
    let token = Address::new(spl_token::id().to_bytes());
    let (holder, _) = find_item_address(&program, &buy_key(2)).unwrap();
    vec![
        buy_account(buy_key(10), Address::new([0; 32]), 5_000_000, vec![], true),
        buy_account(buy_key(11), token, 2_039_280, vec![0; 165], false),
        buy_account(buy_key(12), token, 2_039_280, vec![0; 165], false),
        buy_account(buy_key(3), token, 2_039_280, vec![0; 165], false),
        buy_account(buy_key(5), token, 2_039_280, vec![0; 165], false),
        buy_account(buy_key(4), program, 1_837_440, buy_record().pack(), false),
        buy_account(token, buy_key(99), 1, vec![], false),
        buy_account(holder, Address::new([0; 32]), 0, vec![], false),
    ]
}

fn buy_converted(ix: solana_program::instruction::Instruction) -> Instruction {
    Instruction {
        program_id: Address::new(ix.program_id.to_bytes()),
        accounts: ix
            .accounts
            .iter()
            .map(|m| AccountMeta {
                pubkey: Address::new(m.pubkey.to_bytes()),
                is_signer: m.is_signer,
                is_writable: m.is_writable,
            })
            .collect(),
        data: ix.data,
    }
}

#[test]
fn buy_plans_the_payment_the_delivery_and_the_closing() {
    let program = buy_program();
    let accounts = buy_accounts();
    let (holder, bump) = find_item_address(&program, &buy_key(2)).unwrap();
    let plan = buy(&program, &accounts).unwrap();

    let payment = Instruction {
        program_id: Address::new(spl_token::id().to_bytes()),
        accounts: vec![
            AccountMeta { pubkey: buy_key(11), is_signer: false, is_writable: true },
            AccountMeta { pubkey: buy_key(5), is_signer: false, is_writable: true },
            AccountMeta { pubkey: buy_key(10), is_signer: true, is_writable: false },
        ],
        data: vec![3, 0xe8, 3, 0, 0, 0, 0, 0, 0],
    };
    let delivery = Instruction {
        program_id: Address::new(spl_token::id().to_bytes()),
        accounts: vec![
            AccountMeta { pubkey: buy_key(3), is_signer: false, is_writable: true },
            AccountMeta { pubkey: buy_key(12), is_signer: false, is_writable: true },
            AccountMeta { pubkey: holder, is_signer: true, is_writable: false },
        ],
        data: vec![3, 1, 0, 0, 0, 0, 0, 0, 0],
    };
    let expected = Plan {
        invocations: vec![
            Invocation { instruction: payment, accounts: vec![1, 4, 0], signer_seeds: None },
            Invocation {
                instruction: delivery,
                accounts: vec![3, 2, 7],
                signer_seeds: Some(SignerSeeds { seed: Seed::Item, mint: buy_key(2), bump }),
            },
        ],
        settlement: Settlement::CloseRecord { account: 5, recipient: 0 },
    };
    assert_eq!(plan, expected);
}

#[test]
fn buy_calls_are_those_that_the_token_program_builds() {
    let program = buy_program();
    let accounts = buy_accounts();
    let (holder, _) = find_item_address(&program, &buy_key(2)).unwrap();
    let plan = buy(&program, &accounts).unwrap();
    let payment = spl_token::instruction::transfer(
        &spl_token::id(),
        &buy_pubkey(&buy_key(11)),
        &buy_pubkey(&buy_key(5)),
        &buy_pubkey(&buy_key(10)),
        &[],
        1000,
    )
    .unwrap();
    let delivery = spl_token::instruction::transfer(
        &spl_token::id(),
        &buy_pubkey(&buy_key(3)),
        &buy_pubkey(&buy_key(12)),
        &buy_pubkey(&holder),
        &[],
        1,
    )
    .unwrap();
    assert_eq!(plan.invocations[0].instruction, buy_converted(payment));
    assert_eq!(plan.invocations[1].instruction, buy_converted(delivery));
}

#[test]
fn buy_pays_the_account_that_the_record_names() {
    // the payment account that the caller passes is not what decides
    let program = buy_program();
    let mut accounts = buy_accounts();
    accounts[4].key = buy_key(66);
    accounts[3].key = buy_key(67);
    let plan = buy(&program, &accounts).unwrap();
    assert_eq!(plan.invocations[0].instruction.accounts[1].pubkey, buy_key(5));
    assert_eq!(plan.invocations[1].instruction.accounts[0].pubkey, buy_key(3));
}

#[test]
fn buy_asks_for_the_listed_price() {
    let program = buy_program();
    for price in [0u64, 1, 255, 256, 0x0102_0304_0506_0708, u64::MAX] {
        let mut accounts = buy_accounts();
        let mut record = buy_record();
        record.lamports = price;
        accounts[5].data = record.pack();
        let plan = buy(&program, &accounts).unwrap();
        let mut data = vec![3u8];
        data.extend_from_slice(&price.to_le_bytes());
        assert_eq!(plan.invocations[0].instruction.data, data);
        assert_eq!(plan.invocations[1].instruction.data, vec![3, 1, 0, 0, 0, 0, 0, 0, 0]);
    }
}

#[test]
fn buy_signs_for_the_holding_address_of_the_records_mint() {
    let program = buy_program();
    let mut accounts = buy_accounts();
    let mut record = buy_record();
    record.mint = buy_key(77);
    accounts[5].data = record.pack();
    let (holder, bump) = find_item_address(&program, &buy_key(77)).unwrap();
    let plan = buy(&program, &accounts).unwrap();
    assert_eq!(plan.invocations[1].instruction.accounts[2].pubkey, holder);
    assert_eq!(
        plan.invocations[1].signer_seeds,
        Some(SignerSeeds { seed: Seed::Item, mint: buy_key(77), bump })
    );
}

#[test]
fn buy_needs_eight_accounts() {
    let accounts = buy_accounts();
    for n in 0..8 {
        assert_eq!(buy(&buy_program(), &accounts[..n]), Err(ProgramError::NotEnoughAccountKeys));
    }
}

#[test]
fn buy_needs_a_record_of_this_program() {
    let program = buy_program();
    let mut accounts = buy_accounts();
    accounts[5].owner = Address::new([0; 32]);
    assert_eq!(buy(&program, &accounts), Err(ProgramError::IllegalOwner));
    accounts[5].owner = Address::new(spl_token::id().to_bytes());
    assert_eq!(buy(&program, &accounts), Err(ProgramError::IllegalOwner));
    let mut nearly = [42u8; 32];
    nearly[31] = 43;
    accounts[5].owner = Address::new(nearly);
    assert_eq!(buy(&program, &accounts), Err(ProgramError::IllegalOwner));
    // under another program the same accounts are not its own
    assert_eq!(buy(&buy_key(43), &buy_accounts()), Err(ProgramError::IllegalOwner));
}

#[test]
fn buy_fails_where_no_record_was_ever_made() {
    let mut accounts = buy_accounts();
    accounts[5] = buy_account(buy_key(4), Address::new([0; 32]), 0, vec![], false);
    assert_eq!(buy(&buy_program(), &accounts), Err(ProgramError::IllegalOwner));
}

#[test]
fn buy_needs_a_readable_record() {
    let program = buy_program();
    let mut accounts = buy_accounts();
    accounts[5].data.push(0);
    assert_eq!(buy(&program, &accounts), Err(ProgramError::BorshIoError));
    accounts[5].data = vec![0; 135];
    assert_eq!(buy(&program, &accounts), Err(ProgramError::BorshIoError));
    accounts[5].data = vec![];
    assert_eq!(buy(&program, &accounts), Err(ProgramError::BorshIoError));
}

#[test]
fn buy_needs_the_token_program() {
    let program = buy_program();
    let mut accounts = buy_accounts();
    accounts[6].key = Address::new([0; 32]);
    assert_eq!(buy(&program, &accounts), Err(ProgramError::IncorrectProgramId));
    accounts[6].key = program;
    assert_eq!(buy(&program, &accounts), Err(ProgramError::IncorrectProgramId));
    let mut nearly = spl_token::id().to_bytes();
    nearly[0] ^= 1;
    accounts[6].key = Address::new(nearly);
    assert_eq!(buy(&program, &accounts), Err(ProgramError::IncorrectProgramId));
}

#[test]
fn buy_reports_the_first_check_that_fails() {
    let program = buy_program();
    let mut accounts = buy_accounts();
    accounts[6].key = buy_key(1);
    accounts[5].data = vec![1, 2, 3];
    assert_eq!(buy(&program, &accounts), Err(ProgramError::BorshIoError));
    accounts[5].owner = buy_key(1);
    assert_eq!(buy(&program, &accounts), Err(ProgramError::IllegalOwner));
    assert_eq!(buy(&program, &accounts[..7]), Err(ProgramError::NotEnoughAccountKeys));
}

#[test]
fn buy_does_not_ask_for_a_signature() {
    // whether the buyer signed is for the token program to ask, which moves the payment
    let program = buy_program();
    let mut accounts = buy_accounts();
    let plan = buy(&program, &accounts).unwrap();
    accounts[0].is_signer = false;
    assert_eq!(buy(&program, &accounts), Ok(plan));
}

#[test]
fn buy_leaves_the_accounts_alone() {
    let accounts = buy_accounts();
    let before = accounts.clone();
    assert!(buy(&buy_program(), &accounts).is_ok());
    assert_eq!(accounts, before);
}
