use trade_yard::account::Account;
use trade_yard::address::Address;
use trade_yard::error::ProgramError;
use trade_yard::processor::{settle, Settlement};
use trade_yard::state::ItemMetadata;

fn settle_key(n: u8) -> Address {
    Address::new([n; 32])
}

fn settle_account(n: u8, lamports: u64, data: Vec<u8>) -> Account {
    Account {
        key: settle_key(n),
        owner: settle_key(n.wrapping_add(100)),
        lamports,
        data,
        is_signer: n % 2 == 0,
        is_writable: true,
    }
}

fn settle_record() -> ItemMetadata {
    ItemMetadata {
        seller: settle_key(1),
        mint: settle_key(2),
        lamports: 1000,
        payment: settle_key(5),
        item: settle_key(3),
    }
}

#[test]
fn write_record_fills_the_new_account() {
    let mut accounts = vec![
        settle_account(0, 10, vec![7; 3]),
        settle_account(1, 1_837_440, vec![0; 136]),
        settle_account(2, 30, vec![]),
    ];
    let before = accounts.clone();
    let settlement = Settlement::WriteRecord { account: 1, record: settle_record() };
    assert_eq!(settle(&settlement, &mut accounts), Ok(()));
    assert_eq!(accounts[1].data, settle_record().pack());
    assert_eq!(ItemMetadata::unpack(&accounts[1].data), Ok(settle_record()));
    accounts[1].data = vec![0; 136];
    assert_eq!(accounts, before);
}

#[test]
fn write_record_keeps_what_lies_behind_the_record() {
    let mut data = vec![0xeeu8; 140];
    data[139] = 0x11;
    let mut accounts = vec![settle_account(0, 10, data)];
    let settlement = Settlement::WriteRecord { account: 0, record: settle_record() };
    assert_eq!(settle(&settlement, &mut accounts), Ok(()));
    assert_eq!(&accounts[0].data[..136], &settle_record().pack()[..]);
    assert_eq!(&accounts[0].data[136..], &[0xee, 0xee, 0xee, 0x11]);
    assert_eq!(accounts[0].lamports, 10);
}

#[test]
fn write_record_needs_room() {
    for len in [0usize, 1, 135] {
        let mut accounts = vec![settle_account(0, 10, vec![9; len])];
        let before = accounts.clone();
        let settlement = Settlement::WriteRecord { account: 0, record: settle_record() };
        assert_eq!(settle(&settlement, &mut accounts), Err(ProgramError::BorshIoError));
        assert_eq!(accounts, before);
    }
}

#[test]
fn write_record_needs_its_account() {
    let mut accounts = vec![settle_account(0, 10, vec![0; 136])];
    let before = accounts.clone();
    let settlement = Settlement::WriteRecord { account: 1, record: settle_record() };
    assert_eq!(settle(&settlement, &mut accounts), Err(ProgramError::NotEnoughAccountKeys));
    assert_eq!(accounts, before);
    let mut none: Vec<Account> = vec![];
    let settlement = Settlement::WriteRecord { account: 0, record: settle_record() };
    assert_eq!(settle(&settlement, &mut none), Err(ProgramError::NotEnoughAccountKeys));
}

#[test]
fn close_record_moves_the_balance_and_zeroes_the_bytes() {
    let mut accounts = vec![
        settle_account(0, 5_000_000, vec![1, 2, 3]),
        settle_account(1, 77, vec![4]),
        settle_account(2, 1_837_440, settle_record().pack()),
    ];
    let settlement = Settlement::CloseRecord { account: 2, recipient: 0 };
    assert_eq!(settle(&settlement, &mut accounts), Ok(()));
    assert_eq!(accounts[0], settle_account(0, 6_837_440, vec![1, 2, 3]));
    assert_eq!(accounts[1], settle_account(1, 77, vec![4]));
    assert_eq!(accounts[2], settle_account(2, 0, vec![0; 136]));
}

#[test]
fn close_record_keeps_the_sum_of_the_balances() {
    for (a, b) in [(0u64, 0u64), (0, 9), (9, 0), (u64::MAX - 5, 5), (1, u64::MAX - 1)] {
        let mut accounts = vec![settle_account(0, a, vec![]), settle_account(1, b, vec![5; 9])];
        let settlement = Settlement::CloseRecord { account: 1, recipient: 0 };
        assert_eq!(settle(&settlement, &mut accounts), Ok(()));
        assert_eq!(accounts[0].lamports, a + b);
        assert_eq!(accounts[1].lamports, 0);
        assert_eq!(accounts[1].data, vec![0; 9]);
    }
}

#[test]
fn close_record_refuses_a_balance_that_does_not_fit() {
    for (a, b) in [(u64::MAX, 1u64), (1, u64::MAX), (u64::MAX, u64::MAX), (1 << 63, 1 << 63)] {
        let mut accounts = vec![settle_account(0, a, vec![]), settle_account(1, b, vec![5; 9])];
        let before = accounts.clone();
        let settlement = Settlement::CloseRecord { account: 1, recipient: 0 };
        assert_eq!(settle(&settlement, &mut accounts), Err(ProgramError::ArithmeticOverflow));
        assert_eq!(accounts, before);
    }
}

#[test]
fn close_record_needs_both_accounts() {
    let mut accounts = vec![settle_account(0, 1, vec![]), settle_account(1, 2, vec![5; 9])];
    let before = accounts.clone();
    for (account, recipient) in [(2usize, 0usize), (1, 2), (5, 5), (usize::MAX, 0)] {
        let settlement = Settlement::CloseRecord { account, recipient };
        assert_eq!(settle(&settlement, &mut accounts), Err(ProgramError::NotEnoughAccountKeys));
        assert_eq!(accounts, before);
    }
}

#[test]
fn close_record_into_itself_leaves_nothing() {
    let mut accounts = vec![settle_account(0, 21, vec![5; 4])];
    let settlement = Settlement::CloseRecord { account: 0, recipient: 0 };
    assert_eq!(settle(&settlement, &mut accounts), Ok(()));
    assert_eq!(accounts[0], settle_account(0, 0, vec![0; 4]));
}
