use vstd::prelude::*;
use crate::address::Address;

verus! {

/// An account as an instruction finds it: where it is, whose it is, what it
/// holds, and what the transaction lets the instruction do with it.
#[derive(Clone, Debug, PartialEq, Eq)]
pub struct Account {
    pub key: Address,
    /// The program that owns the account and alone may change its data.
    pub owner: Address,
    pub lamports: u64,
    pub data: Vec<u8>,
    /// Whether the account's key signed the transaction.
    pub is_signer: bool,
    pub is_writable: bool,
}

/// An `Account` as a mathematical value.
pub struct AccountView {
    pub key: Address,
    pub owner: Address,
    pub lamports: u64,
    pub data: Seq<u8>,
    pub is_signer: bool,
    pub is_writable: bool,
}

impl View for Account {
    type V = AccountView;

    open spec fn view(&self) -> AccountView {
        AccountView {
            key: self.key,
            owner: self.owner,
            lamports: self.lamports,
            data: self.data@,
            is_signer: self.is_signer,
            is_writable: self.is_writable,
        }
    }
}

/// The accounts of an instruction as mathematical values, in their order.
pub open spec fn views(accounts: Seq<Account>) -> Seq<AccountView> {
    accounts.map_values(|a: Account| a@)
}

} // verus!
