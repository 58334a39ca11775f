//! What the program reads of an account that an instruction names.

use vstd::prelude::*;
use crate::address::Address;

verus! {

/// An account as an instruction sees it.
#[derive(Debug, Clone, PartialEq, Eq)]
pub struct Account {
    /// The account's address.
    pub key: Address,
    /// The program that owns the account.
    pub owner: Address,
    /// Whether the account signed the transaction.
    pub is_signer: bool,
    /// The account's native balance.
    pub lamports: u64,
    /// The bytes that the account holds.
    pub data: Vec<u8>,
}

impl Account {
    /// Whether the account already holds something: it has a balance and its
    /// data is not empty.
    pub open spec fn spec_is_occupied(&self) -> bool {
        self.lamports > 0 && self.data@.len() > 0
    }

    /// Whether the account already holds something: it has a balance and its
    /// data is not empty.
    pub fn is_occupied(&self) -> (b: bool)
        ensures
            b == self.spec_is_occupied(),
    {
        self.lamports > 0 && self.data.len() > 0
    }
}

} // verus!
