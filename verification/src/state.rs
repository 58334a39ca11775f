//! The records that the program keeps in its accounts.

use vstd::prelude::*;

pub mod cashlink;
pub mod redemption;

verus! {

/// Size in bytes of an account that only marks, by existing, that something
/// has happened.
pub const FLAG_ACCOUNT_SIZE: usize = 1;

/// First seed of the address of a fingerprint marker.
pub const FINGERPRINT_PREFIX: &'static str = "fingerprint";

/// A record that tells whether it has been initialized.
pub trait IsInitialized {
    /// Whether the record has been initialized.
    spec fn spec_initialized(&self) -> bool;

    /// Whether the record has been initialized.
    fn is_initialized(&self) -> (b: bool)
        ensures
            b == self.spec_initialized(),
    ;
}

/// The kind of record that an account of the program holds.
#[derive(Clone, Copy, Debug, PartialEq, Eq, Structural)]
pub enum AccountType {
    /// The account holds no record yet. Fresh, zeroed data reads as this.
    Uninitialized,
    /// The account holds a cash link.
    CashLink,
    /// The account holds the marker of a redemption.
    Redemption,
}

impl Default for AccountType {
    fn default() -> (kind: AccountType)
        ensures
            kind == AccountType::Uninitialized,
    {
        AccountType::Uninitialized
    }
}

impl AccountType {
    /// The index of the variant: the byte that stands for it in a record.
    pub open spec fn spec_tag(self) -> u8 {
        match self {
            AccountType::Uninitialized => 0,
            AccountType::CashLink => 1,
            AccountType::Redemption => 2,
        }
    }

    /// The variant with the given index, if there is one.
    pub open spec fn spec_from_tag(tag: u8) -> Option<AccountType> {
        if tag == 0 {
            Some(AccountType::Uninitialized)
        } else if tag == 1 {
            Some(AccountType::CashLink)
        } else if tag == 2 {
            Some(AccountType::Redemption)
        } else {
            None
        }
    }

    /// The byte that stands for the kind of record in a record.
    pub fn tag(&self) -> (tag: u8)
        ensures
            tag == self.spec_tag(),
            AccountType::spec_from_tag(tag) == Some(*self),
    {
        match self {
            AccountType::Uninitialized => 0,
            AccountType::CashLink => 1,
            AccountType::Redemption => 2,
        }
    }

    /// Reads the kind of record from the byte that stands for it.
    pub fn from_tag(tag: u8) -> (value: Option<AccountType>)
        ensures
            value == AccountType::spec_from_tag(tag),
            value matches Some(v) ==> v.spec_tag() == tag,
    {
        if tag == 0 {
            Some(AccountType::Uninitialized)
        } else if tag == 1 {
            Some(AccountType::CashLink)
        } else if tag == 2 {
            Some(AccountType::Redemption)
        } else {
            None
        }
    }
}

} // verus!
