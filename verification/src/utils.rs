//! Checks and arithmetic that the handlers share.

use vstd::prelude::*;
use crate::account::Account;
use crate::address::Address;
use crate::codec::{read_u64, spec_u64_at};
use crate::error::{CashError, ProcessError};
use crate::solana::memcmp_addresses;
use crate::state::IsInitialized;
use crate::token::TokenAccount;

verus! {

/// The number of basis points in the whole.
pub const BASIS_POINTS: u64 = 10000;

/// The fee on an amount at a rate in basis points, rounded down.
pub open spec fn spec_fee(amount: u64, fee_basis_points: u64) -> int {
    amount * fee_basis_points / 10000
}

/// Fails unless the account signed.
pub fn assert_signer(account: &Account) -> (r: Result<(), ProcessError>)
    ensures
        account.is_signer ==> r is Ok,
        !account.is_signer ==> r == Err::<(), ProcessError>(
            ProcessError::MissingRequiredSignature,
        ),
{
    if account.is_signer {
        return Ok(());
    }
    Err(ProcessError::MissingRequiredSignature)
}

/// Fails unless the account is owned by the given program.
pub fn assert_owned_by(account: &Account, owner: &Address) -> (r: Result<(), ProcessError>)
    ensures
        account.owner@ == owner@ ==> r is Ok,
        account.owner@ != owner@ ==> r == Err::<(), ProcessError>(
            ProcessError::Cash(CashError::InvalidOwner),
        ),
{
    if !cmp_pubkeys(&account.owner, owner) {
        Err(ProcessError::Cash(CashError::InvalidOwner))
    } else {
        Ok(())
    }
}

/// Fails unless the account has the given address. The error is the one
/// given, or `InvalidArgument` where none is.
pub fn assert_account_key(account: &Account, key: &Address, error: Option<CashError>) -> (r:
    Result<(), ProcessError>)
    ensures
        account.key@ == key@ ==> r is Ok,
        account.key@ != key@ ==> r == Err::<(), ProcessError>(spec_key_error(error)),
{
    if !cmp_pubkeys(&account.key, key) {
        match error {
            Some(e) => Err(ProcessError::Cash(e)),
            None => Err(ProcessError::InvalidArgument),
        }
    } else {
        Ok(())
    }
}

/// The error of a key that is not the expected one.
pub open spec fn spec_key_error(error: Option<CashError>) -> ProcessError {
    match error {
        Some(e) => ProcessError::Cash(e),
        None => ProcessError::InvalidArgument,
    }
}

/// Fails unless the account's balance reaches the minimum that exempts an
/// account of its size from rent.
pub fn assert_rent_exempt(minimum_balance: u64, account: &Account) -> (r: Result<
    (),
    ProcessError,
>)
    ensures
        account.lamports >= minimum_balance ==> r is Ok,
        account.lamports < minimum_balance ==> r == Err::<(), ProcessError>(
            ProcessError::AccountNotRentExempt,
        ),
{
    if account.lamports < minimum_balance {
        Err(ProcessError::AccountNotRentExempt)
    } else {
        Ok(())
    }
}

/// The fee on an amount at a rate in basis points, rounded down. Fails where
/// the product leaves `u64`.
pub fn calculate_fee(amount: u64, fee_basis_points: u64) -> (r: Result<u64, ProcessError>)
    ensures
        amount * fee_basis_points <= u64::MAX ==> r == Ok::<u64, ProcessError>(
            spec_fee(amount, fee_basis_points) as u64,
        ),
        amount * fee_basis_points > u64::MAX ==> r == Err::<u64, ProcessError>(
            ProcessError::Cash(CashError::Overflow),
        ),
{
    match amount.checked_mul(fee_basis_points) {
        Some(product) => Ok(product / 10000),
        None => Err(ProcessError::Cash(CashError::Overflow)),
    }
}

/// The amount with its fee added. Fails where the fee or the sum leaves `u64`.
pub fn calculate_amount_with_fee(amount: u64, fee_basis_points: u64) -> (r: Result<
    u64,
    ProcessError,
>)
    ensures
        amount * fee_basis_points <= u64::MAX && amount + spec_fee(amount, fee_basis_points)
            <= u64::MAX ==> r == Ok::<u64, ProcessError>(
            (amount + spec_fee(amount, fee_basis_points)) as u64,
        ),
        amount * fee_basis_points > u64::MAX || amount + spec_fee(amount, fee_basis_points)
            > u64::MAX ==> r == Err::<u64, ProcessError>(ProcessError::Cash(CashError::Overflow)),
{
    let fee = calculate_fee(amount, fee_basis_points)?;
    match amount.checked_add(fee) {
        Some(sum) => Ok(sum),
        None => Err(ProcessError::Cash(CashError::Overflow)),
    }
}

/// Whether two addresses are the same.
pub fn cmp_pubkeys(a: &Address, b: &Address) -> (same: bool)
    ensures
        same == (a@ == b@),
{
    memcmp_addresses(a, b) == 0
}

/// Whether the account exists: whether it has a balance.
pub fn account_exists(account: &Account) -> (r: Result<bool, ProcessError>)
    ensures
        r == Ok::<bool, ProcessError>(account.lamports > 0),
{
    Ok(account.lamports > 0)
}

/// Fails where the record is initialized.
pub fn assert_uninitialized<T: IsInitialized>(account: &T) -> (r: Result<(), ProcessError>)
    ensures
        !account.spec_initialized() ==> r is Ok,
        account.spec_initialized() ==> r == Err::<(), ProcessError>(
            ProcessError::AccountAlreadyInitialized,
        ),
{
    if account.is_initialized() {
        Err(ProcessError::AccountAlreadyInitialized)
    } else {
        Ok(())
    }
}

/// Fails unless the token account is owned by the given wallet.
pub fn assert_token_owned_by(token: &TokenAccount, owner: &Address) -> (r: Result<
    (),
    ProcessError,
>)
    ensures
        token.owner@ == owner@ ==> r is Ok,
        token.owner@ != owner@ ==> r == Err::<(), ProcessError>(
            ProcessError::Cash(CashError::InvalidOwner),
        ),
{
    if !cmp_pubkeys(&token.owner, owner) {
        Err(ProcessError::Cash(CashError::InvalidOwner))
    } else {
        Ok(())
    }
}

/// What reading gives of a token account that must be set up: the account,
/// the error of data that holds none, or the error of one that is not set up.
pub open spec fn spec_initialized_token(token: Option<TokenAccount>) -> Result<
    TokenAccount,
    ProcessError,
> {
    match token {
        None => Err(ProcessError::InvalidAccountData),
        Some(token) => if token.spec_is_initialized() {
            Ok(token)
        } else {
            Err(ProcessError::Cash(CashError::AccountNotInitialized))
        },
    }
}

/// Fails unless a token account was read and is set up.
pub fn check_initialized(token: Option<TokenAccount>) -> (r: Result<TokenAccount, ProcessError>)
    ensures
        r == spec_initialized_token(token),
{
    match token {
        None => Err(ProcessError::InvalidAccountData),
        Some(token) => {
            if !token.is_initialized() {
                Err(ProcessError::Cash(CashError::AccountNotInitialized))
            } else {
                Ok(token)
            }
        },
    }
}

/// Reads the token account that an account holds and fails unless it is set
/// up.
pub fn assert_initialized(account: &Account) -> (r: Result<TokenAccount, ProcessError>)
    ensures
        r == spec_initialized_token(TokenAccount::spec_unpack(account.data@)),
{
    check_initialized(TokenAccount::unpack_unchecked(account.data.as_slice()))
}

/// Moves the whole balance of the source to the receiver. Fails, and moves
/// nothing, where the receiver's balance would leave `u64`.
pub fn empty_account_balance(source: &mut Account, receiver: &mut Account) -> (r: Result<
    (),
    ProcessError,
>)
    ensures
        old(source).lamports + old(receiver).lamports <= u64::MAX ==> {
            &&& r is Ok
            &&& final(receiver).lamports == old(source).lamports + old(receiver).lamports
            &&& final(source).lamports == 0
        },
        old(source).lamports + old(receiver).lamports > u64::MAX ==> {
            &&& r == Err::<(), ProcessError>(ProcessError::Cash(CashError::AmountOverflow))
            &&& final(receiver).lamports == old(receiver).lamports
            &&& final(source).lamports == old(source).lamports
        },
        final(source).key == old(source).key,
        final(source).owner == old(source).owner,
        final(source).is_signer == old(source).is_signer,
        final(source).data == old(source).data,
        final(receiver).key == old(receiver).key,
        final(receiver).owner == old(receiver).owner,
        final(receiver).is_signer == old(receiver).is_signer,
        final(receiver).data == old(receiver).data,
{
    match receiver.lamports.checked_add(source.lamports) {
        Some(sum) => {
            receiver.lamports = sum;
            source.lamports = 0;
            Ok(())
        },
        None => Err(ProcessError::Cash(CashError::AmountOverflow)),
    }
}

/// The number that a redemption draws: the eight bytes from the twelfth on of
/// the data of the recent slot hashes, read as an integer, less the time; zero
/// where the time is the greater.
pub open spec fn spec_random_value(data: Seq<u8>, now: u64) -> u64 {
    let drawn = spec_u64_at(data, 12);
    if drawn >= now {
        (drawn - now) as u64
    } else {
        0
    }
}

/// The number that a redemption draws from the recent slot hashes and the
/// time.
pub fn get_random_value(recent_slothashes: &Account, now: u64) -> (r: Result<u64, ProcessError>)
    requires
        recent_slothashes.data@.len() >= 20,
    ensures
        r == Ok::<u64, ProcessError>(spec_random_value(recent_slothashes.data@, now)),
{
    let drawn = read_u64(recent_slothashes.data.as_slice(), 12);
    Ok(drawn.saturating_sub(now))
}

} // verus!
