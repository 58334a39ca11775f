use cashlink::account::Account;
use cashlink::address::Address;
use cashlink::error::{CashError, ProcessError};
use cashlink::state::cashlink::CashLink;
use cashlink::state::IsInitialized;
use cashlink::token::{TokenAccount, TokenAccountState};
use cashlink::utils::{
    account_exists, assert_account_key, assert_initialized, assert_owned_by, assert_rent_exempt,
    assert_signer, assert_token_owned_by, assert_uninitialized, calculate_amount_with_fee,
    calculate_fee, check_initialized, empty_account_balance, get_random_value, BASIS_POINTS,
};

fn key(seed: u8) -> Address {
    Address::new([seed; 32])
}

fn account(seed: u8, lamports: u64, data: Vec<u8>) -> Account {
    Account { key: key(seed), owner: key(100), is_signer: false, lamports, data }
}

fn token(owner: u8, state: TokenAccountState) -> TokenAccount {
    TokenAccount { mint: key(7), owner: key(owner), amount: 5, state }
}

#[test]
fn fees_are_basis_points_rounded_down() {
    assert_eq!(BASIS_POINTS, 10000);
    assert_eq!(calculate_fee(1000, 100), Ok(10));
    assert_eq!(calculate_fee(999, 100), Ok(9));
    assert_eq!(calculate_fee(99, 100), Ok(0));
    assert_eq!(calculate_fee(0, 100), Ok(0));
    assert_eq!(calculate_fee(1_000_000, 0), Ok(0));
    assert_eq!(calculate_fee(12_345, 10_000), Ok(12_345));
    assert_eq!(calculate_fee(u64::MAX / 3, 3), Ok(u64::MAX / 3 * 3 / 10000));
    assert_eq!(calculate_fee(u64::MAX / 3 + 1, 3), Err(ProcessError::Cash(CashError::Overflow)));
    assert_eq!(calculate_fee(u64::MAX, 2), Err(ProcessError::Cash(CashError::Overflow)));
}

#[test]
fn an_amount_with_its_fee_is_their_sum() {
    assert_eq!(calculate_amount_with_fee(1000, 100), Ok(1010));
    assert_eq!(calculate_amount_with_fee(u64::MAX, 0), Ok(u64::MAX));
    assert_eq!(
        calculate_amount_with_fee(u64::MAX, 1),
        Ok(u64::MAX).and(Err(ProcessError::Cash(CashError::Overflow)))
    );
    assert_eq!(
        calculate_amount_with_fee(u64::MAX - 1, 10_000),
        Err(ProcessError::Cash(CashError::Overflow))
    );
    assert_eq!(
        calculate_amount_with_fee(u64::MAX / 10_000, 10_000),
        Ok(u64::MAX / 10_000 * 2)
    );
}

#[test]
fn a_signer_is_asked_for() {
    let mut signer = account(1, 0, vec![]);
    assert_eq!(assert_signer(&signer), Err(ProcessError::MissingRequiredSignature));
    signer.is_signer = true;
    assert_eq!(assert_signer(&signer), Ok(()));
}

#[test]
fn the_owner_and_the_key_of_an_account_are_checked() {
    let a = account(1, 0, vec![]);
    assert_eq!(assert_owned_by(&a, &key(100)), Ok(()));
    assert_eq!(assert_owned_by(&a, &key(1)), Err(ProcessError::Cash(CashError::InvalidOwner)));
    assert_eq!(assert_account_key(&a, &key(1), None), Ok(()));
    assert_eq!(assert_account_key(&a, &key(1), Some(CashError::InvalidMint)), Ok(()));
    assert_eq!(assert_account_key(&a, &key(2), None), Err(ProcessError::InvalidArgument));
    assert_eq!(
        assert_account_key(&a, &key(2), Some(CashError::InvalidMint)),
        Err(ProcessError::Cash(CashError::InvalidMint))
    );
    assert_eq!(assert_token_owned_by(&token(3, TokenAccountState::Initialized), &key(3)), Ok(()));
    assert_eq!(
        assert_token_owned_by(&token(3, TokenAccountState::Initialized), &key(4)),
        Err(ProcessError::Cash(CashError::InvalidOwner))
    );
}

#[test]
fn rent_exemption_needs_the_minimum_balance() {
    assert_eq!(assert_rent_exempt(10, &account(1, 10, vec![])), Ok(()));
    assert_eq!(assert_rent_exempt(10, &account(1, 11, vec![])), Ok(()));
    assert_eq!(
        assert_rent_exempt(10, &account(1, 9, vec![])),
        Err(ProcessError::AccountNotRentExempt)
    );
    assert_eq!(assert_rent_exempt(0, &account(1, 0, vec![])), Ok(()));
}

#[test]
fn an_account_exists_when_it_has_a_balance() {
    assert_eq!(account_exists(&account(1, 0, vec![1])), Ok(false));
    assert_eq!(account_exists(&account(1, 1, vec![])), Ok(true));
    assert!(!account(1, 1, vec![]).is_occupied());
    assert!(!account(1, 0, vec![1]).is_occupied());
    assert!(account(1, 1, vec![1]).is_occupied());
}

#[test]
fn token_accounts_must_be_set_up() {
    let ready = token(3, TokenAccountState::Initialized);
    let frozen = token(3, TokenAccountState::Frozen);
    let fresh = token(3, TokenAccountState::Uninitialized);
    assert_eq!(check_initialized(Some(ready)), Ok(ready));
    assert_eq!(check_initialized(Some(frozen)), Ok(frozen));
    assert_eq!(
        check_initialized(Some(fresh)),
        Err(ProcessError::Cash(CashError::AccountNotInitialized))
    );
    assert_eq!(check_initialized(None), Err(ProcessError::InvalidAccountData));
    assert!(ready.is_initialized() && frozen.is_initialized() && !fresh.is_initialized());
    assert_eq!(assert_uninitialized(&fresh), Ok(()));
    assert_eq!(assert_uninitialized(&ready), Err(ProcessError::AccountAlreadyInitialized));
    assert_eq!(
        assert_uninitialized(&CashLink::default()),
        Err(ProcessError::AccountAlreadyInitialized)
    );
    assert_eq!(
        assert_initialized(&account(1, 1, vec![0; 165])),
        Err(ProcessError::Cash(CashError::AccountNotInitialized))
    );
    assert_eq!(assert_initialized(&account(1, 1, vec![0; 5])), Err(ProcessError::InvalidAccountData));
    let mut data = vec![0u8; 165];
    data[0..32].copy_from_slice(&[7; 32]);
    data[32..64].copy_from_slice(&[3; 32]);
    data[64] = 5;
    data[108] = 1;
    assert_eq!(assert_initialized(&account(1, 1, data)), Ok(ready));
}

#[test]
fn emptying_an_account_moves_its_whole_balance() {
    let mut source = account(1, 700, vec![1, 2]);
    let mut receiver = account(2, 50, vec![3]);
    assert_eq!(empty_account_balance(&mut source, &mut receiver), Ok(()));
    assert_eq!(source, account(1, 0, vec![1, 2]));
    assert_eq!(receiver, account(2, 750, vec![3]));
    let mut source = account(1, 2, vec![]);
    let mut receiver = account(2, u64::MAX - 1, vec![]);
    assert_eq!(
        empty_account_balance(&mut source, &mut receiver),
        Err(ProcessError::Cash(CashError::AmountOverflow))
    );
    assert_eq!(source.lamports, 2);
    assert_eq!(receiver.lamports, u64::MAX - 1);
    source.lamports = 1;
    assert_eq!(empty_account_balance(&mut source, &mut receiver), Ok(()));
    assert_eq!(receiver.lamports, u64::MAX);
}

#[test]
fn the_number_drawn_is_read_from_the_slot_hashes() {
    let mut data = vec![0u8; 20];
    data[12..20].copy_from_slice(&[1, 2, 3, 4, 5, 6, 7, 8]);
    let drawn = 0x0807_0605_0403_0201u64;
    assert_eq!(get_random_value(&account(1, 1, data.clone()), 0), Ok(drawn));
    assert_eq!(get_random_value(&account(1, 1, data.clone()), 1), Ok(drawn - 1));
    assert_eq!(get_random_value(&account(1, 1, data.clone()), drawn), Ok(0));
    assert_eq!(get_random_value(&account(1, 1, data.clone()), drawn + 1), Ok(0));
    assert_eq!(get_random_value(&account(1, 1, data.clone()), u64::MAX), Ok(0));
    data.extend_from_slice(&[9; 30]);
    data[11] = 0xff;
    assert_eq!(get_random_value(&account(1, 1, data), 5), Ok(drawn - 5));
}

#[test]
fn every_error_has_its_code_and_its_text() {
    let all = [
        (CashError::InvalidOwner, "Invalid Owner"),
        (CashError::InvalidMint, "Invalid Mint"),
        (CashError::InvalidInstruction, "Invalid Instruction"),
        (CashError::NotRentExempt, "No rent exemption"),
        (CashError::ExpectedAmountMismatch, "Amount mismatch"),
        (CashError::InvalidAuthorityId, "Authority is invalid"),
        (CashError::AmountOverflow, "Amount overflow"),
        (CashError::AccountAlreadyRedeemed, "Account already settled"),
        (CashError::AccountAlreadyExpired, "Account already canceled"),
        (CashError::FeeOverflow, "Fee overflow"),
        (CashError::AccountNotRedeemedOrInitialized, "Account not redeemed or initialized"),
        (CashError::AccountNotRedeemedOrCanceled, "Account not redeemed or canceled"),
        (CashError::AccountNotExpired, "Account not canceled"),
        (CashError::AccountNotInitialized, "Account not initialized"),
        (CashError::InvalidDepositKey, "Invalid deposit key"),
        (CashError::InvalidWithdrawKey, "Invalid withdraw key"),
        (CashError::InvalidEscrowKey, "Invalid escrow key"),
        (CashError::InvalidVaultOwner, "Invalid vault owner"),
        (CashError::InvalidVaultTokenOwner, "Invalid vault token owner"),
        (CashError::InvalidVaultToken, "Invalid vault token"),
        (CashError::InvalidSrcTokenOwner, "Invalid source token owner"),
        (CashError::InvalidDstTokenOwner, "Invalid token owner"),
        (CashError::InvalidFeeTokenOwner, "Invalid fee token owner"),
        (CashError::InvalidDepositTokenOwner, "Invalid deposit token owner"),
        (CashError::InvalidWithdrawTokenOwner, "Invalid withdraw token owner"),
        (CashError::AccountAlreadyClosed, "Account is closed"),
        (CashError::AccountInvalidState, "Account is in an invalid state"),
        (CashError::InsufficientSettlementFunds, "Insufficient funds for settlement"),
        (CashError::Overflow, "Overflow"),
        (CashError::Underflow, "Underflow"),
        (CashError::MaxRedemptionsReached, "MaxRedemptionsReached"),
        (CashError::NoRemainingAmount, "NoRemainingAmount"),
        (CashError::InvalidSlotHashProgram, "InvalidSlotHashProgram"),
        (CashError::InvalidAmount, "InvalidAmount"),
        (CashError::InvalidNumberOfRedemptions, "InvalidNumberOfRedemptions"),
        (CashError::MinAmountNotSet, "Minimum amount must be set for random distribution"),
        (CashError::MinAmountMustBeLessThanAmount, "Minimum amount must be less than amount"),
        (CashError::InvalidExpiryInDays, "Number of days must be greater than 0"),
        (CashError::CashlinkExpired, "Cash link has expired"),
        (CashError::CashlinkNotExpired, "Cash link has not expired"),
        (CashError::FingerprintBumpNotFound, "Fingerprint bump cannot be null"),
        (CashError::FingerprintFound, "Required Fingerprint was not found"),
        (CashError::InvalidFingerprint, "Invalid fingerprint"),
        (CashError::InvalidCashLinkReference, "Cashink reference must be a valid base58 character"),
        (CashError::InvalidPassKey, "Pass Key is invalid"),
    ];
    assert_eq!(all.len(), 45);
    for (code, (error, text)) in all.iter().enumerate() {
        assert_eq!(error.code(), code as u32);
        assert_eq!(error.message(), *text);
    }
}
