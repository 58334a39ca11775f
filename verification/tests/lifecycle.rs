use cashlink::address::Address;
use cashlink::error::CashError;
use cashlink::instruction::InitCashLinkArgs;
use cashlink::lifecycle::{create, Settlement};
use cashlink::state::cashlink::{CashLink, CashLinkState, DistributionType};
use cashlink::state::AccountType;

fn key(seed: u8) -> Address {
    Address::new([seed; 32])
}

fn fixed_args(amount: u64, max_num_redemptions: u16) -> InitCashLinkArgs {
    InitCashLinkArgs {
        amount,
        fee_bps: 100,
        fixed_fee: 0,
        fee_to_redeem: 0,
        cash_link_bump: 254,
        distribution_type: DistributionType::Fixed,
        max_num_redemptions,
        min_amount: None,
        fingerprint_enabled: None,
        num_days_to_expire: 1,
    }
}

fn random_args(amount: u64, min_amount: u64, max_num_redemptions: u16) -> InitCashLinkArgs {
    InitCashLinkArgs {
        amount,
        fee_bps: 0,
        fixed_fee: 0,
        fee_to_redeem: 0,
        cash_link_bump: 254,
        distribution_type: DistributionType::Random,
        max_num_redemptions,
        min_amount: Some(min_amount),
        fingerprint_enabled: Some(true),
        num_days_to_expire: 2,
    }
}

fn created(args: &InitCashLinkArgs, now: u64) -> (CashLink, u64) {
    create(args, key(1), key(2), key(3), None, now).unwrap()
}

#[test]
fn creation_of_a_fixed_link_requires_principal_and_fee() {
    let (link, total) = created(&fixed_args(1000, 4), 500);
    assert_eq!(total, 1010);
    assert_eq!(link.amount, 1000);
    assert_eq!(link.remaining_amount, 1000);
    assert_eq!(link.state, CashLinkState::Initialized);
    assert_eq!(link.total_redemptions, 0);
    assert_eq!(link.max_num_redemptions, 4);
    assert_eq!(link.expires_at, 500 + 86400);
    assert_eq!(link.min_amount, 1);
    assert_eq!(link.account_type, AccountType::CashLink);
    assert_eq!(link.authority, key(1));
    assert_eq!(link.owner, key(2));
    assert_eq!(link.pass_key, key(3));
    assert_eq!(link.mint, None);
    assert_eq!(link.last_redeemed_at, None);
    assert!(!link.fingerprint_enabled);
}

#[test]
fn creation_adds_fixed_fee_and_redemption_fee_pool() {
    let args = InitCashLinkArgs {
        amount: 20_000,
        fee_bps: 250,
        fixed_fee: 7,
        fee_to_redeem: 3,
        cash_link_bump: 1,
        distribution_type: DistributionType::Fixed,
        max_num_redemptions: 5,
        min_amount: Some(10),
        fingerprint_enabled: Some(true),
        num_days_to_expire: 30,
    };
    let (link, total) = create(&args, key(1), key(2), key(3), Some(key(9)), 1_000).unwrap();
    // 20000 * 250 / 10000 = 500; 500 + 7 + 3 * 5 = 522
    assert_eq!(total, 20_522);
    assert_eq!(link.expires_at, 1_000 + 30 * 86400);
    assert_eq!(link.min_amount, 10);
    assert_eq!(link.mint, Some(key(9)));
    assert!(link.fingerprint_enabled);
}

#[test]
fn creation_rounds_the_fee_down() {
    let mut args = fixed_args(999, 3);
    args.fee_bps = 33;
    // 999 * 33 / 10000 = 3.2967
    let (_, total) = created(&args, 0);
    assert_eq!(total, 999 + 3);
}

#[test]
fn creation_rejects_a_zero_amount() {
    assert_eq!(
        create(&fixed_args(0, 4), key(1), key(2), key(3), None, 0),
        Err(CashError::InvalidAmount)
    );
}

#[test]
fn creation_rejects_zero_redemptions() {
    assert_eq!(
        create(&fixed_args(1000, 0), key(1), key(2), key(3), None, 0),
        Err(CashError::InvalidNumberOfRedemptions)
    );
}

#[test]
fn creation_rejects_zero_days() {
    let mut args = fixed_args(1000, 4);
    args.num_days_to_expire = 0;
    assert_eq!(create(&args, key(1), key(2), key(3), None, 0), Err(CashError::InvalidExpiryInDays));
}

#[test]
fn creation_rejects_a_fixed_amount_that_does_not_divide() {
    assert_eq!(
        create(&fixed_args(1001, 4), key(1), key(2), key(3), None, 0),
        Err(CashError::InvalidAmount)
    );
}

#[test]
fn creation_of_a_random_link_needs_a_minimum() {
    let mut args = random_args(100, 10, 3);
    args.min_amount = None;
    assert_eq!(create(&args, key(1), key(2), key(3), None, 0), Err(CashError::MinAmountNotSet));
}

#[test]
fn creation_rejects_a_minimum_above_the_amount() {
    assert_eq!(
        create(&random_args(100, 101, 3), key(1), key(2), key(3), None, 0),
        Err(CashError::MinAmountMustBeLessThanAmount)
    );
    let mut args = fixed_args(100, 4);
    args.min_amount = Some(101);
    assert_eq!(
        create(&args, key(1), key(2), key(3), None, 0),
        Err(CashError::MinAmountMustBeLessThanAmount)
    );
    assert!(create(&random_args(100, 100, 3), key(1), key(2), key(3), None, 0).is_ok());
}

#[test]
fn creation_checks_the_amount_before_everything_else() {
    let mut args = fixed_args(0, 0);
    args.num_days_to_expire = 0;
    assert_eq!(create(&args, key(1), key(2), key(3), None, 0), Err(CashError::InvalidAmount));
    args.amount = 7;
    assert_eq!(
        create(&args, key(1), key(2), key(3), None, 0),
        Err(CashError::InvalidNumberOfRedemptions)
    );
    args.max_num_redemptions = 2;
    assert_eq!(create(&args, key(1), key(2), key(3), None, 0), Err(CashError::InvalidExpiryInDays));
}

#[test]
fn creation_fails_on_overflow() {
    let mut args = fixed_args(u64::MAX, 1);
    assert_eq!(create(&args, key(1), key(2), key(3), None, 0), Err(CashError::Overflow));
    args.fee_bps = 0;
    args.fixed_fee = 1;
    assert_eq!(create(&args, key(1), key(2), key(3), None, 0), Err(CashError::Overflow));
    args.fixed_fee = 0;
    assert_eq!(create(&args, key(1), key(2), key(3), None, 0).unwrap().1, u64::MAX);
    args.fee_to_redeem = 1;
    assert_eq!(create(&args, key(1), key(2), key(3), None, 0), Err(CashError::Overflow));
    let mut pool = fixed_args(10, 10);
    pool.fee_to_redeem = u64::MAX / 2;
    assert_eq!(create(&pool, key(1), key(2), key(3), None, 0), Err(CashError::Overflow));
    assert_eq!(
        create(&fixed_args(1000, 4), key(1), key(2), key(3), None, u64::MAX - 86399),
        Err(CashError::Overflow)
    );
    assert_eq!(
        create(&fixed_args(1000, 4), key(1), key(2), key(3), None, u64::MAX - 86400).unwrap().0.expires_at,
        u64::MAX
    );
}

#[test]
fn four_fixed_redemptions_pay_a_quarter_each() {
    let (mut link, total) = created(&fixed_args(1000, 4), 0);
    assert_eq!(total, 1010);
    let mut paid_out = 0;
    for round in 1..=4u16 {
        let (after, paid) = link.redeem(10 * round as u64, 123_456).unwrap();
        assert_eq!(paid.amount_to_redeem, 250);
        assert_eq!(paid.total_fee_to_redeem, 2);
        assert_eq!(paid.fully_redeemed, round == 4);
        assert_eq!(after.total_redemptions, round);
        assert_eq!(after.remaining_amount, 1000 - 250 * round as u64);
        assert_eq!(after.last_redeemed_at, Some(10 * round as u64));
        assert_eq!(
            after.state,
            if round == 4 { CashLinkState::Redeemed } else { CashLinkState::Redeeming }
        );
        paid_out += paid.amount_to_redeem + paid.total_fee_to_redeem;
        link = after;
    }
    // the rounding of 10 / 4 leaves 2 of the funding behind
    assert_eq!(total - paid_out, 2);
    assert_eq!(link.redeem(50, 0), Err(CashError::AccountAlreadyRedeemed));
}

#[test]
fn the_first_redemption_bears_the_fixed_fee() {
    let mut args = fixed_args(1000, 4);
    args.fixed_fee = 40;
    args.fee_to_redeem = 5;
    let (link, total) = created(&args, 0);
    assert_eq!(total, 1000 + 10 + 40 + 20);
    let (after, first) = link.redeem(1, 0).unwrap();
    assert_eq!(first.total_fee_to_redeem, 2 + 5 + 40);
    let (_, second) = after.redeem(2, 0).unwrap();
    assert_eq!(second.total_fee_to_redeem, 2 + 5);
    assert_eq!(link.fee_to_redeem(true), Ok(47));
    assert_eq!(link.fee_to_redeem(false), Ok(7));
}

#[test]
fn random_redemptions_stay_within_their_bounds() {
    for random in [0u64, 1, 7, 89, 90, 91, 12_345, u64::MAX] {
        let (link, _) = created(&random_args(100, 10, 3), 0);
        let (second, first_paid) = link.redeem(5, random).unwrap();
        assert_eq!(first_paid.amount_to_redeem, random % 90 + 10);
        assert!(first_paid.amount_to_redeem >= 10 && first_paid.amount_to_redeem < 100);
        assert_eq!(second.remaining_amount, 100 - first_paid.amount_to_redeem);
        if second.state == CashLinkState::Redeemed {
            // too little is left for the two open slots
            assert!(second.remaining_amount < 20);
            continue;
        }
        let before = second.remaining_amount;
        let (third, second_paid) = second.redeem(6, random / 3).unwrap();
        assert_eq!(second_paid.amount_to_redeem, (random / 3) % (before - 10) + 10);
        assert!(second_paid.amount_to_redeem >= 10 && second_paid.amount_to_redeem < before);
        if third.state == CashLinkState::Redeemed {
            continue;
        }
        let left = third.remaining_amount;
        let (end, last_paid) = third.redeem(7, random).unwrap();
        assert_eq!(last_paid.amount_to_redeem, left);
        assert!(last_paid.fully_redeemed);
        assert_eq!(end.remaining_amount, 0);
        assert_eq!(end.total_redemptions, 3);
        assert_eq!(end.state, CashLinkState::Redeemed);
        assert_eq!(
            first_paid.amount_to_redeem + second_paid.amount_to_redeem + last_paid.amount_to_redeem,
            100
        );
    }
}

#[test]
fn the_only_slot_of_a_random_link_receives_everything() {
    let (link, _) = created(&random_args(100, 10, 1), 0);
    assert!(!link.needs_random());
    let (after, paid) = link.redeem(5, 999).unwrap();
    assert_eq!(
        paid,
        Settlement { amount_to_redeem: 100, total_fee_to_redeem: 0, fully_redeemed: true }
    );
    assert_eq!(after.remaining_amount, 0);
    assert_eq!(after.state, CashLinkState::Redeemed);
}

#[test]
fn a_random_share_needs_more_than_the_minimum() {
    let (link, _) = created(&random_args(100, 100, 3), 0);
    assert!(link.needs_random());
    assert_eq!(link.redeem(5, 42), Err(CashError::Overflow));
    let mut starved = link;
    starved.remaining_amount = 50;
    assert_eq!(starved.amount_to_redeem(42), Err(CashError::Overflow));
}

#[test]
fn a_link_completes_when_the_minimum_cannot_be_met() {
    // 60 of 100 leave 40, less than the minimum of 30 for each of two slots
    let (link, _) = created(&random_args(100, 30, 3), 0);
    let (after, paid) = link.redeem(5, 30).unwrap();
    assert_eq!(paid.amount_to_redeem, 30 % 70 + 30);
    assert!(paid.fully_redeemed);
    assert_eq!(after.state, CashLinkState::Redeemed);
    assert_eq!(after.remaining_amount, 40);
    assert_eq!(after.min_total_required(), Ok(60));
    assert_eq!(after.is_fully_redeemed(), Ok(true));
    // 40 of 100 leave 60, just enough
    let (after, paid) = link.redeem(5, 10).unwrap();
    assert_eq!(paid.amount_to_redeem, 40);
    assert!(!paid.fully_redeemed);
    assert_eq!(after.state, CashLinkState::Redeeming);
    assert_eq!(after.is_fully_redeemed(), Ok(false));
}

#[test]
fn redemption_after_the_deadline_is_refused() {
    let (link, _) = created(&fixed_args(1000, 4), 100);
    assert!(link.redeem(100 + 86400, 0).is_ok());
    assert_eq!(link.redeem(100 + 86401, 0), Err(CashError::CashlinkExpired));
    assert_eq!(link.check_deadline(100 + 86401), Err(CashError::CashlinkExpired));
    assert_eq!(link.check_deadline(100 + 86400), Ok(()));
}

#[test]
fn redemption_of_a_cancelled_link_is_refused() {
    let (link, _) = created(&fixed_args(1000, 4), 100);
    let cancelled = link.cancel(100 + 86401).unwrap();
    assert_eq!(cancelled.redeem(5, 0), Err(CashError::AccountAlreadyExpired));
    assert_eq!(cancelled.check_state(), Err(CashError::AccountAlreadyExpired));
}

#[test]
fn redemption_without_room_is_refused() {
    let (mut link, _) = created(&fixed_args(1000, 4), 0);
    link.total_redemptions = 4;
    assert_eq!(link.redeem(5, 0), Err(CashError::MaxRedemptionsReached));
    link.total_redemptions = 1;
    link.remaining_amount = 0;
    assert_eq!(link.redeem(5, 0), Err(CashError::NoRemainingAmount));
    assert_eq!(link.check_capacity(), Err(CashError::NoRemainingAmount));
    link.remaining_amount = 249;
    assert_eq!(link.redeem(5, 0), Err(CashError::Overflow));
}

#[test]
fn redemption_fee_overflow_is_an_error() {
    let (mut link, _) = created(&fixed_args(1000, 4), 0);
    link.fee_to_redeem = u64::MAX;
    assert_eq!(link.redeem(5, 0), Err(CashError::Overflow));
    link.fee_to_redeem = u64::MAX - 2 - 250;
    assert!(link.redeem(5, 0).is_ok());
    link.fee_to_redeem = u64::MAX - 2 - 249;
    assert_eq!(link.redeem(5, 0), Err(CashError::Overflow));
    link.fee_to_redeem = 0;
    link.amount = u64::MAX;
    assert_eq!(link.fee_to_redeem(false), Err(CashError::Overflow));
}

#[test]
fn cancellation_waits_for_the_deadline() {
    let (link, _) = created(&fixed_args(1000, 4), 100);
    assert_eq!(link.cancel(100), Err(CashError::CashlinkNotExpired));
    assert_eq!(link.cancel(100 + 86400), Err(CashError::CashlinkNotExpired));
    let cancelled = link.cancel(100 + 86401).unwrap();
    assert_eq!(cancelled.state, CashLinkState::Expired);
    assert_eq!(cancelled.remaining_amount, 1000);
    assert_eq!(cancelled.cancel(100 + 86402), Err(CashError::AccountAlreadyExpired));
}

#[test]
fn cancellation_keeps_the_history_of_redemptions() {
    let (link, _) = created(&fixed_args(1000, 4), 100);
    let (after, _) = link.redeem(200, 0).unwrap();
    let cancelled = after.cancel(100 + 86401).unwrap();
    assert_eq!(cancelled.state, CashLinkState::Expired);
    assert_eq!(cancelled.total_redemptions, 1);
    assert_eq!(cancelled.remaining_amount, 750);
    assert_eq!(cancelled.last_redeemed_at, Some(200));
}

#[test]
fn cancellation_of_a_completed_link_is_refused() {
    let (link, _) = created(&fixed_args(1000, 1), 100);
    let (done, _) = link.redeem(200, 0).unwrap();
    assert_eq!(done.cancel(100 + 86401), Err(CashError::AccountAlreadyRedeemed));
}

#[test]
fn closure_needs_an_expired_link_without_redemptions() {
    let (link, _) = created(&fixed_args(1000, 4), 100);
    assert_eq!(link.check_closable(), Err(CashError::AccountNotExpired));
    let cancelled = link.cancel(100 + 86401).unwrap();
    assert_eq!(cancelled.check_closable(), Ok(()));
    let (after, _) = link.redeem(200, 0).unwrap();
    assert_eq!(after.check_closable(), Err(CashError::AccountNotExpired));
    let cancelled = after.cancel(100 + 86401).unwrap();
    assert_eq!(cancelled.check_closable(), Err(CashError::AccountAlreadyRedeemed));
}

#[test]
fn conservation_holds_over_a_run_of_redemptions() {
    let (mut link, _) = created(&random_args(1_000_000, 1_000, 10), 0);
    let mut paid_out = 0u64;
    let mut count = 0u16;
    let mut random = 0x9e37_79b9_7f4a_7c15u64;
    while let Ok((after, paid)) = link.redeem(1, random) {
        paid_out += paid.amount_to_redeem;
        count += 1;
        assert_eq!(after.amount - after.remaining_amount, paid_out);
        assert_eq!(after.total_redemptions, count);
        assert!(after.total_redemptions <= after.max_num_redemptions);
        assert!(after.remaining_amount <= after.amount);
        link = after;
        random = random.wrapping_mul(6364136223846793005).wrapping_add(1442695040888963407);
    }
    assert!(count >= 1);
    assert_eq!(link.state, CashLinkState::Redeemed);
}

#[test]
fn the_questions_about_the_state_agree_with_it() {
    let (link, _) = created(&fixed_args(1000, 4), 100);
    assert!(link.initialized() && !link.redeeming() && !link.redeemed() && !link.expired());
    let (after, _) = link.redeem(200, 0).unwrap();
    assert!(!after.initialized() && after.redeeming() && !after.redeemed() && !after.expired());
    let cancelled = after.cancel(100 + 86401).unwrap();
    assert!(cancelled.expired() && !cancelled.redeeming());
    assert_eq!(after.max_num_redemptions_remaining(), Ok(3));
    assert_eq!(after.min_total_required(), Ok(3));
    let mut broken = after;
    broken.total_redemptions = 5;
    assert_eq!(broken.max_num_redemptions_remaining(), Err(CashError::Overflow));
    assert_eq!(broken.min_total_required(), Err(CashError::Overflow));
    assert_eq!(broken.is_fully_redeemed(), Err(CashError::Overflow));
    let mut huge = after;
    huge.min_amount = u64::MAX;
    assert_eq!(huge.min_total_required(), Err(CashError::Overflow));
    assert_eq!(huge.is_fully_redeemed(), Ok(true));
}
