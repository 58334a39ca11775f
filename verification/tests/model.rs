use cashlink::address::Address;
use cashlink::error::CashError;
use cashlink::instruction::InitCashLinkArgs;
use cashlink::lifecycle::create;
use cashlink::state::cashlink::{CashLink, CashLinkState, DistributionType};
use cashlink::state::AccountType;

/// A small generator of numbers, the same on every run.
struct Numbers(u64);

impl Numbers {
    fn next(&mut self) -> u64 {
        self.0 = self.0.wrapping_mul(6364136223846793005).wrapping_add(1442695040888963407);
        let mut x = self.0;
        x ^= x >> 33;
        x = x.wrapping_mul(0xff51_afd7_ed55_8ccd);
        x ^ (x >> 33)
    }

    /// A number that is small, middling or close to the largest, by turns.
    fn amount(&mut self) -> u64 {
        match self.next() % 6 {
            0 => self.next() % 4,
            1 => self.next() % 1_000,
            2 => self.next() % 1_000_000_000,
            3 => u64::MAX - self.next() % 1_000,
            4 => u64::MAX / (1 + self.next() % 70_000),
            _ => self.next(),
        }
    }

    fn count(&mut self) -> u16 {
        match self.next() % 4 {
            0 => (self.next() % 3) as u16,
            1 => (self.next() % 20) as u16,
            2 => u16::MAX - (self.next() % 3) as u16,
            _ => self.next() as u16,
        }
    }
}

fn key(seed: u8) -> Address {
    Address::new([seed; 32])
}

/// The arithmetic of a creation, written out step by step.
fn funding(args: &InitCashLinkArgs) -> Option<u64> {
    let fee_from_bps = args.amount.checked_mul(args.fee_bps as u64)? / 10000;
    let platform_fee = fee_from_bps.checked_add(args.fixed_fee)?;
    let pool = args.fee_to_redeem.checked_mul(args.max_num_redemptions as u64)?;
    args.amount.checked_add(platform_fee)?.checked_add(pool)
}

#[test]
fn creation_agrees_with_the_arithmetic_written_out() {
    let mut numbers = Numbers(7);
    let mut accepted = 0;
    for _ in 0..20_000 {
        let args = InitCashLinkArgs {
            amount: numbers.amount(),
            fee_bps: numbers.count(),
            fixed_fee: numbers.amount(),
            fee_to_redeem: numbers.amount() % 1_000_000,
            cash_link_bump: numbers.next() as u8,
            distribution_type: if numbers.next() % 2 == 0 {
                DistributionType::Fixed
            } else {
                DistributionType::Random
            },
            max_num_redemptions: numbers.count() % 50,
            min_amount: if numbers.next() % 3 == 0 { None } else { Some(numbers.amount()) },
            fingerprint_enabled: match numbers.next() % 3 {
                0 => None,
                1 => Some(false),
                _ => Some(true),
            },
            num_days_to_expire: (numbers.next() % 4) as u8,
        };
        let now = numbers.amount();
        let expected = if args.amount == 0 {
            Err(CashError::InvalidAmount)
        } else if args.max_num_redemptions == 0 {
            Err(CashError::InvalidNumberOfRedemptions)
        } else if args.num_days_to_expire == 0 {
            Err(CashError::InvalidExpiryInDays)
        } else if args.distribution_type == DistributionType::Fixed
            && args.amount % args.max_num_redemptions as u64 != 0
        {
            Err(CashError::InvalidAmount)
        } else if args.distribution_type == DistributionType::Random && args.min_amount.is_none() {
            Err(CashError::MinAmountNotSet)
        } else if args.min_amount.map(|min| min > args.amount).unwrap_or(false) {
            Err(CashError::MinAmountMustBeLessThanAmount)
        } else {
            match (funding(&args), now.checked_add(args.num_days_to_expire as u64 * 86400)) {
                (Some(total), Some(expires_at)) => Ok((
                    CashLink {
                        account_type: AccountType::CashLink,
                        authority: key(1),
                        state: CashLinkState::Initialized,
                        amount: args.amount,
                        fee_bps: args.fee_bps,
                        fixed_fee: args.fixed_fee,
                        fee_to_redeem: args.fee_to_redeem,
                        remaining_amount: args.amount,
                        distribution_type: args.distribution_type,
                        owner: key(2),
                        last_redeemed_at: None,
                        expires_at,
                        mint: Some(key(4)),
                        total_redemptions: 0,
                        max_num_redemptions: args.max_num_redemptions,
                        min_amount: args.min_amount.unwrap_or(1),
                        fingerprint_enabled: args.fingerprint_enabled.unwrap_or(false),
                        pass_key: key(3),
                    },
                    total,
                )),
                _ => Err(CashError::Overflow),
            }
        };
        if expected.is_ok() {
            accepted += 1;
        }
        assert_eq!(create(&args, key(1), key(2), key(3), Some(key(4)), now), expected);
    }
    assert!(accepted > 500);
}

/// A redemption, written out step by step.
fn redeemed(link: &CashLink, now: u64, random: u64) -> Result<(CashLink, u64, u64), CashError> {
    if link.state == CashLinkState::Expired {
        return Err(CashError::AccountAlreadyExpired);
    }
    if link.state == CashLinkState::Redeemed {
        return Err(CashError::AccountAlreadyRedeemed);
    }
    if now > link.expires_at {
        return Err(CashError::CashlinkExpired);
    }
    if link.total_redemptions >= link.max_num_redemptions {
        return Err(CashError::MaxRedemptionsReached);
    }
    if link.remaining_amount == 0 {
        return Err(CashError::NoRemainingAmount);
    }
    let amount = match link.distribution_type {
        DistributionType::Fixed => link.amount / link.max_num_redemptions as u64,
        DistributionType::Random => {
            if link.max_num_redemptions == 1
                || link.total_redemptions == link.max_num_redemptions - 1
            {
                link.remaining_amount
            } else {
                let range = link
                    .remaining_amount
                    .checked_sub(link.min_amount)
                    .ok_or(CashError::Overflow)?;
                random
                    .checked_rem(range)
                    .and_then(|drawn| drawn.checked_add(link.min_amount))
                    .ok_or(CashError::Overflow)?
            }
        }
    };
    let mut after = *link;
    after.remaining_amount =
        link.remaining_amount.checked_sub(amount).ok_or(CashError::Overflow)?;
    after.total_redemptions = link.total_redemptions + 1;
    let per_redemption = link
        .amount
        .checked_mul(link.fee_bps as u64)
        .ok_or(CashError::Overflow)?
        / 10000
        / link.max_num_redemptions as u64;
    let mut fee = per_redemption.checked_add(link.fee_to_redeem).ok_or(CashError::Overflow)?;
    if after.total_redemptions == 1 {
        fee = fee.checked_add(link.fixed_fee).ok_or(CashError::Overflow)?;
    }
    amount.checked_add(fee).ok_or(CashError::Overflow)?;
    let open = (after.max_num_redemptions - after.total_redemptions) as u128;
    let fully = after.total_redemptions == after.max_num_redemptions
        || after.remaining_amount == 0
        || (after.remaining_amount as u128) < after.min_amount as u128 * open;
    after.state = if fully { CashLinkState::Redeemed } else { CashLinkState::Redeeming };
    after.last_redeemed_at = Some(now);
    Ok((after, amount, fee))
}

#[test]
fn redemption_agrees_with_the_steps_written_out() {
    let mut numbers = Numbers(11);
    let mut accepted = 0;
    for _ in 0..50_000 {
        let amount = numbers.amount();
        let max_num_redemptions = 1 + numbers.count() % 40;
        let link = CashLink {
            account_type: AccountType::CashLink,
            authority: key(1),
            state: match numbers.next() % 8 {
                0 => CashLinkState::Expired,
                1 => CashLinkState::Redeemed,
                2 | 3 => CashLinkState::Initialized,
                _ => CashLinkState::Redeeming,
            },
            amount,
            fee_bps: numbers.count() % 12_000,
            fixed_fee: numbers.amount() % 1_000_000,
            fee_to_redeem: numbers.amount() % 1_000_000,
            remaining_amount: if numbers.next() % 5 == 0 { numbers.amount() } else { amount },
            distribution_type: if numbers.next() % 2 == 0 {
                DistributionType::Fixed
            } else {
                DistributionType::Random
            },
            owner: key(2),
            last_redeemed_at: None,
            expires_at: 1_000,
            mint: None,
            total_redemptions: numbers.count() % (max_num_redemptions + 2),
            max_num_redemptions,
            min_amount: match numbers.next() % 3 {
                0 => 1,
                1 => numbers.amount() % (amount / 2 + 1),
                _ => numbers.amount(),
            },
            fingerprint_enabled: false,
            pass_key: key(3),
        };
        let now = 990 + numbers.next() % 12;
        let random = numbers.next();
        let expected = redeemed(&link, now, random);
        let got = link.redeem(now, random);
        match (&expected, &got) {
            (Ok((after, amount, fee)), Ok((got_after, paid))) => {
                accepted += 1;
                assert_eq!(after, got_after);
                assert_eq!(*amount, paid.amount_to_redeem);
                assert_eq!(*fee, paid.total_fee_to_redeem);
                assert_eq!(paid.fully_redeemed, after.state == CashLinkState::Redeemed);
            }
            (Err(e), Err(got_e)) => assert_eq!(e, got_e),
            _ => panic!("{:?} and {:?} for {:?}", expected, got, link),
        }
    }
    assert!(accepted > 5_000);
}
