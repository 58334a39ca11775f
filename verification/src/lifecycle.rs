//! The life of a cash link: creation, redemption, cancellation and closure,
//! as transitions of the record alone. The handlers add the accounts.

use vstd::prelude::*;
use crate::address::Address;
use crate::error::CashError;
use crate::instruction::InitCashLinkArgs;
use crate::state::cashlink::{CashLink, CashLinkState, DistributionType};
use crate::state::AccountType;
use crate::utils::spec_fee;

verus! {

/// Seconds in a day.
pub const SECONDS_PER_DAY: u64 = 86400;

/// What one redemption pays.
#[derive(Clone, Copy, Debug, PartialEq, Eq, Structural)]
pub struct Settlement {
    /// The share of the principal that goes to the redeemer.
    pub amount_to_redeem: u64,
    /// The fee that goes to the fee collector.
    pub total_fee_to_redeem: u64,
    /// Whether the redemption completes the link.
    pub fully_redeemed: bool,
}

impl Settlement {
    /// What leaves the vault: the share and the fee.
    pub open spec fn spec_total(&self) -> int {
        self.amount_to_redeem + self.total_fee_to_redeem
    }
}

/// The time at which a link created now expires.
pub open spec fn spec_expiry(now: u64, num_days_to_expire: u8) -> int {
    now + num_days_to_expire * 86400
}

/// What the owner pays at creation: the principal, the platform fee (the fee
/// in basis points and the fixed fee) and the redemption fee of every slot.
pub open spec fn spec_funding(args: InitCashLinkArgs) -> int {
    args.amount + spec_fee(args.amount, args.fee_bps as u64) + args.fixed_fee + args.fee_to_redeem
        * args.max_num_redemptions
}

/// Whether the arithmetic of a creation leaves `u64`.
pub open spec fn spec_creation_overflows(args: InitCashLinkArgs, now: u64) -> bool {
    ||| args.amount * args.fee_bps > u64::MAX
    ||| args.fee_to_redeem * args.max_num_redemptions > u64::MAX
    ||| spec_funding(args) > u64::MAX
    ||| spec_expiry(now, args.num_days_to_expire) > u64::MAX
}

/// Why a creation is refused, if it is: the first of the checks that fails.
pub open spec fn spec_creation_error(args: InitCashLinkArgs, now: u64) -> Option<CashError> {
    if args.amount == 0 {
        Some(CashError::InvalidAmount)
    } else if args.max_num_redemptions == 0 {
        Some(CashError::InvalidNumberOfRedemptions)
    } else if args.num_days_to_expire == 0 {
        Some(CashError::InvalidExpiryInDays)
    } else if args.distribution_type == DistributionType::Fixed && args.amount % (
    args.max_num_redemptions as u64) != 0 {
        Some(CashError::InvalidAmount)
    } else if args.distribution_type == DistributionType::Random && args.min_amount is None {
        Some(CashError::MinAmountNotSet)
    } else if args.min_amount is Some && args.min_amount->0 > args.amount {
        Some(CashError::MinAmountMustBeLessThanAmount)
    } else if spec_creation_overflows(args, now) {
        Some(CashError::Overflow)
    } else {
        None
    }
}

/// The record of a link that is created now.
pub open spec fn spec_created(
    args: InitCashLinkArgs,
    authority: Address,
    owner: Address,
    pass_key: Address,
    mint: Option<Address>,
    now: u64,
) -> CashLink {
    CashLink {
        account_type: AccountType::CashLink,
        authority,
        state: CashLinkState::Initialized,
        amount: args.amount,
        fee_bps: args.fee_bps,
        fixed_fee: args.fixed_fee,
        fee_to_redeem: args.fee_to_redeem,
        remaining_amount: args.amount,
        distribution_type: args.distribution_type,
        owner,
        last_redeemed_at: None,
        expires_at: spec_expiry(now, args.num_days_to_expire) as u64,
        mint,
        total_redemptions: 0,
        max_num_redemptions: args.max_num_redemptions,
        min_amount: match args.min_amount {
            Some(min_amount) => min_amount,
            None => 1,
        },
        fingerprint_enabled: match args.fingerprint_enabled {
            Some(enabled) => enabled,
            None => false,
        },
        pass_key,
    }
}

/// Validates the arguments of a creation and computes what the owner must
/// pay. On success returns the new record and the funding; nothing is checked
/// of the accounts here.
pub fn create(
    args: &InitCashLinkArgs,
    authority: Address,
    owner: Address,
    pass_key: Address,
    mint: Option<Address>,
    now: u64,
) -> (r: Result<(CashLink, u64), CashError>)
    ensures
        spec_creation_error(*args, now) matches Some(e) ==> r == Err::<(CashLink, u64), CashError>(
            e,
        ),
        spec_creation_error(*args, now) is None ==> r == Ok::<(CashLink, u64), CashError>(
            (
                spec_created(*args, authority, owner, pass_key, mint, now),
                spec_funding(*args) as u64,
            ),
        ),
        r matches Ok((link, _)) ==> link.wf() && link.remaining_amount == link.amount
            && link.state == CashLinkState::Initialized && link.total_redemptions == 0,
{
    if args.amount == 0 {
        return Err(CashError::InvalidAmount);
    }
    if args.max_num_redemptions == 0 {
        return Err(CashError::InvalidNumberOfRedemptions);
    }
    if args.num_days_to_expire == 0 {
        return Err(CashError::InvalidExpiryInDays);
    }
    match args.distribution_type {
        DistributionType::Fixed => {
            if args.amount % (args.max_num_redemptions as u64) != 0 {
                return Err(CashError::InvalidAmount);
            }
        },
        DistributionType::Random => {
            if args.min_amount.is_none() {
                return Err(CashError::MinAmountNotSet);
            }
        },
    }
    let min_amount = match args.min_amount {
        Some(min_amount) => {
            if min_amount > args.amount {
                return Err(CashError::MinAmountMustBeLessThanAmount);
            }
            min_amount
        },
        None => 1,
    };
    let fee_from_bps = match args.amount.checked_mul(args.fee_bps as u64) {
        Some(product) => product / 10000,
        None => { return Err(CashError::Overflow); },
    };
    let total_platform_fee = match fee_from_bps.checked_add(args.fixed_fee) {
        Some(fee) => fee,
        None => { return Err(CashError::Overflow); },
    };
    let total_redemption_fee = match args.fee_to_redeem.checked_mul(
        args.max_num_redemptions as u64,
    ) {
        Some(fee) => fee,
        None => { return Err(CashError::Overflow); },
    };
    let with_platform_fee = match args.amount.checked_add(total_platform_fee) {
        Some(sum) => sum,
        None => { return Err(CashError::Overflow); },
    };
    let total = match with_platform_fee.checked_add(total_redemption_fee) {
        Some(sum) => sum,
        None => { return Err(CashError::Overflow); },
    };
    let expires_at = match now.checked_add((args.num_days_to_expire as u64) * SECONDS_PER_DAY) {
        Some(time) => time,
        None => { return Err(CashError::Overflow); },
    };
    let link = CashLink {
        account_type: AccountType::CashLink,
        authority,
        state: CashLinkState::Initialized,
        amount: args.amount,
        fee_bps: args.fee_bps,
        fixed_fee: args.fixed_fee,
        fee_to_redeem: args.fee_to_redeem,
        remaining_amount: args.amount,
        distribution_type: args.distribution_type,
        owner,
        last_redeemed_at: None,
        expires_at,
        mint,
        total_redemptions: 0,
        max_num_redemptions: args.max_num_redemptions,
        min_amount,
        fingerprint_enabled: match args.fingerprint_enabled {
            Some(enabled) => enabled,
            None => false,
        },
        pass_key,
    };
    Ok((link, total))
}

impl CashLink {
    /// Why the state of the link forbids a redemption or a cancellation, if it
    /// does.
    pub open spec fn spec_state_error(&self) -> Option<CashError> {
        if self.state == CashLinkState::Expired {
            Some(CashError::AccountAlreadyExpired)
        } else if self.state == CashLinkState::Redeemed {
            Some(CashError::AccountAlreadyRedeemed)
        } else {
            None
        }
    }

    /// Why the link has no room for a redemption, if it has none.
    pub open spec fn spec_capacity_error(&self) -> Option<CashError> {
        if self.total_redemptions >= self.max_num_redemptions {
            Some(CashError::MaxRedemptionsReached)
        } else if self.remaining_amount == 0 {
            Some(CashError::NoRemainingAmount)
        } else {
            None
        }
    }

    /// Whether the next redemption takes the only slot or the last one.
    pub open spec fn spec_is_last_redemption(&self) -> bool {
        self.max_num_redemptions == 1 || self.total_redemptions + 1 == self.max_num_redemptions
    }

    /// Whether the share of the next redemption is drawn at random.
    pub open spec fn spec_needs_random(&self) -> bool {
        self.distribution_type == DistributionType::Random && !self.spec_is_last_redemption()
    }

    /// The share that the next redemption pays, given the number drawn for it.
    /// `None` where the arithmetic fails: a fixed share of no slots, or a random
    /// share where no more than the minimum is left.
    pub open spec fn spec_amount_to_redeem(&self, random: u64) -> Option<u64> {
        match self.distribution_type {
            DistributionType::Fixed => if self.max_num_redemptions == 0 {
                None
            } else {
                Some(self.amount / (self.max_num_redemptions as u64))
            },
            DistributionType::Random => if self.spec_is_last_redemption() {
                Some(self.remaining_amount)
            } else if self.min_amount >= self.remaining_amount {
                None
            } else {
                Some(
                    (random % ((self.remaining_amount - self.min_amount) as u64)
                        + self.min_amount) as u64,
                )
            },
        }
    }

    /// The fee of one redemption: the fee in basis points on the principal,
    /// spread evenly over the slots, and the redemption fee; the first
    /// redemption bears the fixed fee too. `None` where the arithmetic leaves
    /// `u64` or the link has no slots.
    pub open spec fn spec_fee_to_redeem(&self, first: bool) -> Option<u64> {
        let fee = spec_fee(self.amount, self.fee_bps as u64) / (self.max_num_redemptions as int)
            + self.fee_to_redeem + if first {
            self.fixed_fee as int
        } else {
            0
        };
        if self.amount * self.fee_bps > u64::MAX || self.max_num_redemptions == 0 || fee
            > u64::MAX {
            None
        } else {
            Some(fee as u64)
        }
    }

    /// The record with one more redemption counted and the given share taken
    /// from what remains.
    pub open spec fn spec_counted(&self, amount_to_redeem: u64) -> CashLink {
        CashLink {
            remaining_amount: (self.remaining_amount - amount_to_redeem) as u64,
            total_redemptions: (self.total_redemptions + 1) as u16,
            ..*self
        }
    }

    /// The record after a redemption that pays the given share at the given
    /// time.
    pub open spec fn spec_after_redemption(&self, amount_to_redeem: u64, now: u64) -> CashLink {
        let counted = self.spec_counted(amount_to_redeem);
        CashLink {
            state: if counted.spec_is_fully_redeemed() {
                CashLinkState::Redeemed
            } else {
                CashLinkState::Redeeming
            },
            last_redeemed_at: Some(now),
            ..counted
        }
    }

    /// What a redemption pays and what it makes of the record, given the number
    /// drawn for it. Every failure here is one of arithmetic; on a record that
    /// has no open slot the count of open slots is one of them, unless the
    /// redemption takes all that is left.
    pub open spec fn spec_settle(&self, random: u64, now: u64) -> Result<
        (CashLink, Settlement),
        CashError,
    > {
        match self.spec_amount_to_redeem(random) {
            None => Err(CashError::Overflow),
            Some(amount_to_redeem) => if amount_to_redeem > self.remaining_amount
                || self.total_redemptions == u16::MAX {
                Err(CashError::Overflow)
            } else {
                match self.spec_fee_to_redeem(self.total_redemptions == 0) {
                    None => Err(CashError::Overflow),
                    Some(total_fee_to_redeem) => if amount_to_redeem + total_fee_to_redeem
                        > u64::MAX || (self.total_redemptions >= self.max_num_redemptions
                        && amount_to_redeem < self.remaining_amount) {
                        Err(CashError::Overflow)
                    } else {
                        let after = self.spec_after_redemption(amount_to_redeem, now);
                        Ok(
                            (
                                after,
                                Settlement {
                                    amount_to_redeem,
                                    total_fee_to_redeem,
                                    fully_redeemed: after.state == CashLinkState::Redeemed,
                                },
                            ),
                        )
                    },
                }
            },
        }
    }

    /// What a redemption at the given time does, given the number drawn for
    /// it: the record after it and what it pays, or the first reason to refuse
    /// it.
    pub open spec fn spec_redeem(&self, now: u64, random: u64) -> Result<
        (CashLink, Settlement),
        CashError,
    > {
        if let Some(e) = self.spec_state_error() {
            Err(e)
        } else if now > self.expires_at {
            Err(CashError::CashlinkExpired)
        } else if let Some(e) = self.spec_capacity_error() {
            Err(e)
        } else {
            self.spec_settle(random, now)
        }
    }

    /// What a cancellation at the given time does: the record after it, or the
    /// reason to refuse it.
    pub open spec fn spec_cancel(&self, now: u64) -> Result<CashLink, CashError> {
        if let Some(e) = self.spec_state_error() {
            Err(e)
        } else if now <= self.expires_at {
            Err(CashError::CashlinkNotExpired)
        } else {
            Ok(CashLink { state: CashLinkState::Expired, ..*self })
        }
    }

    /// Why the link cannot be closed, if it cannot.
    pub open spec fn spec_close_error(&self) -> Option<CashError> {
        if self.state != CashLinkState::Expired {
            Some(CashError::AccountNotExpired)
        } else if self.total_redemptions > 0 {
            Some(CashError::AccountAlreadyRedeemed)
        } else {
            None
        }
    }

    /// Fails where the link is cancelled or completed.
    pub fn check_state(&self) -> (r: Result<(), CashError>)
        ensures
            self.spec_state_error() matches Some(e) ==> r == Err::<(), CashError>(e),
            self.spec_state_error() is None ==> r is Ok,
    {
        if self.expired() {
            return Err(CashError::AccountAlreadyExpired);
        }
        if self.redeemed() {
            return Err(CashError::AccountAlreadyRedeemed);
        }
        Ok(())
    }

    /// Fails where the deadline has passed.
    pub fn check_deadline(&self, now: u64) -> (r: Result<(), CashError>)
        ensures
            now > self.expires_at ==> r == Err::<(), CashError>(CashError::CashlinkExpired),
            now <= self.expires_at ==> r is Ok,
    {
        if now > self.expires_at {
            return Err(CashError::CashlinkExpired);
        }
        Ok(())
    }

    /// Fails where every slot is used or nothing is left.
    pub fn check_capacity(&self) -> (r: Result<(), CashError>)
        ensures
            self.spec_capacity_error() matches Some(e) ==> r == Err::<(), CashError>(e),
            self.spec_capacity_error() is None ==> r is Ok,
    {
        if self.total_redemptions >= self.max_num_redemptions {
            return Err(CashError::MaxRedemptionsReached);
        }
        if self.remaining_amount == 0 {
            return Err(CashError::NoRemainingAmount);
        }
        Ok(())
    }

    /// Whether the share of the next redemption is drawn at random.
    pub fn needs_random(&self) -> (b: bool)
        ensures
            b == self.spec_needs_random(),
    {
        match self.distribution_type {
            DistributionType::Fixed => false,
            DistributionType::Random => !(self.max_num_redemptions == 1
                || self.total_redemptions as u32 + 1 == self.max_num_redemptions as u32),
        }
    }

    /// The share that the next redemption pays, given the number drawn for it.
    pub fn amount_to_redeem(&self, random: u64) -> (r: Result<u64, CashError>)
        ensures
            self.spec_amount_to_redeem(random) matches Some(amount) ==> r == Ok::<u64, CashError>(
                amount,
            ),
            self.spec_amount_to_redeem(random) is None ==> r == Err::<u64, CashError>(
                CashError::Overflow,
            ),
    {
        match self.distribution_type {
            DistributionType::Fixed => match self.amount.checked_div(
                self.max_num_redemptions as u64,
            ) {
                Some(share) => Ok(share),
                None => Err(CashError::Overflow),
            },
            DistributionType::Random => {
                if !self.needs_random() {
                    Ok(self.remaining_amount)
                } else {
                    let range = match self.remaining_amount.checked_sub(self.min_amount) {
                        Some(range) => range,
                        None => { return Err(CashError::Overflow); },
                    };
                    if range == 0 {
                        return Err(CashError::Overflow);
                    }
                    let drawn = random % range;
                    Ok(drawn + self.min_amount)
                }
            },
        }
    }

    /// The fee of one redemption; `first` says whether it is the link's first.
    pub fn fee_to_redeem(&self, first: bool) -> (r: Result<u64, CashError>)
        ensures
            self.spec_fee_to_redeem(first) matches Some(fee) ==> r == Ok::<u64, CashError>(fee),
            self.spec_fee_to_redeem(first) is None ==> r == Err::<u64, CashError>(
                CashError::Overflow,
            ),
    {
        let fee_from_bps = match self.amount.checked_mul(self.fee_bps as u64) {
            Some(product) => product / 10000,
            None => { return Err(CashError::Overflow); },
        };
        let platform_fee_per_redeem = match fee_from_bps.checked_div(
            self.max_num_redemptions as u64,
        ) {
            Some(fee) => fee,
            None => { return Err(CashError::Overflow); },
        };
        let fee = match platform_fee_per_redeem.checked_add(self.fee_to_redeem) {
            Some(fee) => fee,
            None => { return Err(CashError::Overflow); },
        };
        if first {
            match fee.checked_add(self.fixed_fee) {
                Some(fee) => Ok(fee),
                None => Err(CashError::Overflow),
            }
        } else {
            Ok(fee)
        }
    }

    /// What a redemption pays and what it makes of a record that has room for
    /// it, given the number drawn for it. The record itself is left as it is:
    /// the new one is returned.
    pub fn settle(&self, random: u64, now: u64) -> (r: Result<(CashLink, Settlement), CashError>)
        ensures
            r == self.spec_settle(random, now),
    {
        let amount_to_redeem = self.amount_to_redeem(random)?;
        let remaining_amount = match self.remaining_amount.checked_sub(amount_to_redeem) {
            Some(remaining) => remaining,
            None => { return Err(CashError::Overflow); },
        };
        let total_redemptions = match self.total_redemptions.checked_add(1) {
            Some(count) => count,
            None => { return Err(CashError::Overflow); },
        };
        let total_fee_to_redeem = self.fee_to_redeem(total_redemptions == 1)?;
        if amount_to_redeem.checked_add(total_fee_to_redeem).is_none() {
            return Err(CashError::Overflow);
        }
        let mut after = *self;
        after.remaining_amount = remaining_amount;
        after.total_redemptions = total_redemptions;
        let fully_redeemed = match after.is_fully_redeemed() {
            Ok(fully_redeemed) => fully_redeemed,
            Err(e) => { return Err(e); },
        };
        after.state = if fully_redeemed {
            CashLinkState::Redeemed
        } else {
            CashLinkState::Redeeming
        };
        after.last_redeemed_at = Some(now);
        Ok((after, Settlement { amount_to_redeem, total_fee_to_redeem, fully_redeemed }))
    }

    /// Redeems one share at the given time, given the number drawn for it.
    /// The record itself is left as it is: the new one is returned with what
    /// the redemption pays.
    pub fn redeem(&self, now: u64, random: u64) -> (r: Result<(CashLink, Settlement), CashError>)
        ensures
            r == self.spec_redeem(now, random),
    {
        self.check_state()?;
        self.check_deadline(now)?;
        self.check_capacity()?;
        self.settle(random, now)
    }

    /// Cancels the link at the given time. The record itself is left as it
    /// is: the new one is returned.
    pub fn cancel(&self, now: u64) -> (r: Result<CashLink, CashError>)
        ensures
            r == self.spec_cancel(now),
    {
        self.check_state()?;
        if now <= self.expires_at {
            return Err(CashError::CashlinkNotExpired);
        }
        let mut after = *self;
        after.state = CashLinkState::Expired;
        Ok(after)
    }

    /// Fails unless the link may be closed: it is cancelled and nobody
    /// redeemed from it.
    pub fn check_closable(&self) -> (r: Result<(), CashError>)
        ensures
            self.spec_close_error() matches Some(e) ==> r == Err::<(), CashError>(e),
            self.spec_close_error() is None ==> r is Ok,
    {
        if !self.expired() {
            return Err(CashError::AccountNotExpired);
        }
        if self.total_redemptions > 0 {
            return Err(CashError::AccountAlreadyRedeemed);
        }
        Ok(())
    }
}

/// A link that has just been created holds its whole principal, is in its
/// first state and counts no redemption.
pub proof fn lemma_creation_invariant(
    args: InitCashLinkArgs,
    authority: Address,
    owner: Address,
    pass_key: Address,
    mint: Option<Address>,
    now: u64,
)
    requires
        spec_creation_error(args, now) is None,
    ensures
        ({
            let link = spec_created(args, authority, owner, pass_key, mint, now);
            &&& link.remaining_amount == link.amount
            &&& link.amount == args.amount
            &&& link.state == CashLinkState::Initialized
            &&& link.total_redemptions == 0
            &&& link.wf()
        }),
{
}

/// A redemption of a well-formed link leaves a well-formed link: the principal
/// is the same, the share that was paid has left what remains, one more
/// redemption is counted and the count stays within the slots. The state
/// moves forward only: to partly redeemed or to completed.
pub proof fn lemma_redemption_step(link: CashLink, now: u64, random: u64)
    requires
        link.wf(),
        link.spec_redeem(now, random) is Ok,
    ensures
        ({
            let (after, paid) = link.spec_redeem(now, random)->Ok_0;
            &&& after.wf()
            &&& after.amount == link.amount
            &&& after.max_num_redemptions == link.max_num_redemptions
            &&& after.remaining_amount + paid.amount_to_redeem == link.remaining_amount
            &&& after.total_redemptions == link.total_redemptions + 1
            &&& link.state == CashLinkState::Initialized || link.state == CashLinkState::Redeeming
            &&& after.state == CashLinkState::Redeeming || after.state == CashLinkState::Redeemed
            &&& after.state == CashLinkState::Redeemed <==> after.spec_is_fully_redeemed()
            &&& paid.fully_redeemed <==> after.spec_is_fully_redeemed()
        }),
{
}

/// Under fixed distribution every redemption pays the principal divided by
/// the number of slots.
pub proof fn lemma_fixed_split_exact(link: CashLink, now: u64, random: u64)
    requires
        link.distribution_type == DistributionType::Fixed,
        link.spec_redeem(now, random) is Ok,
    ensures
        link.spec_redeem(now, random)->Ok_0.1.amount_to_redeem == link.amount / (
        link.max_num_redemptions as u64),
{
}

/// Under random distribution a redemption that takes the only slot or the
/// last one pays all that remains; every other pays at least the minimum and
/// less than what remained before it.
pub proof fn lemma_random_split_bounds(link: CashLink, now: u64, random: u64)
    requires
        link.distribution_type == DistributionType::Random,
        link.spec_redeem(now, random) is Ok,
    ensures
        ({
            let paid = link.spec_redeem(now, random)->Ok_0.1;
            &&& link.spec_is_last_redemption() ==> paid.amount_to_redeem == link.remaining_amount
            &&& !link.spec_is_last_redemption() ==> link.min_amount <= paid.amount_to_redeem
                < link.remaining_amount
        }),
{
    if !link.spec_is_last_redemption() {
        let range = (link.remaining_amount - link.min_amount) as u64;
        assert(0 <= random % range < range);
    }
}

/// The redemptions of a link in turn, one for each pair of a time and a number
/// drawn: the record after the last and the shares paid, or `None` where one
/// of them is refused.
pub open spec fn spec_redeem_all(link: CashLink, draws: Seq<(u64, u64)>) -> Option<
    (CashLink, Seq<u64>),
>
    decreases draws.len(),
{
    if draws.len() == 0 {
        Some((link, Seq::empty()))
    } else {
        match link.spec_redeem(draws[0].0, draws[0].1) {
            Err(_) => None,
            Ok((after, paid)) => match spec_redeem_all(after, draws.skip(1)) {
                None => None,
                Some((end, shares)) => Some((end, seq![paid.amount_to_redeem] + shares)),
            },
        }
    }
}

/// The sum of the amounts.
pub open spec fn spec_sum(amounts: Seq<u64>) -> int
    decreases amounts.len(),
{
    if amounts.len() == 0 {
        0
    } else {
        amounts[0] + spec_sum(amounts.skip(1))
    }
}

/// Conservation: over any run of successful redemptions of a well-formed
/// link, what has left the remaining amount is the sum of the shares paid, and
/// the count of redemptions has grown by their number and stays within the
/// slots. From creation on, the principal less what remains is therefore the
/// sum of all shares paid, and the count is the number of redemptions.
pub proof fn lemma_conservation(link: CashLink, draws: Seq<(u64, u64)>)
    requires
        link.wf(),
        spec_redeem_all(link, draws) is Some,
    ensures
        ({
            let (end, shares) = spec_redeem_all(link, draws)->0;
            &&& end.wf()
            &&& end.amount == link.amount
            &&& end.max_num_redemptions == link.max_num_redemptions
            &&& shares.len() == draws.len()
            &&& link.remaining_amount - end.remaining_amount == spec_sum(shares)
            &&& end.total_redemptions == link.total_redemptions + draws.len()
            &&& end.total_redemptions <= end.max_num_redemptions
            &&& link.remaining_amount == link.amount && link.total_redemptions == 0 ==> {
                &&& end.amount - end.remaining_amount == spec_sum(shares)
                &&& end.total_redemptions == draws.len()
            }
        }),
    decreases draws.len(),
{
    if draws.len() > 0 {
        lemma_redemption_step(link, draws[0].0, draws[0].1);
        let (after, paid) = link.spec_redeem(draws[0].0, draws[0].1)->Ok_0;
        lemma_conservation(after, draws.skip(1));
        let (end, rest) = spec_redeem_all(after, draws.skip(1))->0;
        let shares = seq![paid.amount_to_redeem] + rest;
        assert(shares.skip(1) =~= rest);
        assert(shares[0] == paid.amount_to_redeem);
    }
}

/// A cancellation is refused until the deadline has passed. After it, it is
/// accepted of a link that is neither cancelled nor completed, and then the
/// link is cancelled: a second cancellation is refused whenever it comes.
pub proof fn lemma_cancel_once(link: CashLink, now: u64, later: u64)
    ensures
        now <= link.expires_at ==> link.spec_cancel(now) is Err,
        now > link.expires_at && (link.state == CashLinkState::Initialized || link.state
            == CashLinkState::Redeeming) ==> link.spec_cancel(now) is Ok,
        link.spec_cancel(now) matches Ok(after) ==> {
            &&& after.state == CashLinkState::Expired
            &&& after.spec_cancel(later) == Err::<CashLink, CashError>(
                CashError::AccountAlreadyExpired,
            )
            &&& after.remaining_amount == link.remaining_amount
            &&& after.total_redemptions == link.total_redemptions
        },
{
}

/// A link can be closed only where it is cancelled and nobody has redeemed
/// from it.
pub proof fn lemma_closable(link: CashLink)
    ensures
        link.spec_close_error() is None <==> link.state == CashLinkState::Expired
            && link.total_redemptions == 0,
{
}

impl CashLink {
    /// The share of the fee in basis points that each redemption bears, with
    /// the redemption fee: what every redemption pays to the fee collector,
    /// the fixed fee apart.
    pub open spec fn spec_fee_per_slot(&self) -> int {
        spec_fee(self.amount, self.fee_bps as u64) / (self.max_num_redemptions as int)
            + self.fee_to_redeem
    }

    /// What the vault must hold so that every open slot can be redeemed: what
    /// remains of the principal, the fee of every open slot and, until the
    /// first redemption, the fixed fee.
    pub open spec fn spec_owed(&self) -> int {
        self.remaining_amount + self.spec_slots_remaining() * self.spec_fee_per_slot()
            + if self.total_redemptions == 0 {
            self.fixed_fee as int
        } else {
            0
        }
    }
}

/// The funding of a new link covers all that the link owes: the vault starts
/// with at least the principal and the fees of every redemption.
pub proof fn lemma_funding_covers_what_is_owed(
    args: InitCashLinkArgs,
    authority: Address,
    owner: Address,
    pass_key: Address,
    mint: Option<Address>,
    now: u64,
)
    requires
        spec_creation_error(args, now) is None,
    ensures
        spec_created(args, authority, owner, pass_key, mint, now).spec_owed() <= spec_funding(args),
{
    let link = spec_created(args, authority, owner, pass_key, mint, now);
    let fee = spec_fee(args.amount, args.fee_bps as u64);
    let slots = args.max_num_redemptions as int;
    let redemption_fee = args.fee_to_redeem as int;
    assert(slots * (fee / slots + redemption_fee) <= fee + redemption_fee * slots)
        by (nonlinear_arith)
        requires
            slots > 0,
            fee >= 0,
            redemption_fee >= 0,
    ;
}

/// What a redemption pays, the share and the fee together, leaves what the
/// link owes: a vault that holds what a well-formed link owes holds what the
/// next redemption pays, and afterwards still what the link then owes.
pub proof fn lemma_redemption_pays_what_is_owed(link: CashLink, now: u64, random: u64)
    requires
        link.wf(),
        link.spec_redeem(now, random) is Ok,
    ensures
        ({
            let (after, paid) = link.spec_redeem(now, random)->Ok_0;
            &&& after.spec_owed() + paid.spec_total() == link.spec_owed()
            &&& paid.spec_total() <= link.spec_owed()
            &&& after.spec_owed() >= after.remaining_amount
        }),
{
    let (after, paid) = link.spec_redeem(now, random)->Ok_0;
    let slots = link.spec_slots_remaining();
    let per_slot = link.spec_fee_per_slot();
    assert(after.spec_fee_per_slot() == per_slot);
    assert(slots * per_slot == (slots - 1) * per_slot + per_slot) by (nonlinear_arith);
    assert(per_slot >= 0) by (nonlinear_arith)
        requires
            per_slot == spec_fee(link.amount, link.fee_bps as u64) / (
            link.max_num_redemptions as int) + link.fee_to_redeem,
            spec_fee(link.amount, link.fee_bps as u64) >= 0,
            link.max_num_redemptions > 0,
    ;
    assert((slots - 1) * per_slot >= 0) by (nonlinear_arith)
        requires
            slots >= 1,
            per_slot >= 0,
    ;
}

/// The states advance only. A redemption leaves the link partly redeemed or
/// completed, a cancellation leaves it expired, and a link that is completed
/// or expired is redeemed and cancelled no more.
pub proof fn lemma_states_only_advance(link: CashLink, now: u64, random: u64)
    ensures
        link.state == CashLinkState::Redeemed || link.state == CashLinkState::Expired ==> {
            &&& link.spec_redeem(now, random) is Err
            &&& link.spec_cancel(now) is Err
        },
        link.spec_redeem(now, random) matches Ok((after, _)) ==> after.state
            == CashLinkState::Redeeming || after.state == CashLinkState::Redeemed,
        link.spec_cancel(now) matches Ok(after) ==> after.state == CashLinkState::Expired,
{
}

/// Under random distribution no share falls below the minimum. While no more
/// than what remains is asked as the minimum, as it is from creation on,
/// every redemption pays at least the minimum, the last one too; and as long
/// as the link is not completed, what remains still reaches the minimum.
pub proof fn lemma_random_share_reaches_minimum(link: CashLink, now: u64, random: u64)
    requires
        link.distribution_type == DistributionType::Random,
        link.min_amount <= link.remaining_amount,
        link.spec_redeem(now, random) is Ok,
    ensures
        ({
            let (after, paid) = link.spec_redeem(now, random)->Ok_0;
            &&& paid.amount_to_redeem >= link.min_amount
            &&& after.state == CashLinkState::Redeeming ==> after.min_amount
                <= after.remaining_amount
        }),
{
    let (after, paid) = link.spec_redeem(now, random)->Ok_0;
    lemma_random_split_bounds(link, now, random);
    if after.state == CashLinkState::Redeeming {
        let slots = after.spec_slots_remaining();
        let min_amount = after.min_amount as int;
        assert(min_amount * slots >= min_amount) by (nonlinear_arith)
            requires
                slots >= 1,
                min_amount >= 0,
        ;
    }
}

} // verus!
