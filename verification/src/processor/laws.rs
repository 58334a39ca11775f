//! What holds of the handlers whatever they are given.

use vstd::prelude::*;
use crate::account::Account;
use crate::address::Address;
use crate::error::{CashError, ProcessError};
use crate::instruction::{CancelCashRedemptionArgs, InitCashLinkArgs, InitCashRedemptionArgs};
use crate::lifecycle::{lemma_redemption_pays_what_is_owed, Settlement};
use crate::processor::cashlink::{
    spec_cancel,
    spec_close,
    spec_init,
    spec_payout,
    spec_redeem,
    spec_redeem_admission,
    spec_redeem_fingerprint,
    spec_redeem_native,
    spec_redeem_random,
    spec_redeem_refusal,
    spec_redeem_token,
    spec_unless_zero,
};
use crate::processor::{Effect, OutcomeView, ReadingsView};
use crate::state::cashlink::{lemma_pack_len, lemma_unpack_pack, CashLink, CashLinkState};
use crate::state::redemption::lemma_redemption_pack_len;
use crate::utils::spec_initialized_token;

verus! {

/// What a step takes out of the account in the given place.
pub open spec fn spec_moved(effect: Effect, source: int) -> int {
    match effect {
        Effect::NativeTransfer { source: from, destination, amount } => if from == source {
            amount as int
        } else {
            0
        },
        Effect::TokenTransfer { source: from, destination, authority, amount, signed } => if from
            == source {
            amount as int
        } else {
            0
        },
        Effect::MoveLamports { source: from, destination, amount } => if from == source {
            amount as int
        } else {
            0
        },
        _ => 0,
    }
}

/// What the steps take out of the account in the given place, all together.
pub open spec fn spec_outflow(effects: Seq<Effect>, source: int) -> int
    decreases effects.len(),
{
    if effects.len() == 0 {
        0
    } else {
        spec_outflow(effects.drop_last(), source) + spec_moved(effects.last(), source)
    }
}

/// What two lists of steps take out of an account is what each takes out.
pub proof fn lemma_outflow_concat(first: Seq<Effect>, second: Seq<Effect>, source: int)
    ensures
        spec_outflow(first + second, source) == spec_outflow(first, source) + spec_outflow(
            second,
            source,
        ),
    decreases second.len(),
{
    if second.len() == 0 {
        assert(first + second =~= first);
    } else {
        assert((first + second).drop_last() =~= first + second.drop_last());
        lemma_outflow_concat(first, second.drop_last(), source);
    }
}

/// What a single step takes out of an account.
pub proof fn lemma_outflow_one(effect: Effect, source: int)
    ensures
        spec_outflow(seq![effect], source) == spec_moved(effect, source),
        spec_outflow(Seq::<Effect>::empty(), source) == 0,
{
    reveal_with_fuel(spec_outflow, 2);
    assert(seq![effect].drop_last() =~= Seq::<Effect>::empty());
}

/// The movements of a redemption take the share and the fee out of the vault
/// and, where the redemption completes the link, all that is left after them.
proof fn lemma_outflow_payout(
    paid: Settlement,
    available: u64,
    to_recipient: Effect,
    to_collector: Effect,
    to_owner: Effect,
    source: int,
)
    requires
        paid.spec_total() <= available,
        spec_moved(to_recipient, source) == paid.amount_to_redeem,
        spec_moved(to_collector, source) == paid.total_fee_to_redeem,
        spec_moved(to_owner, source) == available - paid.spec_total(),
    ensures
        spec_outflow(
            spec_payout(paid, available, to_recipient, to_collector, to_owner),
            source,
        ) == if paid.fully_redeemed {
            available as int
        } else {
            paid.spec_total()
        },
{
    let a = spec_unless_zero(paid.amount_to_redeem, to_recipient);
    let b = spec_unless_zero(paid.total_fee_to_redeem, to_collector);
    let c = if paid.fully_redeemed {
        spec_unless_zero((available - paid.spec_total()) as u64, to_owner)
    } else {
        Seq::empty()
    };
    lemma_outflow_one(to_recipient, source);
    lemma_outflow_one(to_collector, source);
    lemma_outflow_one(to_owner, source);
    lemma_outflow_concat(a, b, source);
    lemma_outflow_concat(a + b, c, source);
}

/// No double redemption. Once the marker of a wallet's redemption is
/// occupied, every redemption that names it is refused: with the error of an
/// account that is already initialized, where the authority and the pass key
/// are admitted and the link is neither cancelled nor completed. A refusal has
/// no outcome, so nothing is stored: what remains and the count of
/// redemptions stay as they are.
pub proof fn lemma_no_double_redemption(
    accounts: Seq<Account>,
    args: InitCashRedemptionArgs,
    program_id: Address,
    now: u64,
    min_lamports: u64,
    readings: ReadingsView,
)
    requires
        accounts.len() >= 6,
        accounts[5].spec_is_occupied(),
    ensures
        spec_redeem(accounts, args, program_id, now, min_lamports, readings) is Err,
        spec_redeem_admission(accounts, program_id) matches Ok(link) && link.spec_state_error()
            is None ==> spec_redeem(accounts, args, program_id, now, min_lamports, readings)
            == Err::<OutcomeView, ProcessError>(ProcessError::AccountAlreadyInitialized),
{
}

/// A wallet redeems at most once. Once the marker that an accepted redemption
/// has stored stands in its account, and the account is funded, every further
/// redemption that names that account is refused.
pub proof fn lemma_redeem_once_stored(
    first: Seq<Account>,
    again: Seq<Account>,
    args: InitCashRedemptionArgs,
    later_args: InitCashRedemptionArgs,
    program_id: Address,
    now: u64,
    later: u64,
    min_lamports: u64,
    readings: ReadingsView,
    later_readings: ReadingsView,
)
    requires
        spec_redeem(first, args, program_id, now, min_lamports, readings) is Ok,
        again.len() >= 6,
        again[5].lamports > 0,
        again[5].data@ == spec_redeem(
            first,
            args,
            program_id,
            now,
            min_lamports,
            readings,
        )->Ok_0.redemption->0.spec_pack(),
    ensures
        spec_redeem(again, later_args, program_id, later, min_lamports, later_readings) is Err,
{
    let marker = spec_redeem(first, args, program_id, now, min_lamports, readings)->Ok_0.redemption->0;
    lemma_redemption_pack_len(marker);
    lemma_no_double_redemption(again, later_args, program_id, later, min_lamports, later_readings);
}

/// A redemption that is accepted creates the marker of the wallet's
/// redemption, 81 bytes in the sixth account, and stores the marker there; the
/// record that it stores is the link after the redemption, and what it takes
/// out of the vault is the share and the fee or, where it completes the link,
/// all that the vault held.
pub proof fn lemma_redemption_outcome(
    accounts: Seq<Account>,
    args: InitCashRedemptionArgs,
    program_id: Address,
    now: u64,
    min_lamports: u64,
    readings: ReadingsView,
)
    requires
        spec_redeem(accounts, args, program_id, now, min_lamports, readings) is Ok,
    ensures
        ({
            let outcome = spec_redeem(accounts, args, program_id, now, min_lamports, readings)->Ok_0;
            let link = spec_redeem_admission(accounts, program_id)->Ok_0;
            let settled = link.spec_redeem(now, spec_redeem_random(accounts, link, now));
            &&& spec_redeem_admission(accounts, program_id) is Ok
            &&& !accounts[5].spec_is_occupied()
            &&& settled is Ok
            &&& outcome.cash_link == Some(settled->Ok_0.0)
            &&& outcome.redemption is Some
            &&& outcome.redemption->0.amount == settled->Ok_0.1.amount_to_redeem
            &&& outcome.redemption->0.wallet == accounts[1].key
            &&& outcome.redemption->0.cash_link == accounts[3].key
            &&& outcome.effects.contains(
                Effect::CreateAccount {
                    account: 5,
                    payer: 7,
                    rent: 9,
                    system_program: if link.mint is Some {
                        13usize
                    } else {
                        11usize
                    },
                    size: 81,
                    seeds: crate::processor::Seeds::Redemption,
                },
            )
            &&& outcome.effects[outcome.effects.len() - 2] == Effect::StoreRedemption { account: 5 }
            &&& outcome.effects.last() == Effect::StoreCashLink { account: 3 }
            &&& spec_outflow(
                outcome.effects,
                if link.mint is Some {
                    12
                } else {
                    3
                },
            ) == if settled->Ok_0.1.fully_redeemed {
                if link.mint is Some {
                    spec_initialized_token(readings.vault_token)->Ok_0.amount as int
                } else {
                    accounts[3].lamports - min_lamports
                }
            } else {
                settled->Ok_0.1.spec_total()
            }
        }),
{
    let outcome = spec_redeem(accounts, args, program_id, now, min_lamports, readings)->Ok_0;
    let link = spec_redeem_admission(accounts, program_id)->Ok_0;
    let (after, paid) = link.spec_settle(spec_redeem_random(accounts, link, now), now)->Ok_0;
    let fingerprint = spec_redeem_fingerprint(accounts, link, args, readings)->Ok_0;
    let place: int = if link.mint is Some {
        13
    } else {
        11
    };
    let source: int = if link.mint is Some {
        12
    } else {
        3
    };
    let create = seq![
        Effect::CreateAccount {
            account: 5,
            payer: 7,
            rent: 9,
            system_program: place as usize,
            size: 81,
            seeds: crate::processor::Seeds::Redemption,
        },
    ];
    let store = seq![Effect::StoreRedemption { account: 5 }, Effect::StoreCashLink { account: 3 }];
    let payout = if link.mint is Some {
        spec_redeem_token(accounts, link, paid, readings)->Ok_0
    } else {
        spec_redeem_native(accounts, paid, min_lamports)->Ok_0
    };
    assert(outcome.effects == payout + create + fingerprint + store);
    assert(outcome.effects[payout.len() as int] == create[0]);
    // the marker and the stores take nothing out of the vault
    lemma_outflow_concat(payout + create + fingerprint, store, source);
    lemma_outflow_concat(payout + create, fingerprint, source);
    lemma_outflow_concat(payout, create, source);
    lemma_outflow_one(create[0], source);
    assert(store =~= seq![store[0]] + seq![store[1]]);
    lemma_outflow_concat(seq![store[0]], seq![store[1]], source);
    lemma_outflow_one(store[0], source);
    lemma_outflow_one(store[1], source);
    if fingerprint.len() > 0 {
        assert(fingerprint =~= seq![fingerprint[0]]);
        lemma_outflow_one(fingerprint[0], source);
    } else {
        assert(fingerprint =~= Seq::<Effect>::empty());
        lemma_outflow_one(create[0], source);
    }
    if link.mint is Some {
        let vault = spec_initialized_token(readings.vault_token)->Ok_0;
        let moved = spec_payout(
            paid,
            vault.amount,
            Effect::TokenTransfer {
                source: 12,
                destination: 11,
                authority: 3,
                amount: paid.amount_to_redeem,
                signed: true,
            },
            Effect::TokenTransfer {
                source: 12,
                destination: 2,
                authority: 3,
                amount: paid.total_fee_to_redeem,
                signed: true,
            },
            Effect::TokenTransfer {
                source: 12,
                destination: 6,
                authority: 3,
                amount: (vault.amount - paid.spec_total()) as u64,
                signed: true,
            },
        );
        lemma_outflow_payout(
            paid,
            vault.amount,
            Effect::TokenTransfer {
                source: 12,
                destination: 11,
                authority: 3,
                amount: paid.amount_to_redeem,
                signed: true,
            },
            Effect::TokenTransfer {
                source: 12,
                destination: 2,
                authority: 3,
                amount: paid.total_fee_to_redeem,
                signed: true,
            },
            Effect::TokenTransfer {
                source: 12,
                destination: 6,
                authority: 3,
                amount: (vault.amount - paid.spec_total()) as u64,
                signed: true,
            },
            12,
        );
        let close = if paid.fully_redeemed {
            seq![Effect::TokenClose { source: 12, destination: 7, authority: 3 }]
        } else {
            Seq::empty()
        };
        lemma_outflow_concat(moved, close, 12);
        lemma_outflow_one(Effect::TokenClose { source: 12, destination: 7, authority: 3 }, 12);
    } else {
        let available = (accounts[3].lamports - min_lamports) as u64;
        lemma_outflow_payout(
            paid,
            available,
            Effect::MoveLamports { source: 3, destination: 1, amount: paid.amount_to_redeem },
            Effect::MoveLamports { source: 3, destination: 2, amount: paid.total_fee_to_redeem },
            Effect::MoveLamports {
                source: 3,
                destination: 6,
                amount: (available - paid.spec_total()) as u64,
            },
            3,
        );
    }
}

/// Cancellation only after the deadline. A cancellation at or before the
/// deadline of the link is refused. One that is accepted comes after the
/// deadline, stores the link as expired and empties the vault: it takes out
/// all that a token vault holds, or all that the cash link's account holds
/// above the minimum that keeps it alive.
pub proof fn lemma_cancel_after_deadline(
    accounts: Seq<Account>,
    program_id: Address,
    args: CancelCashRedemptionArgs,
    now: u64,
    min_lamports: u64,
    readings: ReadingsView,
)
    ensures
        accounts.len() >= 2 && (CashLink::spec_unpack_account(accounts[1].data@) matches Ok(link)
            && now <= link.expires_at) ==> spec_cancel(
            accounts,
            program_id,
            args,
            now,
            min_lamports,
            readings,
        ) is Err,
        spec_cancel(accounts, program_id, args, now, min_lamports, readings) matches Ok(outcome)
            ==> {
            let link = CashLink::spec_unpack_account(accounts[1].data@)->Ok_0;
            &&& CashLink::spec_unpack_account(accounts[1].data@) is Ok
            &&& now > link.expires_at
            &&& outcome.cash_link == Some(CashLink { state: CashLinkState::Expired, ..link })
            &&& outcome.effects.last() == Effect::StoreCashLink { account: 1 }
            &&& link.mint is Some ==> spec_outflow(outcome.effects, 7) == spec_initialized_token(
                readings.vault_token,
            )->Ok_0.amount
            &&& link.mint is None ==> accounts[1].lamports - spec_outflow(outcome.effects, 1)
                == min_lamports
        },
{
    if spec_cancel(accounts, program_id, args, now, min_lamports, readings) is Ok {
        let outcome = spec_cancel(accounts, program_id, args, now, min_lamports, readings)->Ok_0;
        let link = CashLink::spec_unpack_account(accounts[1].data@)->Ok_0;
        let store = Effect::StoreCashLink { account: 1 };
        if link.mint is Some {
            let vault = spec_initialized_token(readings.vault_token)->Ok_0;
            let transfer = Effect::TokenTransfer {
                source: 7,
                destination: 3,
                authority: 1,
                amount: vault.amount,
                signed: true,
            };
            let close = Effect::TokenClose { source: 7, destination: 4, authority: 1 };
            lemma_outflow_one(transfer, 7);
            lemma_outflow_one(close, 7);
            lemma_outflow_one(store, 7);
            if vault.amount > 0 {
                assert(outcome.effects =~= seq![transfer] + seq![close] + seq![store]);
                lemma_outflow_concat(seq![transfer] + seq![close], seq![store], 7);
                lemma_outflow_concat(seq![transfer], seq![close], 7);
            } else {
                assert(outcome.effects =~= seq![close] + seq![store]);
                lemma_outflow_concat(seq![close], seq![store], 7);
            }
        } else {
            let refund = Effect::MoveLamports {
                source: 1,
                destination: 3,
                amount: (accounts[1].lamports - min_lamports) as u64,
            };
            lemma_outflow_one(refund, 1);
            lemma_outflow_one(store, 1);
            if accounts[1].lamports > min_lamports {
                assert(outcome.effects =~= seq![refund] + seq![store]);
                lemma_outflow_concat(seq![refund], seq![store], 1);
            } else {
                assert(outcome.effects =~= seq![store]);
            }
        }
    }
}

/// A cancellation is accepted at most once. Once the record that an accepted
/// cancellation has stored stands in the cash link's account, whatever else
/// that account's data held behind it, every further cancellation is refused.
pub proof fn lemma_cancel_once_stored(
    first: Seq<Account>,
    again: Seq<Account>,
    program_id: Address,
    args: CancelCashRedemptionArgs,
    now: u64,
    later: u64,
    min_lamports: u64,
    readings: ReadingsView,
    later_readings: ReadingsView,
)
    requires
        spec_cancel(first, program_id, args, now, min_lamports, readings) is Ok,
        again.len() >= 2,
        ({
            let stored = spec_cancel(
                first,
                program_id,
                args,
                now,
                min_lamports,
                readings,
            )->Ok_0.cash_link->0;
            again[1].data@ == stored.spec_pack() + first[1].data@.skip(
                stored.spec_pack().len() as int,
            )
        }),
    ensures
        spec_cancel(again, program_id, args, later, min_lamports, later_readings) is Err,
{
    let stored = spec_cancel(first, program_id, args, now, min_lamports, readings)->Ok_0.cash_link->0;
    lemma_pack_len(stored);
    lemma_unpack_pack(stored, first[1].data@.skip(stored.spec_pack().len() as int));
}

/// Closure is guarded. A closure is refused wherever the link counts a
/// redemption or is not expired. One that is accepted moves the whole balance
/// of the cash link's account, in one step, to the fee payer.
pub proof fn lemma_close_moves_balance(accounts: Seq<Account>, program_id: Address)
    ensures
        accounts.len() >= 2 && (CashLink::spec_unpack_account(accounts[1].data@) matches Ok(link)
            && (link.total_redemptions > 0 || link.state != CashLinkState::Expired)) ==> spec_close(
            accounts,
            program_id,
        ) is Err,
        spec_close(accounts, program_id) matches Ok(outcome) ==> {
            &&& outcome.effects == seq![
                Effect::MoveLamports { source: 1, destination: 2, amount: accounts[1].lamports },
            ]
            &&& spec_outflow(outcome.effects, 1) == accounts[1].lamports
            &&& outcome.cash_link is None
        },
{
    lemma_outflow_one(
        Effect::MoveLamports { source: 1, destination: 2, amount: accounts[1].lamports },
        1,
    );
}

/// A creation that is accepted stores a link that holds its whole principal,
/// is in its first state and counts no redemption, and moves the whole
/// funding in one transfer.
pub proof fn lemma_creation_outcome(
    accounts: Seq<Account>,
    args: InitCashLinkArgs,
    now: u64,
    readings: ReadingsView,
)
    requires
        spec_init(accounts, args, now, readings) is Ok,
    ensures
        ({
            let outcome = spec_init(accounts, args, now, readings)->Ok_0;
            &&& outcome.cash_link matches Some(link) && link.remaining_amount == link.amount
                && link.amount == args.amount && link.state == CashLinkState::Initialized
                && link.total_redemptions == 0 && link.wf()
            &&& outcome.effects.last() == Effect::StoreCashLink { account: 3 }
            &&& outcome.effects[outcome.effects.len() - 2] matches Effect::NativeTransfer {
                amount,
                ..
            } ==> amount == crate::lifecycle::spec_funding(args)
            &&& outcome.effects[outcome.effects.len() - 2] matches Effect::TokenTransfer {
                amount,
                ..
            } ==> amount == crate::lifecycle::spec_funding(args)
        }),
{
}

/// A redemption is never refused for want of funds while the vault holds what
/// the link owes: the token vault, or the balance of the cash link's account
/// above the minimum that keeps it alive.
pub proof fn lemma_funded_redemption_finds_its_funds(
    accounts: Seq<Account>,
    args: InitCashRedemptionArgs,
    program_id: Address,
    now: u64,
    min_lamports: u64,
    readings: ReadingsView,
)
    requires
        spec_redeem_admission(accounts, program_id) is Ok,
        spec_redeem_admission(accounts, program_id)->Ok_0.wf(),
        ({
            let link = spec_redeem_admission(accounts, program_id)->Ok_0;
            if link.mint is Some {
                spec_initialized_token(readings.vault_token) is Ok ==> spec_initialized_token(
                    readings.vault_token,
                )->Ok_0.amount >= link.spec_owed()
            } else {
                accounts[3].lamports - min_lamports >= link.spec_owed()
            }
        }),
    ensures
        spec_redeem(accounts, args, program_id, now, min_lamports, readings) != Err::<
            OutcomeView,
            ProcessError,
        >(ProcessError::Cash(CashError::InsufficientSettlementFunds)),
{
    let link = spec_redeem_admission(accounts, program_id)->Ok_0;
    if spec_redeem_refusal(accounts, link, now) is None {
        let random = spec_redeem_random(accounts, link, now);
        if link.spec_settle(random, now) is Ok {
            assert(link.spec_redeem(now, random) == link.spec_settle(random, now));
            lemma_redemption_pays_what_is_owed(link, now, random);
        }
    }
}

/// Whether every account that the step names is one of the first `len`.
pub open spec fn spec_names_within(effect: Effect, len: nat) -> bool {
    match effect {
        Effect::CreateAccount { account, payer, rent, system_program, size, seeds } => account < len
            && payer < len && rent < len && system_program < len,
        Effect::CreateAssociatedTokenAccount { payer, vault, wallet, mint, rent } => payer < len
            && vault < len && wallet < len && mint < len && rent < len,
        Effect::NativeTransfer { source, destination, amount } => source < len && destination
            < len,
        Effect::TokenTransfer { source, destination, authority, amount, signed } => source < len
            && destination < len && authority < len,
        Effect::TokenClose { source, destination, authority } => source < len && destination < len
            && authority < len,
        Effect::MoveLamports { source, destination, amount } => source < len && destination < len,
        Effect::StoreCashLink { account } => account < len,
        Effect::StoreRedemption { account } => account < len,
    }
}

/// Whether every step names only accounts among the first `len`.
pub open spec fn spec_all_within(effects: Seq<Effect>, len: nat) -> bool {
    forall|i: int| 0 <= i < effects.len() ==> spec_names_within(#[trigger] effects[i], len)
}

/// The steps of a creation that is accepted name only accounts that the
/// instruction was given.
pub proof fn lemma_creation_names_its_accounts(
    accounts: Seq<Account>,
    args: InitCashLinkArgs,
    now: u64,
    readings: ReadingsView,
)
    requires
        spec_init(accounts, args, now, readings) is Ok,
    ensures
        spec_all_within(spec_init(accounts, args, now, readings)->Ok_0.effects, accounts.len()),
{
}

/// Two lists of steps that name only accounts among the first `len` do so
/// together.
proof fn lemma_within_concat(first: Seq<Effect>, second: Seq<Effect>, len: nat)
    requires
        spec_all_within(first, len),
        spec_all_within(second, len),
    ensures
        spec_all_within(first + second, len),
{
    assert forall|i: int| 0 <= i < (first + second).len() implies spec_names_within(
        #[trigger] (first + second)[i],
        len,
    ) by {
        if i < first.len() {
            assert((first + second)[i] == first[i]);
        } else {
            assert((first + second)[i] == second[i - first.len()]);
        }
    }
}

/// The movements of a redemption name only accounts among the first `len`
/// where each of them does.
proof fn lemma_within_payout(
    paid: Settlement,
    available: u64,
    to_recipient: Effect,
    to_collector: Effect,
    to_owner: Effect,
    len: nat,
)
    requires
        spec_names_within(to_recipient, len),
        spec_names_within(to_collector, len),
        spec_names_within(to_owner, len),
    ensures
        spec_all_within(spec_payout(paid, available, to_recipient, to_collector, to_owner), len),
{
    let a = spec_unless_zero(paid.amount_to_redeem, to_recipient);
    let b = spec_unless_zero(paid.total_fee_to_redeem, to_collector);
    let c = if paid.fully_redeemed {
        spec_unless_zero((available - paid.spec_total()) as u64, to_owner)
    } else {
        Seq::empty()
    };
    lemma_within_concat(a, b, len);
    lemma_within_concat(a + b, c, len);
}

/// The steps of a redemption that is accepted name only accounts that the
/// instruction was given.
pub proof fn lemma_redemption_names_its_accounts(
    accounts: Seq<Account>,
    args: InitCashRedemptionArgs,
    program_id: Address,
    now: u64,
    min_lamports: u64,
    readings: ReadingsView,
)
    requires
        spec_redeem(accounts, args, program_id, now, min_lamports, readings) is Ok,
    ensures
        spec_all_within(
            spec_redeem(accounts, args, program_id, now, min_lamports, readings)->Ok_0.effects,
            accounts.len(),
        ),
{
    let len = accounts.len();
    let outcome = spec_redeem(accounts, args, program_id, now, min_lamports, readings)->Ok_0;
    let link = spec_redeem_admission(accounts, program_id)->Ok_0;
    let (after, paid) = link.spec_settle(spec_redeem_random(accounts, link, now), now)->Ok_0;
    let fingerprint = spec_redeem_fingerprint(accounts, link, args, readings)->Ok_0;
    let place: int = if link.mint is Some {
        13
    } else {
        11
    };
    let create = seq![
        Effect::CreateAccount {
            account: 5,
            payer: 7,
            rent: 9,
            system_program: place as usize,
            size: 81,
            seeds: crate::processor::Seeds::Redemption,
        },
    ];
    let store = seq![Effect::StoreRedemption { account: 5 }, Effect::StoreCashLink { account: 3 }];
    let payout = if link.mint is Some {
        spec_redeem_token(accounts, link, paid, readings)->Ok_0
    } else {
        spec_redeem_native(accounts, paid, min_lamports)->Ok_0
    };
    assert(outcome.effects == payout + create + fingerprint + store);
    if link.mint is Some {
        let vault = spec_initialized_token(readings.vault_token)->Ok_0;
        lemma_within_payout(
            paid,
            vault.amount,
            Effect::TokenTransfer {
                source: 12,
                destination: 11,
                authority: 3,
                amount: paid.amount_to_redeem,
                signed: true,
            },
            Effect::TokenTransfer {
                source: 12,
                destination: 2,
                authority: 3,
                amount: paid.total_fee_to_redeem,
                signed: true,
            },
            Effect::TokenTransfer {
                source: 12,
                destination: 6,
                authority: 3,
                amount: (vault.amount - paid.spec_total()) as u64,
                signed: true,
            },
            len,
        );
        let moved = spec_payout(
            paid,
            vault.amount,
            Effect::TokenTransfer {
                source: 12,
                destination: 11,
                authority: 3,
                amount: paid.amount_to_redeem,
                signed: true,
            },
            Effect::TokenTransfer {
                source: 12,
                destination: 2,
                authority: 3,
                amount: paid.total_fee_to_redeem,
                signed: true,
            },
            Effect::TokenTransfer {
                source: 12,
                destination: 6,
                authority: 3,
                amount: (vault.amount - paid.spec_total()) as u64,
                signed: true,
            },
        );
        let close = if paid.fully_redeemed {
            seq![Effect::TokenClose { source: 12, destination: 7, authority: 3 }]
        } else {
            Seq::empty()
        };
        lemma_within_concat(moved, close, len);
    } else {
        let available = (accounts[3].lamports - min_lamports) as u64;
        lemma_within_payout(
            paid,
            available,
            Effect::MoveLamports { source: 3, destination: 1, amount: paid.amount_to_redeem },
            Effect::MoveLamports { source: 3, destination: 2, amount: paid.total_fee_to_redeem },
            Effect::MoveLamports {
                source: 3,
                destination: 6,
                amount: (available - paid.spec_total()) as u64,
            },
            len,
        );
    }
    lemma_within_concat(payout, create, len);
    lemma_within_concat(payout + create, fingerprint, len);
    lemma_within_concat(payout + create + fingerprint, store, len);
}

/// The steps of a cancellation that is accepted name only accounts that the
/// instruction was given.
pub proof fn lemma_cancellation_names_its_accounts(
    accounts: Seq<Account>,
    program_id: Address,
    args: CancelCashRedemptionArgs,
    now: u64,
    min_lamports: u64,
    readings: ReadingsView,
)
    requires
        spec_cancel(accounts, program_id, args, now, min_lamports, readings) is Ok,
    ensures
        spec_all_within(
            spec_cancel(accounts, program_id, args, now, min_lamports, readings)->Ok_0.effects,
            accounts.len(),
        ),
{
}

/// The step of a closure that is accepted names only accounts that the
/// instruction was given.
pub proof fn lemma_closure_names_its_accounts(accounts: Seq<Account>, program_id: Address)
    requires
        spec_close(accounts, program_id) is Ok,
    ensures
        spec_all_within(spec_close(accounts, program_id)->Ok_0.effects, accounts.len()),
{
}

} // verus!
