//! The four handlers: creation, redemption, cancellation and closure.
//!
//! Each handler comes twice. `process_..` reads the token accounts and the
//! fingerprint with the crates that know their layout, and hands what it read
//! to `process_.._with`, which decides from plain values alone and whose
//! contract is exact. What a handler does is stated by a specification of its
//! own (`spec_init`, `spec_redeem`, `spec_cancel`, `spec_close`): the first
//! check that fails, in the order in which the checks are made, or the steps
//! to carry out.

use vstd::prelude::*;
use crate::account::Account;
use crate::address::Address;
use crate::base58::{base58_decoded, decode_fingerprint};
use crate::codec::spec_address_of;
use crate::error::{CashError, ProcessError};
use crate::instruction::{CancelCashRedemptionArgs, InitCashLinkArgs, InitCashRedemptionArgs};
use crate::lifecycle::{create, spec_created, spec_creation_error, spec_funding, Settlement};
use crate::processor::{Effect, Outcome, OutcomeView, Readings, ReadingsView, Seeds};
use crate::seeds::{
    cash_link_seeds,
    fingerprint_seeds,
    redemption_seeds,
    spec_cash_link_seeds,
    spec_fingerprint_seeds,
    spec_redemption_seeds,
    spec_with_bump,
    with_bump,
};
use crate::solana::{
    slot_hashes_id,
    spec_seeds,
    spec_slot_hashes_id,
    spec_token_program_id,
    token_program_id,
};
use crate::state::AccountType;
use crate::state::cashlink::{CashLink, CashLinkState};
use crate::state::redemption::Redemption;
use crate::token::{get_associated_token_address, spec_associated_token_address, TokenAccount};
use crate::utils::{
    assert_account_key,
    assert_owned_by,
    assert_signer,
    assert_token_owned_by,
    check_initialized,
    get_random_value,
    spec_initialized_token,
    spec_random_value,
};

verus! {

/// The processor of the cash link instructions.
pub struct Processor;

/// The outcome with the given steps and nothing else.
pub open spec fn spec_steps(effects: Seq<Effect>) -> OutcomeView {
    OutcomeView {
        effects,
        cash_link: None,
        redemption: None,
        cash_link_seeds: Seq::empty(),
        redemption_seeds: Seq::empty(),
        fingerprint_seeds: Seq::empty(),
    }
}

/// The step, unless it would move nothing.
pub open spec fn spec_unless_zero(amount: u64, effect: Effect) -> Seq<Effect> {
    if amount > 0 {
        seq![effect]
    } else {
        Seq::empty()
    }
}

/// Appends the step, unless it would move nothing.
fn push_unless_zero(effects: &mut Vec<Effect>, amount: u64, effect: Effect)
    ensures
        final(effects)@ == old(effects)@ + spec_unless_zero(amount, effect),
{
    if amount > 0 {
        effects.push(effect);
    }
    assert(effects@ =~= old(effects)@ + spec_unless_zero(amount, effect));
}

/// Appends the steps to the list.
fn append_effects(effects: &mut Vec<Effect>, more: &Vec<Effect>)
    ensures
        final(effects)@ == old(effects)@ + more@,
{
    let mut i: usize = 0;
    while i < more.len()
        invariant
            i <= more@.len(),
            effects@ == old(effects)@ + more@.subrange(0, i as int),
        decreases more@.len() - i,
    {
        effects.push(more[i]);
        i = i + 1;
        assert(effects@ =~= old(effects)@ + more@.subrange(0, i as int));
    }
    assert(more@.subrange(0, more@.len() as int) =~= more@);
}

/// The address of the vault of a cash link: the associated token account of
/// the cash link for its mint, as the SPL crates derive it.
pub open spec fn spec_vault_address(cash_link: Address, mint: Address) -> Option<Address> {
    match spec_associated_token_address(cash_link@, mint@) {
        Some(address) => Some(spec_address_of(address)),
        None => None,
    }
}

/// The address of the vault of a cash link.
pub fn vault_address(cash_link: &Address, mint: &Address) -> (r: Option<Address>)
    ensures
        r == spec_vault_address(*cash_link, *mint),
{
    let r = get_associated_token_address(cash_link, mint);
    proof {
        if let Some(address) = r {
            crate::codec::lemma_address_of_view(address);
        }
    }
    r
}

/// Whether the account is the vault that was derived.
pub open spec fn spec_is_vault(account: Account, vault_address: Option<Address>) -> bool {
    vault_address matches Some(address) && account.key@ == address@
}

/// Fails unless the account is the vault that was derived.
pub fn assert_vault(account: &Account, vault_address: &Option<Address>) -> (r: Result<
    (),
    ProcessError,
>)
    ensures
        spec_is_vault(*account, *vault_address) ==> r is Ok,
        !spec_is_vault(*account, *vault_address) ==> r == Err::<(), ProcessError>(
            ProcessError::Cash(CashError::InvalidVaultTokenOwner),
        ),
{
    match vault_address {
        Some(address) => assert_account_key(
            account,
            address,
            Some(CashError::InvalidVaultTokenOwner),
        ),
        None => Err(ProcessError::Cash(CashError::InvalidVaultTokenOwner)),
    }
}

/// The seeds with which the program signs for a cash link: those of its
/// address, with the bump seed.
pub open spec fn spec_signer_seeds(pass_key: Address, bump: u8) -> Seq<Seq<u8>> {
    spec_with_bump(spec_cash_link_seeds(pass_key@), bump)
}

/// The mint that the accounts of a creation name: the ninth account, where
/// there are ten or more; none for native funding.
pub open spec fn spec_init_mint(accounts: Seq<Account>) -> Option<Address> {
    if accounts.len() >= 10 {
        Some(accounts[8].key)
    } else {
        None
    }
}

/// What readies the account of a new cash link, the fourth account: an
/// account that already holds something is refused; an account whose data
/// already reads as a cash link is taken as it is; any other is created, with
/// room for a cash link.
pub open spec fn spec_create_cash_link(cash_link: Account) -> Result<Seq<Effect>, ProcessError> {
    if cash_link.spec_is_occupied() {
        Err(ProcessError::AccountAlreadyInitialized)
    } else if CashLink::spec_unpack_account(cash_link.data@) is Err {
        Ok(
            seq![
                Effect::CreateAccount {
                    account: 3,
                    payer: 2,
                    rent: 5,
                    system_program: 6,
                    size: 196,
                    seeds: Seeds::CashLink,
                },
            ],
        )
    } else {
        Ok(Seq::empty())
    }
}

/// The steps that ready the vault of a new cash link, the tenth account: a
/// vault that exists must be a token account of the cash link for the mint;
/// one that does not is created.
pub open spec fn spec_init_vault(accounts: Seq<Account>, readings: ReadingsView) -> Result<
    Seq<Effect>,
    ProcessError,
> {
    if !spec_is_vault(accounts[9], readings.vault_address) {
        Err(ProcessError::Cash(CashError::InvalidVaultTokenOwner))
    } else if accounts[9].lamports > 0 {
        match spec_initialized_token(readings.vault_token) {
            Err(e) => Err(e),
            Ok(vault) => if accounts[9].owner@ != spec_token_program_id() {
                Err(ProcessError::Cash(CashError::InvalidOwner))
            } else if vault.owner@ != accounts[3].key@ {
                Err(ProcessError::Cash(CashError::InvalidOwner))
            } else if accounts[8].key@ != vault.mint@ {
                Err(ProcessError::Cash(CashError::InvalidMint))
            } else {
                Ok(Seq::empty())
            },
        }
    } else {
        Ok(
            seq![
                Effect::CreateAssociatedTokenAccount {
                    payer: 2,
                    vault: 9,
                    wallet: 3,
                    mint: 8,
                    rent: 5,
                },
            ],
        )
    }
}

/// The steps that fund a new token-funded cash link: the vault is readied and
/// the whole funding goes in one transfer from the owner's token account, the
/// eleventh account, into the vault.
pub open spec fn spec_init_token(accounts: Seq<Account>, total: u64, readings: ReadingsView)
    -> Result<Seq<Effect>, ProcessError> {
    match spec_init_vault(accounts, readings) {
        Err(e) => Err(e),
        Ok(vault_steps) => if accounts.len() < 11 {
            Err(ProcessError::NotEnoughAccountKeys)
        } else if accounts[10].owner@ != spec_token_program_id() {
            Err(ProcessError::Cash(CashError::InvalidOwner))
        } else {
            match spec_initialized_token(readings.owner_token) {
                Err(e) => Err(e),
                Ok(owner_token) => if owner_token.owner@ != accounts[1].key@ {
                    Err(ProcessError::Cash(CashError::InvalidOwner))
                } else {
                    Ok(
                        vault_steps.push(
                            Effect::TokenTransfer {
                                source: 10,
                                destination: 9,
                                authority: 1,
                                amount: total,
                                signed: false,
                            },
                        ),
                    )
                },
            }
        },
    }
}

/// What the creation of a cash link does at the given time. The accounts are
/// the authority, which signs, the owner, the fee payer, the cash link, the
/// pass key, the rent, the system program and the clock; for token funding
/// the mint, the vault and the owner's token account follow. The cash link's
/// account is created, the funding moves in one transfer, and the new record
/// is stored.
pub open spec fn spec_init(
    accounts: Seq<Account>,
    args: InitCashLinkArgs,
    now: u64,
    readings: ReadingsView,
) -> Result<OutcomeView, ProcessError> {
    if accounts.len() < 1 {
        Err(ProcessError::NotEnoughAccountKeys)
    } else if !accounts[0].is_signer {
        Err(ProcessError::MissingRequiredSignature)
    } else if accounts.len() < 8 {
        Err(ProcessError::NotEnoughAccountKeys)
    } else if let Err(e) = spec_create_cash_link(accounts[3]) {
        Err(e)
    } else if let Some(e) = spec_creation_error(args, now) {
        Err(ProcessError::Cash(e))
    } else {
        let total = spec_funding(args) as u64;
        match (if accounts.len() >= 10 {
            spec_init_token(accounts, total, readings)
        } else {
            Ok(seq![Effect::NativeTransfer { source: 1, destination: 3, amount: total }])
        }) {
            Err(e) => Err(e),
            Ok(funding) => Ok(
                OutcomeView {
                    effects: spec_create_cash_link(accounts[3])->Ok_0 + funding + seq![
                        Effect::StoreCashLink { account: 3 },
                    ],
                    cash_link: Some(
                        spec_created(
                            args,
                            accounts[0].key,
                            accounts[1].key,
                            accounts[4].key,
                            spec_init_mint(accounts),
                            now,
                        ),
                    ),
                    redemption: None,
                    cash_link_seeds: spec_signer_seeds(accounts[4].key, args.cash_link_bump),
                    redemption_seeds: Seq::empty(),
                    fingerprint_seeds: Seq::empty(),
                },
            ),
        }
    }
}

/// What was read for a creation: the vault's address and the token accounts
/// in the places of the vault and of the owner.
pub open spec fn spec_init_readings(accounts: Seq<Account>) -> ReadingsView {
    ReadingsView {
        vault_address: if accounts.len() >= 10 {
            spec_vault_address(accounts[3].key, accounts[8].key)
        } else {
            None
        },
        vault_token: if accounts.len() >= 10 {
            TokenAccount::spec_unpack(accounts[9].data@)
        } else {
            None
        },
        owner_token: if accounts.len() >= 11 {
            TokenAccount::spec_unpack(accounts[10].data@)
        } else {
            None
        },
        recipient_token: None,
        fee_token: None,
        fingerprint: None,
    }
}

/// Readies the account of a new cash link.
fn create_cash_link(cash_link_info: &Account) -> (r: Result<Vec<Effect>, ProcessError>)
    ensures
        r matches Ok(effects) ==> spec_create_cash_link(*cash_link_info) == Ok::<
            Seq<Effect>,
            ProcessError,
        >(effects@),
        r matches Err(e) ==> spec_create_cash_link(*cash_link_info) == Err::<
            Seq<Effect>,
            ProcessError,
        >(e),
{
    if cash_link_info.is_occupied() {
        return Err(ProcessError::AccountAlreadyInitialized);
    }
    let mut effects: Vec<Effect> = Vec::new();
    if CashLink::unpack(cash_link_info.data.as_slice()).is_err() {
        effects.push(
            Effect::CreateAccount {
                account: 3,
                payer: 2,
                rent: 5,
                system_program: 6,
                size: CashLink::LEN,
                seeds: Seeds::CashLink,
            },
        );
        assert(effects@ =~= seq![
            Effect::CreateAccount {
                account: 3,
                payer: 2,
                rent: 5,
                system_program: 6,
                size: 196,
                seeds: Seeds::CashLink,
            },
        ]);
    } else {
        assert(effects@ =~= Seq::<Effect>::empty());
    }
    Ok(effects)
}

/// The steps that ready the vault of a new cash link.
fn init_vault(accounts: &[Account], readings: &Readings) -> (r: Result<Vec<Effect>, ProcessError>)
    requires
        accounts@.len() >= 10,
    ensures
        r matches Ok(effects) ==> spec_init_vault(accounts@, readings@) == Ok::<
            Seq<Effect>,
            ProcessError,
        >(effects@),
        r matches Err(e) ==> spec_init_vault(accounts@, readings@) == Err::<
            Seq<Effect>,
            ProcessError,
        >(e),
{
    let cash_link_info = &accounts[3];
    let mint_info = &accounts[8];
    let vault_token_info = &accounts[9];
    assert_vault(vault_token_info, &readings.vault_address)?;
    let mut effects: Vec<Effect> = Vec::new();
    if vault_token_info.lamports > 0 {
        let vault_token = check_initialized(readings.vault_token)?;
        assert_owned_by(vault_token_info, &token_program_id())?;
        assert_token_owned_by(&vault_token, &cash_link_info.key)?;
        assert_account_key(mint_info, &vault_token.mint, Some(CashError::InvalidMint))?;
        assert(effects@ =~= Seq::<Effect>::empty());
    } else {
        effects.push(
            Effect::CreateAssociatedTokenAccount { payer: 2, vault: 9, wallet: 3, mint: 8, rent: 5 },
        );
        assert(effects@ =~= seq![
            Effect::CreateAssociatedTokenAccount { payer: 2, vault: 9, wallet: 3, mint: 8, rent: 5 },
        ]);
    }
    Ok(effects)
}

/// The steps that fund a new token-funded cash link.
fn init_token(accounts: &[Account], total: u64, readings: &Readings) -> (r: Result<
    Vec<Effect>,
    ProcessError,
>)
    requires
        accounts@.len() >= 10,
    ensures
        r matches Ok(effects) ==> spec_init_token(accounts@, total, readings@) == Ok::<
            Seq<Effect>,
            ProcessError,
        >(effects@),
        r matches Err(e) ==> spec_init_token(accounts@, total, readings@) == Err::<
            Seq<Effect>,
            ProcessError,
        >(e),
{
    let mut effects = init_vault(accounts, readings)?;
    if accounts.len() < 11 {
        return Err(ProcessError::NotEnoughAccountKeys);
    }
    let owner_info = &accounts[1];
    let owner_token_info = &accounts[10];
    assert_owned_by(owner_token_info, &token_program_id())?;
    let owner_token = check_initialized(readings.owner_token)?;
    assert_token_owned_by(&owner_token, &owner_info.key)?;
    effects.push(
        Effect::TokenTransfer {
            source: 10,
            destination: 9,
            authority: 1,
            amount: total,
            signed: false,
        },
    );
    Ok(effects)
}

/// Creates a cash link at the given time, given what was read from the token
/// accounts: decides whether the creation is accepted and what it does.
pub fn process_init_cash_link_with(
    accounts: &[Account],
    args: InitCashLinkArgs,
    now: u64,
    readings: &Readings,
) -> (r: Result<Outcome, ProcessError>)
    ensures
        r matches Ok(outcome) ==> spec_init(accounts@, args, now, readings@) == Ok::<
            OutcomeView,
            ProcessError,
        >(outcome@),
        r matches Err(e) ==> spec_init(accounts@, args, now, readings@) == Err::<
            OutcomeView,
            ProcessError,
        >(e),
        r matches Ok(outcome) ==> outcome.cash_link matches Some(link) && link.wf()
            && link.remaining_amount == link.amount && link.amount == args.amount && link.state
            == CashLinkState::Initialized && link.total_redemptions == 0,
{
    if accounts.len() < 1 {
        return Err(ProcessError::NotEnoughAccountKeys);
    }
    let authority_info = &accounts[0];
    assert_signer(authority_info)?;
    if accounts.len() < 8 {
        return Err(ProcessError::NotEnoughAccountKeys);
    }
    let owner_info = &accounts[1];
    let cash_link_info = &accounts[3];
    let pass_info = &accounts[4];
    let mint = if accounts.len() >= 10 {
        Some(accounts[8].key)
    } else {
        None
    };
    let mut effects = create_cash_link(cash_link_info)?;
    let ghost readied = effects@;
    let (cash_link, total) = match create(
        &args,
        authority_info.key,
        owner_info.key,
        pass_info.key,
        mint,
        now,
    ) {
        Ok(created) => created,
        Err(e) => { return Err(ProcessError::Cash(e)); },
    };
    if mint.is_some() {
        let funding = init_token(accounts, total, readings)?;
        append_effects(&mut effects, &funding);
    } else {
        effects.push(Effect::NativeTransfer { source: 1, destination: 3, amount: total });
        assert(effects@ =~= readied + seq![
            Effect::NativeTransfer { source: 1, destination: 3, amount: total },
        ]);
    }
    let ghost funded = effects@;
    effects.push(Effect::StoreCashLink { account: 3 });
    assert(effects@ =~= funded + seq![Effect::StoreCashLink { account: 3 }]);
    let outcome = Outcome {
        effects,
        cash_link: Some(cash_link),
        redemption: None,
        cash_link_seeds: with_bump(cash_link_seeds(&pass_info.key), args.cash_link_bump),
        redemption_seeds: Vec::new(),
        fingerprint_seeds: Vec::new(),
    };
    proof {
        assert(outcome@.redemption_seeds =~= Seq::<Seq<u8>>::empty());
        assert(outcome@.fingerprint_seeds =~= Seq::<Seq<u8>>::empty());
    }
    Ok(outcome)
}

/// Reads what a creation needs of the token accounts.
fn init_readings(accounts: &[Account]) -> (readings: Readings)
    ensures
        readings@ == spec_init_readings(accounts@),
{
    let vault_address = if accounts.len() >= 10 {
        self::vault_address(&accounts[3].key, &accounts[8].key)
    } else {
        None
    };
    let vault_token = if accounts.len() >= 10 {
        TokenAccount::unpack_unchecked(accounts[9].data.as_slice())
    } else {
        None
    };
    let owner_token = if accounts.len() >= 11 {
        TokenAccount::unpack_unchecked(accounts[10].data.as_slice())
    } else {
        None
    };
    Readings {
        vault_address,
        vault_token,
        owner_token,
        recipient_token: None,
        fee_token: None,
        fingerprint: None,
    }
}

/// Creates a cash link at the given time: validates the arguments, computes
/// what the owner must pay, and moves it into the vault in one transfer. The
/// new link holds its whole principal, is in its first state and counts no
/// redemption. The program's id plays no part in the decision: the account
/// that is created belongs to the program that runs.
pub fn process_init_cash_link(
    accounts: &[Account],
    args: InitCashLinkArgs,
    _program_id: &Address,
    now: u64,
) -> (r: Result<Outcome, ProcessError>)
    ensures
        r matches Ok(outcome) ==> spec_init(accounts@, args, now, spec_init_readings(accounts@))
            == Ok::<OutcomeView, ProcessError>(outcome@),
        r matches Err(e) ==> spec_init(accounts@, args, now, spec_init_readings(accounts@))
            == Err::<OutcomeView, ProcessError>(e),
        r matches Ok(outcome) ==> outcome.cash_link matches Some(link) && link.wf()
            && link.remaining_amount == link.amount && link.amount == args.amount && link.state
            == CashLinkState::Initialized && link.total_redemptions == 0,
{
    let readings = init_readings(accounts);
    process_init_cash_link_with(accounts, args, now, &readings)
}

/// Who may redeem: the cash link that the accounts of a redemption name,
/// where the authority and the pass key are those of the link and both have
/// signed. The accounts start with the authority, the wallet, the fee
/// collector, the cash link and the pass key.
pub open spec fn spec_redeem_admission(accounts: Seq<Account>, program_id: Address) -> Result<
    CashLink,
    ProcessError,
> {
    if accounts.len() < 1 {
        Err(ProcessError::NotEnoughAccountKeys)
    } else if !accounts[0].is_signer {
        Err(ProcessError::MissingRequiredSignature)
    } else if accounts.len() < 5 {
        Err(ProcessError::NotEnoughAccountKeys)
    } else if accounts[3].owner@ != program_id@ {
        Err(ProcessError::Cash(CashError::InvalidOwner))
    } else {
        match CashLink::spec_unpack_account(accounts[3].data@) {
            Err(e) => Err(e),
            Ok(link) => if accounts[0].key@ != link.authority@ {
                Err(ProcessError::Cash(CashError::InvalidAuthorityId))
            } else if accounts[4].key@ != link.pass_key@ {
                Err(ProcessError::Cash(CashError::InvalidPassKey))
            } else if !accounts[4].is_signer {
                Err(ProcessError::MissingRequiredSignature)
            } else {
                Ok(link)
            },
        }
    }
}

/// Why a redemption of the link is refused before anything is computed, if it
/// is: the link is cancelled or completed, the wallet has redeemed before (the
/// marker, the sixth account, is occupied), the deadline has passed, the
/// eleventh account is not the recent slot hashes, or the link has no room. A
/// share that is drawn needs 20 bytes of slot hashes.
pub open spec fn spec_redeem_refusal(accounts: Seq<Account>, link: CashLink, now: u64) -> Option<
    ProcessError,
> {
    if let Some(e) = link.spec_state_error() {
        Some(ProcessError::Cash(e))
    } else if accounts.len() < 6 {
        Some(ProcessError::NotEnoughAccountKeys)
    } else if accounts[5].spec_is_occupied() {
        Some(ProcessError::AccountAlreadyInitialized)
    } else if accounts.len() < 11 {
        Some(ProcessError::NotEnoughAccountKeys)
    } else if now > link.expires_at {
        Some(ProcessError::Cash(CashError::CashlinkExpired))
    } else if accounts[10].key@ != spec_slot_hashes_id() {
        Some(ProcessError::Cash(CashError::InvalidSlotHashProgram))
    } else if let Some(e) = link.spec_capacity_error() {
        Some(ProcessError::Cash(e))
    } else if link.spec_needs_random() && accounts[10].data@.len() < 20 {
        Some(ProcessError::InvalidAccountData)
    } else {
        None
    }
}

/// The number drawn for a redemption of the link: from the recent slot hashes
/// and the time where the share is drawn, zero where it is not.
pub open spec fn spec_redeem_random(accounts: Seq<Account>, link: CashLink, now: u64) -> u64 {
    if link.spec_needs_random() {
        spec_random_value(accounts[10].data@, now)
    } else {
        0
    }
}

/// The movements of a redemption from a vault that holds `available`: the
/// share to the recipient, the fee to the fee collector and, where the
/// redemption completes the link, what is then left to the owner.
pub open spec fn spec_payout(
    paid: Settlement,
    available: u64,
    to_recipient: Effect,
    to_collector: Effect,
    to_owner: Effect,
) -> Seq<Effect> {
    spec_unless_zero(paid.amount_to_redeem, to_recipient) + spec_unless_zero(
        paid.total_fee_to_redeem,
        to_collector,
    ) + if paid.fully_redeemed {
        spec_unless_zero((available - paid.spec_total()) as u64, to_owner)
    } else {
        Seq::empty()
    }
}

/// What a redemption from a token-funded link moves. The recipient's token
/// account and the vault stand in the twelfth and thirteenth places. The
/// vault must hold the share and the fee. Where the redemption completes the
/// link, the vault is closed.
pub open spec fn spec_redeem_token(
    accounts: Seq<Account>,
    link: CashLink,
    paid: Settlement,
    readings: ReadingsView,
) -> Result<Seq<Effect>, ProcessError> {
    if accounts[2].owner@ != spec_token_program_id() {
        Err(ProcessError::Cash(CashError::InvalidOwner))
    } else if accounts.len() < 12 {
        Err(ProcessError::NotEnoughAccountKeys)
    } else if accounts[11].owner@ != spec_token_program_id() {
        Err(ProcessError::Cash(CashError::InvalidOwner))
    } else if accounts.len() < 13 {
        Err(ProcessError::NotEnoughAccountKeys)
    } else if accounts[12].owner@ != spec_token_program_id() {
        Err(ProcessError::Cash(CashError::InvalidOwner))
    } else if !spec_is_vault(accounts[12], readings.vault_address) {
        Err(ProcessError::Cash(CashError::InvalidVaultTokenOwner))
    } else {
        match spec_initialized_token(readings.vault_token) {
            Err(e) => Err(e),
            Ok(vault) => if vault.amount < paid.spec_total() {
                Err(ProcessError::Cash(CashError::InsufficientSettlementFunds))
            } else {
                match spec_initialized_token(readings.recipient_token) {
                    Err(e) => Err(e),
                    Ok(recipient) => if recipient.owner@ != accounts[1].key@ {
                        Err(ProcessError::Cash(CashError::InvalidOwner))
                    } else if let Err(e) = spec_initialized_token(readings.fee_token) {
                        Err(e)
                    } else if paid.fully_redeemed && spec_initialized_token(readings.owner_token)
                        is Err {
                        Err(spec_initialized_token(readings.owner_token)->Err_0)
                    } else if paid.fully_redeemed && spec_initialized_token(
                        readings.owner_token,
                    )->Ok_0.owner@ != link.owner@ {
                        Err(ProcessError::Cash(CashError::InvalidOwner))
                    } else {
                        Ok(
                            spec_payout(
                                paid,
                                vault.amount,
                                Effect::TokenTransfer {
                                    source: 12,
                                    destination: 11,
                                    authority: 3,
                                    amount: paid.amount_to_redeem,
                                    signed: true,
                                },
                                Effect::TokenTransfer {
                                    source: 12,
                                    destination: 2,
                                    authority: 3,
                                    amount: paid.total_fee_to_redeem,
                                    signed: true,
                                },
                                Effect::TokenTransfer {
                                    source: 12,
                                    destination: 6,
                                    authority: 3,
                                    amount: (vault.amount - paid.spec_total()) as u64,
                                    signed: true,
                                },
                            ) + if paid.fully_redeemed {
                                seq![Effect::TokenClose { source: 12, destination: 7, authority: 3 }]
                            } else {
                                Seq::empty()
                            },
                        )
                    },
                }
            },
        }
    }
}

/// What a redemption from a natively funded link moves. The balance of the
/// cash link's account above the minimum that keeps it alive must hold the
/// share and the fee.
pub open spec fn spec_redeem_native(accounts: Seq<Account>, paid: Settlement, min_lamports: u64)
    -> Result<Seq<Effect>, ProcessError> {
    if accounts[3].lamports < min_lamports {
        Err(ProcessError::Cash(CashError::AmountOverflow))
    } else if accounts[3].lamports - min_lamports < paid.spec_total() {
        Err(ProcessError::Cash(CashError::InsufficientSettlementFunds))
    } else {
        let available = (accounts[3].lamports - min_lamports) as u64;
        Ok(
            spec_payout(
                paid,
                available,
                Effect::MoveLamports { source: 3, destination: 1, amount: paid.amount_to_redeem },
                Effect::MoveLamports {
                    source: 3,
                    destination: 2,
                    amount: paid.total_fee_to_redeem,
                },
                Effect::MoveLamports {
                    source: 3,
                    destination: 6,
                    amount: (available - paid.spec_total()) as u64,
                },
            ),
        )
    }
}

/// The place of the system program among the accounts of a redemption: behind
/// the recent slot hashes and, for a token-funded link, the two token
/// accounts.
pub open spec fn spec_system_place(link: CashLink) -> int {
    if link.mint is Some {
        13
    } else {
        11
    }
}

/// The marker of a fingerprint that a redemption creates, where the link asks
/// for one: the account behind the system program, which must be empty. The
/// redemption must carry the bump seed and the fingerprint, written in base
/// 58.
pub open spec fn spec_redeem_fingerprint(
    accounts: Seq<Account>,
    link: CashLink,
    args: InitCashRedemptionArgs,
    readings: ReadingsView,
) -> Result<Seq<Effect>, ProcessError> {
    let place = spec_system_place(link);
    if !link.fingerprint_enabled {
        Ok(Seq::empty())
    } else if args.fingerprint_bump is None {
        Err(ProcessError::Cash(CashError::FingerprintBumpNotFound))
    } else if args.fingerprint is None {
        Err(ProcessError::Cash(CashError::FingerprintFound))
    } else if accounts.len() < place + 2 {
        Err(ProcessError::NotEnoughAccountKeys)
    } else if accounts[place + 1].spec_is_occupied() {
        Err(ProcessError::AccountAlreadyInitialized)
    } else if readings.fingerprint is None {
        Err(ProcessError::Cash(CashError::InvalidFingerprint))
    } else {
        Ok(
            seq![
                Effect::CreateAccount {
                    account: (place + 1) as usize,
                    payer: 7,
                    rent: 9,
                    system_program: place as usize,
                    size: 1,
                    seeds: Seeds::Fingerprint,
                },
            ],
        )
    }
}

/// The seeds of the fingerprint marker that a redemption creates; none where
/// the link asks for no fingerprint.
pub open spec fn spec_redeem_fingerprint_seeds(
    accounts: Seq<Account>,
    link: CashLink,
    args: InitCashRedemptionArgs,
    readings: ReadingsView,
) -> Seq<Seq<u8>> {
    if link.fingerprint_enabled && readings.fingerprint is Some && args.fingerprint_bump is Some {
        spec_with_bump(
            spec_fingerprint_seeds(accounts[3].key@, readings.fingerprint->0),
            args.fingerprint_bump->0,
        )
    } else {
        Seq::empty()
    }
}

/// What a redemption does at the given time. The accounts are the authority
/// and the wallet, the fee collector, the cash link, the pass key, the
/// redemption marker, the owner's account, the fee payer, the clock, the rent
/// and the recent slot hashes; for a token-funded link the recipient's token
/// account and the vault follow; then the system program and, where the link
/// asks for fingerprints, the fingerprint marker. `min_lamports` is the
/// balance that keeps the cash link's account alive.
pub open spec fn spec_redeem(
    accounts: Seq<Account>,
    args: InitCashRedemptionArgs,
    program_id: Address,
    now: u64,
    min_lamports: u64,
    readings: ReadingsView,
) -> Result<OutcomeView, ProcessError> {
    match spec_redeem_admission(accounts, program_id) {
        Err(e) => Err(e),
        Ok(link) => if let Some(e) = spec_redeem_refusal(accounts, link, now) {
            Err(e)
        } else {
            match link.spec_settle(spec_redeem_random(accounts, link, now), now) {
                Err(e) => Err(ProcessError::Cash(e)),
                Ok((after, paid)) => match (if link.mint is Some {
                    spec_redeem_token(accounts, link, paid, readings)
                } else {
                    spec_redeem_native(accounts, paid, min_lamports)
                }) {
                    Err(e) => Err(e),
                    Ok(payout) => if accounts.len() < spec_system_place(link) + 1 {
                        Err(ProcessError::NotEnoughAccountKeys)
                    } else {
                        match spec_redeem_fingerprint(accounts, link, args, readings) {
                            Err(e) => Err(e),
                            Ok(fingerprint) => Ok(
                                OutcomeView {
                                    effects: payout + seq![
                                        Effect::CreateAccount {
                                            account: 5,
                                            payer: 7,
                                            rent: 9,
                                            system_program: spec_system_place(link) as usize,
                                            size: 81,
                                            seeds: Seeds::Redemption,
                                        },
                                    ] + fingerprint + seq![
                                        Effect::StoreRedemption { account: 5 },
                                        Effect::StoreCashLink { account: 3 },
                                    ],
                                    cash_link: Some(after),
                                    redemption: Some(
                                        Redemption {
                                            account_type: AccountType::Redemption,
                                            cash_link: accounts[3].key,
                                            wallet: accounts[1].key,
                                            redeemed_at: now,
                                            amount: paid.amount_to_redeem,
                                        },
                                    ),
                                    cash_link_seeds: spec_signer_seeds(
                                        accounts[4].key,
                                        args.cash_link_bump,
                                    ),
                                    redemption_seeds: spec_with_bump(
                                        spec_redemption_seeds(accounts[3].key@, accounts[1].key@),
                                        args.redemption_bump,
                                    ),
                                    fingerprint_seeds: spec_redeem_fingerprint_seeds(
                                        accounts,
                                        link,
                                        args,
                                        readings,
                                    ),
                                },
                            ),
                        }
                    },
                },
            }
        },
    }
}

/// What was read for a redemption: the vault's address, where the cash link
/// has a mint, the token accounts in the places of the fee collector, the
/// owner, the recipient and the vault, and the bytes of the fingerprint.
pub open spec fn spec_redeem_readings(accounts: Seq<Account>, args: InitCashRedemptionArgs)
    -> ReadingsView {
    ReadingsView {
        vault_address: if accounts.len() >= 4 {
            match CashLink::spec_unpack_account(accounts[3].data@) {
                Ok(link) => match link.mint {
                    Some(mint) => spec_vault_address(accounts[3].key, mint),
                    None => None,
                },
                Err(_) => None,
            }
        } else {
            None
        },
        vault_token: if accounts.len() >= 13 {
            TokenAccount::spec_unpack(accounts[12].data@)
        } else {
            None
        },
        owner_token: if accounts.len() >= 7 {
            TokenAccount::spec_unpack(accounts[6].data@)
        } else {
            None
        },
        recipient_token: if accounts.len() >= 12 {
            TokenAccount::spec_unpack(accounts[11].data@)
        } else {
            None
        },
        fee_token: if accounts.len() >= 3 {
            TokenAccount::spec_unpack(accounts[2].data@)
        } else {
            None
        },
        fingerprint: match args.fingerprint {
            Some(text) => base58_decoded(text@),
            None => None,
        },
    }
}

/// Admits the authority and the pass key of a redemption and reads the cash
/// link.
fn redeem_admission(accounts: &[Account], program_id: &Address) -> (r: Result<
    CashLink,
    ProcessError,
>)
    ensures
        r == spec_redeem_admission(accounts@, *program_id),
{
    if accounts.len() < 1 {
        return Err(ProcessError::NotEnoughAccountKeys);
    }
    let authority_info = &accounts[0];
    assert_signer(authority_info)?;
    if accounts.len() < 5 {
        return Err(ProcessError::NotEnoughAccountKeys);
    }
    let cash_link_info = &accounts[3];
    let pass_info = &accounts[4];
    assert_owned_by(cash_link_info, program_id)?;
    let cash_link = CashLink::unpack(cash_link_info.data.as_slice())?;
    assert_account_key(authority_info, &cash_link.authority, Some(CashError::InvalidAuthorityId))?;
    assert_account_key(pass_info, &cash_link.pass_key, Some(CashError::InvalidPassKey))?;
    assert_signer(pass_info)?;
    Ok(cash_link)
}

/// Refuses a redemption that the record, the marker or the time forbids.
fn redeem_refusal(accounts: &[Account], link: &CashLink, now: u64) -> (r: Result<
    (),
    ProcessError,
>)
    requires
        accounts@.len() >= 5,
    ensures
        spec_redeem_refusal(accounts@, *link, now) matches Some(e) ==> r == Err::<
            (),
            ProcessError,
        >(e),
        spec_redeem_refusal(accounts@, *link, now) is None ==> r is Ok,
{
    match link.check_state() {
        Ok(()) => {},
        Err(e) => { return Err(ProcessError::Cash(e)); },
    }
    if accounts.len() < 6 {
        return Err(ProcessError::NotEnoughAccountKeys);
    }
    if accounts[5].is_occupied() {
        return Err(ProcessError::AccountAlreadyInitialized);
    }
    if accounts.len() < 11 {
        return Err(ProcessError::NotEnoughAccountKeys);
    }
    match link.check_deadline(now) {
        Ok(()) => {},
        Err(e) => { return Err(ProcessError::Cash(e)); },
    }
    assert_account_key(&accounts[10], &slot_hashes_id(), Some(CashError::InvalidSlotHashProgram))?;
    match link.check_capacity() {
        Ok(()) => {},
        Err(e) => { return Err(ProcessError::Cash(e)); },
    }
    if link.needs_random() && accounts[10].data.len() < 20 {
        return Err(ProcessError::InvalidAccountData);
    }
    Ok(())
}

/// The movements of a redemption.
fn payout(
    paid: &Settlement,
    available: u64,
    to_recipient: Effect,
    to_collector: Effect,
    to_owner: Effect,
) -> (effects: Vec<Effect>)
    requires
        paid.spec_total() <= available,
    ensures
        effects@ == spec_payout(*paid, available, to_recipient, to_collector, to_owner),
{
    let mut effects: Vec<Effect> = Vec::new();
    push_unless_zero(&mut effects, paid.amount_to_redeem, to_recipient);
    push_unless_zero(&mut effects, paid.total_fee_to_redeem, to_collector);
    if paid.fully_redeemed {
        let remaining = available - paid.amount_to_redeem - paid.total_fee_to_redeem;
        push_unless_zero(&mut effects, remaining, to_owner);
    }
    assert(effects@ =~= spec_payout(*paid, available, to_recipient, to_collector, to_owner));
    effects
}

/// The movements of a redemption from a token-funded link.
fn redeem_token(accounts: &[Account], link: &CashLink, paid: &Settlement, readings: &Readings)
    -> (r: Result<Vec<Effect>, ProcessError>)
    requires
        accounts@.len() >= 11,
        paid.spec_total() <= u64::MAX,
    ensures
        r matches Ok(effects) ==> spec_redeem_token(accounts@, *link, *paid, readings@) == Ok::<
            Seq<Effect>,
            ProcessError,
        >(effects@),
        r matches Err(e) ==> spec_redeem_token(accounts@, *link, *paid, readings@) == Err::<
            Seq<Effect>,
            ProcessError,
        >(e),
{
    let token_program = token_program_id();
    assert_owned_by(&accounts[2], &token_program)?;
    if accounts.len() < 12 {
        return Err(ProcessError::NotEnoughAccountKeys);
    }
    assert_owned_by(&accounts[11], &token_program)?;
    if accounts.len() < 13 {
        return Err(ProcessError::NotEnoughAccountKeys);
    }
    assert_owned_by(&accounts[12], &token_program)?;
    assert_vault(&accounts[12], &readings.vault_address)?;
    let vault_token = check_initialized(readings.vault_token)?;
    let total = paid.amount_to_redeem + paid.total_fee_to_redeem;
    if vault_token.amount < total {
        return Err(ProcessError::Cash(CashError::InsufficientSettlementFunds));
    }
    let recipient_token = check_initialized(readings.recipient_token)?;
    assert_token_owned_by(&recipient_token, &accounts[1].key)?;
    let _ = check_initialized(readings.fee_token)?;
    if paid.fully_redeemed {
        let owner_token = check_initialized(readings.owner_token)?;
        assert_token_owned_by(&owner_token, &link.owner)?;
    }
    let mut effects = payout(
        paid,
        vault_token.amount,
        Effect::TokenTransfer {
            source: 12,
            destination: 11,
            authority: 3,
            amount: paid.amount_to_redeem,
            signed: true,
        },
        Effect::TokenTransfer {
            source: 12,
            destination: 2,
            authority: 3,
            amount: paid.total_fee_to_redeem,
            signed: true,
        },
        Effect::TokenTransfer {
            source: 12,
            destination: 6,
            authority: 3,
            amount: vault_token.amount - total,
            signed: true,
        },
    );
    let ghost moved = effects@;
    if paid.fully_redeemed {
        effects.push(Effect::TokenClose { source: 12, destination: 7, authority: 3 });
        assert(effects@ =~= moved + seq![
            Effect::TokenClose { source: 12, destination: 7, authority: 3 },
        ]);
    } else {
        assert(effects@ =~= moved + Seq::<Effect>::empty());
    }
    Ok(effects)
}

/// The movements of a redemption from a natively funded link.
fn redeem_native(accounts: &[Account], paid: &Settlement, min_lamports: u64) -> (r: Result<
    Vec<Effect>,
    ProcessError,
>)
    requires
        accounts@.len() >= 11,
        paid.spec_total() <= u64::MAX,
    ensures
        r matches Ok(effects) ==> spec_redeem_native(accounts@, *paid, min_lamports) == Ok::<
            Seq<Effect>,
            ProcessError,
        >(effects@),
        r matches Err(e) ==> spec_redeem_native(accounts@, *paid, min_lamports) == Err::<
            Seq<Effect>,
            ProcessError,
        >(e),
{
    let available_amount = match accounts[3].lamports.checked_sub(min_lamports) {
        Some(available) => available,
        None => { return Err(ProcessError::Cash(CashError::AmountOverflow)); },
    };
    let total = paid.amount_to_redeem + paid.total_fee_to_redeem;
    if available_amount < total {
        return Err(ProcessError::Cash(CashError::InsufficientSettlementFunds));
    }
    Ok(
        payout(
            paid,
            available_amount,
            Effect::MoveLamports { source: 3, destination: 1, amount: paid.amount_to_redeem },
            Effect::MoveLamports { source: 3, destination: 2, amount: paid.total_fee_to_redeem },
            Effect::MoveLamports { source: 3, destination: 6, amount: available_amount - total },
        ),
    )
}

/// The marker of the fingerprint that a redemption creates, and its seeds.
fn redeem_fingerprint(
    accounts: &[Account],
    link: &CashLink,
    args: &InitCashRedemptionArgs,
    readings: &Readings,
) -> (r: Result<(Vec<Effect>, Vec<Vec<u8>>), ProcessError>)
    requires
        accounts@.len() >= spec_system_place(*link) + 1,
    ensures
        r matches Ok((effects, seeds)) ==> spec_redeem_fingerprint(
            accounts@,
            *link,
            *args,
            readings@,
        ) == Ok::<Seq<Effect>, ProcessError>(effects@) && spec_seeds(seeds)
            == spec_redeem_fingerprint_seeds(accounts@, *link, *args, readings@),
        r matches Err(e) ==> spec_redeem_fingerprint(accounts@, *link, *args, readings@) == Err::<
            Seq<Effect>,
            ProcessError,
        >(e),
{
    let mut effects: Vec<Effect> = Vec::new();
    if !link.fingerprint_enabled {
        let seeds: Vec<Vec<u8>> = Vec::new();
        assert(spec_seeds(seeds) =~= Seq::<Seq<u8>>::empty());
        return Ok((effects, seeds));
    }
    let place: usize = if link.mint.is_some() {
        13
    } else {
        11
    };
    let bump = match args.fingerprint_bump {
        Some(bump) => bump,
        None => { return Err(ProcessError::Cash(CashError::FingerprintBumpNotFound)); },
    };
    if args.fingerprint.is_none() {
        return Err(ProcessError::Cash(CashError::FingerprintFound));
    }
    if accounts.len() < place + 2 {
        return Err(ProcessError::NotEnoughAccountKeys);
    }
    if accounts[place + 1].is_occupied() {
        return Err(ProcessError::AccountAlreadyInitialized);
    }
    let fingerprint = match &readings.fingerprint {
        Some(bytes) => bytes,
        None => { return Err(ProcessError::Cash(CashError::InvalidFingerprint)); },
    };
    effects.push(
        Effect::CreateAccount {
            account: place + 1,
            payer: 7,
            rent: 9,
            system_program: place,
            size: 1,
            seeds: Seeds::Fingerprint,
        },
    );
    let seeds = with_bump(fingerprint_seeds(&accounts[3].key, fingerprint.as_slice()), bump);
    Ok((effects, seeds))
}

/// Redeems one share of a cash link at the given time, given what was read
/// from the token accounts and of the fingerprint: decides whether the
/// redemption is accepted and what it does.
pub fn process_redemption_with(
    accounts: &[Account],
    args: &InitCashRedemptionArgs,
    program_id: &Address,
    now: u64,
    min_lamports: u64,
    readings: &Readings,
) -> (r: Result<Outcome, ProcessError>)
    ensures
        r matches Ok(outcome) ==> spec_redeem(
            accounts@,
            *args,
            *program_id,
            now,
            min_lamports,
            readings@,
        ) == Ok::<OutcomeView, ProcessError>(outcome@),
        r matches Err(e) ==> spec_redeem(accounts@, *args, *program_id, now, min_lamports, readings@)
            == Err::<OutcomeView, ProcessError>(e),
{
    let cash_link = redeem_admission(accounts, program_id)?;
    redeem_refusal(accounts, &cash_link, now)?;
    let random = if cash_link.needs_random() {
        get_random_value(&accounts[10], now)?
    } else {
        0
    };
    let (after, paid) = match cash_link.settle(random, now) {
        Ok(settled) => settled,
        Err(e) => { return Err(ProcessError::Cash(e)); },
    };
    let mut effects = if cash_link.mint.is_some() {
        redeem_token(accounts, &cash_link, &paid, readings)?
    } else {
        redeem_native(accounts, &paid, min_lamports)?
    };
    let ghost moved = effects@;
    let place: usize = if cash_link.mint.is_some() {
        13
    } else {
        11
    };
    if accounts.len() < place + 1 {
        return Err(ProcessError::NotEnoughAccountKeys);
    }
    effects.push(
        Effect::CreateAccount {
            account: 5,
            payer: 7,
            rent: 9,
            system_program: place,
            size: Redemption::LEN,
            seeds: Seeds::Redemption,
        },
    );
    let (marker, marker_seeds) = redeem_fingerprint(accounts, &cash_link, args, readings)?;
    append_effects(&mut effects, &marker);
    effects.push(Effect::StoreRedemption { account: 5 });
    effects.push(Effect::StoreCashLink { account: 3 });
    let redemption = Redemption {
        account_type: AccountType::Redemption,
        cash_link: accounts[3].key,
        wallet: accounts[1].key,
        redeemed_at: now,
        amount: paid.amount_to_redeem,
    };
    let outcome = Outcome {
        effects,
        cash_link: Some(after),
        redemption: Some(redemption),
        cash_link_seeds: with_bump(cash_link_seeds(&accounts[4].key), args.cash_link_bump),
        redemption_seeds: with_bump(
            redemption_seeds(&accounts[3].key, &accounts[1].key),
            args.redemption_bump,
        ),
        fingerprint_seeds: marker_seeds,
    };
    proof {
        assert(outcome@.effects =~= moved + seq![
            Effect::CreateAccount {
                account: 5,
                payer: 7,
                rent: 9,
                system_program: spec_system_place(cash_link) as usize,
                size: 81,
                seeds: Seeds::Redemption,
            },
        ] + marker@ + seq![
            Effect::StoreRedemption { account: 5 },
            Effect::StoreCashLink { account: 3 },
        ]);
    }
    Ok(outcome)
}

/// Reads what a redemption needs of the token accounts and of the
/// fingerprint.
fn redeem_readings(accounts: &[Account], args: &InitCashRedemptionArgs) -> (readings: Readings)
    ensures
        readings@ == spec_redeem_readings(accounts@, *args),
{
    let mut vault_address: Option<Address> = None;
    if accounts.len() >= 4 {
        if let Ok(link) = CashLink::unpack(accounts[3].data.as_slice()) {
            if let Some(mint) = link.mint {
                vault_address = self::vault_address(&accounts[3].key, &mint);
            }
        }
    }
    let vault_token = if accounts.len() >= 13 {
        TokenAccount::unpack_unchecked(accounts[12].data.as_slice())
    } else {
        None
    };
    let owner_token = if accounts.len() >= 7 {
        TokenAccount::unpack_unchecked(accounts[6].data.as_slice())
    } else {
        None
    };
    let recipient_token = if accounts.len() >= 12 {
        TokenAccount::unpack_unchecked(accounts[11].data.as_slice())
    } else {
        None
    };
    let fee_token = if accounts.len() >= 3 {
        TokenAccount::unpack_unchecked(accounts[2].data.as_slice())
    } else {
        None
    };
    let fingerprint = match &args.fingerprint {
        Some(text) => match decode_fingerprint(text.as_str()) {
            Ok(bytes) => Some(bytes),
            Err(_) => None,
        },
        None => None,
    };
    Readings { vault_address, vault_token, owner_token, recipient_token, fee_token, fingerprint }
}

/// Redeems one share of a cash link at the given time: pays the share to the
/// wallet and the fee to the fee collector, marks that the wallet has
/// redeemed, and advances the link. `min_lamports` is the balance that keeps
/// the cash link's account alive.
pub fn process_redemption(
    accounts: &[Account],
    args: InitCashRedemptionArgs,
    program_id: &Address,
    now: u64,
    min_lamports: u64,
) -> (r: Result<Outcome, ProcessError>)
    ensures
        r matches Ok(outcome) ==> spec_redeem(
            accounts@,
            args,
            *program_id,
            now,
            min_lamports,
            spec_redeem_readings(accounts@, args),
        ) == Ok::<OutcomeView, ProcessError>(outcome@),
        r matches Err(e) ==> spec_redeem(
            accounts@,
            args,
            *program_id,
            now,
            min_lamports,
            spec_redeem_readings(accounts@, args),
        ) == Err::<OutcomeView, ProcessError>(e),
{
    let readings = redeem_readings(accounts, &args);
    process_redemption_with(accounts, &args, program_id, now, min_lamports, &readings)
}

/// What the cancellation of a token-funded cash link does, once the record
/// allows it: all that the vault holds goes back to the owner and the vault is
/// closed. The vault stands in the eighth place.
pub open spec fn spec_cancel_token(
    accounts: Seq<Account>,
    link: CashLink,
    readings: ReadingsView,
) -> Result<Seq<Effect>, ProcessError> {
    if accounts.len() < 8 {
        Err(ProcessError::NotEnoughAccountKeys)
    } else {
        match spec_initialized_token(readings.vault_token) {
            Err(e) => Err(e),
            Ok(vault) => if !spec_is_vault(accounts[7], readings.vault_address) {
                Err(ProcessError::Cash(CashError::InvalidVaultTokenOwner))
            } else if vault.amount > 0 {
                match spec_initialized_token(readings.owner_token) {
                    Err(e) => Err(e),
                    Ok(owner_token) => if owner_token.owner@ != link.owner@ {
                        Err(ProcessError::Cash(CashError::InvalidOwner))
                    } else {
                        Ok(
                            seq![
                                Effect::TokenTransfer {
                                    source: 7,
                                    destination: 3,
                                    authority: 1,
                                    amount: vault.amount,
                                    signed: true,
                                },
                                Effect::TokenClose { source: 7, destination: 4, authority: 1 },
                                Effect::StoreCashLink { account: 1 },
                            ],
                        )
                    },
                }
            } else {
                Ok(
                    seq![
                        Effect::TokenClose { source: 7, destination: 4, authority: 1 },
                        Effect::StoreCashLink { account: 1 },
                    ],
                )
            },
        }
    }
}

/// What the cancellation of a natively funded cash link does, once the record
/// allows it: what the cash link's account holds above the minimum that keeps
/// it alive goes back to the owner.
pub open spec fn spec_cancel_native(accounts: Seq<Account>, min_lamports: u64) -> Result<
    Seq<Effect>,
    ProcessError,
> {
    if accounts[1].lamports < min_lamports {
        Err(ProcessError::Cash(CashError::AmountOverflow))
    } else if accounts[1].lamports > min_lamports {
        Ok(
            seq![
                Effect::MoveLamports {
                    source: 1,
                    destination: 3,
                    amount: (accounts[1].lamports - min_lamports) as u64,
                },
                Effect::StoreCashLink { account: 1 },
            ],
        )
    } else {
        Ok(seq![Effect::StoreCashLink { account: 1 }])
    }
}

/// What a cancellation does at the given time. The accounts are the
/// authority, which signs, the cash link, the pass key, the owner's account
/// for the refund, the fee payer, the clock, the rent and, for a token-funded
/// link, the vault. `min_lamports` is the balance that keeps the cash link's
/// account alive.
pub open spec fn spec_cancel(
    accounts: Seq<Account>,
    program_id: Address,
    args: CancelCashRedemptionArgs,
    now: u64,
    min_lamports: u64,
    readings: ReadingsView,
) -> Result<OutcomeView, ProcessError> {
    if accounts.len() < 1 {
        Err(ProcessError::NotEnoughAccountKeys)
    } else if !accounts[0].is_signer {
        Err(ProcessError::MissingRequiredSignature)
    } else if accounts.len() < 2 {
        Err(ProcessError::NotEnoughAccountKeys)
    } else if accounts[1].owner@ != program_id@ {
        Err(ProcessError::Cash(CashError::InvalidOwner))
    } else if accounts.len() < 3 {
        Err(ProcessError::NotEnoughAccountKeys)
    } else {
        match CashLink::spec_unpack_account(accounts[1].data@) {
            Err(e) => Err(e),
            Ok(link) => if accounts[0].key@ != link.authority@ {
                Err(ProcessError::Cash(CashError::InvalidAuthorityId))
            } else if accounts[2].key@ != link.pass_key@ {
                Err(ProcessError::Cash(CashError::InvalidPassKey))
            } else if accounts.len() < 7 {
                Err(ProcessError::NotEnoughAccountKeys)
            } else {
                match link.spec_cancel(now) {
                    Err(e) => Err(ProcessError::Cash(e)),
                    Ok(after) => match (if link.mint is Some {
                        spec_cancel_token(accounts, link, readings)
                    } else {
                        spec_cancel_native(accounts, min_lamports)
                    }) {
                        Err(e) => Err(e),
                        Ok(effects) => Ok(
                            OutcomeView {
                                effects,
                                cash_link: Some(after),
                                redemption: None,
                                cash_link_seeds: spec_signer_seeds(
                                    accounts[2].key,
                                    args.cash_link_bump,
                                ),
                                redemption_seeds: Seq::empty(),
                                fingerprint_seeds: Seq::empty(),
                            },
                        ),
                    },
                }
            },
        }
    }
}

/// What was read for a cancellation: the vault's address, where the cash link
/// has a mint, and the token accounts in the places of the vault and of the
/// owner.
pub open spec fn spec_cancel_readings(accounts: Seq<Account>) -> ReadingsView {
    ReadingsView {
        vault_address: if accounts.len() >= 2 {
            match CashLink::spec_unpack_account(accounts[1].data@) {
                Ok(link) => match link.mint {
                    Some(mint) => spec_vault_address(accounts[1].key, mint),
                    None => None,
                },
                Err(_) => None,
            }
        } else {
            None
        },
        vault_token: if accounts.len() >= 8 {
            TokenAccount::spec_unpack(accounts[7].data@)
        } else {
            None
        },
        owner_token: if accounts.len() >= 4 {
            TokenAccount::spec_unpack(accounts[3].data@)
        } else {
            None
        },
        recipient_token: None,
        fee_token: None,
        fingerprint: None,
    }
}

/// The steps of the cancellation of a token-funded cash link.
fn cancel_token(accounts: &[Account], link: &CashLink, readings: &Readings) -> (r: Result<
    Vec<Effect>,
    ProcessError,
>)
    requires
        accounts@.len() >= 7,
    ensures
        r matches Ok(effects) ==> spec_cancel_token(accounts@, *link, readings@) == Ok::<
            Seq<Effect>,
            ProcessError,
        >(effects@),
        r matches Err(e) ==> spec_cancel_token(accounts@, *link, readings@) == Err::<
            Seq<Effect>,
            ProcessError,
        >(e),
{
    if accounts.len() < 8 {
        return Err(ProcessError::NotEnoughAccountKeys);
    }
    let vault_token = check_initialized(readings.vault_token)?;
    assert_vault(&accounts[7], &readings.vault_address)?;
    let mut effects: Vec<Effect> = Vec::new();
    if vault_token.amount > 0 {
        let owner_token = check_initialized(readings.owner_token)?;
        assert_token_owned_by(&owner_token, &link.owner)?;
        effects.push(
            Effect::TokenTransfer {
                source: 7,
                destination: 3,
                authority: 1,
                amount: vault_token.amount,
                signed: true,
            },
        );
    }
    effects.push(Effect::TokenClose { source: 7, destination: 4, authority: 1 });
    effects.push(Effect::StoreCashLink { account: 1 });
    proof {
        if vault_token.amount > 0 {
            assert(effects@ =~= seq![
                Effect::TokenTransfer {
                    source: 7,
                    destination: 3,
                    authority: 1,
                    amount: vault_token.amount,
                    signed: true,
                },
                Effect::TokenClose { source: 7, destination: 4, authority: 1 },
                Effect::StoreCashLink { account: 1 },
            ]);
        } else {
            assert(effects@ =~= seq![
                Effect::TokenClose { source: 7, destination: 4, authority: 1 },
                Effect::StoreCashLink { account: 1 },
            ]);
        }
    }
    Ok(effects)
}

/// The steps of the cancellation of a natively funded cash link.
fn cancel_native(accounts: &[Account], min_lamports: u64) -> (r: Result<Vec<Effect>, ProcessError>)
    requires
        accounts@.len() >= 7,
    ensures
        r matches Ok(effects) ==> spec_cancel_native(accounts@, min_lamports) == Ok::<
            Seq<Effect>,
            ProcessError,
        >(effects@),
        r matches Err(e) ==> spec_cancel_native(accounts@, min_lamports) == Err::<
            Seq<Effect>,
            ProcessError,
        >(e),
{
    let remaining_amount = match accounts[1].lamports.checked_sub(min_lamports) {
        Some(remaining) => remaining,
        None => { return Err(ProcessError::Cash(CashError::AmountOverflow)); },
    };
    let mut effects: Vec<Effect> = Vec::new();
    if remaining_amount > 0 {
        effects.push(Effect::MoveLamports { source: 1, destination: 3, amount: remaining_amount });
    }
    effects.push(Effect::StoreCashLink { account: 1 });
    proof {
        if remaining_amount > 0 {
            assert(effects@ =~= seq![
                Effect::MoveLamports { source: 1, destination: 3, amount: remaining_amount },
                Effect::StoreCashLink { account: 1 },
            ]);
        } else {
            assert(effects@ =~= seq![Effect::StoreCashLink { account: 1 }]);
        }
    }
    Ok(effects)
}

/// Cancels a cash link at the given time, given what was read from the token
/// accounts: decides whether the cancellation is accepted and what it does.
pub fn process_cancel_with(
    accounts: &[Account],
    program_id: &Address,
    args: CancelCashRedemptionArgs,
    now: u64,
    min_lamports: u64,
    readings: &Readings,
) -> (r: Result<Outcome, ProcessError>)
    ensures
        r matches Ok(outcome) ==> spec_cancel(
            accounts@,
            *program_id,
            args,
            now,
            min_lamports,
            readings@,
        ) == Ok::<OutcomeView, ProcessError>(outcome@),
        r matches Err(e) ==> spec_cancel(accounts@, *program_id, args, now, min_lamports, readings@)
            == Err::<OutcomeView, ProcessError>(e),
{
    if accounts.len() < 1 {
        return Err(ProcessError::NotEnoughAccountKeys);
    }
    let authority_info = &accounts[0];
    assert_signer(authority_info)?;
    if accounts.len() < 2 {
        return Err(ProcessError::NotEnoughAccountKeys);
    }
    let cash_link_info = &accounts[1];
    assert_owned_by(cash_link_info, program_id)?;
    if accounts.len() < 3 {
        return Err(ProcessError::NotEnoughAccountKeys);
    }
    let pass_info = &accounts[2];
    let cash_link = CashLink::unpack(cash_link_info.data.as_slice())?;
    assert_account_key(authority_info, &cash_link.authority, Some(CashError::InvalidAuthorityId))?;
    assert_account_key(pass_info, &cash_link.pass_key, Some(CashError::InvalidPassKey))?;
    if accounts.len() < 7 {
        return Err(ProcessError::NotEnoughAccountKeys);
    }
    let after = match cash_link.cancel(now) {
        Ok(after) => after,
        Err(e) => { return Err(ProcessError::Cash(e)); },
    };
    let effects = if cash_link.mint.is_some() {
        cancel_token(accounts, &cash_link, readings)?
    } else {
        cancel_native(accounts, min_lamports)?
    };
    let outcome = Outcome {
        effects,
        cash_link: Some(after),
        redemption: None,
        cash_link_seeds: with_bump(cash_link_seeds(&pass_info.key), args.cash_link_bump),
        redemption_seeds: Vec::new(),
        fingerprint_seeds: Vec::new(),
    };
    proof {
        assert(outcome@.redemption_seeds =~= Seq::<Seq<u8>>::empty());
        assert(outcome@.fingerprint_seeds =~= Seq::<Seq<u8>>::empty());
    }
    Ok(outcome)
}

/// Reads what a cancellation needs of the token accounts.
fn cancel_readings(accounts: &[Account]) -> (readings: Readings)
    ensures
        readings@ == spec_cancel_readings(accounts@),
{
    let mut vault_address: Option<Address> = None;
    if accounts.len() >= 2 {
        if let Ok(link) = CashLink::unpack(accounts[1].data.as_slice()) {
            if let Some(mint) = link.mint {
                vault_address = self::vault_address(&accounts[1].key, &mint);
            }
        }
    }
    let vault_token = if accounts.len() >= 8 {
        TokenAccount::unpack_unchecked(accounts[7].data.as_slice())
    } else {
        None
    };
    let owner_token = if accounts.len() >= 4 {
        TokenAccount::unpack_unchecked(accounts[3].data.as_slice())
    } else {
        None
    };
    Readings {
        vault_address,
        vault_token,
        owner_token,
        recipient_token: None,
        fee_token: None,
        fingerprint: None,
    }
}

/// Cancels a cash link at the given time: once the deadline has passed, all
/// that is left in the vault goes back to the owner, and the link is marked
/// as expired. `min_lamports` is the balance that keeps the cash link's
/// account alive.
pub fn process_cancel(
    accounts: &[Account],
    program_id: &Address,
    args: CancelCashRedemptionArgs,
    now: u64,
    min_lamports: u64,
) -> (r: Result<Outcome, ProcessError>)
    ensures
        r matches Ok(outcome) ==> spec_cancel(
            accounts@,
            *program_id,
            args,
            now,
            min_lamports,
            spec_cancel_readings(accounts@),
        ) == Ok::<OutcomeView, ProcessError>(outcome@),
        r matches Err(e) ==> spec_cancel(
            accounts@,
            *program_id,
            args,
            now,
            min_lamports,
            spec_cancel_readings(accounts@),
        ) == Err::<OutcomeView, ProcessError>(e),
{
    let readings = cancel_readings(accounts);
    process_cancel_with(accounts, program_id, args, now, min_lamports, &readings)
}

/// What the closure of a cash link does: the whole balance of the cash link's
/// account goes to the fee payer. The accounts are the authority, which
/// signs, the cash link and the fee payer.
pub open spec fn spec_close(accounts: Seq<Account>, program_id: Address) -> Result<
    OutcomeView,
    ProcessError,
> {
    if accounts.len() < 1 {
        Err(ProcessError::NotEnoughAccountKeys)
    } else if !accounts[0].is_signer {
        Err(ProcessError::MissingRequiredSignature)
    } else if accounts.len() < 3 {
        Err(ProcessError::NotEnoughAccountKeys)
    } else if accounts[1].owner@ != program_id@ {
        Err(ProcessError::Cash(CashError::InvalidOwner))
    } else {
        match CashLink::spec_unpack_account(accounts[1].data@) {
            Err(e) => Err(e),
            Ok(link) => if accounts[0].key@ != link.authority@ {
                Err(ProcessError::Cash(CashError::InvalidAuthorityId))
            } else if let Some(e) = link.spec_close_error() {
                Err(ProcessError::Cash(e))
            } else {
                Ok(
                    spec_steps(
                        seq![
                            Effect::MoveLamports {
                                source: 1,
                                destination: 2,
                                amount: accounts[1].lamports,
                            },
                        ],
                    ),
                )
            },
        }
    }
}

/// Closes a cash link that was cancelled and that nobody redeemed from: its
/// account's whole balance goes to the fee payer.
pub fn process_close(accounts: &[Account], program_id: &Address) -> (r: Result<
    Outcome,
    ProcessError,
>)
    ensures
        r matches Ok(outcome) ==> spec_close(accounts@, *program_id) == Ok::<
            OutcomeView,
            ProcessError,
        >(outcome@),
        r matches Err(e) ==> spec_close(accounts@, *program_id) == Err::<OutcomeView, ProcessError>(
            e,
        ),
{
    if accounts.len() < 1 {
        return Err(ProcessError::NotEnoughAccountKeys);
    }
    let authority_info = &accounts[0];
    assert_signer(authority_info)?;
    if accounts.len() < 3 {
        return Err(ProcessError::NotEnoughAccountKeys);
    }
    let cash_link_info = &accounts[1];
    assert_owned_by(cash_link_info, program_id)?;
    let cash_link = CashLink::unpack(cash_link_info.data.as_slice())?;
    assert_account_key(authority_info, &cash_link.authority, Some(CashError::InvalidAuthorityId))?;
    match cash_link.check_closable() {
        Ok(()) => {},
        Err(e) => { return Err(ProcessError::Cash(e)); },
    }
    let mut effects: Vec<Effect> = Vec::new();
    effects.push(Effect::MoveLamports { source: 1, destination: 2, amount: cash_link_info.lamports });
    let outcome = Outcome {
        effects,
        cash_link: None,
        redemption: None,
        cash_link_seeds: Vec::new(),
        redemption_seeds: Vec::new(),
        fingerprint_seeds: Vec::new(),
    };
    proof {
        assert(outcome@.effects =~= seq![
            Effect::MoveLamports { source: 1, destination: 2, amount: accounts[1].lamports },
        ]);
        assert(outcome@.cash_link_seeds =~= Seq::<Seq<u8>>::empty());
        assert(outcome@.redemption_seeds =~= Seq::<Seq<u8>>::empty());
        assert(outcome@.fingerprint_seeds =~= Seq::<Seq<u8>>::empty());
    }
    Ok(outcome)
}

} // verus!
