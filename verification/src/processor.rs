//! The handlers of the program's instructions. A handler reads the accounts
//! that the instruction names, decides, and returns what is to be done: the
//! movements of funds, the accounts to create and the records to store. It
//! changes nothing itself, so an instruction that is refused leaves no trace.

use vstd::prelude::*;
use crate::account::Account;
use crate::address::Address;
use crate::error::ProcessError;
use crate::instruction::CashInstruction;
use crate::processor::cashlink::{
    process_cancel,
    process_close,
    process_init_cash_link,
    process_redemption,
    spec_cancel,
    spec_cancel_readings,
    spec_close,
    spec_init,
    spec_init_readings,
    spec_redeem,
    spec_redeem_readings,
};
use crate::solana::spec_seeds;
use crate::state::cashlink::CashLink;
use crate::state::redemption::Redemption;
use crate::token::TokenAccount;

pub mod cashlink;
pub mod laws;

verus! {

/// The derived address whose seeds a step needs.
#[derive(Clone, Copy, Debug, PartialEq, Eq, Structural)]
pub enum Seeds {
    /// The cash link.
    CashLink,
    /// The marker of the redemption.
    Redemption,
    /// The marker of the fingerprint.
    Fingerprint,
}

/// One step of what an instruction does. Accounts are named by their place
/// in the list of the instruction's accounts.
#[derive(Clone, Copy, Debug, PartialEq, Eq, Structural)]
pub enum Effect {
    /// Create the account with data of the given size, owned by the program,
    /// at the address of the seeds. The payer funds its rent.
    CreateAccount {
        account: usize,
        payer: usize,
        rent: usize,
        system_program: usize,
        size: usize,
        seeds: Seeds,
    },
    /// Create the vault: the associated token account of the wallet for the
    /// mint.
    CreateAssociatedTokenAccount {
        payer: usize,
        vault: usize,
        wallet: usize,
        mint: usize,
        rent: usize,
    },
    /// Transfer native funds by the system program; the source signs.
    NativeTransfer { source: usize, destination: usize, amount: u64 },
    /// Transfer tokens by the token program. The authority signs itself, or
    /// the program signs for the cash link with its seeds.
    TokenTransfer { source: usize, destination: usize, authority: usize, amount: u64, signed: bool },
    /// Close the token account; its rent goes to the destination. The program
    /// signs for the cash link with its seeds.
    TokenClose { source: usize, destination: usize, authority: usize },
    /// Move native funds out of an account of the program.
    MoveLamports { source: usize, destination: usize, amount: u64 },
    /// Store the cash link of the outcome in the account.
    StoreCashLink { account: usize },
    /// Store the redemption marker of the outcome in the account.
    StoreRedemption { account: usize },
}

/// What an instruction that is accepted does.
#[derive(Clone, Debug, PartialEq)]
pub struct Outcome {
    /// The steps, in their order.
    pub effects: Vec<Effect>,
    /// The cash link after the instruction, where it changes.
    pub cash_link: Option<CashLink>,
    /// The marker of the redemption, where there is one.
    pub redemption: Option<Redemption>,
    /// The seeds of the cash link's address, bump seed included; empty where
    /// no step needs them.
    pub cash_link_seeds: Vec<Vec<u8>>,
    /// The seeds of the redemption marker's address, bump seed included;
    /// empty where no step needs them.
    pub redemption_seeds: Vec<Vec<u8>>,
    /// The seeds of the fingerprint marker's address, bump seed included;
    /// empty where no step needs them.
    pub fingerprint_seeds: Vec<Vec<u8>>,
}

/// An outcome as a value of specifications.
pub struct OutcomeView {
    pub effects: Seq<Effect>,
    pub cash_link: Option<CashLink>,
    pub redemption: Option<Redemption>,
    pub cash_link_seeds: Seq<Seq<u8>>,
    pub redemption_seeds: Seq<Seq<u8>>,
    pub fingerprint_seeds: Seq<Seq<u8>>,
}

impl View for Outcome {
    type V = OutcomeView;

    open spec fn view(&self) -> OutcomeView {
        OutcomeView {
            effects: self.effects@,
            cash_link: self.cash_link,
            redemption: self.redemption,
            cash_link_seeds: spec_seeds(self.cash_link_seeds),
            redemption_seeds: spec_seeds(self.redemption_seeds),
            fingerprint_seeds: spec_seeds(self.fingerprint_seeds),
        }
    }
}

/// What was read from the accounts of an instruction by the crates that know
/// their layout, and from its arguments. A handler that is given the readings
/// decides from them and from the accounts alone.
#[derive(Clone, Debug, PartialEq, Eq)]
pub struct Readings {
    /// The address of the vault: the associated token account of the cash
    /// link for its mint. `None` where there is none.
    pub vault_address: Option<Address>,
    /// The token account in the vault's place; `None` where the data there
    /// holds none.
    pub vault_token: Option<TokenAccount>,
    /// The token account in the owner's place.
    pub owner_token: Option<TokenAccount>,
    /// The token account in the recipient's place.
    pub recipient_token: Option<TokenAccount>,
    /// The token account in the fee collector's place.
    pub fee_token: Option<TokenAccount>,
    /// The bytes of the fingerprint; `None` where the redemption carries none
    /// or it is not written in base 58.
    pub fingerprint: Option<Vec<u8>>,
}

/// Readings as a value of specifications.
pub struct ReadingsView {
    pub vault_address: Option<Address>,
    pub vault_token: Option<TokenAccount>,
    pub owner_token: Option<TokenAccount>,
    pub recipient_token: Option<TokenAccount>,
    pub fee_token: Option<TokenAccount>,
    pub fingerprint: Option<Seq<u8>>,
}

impl View for Readings {
    type V = ReadingsView;

    open spec fn view(&self) -> ReadingsView {
        ReadingsView {
            vault_address: self.vault_address,
            vault_token: self.vault_token,
            owner_token: self.owner_token,
            recipient_token: self.recipient_token,
            fee_token: self.fee_token,
            fingerprint: match self.fingerprint {
                Some(bytes) => Some(bytes@),
                None => None,
            },
        }
    }
}

/// What an instruction does at the given time: what its handler does.
pub open spec fn spec_process(
    program_id: Address,
    accounts: Seq<Account>,
    instruction: CashInstruction,
    now: u64,
    min_lamports: u64,
) -> Result<OutcomeView, ProcessError> {
    match instruction {
        CashInstruction::InitCashLink(args) => spec_init(
            accounts,
            args,
            now,
            spec_init_readings(accounts),
        ),
        CashInstruction::Redeem(args) => spec_redeem(
            accounts,
            args,
            program_id,
            now,
            min_lamports,
            spec_redeem_readings(accounts, args),
        ),
        CashInstruction::Cancel(args) => spec_cancel(
            accounts,
            program_id,
            args,
            now,
            min_lamports,
            spec_cancel_readings(accounts),
        ),
        CashInstruction::Close => spec_close(accounts, program_id),
    }
}

/// The processor of the program's instructions.
pub struct Processor;

impl Processor {
    /// Hands an instruction to its handler. `now` is the time of the clock
    /// and `min_lamports` the balance that keeps the account of a cash link
    /// alive.
    pub fn process(
        program_id: &Address,
        accounts: &[Account],
        instruction: CashInstruction,
        now: u64,
        min_lamports: u64,
    ) -> (r: Result<Outcome, ProcessError>)
        ensures
            r matches Ok(outcome) ==> spec_process(
                *program_id,
                accounts@,
                instruction,
                now,
                min_lamports,
            ) == Ok::<OutcomeView, ProcessError>(outcome@),
            r matches Err(e) ==> spec_process(
                *program_id,
                accounts@,
                instruction,
                now,
                min_lamports,
            ) == Err::<OutcomeView, ProcessError>(e),
    {
        match instruction {
            CashInstruction::InitCashLink(args) => process_init_cash_link(
                accounts,
                args,
                program_id,
                now,
            ),
            CashInstruction::Redeem(args) => process_redemption(
                accounts,
                args,
                program_id,
                now,
                min_lamports,
            ),
            CashInstruction::Cancel(args) => process_cancel(
                accounts,
                program_id,
                args,
                now,
                min_lamports,
            ),
            CashInstruction::Close => process_close(accounts, program_id),
        }
    }
}

} // verus!
