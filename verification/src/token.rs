//! Token accounts as the program reads them.

use vstd::prelude::*;
use crate::address::Address;
use crate::codec::{lemma_address_of_view, spec_address_of};
use crate::state::IsInitialized;
use crate::solana::{
    associated_token_program_id,
    program_address,
    spec_associated_token_program_id,
    spec_seeds,
    spec_token_program_id,
    token_account,
    token_program_id,
    try_find_program_address,
    unpack_token_account,
};

verus! {

/// The state of a token account.
#[derive(Clone, Copy, Debug, PartialEq, Eq, Structural)]
pub enum TokenAccountState {
    /// The account is not set up yet.
    Uninitialized,
    /// The account is in use.
    Initialized,
    /// The account is in use and frozen by the mint.
    Frozen,
}

impl TokenAccountState {
    /// The index of the variant.
    pub open spec fn spec_tag(self) -> u8 {
        match self {
            TokenAccountState::Uninitialized => 0,
            TokenAccountState::Initialized => 1,
            TokenAccountState::Frozen => 2,
        }
    }

    /// The variant with the given index; the last one for any other.
    pub open spec fn spec_from_tag(tag: u8) -> TokenAccountState {
        if tag == 0 {
            TokenAccountState::Uninitialized
        } else if tag == 1 {
            TokenAccountState::Initialized
        } else {
            TokenAccountState::Frozen
        }
    }
}

/// What the program reads of a token account.
#[derive(Clone, Copy, Debug, PartialEq, Eq)]
pub struct TokenAccount {
    /// The token that the account holds.
    pub mint: Address,
    /// Who may spend from the account.
    pub owner: Address,
    /// How much the account holds.
    pub amount: u64,
    pub state: TokenAccountState,
}

impl TokenAccount {
    /// Whether the account is set up.
    pub open spec fn spec_is_initialized(&self) -> bool {
        self.state != TokenAccountState::Uninitialized
    }

    /// The token account that stands in the data of an account, as the SPL
    /// token program reads it; `None` where it reads none.
    pub open spec fn spec_unpack(data: Seq<u8>) -> Option<TokenAccount> {
        match token_account(data) {
            None => None,
            Some((mint, owner, amount, state)) => Some(
                TokenAccount {
                    mint: spec_address_of(mint),
                    owner: spec_address_of(owner),
                    amount,
                    state: TokenAccountState::spec_from_tag(state),
                },
            ),
        }
    }

    /// Reads the token account that stands in the data of an account.
    pub fn unpack_unchecked(data: &[u8]) -> (r: Option<TokenAccount>)
        ensures
            r == TokenAccount::spec_unpack(data@),
    {
        let r = unpack_token_account(data);
        proof {
            if let Some(account) = r {
                lemma_address_of_view(account.mint);
                lemma_address_of_view(account.owner);
            }
        }
        r
    }
}

impl IsInitialized for TokenAccount {
    open spec fn spec_initialized(&self) -> bool {
        self.spec_is_initialized()
    }

    fn is_initialized(&self) -> (b: bool) {
        match self.state {
            TokenAccountState::Uninitialized => false,
            _ => true,
        }
    }
}

/// The seeds of an associated token account: the wallet, the token program
/// and the mint.
pub open spec fn spec_associated_token_seeds(wallet: Seq<u8>, mint: Seq<u8>) -> Seq<Seq<u8>> {
    seq![wallet, spec_token_program_id(), mint]
}

/// The address of the associated token account of a wallet for a mint: the
/// program address of the wallet, the token program and the mint under the
/// associated token account program. `None` where there is none.
pub open spec fn spec_associated_token_address(wallet: Seq<u8>, mint: Seq<u8>) -> Option<
    Seq<u8>,
> {
    match program_address(
        spec_associated_token_seeds(wallet, mint),
        spec_associated_token_program_id(),
    ) {
        Some((address, _)) => Some(address),
        None => None,
    }
}

/// The address of the associated token account of a wallet for a mint.
pub fn get_associated_token_address(wallet: &Address, mint: &Address) -> (r: Option<Address>)
    ensures
        r matches Some(address) ==> spec_associated_token_address(wallet@, mint@) == Some(
            address@,
        ),
        r is None ==> spec_associated_token_address(wallet@, mint@) is None,
{
    let token_program = token_program_id();
    let mut seeds: Vec<Vec<u8>> = Vec::new();
    seeds.push(wallet.to_vec());
    seeds.push(token_program.to_vec());
    seeds.push(mint.to_vec());
    assert(spec_seeds(seeds) =~= spec_associated_token_seeds(wallet@, mint@));
    match try_find_program_address(&seeds, &associated_token_program_id()) {
        Some((address, _)) => Some(address),
        None => None,
    }
}

} // verus!
