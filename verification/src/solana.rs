//! Calls into the Solana SDK and the SPL token crates.
//!
//! Nothing in this file is proved: each function states what the function it
//! calls is documented to do, and the rest of the library relies on that.

use vstd::prelude::*;
use crate::address::Address;
use crate::token::{TokenAccount, TokenAccountState};
use solana_program::program_pack::Pack;
use spl_token::state::AccountState;
use solana_program::pubkey::Pubkey;

verus! {

/// The program address that belongs to the seeds under a program, with its
/// bump seed: what `Pubkey::try_find_program_address` returns for them. `None`
/// where no bump seed gives an address, where there are 16 seeds or more, or
/// where a seed is longer than 32 bytes.
pub uninterp spec fn program_address(seeds: Seq<Seq<u8>>, program_id: Seq<u8>) -> Option<
    (Seq<u8>, u8),
>;

/// The seeds as sequences of bytes.
pub open spec fn spec_seeds(seeds: Vec<Vec<u8>>) -> Seq<Seq<u8>> {
    seeds@.map_values(|seed: Vec<u8>| seed@)
}

/// Calls `Pubkey::try_find_program_address`. The result is a function of the
/// seeds and the program id alone; the contract names it `program_address`.
#[verifier::external_body]
pub(crate) fn try_find_program_address(seeds: &Vec<Vec<u8>>, program_id: &Address) -> (found:
    Option<(Address, u8)>)
    ensures
        found matches Some((address, bump)) ==> program_address(spec_seeds(*seeds), program_id@)
            == Some((address@, bump)),
        found is None ==> program_address(spec_seeds(*seeds), program_id@) is None,
{
    let parts: Vec<&[u8]> = seeds.iter().map(|seed| seed.as_slice()).collect();
    Pubkey::try_find_program_address(&parts, &Pubkey::new_from_array(program_id.bytes)).map(
        |(key, bump)| (Address { bytes: key.to_bytes() }, bump),
    )
}

/// Calls `sol_memcmp` on the 32 bytes of two addresses. Like C's `memcmp`, it
/// returns zero exactly when the bytes agree.
#[verifier::external_body]
pub(crate) fn memcmp_addresses(a: &Address, b: &Address) -> (order: i32)
    ensures
        (order == 0) <==> a@ == b@,
{
    solana_program::program_memory::sol_memcmp(
        &a.bytes,
        &b.bytes,
        solana_program::pubkey::PUBKEY_BYTES,
    )
}

/// The bytes of the SPL token program's id,
/// `TokenkegQfeZyiNwAJbNbGKPFXCWuBvf9Ss623VQ5DA`.
pub open spec fn spec_token_program_id() -> Seq<u8> {
    seq![
        6u8, 221u8, 246u8, 225u8, 215u8, 101u8, 161u8, 147u8, 217u8, 203u8, 225u8, 70u8, 206u8,
        235u8, 121u8, 172u8, 28u8, 180u8, 133u8, 237u8, 95u8, 91u8, 55u8, 145u8, 58u8, 140u8,
        245u8, 133u8, 126u8, 255u8, 0u8, 169u8,
    ]
}

/// Calls `spl_token::id`, which returns the id that the crate declares.
#[verifier::external_body]
pub(crate) fn token_program_id() -> (id: Address)
    ensures
        id@ == spec_token_program_id(),
{
    Address { bytes: spl_token::id().to_bytes() }
}

/// The bytes of the associated token account program's id,
/// `ATokenGPvbdGVxr1b2hvZbsiqW5xWH25efTNsLJA8knL`.
pub open spec fn spec_associated_token_program_id() -> Seq<u8> {
    seq![
        140u8, 151u8, 37u8, 143u8, 78u8, 36u8, 137u8, 241u8, 187u8, 61u8, 16u8, 41u8, 20u8, 142u8,
        13u8, 131u8, 11u8, 90u8, 19u8, 153u8, 218u8, 255u8, 16u8, 132u8, 4u8, 142u8, 123u8, 216u8,
        219u8, 233u8, 248u8, 89u8,
    ]
}

/// Calls `spl_associated_token_account::id`, which returns the id that the
/// crate declares.
#[verifier::external_body]
pub(crate) fn associated_token_program_id() -> (id: Address)
    ensures
        id@ == spec_associated_token_program_id(),
{
    Address { bytes: spl_associated_token_account::id().to_bytes() }
}

/// The bytes of the id of the slot hashes sysvar,
/// `SysvarS1otHashes111111111111111111111111111`.
pub open spec fn spec_slot_hashes_id() -> Seq<u8> {
    seq![
        6u8, 167u8, 213u8, 23u8, 25u8, 47u8, 10u8, 175u8, 198u8, 242u8, 101u8, 227u8, 251u8, 119u8,
        204u8, 122u8, 218u8, 130u8, 197u8, 41u8, 208u8, 190u8, 59u8, 19u8, 110u8, 45u8, 0u8, 85u8,
        32u8, 0u8, 0u8, 0u8,
    ]
}

/// Calls `solana_program::sysvar::slot_hashes::id`, which returns the id that
/// the crate declares.
#[verifier::external_body]
pub(crate) fn slot_hashes_id() -> (id: Address)
    ensures
        id@ == spec_slot_hashes_id(),
{
    Address { bytes: solana_program::sysvar::slot_hashes::id().to_bytes() }
}

/// What the SPL token program reads from the data of a token account: the
/// mint, the owner, the amount and the index of the state (0 for an account
/// that is not set up, 1 for one in use, 2 for a frozen one). `None` where
/// `Account::unpack_unchecked` fails.
pub uninterp spec fn token_account(data: Seq<u8>) -> Option<(Seq<u8>, Seq<u8>, u64, u8)>;

/// Calls `spl_token::state::Account::unpack_unchecked` and hands on the
/// fields that the program reads. The result is a function of the data alone;
/// the contract names it `token_account`.
#[verifier::external_body]
pub(crate) fn unpack_token_account(data: &[u8]) -> (r: Option<TokenAccount>)
    ensures
        r matches Some(account) ==> token_account(data@) == Some(
            (account.mint@, account.owner@, account.amount, account.state.spec_tag()),
        ),
        r is None ==> token_account(data@) is None,
{
    spl_token::state::Account::unpack_unchecked(data).ok().map(
        |account|
            TokenAccount {
                mint: Address { bytes: account.mint.to_bytes() },
                owner: Address { bytes: account.owner.to_bytes() },
                amount: account.amount,
                state: match account.state {
                    AccountState::Uninitialized => TokenAccountState::Uninitialized,
                    AccountState::Initialized => TokenAccountState::Initialized,
                    AccountState::Frozen => TokenAccountState::Frozen,
                },
            },
    )
}

/// The bytes of the system program's id, `11111111111111111111111111111111`:
/// 32 zeros.
pub open spec fn spec_system_program_id() -> Seq<u8> {
    Seq::new(32, |i: int| 0u8)
}

/// Calls `solana_program::system_program::id`, which returns the id that the
/// crate declares.
#[verifier::external_body]
pub(crate) fn system_program_id() -> (id: Address)
    ensures
        id@ == spec_system_program_id(),
{
    Address { bytes: solana_program::system_program::id().to_bytes() }
}

/// The bytes of the id of the rent sysvar,
/// `SysvarRent111111111111111111111111111111111`.
pub open spec fn spec_rent_id() -> Seq<u8> {
    seq![
        6u8, 167u8, 213u8, 23u8, 25u8, 44u8, 92u8, 81u8, 33u8, 140u8, 201u8, 76u8, 61u8, 74u8,
        241u8, 127u8, 88u8, 218u8, 238u8, 8u8, 155u8, 161u8, 253u8, 68u8, 227u8, 219u8, 217u8,
        138u8, 0u8, 0u8, 0u8, 0u8,
    ]
}

/// Calls `solana_program::sysvar::rent::id`, which returns the id that the
/// crate declares.
#[verifier::external_body]
pub(crate) fn rent_id() -> (id: Address)
    ensures
        id@ == spec_rent_id(),
{
    Address { bytes: solana_program::sysvar::rent::id().to_bytes() }
}

/// The bytes of the id of the clock sysvar,
/// `SysvarC1ock11111111111111111111111111111111`.
pub open spec fn spec_clock_id() -> Seq<u8> {
    seq![
        6u8, 167u8, 213u8, 23u8, 24u8, 199u8, 116u8, 201u8, 40u8, 86u8, 99u8, 152u8, 105u8, 29u8,
        94u8, 182u8, 139u8, 94u8, 184u8, 163u8, 155u8, 75u8, 109u8, 92u8, 115u8, 85u8, 91u8, 33u8,
        0u8, 0u8, 0u8, 0u8,
    ]
}

/// Calls `solana_program::sysvar::clock::id`, which returns the id that the
/// crate declares.
#[verifier::external_body]
pub(crate) fn clock_id() -> (id: Address)
    ensures
        id@ == spec_clock_id(),
{
    Address { bytes: solana_program::sysvar::clock::id().to_bytes() }
}

} // verus!
