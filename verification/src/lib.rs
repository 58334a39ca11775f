//! Cash links: escrows that are funded once and redeemed in shares by the
//! bearers of a pass key.
//!
//! An owner locks an amount, native or of a token, into a cash link. Whoever
//! signs with the link's pass key redeems a share of it, equal shares or
//! shares drawn at random, until the slots are used, nothing is left or the
//! deadline has passed. After the deadline the authority cancels the link,
//! which returns what is left to the owner, and closes it.
//!
//! - [`state`] holds the records and their binary layout;
//! - [`lifecycle`] the transitions of a cash link and what is proved of them;
//! - [`processor`] the handlers of the four instructions, which decide from
//!   the accounts they are given and return the steps to carry out;
//! - [`instruction`] the instructions, their layout and their builders;
//! - [`utils`], [`token`], [`seeds`] and [`codec`] what the handlers share;
//! - [`solana`] and [`base58`] the calls into the SDK, the SPL crates and
//!   `bs58`: the only code here that is trusted and not proved.

use vstd::prelude::*;

pub mod account;
pub mod address;
pub mod base58;
pub mod codec;
pub mod error;
pub mod instruction;
pub mod lifecycle;
pub mod processor;
pub mod seeds;
pub mod solana;
pub mod state;
pub mod token;
pub mod utils;

use crate::address::Address;
use crate::seeds::{
    cash_link_seeds,
    fingerprint_seeds,
    redemption_seeds,
    spec_cash_link_seeds,
    spec_fingerprint_seeds,
    spec_redemption_seeds,
};
use crate::solana::{program_address, try_find_program_address};

verus! {

/// The bytes of the program's id, `cashQKx31fVsquVKXQ9prKqVtSYf8SqcYt9Jyvg966q`.
pub open spec fn spec_id() -> Seq<u8> {
    seq![
        9u8, 29u8, 161u8, 62u8, 146u8, 25u8, 87u8, 139u8, 58u8, 231u8, 31u8, 176u8, 39u8, 190u8,
        203u8, 180u8, 212u8, 127u8, 173u8, 11u8, 172u8, 208u8, 179u8, 56u8, 14u8, 145u8, 162u8,
        67u8, 139u8, 28u8, 70u8, 86u8,
    ]
}

/// The program's id.
pub fn id() -> (id: Address)
    ensures
        id@ == spec_id(),
{
    let id = Address {
        bytes: [
            9, 29, 161, 62, 146, 25, 87, 139, 58, 231, 31, 176, 39, 190, 203, 180, 212, 127, 173,
            11, 172, 208, 179, 56, 14, 145, 162, 67, 139, 28, 70, 86,
        ],
    };
    assert(id@ =~= spec_id());
    id
}

/// The address of the cash link of a pass key, with its bump seed; `None`
/// where the seeds give no address under the program.
pub fn find_cash_link_program_address(program_id: &Address, pass_key: Address) -> (r: Option<
    (Address, u8),
>)
    ensures
        r matches Some((address, bump)) ==> program_address(
            spec_cash_link_seeds(pass_key@),
            program_id@,
        ) == Some((address@, bump)),
        r is None ==> program_address(spec_cash_link_seeds(pass_key@), program_id@) is None,
{
    let seeds = cash_link_seeds(&pass_key);
    try_find_program_address(&seeds, program_id)
}

/// The address of the marker that a wallet has redeemed from a cash link,
/// with its bump seed; `None` where the seeds give no address under the
/// program.
pub fn find_cash_link_redemption_program_address(
    program_id: &Address,
    cash_link: &Address,
    wallet: &Address,
) -> (r: Option<(Address, u8)>)
    ensures
        r matches Some((address, bump)) ==> program_address(
            spec_redemption_seeds(cash_link@, wallet@),
            program_id@,
        ) == Some((address@, bump)),
        r is None ==> program_address(spec_redemption_seeds(cash_link@, wallet@), program_id@)
            is None,
{
    let seeds = redemption_seeds(cash_link, wallet);
    try_find_program_address(&seeds, program_id)
}

/// The address of the marker of a fingerprint on a cash link, with its bump
/// seed. The seed is the text of the fingerprint as it stands, in UTF-8.
/// `None` where the seeds give no address under the program: always where the
/// text is longer than 32 bytes.
pub fn find_fingerprint_program_address(
    program_id: &Address,
    cash_link: &Address,
    fingerprint: String,
) -> (r: Option<(Address, u8)>)
    ensures
        r matches Some((address, bump)) ==> program_address(
            spec_fingerprint_seeds(cash_link@, vstd::utf8::encode_utf8(fingerprint@)),
            program_id@,
        ) == Some((address@, bump)),
        r is None ==> program_address(
            spec_fingerprint_seeds(cash_link@, vstd::utf8::encode_utf8(fingerprint@)),
            program_id@,
        ) is None,
{
    let seeds = fingerprint_seeds(cash_link, fingerprint.as_str().as_bytes());
    try_find_program_address(&seeds, program_id)
}

} // verus!
