//! The seeds from which the addresses of the program's accounts are derived.

use vstd::prelude::*;
use vstd::slice::slice_to_vec;
use vstd::string::StringSliceAdditionalSpecFns;
use crate::address::Address;
use crate::solana::spec_seeds;
use crate::state::cashlink::CashLink;
use crate::state::redemption::Redemption;
use crate::state::FINGERPRINT_PREFIX;

verus! {

/// The bytes of `escrow`, the first seed of a cash link.
pub open spec fn spec_cash_link_prefix() -> Seq<u8> {
    seq![101u8, 115u8, 99u8, 114u8, 111u8, 119u8]
}

/// The bytes of `redeem`, the first seed of a redemption marker.
pub open spec fn spec_redemption_prefix() -> Seq<u8> {
    seq![114u8, 101u8, 100u8, 101u8, 101u8, 109u8]
}

/// The bytes of `fingerprint`, the first seed of a fingerprint marker.
pub open spec fn spec_fingerprint_prefix() -> Seq<u8> {
    seq![102u8, 105u8, 110u8, 103u8, 101u8, 114u8, 112u8, 114u8, 105u8, 110u8, 116u8]
}

/// The seeds of a cash link: the prefix and the pass key.
pub open spec fn spec_cash_link_seeds(pass_key: Seq<u8>) -> Seq<Seq<u8>> {
    seq![spec_cash_link_prefix(), pass_key]
}

/// The seeds of a redemption marker: the prefix, the cash link and the wallet.
pub open spec fn spec_redemption_seeds(cash_link: Seq<u8>, wallet: Seq<u8>) -> Seq<Seq<u8>> {
    seq![spec_redemption_prefix(), cash_link, wallet]
}

/// The seeds of a fingerprint marker: the prefix, the cash link and the bytes
/// of the fingerprint.
pub open spec fn spec_fingerprint_seeds(cash_link: Seq<u8>, fingerprint: Seq<u8>) -> Seq<
    Seq<u8>,
> {
    seq![spec_fingerprint_prefix(), cash_link, fingerprint]
}

/// The seeds with a bump seed behind them: those of an address that was found
/// with that bump seed.
pub open spec fn spec_with_bump(seeds: Seq<Seq<u8>>, bump: u8) -> Seq<Seq<u8>> {
    seeds.push(seq![bump])
}

/// The bytes of the first seed of a cash link.
pub fn cash_link_prefix() -> (prefix: Vec<u8>)
    ensures
        prefix@ == spec_cash_link_prefix(),
{
    let text: &'static str = CashLink::PREFIX;
    proof {
        reveal_strlit("escrow");
        vstd::string::is_ascii_spec_bytes(text);
        assert(text.spec_bytes() =~= spec_cash_link_prefix());
    }
    slice_to_vec(text.as_bytes())
}

/// The bytes of the first seed of a redemption marker.
pub fn redemption_prefix() -> (prefix: Vec<u8>)
    ensures
        prefix@ == spec_redemption_prefix(),
{
    let text: &'static str = Redemption::PREFIX;
    proof {
        reveal_strlit("redeem");
        vstd::string::is_ascii_spec_bytes(text);
        assert(text.spec_bytes() =~= spec_redemption_prefix());
    }
    slice_to_vec(text.as_bytes())
}

/// The bytes of the first seed of a fingerprint marker.
pub fn fingerprint_prefix() -> (prefix: Vec<u8>)
    ensures
        prefix@ == spec_fingerprint_prefix(),
{
    let text: &'static str = FINGERPRINT_PREFIX;
    proof {
        reveal_strlit("fingerprint");
        vstd::string::is_ascii_spec_bytes(text);
        assert(text.spec_bytes() =~= spec_fingerprint_prefix());
    }
    slice_to_vec(text.as_bytes())
}

/// The seeds of a cash link.
pub fn cash_link_seeds(pass_key: &Address) -> (seeds: Vec<Vec<u8>>)
    ensures
        spec_seeds(seeds) == spec_cash_link_seeds(pass_key@),
{
    let mut seeds: Vec<Vec<u8>> = Vec::new();
    seeds.push(cash_link_prefix());
    seeds.push(pass_key.to_vec());
    assert(spec_seeds(seeds) =~= spec_cash_link_seeds(pass_key@));
    seeds
}

/// The seeds of a redemption marker.
pub fn redemption_seeds(cash_link: &Address, wallet: &Address) -> (seeds: Vec<Vec<u8>>)
    ensures
        spec_seeds(seeds) == spec_redemption_seeds(cash_link@, wallet@),
{
    let mut seeds: Vec<Vec<u8>> = Vec::new();
    seeds.push(redemption_prefix());
    seeds.push(cash_link.to_vec());
    seeds.push(wallet.to_vec());
    assert(spec_seeds(seeds) =~= spec_redemption_seeds(cash_link@, wallet@));
    seeds
}

/// The seeds of a fingerprint marker.
pub fn fingerprint_seeds(cash_link: &Address, fingerprint: &[u8]) -> (seeds: Vec<Vec<u8>>)
    ensures
        spec_seeds(seeds) == spec_fingerprint_seeds(cash_link@, fingerprint@),
{
    let mut seeds: Vec<Vec<u8>> = Vec::new();
    seeds.push(fingerprint_prefix());
    seeds.push(cash_link.to_vec());
    seeds.push(slice_to_vec(fingerprint));
    assert(spec_seeds(seeds) =~= spec_fingerprint_seeds(cash_link@, fingerprint@));
    seeds
}

/// Puts a bump seed behind the seeds.
pub fn with_bump(seeds: Vec<Vec<u8>>, bump: u8) -> (signer_seeds: Vec<Vec<u8>>)
    ensures
        spec_seeds(signer_seeds) == spec_with_bump(spec_seeds(seeds), bump),
{
    let mut signer_seeds = seeds;
    let mut last: Vec<u8> = Vec::new();
    last.push(bump);
    assert(last@ =~= seq![bump]);
    signer_seeds.push(last);
    assert(spec_seeds(signer_seeds) =~= spec_with_bump(spec_seeds(seeds), bump));
    signer_seeds
}

} // verus!
