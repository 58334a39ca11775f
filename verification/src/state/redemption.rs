//! The marker of a redemption.

use vstd::prelude::*;
use vstd::bytes::{lemma_auto_spec_u64_to_from_le_bytes, spec_u64_to_le_bytes};
use crate::address::Address;
use crate::codec::{
    lemma_address_of_view,
    lemma_front,
    lemma_split,
    overwrite,
    read_address,
    read_u64,
    spec_address_at,
    spec_u64_at,
    write_address,
    write_u64,
};
use crate::error::ProcessError;
use crate::state::AccountType;

verus! {

/// Size in bytes of the account that holds the marker of a redemption.
pub const REDEMPTION_SIZE: usize = 81;

/// The marker that a wallet has redeemed from a cash link. Its account's
/// address is derived from the two, so that it exists at most once.
#[derive(Clone, Copy, Debug, PartialEq)]
pub struct Redemption {
    pub account_type: AccountType,
    pub cash_link: Address,
    pub wallet: Address,
    pub redeemed_at: u64,
    pub amount: u64,
}

impl Default for Redemption {
    fn default() -> (marker: Redemption)
        ensures
            marker.account_type == AccountType::Uninitialized,
            marker.redeemed_at == 0,
            marker.amount == 0,
            marker.cash_link@ == Seq::new(32, |i: int| 0u8),
            marker.wallet@ == Seq::new(32, |i: int| 0u8),
    {
        Redemption {
            account_type: AccountType::Uninitialized,
            cash_link: Address::default(),
            wallet: Address::default(),
            redeemed_at: 0,
            amount: 0,
        }
    }
}

impl Redemption {
    /// First seed of the address of a redemption marker.
    pub const PREFIX: &'static str = "redeem";
}

impl Redemption {
    /// Size in bytes of the account that holds the marker.
    pub const LEN: usize = REDEMPTION_SIZE;

    /// The layout of the marker: its fields in their order, 81 bytes.
    pub open spec fn spec_pack(&self) -> Seq<u8> {
        seq![self.account_type.spec_tag()] + self.cash_link@ + self.wallet@ + spec_u64_to_le_bytes(
            self.redeemed_at,
        ) + spec_u64_to_le_bytes(self.amount)
    }

    /// The marker that stands in data of at least 81 bytes; `None` where the
    /// first byte stands for no kind of record.
    pub open spec fn spec_unpack(data: Seq<u8>) -> Option<Redemption> {
        match AccountType::spec_from_tag(data[0]) {
            None => None,
            Some(account_type) => Some(
                Redemption {
                    account_type,
                    cash_link: spec_address_at(data, 1),
                    wallet: spec_address_at(data, 33),
                    redeemed_at: spec_u64_at(data, 65),
                    amount: spec_u64_at(data, 73),
                },
            ),
        }
    }

    /// What reading the marker of an account gives: the marker, or the error
    /// of data of another length, or of bytes that do not decode.
    pub open spec fn spec_unpack_account(data: Seq<u8>) -> Result<Redemption, ProcessError> {
        if data.len() != 81 {
            Err(ProcessError::InvalidAccountData)
        } else {
            match Redemption::spec_unpack(data) {
                Some(marker) => Ok(marker),
                None => Err(ProcessError::BorshIoError),
            }
        }
    }

    /// The length of the marker's layout.
    pub fn get_packed_len() -> (len: usize)
        ensures
            len == 81,
    {
        Redemption::LEN
    }

    /// The layout of the marker.
    pub fn to_vec(&self) -> (bytes: Vec<u8>)
        ensures
            bytes@ == self.spec_pack(),
            bytes@.len() == 81,
    {
        let mut out: Vec<u8> = Vec::new();
        out.push(self.account_type.tag());
        write_address(&mut out, &self.cash_link);
        write_address(&mut out, &self.wallet);
        write_u64(&mut out, self.redeemed_at);
        write_u64(&mut out, self.amount);
        proof {
            lemma_redemption_pack_len(*self);
            assert(out@ =~= self.spec_pack());
        }
        out
    }

    /// Writes the marker over the front of a buffer. The buffer must have
    /// room for it; what follows the marker in it stays.
    pub fn pack_into_slice(&self, dst: &mut [u8])
        requires
            81 <= old(dst)@.len(),
        ensures
            final(dst)@ == self.spec_pack() + old(dst)@.skip(81),
    {
        let bytes = self.to_vec();
        overwrite(dst, bytes.as_slice());
    }

    /// Writes the marker into the data of its account. Fails, and writes
    /// nothing, where the data is not 81 bytes long.
    pub fn pack(src: Redemption, dst: &mut [u8]) -> (r: Result<(), ProcessError>)
        ensures
            old(dst)@.len() == 81 ==> r is Ok && final(dst)@ == src.spec_pack(),
            old(dst)@.len() != 81 ==> r == Err::<(), ProcessError>(
                ProcessError::InvalidAccountData,
            ) && final(dst)@ == old(dst)@,
    {
        if dst.len() != Redemption::LEN {
            return Err(ProcessError::InvalidAccountData);
        }
        src.pack_into_slice(dst);
        proof {
            lemma_redemption_pack_len(src);
            assert(dst@ =~= src.spec_pack());
        }
        Ok(())
    }

    /// Reads the marker from the data of its account: from 81 bytes.
    pub fn unpack_from_slice(src: &[u8]) -> (r: Result<Redemption, ProcessError>)
        ensures
            r == Redemption::spec_unpack_account(src@),
    {
        if src.len() != Redemption::LEN {
            return Err(ProcessError::InvalidAccountData);
        }
        let account_type = match AccountType::from_tag(src[0]) {
            Some(kind) => kind,
            None => { return Err(ProcessError::BorshIoError); },
        };
        let cash_link = read_address(src, 1);
        let wallet = read_address(src, 33);
        let redeemed_at = read_u64(src, 65);
        let amount = read_u64(src, 73);
        Ok(Redemption { account_type, cash_link, wallet, redeemed_at, amount })
    }

    /// Reads the marker from the data of its account.
    pub fn unpack_unchecked(input: &[u8]) -> (r: Result<Redemption, ProcessError>)
        ensures
            r == Redemption::spec_unpack_account(input@),
    {
        if input.len() != Redemption::LEN {
            return Err(ProcessError::InvalidAccountData);
        }
        Redemption::unpack_from_slice(input)
    }
}

/// The layout of a marker is 81 bytes long.
pub proof fn lemma_redemption_pack_len(marker: Redemption)
    ensures
        marker.spec_pack().len() == 81,
{
    lemma_auto_spec_u64_to_from_le_bytes();
    lemma_address_of_view(marker.cash_link);
    lemma_address_of_view(marker.wallet);
}

/// Reading gives back what was written: a marker stands at the front of any
/// data that starts with its layout.
pub proof fn lemma_redemption_unpack_pack(marker: Redemption, rest: Seq<u8>)
    ensures
        Redemption::spec_unpack(marker.spec_pack() + rest) == Some(marker),
        Redemption::spec_unpack_account(marker.spec_pack()) == Ok::<Redemption, ProcessError>(
            marker,
        ),
{
    lemma_auto_spec_u64_to_from_le_bytes();
    lemma_redemption_pack_len(marker);
    lemma_address_of_view(marker.cash_link);
    lemma_address_of_view(marker.wallet);
    let h0 = seq![marker.account_type.spec_tag()];
    let h1 = h0 + marker.cash_link@;
    let h2 = h1 + marker.wallet@;
    let h3 = h2 + spec_u64_to_le_bytes(marker.redeemed_at);
    assert forall|data: Seq<u8>| marker.spec_pack().is_prefix_of(data) implies
        Redemption::spec_unpack(data) == Some(marker) by {
        lemma_split(h3, spec_u64_to_le_bytes(marker.amount), data);
        lemma_split(h2, spec_u64_to_le_bytes(marker.redeemed_at), data);
        lemma_split(h1, marker.wallet@, data);
        lemma_split(h0, marker.cash_link@, data);
        lemma_split(Seq::<u8>::empty(), h0, data);
        assert(Seq::<u8>::empty() + h0 =~= h0);
    }
    lemma_front(marker.spec_pack(), rest);
    lemma_front(marker.spec_pack(), Seq::<u8>::empty());
    assert(marker.spec_pack() + Seq::<u8>::empty() =~= marker.spec_pack());
}

} // verus!
