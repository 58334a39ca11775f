//! The cash link record and the questions that the handlers ask of it.

use vstd::prelude::*;
use vstd::bytes::{
    lemma_auto_spec_u16_to_from_le_bytes,
    lemma_auto_spec_u64_to_from_le_bytes,
    spec_u16_to_le_bytes,
    spec_u64_to_le_bytes,
};
use crate::address::Address;
use crate::codec::{
    lemma_address_of_view,
    lemma_address_of,
    lemma_front,
    lemma_join,
    lemma_split,
    overwrite,
    read_address,
    read_u16,
    read_u64,
    spec_address_at,
    spec_bool_bytes,
    spec_option_address_bytes,
    spec_option_u64_bytes,
    spec_u16_at,
    spec_u64_at,
    write_address,
    write_bool,
    write_option_address,
    write_option_u64,
    write_u16,
    write_u64,
};
use crate::error::{CashError, ProcessError};
use crate::state::{AccountType, IsInitialized};

verus! {

/// Size in bytes of the account that holds a cash link.
pub const CASH_LINK_DATA_SIZE: usize = 196;

/// Where a cash link stands in its life.
#[derive(Clone, Copy, Debug, PartialEq, Eq, Structural)]
pub enum CashLinkState {
    /// Funded; nothing redeemed yet.
    Initialized,
    /// Completed: no further redemption is possible.
    Redeemed,
    /// Partly redeemed.
    Redeeming,
    /// Cancelled after its deadline.
    Expired,
}

impl Default for CashLinkState {
    fn default() -> (state: CashLinkState)
        ensures
            state == CashLinkState::Initialized,
    {
        CashLinkState::Initialized
    }
}

/// How the principal is split among the redemptions.
#[derive(Clone, Copy, Debug, PartialEq, Eq, Structural)]
pub enum DistributionType {
    /// Every redemption pays the same share.
    Fixed,
    /// Every redemption but the last pays a share drawn at random.
    Random,
}

impl Default for DistributionType {
    fn default() -> (distribution: DistributionType)
        ensures
            distribution == DistributionType::Fixed,
    {
        DistributionType::Fixed
    }
}

/// The state of one cash link.
#[derive(Clone, Copy, Debug, PartialEq)]
pub struct CashLink {
    pub account_type: AccountType,
    /// Who may start redemptions, cancel and close.
    pub authority: Address,
    pub state: CashLinkState,
    /// The principal, fees excluded. Fixed at creation.
    pub amount: u64,
    pub fee_bps: u16,
    pub fixed_fee: u64,
    pub fee_to_redeem: u64,
    /// What of the principal has not been redeemed.
    pub remaining_amount: u64,
    pub distribution_type: DistributionType,
    /// Who funded the link and receives what is left of it.
    pub owner: Address,
    pub last_redeemed_at: Option<u64>,
    pub expires_at: u64,
    /// The token that the link is funded with; `None` for native funding.
    pub mint: Option<Address>,
    pub total_redemptions: u16,
    pub max_num_redemptions: u16,
    pub min_amount: u64,
    pub fingerprint_enabled: bool,
    /// The bearer key: whoever signs with it may redeem.
    pub pass_key: Address,
}

impl Default for CashLink {
    fn default() -> (link: CashLink)
        ensures
            link.account_type == AccountType::Uninitialized,
            link.state == CashLinkState::Initialized,
            link.distribution_type == DistributionType::Fixed,
            link.amount == 0,
            link.fee_bps == 0,
            link.fixed_fee == 0,
            link.fee_to_redeem == 0,
            link.remaining_amount == 0,
            link.last_redeemed_at is None,
            link.expires_at == 0,
            link.mint is None,
            link.total_redemptions == 0,
            link.max_num_redemptions == 0,
            link.min_amount == 0,
            !link.fingerprint_enabled,
            link.authority@ == Seq::new(32, |i: int| 0u8),
            link.owner@ == Seq::new(32, |i: int| 0u8),
            link.pass_key@ == Seq::new(32, |i: int| 0u8),
            link.wf(),
    {
        CashLink {
            account_type: AccountType::Uninitialized,
            authority: Address::default(),
            state: CashLinkState::Initialized,
            amount: 0,
            fee_bps: 0,
            fixed_fee: 0,
            fee_to_redeem: 0,
            remaining_amount: 0,
            distribution_type: DistributionType::Fixed,
            owner: Address::default(),
            last_redeemed_at: None,
            expires_at: 0,
            mint: None,
            total_redemptions: 0,
            max_num_redemptions: 0,
            min_amount: 0,
            fingerprint_enabled: false,
            pass_key: Address::default(),
        }
    }
}

impl CashLink {
    /// First seed of the address of a cash link.
    pub const PREFIX: &'static str = "escrow";

    /// The invariant of a cash link: no more is left than was put in, and no
    /// more redemptions were made than the link allows.
    pub open spec fn wf(&self) -> bool {
        &&& self.remaining_amount <= self.amount
        &&& self.total_redemptions <= self.max_num_redemptions
    }

    /// The redemption slots that are still open.
    pub open spec fn spec_slots_remaining(&self) -> int {
        self.max_num_redemptions - self.total_redemptions
    }

    /// The least amount that must remain for every open slot to receive the
    /// minimum.
    pub open spec fn spec_min_total_required(&self) -> int {
        self.min_amount * self.spec_slots_remaining()
    }

    /// Whether the link is completed: every slot is used, nothing is left, or
    /// too little is left to give each open slot the minimum.
    pub open spec fn spec_is_fully_redeemed(&self) -> bool {
        ||| self.total_redemptions == self.max_num_redemptions
        ||| self.remaining_amount == 0
        ||| self.remaining_amount < self.spec_min_total_required()
    }

    /// Whether the link is completed.
    pub fn redeemed(&self) -> (b: bool)
        ensures
            b == (self.state == CashLinkState::Redeemed),
    {
        self.state == CashLinkState::Redeemed
    }

    /// Whether the link is partly redeemed.
    pub fn redeeming(&self) -> (b: bool)
        ensures
            b == (self.state == CashLinkState::Redeeming),
    {
        self.state == CashLinkState::Redeeming
    }

    /// Whether the link is cancelled.
    pub fn expired(&self) -> (b: bool)
        ensures
            b == (self.state == CashLinkState::Expired),
    {
        self.state == CashLinkState::Expired
    }

    /// Whether the link is funded and not yet redeemed from.
    pub fn initialized(&self) -> (b: bool)
        ensures
            b == (self.state == CashLinkState::Initialized),
    {
        self.state == CashLinkState::Initialized
    }

    /// Whether the link is completed. Fails only on a record that counts more
    /// redemptions than it allows while something is left.
    pub fn is_fully_redeemed(&self) -> (r: Result<bool, CashError>)
        ensures
            self.total_redemptions <= self.max_num_redemptions || self.remaining_amount == 0 ==> r
                == Ok::<bool, CashError>(self.spec_is_fully_redeemed()),
            self.total_redemptions > self.max_num_redemptions && self.remaining_amount != 0 ==> r
                == Err::<bool, CashError>(CashError::Overflow),
    {
        if self.total_redemptions == self.max_num_redemptions || self.remaining_amount == 0 {
            return Ok(true);
        }
        let slots = self.max_num_redemptions_remaining()?;
        assert(self.min_amount * slots <= 0xffff_ffff_ffff_ffff * 0xffff) by (nonlinear_arith)
            requires
                self.min_amount <= 0xffff_ffff_ffff_ffff,
                slots <= 0xffff,
        ;
        let required: u128 = (self.min_amount as u128) * (slots as u128);
        assert(required == self.spec_min_total_required()) by (nonlinear_arith)
            requires
                required == (self.min_amount as int) * (slots as int),
                slots == self.spec_slots_remaining(),
                self.spec_min_total_required() == self.min_amount * self.spec_slots_remaining(),
        ;
        Ok((self.remaining_amount as u128) < required)
    }

    /// The redemption slots that are still open.
    pub fn max_num_redemptions_remaining(&self) -> (r: Result<u16, CashError>)
        ensures
            self.total_redemptions <= self.max_num_redemptions ==> r == Ok::<u16, CashError>(
                (self.max_num_redemptions - self.total_redemptions) as u16,
            ),
            self.total_redemptions > self.max_num_redemptions ==> r == Err::<u16, CashError>(
                CashError::Overflow,
            ),
    {
        match self.max_num_redemptions.checked_sub(self.total_redemptions) {
            Some(slots) => Ok(slots),
            None => Err(CashError::Overflow),
        }
    }

    /// The least amount that must remain for every open slot to receive the
    /// minimum.
    pub fn min_total_required(&self) -> (r: Result<u64, CashError>)
        ensures
            self.total_redemptions <= self.max_num_redemptions && self.spec_min_total_required()
                <= u64::MAX ==> r == Ok::<u64, CashError>(self.spec_min_total_required() as u64),
            self.total_redemptions > self.max_num_redemptions || self.spec_min_total_required()
                > u64::MAX ==> r == Err::<u64, CashError>(CashError::Overflow),
    {
        let slots = self.max_num_redemptions_remaining()?;
        match self.min_amount.checked_mul(slots as u64) {
            Some(required) => Ok(required),
            None => Err(CashError::Overflow),
        }
    }
}

impl CashLinkState {
    /// The index of the variant: the byte that stands for it in a record.
    pub open spec fn spec_tag(self) -> u8 {
        match self {
            CashLinkState::Initialized => 0,
            CashLinkState::Redeemed => 1,
            CashLinkState::Redeeming => 2,
            CashLinkState::Expired => 3,
        }
    }

    /// The variant with the given index, if there is one.
    pub open spec fn spec_from_tag(tag: u8) -> Option<CashLinkState> {
        if tag == 0 {
            Some(CashLinkState::Initialized)
        } else if tag == 1 {
            Some(CashLinkState::Redeemed)
        } else if tag == 2 {
            Some(CashLinkState::Redeeming)
        } else if tag == 3 {
            Some(CashLinkState::Expired)
        } else {
            None
        }
    }

    /// The byte that stands for the state in a record.
    pub fn tag(&self) -> (tag: u8)
        ensures
            tag == self.spec_tag(),
            CashLinkState::spec_from_tag(tag) == Some(*self),
    {
        match self {
            CashLinkState::Initialized => 0,
            CashLinkState::Redeemed => 1,
            CashLinkState::Redeeming => 2,
            CashLinkState::Expired => 3,
        }
    }

    /// Reads the state from the byte that stands for it.
    pub fn from_tag(tag: u8) -> (value: Option<CashLinkState>)
        ensures
            value == CashLinkState::spec_from_tag(tag),
            value matches Some(v) ==> v.spec_tag() == tag,
    {
        if tag == 0 {
            Some(CashLinkState::Initialized)
        } else if tag == 1 {
            Some(CashLinkState::Redeemed)
        } else if tag == 2 {
            Some(CashLinkState::Redeeming)
        } else if tag == 3 {
            Some(CashLinkState::Expired)
        } else {
            None
        }
    }
}

impl DistributionType {
    /// The index of the variant: the byte that stands for it in a record.
    pub open spec fn spec_tag(self) -> u8 {
        match self {
            DistributionType::Fixed => 0,
            DistributionType::Random => 1,
        }
    }

    /// The variant with the given index, if there is one.
    pub open spec fn spec_from_tag(tag: u8) -> Option<DistributionType> {
        if tag == 0 {
            Some(DistributionType::Fixed)
        } else if tag == 1 {
            Some(DistributionType::Random)
        } else {
            None
        }
    }

    /// The byte that stands for the distribution in a record.
    pub fn tag(&self) -> (tag: u8)
        ensures
            tag == self.spec_tag(),
            DistributionType::spec_from_tag(tag) == Some(*self),
    {
        match self {
            DistributionType::Fixed => 0,
            DistributionType::Random => 1,
        }
    }

    /// Reads the distribution from the byte that stands for it.
    pub fn from_tag(tag: u8) -> (value: Option<DistributionType>)
        ensures
            value == DistributionType::spec_from_tag(tag),
            value matches Some(v) ==> v.spec_tag() == tag,
    {
        if tag == 0 {
            Some(DistributionType::Fixed)
        } else if tag == 1 {
            Some(DistributionType::Random)
        } else {
            None
        }
    }
}

impl CashLink {
    /// Size in bytes of the account that holds a cash link.
    pub const LEN: usize = CASH_LINK_DATA_SIZE;

    /// The layout of the record up to and with the owner: 101 bytes.
    pub open spec fn spec_pack_head(&self) -> Seq<u8> {
        seq![self.account_type.spec_tag()] + self.authority@ + seq![self.state.spec_tag()]
            + spec_u64_to_le_bytes(self.amount) + spec_u16_to_le_bytes(self.fee_bps)
            + spec_u64_to_le_bytes(self.fixed_fee) + spec_u64_to_le_bytes(self.fee_to_redeem)
            + spec_u64_to_le_bytes(self.remaining_amount) + seq![
            self.distribution_type.spec_tag(),
        ] + self.owner@
    }

    /// The layout of the record: its fields in their order. It is 156 to 196
    /// bytes long, by what the two optional fields hold.
    pub open spec fn spec_pack(&self) -> Seq<u8> {
        self.spec_pack_head() + spec_option_u64_bytes(self.last_redeemed_at)
            + spec_u64_to_le_bytes(self.expires_at) + spec_option_address_bytes(self.mint)
            + spec_u16_to_le_bytes(self.total_redemptions) + spec_u16_to_le_bytes(
            self.max_num_redemptions,
        ) + spec_u64_to_le_bytes(self.min_amount) + spec_bool_bytes(self.fingerprint_enabled)
            + self.pass_key@
    }

    /// The offset behind the time of the last redemption, which starts at 101.
    pub open spec fn spec_offset_expires_at(data: Seq<u8>) -> int {
        if data[101] == 1 {
            110
        } else {
            102
        }
    }

    /// The offset behind the mint.
    pub open spec fn spec_offset_counters(data: Seq<u8>) -> int {
        let at = CashLink::spec_offset_expires_at(data);
        if data[at + 8] == 1 {
            at + 41
        } else {
            at + 9
        }
    }

    /// The record that stands at the front of the data, which is at least 196
    /// bytes long; `None` where a byte that stands for a variant, a flag or the
    /// presence of a value holds none of their values. What follows the record
    /// in the data is not read.
    pub open spec fn spec_unpack(data: Seq<u8>) -> Option<CashLink> {
        let at = CashLink::spec_offset_expires_at(data);
        let to = CashLink::spec_offset_counters(data);
        if AccountType::spec_from_tag(data[0]) is None || CashLinkState::spec_from_tag(data[33])
            is None || DistributionType::spec_from_tag(data[68]) is None || data[101] > 1
            || data[at + 8] > 1 || data[to + 12] > 1 {
            None
        } else {
            Some(
                CashLink {
                    account_type: AccountType::spec_from_tag(data[0])->0,
                    authority: spec_address_at(data, 1),
                    state: CashLinkState::spec_from_tag(data[33])->0,
                    amount: spec_u64_at(data, 34),
                    fee_bps: spec_u16_at(data, 42),
                    fixed_fee: spec_u64_at(data, 44),
                    fee_to_redeem: spec_u64_at(data, 52),
                    remaining_amount: spec_u64_at(data, 60),
                    distribution_type: DistributionType::spec_from_tag(data[68])->0,
                    owner: spec_address_at(data, 69),
                    last_redeemed_at: if data[101] == 1 {
                        Some(spec_u64_at(data, 102))
                    } else {
                        None
                    },
                    expires_at: spec_u64_at(data, at),
                    mint: if data[at + 8] == 1 {
                        Some(spec_address_at(data, at + 9))
                    } else {
                        None
                    },
                    total_redemptions: spec_u16_at(data, to),
                    max_num_redemptions: spec_u16_at(data, to + 2),
                    min_amount: spec_u64_at(data, to + 4),
                    fingerprint_enabled: data[to + 12] == 1,
                    pass_key: spec_address_at(data, to + 13),
                },
            )
        }
    }

    /// What reading the record of an account gives: the record, or the error
    /// of data of another length, or of bytes that do not decode.
    pub open spec fn spec_unpack_account(data: Seq<u8>) -> Result<CashLink, ProcessError> {
        if data.len() != 196 {
            Err(ProcessError::InvalidAccountData)
        } else {
            match CashLink::spec_unpack(data) {
                Some(link) => Ok(link),
                None => Err(ProcessError::BorshIoError),
            }
        }
    }

    /// The length of the record's layout.
    pub fn get_packed_len() -> (len: usize)
        ensures
            len == 196,
    {
        CashLink::LEN
    }

    /// The layout of the record.
    pub fn to_vec(&self) -> (bytes: Vec<u8>)
        ensures
            bytes@ == self.spec_pack(),
            156 <= bytes@.len() <= 196,
    {
        let mut out: Vec<u8> = Vec::new();
        out.push(self.account_type.tag());
        write_address(&mut out, &self.authority);
        out.push(self.state.tag());
        write_u64(&mut out, self.amount);
        write_u16(&mut out, self.fee_bps);
        write_u64(&mut out, self.fixed_fee);
        write_u64(&mut out, self.fee_to_redeem);
        write_u64(&mut out, self.remaining_amount);
        out.push(self.distribution_type.tag());
        write_address(&mut out, &self.owner);
        assert(out@ =~= self.spec_pack_head());
        write_option_u64(&mut out, self.last_redeemed_at);
        write_u64(&mut out, self.expires_at);
        write_option_address(&mut out, &self.mint);
        write_u16(&mut out, self.total_redemptions);
        write_u16(&mut out, self.max_num_redemptions);
        write_u64(&mut out, self.min_amount);
        write_bool(&mut out, self.fingerprint_enabled);
        write_address(&mut out, &self.pass_key);
        proof {
            lemma_pack_len(*self);
        }
        out
    }

    /// Writes the record over the front of a buffer. The buffer must have room
    /// for the record; what follows the record in it stays.
    pub fn pack_into_slice(&self, dst: &mut [u8])
        requires
            self.spec_pack().len() <= old(dst)@.len(),
        ensures
            final(dst)@ == self.spec_pack() + old(dst)@.skip(self.spec_pack().len() as int),
    {
        let bytes = self.to_vec();
        overwrite(dst, bytes.as_slice());
    }

    /// Writes the record into the data of its account. Fails, and writes
    /// nothing, where the data is not 196 bytes long.
    pub fn pack(src: CashLink, dst: &mut [u8]) -> (r: Result<(), ProcessError>)
        ensures
            old(dst)@.len() == 196 ==> r is Ok && final(dst)@ == src.spec_pack() + old(dst)@.skip(
                src.spec_pack().len() as int,
            ),
            old(dst)@.len() != 196 ==> r == Err::<(), ProcessError>(
                ProcessError::InvalidAccountData,
            ) && final(dst)@ == old(dst)@,
    {
        if dst.len() != CashLink::LEN {
            return Err(ProcessError::InvalidAccountData);
        }
        proof {
            lemma_pack_len(src);
        }
        src.pack_into_slice(dst);
        Ok(())
    }

    /// Reads the record from the data of its account: from 196 bytes.
    pub fn unpack_from_slice(src: &[u8]) -> (r: Result<CashLink, ProcessError>)
        ensures
            r == CashLink::spec_unpack_account(src@),
    {
        if src.len() != CashLink::LEN {
            return Err(ProcessError::InvalidAccountData);
        }
        let account_type = match AccountType::from_tag(src[0]) {
            Some(kind) => kind,
            None => { return Err(ProcessError::BorshIoError); },
        };
        let authority = read_address(src, 1);
        let state = match CashLinkState::from_tag(src[33]) {
            Some(state) => state,
            None => { return Err(ProcessError::BorshIoError); },
        };
        let amount = read_u64(src, 34);
        let fee_bps = read_u16(src, 42);
        let fixed_fee = read_u64(src, 44);
        let fee_to_redeem = read_u64(src, 52);
        let remaining_amount = read_u64(src, 60);
        let distribution_type = match DistributionType::from_tag(src[68]) {
            Some(distribution) => distribution,
            None => { return Err(ProcessError::BorshIoError); },
        };
        let owner = read_address(src, 69);
        let mut at: usize = 102;
        let last_redeemed_at = if src[101] == 0 {
            None
        } else if src[101] == 1 {
            at = 110;
            Some(read_u64(src, 102))
        } else {
            return Err(ProcessError::BorshIoError);
        };
        let expires_at = read_u64(src, at);
        at = at + 8;
        let mint = if src[at] == 0 {
            at = at + 1;
            None
        } else if src[at] == 1 {
            let mint = read_address(src, at + 1);
            at = at + 33;
            Some(mint)
        } else {
            return Err(ProcessError::BorshIoError);
        };
        let total_redemptions = read_u16(src, at);
        let max_num_redemptions = read_u16(src, at + 2);
        let min_amount = read_u64(src, at + 4);
        let fingerprint_enabled = if src[at + 12] == 0 {
            false
        } else if src[at + 12] == 1 {
            true
        } else {
            return Err(ProcessError::BorshIoError);
        };
        let pass_key = read_address(src, at + 13);
        Ok(
            CashLink {
                account_type,
                authority,
                state,
                amount,
                fee_bps,
                fixed_fee,
                fee_to_redeem,
                remaining_amount,
                distribution_type,
                owner,
                last_redeemed_at,
                expires_at,
                mint,
                total_redemptions,
                max_num_redemptions,
                min_amount,
                fingerprint_enabled,
                pass_key,
            },
        )
    }

    /// Reads the record from the data of its account.
    pub fn unpack_unchecked(input: &[u8]) -> (r: Result<CashLink, ProcessError>)
        ensures
            r == CashLink::spec_unpack_account(input@),
    {
        if input.len() != CashLink::LEN {
            return Err(ProcessError::InvalidAccountData);
        }
        CashLink::unpack_from_slice(input)
    }

    /// Reads the record from the data of its account. Every record that
    /// decodes counts as initialized.
    pub fn unpack(input: &[u8]) -> (r: Result<CashLink, ProcessError>)
        ensures
            r == CashLink::spec_unpack_account(input@),
    {
        CashLink::unpack_unchecked(input)
    }
}

/// The layout of a record is 156 to 196 bytes long.
pub proof fn lemma_pack_len(link: CashLink)
    ensures
        link.spec_pack_head().len() == 101,
        156 <= link.spec_pack().len() <= 196,
        link.spec_pack().len() == 146 + spec_option_u64_bytes(link.last_redeemed_at).len() + 8
            + spec_option_address_bytes(link.mint).len(),
{
    lemma_auto_spec_u16_to_from_le_bytes();
    lemma_auto_spec_u64_to_from_le_bytes();
    lemma_address_of_view(link.authority);
    lemma_address_of_view(link.owner);
    lemma_address_of_view(link.pass_key);
    if link.mint is Some {
        lemma_address_of_view(link.mint->0);
    }
}

/// The fields of a record stand in data that starts with the record's
/// layout up to the owner.
proof fn lemma_unpack_head(link: CashLink, data: Seq<u8>)
    requires
        link.spec_pack_head().is_prefix_of(data),
    ensures
        data[0] == link.account_type.spec_tag(),
        spec_address_at(data, 1) == link.authority,
        data[33] == link.state.spec_tag(),
        spec_u64_at(data, 34) == link.amount,
        spec_u16_at(data, 42) == link.fee_bps,
        spec_u64_at(data, 44) == link.fixed_fee,
        spec_u64_at(data, 52) == link.fee_to_redeem,
        spec_u64_at(data, 60) == link.remaining_amount,
        data[68] == link.distribution_type.spec_tag(),
        spec_address_at(data, 69) == link.owner,
{
    lemma_auto_spec_u16_to_from_le_bytes();
    lemma_auto_spec_u64_to_from_le_bytes();
    lemma_address_of_view(link.authority);
    lemma_address_of_view(link.owner);
    let h0 = seq![link.account_type.spec_tag()];
    let h1 = h0 + link.authority@;
    let h2 = h1 + seq![link.state.spec_tag()];
    let h3 = h2 + spec_u64_to_le_bytes(link.amount);
    let h4 = h3 + spec_u16_to_le_bytes(link.fee_bps);
    let h5 = h4 + spec_u64_to_le_bytes(link.fixed_fee);
    let h6 = h5 + spec_u64_to_le_bytes(link.fee_to_redeem);
    let h7 = h6 + spec_u64_to_le_bytes(link.remaining_amount);
    let h8 = h7 + seq![link.distribution_type.spec_tag()];
    lemma_split(h8, link.owner@, data);
    lemma_split(h7, seq![link.distribution_type.spec_tag()], data);
    lemma_split(h6, spec_u64_to_le_bytes(link.remaining_amount), data);
    lemma_split(h5, spec_u64_to_le_bytes(link.fee_to_redeem), data);
    lemma_split(h4, spec_u64_to_le_bytes(link.fixed_fee), data);
    lemma_split(h3, spec_u16_to_le_bytes(link.fee_bps), data);
    lemma_split(h2, spec_u64_to_le_bytes(link.amount), data);
    lemma_split(h1, seq![link.state.spec_tag()], data);
    lemma_split(h0, link.authority@, data);
    lemma_split(Seq::<u8>::empty(), h0, data);
    assert(Seq::<u8>::empty() + h0 =~= h0);
}

/// Reading gives back what was written: a record stands at the front of any
/// data that starts with its layout.
pub proof fn lemma_unpack_pack(link: CashLink, rest: Seq<u8>)
    ensures
        CashLink::spec_unpack(link.spec_pack() + rest) == Some(link),
{
    lemma_auto_spec_u16_to_from_le_bytes();
    lemma_auto_spec_u64_to_from_le_bytes();
    lemma_pack_len(link);
    lemma_address_of_view(link.pass_key);
    let data = link.spec_pack() + rest;
    let head = link.spec_pack_head();
    let last = spec_option_u64_bytes(link.last_redeemed_at);
    let mint = spec_option_address_bytes(link.mint);
    let q1 = head + last;
    let q2 = q1 + spec_u64_to_le_bytes(link.expires_at);
    let q3 = q2 + mint;
    let q4 = q3 + spec_u16_to_le_bytes(link.total_redemptions);
    let q5 = q4 + spec_u16_to_le_bytes(link.max_num_redemptions);
    let q6 = q5 + spec_u64_to_le_bytes(link.min_amount);
    let q7 = q6 + spec_bool_bytes(link.fingerprint_enabled);
    lemma_front(link.spec_pack(), rest);
    lemma_split(q7, link.pass_key@, data);
    lemma_split(q6, spec_bool_bytes(link.fingerprint_enabled), data);
    lemma_split(q5, spec_u64_to_le_bytes(link.min_amount), data);
    lemma_split(q4, spec_u16_to_le_bytes(link.max_num_redemptions), data);
    lemma_split(q3, spec_u16_to_le_bytes(link.total_redemptions), data);
    lemma_split(q2, mint, data);
    lemma_split(q1, spec_u64_to_le_bytes(link.expires_at), data);
    lemma_split(head, last, data);
    lemma_unpack_head(link, data);
    assert(data[101] == last[0]);
    if link.last_redeemed_at is Some {
        let value = spec_u64_to_le_bytes(link.last_redeemed_at->0);
        assert(last.subrange(1, 9) =~= value);
        assert(data.subrange(102, 110) =~= data.subrange(101, 110).subrange(1, 9));
    }
    let at = CashLink::spec_offset_expires_at(data);
    assert(q1.len() == at);
    assert(data[at + 8] == mint[0]);
    if link.mint is Some {
        lemma_address_of_view(link.mint->0);
        assert(mint.subrange(1, 33) =~= (link.mint->0)@);
        assert(data.subrange(at + 9, at + 41) =~= data.subrange(at + 8, at + 41).subrange(1, 33));
    }
    let to = CashLink::spec_offset_counters(data);
    assert(q3.len() == to);
}

/// What `pack` has written into the data of an account, `unpack` reads back.
pub proof fn lemma_pack_then_unpack(link: CashLink, before: Seq<u8>)
    requires
        before.len() == 196,
    ensures
        CashLink::spec_unpack_account(
            link.spec_pack() + before.skip(link.spec_pack().len() as int),
        ) == Ok::<CashLink, ProcessError>(link),
{
    lemma_pack_len(link);
    lemma_unpack_pack(link, before.skip(link.spec_pack().len() as int));
}

impl IsInitialized for CashLink {
    /// Every state counts: a cash link that was read is initialized.
    open spec fn spec_initialized(&self) -> bool {
        true
    }

    fn is_initialized(&self) -> (b: bool) {
        self.initialized() || self.redeeming() || self.redeemed() || self.expired()
    }
}

/// Writing gives back what was read: the record that stands at the front of
/// data of at least 196 bytes has the layout that the data starts with.
pub proof fn lemma_pack_unpack(data: Seq<u8>)
    requires
        data.len() >= 196,
        CashLink::spec_unpack(data) is Some,
    ensures
        (CashLink::spec_unpack(data)->0).spec_pack().is_prefix_of(data),
{
    lemma_auto_spec_u16_to_from_le_bytes();
    lemma_auto_spec_u64_to_from_le_bytes();
    let link = CashLink::spec_unpack(data)->0;
    let at = CashLink::spec_offset_expires_at(data);
    let to = CashLink::spec_offset_counters(data);
    lemma_address_of(data.subrange(1, 33));
    lemma_address_of(data.subrange(69, 101));
    lemma_address_of(data.subrange(to + 13, to + 45));
    // up to the owner
    let h0 = seq![link.account_type.spec_tag()];
    assert(h0 =~= data.subrange(0, 1));
    lemma_join(data, 1, 33);
    assert(seq![link.state.spec_tag()] =~= data.subrange(33, 34));
    lemma_join(data, 33, 34);
    lemma_join(data, 34, 42);
    lemma_join(data, 42, 44);
    lemma_join(data, 44, 52);
    lemma_join(data, 52, 60);
    lemma_join(data, 60, 68);
    assert(seq![link.distribution_type.spec_tag()] =~= data.subrange(68, 69));
    lemma_join(data, 68, 69);
    lemma_join(data, 69, 101);
    assert(link.spec_pack_head() == data.subrange(0, 101));
    // the time of the last redemption
    let last = spec_option_u64_bytes(link.last_redeemed_at);
    if data[101] == 1 {
        assert(last =~= data.subrange(101, 102) + data.subrange(102, 110));
        assert(data.subrange(101, 102) + data.subrange(102, 110) =~= data.subrange(101, 110));
    } else {
        assert(last =~= data.subrange(101, 102));
    }
    lemma_join(data, 101, at);
    lemma_join(data, at, at + 8);
    // the mint
    let mint = spec_option_address_bytes(link.mint);
    if data[at + 8] == 1 {
        lemma_address_of(data.subrange(at + 9, at + 41));
        assert(mint =~= data.subrange(at + 8, at + 9) + data.subrange(at + 9, at + 41));
        assert(data.subrange(at + 8, at + 9) + data.subrange(at + 9, at + 41) =~= data.subrange(
            at + 8,
            at + 41,
        ));
    } else {
        assert(mint =~= data.subrange(at + 8, at + 9));
    }
    lemma_join(data, at + 8, to);
    // the counters and what follows them
    lemma_join(data, to, to + 2);
    lemma_join(data, to + 2, to + 4);
    lemma_join(data, to + 4, to + 12);
    assert(spec_bool_bytes(link.fingerprint_enabled) =~= data.subrange(to + 12, to + 13));
    lemma_join(data, to + 12, to + 13);
    lemma_join(data, to + 13, to + 45);
    assert(link.spec_pack() == data.subrange(0, to + 45));
}

} // verus!
