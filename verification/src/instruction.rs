//! The instructions of the program and their arguments.

use vstd::prelude::*;
use vstd::bytes::{spec_u16_to_le_bytes, spec_u64_to_le_bytes};
use crate::address::Address;
use crate::codec::{
    lemma_address_of_view,
    spec_address_of,
    spec_option_bool_bytes,
    spec_option_string_bytes,
    spec_option_u64_bytes,
    spec_option_u8_bytes,
    write_option_bool,
    write_option_string,
    write_option_u64,
    write_option_u8,
    write_u16,
    write_u64,
};
use crate::solana::{
    associated_token_program_id,
    clock_id,
    rent_id,
    slot_hashes_id,
    spec_associated_token_program_id,
    spec_clock_id,
    spec_rent_id,
    spec_slot_hashes_id,
    spec_system_program_id,
    spec_token_program_id,
    system_program_id,
    token_program_id,
};
use crate::state::cashlink::DistributionType;
use crate::token::{get_associated_token_address, spec_associated_token_address};

verus! {

/// What the creation of a cash link is asked with.
#[derive(PartialEq, Eq, Debug, Clone, Copy)]
pub struct InitCashLinkArgs {
    /// The principal to distribute, fees excluded.
    pub amount: u64,
    pub fee_bps: u16,
    pub fixed_fee: u64,
    pub fee_to_redeem: u64,
    pub cash_link_bump: u8,
    pub distribution_type: DistributionType,
    pub max_num_redemptions: u16,
    pub min_amount: Option<u64>,
    pub fingerprint_enabled: Option<bool>,
    pub num_days_to_expire: u8,
}

/// What a redemption is asked with.
#[derive(PartialEq, Eq, Debug, Clone)]
pub struct InitCashRedemptionArgs {
    pub redemption_bump: u8,
    pub cash_link_bump: u8,
    /// The redeemer's fingerprint, in base 58.
    pub fingerprint: Option<String>,
    pub fingerprint_bump: Option<u8>,
}

/// What a cancellation is asked with.
#[derive(PartialEq, Eq, Debug, Clone, Copy)]
pub struct CancelCashRedemptionArgs {
    pub cash_link_bump: u8,
}

/// An instruction of the program.
#[derive(PartialEq, Eq, Debug, Clone)]
pub enum CashInstruction {
    /// Creates a cash link and funds it.
    InitCashLink(InitCashLinkArgs),
    /// Pays one share of a cash link to a wallet.
    Redeem(InitCashRedemptionArgs),
    /// Returns what is left of a cash link to its owner, once the deadline
    /// has passed.
    Cancel(CancelCashRedemptionArgs),
    /// Reclaims the balance of a cancelled cash link that nobody redeemed from.
    Close,
}

impl InitCashLinkArgs {
    /// The layout of the arguments: the fields in their order.
    pub open spec fn spec_bytes(&self) -> Seq<u8> {
        spec_u64_to_le_bytes(self.amount) + spec_u16_to_le_bytes(self.fee_bps)
            + spec_u64_to_le_bytes(self.fixed_fee) + spec_u64_to_le_bytes(self.fee_to_redeem)
            + seq![self.cash_link_bump, self.distribution_type.spec_tag()] + spec_u16_to_le_bytes(
            self.max_num_redemptions,
        ) + spec_option_u64_bytes(self.min_amount) + spec_option_bool_bytes(
            self.fingerprint_enabled,
        ) + seq![self.num_days_to_expire]
    }
}

impl InitCashRedemptionArgs {
    /// The layout of the arguments: the fields in their order.
    pub open spec fn spec_bytes(&self) -> Seq<u8> {
        seq![self.redemption_bump, self.cash_link_bump] + spec_option_string_bytes(
            self.fingerprint,
        ) + spec_option_u8_bytes(self.fingerprint_bump)
    }

    /// Whether the arguments can be laid out: the fingerprint must be
    /// shorter than 4 GiB.
    pub open spec fn spec_fits(&self) -> bool {
        self.fingerprint matches Some(text) ==> vstd::utf8::encode_utf8(text@).len() <= u32::MAX
    }
}

impl CashInstruction {
    /// The layout of the instruction: the index of its variant and the
    /// layout of its arguments.
    pub open spec fn spec_bytes(&self) -> Seq<u8> {
        match self {
            CashInstruction::InitCashLink(args) => seq![0u8] + args.spec_bytes(),
            CashInstruction::Redeem(args) => seq![1u8] + args.spec_bytes(),
            CashInstruction::Cancel(args) => seq![2u8, args.cash_link_bump],
            CashInstruction::Close => seq![3u8],
        }
    }

    /// Whether the instruction can be laid out.
    pub open spec fn spec_fits(&self) -> bool {
        self matches CashInstruction::Redeem(args) ==> args.spec_fits()
    }

    /// The data of the instruction in its layout.
    pub fn to_vec(&self) -> (data: Vec<u8>)
        requires
            self.spec_fits(),
        ensures
            data@ == self.spec_bytes(),
    {
        let mut out: Vec<u8> = Vec::new();
        match self {
            CashInstruction::InitCashLink(args) => {
                out.push(0);
                write_u64(&mut out, args.amount);
                write_u16(&mut out, args.fee_bps);
                write_u64(&mut out, args.fixed_fee);
                write_u64(&mut out, args.fee_to_redeem);
                out.push(args.cash_link_bump);
                out.push(args.distribution_type.tag());
                write_u16(&mut out, args.max_num_redemptions);
                write_option_u64(&mut out, args.min_amount);
                write_option_bool(&mut out, args.fingerprint_enabled);
                out.push(args.num_days_to_expire);
                assert(out@ =~= self.spec_bytes());
            },
            CashInstruction::Redeem(args) => {
                out.push(1);
                out.push(args.redemption_bump);
                out.push(args.cash_link_bump);
                write_option_string(&mut out, &args.fingerprint);
                write_option_u8(&mut out, args.fingerprint_bump);
                assert(out@ =~= self.spec_bytes());
            },
            CashInstruction::Cancel(args) => {
                out.push(2);
                out.push(args.cash_link_bump);
                assert(out@ =~= self.spec_bytes());
            },
            CashInstruction::Close => {
                out.push(3);
                assert(out@ =~= self.spec_bytes());
            },
        }
        out
    }
}

/// An account that an instruction names, and how it takes part.
#[derive(Debug, Clone, Copy, PartialEq, Eq)]
pub struct AccountMeta {
    pub pubkey: Address,
    /// Whether the account must sign the transaction.
    pub is_signer: bool,
    /// Whether the instruction may change the account.
    pub is_writable: bool,
}

impl AccountMeta {
    /// An account that the instruction may change.
    pub fn new(pubkey: Address, is_signer: bool) -> (meta: AccountMeta)
        ensures
            meta == (AccountMeta { pubkey, is_signer, is_writable: true }),
    {
        AccountMeta { pubkey, is_signer, is_writable: true }
    }

    /// An account that the instruction only reads.
    pub fn new_readonly(pubkey: Address, is_signer: bool) -> (meta: AccountMeta)
        ensures
            meta == (AccountMeta { pubkey, is_signer, is_writable: false }),
    {
        AccountMeta { pubkey, is_signer, is_writable: false }
    }
}

/// An account that the instruction may change, as a value of specifications.
pub open spec fn spec_writable(pubkey: Address, is_signer: bool) -> AccountMeta {
    AccountMeta { pubkey, is_signer, is_writable: true }
}

/// An account that the instruction only reads, as a value of specifications.
pub open spec fn spec_readonly(pubkey: Address, is_signer: bool) -> AccountMeta {
    AccountMeta { pubkey, is_signer, is_writable: false }
}

/// An instruction as it is sent to the program.
#[derive(Debug, Clone, PartialEq, Eq)]
pub struct Instruction {
    /// The program that executes the instruction.
    pub program_id: Address,
    /// The accounts that the instruction names, in their order.
    pub accounts: Vec<AccountMeta>,
    /// The instruction and its arguments in their layout.
    pub data: Vec<u8>,
}

/// The address of a well-known program or sysvar with the given bytes.
pub open spec fn spec_known(id: Seq<u8>) -> Address {
    spec_address_of(id)
}

/// The accounts of a creation: the authority, the owner, the fee payer, the
/// cash link, the pass key, the rent, the system program and the clock; for
/// token funding the mint, the vault, the owner's token account, the
/// associated token account program and the token program follow. The
/// owner's account is changed only where the funding is native.
pub open spec fn spec_init_metas(
    authority: Address,
    owner: Address,
    fee_payer: Address,
    cash_link_pda: Address,
    pass_key: Address,
    token: Option<(Address, Address, Address)>,
) -> Seq<AccountMeta> {
    seq![
        spec_readonly(authority, true),
        AccountMeta { pubkey: owner, is_signer: true, is_writable: token is None },
        spec_writable(fee_payer, true),
        spec_writable(cash_link_pda, false),
        spec_readonly(pass_key, false),
        spec_readonly(spec_known(spec_rent_id()), false),
        spec_readonly(spec_known(spec_system_program_id()), false),
        spec_readonly(spec_known(spec_clock_id()), false),
    ] + (match token {
        Some((mint, vault, owner_token)) => seq![
            spec_readonly(mint, false),
            spec_writable(vault, false),
            spec_writable(owner_token, false),
            spec_readonly(spec_known(spec_associated_token_program_id()), false),
            spec_writable(spec_known(spec_token_program_id()), false),
        ],
        None => Seq::empty(),
    })
}

/// The mint of a token-funded creation with the vault and the owner's token
/// account: the associated token accounts of the cash link and of the owner
/// for the mint. `None` for native funding, and where one of the two has no
/// address.
pub open spec fn spec_init_token(cash_link_pda: Address, owner: Address, mint: Option<Address>)
    -> Option<(Address, Address, Address)> {
    match mint {
        None => None,
        Some(key) => match (
            spec_associated_token_address(cash_link_pda@, key@),
            spec_associated_token_address(owner@, key@),
        ) {
            (Some(vault), Some(owner_token)) => Some(
                (key, spec_address_of(vault), spec_address_of(owner_token)),
            ),
            _ => None,
        },
    }
}

/// The instruction that creates a cash link. For token funding the vault and
/// the owner's token account are the associated token accounts of the cash
/// link and of the owner for the mint; `None` where one of them has no
/// address.
pub fn init_cash_link(
    program_id: &Address,
    authority: &Address,
    owner: &Address,
    fee_payer: &Address,
    cash_link_pda: &Address,
    pass_key: &Address,
    mint: Option<&Address>,
    args: InitCashLinkArgs,
) -> (r: Option<Instruction>)
    ensures
        r is Some <==> (mint is Some ==> spec_init_token(
            *cash_link_pda,
            *owner,
            spec_deref(mint),
        ) is Some),
        r matches Some(ix) ==> {
            &&& ix.program_id == *program_id
            &&& ix.data@ == CashInstruction::InitCashLink(args).spec_bytes()
            &&& ix.accounts@ == spec_init_metas(
                *authority,
                *owner,
                *fee_payer,
                *cash_link_pda,
                *pass_key,
                spec_init_token(*cash_link_pda, *owner, spec_deref(mint)),
            )
        },
{
    let owner_key = if mint.is_some() {
        AccountMeta::new_readonly(*owner, true)
    } else {
        AccountMeta::new(*owner, true)
    };
    let rent = known(rent_id());
    let system_program = known(system_program_id());
    let clock = known(clock_id());
    let mut accounts: Vec<AccountMeta> = Vec::new();
    accounts.push(AccountMeta::new_readonly(*authority, true));
    accounts.push(owner_key);
    accounts.push(AccountMeta::new(*fee_payer, true));
    accounts.push(AccountMeta::new(*cash_link_pda, false));
    accounts.push(AccountMeta::new_readonly(*pass_key, false));
    accounts.push(AccountMeta::new_readonly(rent, false));
    accounts.push(AccountMeta::new_readonly(system_program, false));
    accounts.push(AccountMeta::new_readonly(clock, false));
    if let Some(key) = mint {
        let associated_token_account = match get_associated_token_address(cash_link_pda, key) {
            Some(address) => known(address),
            None => { return None; },
        };
        let owner_token_account = match get_associated_token_address(owner, key) {
            Some(address) => known(address),
            None => { return None; },
        };
        accounts.push(AccountMeta::new_readonly(*key, false));
        accounts.push(AccountMeta::new(associated_token_account, false));
        accounts.push(AccountMeta::new(owner_token_account, false));
        accounts.push(AccountMeta::new_readonly(known(associated_token_program_id()), false));
        accounts.push(AccountMeta::new(known(token_program_id()), false));
    }
    assert(accounts@ =~= spec_init_metas(
        *authority,
        *owner,
        *fee_payer,
        *cash_link_pda,
        *pass_key,
        spec_init_token(*cash_link_pda, *owner, spec_deref(mint)),
    ));
    let data = CashInstruction::InitCashLink(args).to_vec();
    Some(Instruction { program_id: *program_id, accounts, data })
}

/// The address that an optional reference names.
pub open spec fn spec_deref(key: Option<&Address>) -> Option<Address> {
    match key {
        Some(key) => Some(*key),
        None => None,
    }
}

/// An address is the address of its bytes.
fn known(address: Address) -> (same: Address)
    ensures
        same == address,
        same == spec_known(address@),
{
    proof {
        lemma_address_of_view(address);
    }
    address
}

/// The accounts of a cancellation: the authority, the cash link, the pass
/// key, the owner's account for the refund, the fee payer, the clock and the
/// rent; the vault, where there is one; the token program and the system
/// program.
pub open spec fn spec_cancel_metas(
    authority: Address,
    cash_link: Address,
    pass_key: Address,
    owner_token: Address,
    vault_token: Option<Address>,
    fee_payer: Address,
) -> Seq<AccountMeta> {
    seq![
        spec_readonly(authority, true),
        spec_writable(cash_link, false),
        spec_readonly(pass_key, false),
        spec_writable(owner_token, false),
        spec_writable(fee_payer, false),
        spec_readonly(spec_known(spec_clock_id()), false),
        spec_readonly(spec_known(spec_rent_id()), false),
    ] + (match vault_token {
        Some(key) => seq![spec_writable(key, false)],
        None => Seq::empty(),
    }) + seq![
        spec_readonly(spec_known(spec_token_program_id()), false),
        spec_readonly(spec_known(spec_system_program_id()), false),
    ]
}

/// The instruction that cancels a cash link.
pub fn cancel_cash_link(
    program_id: &Address,
    authority: &Address,
    cash_link: &Address,
    pass_key: &Address,
    owner_token: &Address,
    vault_token: Option<&Address>,
    fee_payer: &Address,
    args: CancelCashRedemptionArgs,
) -> (ix: Instruction)
    ensures
        ix.program_id == *program_id,
        ix.data@ == CashInstruction::Cancel(args).spec_bytes(),
        ix.accounts@ == spec_cancel_metas(
            *authority,
            *cash_link,
            *pass_key,
            *owner_token,
            spec_deref(vault_token),
            *fee_payer,
        ),
{
    let mut accounts: Vec<AccountMeta> = Vec::new();
    accounts.push(AccountMeta::new_readonly(*authority, true));
    accounts.push(AccountMeta::new(*cash_link, false));
    accounts.push(AccountMeta::new_readonly(*pass_key, false));
    accounts.push(AccountMeta::new(*owner_token, false));
    accounts.push(AccountMeta::new(*fee_payer, false));
    accounts.push(AccountMeta::new_readonly(known(clock_id()), false));
    accounts.push(AccountMeta::new_readonly(known(rent_id()), false));
    if let Some(key) = vault_token {
        accounts.push(AccountMeta::new(*key, false));
    }
    accounts.push(AccountMeta::new_readonly(known(token_program_id()), false));
    accounts.push(AccountMeta::new_readonly(known(system_program_id()), false));
    assert(accounts@ =~= spec_cancel_metas(
        *authority,
        *cash_link,
        *pass_key,
        *owner_token,
        spec_deref(vault_token),
        *fee_payer,
    ));
    let data = CashInstruction::Cancel(args).to_vec();
    Instruction { program_id: *program_id, accounts, data }
}

/// The accounts of a redemption: the authority and the wallet, which sign,
/// the fee collector, the cash link, the pass key, the redemption marker, the
/// owner's account, the fee payer, the clock, the rent and the recent slot
/// hashes; for a token-funded link the wallet's token account and the vault;
/// the system program; the fingerprint marker, where there is one; the token
/// program.
pub open spec fn spec_redeem_metas(
    authority: Address,
    wallet: Address,
    wallet_token: Address,
    collection_fee_token: Address,
    vault_token: Option<Address>,
    cash_link: Address,
    pass_key: Address,
    redemption_pda: Address,
    owner_token: Address,
    fee_payer: Address,
    fingerprint: Option<Address>,
) -> Seq<AccountMeta> {
    seq![
        spec_readonly(authority, true),
        spec_readonly(wallet, true),
        spec_writable(collection_fee_token, false),
        spec_writable(cash_link, false),
        spec_readonly(pass_key, false),
        spec_writable(redemption_pda, false),
        spec_writable(owner_token, false),
        spec_writable(fee_payer, true),
        spec_readonly(spec_known(spec_clock_id()), false),
        spec_readonly(spec_known(spec_rent_id()), false),
        spec_readonly(spec_known(spec_slot_hashes_id()), false),
    ] + (match vault_token {
        Some(key) => seq![spec_writable(wallet_token, false), spec_writable(key, false)],
        None => Seq::empty(),
    }) + seq![spec_readonly(spec_known(spec_system_program_id()), false)] + (match fingerprint {
        Some(key) => seq![spec_writable(key, false)],
        None => Seq::empty(),
    }) + seq![spec_readonly(spec_known(spec_token_program_id()), false)]
}

/// The instruction that redeems one share of a cash link. The fingerprint in
/// the arguments must be shorter than 4 GiB. The mint is named for the
/// caller's sake and stands in no account of the instruction.
pub fn redeem_cash_link(
    program_id: &Address,
    authority: &Address,
    wallet: &Address,
    wallet_token: &Address,
    collection_fee_token: &Address,
    vault_token: Option<&Address>,
    cash_link: &Address,
    pass_key: &Address,
    redemption_pda: &Address,
    owner_token: &Address,
    fee_payer: &Address,
    fingerprint: Option<&Address>,
    _mint: &Address,
    args: InitCashRedemptionArgs,
) -> (ix: Instruction)
    requires
        args.spec_fits(),
    ensures
        ix.program_id == *program_id,
        ix.data@ == CashInstruction::Redeem(args).spec_bytes(),
        ix.accounts@ == spec_redeem_metas(
            *authority,
            *wallet,
            *wallet_token,
            *collection_fee_token,
            spec_deref(vault_token),
            *cash_link,
            *pass_key,
            *redemption_pda,
            *owner_token,
            *fee_payer,
            spec_deref(fingerprint),
        ),
{
    let mut accounts: Vec<AccountMeta> = Vec::new();
    accounts.push(AccountMeta::new_readonly(*authority, true));
    accounts.push(AccountMeta::new_readonly(*wallet, true));
    accounts.push(AccountMeta::new(*collection_fee_token, false));
    accounts.push(AccountMeta::new(*cash_link, false));
    accounts.push(AccountMeta::new_readonly(*pass_key, false));
    accounts.push(AccountMeta::new(*redemption_pda, false));
    accounts.push(AccountMeta::new(*owner_token, false));
    accounts.push(AccountMeta::new(*fee_payer, true));
    accounts.push(AccountMeta::new_readonly(known(clock_id()), false));
    accounts.push(AccountMeta::new_readonly(known(rent_id()), false));
    accounts.push(AccountMeta::new_readonly(known(slot_hashes_id()), false));
    if let Some(key) = vault_token {
        accounts.push(AccountMeta::new(*wallet_token, false));
        accounts.push(AccountMeta::new(*key, false));
    }
    accounts.push(AccountMeta::new_readonly(known(system_program_id()), false));
    if let Some(fingerprint_id) = fingerprint {
        accounts.push(AccountMeta::new(*fingerprint_id, false));
    }
    accounts.push(AccountMeta::new_readonly(known(token_program_id()), false));
    assert(accounts@ =~= spec_redeem_metas(
        *authority,
        *wallet,
        *wallet_token,
        *collection_fee_token,
        spec_deref(vault_token),
        *cash_link,
        *pass_key,
        *redemption_pda,
        *owner_token,
        *fee_payer,
        spec_deref(fingerprint),
    ));
    let data = CashInstruction::Redeem(args).to_vec();
    Instruction { program_id: *program_id, accounts, data }
}

/// The accounts of a closure: the authority, which signs, the cash link, the
/// fee payer and the system program.
pub open spec fn spec_close_metas(authority: Address, cash_link: Address, fee_payer: Address)
    -> Seq<AccountMeta> {
    seq![
        spec_readonly(authority, true),
        spec_writable(cash_link, false),
        spec_writable(fee_payer, false),
        spec_readonly(spec_known(spec_system_program_id()), false),
    ]
}

/// The instruction that closes a cash link.
pub fn close_cash_link(
    program_id: &Address,
    authority: &Address,
    cash_link: &Address,
    fee_payer: &Address,
) -> (ix: Instruction)
    ensures
        ix.program_id == *program_id,
        ix.data@ == CashInstruction::Close.spec_bytes(),
        ix.accounts@ == spec_close_metas(*authority, *cash_link, *fee_payer),
{
    let mut accounts: Vec<AccountMeta> = Vec::new();
    accounts.push(AccountMeta::new_readonly(*authority, true));
    accounts.push(AccountMeta::new(*cash_link, false));
    accounts.push(AccountMeta::new(*fee_payer, false));
    accounts.push(AccountMeta::new_readonly(known(system_program_id()), false));
    assert(accounts@ =~= spec_close_metas(*authority, *cash_link, *fee_payer));
    let data = CashInstruction::Close.to_vec();
    Instruction { program_id: *program_id, accounts, data }
}

} // verus!
