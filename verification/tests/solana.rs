use cashlink::address::Address;
use cashlink::base58::decode_fingerprint;
use cashlink::error::CashError;
use cashlink::instruction::{
    cancel_cash_link, close_cash_link, init_cash_link, redeem_cash_link, AccountMeta,
    CancelCashRedemptionArgs, CashInstruction, InitCashLinkArgs, InitCashRedemptionArgs,
};
use cashlink::seeds::{cash_link_seeds, fingerprint_seeds, redemption_seeds, with_bump};
use cashlink::state::cashlink::DistributionType;
use cashlink::token::{get_associated_token_address, TokenAccount, TokenAccountState};
use cashlink::utils::cmp_pubkeys;
use cashlink::{
    find_cash_link_program_address, find_cash_link_redemption_program_address,
    find_fingerprint_program_address,
};
use solana_program::program_option::COption;
use solana_program::program_pack::Pack;
use solana_program::pubkey::Pubkey;

fn address(key: &Pubkey) -> Address {
    Address::new(key.to_bytes())
}

fn pubkey(seed: u8) -> Pubkey {
    Pubkey::new_from_array([seed; 32])
}

fn program() -> Pubkey {
    Pubkey::new_from_array(cashlink::id().to_bytes())
}

#[test]
fn the_program_id_is_the_declared_one() {
    assert_eq!(program().to_string(), "cashQKx31fVsquVKXQ9prKqVtSYf8SqcYt9Jyvg966q");
}

#[test]
fn the_address_of_a_cash_link_is_the_program_address_of_its_seeds() {
    for seed in [1u8, 2, 77, 200] {
        let pass_key = pubkey(seed);
        let expected = Pubkey::find_program_address(&[b"escrow", pass_key.as_ref()], &program());
        let found = find_cash_link_program_address(&address(&program()), address(&pass_key));
        assert_eq!(found, Some((address(&expected.0), expected.1)));
        assert_ne!(found.unwrap().0, address(&pass_key));
        assert_ne!(found.unwrap().0, address(&program()));
    }
}

#[test]
fn the_address_of_a_redemption_marker_is_the_program_address_of_its_seeds() {
    let cash_link = pubkey(3);
    let wallet = pubkey(4);
    let expected = Pubkey::find_program_address(
        &[b"redeem", cash_link.as_ref(), wallet.as_ref()],
        &program(),
    );
    assert_eq!(
        find_cash_link_redemption_program_address(
            &address(&program()),
            &address(&cash_link),
            &address(&wallet)
        ),
        Some((address(&expected.0), expected.1))
    );
    let swapped = find_cash_link_redemption_program_address(
        &address(&program()),
        &address(&wallet),
        &address(&cash_link),
    );
    assert_ne!(swapped, Some((address(&expected.0), expected.1)));
}

#[test]
fn the_address_of_a_fingerprint_marker_is_the_program_address_of_its_seeds() {
    let cash_link = pubkey(3);
    let expected = Pubkey::find_program_address(
        &[b"fingerprint", cash_link.as_ref(), "device-42".as_bytes()],
        &program(),
    );
    assert_eq!(
        find_fingerprint_program_address(
            &address(&program()),
            &address(&cash_link),
            "device-42".to_string()
        ),
        Some((address(&expected.0), expected.1))
    );
}

#[test]
fn a_fingerprint_longer_than_a_seed_has_no_address() {
    let long = "x".repeat(33);
    assert_eq!(
        find_fingerprint_program_address(&address(&program()), &address(&pubkey(3)), long),
        None
    );
    let fits = "x".repeat(32);
    assert!(find_fingerprint_program_address(&address(&program()), &address(&pubkey(3)), fits)
        .is_some());
}

#[test]
fn seeds_are_the_prefix_and_the_keys() {
    let a = Address::new([1; 32]);
    let b = Address::new([2; 32]);
    assert_eq!(cash_link_seeds(&a), vec![b"escrow".to_vec(), vec![1u8; 32]]);
    assert_eq!(redemption_seeds(&a, &b), vec![b"redeem".to_vec(), vec![1u8; 32], vec![2u8; 32]]);
    assert_eq!(
        fingerprint_seeds(&a, &[9, 8, 7]),
        vec![b"fingerprint".to_vec(), vec![1u8; 32], vec![9, 8, 7]]
    );
    assert_eq!(
        with_bump(cash_link_seeds(&a), 254),
        vec![b"escrow".to_vec(), vec![1u8; 32], vec![254]]
    );
}

#[test]
fn the_vault_is_the_associated_token_account() {
    for (wallet, mint) in [(pubkey(1), pubkey(2)), (pubkey(9), pubkey(200)), (program(), pubkey(0))] {
        let expected = spl_associated_token_account::get_associated_token_address(&wallet, &mint);
        assert_eq!(
            get_associated_token_address(&address(&wallet), &address(&mint)),
            Some(address(&expected))
        );
    }
    assert_ne!(
        get_associated_token_address(&address(&pubkey(1)), &address(&pubkey(2))),
        get_associated_token_address(&address(&pubkey(2)), &address(&pubkey(1)))
    );
}

#[test]
fn addresses_compare_by_their_bytes() {
    let a = Address::new([1; 32]);
    let mut bytes = [1u8; 32];
    assert!(cmp_pubkeys(&a, &Address::new(bytes)));
    bytes[31] = 2;
    assert!(!cmp_pubkeys(&a, &Address::new(bytes)));
    bytes[31] = 1;
    bytes[0] = 0;
    assert!(!cmp_pubkeys(&a, &Address::new(bytes)));
    assert!(cmp_pubkeys(&Address::default(), &Address::new([0; 32])));
    assert_eq!(a.to_vec(), vec![1u8; 32]);
    assert_eq!(a.to_bytes(), [1u8; 32]);
}

#[test]
fn a_fingerprint_is_decoded_from_base_58() {
    assert_eq!(
        decode_fingerprint("he11owor1d"),
        Ok(vec![0x04, 0x30, 0x5e, 0x2b, 0x24, 0x73, 0xf0, 0x58])
    );
    assert_eq!(decode_fingerprint(""), Ok(vec![]));
    assert_eq!(decode_fingerprint("11"), Ok(vec![0, 0]));
    let text = bs58::encode([1u8, 2, 3, 250]).into_string();
    assert_eq!(decode_fingerprint(&text), Ok(vec![1, 2, 3, 250]));
    assert_ne!(decode_fingerprint(&text), Ok(text.as_bytes().to_vec()));
}

#[test]
fn a_fingerprint_outside_the_alphabet_is_invalid() {
    assert_eq!(decode_fingerprint("0OIl"), Err(CashError::InvalidFingerprint));
    assert_eq!(decode_fingerprint("abc def"), Err(CashError::InvalidFingerprint));
    assert_eq!(decode_fingerprint("grüß"), Err(CashError::InvalidFingerprint));
}

fn token_data(mint: Pubkey, owner: Pubkey, amount: u64, state: spl_token::state::AccountState) -> Vec<u8> {
    let account = spl_token::state::Account {
        mint,
        owner,
        amount,
        delegate: COption::Some(pubkey(50)),
        state,
        is_native: COption::None,
        delegated_amount: 3,
        close_authority: COption::None,
    };
    let mut data = vec![0u8; 165];
    spl_token::state::Account::pack(account, &mut data).unwrap();
    data
}

#[test]
fn a_token_account_is_read_as_the_token_program_reads_it() {
    let data = token_data(pubkey(1), pubkey(2), 987_654_321, spl_token::state::AccountState::Initialized);
    let read = TokenAccount::unpack_unchecked(&data).unwrap();
    assert_eq!(
        read,
        TokenAccount {
            mint: address(&pubkey(1)),
            owner: address(&pubkey(2)),
            amount: 987_654_321,
            state: TokenAccountState::Initialized,
        }
    );
    let frozen = token_data(pubkey(1), pubkey(2), 5, spl_token::state::AccountState::Frozen);
    assert_eq!(TokenAccount::unpack_unchecked(&frozen).unwrap().state, TokenAccountState::Frozen);
    let fresh = TokenAccount::unpack_unchecked(&[0u8; 165]).unwrap();
    assert_eq!(fresh.state, TokenAccountState::Uninitialized);
    assert_eq!(fresh.amount, 0);
}

#[test]
fn data_that_is_no_token_account_reads_as_none() {
    assert_eq!(TokenAccount::unpack_unchecked(&[0u8; 164]), None);
    assert_eq!(TokenAccount::unpack_unchecked(&[0u8; 166]), None);
    assert_eq!(TokenAccount::unpack_unchecked(&[]), None);
    let mut data = token_data(pubkey(1), pubkey(2), 5, spl_token::state::AccountState::Initialized);
    data[108] = 3;
    assert_eq!(TokenAccount::unpack_unchecked(&data), None);
    data[108] = 1;
    data[72] = 2;
    assert_eq!(TokenAccount::unpack_unchecked(&data), None);
}

fn readonly(key: Pubkey, is_signer: bool) -> AccountMeta {
    AccountMeta::new_readonly(address(&key), is_signer)
}

fn writable(key: Pubkey, is_signer: bool) -> AccountMeta {
    AccountMeta::new(address(&key), is_signer)
}

fn init_args() -> InitCashLinkArgs {
    InitCashLinkArgs {
        amount: 1000,
        fee_bps: 100,
        fixed_fee: 0,
        fee_to_redeem: 0,
        cash_link_bump: 254,
        distribution_type: DistributionType::Fixed,
        max_num_redemptions: 4,
        min_amount: None,
        fingerprint_enabled: None,
        num_days_to_expire: 1,
    }
}

#[test]
fn the_instruction_of_a_native_creation_names_eight_accounts() {
    let ix = init_cash_link(
        &address(&program()),
        &address(&pubkey(1)),
        &address(&pubkey(2)),
        &address(&pubkey(3)),
        &address(&pubkey(4)),
        &address(&pubkey(5)),
        None,
        init_args(),
    )
    .unwrap();
    assert_eq!(ix.program_id, address(&program()));
    assert_eq!(ix.data, CashInstruction::InitCashLink(init_args()).to_vec());
    assert_eq!(
        ix.accounts,
        vec![
            readonly(pubkey(1), true),
            writable(pubkey(2), true),
            writable(pubkey(3), true),
            writable(pubkey(4), false),
            readonly(pubkey(5), false),
            readonly(solana_program::sysvar::rent::id(), false),
            readonly(solana_program::system_program::id(), false),
            readonly(solana_program::sysvar::clock::id(), false),
        ]
    );
}

#[test]
fn the_instruction_of_a_token_creation_names_the_vault_and_the_programs() {
    let mint = address(&pubkey(6));
    let ix = init_cash_link(
        &address(&program()),
        &address(&pubkey(1)),
        &address(&pubkey(2)),
        &address(&pubkey(3)),
        &address(&pubkey(4)),
        &address(&pubkey(5)),
        Some(&mint),
        init_args(),
    )
    .unwrap();
    assert_eq!(
        ix.accounts,
        vec![
            readonly(pubkey(1), true),
            readonly(pubkey(2), true),
            writable(pubkey(3), true),
            writable(pubkey(4), false),
            readonly(pubkey(5), false),
            readonly(solana_program::sysvar::rent::id(), false),
            readonly(solana_program::system_program::id(), false),
            readonly(solana_program::sysvar::clock::id(), false),
            readonly(pubkey(6), false),
            writable(
                spl_associated_token_account::get_associated_token_address(&pubkey(4), &pubkey(6)),
                false
            ),
            writable(
                spl_associated_token_account::get_associated_token_address(&pubkey(2), &pubkey(6)),
                false
            ),
            readonly(spl_associated_token_account::id(), false),
            writable(spl_token::id(), false),
        ]
    );
}

#[test]
fn the_instruction_of_a_cancellation_names_its_accounts() {
    let vault = address(&pubkey(6));
    let args = CancelCashRedemptionArgs { cash_link_bump: 3 };
    let ix = cancel_cash_link(
        &address(&program()),
        &address(&pubkey(1)),
        &address(&pubkey(2)),
        &address(&pubkey(3)),
        &address(&pubkey(4)),
        Some(&vault),
        &address(&pubkey(5)),
        args,
    );
    assert_eq!(ix.program_id, address(&program()));
    assert_eq!(ix.data, vec![2, 3]);
    assert_eq!(
        ix.accounts,
        vec![
            readonly(pubkey(1), true),
            writable(pubkey(2), false),
            readonly(pubkey(3), false),
            writable(pubkey(4), false),
            writable(pubkey(5), false),
            readonly(solana_program::sysvar::clock::id(), false),
            readonly(solana_program::sysvar::rent::id(), false),
            writable(pubkey(6), false),
            readonly(spl_token::id(), false),
            readonly(solana_program::system_program::id(), false),
        ]
    );
    let native = cancel_cash_link(
        &address(&program()),
        &address(&pubkey(1)),
        &address(&pubkey(2)),
        &address(&pubkey(3)),
        &address(&pubkey(4)),
        None,
        &address(&pubkey(5)),
        args,
    );
    assert_eq!(native.accounts.len(), 9);
    assert_eq!(native.accounts[7], readonly(spl_token::id(), false));
}

fn redeem_args() -> InitCashRedemptionArgs {
    InitCashRedemptionArgs {
        redemption_bump: 250,
        cash_link_bump: 251,
        fingerprint: Some("3yZe7d".to_string()),
        fingerprint_bump: Some(252),
    }
}

#[test]
fn the_instruction_of_a_redemption_names_its_accounts() {
    let vault = address(&pubkey(6));
    let fingerprint = address(&pubkey(12));
    let ix = redeem_cash_link(
        &address(&program()),
        &address(&pubkey(1)),
        &address(&pubkey(2)),
        &address(&pubkey(3)),
        &address(&pubkey(4)),
        Some(&vault),
        &address(&pubkey(7)),
        &address(&pubkey(8)),
        &address(&pubkey(9)),
        &address(&pubkey(10)),
        &address(&pubkey(11)),
        Some(&fingerprint),
        &address(&pubkey(13)),
        redeem_args(),
    );
    assert_eq!(ix.program_id, address(&program()));
    assert_eq!(ix.data, CashInstruction::Redeem(redeem_args()).to_vec());
    assert_eq!(
        ix.accounts,
        vec![
            readonly(pubkey(1), true),
            readonly(pubkey(2), true),
            writable(pubkey(4), false),
            writable(pubkey(7), false),
            readonly(pubkey(8), false),
            writable(pubkey(9), false),
            writable(pubkey(10), false),
            writable(pubkey(11), true),
            readonly(solana_program::sysvar::clock::id(), false),
            readonly(solana_program::sysvar::rent::id(), false),
            readonly(solana_program::sysvar::slot_hashes::id(), false),
            writable(pubkey(3), false),
            writable(pubkey(6), false),
            readonly(solana_program::system_program::id(), false),
            writable(pubkey(12), false),
            readonly(spl_token::id(), false),
        ]
    );
    let native = redeem_cash_link(
        &address(&program()),
        &address(&pubkey(1)),
        &address(&pubkey(2)),
        &address(&pubkey(3)),
        &address(&pubkey(4)),
        None,
        &address(&pubkey(7)),
        &address(&pubkey(8)),
        &address(&pubkey(9)),
        &address(&pubkey(10)),
        &address(&pubkey(11)),
        None,
        &address(&pubkey(13)),
        redeem_args(),
    );
    assert_eq!(native.accounts.len(), 13);
    assert_eq!(native.accounts[11], readonly(solana_program::system_program::id(), false));
    assert_eq!(native.accounts[12], readonly(spl_token::id(), false));
}

#[test]
fn the_instruction_of_a_closure_names_four_accounts() {
    let ix = close_cash_link(
        &address(&program()),
        &address(&pubkey(1)),
        &address(&pubkey(2)),
        &address(&pubkey(3)),
    );
    assert_eq!(ix.program_id, address(&program()));
    assert_eq!(ix.data, vec![3]);
    assert_eq!(
        ix.accounts,
        vec![
            readonly(pubkey(1), true),
            writable(pubkey(2), false),
            writable(pubkey(3), false),
            readonly(solana_program::system_program::id(), false),
        ]
    );
}

#[test]
fn the_ids_of_the_programs_and_sysvars_are_the_bytes_the_library_states() {
    assert_eq!(
        spl_token::id().to_bytes(),
        [
            6, 221, 246, 225, 215, 101, 161, 147, 217, 203, 225, 70, 206, 235, 121, 172, 28, 180,
            133, 237, 95, 91, 55, 145, 58, 140, 245, 133, 126, 255, 0, 169
        ]
    );
    assert_eq!(
        spl_associated_token_account::id().to_bytes(),
        [
            140, 151, 37, 143, 78, 36, 137, 241, 187, 61, 16, 41, 20, 142, 13, 131, 11, 90, 19,
            153, 218, 255, 16, 132, 4, 142, 123, 216, 219, 233, 248, 89
        ]
    );
    assert_eq!(
        solana_program::sysvar::slot_hashes::id().to_bytes(),
        [
            6, 167, 213, 23, 25, 47, 10, 175, 198, 242, 101, 227, 251, 119, 204, 122, 218, 130,
            197, 41, 208, 190, 59, 19, 110, 45, 0, 85, 32, 0, 0, 0
        ]
    );
    assert_eq!(
        solana_program::sysvar::rent::id().to_bytes(),
        [
            6, 167, 213, 23, 25, 44, 92, 81, 33, 140, 201, 76, 61, 74, 241, 127, 88, 218, 238, 8,
            155, 161, 253, 68, 227, 219, 217, 138, 0, 0, 0, 0
        ]
    );
    assert_eq!(
        solana_program::sysvar::clock::id().to_bytes(),
        [
            6, 167, 213, 23, 24, 199, 116, 201, 40, 86, 99, 152, 105, 29, 94, 182, 139, 94, 184,
            163, 155, 75, 109, 92, 115, 85, 91, 33, 0, 0, 0, 0
        ]
    );
    assert_eq!(solana_program::system_program::id().to_bytes(), [0u8; 32]);
    assert_eq!(
        cashlink::id().to_bytes(),
        [
            9, 29, 161, 62, 146, 25, 87, 139, 58, 231, 31, 176, 39, 190, 203, 180, 212, 127, 173,
            11, 172, 208, 179, 56, 14, 145, 162, 67, 139, 28, 70, 86
        ]
    );
}
