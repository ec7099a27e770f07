use bonding_curve::address::find_custody_authority;
use bonding_curve::address::find_mint_authority;
use bonding_curve::address::find_program_address;
use bonding_curve::address::find_state_address;
use bonding_curve::address::get_associated_token_address;
use bonding_curve::address::Address;
use bonding_curve::binding::bind_trade;
use bonding_curve::binding::TradeAccounts;
use bonding_curve::error::Failure;
use bonding_curve::error::TokenError;
use bonding_curve::ledger::State;
use bonding_curve::supply::current_supply;
use bonding_curve::supply::MINT_LEN;
use solana_program::program_option::COption;
use solana_program::program_pack::Pack;
use solana_program::pubkey::Pubkey;
use spl_token::state::Mint;

fn program() -> Address {
    Address::new([7u8; 32])
}

fn key(fill: u8) -> Address {
    Address::new([fill; 32])
}

fn mint_data(supply: u64) -> Vec<u8> {
    let mint = Mint {
        mint_authority: COption::Some(Pubkey::new_from_array([9u8; 32])),
        supply,
        decimals: 7,
        is_initialized: true,
        freeze_authority: COption::None,
    };
    let mut data = vec![0u8; Mint::LEN];
    Mint::pack(mint, &mut data).unwrap();
    data
}

fn custody_of(program_id: &Address, trade_token: &Address) -> Address {
    let (authority, _) = find_custody_authority(program_id).unwrap();
    get_associated_token_address(&authority, trade_token).unwrap()
}

fn sale_state(program_id: &Address) -> (State, TradeAccounts) {
    let state = State::new(key(1), key(2), key(3));
    let accounts = TradeAccounts {
        mint_account: key(1),
        mint_data: mint_data(5_000_000),
        pda_trade_token_ata_account: custody_of(program_id, &key(2)),
        associated_token_account_lamports: 0,
    };
    (state, accounts)
}

#[test]
fn address_equality_is_by_bytes() {
    let mut bytes = [5u8; 32];
    assert!(Address::new(bytes) == key(5));
    bytes[31] = 6;
    assert!(Address::new(bytes) != key(5));
    bytes[31] = 5;
    bytes[0] = 4;
    assert!(Address::new(bytes) != key(5));
    assert_eq!(key(5).to_vec(), vec![5u8; 32]);
}

#[test]
fn program_address_is_the_one_solana_derives() {
    let program_id = Pubkey::new_from_array([7u8; 32]);
    let (expected, bump) = Pubkey::find_program_address(&[b"vault"], &program_id);
    let (found, found_bump) = find_program_address(b"vault".to_vec(), &program()).unwrap();
    assert_eq!(found.bytes, expected.to_bytes());
    assert_eq!(found_bump, bump);
    assert_ne!(found.bytes, [7u8; 32]);
}

#[test]
fn program_address_differs_by_seed_and_program() {
    let (by_vault, _) = find_program_address(b"vault".to_vec(), &program()).unwrap();
    let (by_state, _) = find_program_address(b"state".to_vec(), &program()).unwrap();
    let (other_program, _) = find_program_address(b"vault".to_vec(), &key(8)).unwrap();
    assert!(by_vault != by_state);
    assert!(by_vault != other_program);
}

#[test]
fn program_address_of_an_overlong_seed_is_none() {
    assert!(find_program_address(vec![1u8; 33], &program()).is_none());
    assert!(find_program_address(vec![1u8; 32], &program()).is_some());
}

#[test]
fn sale_addresses_use_their_seeds() {
    let program_id = Pubkey::new_from_array([7u8; 32]);
    let (mint_authority, mint_bump) =
        Pubkey::find_program_address(&[b"mint_authority"], &program_id);
    let (state_address, state_bump) = Pubkey::find_program_address(&[b"state"], &program_id);
    let (custody_authority, custody_bump) =
        Pubkey::find_program_address(&[b"ata_trade_token_authority"], &program_id);
    let found = find_mint_authority(&program()).unwrap();
    assert_eq!((found.0.bytes, found.1), (mint_authority.to_bytes(), mint_bump));
    let found = find_state_address(&program()).unwrap();
    assert_eq!((found.0.bytes, found.1), (state_address.to_bytes(), state_bump));
    let found = find_custody_authority(&program()).unwrap();
    assert_eq!(
        (found.0.bytes, found.1),
        (custody_authority.to_bytes(), custody_bump)
    );
}

#[test]
fn associated_token_address_is_the_one_spl_derives() {
    let wallet = Pubkey::new_from_array([11u8; 32]);
    let mint = Pubkey::new_from_array([12u8; 32]);
    let expected = spl_associated_token_account::get_associated_token_address(&wallet, &mint);
    let found = get_associated_token_address(&key(11), &key(12)).unwrap();
    assert_eq!(found.bytes, expected.to_bytes());
    let swapped = get_associated_token_address(&key(12), &key(11)).unwrap();
    assert!(found != swapped);
}

#[test]
fn supply_is_read_from_packed_mint() {
    assert_eq!(MINT_LEN, Mint::LEN);
    assert_eq!(current_supply(&mint_data(0)), Some(0));
    assert_eq!(current_supply(&mint_data(1)), Some(1));
    assert_eq!(current_supply(&mint_data(0x0102030405060708)), Some(0x0102030405060708));
    assert_eq!(current_supply(&mint_data(u64::MAX)), Some(u64::MAX));
}

#[test]
fn supply_sits_in_bytes_36_to_43() {
    let mut data = vec![0u8; 82];
    data[45] = 1;
    data[36] = 1;
    assert_eq!(current_supply(&data), Some(1));
    data[37] = 1;
    assert_eq!(current_supply(&data), Some(257));
    data[43] = 1;
    assert_eq!(current_supply(&data), Some(257 + (1u64 << 56)));
    data[44] = 200;
    assert_eq!(current_supply(&data), Some(257 + (1u64 << 56)));
}

#[test]
fn supply_of_a_malformed_mint_is_none() {
    let good = mint_data(77);
    assert_eq!(current_supply(&good[..81]), None);
    let mut longer = good.clone();
    longer.push(0);
    assert_eq!(current_supply(&longer), None);
    assert_eq!(current_supply(&[]), None);
    let mut uninitialised = good.clone();
    uninitialised[45] = 0;
    assert_eq!(current_supply(&uninitialised), None);
    let mut bad_flag = good.clone();
    bad_flag[45] = 2;
    assert_eq!(current_supply(&bad_flag), None);
    let mut bad_tag = good.clone();
    bad_tag[0] = 2;
    assert_eq!(current_supply(&bad_tag), None);
    let mut bad_tag_high = good.clone();
    bad_tag_high[3] = 1;
    assert_eq!(current_supply(&bad_tag_high), None);
    let mut bad_freeze = good.clone();
    bad_freeze[47] = 1;
    assert_eq!(current_supply(&bad_freeze), None);
    let mut with_freeze = good.clone();
    with_freeze[46] = 1;
    assert_eq!(current_supply(&with_freeze), Some(77));
}

#[test]
fn binding_of_the_sales_own_accounts() {
    let (state, accounts) = sale_state(&program());
    let bound = bind_trade(&program(), &state, &accounts).unwrap();
    let (authority, bump) = find_custody_authority(&program()).unwrap();
    assert_eq!(bound.supply, 5_000_000);
    assert!(bound.custody_authority == authority);
    assert_eq!(bound.custody_authority_bump, bump);
}

#[test]
fn binding_rejects_a_foreign_custody_account() {
    let (state, mut accounts) = sale_state(&program());
    accounts.pda_trade_token_ata_account = custody_of(&program(), &key(4));
    assert_eq!(
        bind_trade(&program(), &state, &accounts).unwrap_err(),
        Failure::Rejected(TokenError::WRONG_pda_trade_token_ata_account)
    );
    let (state, mut accounts) = sale_state(&program());
    accounts.pda_trade_token_ata_account = custody_of(&key(8), &key(2));
    accounts.mint_account = key(4);
    assert_eq!(
        bind_trade(&program(), &state, &accounts).unwrap_err(),
        Failure::Rejected(TokenError::WRONG_pda_trade_token_ata_account)
    );
}

#[test]
fn binding_rejects_a_foreign_mint() {
    let (state, mut accounts) = sale_state(&program());
    accounts.mint_account = key(4);
    accounts.mint_data = vec![];
    assert_eq!(
        bind_trade(&program(), &state, &accounts).unwrap_err(),
        Failure::Rejected(TokenError::WRONG_mint_account)
    );
}

#[test]
fn binding_stops_on_a_malformed_mint() {
    let (state, mut accounts) = sale_state(&program());
    accounts.mint_data = vec![0u8; 82];
    assert_eq!(
        bind_trade(&program(), &state, &accounts).unwrap_err(),
        Failure::InvalidMintAccount
    );
}
