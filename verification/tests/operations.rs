use bonding_curve::address::find_custody_authority;
use bonding_curve::address::find_mint_authority;
use bonding_curve::address::find_state_address;
use bonding_curve::address::get_associated_token_address;
use bonding_curve::address::Address;
use bonding_curve::binding::TradeAccounts;
use bonding_curve::claim::claim_token;
use bonding_curve::claim::ClaimAccounts;
use bonding_curve::claim::ClaimArgs;
use bonding_curve::create::create_token;
use bonding_curve::create::CreateAccounts;
use bonding_curve::create::CreateTokenArgs;
use bonding_curve::create::TOKEN_DECIMALS;
use bonding_curve::curve::CurveConstants;
use bonding_curve::curve::DECIMALS_SCALE;
use bonding_curve::curve::MAX_TOKEN_AMOUNT;
use bonding_curve::curve::MAX_TOTAL_SUPPLY;
use bonding_curve::error::Failure;
use bonding_curve::error::TokenError;
use bonding_curve::guard::Quote;
use bonding_curve::ledger::State;
use bonding_curve::trade::burnExactTokensForStable;
use bonding_curve::trade::burnExactTokensForStableArgs;
use bonding_curve::trade::burn_for_exact;
use bonding_curve::trade::mintTokensForExactStable;
use bonding_curve::trade::mintTokensForExactStableArgs;
use bonding_curve::trade::mintTokensForExactStableWithSlippage;
use bonding_curve::trade::mintTokensForExactStableWithSlippageArgs;
use bonding_curve::trade::mint_for_exact;
use bonding_curve::trade::MintOrder;

fn program() -> Address {
    Address::new([7u8; 32])
}

fn key(fill: u8) -> Address {
    Address::new([fill; 32])
}

fn mint_data(supply: u64) -> Vec<u8> {
    let mut data = vec![0u8; 82];
    data[36..44].copy_from_slice(&supply.to_le_bytes());
    data[44] = 7;
    data[45] = 1;
    data
}

fn sale(supply: u64) -> (State, TradeAccounts) {
    let state = State::new(key(1), key(2), key(3));
    let (authority, _) = find_custody_authority(&program()).unwrap();
    let accounts = TradeAccounts {
        mint_account: key(1),
        mint_data: mint_data(supply),
        pda_trade_token_ata_account: get_associated_token_address(&authority, &key(2)).unwrap(),
        associated_token_account_lamports: 0,
    };
    (state, accounts)
}

fn same_state(left: &State, right: &State) -> bool {
    left.mint_account == right.mint_account
        && left.trade_token_address == right.trade_token_address
        && left.total == right.total
        && left.claimed == right.claimed
        && left.claim_authority == right.claim_authority
}

fn small_sale() -> CurveConstants {
    CurveConstants {
        round_volume: 100,
        start_price: 1,
        price_increase_step: 1,
        increase_from_round: 1,
        decimals_scale: 1,
        fee_buy_basis_point: 50000,
        fee_denominator: 10000,
        max_total_supply: 1000,
        max_per_call_amount: 500,
    }
}

#[test]
fn state_record_is_112_bytes() {
    assert_eq!(State::LEN, 112);
}

#[test]
fn token_decimals_match_the_scale() {
    assert_eq!(10u64.pow(TOKEN_DECIMALS as u32), DECIMALS_SCALE);
}

#[test]
fn error_codes_are_positions() {
    assert_eq!(TokenError::ZeroBuy.code(), 0);
    assert_eq!(TokenError::MAX_TOTAL_SUPPLY.code(), 1);
    assert_eq!(TokenError::MAX_TOKEN_AMOUNT.code(), 2);
    assert_eq!(TokenError::Unauthorized.code(), 3);
    assert_eq!(TokenError::Slippage_occur.code(), 4);
    assert_eq!(TokenError::WRONG_pda_trade_token_ata_account.code(), 5);
    assert_eq!(TokenError::WRONG_mint_account.code(), 6);
}

#[test]
fn error_messages() {
    assert_eq!(TokenError::ZeroBuy.message(), "Cant buy zero");
    assert_eq!(TokenError::MAX_TOTAL_SUPPLY.message(), "MAX_TOTAL_SUPPLY LIMIT");
    assert_eq!(TokenError::MAX_TOKEN_AMOUNT.message(), "MAX_TOKEN_AMOUNT LIMIT");
    assert_eq!(TokenError::Unauthorized.message(), "Unauthorized");
    assert_eq!(TokenError::Slippage_occur.message(), "Slippage occur");
    assert_eq!(
        TokenError::WRONG_pda_trade_token_ata_account.message(),
        "WRONG pda_trade_token_ata_account"
    );
    assert_eq!(TokenError::WRONG_mint_account.message(), "WRONG mint_account");
    assert_eq!(TokenError::type_of(), "TokenError");
}

#[test]
fn guarded_mint_quote() {
    let constants = CurveConstants::deployed();
    assert_eq!(
        constants.quote_mint(0, 1_000_000_000_000, 0),
        Ok(Quote {
            amount_in: 1_000_000_000_000,
            amount_out: 13796311249130434,
            fee: 47619047620
        })
    );
    assert_eq!(
        constants.quote_mint(0, 1_000_000_000_000, 13796311249130434),
        Ok(Quote {
            amount_in: 1_000_000_000_000,
            amount_out: 13796311249130434,
            fee: 47619047620
        })
    );
}

#[test]
fn guarded_mint_rejects_over_the_ceiling_per_trade() {
    let constants = CurveConstants::deployed();
    assert_eq!(
        constants.quote_mint(0, MAX_TOKEN_AMOUNT + 1, 0),
        Err(TokenError::MAX_TOKEN_AMOUNT)
    );
    assert_eq!(
        constants.quote_mint(u64::MAX, u64::MAX, u64::MAX),
        Err(TokenError::MAX_TOKEN_AMOUNT)
    );
    assert!(constants.quote_mint(0, MAX_TOKEN_AMOUNT, 0).is_ok());
}

#[test]
fn guarded_mint_rejects_an_empty_trade() {
    let constants = CurveConstants::deployed();
    assert_eq!(constants.quote_mint(0, 0, 0), Err(TokenError::ZeroBuy));
    assert_eq!(constants.quote_mint(0, 1, 0), Err(TokenError::ZeroBuy));
    assert_eq!(constants.quote_mint(MAX_TOTAL_SUPPLY + 1, 1, 5), Err(TokenError::ZeroBuy));
    assert!(constants.quote_mint(0, 2, 0).is_ok());
}

#[test]
fn guarded_mint_rejects_over_the_supply_ceiling() {
    let constants = CurveConstants::deployed();
    assert_eq!(
        constants.quote_mint(MAX_TOTAL_SUPPLY - 95237592862161, MAX_TOKEN_AMOUNT, 0),
        Err(TokenError::MAX_TOTAL_SUPPLY)
    );
    assert_eq!(
        constants.quote_mint(MAX_TOTAL_SUPPLY, 2_000_000, 0),
        Err(TokenError::MAX_TOTAL_SUPPLY)
    );
    assert_eq!(
        constants.quote_mint(u64::MAX, MAX_TOKEN_AMOUNT, u64::MAX),
        Err(TokenError::MAX_TOTAL_SUPPLY)
    );
    let small = small_sale();
    assert_eq!(small.quote_mint(900, 105, 0).unwrap().amount_out, 10);
    assert_eq!(small.quote_mint(990, 105, 0).unwrap().amount_out, 10);
    assert_eq!(small.quote_mint(991, 105, 0).unwrap().amount_out, 9);
    assert_eq!(small.quote_mint(995, 105, 0), Err(TokenError::MAX_TOTAL_SUPPLY));
    assert_eq!(
        constants.quote_mint(9_999_904_000_000_000_000, MAX_TOKEN_AMOUNT, 0),
        Ok(Quote {
            amount_in: MAX_TOKEN_AMOUNT,
            amount_out: 95238509238090,
            fee: 476190476191
        })
    );
}

#[test]
fn guarded_mint_rejects_slippage() {
    let constants = CurveConstants::deployed();
    assert_eq!(
        constants.quote_mint(0, 1_000_000_000_000, 13796311249130435),
        Err(TokenError::Slippage_occur)
    );
    let small = small_sale();
    assert_eq!(small.quote_mint(995, 105, 11), Err(TokenError::MAX_TOTAL_SUPPLY));
    assert_eq!(small.quote_mint(990, 105, 11), Err(TokenError::Slippage_occur));
}

#[test]
fn guarded_burn_quote() {
    let constants = CurveConstants::deployed();
    assert_eq!(
        constants.quote_burn(30_000_000_000_005, 7_000_000_000_007),
        Ok(Quote {
            amount_in: 7_000_000_000_007,
            amount_out: 1_995_000,
            fee: 105_000
        })
    );
    assert_eq!(
        constants.quote_burn(u64::MAX, MAX_TOKEN_AMOUNT + 1),
        Err(Failure::Rejected(TokenError::MAX_TOKEN_AMOUNT))
    );
    assert_eq!(constants.quote_burn(5, 6), Err(Failure::BurnExceedsSupply));
    assert_eq!(
        constants.quote_burn(5, 5),
        Err(Failure::Rejected(TokenError::ZeroBuy))
    );
    assert_eq!(
        constants.quote_burn(0, 0),
        Err(Failure::Rejected(TokenError::ZeroBuy))
    );
}

#[test]
fn guarded_burn_that_does_not_fit() {
    let constants = CurveConstants {
        round_volume: 10,
        start_price: 1,
        price_increase_step: u64::MAX,
        increase_from_round: 1,
        decimals_scale: 1,
        fee_buy_basis_point: 0,
        fee_denominator: 1,
        max_total_supply: u64::MAX,
        max_per_call_amount: u64::MAX,
    };
    assert_eq!(constants.quote_burn(5, 2), Err(Failure::AmountOverflow));
    assert_eq!(constants.quote_burn(5, 1).unwrap().amount_out, u64::MAX);
}

#[test]
fn mint_books_the_fee_and_orders_the_mint() {
    let (mut state, accounts) = sale(0);
    let order = mintTokensForExactStable(
        &program(),
        &accounts,
        &mut state,
        mintTokensForExactStableArgs {
            _inAmount: 1_000_000_000_000,
        },
    )
    .unwrap();
    let (_, bump) = find_mint_authority(&program()).unwrap();
    assert_eq!(
        order,
        MintOrder {
            in_amount: 1_000_000_000_000,
            out_amount: 13796311249130434,
            fee: 47619047620,
            create_associated_token_account: true,
            mint_authority_bump: bump,
        }
    );
    assert_eq!(state.total, 47619047620);
    assert_eq!(state.claimed, 0);
    let mut funded = accounts.clone();
    funded.associated_token_account_lamports = 2_039_280;
    let order = mintTokensForExactStable(
        &program(),
        &funded,
        &mut state,
        mintTokensForExactStableArgs { _inAmount: 2 },
    )
    .unwrap();
    assert!(!order.create_associated_token_account);
    assert_eq!(order.out_amount, 10_000_000);
    assert_eq!(order.fee, 1);
    assert_eq!(state.total, 47619047621);
}

#[test]
fn mint_that_stops_changes_nothing() {
    let (mut state, accounts) = sale(MAX_TOTAL_SUPPLY);
    state.total = 10;
    state.claimed = 4;
    let before = state;
    let outcome = mintTokensForExactStable(
        &program(),
        &accounts,
        &mut state,
        mintTokensForExactStableArgs { _inAmount: 2_000_000 },
    );
    assert_eq!(outcome, Err(Failure::Rejected(TokenError::MAX_TOTAL_SUPPLY)));
    assert!(same_state(&state, &before));
    let outcome = mintTokensForExactStable(
        &program(),
        &accounts,
        &mut state,
        mintTokensForExactStableArgs { _inAmount: 1 },
    );
    assert_eq!(outcome, Err(Failure::Rejected(TokenError::ZeroBuy)));
    assert!(same_state(&state, &before));
}

#[test]
fn mint_checks_the_amount_before_the_accounts() {
    let (mut state, mut accounts) = sale(0);
    accounts.mint_account = key(9);
    accounts.pda_trade_token_ata_account = key(9);
    accounts.mint_data = vec![];
    let outcome = mintTokensForExactStable(
        &program(),
        &accounts,
        &mut state,
        mintTokensForExactStableArgs {
            _inAmount: MAX_TOKEN_AMOUNT + 1,
        },
    );
    assert_eq!(outcome, Err(Failure::Rejected(TokenError::MAX_TOKEN_AMOUNT)));
    let outcome = mintTokensForExactStable(
        &program(),
        &accounts,
        &mut state,
        mintTokensForExactStableArgs {
            _inAmount: MAX_TOKEN_AMOUNT,
        },
    );
    assert_eq!(
        outcome,
        Err(Failure::Rejected(TokenError::WRONG_pda_trade_token_ata_account))
    );
    assert_eq!(state.total, 0);
}

#[test]
fn mint_rejects_a_foreign_mint() {
    let (mut state, mut accounts) = sale(0);
    accounts.mint_account = key(9);
    let outcome = mintTokensForExactStable(
        &program(),
        &accounts,
        &mut state,
        mintTokensForExactStableArgs { _inAmount: 1000 },
    );
    assert_eq!(outcome, Err(Failure::Rejected(TokenError::WRONG_mint_account)));
}

#[test]
fn mint_stops_when_the_ledger_is_full() {
    let (mut state, accounts) = sale(0);
    state.total = u64::MAX;
    let outcome = mintTokensForExactStable(
        &program(),
        &accounts,
        &mut state,
        mintTokensForExactStableArgs { _inAmount: 1000 },
    );
    assert_eq!(outcome, Err(Failure::AmountOverflow));
    assert_eq!(state.total, u64::MAX);
}

#[test]
fn mint_with_slippage_bound() {
    let (mut state, accounts) = sale(0);
    let outcome = mintTokensForExactStableWithSlippage(
        &program(),
        &accounts,
        &mut state,
        mintTokensForExactStableWithSlippageArgs {
            _inAmount: 1_000_000_000_000,
            _outNotLess: 13796311249130435,
        },
    );
    assert_eq!(outcome, Err(Failure::Rejected(TokenError::Slippage_occur)));
    assert_eq!(state.total, 0);
    let order = mintTokensForExactStableWithSlippage(
        &program(),
        &accounts,
        &mut state,
        mintTokensForExactStableWithSlippageArgs {
            _inAmount: 1_000_000_000_000,
            _outNotLess: 13796311249130434,
        },
    )
    .unwrap();
    assert_eq!(order.out_amount, 13796311249130434);
    assert_eq!(state.total, 47619047620);
    let outcome = mintTokensForExactStableWithSlippage(
        &program(),
        &accounts,
        &mut state,
        mintTokensForExactStableWithSlippageArgs {
            _inAmount: MAX_TOKEN_AMOUNT + 1,
            _outNotLess: 0,
        },
    );
    assert_eq!(outcome, Err(Failure::Rejected(TokenError::MAX_TOKEN_AMOUNT)));
}

#[test]
fn mint_under_another_configuration() {
    let (mut state, accounts) = sale(0);
    let order = mint_for_exact(&small_sale(), &program(), &accounts, &mut state, 263, 0).unwrap();
    assert_eq!(order.in_amount, 263);
    assert_eq!(order.fee, 13);
    assert_eq!(order.out_amount, 175);
    assert_eq!(state.total, 13);
    let outcome = mint_for_exact(&small_sale(), &program(), &accounts, &mut state, 501, 0);
    assert_eq!(outcome, Err(Failure::Rejected(TokenError::MAX_TOKEN_AMOUNT)));
}

#[test]
fn burn_books_the_fee_and_orders_the_payment() {
    let (mut state, accounts) = sale(30_000_000_000_005);
    let order = burnExactTokensForStable(
        &program(),
        &accounts,
        &mut state,
        burnExactTokensForStableArgs {
            _inAmount: 7_000_000_000_007,
        },
    )
    .unwrap();
    let (authority, bump) = find_custody_authority(&program()).unwrap();
    assert_eq!(order.in_amount, 7_000_000_000_007);
    assert_eq!(order.out_amount, 1_995_000);
    assert_eq!(order.fee, 105_000);
    assert!(order.custody_authority == authority);
    assert_eq!(order.custody_authority_bump, bump);
    assert_eq!(state.total, 105_000);
}

#[test]
fn burn_that_stops_changes_nothing() {
    let (mut state, accounts) = sale(5);
    state.total = 9;
    let before = state;
    let outcome = burnExactTokensForStable(
        &program(),
        &accounts,
        &mut state,
        burnExactTokensForStableArgs { _inAmount: 6 },
    );
    assert_eq!(outcome.unwrap_err(), Failure::BurnExceedsSupply);
    assert!(same_state(&state, &before));
    let outcome = burnExactTokensForStable(
        &program(),
        &accounts,
        &mut state,
        burnExactTokensForStableArgs { _inAmount: 5 },
    );
    assert_eq!(outcome.unwrap_err(), Failure::Rejected(TokenError::ZeroBuy));
    let outcome = burnExactTokensForStable(
        &program(),
        &accounts,
        &mut state,
        burnExactTokensForStableArgs {
            _inAmount: MAX_TOKEN_AMOUNT + 1,
        },
    );
    assert_eq!(
        outcome.unwrap_err(),
        Failure::Rejected(TokenError::MAX_TOKEN_AMOUNT)
    );
    assert!(same_state(&state, &before));
}

#[test]
fn burn_rejects_foreign_accounts() {
    let (mut state, mut accounts) = sale(30_000_000_000_005);
    accounts.pda_trade_token_ata_account = key(9);
    let outcome = burnExactTokensForStable(
        &program(),
        &accounts,
        &mut state,
        burnExactTokensForStableArgs { _inAmount: 1000 },
    );
    assert_eq!(
        outcome.unwrap_err(),
        Failure::Rejected(TokenError::WRONG_pda_trade_token_ata_account)
    );
    let (mut state, mut accounts) = sale(30_000_000_000_005);
    accounts.mint_account = key(9);
    let outcome = burn_for_exact(
        &CurveConstants::deployed(),
        &program(),
        &accounts,
        &mut state,
        1000,
    );
    assert_eq!(
        outcome.unwrap_err(),
        Failure::Rejected(TokenError::WRONG_mint_account)
    );
}

#[test]
fn claim_by_the_authority() {
    let mut state = State::new(key(1), key(2), key(3));
    state.total = 100;
    state.claimed = 30;
    let accounts = ClaimAccounts {
        claim_account: key(3),
        claim_account_is_signer: true,
        claim_account_trade_token_ata_account_lamports: 0,
    };
    let order = claim_token(&program(), &accounts, &mut state, ClaimArgs { amount: 70 }).unwrap();
    let (authority, bump) = find_custody_authority(&program()).unwrap();
    assert_eq!(order.amount, 70);
    assert!(order.create_associated_token_account);
    assert!(order.custody_authority == authority);
    assert_eq!(order.custody_authority_bump, bump);
    assert_eq!(state.total, 100);
    assert_eq!(state.claimed, 100);
    let order = claim_token(&program(), &accounts, &mut state, ClaimArgs { amount: 0 }).unwrap();
    assert_eq!(order.amount, 0);
    assert_eq!(state.claimed, 100);
}

#[test]
fn claim_of_more_than_is_unclaimed() {
    let mut state = State::new(key(1), key(2), key(3));
    state.total = 100;
    state.claimed = 30;
    let accounts = ClaimAccounts {
        claim_account: key(3),
        claim_account_is_signer: true,
        claim_account_trade_token_ata_account_lamports: 5,
    };
    let outcome = claim_token(&program(), &accounts, &mut state, ClaimArgs { amount: 71 });
    assert_eq!(outcome.unwrap_err(), Failure::ClaimExceedsUnclaimed);
    assert_eq!(state.total, 100);
    assert_eq!(state.claimed, 30);
    let outcome = claim_token(
        &program(),
        &accounts,
        &mut state,
        ClaimArgs { amount: u64::MAX },
    );
    assert_eq!(outcome.unwrap_err(), Failure::ClaimExceedsUnclaimed);
    assert_eq!(state.claimed, 30);
    let order = claim_token(&program(), &accounts, &mut state, ClaimArgs { amount: 70 }).unwrap();
    assert!(!order.create_associated_token_account);
}

#[test]
fn claim_by_anyone_else() {
    let mut state = State::new(key(1), key(2), key(3));
    state.total = 100;
    let unsigned = ClaimAccounts {
        claim_account: key(3),
        claim_account_is_signer: false,
        claim_account_trade_token_ata_account_lamports: 0,
    };
    let outcome = claim_token(&program(), &unsigned, &mut state, ClaimArgs { amount: 1 });
    assert_eq!(
        outcome.unwrap_err(),
        Failure::Rejected(TokenError::Unauthorized)
    );
    let stranger = ClaimAccounts {
        claim_account: key(4),
        claim_account_is_signer: true,
        claim_account_trade_token_ata_account_lamports: 0,
    };
    let outcome = claim_token(&program(), &stranger, &mut state, ClaimArgs { amount: 1 });
    assert_eq!(
        outcome.unwrap_err(),
        Failure::Rejected(TokenError::Unauthorized)
    );
    let outcome = claim_token(
        &program(),
        &stranger,
        &mut state,
        ClaimArgs { amount: 1000 },
    );
    assert_eq!(
        outcome.unwrap_err(),
        Failure::Rejected(TokenError::Unauthorized)
    );
    assert_eq!(state.claimed, 0);
}

#[test]
fn ledger_books_trades_and_claims() {
    let mut state = State::new(key(1), key(2), key(3));
    assert_eq!(state.unclaimed_fees(), 0);
    assert!(state.accrue(50));
    assert!(state.claim(20));
    assert!(!state.claim(31));
    assert_eq!((state.total, state.claimed), (50, 20));
    assert!(state.accrue(u64::MAX - 50));
    assert!(!state.accrue(1));
    assert_eq!((state.total, state.claimed), (u64::MAX, 20));
    assert_eq!(state.unclaimed_fees(), u64::MAX - 20);
    assert!(state.claim(u64::MAX - 20));
    assert!(!state.claim(1));
    assert!(state.claim(0));
    assert_eq!((state.total, state.claimed), (u64::MAX, u64::MAX));
}

#[test]
fn claimed_stays_within_total_over_a_run() {
    let mut state = State::new(key(1), key(2), key(3));
    let mut step: u64 = 1;
    while step <= 200 {
        if step % 3 == 0 {
            state.claim(step * 7 % 50);
        } else {
            state.accrue(step * 11 % 40);
        }
        assert!(state.claimed <= state.total);
        step += 1;
    }
    assert!(state.total > 0);
    assert!(state.claimed > 0);
}

#[test]
fn create_starts_an_empty_ledger() {
    let accounts = CreateAccounts {
        mint_account: key(1),
        trade_token_account: key(2),
        pda_trade_token_ata_account_lamports: 0,
    };
    let args = CreateTokenArgs {
        token_title: String::from("Token"),
        token_symbol: String::from("TKN"),
        token_uri: String::from("https://example.org/token.json"),
        claime_authority: key(3),
    };
    let order = create_token(&program(), &accounts, &args).unwrap();
    assert!(same_state(&order.state, &State::new(key(1), key(2), key(3))));
    assert_eq!(order.state.total, 0);
    assert_eq!(order.state.claimed, 0);
    assert!(order.create_custody_account);
    let (_, mint_bump) = find_mint_authority(&program()).unwrap();
    let (_, state_bump) = find_state_address(&program()).unwrap();
    let (authority, bump) = find_custody_authority(&program()).unwrap();
    assert_eq!(order.mint_authority_bump, mint_bump);
    assert_eq!(order.state_bump, state_bump);
    assert!(order.custody_authority == authority);
    assert_eq!(order.custody_authority_bump, bump);
    let funded = CreateAccounts {
        mint_account: key(1),
        trade_token_account: key(2),
        pda_trade_token_ata_account_lamports: 1,
    };
    assert!(!create_token(&program(), &funded, &args).unwrap().create_custody_account);
}
