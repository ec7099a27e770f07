use bonding_curve::curve::CurveConstants;
use bonding_curve::curve::MAX_TOKEN_AMOUNT;
use bonding_curve::curve::MAX_TOTAL_SUPPLY;
use bonding_curve::curve::ROUND_VOLUME;
use bonding_curve::quote::new_calcBurnExactTokensForStable;
use bonding_curve::quote::new_calcMintTokensForExactStable;

/// The mint walk written out with big integers, for any configuration.
fn walk_up(constants: &CurveConstants, supply: u64, net: u64) -> u128 {
    let volume = constants.round_volume as u128;
    let scale = constants.decimals_scale as u128;
    let mut round = supply as u128 / volume + 1;
    let mut capacity = volume - supply as u128 % volume;
    let mut remaining = net as u128;
    let mut tokens: u128 = 0;
    while remaining > 0 {
        let price = price_of(constants, round);
        let cost = capacity * price / scale;
        if remaining > cost {
            tokens += capacity;
            remaining -= cost;
            round += 1;
            capacity = volume;
        } else {
            tokens += remaining * scale / price;
            remaining = 0;
        }
    }
    tokens
}

/// The burn walk written out with big integers, for any configuration.
fn walk_down(constants: &CurveConstants, supply: u64, amount: u64) -> u128 {
    let volume = constants.round_volume as u128;
    let scale = constants.decimals_scale as u128;
    let mut round = supply as u128 / volume + 1;
    let mut capacity = supply as u128 % volume;
    let mut remaining = amount as u128;
    let mut gross: u128 = 0;
    while remaining > 0 {
        let price = price_of(constants, round);
        if remaining > capacity {
            gross += capacity * price / scale;
            remaining -= capacity;
            round -= 1;
            capacity = volume;
        } else {
            gross += remaining * price / scale;
            remaining = 0;
        }
    }
    gross
}

fn price_of(constants: &CurveConstants, round: u128) -> u128 {
    if round < constants.increase_from_round as u128 {
        constants.start_price as u128
    } else {
        constants.price_increase_step as u128 * (round - constants.increase_from_round as u128 + 1)
    }
}

fn next(seed: &mut u64) -> u64 {
    *seed = seed
        .wrapping_mul(6364136223846793005)
        .wrapping_add(1442695040888963407);
    *seed >> 11
}

fn checked(value: u128) -> Option<u64> {
    if value <= u64::MAX as u128 {
        Some(value as u64)
    } else {
        None
    }
}

#[test]
fn deployed_mint_agrees_with_the_plain_walk() {
    let constants = CurveConstants::deployed();
    let mut seed: u64 = 1;
    let mut case = 0;
    while case < 400 {
        let supply = next(&mut seed) % (MAX_TOTAL_SUPPLY / 1000 + 1) * 1000 + next(&mut seed) % 1000;
        let payment = match case % 4 {
            0 => next(&mut seed) % 1000,
            1 => next(&mut seed) % 100_000_000,
            2 => next(&mut seed) % (MAX_TOKEN_AMOUNT + 1),
            _ => MAX_TOKEN_AMOUNT - next(&mut seed) % 1000,
        };
        let net = (payment as u128 * 1_000_000 / 1_050_000) as u64;
        let (tokens, fee) = new_calcMintTokensForExactStable(supply, payment);
        assert_eq!(tokens as u128, walk_up(&constants, supply, net));
        assert_eq!(fee, payment - net);
        case += 1;
    }
}

#[test]
fn deployed_burn_agrees_with_the_plain_walk() {
    let constants = CurveConstants::deployed();
    let mut seed: u64 = 2;
    let mut case = 0;
    while case < 400 {
        let supply = next(&mut seed) % (300 * ROUND_VOLUME);
        let amount = match case % 3 {
            0 => next(&mut seed) % (supply + 1),
            1 => supply - next(&mut seed) % (supply / 2 + 1),
            _ => next(&mut seed) % (supply % ROUND_VOLUME + 1),
        };
        let gross = walk_down(&constants, supply, amount);
        let out = gross * 950_000 / 1_000_000;
        let (paid, fee) = new_calcBurnExactTokensForStable(supply, amount);
        assert_eq!(paid as u128, out);
        assert_eq!(fee as u128, gross - out);
        case += 1;
    }
}

#[test]
fn quotes_agree_with_the_plain_walks_under_other_configurations() {
    let mut seed: u64 = 3;
    let mut case = 0;
    let mut valid = 0;
    while case < 3000 {
        let constants = CurveConstants {
            round_volume: 1 + next(&mut seed) % 5000,
            start_price: next(&mut seed) % 50,
            price_increase_step: next(&mut seed) % 3_000_000,
            increase_from_round: next(&mut seed) % 6,
            decimals_scale: 1 + next(&mut seed) % 1000,
            fee_buy_basis_point: 0,
            fee_denominator: 1,
            max_total_supply: u64::MAX,
            max_per_call_amount: u64::MAX,
        };
        case += 1;
        if !constants.is_valid() {
            continue;
        }
        valid += 1;
        let supply = next(&mut seed) % 200_000;
        let net = next(&mut seed) % 5_000_000;
        assert_eq!(
            constants.mint_quote(supply, net),
            checked(walk_up(&constants, supply, net))
        );
        let amount = next(&mut seed) % (supply + 1);
        assert_eq!(
            constants.burn_quote(supply, amount),
            checked(walk_down(&constants, supply, amount))
        );
    }
    assert!(valid > 500);
}

#[test]
fn quotes_agree_with_the_plain_walks_at_large_prices() {
    let mut seed: u64 = 4;
    let mut case = 0;
    let mut fits = 0;
    let mut overflows = 0;
    while case < 500 {
        let constants = CurveConstants {
            round_volume: 1 + next(&mut seed) % 1_000_000_000,
            start_price: 1,
            price_increase_step: 1 + next(&mut seed) % (1u64 << 52),
            increase_from_round: 1,
            decimals_scale: 1 + next(&mut seed) % 1_000_000,
            fee_buy_basis_point: 0,
            fee_denominator: 1,
            max_total_supply: u64::MAX,
            max_per_call_amount: u64::MAX,
        };
        case += 1;
        if !constants.is_valid() {
            continue;
        }
        let supply = next(&mut seed) % (40 * constants.round_volume);
        let net = next(&mut seed) << 11;
        assert_eq!(
            constants.mint_quote(supply, net),
            checked(walk_up(&constants, supply, net))
        );
        let amount = next(&mut seed) % (supply + 1);
        let proceeds = checked(walk_down(&constants, supply, amount));
        if proceeds.is_none() {
            overflows += 1;
        } else {
            fits += 1;
        }
        assert_eq!(constants.burn_quote(supply, amount), proceeds);
    }
    assert!(fits > 0);
    assert!(overflows > 0);
}

#[test]
fn quotes_agree_with_the_plain_walks_at_large_volumes() {
    let mut seed: u64 = 5;
    let mut case = 0;
    let mut fits = 0;
    let mut overflows = 0;
    while case < 500 {
        let constants = CurveConstants {
            round_volume: 1 + (next(&mut seed) << 10),
            start_price: 1,
            price_increase_step: 1 + next(&mut seed) % 4,
            increase_from_round: 1,
            decimals_scale: 1 + next(&mut seed) % 100,
            fee_buy_basis_point: 0,
            fee_denominator: 1,
            max_total_supply: u64::MAX,
            max_per_call_amount: u64::MAX,
        };
        case += 1;
        if !constants.is_valid() {
            continue;
        }
        let supply = next(&mut seed) << 11;
        let net = next(&mut seed) << (next(&mut seed) % 12);
        let tokens = checked(walk_up(&constants, supply, net));
        if tokens.is_none() {
            overflows += 1;
        } else {
            fits += 1;
        }
        assert_eq!(constants.mint_quote(supply, net), tokens);
        let amount = next(&mut seed) % (supply + 1);
        assert_eq!(
            constants.burn_quote(supply, amount),
            checked(walk_down(&constants, supply, amount))
        );
    }
    assert!(fits > 0);
    assert!(overflows > 0);
}
