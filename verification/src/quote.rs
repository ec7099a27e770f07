//! The quotes of the deployed sale, by supply and amount alone.

use crate::curve::CurveConstants;
use crate::curve::INCREASE_FROM_ROUND;
use crate::curve::MAX_TOKEN_AMOUNT;
use crate::curve::PRICE_INCREASE_STEP;
use crate::curve::ROUND_VOLUME;
use crate::curve::START_PRICE;
use vstd::prelude::*;

verus! {

/// The round that the next token is sold in, counted from 1.
pub fn _currenRound(_distributedAmount: u64) -> (round: u64)
    ensures
        round == CurveConstants::deployed_spec().current_round(_distributedAmount as nat),
{
    _distributedAmount / ROUND_VOLUME + 1
}

/// The unit price of round `_round`.
pub fn _priceForRound(_round: u64) -> (price: u64)
    ensures
        price == CurveConstants::deployed_spec().price(_round as nat),
{
    if _round < INCREASE_FROM_ROUND {
        START_PRICE
    } else {
        PRICE_INCREASE_STEP * (_round - INCREASE_FROM_ROUND + 1)
    }
}

/// The unit price of round `_round`, and the tokens of that round that are
/// sold at supply `_distributedAmount`: all of an earlier round, none of a
/// later one.
pub fn _priceInUnitsAndMintedInRound(_distributedAmount: u64, _round: u64) -> (found: (u64, u64))
    ensures
        found.0 == CurveConstants::deployed_spec().price(_round as nat),
        found.1 == CurveConstants::deployed_spec().minted_in_round(
            _distributedAmount as nat,
            _round as nat,
        ),
{
    let price = _priceForRound(_round);
    let cur_round = _currenRound(_distributedAmount);
    let minted = if _round < cur_round {
        ROUND_VOLUME
    } else if _round == cur_round {
        _distributedAmount % ROUND_VOLUME
    } else {
        0
    };
    (price, minted)
}

/// The unit price of round `_round`, and the tokens of that round that are
/// for sale at supply `_distributedAmount`: none of an earlier round, all of
/// a later one.
pub fn _priceInUnitsAndRemainByRound(_distributedAmount: u64, _round: u64) -> (found: (u64, u64))
    ensures
        found.0 == CurveConstants::deployed_spec().price(_round as nat),
        found.1 == CurveConstants::deployed_spec().remaining_in_round(
            _distributedAmount as nat,
            _round as nat,
        ),
{
    let price = _priceForRound(_round);
    let cur_round = _currenRound(_distributedAmount);
    let rest = if _round < cur_round {
        0
    } else if _round == cur_round {
        ROUND_VOLUME - (_distributedAmount % ROUND_VOLUME)
    } else {
        ROUND_VOLUME
    };
    (price, rest)
}

/// The tokens that the payment `_inAmount` buys at supply
/// `_distributedAmount`, and the fee taken from the payment.
///
/// The payment is within the ceiling for one trade. The tokens then fit in
/// 64 bits whatever the supply.
pub fn new_calcMintTokensForExactStable(_distributedAmount: u64, _inAmount: u64) -> (quote: (
    u64,
    u64,
))
    requires
        _inAmount <= MAX_TOKEN_AMOUNT,
    ensures
        quote.0 == CurveConstants::deployed_spec().mint_tokens(
            _distributedAmount as nat,
            CurveConstants::deployed_spec().buy_net(_inAmount as nat),
        ),
        quote.1 == CurveConstants::deployed_spec().buy_fee(_inAmount as nat),
{
    let constants = CurveConstants::deployed();
    let split = constants.split_buy(_inAmount);
    let tokens = constants.mint_quote(_distributedAmount, split.net);
    proof {
        CurveConstants::lemma_deployed_mint_fits(_distributedAmount, _inAmount);
    }
    (tokens.unwrap(), split.fee)
}

/// The payment that burning `_inAmount` tokens gives at supply
/// `_distributedAmount`, after the fee, and the fee.
///
/// No more is burned than is distributed. The gross proceeds then fit in
/// 64 bits.
pub fn new_calcBurnExactTokensForStable(_distributedAmount: u64, _inAmount: u64) -> (quote: (
    u64,
    u64,
))
    requires
        _inAmount <= _distributedAmount,
    ensures
        quote.0 == CurveConstants::deployed_spec().sell_out(
            CurveConstants::deployed_spec().burn_gross(
                _distributedAmount as nat,
                _inAmount as nat,
            ),
        ),
        quote.1 == CurveConstants::deployed_spec().sell_fee(
            CurveConstants::deployed_spec().burn_gross(
                _distributedAmount as nat,
                _inAmount as nat,
            ),
        ),
{
    let constants = CurveConstants::deployed();
    let gross = constants.burn_quote(_distributedAmount, _inAmount);
    proof {
        CurveConstants::lemma_deployed_burn_fits(_distributedAmount, _inAmount);
    }
    let split = constants.split_sell(gross.unwrap());
    (split.net, split.fee)
}

} // verus!
