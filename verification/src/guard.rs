//! The guards around the two quote engines: the ceiling on one trade, the
//! ceiling on the distributed supply, the refusal of empty trades and the
//! caller's lower bound on what a mint gives.
//!
//! A guarded quote decides on amounts alone. It changes nothing.

use crate::curve::CurveConstants;
use crate::error::Failure;
use crate::error::TokenError;
use vstd::prelude::*;

verus! {

/// The outcome of one mint or burn calculation.
#[derive(Clone, Copy, Debug, PartialEq, Eq, Structural)]
pub struct Quote {
    /// What the caller hands in: payment for a mint, tokens for a burn.
    pub amount_in: u64,
    /// What the caller gets: tokens for a mint, payment for a burn.
    pub amount_out: u64,
    /// The fee, in payment units.
    pub fee: u64,
}

impl CurveConstants {
    /// The decision on a mint of `in_amount` payment units at distributed
    /// supply `supply`, where the caller accepts no fewer than `min_out`
    /// tokens. The checks come in this order:
    /// 1. the payment is within the ceiling for one trade;
    /// 2. the payment, less the fee, buys at least one token unit;
    /// 3. the supply with the new tokens is within its ceiling;
    /// 4. the tokens are no fewer than the caller accepts.
    pub open spec fn mint_decision(&self, supply: nat, in_amount: nat, min_out: nat) -> Result<
        Quote,
        TokenError,
    > {
        let out = self.mint_tokens(supply, self.buy_net(in_amount));
        if in_amount > self.max_per_call_amount {
            Err(TokenError::MAX_TOKEN_AMOUNT)
        } else if out == 0 {
            Err(TokenError::ZeroBuy)
        } else if out + supply > self.max_total_supply {
            Err(TokenError::MAX_TOTAL_SUPPLY)
        } else if out < min_out {
            Err(TokenError::Slippage_occur)
        } else {
            Ok(
                Quote {
                    amount_in: in_amount as u64,
                    amount_out: out as u64,
                    fee: self.buy_fee(in_amount) as u64,
                },
            )
        }
    }

    /// The decision on a burn of `amount` tokens at distributed supply
    /// `supply`. The checks come in this order:
    /// 1. the amount is within the ceiling for one trade;
    /// 2. no more is burned than is distributed;
    /// 3. the gross proceeds fit in 64 bits;
    /// 4. the proceeds, less the fee, come to at least one payment unit.
    pub open spec fn burn_decision(&self, supply: nat, amount: nat) -> Result<Quote, Failure> {
        let gross = self.burn_gross(supply, amount);
        if amount > self.max_per_call_amount {
            Err(Failure::Rejected(TokenError::MAX_TOKEN_AMOUNT))
        } else if amount > supply {
            Err(Failure::BurnExceedsSupply)
        } else if gross > u64::MAX {
            Err(Failure::AmountOverflow)
        } else if self.sell_out(gross) == 0 {
            Err(Failure::Rejected(TokenError::ZeroBuy))
        } else {
            Ok(
                Quote {
                    amount_in: amount as u64,
                    amount_out: self.sell_out(gross) as u64,
                    fee: self.sell_fee(gross) as u64,
                },
            )
        }
    }

    /// A request over the ceiling for one trade is rejected as such,
    /// whatever the supply and whatever a quote would have come to.
    pub proof fn lemma_per_call_ceiling(&self, supply: nat, in_amount: nat, min_out: nat)
        requires
            in_amount > self.max_per_call_amount,
        ensures
            self.mint_decision(supply, in_amount, min_out) == Err::<Quote, TokenError>(
                TokenError::MAX_TOKEN_AMOUNT,
            ),
            self.burn_decision(supply, in_amount) == Err::<Quote, Failure>(
                Failure::Rejected(TokenError::MAX_TOKEN_AMOUNT),
            ),
    {
    }

    /// A mint that is within the ceiling for one trade and buys something
    /// is rejected for the supply ceiling exactly when the supply with the
    /// new tokens is over it, and never goes through with a supply over it.
    pub proof fn lemma_supply_ceiling(&self, supply: nat, in_amount: nat, min_out: nat)
        requires
            in_amount <= self.max_per_call_amount,
            self.mint_tokens(supply, self.buy_net(in_amount)) > 0,
        ensures
            self.mint_tokens(supply, self.buy_net(in_amount)) + supply > self.max_total_supply
                <==> self.mint_decision(supply, in_amount, min_out) == Err::<Quote, TokenError>(
                TokenError::MAX_TOTAL_SUPPLY,
            ),
            self.mint_decision(supply, in_amount, min_out) matches Ok(quote) ==> quote.amount_out
                + supply <= self.max_total_supply,
    {
    }

    /// Quotes a mint and holds the quote to the guards.
    pub fn quote_mint(&self, supply: u64, in_amount: u64, min_out: u64) -> (decision: Result<
        Quote,
        TokenError,
    >)
        requires
            self.wf(),
        ensures
            decision == self.mint_decision(supply as nat, in_amount as nat, min_out as nat),
    {
        if in_amount > self.max_per_call_amount {
            return Err(TokenError::MAX_TOKEN_AMOUNT);
        }
        let split = self.split_buy(in_amount);
        let out: u64 = match self.mint_quote(supply, split.net) {
            None => {
                return Err(TokenError::MAX_TOTAL_SUPPLY);
            },
            Some(out) => out,
        };
        if out == 0 {
            return Err(TokenError::ZeroBuy);
        }
        if out as u128 + supply as u128 > self.max_total_supply as u128 {
            return Err(TokenError::MAX_TOTAL_SUPPLY);
        }
        if out < min_out {
            return Err(TokenError::Slippage_occur);
        }
        Ok(Quote { amount_in: in_amount, amount_out: out, fee: split.fee })
    }

    /// Quotes a burn and holds the quote to the guards.
    pub fn quote_burn(&self, supply: u64, amount: u64) -> (decision: Result<Quote, Failure>)
        requires
            self.wf(),
        ensures
            decision == self.burn_decision(supply as nat, amount as nat),
    {
        if amount > self.max_per_call_amount {
            return Err(Failure::Rejected(TokenError::MAX_TOKEN_AMOUNT));
        }
        if amount > supply {
            return Err(Failure::BurnExceedsSupply);
        }
        let gross: u64 = match self.burn_quote(supply, amount) {
            None => {
                return Err(Failure::AmountOverflow);
            },
            Some(gross) => gross,
        };
        let split = self.split_sell(gross);
        if split.net == 0 {
            return Err(Failure::Rejected(TokenError::ZeroBuy));
        }
        Ok(Quote { amount_in: amount, amount_out: split.net, fee: split.fee })
    }
}

} // verus!
