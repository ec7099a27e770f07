//! The sale's configuration and the three pure functions built on it:
//! the price schedule, the round cursor and the fee splitter.
//!
//! Supply is sold in rounds of `round_volume` tokens. Round `r` (counted
//! from 1) sells every token at `price(r)` payment units per
//! `decimals_scale` tokens.

use vstd::prelude::*;

verus! {

/// Largest distributed supply the sale may reach.
pub const MAX_TOTAL_SUPPLY: u64 = 10_000_000_000_000_000_000;

/// Largest amount a single trade may request.
pub const MAX_TOKEN_AMOUNT: u64 = 10_000_000_000_000;

/// Unit price of the rounds before the ramp.
pub const START_PRICE: u64 = 1;

/// Price added per round on the ramp.
pub const PRICE_INCREASE_STEP: u64 = 1;

/// First round of the ramp.
pub const INCREASE_FROM_ROUND: u64 = 1;

/// Tokens sold per round: one million whole tokens of seven decimals.
pub const ROUND_VOLUME: u64 = 10_000_000_000_000;

/// Ten to the number of decimals of the distributed token.
pub const DECIMALS_SCALE: u64 = 10_000_000;

/// Numerator of the fee ratio.
pub const FEE_PERCENT_POINT: u64 = 50000;

/// Denominator of the fee ratio, before the factor of one hundred.
pub const PERCENT_DENOMINATOR: u64 = 10000;

/// Unit prices below this bound take the 64-bit path when a round is costed.
pub const NARROW_PRICE_LIMIT: u64 = 1_000_000;

/// Configuration of one sale. It is fixed when the sale is deployed.
#[derive(Clone, Copy, Debug, PartialEq, Eq, Structural)]
pub struct CurveConstants {
    /// Tokens sold per round.
    pub round_volume: u64,
    /// Unit price of every round before `increase_from_round`.
    pub start_price: u64,
    /// Unit price of round `increase_from_round`; each later round adds it once more.
    pub price_increase_step: u64,
    /// First round whose price follows the ramp.
    pub increase_from_round: u64,
    /// Ten to the number of decimals of the distributed token.
    pub decimals_scale: u64,
    /// Numerator of the fee ratio.
    pub fee_buy_basis_point: u64,
    /// Denominator of the fee ratio, before the factor of one hundred.
    pub fee_denominator: u64,
    /// Largest distributed supply the sale may reach.
    pub max_total_supply: u64,
    /// Largest amount a single trade may request.
    pub max_per_call_amount: u64,
}

impl CurveConstants {
    /// The configuration the sale is deployed with.
    pub open spec fn deployed_spec() -> CurveConstants {
        CurveConstants {
            round_volume: ROUND_VOLUME,
            start_price: START_PRICE,
            price_increase_step: PRICE_INCREASE_STEP,
            increase_from_round: INCREASE_FROM_ROUND,
            decimals_scale: DECIMALS_SCALE,
            fee_buy_basis_point: FEE_PERCENT_POINT,
            fee_denominator: PERCENT_DENOMINATOR,
            max_total_supply: MAX_TOTAL_SUPPLY,
            max_per_call_amount: MAX_TOKEN_AMOUNT,
        }
    }

    /// Unit price of round `round`.
    pub open spec fn price(&self, round: nat) -> nat {
        if round < self.increase_from_round {
            self.start_price as nat
        } else {
            (self.price_increase_step * (round - self.increase_from_round + 1)) as nat
        }
    }

    /// The lowest unit price of any round from round 1 on.
    pub open spec fn min_price(&self) -> nat {
        if self.increase_from_round >= 2 && self.start_price < self.price_increase_step {
            self.start_price as nat
        } else {
            self.price_increase_step as nat
        }
    }

    /// `100 * fee_denominator`: the part of a gross payment that is not fee.
    pub open spec fn fee_base(&self) -> nat {
        (100 * self.fee_denominator) as nat
    }

    /// A configuration is valid when
    /// - a whole round costs at least one payment unit at every price
    ///   (so prices and the round volume are positive, and a walk over
    ///   whole rounds always uses up some of the payment),
    /// - the fee is a fraction of the amount it is taken from, and
    /// - `100 * fee_denominator + fee_buy_basis_point` fits in 64 bits.
    pub open spec fn wf(&self) -> bool {
        &&& self.decimals_scale > 0
        &&& self.round_volume * self.min_price() >= self.decimals_scale
        &&& self.fee_denominator > 0
        &&& self.fee_buy_basis_point <= self.fee_base()
        &&& self.fee_base() + self.fee_buy_basis_point <= u64::MAX
    }

    /// The round that the next token is sold in.
    pub open spec fn current_round(&self, supply: nat) -> nat {
        supply / (self.round_volume as nat) + 1
    }

    /// Tokens of the current round that are already sold.
    pub open spec fn minted_in_current_round(&self, supply: nat) -> nat {
        supply % (self.round_volume as nat)
    }

    /// Tokens of the current round that are still for sale.
    pub open spec fn remaining_in_current_round(&self, supply: nat) -> nat {
        (self.round_volume - supply % (self.round_volume as nat)) as nat
    }

    /// Tokens of round `round` that are sold at supply `supply`.
    pub open spec fn minted_in_round(&self, supply: nat, round: nat) -> nat {
        if round < self.current_round(supply) {
            self.round_volume as nat
        } else if round == self.current_round(supply) {
            self.minted_in_current_round(supply)
        } else {
            0
        }
    }

    /// Tokens of round `round` that are for sale at supply `supply`.
    pub open spec fn remaining_in_round(&self, supply: nat, round: nat) -> nat {
        if round < self.current_round(supply) {
            0
        } else if round == self.current_round(supply) {
            self.remaining_in_current_round(supply)
        } else {
            self.round_volume as nat
        }
    }

    /// Payment for `tokens` tokens at unit price `price`, rounded down.
    pub open spec fn cost(&self, tokens: nat, price: nat) -> nat {
        tokens * price / (self.decimals_scale as nat)
    }

    /// Tokens that `payment` buys at unit price `price`, rounded down.
    pub open spec fn tokens_for(&self, payment: nat, price: nat) -> nat {
        payment * (self.decimals_scale as nat) / price
    }

    /// What is left of a gross payment `gross` once the buy-side fee is taken.
    pub open spec fn buy_net(&self, gross: nat) -> nat {
        gross * self.fee_base() / (self.fee_base() + self.fee_buy_basis_point as nat)
    }

    /// The buy-side fee on a gross payment `gross`.
    pub open spec fn buy_fee(&self, gross: nat) -> nat {
        (gross - self.buy_net(gross)) as nat
    }

    /// What is paid out of gross proceeds `proceeds` once the sell-side fee is taken.
    pub open spec fn sell_out(&self, proceeds: nat) -> nat {
        proceeds * (self.fee_base() - self.fee_buy_basis_point) as nat / self.fee_base()
    }

    /// The sell-side fee on gross proceeds `proceeds`.
    pub open spec fn sell_fee(&self, proceeds: nat) -> nat {
        (proceeds - self.sell_out(proceeds)) as nat
    }

    /// The configuration the sale is deployed with.
    pub fn deployed() -> (c: CurveConstants)
        ensures
            c == Self::deployed_spec(),
            c.wf(),
    {
        assert(Self::deployed_spec().min_price() == 1);
        CurveConstants {
            round_volume: ROUND_VOLUME,
            start_price: START_PRICE,
            price_increase_step: PRICE_INCREASE_STEP,
            increase_from_round: INCREASE_FROM_ROUND,
            decimals_scale: DECIMALS_SCALE,
            fee_buy_basis_point: FEE_PERCENT_POINT,
            fee_denominator: PERCENT_DENOMINATOR,
            max_total_supply: MAX_TOTAL_SUPPLY,
            max_per_call_amount: MAX_TOKEN_AMOUNT,
        }
    }

    /// Tells whether the configuration is valid.
    pub fn is_valid(&self) -> (valid: bool)
        ensures
            valid == self.wf(),
    {
        if self.decimals_scale == 0 || self.fee_denominator == 0 {
            return false;
        }
        let min_price: u64 = if self.increase_from_round >= 2 && self.start_price
            < self.price_increase_step {
            self.start_price
        } else {
            self.price_increase_step
        };
        assert(self.round_volume * min_price <= u64::MAX * u64::MAX) by (nonlinear_arith)
            requires
                self.round_volume <= u64::MAX,
                min_price <= u64::MAX,
        ;
        let round_cost: u128 = (self.round_volume as u128) * (min_price as u128);
        if round_cost < self.decimals_scale as u128 {
            return false;
        }
        let base: u128 = 100u128 * (self.fee_denominator as u128);
        self.fee_buy_basis_point as u128 <= base && base + self.fee_buy_basis_point as u128
            <= u64::MAX as u128
    }
}

} // verus!
