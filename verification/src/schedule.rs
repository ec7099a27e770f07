//! The price schedule and the round cursor, computed.

use crate::curve::CurveConstants;
use vstd::prelude::*;

verus! {

impl CurveConstants {
    /// Prices never fall from one round to the next when the ramp starts
    /// at round 1 or the start price does not exceed the first ramp price.
    pub open spec fn ascending(&self) -> bool {
        self.increase_from_round <= 1 || self.start_price <= self.price_increase_step
    }

    /// A valid configuration has a positive round volume and positive prices.
    pub proof fn lemma_positive(&self)
        requires
            self.wf(),
        ensures
            self.round_volume > 0,
            self.min_price() > 0,
            self.price_increase_step > 0,
            self.increase_from_round >= 2 ==> self.start_price > 0,
    {
        let volume = self.round_volume as nat;
        let lowest = self.min_price();
        assert(volume > 0 && lowest > 0) by (nonlinear_arith)
            requires
                volume * lowest >= self.decimals_scale,
                self.decimals_scale > 0,
        ;
    }

    /// From round 1 on no price is below `min_price`.
    pub proof fn lemma_price_at_least_min(&self, round: nat)
        requires
            round >= 1,
        ensures
            self.price(round) >= self.min_price(),
    {
        if round >= self.increase_from_round {
            let step = self.price_increase_step as nat;
            let k = (round - self.increase_from_round + 1) as nat;
            assert(step * k >= step) by (nonlinear_arith)
                requires
                    k >= 1,
            ;
        }
    }

    /// Under a valid configuration a whole round costs at least one payment
    /// unit, whatever round it is.
    pub proof fn lemma_whole_round_costs(&self, round: nat)
        requires
            self.wf(),
            round >= 1,
        ensures
            self.price(round) > 0,
            self.cost(self.round_volume as nat, self.price(round)) >= 1,
    {
        self.lemma_positive();
        self.lemma_price_at_least_min(round);
        let volume = self.round_volume as nat;
        let price = self.price(round);
        let lowest = self.min_price();
        assert(volume * price >= volume * lowest) by (nonlinear_arith)
            requires
                price >= lowest,
        ;
        crate::arith::lemma_div_ge_iff(volume * price, self.decimals_scale as nat, 1);
    }

    /// The schedule is monotonic: of two rounds the later one is never
    /// cheaper, provided the configuration is `ascending`.
    pub proof fn lemma_price_monotonic(&self, r1: nat, r2: nat)
        requires
            self.ascending(),
            1 <= r1 < r2,
        ensures
            self.price(r1) <= self.price(r2),
    {
        let step = self.price_increase_step as nat;
        if r1 >= self.increase_from_round {
            let k1 = (r1 - self.increase_from_round + 1) as nat;
            let k2 = (r2 - self.increase_from_round + 1) as nat;
            assert(step * k1 <= step * k2) by (nonlinear_arith)
                requires
                    k1 <= k2,
            ;
        } else if r2 >= self.increase_from_round {
            let k2 = (r2 - self.increase_from_round + 1) as nat;
            assert(step * k2 >= step) by (nonlinear_arith)
                requires
                    k2 >= 1,
            ;
        }
    }

    /// Unit price of round `round`.
    pub fn price_for_round(&self, round: u64) -> (price: u128)
        ensures
            price == self.price(round as nat),
    {
        if round < self.increase_from_round {
            self.start_price as u128
        } else {
            let rounds_on_ramp: u128 = (round - self.increase_from_round) as u128 + 1;
            assert(self.price_increase_step * rounds_on_ramp <= u64::MAX * 0x1_0000_0000_0000_0000)
                by (nonlinear_arith)
                requires
                    self.price_increase_step <= u64::MAX,
                    rounds_on_ramp <= 0x1_0000_0000_0000_0000,
            ;
            (self.price_increase_step as u128) * rounds_on_ramp
        }
    }

    /// Unit price of round `round`, or `None` when it does not fit in 128 bits.
    pub(crate) fn price_wide(&self, round: u128) -> (price: Option<u128>)
        requires
            round < u128::MAX,
        ensures
            price == (if self.price(round as nat) <= u128::MAX {
                Some(self.price(round as nat) as u128)
            } else {
                None
            }),
    {
        if round < self.increase_from_round as u128 {
            Some(self.start_price as u128)
        } else {
            let rounds_on_ramp: u128 = round - self.increase_from_round as u128 + 1;
            (self.price_increase_step as u128).checked_mul(rounds_on_ramp)
        }
    }

    /// The round that the next token is sold in, counted from 1.
    pub fn round_for_supply(&self, supply: u64) -> (round: u128)
        requires
            self.wf(),
        ensures
            round == self.current_round(supply as nat),
            1 <= round <= 0x1_0000_0000_0000_0000,
    {
        proof {
            self.lemma_positive();
        }
        (supply / self.round_volume) as u128 + 1
    }

    /// Tokens of the current round that are still for sale. Never zero.
    pub fn remaining_for_supply(&self, supply: u64) -> (tokens: u64)
        requires
            self.wf(),
        ensures
            tokens == self.remaining_in_current_round(supply as nat),
            1 <= tokens <= self.round_volume,
    {
        proof {
            self.lemma_positive();
        }
        self.round_volume - supply % self.round_volume
    }

    /// Tokens of the current round that are already sold.
    pub fn minted_for_supply(&self, supply: u64) -> (tokens: u64)
        requires
            self.wf(),
        ensures
            tokens == self.minted_in_current_round(supply as nat),
            tokens < self.round_volume,
    {
        proof {
            self.lemma_positive();
        }
        supply % self.round_volume
    }
}

} // verus!
