//! The burn quote engine: the gross proceeds of handing tokens back.
//!
//! The tokens are taken back round by round, downwards from the round the
//! supply stands in. The first round gives back only what is sold of it,
//! every round below it is whole. Each part is paid at its round's price.

use crate::arith::lemma_div_ge_iff;
use crate::curve::CurveConstants;
use crate::curve::NARROW_PRICE_LIMIT;
use vstd::prelude::*;

verus! {

impl CurveConstants {
    /// Proceeds of `remaining` tokens when `capacity` tokens of round
    /// `round` are sold and every round below it is sold out.
    ///
    /// A round is emptied when more tokens remain than it holds. (The
    /// second condition only says that the walk goes on: a round volume is
    /// never zero under a valid configuration.)
    pub open spec fn burn_walk(&self, round: nat, capacity: nat, remaining: nat) -> nat
        decreases remaining, (if capacity == 0 { 1nat } else { 0nat }),
    {
        let price = self.price(round);
        if remaining > capacity && (capacity > 0 || self.round_volume > 0) {
            self.cost(capacity, price) + self.burn_walk(
                (round - 1) as nat,
                self.round_volume as nat,
                (remaining - capacity) as nat,
            )
        } else {
            self.cost(remaining, price)
        }
    }

    /// Rounds that the walk of `burn_walk` takes tokens from, the last one included.
    pub open spec fn burn_walk_rounds(&self, round: nat, capacity: nat, remaining: nat) -> nat
        decreases remaining, (if capacity == 0 { 1nat } else { 0nat }),
    {
        if remaining > capacity && (capacity > 0 || self.round_volume > 0) {
            1 + self.burn_walk_rounds(
                (round - 1) as nat,
                self.round_volume as nat,
                (remaining - capacity) as nat,
            )
        } else {
            1
        }
    }

    /// Gross proceeds of burning `amount` tokens at distributed supply `supply`.
    pub open spec fn burn_gross(&self, supply: nat, amount: nat) -> nat {
        self.burn_walk(self.current_round(supply), self.minted_in_current_round(supply), amount)
    }

    /// Rounds that burning `amount` tokens at distributed supply `supply` takes from.
    pub open spec fn burn_rounds(&self, supply: nat, amount: nat) -> nat {
        self.burn_walk_rounds(
            self.current_round(supply),
            self.minted_in_current_round(supply),
            amount,
        )
    }

    /// Under a valid configuration the walk is the plain one: a round is
    /// emptied exactly when more tokens remain than it holds.
    pub proof fn lemma_burn_walk_step(&self, round: nat, capacity: nat, remaining: nat)
        requires
            self.wf(),
        ensures
            self.burn_walk(round, capacity, remaining) == (if remaining > capacity {
                self.cost(capacity, self.price(round)) + self.burn_walk(
                    (round - 1) as nat,
                    self.round_volume as nat,
                    (remaining - capacity) as nat,
                )
            } else {
                self.cost(remaining, self.price(round))
            }),
    {
        self.lemma_positive();
    }

    /// Proceeds of `tokens` tokens at the price of round `round`, or `None`
    /// when they do not fit in 64 bits.
    ///
    /// Prices under `NARROW_PRICE_LIMIT` are multiplied in 64 bits where the
    /// product fits, all others in 128 bits.
    fn proceeds_at(&self, Ghost(round): Ghost<nat>, price: Option<u128>, tokens: u64) -> (proceeds:
        Option<u64>)
        requires
            self.wf(),
            price == self.price_checked(round),
        ensures
            proceeds == (if self.cost(tokens as nat, self.price(round)) <= u64::MAX {
                Some(self.cost(tokens as nat, self.price(round)) as u64)
            } else {
                None
            }),
    {
        let ghost true_price = self.price(round);
        let ghost scale = self.decimals_scale as nat;
        let ghost two64: nat = 0x1_0000_0000_0000_0000;
        if tokens == 0 {
            proof {
                assert(0nat * true_price == 0) by (nonlinear_arith);
                vstd::arithmetic::div_mod::lemma_div_of0(scale as int);
            }
            return Some(0);
        }
        match price {
            None => {
                proof {
                    assert(tokens as nat * true_price >= two64 * scale) by (nonlinear_arith)
                        requires
                            tokens >= 1,
                            true_price >= two64 * two64,
                            scale < two64,
                    ;
                    lemma_div_ge_iff(tokens as nat * true_price, scale, two64);
                }
                None
            },
            Some(p) => {
                if p < NARROW_PRICE_LIMIT as u128 {
                    match tokens.checked_mul(p as u64) {
                        Some(product) => {
                            return Some(product / self.decimals_scale);
                        },
                        None => {},
                    }
                }
                match (tokens as u128).checked_mul(p) {
                    None => {
                        proof {
                            assert(tokens as nat * true_price >= two64 * scale)
                                by (nonlinear_arith)
                                requires
                                    tokens as nat * true_price >= two64 * two64,
                                    scale < two64,
                            ;
                            lemma_div_ge_iff(tokens as nat * true_price, scale, two64);
                        }
                        None
                    },
                    Some(product) => {
                        let proceeds: u128 = product / (self.decimals_scale as u128);
                        if proceeds > u64::MAX as u128 {
                            None
                        } else {
                            Some(proceeds as u64)
                        }
                    },
                }
            },
        }
    }

    /// Quotes a burn: the gross proceeds, before the fee, of handing back
    /// `amount` tokens at distributed supply `supply`, or `None` when they
    /// do not fit in 64 bits. Zero is a quote like any other.
    ///
    /// No more can be burned than is distributed. The walk then never
    /// goes below round 1, and the loop runs once for every round it takes
    /// tokens from, `burn_rounds` times.
    pub fn burn_quote(&self, supply: u64, amount: u64) -> (quote: Option<u64>)
        requires
            self.wf(),
            amount <= supply,
        ensures
            quote == (if self.burn_gross(supply as nat, amount as nat) <= u64::MAX {
                Some(self.burn_gross(supply as nat, amount as nat) as u64)
            } else {
                None
            }),
    {
        let mut round: u128 = self.round_for_supply(supply);
        let mut capacity: u64 = self.minted_for_supply(supply);
        let mut remaining: u64 = amount;
        let mut gross: u64 = 0;
        proof {
            self.lemma_positive();
            vstd::arithmetic::div_mod::lemma_fundamental_div_mod(
                supply as int,
                self.round_volume as int,
            );
            assert((round - 1) * self.round_volume == self.round_volume * (supply as int
                / self.round_volume as int)) by (nonlinear_arith)
                requires
                    round - 1 == supply as int / self.round_volume as int,
            ;
        }
        while remaining > 0
            invariant
                self.wf(),
                self.round_volume > 0,
                capacity <= self.round_volume,
                1 <= round <= 0x1_0000_0000_0000_0000,
                remaining <= capacity + (round - 1) * self.round_volume,
                gross + self.burn_walk(round as nat, capacity as nat, remaining as nat)
                    == self.burn_gross(supply as nat, amount as nat),
            decreases
                    (if remaining > 0 {
                        self.burn_walk_rounds(round as nat, capacity as nat, remaining as nat)
                    } else {
                        0
                    }),
        {
            let price = self.price_wide(round);
            if remaining > capacity {
                proof {
                    let volume = self.round_volume as int;
                    assert(round >= 2 && (round - 1) * volume == volume + (round - 2) * volume)
                        by (nonlinear_arith)
                        requires
                            (round - 1) * volume > 0,
                            round >= 1,
                    ;
                }
                let part = match self.proceeds_at(Ghost(round as nat), price, capacity) {
                    None => {
                        return None;
                    },
                    Some(part) => part,
                };
                match gross.checked_add(part) {
                    None => {
                        return None;
                    },
                    Some(sum) => {
                        gross = sum;
                    },
                }
                remaining = remaining - capacity;
                round = round - 1;
                capacity = self.round_volume;
            } else {
                let part = match self.proceeds_at(Ghost(round as nat), price, remaining) {
                    None => {
                        return None;
                    },
                    Some(part) => part,
                };
                match gross.checked_add(part) {
                    None => {
                        return None;
                    },
                    Some(sum) => {
                        gross = sum;
                    },
                }
                remaining = 0;
            }
        }
        proof {
            assert(self.cost(0, self.price(round as nat)) == 0) by {
                assert(0nat * self.price(round as nat) == 0) by (nonlinear_arith);
                vstd::arithmetic::div_mod::lemma_div_of0(self.decimals_scale as int);
            }
        }
        Some(gross)
    }
}

} // verus!
