//! The mint quote engine: how many tokens a net payment buys.
//!
//! The payment is spent round by round, upwards from the round the supply
//! stands in. A round that the payment can more than pay for is bought
//! out whole; the first round it cannot is bought in part, at that round's
//! price, and the walk ends there.

use crate::arith::lemma_div_ge_iff;
use crate::curve::CurveConstants;
use crate::curve::NARROW_PRICE_LIMIT;
use vstd::prelude::*;

verus! {

impl CurveConstants {
    /// Tokens bought with `remaining` payment units when `capacity` tokens
    /// of round `round` are for sale and every later round is untouched.
    ///
    /// A round is bought out when the payment exceeds its cost. (Under a
    /// valid configuration a whole round always costs something, so the
    /// second condition only says that the walk goes on.)
    pub open spec fn mint_walk(&self, round: nat, capacity: nat, remaining: nat) -> nat
        decreases remaining, (if capacity == self.round_volume { 0nat } else { 1nat }),
    {
        let price = self.price(round);
        let cost = self.cost(capacity, price);
        if remaining > cost && (cost > 0 || capacity != self.round_volume) {
            capacity + self.mint_walk(
                round + 1,
                self.round_volume as nat,
                (remaining - cost) as nat,
            )
        } else {
            self.tokens_for(remaining, price)
        }
    }

    /// Rounds that the walk of `mint_walk` sells from, the last one included.
    pub open spec fn mint_walk_rounds(&self, round: nat, capacity: nat, remaining: nat) -> nat
        decreases remaining, (if capacity == self.round_volume { 0nat } else { 1nat }),
    {
        let cost = self.cost(capacity, self.price(round));
        if remaining > cost && (cost > 0 || capacity != self.round_volume) {
            1 + self.mint_walk_rounds(
                round + 1,
                self.round_volume as nat,
                (remaining - cost) as nat,
            )
        } else {
            1
        }
    }

    /// Tokens that a net payment `net` buys at distributed supply `supply`.
    pub open spec fn mint_tokens(&self, supply: nat, net: nat) -> nat {
        self.mint_walk(self.current_round(supply), self.remaining_in_current_round(supply), net)
    }

    /// Rounds that a net payment `net` buys from at distributed supply `supply`.
    pub open spec fn mint_rounds(&self, supply: nat, net: nat) -> nat {
        self.mint_walk_rounds(
            self.current_round(supply),
            self.remaining_in_current_round(supply),
            net,
        )
    }

    /// Under a valid configuration the walk is the plain one: a round is
    /// bought out exactly when the payment exceeds its cost.
    pub proof fn lemma_mint_walk_step(&self, round: nat, capacity: nat, remaining: nat)
        requires
            self.wf(),
            round >= 1,
        ensures
            self.mint_walk(round, capacity, remaining) == (if remaining > self.cost(
                capacity,
                self.price(round),
            ) {
                capacity + self.mint_walk(
                    round + 1,
                    self.round_volume as nat,
                    (remaining - self.cost(capacity, self.price(round))) as nat,
                )
            } else {
                self.tokens_for(remaining, self.price(round))
            }),
    {
        self.lemma_whole_round_costs(round);
    }

    /// The unit price of `round` as far as 128 bits hold it.
    pub open spec fn price_checked(&self, round: nat) -> Option<u128> {
        if self.price(round) <= u128::MAX {
            Some(self.price(round) as u128)
        } else {
            None
        }
    }

    /// The cost of `capacity` tokens of round `round` if `remaining`
    /// exceeds it, that is, if the payment buys the round out.
    ///
    /// Prices under `NARROW_PRICE_LIMIT` are multiplied in 64 bits where the
    /// product fits, all others in 128 bits.
    fn buy_out_cost(
        &self,
        Ghost(round): Ghost<nat>,
        price: Option<u128>,
        capacity: u64,
        remaining: u64,
    ) -> (cost: Option<u64>)
        requires
            self.wf(),
            capacity >= 1,
            price == self.price_checked(round),
        ensures
            cost == (if remaining > self.cost(capacity as nat, self.price(round)) {
                Some(self.cost(capacity as nat, self.price(round)) as u64)
            } else {
                None
            }),
    {
        let ghost true_price = self.price(round);
        let ghost scale = self.decimals_scale as nat;
        let ghost two64: nat = 0x1_0000_0000_0000_0000;
        match price {
            None => {
                proof {
                    assert(capacity as nat * true_price >= two64 * scale) by (nonlinear_arith)
                        requires
                            capacity >= 1,
                            true_price >= two64 * two64,
                            scale < two64,
                    ;
                    lemma_div_ge_iff(capacity as nat * true_price, scale, two64);
                }
                None
            },
            Some(p) => {
                if p < NARROW_PRICE_LIMIT as u128 {
                    match capacity.checked_mul(p as u64) {
                        Some(product) => {
                            let cost: u64 = product / self.decimals_scale;
                            return if remaining > cost {
                                Some(cost)
                            } else {
                                None
                            };
                        },
                        None => {},
                    }
                }
                match (capacity as u128).checked_mul(p) {
                    None => {
                        proof {
                            assert(capacity as nat * true_price >= two64 * scale)
                                by (nonlinear_arith)
                                requires
                                    capacity as nat * true_price >= two64 * two64,
                                    scale < two64,
                            ;
                            lemma_div_ge_iff(capacity as nat * true_price, scale, two64);
                        }
                        None
                    },
                    Some(product) => {
                        let cost: u128 = product / (self.decimals_scale as u128);
                        if (remaining as u128) > cost {
                            Some(cost as u64)
                        } else {
                            None
                        }
                    },
                }
            },
        }
    }

    /// Tokens that `payment` buys at the price of round `round`.
    fn tokens_at(&self, Ghost(round): Ghost<nat>, price: Option<u128>, payment: u64) -> (tokens:
        u128)
        requires
            self.wf(),
            self.price(round) > 0,
            price == self.price_checked(round),
        ensures
            tokens == self.tokens_for(payment as nat, self.price(round)),
    {
        let ghost true_price = self.price(round);
        let ghost scale = self.decimals_scale as nat;
        proof {
            assert(payment as nat * scale < 0x1_0000_0000_0000_0000 * 0x1_0000_0000_0000_0000)
                by (nonlinear_arith)
                requires
                    payment < 0x1_0000_0000_0000_0000,
                    scale < 0x1_0000_0000_0000_0000,
            ;
        }
        match price {
            None => {
                proof {
                    vstd::arithmetic::div_mod::lemma_basic_div(
                        (payment as nat * scale) as int,
                        true_price as int,
                    );
                }
                0
            },
            Some(p) => (payment as u128) * (self.decimals_scale as u128) / p,
        }
    }

    /// Quotes a mint: the tokens that a net payment `net` buys at
    /// distributed supply `supply`, or `None` when that amount does not fit
    /// in 64 bits. Zero is a quote like any other.
    ///
    /// The loop runs once for every round it sells from, `mint_rounds` times.
    pub fn mint_quote(&self, supply: u64, net: u64) -> (quote: Option<u64>)
        requires
            self.wf(),
        ensures
            quote == (if self.mint_tokens(supply as nat, net as nat) <= u64::MAX {
                Some(self.mint_tokens(supply as nat, net as nat) as u64)
            } else {
                None
            }),
    {
        let mut round: u128 = self.round_for_supply(supply);
        let mut capacity: u64 = self.remaining_for_supply(supply);
        let mut remaining: u64 = net;
        let mut tokens: u64 = 0;
        proof {
            self.lemma_positive();
        }
        while remaining > 0
            invariant
                self.wf(),
                1 <= capacity <= self.round_volume,
                1 <= round <= 1 + supply + tokens,
                tokens + self.mint_walk(round as nat, capacity as nat, remaining as nat)
                    == self.mint_tokens(supply as nat, net as nat),
            decreases
                    (if remaining > 0 {
                        self.mint_walk_rounds(round as nat, capacity as nat, remaining as nat)
                    } else {
                        0
                    }),
        {
            proof {
                self.lemma_whole_round_costs(round as nat);
            }
            let price = self.price_wide(round);
            match self.buy_out_cost(Ghost(round as nat), price, capacity, remaining) {
                Some(cost) => {
                    match tokens.checked_add(capacity) {
                        None => {
                            return None;
                        },
                        Some(sum) => {
                            tokens = sum;
                        },
                    }
                    remaining = remaining - cost;
                    round = round + 1;
                    capacity = self.round_volume;
                },
                None => {
                    let last: u128 = self.tokens_at(Ghost(round as nat), price, remaining);
                    if last > (u64::MAX - tokens) as u128 {
                        return None;
                    }
                    tokens = tokens + last as u64;
                    remaining = 0;
                },
            }
        }
        proof {
            self.lemma_whole_round_costs(round as nat);
            assert(self.tokens_for(0, self.price(round as nat)) == 0) by {
                assert(0nat * (self.decimals_scale as nat) == 0) by (nonlinear_arith);
                vstd::arithmetic::div_mod::lemma_div_of0(self.price(round as nat) as int);
            }
        }
        Some(tokens)
    }
}

} // verus!
