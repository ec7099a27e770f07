//! How large a quote can get.
//!
//! A burn never gives more than its tokens are worth at the price of the
//! round the supply stands in. And at the deployed configuration both
//! quotes stay within 64 bits for every trade that the guards let through.

use crate::arith::lemma_div_ge_iff;
use crate::arith::lemma_div_le;
use crate::curve::CurveConstants;
use crate::curve::MAX_TOKEN_AMOUNT;
use crate::curve::ROUND_VOLUME;
use vstd::prelude::*;

verus! {

/// Two quotients rounded down come to no more than the quotient of the sum.
pub proof fn lemma_div_sum(a: nat, b: nat, d: nat)
    requires
        d > 0,
    ensures
        a / d + b / d <= (a + b) / d,
{
    vstd::arithmetic::div_mod::lemma_fundamental_div_mod(a as int, d as int);
    vstd::arithmetic::div_mod::lemma_fundamental_div_mod(b as int, d as int);
    let qa = a / d;
    let qb = b / d;
    assert((qa + qb) * d == d * qa + d * qb) by (nonlinear_arith);
    lemma_div_ge_iff(a + b, d, qa + qb);
}

impl CurveConstants {
    /// Under rising prices a burn walk gives no more than what is burned
    /// costs at the price of the round it starts in, as long as no more is
    /// burned than is distributed below the cursor.
    pub proof fn lemma_burn_walk_within_top_price(&self, round: nat, capacity: nat, remaining: nat)
        requires
            self.wf(),
            self.ascending(),
            round >= 1,
            remaining <= capacity + (round - 1) * self.round_volume,
        ensures
            self.burn_walk(round, capacity, remaining) <= self.cost(remaining, self.price(round)),
        decreases remaining, (if capacity == 0 { 1nat } else { 0nat }),
    {
        self.lemma_positive();
        let volume = self.round_volume as nat;
        let scale = self.decimals_scale as nat;
        let price = self.price(round);
        if remaining > capacity {
            let rest = (remaining - capacity) as nat;
            assert(round >= 2 && (round - 1) * volume == volume + (round - 2) * volume)
                by (nonlinear_arith)
                requires
                    (round - 1) * volume > 0,
                    round >= 1,
            ;
            let below = (round - 1) as nat;
            self.lemma_burn_walk_within_top_price(below, volume, rest);
            self.lemma_price_monotonic(below, round);
            let lower = self.price(below);
            assert(rest * lower <= rest * price) by (nonlinear_arith)
                requires
                    lower <= price,
            ;
            lemma_div_le(rest * lower, rest * price, scale);
            lemma_div_sum(capacity * price, rest * price, scale);
            assert(capacity * price + rest * price == remaining * price) by (nonlinear_arith)
                requires
                    capacity + rest == remaining,
            ;
        }
    }

    /// Under rising prices a burn gives no more than what is burned costs
    /// at the price of the round the supply stands in.
    pub proof fn lemma_burn_within_top_price(&self, supply: nat, amount: nat)
        requires
            self.wf(),
            self.ascending(),
            amount <= supply,
        ensures
            self.burn_gross(supply, amount) <= self.cost(
                amount,
                self.price(self.current_round(supply)),
            ),
    {
        self.lemma_positive();
        let volume = self.round_volume as nat;
        let whole = supply / volume;
        vstd::arithmetic::div_mod::lemma_fundamental_div_mod(supply as int, volume as int);
        assert((whole + 1 - 1) * volume == volume * whole) by (nonlinear_arith);
        self.lemma_burn_walk_within_top_price(
            self.current_round(supply),
            self.minted_in_current_round(supply),
            amount,
        );
    }

    /// At the deployed configuration the gross proceeds of every burn of
    /// no more than is distributed fit in 64 bits.
    pub proof fn lemma_deployed_burn_fits(supply: u64, amount: u64)
        requires
            amount <= supply,
        ensures
            Self::deployed_spec().burn_gross(supply as nat, amount as nat) <= u64::MAX,
    {
        let c = Self::deployed_spec();
        assert(c.min_price() == 1);
        assert(c.wf());
        c.lemma_burn_within_top_price(supply as nat, amount as nat);
        let round = c.current_round(supply as nat);
        assert(round <= 1_844_675);
        assert(c.price(round) == round);
        let worth = amount as nat * round;
        assert(worth <= 0xffff_ffff_ffff_ffff * 1_844_675) by (nonlinear_arith)
            requires
                worth == amount as nat * round,
                amount <= 0xffff_ffff_ffff_ffff,
                round <= 1_844_675,
        ;
        lemma_div_le(worth, 0xffff_ffff_ffff_ffff * 1_844_675, 10_000_000);
    }

    /// At the deployed configuration, a mint walk that starts in round
    /// `round`, the `index`-th round or a later one, sells at most a whole
    /// round per round it sells from, and pays at least a million times
    /// their position for the rounds it buys out.
    proof fn lemma_deployed_mint_walk_bound(index: nat, round: nat, capacity: nat, remaining: nat)
        requires
            round >= 1,
            round >= index,
            1 <= capacity <= ROUND_VOLUME,
            capacity == ROUND_VOLUME || index == 0,
        ensures
            Self::deployed_spec().mint_walk(round, capacity, remaining)
                <= Self::deployed_spec().mint_walk_rounds(round, capacity, remaining)
                * ROUND_VOLUME,
            1_000_000 * ((index + Self::deployed_spec().mint_walk_rounds(
                round,
                capacity,
                remaining,
            ) - 1) * (index + Self::deployed_spec().mint_walk_rounds(round, capacity, remaining)
                - 2)) <= 2 * remaining + 1_000_000 * (index * (index - 1)),
        decreases remaining, (if capacity == ROUND_VOLUME { 0nat } else { 1nat }),
    {
        let c = Self::deployed_spec();
        let volume = ROUND_VOLUME as nat;
        assert(c.price(round) == round);
        let cost = c.cost(capacity, round);
        assert(cost == capacity * round / 10_000_000);
        if capacity == ROUND_VOLUME {
            assert(capacity * round == 10_000_000 * (1_000_000 * round)) by (nonlinear_arith)
                requires
                    capacity == 10_000_000_000_000,
            ;
            vstd::arithmetic::div_mod::lemma_div_multiples_vanish(
                (1_000_000 * round) as int,
                10_000_000,
            );
            assert(cost == 1_000_000 * round);
        }
        if remaining > cost && (cost > 0 || capacity != ROUND_VOLUME) {
            let rest = (remaining - cost) as nat;
            Self::lemma_deployed_mint_walk_bound(index + 1, round + 1, volume, rest);
            let later = c.mint_walk_rounds(round + 1, volume, rest);
            assert(c.mint_walk_rounds(round, capacity, remaining) == later + 1);
            assert(capacity + later * volume <= (later + 1) * volume) by (nonlinear_arith)
                requires
                    capacity <= volume,
            ;
            assert(cost >= 1_000_000 * index) by (nonlinear_arith)
                requires
                    capacity == ROUND_VOLUME ==> cost == 1_000_000 * round,
                    capacity == ROUND_VOLUME || index == 0,
                    round >= index,
                    cost >= 0,
            ;
            assert(1_000_000 * ((index + 1) * (index + 1 - 1)) - 2 * (1_000_000 * index)
                == 1_000_000 * (index * (index - 1))) by (nonlinear_arith);
        } else {
            assert(remaining <= cost);
            vstd::arithmetic::div_mod::lemma_fundamental_div_mod(
                (capacity * round) as int,
                10_000_000,
            );
            assert(remaining * 10_000_000 <= capacity * round) by (nonlinear_arith)
                requires
                    remaining <= cost,
                    capacity * round == 10_000_000 * cost + (capacity * round) % 10_000_000,
                    (capacity * round) % 10_000_000 >= 0,
            ;
            lemma_div_le(remaining * 10_000_000, capacity * round, round);
            vstd::arithmetic::div_mod::lemma_div_multiples_vanish(capacity as int, round as int);
            assert(capacity * round == round * capacity) by (nonlinear_arith);
            assert(c.mint_walk(round, capacity, remaining) == remaining * 10_000_000 / round);
            assert(1 * volume == volume) by (nonlinear_arith);
            assert((index + 1 - 1) * (index + 1 - 2) == index * (index - 1)) by (nonlinear_arith);
        }
    }

    /// At the deployed configuration the tokens of every mint for a payment
    /// within the ceiling for one trade fit in 64 bits, whatever the supply.
    pub proof fn lemma_deployed_mint_fits(supply: u64, in_amount: u64)
        requires
            in_amount <= MAX_TOKEN_AMOUNT,
        ensures
            Self::deployed_spec().mint_tokens(
                supply as nat,
                Self::deployed_spec().buy_net(in_amount as nat),
            ) <= 4473 * ROUND_VOLUME,
    {
        let c = Self::deployed_spec();
        assert(c.min_price() == 1);
        assert(c.wf());
        c.lemma_buy_split_adds_up(in_amount as nat);
        let net = c.buy_net(in_amount as nat);
        let round = c.current_round(supply as nat);
        let capacity = c.remaining_in_current_round(supply as nat);
        Self::lemma_deployed_mint_walk_bound(0, round, capacity, net);
        let rounds = c.mint_walk_rounds(round, capacity, net) as int;
        c.lemma_mint_walk_fills_rounds(round, capacity, net);
        assert(rounds <= 4473) by (nonlinear_arith)
            requires
                rounds >= 1,
                1_000_000 * ((rounds - 1) * (rounds - 2)) <= 20_000_000_000_000,
        ;
        assert(rounds * ROUND_VOLUME <= 4473 * ROUND_VOLUME) by (nonlinear_arith)
            requires
                rounds <= 4473,
        ;
    }
}

} // verus!
