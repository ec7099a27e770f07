//! How far a quote walks: the rounds that a mint or a burn passes through
//! are no more than the rounds that lie between the supply before and the
//! supply after.

use crate::arith::lemma_div_ge_iff;
use crate::curve::CurveConstants;
use vstd::prelude::*;

verus! {

impl CurveConstants {
    /// A mint walk that sells from two rounds or more sells all that was
    /// for sale in the first and every round between the first and the last.
    pub proof fn lemma_mint_walk_fills_rounds(&self, round: nat, capacity: nat, remaining: nat)
        ensures
            self.mint_walk_rounds(round, capacity, remaining) >= 1,
            self.mint_walk_rounds(round, capacity, remaining) >= 2 ==> self.mint_walk(
                round,
                capacity,
                remaining,
            ) >= capacity + (self.mint_walk_rounds(round, capacity, remaining) - 2)
                * self.round_volume,
        decreases remaining, (if capacity == self.round_volume { 0nat } else { 1nat }),
    {
        let cost = self.cost(capacity, self.price(round));
        if remaining > cost && (cost > 0 || capacity != self.round_volume) {
            let volume = self.round_volume as nat;
            let rest = (remaining - cost) as nat;
            self.lemma_mint_walk_fills_rounds(round + 1, volume, rest);
            let later = self.mint_walk_rounds(round + 1, volume, rest);
            if later >= 2 {
                assert(volume + (later - 2) * volume == (later + 1 - 2) * volume)
                    by (nonlinear_arith);
            } else {
                assert((later + 1 - 2) * volume == 0) by (nonlinear_arith)
                    requires
                        later == 1,
                ;
            }
        }
    }

    /// A mint sells from no more rounds than lie between the round of the
    /// supply before it and the round of the supply after it, both counted.
    pub proof fn lemma_mint_rounds_bounded(&self, supply: nat, net: nat)
        requires
            self.wf(),
        ensures
            self.mint_rounds(supply, net) >= 1,
            self.current_round(supply) + self.mint_rounds(supply, net) <= self.current_round(
                supply + self.mint_tokens(supply, net),
            ) + 1,
    {
        self.lemma_positive();
        let volume = self.round_volume as nat;
        let round = self.current_round(supply);
        let capacity = self.remaining_in_current_round(supply);
        let tokens = self.mint_tokens(supply, net);
        let rounds = self.mint_rounds(supply, net);
        self.lemma_mint_walk_fills_rounds(round, capacity, net);
        vstd::arithmetic::div_mod::lemma_fundamental_div_mod(supply as int, volume as int);
        vstd::arithmetic::div_mod::lemma_mod_bound(supply as int, volume as int);
        let whole = supply / volume;
        let part = supply % volume;
        assert(supply + capacity == round * volume) by (nonlinear_arith)
            requires
                supply == volume * whole + part,
                capacity == volume - part,
                round == whole + 1,
        ;
        if rounds >= 2 {
            let reached = (round + rounds - 2) as nat;
            assert(round * volume + (rounds - 2) * volume == reached * volume)
                by (nonlinear_arith)
                requires
                    reached == round + rounds - 2,
            ;
            lemma_div_ge_iff(supply + tokens, volume, reached);
        } else {
            crate::arith::lemma_div_le(supply, supply + tokens, volume);
        }
    }

    /// A burn walk that takes from two rounds or more takes more than was
    /// sold of the first and than every round between the first and the last.
    pub proof fn lemma_burn_walk_empties_rounds(&self, round: nat, capacity: nat, remaining: nat)
        ensures
            self.burn_walk_rounds(round, capacity, remaining) >= 1,
            self.burn_walk_rounds(round, capacity, remaining) >= 2 ==> remaining > capacity + (
            self.burn_walk_rounds(round, capacity, remaining) - 2) * self.round_volume,
        decreases remaining, (if capacity == 0 { 1nat } else { 0nat }),
    {
        if remaining > capacity && (capacity > 0 || self.round_volume > 0) {
            let volume = self.round_volume as nat;
            let rest = (remaining - capacity) as nat;
            self.lemma_burn_walk_empties_rounds((round - 1) as nat, volume, rest);
            let later = self.burn_walk_rounds((round - 1) as nat, volume, rest);
            if later >= 2 {
                assert(volume + (later - 2) * volume == (later + 1 - 2) * volume)
                    by (nonlinear_arith);
            } else {
                assert((later + 1 - 2) * volume == 0) by (nonlinear_arith)
                    requires
                        later == 1,
                ;
            }
        }
    }

    /// A burn takes from no more rounds than lie between the round of the
    /// supply after it and the round of the supply before it, both counted.
    pub proof fn lemma_burn_rounds_bounded(&self, supply: nat, amount: nat)
        requires
            self.wf(),
            amount <= supply,
        ensures
            self.burn_rounds(supply, amount) >= 1,
            self.current_round((supply - amount) as nat) + self.burn_rounds(supply, amount)
                <= self.current_round(supply) + 1,
    {
        self.lemma_positive();
        let volume = self.round_volume as nat;
        let round = self.current_round(supply);
        let capacity = self.minted_in_current_round(supply);
        let rounds = self.burn_rounds(supply, amount);
        let left = (supply - amount) as nat;
        self.lemma_burn_walk_empties_rounds(round, capacity, amount);
        vstd::arithmetic::div_mod::lemma_fundamental_div_mod(supply as int, volume as int);
        if rounds >= 2 {
            let below = (round - rounds + 1) as int;
            let whole = supply / volume;
            assert(left < below * volume) by (nonlinear_arith)
                requires
                    supply == volume * whole + capacity,
                    round == whole + 1,
                    amount > capacity + (rounds - 2) * volume,
                    left == supply - amount,
                    below == round - rounds + 1,
            ;
            if below >= 0 {
                lemma_div_ge_iff(left, volume, below as nat);
            } else {
                assert(below * volume <= 0) by (nonlinear_arith)
                    requires
                        below < 0,
                        volume > 0,
                ;
            }
        } else {
            crate::arith::lemma_div_le(left, supply, volume);
        }
    }
}

} // verus!
