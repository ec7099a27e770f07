//! The fee splitter.
//!
//! Both sides take their fee by the same two constants, but not by the
//! same ratio. A buy keeps `base / (base + point)` of what is paid, a sell
//! pays out `(base - point) / base` of the proceeds, where `base` is
//! `100 * fee_denominator` and `point` is `fee_buy_basis_point`.

use crate::arith::lemma_fraction_le;
use crate::arith::mul_div_u64;
use crate::curve::CurveConstants;
use vstd::prelude::*;

verus! {

/// A gross amount split into what is passed on and the fee kept.
#[derive(Clone, Copy, Debug, PartialEq, Eq, Structural)]
pub struct FeeSplit {
    /// The amount after the fee.
    pub net: u64,
    /// The fee.
    pub fee: u64,
}

impl CurveConstants {
    /// The buy-side split gives back the gross payment: `net + fee == gross`.
    pub proof fn lemma_buy_split_adds_up(&self, gross: nat)
        requires
            self.wf(),
        ensures
            self.buy_net(gross) <= gross,
            self.buy_net(gross) + self.buy_fee(gross) == gross,
    {
        lemma_fraction_le(
            gross,
            self.fee_base(),
            self.fee_base() + self.fee_buy_basis_point as nat,
        );
    }

    /// The sell-side split gives back the gross proceeds: `out + fee == proceeds`.
    pub proof fn lemma_sell_split_adds_up(&self, proceeds: nat)
        requires
            self.wf(),
        ensures
            self.sell_out(proceeds) <= proceeds,
            self.sell_out(proceeds) + self.sell_fee(proceeds) == proceeds,
    {
        lemma_fraction_le(
            proceeds,
            (self.fee_base() - self.fee_buy_basis_point) as nat,
            self.fee_base(),
        );
    }

    /// Splits a gross payment into the net amount that buys tokens and the fee.
    pub fn split_buy(&self, gross: u64) -> (split: FeeSplit)
        requires
            self.wf(),
        ensures
            split.net == self.buy_net(gross as nat),
            split.fee == self.buy_fee(gross as nat),
            split.net + split.fee == gross,
    {
        let base: u64 = 100 * self.fee_denominator;
        let whole: u64 = base + self.fee_buy_basis_point;
        proof {
            self.lemma_buy_split_adds_up(gross as nat);
        }
        let net: u64 = mul_div_u64(gross, base, whole).unwrap();
        FeeSplit { net, fee: gross - net }
    }

    /// Splits gross proceeds into the amount paid out and the fee.
    pub fn split_sell(&self, proceeds: u64) -> (split: FeeSplit)
        requires
            self.wf(),
        ensures
            split.net == self.sell_out(proceeds as nat),
            split.fee == self.sell_fee(proceeds as nat),
            split.net + split.fee == proceeds,
    {
        let base: u64 = 100 * self.fee_denominator;
        let kept: u64 = base - self.fee_buy_basis_point;
        proof {
            self.lemma_sell_split_adds_up(proceeds as nat);
        }
        let out: u64 = mul_div_u64(proceeds, kept, base).unwrap();
        FeeSplit { net: out, fee: proceeds - out }
    }
}

} // verus!
