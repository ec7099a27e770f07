//! The sale's persistent state: the accounts it is bound to and the fee
//! ledger.
//!
//! Every trade adds its fee to `total`; every claim adds what it pays out
//! to `claimed`. What is claimed never exceeds what has accrued.

use crate::address::Address;
use vstd::prelude::*;

verus! {

/// The one record that the sale keeps between operations.
#[derive(Clone, Copy, Debug)]
pub struct State {
    /// The mint of the distributed token.
    pub mint_account: Address,
    /// The mint of the token that trades are paid in.
    pub trade_token_address: Address,
    /// All fees accrued so far.
    pub total: u64,
    /// The fees paid out so far.
    pub claimed: u64,
    /// Who may claim fees.
    pub claim_authority: Address,
}

/// What the fee ledger sees of an operation.
pub enum LedgerEvent {
    /// A trade that charged `fee`.
    Trade { fee: u64 },
    /// A request by the claim authority to be paid `amount`.
    Claim { amount: u64 },
}

impl State {
    /// Length of the stored record: three addresses and two counters.
    pub const LEN: usize = 32 + 32 + 8 + 8 + 32;

    /// No more is claimed than has accrued.
    pub open spec fn wf(&self) -> bool {
        self.claimed <= self.total
    }

    /// The fees that have accrued and are not yet claimed.
    pub open spec fn unclaimed(&self) -> nat {
        (self.total - self.claimed) as nat
    }

    /// The state of a sale that starts: bound to its accounts, nothing
    /// accrued, nothing claimed.
    pub open spec fn initial(
        mint_account: Address,
        trade_token_address: Address,
        claim_authority: Address,
    ) -> State {
        State { mint_account, trade_token_address, total: 0, claimed: 0, claim_authority }
    }

    /// The state with `fee` added to the accrued fees.
    pub open spec fn with_fee(self, fee: u64) -> State {
        State { total: (self.total + fee) as u64, ..self }
    }

    /// The state with `amount` added to the claimed fees.
    pub open spec fn with_claim(self, amount: u64) -> State {
        State { claimed: (self.claimed + amount) as u64, ..self }
    }

    /// The state after one event. An event that cannot be booked leaves the
    /// state as it is: a fee that takes `total` beyond 64 bits, and a claim
    /// of more than is unclaimed.
    pub open spec fn after(self, event: LedgerEvent) -> State {
        match event {
            LedgerEvent::Trade { fee } => if self.total + fee <= u64::MAX {
                self.with_fee(fee)
            } else {
                self
            },
            LedgerEvent::Claim { amount } => if amount <= self.unclaimed() {
                self.with_claim(amount)
            } else {
                self
            },
        }
    }

    /// The state after a run of events, first to last.
    pub open spec fn after_all(self, events: Seq<LedgerEvent>) -> State
        decreases events.len(),
    {
        if events.len() == 0 {
            self
        } else {
            self.after_all(events.drop_last()).after(events.last())
        }
    }

    /// Whatever trades and claims come in whatever order, the claimed fees
    /// never exceed the accrued fees, neither counter ever falls, and the
    /// accounts the sale is bound to stay the same.
    pub proof fn lemma_claimed_within_total(self, events: Seq<LedgerEvent>)
        requires
            self.wf(),
        ensures
            self.after_all(events).wf(),
            self.after_all(events).total >= self.total,
            self.after_all(events).claimed >= self.claimed,
            self.after_all(events).mint_account == self.mint_account,
            self.after_all(events).trade_token_address == self.trade_token_address,
            self.after_all(events).claim_authority == self.claim_authority,
        decreases events.len(),
    {
        if events.len() > 0 {
            self.lemma_claimed_within_total(events.drop_last());
        }
    }

    /// The state of a sale that starts: bound to its accounts, nothing
    /// accrued, nothing claimed.
    pub fn new(mint_account: Address, trade_token_address: Address, claim_authority: Address) -> (state:
        State)
        ensures
            state == State::initial(mint_account, trade_token_address, claim_authority),
            state.wf(),
    {
        State { mint_account, trade_token_address, total: 0, claimed: 0, claim_authority }
    }

    /// The fees that have accrued and are not yet claimed.
    pub fn unclaimed_fees(&self) -> (amount: u64)
        requires
            self.wf(),
        ensures
            amount == self.unclaimed(),
    {
        self.total - self.claimed
    }

    /// Books the fee of a trade. Returns whether it was booked: a fee that
    /// would take `total` beyond 64 bits is not, and the state stays as it is.
    pub fn accrue(&mut self, fee: u64) -> (booked: bool)
        requires
            old(self).wf(),
        ensures
            final(self).wf(),
            booked == (old(self).total + fee <= u64::MAX),
            *final(self) == old(self).after(LedgerEvent::Trade { fee }),
    {
        match self.total.checked_add(fee) {
            Some(total) => {
                self.total = total;
                true
            },
            None => false,
        }
    }

    /// Books a claim of `amount`. Returns whether it was booked: a claim of
    /// more than is unclaimed is not, and the state stays as it is.
    pub fn claim(&mut self, amount: u64) -> (booked: bool)
        requires
            old(self).wf(),
        ensures
            final(self).wf(),
            booked == (amount <= old(self).unclaimed()),
            *final(self) == old(self).after(LedgerEvent::Claim { amount }),
    {
        if amount <= self.total - self.claimed {
            self.claimed = self.claimed + amount;
            true
        } else {
            false
        }
    }
}

} // verus!
