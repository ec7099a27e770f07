//! The claim: the claim authority draws on the fees that have accrued.

use crate::address::custody_authority_seed;
use crate::address::find_custody_authority;
use crate::address::program_address;
use crate::address::Address;
use crate::error::viewed;
use crate::error::Failure;
use crate::error::TokenError;
use crate::ledger::State;
use vstd::prelude::*;

verus! {

/// The arguments of a claim.
#[derive(Clone, Copy, Debug, PartialEq, Eq, Structural)]
pub struct ClaimArgs {
    /// The fees to pay out.
    pub amount: u64,
}

/// What a claim reads from the accounts it is handed.
#[derive(Clone, Copy, Debug)]
pub struct ClaimAccounts {
    /// The address of the claimant.
    pub claim_account: Address,
    /// Whether the claimant signed the request.
    pub claim_account_is_signer: bool,
    /// The balance, in lamports, of the claimant's account for the trade
    /// token. An account without balance does not exist yet.
    pub claim_account_trade_token_ata_account_lamports: u64,
}

/// What is to be done for a claim that goes through.
#[derive(Clone, Copy, Debug)]
pub struct ClaimOrder {
    /// The payment to move from the custody account to the claimant.
    pub amount: u64,
    /// Whether the claimant's account for the trade token must be opened first.
    pub create_associated_token_account: bool,
    /// The authority over the custody account, which signs the payment.
    pub custody_authority: Address,
    /// The bump seed of that authority.
    pub custody_authority_bump: u8,
}

/// `ClaimOrder`, with the address as its bytes.
pub struct ClaimOrderView {
    pub amount: u64,
    pub create_associated_token_account: bool,
    pub custody_authority: Seq<u8>,
    pub custody_authority_bump: u8,
}

impl View for ClaimOrder {
    type V = ClaimOrderView;

    open spec fn view(&self) -> ClaimOrderView {
        ClaimOrderView {
            amount: self.amount,
            create_associated_token_account: self.create_associated_token_account,
            custody_authority: self.custody_authority@,
            custody_authority_bump: self.custody_authority_bump,
        }
    }
}

/// Whether the claimant may claim: it is the claim authority that the
/// state records, and it signed.
pub open spec fn authorized(state: State, accounts: ClaimAccounts) -> bool {
    accounts.claim_account_is_signer && accounts.claim_account@ == state.claim_authority@
}

/// The outcome of a claim of `amount`. The checks come in this order:
/// 1. the claimant is authorized;
/// 2. no more is claimed than has accrued and is unclaimed;
/// 3. the custody authority can be derived.
pub open spec fn claim_outcome(
    program_id: Seq<u8>,
    state: State,
    accounts: ClaimAccounts,
    amount: u64,
) -> Result<ClaimOrderView, Failure> {
    if !authorized(state, accounts) {
        Err(Failure::Rejected(TokenError::Unauthorized))
    } else if amount > state.unclaimed() {
        Err(Failure::ClaimExceedsUnclaimed)
    } else {
        match program_address(seq![custody_authority_seed()], program_id) {
            None => Err(Failure::NoProgramAddress),
            Some((authority, bump)) => Ok(
                ClaimOrderView {
                    amount,
                    create_associated_token_account:
                        accounts.claim_account_trade_token_ata_account_lamports == 0,
                    custody_authority: authority,
                    custody_authority_bump: bump,
                },
            ),
        }
    }
}

/// Decides a claim and books it. A claim that stops leaves the state as it was.
pub fn claim_token(
    program_id: &Address,
    accounts: &ClaimAccounts,
    state: &mut State,
    args: ClaimArgs,
) -> (outcome: Result<ClaimOrder, Failure>)
    requires
        old(state).wf(),
    ensures
        viewed(outcome) == claim_outcome(program_id@, *old(state), *accounts, args.amount),
        final(state).wf(),
        match outcome {
            Ok(_) => *final(state) == old(state).with_claim(args.amount),
            Err(_) => *final(state) == *old(state),
        },
{
    if !accounts.claim_account_is_signer {
        return Err(Failure::Rejected(TokenError::Unauthorized));
    }
    if accounts.claim_account != state.claim_authority {
        return Err(Failure::Rejected(TokenError::Unauthorized));
    }
    if args.amount > state.unclaimed_fees() {
        return Err(Failure::ClaimExceedsUnclaimed);
    }
    let (custody_authority, custody_authority_bump) = match find_custody_authority(program_id) {
        Some(found) => found,
        None => {
            return Err(Failure::NoProgramAddress);
        },
    };
    let booked = state.claim(args.amount);
    assert(booked);
    Ok(
        ClaimOrder {
            amount: args.amount,
            create_associated_token_account: accounts.claim_account_trade_token_ata_account_lamports
                == 0,
            custody_authority,
            custody_authority_bump,
        },
    )
}

} // verus!
