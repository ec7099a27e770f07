//! The three trades: a mint for an exact payment, the same with a lower
//! bound on the tokens, and a burn of an exact amount of tokens.
//!
//! A trade decides everything before anything moves. It returns the order
//! that the caller then carries out against the token program, and books
//! the fee. A trade that stops leaves the state as it was.

use crate::address::find_mint_authority;
use crate::address::mint_authority_seed;
use crate::address::program_address;
use crate::address::Address;
use crate::binding::bind_trade;
use crate::binding::binding;
use crate::binding::BoundView;
use crate::binding::TradeAccounts;
use crate::curve::CurveConstants;
use crate::error::viewed;
use crate::error::Failure;
use crate::error::TokenError;
use crate::guard::Quote;
use crate::ledger::State;
use vstd::prelude::*;

verus! {

/// The arguments of a mint for an exact payment.
#[derive(Clone, Copy, Debug, PartialEq, Eq, Structural)]
pub struct mintTokensForExactStableArgs {
    /// The payment, fee included.
    pub _inAmount: u64,
}

/// The arguments of a mint for an exact payment with a lower bound on the tokens.
#[derive(Clone, Copy, Debug, PartialEq, Eq, Structural)]
pub struct mintTokensForExactStableWithSlippageArgs {
    /// The payment, fee included.
    pub _inAmount: u64,
    /// The fewest tokens that the caller accepts.
    pub _outNotLess: u64,
}

/// The arguments of a burn of an exact amount of tokens.
#[derive(Clone, Copy, Debug, PartialEq, Eq, Structural)]
pub struct burnExactTokensForStableArgs {
    /// The tokens handed back.
    pub _inAmount: u64,
}

/// What is to be done for a mint that goes through.
#[derive(Clone, Copy, Debug, PartialEq, Eq, Structural)]
pub struct MintOrder {
    /// The payment to move from the payer to the custody account.
    pub in_amount: u64,
    /// The tokens to mint to the payer's token account.
    pub out_amount: u64,
    /// The part of the payment that is fee.
    pub fee: u64,
    /// Whether the payer's token account must be opened first.
    pub create_associated_token_account: bool,
    /// The bump seed of the mint authority, which signs the mint.
    pub mint_authority_bump: u8,
}

/// What is to be done for a burn that goes through.
#[derive(Clone, Copy, Debug)]
pub struct BurnOrder {
    /// The tokens to burn from the payer's token account.
    pub in_amount: u64,
    /// The payment to move from the custody account to the payer.
    pub out_amount: u64,
    /// The part of the gross proceeds that is fee.
    pub fee: u64,
    /// The authority over the custody account, which signs the payment.
    pub custody_authority: Address,
    /// The bump seed of that authority.
    pub custody_authority_bump: u8,
}

/// `BurnOrder`, with the address as its bytes.
pub struct BurnOrderView {
    pub in_amount: u64,
    pub out_amount: u64,
    pub fee: u64,
    pub custody_authority: Seq<u8>,
    pub custody_authority_bump: u8,
}

impl View for BurnOrder {
    type V = BurnOrderView;

    open spec fn view(&self) -> BurnOrderView {
        BurnOrderView {
            in_amount: self.in_amount,
            out_amount: self.out_amount,
            fee: self.fee,
            custody_authority: self.custody_authority@,
            custody_authority_bump: self.custody_authority_bump,
        }
    }
}

/// The outcome of a mint of `in_amount` for no fewer than `min_out`
/// tokens, under the configuration `constants`. The checks come in this
/// order:
/// 1. the payment is within the ceiling for one trade;
/// 2. the accounts are the sale's (see `binding`);
/// 3. the quote passes the guards (see `mint_decision`);
/// 4. the accrued fees with the new fee fit in 64 bits;
/// 5. the mint authority can be derived.
pub open spec fn mint_outcome(
    constants: CurveConstants,
    program_id: Seq<u8>,
    state: State,
    accounts: TradeAccounts,
    in_amount: u64,
    min_out: u64,
) -> Result<MintOrder, Failure> {
    if in_amount > constants.max_per_call_amount {
        Err(Failure::Rejected(TokenError::MAX_TOKEN_AMOUNT))
    } else {
        match binding(
            program_id,
            state,
            accounts.mint_account@,
            accounts.mint_data@,
            accounts.pda_trade_token_ata_account@,
        ) {
            Err(failure) => Err(failure),
            Ok(bound) => match constants.mint_decision(
                bound.supply as nat,
                in_amount as nat,
                min_out as nat,
            ) {
                Err(error) => Err(Failure::Rejected(error)),
                Ok(quote) => if state.total + quote.fee > u64::MAX {
                    Err(Failure::AmountOverflow)
                } else {
                    match program_address(seq![mint_authority_seed()], program_id) {
                        None => Err(Failure::NoProgramAddress),
                        Some((_, bump)) => Ok(
                            MintOrder {
                                in_amount: quote.amount_in,
                                out_amount: quote.amount_out,
                                fee: quote.fee,
                                create_associated_token_account:
                                    accounts.associated_token_account_lamports == 0,
                                mint_authority_bump: bump,
                            },
                        ),
                    }
                },
            },
        }
    }
}

/// The outcome of a burn of `amount` tokens under the configuration
/// `constants`. The checks come in this order:
/// 1. the amount is within the ceiling for one trade;
/// 2. the accounts are the sale's (see `binding`);
/// 3. the quote passes the guards (see `burn_decision`);
/// 4. the accrued fees with the new fee fit in 64 bits.
pub open spec fn burn_outcome(
    constants: CurveConstants,
    program_id: Seq<u8>,
    state: State,
    accounts: TradeAccounts,
    amount: u64,
) -> Result<BurnOrderView, Failure> {
    if amount > constants.max_per_call_amount {
        Err(Failure::Rejected(TokenError::MAX_TOKEN_AMOUNT))
    } else {
        match binding(
            program_id,
            state,
            accounts.mint_account@,
            accounts.mint_data@,
            accounts.pda_trade_token_ata_account@,
        ) {
            Err(failure) => Err(failure),
            Ok(bound) => match constants.burn_decision(bound.supply as nat, amount as nat) {
                Err(failure) => Err(failure),
                Ok(quote) => if state.total + quote.fee > u64::MAX {
                    Err(Failure::AmountOverflow)
                } else {
                    Ok(
                        BurnOrderView {
                            in_amount: quote.amount_in,
                            out_amount: quote.amount_out,
                            fee: quote.fee,
                            custody_authority: bound.custody_authority,
                            custody_authority_bump: bound.custody_authority_bump,
                        },
                    )
                },
            },
        }
    }
}

/// A trade that asks for more than the ceiling for one trade is rejected
/// for that, whatever accounts it is handed and whatever the supply is.
pub proof fn lemma_trade_per_call_ceiling(
    constants: CurveConstants,
    program_id: Seq<u8>,
    state: State,
    accounts: TradeAccounts,
    amount: u64,
    min_out: u64,
)
    requires
        amount > constants.max_per_call_amount,
    ensures
        mint_outcome(constants, program_id, state, accounts, amount, min_out) == Err::<
            MintOrder,
            Failure,
        >(Failure::Rejected(TokenError::MAX_TOKEN_AMOUNT)),
        burn_outcome(constants, program_id, state, accounts, amount) == Err::<
            BurnOrderView,
            Failure,
        >(Failure::Rejected(TokenError::MAX_TOKEN_AMOUNT)),
{
}

/// A mint that is within the ceiling for one trade, is handed the sale's
/// accounts and buys something is rejected for the supply ceiling whenever
/// the supply with the new tokens is over it.
pub proof fn lemma_trade_supply_ceiling(
    constants: CurveConstants,
    program_id: Seq<u8>,
    state: State,
    accounts: TradeAccounts,
    in_amount: u64,
    min_out: u64,
    bound: BoundView,
)
    requires
        in_amount <= constants.max_per_call_amount,
        binding(
            program_id,
            state,
            accounts.mint_account@,
            accounts.mint_data@,
            accounts.pda_trade_token_ata_account@,
        ) == Ok::<BoundView, Failure>(bound),
        constants.mint_tokens(bound.supply as nat, constants.buy_net(in_amount as nat)) > 0,
        constants.mint_tokens(bound.supply as nat, constants.buy_net(in_amount as nat))
            + bound.supply > constants.max_total_supply,
    ensures
        mint_outcome(constants, program_id, state, accounts, in_amount, min_out) == Err::<
            MintOrder,
            Failure,
        >(Failure::Rejected(TokenError::MAX_TOTAL_SUPPLY)),
{
}

/// Decides a mint under the configuration `constants` and books its fee.
pub fn mint_for_exact(
    constants: &CurveConstants,
    program_id: &Address,
    accounts: &TradeAccounts,
    state: &mut State,
    in_amount: u64,
    min_out: u64,
) -> (outcome: Result<MintOrder, Failure>)
    requires
        constants.wf(),
        old(state).wf(),
    ensures
        outcome == mint_outcome(*constants, program_id@, *old(state), *accounts, in_amount, min_out),
        final(state).wf(),
        match outcome {
            Ok(order) => *final(state) == old(state).with_fee(order.fee),
            Err(_) => *final(state) == *old(state),
        },
{
    if in_amount > constants.max_per_call_amount {
        return Err(Failure::Rejected(TokenError::MAX_TOKEN_AMOUNT));
    }
    let bound = match bind_trade(program_id, state, accounts) {
        Ok(bound) => bound,
        Err(failure) => {
            return Err(failure);
        },
    };
    let quote: Quote = match constants.quote_mint(bound.supply, in_amount, min_out) {
        Ok(quote) => quote,
        Err(error) => {
            return Err(Failure::Rejected(error));
        },
    };
    if quote.fee > u64::MAX - state.total {
        return Err(Failure::AmountOverflow);
    }
    let mint_authority_bump: u8 = match find_mint_authority(program_id) {
        Some((_, bump)) => bump,
        None => {
            return Err(Failure::NoProgramAddress);
        },
    };
    let booked = state.accrue(quote.fee);
    assert(booked);
    Ok(
        MintOrder {
            in_amount: quote.amount_in,
            out_amount: quote.amount_out,
            fee: quote.fee,
            create_associated_token_account: accounts.associated_token_account_lamports == 0,
            mint_authority_bump,
        },
    )
}

/// Decides a burn under the configuration `constants` and books its fee.
pub fn burn_for_exact(
    constants: &CurveConstants,
    program_id: &Address,
    accounts: &TradeAccounts,
    state: &mut State,
    amount: u64,
) -> (outcome: Result<BurnOrder, Failure>)
    requires
        constants.wf(),
        old(state).wf(),
    ensures
        viewed(outcome) == burn_outcome(*constants, program_id@, *old(state), *accounts, amount),
        final(state).wf(),
        match outcome {
            Ok(order) => *final(state) == old(state).with_fee(order.fee),
            Err(_) => *final(state) == *old(state),
        },
{
    if amount > constants.max_per_call_amount {
        return Err(Failure::Rejected(TokenError::MAX_TOKEN_AMOUNT));
    }
    let bound = match bind_trade(program_id, state, accounts) {
        Ok(bound) => bound,
        Err(failure) => {
            return Err(failure);
        },
    };
    let quote: Quote = match constants.quote_burn(bound.supply, amount) {
        Ok(quote) => quote,
        Err(failure) => {
            return Err(failure);
        },
    };
    if quote.fee > u64::MAX - state.total {
        return Err(Failure::AmountOverflow);
    }
    let booked = state.accrue(quote.fee);
    assert(booked);
    Ok(
        BurnOrder {
            in_amount: quote.amount_in,
            out_amount: quote.amount_out,
            fee: quote.fee,
            custody_authority: bound.custody_authority,
            custody_authority_bump: bound.custody_authority_bump,
        },
    )
}

/// Mints for an exact payment, at the deployed configuration.
pub fn mintTokensForExactStable(
    program_id: &Address,
    accounts: &TradeAccounts,
    state: &mut State,
    args: mintTokensForExactStableArgs,
) -> (outcome: Result<MintOrder, Failure>)
    requires
        old(state).wf(),
    ensures
        outcome == mint_outcome(
            CurveConstants::deployed_spec(),
            program_id@,
            *old(state),
            *accounts,
            args._inAmount,
            0,
        ),
        final(state).wf(),
        match outcome {
            Ok(order) => *final(state) == old(state).with_fee(order.fee),
            Err(_) => *final(state) == *old(state),
        },
{
    let constants = CurveConstants::deployed();
    mint_for_exact(&constants, program_id, accounts, state, args._inAmount, 0)
}

/// Mints for an exact payment, at the deployed configuration, unless the
/// payment buys fewer than `_outNotLess` tokens.
pub fn mintTokensForExactStableWithSlippage(
    program_id: &Address,
    accounts: &TradeAccounts,
    state: &mut State,
    args: mintTokensForExactStableWithSlippageArgs,
) -> (outcome: Result<MintOrder, Failure>)
    requires
        old(state).wf(),
    ensures
        outcome == mint_outcome(
            CurveConstants::deployed_spec(),
            program_id@,
            *old(state),
            *accounts,
            args._inAmount,
            args._outNotLess,
        ),
        final(state).wf(),
        match outcome {
            Ok(order) => *final(state) == old(state).with_fee(order.fee),
            Err(_) => *final(state) == *old(state),
        },
{
    let constants = CurveConstants::deployed();
    mint_for_exact(&constants, program_id, accounts, state, args._inAmount, args._outNotLess)
}

/// Burns an exact amount of tokens, at the deployed configuration.
pub fn burnExactTokensForStable(
    program_id: &Address,
    accounts: &TradeAccounts,
    state: &mut State,
    args: burnExactTokensForStableArgs,
) -> (outcome: Result<BurnOrder, Failure>)
    requires
        old(state).wf(),
    ensures
        viewed(outcome) == burn_outcome(
            CurveConstants::deployed_spec(),
            program_id@,
            *old(state),
            *accounts,
            args._inAmount,
        ),
        final(state).wf(),
        match outcome {
            Ok(order) => *final(state) == old(state).with_fee(order.fee),
            Err(_) => *final(state) == *old(state),
        },
{
    let constants = CurveConstants::deployed();
    burn_for_exact(&constants, program_id, accounts, state, args._inAmount)
}

} // verus!
