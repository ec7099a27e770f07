//! The binding of a trade to the sale: the accounts that a trade is handed
//! must be the sale's own.

use crate::address::custody_account;
use crate::address::custody_authority_seed;
use crate::address::find_custody_authority;
use crate::address::get_associated_token_address;
use crate::address::program_address;
use crate::address::Address;
use crate::error::viewed;
use crate::error::Failure;
use crate::error::TokenError;
use crate::ledger::State;
use crate::supply::current_supply;
use crate::supply::mint_supply;
use vstd::prelude::*;

verus! {

/// What a trade reads from the accounts it is handed.
#[derive(Clone, Debug)]
pub struct TradeAccounts {
    /// The address of the mint account.
    pub mint_account: Address,
    /// The data of the mint account.
    pub mint_data: Vec<u8>,
    /// The address of the account presented as the sale's custody account.
    pub pda_trade_token_ata_account: Address,
    /// The balance, in lamports, of the payer's account for the distributed
    /// token. An account without balance does not exist yet.
    pub associated_token_account_lamports: u64,
}

/// What a trade learns from its accounts once they are found to be the sale's.
#[derive(Clone, Copy, Debug)]
pub struct Bound {
    /// The distributed supply.
    pub supply: u64,
    /// The authority over the custody account.
    pub custody_authority: Address,
    /// The bump seed of that authority.
    pub custody_authority_bump: u8,
}

/// `Bound`, with the address as its bytes.
pub struct BoundView {
    pub supply: u64,
    pub custody_authority: Seq<u8>,
    pub custody_authority_bump: u8,
}

impl View for Bound {
    type V = BoundView;

    open spec fn view(&self) -> BoundView {
        BoundView {
            supply: self.supply,
            custody_authority: self.custody_authority@,
            custody_authority_bump: self.custody_authority_bump,
        }
    }
}

/// The binding of a trade under program `program_id`. The checks come in
/// this order:
/// 1. the custody authority and the custody account can be derived;
/// 2. the custody account presented is the derived one;
/// 3. the mint presented is the one that the state records;
/// 4. the mint account holds an initialised mint.
pub open spec fn binding(
    program_id: Seq<u8>,
    state: State,
    mint_account: Seq<u8>,
    mint_data: Seq<u8>,
    custody: Seq<u8>,
) -> Result<BoundView, Failure> {
    match (
        program_address(seq![custody_authority_seed()], program_id),
        custody_account(program_id, state.trade_token_address@),
    ) {
        (Some((authority, bump)), Some(derived)) => {
            if derived != custody {
                Err(Failure::Rejected(TokenError::WRONG_pda_trade_token_ata_account))
            } else if mint_account != state.mint_account@ {
                Err(Failure::Rejected(TokenError::WRONG_mint_account))
            } else {
                match mint_supply(mint_data) {
                    Some(supply) => Ok(
                        BoundView {
                            supply,
                            custody_authority: authority,
                            custody_authority_bump: bump,
                        },
                    ),
                    None => Err(Failure::InvalidMintAccount),
                }
            }
        },
        _ => Err(Failure::NoProgramAddress),
    }
}

/// Holds the accounts of a trade against the sale's state and reads the
/// distributed supply.
pub fn bind_trade(program_id: &Address, state: &State, accounts: &TradeAccounts) -> (bound: Result<
    Bound,
    Failure,
>)
    ensures
        viewed(bound) == binding(
            program_id@,
            *state,
            accounts.mint_account@,
            accounts.mint_data@,
            accounts.pda_trade_token_ata_account@,
        ),
{
    let (authority, bump) = match find_custody_authority(program_id) {
        Some(found) => found,
        None => {
            return Err(Failure::NoProgramAddress);
        },
    };
    let derived = match get_associated_token_address(&authority, &state.trade_token_address) {
        Some(derived) => derived,
        None => {
            return Err(Failure::NoProgramAddress);
        },
    };
    if derived != accounts.pda_trade_token_ata_account {
        return Err(Failure::Rejected(TokenError::WRONG_pda_trade_token_ata_account));
    }
    if accounts.mint_account != state.mint_account {
        return Err(Failure::Rejected(TokenError::WRONG_mint_account));
    }
    match current_supply(accounts.mint_data.as_slice()) {
        Some(supply) => Ok(
            Bound { supply, custody_authority: authority, custody_authority_bump: bump },
        ),
        None => Err(Failure::InvalidMintAccount),
    }
}

} // verus!
