//! The creation of a sale: the mint of the distributed token, its
//! metadata, the state account and the custody account.

use crate::address::custody_authority_seed;
use crate::address::find_custody_authority;
use crate::address::find_mint_authority;
use crate::address::find_state_address;
use crate::address::mint_authority_seed;
use crate::address::program_address;
use crate::address::state_seed;
use crate::address::Address;
use crate::curve::DECIMALS_SCALE;
use crate::error::viewed;
use crate::error::Failure;
use crate::ledger::State;
use vstd::prelude::*;

verus! {

/// Decimals of the distributed token.
pub const TOKEN_DECIMALS: u8 = 7;

/// The scale of the deployed sale is ten to the decimals of the token.
pub proof fn lemma_scale_matches_decimals()
    ensures
        vstd::arithmetic::power::pow(10, TOKEN_DECIMALS as nat) == DECIMALS_SCALE,
{
    reveal_with_fuel(vstd::arithmetic::power::pow, 8);
}

/// The arguments of the creation of a sale.
#[derive(Clone, Debug)]
pub struct CreateTokenArgs {
    /// The name of the distributed token.
    pub token_title: String,
    /// The symbol of the distributed token.
    pub token_symbol: String,
    /// Where the metadata of the distributed token is found.
    pub token_uri: String,
    /// Who may claim the fees of the sale.
    pub claime_authority: Address,
}

/// What the creation of a sale reads from the accounts it is handed.
#[derive(Clone, Copy, Debug)]
pub struct CreateAccounts {
    /// The address of the mint of the distributed token.
    pub mint_account: Address,
    /// The address of the mint of the token that trades are paid in.
    pub trade_token_account: Address,
    /// The balance, in lamports, of the custody account. An account without
    /// balance does not exist yet.
    pub pda_trade_token_ata_account_lamports: u64,
}

/// What is to be done to create the sale.
#[derive(Clone, Copy, Debug)]
pub struct CreateOrder {
    /// The state that the sale starts with.
    pub state: State,
    /// The bump seed of the mint authority, which signs for the mint and
    /// its metadata.
    pub mint_authority_bump: u8,
    /// The bump seed of the state account, which signs its own creation.
    pub state_bump: u8,
    /// The authority over the custody account.
    pub custody_authority: Address,
    /// The bump seed of that authority.
    pub custody_authority_bump: u8,
    /// Whether the custody account must be opened.
    pub create_custody_account: bool,
}

/// `CreateOrder`, with the address as its bytes.
pub struct CreateOrderView {
    pub state: State,
    pub mint_authority_bump: u8,
    pub state_bump: u8,
    pub custody_authority: Seq<u8>,
    pub custody_authority_bump: u8,
    pub create_custody_account: bool,
}

impl View for CreateOrder {
    type V = CreateOrderView;

    open spec fn view(&self) -> CreateOrderView {
        CreateOrderView {
            state: self.state,
            mint_authority_bump: self.mint_authority_bump,
            state_bump: self.state_bump,
            custody_authority: self.custody_authority@,
            custody_authority_bump: self.custody_authority_bump,
            create_custody_account: self.create_custody_account,
        }
    }
}

/// The outcome of the creation of a sale under program `program_id`: the
/// sale starts bound to the two mints presented and to the claim authority
/// named, with nothing accrued and nothing claimed. The creation stops only
/// where one of the sale's three addresses cannot be derived.
pub open spec fn create_outcome(
    program_id: Seq<u8>,
    accounts: CreateAccounts,
    claim_authority: Address,
) -> Result<CreateOrderView, Failure> {
    match (
        program_address(seq![mint_authority_seed()], program_id),
        program_address(seq![state_seed()], program_id),
        program_address(seq![custody_authority_seed()], program_id),
    ) {
        (Some((_, mint_authority_bump)), Some((_, state_bump)), Some((authority, bump))) => Ok(
            CreateOrderView {
                state: State::initial(
                    accounts.mint_account,
                    accounts.trade_token_account,
                    claim_authority,
                ),
                mint_authority_bump,
                state_bump,
                custody_authority: authority,
                custody_authority_bump: bump,
                create_custody_account: accounts.pda_trade_token_ata_account_lamports == 0,
            },
        ),
        _ => Err(Failure::NoProgramAddress),
    }
}

/// Decides the creation of a sale. The name, the symbol and the place of
/// the metadata are not looked at: they go to the metadata program as they
/// are.
pub fn create_token(program_id: &Address, accounts: &CreateAccounts, args: &CreateTokenArgs) -> (outcome:
    Result<CreateOrder, Failure>)
    ensures
        viewed(outcome) == create_outcome(program_id@, *accounts, args.claime_authority),
{
    let mint_authority_bump: u8 = match find_mint_authority(program_id) {
        Some((_, bump)) => bump,
        None => {
            return Err(Failure::NoProgramAddress);
        },
    };
    let state_bump: u8 = match find_state_address(program_id) {
        Some((_, bump)) => bump,
        None => {
            return Err(Failure::NoProgramAddress);
        },
    };
    let (custody_authority, custody_authority_bump) = match find_custody_authority(program_id) {
        Some(found) => found,
        None => {
            return Err(Failure::NoProgramAddress);
        },
    };
    Ok(
        CreateOrder {
            state: State::new(
                accounts.mint_account,
                accounts.trade_token_account,
                args.claime_authority,
            ),
            mint_authority_bump,
            state_bump,
            custody_authority,
            custody_authority_bump,
            create_custody_account: accounts.pda_trade_token_ata_account_lamports == 0,
        },
    )
}

} // verus!
