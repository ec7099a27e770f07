//! Why an operation of the sale does not go through.

use vstd::prelude::*;

verus! {

/// The rules by which the sale rejects a request.
#[derive(Clone, Copy, Debug, PartialEq, Eq, Structural)]
pub enum TokenError {
    /// The quote came to zero.
    ZeroBuy,
    /// The mint would take the distributed supply over its ceiling.
    MAX_TOTAL_SUPPLY,
    /// The requested amount is over the ceiling for one trade.
    MAX_TOKEN_AMOUNT,
    /// The claimant is not the claim authority, or did not sign.
    Unauthorized,
    /// The mint would give fewer tokens than the caller accepts.
    Slippage_occur,
    /// The custody account presented is not the one that belongs to the sale.
    WRONG_pda_trade_token_ata_account,
    /// The mint presented is not the one recorded in the sale's state.
    WRONG_mint_account,
}

impl TokenError {
    /// The number by which the error is reported: the variant's position.
    pub open spec fn code_spec(self) -> u32 {
        match self {
            TokenError::ZeroBuy => 0,
            TokenError::MAX_TOTAL_SUPPLY => 1,
            TokenError::MAX_TOKEN_AMOUNT => 2,
            TokenError::Unauthorized => 3,
            TokenError::Slippage_occur => 4,
            TokenError::WRONG_pda_trade_token_ata_account => 5,
            TokenError::WRONG_mint_account => 6,
        }
    }

    /// The text by which the error is shown.
    pub open spec fn message_spec(self) -> Seq<char> {
        match self {
            TokenError::ZeroBuy => "Cant buy zero"@,
            TokenError::MAX_TOTAL_SUPPLY => "MAX_TOTAL_SUPPLY LIMIT"@,
            TokenError::MAX_TOKEN_AMOUNT => "MAX_TOKEN_AMOUNT LIMIT"@,
            TokenError::Unauthorized => "Unauthorized"@,
            TokenError::Slippage_occur => "Slippage occur"@,
            TokenError::WRONG_pda_trade_token_ata_account => "WRONG pda_trade_token_ata_account"@,
            TokenError::WRONG_mint_account => "WRONG mint_account"@,
        }
    }

    /// The number by which the error is reported: the variant's position.
    pub fn code(&self) -> (code: u32)
        ensures
            code == self.code_spec(),
    {
        match self {
            TokenError::ZeroBuy => 0,
            TokenError::MAX_TOTAL_SUPPLY => 1,
            TokenError::MAX_TOKEN_AMOUNT => 2,
            TokenError::Unauthorized => 3,
            TokenError::Slippage_occur => 4,
            TokenError::WRONG_pda_trade_token_ata_account => 5,
            TokenError::WRONG_mint_account => 6,
        }
    }

    /// The text by which the error is shown.
    pub fn message(&self) -> (text: &'static str)
        ensures
            text@ == self.message_spec(),
    {
        match self {
            TokenError::ZeroBuy => "Cant buy zero",
            TokenError::MAX_TOTAL_SUPPLY => "MAX_TOTAL_SUPPLY LIMIT",
            TokenError::MAX_TOKEN_AMOUNT => "MAX_TOKEN_AMOUNT LIMIT",
            TokenError::Unauthorized => "Unauthorized",
            TokenError::Slippage_occur => "Slippage occur",
            TokenError::WRONG_pda_trade_token_ata_account => "WRONG pda_trade_token_ata_account",
            TokenError::WRONG_mint_account => "WRONG mint_account",
        }
    }

    /// The name under which errors of this kind are decoded.
    pub fn type_of() -> (name: &'static str)
        ensures
            name@ == "TokenError"@,
    {
        "TokenError"
    }
}

/// Why an operation stopped. Whatever the reason, it changed nothing.
#[derive(Clone, Copy, Debug, PartialEq, Eq, Structural)]
pub enum Failure {
    /// A rule of the sale rejects the request.
    Rejected(TokenError),
    /// No address can be derived for the program from the seeds in use.
    NoProgramAddress,
    /// The data of the mint account is not that of an initialised mint.
    InvalidMintAccount,
    /// More tokens were to be burned than are distributed.
    BurnExceedsSupply,
    /// More was claimed than has accrued and is not yet claimed.
    ClaimExceedsUnclaimed,
    /// An amount no longer fits in 64 bits.
    AmountOverflow,
}

/// An outcome with what was decided seen through its view.
pub open spec fn viewed<T: View>(outcome: Result<T, Failure>) -> Result<T::V, Failure> {
    match outcome {
        Ok(decided) => Ok(decided@),
        Err(failure) => Err(failure),
    }
}

} // verus!
