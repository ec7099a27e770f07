//! Pricing core of a discrete bonding-curve token sale.
//!
//! A token is sold in rounds of a fixed volume, each round at a higher unit
//! price than the one before. A mint turns a payment into tokens, walking
//! the rounds upwards; a burn turns tokens back into a payment, walking
//! them downwards. Every trade pays a fee into a ledger that the claim
//! authority draws on.
//!
//! - `curve`, `schedule`, `fee`: the configuration, the price of a round,
//!   the round of a supply, the split of an amount into net and fee.
//! - `mint`, `burn`: the two quote engines; `rounds` and `bounds` say how
//!   far they walk and how large their quotes get.
//! - `guard`: the ceilings and the slippage bound around the engines.
//! - `ledger`: the state of the sale and its fee ledger.
//! - `address`, `supply`, `binding`: the accounts of the sale, which are
//!   derived through `solana_program`, and the supply, which is read from
//!   the mint account through `spl_token`.
//! - `trade`, `claim`, `create`: the operations. Each decides on plain
//!   values and returns the order that its caller carries out.
//! - `quote`: the quotes of the deployed sale by supply and amount alone.
//! - `error`: why an operation stops.
#![allow(non_snake_case)]
#![allow(non_camel_case_types)]

pub mod address;
pub mod arith;
pub mod binding;
pub mod bounds;
pub mod burn;
pub mod claim;
pub mod create;
pub mod curve;
pub mod error;
pub mod fee;
pub mod guard;
pub mod ledger;
pub mod mint;
pub mod quote;
pub mod rounds;
pub mod schedule;
pub mod supply;
pub mod trade;
