//! The distributed supply, as the token program records it in the mint
//! account of the distributed token.
//!
//! The sale keeps no count of its own: before every quote it reads the
//! supply from the mint account, which the token program alone advances.

use vstd::prelude::*;

verus! {

/// Length of the data of a mint account.
pub const MINT_LEN: usize = 82;

/// Eight bytes read as a number, lowest byte first.
pub open spec fn le_u64(bytes: Seq<u8>) -> nat {
    (bytes[0] + 0x100 * bytes[1] + 0x1_0000 * bytes[2] + 0x100_0000 * bytes[3] + 0x1_0000_0000
        * bytes[4] + 0x100_0000_0000 * bytes[5] + 0x1_0000_0000_0000 * bytes[6]
        + 0x100_0000_0000_0000 * bytes[7]) as nat
}

/// The four bytes at `at` mark an optional field as absent (0) or present
/// (1), as a 32-bit number, lowest byte first.
pub open spec fn option_tag(data: Seq<u8>, at: int) -> bool {
    &&& data[at] == 0 || data[at] == 1
    &&& data[at + 1] == 0
    &&& data[at + 2] == 0
    &&& data[at + 3] == 0
}

/// The supply that the data of a mint account records, where the data is
/// that of an initialised mint.
///
/// Mint data is 82 bytes: the optional mint authority (4 + 32), the
/// supply (8), the decimals (1), the initialised flag (1) and the optional
/// freeze authority (4 + 32).
pub open spec fn mint_supply(data: Seq<u8>) -> Option<u64> {
    if data.len() == MINT_LEN && option_tag(data, 0) && data[45] == 1 && option_tag(data, 46) {
        Some(le_u64(data.subrange(36, 44)) as u64)
    } else {
        None
    }
}

/// Calls `Mint::unpack` of `spl_token` and hands out the supply.
///
/// Trusted: the call succeeds exactly on 82 bytes whose two option tags
/// are 0 or 1 and whose initialised flag is 1, and the supply of the mint it
/// then returns is bytes 36 to 43, lowest byte first.
#[verifier::external_body]
fn unpack_mint_supply(data: &[u8]) -> (supply: Option<u64>)
    ensures
        supply == mint_supply(data@),
{
    match <spl_token::state::Mint as solana_program::program_pack::Pack>::unpack(data) {
        Ok(mint) => Some(mint.supply),
        Err(_) => None,
    }
}

/// Reads the distributed supply from the data of the mint account, or
/// `None` where the data is not that of an initialised mint.
pub fn current_supply(mint_data: &[u8]) -> (supply: Option<u64>)
    ensures
        supply == mint_supply(mint_data@),
{
    unpack_mint_supply(mint_data)
}

} // verus!
