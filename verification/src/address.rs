//! Account addresses, and the addresses that belong to the sale.
//!
//! The sale owns three program-derived addresses, one per seed: the
//! authority over the distributed token's mint, the account that holds the
//! sale's state, and the authority over the custody account. The custody
//! account itself is the associated token account of that last authority
//! for the trade token.

use vstd::prelude::*;
use vstd::std_specs::cmp::PartialEqSpecImpl;

verus! {

/// The address of an account: 32 bytes.
#[derive(Clone, Copy, Debug)]
pub struct Address {
    pub bytes: [u8; 32],
}

impl View for Address {
    type V = Seq<u8>;

    open spec fn view(&self) -> Seq<u8> {
        self.bytes@
    }
}

impl DeepView for Address {
    type V = Seq<u8>;

    open spec fn deep_view(&self) -> Seq<u8> {
        self.bytes@
    }
}

impl PartialEq for Address {
    fn eq(&self, other: &Address) -> (same: bool) {
        let mut i: usize = 0;
        while i < 32
            invariant
                i <= 32,
                forall|j: int| 0 <= j < i ==> self.bytes@[j] == other.bytes@[j],
            decreases 32 - i,
        {
            if self.bytes[i] != other.bytes[i] {
                return false;
            }
            i = i + 1;
        }
        assert(self.bytes@ =~= other.bytes@);
        true
    }
}

impl PartialEqSpecImpl for Address {
    open spec fn obeys_eq_spec() -> bool {
        true
    }

    open spec fn eq_spec(&self, other: &Address) -> bool {
        self@ == other@
    }
}

impl Eq for Address {

}

impl Address {
    /// The address made of `bytes`.
    pub fn new(bytes: [u8; 32]) -> (address: Address)
        ensures
            address@ == bytes@,
    {
        Address { bytes }
    }

    /// The bytes of the address, in a vector.
    pub fn to_vec(&self) -> (bytes: Vec<u8>)
        ensures
            bytes@ == self@,
    {
        let mut bytes: Vec<u8> = Vec::new();
        let mut i: usize = 0;
        while i < 32
            invariant
                i <= 32,
                bytes@.len() == i,
                forall|j: int| 0 <= j < i ==> bytes@[j] == self.bytes@[j],
            decreases 32 - i,
        {
            bytes.push(self.bytes[i]);
            i = i + 1;
        }
        assert(bytes@ =~= self@);
        bytes
    }
}

/// The program that keeps token mints and token accounts.
pub open spec fn token_program_id() -> Seq<u8> {
    seq![
        6u8, 221, 246, 225, 215, 101, 161, 147, 217, 203, 225, 70, 206, 235, 121, 172,
        28, 180, 133, 237, 95, 91, 55, 145, 58, 140, 245, 133, 126, 255, 0, 169,
    ]
}

/// The program under which associated token accounts are derived.
pub open spec fn associated_token_program_id() -> Seq<u8> {
    seq![
        140u8, 151, 37, 143, 78, 36, 137, 241, 187, 61, 16, 41, 20, 142, 13, 131,
        11, 90, 19, 153, 218, 255, 16, 132, 4, 142, 123, 216, 219, 233, 248, 89,
    ]
}

/// The seed of the authority over the distributed token's mint: `mint_authority`.
pub open spec fn mint_authority_seed() -> Seq<u8> {
    seq![109u8, 105, 110, 116, 95, 97, 117, 116, 104, 111, 114, 105, 116, 121]
}

/// The seed of the account that holds the sale's state: `state`.
pub open spec fn state_seed() -> Seq<u8> {
    seq![115u8, 116, 97, 116, 101]
}

/// The seed of the authority over the custody account:
/// `ata_trade_token_authority`.
pub open spec fn custody_authority_seed() -> Seq<u8> {
    seq![
        97u8, 116, 97, 95, 116, 114, 97, 100, 101, 95, 116, 111, 107, 101, 110, 95,
        97, 117, 116, 104, 111, 114, 105, 116, 121,
    ]
}

/// The address derived for program `program_id` from `seeds`, with the bump
/// seed that was added to reach it, or `None` where no bump seed gives one.
pub uninterp spec fn program_address(seeds: Seq<Seq<u8>>, program_id: Seq<u8>) -> Option<
    (Seq<u8>, u8),
>;

/// The associated token account of `wallet` for the token `mint`.
pub open spec fn associated_token_address(wallet: Seq<u8>, mint: Seq<u8>) -> Option<Seq<u8>> {
    match program_address(seq![wallet, token_program_id(), mint], associated_token_program_id()) {
        Some((address, _)) => Some(address),
        None => None,
    }
}

/// The custody account of the sale run by `program_id` for the token
/// `trade_token`: the associated token account of the custody authority.
pub open spec fn custody_account(program_id: Seq<u8>, trade_token: Seq<u8>) -> Option<Seq<u8>> {
    match program_address(seq![custody_authority_seed()], program_id) {
        Some((authority, _)) => associated_token_address(authority, trade_token),
        None => None,
    }
}

/// Calls `Pubkey::try_find_program_address` of `solana_program`.
///
/// Trusted: the result is what that function returns for these seeds and
/// this program, address and bump seed, and it returns the same for the
/// same arguments. Nothing is claimed about which seeds have an address.
#[verifier::external_body]
fn try_find_program_address(seeds: &Vec<Vec<u8>>, program_id: &Address) -> (found: Option<
    (Address, u8),
>)
    ensures
        found.deep_view() == program_address(seeds.deep_view(), program_id@),
{
    let slices: Vec<&[u8]> = seeds.iter().map(|seed| seed.as_slice()).collect();
    let program = solana_program::pubkey::Pubkey::new_from_array(program_id.bytes);
    match solana_program::pubkey::Pubkey::try_find_program_address(&slices, &program) {
        Some((key, bump)) => Some((Address { bytes: key.to_bytes() }, bump)),
        None => None,
    }
}

/// The address that program `program_id` derives from the one seed `seed`,
/// with its bump seed.
pub fn find_program_address(seed: Vec<u8>, program_id: &Address) -> (found: Option<(Address, u8)>)
    ensures
        found.deep_view() == program_address(seq![seed@], program_id@),
{
    let ghost only = seed@;
    let mut seeds: Vec<Vec<u8>> = Vec::new();
    seeds.push(seed);
    assert(seeds.deep_view() =~~= seq![only]);
    try_find_program_address(&seeds, program_id)
}

/// The authority over the distributed token's mint, with its bump seed.
pub fn find_mint_authority(program_id: &Address) -> (found: Option<(Address, u8)>)
    ensures
        found.deep_view() == program_address(seq![mint_authority_seed()], program_id@),
{
    let seed: Vec<u8> = vec![109u8, 105, 110, 116, 95, 97, 117, 116, 104, 111, 114, 105, 116, 121];
    assert(seed@ =~= mint_authority_seed());
    find_program_address(seed, program_id)
}

/// The address of the account that holds the sale's state, with its bump seed.
pub fn find_state_address(program_id: &Address) -> (found: Option<(Address, u8)>)
    ensures
        found.deep_view() == program_address(seq![state_seed()], program_id@),
{
    let seed: Vec<u8> = vec![115u8, 116, 97, 116, 101];
    assert(seed@ =~= state_seed());
    find_program_address(seed, program_id)
}

/// The authority over the custody account, with its bump seed.
pub fn find_custody_authority(program_id: &Address) -> (found: Option<(Address, u8)>)
    ensures
        found.deep_view() == program_address(seq![custody_authority_seed()], program_id@),
{
    let seed: Vec<u8> = vec![
        97u8, 116, 97, 95, 116, 114, 97, 100, 101, 95, 116, 111, 107, 101, 110, 95,
        97, 117, 116, 104, 111, 114, 105, 116, 121,
    ];
    assert(seed@ =~= custody_authority_seed());
    find_program_address(seed, program_id)
}

/// The associated token account of `wallet` for the token `mint`: the
/// address that the associated-token program derives from the wallet, the
/// token program and the mint, in this order.
pub fn get_associated_token_address(wallet: &Address, mint: &Address) -> (found: Option<Address>)
    ensures
        found.deep_view() == associated_token_address(wallet@, mint@),
{
    let token_program: Vec<u8> = vec![
        6u8, 221, 246, 225, 215, 101, 161, 147, 217, 203, 225, 70, 206, 235, 121, 172,
        28, 180, 133, 237, 95, 91, 55, 145, 58, 140, 245, 133, 126, 255, 0, 169,
    ];
    let associated_token_program = Address {
        bytes: [
            140u8, 151, 37, 143, 78, 36, 137, 241, 187, 61, 16, 41, 20, 142, 13, 131,
            11, 90, 19, 153, 218, 255, 16, 132, 4, 142, 123, 216, 219, 233, 248, 89,
        ],
    };
    assert(token_program@ =~= token_program_id());
    assert(associated_token_program@ =~= associated_token_program_id());
    let mut seeds: Vec<Vec<u8>> = Vec::new();
    seeds.push(wallet.to_vec());
    seeds.push(token_program);
    seeds.push(mint.to_vec());
    assert(seeds.deep_view() =~~= seq![wallet@, token_program_id(), mint@]);
    match try_find_program_address(&seeds, &associated_token_program) {
        Some((address, _)) => Some(address),
        None => None,
    }
}

} // verus!
