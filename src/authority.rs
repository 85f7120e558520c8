use vstd::prelude::*;
use crate::identity::Identity;
use solana_program::pubkey::Pubkey;

verus! {

/// The program-derived address and bump for a seed under a program, as the
/// ledger computes it; `None` where no bump gives an address off the curve.
pub uninterp spec fn program_address_of(seed: Seq<u8>, program_id: Seq<u8>) -> Option<
    (Seq<u8>, u8),
>;

/// The fixed seed of this program's delegated authority ("mov_swap").
pub open spec fn authority_seed() -> Seq<u8> {
    seq![109u8, 111u8, 118u8, 95u8, 115u8, 119u8, 97u8, 112u8]
}

/// An optional derived pair with the address seen as its bytes.
pub open spec fn derived_view(r: Option<(Identity, u8)>) -> Option<(Seq<u8>, u8)> {
    match r {
        Some((a, b)) => Some((a@, b)),
        None => None,
    }
}

/// Relies on solana_program's `Pubkey::try_find_program_address`: a pure
/// function of the seeds and the program identity, searching bumps downward
/// from 255 for an address that has no private key.
#[verifier::external_body]
fn find_program_address(seed: &[u8], program_id: &Identity) -> (r: Option<(Identity, u8)>)
    ensures
        derived_view(r) == program_address_of(seed@, program_id@),
{
    match Pubkey::try_find_program_address(&[seed], &Pubkey::new_from_array(program_id.bytes)) {
        Some((key, bump)) => Some((Identity { bytes: key.to_bytes() }, bump)),
        None => None,
    }
}

/// The seed bytes that, with the bump, sign for the derived authority.
pub fn authority_seed_bytes() -> (r: Vec<u8>)
    ensures
        r@ == authority_seed(),
{
    let r = vec![109u8, 111u8, 118u8, 95u8, 115u8, 119u8, 97u8, 112u8];
    assert(r@ =~= authority_seed());
    r
}

/// The authority address and bump this program derives for itself.
pub fn derive_authority(program_id: &Identity) -> (r: Option<(Identity, u8)>)
    ensures
        derived_view(r) == program_address_of(authority_seed(), program_id@),
{
    let seed = authority_seed_bytes();
    find_program_address(seed.as_slice(), program_id)
}

} // verus!
