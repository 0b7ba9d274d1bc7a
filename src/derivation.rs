//! The platform's program-address derivation, as seen by the library.
//!
//! Addresses are plain 32-byte arrays here; the conversion to and from the
//! platform's `Pubkey` happens only inside the wrapper below.
use vstd::prelude::*;

use anchor_lang::prelude::Pubkey;
use anchor_lang::solana_program::pubkey::PubkeyError;

verus! {

/// The error type that the platform's derivation returns.
#[verifier::external_type_specification]
#[verifier::external_body]
pub struct ExPubkeyError(PubkeyError);

/// The program address derived from `seeds` and `program_id`, or `None`
/// where the platform refuses to derive one (too many or too long seeds,
/// or a hash that lies on the ed25519 curve). It depends on its arguments
/// alone: a SHA-256 digest followed by a curve test.
pub uninterp spec fn program_address_of(seeds: Seq<Seq<u8>>, program_id: Seq<u8>) -> Option<Seq<u8>>;

/// Relies on `Pubkey::create_program_address` (solana-address): it derives
/// the address deterministically from the seeds and the program id, and
/// fails exactly where no address is derived for them.
#[verifier::external_body]
pub(crate) fn create_program_address(seeds: &Vec<Vec<u8>>, program_id: &[u8; 32]) -> (r: Result<[u8; 32], PubkeyError>)
    ensures
        r is Ok <==> program_address_of(seeds.deep_view(), program_id@) is Some,
        r matches Ok(a) ==> program_address_of(seeds.deep_view(), program_id@) == Some(a@),
{
    let slices: Vec<&[u8]> = seeds.iter().map(|s| s.as_slice()).collect();
    Pubkey::create_program_address(&slices, &Pubkey::new_from_array(*program_id)).map(|p| p.to_bytes())
}

} // verus!
