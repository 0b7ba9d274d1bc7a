//! Authority checks for privileged pool operations, and the seeds with which
//! the program signs for a pool whose authority is its own derived address.
use vstd::prelude::*;
use vstd::slice::slice_to_vec;
use vstd::string::StringSliceAdditionalSpecFns;

use crate::derivation::{create_program_address, program_address_of};
use crate::pool::{addresses_equal, is_zero_address, AuthorityMode, PoolState};

verus! {

/// The domain seed of the pool authority's derived address.
///
/// Changing it moves the authority of every existing pool.
pub const AUTH_SEED: &'static str = "authority";

/// Why an authority check failed.
#[derive(Clone, Copy, Debug, PartialEq, Eq, Structural)]
pub enum AuthorityError {
    /// The presented address or signer is not the pool's authority.
    InvalidAuthority,
}

/// The bytes of the authority domain seed.
pub open spec fn authority_seed() -> Seq<u8> {
    AUTH_SEED.spec_bytes()
}

/// The seeds, in order, that derive a pool's authority from its bump:
/// the domain seed, then the bump as a single byte.
pub open spec fn authority_seeds(bump: u8) -> Seq<Seq<u8>> {
    seq![authority_seed(), seq![bump]]
}

/// The address derived for a pool's authority under `program_id`, if any.
pub open spec fn derived_authority(bump: u8, program_id: Seq<u8>) -> Option<Seq<u8>> {
    program_address_of(authority_seeds(bump), program_id)
}

/// The outcome of checking `authority` against the pool's derived authority.
pub open spec fn authority_check(pool: PoolState, authority: [u8; 32], program_id: [u8; 32]) -> Result<(), AuthorityError> {
    if derived_authority(pool.authority_bump, program_id@) == Some(authority@) {
        Ok(())
    } else {
        Err(AuthorityError::InvalidAuthority)
    }
}

/// The outcome of checking an authenticated signer against the pool's
/// custom authority: any signer passes where none is configured.
pub open spec fn custom_signer_check(pool: PoolState, signer: [u8; 32]) -> Result<(), AuthorityError> {
    match pool.mode() {
        AuthorityMode::Derived => Ok(()),
        AuthorityMode::Custom(key) => if signer == key {
            Ok(())
        } else {
            Err(AuthorityError::InvalidAuthority)
        },
    }
}

/// The seeds with which the program signs for a pool's derived authority:
/// the domain seed, then `[bump]`.
pub fn get_pda_authority_seeds(bump: u8) -> (r: Vec<Vec<u8>>)
    ensures
        r.deep_view() == authority_seeds(bump),
{
    let domain = slice_to_vec(AUTH_SEED.as_bytes());
    let bump_seed = vec![bump];
    assert(bump_seed@ =~= seq![bump]);
    assert(domain.deep_view() =~= authority_seed());
    assert(bump_seed.deep_view() =~= seq![bump]);
    let seeds = vec![domain, bump_seed];
    assert(seeds@.len() == 2);
    assert(seeds.deep_view() =~= authority_seeds(bump));
    seeds
}

impl PoolState {
    /// The pool's derived authority address under `program_id`, or `None`
    /// where the platform derives no address from the pool's seeds.
    pub fn get_pool_authority(&self, program_id: &[u8; 32]) -> (r: Option<[u8; 32]>)
        ensures
            r matches Some(a) ==> derived_authority(self.authority_bump, program_id@) == Some(a@),
            r is None <==> derived_authority(self.authority_bump, program_id@) is None,
    {
        let seeds = get_pda_authority_seeds(self.authority_bump);
        match create_program_address(&seeds, program_id) {
            Ok(a) => Some(a),
            Err(_) => None,
        }
    }
}

/// Checks that `authority` is the pool's derived authority address under
/// `program_id`, byte for byte.
pub fn validate_authority(pool_state: &PoolState, authority: &[u8; 32], program_id: &[u8; 32]) -> (r: Result<(), AuthorityError>)
    ensures
        r == authority_check(*pool_state, *authority, *program_id),
{
    match pool_state.get_pool_authority(program_id) {
        Some(expected) => {
            if addresses_equal(authority, &expected) {
                Ok(())
            } else {
                proof {
                    if derived_authority(pool_state.authority_bump, program_id@) == Some(authority@) {
                        assert(*authority =~= expected);
                    }
                }
                Err(AuthorityError::InvalidAuthority)
            }
        },
        None => Err(AuthorityError::InvalidAuthority),
    }
}

/// Checks the already-authenticated `authority` signer against the pool's
/// custom authority. A pool without one accepts any signer, since the
/// program signs for it with seeds.
pub fn validate_custom_authority_signer(pool_state: &PoolState, authority: &[u8; 32]) -> (r: Result<(), AuthorityError>)
    ensures
        r == custom_signer_check(*pool_state, *authority),
{
    if pool_state.is_custom_authority() {
        if !addresses_equal(authority, &pool_state.custom_authority) {
            return Err(AuthorityError::InvalidAuthority);
        }
    }
    Ok(())
}

} // verus!
