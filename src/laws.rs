//! Properties of the authority checks and seeds, proved over their
//! specifications.
use vstd::prelude::*;

use crate::authority::{authority_check, authority_seeds, custom_signer_check, derived_authority, AuthorityError};
use crate::pool::{is_zero_address, AuthorityMode, PoolState};

verus! {

broadcast use vstd::array::group_array_axioms;

/// For a pool in derived mode whose seeds derive `expected` under
/// `program_id`, the address check accepts `expected` and rejects every
/// other address with `InvalidAuthority`.
pub proof fn lemma_validate_authority_exact(pool: PoolState, expected: [u8; 32], candidate: [u8; 32], program_id: [u8; 32])
    requires
        pool.mode() is Derived,
        derived_authority(pool.authority_bump, program_id@) == Some(expected@),
    ensures
        authority_check(pool, expected, program_id) == Ok::<(), AuthorityError>(()),
        candidate != expected ==> authority_check(pool, candidate, program_id) == Err::<(), AuthorityError>(AuthorityError::InvalidAuthority),
{
    if candidate@ == expected@ {
        assert(candidate =~= expected);
    }
}

/// For a pool whose custom authority is `key`, the signer check passes
/// exactly for signer `key`; every other signer, the all-zero sentinel
/// among them, fails with `InvalidAuthority`.
pub proof fn lemma_custom_signer_must_match(pool: PoolState, key: [u8; 32], signer: [u8; 32])
    requires
        pool.mode() == AuthorityMode::Custom(key),
    ensures
        custom_signer_check(pool, signer) is Ok <==> signer == key,
        signer != key ==> custom_signer_check(pool, signer) == Err::<(), AuthorityError>(AuthorityError::InvalidAuthority),
        is_zero_address(signer) ==> custom_signer_check(pool, signer) == Err::<(), AuthorityError>(AuthorityError::InvalidAuthority),
{
    assert(pool.has_custom_authority());
}

/// For a pool in derived mode the signer check passes for every signer.
pub proof fn lemma_derived_mode_accepts_any_signer(pool: PoolState, signer: [u8; 32])
    requires
        pool.mode() is Derived,
    ensures
        custom_signer_check(pool, signer) == Ok::<(), AuthorityError>(()),
{
}

/// The authority seeds determine the bump: equal bumps give equal seed
/// lists, and different bumps give different ones.
pub proof fn lemma_authority_seeds_injective(b1: u8, b2: u8)
    ensures
        (authority_seeds(b1) == authority_seeds(b2)) <==> b1 == b2,
{
    if authority_seeds(b1) == authority_seeds(b2) {
        assert(authority_seeds(b1)[1][0] == b1);
        assert(authority_seeds(b2)[1][0] == b2);
    }
}

/// Both checks are functions of their inputs: repeating a check on the
/// same pool, address and program id gives the same outcome.
pub proof fn lemma_checks_repeatable(
    pool1: PoolState,
    pool2: PoolState,
    address1: [u8; 32],
    address2: [u8; 32],
    program_id1: [u8; 32],
    program_id2: [u8; 32],
)
    requires
        pool1 == pool2,
        address1 == address2,
        program_id1 == program_id2,
    ensures
        authority_check(pool1, address1, program_id1) == authority_check(pool2, address2, program_id2),
        custom_signer_check(pool1, address1) == custom_signer_check(pool2, address2),
{
}

} // verus!
