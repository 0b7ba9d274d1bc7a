//! The part of a pool's state that decides who its authority is.
use vstd::prelude::*;

verus! {

/// Number of bytes in an address.
pub const ADDRESS_LEN: usize = 32;

/// The two ways a pool's authority can be configured.
#[derive(Clone, Copy, Debug)]
pub enum AuthorityMode {
    /// The program's own derived address, for which the program signs with seeds.
    Derived,
    /// An externally owned key, whose signature must be attached.
    Custom([u8; 32]),
}

/// The authority fields of a pool, fixed when the pool is created.
///
/// `custom_authority` is all zero bytes when no custom authority is set.
#[derive(Clone, Copy, Debug)]
pub struct PoolState {
    /// The bump byte that, with the authority seed and the program id,
    /// derives the program-owned authority address.
    pub authority_bump: u8,
    /// The configured external authority, or all zero bytes for none.
    pub custom_authority: [u8; 32],
}

/// `a` is the all-zero address, the sentinel for "no custom authority".
pub open spec fn is_zero_address(a: [u8; 32]) -> bool {
    forall|i: int| 0 <= i < 32 ==> a[i] == 0
}

/// Byte-for-byte equality of two addresses.
pub fn addresses_equal(a: &[u8; 32], b: &[u8; 32]) -> (r: bool)
    ensures
        r == (*a == *b),
{
    broadcast use vstd::array::group_array_axioms;
    let mut i: usize = 0;
    while i < ADDRESS_LEN
        invariant
            a@.len() == 32,
            b@.len() == 32,
            forall|j: int| 0 <= j < i ==> a[j] == b[j],
        decreases ADDRESS_LEN - i,
    {
        if a[i] != b[i] {
            return false;
        }
        i = i + 1;
    }
    assert(*a =~= *b);
    true
}

/// Whether `a` is the all-zero sentinel address.
pub fn is_zero(a: &[u8; 32]) -> (r: bool)
    ensures
        r == is_zero_address(*a),
{
    broadcast use vstd::array::group_array_axioms;
    let mut i: usize = 0;
    while i < ADDRESS_LEN
        invariant
            a@.len() == 32,
            forall|j: int| 0 <= j < i ==> a[j] == 0,
        decreases ADDRESS_LEN - i,
    {
        if a[i] != 0 {
            return false;
        }
        i = i + 1;
    }
    true
}

impl PoolState {
    /// The pool has an external authority configured.
    pub open spec fn has_custom_authority(&self) -> bool {
        !is_zero_address(self.custom_authority)
    }

    /// The authority mode that the pool's fields encode.
    pub open spec fn mode(&self) -> AuthorityMode {
        if self.has_custom_authority() {
            AuthorityMode::Custom(self.custom_authority)
        } else {
            AuthorityMode::Derived
        }
    }

    /// Whether the pool has an external authority configured, that is,
    /// whether `custom_authority` differs from the all-zero sentinel.
    pub fn is_custom_authority(&self) -> (r: bool)
        ensures
            r == self.has_custom_authority(),
    {
        !is_zero(&self.custom_authority)
    }

    /// The pool's authority mode.
    pub fn authority_mode(&self) -> (r: AuthorityMode)
        ensures
            r == self.mode(),
    {
        if self.is_custom_authority() {
            AuthorityMode::Custom(self.custom_authority)
        } else {
            AuthorityMode::Derived
        }
    }
}

} // verus!
