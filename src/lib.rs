//! Authority validation and signing seeds for a constant-product swap pool.
//!
//! A pool's authority is either the program's own derived address (no
//! private key; the program signs with seeds) or an externally owned key
//! configured on the pool. The validators here decide whether a presented
//! address or an already-authenticated signer is that authority.

pub mod authority;
pub mod derivation;
pub mod laws;
pub mod pool;

pub use authority::{
    get_pda_authority_seeds, validate_authority, validate_custom_authority_signer, AuthorityError,
    AUTH_SEED,
};
pub use pool::{addresses_equal, is_zero, AuthorityMode, PoolState, ADDRESS_LEN};
