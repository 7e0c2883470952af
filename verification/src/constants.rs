//! Seed tags for derived identities.
//!
//! Each durable sub-account of a pair lives at an identity derived from a
//! role tag and its parent identities, so that holding the right identity is
//! proof of holding the right account.

use vstd::prelude::*;

verus! {

/// Tag of the wrapped-asset identity, the bytes of `"wrapped_mint"`.
pub const WRAPPED_MINT_SEED: [u8; 12] = [119, 114, 97, 112, 112, 101, 100, 95, 109, 105, 110, 116];

/// Tag of the pair-registry identity, the bytes of `"wrapped_mint_state"`.
pub const WRAPPED_MINT_STATE_SEED: [u8; 18] = [
    119,
    114,
    97,
    112,
    112,
    101,
    100,
    95,
    109,
    105,
    110,
    116,
    95,
    115,
    116,
    97,
    116,
    101,
];

/// Tag of an authorization-record identity, the bytes of `"wrapped_role"`.
pub const WRAPPED_ROLE_SEED: [u8; 12] = [119, 114, 97, 112, 112, 101, 100, 95, 114, 111, 108, 101];

} // verus!
