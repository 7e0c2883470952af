//! A value-custody and authorization engine for a wrapped fungible asset.
//!
//! A holder of an existing fungible asset (the "unwrapped" asset) deposits it
//! into a program-controlled custody account and receives, one for one, a
//! newly minted "wrapped" asset. Holders redeem wrapped units back for the
//! underlying custody balance. The library covers the account-identity model
//! (deterministic sub-account derivation), the escrow conservation invariant
//! across wrap/unwrap/recover, the two-phase ownership-transfer state machine,
//! and the role-based authorization registry gating privileged operations.
//! Ledger access (reading accounts, submitting the mint/burn/transfer calls of
//! the external asset service) is the host's business: every operation here is
//! a pure decision from supplied account values to a new state or an error.

pub mod close_vault;
pub mod constants;
pub mod create_mint;
pub mod derivation;
pub mod errors;
pub mod escrow;
pub mod ids;
pub mod laws;
pub mod manage;
pub mod recover_mint;
pub mod role;
pub mod unwrap;
pub mod wrap;

pub use crate::close_vault::close_unwrapped_mint_vault as close_vault;
pub use crate::create_mint::create_mint;
pub use crate::manage::accept_ownership;
pub use crate::manage::transfer_ownership;
pub use crate::recover_mint::recover_mint;
pub use crate::role::add_role;
pub use crate::role::remove_role;
pub use crate::unwrap::unwrap;
pub use crate::wrap::wrap;
