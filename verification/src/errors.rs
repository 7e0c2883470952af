//! The error taxonomy of the engine.
//!
//! Every operation fails synchronously with exactly one of these values and
//! leaves all state untouched; there is no partial-success outcome.

use vstd::prelude::*;

verus! {

/// Why an operation was refused.
///
/// Authorization errors (`NotOwner`, `NotPendingOwner`, `Unauthorized`) mean
/// the caller's identity failed an exact-match or role-lookup check.
/// Validation errors (`NameTooLong`, `SymbolTooLong`, `UriTooLong`,
/// `InvalidRole`) mean malformed input was rejected before any mutation.
/// Identity-consistency errors (`InvalidUnwrappedMint`, `InvalidWrappedMint`,
/// `InvalidUnwrappedMintVault`, `InvalidAccountData`) mean a supplied account
/// does not match the address the registry or the derivation rules require.
/// `InsufficientBalance` means an arithmetic precondition (amount positive,
/// surplus positive, holder balance sufficient) failed.
#[derive(Clone, Copy, Debug, PartialEq, Eq, Structural)]
pub enum TokenizationWrapError {
    NotOwner,
    NotPendingOwner,
    Unauthorized,
    NameTooLong,
    SymbolTooLong,
    UriTooLong,
    InvalidUnwrappedMint,
    InvalidWrappedMint,
    InsufficientBalance,
    InvalidAccountData,
    InvalidUnwrappedMintVault,
    InvalidRole,
}

} // verus!
