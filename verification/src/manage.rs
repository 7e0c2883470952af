//! The two-step ownership-transfer state machine.
//!
//! Administrative control over a pair moves from `Stable(owner)` through
//! `PendingTransfer(owner, nominee)` to `Stable(nominee)`. The owner
//! nominates (and may overwrite or, by nominating the sentinel identity,
//! cancel the nomination); only the nominee can accept. A single-step
//! transfer cannot be undone, so a typo'd or unreachable target would lose
//! control irrecoverably; the two-step design prevents that.

use vstd::prelude::*;

use crate::create_mint::WrappedMintState;
use crate::errors::TokenizationWrapError;
use crate::ids::{no_principal, AccountId};

verus! {

/// The resolved accounts of a nomination call.
#[derive(Clone, Copy, Debug)]
pub struct TransferOwnerShip {
    /// The caller; must be the pair owner.
    pub wrapped_mint_owner: AccountId,
    pub wrapped_mint: AccountId,
}

/// The resolved accounts of an acceptance call.
#[derive(Clone, Copy, Debug)]
pub struct AcceptOwnerShip {
    /// The caller; must be the nominated pending owner.
    pub wrapped_mint_pending_owner: AccountId,
    pub wrapped_mint: AccountId,
}

/// What a nomination does: the caller must be the current owner and the
/// supplied wrapped asset must be the registry's; the nominee replaces any
/// prior one, and nothing else changes.
pub open spec fn transfer_ownership_outcome(
    accounts: TransferOwnerShip,
    state: WrappedMintState,
    new_owner: AccountId,
) -> Result<WrappedMintState, TokenizationWrapError> {
    if accounts.wrapped_mint_owner != state.wrapped_mint_owner {
        Err(TokenizationWrapError::NotOwner)
    } else if accounts.wrapped_mint != state.wrapped_mint {
        Err(TokenizationWrapError::InvalidWrappedMint)
    } else {
        Ok(WrappedMintState { wrapped_mint_pending_owner: new_owner, ..state })
    }
}

/// Nominates `new_owner` as the pending owner of the pair.
pub fn transfer_ownership(
    accounts: &TransferOwnerShip,
    state: &mut WrappedMintState,
    new_owner: AccountId,
) -> (r: Result<(), TokenizationWrapError>)
    ensures
        match r {
            Ok(_) => transfer_ownership_outcome(*accounts, *old(state), new_owner) == Ok::<
                _,
                TokenizationWrapError,
            >(*final(state)),
            Err(e) => transfer_ownership_outcome(*accounts, *old(state), new_owner) == Err::<
                WrappedMintState,
                _,
            >(e) && *final(state) == *old(state),
        },
{
    if !(accounts.wrapped_mint_owner == state.wrapped_mint_owner) {
        return Err(TokenizationWrapError::NotOwner);
    }
    if !(accounts.wrapped_mint == state.wrapped_mint) {
        return Err(TokenizationWrapError::InvalidWrappedMint);
    }
    state.wrapped_mint_pending_owner = new_owner;
    Ok(())
}

/// What an acceptance does: the caller must be the nominated pending owner
/// and the supplied wrapped asset must be the registry's; the caller becomes
/// the owner and the pending owner is cleared to the sentinel identity.
pub open spec fn accept_ownership_outcome(accounts: AcceptOwnerShip, state: WrappedMintState)
    -> Result<WrappedMintState, TokenizationWrapError> {
    if accounts.wrapped_mint_pending_owner != state.wrapped_mint_pending_owner {
        Err(TokenizationWrapError::NotPendingOwner)
    } else if accounts.wrapped_mint != state.wrapped_mint {
        Err(TokenizationWrapError::InvalidWrappedMint)
    } else {
        Ok(
            WrappedMintState {
                wrapped_mint_owner: accounts.wrapped_mint_pending_owner,
                wrapped_mint_pending_owner: no_principal(),
                ..state
            },
        )
    }
}

/// Completes a pending ownership transfer.
pub fn accept_ownership(accounts: &AcceptOwnerShip, state: &mut WrappedMintState) -> (r: Result<
    (),
    TokenizationWrapError,
>)
    ensures
        match r {
            Ok(_) => accept_ownership_outcome(*accounts, *old(state)) == Ok::<
                _,
                TokenizationWrapError,
            >(*final(state)),
            Err(e) => accept_ownership_outcome(*accounts, *old(state)) == Err::<
                WrappedMintState,
                _,
            >(e) && *final(state) == *old(state),
        },
{
    if !(accounts.wrapped_mint_pending_owner == state.wrapped_mint_pending_owner) {
        return Err(TokenizationWrapError::NotPendingOwner);
    }
    if !(accounts.wrapped_mint == state.wrapped_mint) {
        return Err(TokenizationWrapError::InvalidWrappedMint);
    }
    state.wrapped_mint_owner = accounts.wrapped_mint_pending_owner;
    state.wrapped_mint_pending_owner = crate::ids::make_no_principal();
    Ok(())
}

} // verus!
