//! Vault lifecycle recovery: closing a custody account left unusable.
//!
//! When the unwrapped asset is destroyed and recreated incompatibly at the
//! same identity — an exceptional, host-level event — the custody account
//! can be left in a state no transfer can touch. `close_unwrapped_mint_vault`
//! lets the pair owner close it entirely, returning its storage deposit to
//! the owner without moving any asset balance; a later wrap recreates the
//! custody account fresh against the asset's current configuration. It is a
//! last-resort unstick, not a transfer: it cannot preserve a prior balance,
//! so the owner must have verified out of band that nothing reclaimable is
//! left, or accept that the triggering event already incurred the loss.

use vstd::prelude::*;

use crate::create_mint::WrappedMintState;
use crate::derivation::{
    derive_unwrapped_mint_vault, derive_wrapped_mint, derive_wrapped_mint_state,
    spec_custody_derivation, spec_registry_derivation, spec_wrapped_mint_derivation,
};
use crate::errors::TokenizationWrapError;
use crate::ids::{lemma_account_id_bytes_eq, AccountId, ProgramIds};

verus! {

/// The resolved accounts of a vault-closing call.
#[derive(Clone, Copy, Debug)]
pub struct CloseUnwrappedMintVault {
    /// The caller; must be the pair owner, and receives the closed
    /// account's storage deposit.
    pub wrapped_mint_owner: AccountId,
    pub unwrapped_mint: AccountId,
    pub wrapped_mint: AccountId,
    pub unwrapped_mint_vault: AccountId,
}

/// The immutable record appended after a successful vault closing.
#[derive(Clone, Copy, Debug)]
pub struct CloseUnwrappedMintVaultEvent {
    pub wrapped_mint_owner: AccountId,
    pub unwrapped_mint: AccountId,
    pub wrapped_mint: AccountId,
    pub wrapped_mint_state: AccountId,
    pub unwrapped_mint_vault: AccountId,
}

/// The first reason a vault-closing call is refused, or `None` if it is
/// accepted: the caller must be the pair owner, and the wrapped asset, the
/// pair registry and the custody account must re-derive and match.
pub open spec fn close_vault_error(
    accounts: CloseUnwrappedMintVault,
    state: WrappedMintState,
    programs: ProgramIds,
) -> Option<TokenizationWrapError> {
    if accounts.wrapped_mint_owner != state.wrapped_mint_owner {
        Some(TokenizationWrapError::NotOwner)
    } else if accounts.unwrapped_mint != state.unwrapped_mint {
        Some(TokenizationWrapError::InvalidUnwrappedMint)
    } else {
        let wm = spec_wrapped_mint_derivation(
            accounts.unwrapped_mint.bytes@,
            state.salt@,
            programs.wrap_program.bytes@,
        );
        if wm is None {
            Some(TokenizationWrapError::InvalidAccountData)
        } else if wm->Some_0.0 != accounts.wrapped_mint.bytes@ {
            Some(TokenizationWrapError::InvalidWrappedMint)
        } else if accounts.wrapped_mint != state.wrapped_mint {
            Some(TokenizationWrapError::InvalidWrappedMint)
        } else if spec_registry_derivation(accounts.wrapped_mint.bytes@, programs.wrap_program.bytes@)
            is None {
            Some(TokenizationWrapError::InvalidAccountData)
        } else {
            let dv = spec_custody_derivation(
                accounts.wrapped_mint.bytes@,
                accounts.unwrapped_mint.bytes@,
                programs.token_program.bytes@,
                programs.associated_token_program.bytes@,
            );
            if dv is None {
                Some(TokenizationWrapError::InvalidAccountData)
            } else if dv->Some_0.0 != accounts.unwrapped_mint_vault.bytes@ {
                Some(TokenizationWrapError::InvalidUnwrappedMintVault)
            } else {
                None
            }
        }
    }
}

/// Approves the closing of the custody account: on success the host closes
/// the account at the returned record's `unwrapped_mint_vault` identity and
/// pays its storage deposit to the owner. No balance moves.
pub fn close_unwrapped_mint_vault(
    accounts: &CloseUnwrappedMintVault,
    state: &WrappedMintState,
    programs: &ProgramIds,
) -> (r: Result<CloseUnwrappedMintVaultEvent, TokenizationWrapError>)
    ensures
        (r is Err <==> close_vault_error(*accounts, *state, *programs) is Some),
        (r matches Err(e) ==> close_vault_error(*accounts, *state, *programs) == Some(e)),
        (r matches Ok(ev) ==> {
            &&& ev.wrapped_mint_owner == accounts.wrapped_mint_owner
            &&& ev.unwrapped_mint == accounts.unwrapped_mint
            &&& ev.wrapped_mint == accounts.wrapped_mint
            &&& spec_registry_derivation(accounts.wrapped_mint.bytes@, programs.wrap_program.bytes@)
                matches Some(dr) && ev.wrapped_mint_state.bytes@ == dr.0
            &&& ev.unwrapped_mint_vault == accounts.unwrapped_mint_vault
        }),
{
    if !(accounts.wrapped_mint_owner == state.wrapped_mint_owner) {
        return Err(TokenizationWrapError::NotOwner);
    }
    if !(accounts.unwrapped_mint == state.unwrapped_mint) {
        return Err(TokenizationWrapError::InvalidUnwrappedMint);
    }
    let derived_wrapped = match derive_wrapped_mint(
        &accounts.unwrapped_mint,
        &state.salt,
        &programs.wrap_program,
    ) {
        None => {
            return Err(TokenizationWrapError::InvalidAccountData);
        },
        Some(p) => p.0,
    };
    proof {
        lemma_account_id_bytes_eq(derived_wrapped, accounts.wrapped_mint);
    }
    if !(derived_wrapped == accounts.wrapped_mint) {
        return Err(TokenizationWrapError::InvalidWrappedMint);
    }
    if !(accounts.wrapped_mint == state.wrapped_mint) {
        return Err(TokenizationWrapError::InvalidWrappedMint);
    }
    let wrapped_mint_state = match derive_wrapped_mint_state(
        &accounts.wrapped_mint,
        &programs.wrap_program,
    ) {
        None => {
            return Err(TokenizationWrapError::InvalidAccountData);
        },
        Some(p) => p.0,
    };
    let derived_vault = match derive_unwrapped_mint_vault(
        &accounts.wrapped_mint,
        &accounts.unwrapped_mint,
        programs,
    ) {
        None => {
            return Err(TokenizationWrapError::InvalidAccountData);
        },
        Some(p) => p.0,
    };
    proof {
        lemma_account_id_bytes_eq(derived_vault, accounts.unwrapped_mint_vault);
    }
    if !(derived_vault == accounts.unwrapped_mint_vault) {
        return Err(TokenizationWrapError::InvalidUnwrappedMintVault);
    }
    Ok(
        CloseUnwrappedMintVaultEvent {
            wrapped_mint_owner: accounts.wrapped_mint_owner,
            unwrapped_mint: accounts.unwrapped_mint,
            wrapped_mint: accounts.wrapped_mint,
            wrapped_mint_state,
            unwrapped_mint_vault: accounts.unwrapped_mint_vault,
        },
    )
}

} // verus!
