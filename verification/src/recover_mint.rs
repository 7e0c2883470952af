//! Reconciliation: mint the custody surplus to the pair owner.
//!
//! Direct, out-of-band transfers into the custody account (airdrops, dust)
//! increase the backing without a corresponding wrap, leaving
//! `custody_balance > wrapped_total_supply`. `recover_mint` mints exactly
//! that surplus to the owner's wrapped holding account, restoring equality.
//! The owner is the beneficiary because end users never had a claim on
//! never-wrapped funds. Equality means nothing to recover and is rejected
//! rather than silently accepted.

use vstd::prelude::*;

use crate::create_mint::WrappedMintState;
use crate::derivation::{
    derive_unwrapped_mint_vault, derive_wrapped_mint, spec_custody_derivation,
    spec_wrapped_mint_derivation,
};
use crate::errors::TokenizationWrapError;
use crate::ids::{lemma_account_id_bytes_eq, AccountId, ProgramIds};

verus! {

/// The resolved accounts of a reconciliation call.
#[derive(Clone, Copy, Debug)]
pub struct RecoverMint {
    /// The caller; must be the pair owner.
    pub wrapped_mint_owner: AccountId,
    pub unwrapped_mint: AccountId,
    pub wrapped_mint: AccountId,
    /// The owner's wrapped holding account, the destination of the minted
    /// surplus; named here so the audit record can carry it.
    pub wrapped_mint_account: AccountId,
    pub unwrapped_mint_vault: AccountId,
}

/// The balances a reconciliation call reads and writes.
#[derive(Clone, Copy, Debug, PartialEq, Eq, Structural)]
pub struct RecoverBalances {
    pub custody_balance: u64,
    pub wrapped_supply: u64,
    /// The owner's wrapped balance.
    pub owner_wrapped_balance: u64,
}

/// The immutable record appended after a successful reconciliation.
#[derive(Clone, Copy, Debug)]
pub struct RecoverMintEvent {
    pub wrapped_mint_owner: AccountId,
    pub unwrapped_mint: AccountId,
    pub wrapped_mint: AccountId,
    pub unwrapped_mint_vault: AccountId,
    pub wrapped_mint_account: AccountId,
    pub unwrapped_mint_vault_balance: u64,
    pub wrapped_mint_total_supply: u64,
    pub recovered_amount: u64,
}

/// The first reason the accounts of a reconciliation call are refused, or
/// `None` if they are consistent: the caller must be the pair owner and
/// every identity the registry pins must re-derive and match.
pub open spec fn recover_account_error(
    accounts: RecoverMint,
    state: WrappedMintState,
    programs: ProgramIds,
) -> Option<TokenizationWrapError> {
    if accounts.wrapped_mint_owner != state.wrapped_mint_owner {
        Some(TokenizationWrapError::NotOwner)
    } else if accounts.unwrapped_mint != state.unwrapped_mint {
        Some(TokenizationWrapError::InvalidUnwrappedMint)
    } else {
        let wm = spec_wrapped_mint_derivation(
            accounts.unwrapped_mint.bytes@,
            state.salt@,
            programs.wrap_program.bytes@,
        );
        if wm is None {
            Some(TokenizationWrapError::InvalidAccountData)
        } else if wm->Some_0.0 != accounts.wrapped_mint.bytes@ {
            Some(TokenizationWrapError::InvalidWrappedMint)
        } else if accounts.wrapped_mint != state.wrapped_mint {
            Some(TokenizationWrapError::InvalidWrappedMint)
        } else {
            let dv = spec_custody_derivation(
                accounts.wrapped_mint.bytes@,
                accounts.unwrapped_mint.bytes@,
                programs.token_program.bytes@,
                programs.associated_token_program.bytes@,
            );
            if dv is None {
                Some(TokenizationWrapError::InvalidAccountData)
            } else if dv->Some_0.0 != accounts.unwrapped_mint_vault.bytes@ {
                Some(TokenizationWrapError::InvalidUnwrappedMintVault)
            } else if accounts.unwrapped_mint_vault != state.unwrapped_mint_vault {
                Some(TokenizationWrapError::InvalidUnwrappedMintVault)
            } else {
                None
            }
        }
    }
}

/// What a reconciliation call does: with consistent accounts, it requires
/// the custody balance to strictly exceed the wrapped supply and mints
/// exactly the difference to the owner, after which supply equals custody.
pub open spec fn recover_outcome(
    accounts: RecoverMint,
    state: WrappedMintState,
    programs: ProgramIds,
    balances: RecoverBalances,
) -> Result<RecoverBalances, TokenizationWrapError> {
    match recover_account_error(accounts, state, programs) {
        Some(e) => Err(e),
        None => if balances.custody_balance <= balances.wrapped_supply {
            Err(TokenizationWrapError::InsufficientBalance)
        } else {
            Ok(
                RecoverBalances {
                    custody_balance: balances.custody_balance,
                    wrapped_supply: balances.custody_balance,
                    owner_wrapped_balance: (balances.owner_wrapped_balance + (
                    balances.custody_balance - balances.wrapped_supply)) as u64,
                },
            )
        },
    }
}

/// Reconciles custody drift: mints `custody_balance - wrapped_supply` of the
/// wrapped asset to the pair owner.
pub fn recover_mint(
    accounts: &RecoverMint,
    state: &WrappedMintState,
    programs: &ProgramIds,
    balances: &mut RecoverBalances,
) -> (r: Result<RecoverMintEvent, TokenizationWrapError>)
    requires
        old(balances).owner_wrapped_balance <= old(balances).wrapped_supply,
        old(balances).wrapped_supply <= old(balances).custody_balance,
    ensures
        match r {
            Ok(ev) => recover_outcome(*accounts, *state, *programs, *old(balances)) == Ok::<
                _,
                TokenizationWrapError,
            >(*final(balances)) && ev == (RecoverMintEvent {
                wrapped_mint_owner: accounts.wrapped_mint_owner,
                unwrapped_mint: accounts.unwrapped_mint,
                wrapped_mint: accounts.wrapped_mint,
                unwrapped_mint_vault: accounts.unwrapped_mint_vault,
                wrapped_mint_account: accounts.wrapped_mint_account,
                unwrapped_mint_vault_balance: old(balances).custody_balance,
                wrapped_mint_total_supply: old(balances).wrapped_supply,
                recovered_amount: (old(balances).custody_balance - old(
                    balances,
                ).wrapped_supply) as u64,
            }),
            Err(e) => recover_outcome(*accounts, *state, *programs, *old(balances)) == Err::<
                RecoverBalances,
                _,
            >(e) && *final(balances) == *old(balances),
        },
{
    if !(accounts.wrapped_mint_owner == state.wrapped_mint_owner) {
        return Err(TokenizationWrapError::NotOwner);
    }
    if !(accounts.unwrapped_mint == state.unwrapped_mint) {
        return Err(TokenizationWrapError::InvalidUnwrappedMint);
    }
    let derived_wrapped = match derive_wrapped_mint(
        &accounts.unwrapped_mint,
        &state.salt,
        &programs.wrap_program,
    ) {
        None => {
            return Err(TokenizationWrapError::InvalidAccountData);
        },
        Some(p) => p.0,
    };
    proof {
        lemma_account_id_bytes_eq(derived_wrapped, accounts.wrapped_mint);
    }
    if !(derived_wrapped == accounts.wrapped_mint) {
        return Err(TokenizationWrapError::InvalidWrappedMint);
    }
    if !(accounts.wrapped_mint == state.wrapped_mint) {
        return Err(TokenizationWrapError::InvalidWrappedMint);
    }
    let derived_vault = match derive_unwrapped_mint_vault(
        &accounts.wrapped_mint,
        &accounts.unwrapped_mint,
        programs,
    ) {
        None => {
            return Err(TokenizationWrapError::InvalidAccountData);
        },
        Some(p) => p.0,
    };
    proof {
        lemma_account_id_bytes_eq(derived_vault, accounts.unwrapped_mint_vault);
    }
    if !(derived_vault == accounts.unwrapped_mint_vault) {
        return Err(TokenizationWrapError::InvalidUnwrappedMintVault);
    }
    if !(accounts.unwrapped_mint_vault == state.unwrapped_mint_vault) {
        return Err(TokenizationWrapError::InvalidUnwrappedMintVault);
    }
    if balances.custody_balance <= balances.wrapped_supply {
        return Err(TokenizationWrapError::InsufficientBalance);
    }
    let surplus = balances.custody_balance - balances.wrapped_supply;
    let event = RecoverMintEvent {
        wrapped_mint_owner: accounts.wrapped_mint_owner,
        unwrapped_mint: accounts.unwrapped_mint,
        wrapped_mint: accounts.wrapped_mint,
        unwrapped_mint_vault: accounts.unwrapped_mint_vault,
        wrapped_mint_account: accounts.wrapped_mint_account,
        unwrapped_mint_vault_balance: balances.custody_balance,
        wrapped_mint_total_supply: balances.wrapped_supply,
        recovered_amount: surplus,
    };
    balances.wrapped_supply = balances.custody_balance;
    balances.owner_wrapped_balance = balances.owner_wrapped_balance + surplus;
    Ok(event)
}

} // verus!
