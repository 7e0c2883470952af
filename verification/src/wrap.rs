//! Wrapping: deposit unwrapped units, mint the same amount of wrapped units.
//!
//! A successful wrap moves `amount` of the unwrapped asset from the caller's
//! holding account into custody and mints `amount` of the wrapped asset to
//! the caller, so the custody balance and the wrapped supply grow by exactly
//! the same amount. The host performs both legs atomically: either both are
//! retained or neither.

use vstd::prelude::*;

use crate::create_mint::WrappedMintState;
use crate::derivation::{
    derive_unwrapped_mint_vault, derive_wrapped_mint, spec_custody_derivation,
    spec_wrapped_mint_derivation,
};
use crate::errors::TokenizationWrapError;
use crate::escrow::{escrow_ok, EscrowBalances};
use crate::ids::{lemma_account_id_bytes_eq, AccountId, ProgramIds};
use crate::role::{spec_wrapper_authorized, wrapper_authorized, RoleState};

verus! {

/// The resolved accounts of a wrap call.
#[derive(Clone, Copy, Debug)]
pub struct Wrap {
    /// The caller; must hold the `Wrapper` role on the pair.
    pub user: AccountId,
    pub unwrapped_mint: AccountId,
    pub wrapped_mint: AccountId,
    pub unwrapped_mint_vault: AccountId,
    /// The record the host found at the identity derived from
    /// `(wrapped asset, Wrapper, caller)`, if any.
    pub user_role: Option<RoleState>,
}

/// The immutable record appended after a successful wrap.
#[derive(Clone, Copy, Debug)]
pub struct WrapEvent {
    pub user: AccountId,
    pub unwrapped_mint: AccountId,
    pub wrapped_mint: AccountId,
    pub amount: u64,
}

/// The first reason the accounts of a wrap or unwrap call are refused, or
/// `None` if they are consistent: every identity the registry pins must
/// re-derive and match what the caller supplied, and the caller must be
/// authorized.
pub open spec fn wrap_account_error(
    accounts: Wrap,
    state: WrappedMintState,
    programs: ProgramIds,
) -> Option<TokenizationWrapError> {
    if accounts.unwrapped_mint != state.unwrapped_mint {
        Some(TokenizationWrapError::InvalidUnwrappedMint)
    } else {
        let wm = spec_wrapped_mint_derivation(
            accounts.unwrapped_mint.bytes@,
            state.salt@,
            programs.wrap_program.bytes@,
        );
        if wm is None {
            Some(TokenizationWrapError::InvalidAccountData)
        } else if wm->Some_0.0 != accounts.wrapped_mint.bytes@ {
            Some(TokenizationWrapError::InvalidWrappedMint)
        } else if accounts.wrapped_mint != state.wrapped_mint {
            Some(TokenizationWrapError::InvalidWrappedMint)
        } else if !spec_wrapper_authorized(accounts.user_role, accounts.wrapped_mint, accounts.user) {
            Some(TokenizationWrapError::Unauthorized)
        } else {
            let dv = spec_custody_derivation(
                accounts.wrapped_mint.bytes@,
                accounts.unwrapped_mint.bytes@,
                programs.token_program.bytes@,
                programs.associated_token_program.bytes@,
            );
            if dv is None {
                Some(TokenizationWrapError::InvalidAccountData)
            } else if dv->Some_0.0 != accounts.unwrapped_mint_vault.bytes@ {
                Some(TokenizationWrapError::InvalidUnwrappedMintVault)
            } else if accounts.unwrapped_mint_vault != state.unwrapped_mint_vault {
                Some(TokenizationWrapError::InvalidUnwrappedMintVault)
            } else {
                None
            }
        }
    }
}

/// What a wrap call does to the balances, or why it is refused. A zero
/// amount and an amount above the caller's unwrapped balance are refused
/// as `InsufficientBalance`; account checks come first, so an unauthorized
/// caller is refused whatever the amount.
pub open spec fn wrap_outcome(
    accounts: Wrap,
    state: WrappedMintState,
    programs: ProgramIds,
    balances: EscrowBalances,
    amount: u64,
) -> Result<EscrowBalances, TokenizationWrapError> {
    match wrap_account_error(accounts, state, programs) {
        Some(e) => Err(e),
        None => if amount == 0 {
            Err(TokenizationWrapError::InsufficientBalance)
        } else if balances.user_unwrapped_balance < amount {
            Err(TokenizationWrapError::InsufficientBalance)
        } else {
            Ok(
                EscrowBalances {
                    custody_balance: (balances.custody_balance + amount) as u64,
                    wrapped_supply: (balances.wrapped_supply + amount) as u64,
                    user_unwrapped_balance: (balances.user_unwrapped_balance - amount) as u64,
                    user_wrapped_balance: (balances.user_wrapped_balance + amount) as u64,
                },
            )
        },
    }
}

/// Runs the account checks shared by wrap and unwrap, re-deriving the
/// wrapped-asset and custody identities from the registry contents.
pub(crate) fn check_wrap_accounts(accounts: &Wrap, state: &WrappedMintState, programs: &ProgramIds) -> (r:
    Option<TokenizationWrapError>)
    ensures
        r == wrap_account_error(*accounts, *state, *programs),
{
    if !(accounts.unwrapped_mint == state.unwrapped_mint) {
        return Some(TokenizationWrapError::InvalidUnwrappedMint);
    }
    let derived_wrapped = match derive_wrapped_mint(
        &accounts.unwrapped_mint,
        &state.salt,
        &programs.wrap_program,
    ) {
        None => {
            return Some(TokenizationWrapError::InvalidAccountData);
        },
        Some(p) => p.0,
    };
    proof {
        lemma_account_id_bytes_eq(derived_wrapped, accounts.wrapped_mint);
    }
    if !(derived_wrapped == accounts.wrapped_mint) {
        return Some(TokenizationWrapError::InvalidWrappedMint);
    }
    if !(accounts.wrapped_mint == state.wrapped_mint) {
        return Some(TokenizationWrapError::InvalidWrappedMint);
    }
    if !wrapper_authorized(&accounts.user_role, &accounts.wrapped_mint, &accounts.user) {
        return Some(TokenizationWrapError::Unauthorized);
    }
    let derived_vault = match derive_unwrapped_mint_vault(
        &accounts.wrapped_mint,
        &accounts.unwrapped_mint,
        programs,
    ) {
        None => {
            return Some(TokenizationWrapError::InvalidAccountData);
        },
        Some(p) => p.0,
    };
    proof {
        lemma_account_id_bytes_eq(derived_vault, accounts.unwrapped_mint_vault);
    }
    if !(derived_vault == accounts.unwrapped_mint_vault) {
        return Some(TokenizationWrapError::InvalidUnwrappedMintVault);
    }
    if !(accounts.unwrapped_mint_vault == state.unwrapped_mint_vault) {
        return Some(TokenizationWrapError::InvalidUnwrappedMintVault);
    }
    None
}

/// Wraps `amount`: checks the accounts and the caller's authorization, then
/// moves `amount` of the unwrapped asset into custody and mints the same
/// amount of the wrapped asset to the caller.
pub fn wrap(
    accounts: &Wrap,
    state: &WrappedMintState,
    programs: &ProgramIds,
    balances: &mut EscrowBalances,
    amount: u64,
) -> (r: Result<WrapEvent, TokenizationWrapError>)
    requires
        escrow_ok(*old(balances)),
    ensures
        escrow_ok(*final(balances)),
        match r {
            Ok(ev) => wrap_outcome(*accounts, *state, *programs, *old(balances), amount) == Ok::<
                _,
                TokenizationWrapError,
            >(*final(balances)) && ev == (WrapEvent {
                user: accounts.user,
                unwrapped_mint: accounts.unwrapped_mint,
                wrapped_mint: accounts.wrapped_mint,
                amount,
            }),
            Err(e) => wrap_outcome(*accounts, *state, *programs, *old(balances), amount) == Err::<
                EscrowBalances,
                _,
            >(e) && *final(balances) == *old(balances),
        },
{
    match check_wrap_accounts(accounts, state, programs) {
        Some(e) => {
            return Err(e);
        },
        None => {},
    }
    if amount == 0 {
        return Err(TokenizationWrapError::InsufficientBalance);
    }
    if balances.user_unwrapped_balance < amount {
        return Err(TokenizationWrapError::InsufficientBalance);
    }
    balances.user_unwrapped_balance = balances.user_unwrapped_balance - amount;
    balances.custody_balance = balances.custody_balance + amount;
    balances.wrapped_supply = balances.wrapped_supply + amount;
    balances.user_wrapped_balance = balances.user_wrapped_balance + amount;
    Ok(
        WrapEvent {
            user: accounts.user,
            unwrapped_mint: accounts.unwrapped_mint,
            wrapped_mint: accounts.wrapped_mint,
            amount,
        },
    )
}

} // verus!
