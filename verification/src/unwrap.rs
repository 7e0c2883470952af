//! Unwrapping: burn wrapped units, release the same amount from custody.
//!
//! A successful unwrap burns `amount` of the wrapped asset from the caller
//! and moves `amount` of the unwrapped asset from custody back to the
//! caller's holding account, so the custody balance and the wrapped supply
//! shrink by exactly the same amount. The account checks and the
//! authorization gate are the same as for wrapping.

use vstd::prelude::*;

use crate::create_mint::WrappedMintState;
use crate::errors::TokenizationWrapError;
use crate::escrow::{escrow_ok, EscrowBalances};
use crate::ids::{AccountId, ProgramIds};
use crate::role::RoleState;
use crate::wrap::{check_wrap_accounts, wrap_account_error, Wrap};

verus! {

/// The resolved accounts of an unwrap call.
#[derive(Clone, Copy, Debug)]
pub struct Unwrap {
    /// The caller; must hold the `Wrapper` role on the pair.
    pub user: AccountId,
    pub unwrapped_mint: AccountId,
    pub wrapped_mint: AccountId,
    pub unwrapped_mint_vault: AccountId,
    /// The record the host found at the identity derived from
    /// `(wrapped asset, Wrapper, caller)`, if any.
    pub user_role: Option<RoleState>,
}

/// The immutable record appended after a successful unwrap.
#[derive(Clone, Copy, Debug)]
pub struct UnwrapEvent {
    pub user: AccountId,
    pub wrapped_mint: AccountId,
    pub unwrapped_mint: AccountId,
    pub amount: u64,
}

/// An unwrap call names the same accounts as a wrap call and is checked the
/// same way.
pub open spec fn to_wrap_accounts(accounts: Unwrap) -> Wrap {
    Wrap {
        user: accounts.user,
        unwrapped_mint: accounts.unwrapped_mint,
        wrapped_mint: accounts.wrapped_mint,
        unwrapped_mint_vault: accounts.unwrapped_mint_vault,
        user_role: accounts.user_role,
    }
}

/// What an unwrap call does to the balances, or why it is refused. A zero
/// amount and an amount above the caller's wrapped balance are refused as
/// `InsufficientBalance`; account checks come first, so an unauthorized
/// caller is refused whatever the amount.
pub open spec fn unwrap_outcome(
    accounts: Unwrap,
    state: WrappedMintState,
    programs: ProgramIds,
    balances: EscrowBalances,
    amount: u64,
) -> Result<EscrowBalances, TokenizationWrapError> {
    match wrap_account_error(to_wrap_accounts(accounts), state, programs) {
        Some(e) => Err(e),
        None => if amount == 0 {
            Err(TokenizationWrapError::InsufficientBalance)
        } else if balances.user_wrapped_balance < amount {
            Err(TokenizationWrapError::InsufficientBalance)
        } else {
            Ok(
                EscrowBalances {
                    custody_balance: (balances.custody_balance - amount) as u64,
                    wrapped_supply: (balances.wrapped_supply - amount) as u64,
                    user_unwrapped_balance: (balances.user_unwrapped_balance + amount) as u64,
                    user_wrapped_balance: (balances.user_wrapped_balance - amount) as u64,
                },
            )
        },
    }
}

/// Unwraps `amount`: checks the accounts and the caller's authorization,
/// then burns `amount` of the wrapped asset from the caller and releases the
/// same amount of the unwrapped asset from custody to the caller.
pub fn unwrap(
    accounts: &Unwrap,
    state: &WrappedMintState,
    programs: &ProgramIds,
    balances: &mut EscrowBalances,
    amount: u64,
) -> (r: Result<UnwrapEvent, TokenizationWrapError>)
    requires
        escrow_ok(*old(balances)),
    ensures
        escrow_ok(*final(balances)),
        match r {
            Ok(ev) => unwrap_outcome(*accounts, *state, *programs, *old(balances), amount) == Ok::<
                _,
                TokenizationWrapError,
            >(*final(balances)) && ev == (UnwrapEvent {
                user: accounts.user,
                wrapped_mint: accounts.wrapped_mint,
                unwrapped_mint: accounts.unwrapped_mint,
                amount,
            }),
            Err(e) => unwrap_outcome(*accounts, *state, *programs, *old(balances), amount) == Err::<
                EscrowBalances,
                _,
            >(e) && *final(balances) == *old(balances),
        },
{
    let wrap_view = Wrap {
        user: accounts.user,
        unwrapped_mint: accounts.unwrapped_mint,
        wrapped_mint: accounts.wrapped_mint,
        unwrapped_mint_vault: accounts.unwrapped_mint_vault,
        user_role: accounts.user_role,
    };
    match check_wrap_accounts(&wrap_view, state, programs) {
        Some(e) => {
            return Err(e);
        },
        None => {},
    }
    if amount == 0 {
        return Err(TokenizationWrapError::InsufficientBalance);
    }
    if balances.user_wrapped_balance < amount {
        return Err(TokenizationWrapError::InsufficientBalance);
    }
    balances.user_wrapped_balance = balances.user_wrapped_balance - amount;
    balances.wrapped_supply = balances.wrapped_supply - amount;
    balances.custody_balance = balances.custody_balance - amount;
    balances.user_unwrapped_balance = balances.user_unwrapped_balance + amount;
    Ok(
        UnwrapEvent {
            user: accounts.user,
            wrapped_mint: accounts.wrapped_mint,
            unwrapped_mint: accounts.unwrapped_mint,
            amount,
        },
    )
}

} // verus!
