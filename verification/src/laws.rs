//! Relations among the operations, each stated once and proved for all
//! inputs.

use vstd::prelude::*;

use crate::create_mint::WrappedMintState;
use crate::errors::TokenizationWrapError;
use crate::escrow::{escrow_ok, EscrowBalances};
use crate::ids::{no_principal, AccountId, ProgramIds};
use crate::manage::{
    accept_ownership_outcome, transfer_ownership_outcome, AcceptOwnerShip, TransferOwnerShip,
};
use crate::recover_mint::{recover_account_error, recover_outcome, RecoverBalances, RecoverMint};
use crate::role::spec_wrapper_authorized;
use crate::unwrap::{to_wrap_accounts, unwrap_outcome, Unwrap};
use crate::wrap::{wrap_account_error, wrap_outcome, Wrap};

verus! {

/// One escrow call: a wrap or an unwrap of some amount.
pub enum EscrowCall {
    Wrap { amount: u64 },
    Unwrap { amount: u64 },
}

/// The balances after one escrow call through the given accounts: a
/// successful call's result, or the unchanged balances if the call fails
/// (every failure leaves all state untouched).
pub open spec fn escrow_step(
    wrap_accounts: Wrap,
    unwrap_accounts: Unwrap,
    state: WrappedMintState,
    programs: ProgramIds,
    balances: EscrowBalances,
    call: EscrowCall,
) -> EscrowBalances {
    match call {
        EscrowCall::Wrap { amount } => match wrap_outcome(
            wrap_accounts,
            state,
            programs,
            balances,
            amount,
        ) {
            Ok(after) => after,
            Err(_) => balances,
        },
        EscrowCall::Unwrap { amount } => match unwrap_outcome(
            unwrap_accounts,
            state,
            programs,
            balances,
            amount,
        ) {
            Ok(after) => after,
            Err(_) => balances,
        },
    }
}

/// The balances after a sequence of escrow calls, applied in order.
pub open spec fn run_escrow(
    wrap_accounts: Wrap,
    unwrap_accounts: Unwrap,
    state: WrappedMintState,
    programs: ProgramIds,
    balances: EscrowBalances,
    calls: Seq<EscrowCall>,
) -> EscrowBalances
    decreases calls.len(),
{
    if calls.len() == 0 {
        balances
    } else {
        run_escrow(
            wrap_accounts,
            unwrap_accounts,
            state,
            programs,
            escrow_step(wrap_accounts, unwrap_accounts, state, programs, balances, calls[0]),
            calls.skip(1),
        )
    }
}

/// One escrow call keeps the snapshot valid and keeps custody equal to the
/// wrapped supply.
pub proof fn lemma_escrow_step_conservation(
    wrap_accounts: Wrap,
    unwrap_accounts: Unwrap,
    state: WrappedMintState,
    programs: ProgramIds,
    balances: EscrowBalances,
    call: EscrowCall,
)
    requires
        escrow_ok(balances),
        balances.custody_balance == balances.wrapped_supply,
    ensures
        ({
            let after = escrow_step(wrap_accounts, unwrap_accounts, state, programs, balances, call);
            escrow_ok(after) && after.custody_balance == after.wrapped_supply
        }),
{
}

/// Conservation: starting from a valid snapshot in which the custody balance
/// equals the wrapped supply, any sequence of wrap and unwrap calls — some
/// may fail, and a failing call changes nothing — leaves the custody balance
/// equal to the wrapped supply immediately after each call.
pub proof fn lemma_escrow_conservation(
    wrap_accounts: Wrap,
    unwrap_accounts: Unwrap,
    state: WrappedMintState,
    programs: ProgramIds,
    balances: EscrowBalances,
    calls: Seq<EscrowCall>,
)
    requires
        escrow_ok(balances),
        balances.custody_balance == balances.wrapped_supply,
    ensures
        ({
            let after = run_escrow(wrap_accounts, unwrap_accounts, state, programs, balances, calls);
            escrow_ok(after) && after.custody_balance == after.wrapped_supply
        }),
    decreases calls.len(),
{
    if calls.len() > 0 {
        lemma_escrow_step_conservation(
            wrap_accounts,
            unwrap_accounts,
            state,
            programs,
            balances,
            calls[0],
        );
        lemma_escrow_conservation(
            wrap_accounts,
            unwrap_accounts,
            state,
            programs,
            escrow_step(wrap_accounts, unwrap_accounts, state, programs, balances, calls[0]),
            calls.skip(1),
        );
    }
}

/// Round trip: after a successful wrap of `amount`, an unwrap of the same
/// `amount` by the same principal through the same accounts is guaranteed to
/// succeed and restores every balance — the principal's unwrapped balance,
/// the principal's wrapped balance, the custody balance and the wrapped
/// supply all return to their values before the pair of calls.
pub proof fn lemma_wrap_unwrap_round_trip(
    wrap_accounts: Wrap,
    unwrap_accounts: Unwrap,
    state: WrappedMintState,
    programs: ProgramIds,
    balances: EscrowBalances,
    amount: u64,
)
    requires
        escrow_ok(balances),
        to_wrap_accounts(unwrap_accounts) == wrap_accounts,
        wrap_outcome(wrap_accounts, state, programs, balances, amount) is Ok,
    ensures
        unwrap_outcome(
            unwrap_accounts,
            state,
            programs,
            wrap_outcome(wrap_accounts, state, programs, balances, amount)->Ok_0,
            amount,
        ) == Ok::<EscrowBalances, TokenizationWrapError>(balances),
{
    let after = wrap_outcome(wrap_accounts, state, programs, balances, amount)->Ok_0;
    let restored = unwrap_outcome(unwrap_accounts, state, programs, after, amount)->Ok_0;
    assert(restored == balances);
}

/// Authorization gate: with accounts that pass the identity checks but no
/// matching `Wrapper` record for the caller, wrap fails with `Unauthorized`,
/// whatever the amount and whatever the balances.
pub proof fn lemma_wrap_unauthorized(
    accounts: Wrap,
    state: WrappedMintState,
    programs: ProgramIds,
    balances: EscrowBalances,
    amount: u64,
)
    requires
        !spec_wrapper_authorized(accounts.user_role, accounts.wrapped_mint, accounts.user),
        wrap_account_error(accounts, state, programs) != Some(
            TokenizationWrapError::InvalidUnwrappedMint,
        ),
        wrap_account_error(accounts, state, programs) != Some(
            TokenizationWrapError::InvalidWrappedMint,
        ),
        wrap_account_error(accounts, state, programs) != Some(
            TokenizationWrapError::InvalidAccountData,
        ),
    ensures
        wrap_outcome(accounts, state, programs, balances, amount) == Err::<
            EscrowBalances,
            TokenizationWrapError,
        >(TokenizationWrapError::Unauthorized),
{
}

/// Authorization gate for unwrapping, as [`lemma_wrap_unauthorized`].
pub proof fn lemma_unwrap_unauthorized(
    accounts: Unwrap,
    state: WrappedMintState,
    programs: ProgramIds,
    balances: EscrowBalances,
    amount: u64,
)
    requires
        !spec_wrapper_authorized(accounts.user_role, accounts.wrapped_mint, accounts.user),
        wrap_account_error(to_wrap_accounts(accounts), state, programs) != Some(
            TokenizationWrapError::InvalidUnwrappedMint,
        ),
        wrap_account_error(to_wrap_accounts(accounts), state, programs) != Some(
            TokenizationWrapError::InvalidWrappedMint,
        ),
        wrap_account_error(to_wrap_accounts(accounts), state, programs) != Some(
            TokenizationWrapError::InvalidAccountData,
        ),
    ensures
        unwrap_outcome(accounts, state, programs, balances, amount) == Err::<
            EscrowBalances,
            TokenizationWrapError,
        >(TokenizationWrapError::Unauthorized),
{
}

/// Zero-amount rejection: with consistent accounts, wrapping zero and
/// unwrapping zero always fail with `InsufficientBalance`, whatever the
/// balances.
pub proof fn lemma_zero_amount_rejected(
    wrap_accounts: Wrap,
    unwrap_accounts: Unwrap,
    state: WrappedMintState,
    programs: ProgramIds,
    balances: EscrowBalances,
)
    requires
        wrap_account_error(wrap_accounts, state, programs) is None,
        wrap_account_error(to_wrap_accounts(unwrap_accounts), state, programs) is None,
    ensures
        wrap_outcome(wrap_accounts, state, programs, balances, 0) == Err::<
            EscrowBalances,
            TokenizationWrapError,
        >(TokenizationWrapError::InsufficientBalance),
        unwrap_outcome(unwrap_accounts, state, programs, balances, 0) == Err::<
            EscrowBalances,
            TokenizationWrapError,
        >(TokenizationWrapError::InsufficientBalance),
{
}

/// Handover under overwrite: after the owner nominates `x` and then `y`
/// (with `x != y`), acceptance by `x` fails with `NotPendingOwner`, while
/// acceptance by `y` succeeds, makes `y` the owner and leaves no transfer
/// pending.
pub proof fn lemma_nomination_overwrite(
    accounts: TransferOwnerShip,
    state: WrappedMintState,
    x: AccountId,
    y: AccountId,
)
    requires
        x != y,
        accounts.wrapped_mint_owner == state.wrapped_mint_owner,
        accounts.wrapped_mint == state.wrapped_mint,
    ensures
        ({
            let nominated_x = transfer_ownership_outcome(accounts, state, x)->Ok_0;
            let nominated_y = transfer_ownership_outcome(accounts, nominated_x, y)->Ok_0;
            &&& transfer_ownership_outcome(accounts, state, x) is Ok
            &&& transfer_ownership_outcome(accounts, nominated_x, y) is Ok
            &&& accept_ownership_outcome(
                (AcceptOwnerShip {
                    wrapped_mint_pending_owner: x,
                    wrapped_mint: accounts.wrapped_mint,
                }),
                nominated_y,
            ) == Err::<WrappedMintState, TokenizationWrapError>(
                TokenizationWrapError::NotPendingOwner,
            )
            &&& accept_ownership_outcome(
                (AcceptOwnerShip {
                    wrapped_mint_pending_owner: y,
                    wrapped_mint: accounts.wrapped_mint,
                }),
                nominated_y,
            ) matches Ok(accepted) && accepted.wrapped_mint_owner == y
                && accepted.wrapped_mint_pending_owner == no_principal()
        }),
{
}

/// Recover exactness: with consistent accounts, if the custody balance `s`
/// strictly exceeds the wrapped supply `t`, reconciliation succeeds, mints
/// exactly `s - t` to the owner and leaves the wrapped supply equal to the
/// custody balance; if `s == t`, it fails with `InsufficientBalance`.
pub proof fn lemma_recover_exactness(
    accounts: RecoverMint,
    state: WrappedMintState,
    programs: ProgramIds,
    balances: RecoverBalances,
)
    requires
        recover_account_error(accounts, state, programs) is None,
        balances.owner_wrapped_balance <= balances.wrapped_supply,
        balances.wrapped_supply <= balances.custody_balance,
    ensures
        balances.custody_balance > balances.wrapped_supply ==> (recover_outcome(
            accounts,
            state,
            programs,
            balances,
        ) matches Ok(after) && {
            &&& after.custody_balance == balances.custody_balance
            &&& after.wrapped_supply == after.custody_balance
            &&& after.owner_wrapped_balance == balances.owner_wrapped_balance + (
            balances.custody_balance - balances.wrapped_supply)
        }),
        balances.custody_balance == balances.wrapped_supply ==> recover_outcome(
            accounts,
            state,
            programs,
            balances,
        ) == Err::<RecoverBalances, TokenizationWrapError>(
            TokenizationWrapError::InsufficientBalance,
        ),
{
}

} // verus!
