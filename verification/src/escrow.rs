//! The balance snapshot the escrow engine works on.
//!
//! The host reads these four balances from the accounts an escrow call
//! names, hands them to the operation, and writes the returned values back
//! by performing the corresponding transfer, mint and burn against the
//! external asset service — all inside one atomic operation.

use vstd::prelude::*;

verus! {

/// The balances an escrow call reads and writes: the custody account's
/// unwrapped balance, the wrapped asset's total supply, and the calling
/// holder's unwrapped and wrapped balances.
#[derive(Clone, Copy, Debug, PartialEq, Eq, Structural)]
pub struct EscrowBalances {
    pub custody_balance: u64,
    pub wrapped_supply: u64,
    pub user_unwrapped_balance: u64,
    pub user_wrapped_balance: u64,
}

/// Validity of a balance snapshot on the host ledger: the wrapped supply
/// never exceeds the custody balance (the conservation invariant — funds
/// leave custody only by burning the same amount of wrapped supply), a
/// holder's wrapped balance never exceeds the wrapped supply, and custody
/// plus the holder's unwrapped balance never exceeds the unwrapped asset's
/// representable total (both are balances of one asset whose total supply
/// is a 64-bit amount).
pub open spec fn escrow_ok(b: EscrowBalances) -> bool {
    &&& b.wrapped_supply <= b.custody_balance
    &&& b.user_wrapped_balance <= b.wrapped_supply
    &&& b.custody_balance + b.user_unwrapped_balance <= u64::MAX
}

} // verus!
