//! Account identities and the program environment.
//!
//! Every durable account on the host ledger is named by a 32-byte identity.
//! The engine never trusts a caller-chosen identity where a derived one is
//! required: it recomputes the expected identity and compares (see
//! `derivation`). Comparison is therefore the one primitive this module owes
//! the rest of the library.

use vstd::prelude::*;

verus! {

broadcast use vstd::array::group_array_axioms;

/// A 32-byte account identity on the host ledger.
#[derive(Clone, Copy, Debug)]
pub struct AccountId {
    pub bytes: [u8; 32],
}

impl PartialEq for AccountId {
    fn eq(&self, other: &AccountId) -> (r: bool) {
        let mut i: usize = 0;
        while i < 32
            invariant
                0 <= i <= 32,
                forall|j: int| 0 <= j < i ==> self.bytes@[j] == other.bytes@[j],
            decreases 32 - i,
        {
            if self.bytes[i] != other.bytes[i] {
                return false;
            }
            i += 1;
        }
        proof {
            assert(self.bytes =~= other.bytes);
        }
        true
    }
}

impl vstd::std_specs::cmp::PartialEqSpecImpl for AccountId {
    open spec fn obeys_eq_spec() -> bool {
        true
    }

    open spec fn eq_spec(&self, other: &AccountId) -> bool {
        *self == *other
    }
}

/// Two identities are equal exactly when their byte views are.
pub proof fn lemma_account_id_bytes_eq(a: AccountId, b: AccountId)
    ensures
        (a == b) <==> (a.bytes@ == b.bytes@),
{
    if a.bytes@ == b.bytes@ {
        assert(a.bytes =~= b.bytes);
    }
}

/// The sentinel identity, all zero bytes. The registry stores it as
/// `wrapped_mint_pending_owner` when no ownership transfer is pending.
pub open spec fn no_principal() -> AccountId {
    AccountId { bytes: vstd::array::spec_array_fill_for_copy_type::<u8, 32>(0u8) }
}

/// Builds the sentinel identity (see [`no_principal`]).
pub fn make_no_principal() -> (r: AccountId)
    ensures
        r == no_principal(),
{
    AccountId { bytes: [0u8; 32] }
}

/// The identities of the three services every operation runs against:
/// this wrapping program itself, the external asset service (token program)
/// whose assets it wraps, and the associated-account service that addresses
/// custody accounts. The host resolves and supplies them; the engine only
/// derives identities under them.
#[derive(Clone, Copy, Debug)]
pub struct ProgramIds {
    pub wrap_program: AccountId,
    pub token_program: AccountId,
    pub associated_token_program: AccountId,
}

/// Copies a fixed-size byte array into a fresh vector.
pub fn bytes_to_vec<const N: usize>(a: &[u8; N]) -> (v: Vec<u8>)
    ensures
        v@ == a@,
{
    let mut v: Vec<u8> = Vec::new();
    let mut i: usize = 0;
    while i < N
        invariant
            0 <= i <= N,
            v@.len() == i,
            forall|j: int| 0 <= j < i ==> v@[j] == a@[j],
        decreases N - i,
    {
        v.push(a[i]);
        i += 1;
    }
    proof {
        assert(v@ =~= a@);
    }
    v
}

} // verus!
