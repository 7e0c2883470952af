//! Deterministic sub-account derivation.
//!
//! `derive(tag, parent identities, salt) -> (identity, bump)` maps a role tag
//! and parent identities to the identity of the sub-account that plays that
//! role, together with the bump seed that proves the identity was produced by
//! this exact derivation. The same inputs always yield the same identity, so
//! every operation can recompute the identity it expects and compare it with
//! what the caller supplied.
//!
//! Four derivations are used: the wrapped-asset identity (from the unwrapped
//! asset and the caller-chosen salt, under this program), the pair-registry
//! identity (from the wrapped asset, under this program), an
//! authorization-record identity (from the wrapped asset, a role byte and a
//! principal, under this program), and the custody-account identity (the
//! associated holding account of the wrapped asset for the unwrapped asset,
//! under the associated-account service).

use vstd::prelude::*;

use crate::constants::{WRAPPED_MINT_SEED, WRAPPED_MINT_STATE_SEED, WRAPPED_ROLE_SEED};
use crate::ids::{bytes_to_vec, AccountId, ProgramIds};

verus! {

/// What the program-derived-address search returns for the given seed list
/// under the given deriving program: a 32-byte identity plus its bump seed,
/// or nothing in the statistically improbable case that no bump yields a
/// valid identity. The result is a function of the seeds and the program
/// identity alone.
pub uninterp spec fn pda_of(seeds: Seq<Seq<u8>>, program_id: Seq<u8>) -> Option<(Seq<u8>, u8)>;

/// Relies on `Pubkey::try_find_program_address` (re-exported by anchor_lang
/// from solana_pubkey): a deterministic search over bump seeds that hashes
/// the seed list with the program identity; it returns `None` rather than
/// panicking when no bump seed yields a valid identity or the seed list is
/// out of range.
#[verifier::external_body]
fn try_find_derived_id(seeds: &Vec<Vec<u8>>, program_id: &AccountId) -> (r: Option<
    (AccountId, u8),
>)
    ensures
        (r matches Some(p) ==> pda_of(seeds.deep_view(), program_id.bytes@) == Some(
            (p.0.bytes@, p.1),
        )),
        (r is None ==> pda_of(seeds.deep_view(), program_id.bytes@) is None),
{
    let seed_slices: Vec<&[u8]> = seeds.iter().map(|s| s.as_slice()).collect();
    let program = anchor_lang::prelude::Pubkey::new_from_array(program_id.bytes);
    anchor_lang::prelude::Pubkey::try_find_program_address(&seed_slices, &program).map(
        |p: (anchor_lang::prelude::Pubkey, u8)| (AccountId { bytes: p.0.to_bytes() }, p.1),
    )
}

/// The wrapped-asset identity derived from the unwrapped asset and the salt.
pub open spec fn spec_wrapped_mint_derivation(
    unwrapped_mint: Seq<u8>,
    salt: Seq<u8>,
    wrap_program: Seq<u8>,
) -> Option<(Seq<u8>, u8)> {
    pda_of(seq![WRAPPED_MINT_SEED@, unwrapped_mint, salt], wrap_program)
}

/// Derives the wrapped-asset identity for `(unwrapped_mint, salt)`.
/// Calling it twice with the same inputs yields the same identity: the
/// result is pinned to a function of the inputs.
pub fn derive_wrapped_mint(unwrapped_mint: &AccountId, salt: &[u8; 32], wrap_program: &AccountId)
    -> (r: Option<(AccountId, u8)>)
    ensures
        (r matches Some(p) ==> spec_wrapped_mint_derivation(
            unwrapped_mint.bytes@,
            salt@,
            wrap_program.bytes@,
        ) == Some((p.0.bytes@, p.1))),
        (r is None ==> spec_wrapped_mint_derivation(unwrapped_mint.bytes@, salt@, wrap_program.bytes@)
            is None),
{
    let mut seeds: Vec<Vec<u8>> = Vec::new();
    seeds.push(bytes_to_vec(&WRAPPED_MINT_SEED));
    seeds.push(bytes_to_vec(&unwrapped_mint.bytes));
    seeds.push(bytes_to_vec(salt));
    proof {
        assert(seeds.deep_view() =~~= seq![WRAPPED_MINT_SEED@, unwrapped_mint.bytes@, salt@]);
    }
    try_find_derived_id(&seeds, wrap_program)
}

/// The pair-registry identity derived from the wrapped asset.
pub open spec fn spec_registry_derivation(wrapped_mint: Seq<u8>, wrap_program: Seq<u8>) -> Option<
    (Seq<u8>, u8),
> {
    pda_of(seq![WRAPPED_MINT_STATE_SEED@, wrapped_mint], wrap_program)
}

/// Derives the pair-registry identity for a wrapped asset.
pub fn derive_wrapped_mint_state(wrapped_mint: &AccountId, wrap_program: &AccountId) -> (r: Option<
    (AccountId, u8),
>)
    ensures
        (r matches Some(p) ==> spec_registry_derivation(wrapped_mint.bytes@, wrap_program.bytes@)
            == Some((p.0.bytes@, p.1))),
        (r is None ==> spec_registry_derivation(wrapped_mint.bytes@, wrap_program.bytes@) is None),
{
    let mut seeds: Vec<Vec<u8>> = Vec::new();
    seeds.push(bytes_to_vec(&WRAPPED_MINT_STATE_SEED));
    seeds.push(bytes_to_vec(&wrapped_mint.bytes));
    proof {
        assert(seeds.deep_view() =~~= seq![WRAPPED_MINT_STATE_SEED@, wrapped_mint.bytes@]);
    }
    try_find_derived_id(&seeds, wrap_program)
}

/// The authorization-record identity derived from the wrapped asset, a role
/// byte and a principal.
pub open spec fn spec_role_record_derivation(
    wrapped_mint: Seq<u8>,
    role: u8,
    user: Seq<u8>,
    wrap_program: Seq<u8>,
) -> Option<(Seq<u8>, u8)> {
    pda_of(seq![WRAPPED_ROLE_SEED@, wrapped_mint, seq![role], user], wrap_program)
}

/// Derives the authorization-record identity for `(wrapped_mint, role, user)`.
pub fn derive_role_record(
    wrapped_mint: &AccountId,
    role: u8,
    user: &AccountId,
    wrap_program: &AccountId,
) -> (r: Option<(AccountId, u8)>)
    ensures
        (r matches Some(p) ==> spec_role_record_derivation(
            wrapped_mint.bytes@,
            role,
            user.bytes@,
            wrap_program.bytes@,
        ) == Some((p.0.bytes@, p.1))),
        (r is None ==> spec_role_record_derivation(
            wrapped_mint.bytes@,
            role,
            user.bytes@,
            wrap_program.bytes@,
        ) is None),
{
    let mut seeds: Vec<Vec<u8>> = Vec::new();
    seeds.push(bytes_to_vec(&WRAPPED_ROLE_SEED));
    seeds.push(bytes_to_vec(&wrapped_mint.bytes));
    let mut role_seed: Vec<u8> = Vec::new();
    role_seed.push(role);
    seeds.push(role_seed);
    seeds.push(bytes_to_vec(&user.bytes));
    proof {
        assert(seeds.deep_view() =~~= seq![
            WRAPPED_ROLE_SEED@,
            wrapped_mint.bytes@,
            seq![role],
            user.bytes@,
        ]);
    }
    try_find_derived_id(&seeds, wrap_program)
}

/// The custody-account identity: the associated holding account of the
/// wrapped asset for the unwrapped asset, following the associated-account
/// convention (wallet, token program, mint) under the associated-account
/// service. Through the wrapped asset it depends on the salt, so a fresh
/// salt yields a fresh custody account.
pub open spec fn spec_custody_derivation(
    wrapped_mint: Seq<u8>,
    unwrapped_mint: Seq<u8>,
    token_program: Seq<u8>,
    associated_token_program: Seq<u8>,
) -> Option<(Seq<u8>, u8)> {
    pda_of(seq![wrapped_mint, token_program, unwrapped_mint], associated_token_program)
}

/// Derives the custody-account identity for a pair.
pub fn derive_unwrapped_mint_vault(
    wrapped_mint: &AccountId,
    unwrapped_mint: &AccountId,
    programs: &ProgramIds,
) -> (r: Option<(AccountId, u8)>)
    ensures
        (r matches Some(p) ==> spec_custody_derivation(
            wrapped_mint.bytes@,
            unwrapped_mint.bytes@,
            programs.token_program.bytes@,
            programs.associated_token_program.bytes@,
        ) == Some((p.0.bytes@, p.1))),
        (r is None ==> spec_custody_derivation(
            wrapped_mint.bytes@,
            unwrapped_mint.bytes@,
            programs.token_program.bytes@,
            programs.associated_token_program.bytes@,
        ) is None),
{
    let mut seeds: Vec<Vec<u8>> = Vec::new();
    seeds.push(bytes_to_vec(&wrapped_mint.bytes));
    seeds.push(bytes_to_vec(&programs.token_program.bytes));
    seeds.push(bytes_to_vec(&unwrapped_mint.bytes));
    proof {
        assert(seeds.deep_view() =~~= seq![
            wrapped_mint.bytes@,
            programs.token_program.bytes@,
            unwrapped_mint.bytes@,
        ]);
    }
    try_find_derived_id(&seeds, &programs.associated_token_program)
}

} // verus!
