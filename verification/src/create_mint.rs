//! Pair initialization: binding an unwrapped asset to a fresh wrapped asset.
//!
//! `create_mint` validates the request, derives the identities of the three
//! durable accounts that belong to the pair (wrapped asset, pair registry,
//! custody account) and produces the registry row, with the caller as owner
//! and no ownership transfer pending. The host allocates the accounts at the
//! derived identities and asks the external asset service to create the
//! wrapped asset; re-invoking with the same `(unwrapped asset, salt)` fails
//! at the host because the wrapped-asset identity already exists.

use vstd::prelude::*;
use vstd::string::StringSliceAdditionalSpecFns;

use crate::derivation::{
    derive_unwrapped_mint_vault, derive_wrapped_mint, derive_wrapped_mint_state,
    spec_custody_derivation, spec_registry_derivation, spec_wrapped_mint_derivation,
};
use crate::errors::TokenizationWrapError;
use crate::ids::{make_no_principal, no_principal, AccountId, ProgramIds};

verus! {

broadcast use vstd::slice::group_slice_axioms;

/// The durable registry row of one unwrapped/wrapped pair.
///
/// `salt` and the three account identities are immutable after creation;
/// `wrapped_mint_owner` changes only through the two-step ownership
/// transfer, and `wrapped_mint_pending_owner` is the sentinel identity
/// (see [`no_principal`]) whenever no transfer is pending.
#[derive(Clone, Copy, Debug)]
pub struct WrappedMintState {
    pub salt: [u8; 32],
    pub wrapped_mint: AccountId,
    pub wrapped_mint_owner: AccountId,
    pub wrapped_mint_pending_owner: AccountId,
    pub unwrapped_mint: AccountId,
    pub unwrapped_mint_vault: AccountId,
}

/// The resolved accounts of a pair-initialization call.
#[derive(Clone, Copy, Debug)]
pub struct CreateMint {
    /// The caller; becomes the owner of the new pair.
    pub wrapped_mint_owner: AccountId,
    /// The unwrapped asset to be wrapped.
    pub unwrapped_mint: AccountId,
    /// The service that owns the unwrapped asset's account, as the host
    /// resolved it. Only assets of the recognized external asset service
    /// may be wrapped.
    pub unwrapped_mint_owner_program: AccountId,
}

/// The immutable record appended after a successful pair initialization.
#[derive(Clone, Copy, Debug)]
pub struct CreateMintEvent {
    pub wrapped_mint_owner: AccountId,
    pub unwrapped_mint: AccountId,
    pub wrapped_mint: AccountId,
    pub unwrapped_mint_vault: AccountId,
    pub wrapped_mint_state: AccountId,
}

/// The first reason a pair-initialization call is refused, or `None` if it
/// is accepted: the unwrapped asset must belong to the recognized service,
/// the three identity derivations must succeed, and the display name,
/// symbol and metadata address must fit their limits (64, 32 and 512 bytes).
pub open spec fn create_mint_error(
    accounts: CreateMint,
    programs: ProgramIds,
    salt: [u8; 32],
    name: Seq<u8>,
    symbol: Seq<u8>,
    uri: Seq<u8>,
) -> Option<TokenizationWrapError> {
    if accounts.unwrapped_mint_owner_program != programs.token_program {
        Some(TokenizationWrapError::InvalidUnwrappedMint)
    } else {
        let wm = spec_wrapped_mint_derivation(
            accounts.unwrapped_mint.bytes@,
            salt@,
            programs.wrap_program.bytes@,
        );
        if wm is None {
            Some(TokenizationWrapError::InvalidAccountData)
        } else if spec_registry_derivation(wm->Some_0.0, programs.wrap_program.bytes@) is None {
            Some(TokenizationWrapError::InvalidAccountData)
        } else if spec_custody_derivation(
            wm->Some_0.0,
            accounts.unwrapped_mint.bytes@,
            programs.token_program.bytes@,
            programs.associated_token_program.bytes@,
        ) is None {
            Some(TokenizationWrapError::InvalidAccountData)
        } else if name.len() > 64 {
            Some(TokenizationWrapError::NameTooLong)
        } else if symbol.len() > 32 {
            Some(TokenizationWrapError::SymbolTooLong)
        } else if uri.len() > 512 {
            Some(TokenizationWrapError::UriTooLong)
        } else {
            None
        }
    }
}

/// Initializes a pair: returns the registry row to be stored at the derived
/// pair-registry identity, together with the creation record.
pub fn create_mint(
    accounts: &CreateMint,
    programs: &ProgramIds,
    salt: &[u8; 32],
    name: &str,
    symbol: &str,
    uri: &str,
) -> (r: Result<(WrappedMintState, CreateMintEvent), TokenizationWrapError>)
    ensures
        (r is Err <==> create_mint_error(
            *accounts,
            *programs,
            *salt,
            name.spec_bytes(),
            symbol.spec_bytes(),
            uri.spec_bytes(),
        ) is Some),
        (r matches Err(e) ==> create_mint_error(
            *accounts,
            *programs,
            *salt,
            name.spec_bytes(),
            symbol.spec_bytes(),
            uri.spec_bytes(),
        ) == Some(e)),
        (r matches Ok(p) ==> {
            let st = p.0;
            let ev = p.1;
            &&& st.salt == *salt
            &&& st.wrapped_mint_owner == accounts.wrapped_mint_owner
            &&& st.wrapped_mint_pending_owner == no_principal()
            &&& st.unwrapped_mint == accounts.unwrapped_mint
            &&& spec_wrapped_mint_derivation(
                accounts.unwrapped_mint.bytes@,
                salt@,
                programs.wrap_program.bytes@,
            ) matches Some(d) && st.wrapped_mint.bytes@ == d.0
            &&& spec_custody_derivation(
                st.wrapped_mint.bytes@,
                accounts.unwrapped_mint.bytes@,
                programs.token_program.bytes@,
                programs.associated_token_program.bytes@,
            ) matches Some(dv) && st.unwrapped_mint_vault.bytes@ == dv.0
            &&& spec_registry_derivation(st.wrapped_mint.bytes@, programs.wrap_program.bytes@)
                matches Some(dr) && ev.wrapped_mint_state.bytes@ == dr.0
            &&& ev.wrapped_mint_owner == accounts.wrapped_mint_owner
            &&& ev.unwrapped_mint == accounts.unwrapped_mint
            &&& ev.wrapped_mint == st.wrapped_mint
            &&& ev.unwrapped_mint_vault == st.unwrapped_mint_vault
        }),
{
    if !(accounts.unwrapped_mint_owner_program == programs.token_program) {
        return Err(TokenizationWrapError::InvalidUnwrappedMint);
    }
    let wrapped_mint = match derive_wrapped_mint(
        &accounts.unwrapped_mint,
        salt,
        &programs.wrap_program,
    ) {
        None => {
            return Err(TokenizationWrapError::InvalidAccountData);
        },
        Some(p) => p.0,
    };
    let wrapped_mint_state = match derive_wrapped_mint_state(&wrapped_mint, &programs.wrap_program) {
        None => {
            return Err(TokenizationWrapError::InvalidAccountData);
        },
        Some(p) => p.0,
    };
    let unwrapped_mint_vault = match derive_unwrapped_mint_vault(
        &wrapped_mint,
        &accounts.unwrapped_mint,
        programs,
    ) {
        None => {
            return Err(TokenizationWrapError::InvalidAccountData);
        },
        Some(p) => p.0,
    };
    if name.as_bytes().len() > 64 {
        return Err(TokenizationWrapError::NameTooLong);
    }
    if symbol.as_bytes().len() > 32 {
        return Err(TokenizationWrapError::SymbolTooLong);
    }
    if uri.as_bytes().len() > 512 {
        return Err(TokenizationWrapError::UriTooLong);
    }
    let state = WrappedMintState {
        salt: *salt,
        wrapped_mint,
        wrapped_mint_owner: accounts.wrapped_mint_owner,
        wrapped_mint_pending_owner: make_no_principal(),
        unwrapped_mint: accounts.unwrapped_mint,
        unwrapped_mint_vault,
    };
    let event = CreateMintEvent {
        wrapped_mint_owner: accounts.wrapped_mint_owner,
        unwrapped_mint: accounts.unwrapped_mint,
        wrapped_mint,
        unwrapped_mint_vault,
        wrapped_mint_state,
    };
    Ok((state, event))
}

} // verus!
