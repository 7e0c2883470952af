//! The role-based authorization registry.
//!
//! A role record binds `(wrapped asset, role, principal)`. The record lives
//! at the identity derived from exactly those three values (see
//! `derivation`), so possession of a record that matches is necessary and
//! sufficient for the principal to invoke wrap and unwrap on the pair. Only
//! the pair owner creates and destroys records.

use vstd::prelude::*;

use crate::create_mint::WrappedMintState;
use crate::errors::TokenizationWrapError;
use crate::ids::AccountId;

verus! {

/// The operational roles. `Default` is a reserved "no role" sentinel: it is
/// never grantable (the grant path rejects its encoding), it only gives the
/// decoder a value to refuse. `Wrapper` admits wrap and unwrap.
#[derive(Clone, Copy, Debug, PartialEq, Eq, Structural)]
pub enum RoleKind {
    Default,
    Wrapper,
}

impl RoleKind {
    /// The wire encoding of a role.
    pub open spec fn spec_as_u8(self) -> u8 {
        match self {
            RoleKind::Default => 0,
            RoleKind::Wrapper => 1,
        }
    }

    /// Encodes a role as its wire byte.
    pub fn as_u8(self) -> (r: u8)
        ensures
            r == self.spec_as_u8(),
    {
        match self {
            RoleKind::Default => 0,
            RoleKind::Wrapper => 1,
        }
    }

    /// The decoding of a role byte: only grantable roles decode; the
    /// `Default` encoding and every unknown byte are refused.
    pub open spec fn spec_from_u8(value: u8) -> Result<RoleKind, TokenizationWrapError> {
        if value == 1 {
            Ok(RoleKind::Wrapper)
        } else {
            Err(TokenizationWrapError::InvalidRole)
        }
    }

    /// Decodes a role byte.
    pub fn from_u8(value: u8) -> (r: Result<RoleKind, TokenizationWrapError>)
        ensures
            r == RoleKind::spec_from_u8(value),
    {
        match value {
            1 => Ok(RoleKind::Wrapper),
            _ => Err(TokenizationWrapError::InvalidRole),
        }
    }
}

/// A durable authorization record: `role` granted to `user` on the pair of
/// `wrapped_mint`.
#[derive(Clone, Copy, Debug)]
pub struct RoleState {
    pub wrapped_mint: AccountId,
    pub user: AccountId,
    pub role: RoleKind,
}

/// The resolved accounts of a grant call.
#[derive(Clone, Copy, Debug)]
pub struct AddRole {
    /// The caller; must be the pair owner.
    pub wrapped_mint_owner: AccountId,
    pub wrapped_mint: AccountId,
}

/// The resolved accounts of a revoke call.
#[derive(Clone, Copy, Debug)]
pub struct RemoveRole {
    /// The caller; must be the pair owner.
    pub wrapped_mint_owner: AccountId,
    pub wrapped_mint: AccountId,
}

/// Whether `record` authorizes `user` to wrap and unwrap on the pair of
/// `wrapped_mint`: the record must exist, name the user and the wrapped
/// asset, and carry the `Wrapper` role.
pub open spec fn spec_wrapper_authorized(
    record: Option<RoleState>,
    wrapped_mint: AccountId,
    user: AccountId,
) -> bool {
    match record {
        Some(rec) => rec.user == user && rec.role == RoleKind::Wrapper && rec.wrapped_mint
            == wrapped_mint,
        None => false,
    }
}

/// Runs the authorization check of [`spec_wrapper_authorized`].
pub fn wrapper_authorized(record: &Option<RoleState>, wrapped_mint: &AccountId, user: &AccountId)
    -> (b: bool)
    ensures
        b == spec_wrapper_authorized(*record, *wrapped_mint, *user),
{
    match record {
        Some(rec) => rec.user == *user && rec.role == RoleKind::Wrapper && rec.wrapped_mint
            == *wrapped_mint,
        None => false,
    }
}

/// What a grant call does: the caller must be the pair owner, the supplied
/// wrapped asset must be the registry's, no record may already exist at the
/// derived identity, and the role byte must decode to a grantable role. On
/// success the new record is returned for the host to store at the identity
/// derived from `(wrapped asset, role, user)`.
pub open spec fn add_role_outcome(
    accounts: AddRole,
    state: WrappedMintState,
    user: AccountId,
    role: u8,
    existing: Option<RoleState>,
) -> Result<RoleState, TokenizationWrapError> {
    if accounts.wrapped_mint_owner != state.wrapped_mint_owner {
        Err(TokenizationWrapError::NotOwner)
    } else if accounts.wrapped_mint != state.wrapped_mint {
        Err(TokenizationWrapError::InvalidWrappedMint)
    } else if existing is Some {
        Err(TokenizationWrapError::InvalidAccountData)
    } else {
        match RoleKind::spec_from_u8(role) {
            Ok(kind) => Ok(RoleState { wrapped_mint: accounts.wrapped_mint, user, role: kind }),
            Err(e) => Err(e),
        }
    }
}

/// Grants `role` to `user` on the pair of `state`. `existing` is the record
/// the host found at the derived record identity, if any; a grant over an
/// existing record is refused (revoke first).
pub fn add_role(
    accounts: &AddRole,
    state: &WrappedMintState,
    user: AccountId,
    role: u8,
    existing: Option<RoleState>,
) -> (r: Result<RoleState, TokenizationWrapError>)
    ensures
        r == add_role_outcome(*accounts, *state, user, role, existing),
{
    if !(accounts.wrapped_mint_owner == state.wrapped_mint_owner) {
        return Err(TokenizationWrapError::NotOwner);
    }
    if !(accounts.wrapped_mint == state.wrapped_mint) {
        return Err(TokenizationWrapError::InvalidWrappedMint);
    }
    if existing.is_some() {
        return Err(TokenizationWrapError::InvalidAccountData);
    }
    match RoleKind::from_u8(role) {
        Ok(kind) => Ok(RoleState { wrapped_mint: accounts.wrapped_mint, user, role: kind }),
        Err(e) => Err(e),
    }
}

/// What a revoke call does: the caller must be the pair owner, the supplied
/// wrapped asset must be the registry's, and the record the host found must
/// exist and bind exactly `(wrapped asset, role, user)`. On success the host
/// destroys the record and returns its storage deposit to the owner.
pub open spec fn remove_role_outcome(
    accounts: RemoveRole,
    state: WrappedMintState,
    user: AccountId,
    role: u8,
    record: Option<RoleState>,
) -> Result<(), TokenizationWrapError> {
    if accounts.wrapped_mint_owner != state.wrapped_mint_owner {
        Err(TokenizationWrapError::NotOwner)
    } else if accounts.wrapped_mint != state.wrapped_mint {
        Err(TokenizationWrapError::InvalidWrappedMint)
    } else {
        match record {
            None => Err(TokenizationWrapError::InvalidAccountData),
            Some(rec) => if rec.wrapped_mint == accounts.wrapped_mint && rec.user == user
                && rec.role.spec_as_u8() == role {
                Ok(())
            } else {
                Err(TokenizationWrapError::InvalidAccountData)
            },
        }
    }
}

/// Revokes `role` from `user` on the pair of `state`. `record` is what the
/// host found at the derived record identity, if anything.
pub fn remove_role(
    accounts: &RemoveRole,
    state: &WrappedMintState,
    user: AccountId,
    role: u8,
    record: Option<RoleState>,
) -> (r: Result<(), TokenizationWrapError>)
    ensures
        r == remove_role_outcome(*accounts, *state, user, role, record),
{
    if !(accounts.wrapped_mint_owner == state.wrapped_mint_owner) {
        return Err(TokenizationWrapError::NotOwner);
    }
    if !(accounts.wrapped_mint == state.wrapped_mint) {
        return Err(TokenizationWrapError::InvalidWrappedMint);
    }
    match record {
        None => Err(TokenizationWrapError::InvalidAccountData),
        Some(rec) => {
            if rec.wrapped_mint == accounts.wrapped_mint && rec.user == user && rec.role.as_u8()
                == role {
                Ok(())
            } else {
                Err(TokenizationWrapError::InvalidAccountData)
            }
        },
    }
}

} // verus!
