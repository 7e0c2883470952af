use tokenization_wrap::create_mint::{create_mint, CreateMint, WrappedMintState};
use tokenization_wrap::errors::TokenizationWrapError;
use tokenization_wrap::escrow::EscrowBalances;
use tokenization_wrap::ids::{AccountId, ProgramIds};
use tokenization_wrap::role::{add_role, AddRole, RoleKind, RoleState};
use tokenization_wrap::unwrap::{unwrap, Unwrap};
use tokenization_wrap::wrap::{wrap, Wrap};

fn id(n: u8) -> AccountId {
    let mut bytes = [0u8; 32];
    bytes[0] = n;
    AccountId { bytes }
}

fn programs() -> ProgramIds {
    ProgramIds { wrap_program: id(250), token_program: id(251), associated_token_program: id(252) }
}

fn pair_with_wrapper(user: AccountId) -> (WrappedMintState, RoleState) {
    let accounts = CreateMint {
        wrapped_mint_owner: id(10),
        unwrapped_mint: id(1),
        unwrapped_mint_owner_program: id(251),
    };
    let mut salt = [0u8; 32];
    salt[31] = 1;
    let (state, _) =
        create_mint(&accounts, &programs(), &salt, "Wrapped One", "wONE", "https://example.invalid")
            .unwrap();
    let grant = AddRole { wrapped_mint_owner: id(10), wrapped_mint: state.wrapped_mint };
    let record = add_role(&grant, &state, user, 1, None).unwrap();
    (state, record)
}

fn wrap_accounts(state: &WrappedMintState, user: AccountId, record: RoleState) -> Wrap {
    Wrap {
        user,
        unwrapped_mint: state.unwrapped_mint,
        wrapped_mint: state.wrapped_mint,
        unwrapped_mint_vault: state.unwrapped_mint_vault,
        user_role: Some(record),
    }
}

fn unwrap_accounts(state: &WrappedMintState, user: AccountId, record: RoleState) -> Unwrap {
    Unwrap {
        user,
        unwrapped_mint: state.unwrapped_mint,
        wrapped_mint: state.wrapped_mint,
        unwrapped_mint_vault: state.unwrapped_mint_vault,
        user_role: Some(record),
    }
}

#[test]
fn escrow_wrap_then_partial_unwrap_scenario() {
    // A pair with salt 0x00..01; principal U holds the Wrapper role and one
    // whole unit (a million base units at six decimals) of the unwrapped
    // asset. Wrapping the unit fills custody and supply; unwrapping
    // four-tenths drains both to six-tenths and returns the difference.
    let user = id(30);
    let (state, record) = pair_with_wrapper(user);
    let programs = programs();
    let mut balances = EscrowBalances {
        custody_balance: 0,
        wrapped_supply: 0,
        user_unwrapped_balance: 1_000_000,
        user_wrapped_balance: 0,
    };
    let wa = wrap_accounts(&state, user, record);
    let event = wrap(&wa, &state, &programs, &mut balances, 1_000_000).unwrap();
    assert_eq!(balances.custody_balance, 1_000_000);
    assert_eq!(balances.wrapped_supply, 1_000_000);
    assert_eq!(balances.user_wrapped_balance, 1_000_000);
    assert_eq!(balances.user_unwrapped_balance, 0);
    assert_eq!(event.user, user);
    assert_eq!(event.unwrapped_mint, state.unwrapped_mint);
    assert_eq!(event.wrapped_mint, state.wrapped_mint);
    assert_eq!(event.amount, 1_000_000);

    let ua = unwrap_accounts(&state, user, record);
    let before_unwrapped = balances.user_unwrapped_balance;
    let event = unwrap(&ua, &state, &programs, &mut balances, 400_000).unwrap();
    assert_eq!(balances.custody_balance, 600_000);
    assert_eq!(balances.wrapped_supply, 600_000);
    assert_eq!(balances.user_wrapped_balance, 600_000);
    assert_eq!(balances.user_unwrapped_balance, before_unwrapped + 400_000);
    assert_eq!(event.amount, 400_000);
}

#[test]
fn escrow_round_trip_restores_balances() {
    let user = id(30);
    let (state, record) = pair_with_wrapper(user);
    let programs = programs();
    let start = EscrowBalances {
        custody_balance: 500,
        wrapped_supply: 500,
        user_unwrapped_balance: 700,
        user_wrapped_balance: 200,
    };
    let mut balances = start;
    wrap(&wrap_accounts(&state, user, record), &state, &programs, &mut balances, 123).unwrap();
    unwrap(&unwrap_accounts(&state, user, record), &state, &programs, &mut balances, 123).unwrap();
    assert_eq!(balances, start);
}

#[test]
fn escrow_conservation_holds_after_each_call() {
    let user = id(30);
    let (state, record) = pair_with_wrapper(user);
    let programs = programs();
    let mut balances = EscrowBalances {
        custody_balance: 0,
        wrapped_supply: 0,
        user_unwrapped_balance: 10_000,
        user_wrapped_balance: 0,
    };
    let wa = wrap_accounts(&state, user, record);
    let ua = unwrap_accounts(&state, user, record);
    let amounts = [4_000u64, 1_000, 2_500, 0, 700];
    for (i, amount) in amounts.iter().enumerate() {
        if i % 2 == 0 {
            let _ = wrap(&wa, &state, &programs, &mut balances, *amount);
        } else {
            let _ = unwrap(&ua, &state, &programs, &mut balances, *amount);
        }
        assert_eq!(balances.custody_balance, balances.wrapped_supply);
    }
}

#[test]
fn escrow_wrap_requires_authorization() {
    let user = id(30);
    let (state, record) = pair_with_wrapper(user);
    let programs = programs();
    let mut balances = EscrowBalances {
        custody_balance: 0,
        wrapped_supply: 0,
        user_unwrapped_balance: 1_000,
        user_wrapped_balance: 0,
    };
    let mut wa = wrap_accounts(&state, user, record);
    wa.user_role = None;
    let r = wrap(&wa, &state, &programs, &mut balances, 100);
    assert_eq!(r.unwrap_err(), TokenizationWrapError::Unauthorized);
    // Unauthorized whatever the amount, zero included.
    let r = wrap(&wa, &state, &programs, &mut balances, 0);
    assert_eq!(r.unwrap_err(), TokenizationWrapError::Unauthorized);
    assert_eq!(balances.custody_balance, 0);
    assert_eq!(balances.user_unwrapped_balance, 1_000);
}

#[test]
fn escrow_wrap_rejects_record_for_another_user() {
    let user = id(30);
    let (state, _) = pair_with_wrapper(user);
    let programs = programs();
    let other_record =
        RoleState { wrapped_mint: state.wrapped_mint, user: id(31), role: RoleKind::Wrapper };
    let mut balances = EscrowBalances {
        custody_balance: 0,
        wrapped_supply: 0,
        user_unwrapped_balance: 1_000,
        user_wrapped_balance: 0,
    };
    let mut wa = wrap_accounts(&state, user, other_record);
    wa.user_role = Some(other_record);
    let r = wrap(&wa, &state, &programs, &mut balances, 100);
    assert_eq!(r.unwrap_err(), TokenizationWrapError::Unauthorized);
}

#[test]
fn escrow_unwrap_requires_authorization() {
    let user = id(30);
    let (state, record) = pair_with_wrapper(user);
    let programs = programs();
    let mut balances = EscrowBalances {
        custody_balance: 500,
        wrapped_supply: 500,
        user_unwrapped_balance: 0,
        user_wrapped_balance: 500,
    };
    let mut ua = unwrap_accounts(&state, user, record);
    ua.user_role = None;
    let r = unwrap(&ua, &state, &programs, &mut balances, 100);
    assert_eq!(r.unwrap_err(), TokenizationWrapError::Unauthorized);
    assert_eq!(balances.custody_balance, 500);
}

#[test]
fn escrow_zero_amount_is_rejected() {
    let user = id(30);
    let (state, record) = pair_with_wrapper(user);
    let programs = programs();
    let mut balances = EscrowBalances {
        custody_balance: 500,
        wrapped_supply: 500,
        user_unwrapped_balance: 700,
        user_wrapped_balance: 200,
    };
    let r = wrap(&wrap_accounts(&state, user, record), &state, &programs, &mut balances, 0);
    assert_eq!(r.unwrap_err(), TokenizationWrapError::InsufficientBalance);
    let r = unwrap(&unwrap_accounts(&state, user, record), &state, &programs, &mut balances, 0);
    assert_eq!(r.unwrap_err(), TokenizationWrapError::InsufficientBalance);
}

#[test]
fn escrow_wrap_rejects_insufficient_holder_balance() {
    let user = id(30);
    let (state, record) = pair_with_wrapper(user);
    let programs = programs();
    let mut balances = EscrowBalances {
        custody_balance: 0,
        wrapped_supply: 0,
        user_unwrapped_balance: 99,
        user_wrapped_balance: 0,
    };
    let r = wrap(&wrap_accounts(&state, user, record), &state, &programs, &mut balances, 100);
    assert_eq!(r.unwrap_err(), TokenizationWrapError::InsufficientBalance);
    assert_eq!(balances.user_unwrapped_balance, 99);
}

#[test]
fn escrow_unwrap_rejects_insufficient_wrapped_balance() {
    let user = id(30);
    let (state, record) = pair_with_wrapper(user);
    let programs = programs();
    let mut balances = EscrowBalances {
        custody_balance: 500,
        wrapped_supply: 500,
        user_unwrapped_balance: 0,
        user_wrapped_balance: 99,
    };
    let r = unwrap(&unwrap_accounts(&state, user, record), &state, &programs, &mut balances, 100);
    assert_eq!(r.unwrap_err(), TokenizationWrapError::InsufficientBalance);
}

#[test]
fn escrow_wrap_checks_unwrapped_mint() {
    let user = id(30);
    let (state, record) = pair_with_wrapper(user);
    let programs = programs();
    let mut balances = EscrowBalances {
        custody_balance: 0,
        wrapped_supply: 0,
        user_unwrapped_balance: 1_000,
        user_wrapped_balance: 0,
    };
    let mut wa = wrap_accounts(&state, user, record);
    wa.unwrapped_mint = id(2);
    let r = wrap(&wa, &state, &programs, &mut balances, 100);
    assert_eq!(r.unwrap_err(), TokenizationWrapError::InvalidUnwrappedMint);
}

#[test]
fn escrow_wrap_checks_wrapped_mint_derivation() {
    let user = id(30);
    let (state, record) = pair_with_wrapper(user);
    let programs = programs();
    let mut balances = EscrowBalances {
        custody_balance: 0,
        wrapped_supply: 0,
        user_unwrapped_balance: 1_000,
        user_wrapped_balance: 0,
    };
    let mut wa = wrap_accounts(&state, user, record);
    wa.wrapped_mint = id(77);
    let r = wrap(&wa, &state, &programs, &mut balances, 100);
    assert_eq!(r.unwrap_err(), TokenizationWrapError::InvalidWrappedMint);
}

#[test]
fn escrow_wrap_checks_custody_account() {
    let user = id(30);
    let (state, record) = pair_with_wrapper(user);
    let programs = programs();
    let mut balances = EscrowBalances {
        custody_balance: 0,
        wrapped_supply: 0,
        user_unwrapped_balance: 1_000,
        user_wrapped_balance: 0,
    };
    let mut wa = wrap_accounts(&state, user, record);
    wa.unwrapped_mint_vault = id(78);
    let r = wrap(&wa, &state, &programs, &mut balances, 100);
    assert_eq!(r.unwrap_err(), TokenizationWrapError::InvalidUnwrappedMintVault);
}
