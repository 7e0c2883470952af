use tokenization_wrap::close_vault::{close_unwrapped_mint_vault, CloseUnwrappedMintVault};
use tokenization_wrap::create_mint::{create_mint, CreateMint, WrappedMintState};
use tokenization_wrap::derivation::derive_wrapped_mint_state;
use tokenization_wrap::errors::TokenizationWrapError;
use tokenization_wrap::ids::{AccountId, ProgramIds};
use tokenization_wrap::recover_mint::{recover_mint, RecoverBalances, RecoverMint};

fn id(n: u8) -> AccountId {
    let mut bytes = [0u8; 32];
    bytes[0] = n;
    AccountId { bytes }
}

fn programs() -> ProgramIds {
    ProgramIds { wrap_program: id(250), token_program: id(251), associated_token_program: id(252) }
}

fn pair() -> WrappedMintState {
    let accounts = CreateMint {
        wrapped_mint_owner: id(10),
        unwrapped_mint: id(1),
        unwrapped_mint_owner_program: id(251),
    };
    create_mint(&accounts, &programs(), &[3u8; 32], "N", "S", "u").unwrap().0
}

fn recover_accounts(state: &WrappedMintState, caller: AccountId) -> RecoverMint {
    RecoverMint {
        wrapped_mint_owner: caller,
        unwrapped_mint: state.unwrapped_mint,
        wrapped_mint: state.wrapped_mint,
        wrapped_mint_account: id(40),
        unwrapped_mint_vault: state.unwrapped_mint_vault,
    }
}

#[test]
fn recover_mints_exactly_the_surplus() {
    let state = pair();
    let programs = programs();
    let mut balances = RecoverBalances {
        custody_balance: 1_500,
        wrapped_supply: 1_000,
        owner_wrapped_balance: 100,
    };
    let accounts = recover_accounts(&state, id(10));
    let event = recover_mint(&accounts, &state, &programs, &mut balances).unwrap();
    assert_eq!(balances.custody_balance, 1_500);
    assert_eq!(balances.wrapped_supply, 1_500);
    assert_eq!(balances.owner_wrapped_balance, 600);
    assert_eq!(event.recovered_amount, 500);
    assert_eq!(event.unwrapped_mint_vault_balance, 1_500);
    assert_eq!(event.wrapped_mint_total_supply, 1_000);
    assert_eq!(event.wrapped_mint_owner, id(10));
    assert_eq!(event.wrapped_mint_account, id(40));
}

#[test]
fn recover_rejects_equal_balances() {
    let state = pair();
    let programs = programs();
    let mut balances = RecoverBalances {
        custody_balance: 1_000,
        wrapped_supply: 1_000,
        owner_wrapped_balance: 0,
    };
    let accounts = recover_accounts(&state, id(10));
    let r = recover_mint(&accounts, &state, &programs, &mut balances);
    assert_eq!(r.unwrap_err(), TokenizationWrapError::InsufficientBalance);
    assert_eq!(balances.wrapped_supply, 1_000);
}

#[test]
fn recover_requires_owner() {
    let state = pair();
    let programs = programs();
    let mut balances = RecoverBalances {
        custody_balance: 1_500,
        wrapped_supply: 1_000,
        owner_wrapped_balance: 0,
    };
    let accounts = recover_accounts(&state, id(11));
    let r = recover_mint(&accounts, &state, &programs, &mut balances);
    assert_eq!(r.unwrap_err(), TokenizationWrapError::NotOwner);
}

#[test]
fn recover_checks_custody_account() {
    let state = pair();
    let programs = programs();
    let mut balances = RecoverBalances {
        custody_balance: 1_500,
        wrapped_supply: 1_000,
        owner_wrapped_balance: 0,
    };
    let mut accounts = recover_accounts(&state, id(10));
    accounts.unwrapped_mint_vault = id(78);
    let r = recover_mint(&accounts, &state, &programs, &mut balances);
    assert_eq!(r.unwrap_err(), TokenizationWrapError::InvalidUnwrappedMintVault);
}

#[test]
fn close_vault_approves_for_owner() {
    let state = pair();
    let programs = programs();
    let accounts = CloseUnwrappedMintVault {
        wrapped_mint_owner: id(10),
        unwrapped_mint: state.unwrapped_mint,
        wrapped_mint: state.wrapped_mint,
        unwrapped_mint_vault: state.unwrapped_mint_vault,
    };
    let event = close_unwrapped_mint_vault(&accounts, &state, &programs).unwrap();
    assert_eq!(event.wrapped_mint_owner, id(10));
    assert_eq!(event.unwrapped_mint_vault, state.unwrapped_mint_vault);
    let registry = derive_wrapped_mint_state(&state.wrapped_mint, &programs.wrap_program).unwrap();
    assert_eq!(event.wrapped_mint_state, registry.0);
}

#[test]
fn close_vault_requires_owner() {
    let state = pair();
    let programs = programs();
    let accounts = CloseUnwrappedMintVault {
        wrapped_mint_owner: id(11),
        unwrapped_mint: state.unwrapped_mint,
        wrapped_mint: state.wrapped_mint,
        unwrapped_mint_vault: state.unwrapped_mint_vault,
    };
    let r = close_unwrapped_mint_vault(&accounts, &state, &programs);
    assert_eq!(r.unwrap_err(), TokenizationWrapError::NotOwner);
}

#[test]
fn close_vault_checks_custody_account() {
    let state = pair();
    let programs = programs();
    let accounts = CloseUnwrappedMintVault {
        wrapped_mint_owner: id(10),
        unwrapped_mint: state.unwrapped_mint,
        wrapped_mint: state.wrapped_mint,
        unwrapped_mint_vault: id(78),
    };
    let r = close_unwrapped_mint_vault(&accounts, &state, &programs);
    assert_eq!(r.unwrap_err(), TokenizationWrapError::InvalidUnwrappedMintVault);
}
