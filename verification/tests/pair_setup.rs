use tokenization_wrap::create_mint::{create_mint, CreateMint};
use tokenization_wrap::derivation::{derive_unwrapped_mint_vault, derive_wrapped_mint};
use tokenization_wrap::errors::TokenizationWrapError;
use tokenization_wrap::ids::{AccountId, ProgramIds};

fn id(n: u8) -> AccountId {
    let mut bytes = [0u8; 32];
    bytes[0] = n;
    AccountId { bytes }
}

fn programs() -> ProgramIds {
    ProgramIds { wrap_program: id(250), token_program: id(251), associated_token_program: id(252) }
}

fn accounts() -> CreateMint {
    CreateMint {
        wrapped_mint_owner: id(10),
        unwrapped_mint: id(1),
        unwrapped_mint_owner_program: id(251),
    }
}

#[test]
fn pair_creation_records_the_registry_row() {
    let programs = programs();
    let accounts = accounts();
    let salt = [3u8; 32];
    let (state, event) =
        create_mint(&accounts, &programs, &salt, "Wrapped One", "wONE", "https://example.invalid/one")
            .unwrap();
    let expected_wrapped =
        derive_wrapped_mint(&accounts.unwrapped_mint, &salt, &programs.wrap_program).unwrap().0;
    let expected_vault =
        derive_unwrapped_mint_vault(&expected_wrapped, &accounts.unwrapped_mint, &programs)
            .unwrap()
            .0;
    assert_eq!(state.salt, salt);
    assert_eq!(state.wrapped_mint, expected_wrapped);
    assert_eq!(state.wrapped_mint_owner, accounts.wrapped_mint_owner);
    assert_eq!(state.wrapped_mint_pending_owner, AccountId { bytes: [0u8; 32] });
    assert_eq!(state.unwrapped_mint, accounts.unwrapped_mint);
    assert_eq!(state.unwrapped_mint_vault, expected_vault);
    assert_eq!(event.wrapped_mint_owner, accounts.wrapped_mint_owner);
    assert_eq!(event.unwrapped_mint, accounts.unwrapped_mint);
    assert_eq!(event.wrapped_mint, expected_wrapped);
    assert_eq!(event.unwrapped_mint_vault, expected_vault);
}

#[test]
fn pair_creation_same_inputs_same_identities() {
    let programs = programs();
    let accounts = accounts();
    let salt = [3u8; 32];
    let (first, _) = create_mint(&accounts, &programs, &salt, "A", "A", "a").unwrap();
    let (second, _) = create_mint(&accounts, &programs, &salt, "B", "B", "b").unwrap();
    assert_eq!(first.wrapped_mint, second.wrapped_mint);
    assert_eq!(first.unwrapped_mint_vault, second.unwrapped_mint_vault);
}

#[test]
fn pair_creation_rejects_long_name() {
    let long_name: String = "n".repeat(65);
    let r = create_mint(&accounts(), &programs(), &[0u8; 32], &long_name, "S", "u");
    assert_eq!(r.unwrap_err(), TokenizationWrapError::NameTooLong);
}

#[test]
fn pair_creation_accepts_boundary_lengths() {
    let name: String = "n".repeat(64);
    let symbol: String = "s".repeat(32);
    let uri: String = "u".repeat(512);
    assert!(create_mint(&accounts(), &programs(), &[0u8; 32], &name, &symbol, &uri).is_ok());
}

#[test]
fn pair_creation_rejects_long_symbol() {
    let long_symbol: String = "s".repeat(33);
    let r = create_mint(&accounts(), &programs(), &[0u8; 32], "N", &long_symbol, "u");
    assert_eq!(r.unwrap_err(), TokenizationWrapError::SymbolTooLong);
}

#[test]
fn pair_creation_rejects_long_uri() {
    let long_uri: String = "u".repeat(513);
    let r = create_mint(&accounts(), &programs(), &[0u8; 32], "N", "S", &long_uri);
    assert_eq!(r.unwrap_err(), TokenizationWrapError::UriTooLong);
}

#[test]
fn pair_creation_rejects_foreign_asset() {
    let mut accounts = accounts();
    accounts.unwrapped_mint_owner_program = id(99);
    let r = create_mint(&accounts, &programs(), &[0u8; 32], "N", "S", "u");
    assert_eq!(r.unwrap_err(), TokenizationWrapError::InvalidUnwrappedMint);
}

#[test]
fn pair_creation_owner_check_precedes_length_checks() {
    let mut accounts = accounts();
    accounts.unwrapped_mint_owner_program = id(99);
    let long_name: String = "n".repeat(65);
    let r = create_mint(&accounts, &programs(), &[0u8; 32], &long_name, "S", "u");
    assert_eq!(r.unwrap_err(), TokenizationWrapError::InvalidUnwrappedMint);
}
