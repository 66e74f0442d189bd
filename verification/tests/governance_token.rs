use pulsartrack::error::Error;
use pulsartrack::governance_token::{GovernanceTokenContract, DECIMALS, MAX_SUPPLY};
use pulsartrack::types::Address;

const ADMIN: Address = 1;
const ALICE: Address = 10;
const BOB: Address = 11;
const CAROL: Address = 12;

fn setup() -> GovernanceTokenContract {
    let mut c = GovernanceTokenContract::new();
    c.initialize(ADMIN).unwrap();
    c
}

#[test]
fn token_metadata_after_initialize() {
    let c = setup();
    assert_eq!(c.name(), Ok("PulsarTrack Governance".to_string()));
    assert_eq!(c.symbol(), Ok("PULSAR".to_string()));
    assert_eq!(c.decimals(), Ok(DECIMALS));
    assert_eq!(c.decimals(), Ok(7));
    assert_eq!(c.total_supply(), 0);
}

#[test]
fn token_metadata_before_initialize() {
    let c = GovernanceTokenContract::new();
    assert_eq!(c.name(), Err(Error::NotInitialized));
    assert_eq!(c.symbol(), Err(Error::NotInitialized));
    assert_eq!(c.decimals(), Err(Error::NotInitialized));
}

#[test]
fn token_initialize_twice() {
    let mut c = setup();
    assert_eq!(c.initialize(ADMIN), Err(Error::AlreadyInitialized));
}

#[test]
fn mint_and_transfer() {
    let mut c = setup();
    c.mint(ADMIN, ALICE, 1_000).unwrap();
    assert_eq!(c.balance(ALICE), 1_000);
    assert_eq!(c.total_supply(), 1_000);
    c.transfer(ALICE, BOB, 300).unwrap();
    assert_eq!(c.balance(ALICE), 700);
    assert_eq!(c.balance(BOB), 300);
    assert_eq!(c.total_supply(), 1_000);
}

#[test]
fn transfer_to_self_changes_nothing() {
    let mut c = setup();
    c.mint(ADMIN, ALICE, 500).unwrap();
    c.transfer(ALICE, ALICE, 500).unwrap();
    assert_eq!(c.balance(ALICE), 500);
}

#[test]
fn transfer_refusals() {
    let mut c = setup();
    c.mint(ADMIN, ALICE, 100).unwrap();
    assert_eq!(c.transfer(ALICE, BOB, 0), Err(Error::InvalidAmount));
    assert_eq!(c.transfer(ALICE, BOB, -1), Err(Error::InvalidAmount));
    assert_eq!(c.transfer(ALICE, BOB, 101), Err(Error::InsufficientBalance));
    assert_eq!(c.balance(ALICE), 100);
    assert_eq!(c.balance(BOB), 0);
}

#[test]
fn mint_is_capped() {
    let mut c = setup();
    assert_eq!(c.mint(ALICE, ALICE, 1), Err(Error::Unauthorized));
    c.mint(ADMIN, ALICE, MAX_SUPPLY - 10).unwrap();
    assert_eq!(c.mint(ADMIN, BOB, 11), Err(Error::ExceedsMaxSupply));
    assert_eq!(c.mint(ADMIN, BOB, 10), Ok(()));
    assert_eq!(c.total_supply(), MAX_SUPPLY);
    assert_eq!(c.mint(ADMIN, BOB, i128::MAX), Err(Error::Overflow));
}

#[test]
fn burn_reduces_supply() {
    let mut c = setup();
    c.mint(ADMIN, ALICE, 1_000).unwrap();
    c.burn(ALICE, 400).unwrap();
    assert_eq!(c.balance(ALICE), 600);
    assert_eq!(c.total_supply(), 600);
    assert_eq!(c.burn(ALICE, 601), Err(Error::InsufficientBalance));
}

#[test]
fn allowance_flow() {
    let mut c = setup();
    c.mint(ADMIN, ALICE, 1_000).unwrap();
    c.approve(ALICE, BOB, 300, 50);
    assert_eq!(c.allowance(ALICE, BOB), 300);
    assert_eq!(c.transfer_from(10, BOB, ALICE, CAROL, 301), Err(Error::InsufficientAllowance));
    c.transfer_from(10, BOB, ALICE, CAROL, 200).unwrap();
    assert_eq!(c.allowance(ALICE, BOB), 100);
    assert_eq!(c.balance(ALICE), 800);
    assert_eq!(c.balance(CAROL), 200);
    assert_eq!(c.transfer_from(51, BOB, ALICE, CAROL, 50), Err(Error::AllowanceExpired));
    // The last ledger of the allowance still counts.
    assert_eq!(c.transfer_from(50, BOB, ALICE, CAROL, 50), Ok(()));
}

#[test]
fn transfer_from_without_allowance() {
    let mut c = setup();
    c.mint(ADMIN, ALICE, 1_000).unwrap();
    // No allowance reads as amount 0 expiring at ledger 0.
    assert_eq!(c.transfer_from(0, BOB, ALICE, CAROL, 1), Err(Error::InsufficientAllowance));
    assert_eq!(c.transfer_from(1, BOB, ALICE, CAROL, 1), Err(Error::AllowanceExpired));
    assert_eq!(c.allowance(ALICE, BOB), 0);
}

#[test]
fn transfer_from_beyond_balance() {
    let mut c = setup();
    c.mint(ADMIN, ALICE, 10).unwrap();
    c.approve(ALICE, BOB, 100, 5);
    assert_eq!(c.transfer_from(0, BOB, ALICE, CAROL, 11), Err(Error::InsufficientBalance));
}

#[test]
fn delegation_moves_voting_power_away() {
    let mut c = setup();
    c.mint(ADMIN, ALICE, 700).unwrap();
    assert_eq!(c.voting_power(ALICE), 700);
    c.delegate(5, ALICE, BOB);
    assert_eq!(c.voting_power(ALICE), 0);
    let d = c.get_delegation(ALICE).unwrap();
    assert_eq!(d.delegate, BOB);
    assert_eq!(d.delegated_at, 5);
    c.revoke_delegation(ALICE);
    assert_eq!(c.voting_power(ALICE), 700);
    assert!(c.get_delegation(ALICE).is_none());
}

#[test]
fn token_admin_handover() {
    let mut c = setup();
    c.propose_admin(ADMIN, 2).unwrap();
    assert_eq!(c.accept_admin(3), Err(Error::Unauthorized));
    c.accept_admin(2).unwrap();
    assert_eq!(c.mint(ADMIN, ALICE, 1), Err(Error::Unauthorized));
    assert_eq!(c.mint(2, ALICE, 1), Ok(()));
}
