use pulsartrack::error::Error;
use pulsartrack::token_bridge::{BridgeStatus, TokenBridgeContract};
use pulsartrack::types::{Address, Transfer};

const ADMIN: Address = 1;
const RELAYER: Address = 2;
const TOKEN: Address = 3;
const SENDER: Address = 10;
const DAY: u64 = 86_400;

fn setup() -> TokenBridgeContract {
    let mut c = TokenBridgeContract::new();
    c.initialize(ADMIN, RELAYER).unwrap();
    c
}

fn eth() -> String {
    "ethereum".to_string()
}

fn deposit(c: &mut TokenBridgeContract, now: u64, amount: i128) -> Result<(u64, Transfer), Error> {
    c.deposit_for_bridge(now, SENDER, TOKEN, amount, eth(), "0x123".to_string())
}

#[test]
fn token_bridge_test_initialize() {
    let mut c = TokenBridgeContract::new();
    assert_eq!(c.initialize(ADMIN, RELAYER), Ok(()));
}

#[test]
fn token_bridge_test_initialize_twice() {
    let mut c = setup();
    assert_eq!(c.initialize(ADMIN, RELAYER), Err(Error::AlreadyInitialized));
}

#[test]
fn test_add_supported_chain() {
    let mut c = setup();
    assert_eq!(c.add_supported_chain(ADMIN, eth(), 1_000_000), Ok(()));
}

#[test]
fn test_add_supported_chain_unauthorized() {
    let mut c = setup();
    assert_eq!(c.add_supported_chain(77, eth(), 1_000_000), Err(Error::Unauthorized));
}

#[test]
fn test_add_supported_chain_zero_limit() {
    let mut c = setup();
    assert_eq!(c.add_supported_chain(ADMIN, eth(), 0), Err(Error::NonPositiveDailyLimit));
}

#[test]
fn test_add_supported_chain_negative_limit() {
    let mut c = setup();
    assert_eq!(c.add_supported_chain(ADMIN, eth(), -1), Err(Error::NonPositiveDailyLimit));
}

#[test]
fn test_get_deposit_nonexistent() {
    let c = setup();
    assert!(c.get_deposit(999).is_none());
}

#[test]
fn test_deposit_for_bridge_overflow() {
    let mut c = setup();
    c.add_supported_chain(ADMIN, eth(), i128::MAX).unwrap();
    assert_eq!(deposit(&mut c, 0, i128::MAX), Err(Error::BridgeFeeOverflow));
}

#[test]
fn test_deposit_for_bridge_normal() {
    let mut c = setup();
    c.add_supported_chain(ADMIN, eth(), 1_000_000).unwrap();
    // 0.5% of 10_000 is 50; 9_950 reaches the other chain.
    let (id, collect) = deposit(&mut c, 7, 10_000).unwrap();
    assert_eq!(collect, Transfer::Collect { token: TOKEN, from: SENDER, amount: 10_000 });
    let d = c.get_deposit(id).unwrap();
    assert_eq!(d.amount, 9950);
    assert_eq!(d.bridge_fee, 50);
    assert_eq!(d.status, BridgeStatus::Pending);
    assert_eq!(d.recipient_chain, "ethereum");
    assert_eq!(d.created_at, 7);
}

#[test]
fn fee_rounds_down() {
    let mut c = setup();
    c.add_supported_chain(ADMIN, eth(), 1_000_000).unwrap();
    let (id, _) = deposit(&mut c, 0, 199).unwrap();
    let d = c.get_deposit(id).unwrap();
    assert_eq!(d.bridge_fee, 0);
    assert_eq!(d.amount, 199);
}

#[test]
fn bridge_deposit_refusals() {
    let mut c = setup();
    assert_eq!(deposit(&mut c, 0, 10), Err(Error::ChainNotSupported));
    c.add_supported_chain(ADMIN, eth(), 1_000).unwrap();
    assert_eq!(deposit(&mut c, 0, 0), Err(Error::InvalidAmount));
    assert_eq!(deposit(&mut c, 0, -3), Err(Error::InvalidAmount));
    assert_eq!(deposit(&mut c, 0, 1_001), Err(Error::DailyLimitExceeded));
}

#[test]
fn daily_limit_is_per_day() {
    let mut c = setup();
    c.add_supported_chain(ADMIN, eth(), 1_000).unwrap();
    deposit(&mut c, 10, 600).unwrap();
    deposit(&mut c, 20, 400).unwrap();
    assert_eq!(deposit(&mut c, 30, 1), Err(Error::DailyLimitExceeded));
    // The next day starts from zero.
    assert!(deposit(&mut c, DAY + 1, 1_000).is_ok());
    // Another chain has its own volume.
    c.add_supported_chain(ADMIN, "solana".to_string(), 5).unwrap();
    assert!(c
        .deposit_for_bridge(30, SENDER, TOKEN, 5, "solana".to_string(), "addr".to_string())
        .is_ok());
}

#[test]
fn confirm_then_refund_refused() {
    let mut c = setup();
    c.add_supported_chain(ADMIN, eth(), 1_000_000).unwrap();
    let (id, _) = deposit(&mut c, 0, 10_000).unwrap();
    let hash = [7u8; 32];
    assert_eq!(c.confirm_bridge(50, 99, id, hash), Err(Error::UnauthorizedRelayer));
    assert_eq!(c.confirm_bridge(50, RELAYER, 9, hash), Err(Error::DepositNotFound));
    assert_eq!(c.confirm_bridge(50, RELAYER, id, hash), Ok(()));
    let d = c.get_deposit(id).unwrap();
    assert_eq!(d.status, BridgeStatus::Completed);
    assert_eq!(d.completed_at, Some(50));
    assert_eq!(d.tx_hash, Some(hash));
    assert_eq!(c.confirm_bridge(51, RELAYER, id, hash), Err(Error::NotPending));
    assert_eq!(c.refund_deposit(ADMIN, id), Err(Error::CannotRefund));
}

#[test]
fn refund_returns_amount_and_fee() {
    let mut c = setup();
    c.add_supported_chain(ADMIN, eth(), 1_000_000).unwrap();
    let (id, _) = deposit(&mut c, 0, 10_000).unwrap();
    assert_eq!(c.refund_deposit(RELAYER, id), Err(Error::Unauthorized));
    assert_eq!(
        c.refund_deposit(ADMIN, id),
        Ok(Transfer::Pay { token: TOKEN, to: SENDER, amount: 10_000 })
    );
    assert_eq!(c.get_deposit(id).unwrap().status, BridgeStatus::Refunded);
    assert_eq!(c.refund_deposit(ADMIN, id), Err(Error::CannotRefund));
}

#[test]
fn token_bridge_admin_handover() {
    let mut c = setup();
    c.propose_admin(ADMIN, 4).unwrap();
    c.accept_admin(4).unwrap();
    assert_eq!(c.add_supported_chain(ADMIN, eth(), 1), Err(Error::Unauthorized));
    assert_eq!(c.add_supported_chain(4, eth(), 1), Ok(()));
}
