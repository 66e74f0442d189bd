use pulsartrack::error::Error;
use pulsartrack::liquidity_pool::{LiquidityPoolContract, SECONDS_PER_YEAR};
use pulsartrack::types::{Address, Transfer};

const ADMIN: Address = 1;
const TOKEN: Address = 2;
const LP1: Address = 10;
const LP2: Address = 11;
const BORROWER: Address = 20;
const T0: u64 = 1_000;

fn setup() -> LiquidityPoolContract {
    let mut c = LiquidityPoolContract::new();
    c.initialize(T0, ADMIN, TOKEN).unwrap();
    c
}

#[test]
fn pool_initial_state() {
    let c = setup();
    let p = c.get_pool_state().unwrap();
    assert_eq!(p.total_liquidity, 0);
    assert_eq!(p.total_borrowed, 0);
    assert_eq!(p.reserve_factor, 10);
    assert_eq!(p.borrow_rate_bps, 500);
    assert_eq!(p.last_updated, T0);
    assert_eq!(LiquidityPoolContract::new().get_pool_state(), Err(Error::NotInitialized));
}

#[test]
fn pool_initialize_twice() {
    let mut c = setup();
    assert_eq!(c.initialize(T0, ADMIN, TOKEN), Err(Error::AlreadyInitialized));
}

#[test]
fn first_deposit_gets_one_share_per_token() {
    let mut c = setup();
    let (shares, collect) = c.deposit(T0, LP1, 1_000_000).unwrap();
    assert_eq!(shares, 1_000_000);
    assert_eq!(collect, Transfer::Collect { token: TOKEN, from: LP1, amount: 1_000_000 });
    let pos = c.get_provider_position(LP1).unwrap();
    assert_eq!(pos.shares, 1_000_000);
    assert_eq!(pos.deposited, 1_000_000);
    assert_eq!(c.get_pool_state().unwrap().total_liquidity, 1_000_000);
}

#[test]
fn pool_deposit_refusals() {
    let mut c = setup();
    assert_eq!(c.deposit(T0, LP1, 0).map(|r| r.0), Err(Error::InvalidAmount));
    let mut fresh = LiquidityPoolContract::new();
    assert_eq!(fresh.deposit(T0, LP1, 5).map(|r| r.0), Err(Error::NotInitialized));
}

fn year_of_borrowing() -> LiquidityPoolContract {
    let mut c = setup();
    c.deposit(T0, LP1, 1_000_000).unwrap();
    let paid = c.borrow(T0, BORROWER, 7, 1_000_000, SECONDS_PER_YEAR).unwrap();
    assert_eq!(paid, Transfer::Pay { token: TOKEN, to: BORROWER, amount: 1_000_000 });
    c
}

#[test]
fn borrow_updates_utilization() {
    let mut c = setup();
    c.deposit(T0, LP1, 1_000_000).unwrap();
    c.borrow(T0, BORROWER, 7, 250_000, 100).unwrap();
    let p = c.get_pool_state().unwrap();
    assert_eq!(p.total_borrowed, 250_000);
    assert_eq!(p.utilization_rate, 25);
    let b = c.get_borrow(7).unwrap();
    assert_eq!(b.borrowed, 250_000);
    assert_eq!(b.due_at, T0 + 100);
    assert_eq!(c.borrow(T0, BORROWER, 7, 1, 100), Err(Error::AlreadyHasBorrow));
    assert_eq!(c.borrow(T0, BORROWER, 8, 750_001, 100), Err(Error::InsufficientLiquidity));
}

#[test]
fn interest_after_a_year_is_the_annual_rate() {
    let mut c = year_of_borrowing();
    // 5% of 1_000_000 over a full year.
    assert_eq!(c.accrue_interest(T0 + SECONDS_PER_YEAR, 7), Ok(50_000));
    assert_eq!(c.get_borrow(7).unwrap().interest_accrued, 50_000);
    // Half a year gives half.
    assert_eq!(c.accrue_interest(T0 + SECONDS_PER_YEAR / 2, 7), Ok(25_000));
    // No time elapsed, no interest (also when the clock reads earlier).
    assert_eq!(c.accrue_interest(T0, 7), Ok(0));
    assert_eq!(c.accrue_interest(0, 7), Ok(0));
    assert_eq!(c.accrue_interest(T0, 99), Err(Error::BorrowNotFound));
}

#[test]
fn repay_splits_interest_and_returns_excess() {
    let mut c = year_of_borrowing();
    let now = T0 + SECONDS_PER_YEAR;
    assert_eq!(c.repay(now, BORROWER, 7, 1_049_999), Err(Error::InsufficientPayment));
    assert_eq!(c.repay(now, LP1, 7, 1_060_000), Err(Error::Unauthorized));
    let moves = c.repay(now, BORROWER, 7, 1_060_000).unwrap();
    assert_eq!(
        moves,
        vec![
            Transfer::Collect { token: TOKEN, from: BORROWER, amount: 1_060_000 },
            Transfer::Pay { token: TOKEN, to: BORROWER, amount: 10_000 },
        ]
    );
    let p = c.get_pool_state().unwrap();
    // 10% of the 50_000 interest is kept as reserve; the rest is liquidity.
    assert_eq!(p.interest_reserve, 5_000);
    assert_eq!(p.total_liquidity, 1_045_000);
    assert_eq!(p.total_borrowed, 0);
    assert_eq!(p.utilization_rate, 0);
    assert!(c.get_borrow(7).is_none());
    assert_eq!(c.repay(now, BORROWER, 7, 1), Err(Error::BorrowNotFound));
}

#[test]
fn exact_repayment_pays_nothing_back() {
    let mut c = year_of_borrowing();
    let moves = c.repay(T0 + SECONDS_PER_YEAR, BORROWER, 7, 1_050_000).unwrap();
    assert_eq!(moves, vec![Transfer::Collect { token: TOKEN, from: BORROWER, amount: 1_050_000 }]);
}

#[test]
fn withdraw_gets_share_of_grown_pool() {
    let mut c = year_of_borrowing();
    c.repay(T0 + SECONDS_PER_YEAR, BORROWER, 7, 1_050_000).unwrap();
    let (amount, pay) = c.withdraw(T0 + SECONDS_PER_YEAR, LP1, 1_000_000).unwrap();
    assert_eq!(amount, 1_045_000);
    assert_eq!(pay, Transfer::Pay { token: TOKEN, to: LP1, amount: 1_045_000 });
    let pos = c.get_provider_position(LP1).unwrap();
    assert_eq!(pos.shares, 0);
    assert_eq!(pos.deposited, -45_000);
    assert_eq!(c.get_pool_state().unwrap().total_liquidity, 0);
}

#[test]
fn later_deposits_get_proportional_shares() {
    let mut c = year_of_borrowing();
    c.repay(T0 + SECONDS_PER_YEAR, BORROWER, 7, 1_050_000).unwrap();
    // 1_000_000 shares over 1_045_000 tokens: 209_000 tokens buy 200_000 shares.
    let (shares, _) = c.deposit(T0, LP2, 209_000).unwrap();
    assert_eq!(shares, 200_000);
}

#[test]
fn withdraw_refusals() {
    let mut c = setup();
    assert_eq!(c.withdraw(T0, LP1, 1).map(|r| r.0), Err(Error::NoPosition));
    c.deposit(T0, LP1, 1_000).unwrap();
    assert_eq!(c.withdraw(T0, LP1, 1_001).map(|r| r.0), Err(Error::InsufficientShares));
    c.borrow(T0, BORROWER, 1, 900, 10).unwrap();
    assert_eq!(c.withdraw(T0, LP1, 200).map(|r| r.0), Err(Error::InsufficientLiquidity));
    assert_eq!(c.withdraw(T0, LP1, 100).map(|r| r.0), Ok(100));
}

#[test]
fn pool_admin_handover() {
    let mut c = setup();
    assert_eq!(c.propose_admin(LP1, LP2), Err(Error::Unauthorized));
    c.propose_admin(ADMIN, LP2).unwrap();
    assert_eq!(c.accept_admin(LP2), Ok(()));
    assert_eq!(c.propose_admin(ADMIN, LP1), Err(Error::Unauthorized));
}

#[test]
fn pool_never_lends_more_than_it_holds() {
    let mut c = setup();
    c.deposit(T0, LP1, 500).unwrap();
    c.deposit(T0, LP2, 500).unwrap();
    c.borrow(T0, BORROWER, 1, 600, 10).unwrap();
    assert_eq!(c.borrow(T0, BORROWER, 2, 401, 10), Err(Error::InsufficientLiquidity));
    c.borrow(T0, BORROWER, 2, 400, 10).unwrap();
    assert_eq!(c.withdraw(T0, LP1, 1).map(|r| r.0), Err(Error::InsufficientLiquidity));
    let p = c.get_pool_state().unwrap();
    assert!(p.total_borrowed <= p.total_liquidity);
    assert_eq!(p.utilization_rate, 100);
}
