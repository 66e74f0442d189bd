use pulsartrack::error::Error;
use pulsartrack::performance_oracle::PerformanceOracleContract;
use pulsartrack::types::Address;

const ADMIN: Address = 1;
const A1: Address = 10;
const A2: Address = 11;
const A3: Address = 12;
const CAMPAIGN: u64 = 5;

fn setup(min: u32) -> PerformanceOracleContract {
    let mut c = PerformanceOracleContract::new();
    c.initialize(ADMIN, min).unwrap();
    for a in [A1, A2, A3] {
        c.authorize_attester(ADMIN, a).unwrap();
    }
    c
}

fn report(c: &mut PerformanceOracleContract, who: Address, imp: u64, clk: u64, fraud: u32, quality: u32) -> Result<(), Error> {
    c.submit_attestation(9, 100, who, CAMPAIGN, imp, clk, fraud, quality, [1u8; 32])
}

#[test]
fn oracle_initialize_twice() {
    let mut c = setup(3);
    assert_eq!(c.initialize(ADMIN, 3), Err(Error::AlreadyInitialized));
}

#[test]
fn consensus_is_the_mean_once_enough_report() {
    let mut c = setup(3);
    report(&mut c, A1, 1_000, 10, 100, 90).unwrap();
    report(&mut c, A2, 2_000, 20, 200, 80).unwrap();
    assert!(c.get_consensus(CAMPAIGN).is_none());
    assert_eq!(c.get_attestation_count(CAMPAIGN), 2);
    report(&mut c, A3, 3_001, 31, 301, 71).unwrap();
    let k = c.get_consensus(CAMPAIGN).unwrap();
    assert_eq!(k.total_attesters, 3);
    assert_eq!(k.avg_impressions, 2_000);
    assert_eq!(k.avg_clicks, 20);
    assert_eq!(k.avg_fraud_rate, 200);
    assert_eq!(k.avg_quality_score, 80);
    assert!(k.consensus_reached);
    assert_eq!(k.last_updated, 100);
}

#[test]
fn consensus_sums_saturate() {
    let mut c = setup(2);
    report(&mut c, A1, u64::MAX, 0, 0, 0).unwrap();
    report(&mut c, A2, u64::MAX, 0, 0, 0).unwrap();
    let k = c.get_consensus(CAMPAIGN).unwrap();
    assert_eq!(k.avg_impressions, u64::MAX / 2);
}

#[test]
fn equal_reports_give_that_value() {
    let mut c = setup(1);
    report(&mut c, A1, 777, 7, 70, 50).unwrap();
    let k = c.get_consensus(CAMPAIGN).unwrap();
    assert_eq!(k.avg_impressions, 777);
    report(&mut c, A2, 777, 7, 70, 50).unwrap();
    let k = c.get_consensus(CAMPAIGN).unwrap();
    assert_eq!(k.total_attesters, 2);
    assert_eq!(k.avg_impressions, 777);
    assert_eq!(k.avg_quality_score, 50);
}

#[test]
fn attestation_refusals() {
    let mut c = setup(3);
    assert_eq!(report(&mut c, 99, 1, 1, 1, 1), Err(Error::NotAuthorizedAttester));
    report(&mut c, A1, 1, 1, 1, 1).unwrap();
    assert_eq!(report(&mut c, A1, 2, 2, 2, 2), Err(Error::AlreadyAttested));
    assert_eq!(c.get_attestation_count(CAMPAIGN), 1);
    let a = c.get_attestation(CAMPAIGN, A1).unwrap();
    assert_eq!(a.impressions_verified, 1);
    assert_eq!(a.attested_at, 100);
    assert_eq!(a.ledger_sequence, 9);
    assert!(c.get_attestation(CAMPAIGN, A2).is_none());
}

#[test]
fn authorize_attester_requires_admin() {
    let mut c = setup(3);
    assert_eq!(c.authorize_attester(A1, 50), Err(Error::Unauthorized));
    let mut fresh = PerformanceOracleContract::new();
    assert_eq!(fresh.authorize_attester(ADMIN, 50), Err(Error::NotInitialized));
}

#[test]
fn oracle_admin_handover() {
    let mut c = setup(3);
    c.propose_admin(ADMIN, 2).unwrap();
    c.accept_admin(2).unwrap();
    assert_eq!(c.authorize_attester(ADMIN, 50), Err(Error::Unauthorized));
    assert_eq!(c.authorize_attester(2, 50), Ok(()));
}
