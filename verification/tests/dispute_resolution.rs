use pulsartrack::dispute_resolution::{
    DisputeOutcome, DisputeResolutionContract, DisputeStatus, EscrowSettlement,
};
use pulsartrack::error::Error;
use pulsartrack::types::{Address, Transfer};

const ADMIN: Address = 1;
const TOKEN: Address = 2;
const CLAIMANT: Address = 10;
const RESPONDENT: Address = 11;
const ARBITRATOR: Address = 12;
const FEE: i128 = 1000;

fn setup() -> DisputeResolutionContract {
    let mut c = DisputeResolutionContract::new();
    c.initialize(ADMIN, TOKEN, FEE).unwrap();
    c
}

fn desc() -> String {
    "fraudulent clicks".to_string()
}

fn evidence() -> String {
    "QmHash123".to_string()
}

fn file(c: &mut DisputeResolutionContract, campaign: u64, amount: i128) -> u64 {
    c.file_dispute(0, CLAIMANT, RESPONDENT, campaign, amount, desc(), evidence()).unwrap().0
}

fn filed_and_assigned(c: &mut DisputeResolutionContract, amount: i128) -> u64 {
    let id = file(c, 1, amount);
    c.authorize_arbitrator(ADMIN, ARBITRATOR).unwrap();
    c.assign_arbitrator(ADMIN, id, ARBITRATOR).unwrap();
    id
}

/// What `who` gains from a list of token movements.
fn net(moves: &[Transfer], who: Address) -> i128 {
    let mut total = 0;
    for m in moves {
        match *m {
            Transfer::Collect { from, amount, .. } if from == who => total -= amount,
            Transfer::Pay { to, amount, .. } if to == who => total += amount,
            _ => {},
        }
    }
    total
}

#[test]
fn dispute_resolution_test_initialize() {
    let mut c = DisputeResolutionContract::new();
    assert_eq!(c.initialize(ADMIN, TOKEN, FEE), Ok(()));
    assert_eq!(c.get_dispute_count(), 0);
}

#[test]
fn dispute_resolution_test_initialize_twice() {
    let mut c = setup();
    assert_eq!(c.initialize(ADMIN, TOKEN, FEE), Err(Error::AlreadyInitialized));
}

#[test]
fn test_authorize_arbitrator() {
    let mut c = setup();
    assert_eq!(c.authorize_arbitrator(ADMIN, ARBITRATOR), Ok(()));
}

#[test]
fn test_authorize_arbitrator_by_stranger() {
    let mut c = setup();
    assert_eq!(c.authorize_arbitrator(99, ARBITRATOR), Err(Error::Unauthorized));
}

#[test]
fn test_file_dispute() {
    let mut c = setup();
    let (id, collected) = c
        .file_dispute(5, CLAIMANT, RESPONDENT, 1, 50_000, desc(), evidence())
        .unwrap();
    assert_eq!(id, 1);
    assert_eq!(c.get_dispute_count(), 1);
    assert_eq!(
        collected,
        vec![
            Transfer::Collect { token: TOKEN, from: CLAIMANT, amount: FEE },
            Transfer::Collect { token: TOKEN, from: CLAIMANT, amount: 50_000 },
        ]
    );
    let d = c.get_dispute(id).unwrap();
    assert_eq!(d.claimant, CLAIMANT);
    assert_eq!(d.respondent, RESPONDENT);
    assert_eq!(d.claim_amount, 50_000);
    assert_eq!(d.filed_at, 5);
    assert!(matches!(d.status, DisputeStatus::Filed));
    assert!(matches!(d.outcome, DisputeOutcome::Pending));
    assert!(d.arbitrator.is_none());
    assert!(d.resolution_notes.is_empty());
}

#[test]
fn file_dispute_refuses_non_positive_claims() {
    let mut c = setup();
    for amount in [0i128, -5] {
        assert_eq!(
            c.file_dispute(0, CLAIMANT, RESPONDENT, 1, amount, desc(), evidence()).map(|r| r.0),
            Err(Error::InvalidClaimAmount)
        );
    }
    assert_eq!(c.get_dispute_count(), 0);
}

#[test]
fn file_dispute_without_fee_collects_only_the_claim() {
    let mut c = DisputeResolutionContract::new();
    c.initialize(ADMIN, TOKEN, 0).unwrap();
    let (_, collected) = c
        .file_dispute(0, CLAIMANT, RESPONDENT, 1, 7, desc(), evidence())
        .unwrap();
    assert_eq!(collected, vec![Transfer::Collect { token: TOKEN, from: CLAIMANT, amount: 7 }]);
}

#[test]
fn test_file_multiple_disputes() {
    let mut c = setup();
    let id1 = file(&mut c, 1, 10_000);
    let id2 = file(&mut c, 2, 20_000);
    assert_eq!(id1, 1);
    assert_eq!(id2, 2);
    assert_eq!(c.get_dispute_count(), 2);
}

#[test]
fn test_assign_arbitrator() {
    let mut c = setup();
    let id = filed_and_assigned(&mut c, 50_000);
    let d = c.get_dispute(id).unwrap();
    assert_eq!(d.arbitrator, Some(ARBITRATOR));
    assert!(matches!(d.status, DisputeStatus::UnderReview));
}

#[test]
fn test_assign_arbitrator_by_stranger() {
    let mut c = setup();
    let id = file(&mut c, 1, 50_000);
    c.authorize_arbitrator(ADMIN, ARBITRATOR).unwrap();
    assert_eq!(c.assign_arbitrator(77, id, ARBITRATOR), Err(Error::Unauthorized));
}

#[test]
fn test_assign_unauthorized_arbitrator() {
    let mut c = setup();
    let id = file(&mut c, 1, 50_000);
    assert_eq!(c.assign_arbitrator(ADMIN, id, ARBITRATOR), Err(Error::ArbitratorNotAuthorized));
}

#[test]
fn assign_to_unknown_dispute() {
    let mut c = setup();
    c.authorize_arbitrator(ADMIN, ARBITRATOR).unwrap();
    assert_eq!(c.assign_arbitrator(ADMIN, 5, ARBITRATOR), Err(Error::DisputeNotFound));
}

#[test]
fn dispute_resolution_test_resolve_dispute() {
    let mut c = setup();
    let id = filed_and_assigned(&mut c, 50_000);
    let s = c
        .resolve_dispute(1000, ARBITRATOR, id, DisputeOutcome::Claimant, "claimant wins".to_string())
        .unwrap();
    assert!(s.escrow.is_none());
    assert_eq!(
        s.payments,
        vec![
            Transfer::Pay { token: TOKEN, to: CLAIMANT, amount: 50_000 },
            Transfer::Pay { token: TOKEN, to: CLAIMANT, amount: FEE },
        ]
    );
    let d = c.get_dispute(id).unwrap();
    assert!(matches!(d.status, DisputeStatus::Resolved));
    assert_eq!(d.resolved_at, Some(1000));
    assert_eq!(d.resolution_notes, "claimant wins");
    assert_eq!(
        c.resolve_dispute(1001, ARBITRATOR, id, DisputeOutcome::Respondent, String::new()).map(|_| ()),
        Err(Error::AlreadyResolved)
    );
}

#[test]
fn test_resolve_dispute_no_action_refunds_filing_fee() {
    let mut c = setup();
    let (id, collected) = c
        .file_dispute(0, CLAIMANT, RESPONDENT, 1, 50_000, desc(), evidence())
        .unwrap();
    c.authorize_arbitrator(ADMIN, ARBITRATOR).unwrap();
    c.assign_arbitrator(ADMIN, id, ARBITRATOR).unwrap();
    let s = c
        .resolve_dispute(0, ARBITRATOR, id, DisputeOutcome::NoAction, "no action needed".to_string())
        .unwrap();
    let mut moves = collected.clone();
    moves.extend(s.payments.iter().copied());
    assert_eq!(net(&moves, CLAIMANT), -50_000);
    let d = c.get_dispute(id).unwrap();
    assert!(matches!(d.outcome, DisputeOutcome::NoAction));
    assert!(matches!(d.status, DisputeStatus::Resolved));
}

#[test]
fn resolve_split_rounds_claimant_half_down() {
    let mut c = setup();
    let id = filed_and_assigned(&mut c, 1001);
    let s = c.resolve_dispute(0, ARBITRATOR, id, DisputeOutcome::Split, String::new()).unwrap();
    assert_eq!(
        s.payments,
        vec![
            Transfer::Pay { token: TOKEN, to: CLAIMANT, amount: 500 },
            Transfer::Pay { token: TOKEN, to: RESPONDENT, amount: 501 },
            Transfer::Pay { token: TOKEN, to: CLAIMANT, amount: 500 },
            Transfer::Pay { token: TOKEN, to: RESPONDENT, amount: 500 },
        ]
    );
}

#[test]
fn resolve_through_linked_escrow() {
    let mut c = setup();
    let id = filed_and_assigned(&mut c, 40);
    // Linking needs an existing dispute.
    assert_eq!(c.link_dispute_escrow(ADMIN, 99, 7), Err(Error::DisputeNotFound));
    c.link_dispute_escrow(ADMIN, id, 7).unwrap();
    // Without an escrow contract the link is not used: the claim is paid
    // from this contract.
    let direct = file(&mut c, 2, 30);
    c.assign_arbitrator(ADMIN, direct, ARBITRATOR).unwrap();
    c.link_dispute_escrow(ADMIN, direct, 8).unwrap();
    let d = c.resolve_dispute(0, ARBITRATOR, direct, DisputeOutcome::Claimant, String::new()).unwrap();
    assert!(d.escrow.is_none());
    assert_eq!(
        d.payments,
        vec![
            Transfer::Pay { token: TOKEN, to: CLAIMANT, amount: 30 },
            Transfer::Pay { token: TOKEN, to: CLAIMANT, amount: FEE },
        ]
    );
    // With an escrow contract, a linked dispute settles through it.
    c.set_escrow_contract(ADMIN, 300).unwrap();
    let s = c.resolve_dispute(0, ARBITRATOR, id, DisputeOutcome::Respondent, String::new()).unwrap();
    assert_eq!(
        s.escrow,
        Some(EscrowSettlement {
            escrow_contract: 300,
            escrow_id: 7,
            claimant: CLAIMANT,
            respondent: RESPONDENT,
            claimant_amount: 0,
            respondent_amount: 40,
        })
    );
    assert_eq!(s.payments, vec![Transfer::Pay { token: TOKEN, to: RESPONDENT, amount: FEE }]);
}

#[test]
fn test_resolve_by_wrong_arbitrator() {
    let mut c = setup();
    let id = filed_and_assigned(&mut c, 50_000);
    assert_eq!(
        c.resolve_dispute(0, 66, id, DisputeOutcome::Respondent, "wrong".to_string()).map(|_| ()),
        Err(Error::NotAssignedArbitrator)
    );
    assert!(matches!(c.get_dispute(id).unwrap().status, DisputeStatus::UnderReview));
}

#[test]
fn resolve_unassigned_dispute() {
    let mut c = setup();
    let id = file(&mut c, 1, 10);
    assert_eq!(
        c.resolve_dispute(0, ARBITRATOR, id, DisputeOutcome::Claimant, String::new()).map(|_| ()),
        Err(Error::NotAssignedArbitrator)
    );
    assert_eq!(
        c.resolve_dispute(0, ARBITRATOR, 44, DisputeOutcome::Claimant, String::new()).map(|_| ()),
        Err(Error::DisputeNotFound)
    );
}

#[test]
fn test_get_dispute_nonexistent() {
    let c = setup();
    assert!(c.get_dispute(999).is_none());
}

#[test]
fn test_get_dispute_count_initial() {
    let c = setup();
    assert_eq!(c.get_dispute_count(), 0);
}

#[test]
fn resolved_dispute_stays_resolved_after_other_calls() {
    let mut c = setup();
    let id = filed_and_assigned(&mut c, 500);
    c.resolve_dispute(10, ARBITRATOR, id, DisputeOutcome::Split, "halves".to_string()).unwrap();
    // Other calls in between: new disputes, approvals, escrow settings.
    let other = file(&mut c, 3, 70);
    c.authorize_arbitrator(ADMIN, 13).unwrap();
    c.assign_arbitrator(ADMIN, other, 13).unwrap();
    c.set_escrow_contract(ADMIN, 300).unwrap();
    c.link_dispute_escrow(ADMIN, id, 9).unwrap();
    c.resolve_dispute(11, 13, other, DisputeOutcome::Claimant, String::new()).unwrap();
    c.propose_admin(ADMIN, 2).unwrap();
    c.accept_admin(2).unwrap();
    assert_eq!(
        c.resolve_dispute(20, ARBITRATOR, id, DisputeOutcome::Claimant, "again".to_string()).map(|_| ()),
        Err(Error::AlreadyResolved)
    );
    assert_eq!(
        c.resolve_dispute(20, 13, id, DisputeOutcome::Claimant, "again".to_string()).map(|_| ()),
        Err(Error::NotAssignedArbitrator)
    );
    let d = c.get_dispute(id).unwrap();
    assert!(matches!(d.status, DisputeStatus::Resolved));
    assert!(matches!(d.outcome, DisputeOutcome::Split));
    assert_eq!(d.resolution_notes, "halves");
    assert_eq!(d.resolved_at, Some(10));
}
