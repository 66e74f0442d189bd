use pulsartrack::error::Error;
use pulsartrack::governance_dao::{GovernanceDaoContract, ProposalStatus, VoteChoice};
use pulsartrack::types::Address;

const ADMIN: Address = 1;
const GOV_TOKEN: Address = 2;
const PROPOSER: Address = 10;
/// The balance that the governance token reports for accounts it was told
/// nothing about.
const DEFAULT_BALANCE: i128 = 1_000_000;

/// A DAO with a voting period of 100 ledgers, a quorum of 10% and a pass
/// threshold of `pass`%, gated by `proposer_min` tokens.
fn dao(pass: u32, proposer_min: i128) -> GovernanceDaoContract {
    let mut c = GovernanceDaoContract::new();
    c.initialize(ADMIN, GOV_TOKEN, 100, 1_000, pass, proposer_min).unwrap();
    c
}

fn setup() -> GovernanceDaoContract {
    dao(51, 0)
}

fn propose(c: &mut GovernanceDaoContract) -> u64 {
    c.create_proposal(
        0,
        0,
        PROPOSER,
        "Increase treasury allocation".to_string(),
        "Proposal to increase budget by 10%".to_string(),
        None,
        DEFAULT_BALANCE,
    )
    .unwrap()
}

fn propose_with_balance(c: &mut GovernanceDaoContract, balance: i128) -> Result<u64, Error> {
    c.create_proposal(
        0,
        0,
        PROPOSER,
        "Increase treasury allocation".to_string(),
        "Proposal to increase budget by 10%".to_string(),
        None,
        balance,
    )
}

fn vote(c: &mut GovernanceDaoContract, seq: u32, voter: Address, id: u64, choice: VoteChoice, power: i128) -> Result<(), Error> {
    c.cast_vote(seq, 0, voter, id, choice, power, DEFAULT_BALANCE)
}

#[test]
fn governance_dao_test_initialize() {
    let mut c = GovernanceDaoContract::new();
    assert_eq!(c.initialize(ADMIN, GOV_TOKEN, 3600, 1000, 51, 100), Ok(()));
    assert_eq!(c.proposer_min_tokens(), 100);
    assert_eq!(c.governance_token(), Some(GOV_TOKEN));
}

#[test]
fn governance_dao_test_initialize_twice() {
    let mut c = GovernanceDaoContract::new();
    c.initialize(ADMIN, GOV_TOKEN, 3600, 1000, 51, 100).unwrap();
    assert_eq!(c.initialize(ADMIN, GOV_TOKEN, 3600, 1000, 51, 100), Err(Error::AlreadyInitialized));
}

#[test]
fn test_create_proposal() {
    let mut c = setup();
    let id = propose(&mut c);
    assert_eq!(id, 1);
    assert_eq!(c.get_proposal_count(), 1);
    let p = c.get_proposal(id).unwrap();
    assert_eq!(p.proposer, PROPOSER);
    assert!(matches!(p.status, ProposalStatus::Active));
    assert_eq!(p.votes_for, 0);
    assert_eq!(p.votes_against, 0);
    assert_eq!(p.votes_abstain, 0);
    assert_eq!(p.start_ledger, 0);
    assert_eq!(p.end_ledger, 100);
}

#[test]
fn test_create_multiple_proposals() {
    let mut c = setup();
    propose(&mut c);
    propose(&mut c);
    assert_eq!(c.get_proposal_count(), 2);
}

#[test]
fn test_cast_vote_for() {
    let mut c = setup();
    let id = propose(&mut c);
    vote(&mut c, 0, 20, id, VoteChoice::For, 1_000).unwrap();
    let p = c.get_proposal(id).unwrap();
    assert_eq!(p.votes_for, 1_000);
    assert_eq!(p.votes_against, 0);
    assert_eq!(p.votes_abstain, 0);
    assert!(c.has_voted(id, 20));
    let v = c.get_vote(id, 20).unwrap();
    assert_eq!(v.power, 1_000);
    assert_eq!(v.choice, VoteChoice::For);
}

#[test]
fn test_cast_vote_against() {
    let mut c = setup();
    let id = propose(&mut c);
    vote(&mut c, 0, 20, id, VoteChoice::Against, 500).unwrap();
    let p = c.get_proposal(id).unwrap();
    assert_eq!(p.votes_against, 500);
    assert_eq!(p.votes_for, 0);
}

#[test]
fn test_cast_vote_abstain() {
    let mut c = setup();
    let id = propose(&mut c);
    vote(&mut c, 0, 20, id, VoteChoice::Abstain, 200).unwrap();
    assert_eq!(c.get_proposal(id).unwrap().votes_abstain, 200);
}

#[test]
fn test_vote_tally_accumulates() {
    let mut c = setup();
    let id = propose(&mut c);
    vote(&mut c, 0, 21, id, VoteChoice::For, 300).unwrap();
    vote(&mut c, 0, 22, id, VoteChoice::For, 200).unwrap();
    vote(&mut c, 0, 23, id, VoteChoice::Against, 100).unwrap();
    let p = c.get_proposal(id).unwrap();
    assert_eq!(p.votes_for, 500);
    assert_eq!(p.votes_against, 100);
}

#[test]
fn test_double_vote_rejected() {
    let mut c = setup();
    let id = propose(&mut c);
    vote(&mut c, 0, 20, id, VoteChoice::For, 1_000).unwrap();
    assert_eq!(vote(&mut c, 0, 20, id, VoteChoice::Against, 1_000), Err(Error::AlreadyVoted));
    assert_eq!(c.get_proposal(id).unwrap().votes_against, 0);
}

#[test]
fn test_vote_zero_power_rejected() {
    let mut c = setup();
    let id = propose(&mut c);
    assert_eq!(vote(&mut c, 0, 20, id, VoteChoice::For, 0), Err(Error::InvalidVotingPower));
}

#[test]
fn vote_beyond_balance_rejected() {
    let mut c = setup();
    let id = propose(&mut c);
    assert_eq!(
        c.cast_vote(0, 0, 20, id, VoteChoice::For, 501, 500),
        Err(Error::InsufficientGovernanceTokens)
    );
    assert_eq!(c.cast_vote(0, 0, 20, id, VoteChoice::For, 500, 500), Ok(()));
}

#[test]
fn test_vote_after_period_ends() {
    let mut c = setup();
    let id = propose(&mut c);
    assert_eq!(vote(&mut c, 200, 20, id, VoteChoice::For, 1_000), Err(Error::VotingPeriodEnded));
    // The last ledger of the period still accepts votes.
    assert_eq!(vote(&mut c, 100, 20, id, VoteChoice::For, 1_000), Ok(()));
}

#[test]
fn test_vote_on_cancelled_proposal() {
    let mut c = setup();
    let id = propose(&mut c);
    c.cancel_proposal(PROPOSER, id).unwrap();
    assert_eq!(vote(&mut c, 0, 20, id, VoteChoice::For, 1_000), Err(Error::ProposalNotActive));
}

#[test]
fn test_finalize_proposal_passed() {
    // total supply 1_000 with a 10% quorum: 100 votes are needed.
    let mut c = setup();
    let id = propose(&mut c);
    vote(&mut c, 0, 20, id, VoteChoice::For, 200).unwrap();
    assert_eq!(c.check_finalizable(200, id), Ok(()));
    assert_eq!(c.finalize_proposal(200, id, 1_000), Ok(ProposalStatus::Passed));
    assert!(matches!(c.get_proposal(id).unwrap().status, ProposalStatus::Passed));
}

#[test]
fn test_finalize_proposal_rejected_no_quorum() {
    let mut c = setup();
    let id = propose(&mut c);
    vote(&mut c, 0, 20, id, VoteChoice::For, 50).unwrap();
    assert_eq!(c.finalize_proposal(200, id, 10_000), Ok(ProposalStatus::Rejected));
    assert!(matches!(c.get_proposal(id).unwrap().status, ProposalStatus::Rejected));
}

#[test]
fn test_finalize_proposal_rejected_not_enough_for_votes() {
    let mut c = dao(60, 0);
    let id = propose(&mut c);
    vote(&mut c, 0, 20, id, VoteChoice::For, 400).unwrap();
    vote(&mut c, 0, 21, id, VoteChoice::Against, 600).unwrap();
    assert_eq!(c.finalize_proposal(200, id, 1_000), Ok(ProposalStatus::Rejected));
    assert!(matches!(c.get_proposal(id).unwrap().status, ProposalStatus::Rejected));
}

#[test]
fn finalize_at_exact_threshold_passes() {
    let mut c = dao(60, 0);
    let id = propose(&mut c);
    vote(&mut c, 0, 20, id, VoteChoice::For, 600).unwrap();
    vote(&mut c, 0, 21, id, VoteChoice::Against, 400).unwrap();
    // Abstentions count for nothing.
    vote(&mut c, 0, 22, id, VoteChoice::Abstain, 5_000).unwrap();
    assert_eq!(c.finalize_proposal(101, id, 10_000), Ok(ProposalStatus::Passed));
}

#[test]
fn test_finalize_still_active() {
    let mut c = setup();
    let id = propose(&mut c);
    assert_eq!(c.check_finalizable(0, id), Err(Error::VotingPeriodNotEnded));
    assert_eq!(c.finalize_proposal(0, id, 1_000), Err(Error::VotingPeriodNotEnded));
    assert_eq!(c.finalize_proposal(100, id, 1_000), Err(Error::VotingPeriodNotEnded));
    assert_eq!(c.finalize_proposal(200, 9, 1_000), Err(Error::ProposalNotFound));
}

fn passed_proposal(c: &mut GovernanceDaoContract) -> u64 {
    let id = propose(c);
    vote(c, 0, 20, id, VoteChoice::For, 200).unwrap();
    c.finalize_proposal(200, id, 1_000).unwrap();
    id
}

#[test]
fn test_execute_proposal() {
    let mut c = setup();
    let id = passed_proposal(&mut c);
    assert!(matches!(c.get_proposal(id).unwrap().status, ProposalStatus::Passed));
    assert_eq!(c.execute_proposal(77, ADMIN, id), Ok(()));
    let p = c.get_proposal(id).unwrap();
    assert!(matches!(p.status, ProposalStatus::Executed));
    assert_eq!(p.executed_at, Some(77));
}

#[test]
fn test_execute_active_proposal_fails() {
    let mut c = setup();
    let id = propose(&mut c);
    assert_eq!(c.execute_proposal(0, ADMIN, id), Err(Error::ProposalNotPassed));
}

#[test]
fn test_execute_proposal_twice_rejected() {
    let mut c = setup();
    let id = passed_proposal(&mut c);
    c.execute_proposal(0, ADMIN, id).unwrap();
    assert!(matches!(c.get_proposal(id).unwrap().status, ProposalStatus::Executed));
    assert_eq!(c.execute_proposal(0, ADMIN, id), Err(Error::ProposalNotPassed));
}

#[test]
fn test_execute_proposal_by_stranger_fails() {
    let mut c = setup();
    let id = passed_proposal(&mut c);
    assert_eq!(c.execute_proposal(0, 66, id), Err(Error::Unauthorized));
}

#[test]
fn test_cancel_proposal_by_proposer() {
    let mut c = setup();
    let id = propose(&mut c);
    c.cancel_proposal(PROPOSER, id).unwrap();
    assert!(matches!(c.get_proposal(id).unwrap().status, ProposalStatus::Cancelled));
}

#[test]
fn test_cancel_proposal_by_admin() {
    let mut c = setup();
    let id = propose(&mut c);
    c.cancel_proposal(ADMIN, id).unwrap();
    assert!(matches!(c.get_proposal(id).unwrap().status, ProposalStatus::Cancelled));
}

#[test]
fn test_cancel_proposal_by_stranger_fails() {
    let mut c = setup();
    let id = propose(&mut c);
    assert_eq!(c.cancel_proposal(66, id), Err(Error::Unauthorized));
    assert_eq!(c.cancel_proposal(ADMIN, 66), Err(Error::ProposalNotFound));
}

#[test]
fn test_has_voted_false_before_vote() {
    let mut c = setup();
    let id = propose(&mut c);
    assert!(!c.has_voted(id, 20));
}

#[test]
fn test_get_vote_none_before_voting() {
    let mut c = setup();
    let id = propose(&mut c);
    assert!(c.get_vote(id, 20).is_none());
}

#[test]
fn test_get_proposal_nonexistent_returns_none() {
    let c = setup();
    assert!(c.get_proposal(999).is_none());
}

#[test]
fn test_get_proposal_count_initial_zero() {
    let c = setup();
    assert_eq!(c.get_proposal_count(), 0);
}

#[test]
fn test_create_proposal_with_sufficient_tokens() {
    let mut c = dao(51, 100);
    let id = propose_with_balance(&mut c, 500).unwrap();
    assert_eq!(id, 1);
    assert_eq!(c.get_proposal(id).unwrap().proposer, PROPOSER);
}

#[test]
fn test_create_proposal_insufficient_tokens() {
    let mut c = dao(51, 100);
    assert_eq!(propose_with_balance(&mut c, 50), Err(Error::InsufficientProposerTokens));
}

#[test]
fn test_create_proposal_zero_balance_rejected() {
    let mut c = dao(51, 100);
    assert_eq!(propose_with_balance(&mut c, 0), Err(Error::InsufficientProposerTokens));
}

#[test]
fn test_create_proposal_zero_min_allows_anyone() {
    let mut c = dao(51, 0);
    assert_eq!(propose_with_balance(&mut c, 0), Ok(1));
}

#[test]
fn test_create_proposal_exact_minimum_accepted() {
    let mut c = dao(51, 250);
    assert_eq!(propose_with_balance(&mut c, 250), Ok(1));
}

#[test]
fn governance_dao_admin_handover() {
    let mut c = setup();
    let id = passed_proposal(&mut c);
    c.propose_admin(ADMIN, 3).unwrap();
    c.accept_admin(3).unwrap();
    assert_eq!(c.execute_proposal(0, ADMIN, id), Err(Error::Unauthorized));
    assert_eq!(c.execute_proposal(0, 3, id), Ok(()));
}

#[test]
fn finalized_proposal_is_settled() {
    let mut c = setup();
    let id = passed_proposal(&mut c);
    assert_eq!(c.finalize_proposal(300, id, 1_000), Err(Error::ProposalNotActive));
    assert_eq!(c.check_finalizable(300, id), Err(Error::ProposalNotActive));
    assert_eq!(vote(&mut c, 50, 30, id, VoteChoice::Against, 10), Err(Error::ProposalNotActive));
}
