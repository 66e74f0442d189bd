//! Governance DAO: holders of the governance token create proposals and vote
//! on them; after the voting period a proposal passes when the votes cast meet
//! the quorum and the share of votes in favour meets the pass threshold.
use vstd::prelude::*;
use vstd::hash_map::HashMapWithView;
use crate::types::{Address, pair_key, make_pair_key, div_trunc};
use crate::error::Error;
use crate::admin::AdminRole;

verus! {

broadcast use vstd::std_specs::hash::group_hash_axioms;

/// Voting period, in ledgers, until initialization sets one.
pub const DEFAULT_VOTING_PERIOD: u32 = 1_000;
/// Percentage of votes in favour needed to pass, until initialization sets one.
pub const DEFAULT_PASS_THRESHOLD: u32 = 51;

#[derive(Clone, Copy, Debug, PartialEq, Eq, Structural)]
pub enum ProposalStatus {
    Active,
    Passed,
    Rejected,
    Executed,
    Cancelled,
    Expired,
}

#[derive(Clone, Copy, Debug, PartialEq, Eq, Structural)]
pub enum VoteChoice {
    For,
    Against,
    Abstain,
}

#[derive(Clone, Debug)]
pub struct Proposal {
    pub proposer: Address,
    pub title: String,
    pub description: String,
    pub target_contract: Option<Address>,
    pub status: ProposalStatus,
    pub votes_for: i128,
    pub votes_against: i128,
    pub votes_abstain: i128,
    /// Quorum in basis points of the total supply.
    pub quorum_bps: u32,
    /// Percentage of votes in favour needed to pass.
    pub threshold_pct: u32,
    pub start_ledger: u32,
    pub end_ledger: u32,
    pub created_at: u64,
    pub executed_at: Option<u64>,
}

#[derive(Clone, Copy, Debug, PartialEq, Eq)]
pub struct Vote {
    pub choice: VoteChoice,
    pub power: i128,
    pub voted_at: u64,
}

/// The DAO's storage as mathematical values. Votes are keyed by
/// `pair_key(proposal_id, voter)`.
#[verifier::ext_equal]
pub struct DaoState {
    pub roles: AdminRole,
    pub governance_token: Option<Address>,
    pub proposal_counter: u64,
    pub voting_period: u32,
    pub quorum_bps: u32,
    pub pass_threshold: u32,
    pub proposer_min_tokens: i128,
    pub proposals: Map<u64, Proposal>,
    pub votes: Map<u128, Vote>,
    pub has_voted: Map<u128, bool>,
}

pub struct GovernanceDaoContract {
    roles: AdminRole,
    governance_token: Option<Address>,
    proposal_counter: u64,
    voting_period: u32,
    quorum_bps: u32,
    pass_threshold: u32,
    proposer_min_tokens: i128,
    proposals: HashMapWithView<u64, Proposal>,
    votes: HashMapWithView<u128, Vote>,
    has_voted: HashMapWithView<u128, bool>,
}

impl View for GovernanceDaoContract {
    type V = DaoState;

    closed spec fn view(&self) -> DaoState {
        DaoState {
            roles: self.roles,
            governance_token: self.governance_token,
            proposal_counter: self.proposal_counter,
            voting_period: self.voting_period,
            quorum_bps: self.quorum_bps,
            pass_threshold: self.pass_threshold,
            proposer_min_tokens: self.proposer_min_tokens,
            proposals: self.proposals@,
            votes: self.votes@,
            has_voted: self.has_voted@,
        }
    }
}

/// Whether `x` fits an `i128`.
pub open spec fn fits(x: int) -> bool {
    i128::MIN <= x <= i128::MAX
}

/// Whether the votes cast for and against reach the quorum of the total supply.
pub open spec fn quorum_met(p: Proposal, total_supply: i128) -> bool {
    (p.votes_for + p.votes_against) * 10_000 >= total_supply * p.quorum_bps
}

/// The percentage of votes cast in favour, rounded toward zero; 0 when no
/// votes were cast for or against.
pub open spec fn for_pct(p: Proposal) -> int {
    if p.votes_for + p.votes_against > 0 {
        div_trunc(p.votes_for * 100, p.votes_for + p.votes_against)
    } else {
        0
    }
}

/// The status a proposal takes when finalized.
pub open spec fn final_status(p: Proposal, total_supply: i128) -> ProposalStatus {
    if quorum_met(p, total_supply) && (for_pct(p) as u32) >= p.threshold_pct {
        ProposalStatus::Passed
    } else {
        ProposalStatus::Rejected
    }
}

/// The proposal with `power` more votes for `choice`.
pub open spec fn tallied(p: Proposal, choice: VoteChoice, power: i128) -> Proposal {
    match choice {
        VoteChoice::For => Proposal { votes_for: (p.votes_for + power) as i128, ..p },
        VoteChoice::Against => Proposal { votes_against: (p.votes_against + power) as i128, ..p },
        VoteChoice::Abstain => Proposal { votes_abstain: (p.votes_abstain + power) as i128, ..p },
    }
}

/// The tally of `choice` in `p`.
pub open spec fn tally_of(p: Proposal, choice: VoteChoice) -> i128 {
    match choice {
        VoteChoice::For => p.votes_for,
        VoteChoice::Against => p.votes_against,
        VoteChoice::Abstain => p.votes_abstain,
    }
}

impl DaoState {
    pub open spec fn create_check(self, ledger_seq: u32, proposer_balance: i128) -> Option<Error> {
        if self.proposer_min_tokens > 0 && self.governance_token is None {
            Some(Error::NotInitialized)
        } else if self.proposer_min_tokens > 0 && proposer_balance < self.proposer_min_tokens {
            Some(Error::InsufficientProposerTokens)
        } else if self.proposal_counter == u64::MAX {
            Some(Error::Overflow)
        } else if ledger_seq + self.voting_period > u32::MAX {
            Some(Error::Overflow)
        } else {
            None
        }
    }

    pub open spec fn vote_check(
        self,
        ledger_seq: u32,
        voter: Address,
        proposal_id: u64,
        choice: VoteChoice,
        power: i128,
        voter_balance: i128,
    ) -> Option<Error> {
        if self.has_voted.contains_key(pair_key(proposal_id, voter)) {
            Some(Error::AlreadyVoted)
        } else if self.governance_token is None {
            Some(Error::NotInitialized)
        } else if power > voter_balance {
            Some(Error::InsufficientGovernanceTokens)
        } else if !self.proposals.contains_key(proposal_id) {
            Some(Error::ProposalNotFound)
        } else if self.proposals[proposal_id].status != ProposalStatus::Active {
            Some(Error::ProposalNotActive)
        } else if ledger_seq > self.proposals[proposal_id].end_ledger {
            Some(Error::VotingPeriodEnded)
        } else if power <= 0 {
            Some(Error::InvalidVotingPower)
        } else if !fits(tally_of(self.proposals[proposal_id], choice) + power) {
            Some(Error::Overflow)
        } else {
            None
        }
    }

    /// The DAO after `voter` cast `power` votes for `choice` on a proposal.
    pub open spec fn voted(
        self,
        now: u64,
        voter: Address,
        proposal_id: u64,
        choice: VoteChoice,
        power: i128,
    ) -> DaoState {
        DaoState {
            proposals: self.proposals.insert(
                proposal_id,
                tallied(self.proposals[proposal_id], choice, power),
            ),
            votes: self.votes.insert(
                pair_key(proposal_id, voter),
                Vote { choice, power, voted_at: now },
            ),
            has_voted: self.has_voted.insert(pair_key(proposal_id, voter), true),
            ..self
        }
    }

    /// Why a proposal cannot be finalized at `ledger_seq`, if it cannot.
    pub open spec fn finalize_precheck(self, ledger_seq: u32, proposal_id: u64) -> Option<Error> {
        if !self.proposals.contains_key(proposal_id) {
            Some(Error::ProposalNotFound)
        } else if self.proposals[proposal_id].status != ProposalStatus::Active {
            Some(Error::ProposalNotActive)
        } else if ledger_seq <= self.proposals[proposal_id].end_ledger {
            Some(Error::VotingPeriodNotEnded)
        } else if self.governance_token is None {
            Some(Error::NotInitialized)
        } else {
            None
        }
    }

    pub open spec fn finalize_check(self, ledger_seq: u32, proposal_id: u64, total_supply: i128) -> Option<Error> {
        if self.finalize_precheck(ledger_seq, proposal_id) is Some {
            self.finalize_precheck(ledger_seq, proposal_id)
        } else {
            let p = self.proposals[proposal_id];
            if !fits(p.votes_for + p.votes_against) || !fits(
                (p.votes_for + p.votes_against) * 10_000,
            ) || !fits(total_supply * p.quorum_bps) || (p.votes_for + p.votes_against > 0
                && !fits(p.votes_for * 100)) {
                Some(Error::Overflow)
            } else {
                None
            }
        }
    }

    pub open spec fn execute_check(self, admin: Address, proposal_id: u64) -> Option<Error> {
        if self.roles.admin_check(admin) is Some {
            self.roles.admin_check(admin)
        } else if !self.proposals.contains_key(proposal_id) {
            Some(Error::ProposalNotFound)
        } else if self.proposals[proposal_id].status != ProposalStatus::Passed {
            Some(Error::ProposalNotPassed)
        } else {
            None
        }
    }

    pub open spec fn cancel_check(self, caller: Address, proposal_id: u64) -> Option<Error> {
        if self.roles.admin is None {
            Some(Error::NotInitialized)
        } else if !self.proposals.contains_key(proposal_id) {
            Some(Error::ProposalNotFound)
        } else if caller != self.proposals[proposal_id].proposer && Some(caller)
            != self.roles.admin {
            Some(Error::Unauthorized)
        } else {
            None
        }
    }

    pub open spec fn with_proposal_status(self, proposal_id: u64, status: ProposalStatus) -> DaoState {
        DaoState {
            proposals: self.proposals.insert(
                proposal_id,
                Proposal { status, ..self.proposals[proposal_id] },
            ),
            ..self
        }
    }
}

impl GovernanceDaoContract {
    /// A DAO that has not been initialized.
    pub fn new() -> (c: GovernanceDaoContract)
        ensures
            c@.roles.admin is None,
            c@.roles.pending_admin is None,
            c@.governance_token is None,
            c@.proposal_counter == 0,
            c@.voting_period == DEFAULT_VOTING_PERIOD,
            c@.quorum_bps == 0,
            c@.pass_threshold == DEFAULT_PASS_THRESHOLD,
            c@.proposer_min_tokens == 0,
            c@.proposals.is_empty(),
            c@.votes.is_empty(),
            c@.has_voted.is_empty(),
    {
        GovernanceDaoContract {
            roles: AdminRole::new(),
            governance_token: None,
            proposal_counter: 0,
            voting_period: DEFAULT_VOTING_PERIOD,
            quorum_bps: 0,
            pass_threshold: DEFAULT_PASS_THRESHOLD,
            proposer_min_tokens: 0,
            proposals: HashMapWithView::new(),
            votes: HashMapWithView::new(),
            has_voted: HashMapWithView::new(),
        }
    }

    /// Makes `admin` the administrator and sets the governance token, the
    /// voting period (in ledgers), the quorum (basis points of total supply),
    /// the pass threshold (percent) and the balance a proposer must hold.
    pub fn initialize(
        &mut self,
        admin: Address,
        governance_token: Address,
        voting_period: u32,
        quorum_bps: u32,
        pass_threshold: u32,
        proposer_min: i128,
    ) -> (r: Result<(), Error>)
        ensures
            r == (if old(self)@.roles.admin is Some {
                Err::<(), Error>(Error::AlreadyInitialized)
            } else {
                Ok(())
            }),
            final(self)@ == (if r is Ok {
                DaoState {
                    roles: AdminRole { admin: Some(admin), ..old(self)@.roles },
                    governance_token: Some(governance_token),
                    proposal_counter: 0,
                    voting_period,
                    quorum_bps,
                    pass_threshold,
                    proposer_min_tokens: proposer_min,
                    ..old(self)@
                }
            } else {
                old(self)@
            }),
    {
        if self.roles.admin.is_some() {
            return Err(Error::AlreadyInitialized);
        }
        self.roles.admin = Some(admin);
        self.governance_token = Some(governance_token);
        self.proposal_counter = 0;
        self.voting_period = voting_period;
        self.quorum_bps = quorum_bps;
        self.pass_threshold = pass_threshold;
        self.proposer_min_tokens = proposer_min;
        Ok(())
    }

    /// The balance a proposer must hold to create a proposal; when it is not
    /// positive, proposers' balances are not consulted.
    pub fn proposer_min_tokens(&self) -> (r: i128)
        ensures
            r == self@.proposer_min_tokens,
    {
        self.proposer_min_tokens
    }

    /// The governance token whose balances and supply the DAO consults.
    pub fn governance_token(&self) -> (r: Option<Address>)
        ensures
            r == self@.governance_token,
    {
        self.governance_token
    }

    /// Creates a proposal of `proposer`, whose governance-token balance is
    /// `proposer_balance` (consulted only when a minimum is set). It is active
    /// from `ledger_seq` for the voting period, with the DAO's current quorum
    /// and threshold.
    pub fn create_proposal(
        &mut self,
        ledger_seq: u32,
        now: u64,
        proposer: Address,
        title: String,
        description: String,
        target_contract: Option<Address>,
        proposer_balance: i128,
    ) -> (r: Result<u64, Error>)
        ensures
            r == (match old(self)@.create_check(ledger_seq, proposer_balance) {
                Some(e) => Err(e),
                None => Ok((old(self)@.proposal_counter + 1) as u64),
            }),
            final(self)@ == (match r {
                Ok(id) => DaoState {
                    proposal_counter: id,
                    proposals: old(self)@.proposals.insert(
                        id,
                        Proposal {
                            proposer,
                            title,
                            description,
                            target_contract,
                            status: ProposalStatus::Active,
                            votes_for: 0,
                            votes_against: 0,
                            votes_abstain: 0,
                            quorum_bps: old(self)@.quorum_bps,
                            threshold_pct: old(self)@.pass_threshold,
                            start_ledger: ledger_seq,
                            end_ledger: (ledger_seq + old(self)@.voting_period) as u32,
                            created_at: now,
                            executed_at: None,
                        },
                    ),
                    ..old(self)@
                },
                Err(_) => old(self)@,
            }),
    {
        if self.proposer_min_tokens > 0 {
            if self.governance_token.is_none() {
                return Err(Error::NotInitialized);
            }
            if proposer_balance < self.proposer_min_tokens {
                return Err(Error::InsufficientProposerTokens);
            }
        }
        let proposal_id = match self.proposal_counter.checked_add(1) {
            Some(v) => v,
            None => return Err(Error::Overflow),
        };
        let end_ledger = match ledger_seq.checked_add(self.voting_period) {
            Some(v) => v,
            None => return Err(Error::Overflow),
        };
        let proposal = Proposal {
            proposer,
            title,
            description,
            target_contract,
            status: ProposalStatus::Active,
            votes_for: 0,
            votes_against: 0,
            votes_abstain: 0,
            quorum_bps: self.quorum_bps,
            threshold_pct: self.pass_threshold,
            start_ledger: ledger_seq,
            end_ledger,
            created_at: now,
            executed_at: None,
        };
        self.proposals.insert(proposal_id, proposal);
        self.proposal_counter = proposal_id;
        Ok(proposal_id)
    }

    /// `voter`, holding `voter_balance` governance tokens, casts `power` votes
    /// for `choice` on an active proposal whose voting period has not ended.
    /// Each address votes once per proposal.
    pub fn cast_vote(
        &mut self,
        ledger_seq: u32,
        now: u64,
        voter: Address,
        proposal_id: u64,
        choice: VoteChoice,
        power: i128,
        voter_balance: i128,
    ) -> (r: Result<(), Error>)
        ensures
            r == (match old(self)@.vote_check(
                ledger_seq,
                voter,
                proposal_id,
                choice,
                power,
                voter_balance,
            ) {
                Some(e) => Err(e),
                None => Ok(()),
            }),
            final(self)@ == (if r is Ok {
                old(self)@.voted(now, voter, proposal_id, choice, power)
            } else {
                old(self)@
            }),
    {
        let key = make_pair_key(proposal_id, voter);
        if self.has_voted.contains_key(&key) {
            return Err(Error::AlreadyVoted);
        }
        if self.governance_token.is_none() {
            return Err(Error::NotInitialized);
        }
        if power > voter_balance {
            return Err(Error::InsufficientGovernanceTokens);
        }
        let mut proposal = match self.proposals.remove(&proposal_id) {
            Some(p) => p,
            None => return Err(Error::ProposalNotFound),
        };
        if proposal.status != ProposalStatus::Active {
            self.proposals.insert(proposal_id, proposal);
            return Err(Error::ProposalNotActive);
        }
        if ledger_seq > proposal.end_ledger {
            self.proposals.insert(proposal_id, proposal);
            return Err(Error::VotingPeriodEnded);
        }
        if power <= 0 {
            self.proposals.insert(proposal_id, proposal);
            return Err(Error::InvalidVotingPower);
        }
        let tally = match choice {
            VoteChoice::For => proposal.votes_for,
            VoteChoice::Against => proposal.votes_against,
            VoteChoice::Abstain => proposal.votes_abstain,
        };
        let new_tally = match tally.checked_add(power) {
            Some(v) => v,
            None => {
                self.proposals.insert(proposal_id, proposal);
                return Err(Error::Overflow);
            },
        };
        match choice {
            VoteChoice::For => proposal.votes_for = new_tally,
            VoteChoice::Against => proposal.votes_against = new_tally,
            VoteChoice::Abstain => proposal.votes_abstain = new_tally,
        }
        self.votes.insert(key, Vote { choice, power, voted_at: now });
        self.has_voted.insert(key, true);
        self.proposals.insert(proposal_id, proposal);
        Ok(())
    }

    /// Checks that a proposal can be finalized at `ledger_seq`, before the
    /// host asks the governance token for its total supply.
    pub fn check_finalizable(&self, ledger_seq: u32, proposal_id: u64) -> (r: Result<(), Error>)
        ensures
            r == (match self@.finalize_precheck(ledger_seq, proposal_id) {
                Some(e) => Err(e),
                None => Ok(()),
            }),
    {
        let p = match self.proposals.get(&proposal_id) {
            Some(p) => p,
            None => return Err(Error::ProposalNotFound),
        };
        if p.status != ProposalStatus::Active {
            return Err(Error::ProposalNotActive);
        }
        if ledger_seq <= p.end_ledger {
            return Err(Error::VotingPeriodNotEnded);
        }
        if self.governance_token.is_none() {
            return Err(Error::NotInitialized);
        }
        Ok(())
    }

    /// Ends the vote on a proposal after its voting period, given the
    /// governance token's `total_supply`: it passes when the votes for and
    /// against reach the quorum and the votes for reach the threshold
    /// percentage, and is rejected otherwise.
    pub fn finalize_proposal(&mut self, ledger_seq: u32, proposal_id: u64, total_supply: i128) -> (r: Result<ProposalStatus, Error>)
        ensures
            r == (match old(self)@.finalize_check(ledger_seq, proposal_id, total_supply) {
                Some(e) => Err(e),
                None => Ok(final_status(old(self)@.proposals[proposal_id], total_supply)),
            }),
            final(self)@ == (match r {
                Ok(status) => old(self)@.with_proposal_status(proposal_id, status),
                Err(_) => old(self)@,
            }),
            r == Ok::<ProposalStatus, Error>(ProposalStatus::Passed) ==> (old(self)@.proposals[proposal_id].votes_for
                + old(self)@.proposals[proposal_id].votes_against) * 10_000 >= total_supply
                * old(self)@.proposals[proposal_id].quorum_bps,
    {
        self.check_finalizable(ledger_seq, proposal_id)?;
        let mut proposal = match self.proposals.remove(&proposal_id) {
            Some(p) => p,
            None => return Err(Error::ProposalNotFound),
        };
        let total_votes = match proposal.votes_for.checked_add(proposal.votes_against) {
            Some(v) => v,
            None => {
                self.proposals.insert(proposal_id, proposal);
                return Err(Error::Overflow);
            },
        };
        let scaled_votes = match total_votes.checked_mul(10_000) {
            Some(v) => v,
            None => {
                self.proposals.insert(proposal_id, proposal);
                return Err(Error::Overflow);
            },
        };
        let needed = match total_supply.checked_mul(proposal.quorum_bps as i128) {
            Some(v) => v,
            None => {
                self.proposals.insert(proposal_id, proposal);
                return Err(Error::Overflow);
            },
        };
        let quorum = scaled_votes >= needed;
        let pct: i128 = if total_votes > 0 {
            match proposal.votes_for.checked_mul(100) {
                Some(v) => v / total_votes,
                None => {
                    self.proposals.insert(proposal_id, proposal);
                    return Err(Error::Overflow);
                },
            }
        } else {
            0
        };
        let status = if quorum && pct as u32 >= proposal.threshold_pct {
            ProposalStatus::Passed
        } else {
            ProposalStatus::Rejected
        };
        proposal.status = status;
        self.proposals.insert(proposal_id, proposal);
        Ok(status)
    }

    /// The administrator marks a passed proposal as executed at `now`.
    pub fn execute_proposal(&mut self, now: u64, admin: Address, proposal_id: u64) -> (r: Result<(), Error>)
        ensures
            r == (match old(self)@.execute_check(admin, proposal_id) {
                Some(e) => Err(e),
                None => Ok(()),
            }),
            final(self)@ == (if r is Ok {
                DaoState {
                    proposals: old(self)@.proposals.insert(
                        proposal_id,
                        Proposal {
                            status: ProposalStatus::Executed,
                            executed_at: Some(now),
                            ..old(self)@.proposals[proposal_id]
                        },
                    ),
                    ..old(self)@
                }
            } else {
                old(self)@
            }),
    {
        self.roles.require_admin(admin)?;
        let mut proposal = match self.proposals.remove(&proposal_id) {
            Some(p) => p,
            None => return Err(Error::ProposalNotFound),
        };
        if proposal.status != ProposalStatus::Passed {
            self.proposals.insert(proposal_id, proposal);
            return Err(Error::ProposalNotPassed);
        }
        proposal.status = ProposalStatus::Executed;
        proposal.executed_at = Some(now);
        self.proposals.insert(proposal_id, proposal);
        Ok(())
    }

    /// The proposer or the administrator cancels a proposal.
    pub fn cancel_proposal(&mut self, caller: Address, proposal_id: u64) -> (r: Result<(), Error>)
        ensures
            r == (match old(self)@.cancel_check(caller, proposal_id) {
                Some(e) => Err(e),
                None => Ok(()),
            }),
            final(self)@ == (if r is Ok {
                old(self)@.with_proposal_status(proposal_id, ProposalStatus::Cancelled)
            } else {
                old(self)@
            }),
    {
        let admin = match self.roles.admin {
            Some(a) => a,
            None => return Err(Error::NotInitialized),
        };
        let mut proposal = match self.proposals.remove(&proposal_id) {
            Some(p) => p,
            None => return Err(Error::ProposalNotFound),
        };
        if caller != proposal.proposer && caller != admin {
            self.proposals.insert(proposal_id, proposal);
            return Err(Error::Unauthorized);
        }
        proposal.status = ProposalStatus::Cancelled;
        self.proposals.insert(proposal_id, proposal);
        Ok(())
    }

    pub fn get_proposal(&self, proposal_id: u64) -> (r: Option<&Proposal>)
        ensures
            r == (if self@.proposals.contains_key(proposal_id) {
                Some(&self@.proposals[proposal_id])
            } else {
                None
            }),
    {
        self.proposals.get(&proposal_id)
    }

    pub fn get_vote(&self, proposal_id: u64, voter: Address) -> (r: Option<Vote>)
        ensures
            r == (if self@.votes.contains_key(pair_key(proposal_id, voter)) {
                Some(self@.votes[pair_key(proposal_id, voter)])
            } else {
                None
            }),
    {
        match self.votes.get(&make_pair_key(proposal_id, voter)) {
            Some(v) => Some(*v),
            None => None,
        }
    }

    pub fn has_voted(&self, proposal_id: u64, voter: Address) -> (r: bool)
        ensures
            r == (self@.has_voted.contains_key(pair_key(proposal_id, voter))
                && self@.has_voted[pair_key(proposal_id, voter)]),
    {
        match self.has_voted.get(&make_pair_key(proposal_id, voter)) {
            Some(b) => *b,
            None => false,
        }
    }

    /// The number of proposals created (the last identifier given).
    pub fn get_proposal_count(&self) -> (r: u64)
        ensures
            r == self@.proposal_counter,
    {
        self.proposal_counter
    }

    /// The administrator offers its role to `new_admin`.
    pub fn propose_admin(&mut self, current_admin: Address, new_admin: Address) -> (r: Result<(), Error>)
        ensures
            r == (match old(self)@.roles.propose_check(current_admin) {
                Some(e) => Err(e),
                None => Ok(()),
            }),
            final(self)@ == (if r is Ok {
                DaoState { roles: old(self)@.roles.proposed(new_admin), ..old(self)@ }
            } else {
                old(self)@
            }),
    {
        self.roles.propose_admin(current_admin, new_admin)
    }

    /// The offered successor takes the administrator role.
    pub fn accept_admin(&mut self, new_admin: Address) -> (r: Result<(), Error>)
        ensures
            r == (match old(self)@.roles.accept_check(new_admin) {
                Some(e) => Err(e),
                None => Ok(()),
            }),
            final(self)@ == (if r is Ok {
                DaoState { roles: old(self)@.roles.accepted(new_admin), ..old(self)@ }
            } else {
                old(self)@
            }),
    {
        self.roles.accept_admin(new_admin)
    }
}

/// One vote per address and proposal: once `voter` has voted on a proposal,
/// any further vote of `voter` on it is refused as `AlreadyVoted`, whatever
/// its choice, power or balance.
pub proof fn law_single_vote(
    s: DaoState,
    ledger_seq: u32,
    now: u64,
    voter: Address,
    proposal_id: u64,
    choice: VoteChoice,
    power: i128,
    balance: i128,
    seq2: u32,
    choice2: VoteChoice,
    power2: i128,
    balance2: i128,
)
    requires
        s.vote_check(ledger_seq, voter, proposal_id, choice, power, balance) is None,
    ensures
        s.voted(now, voter, proposal_id, choice, power).vote_check(
            seq2,
            voter,
            proposal_id,
            choice2,
            power2,
            balance2,
        ) == Some(Error::AlreadyVoted),
{
}

/// A vote adds its power to the tally of its choice and leaves the other two
/// tallies unchanged; another voter's record is untouched.
pub proof fn law_vote_tally(
    s: DaoState,
    now: u64,
    voter: Address,
    other: Address,
    proposal_id: u64,
    choice: VoteChoice,
    power: i128,
    c: VoteChoice,
)
    requires
        s.proposals.contains_key(proposal_id),
        i128::MIN <= tally_of(s.proposals[proposal_id], choice) + power <= i128::MAX,
        other != voter,
    ensures
        ({
            let p = s.voted(now, voter, proposal_id, choice, power).proposals[proposal_id];
            tally_of(p, c) == tally_of(s.proposals[proposal_id], c) + (if c == choice {
                power as int
            } else {
                0
            })
        }),
        s.voted(now, voter, proposal_id, choice, power).has_voted.contains_key(
            pair_key(proposal_id, other),
        ) == s.has_voted.contains_key(pair_key(proposal_id, other)),
{
    crate::types::lemma_pair_key_injective(proposal_id, voter, proposal_id, other);
}

/// Only a passed proposal can be executed: execution of a proposal in any
/// other state is refused, so a proposal is executed at most once.
pub proof fn law_execute_only_passed(s: DaoState, admin: Address, proposal_id: u64)
    requires
        s.proposals.contains_key(proposal_id),
        s.proposals[proposal_id].status != ProposalStatus::Passed,
    ensures
        s.execute_check(admin, proposal_id) is Some,
{
}

/// Finalizing settles a proposal for good: once finalized (passed or
/// rejected), it cannot be finalized again and no vote on it is accepted.
pub proof fn law_finalize_once(
    s: DaoState,
    ledger_seq: u32,
    proposal_id: u64,
    total_supply: i128,
    seq2: u32,
    voter: Address,
    choice: VoteChoice,
    power: i128,
    balance: i128,
)
    requires
        s.finalize_check(ledger_seq, proposal_id, total_supply) is None,
    ensures
        ({
            let after = s.with_proposal_status(
                proposal_id,
                final_status(s.proposals[proposal_id], total_supply),
            );
            &&& after.finalize_precheck(seq2, proposal_id) == Some(Error::ProposalNotActive)
            &&& after.vote_check(seq2, voter, proposal_id, choice, power, balance) is Some
        }),
{
}

/// Finalizing follows the quorum and threshold rule on the votes cast for
/// and against, and on nothing else: a proposal passes exactly when the votes
/// for and against reach `quorum_bps` basis points of the total supply and
/// the votes for make at least `threshold_pct` percent of them (with no such
/// votes, only a zero threshold is met). Abstentions count toward neither, so
/// changing them never changes the outcome.
pub proof fn law_finalize_rule(p: Proposal, total_supply: i128, abstain: i128)
    requires
        p.votes_for >= 0,
        p.votes_against >= 0,
    ensures
        final_status(p, total_supply) == ProposalStatus::Passed || final_status(p, total_supply)
            == ProposalStatus::Rejected,
        final_status(p, total_supply) == ProposalStatus::Passed ==> (p.votes_for + p.votes_against)
            * 10_000 >= total_supply * p.quorum_bps,
        final_status(p, total_supply) == ProposalStatus::Passed <==> ({
            &&& (p.votes_for + p.votes_against) * 10_000 >= total_supply * p.quorum_bps
            &&& if p.votes_for + p.votes_against > 0 {
                p.votes_for * 100 >= p.threshold_pct * (p.votes_for + p.votes_against)
            } else {
                p.threshold_pct == 0
            }
        }),
        final_status(Proposal { votes_abstain: abstain, ..p }, total_supply) == final_status(
            p,
            total_supply,
        ),
{
    let t = p.votes_for + p.votes_against;
    let a = p.votes_for * 100;
    let th = p.threshold_pct as int;
    if t > 0 {
        let q = a / t;
        assert(for_pct(p) == q);
        assert(0 <= a <= t * 100) by (nonlinear_arith)
            requires
                a == p.votes_for * 100,
                t == p.votes_for + p.votes_against,
                p.votes_for >= 0,
                p.votes_against >= 0,
        ;
        vstd::arithmetic::div_mod::lemma_fundamental_div_mod(a, t);
        vstd::arithmetic::div_mod::lemma_mod_bound(a, t);
        assert(0 <= q <= 100) by (nonlinear_arith)
            requires
                a == t * q + a % t,
                0 <= a % t < t,
                0 <= a <= t * 100,
                t > 0,
        ;
        assert((q >= th) <==> (a >= th * t)) by (nonlinear_arith)
            requires
                a == t * q + a % t,
                0 <= a % t < t,
                t > 0,
        ;
    }
}

} // verus!
