//! Dispute resolution: a claimant files a dispute against a respondent and
//! locks the claimed amount plus a filing fee; an approved arbitrator decides
//! who receives the claim, and the fee follows the decision.
use vstd::prelude::*;
use vstd::hash_map::HashMapWithView;
use crate::types::{Address, Transfer, div_trunc};
use crate::error::Error;
use crate::admin::AdminRole;

verus! {

broadcast use vstd::std_specs::hash::group_hash_axioms;

#[derive(Clone, Copy, Debug, PartialEq, Eq, Structural)]
pub enum DisputeStatus {
    Filed,
    UnderReview,
    AwaitingEvidence,
    Deliberating,
    Resolved,
    Appealed,
    Closed,
}

#[derive(Clone, Copy, Debug, PartialEq, Eq, Structural)]
pub enum DisputeOutcome {
    Pending,
    Claimant,
    Respondent,
    Split,
    NoAction,
}

#[derive(Clone, Debug)]
pub struct Dispute {
    pub dispute_id: u64,
    pub claimant: Address,
    pub respondent: Address,
    pub campaign_id: u64,
    pub claim_amount: i128,
    pub token: Address,
    pub description: String,
    /// IPFS hash of the evidence.
    pub evidence_hash: String,
    pub status: DisputeStatus,
    pub outcome: DisputeOutcome,
    pub resolution_notes: String,
    pub filed_at: u64,
    pub resolved_at: Option<u64>,
    pub arbitrator: Option<Address>,
}

/// A settlement that the linked escrow contract carries out: the host calls
/// its `settle_dispute` with these values.
#[derive(Clone, Copy, Debug, PartialEq, Eq)]
pub struct EscrowSettlement {
    pub escrow_contract: Address,
    pub escrow_id: u64,
    pub claimant: Address,
    pub respondent: Address,
    pub claimant_amount: i128,
    pub respondent_amount: i128,
}

/// How a resolved dispute pays out: possibly through the linked escrow, and by
/// token payments from this contract, in order.
#[derive(Clone, Debug)]
pub struct Settlement {
    pub escrow: Option<EscrowSettlement>,
    pub payments: Vec<Transfer>,
}

/// The contract's storage as mathematical values.
#[verifier::ext_equal]
pub struct DisputeState {
    pub roles: AdminRole,
    pub token: Option<Address>,
    pub filing_fee: i128,
    pub dispute_counter: u64,
    pub escrow_contract: Option<Address>,
    pub disputes: Map<u64, Dispute>,
    pub dispute_escrow: Map<u64, u64>,
    pub arbitrators: Map<Address, bool>,
}

pub struct DisputeResolutionContract {
    roles: AdminRole,
    token: Option<Address>,
    filing_fee: i128,
    dispute_counter: u64,
    escrow_contract: Option<Address>,
    disputes: HashMapWithView<u64, Dispute>,
    dispute_escrow: HashMapWithView<u64, u64>,
    arbitrators: HashMapWithView<u64, bool>,
}

impl View for DisputeResolutionContract {
    type V = DisputeState;

    closed spec fn view(&self) -> DisputeState {
        DisputeState {
            roles: self.roles,
            token: self.token,
            filing_fee: self.filing_fee,
            dispute_counter: self.dispute_counter,
            escrow_contract: self.escrow_contract,
            disputes: self.disputes@,
            dispute_escrow: self.dispute_escrow@,
            arbitrators: self.arbitrators@,
        }
    }
}

/// The shares of the claim that go to the claimant and to the respondent: all
/// to the winner, half each (the claimant's half rounded toward zero) on a
/// split, nothing otherwise.
pub open spec fn claim_shares(outcome: DisputeOutcome, claim: i128) -> (int, int) {
    match outcome {
        DisputeOutcome::Claimant => (claim as int, 0),
        DisputeOutcome::Respondent => (0, claim as int),
        DisputeOutcome::Split => (div_trunc(claim as int, 2), claim - div_trunc(claim as int, 2)),
        _ => (0, 0),
    }
}

/// The shares of the filing fee returned to the claimant and the respondent.
/// Without action the claimant gets the fee back; a pending outcome returns
/// nothing.
pub open spec fn fee_shares(outcome: DisputeOutcome, fee: i128) -> (int, int) {
    match outcome {
        DisputeOutcome::Claimant => (fee as int, 0),
        DisputeOutcome::Respondent => (0, fee as int),
        DisputeOutcome::Split => (div_trunc(fee as int, 2), fee - div_trunc(fee as int, 2)),
        DisputeOutcome::NoAction => (fee as int, 0),
        DisputeOutcome::Pending => (0, 0),
    }
}

/// Payments of the positive amounts among `a` (to `x`) and `b` (to `y`).
pub open spec fn pay_positive(token: Address, x: Address, a: int, y: Address, b: int) -> Seq<Transfer> {
    (if a > 0 {
        seq![Transfer::Pay { token, to: x, amount: a as i128 }]
    } else {
        Seq::empty()
    }) + (if b > 0 {
        seq![Transfer::Pay { token, to: y, amount: b as i128 }]
    } else {
        Seq::empty()
    })
}

impl DisputeState {
    /// The contract after initialization by `admin`.
    pub open spec fn initialized(self, admin: Address, token: Address, filing_fee: i128) -> DisputeState {
        DisputeState {
            roles: AdminRole { admin: Some(admin), ..self.roles },
            token: Some(token),
            filing_fee,
            dispute_counter: 0,
            ..self
        }
    }

    /// The contract after `arbitrator` is approved.
    pub open spec fn authorized(self, arbitrator: Address) -> DisputeState {
        DisputeState { arbitrators: self.arbitrators.insert(arbitrator, true), ..self }
    }

    /// The contract after a dispute is filed as number `dispute_counter + 1`,
    /// with resolution notes `notes` (empty text when filed).
    pub open spec fn after_file(
        self,
        now: u64,
        claimant: Address,
        respondent: Address,
        campaign_id: u64,
        claim_amount: i128,
        description: String,
        evidence_hash: String,
        notes: String,
    ) -> DisputeState {
        let id = (self.dispute_counter + 1) as u64;
        DisputeState {
            dispute_counter: id,
            disputes: self.disputes.insert(
                id,
                Dispute {
                    dispute_id: id,
                    claimant,
                    respondent,
                    campaign_id,
                    claim_amount,
                    token: self.token.unwrap(),
                    description,
                    evidence_hash,
                    status: DisputeStatus::Filed,
                    outcome: DisputeOutcome::Pending,
                    resolution_notes: notes,
                    filed_at: now,
                    resolved_at: None,
                    arbitrator: None,
                },
            ),
            ..self
        }
    }

    /// The contract after `arbitrator` is assigned to dispute `dispute_id`.
    pub open spec fn after_assign(self, dispute_id: u64, arbitrator: Address) -> DisputeState {
        DisputeState {
            disputes: self.disputes.insert(
                dispute_id,
                Dispute {
                    arbitrator: Some(arbitrator),
                    status: DisputeStatus::UnderReview,
                    ..self.disputes[dispute_id]
                },
            ),
            ..self
        }
    }

    /// The contract after dispute `dispute_id` is resolved at `now`.
    pub open spec fn after_resolve(self, now: u64, dispute_id: u64, outcome: DisputeOutcome, notes: String) -> DisputeState {
        DisputeState {
            disputes: self.disputes.insert(
                dispute_id,
                Dispute {
                    outcome,
                    resolution_notes: notes,
                    status: DisputeStatus::Resolved,
                    resolved_at: Some(now),
                    ..self.disputes[dispute_id]
                },
            ),
            ..self
        }
    }

    /// The contract after the escrow contract is recorded.
    pub open spec fn with_escrow_contract(self, escrow_contract: Address) -> DisputeState {
        DisputeState { escrow_contract: Some(escrow_contract), ..self }
    }

    /// The contract after dispute `dispute_id` is linked to escrow `escrow_id`.
    pub open spec fn linked(self, dispute_id: u64, escrow_id: u64) -> DisputeState {
        DisputeState { dispute_escrow: self.dispute_escrow.insert(dispute_id, escrow_id), ..self }
    }

    /// The contract with its administrator roles replaced.
    pub open spec fn with_roles(self, roles: AdminRole) -> DisputeState {
        DisputeState { roles, ..self }
    }

    /// The shape every reachable state has: before initialization nothing is
    /// configured and no dispute exists; every dispute's number is one the
    /// counter has handed out.
    pub open spec fn well_formed(self) -> bool {
        &&& self.roles.admin is None ==> self.token is None && self.disputes.is_empty()
        &&& forall|k: u64| #[trigger] self.disputes.contains_key(k) ==> 1 <= k <= self.dispute_counter
    }

    /// `next` is what one call leaves from this state: a refused call leaves
    /// it unchanged; otherwise it is the effect of an accepted call. Assigning
    /// an arbitrator is the one call that may change a resolved dispute, and
    /// `assigned` names the dispute it assigned to.
    pub open spec fn dispute_step(self, next: DisputeState, assigned: Option<u64>) -> bool {
        ||| next == self
        ||| (self.roles.admin is None && exists|a: Address, t: Address, f: i128|
            next == #[trigger] self.initialized(a, t, f))
        ||| exists|a: Address| next == #[trigger] self.authorized(a)
        ||| (exists|
            now: u64,
            c: Address,
            r: Address,
            camp: u64,
            amt: i128,
            d: String,
            e: String,
            n: String,
        | self.file_check(amt) is None && next == #[trigger] self.after_file(now, c, r, camp, amt, d, e, n))
        ||| exists|id: u64, a: Address|
            assigned == Some(id) && self.disputes.contains_key(id) && next
                == #[trigger] self.after_assign(id, a)
        ||| exists|now: u64, a: Address, id: u64, o: DisputeOutcome, n: String|
            #![trigger self.resolve_check(a, id), self.after_resolve(now, id, o, n)]
            self.resolve_check(a, id) is None && next == self.after_resolve(now, id, o, n)
        ||| exists|e: Address| next == #[trigger] self.with_escrow_contract(e)
        ||| exists|id: u64, e: u64| self.disputes.contains_key(id) && next == #[trigger] self.linked(id, e)
        ||| exists|r: AdminRole|
            (self.roles.admin is Some ==> r.admin is Some) && next == #[trigger] self.with_roles(r)
    }

    pub open spec fn file_check(self, claim_amount: i128) -> Option<Error> {
        if claim_amount <= 0 {
            Some(Error::InvalidClaimAmount)
        } else if self.token is None {
            Some(Error::NotInitialized)
        } else if self.dispute_counter == u64::MAX {
            Some(Error::Overflow)
        } else {
            None
        }
    }

    /// What the claimant pays in: the filing fee when positive, then the claim.
    pub open spec fn filing_collections(self, claimant: Address, claim_amount: i128) -> Seq<Transfer> {
        let token = self.token.unwrap();
        (if self.filing_fee > 0 {
            seq![Transfer::Collect { token, from: claimant, amount: self.filing_fee }]
        } else {
            Seq::empty()
        }).push(Transfer::Collect { token, from: claimant, amount: claim_amount })
    }

    pub open spec fn assign_check(self, admin: Address, dispute_id: u64, arbitrator: Address) -> Option<Error> {
        if self.roles.admin_check(admin) is Some {
            self.roles.admin_check(admin)
        } else if !(self.arbitrators.contains_key(arbitrator) && self.arbitrators[arbitrator]) {
            Some(Error::ArbitratorNotAuthorized)
        } else if !self.disputes.contains_key(dispute_id) {
            Some(Error::DisputeNotFound)
        } else {
            None
        }
    }

    pub open spec fn resolve_check(self, arbitrator: Address, dispute_id: u64) -> Option<Error> {
        if !self.disputes.contains_key(dispute_id) {
            Some(Error::DisputeNotFound)
        } else if self.disputes[dispute_id].arbitrator != Some(arbitrator) {
            Some(Error::NotAssignedArbitrator)
        } else if self.disputes[dispute_id].status == DisputeStatus::Resolved {
            Some(Error::AlreadyResolved)
        } else {
            None
        }
    }

    /// The escrow settlement of a resolution, when the claim shares are not
    /// both zero and the dispute is linked to an escrow of a configured escrow
    /// contract.
    pub open spec fn escrow_settlement(self, dispute_id: u64, outcome: DisputeOutcome) -> Option<EscrowSettlement> {
        let d = self.disputes[dispute_id];
        let (ca, ra) = claim_shares(outcome, d.claim_amount);
        if (ca > 0 || ra > 0) && self.escrow_contract is Some && self.dispute_escrow.contains_key(
            dispute_id,
        ) {
            Some(
                EscrowSettlement {
                    escrow_contract: self.escrow_contract.unwrap(),
                    escrow_id: self.dispute_escrow[dispute_id],
                    claimant: d.claimant,
                    respondent: d.respondent,
                    claimant_amount: ca as i128,
                    respondent_amount: ra as i128,
                },
            )
        } else {
            None
        }
    }

    /// The token payments of a resolution: the claim shares when no escrow
    /// settles them, then the filing fee shares when the fee is positive.
    pub open spec fn resolution_payments(self, dispute_id: u64, outcome: DisputeOutcome) -> Seq<Transfer> {
        let d = self.disputes[dispute_id];
        let (ca, ra) = claim_shares(outcome, d.claim_amount);
        let (cf, rf) = fee_shares(outcome, self.filing_fee);
        (if self.escrow_settlement(dispute_id, outcome) is None {
            pay_positive(d.token, d.claimant, ca, d.respondent, ra)
        } else {
            Seq::empty()
        }) + (if self.filing_fee > 0 {
            pay_positive(d.token, d.claimant, cf, d.respondent, rf)
        } else {
            Seq::empty()
        })
    }
}

/// Appends the payments of the positive amounts among `a` (to `x`) and `b`
/// (to `y`).
fn push_positive(payments: &mut Vec<Transfer>, token: Address, x: Address, a: i128, y: Address, b: i128)
    ensures
        final(payments)@ == old(payments)@ + pay_positive(token, x, a as int, y, b as int),
{
    let ghost start = payments@;
    if a > 0 {
        payments.push(Transfer::Pay { token, to: x, amount: a });
    }
    if b > 0 {
        payments.push(Transfer::Pay { token, to: y, amount: b });
    }
    assert(payments@ =~= start + pay_positive(token, x, a as int, y, b as int));
}

impl DisputeResolutionContract {
    /// A contract that has not been initialized.
    pub fn new() -> (c: DisputeResolutionContract)
        ensures
            c@.roles.admin is None,
            c@.roles.pending_admin is None,
            c@.token is None,
            c@.filing_fee == 0,
            c@.dispute_counter == 0,
            c@.escrow_contract is None,
            c@.disputes.is_empty(),
            c@.dispute_escrow.is_empty(),
            c@.arbitrators.is_empty(),
            c@.well_formed(),
    {
        DisputeResolutionContract {
            roles: AdminRole::new(),
            token: None,
            filing_fee: 0,
            dispute_counter: 0,
            escrow_contract: None,
            disputes: HashMapWithView::new(),
            dispute_escrow: HashMapWithView::new(),
            arbitrators: HashMapWithView::new(),
        }
    }

    /// Makes `admin` the administrator and records the token in which claims
    /// and fees are paid and the filing fee.
    pub fn initialize(&mut self, admin: Address, token: Address, filing_fee: i128) -> (r: Result<(), Error>)
        ensures
            r == (if old(self)@.roles.admin is Some {
                Err::<(), Error>(Error::AlreadyInitialized)
            } else {
                Ok(())
            }),
            final(self)@ == (if r is Ok {
                old(self)@.initialized(admin, token, filing_fee)
            } else {
                old(self)@
            }),
            old(self)@.dispute_step(final(self)@, None),
    {
        if self.roles.admin.is_some() {
            return Err(Error::AlreadyInitialized);
        }
        self.roles.admin = Some(admin);
        self.token = Some(token);
        self.filing_fee = filing_fee;
        self.dispute_counter = 0;
        Ok(())
    }

    /// The administrator approves `arbitrator`.
    pub fn authorize_arbitrator(&mut self, admin: Address, arbitrator: Address) -> (r: Result<(), Error>)
        ensures
            r == (match old(self)@.roles.admin_check(admin) {
                Some(e) => Err(e),
                None => Ok(()),
            }),
            final(self)@ == (if r is Ok {
                old(self)@.authorized(arbitrator)
            } else {
                old(self)@
            }),
            old(self)@.dispute_step(final(self)@, None),
    {
        self.roles.require_admin(admin)?;
        self.arbitrators.insert(arbitrator, true);
        Ok(())
    }

    /// Files a dispute of `claimant` against `respondent` for a positive
    /// `claim_amount`. The claimant pays the filing fee (when positive) and the
    /// claim into the contract, which holds them until the dispute is resolved.
    pub fn file_dispute(
        &mut self,
        now: u64,
        claimant: Address,
        respondent: Address,
        campaign_id: u64,
        claim_amount: i128,
        description: String,
        evidence_hash: String,
    ) -> (r: Result<(u64, Vec<Transfer>), Error>)
        ensures
            ({
                let s = old(self)@;
                match s.file_check(claim_amount) {
                    Some(e) => r is Err && r->Err_0 == e && final(self)@ == s,
                    None => {
                        let id = (s.dispute_counter + 1) as u64;
                        &&& r is Ok
                        &&& r->Ok_0.0 == id
                        &&& r->Ok_0.1@ == s.filing_collections(claimant, claim_amount)
                        &&& final(self)@.disputes.contains_key(id)
                        &&& final(self)@.disputes[id].resolution_notes@ == Seq::<char>::empty()
                        &&& final(self)@ == s.after_file(
                            now,
                            claimant,
                            respondent,
                            campaign_id,
                            claim_amount,
                            description,
                            evidence_hash,
                            final(self)@.disputes[id].resolution_notes,
                        )
                    },
                }
            }),
            old(self)@.dispute_step(final(self)@, None),
    {
        if claim_amount <= 0 {
            return Err(Error::InvalidClaimAmount);
        }
        let fee = self.filing_fee;
        let token = match self.token {
            Some(t) => t,
            None => return Err(Error::NotInitialized),
        };
        let dispute_id = match self.dispute_counter.checked_add(1) {
            Some(v) => v,
            None => return Err(Error::Overflow),
        };
        let mut collections: Vec<Transfer> = Vec::new();
        if fee > 0 {
            collections.push(Transfer::Collect { token, from: claimant, amount: fee });
        }
        collections.push(Transfer::Collect { token, from: claimant, amount: claim_amount });
        let dispute = Dispute {
            dispute_id,
            claimant,
            respondent,
            campaign_id,
            claim_amount,
            token,
            description,
            evidence_hash,
            status: DisputeStatus::Filed,
            outcome: DisputeOutcome::Pending,
            resolution_notes: String::new(),
            filed_at: now,
            resolved_at: None,
            arbitrator: None,
        };
        self.disputes.insert(dispute_id, dispute);
        self.dispute_counter = dispute_id;
        assert(collections@ =~= old(self)@.filing_collections(claimant, claim_amount));
        Ok((dispute_id, collections))
    }

    /// The administrator assigns an approved arbitrator to a dispute, which
    /// goes under review.
    pub fn assign_arbitrator(&mut self, admin: Address, dispute_id: u64, arbitrator: Address) -> (r: Result<(), Error>)
        ensures
            r == (match old(self)@.assign_check(admin, dispute_id, arbitrator) {
                Some(e) => Err(e),
                None => Ok(()),
            }),
            final(self)@ == (if r is Ok {
                old(self)@.after_assign(dispute_id, arbitrator)
            } else {
                old(self)@
            }),
            old(self)@.dispute_step(final(self)@, Some(dispute_id)),
    {
        self.roles.require_admin(admin)?;
        let approved = match self.arbitrators.get(&arbitrator) {
            Some(b) => *b,
            None => false,
        };
        if !approved {
            return Err(Error::ArbitratorNotAuthorized);
        }
        let mut dispute = match self.disputes.remove(&dispute_id) {
            Some(d) => d,
            None => return Err(Error::DisputeNotFound),
        };
        dispute.arbitrator = Some(arbitrator);
        dispute.status = DisputeStatus::UnderReview;
        self.disputes.insert(dispute_id, dispute);
        Ok(())
    }

    /// The settlement that the linked escrow carries out for a dispute, when
    /// an escrow contract is configured and the dispute is linked to one of
    /// its escrows.
    fn try_settle_linked_escrow(
        &self,
        dispute_id: u64,
        claimant: Address,
        respondent: Address,
        claimant_amount: i128,
        respondent_amount: i128,
    ) -> (r: Option<EscrowSettlement>)
        ensures
            r == (if self@.escrow_contract is Some && self@.dispute_escrow.contains_key(dispute_id) {
                Some(
                    EscrowSettlement {
                        escrow_contract: self@.escrow_contract.unwrap(),
                        escrow_id: self@.dispute_escrow[dispute_id],
                        claimant,
                        respondent,
                        claimant_amount,
                        respondent_amount,
                    },
                )
            } else {
                None
            }),
    {
        let contract = match self.escrow_contract {
            Some(c) => c,
            None => return None,
        };
        let escrow_id = match self.dispute_escrow.get(&dispute_id) {
            Some(id) => *id,
            None => return None,
        };
        Some(
            EscrowSettlement {
                escrow_contract: contract,
                escrow_id,
                claimant,
                respondent,
                claimant_amount,
                respondent_amount,
            },
        )
    }

    /// The assigned arbitrator resolves a dispute that is not yet resolved.
    /// The claim is shared as the outcome says, through the linked escrow when
    /// there is one, else paid from this contract; the filing fee is returned
    /// as the outcome says.
    pub fn resolve_dispute(
        &mut self,
        now: u64,
        arbitrator: Address,
        dispute_id: u64,
        outcome: DisputeOutcome,
        notes: String,
    ) -> (r: Result<Settlement, Error>)
        ensures
            ({
                let s = old(self)@;
                match s.resolve_check(arbitrator, dispute_id) {
                    Some(e) => r is Err && r->Err_0 == e && final(self)@ == s,
                    None => {
                        &&& r is Ok
                        &&& r->Ok_0.escrow == s.escrow_settlement(dispute_id, outcome)
                        &&& r->Ok_0.payments@ == s.resolution_payments(dispute_id, outcome)
                        &&& final(self)@ == s.after_resolve(now, dispute_id, outcome, notes)
                    },
                }
            }),
            old(self)@.dispute_step(final(self)@, None),
    {
        let ghost s0 = self@;
        let ghost n0 = notes;
        let mut dispute = match self.disputes.remove(&dispute_id) {
            Some(d) => d,
            None => return Err(Error::DisputeNotFound),
        };
        let assigned = match dispute.arbitrator {
            Some(a) => a == arbitrator,
            None => false,
        };
        if !assigned {
            self.disputes.insert(dispute_id, dispute);
            return Err(Error::NotAssignedArbitrator);
        }
        if dispute.status == DisputeStatus::Resolved {
            self.disputes.insert(dispute_id, dispute);
            return Err(Error::AlreadyResolved);
        }
        let claim = dispute.claim_amount;
        let (ca, ra): (i128, i128) = match outcome {
            DisputeOutcome::Claimant => (claim, 0),
            DisputeOutcome::Respondent => (0, claim),
            DisputeOutcome::Split => {
                let part = claim / 2;
                (part, claim - part)
            },
            _ => (0, 0),
        };
        let escrow = if ca > 0 || ra > 0 {
            self.try_settle_linked_escrow(dispute_id, dispute.claimant, dispute.respondent, ca, ra)
        } else {
            None
        };
        let mut payments: Vec<Transfer> = Vec::new();
        if escrow.is_none() {
            push_positive(&mut payments, dispute.token, dispute.claimant, ca, dispute.respondent, ra);
        }
        let fee = self.filing_fee;
        if fee > 0 {
            let (cf, rf): (i128, i128) = match outcome {
                DisputeOutcome::Claimant => (fee, 0),
                DisputeOutcome::Respondent => (0, fee),
                DisputeOutcome::Split => {
                    let part = fee / 2;
                    (part, fee - part)
                },
                DisputeOutcome::NoAction => (fee, 0),
                DisputeOutcome::Pending => (0, 0),
            };
            push_positive(&mut payments, dispute.token, dispute.claimant, cf, dispute.respondent, rf);
        }
        dispute.outcome = outcome;
        dispute.resolution_notes = notes;
        dispute.status = DisputeStatus::Resolved;
        dispute.resolved_at = Some(now);
        self.disputes.insert(dispute_id, dispute);
        assert(payments@ =~= old(self)@.resolution_payments(dispute_id, outcome));
        assert(s0.resolve_check(arbitrator, dispute_id) is None);
        assert(self@ == s0.after_resolve(now, dispute_id, outcome, n0));
        Ok(Settlement { escrow, payments })
    }

    pub fn get_dispute(&self, dispute_id: u64) -> (r: Option<&Dispute>)
        ensures
            r == (if self@.disputes.contains_key(dispute_id) {
                Some(&self@.disputes[dispute_id])
            } else {
                None
            }),
    {
        self.disputes.get(&dispute_id)
    }

    /// The number of disputes filed (the last identifier given).
    pub fn get_dispute_count(&self) -> (r: u64)
        ensures
            r == self@.dispute_counter,
    {
        self.dispute_counter
    }

    /// The administrator records the escrow contract that settles linked
    /// disputes.
    pub fn set_escrow_contract(&mut self, admin: Address, escrow_contract: Address) -> (r: Result<(), Error>)
        ensures
            r == (match old(self)@.roles.admin_check(admin) {
                Some(e) => Err(e),
                None => Ok(()),
            }),
            final(self)@ == (if r is Ok {
                old(self)@.with_escrow_contract(escrow_contract)
            } else {
                old(self)@
            }),
            old(self)@.dispute_step(final(self)@, None),
    {
        self.roles.require_admin(admin)?;
        self.escrow_contract = Some(escrow_contract);
        Ok(())
    }

    /// The administrator links an existing dispute to an escrow.
    pub fn link_dispute_escrow(&mut self, admin: Address, dispute_id: u64, escrow_id: u64) -> (r: Result<(), Error>)
        ensures
            r == (if old(self)@.roles.admin_check(admin) is Some {
                Err::<(), Error>(old(self)@.roles.admin_check(admin).unwrap())
            } else if !old(self)@.disputes.contains_key(dispute_id) {
                Err(Error::DisputeNotFound)
            } else {
                Ok(())
            }),
            final(self)@ == (if r is Ok {
                old(self)@.linked(dispute_id, escrow_id)
            } else {
                old(self)@
            }),
            old(self)@.dispute_step(final(self)@, None),
    {
        self.roles.require_admin(admin)?;
        if !self.disputes.contains_key(&dispute_id) {
            return Err(Error::DisputeNotFound);
        }
        self.dispute_escrow.insert(dispute_id, escrow_id);
        Ok(())
    }

    /// The administrator offers its role to `new_admin`.
    pub fn propose_admin(&mut self, current_admin: Address, new_admin: Address) -> (r: Result<(), Error>)
        ensures
            r == (match old(self)@.roles.propose_check(current_admin) {
                Some(e) => Err(e),
                None => Ok(()),
            }),
            final(self)@ == (if r is Ok {
                old(self)@.with_roles(old(self)@.roles.proposed(new_admin))
            } else {
                old(self)@
            }),
            old(self)@.dispute_step(final(self)@, None),
    {
        self.roles.propose_admin(current_admin, new_admin)
    }

    /// The offered successor takes the administrator role.
    pub fn accept_admin(&mut self, new_admin: Address) -> (r: Result<(), Error>)
        ensures
            r == (match old(self)@.roles.accept_check(new_admin) {
                Some(e) => Err(e),
                None => Ok(()),
            }),
            final(self)@ == (if r is Ok {
                old(self)@.with_roles(old(self)@.roles.accepted(new_admin))
            } else {
                old(self)@
            }),
            old(self)@.dispute_step(final(self)@, None),
    {
        self.roles.accept_admin(new_admin)
    }
}

/// A resolution that pays the claim itself pays out exactly the claim: the
/// claimant's and the respondent's shares add up to the claimed amount.
pub proof fn law_claim_shares_sum(outcome: DisputeOutcome, claim: i128)
    requires
        outcome == DisputeOutcome::Claimant || outcome == DisputeOutcome::Respondent || outcome
            == DisputeOutcome::Split,
    ensures
        claim_shares(outcome, claim).0 + claim_shares(outcome, claim).1 == claim,
{
}

/// On a split of a positive claim, the respondent's share is the claimant's or
/// one more: the claimant's half is rounded down.
pub proof fn law_split_halves(claim: i128)
    requires
        claim > 0,
    ensures
        claim_shares(DisputeOutcome::Split, claim).1 - claim_shares(DisputeOutcome::Split, claim).0
            == claim % 2,
{
}

/// The filing fee is handed back whole once a dispute is decided: the
/// claimant's and respondent's shares of it add up to the fee.
pub proof fn law_fee_shares_sum(outcome: DisputeOutcome, fee: i128)
    requires
        outcome != DisputeOutcome::Pending,
    ensures
        fee_shares(outcome, fee).0 + fee_shares(outcome, fee).1 == fee,
{
}

/// A dispute is resolved at most once: after a resolution, its arbitrator is
/// told it is already resolved and anyone else that they are not its
/// arbitrator, so nothing is paid out twice.
pub proof fn law_resolve_once(
    s: DisputeState,
    now: u64,
    arbitrator: Address,
    dispute_id: u64,
    outcome: DisputeOutcome,
    notes: String,
    caller: Address,
)
    requires
        s.resolve_check(arbitrator, dispute_id) is None,
    ensures
        ({
            let after = DisputeState {
                disputes: s.disputes.insert(
                    dispute_id,
                    Dispute {
                        outcome,
                        resolution_notes: notes,
                        status: DisputeStatus::Resolved,
                        resolved_at: Some(now),
                        ..s.disputes[dispute_id]
                    },
                ),
                ..s
            };
            after.resolve_check(caller, dispute_id) == if caller == arbitrator {
                Some(Error::AlreadyResolved)
            } else {
                Some(Error::NotAssignedArbitrator)
            }
        }),
{
}

/// Every call keeps the contract well formed: it starts so, and no accepted
/// or refused call breaks it.
pub proof fn law_calls_keep_well_formed(s: DisputeState, next: DisputeState, assigned: Option<u64>)
    requires
        s.well_formed(),
        s.dispute_step(next, assigned),
    ensures
        next.well_formed(),
{
    lemma_step(s, next, assigned, 0);
}

/// One call that does not assign an arbitrator to dispute `d` keeps the
/// contract well formed and leaves a resolved dispute `d` as it was.
proof fn lemma_step(s: DisputeState, next: DisputeState, assigned: Option<u64>, d: u64)
    requires
        s.well_formed(),
        s.dispute_step(next, assigned),
    ensures
        next.well_formed(),
        assigned != Some(d) && s.disputes.contains_key(d) && s.disputes[d].status
            == DisputeStatus::Resolved ==> next.disputes.contains_key(d) && next.disputes[d]
            == s.disputes[d],
{
    if next == s {
    } else if s.roles.admin is None && exists|a: Address, t: Address, f: i128|
        next == #[trigger] s.initialized(a, t, f) {
        let (a, t, f) = choose|a: Address, t: Address, f: i128| next == #[trigger] s.initialized(a, t, f);
        assert(next.disputes =~= Map::empty());
    } else if exists|a: Address| next == #[trigger] s.authorized(a) {
    } else if exists|
        now: u64,
        c: Address,
        r: Address,
        camp: u64,
        amt: i128,
        dd: String,
        e: String,
        n: String,
    | s.file_check(amt) is None && next == #[trigger] s.after_file(now, c, r, camp, amt, dd, e, n) {
        let (now, c, r, camp, amt, dd, e, n) = choose|
            now: u64,
            c: Address,
            r: Address,
            camp: u64,
            amt: i128,
            dd: String,
            e: String,
            n: String,
        | s.file_check(amt) is None && next == #[trigger] s.after_file(now, c, r, camp, amt, dd, e, n);
        assert forall|k: u64| #[trigger] next.disputes.contains_key(k) implies 1 <= k
            <= next.dispute_counter by {
            if k != (s.dispute_counter + 1) as u64 {
                assert(s.disputes.contains_key(k));
            }
        }
    } else if exists|id: u64, a: Address|
        assigned == Some(id) && s.disputes.contains_key(id) && next == #[trigger] s.after_assign(id, a) {
        let (id, a) = choose|id: u64, a: Address|
            assigned == Some(id) && s.disputes.contains_key(id) && next == #[trigger] s.after_assign(
                id,
                a,
            );
        assert forall|k: u64| #[trigger] next.disputes.contains_key(k) implies 1 <= k
            <= next.dispute_counter by {
            assert(s.disputes.contains_key(k));
        }
    } else if exists|now: u64, a: Address, id: u64, o: DisputeOutcome, n: String|
        #![trigger s.resolve_check(a, id), s.after_resolve(now, id, o, n)]
        s.resolve_check(a, id) is None && next == s.after_resolve(now, id, o, n) {
        let (now, a, id, o, n) = choose|now: u64, a: Address, id: u64, o: DisputeOutcome, n: String|
            #![trigger s.resolve_check(a, id), s.after_resolve(now, id, o, n)]
            s.resolve_check(a, id) is None && next == s.after_resolve(now, id, o, n);
        assert forall|k: u64| #[trigger] next.disputes.contains_key(k) implies 1 <= k
            <= next.dispute_counter by {
            assert(s.disputes.contains_key(k));
        }
    } else if exists|e: Address| next == #[trigger] s.with_escrow_contract(e) {
    } else if exists|id: u64, e: u64| s.disputes.contains_key(id) && next == #[trigger] s.linked(id, e) {
    } else {
        let r = choose|r: AdminRole|
            (s.roles.admin is Some ==> r.admin is Some) && next == #[trigger] s.with_roles(r);
    }
}

/// The states reached from `start` by the calls in `assigned.len()` steps,
/// none of which assigns an arbitrator to dispute `d`, keep a resolved
/// dispute `d` as it was.
proof fn lemma_trace(trace: Seq<DisputeState>, assigned: Seq<Option<u64>>, d: u64)
    requires
        trace.len() == assigned.len() + 1,
        trace[0].well_formed(),
        trace[0].disputes.contains_key(d),
        trace[0].disputes[d].status == DisputeStatus::Resolved,
        forall|i: int|
            0 <= i < assigned.len() ==> #[trigger] trace[i].dispute_step(trace[i + 1], assigned[i])
                && assigned[i] != Some(d),
    ensures
        trace.last().well_formed(),
        trace.last().disputes.contains_key(d),
        trace.last().disputes[d] == trace[0].disputes[d],
    decreases assigned.len(),
{
    if assigned.len() > 0 {
        let n = assigned.len() - 1;
        lemma_trace(trace.drop_last(), assigned.drop_last(), d);
        assert(trace.drop_last().last() == trace[n]);
        assert(trace[n].dispute_step(trace[n + 1], assigned[n]));
        lemma_step(trace[n], trace[n + 1], assigned[n], d);
    }
}

/// A dispute is resolved once and for all: after `arbitrator` resolves
/// dispute `d`, whatever calls follow, as long as none assigns an arbitrator
/// to `d` again, the dispute keeps its resolution (status, outcome, notes)
/// and any further resolution of it is refused, with "already resolved" for
/// its arbitrator and "not assigned arbitrator" for anyone else. A refused
/// resolution leaves the contract unchanged and pays nothing.
pub proof fn law_resolved_dispute_stays_resolved(
    s: DisputeState,
    now: u64,
    arbitrator: Address,
    d: u64,
    outcome: DisputeOutcome,
    notes: String,
    trace: Seq<DisputeState>,
    assigned: Seq<Option<u64>>,
    caller: Address,
)
    requires
        s.well_formed(),
        s.resolve_check(arbitrator, d) is None,
        trace.len() == assigned.len() + 1,
        trace[0] == s.after_resolve(now, d, outcome, notes),
        forall|i: int|
            0 <= i < assigned.len() ==> #[trigger] trace[i].dispute_step(trace[i + 1], assigned[i])
                && assigned[i] != Some(d),
    ensures
        trace.last().disputes.contains_key(d),
        trace.last().disputes[d].status == DisputeStatus::Resolved,
        trace.last().disputes[d].outcome == outcome,
        trace.last().disputes[d].resolution_notes == notes,
        trace.last().resolve_check(caller, d) == if caller == arbitrator {
            Some(Error::AlreadyResolved)
        } else {
            Some(Error::NotAssignedArbitrator)
        },
{
    let first = s.after_resolve(now, d, outcome, notes);
    assert(s.dispute_step(first, None));
    lemma_step(s, first, None, d);
    lemma_trace(trace, assigned, d);
}

} // verus!
