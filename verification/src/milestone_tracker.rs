//! Milestone tracker: advertisers set campaign milestones with a deadline; an
//! oracle reports progress, which marks a milestone achieved, missed or in
//! progress; milestones can be disputed and the administrator settles them.
use vstd::prelude::*;
use vstd::hash_map::HashMapWithView;
use crate::types::Address;
use crate::error::Error;
use crate::admin::AdminRole;

verus! {

broadcast use vstd::std_specs::hash::group_hash_axioms;

/// Shortest time a milestone may be given: one hour.
pub const MIN_DURATION_SECS: u64 = 3_600;

#[derive(Clone, Copy, Debug, PartialEq, Eq, Structural)]
pub enum MilestoneStatus {
    Pending,
    InProgress,
    Achieved,
    Missed,
    Disputed,
}

#[derive(Clone, Debug)]
pub struct Milestone {
    pub milestone_id: u64,
    pub campaign_id: u64,
    pub description: String,
    pub target_metric: String,
    pub target_value: u64,
    pub current_value: u64,
    pub reward_amount: i128,
    pub status: MilestoneStatus,
    /// Unix timestamp.
    pub deadline: u64,
    /// Unix timestamp.
    pub achieved_at: Option<u64>,
    /// Unix timestamp.
    pub created_at: u64,
}

/// The tracker's storage as mathematical values.
#[verifier::ext_equal]
pub struct MilestoneState {
    pub roles: AdminRole,
    pub oracle: Option<Address>,
    pub milestone_counter: u64,
    pub milestones: Map<u64, Milestone>,
    pub campaign_milestone_count: Map<u64, u64>,
}

pub struct MilestoneTrackerContract {
    roles: AdminRole,
    oracle: Option<Address>,
    milestone_counter: u64,
    milestones: HashMapWithView<u64, Milestone>,
    campaign_milestone_count: HashMapWithView<u64, u64>,
}

impl View for MilestoneTrackerContract {
    type V = MilestoneState;

    closed spec fn view(&self) -> MilestoneState {
        MilestoneState {
            roles: self.roles,
            oracle: self.oracle,
            milestone_counter: self.milestone_counter,
            milestones: self.milestones@,
            campaign_milestone_count: self.campaign_milestone_count@,
        }
    }
}

impl MilestoneState {
    pub open spec fn count_of(self, campaign_id: u64) -> u64 {
        if self.campaign_milestone_count.contains_key(campaign_id) {
            self.campaign_milestone_count[campaign_id]
        } else {
            0
        }
    }

    pub open spec fn create_check(self, now: u64, campaign_id: u64, duration_secs: u64) -> Option<Error> {
        if duration_secs < MIN_DURATION_SECS {
            Some(Error::DurationTooShort)
        } else if now + duration_secs > u64::MAX || self.milestone_counter == u64::MAX
            || self.count_of(campaign_id) == u64::MAX {
            Some(Error::Overflow)
        } else {
            None
        }
    }

    pub open spec fn progress_check(self, oracle: Address, milestone_id: u64) -> Option<Error> {
        match self.oracle {
            None => Some(Error::NotInitialized),
            Some(o) => if o != oracle {
                Some(Error::Unauthorized)
            } else if !self.milestones.contains_key(milestone_id) {
                Some(Error::MilestoneNotFound)
            } else {
                None
            },
        }
    }

    /// A milestone after the oracle reports `current_value` at `now`:
    /// achieved once the value reaches the target, missed when the deadline
    /// has passed, in progress otherwise. An achieved milestone is final.
    pub open spec fn progressed(m: Milestone, now: u64, current_value: u64) -> Milestone {
        if m.status == MilestoneStatus::Achieved {
            m
        } else if current_value >= m.target_value {
            Milestone {
                current_value,
                status: MilestoneStatus::Achieved,
                achieved_at: Some(now),
                ..m
            }
        } else if now > m.deadline {
            Milestone { current_value, status: MilestoneStatus::Missed, ..m }
        } else {
            Milestone { current_value, status: MilestoneStatus::InProgress, ..m }
        }
    }

    pub open spec fn with_status(self, milestone_id: u64, status: MilestoneStatus) -> MilestoneState {
        MilestoneState {
            milestones: self.milestones.insert(
                milestone_id,
                Milestone { status, ..self.milestones[milestone_id] },
            ),
            ..self
        }
    }
}

impl MilestoneTrackerContract {
    /// A tracker that has not been initialized.
    pub fn new() -> (c: MilestoneTrackerContract)
        ensures
            c@.roles.admin is None,
            c@.roles.pending_admin is None,
            c@.oracle is None,
            c@.milestone_counter == 0,
            c@.milestones.is_empty(),
            c@.campaign_milestone_count.is_empty(),
    {
        MilestoneTrackerContract {
            roles: AdminRole::new(),
            oracle: None,
            milestone_counter: 0,
            milestones: HashMapWithView::new(),
            campaign_milestone_count: HashMapWithView::new(),
        }
    }

    /// Makes `admin` the administrator and `oracle` the progress reporter.
    pub fn initialize(&mut self, admin: Address, oracle: Address) -> (r: Result<(), Error>)
        ensures
            r == (if old(self)@.roles.admin is Some {
                Err::<(), Error>(Error::AlreadyInitialized)
            } else {
                Ok(())
            }),
            final(self)@ == (if r is Ok {
                MilestoneState {
                    roles: AdminRole { admin: Some(admin), ..old(self)@.roles },
                    oracle: Some(oracle),
                    milestone_counter: 0,
                    ..old(self)@
                }
            } else {
                old(self)@
            }),
    {
        if self.roles.admin.is_some() {
            return Err(Error::AlreadyInitialized);
        }
        self.roles.admin = Some(admin);
        self.oracle = Some(oracle);
        self.milestone_counter = 0;
        Ok(())
    }

    /// Creates a pending milestone for a campaign, due `duration_secs` (at
    /// least an hour) after `now`.
    pub fn create_milestone(
        &mut self,
        now: u64,
        advertiser: Address,
        campaign_id: u64,
        description: String,
        target_metric: String,
        target_value: u64,
        reward_amount: i128,
        duration_secs: u64,
    ) -> (r: Result<u64, Error>)
        ensures
            r == (match old(self)@.create_check(now, campaign_id, duration_secs) {
                Some(e) => Err(e),
                None => Ok((old(self)@.milestone_counter + 1) as u64),
            }),
            final(self)@ == (match r {
                Ok(id) => MilestoneState {
                    milestone_counter: id,
                    milestones: old(self)@.milestones.insert(
                        id,
                        Milestone {
                            milestone_id: id,
                            campaign_id,
                            description,
                            target_metric,
                            target_value,
                            current_value: 0,
                            reward_amount,
                            status: MilestoneStatus::Pending,
                            deadline: (now + duration_secs) as u64,
                            achieved_at: None,
                            created_at: now,
                        },
                    ),
                    campaign_milestone_count: old(self)@.campaign_milestone_count.insert(
                        campaign_id,
                        (old(self)@.count_of(campaign_id) + 1) as u64,
                    ),
                    ..old(self)@
                },
                Err(_) => old(self)@,
            }),
    {
        if duration_secs < MIN_DURATION_SECS {
            return Err(Error::DurationTooShort);
        }
        let deadline = match now.checked_add(duration_secs) {
            Some(v) => v,
            None => return Err(Error::Overflow),
        };
        let milestone_id = match self.milestone_counter.checked_add(1) {
            Some(v) => v,
            None => return Err(Error::Overflow),
        };
        let count = match self.campaign_milestone_count.get(&campaign_id) {
            Some(c) => *c,
            None => 0,
        };
        let new_count = match count.checked_add(1) {
            Some(v) => v,
            None => return Err(Error::Overflow),
        };
        let milestone = Milestone {
            milestone_id,
            campaign_id,
            description,
            target_metric,
            target_value,
            current_value: 0,
            reward_amount,
            status: MilestoneStatus::Pending,
            deadline,
            achieved_at: None,
            created_at: now,
        };
        self.milestones.insert(milestone_id, milestone);
        self.milestone_counter = milestone_id;
        self.campaign_milestone_count.insert(campaign_id, new_count);
        Ok(milestone_id)
    }

    /// The oracle reports the current value of a milestone's metric at `now`.
    /// Returns whether the milestone became achieved by this report (the host
    /// announces that).
    pub fn update_progress(&mut self, now: u64, oracle: Address, milestone_id: u64, current_value: u64) -> (r: Result<bool, Error>)
        ensures
            ({
                let s = old(self)@;
                match s.progress_check(oracle, milestone_id) {
                    Some(e) => r == Err::<bool, Error>(e) && final(self)@ == s,
                    None => {
                        let m = s.milestones[milestone_id];
                        &&& r == Ok::<bool, Error>(
                            m.status != MilestoneStatus::Achieved && current_value
                                >= m.target_value,
                        )
                        &&& final(self)@ == (MilestoneState {
                            milestones: s.milestones.insert(
                                milestone_id,
                                MilestoneState::progressed(m, now, current_value),
                            ),
                            ..s
                        })
                    },
                }
            }),
    {
        match self.oracle {
            None => return Err(Error::NotInitialized),
            Some(o) => {
                if o != oracle {
                    return Err(Error::Unauthorized);
                }
            },
        }
        let mut m = match self.milestones.remove(&milestone_id) {
            Some(m) => m,
            None => return Err(Error::MilestoneNotFound),
        };
        if m.status == MilestoneStatus::Achieved {
            self.milestones.insert(milestone_id, m);
            return Ok(false);
        }
        m.current_value = current_value;
        let achieved = current_value >= m.target_value;
        if achieved {
            m.status = MilestoneStatus::Achieved;
            m.achieved_at = Some(now);
        } else if now > m.deadline {
            m.status = MilestoneStatus::Missed;
        } else {
            m.status = MilestoneStatus::InProgress;
        }
        self.milestones.insert(milestone_id, m);
        Ok(achieved)
    }

    /// Marks a milestone as disputed.
    pub fn dispute_milestone(&mut self, caller: Address, milestone_id: u64) -> (r: Result<(), Error>)
        ensures
            r == (if old(self)@.milestones.contains_key(milestone_id) {
                Ok::<(), Error>(())
            } else {
                Err(Error::MilestoneNotFound)
            }),
            final(self)@ == (if r is Ok {
                old(self)@.with_status(milestone_id, MilestoneStatus::Disputed)
            } else {
                old(self)@
            }),
    {
        let mut m = match self.milestones.remove(&milestone_id) {
            Some(m) => m,
            None => return Err(Error::MilestoneNotFound),
        };
        m.status = MilestoneStatus::Disputed;
        self.milestones.insert(milestone_id, m);
        Ok(())
    }

    /// The administrator settles a milestone as achieved or missed.
    pub fn resolve_dispute(&mut self, admin: Address, milestone_id: u64, achieved: bool) -> (r: Result<(), Error>)
        ensures
            r == (if old(self)@.roles.admin_check(admin) is Some {
                Err::<(), Error>(old(self)@.roles.admin_check(admin).unwrap())
            } else if !old(self)@.milestones.contains_key(milestone_id) {
                Err(Error::MilestoneNotFound)
            } else {
                Ok(())
            }),
            final(self)@ == (if r is Ok {
                old(self)@.with_status(
                    milestone_id,
                    if achieved {
                        MilestoneStatus::Achieved
                    } else {
                        MilestoneStatus::Missed
                    },
                )
            } else {
                old(self)@
            }),
    {
        self.roles.require_admin(admin)?;
        let mut m = match self.milestones.remove(&milestone_id) {
            Some(m) => m,
            None => return Err(Error::MilestoneNotFound),
        };
        m.status = if achieved { MilestoneStatus::Achieved } else { MilestoneStatus::Missed };
        self.milestones.insert(milestone_id, m);
        Ok(())
    }

    pub fn get_milestone(&self, milestone_id: u64) -> (r: Option<&Milestone>)
        ensures
            r == (if self@.milestones.contains_key(milestone_id) {
                Some(&self@.milestones[milestone_id])
            } else {
                None
            }),
    {
        self.milestones.get(&milestone_id)
    }

    /// The number of milestones created for a campaign.
    pub fn get_campaign_milestone_count(&self, campaign_id: u64) -> (r: u64)
        ensures
            r == self@.count_of(campaign_id),
    {
        match self.campaign_milestone_count.get(&campaign_id) {
            Some(c) => *c,
            None => 0,
        }
    }

    /// The administrator offers its role to `new_admin`.
    pub fn propose_admin(&mut self, current_admin: Address, new_admin: Address) -> (r: Result<(), Error>)
        ensures
            r == (match old(self)@.roles.propose_check(current_admin) {
                Some(e) => Err(e),
                None => Ok(()),
            }),
            final(self)@ == (if r is Ok {
                MilestoneState { roles: old(self)@.roles.proposed(new_admin), ..old(self)@ }
            } else {
                old(self)@
            }),
    {
        self.roles.propose_admin(current_admin, new_admin)
    }

    /// The offered successor takes the administrator role.
    pub fn accept_admin(&mut self, new_admin: Address) -> (r: Result<(), Error>)
        ensures
            r == (match old(self)@.roles.accept_check(new_admin) {
                Some(e) => Err(e),
                None => Ok(()),
            }),
            final(self)@ == (if r is Ok {
                MilestoneState { roles: old(self)@.roles.accepted(new_admin), ..old(self)@ }
            } else {
                old(self)@
            }),
    {
        self.roles.accept_admin(new_admin)
    }
}

/// Progress reports never undo an achievement: an achieved milestone stays
/// achieved, with its value and time of achievement, whatever is reported.
pub proof fn law_achieved_is_final(m: Milestone, now: u64, value: u64)
    requires
        m.status == MilestoneStatus::Achieved,
    ensures
        MilestoneState::progressed(m, now, value) == m,
{
}

/// A report that reaches the target achieves the milestone at the time of the
/// report, whether or not the deadline has passed; a report below the target
/// after the deadline marks it missed.
pub proof fn law_progress_outcome(m: Milestone, now: u64, value: u64)
    requires
        m.status != MilestoneStatus::Achieved,
    ensures
        value >= m.target_value ==> MilestoneState::progressed(m, now, value).status
            == MilestoneStatus::Achieved && MilestoneState::progressed(m, now, value).achieved_at
            == Some(now),
        value < m.target_value && now > m.deadline ==> MilestoneState::progressed(
            m,
            now,
            value,
        ).status == MilestoneStatus::Missed,
        value < m.target_value && now <= m.deadline ==> MilestoneState::progressed(
            m,
            now,
            value,
        ).status == MilestoneStatus::InProgress,
        MilestoneState::progressed(m, now, value).current_value == value,
{
}

} // verus!
