//! Campaign orchestrator: advertisers fund campaigns, verified publishers are
//! paid per recorded view, and advertisers may pause, resume or cancel.
use vstd::prelude::*;
use vstd::hash_map::HashMapWithView;
use crate::types::{Address, Transfer, DAY_SECS, pair_key, make_pair_key, div_trunc};
use crate::error::Error;
use crate::admin::AdminRole;

verus! {

broadcast use vstd::std_specs::hash::group_hash_axioms;

/// The smallest campaign amount recorded at initialization (0.1 XLM in stroops).
pub const MIN_CAMPAIGN_AMOUNT: i128 = 1_000_000;
/// Platform fee, in percent of the budget, until the administrator sets one.
pub const DEFAULT_PLATFORM_FEE_PCT: u32 = 2;
/// Highest platform fee the administrator may set, in percent.
pub const MAX_PLATFORM_FEE_PCT: u32 = 10;
/// Reputation of an advertiser's first campaign.
pub const INITIAL_ADVERTISER_REPUTATION: u32 = 100;

#[derive(Clone, Copy, Debug, PartialEq, Eq, Structural)]
pub enum CampaignStatus {
    Active,
    Paused,
    Completed,
    Cancelled,
    Expired,
}

#[derive(Clone, Copy, Debug, PartialEq, Eq)]
pub struct Campaign {
    pub advertiser: Address,
    pub campaign_type: u32,
    pub budget: i128,
    pub remaining_budget: i128,
    pub cost_per_view: i128,
    pub start_ledger: u32,
    pub end_ledger: u32,
    pub status: CampaignStatus,
    pub target_views: u64,
    pub current_views: u64,
    pub daily_view_limit: u64,
    pub refundable: bool,
    pub platform_fee: i128,
    pub created_at: u64,
    pub last_updated: u64,
}

#[derive(Clone, Debug)]
pub struct CampaignType {
    pub name: String,
    pub min_duration: u32,
    pub max_duration: u32,
    pub min_budget: i128,
}

#[derive(Clone, Copy, Debug, PartialEq, Eq)]
pub struct VerifiedPublisher {
    pub verified: bool,
    pub reputation_score: u32,
    pub total_earnings: i128,
    pub join_ledger: u32,
    pub last_active: u64,
}

#[derive(Clone, Copy, Debug, PartialEq, Eq)]
pub struct AdvertiserStats {
    pub total_campaigns: u32,
    pub active_campaigns: u32,
    pub total_spent: i128,
    pub total_views: u64,
    pub average_view_rate: u32,
    pub reputation_score: u32,
    pub last_campaign_id: u64,
    pub join_ledger: u32,
}

/// A campaign with what it has spent so far and the percentage of its target
/// views reached.
#[derive(Clone, Copy, Debug, PartialEq, Eq)]
pub struct CampaignMetrics {
    pub campaign: Campaign,
    pub total_spent: i128,
    pub completion_rate: u32,
}

/// What the contracts consulted before a view is recorded answered. A field is
/// read only when the corresponding contract address is configured.
#[derive(Clone, Copy, Debug, PartialEq, Eq)]
pub struct CrossContractReport {
    /// The lifecycle contract knows the campaign.
    pub lifecycle_found: bool,
    /// The escrow contract holds an escrow for the campaign.
    pub escrow_found: bool,
    /// The escrow contract allows releasing funds for the campaign.
    pub escrow_can_release: bool,
    /// The targeting contract has a configuration for the campaign.
    pub targeting_found: bool,
    /// The targeting contract has a score for the publisher.
    pub score_found: bool,
}

/// The result of a recorded view: the payment to the publisher, and whether
/// the host should warn that targeting is configured but scored nothing for
/// the publisher.
#[derive(Clone, Copy, Debug, PartialEq, Eq)]
pub struct ViewOutcome {
    pub payment: Transfer,
    pub warn_no_score: bool,
}

/// The orchestrator's storage as mathematical values. Daily view counts are
/// keyed by `pair_key(campaign_id, day)`.
#[verifier::ext_equal]
pub struct OrchestratorState {
    pub roles: AdminRole,
    pub token: Option<Address>,
    pub min_campaign_amount: Option<i128>,
    pub platform_fee_pct: u32,
    pub campaign_counter: u64,
    pub total_platform_fees: i128,
    pub campaigns: Map<u64, Campaign>,
    pub campaign_types: Map<u32, CampaignType>,
    pub publishers: Map<Address, VerifiedPublisher>,
    pub advertiser_stats: Map<Address, AdvertiserStats>,
    pub daily_views: Map<u128, u64>,
    pub lifecycle_contract: Option<Address>,
    pub escrow_contract: Option<Address>,
    pub targeting_contract: Option<Address>,
    pub auction_contract: Option<Address>,
}

pub struct CampaignOrchestratorContract {
    roles: AdminRole,
    token: Option<Address>,
    min_campaign_amount: Option<i128>,
    platform_fee_pct: u32,
    campaign_counter: u64,
    total_platform_fees: i128,
    campaigns: HashMapWithView<u64, Campaign>,
    campaign_types: HashMapWithView<u32, CampaignType>,
    publishers: HashMapWithView<u64, VerifiedPublisher>,
    advertiser_stats: HashMapWithView<u64, AdvertiserStats>,
    daily_views: HashMapWithView<u128, u64>,
    lifecycle_contract: Option<Address>,
    escrow_contract: Option<Address>,
    targeting_contract: Option<Address>,
    auction_contract: Option<Address>,
}

impl View for CampaignOrchestratorContract {
    type V = OrchestratorState;

    closed spec fn view(&self) -> OrchestratorState {
        OrchestratorState {
            roles: self.roles,
            token: self.token,
            min_campaign_amount: self.min_campaign_amount,
            platform_fee_pct: self.platform_fee_pct,
            campaign_counter: self.campaign_counter,
            total_platform_fees: self.total_platform_fees,
            campaigns: self.campaigns@,
            campaign_types: self.campaign_types@,
            publishers: self.publishers@,
            advertiser_stats: self.advertiser_stats@,
            daily_views: self.daily_views@,
            lifecycle_contract: self.lifecycle_contract,
            escrow_contract: self.escrow_contract,
            targeting_contract: self.targeting_contract,
            auction_contract: self.auction_contract,
        }
    }
}

/// Whether `x` fits an `i128`.
pub open spec fn fits_i128(x: int) -> bool {
    i128::MIN <= x <= i128::MAX
}

/// The fee charged on `budget` at `pct` percent.
pub open spec fn platform_fee(budget: i128, pct: u32) -> int {
    div_trunc(budget * pct, 100)
}

/// A campaign's budget adds up: what remains is the budget less the cost
/// of the views recorded, it is not negative, and the views have not passed
/// the target.
pub open spec fn budget_consistent(c: Campaign) -> bool {
    &&& c.remaining_budget == c.budget - c.cost_per_view * c.current_views
    &&& c.remaining_budget >= 0
    &&& c.current_views <= c.target_views
}

/// The day number of a timestamp.
pub open spec fn day_of(now: u64) -> u64 {
    (now / DAY_SECS) as u64
}

impl OrchestratorState {
    pub open spec fn create_check(
        self,
        campaign_type: u32,
        budget: i128,
        duration: u32,
        ledger_seq: u32,
        advertiser: Address,
    ) -> Option<Error> {
        if !self.campaign_types.contains_key(campaign_type) {
            Some(Error::CampaignTypeNotFound)
        } else if budget < self.campaign_types[campaign_type].min_budget {
            Some(Error::BudgetTooLow)
        } else if duration < self.campaign_types[campaign_type].min_duration || duration
            > self.campaign_types[campaign_type].max_duration {
            Some(Error::InvalidDuration)
        } else if self.campaign_counter == u64::MAX {
            Some(Error::Overflow)
        } else if !fits_i128(budget * self.platform_fee_pct) {
            Some(Error::Overflow)
        } else if self.token is None {
            Some(Error::NotInitialized)
        } else if !fits_i128(budget + platform_fee(budget, self.platform_fee_pct)) {
            Some(Error::Overflow)
        } else if ledger_seq + duration > u32::MAX {
            Some(Error::Overflow)
        } else if !fits_i128(
            self.total_platform_fees + platform_fee(budget, self.platform_fee_pct),
        ) {
            Some(Error::Overflow)
        } else if self.advertiser_stats.contains_key(advertiser) && {
            let s = self.advertiser_stats[advertiser];
            s.total_campaigns == u32::MAX || s.active_campaigns == u32::MAX || !fits_i128(
                s.total_spent + budget,
            )
        } {
            Some(Error::Overflow)
        } else {
            None
        }
    }

    /// The advertiser's statistics after opening campaign `id` with `budget`.
    pub open spec fn stats_after_create(
        self,
        advertiser: Address,
        id: u64,
        budget: i128,
        ledger_seq: u32,
    ) -> AdvertiserStats {
        if self.advertiser_stats.contains_key(advertiser) {
            let s = self.advertiser_stats[advertiser];
            AdvertiserStats {
                total_campaigns: (s.total_campaigns + 1) as u32,
                active_campaigns: (s.active_campaigns + 1) as u32,
                total_spent: (s.total_spent + budget) as i128,
                last_campaign_id: id,
                ..s
            }
        } else {
            AdvertiserStats {
                total_campaigns: 1,
                active_campaigns: 1,
                total_spent: budget,
                total_views: 0,
                average_view_rate: 0,
                reputation_score: INITIAL_ADVERTISER_REPUTATION,
                last_campaign_id: id,
                join_ledger: ledger_seq,
            }
        }
    }

    /// Why the consulted contracts block a view, if they do.
    pub open spec fn cross_check(self, report: CrossContractReport) -> Option<Error> {
        if self.lifecycle_contract is Some && !report.lifecycle_found {
            Some(Error::CampaignNotInLifecycle)
        } else if self.escrow_contract is Some && report.escrow_found
            && !report.escrow_can_release {
            Some(Error::EscrowCannotRelease)
        } else {
            None
        }
    }

    pub open spec fn daily_count(self, campaign_id: u64, now: u64) -> u64 {
        let k = pair_key(campaign_id, day_of(now));
        if self.daily_views.contains_key(k) {
            self.daily_views[k]
        } else {
            0
        }
    }

    pub open spec fn view_check(
        self,
        ledger_seq: u32,
        now: u64,
        campaign_id: u64,
        publisher: Address,
        report: CrossContractReport,
    ) -> Option<Error> {
        if self.cross_check(report) is Some {
            self.cross_check(report)
        } else if !self.campaigns.contains_key(campaign_id) {
            Some(Error::CampaignNotFound)
        } else if !self.publishers.contains_key(publisher)
            || !self.publishers[publisher].verified {
            Some(Error::PublisherNotVerified)
        } else {
            let c = self.campaigns[campaign_id];
            if c.status != CampaignStatus::Active {
                Some(Error::CampaignNotActive)
            } else if c.current_views >= c.target_views {
                Some(Error::CampaignTargetReached)
            } else if ledger_seq > c.end_ledger {
                Some(Error::CampaignExpired)
            } else if c.remaining_budget < c.cost_per_view {
                Some(Error::InsufficientBudget)
            } else if self.daily_count(campaign_id, now) >= c.daily_view_limit {
                Some(Error::DailyViewLimitReached)
            } else if !fits_i128(c.remaining_budget - c.cost_per_view) {
                Some(Error::Overflow)
            } else if self.token is None {
                Some(Error::NotInitialized)
            } else if !fits_i128(self.publishers[publisher].total_earnings + c.cost_per_view) {
                Some(Error::Overflow)
            } else {
                None
            }
        }
    }

    /// The campaign after one more paid view at `now`; it completes when the
    /// view reaches its target.
    pub open spec fn viewed(c: Campaign, now: u64) -> Campaign {
        let views = (c.current_views + 1) as u64;
        Campaign {
            remaining_budget: (c.remaining_budget - c.cost_per_view) as i128,
            current_views: views,
            last_updated: now,
            status: if views >= c.target_views { CampaignStatus::Completed } else { c.status },
            ..c
        }
    }

    /// The orchestrator after `advertiser` opens campaign number
    /// `campaign_counter + 1`: active, with its whole budget remaining and no
    /// views, and the platform fee added to the collected fees.
    pub open spec fn created(
        self,
        ledger_seq: u32,
        now: u64,
        advertiser: Address,
        campaign_type: u32,
        budget: i128,
        cost_per_view: i128,
        duration: u32,
        target_views: u64,
        daily_view_limit: u64,
        refundable: bool,
    ) -> OrchestratorState {
        let fee = platform_fee(budget, self.platform_fee_pct);
        let id = (self.campaign_counter + 1) as u64;
        OrchestratorState {
            campaign_counter: id,
            total_platform_fees: (self.total_platform_fees + fee) as i128,
            campaigns: self.campaigns.insert(
                id,
                Campaign {
                    advertiser,
                    campaign_type,
                    budget,
                    remaining_budget: budget,
                    cost_per_view,
                    start_ledger: ledger_seq,
                    end_ledger: (ledger_seq + duration) as u32,
                    status: CampaignStatus::Active,
                    target_views,
                    current_views: 0,
                    daily_view_limit,
                    refundable,
                    platform_fee: fee as i128,
                    created_at: now,
                    last_updated: now,
                },
            ),
            advertiser_stats: self.advertiser_stats.insert(
                advertiser,
                self.stats_after_create(advertiser, id, budget, ledger_seq),
            ),
            ..self
        }
    }

    /// The orchestrator after a paid view of `campaign_id` by `publisher` at
    /// `now`: the campaign spends its cost per view, the day's count grows by
    /// one and the publisher earns the cost per view.
    pub open spec fn after_view(self, now: u64, campaign_id: u64, publisher: Address) -> OrchestratorState {
        let c = self.campaigns[campaign_id];
        let p = self.publishers[publisher];
        OrchestratorState {
            campaigns: self.campaigns.insert(campaign_id, OrchestratorState::viewed(c, now)),
            daily_views: self.daily_views.insert(
                pair_key(campaign_id, day_of(now)),
                (self.daily_count(campaign_id, now) + 1) as u64,
            ),
            publishers: self.publishers.insert(
                publisher,
                VerifiedPublisher {
                    total_earnings: (p.total_earnings + c.cost_per_view) as i128,
                    last_active: now,
                    ..p
                },
            ),
            ..self
        }
    }

    /// The orchestrator after `advertiser` cancels campaign `campaign_id` at
    /// `now`: nothing of its budget remains, and the advertiser has one active
    /// campaign less.
    pub open spec fn after_cancel(self, advertiser: Address, campaign_id: u64, now: u64) -> OrchestratorState {
        OrchestratorState {
            campaigns: self.campaigns.insert(
                campaign_id,
                Campaign {
                    remaining_budget: 0,
                    status: CampaignStatus::Cancelled,
                    last_updated: now,
                    ..self.campaigns[campaign_id]
                },
            ),
            advertiser_stats: self.stats_after_cancel(advertiser),
            ..self
        }
    }

    /// `next` is what one call leaves from this state: a refused call leaves
    /// it unchanged; an accepted call opens a campaign, records a view, sets a
    /// campaign's status, cancels a campaign, or leaves the campaigns alone
    /// and adds no campaign type that asks for a negative budget. `cancelled`
    /// names the campaign a cancellation cancelled.
    pub open spec fn campaign_step(self, next: OrchestratorState, cancelled: Option<u64>) -> bool {
        ||| next == self
        ||| exists|adv: Address, id: u64, now: u64|
            #![trigger self.cancel_check(adv, id), self.after_cancel(adv, id, now)]
            cancelled == Some(id) && self.cancel_check(adv, id) is None && next == self.after_cancel(
                adv,
                id,
                now,
            )
        ||| exists|
            seq: u32,
            now: u64,
            adv: Address,
            ct: u32,
            b: i128,
            cpv: i128,
            dur: u32,
            tv: u64,
            dvl: u64,
            rf: bool,
        |
            #![trigger self.created(seq, now, adv, ct, b, cpv, dur, tv, dvl, rf)]
            self.create_check(ct, b, dur, seq, adv) is None && next == self.created(
                seq,
                now,
                adv,
                ct,
                b,
                cpv,
                dur,
                tv,
                dvl,
                rf,
            )
        ||| exists|seq: u32, now: u64, id: u64, p: Address, rep: CrossContractReport|
            #![trigger self.view_check(seq, now, id, p, rep), self.after_view(now, id, p)]
            self.view_check(seq, now, id, p, rep) is None && next == self.after_view(now, id, p)
        ||| exists|adv: Address, id: u64, st: CampaignStatus, now: u64|
            #![trigger self.owner_check(adv, id), self.with_status(id, st, now)]
            self.owner_check(adv, id) is None && next == self.with_status(id, st, now)
        ||| (next.campaigns == self.campaigns && (self.types_valid() ==> next.types_valid()))
    }

    /// Every campaign type asks for a non-negative budget.
    pub open spec fn types_valid(self) -> bool {
        forall|t: u32| #[trigger] self.campaign_types.contains_key(t) ==> self.campaign_types[t].min_budget >= 0
    }

    /// Every campaign's budget adds up (see `budget_consistent`).
    pub open spec fn campaigns_consistent(self) -> bool {
        forall|id: u64| #[trigger] self.campaigns.contains_key(id) ==> budget_consistent(self.campaigns[id])
    }

    pub open spec fn owner_check(self, advertiser: Address, campaign_id: u64) -> Option<Error> {
        if !self.campaigns.contains_key(campaign_id) {
            Some(Error::CampaignNotFound)
        } else if self.campaigns[campaign_id].advertiser != advertiser {
            Some(Error::Unauthorized)
        } else {
            None
        }
    }

    pub open spec fn with_status(self, campaign_id: u64, status: CampaignStatus, now: u64) -> OrchestratorState {
        OrchestratorState {
            campaigns: self.campaigns.insert(
                campaign_id,
                Campaign { status, last_updated: now, ..self.campaigns[campaign_id] },
            ),
            ..self
        }
    }

    pub open spec fn cancel_check(self, advertiser: Address, campaign_id: u64) -> Option<Error> {
        if self.owner_check(advertiser, campaign_id) is Some {
            self.owner_check(advertiser, campaign_id)
        } else if !self.campaigns[campaign_id].refundable {
            Some(Error::CampaignNotRefundable)
        } else if self.campaigns[campaign_id].remaining_budget > 0 && self.token is None {
            Some(Error::NotInitialized)
        } else {
            None
        }
    }

    /// The advertiser statistics after one of its campaigns is cancelled.
    pub open spec fn stats_after_cancel(self, advertiser: Address) -> Map<Address, AdvertiserStats> {
        if self.advertiser_stats.contains_key(advertiser) {
            let s = self.advertiser_stats[advertiser];
            self.advertiser_stats.insert(
                advertiser,
                AdvertiserStats {
                    active_campaigns: if s.active_campaigns > 0 {
                        (s.active_campaigns - 1) as u32
                    } else {
                        0
                    },
                    ..s
                },
            )
        } else {
            self.advertiser_stats
        }
    }

    pub open spec fn metrics(c: Campaign) -> CampaignMetrics {
        CampaignMetrics {
            campaign: c,
            total_spent: (c.budget - c.remaining_budget) as i128,
            completion_rate: if c.target_views > 0 {
                ((c.current_views * 100) / (c.target_views as int)) as u32
            } else {
                0
            },
        }
    }
}

impl CampaignOrchestratorContract {
    /// An orchestrator that has not been initialized.
    pub fn new() -> (c: CampaignOrchestratorContract)
        ensures
            c@.roles.admin is None,
            c@.roles.pending_admin is None,
            c@.token is None,
            c@.min_campaign_amount is None,
            c@.platform_fee_pct == DEFAULT_PLATFORM_FEE_PCT,
            c@.campaign_counter == 0,
            c@.total_platform_fees == 0,
            c@.campaigns.is_empty(),
            c@.campaign_types.is_empty(),
            c@.publishers.is_empty(),
            c@.advertiser_stats.is_empty(),
            c@.daily_views.is_empty(),
            c@.lifecycle_contract is None,
            c@.escrow_contract is None,
            c@.targeting_contract is None,
            c@.auction_contract is None,
            c@.campaigns_consistent(),
            c@.types_valid(),
    {
        CampaignOrchestratorContract {
            roles: AdminRole::new(),
            token: None,
            min_campaign_amount: None,
            platform_fee_pct: DEFAULT_PLATFORM_FEE_PCT,
            campaign_counter: 0,
            total_platform_fees: 0,
            campaigns: HashMapWithView::new(),
            campaign_types: HashMapWithView::new(),
            publishers: HashMapWithView::new(),
            advertiser_stats: HashMapWithView::new(),
            daily_views: HashMapWithView::new(),
            lifecycle_contract: None,
            escrow_contract: None,
            targeting_contract: None,
            auction_contract: None,
        }
    }

    /// Makes `admin` the administrator, records the payment token, resets the
    /// counters and fee, and registers campaign type 1 ("Standard": 100 to
    /// 10000 ledgers, budget at least 1_000_000).
    pub fn initialize(&mut self, admin: Address, token_address: Address) -> (r: Result<(), Error>)
        ensures
            r == (if old(self)@.roles.admin is Some {
                Err::<(), Error>(Error::AlreadyInitialized)
            } else {
                Ok(())
            }),
            r is Ok ==> final(self)@ == (OrchestratorState {
                roles: AdminRole { admin: Some(admin), ..old(self)@.roles },
                token: Some(token_address),
                min_campaign_amount: Some(MIN_CAMPAIGN_AMOUNT),
                platform_fee_pct: DEFAULT_PLATFORM_FEE_PCT,
                campaign_counter: 0,
                total_platform_fees: 0,
                campaign_types: old(self)@.campaign_types.insert(
                    1,
                    CampaignType {
                        name: final(self)@.campaign_types[1].name,
                        min_duration: 100,
                        max_duration: 10_000,
                        min_budget: 1_000_000,
                    },
                ),
                ..old(self)@
            }),
            r is Ok ==> final(self)@.campaign_types[1].name@ == "Standard"@,
            r is Err ==> final(self)@ == old(self)@,
            old(self)@.campaign_step(final(self)@, None),
    {
        if self.roles.admin.is_some() {
            return Err(Error::AlreadyInitialized);
        }
        self.roles.admin = Some(admin);
        self.token = Some(token_address);
        self.min_campaign_amount = Some(MIN_CAMPAIGN_AMOUNT);
        self.platform_fee_pct = DEFAULT_PLATFORM_FEE_PCT;
        self.campaign_counter = 0;
        self.total_platform_fees = 0;
        let name = String::from_str("Standard");
        proof {
            reveal_strlit("Standard");
        }
        let standard = CampaignType {
            name,
            min_duration: 100,
            max_duration: 10_000,
            min_budget: 1_000_000,
        };
        self.campaign_types.insert(1, standard);
        Ok(())
    }

    /// The administrator records the lifecycle contract consulted before views.
    pub fn set_lifecycle_contract(&mut self, admin: Address, contract_address: Address) -> (r: Result<(), Error>)
        ensures
            r == (match old(self)@.roles.admin_check(admin) {
                Some(e) => Err(e),
                None => Ok(()),
            }),
            final(self)@ == (if r is Ok {
                OrchestratorState { lifecycle_contract: Some(contract_address), ..old(self)@ }
            } else {
                old(self)@
            }),
            old(self)@.campaign_step(final(self)@, None),
    {
        self.roles.require_admin(admin)?;
        self.lifecycle_contract = Some(contract_address);
        Ok(())
    }

    /// The administrator records the escrow contract consulted before views.
    pub fn set_escrow_contract(&mut self, admin: Address, contract_address: Address) -> (r: Result<(), Error>)
        ensures
            r == (match old(self)@.roles.admin_check(admin) {
                Some(e) => Err(e),
                None => Ok(()),
            }),
            final(self)@ == (if r is Ok {
                OrchestratorState { escrow_contract: Some(contract_address), ..old(self)@ }
            } else {
                old(self)@
            }),
            old(self)@.campaign_step(final(self)@, None),
    {
        self.roles.require_admin(admin)?;
        self.escrow_contract = Some(contract_address);
        Ok(())
    }

    /// The administrator records the targeting contract consulted before views.
    pub fn set_targeting_contract(&mut self, admin: Address, contract_address: Address) -> (r: Result<(), Error>)
        ensures
            r == (match old(self)@.roles.admin_check(admin) {
                Some(e) => Err(e),
                None => Ok(()),
            }),
            final(self)@ == (if r is Ok {
                OrchestratorState { targeting_contract: Some(contract_address), ..old(self)@ }
            } else {
                old(self)@
            }),
            old(self)@.campaign_step(final(self)@, None),
    {
        self.roles.require_admin(admin)?;
        self.targeting_contract = Some(contract_address);
        Ok(())
    }

    /// The administrator records the auction contract.
    pub fn set_auction_contract(&mut self, admin: Address, contract_address: Address) -> (r: Result<(), Error>)
        ensures
            r == (match old(self)@.roles.admin_check(admin) {
                Some(e) => Err(e),
                None => Ok(()),
            }),
            final(self)@ == (if r is Ok {
                OrchestratorState { auction_contract: Some(contract_address), ..old(self)@ }
            } else {
                old(self)@
            }),
            old(self)@.campaign_step(final(self)@, None),
    {
        self.roles.require_admin(admin)?;
        self.auction_contract = Some(contract_address);
        Ok(())
    }

    /// Opens a campaign of `advertiser`. The advertiser pays the budget plus
    /// the platform fee into the contract; the campaign runs for `duration`
    /// ledgers from `ledger_seq`, with its whole budget remaining.
    pub fn create_campaign(
        &mut self,
        ledger_seq: u32,
        now: u64,
        advertiser: Address,
        campaign_type: u32,
        budget: i128,
        cost_per_view: i128,
        duration: u32,
        target_views: u64,
        daily_view_limit: u64,
        refundable: bool,
    ) -> (r: Result<(u64, Transfer), Error>)
        ensures
            ({
                let s = old(self)@;
                let fee = platform_fee(budget, s.platform_fee_pct);
                let id = (s.campaign_counter + 1) as u64;
                match s.create_check(campaign_type, budget, duration, ledger_seq, advertiser) {
                    Some(e) => r == Err::<(u64, Transfer), Error>(e) && final(self)@ == s,
                    None => {
                        &&& r == Ok::<(u64, Transfer), Error>(
                            (
                                id,
                                Transfer::Collect {
                                    token: s.token.unwrap(),
                                    from: advertiser,
                                    amount: (budget + fee) as i128,
                                },
                            ),
                        )
                        &&& final(self)@ == s.created(
                            ledger_seq,
                            now,
                            advertiser,
                            campaign_type,
                            budget,
                            cost_per_view,
                            duration,
                            target_views,
                            daily_view_limit,
                            refundable,
                        )
                    },
                }
            }),
            old(self)@.campaign_step(final(self)@, None),
    {
        let (min_budget, min_duration, max_duration) = match self.campaign_types.get(&campaign_type) {
            Some(t) => (t.min_budget, t.min_duration, t.max_duration),
            None => return Err(Error::CampaignTypeNotFound),
        };
        if budget < min_budget {
            return Err(Error::BudgetTooLow);
        }
        if duration < min_duration || duration > max_duration {
            return Err(Error::InvalidDuration);
        }
        let campaign_id = match self.campaign_counter.checked_add(1) {
            Some(v) => v,
            None => return Err(Error::Overflow),
        };
        let scaled = match budget.checked_mul(self.platform_fee_pct as i128) {
            Some(v) => v,
            None => return Err(Error::Overflow),
        };
        let fee = scaled / 100;
        let token = match self.token {
            Some(t) => t,
            None => return Err(Error::NotInitialized),
        };
        let total = match budget.checked_add(fee) {
            Some(v) => v,
            None => return Err(Error::Overflow),
        };
        let end_ledger = match ledger_seq.checked_add(duration) {
            Some(v) => v,
            None => return Err(Error::Overflow),
        };
        let total_fees = match self.total_platform_fees.checked_add(fee) {
            Some(v) => v,
            None => return Err(Error::Overflow),
        };
        let stats = self.advertiser_stats_after_create(ledger_seq, advertiser, campaign_id, budget)?;
        let campaign = Campaign {
            advertiser,
            campaign_type,
            budget,
            remaining_budget: budget,
            cost_per_view,
            start_ledger: ledger_seq,
            end_ledger,
            status: CampaignStatus::Active,
            target_views,
            current_views: 0,
            daily_view_limit,
            refundable,
            platform_fee: fee,
            created_at: now,
            last_updated: now,
        };
        self.campaigns.insert(campaign_id, campaign);
        self.campaign_counter = campaign_id;
        self.total_platform_fees = total_fees;
        self.advertiser_stats.insert(advertiser, stats);
        Ok((campaign_id, Transfer::Collect { token, from: advertiser, amount: total }))
    }

    /// The statistics of `advertiser` once it opens campaign `campaign_id`
    /// with `budget` at `ledger_seq`; refused when a count or the amount spent
    /// would overflow.
    fn advertiser_stats_after_create(
        &self,
        ledger_seq: u32,
        advertiser: Address,
        campaign_id: u64,
        budget: i128,
    ) -> (r: Result<AdvertiserStats, Error>)
        ensures
            r == (if self@.advertiser_stats.contains_key(advertiser) && ({
                let s = self@.advertiser_stats[advertiser];
                s.total_campaigns == u32::MAX || s.active_campaigns == u32::MAX || !fits_i128(
                    s.total_spent + budget,
                )
            }) {
                Err::<AdvertiserStats, Error>(Error::Overflow)
            } else {
                Ok(self@.stats_after_create(advertiser, campaign_id, budget, ledger_seq))
            }),
    {
        match self.advertiser_stats.get(&advertiser) {
            Some(s) => {
                let s = *s;
                if s.total_campaigns == u32::MAX || s.active_campaigns == u32::MAX {
                    return Err(Error::Overflow);
                }
                let spent = match s.total_spent.checked_add(budget) {
                    Some(v) => v,
                    None => return Err(Error::Overflow),
                };
                Ok(
                    AdvertiserStats {
                        total_campaigns: s.total_campaigns + 1,
                        active_campaigns: s.active_campaigns + 1,
                        total_spent: spent,
                        last_campaign_id: campaign_id,
                        ..s
                    },
                )
            },
            None => Ok(
                AdvertiserStats {
                    total_campaigns: 1,
                    active_campaigns: 1,
                    total_spent: budget,
                    total_views: 0,
                    average_view_rate: 0,
                    reputation_score: INITIAL_ADVERTISER_REPUTATION,
                    last_campaign_id: campaign_id,
                    join_ledger: ledger_seq,
                },
            ),
        }
    }

    /// Weighs what the consulted contracts answered before a view: the
    /// lifecycle contract must know the campaign, and an escrow that exists
    /// must allow release. The result says whether targeting is configured for
    /// the campaign but has no score for the publisher, which only warrants a
    /// warning.
    fn validate_campaign_cross_contract(&self, report: CrossContractReport) -> (r: Result<bool, Error>)
        ensures
            r == (match self@.cross_check(report) {
                Some(e) => Err(e),
                None => Ok(self@.targeting_contract is Some && report.targeting_found
                    && !report.score_found),
            }),
    {
        if self.lifecycle_contract.is_some() && !report.lifecycle_found {
            return Err(Error::CampaignNotInLifecycle);
        }
        if self.escrow_contract.is_some() && report.escrow_found && !report.escrow_can_release {
            return Err(Error::EscrowCannotRelease);
        }
        Ok(self.targeting_contract.is_some() && report.targeting_found && !report.score_found)
    }

    /// Records a view of campaign `campaign_id` served by `publisher`, after
    /// the consulted contracts have agreed (`report`). The campaign pays the
    /// publisher its cost per view; the view counts toward the target and the
    /// day's limit, and the campaign completes at its target.
    pub fn record_view(
        &mut self,
        ledger_seq: u32,
        now: u64,
        campaign_id: u64,
        publisher: Address,
        report: CrossContractReport,
    ) -> (r: Result<ViewOutcome, Error>)
        ensures
            ({
                let s = old(self)@;
                match s.view_check(ledger_seq, now, campaign_id, publisher, report) {
                    Some(e) => r == Err::<ViewOutcome, Error>(e) && final(self)@ == s,
                    None => {
                        let c = s.campaigns[campaign_id];
                        let p = s.publishers[publisher];
                        &&& r == Ok::<ViewOutcome, Error>(
                            ViewOutcome {
                                payment: Transfer::Pay {
                                    token: s.token.unwrap(),
                                    to: publisher,
                                    amount: c.cost_per_view,
                                },
                                warn_no_score: s.targeting_contract is Some
                                    && report.targeting_found && !report.score_found,
                            },
                        )
                        &&& final(self)@ == s.after_view(now, campaign_id, publisher)
                    },
                }
            }),
            r is Ok ==> final(self)@.campaigns[campaign_id].remaining_budget
                + final(self)@.publishers[publisher].total_earnings
                == old(self)@.campaigns[campaign_id].remaining_budget
                + old(self)@.publishers[publisher].total_earnings,
            r is Ok ==> r->Ok_0.payment == (Transfer::Pay {
                token: old(self)@.token.unwrap(),
                to: publisher,
                amount: (old(self)@.campaigns[campaign_id].remaining_budget
                    - final(self)@.campaigns[campaign_id].remaining_budget) as i128,
            }),
            old(self)@.campaign_step(final(self)@, None),
    {
        let warn_no_score = self.validate_campaign_cross_contract(report)?;
        let c = match self.campaigns.get(&campaign_id) {
            Some(c) => *c,
            None => return Err(Error::CampaignNotFound),
        };
        let p = match self.publishers.get(&publisher) {
            Some(p) => *p,
            None => return Err(Error::PublisherNotVerified),
        };
        if !p.verified {
            return Err(Error::PublisherNotVerified);
        }
        if c.status != CampaignStatus::Active {
            return Err(Error::CampaignNotActive);
        }
        if c.current_views >= c.target_views {
            return Err(Error::CampaignTargetReached);
        }
        if ledger_seq > c.end_ledger {
            return Err(Error::CampaignExpired);
        }
        if c.remaining_budget < c.cost_per_view {
            return Err(Error::InsufficientBudget);
        }
        let day = now / DAY_SECS;
        let daily_key = make_pair_key(campaign_id, day);
        let daily = match self.daily_views.get(&daily_key) {
            Some(v) => *v,
            None => 0,
        };
        if daily >= c.daily_view_limit {
            return Err(Error::DailyViewLimitReached);
        }
        let remaining = match c.remaining_budget.checked_sub(c.cost_per_view) {
            Some(v) => v,
            None => return Err(Error::Overflow),
        };
        let token = match self.token {
            Some(t) => t,
            None => return Err(Error::NotInitialized),
        };
        let earnings = match p.total_earnings.checked_add(c.cost_per_view) {
            Some(v) => v,
            None => return Err(Error::Overflow),
        };
        let views = c.current_views + 1;
        let updated = Campaign {
            remaining_budget: remaining,
            current_views: views,
            last_updated: now,
            status: if views >= c.target_views { CampaignStatus::Completed } else { c.status },
            ..c
        };
        self.campaigns.insert(campaign_id, updated);
        self.daily_views.insert(daily_key, daily + 1);
        self.publishers.insert(
            publisher,
            VerifiedPublisher { total_earnings: earnings, last_active: now, ..p },
        );
        Ok(
            ViewOutcome {
                payment: Transfer::Pay { token, to: publisher, amount: c.cost_per_view },
                warn_no_score,
            },
        )
    }

    /// The advertiser pauses its campaign.
    pub fn pause_campaign(&mut self, now: u64, advertiser: Address, campaign_id: u64) -> (r: Result<(), Error>)
        ensures
            r == (match old(self)@.owner_check(advertiser, campaign_id) {
                Some(e) => Err(e),
                None => Ok(()),
            }),
            final(self)@ == (if r is Ok {
                old(self)@.with_status(campaign_id, CampaignStatus::Paused, now)
            } else {
                old(self)@
            }),
            old(self)@.campaign_step(final(self)@, None),
    {
        self.set_status(now, advertiser, campaign_id, CampaignStatus::Paused)
    }

    /// The advertiser makes its campaign active again.
    pub fn resume_campaign(&mut self, now: u64, advertiser: Address, campaign_id: u64) -> (r: Result<(), Error>)
        ensures
            r == (match old(self)@.owner_check(advertiser, campaign_id) {
                Some(e) => Err(e),
                None => Ok(()),
            }),
            final(self)@ == (if r is Ok {
                old(self)@.with_status(campaign_id, CampaignStatus::Active, now)
            } else {
                old(self)@
            }),
            old(self)@.campaign_step(final(self)@, None),
    {
        self.set_status(now, advertiser, campaign_id, CampaignStatus::Active)
    }

    fn set_status(&mut self, now: u64, advertiser: Address, campaign_id: u64, status: CampaignStatus) -> (r: Result<(), Error>)
        ensures
            r == (match old(self)@.owner_check(advertiser, campaign_id) {
                Some(e) => Err(e),
                None => Ok(()),
            }),
            final(self)@ == (if r is Ok {
                old(self)@.with_status(campaign_id, status, now)
            } else {
                old(self)@
            }),
    {
        let c = match self.campaigns.get(&campaign_id) {
            Some(c) => *c,
            None => return Err(Error::CampaignNotFound),
        };
        if c.advertiser != advertiser {
            return Err(Error::Unauthorized);
        }
        self.campaigns.insert(campaign_id, Campaign { status, last_updated: now, ..c });
        Ok(())
    }

    /// The advertiser cancels a refundable campaign: it is marked cancelled,
    /// its remaining budget (if positive) is paid back, and the advertiser's
    /// count of active campaigns drops by one (not below zero).
    pub fn cancel_campaign(&mut self, now: u64, advertiser: Address, campaign_id: u64) -> (r: Result<Option<Transfer>, Error>)
        ensures
            ({
                let s = old(self)@;
                match s.cancel_check(advertiser, campaign_id) {
                    Some(e) => r == Err::<Option<Transfer>, Error>(e) && final(self)@ == s,
                    None => {
                        let c = s.campaigns[campaign_id];
                        &&& r == Ok::<Option<Transfer>, Error>(
                            if c.remaining_budget > 0 {
                                Some(
                                    Transfer::Pay {
                                        token: s.token.unwrap(),
                                        to: advertiser,
                                        amount: c.remaining_budget,
                                    },
                                )
                            } else {
                                None
                            },
                        )
                        &&& final(self)@ == s.after_cancel(advertiser, campaign_id, now)
                    },
                }
            }),
            old(self)@.campaign_step(final(self)@, Some(campaign_id)),
    {
        let c = match self.campaigns.get(&campaign_id) {
            Some(c) => *c,
            None => return Err(Error::CampaignNotFound),
        };
        if c.advertiser != advertiser {
            return Err(Error::Unauthorized);
        }
        if !c.refundable {
            return Err(Error::CampaignNotRefundable);
        }
        let refund = c.remaining_budget;
        let payment = if refund > 0 {
            match self.token {
                Some(token) => Some(Transfer::Pay { token, to: advertiser, amount: refund }),
                None => return Err(Error::NotInitialized),
            }
        } else {
            None
        };
        self.campaigns.insert(
            campaign_id,
            Campaign {
                remaining_budget: 0,
                status: CampaignStatus::Cancelled,
                last_updated: now,
                ..c
            },
        );
        let stats = match self.advertiser_stats.get(&advertiser) {
            Some(s) => Some(*s),
            None => None,
        };
        if let Some(s) = stats {
            let active = if s.active_campaigns > 0 { s.active_campaigns - 1 } else { 0 };
            self.advertiser_stats.insert(
                advertiser,
                AdvertiserStats { active_campaigns: active, ..s },
            );
        }
        Ok(payment)
    }

    /// The administrator verifies `publisher` with a starting reputation,
    /// replacing any earlier record of it.
    pub fn verify_publisher(
        &mut self,
        ledger_seq: u32,
        now: u64,
        admin: Address,
        publisher: Address,
        initial_score: u32,
    ) -> (r: Result<(), Error>)
        ensures
            r == (match old(self)@.roles.admin_check(admin) {
                Some(e) => Err(e),
                None => Ok(()),
            }),
            final(self)@ == (if r is Ok {
                OrchestratorState {
                    publishers: old(self)@.publishers.insert(
                        publisher,
                        VerifiedPublisher {
                            verified: true,
                            reputation_score: initial_score,
                            total_earnings: 0,
                            join_ledger: ledger_seq,
                            last_active: now,
                        },
                    ),
                    ..old(self)@
                }
            } else {
                old(self)@
            }),
            old(self)@.campaign_step(final(self)@, None),
    {
        self.roles.require_admin(admin)?;
        self.publishers.insert(
            publisher,
            VerifiedPublisher {
                verified: true,
                reputation_score: initial_score,
                total_earnings: 0,
                join_ledger: ledger_seq,
                last_active: now,
            },
        );
        Ok(())
    }

    /// The administrator sets the platform fee, at most 10 percent.
    pub fn set_platform_fee(&mut self, admin: Address, fee_pct: u32) -> (r: Result<(), Error>)
        ensures
            r == (if old(self)@.roles.admin_check(admin) is Some {
                Err::<(), Error>(old(self)@.roles.admin_check(admin).unwrap())
            } else if fee_pct > MAX_PLATFORM_FEE_PCT {
                Err(Error::FeeTooHigh)
            } else {
                Ok(())
            }),
            final(self)@ == (if r is Ok {
                OrchestratorState { platform_fee_pct: fee_pct, ..old(self)@ }
            } else {
                old(self)@
            }),
            old(self)@.campaign_step(final(self)@, None),
    {
        self.roles.require_admin(admin)?;
        if fee_pct > MAX_PLATFORM_FEE_PCT {
            return Err(Error::FeeTooHigh);
        }
        self.platform_fee_pct = fee_pct;
        Ok(())
    }

    pub fn get_campaign(&self, campaign_id: u64) -> (r: Option<Campaign>)
        ensures
            r == (if self@.campaigns.contains_key(campaign_id) {
                Some(self@.campaigns[campaign_id])
            } else {
                None
            }),
    {
        match self.campaigns.get(&campaign_id) {
            Some(c) => Some(*c),
            None => None,
        }
    }

    /// A campaign with its spent amount and completion percentage.
    pub fn get_campaign_metrics(&self, campaign_id: u64) -> (r: Option<CampaignMetrics>)
        requires
            self@.campaigns.contains_key(campaign_id) ==> {
                let c = self@.campaigns[campaign_id];
                &&& fits_i128(c.budget - c.remaining_budget)
                &&& c.target_views > 0 ==> c.current_views * 100 <= u64::MAX
            },
        ensures
            r == (if self@.campaigns.contains_key(campaign_id) {
                Some(OrchestratorState::metrics(self@.campaigns[campaign_id]))
            } else {
                None
            }),
    {
        let c = match self.campaigns.get(&campaign_id) {
            Some(c) => *c,
            None => return None,
        };
        let total_spent = c.budget - c.remaining_budget;
        let completion_rate = if c.target_views > 0 {
            ((c.current_views * 100) / c.target_views) as u32
        } else {
            0
        };
        Some(CampaignMetrics { campaign: c, total_spent, completion_rate })
    }

    pub fn get_publisher_metrics(&self, publisher: Address) -> (r: Option<VerifiedPublisher>)
        ensures
            r == (if self@.publishers.contains_key(publisher) {
                Some(self@.publishers[publisher])
            } else {
                None
            }),
    {
        match self.publishers.get(&publisher) {
            Some(p) => Some(*p),
            None => None,
        }
    }

    pub fn get_advertiser_stats(&self, advertiser: Address) -> (r: Option<AdvertiserStats>)
        ensures
            r == (if self@.advertiser_stats.contains_key(advertiser) {
                Some(self@.advertiser_stats[advertiser])
            } else {
                None
            }),
    {
        match self.advertiser_stats.get(&advertiser) {
            Some(s) => Some(*s),
            None => None,
        }
    }

    /// The number of campaigns created (the last identifier given).
    pub fn get_campaign_count(&self) -> (r: u64)
        ensures
            r == self@.campaign_counter,
    {
        self.campaign_counter
    }

    /// The contracts that `record_view` consults, in the order lifecycle,
    /// escrow, targeting; the host reads their answers into a
    /// `CrossContractReport`.
    pub fn consulted_contracts(&self) -> (r: (Option<Address>, Option<Address>, Option<Address>))
        ensures
            r == (self@.lifecycle_contract, self@.escrow_contract, self@.targeting_contract),
    {
        (self.lifecycle_contract, self.escrow_contract, self.targeting_contract)
    }

    /// The administrator offers its role to `new_admin`.
    pub fn propose_admin(&mut self, current_admin: Address, new_admin: Address) -> (r: Result<(), Error>)
        ensures
            r == (match old(self)@.roles.propose_check(current_admin) {
                Some(e) => Err(e),
                None => Ok(()),
            }),
            final(self)@ == (if r is Ok {
                OrchestratorState { roles: old(self)@.roles.proposed(new_admin), ..old(self)@ }
            } else {
                old(self)@
            }),
            old(self)@.campaign_step(final(self)@, None),
    {
        self.roles.propose_admin(current_admin, new_admin)
    }

    /// The offered successor takes the administrator role.
    pub fn accept_admin(&mut self, new_admin: Address) -> (r: Result<(), Error>)
        ensures
            r == (match old(self)@.roles.accept_check(new_admin) {
                Some(e) => Err(e),
                None => Ok(()),
            }),
            final(self)@ == (if r is Ok {
                OrchestratorState { roles: old(self)@.roles.accepted(new_admin), ..old(self)@ }
            } else {
                old(self)@
            }),
            old(self)@.campaign_step(final(self)@, None),
    {
        self.roles.accept_admin(new_admin)
    }
}

/// Campaign budgets stay consistent: a fresh orchestrator and initialization
/// start with consistent campaigns and budget rules, and creating a campaign,
/// recording a view, pausing and resuming keep every campaign's remaining
/// budget equal to its budget less cost per view times views, never negative,
/// with the views within the target.
pub proof fn law_campaign_budget_consistent(
    s: OrchestratorState,
    ledger_seq: u32,
    now: u64,
    advertiser: Address,
    campaign_type: u32,
    budget: i128,
    cost_per_view: i128,
    duration: u32,
    target_views: u64,
    daily_view_limit: u64,
    refundable: bool,
    campaign_id: u64,
    publisher: Address,
    report: CrossContractReport,
    status: CampaignStatus,
    standard_name: String,
)
    requires
        s.campaigns_consistent(),
        s.types_valid(),
    ensures
        (OrchestratorState { campaigns: Map::empty(), campaign_types: Map::empty(), ..s })
            .campaigns_consistent(),
        (OrchestratorState { campaigns: Map::empty(), campaign_types: Map::empty(), ..s })
            .types_valid(),
        (OrchestratorState {
            campaign_types: s.campaign_types.insert(
                1,
                CampaignType {
                    name: standard_name,
                    min_duration: 100,
                    max_duration: 10_000,
                    min_budget: 1_000_000,
                },
            ),
            ..s
        }).types_valid(),
        s.create_check(campaign_type, budget, duration, ledger_seq, advertiser) is None ==> {
            let after = s.created(
                ledger_seq,
                now,
                advertiser,
                campaign_type,
                budget,
                cost_per_view,
                duration,
                target_views,
                daily_view_limit,
                refundable,
            );
            after.campaigns_consistent() && after.types_valid()
        },
        s.view_check(ledger_seq, now, campaign_id, publisher, report) is None ==> {
            let after = s.after_view(now, campaign_id, publisher);
            after.campaigns_consistent() && after.types_valid()
        },
        s.owner_check(advertiser, campaign_id) is None ==> {
            let after = s.with_status(campaign_id, status, now);
            after.campaigns_consistent() && after.types_valid()
        },
{
    if s.create_check(campaign_type, budget, duration, ledger_seq, advertiser) is None {
        let after = s.created(
            ledger_seq,
            now,
            advertiser,
            campaign_type,
            budget,
            cost_per_view,
            duration,
            target_views,
            daily_view_limit,
            refundable,
        );
        assert(s.campaign_types.contains_key(campaign_type));
        assert forall|id: u64| #[trigger] after.campaigns.contains_key(id) implies budget_consistent(
            after.campaigns[id],
        ) by {
            if id != (s.campaign_counter + 1) as u64 {
                assert(s.campaigns.contains_key(id));
            }
        }
    }
    if s.view_check(ledger_seq, now, campaign_id, publisher, report) is None {
        let after = s.after_view(now, campaign_id, publisher);
        let c = s.campaigns[campaign_id];
        assert(budget_consistent(c));
        let v = c.current_views as int;
        let k = c.cost_per_view as int;
        assert(k * (v + 1) == k * v + k) by (nonlinear_arith);
        assert forall|id: u64| #[trigger] after.campaigns.contains_key(id) implies budget_consistent(
            after.campaigns[id],
        ) by {
            if id != campaign_id {
                assert(s.campaigns.contains_key(id));
            }
        }
    }
    if s.owner_check(advertiser, campaign_id) is None {
        let after = s.with_status(campaign_id, status, now);
        assert forall|id: u64| #[trigger] after.campaigns.contains_key(id) implies budget_consistent(
            after.campaigns[id],
        ) by {
            assert(s.campaigns.contains_key(id));
        }
    }
}

/// Each state of `trace` comes from the one before by a call (see
/// `campaign_step`), and none of these calls cancels campaign `d`.
pub open spec fn calls_spare(trace: Seq<OrchestratorState>, cancelled: Seq<Option<u64>>, d: u64) -> bool {
    forall|i: int|
        0 <= i < cancelled.len() ==> #[trigger] trace[i].campaign_step(trace[i + 1], cancelled[i])
            && cancelled[i] != Some(d)
}

/// Campaign `d`'s budget stays consistent over any sequence of calls that
/// does not cancel it: starting from a state where campaign `d`, if it exists,
/// is consistent and the budget rules ask for no negative budget (a fresh
/// orchestrator is such a state), after every call campaign `d`, once it
/// exists, has a remaining budget equal to its budget less cost per view
/// times views, never negative, with its views within its target. Other
/// campaigns may be cancelled along the way.
pub proof fn law_campaign_budget_over_calls(
    trace: Seq<OrchestratorState>,
    cancelled: Seq<Option<u64>>,
    d: u64,
)
    requires
        trace.len() == cancelled.len() + 1,
        trace[0].types_valid(),
        trace[0].campaigns.contains_key(d) ==> budget_consistent(trace[0].campaigns[d]),
        calls_spare(trace, cancelled, d),
    ensures
        trace.last().types_valid(),
        trace.last().campaigns.contains_key(d) ==> budget_consistent(trace.last().campaigns[d]),
    decreases cancelled.len(),
{
    if cancelled.len() > 0 {
        let n = cancelled.len() - 1;
        let t = trace.drop_last();
        let c = cancelled.drop_last();
        assert forall|i: int| 0 <= i < c.len() implies #[trigger] t[i].campaign_step(t[i + 1], c[i])
            && c[i] != Some(d) by {
            assert(trace[i].campaign_step(trace[i + 1], cancelled[i]));
        }
        assert(calls_spare(t, c, d));
        law_campaign_budget_over_calls(t, c, d);
        assert(trace.drop_last().last() == trace[n]);
        assert(trace[n].campaign_step(trace[n + 1], cancelled[n]));
        lemma_campaign_step(trace[n], trace[n + 1], cancelled[n], d);
    }
}

/// One call that does not cancel campaign `d` keeps it consistent (once it
/// exists) and keeps the budget rules non-negative.
proof fn lemma_campaign_step(s: OrchestratorState, next: OrchestratorState, cancelled: Option<u64>, d: u64)
    requires
        s.types_valid(),
        s.campaigns.contains_key(d) ==> budget_consistent(s.campaigns[d]),
        s.campaign_step(next, cancelled),
        cancelled != Some(d),
    ensures
        next.types_valid(),
        next.campaigns.contains_key(d) ==> budget_consistent(next.campaigns[d]),
{
    if next == s {
    } else if exists|adv: Address, id: u64, now: u64|
        #![trigger s.cancel_check(adv, id), s.after_cancel(adv, id, now)]
        cancelled == Some(id) && s.cancel_check(adv, id) is None && next == s.after_cancel(adv, id, now) {
        let (adv, id, now) = choose|adv: Address, id: u64, now: u64|
            #![trigger s.cancel_check(adv, id), s.after_cancel(adv, id, now)]
            cancelled == Some(id) && s.cancel_check(adv, id) is None && next == s.after_cancel(
                adv,
                id,
                now,
            );
        assert(id != d);
    } else if exists|
        seq: u32,
        now: u64,
        adv: Address,
        ct: u32,
        b: i128,
        cpv: i128,
        dur: u32,
        tv: u64,
        dvl: u64,
        rf: bool,
    |
        #![trigger s.created(seq, now, adv, ct, b, cpv, dur, tv, dvl, rf)]
        s.create_check(ct, b, dur, seq, adv) is None && next == s.created(
            seq,
            now,
            adv,
            ct,
            b,
            cpv,
            dur,
            tv,
            dvl,
            rf,
        ) {
        let (seq, now, adv, ct, b, cpv, dur, tv, dvl, rf) = choose|
            seq: u32,
            now: u64,
            adv: Address,
            ct: u32,
            b: i128,
            cpv: i128,
            dur: u32,
            tv: u64,
            dvl: u64,
            rf: bool,
        |
            #![trigger s.created(seq, now, adv, ct, b, cpv, dur, tv, dvl, rf)]
            s.create_check(ct, b, dur, seq, adv) is None && next == s.created(
                seq,
                now,
                adv,
                ct,
                b,
                cpv,
                dur,
                tv,
                dvl,
                rf,
            );
        assert(s.campaign_types.contains_key(ct));
    } else if exists|seq: u32, now: u64, id: u64, p: Address, rep: CrossContractReport|
        #![trigger s.view_check(seq, now, id, p, rep), s.after_view(now, id, p)]
        s.view_check(seq, now, id, p, rep) is None && next == s.after_view(now, id, p) {
        let (seq, now, id, p, rep) = choose|seq: u32, now: u64, id: u64, p: Address, rep: CrossContractReport|
            #![trigger s.view_check(seq, now, id, p, rep), s.after_view(now, id, p)]
            s.view_check(seq, now, id, p, rep) is None && next == s.after_view(now, id, p);
        if id == d {
            let c = s.campaigns[d];
            let v = c.current_views as int;
            let k = c.cost_per_view as int;
            assert(k * (v + 1) == k * v + k) by (nonlinear_arith);
        }
    } else if exists|adv: Address, id: u64, st: CampaignStatus, now: u64|
        #![trigger s.owner_check(adv, id), s.with_status(id, st, now)]
        s.owner_check(adv, id) is None && next == s.with_status(id, st, now) {
    } else {
        assert(next.campaigns == s.campaigns);
    }
}

/// The daily view limit counts views per campaign and per calendar day of
/// the ledger clock (the timestamp divided by 86_400): a view is accepted
/// only while the campaign's count for that day is below its limit, the
/// accepted view raises the count seen at every timestamp of the same day by
/// one, and leaves the counts of other days and other campaigns as they were.
pub proof fn law_daily_limit_per_day(
    s: OrchestratorState,
    ledger_seq: u32,
    now: u64,
    campaign_id: u64,
    publisher: Address,
    report: CrossContractReport,
    other_campaign: u64,
    later: u64,
)
    requires
        s.view_check(ledger_seq, now, campaign_id, publisher, report) is None,
    ensures
        s.daily_count(campaign_id, now) < s.campaigns[campaign_id].daily_view_limit,
        later / 86_400 == now / 86_400 ==> s.after_view(now, campaign_id, publisher).daily_count(
            campaign_id,
            later,
        ) == s.daily_count(campaign_id, now) + 1,
        later / 86_400 != now / 86_400 ==> s.after_view(now, campaign_id, publisher).daily_count(
            campaign_id,
            later,
        ) == s.daily_count(campaign_id, later),
        other_campaign != campaign_id ==> s.after_view(now, campaign_id, publisher).daily_count(
            other_campaign,
            later,
        ) == s.daily_count(other_campaign, later),
{
    crate::types::lemma_pair_key_injective(campaign_id, day_of(now), campaign_id, day_of(later));
    crate::types::lemma_pair_key_injective(campaign_id, day_of(now), other_campaign, day_of(later));
}

} // verus!
