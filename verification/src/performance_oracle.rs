//! Performance oracle: authorized attesters report the impressions, clicks,
//! fraud rate and quality of a campaign; once enough have reported, the
//! consensus is the average of all reports.
use vstd::prelude::*;
use vstd::hash_map::HashMapWithView;
use crate::types::{Address, pair_key, make_pair_key};
use crate::error::Error;
use crate::admin::AdminRole;

verus! {

broadcast use vstd::std_specs::hash::group_hash_axioms;

/// Number of reports needed for a consensus, until initialization sets one.
pub const DEFAULT_MIN_ATTESTERS: u32 = 3;
/// Majority recorded at initialization, in percent (two thirds).
pub const CONSENSUS_THRESHOLD_PCT: u32 = 67;

#[derive(Clone, Copy, Debug, PartialEq, Eq)]
pub struct PerformanceAttestation {
    pub campaign_id: u64,
    pub attester: Address,
    pub impressions_verified: u64,
    pub clicks_verified: u64,
    /// Basis points.
    pub fraud_rate: u32,
    /// 0 to 100.
    pub quality_score: u32,
    /// Hash of the raw performance data.
    pub data_hash: [u8; 32],
    pub attested_at: u64,
    pub ledger_sequence: u32,
}

#[derive(Clone, Copy, Debug, PartialEq, Eq)]
pub struct OracleConsensus {
    pub campaign_id: u64,
    pub total_attesters: u32,
    pub avg_impressions: u64,
    pub avg_clicks: u64,
    pub avg_fraud_rate: u32,
    pub avg_quality_score: u32,
    pub consensus_reached: bool,
    pub last_updated: u64,
}

/// The oracle's storage as mathematical values. Reports are keyed by
/// `pair_key(campaign_id, attester)`, and the `i`-th attester of a campaign by
/// `pair_key(campaign_id, i)`.
#[verifier::ext_equal]
pub struct OracleState {
    pub roles: AdminRole,
    pub min_attesters: u32,
    pub consensus_threshold_pct: Option<u32>,
    pub attesters: Map<Address, bool>,
    pub attestations: Map<u128, PerformanceAttestation>,
    pub attestation_count: Map<u64, u32>,
    pub consensus: Map<u64, OracleConsensus>,
    pub attester_index: Map<u128, Address>,
}

pub struct PerformanceOracleContract {
    roles: AdminRole,
    min_attesters: u32,
    consensus_threshold_pct: Option<u32>,
    attesters: HashMapWithView<u64, bool>,
    attestations: HashMapWithView<u128, PerformanceAttestation>,
    attestation_count: HashMapWithView<u64, u32>,
    consensus: HashMapWithView<u64, OracleConsensus>,
    attester_index: HashMapWithView<u128, Address>,
}

impl View for PerformanceOracleContract {
    type V = OracleState;

    closed spec fn view(&self) -> OracleState {
        OracleState {
            roles: self.roles,
            min_attesters: self.min_attesters,
            consensus_threshold_pct: self.consensus_threshold_pct,
            attesters: self.attesters@,
            attestations: self.attestations@,
            attestation_count: self.attestation_count@,
            consensus: self.consensus@,
            attester_index: self.attester_index@,
        }
    }
}

/// A figure of a report.
#[derive(Clone, Copy, Debug, PartialEq, Eq)]
pub enum Figure {
    Impressions,
    Clicks,
    FraudRate,
    QualityScore,
}

/// The value of figure `f` in report `a`.
pub open spec fn figure(a: PerformanceAttestation, f: Figure) -> int {
    match f {
        Figure::Impressions => a.impressions_verified as int,
        Figure::Clicks => a.clicks_verified as int,
        Figure::FraudRate => a.fraud_rate as int,
        Figure::QualityScore => a.quality_score as int,
    }
}

/// `a + b`, saturating at the largest `u64`.
pub open spec fn sat_add(a: int, b: int) -> int {
    if a + b > u64::MAX {
        u64::MAX as int
    } else {
        a + b
    }
}

impl OracleState {
    pub open spec fn count_of(self, campaign_id: u64) -> u32 {
        if self.attestation_count.contains_key(campaign_id) {
            self.attestation_count[campaign_id]
        } else {
            0
        }
    }

    /// The report of the `i`-th attester of a campaign.
    pub open spec fn report_at(self, campaign_id: u64, i: int) -> PerformanceAttestation {
        self.attestations[pair_key(campaign_id, self.attester_index[pair_key(campaign_id, i as u64)])]
    }

    /// Why the first `n` reports of a campaign cannot all be read, if they
    /// cannot: the first attester without an index entry or without a report.
    pub open spec fn scan_error(self, campaign_id: u64, n: nat) -> Option<Error>
        decreases n,
    {
        if n == 0 {
            None
        } else if self.scan_error(campaign_id, (n - 1) as nat) is Some {
            self.scan_error(campaign_id, (n - 1) as nat)
        } else if !self.attester_index.contains_key(pair_key(campaign_id, (n - 1) as u64)) {
            Some(Error::AttesterIndexNotFound)
        } else if !self.attestations.contains_key(
            pair_key(campaign_id, self.attester_index[pair_key(campaign_id, (n - 1) as u64)]),
        ) {
            Some(Error::AttestationNotFound)
        } else {
            None
        }
    }

    /// The saturating sum of figure `f` over the first `n` reports of a
    /// campaign.
    pub open spec fn sum_of(self, campaign_id: u64, n: nat, f: Figure) -> int
        decreases n,
    {
        if n == 0 {
            0
        } else {
            sat_add(
                self.sum_of(campaign_id, (n - 1) as nat, f),
                figure(self.report_at(campaign_id, n - 1), f),
            )
        }
    }

    /// The consensus over the first `total` reports of a campaign: the mean
    /// of each figure, rounded down, with sums saturating at the largest
    /// `u64`.
    pub open spec fn consensus_of(self, campaign_id: u64, total: u32, now: u64) -> OracleConsensus {
        let n = total as nat;
        let fraud = self.sum_of(campaign_id, n, Figure::FraudRate)
            / (total as int);
        let quality = self.sum_of(
            campaign_id,
            n,
            Figure::QualityScore,
        ) / (total as int);
        OracleConsensus {
            campaign_id,
            total_attesters: total,
            avg_impressions: (self.sum_of(
                campaign_id,
                n,
                Figure::Impressions,
            ) / (total as int)) as u64,
            avg_clicks: (self.sum_of(
                campaign_id,
                n,
                Figure::Clicks,
            ) / (total as int)) as u64,
            avg_fraud_rate: (if fraud > u32::MAX { u32::MAX as int } else { fraud }) as u32,
            avg_quality_score: (if quality > u32::MAX {
                u32::MAX as int
            } else {
                quality
            }) as u32,
            consensus_reached: true,
            last_updated: now,
        }
    }

    /// The oracle after `report` of `attester` is recorded as the next report
    /// of its campaign.
    pub open spec fn recorded(self, attester: Address, report: PerformanceAttestation) -> OracleState {
        let c = report.campaign_id;
        OracleState {
            attestations: self.attestations.insert(pair_key(c, attester), report),
            attester_index: self.attester_index.insert(pair_key(c, self.count_of(c) as u64), attester),
            attestation_count: self.attestation_count.insert(c, (self.count_of(c) + 1) as u32),
            ..self
        }
    }

    /// Whether recording a report that makes `total` reports computes a
    /// consensus.
    pub open spec fn builds_consensus(self, total: u32) -> bool {
        total != 0 && total >= self.min_attesters
    }

    pub open spec fn submit_check(self, attester: Address, report: PerformanceAttestation) -> Option<Error> {
        let c = report.campaign_id;
        if !(self.attesters.contains_key(attester) && self.attesters[attester]) {
            Some(Error::NotAuthorizedAttester)
        } else if self.attestations.contains_key(pair_key(c, attester)) {
            Some(Error::AlreadyAttested)
        } else if self.count_of(c) == u32::MAX {
            Some(Error::Overflow)
        } else if self.builds_consensus((self.count_of(c) + 1) as u32) {
            self.recorded(attester, report).scan_error(c, (self.count_of(c) + 1) as nat)
        } else {
            None
        }
    }
}

impl PerformanceOracleContract {
    /// An oracle that has not been initialized.
    pub fn new() -> (c: PerformanceOracleContract)
        ensures
            c@.roles.admin is None,
            c@.roles.pending_admin is None,
            c@.min_attesters == DEFAULT_MIN_ATTESTERS,
            c@.consensus_threshold_pct is None,
            c@.attesters.is_empty(),
            c@.attestations.is_empty(),
            c@.attestation_count.is_empty(),
            c@.consensus.is_empty(),
            c@.attester_index.is_empty(),
    {
        PerformanceOracleContract {
            roles: AdminRole::new(),
            min_attesters: DEFAULT_MIN_ATTESTERS,
            consensus_threshold_pct: None,
            attesters: HashMapWithView::new(),
            attestations: HashMapWithView::new(),
            attestation_count: HashMapWithView::new(),
            consensus: HashMapWithView::new(),
            attester_index: HashMapWithView::new(),
        }
    }

    /// Makes `admin` the administrator and sets how many reports make a
    /// consensus.
    pub fn initialize(&mut self, admin: Address, min_attesters: u32) -> (r: Result<(), Error>)
        ensures
            r == (if old(self)@.roles.admin is Some {
                Err::<(), Error>(Error::AlreadyInitialized)
            } else {
                Ok(())
            }),
            final(self)@ == (if r is Ok {
                OracleState {
                    roles: AdminRole { admin: Some(admin), ..old(self)@.roles },
                    min_attesters,
                    consensus_threshold_pct: Some(CONSENSUS_THRESHOLD_PCT),
                    ..old(self)@
                }
            } else {
                old(self)@
            }),
    {
        if self.roles.admin.is_some() {
            return Err(Error::AlreadyInitialized);
        }
        self.roles.admin = Some(admin);
        self.min_attesters = min_attesters;
        self.consensus_threshold_pct = Some(CONSENSUS_THRESHOLD_PCT);
        Ok(())
    }

    /// The administrator authorizes `attester` to report.
    pub fn authorize_attester(&mut self, admin: Address, attester: Address) -> (r: Result<(), Error>)
        ensures
            r == (match old(self)@.roles.admin_check(admin) {
                Some(e) => Err(e),
                None => Ok(()),
            }),
            final(self)@ == (if r is Ok {
                OracleState { attesters: old(self)@.attesters.insert(attester, true), ..old(self)@ }
            } else {
                old(self)@
            }),
    {
        self.roles.require_admin(admin)?;
        self.attesters.insert(attester, true);
        Ok(())
    }

    /// Reads the first `total` reports of a campaign and sums their figures.
    fn scan(&self, campaign_id: u64, total: u32) -> (r: Result<(u64, u64, u64, u64), Error>)
        ensures
            ({
                let s = self@;
                let n = total as nat;
                match s.scan_error(campaign_id, n) {
                    Some(e) => r == Err::<(u64, u64, u64, u64), Error>(e),
                    None => r == Ok::<(u64, u64, u64, u64), Error>(
                        (
                            s.sum_of(
                                campaign_id,
                                n,
                                Figure::Impressions,
                            ) as u64,
                            s.sum_of(
                                campaign_id,
                                n,
                                Figure::Clicks,
                            ) as u64,
                            s.sum_of(
                                campaign_id,
                                n,
                                Figure::FraudRate,
                            ) as u64,
                            s.sum_of(
                                campaign_id,
                                n,
                                Figure::QualityScore,
                            ) as u64,
                        ),
                    ),
                }
            }),
    {
        let ghost s = self@;
        let mut impressions: u64 = 0;
        let mut clicks: u64 = 0;
        let mut fraud: u64 = 0;
        let mut quality: u64 = 0;
        let mut i: u32 = 0;
        while i < total
            invariant
                s == self@,
                i <= total,
                s.scan_error(campaign_id, i as nat) is None,
                impressions == s.sum_of(campaign_id, i as nat, Figure::Impressions),
                clicks == s.sum_of(campaign_id, i as nat, Figure::Clicks),
                fraud == s.sum_of(campaign_id, i as nat, Figure::FraudRate),
                quality == s.sum_of(campaign_id, i as nat, Figure::QualityScore),
            decreases total - i,
        {
            let ghost prev = i;
            let attester = match self.attester_index.get(&make_pair_key(campaign_id, i as u64)) {
                Some(a) => *a,
                None => {
                    proof {
                        lemma_scan_error_stable(s, campaign_id, (i + 1) as nat, total as nat);
                    }
                    return Err(Error::AttesterIndexNotFound);
                },
            };
            let report = match self.attestations.get(&make_pair_key(campaign_id, attester)) {
                Some(a) => *a,
                None => {
                    proof {
                        lemma_scan_error_stable(s, campaign_id, (i + 1) as nat, total as nat);
                    }
                    return Err(Error::AttestationNotFound);
                },
            };
            assert(s.report_at(campaign_id, prev as int) == report);
            impressions = impressions.saturating_add(report.impressions_verified);
            clicks = clicks.saturating_add(report.clicks_verified);
            fraud = fraud.saturating_add(report.fraud_rate as u64);
            quality = quality.saturating_add(report.quality_score as u64);
            i = i + 1;
        }
        Ok((impressions, clicks, fraud, quality))
    }

    /// The consensus over the first `total` reports of a campaign, when
    /// they are at least the minimum number: the mean of each figure. Nothing
    /// when there are fewer; refused when a report cannot be read.
    fn try_build_consensus(&self, now: u64, campaign_id: u64, total: u32) -> (r: Result<Option<OracleConsensus>, Error>)
        ensures
            r == (if !self@.builds_consensus(total) {
                Ok::<Option<OracleConsensus>, Error>(None)
            } else {
                match self@.scan_error(campaign_id, total as nat) {
                    Some(e) => Err(e),
                    None => Ok(Some(self@.consensus_of(campaign_id, total, now))),
                }
            }),
    {
        if total == 0 || total < self.min_attesters {
            return Ok(None);
        }
        let (imp, clk, fr, q) = self.scan(campaign_id, total)?;
        proof {
            law_sum_bounded(self@, campaign_id, total as nat, Figure::Impressions);
            law_sum_bounded(self@, campaign_id, total as nat, Figure::Clicks);
            law_sum_bounded(self@, campaign_id, total as nat, Figure::FraudRate);
            law_sum_bounded(self@, campaign_id, total as nat, Figure::QualityScore);
        }
        let t = total as u64;
        let avg_fraud = fr / t;
        let avg_quality = q / t;
        Ok(
            Some(
                OracleConsensus {
                    campaign_id,
                    total_attesters: total,
                    avg_impressions: imp / t,
                    avg_clicks: clk / t,
                    avg_fraud_rate: if avg_fraud > u32::MAX as u64 {
                        u32::MAX
                    } else {
                        avg_fraud as u32
                    },
                    avg_quality_score: if avg_quality > u32::MAX as u64 {
                        u32::MAX
                    } else {
                        avg_quality as u32
                    },
                    consensus_reached: true,
                    last_updated: now,
                },
            ),
        )
    }

    /// An authorized attester reports a campaign's figures, once per campaign.
    /// The report becomes the campaign's next; when the reports reach the
    /// minimum number, the consensus is recomputed as the mean of all of
    /// them.
    pub fn submit_attestation(
        &mut self,
        ledger_seq: u32,
        now: u64,
        attester: Address,
        campaign_id: u64,
        impressions: u64,
        clicks: u64,
        fraud_rate: u32,
        quality_score: u32,
        data_hash: [u8; 32],
    ) -> (r: Result<(), Error>)
        ensures
            ({
                let s = old(self)@;
                let report = PerformanceAttestation {
                    campaign_id,
                    attester,
                    impressions_verified: impressions,
                    clicks_verified: clicks,
                    fraud_rate,
                    quality_score,
                    data_hash,
                    attested_at: now,
                    ledger_sequence: ledger_seq,
                };
                let s1 = s.recorded(attester, report);
                let total = (s.count_of(campaign_id) + 1) as u32;
                match s.submit_check(attester, report) {
                    Some(e) => r == Err::<(), Error>(e) && final(self)@ == s,
                    None => r is Ok && final(self)@ == (if s.builds_consensus(total) {
                        OracleState {
                            consensus: s1.consensus.insert(
                                campaign_id,
                                s1.consensus_of(campaign_id, total, now),
                            ),
                            ..s1
                        }
                    } else {
                        s1
                    }),
                }
            }),
    {
        let authorized = match self.attesters.get(&attester) {
            Some(b) => *b,
            None => false,
        };
        if !authorized {
            return Err(Error::NotAuthorizedAttester);
        }
        let report_key = make_pair_key(campaign_id, attester);
        if self.attestations.contains_key(&report_key) {
            return Err(Error::AlreadyAttested);
        }
        let old_count = match self.attestation_count.get(&campaign_id) {
            Some(c) => Some(*c),
            None => None,
        };
        let count: u32 = match old_count {
            Some(c) => c,
            None => 0,
        };
        if count == u32::MAX {
            return Err(Error::Overflow);
        }
        let total = count + 1;
        let report = PerformanceAttestation {
            campaign_id,
            attester,
            impressions_verified: impressions,
            clicks_verified: clicks,
            fraud_rate,
            quality_score,
            data_hash,
            attested_at: now,
            ledger_sequence: ledger_seq,
        };
        let ghost s = self@;
        let index_key = make_pair_key(campaign_id, count as u64);
        let old_index = self.attester_index.remove(&index_key);
        self.attestations.insert(report_key, report);
        self.attester_index.insert(index_key, attester);
        self.attestation_count.insert(campaign_id, total);
        assert(self@ == s.recorded(attester, report));
        match self.try_build_consensus(now, campaign_id, total) {
            Err(e) => {
                self.attestations.remove(&report_key);
                match old_index {
                    Some(a) => self.attester_index.insert(index_key, a),
                    None => {
                        self.attester_index.remove(&index_key);
                    },
                };
                match old_count {
                    Some(c) => self.attestation_count.insert(campaign_id, c),
                    None => {
                        self.attestation_count.remove(&campaign_id);
                    },
                };
                assert(self@ == s);
                return Err(e);
            },
            Ok(Some(consensus)) => {
                self.consensus.insert(campaign_id, consensus);
            },
            Ok(None) => {},
        }
        Ok(())
    }

    pub fn get_attestation(&self, campaign_id: u64, attester: Address) -> (r: Option<PerformanceAttestation>)
        ensures
            r == (if self@.attestations.contains_key(pair_key(campaign_id, attester)) {
                Some(self@.attestations[pair_key(campaign_id, attester)])
            } else {
                None
            }),
    {
        match self.attestations.get(&make_pair_key(campaign_id, attester)) {
            Some(a) => Some(*a),
            None => None,
        }
    }

    pub fn get_consensus(&self, campaign_id: u64) -> (r: Option<OracleConsensus>)
        ensures
            r == (if self@.consensus.contains_key(campaign_id) {
                Some(self@.consensus[campaign_id])
            } else {
                None
            }),
    {
        match self.consensus.get(&campaign_id) {
            Some(c) => Some(*c),
            None => None,
        }
    }

    /// The number of reports on a campaign.
    pub fn get_attestation_count(&self, campaign_id: u64) -> (r: u32)
        ensures
            r == self@.count_of(campaign_id),
    {
        match self.attestation_count.get(&campaign_id) {
            Some(c) => *c,
            None => 0,
        }
    }

    /// The administrator offers its role to `new_admin`.
    pub fn propose_admin(&mut self, current_admin: Address, new_admin: Address) -> (r: Result<(), Error>)
        ensures
            r == (match old(self)@.roles.propose_check(current_admin) {
                Some(e) => Err(e),
                None => Ok(()),
            }),
            final(self)@ == (if r is Ok {
                OracleState { roles: old(self)@.roles.proposed(new_admin), ..old(self)@ }
            } else {
                old(self)@
            }),
    {
        self.roles.propose_admin(current_admin, new_admin)
    }

    /// The offered successor takes the administrator role.
    pub fn accept_admin(&mut self, new_admin: Address) -> (r: Result<(), Error>)
        ensures
            r == (match old(self)@.roles.accept_check(new_admin) {
                Some(e) => Err(e),
                None => Ok(()),
            }),
            final(self)@ == (if r is Ok {
                OracleState { roles: old(self)@.roles.accepted(new_admin), ..old(self)@ }
            } else {
                old(self)@
            }),
    {
        self.roles.accept_admin(new_admin)
    }
}

/// Once reading the first `n` reports fails, reading more fails the same way.
proof fn lemma_scan_error_stable(s: OracleState, campaign_id: u64, n: nat, m: nat)
    requires
        n <= m,
        s.scan_error(campaign_id, n) is Some,
    ensures
        s.scan_error(campaign_id, m) == s.scan_error(campaign_id, n),
    decreases m - n,
{
    if n < m {
        lemma_scan_error_stable(s, campaign_id, n, (m - 1) as nat);
    }
}

/// A saturating sum of reports never exceeds the largest `u64`, and never
/// falls below any of its parts: the consensus mean stays within the range of
/// the reports' type.
pub proof fn law_sum_bounded(s: OracleState, campaign_id: u64, n: nat, f: Figure)
    ensures
        0 <= s.sum_of(campaign_id, n, f) <= u64::MAX,
    decreases n,
{
    if n > 0 {
        law_sum_bounded(s, campaign_id, (n - 1) as nat, f);
    }
}

/// Without saturation, the consensus of identical reports is that report: a
/// campaign whose reports all say `v` has mean `v`.
pub proof fn law_mean_of_equal_reports(
    s: OracleState,
    campaign_id: u64,
    n: nat,
    f: Figure,
    v: int,
)
    requires
        0 <= v,
        n * v <= u64::MAX,
        forall|i: int| 0 <= i < n ==> #[trigger] figure(s.report_at(campaign_id, i), f) == v,
    ensures
        s.sum_of(campaign_id, n, f) == n * v,
    decreases n,
{
    if n > 0 {
        let m = (n - 1) as nat;
        assert(m * v <= n * v) by (nonlinear_arith)
            requires
                n >= 1,
                v >= 0,
                m == n - 1,
        ;
        law_mean_of_equal_reports(s, campaign_id, m, f, v);
        assert(figure(s.report_at(campaign_id, n - 1), f) == v);
        assert(m * v + v == n * v) by (nonlinear_arith)
            requires
                m == n - 1,
        ;
    } else {
        assert(n * v == 0) by (nonlinear_arith)
            requires
                n == 0,
        ;
    }
}

/// The consensus over `total` reports is the mean of all of them: for each
/// figure, the saturating sum over every one of the `total` reports of the
/// campaign, divided by `total` and rounded down (the fraud rate and quality
/// score capped at the largest `u32`). No report among the `total` is left
/// out, however few would have sufficed.
pub proof fn law_consensus_is_mean_of_all(s: OracleState, campaign_id: u64, total: u32, now: u64)
    requires
        total > 0,
    ensures
        s.consensus_of(campaign_id, total, now).total_attesters == total,
        s.consensus_of(campaign_id, total, now).avg_impressions as int == s.sum_of(
            campaign_id,
            total as nat,
            Figure::Impressions,
        ) / (total as int),
        s.consensus_of(campaign_id, total, now).avg_clicks as int == s.sum_of(
            campaign_id,
            total as nat,
            Figure::Clicks,
        ) / (total as int),
        s.consensus_of(campaign_id, total, now).avg_fraud_rate as int == if s.sum_of(
            campaign_id,
            total as nat,
            Figure::FraudRate,
        ) / (total as int) > u32::MAX {
            u32::MAX as int
        } else {
            s.sum_of(campaign_id, total as nat, Figure::FraudRate) / (total as int)
        },
        s.consensus_of(campaign_id, total, now).avg_quality_score as int == if s.sum_of(
            campaign_id,
            total as nat,
            Figure::QualityScore,
        ) / (total as int) > u32::MAX {
            u32::MAX as int
        } else {
            s.sum_of(campaign_id, total as nat, Figure::QualityScore) / (total as int)
        },
{
    let n = total as nat;
    law_sum_bounded(s, campaign_id, n, Figure::Impressions);
    law_sum_bounded(s, campaign_id, n, Figure::Clicks);
    law_sum_bounded(s, campaign_id, n, Figure::FraudRate);
    law_sum_bounded(s, campaign_id, n, Figure::QualityScore);
    let t = total as int;
    let a = s.sum_of(campaign_id, n, Figure::Impressions);
    let b = s.sum_of(campaign_id, n, Figure::Clicks);
    let c = s.sum_of(campaign_id, n, Figure::FraudRate);
    let d = s.sum_of(campaign_id, n, Figure::QualityScore);
    vstd::arithmetic::div_mod::lemma_div_is_ordered_by_denominator(a, 1, t);
    vstd::arithmetic::div_mod::lemma_div_is_ordered_by_denominator(b, 1, t);
    vstd::arithmetic::div_mod::lemma_div_is_ordered_by_denominator(c, 1, t);
    vstd::arithmetic::div_mod::lemma_div_is_ordered_by_denominator(d, 1, t);
    vstd::arithmetic::div_mod::lemma_div_pos_is_pos(a, t);
    vstd::arithmetic::div_mod::lemma_div_pos_is_pos(b, t);
    vstd::arithmetic::div_mod::lemma_div_pos_is_pos(c, t);
    vstd::arithmetic::div_mod::lemma_div_pos_is_pos(d, t);
}

/// Every one of the first `n` reports counts in the sum over them: the sum
/// is at least each report's figure, it never shrinks as reports are added,
/// and while it stays within `u64` it grows by exactly the added report's
/// figure.
pub proof fn law_every_report_counts(s: OracleState, campaign_id: u64, n: nat, f: Figure, i: int)
    ensures
        0 <= i < n ==> figure(s.report_at(campaign_id, i), f) <= s.sum_of(campaign_id, n, f),
        n > 0 ==> s.sum_of(campaign_id, (n - 1) as nat, f) <= s.sum_of(campaign_id, n, f),
        n > 0 && s.sum_of(campaign_id, (n - 1) as nat, f) + figure(s.report_at(campaign_id, n - 1), f)
            <= u64::MAX ==> s.sum_of(campaign_id, n, f) == s.sum_of(campaign_id, (n - 1) as nat, f)
            + figure(s.report_at(campaign_id, n - 1), f),
    decreases n,
{
    if n > 0 {
        law_every_report_counts(s, campaign_id, (n - 1) as nat, f, i);
        law_sum_bounded(s, campaign_id, (n - 1) as nat, f);
        let r = s.report_at(campaign_id, n - 1);
        assert(0 <= figure(r, f) <= u64::MAX);
    }
}

} // verus!
