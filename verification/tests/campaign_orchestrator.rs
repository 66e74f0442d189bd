use pulsartrack::campaign_orchestrator::{
    CampaignOrchestratorContract, CampaignStatus, CrossContractReport,
};
use pulsartrack::error::Error;
use pulsartrack::types::{Address, Transfer};

const ADMIN: Address = 1;
const TOKEN: Address = 2;
const ADVERTISER: Address = 10;
const PUBLISHER: Address = 20;
const SEQ: u32 = 100;
const NOW: u64 = 86_400 * 3 + 50;

fn setup() -> CampaignOrchestratorContract {
    let mut c = CampaignOrchestratorContract::new();
    c.initialize(ADMIN, TOKEN).unwrap();
    c
}

fn all_clear() -> CrossContractReport {
    CrossContractReport {
        lifecycle_found: true,
        escrow_found: false,
        escrow_can_release: false,
        targeting_found: false,
        score_found: false,
    }
}

fn create_standard(c: &mut CampaignOrchestratorContract, target_views: u64, daily: u64) -> u64 {
    let (id, _) = c
        .create_campaign(SEQ, NOW, ADVERTISER, 1, 1_000_000, 100, 1000, target_views, daily, true)
        .unwrap();
    id
}

#[test]
fn campaign_orchestrator_test_initialize() {
    let c = setup();
    assert_eq!(c.get_campaign_count(), 0);
}

#[test]
fn campaign_orchestrator_test_initialize_twice() {
    let mut c = setup();
    assert_eq!(c.initialize(ADMIN, TOKEN), Err(Error::AlreadyInitialized));
}

#[test]
fn test_create_campaign() {
    let mut c = setup();
    // budget 1_000_000 at the default 2% fee: 1_020_000 is collected.
    let r = c.create_campaign(SEQ, NOW, ADVERTISER, 1, 1_000_000, 100, 1000, 10_000, 5_000, true);
    let (id, collect) = r.unwrap();
    assert_eq!(id, 1);
    assert_eq!(collect, Transfer::Collect { token: TOKEN, from: ADVERTISER, amount: 1_020_000 });
    assert_eq!(c.get_campaign_count(), 1);
    let campaign = c.get_campaign(id).unwrap();
    assert_eq!(campaign.budget, 1_000_000);
    assert_eq!(campaign.remaining_budget, 1_000_000);
    assert_eq!(campaign.platform_fee, 20_000);
    assert_eq!(campaign.start_ledger, SEQ);
    assert_eq!(campaign.end_ledger, SEQ + 1000);
    assert_eq!(campaign.status, CampaignStatus::Active);
}

#[test]
fn create_campaign_refusals() {
    let mut c = setup();
    assert_eq!(
        c.create_campaign(SEQ, NOW, ADVERTISER, 9, 1_000_000, 100, 1000, 10, 5, true),
        Err(Error::CampaignTypeNotFound)
    );
    assert_eq!(
        c.create_campaign(SEQ, NOW, ADVERTISER, 1, 999_999, 100, 1000, 10, 5, true),
        Err(Error::BudgetTooLow)
    );
    assert_eq!(
        c.create_campaign(SEQ, NOW, ADVERTISER, 1, 1_000_000, 100, 99, 10, 5, true),
        Err(Error::InvalidDuration)
    );
    assert_eq!(
        c.create_campaign(SEQ, NOW, ADVERTISER, 1, 1_000_000, 100, 10_001, 10, 5, true),
        Err(Error::InvalidDuration)
    );
    assert_eq!(
        c.create_campaign(SEQ, NOW, ADVERTISER, 1, i128::MAX, 100, 1000, 10, 5, true),
        Err(Error::Overflow)
    );
    assert_eq!(c.get_campaign_count(), 0);
}

#[test]
fn create_campaign_before_initialize() {
    let mut c = CampaignOrchestratorContract::new();
    assert_eq!(
        c.create_campaign(SEQ, NOW, ADVERTISER, 1, 1_000_000, 100, 1000, 10, 5, true),
        Err(Error::CampaignTypeNotFound)
    );
}

#[test]
fn test_verify_publisher() {
    let mut c = setup();
    c.verify_publisher(SEQ, NOW, ADMIN, PUBLISHER, 80).unwrap();
    let pm = c.get_publisher_metrics(PUBLISHER).unwrap();
    assert_eq!(pm.reputation_score, 80);
    assert!(pm.verified);
    assert_eq!(c.verify_publisher(SEQ, NOW, 99, PUBLISHER, 80), Err(Error::Unauthorized));
}

#[test]
fn test_pause_resume_campaign() {
    let mut c = setup();
    let id = create_standard(&mut c, 10_000, 5_000);
    c.pause_campaign(NOW, ADVERTISER, id).unwrap();
    assert!(matches!(c.get_campaign(id).unwrap().status, CampaignStatus::Paused));
    c.resume_campaign(NOW, ADVERTISER, id).unwrap();
    assert!(matches!(c.get_campaign(id).unwrap().status, CampaignStatus::Active));
    assert_eq!(c.pause_campaign(NOW, 77, id), Err(Error::Unauthorized));
    assert_eq!(c.pause_campaign(NOW, ADVERTISER, 77), Err(Error::CampaignNotFound));
}

#[test]
fn test_cancel_campaign_decrements_active_campaigns() {
    let mut c = setup();
    let id = create_standard(&mut c, 10_000, 5_000);
    let before = c.get_advertiser_stats(ADVERTISER).unwrap();
    assert_eq!(before.total_campaigns, 1);
    assert_eq!(before.active_campaigns, 1);
    let refund = c.cancel_campaign(NOW, ADVERTISER, id).unwrap();
    assert_eq!(refund, Some(Transfer::Pay { token: TOKEN, to: ADVERTISER, amount: 1_000_000 }));
    let after = c.get_advertiser_stats(ADVERTISER).unwrap();
    assert_eq!(after.total_campaigns, 1);
    assert_eq!(after.active_campaigns, 0);
    let campaign = c.get_campaign(id).unwrap();
    assert_eq!(campaign.status, CampaignStatus::Cancelled);
    assert_eq!(campaign.remaining_budget, 0);
    // A second cancel refunds nothing.
    assert_eq!(c.cancel_campaign(NOW, ADVERTISER, id), Ok(None));
    assert_eq!(c.get_advertiser_stats(ADVERTISER).unwrap().active_campaigns, 0);
}

#[test]
fn cancel_non_refundable_refused() {
    let mut c = setup();
    let (id, _) = c
        .create_campaign(SEQ, NOW, ADVERTISER, 1, 1_000_000, 100, 1000, 10, 5, false)
        .unwrap();
    assert_eq!(c.cancel_campaign(NOW, ADVERTISER, id), Err(Error::CampaignNotRefundable));
}

#[test]
fn campaign_orchestrator_test_set_platform_fee() {
    let mut c = setup();
    assert_eq!(c.set_platform_fee(ADMIN, 5), Ok(()));
    assert_eq!(c.set_platform_fee(ADMIN, 11), Err(Error::FeeTooHigh));
    // budget 2_000_000 at 5%: 100_000 fee.
    let (_, collect) = c
        .create_campaign(SEQ, NOW, ADVERTISER, 1, 2_000_000, 100, 1000, 10, 5, true)
        .unwrap();
    assert_eq!(collect, Transfer::Collect { token: TOKEN, from: ADVERTISER, amount: 2_100_000 });
}

#[test]
fn campaign_orchestrator_test_set_platform_fee_unauthorized() {
    let mut c = setup();
    assert_eq!(c.set_platform_fee(55, 5), Err(Error::Unauthorized));
}

#[test]
fn test_get_campaign_nonexistent() {
    let c = setup();
    assert!(c.get_campaign(999).is_none());
    assert!(c.get_campaign_metrics(999).is_none());
}

#[test]
fn record_view_pays_publisher_and_completes() {
    let mut c = setup();
    let id = create_standard(&mut c, 2, 5);
    c.verify_publisher(SEQ, NOW, ADMIN, PUBLISHER, 80).unwrap();
    let out = c.record_view(SEQ + 1, NOW, id, PUBLISHER, all_clear()).unwrap();
    assert_eq!(out.payment, Transfer::Pay { token: TOKEN, to: PUBLISHER, amount: 100 });
    assert!(!out.warn_no_score);
    c.record_view(SEQ + 1, NOW, id, PUBLISHER, all_clear()).unwrap();
    let campaign = c.get_campaign(id).unwrap();
    assert_eq!(campaign.current_views, 2);
    assert_eq!(campaign.remaining_budget, 1_000_000 - 200);
    assert_eq!(campaign.status, CampaignStatus::Completed);
    assert_eq!(c.get_publisher_metrics(PUBLISHER).unwrap().total_earnings, 200);
    let m = c.get_campaign_metrics(id).unwrap();
    assert_eq!(m.total_spent, 200);
    assert_eq!(m.completion_rate, 100);
    assert_eq!(
        c.record_view(SEQ + 1, NOW, id, PUBLISHER, all_clear()),
        Err(Error::CampaignNotActive)
    );
}

#[test]
fn record_view_refusals() {
    let mut c = setup();
    let id = create_standard(&mut c, 100, 1);
    assert_eq!(
        c.record_view(SEQ, NOW, id, PUBLISHER, all_clear()),
        Err(Error::PublisherNotVerified)
    );
    c.verify_publisher(SEQ, NOW, ADMIN, PUBLISHER, 80).unwrap();
    assert_eq!(
        c.record_view(SEQ, NOW, 42, PUBLISHER, all_clear()),
        Err(Error::CampaignNotFound)
    );
    assert_eq!(
        c.record_view(SEQ + 1001, NOW, id, PUBLISHER, all_clear()),
        Err(Error::CampaignExpired)
    );
    c.record_view(SEQ, NOW, id, PUBLISHER, all_clear()).unwrap();
    // The daily limit is one view; the next day starts a new count.
    assert_eq!(
        c.record_view(SEQ, NOW, id, PUBLISHER, all_clear()),
        Err(Error::DailyViewLimitReached)
    );
    assert!(c.record_view(SEQ, NOW + 86_400, id, PUBLISHER, all_clear()).is_ok());
}

#[test]
fn record_view_consults_configured_contracts() {
    let mut c = setup();
    let id = create_standard(&mut c, 100, 100);
    c.verify_publisher(SEQ, NOW, ADMIN, PUBLISHER, 80).unwrap();
    c.set_lifecycle_contract(ADMIN, 500).unwrap();
    c.set_escrow_contract(ADMIN, 501).unwrap();
    c.set_targeting_contract(ADMIN, 502).unwrap();
    assert_eq!(c.consulted_contracts(), (Some(500), Some(501), Some(502)));
    let missing = CrossContractReport { lifecycle_found: false, ..all_clear() };
    assert_eq!(
        c.record_view(SEQ, NOW, id, PUBLISHER, missing),
        Err(Error::CampaignNotInLifecycle)
    );
    let blocked = CrossContractReport { escrow_found: true, escrow_can_release: false, ..all_clear() };
    assert_eq!(
        c.record_view(SEQ, NOW, id, PUBLISHER, blocked),
        Err(Error::EscrowCannotRelease)
    );
    let unscored = CrossContractReport { targeting_found: true, score_found: false, ..all_clear() };
    let out = c.record_view(SEQ, NOW, id, PUBLISHER, unscored).unwrap();
    assert!(out.warn_no_score);
}

#[test]
fn campaign_ids_are_sequential() {
    let mut c = setup();
    for expected in 1..=4u64 {
        assert_eq!(create_standard(&mut c, 10, 5), expected);
    }
    assert_eq!(c.get_campaign_count(), 4);
    let stats = c.get_advertiser_stats(ADVERTISER).unwrap();
    assert_eq!(stats.total_campaigns, 4);
    assert_eq!(stats.total_spent, 4_000_000);
    assert_eq!(stats.last_campaign_id, 4);
}

#[test]
fn campaign_orchestrator_admin_handover() {
    let mut c = setup();
    c.propose_admin(ADMIN, 3).unwrap();
    assert_eq!(c.accept_admin(4), Err(Error::Unauthorized));
    c.accept_admin(3).unwrap();
    assert_eq!(c.set_platform_fee(3, 4), Ok(()));
    assert_eq!(c.set_platform_fee(ADMIN, 4), Err(Error::Unauthorized));
}

#[test]
fn campaign_budget_stays_consistent() {
    let mut c = setup();
    let id = create_standard(&mut c, 3, 100);
    c.verify_publisher(SEQ, NOW, ADMIN, PUBLISHER, 80).unwrap();
    let check = |c: &CampaignOrchestratorContract| {
        let k = c.get_campaign(id).unwrap();
        assert_eq!(k.remaining_budget, k.budget - k.cost_per_view * k.current_views as i128);
        assert!(k.remaining_budget >= 0);
        assert!(k.current_views <= k.target_views);
    };
    check(&c);
    c.record_view(SEQ, NOW, id, PUBLISHER, all_clear()).unwrap();
    check(&c);
    c.pause_campaign(NOW, ADVERTISER, id).unwrap();
    assert_eq!(c.record_view(SEQ, NOW, id, PUBLISHER, all_clear()), Err(Error::CampaignNotActive));
    c.resume_campaign(NOW, ADVERTISER, id).unwrap();
    check(&c);
    c.record_view(SEQ, NOW, id, PUBLISHER, all_clear()).unwrap();
    c.record_view(SEQ, NOW, id, PUBLISHER, all_clear()).unwrap();
    check(&c);
    c.resume_campaign(NOW, ADVERTISER, id).unwrap();
    assert_eq!(
        c.record_view(SEQ, NOW, id, PUBLISHER, all_clear()),
        Err(Error::CampaignTargetReached)
    );
    check(&c);
}

#[test]
fn campaign_budget_consistent_while_others_cancel() {
    let mut c = setup();
    let id = create_standard(&mut c, 5, 100);
    let other = create_standard(&mut c, 5, 100);
    c.verify_publisher(SEQ, NOW, ADMIN, PUBLISHER, 80).unwrap();
    c.record_view(SEQ, NOW, id, PUBLISHER, all_clear()).unwrap();
    c.record_view(SEQ, NOW, other, PUBLISHER, all_clear()).unwrap();
    c.cancel_campaign(NOW, ADVERTISER, other).unwrap();
    c.set_platform_fee(ADMIN, 7).unwrap();
    c.pause_campaign(NOW, ADVERTISER, id).unwrap();
    c.resume_campaign(NOW, ADVERTISER, id).unwrap();
    c.record_view(SEQ, NOW, id, PUBLISHER, all_clear()).unwrap();
    let k = c.get_campaign(id).unwrap();
    assert_eq!(k.current_views, 2);
    assert_eq!(k.remaining_budget, k.budget - k.cost_per_view * 2);
    assert!(k.remaining_budget >= 0 && k.current_views <= k.target_views);
}
