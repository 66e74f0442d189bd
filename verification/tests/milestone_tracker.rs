use pulsartrack::error::Error;
use pulsartrack::milestone_tracker::{MilestoneStatus, MilestoneTrackerContract, MIN_DURATION_SECS};
use pulsartrack::types::Address;

const ADMIN: Address = 1;
const ORACLE: Address = 2;
const ADVERTISER: Address = 10;

fn setup() -> MilestoneTrackerContract {
    let mut c = MilestoneTrackerContract::new();
    c.initialize(ADMIN, ORACLE).unwrap();
    c
}

fn create(c: &mut MilestoneTrackerContract, now: u64, duration: u64) -> Result<u64, Error> {
    c.create_milestone(
        now,
        ADVERTISER,
        1,
        "1000 views".to_string(),
        "views".to_string(),
        1000,
        50_000,
        duration,
    )
}

#[test]
fn milestone_tracker_test_initialize() {
    let mut c = MilestoneTrackerContract::new();
    assert_eq!(c.initialize(ADMIN, ORACLE), Ok(()));
}

#[test]
fn milestone_tracker_test_initialize_twice() {
    let mut c = setup();
    assert_eq!(c.initialize(ADMIN, ORACLE), Err(Error::AlreadyInitialized));
}

#[test]
fn test_create_milestone() {
    let mut c = setup();
    let duration = 86_400;
    let id = create(&mut c, 0, duration).unwrap();
    assert_eq!(id, 1);
    let m = c.get_milestone(id).unwrap();
    assert!(matches!(m.status, MilestoneStatus::Pending));
    assert_eq!(m.target_value, 1000);
    assert_eq!(m.deadline, duration);
    assert_eq!(c.get_campaign_milestone_count(1), 1);
    assert_eq!(c.get_campaign_milestone_count(2), 0);
}

#[test]
fn test_update_progress() {
    let mut c = setup();
    let id = create(&mut c, 0, 86_400).unwrap();
    assert_eq!(c.update_progress(10, ORACLE, id, 500), Ok(false));
    let m = c.get_milestone(id).unwrap();
    assert_eq!(m.current_value, 500);
    assert!(matches!(m.status, MilestoneStatus::InProgress));
}

#[test]
fn update_progress_refusals() {
    let mut c = setup();
    let id = create(&mut c, 0, 86_400).unwrap();
    assert_eq!(c.update_progress(10, 99, id, 500), Err(Error::Unauthorized));
    assert_eq!(c.update_progress(10, ORACLE, 42, 500), Err(Error::MilestoneNotFound));
    let mut fresh = MilestoneTrackerContract::new();
    assert_eq!(fresh.update_progress(10, ORACLE, 1, 500), Err(Error::NotInitialized));
}

#[test]
fn test_update_progress_achieves() {
    let mut c = setup();
    let id = create(&mut c, 0, 86_400).unwrap();
    assert_eq!(c.update_progress(10, ORACLE, id, 1000), Ok(true));
    let m = c.get_milestone(id).unwrap();
    assert!(matches!(m.status, MilestoneStatus::Achieved));
    assert_eq!(m.achieved_at, Some(10));
}

#[test]
fn achieved_milestone_ignores_later_reports() {
    let mut c = setup();
    let id = create(&mut c, 0, 86_400).unwrap();
    c.update_progress(10, ORACLE, id, 1200).unwrap();
    assert_eq!(c.update_progress(90_000, ORACLE, id, 3), Ok(false));
    let m = c.get_milestone(id).unwrap();
    assert!(matches!(m.status, MilestoneStatus::Achieved));
    assert_eq!(m.current_value, 1200);
    assert_eq!(m.achieved_at, Some(10));
}

#[test]
fn test_dispute_milestone() {
    let mut c = setup();
    let id = create(&mut c, 0, 86_400).unwrap();
    c.update_progress(10, ORACLE, id, 1000).unwrap();
    assert_eq!(c.dispute_milestone(ADVERTISER, id), Ok(()));
    assert!(matches!(c.get_milestone(id).unwrap().status, MilestoneStatus::Disputed));
    assert_eq!(c.dispute_milestone(ADVERTISER, 9), Err(Error::MilestoneNotFound));
}

#[test]
fn milestone_tracker_test_resolve_dispute() {
    let mut c = setup();
    let id = create(&mut c, 0, 86_400).unwrap();
    c.update_progress(10, ORACLE, id, 1000).unwrap();
    c.dispute_milestone(ADVERTISER, id).unwrap();
    assert_eq!(c.resolve_dispute(ADMIN, id, true), Ok(()));
    assert!(matches!(c.get_milestone(id).unwrap().status, MilestoneStatus::Achieved));
    assert_eq!(c.resolve_dispute(ADMIN, id, false), Ok(()));
    assert!(matches!(c.get_milestone(id).unwrap().status, MilestoneStatus::Missed));
    assert_eq!(c.resolve_dispute(ORACLE, id, true), Err(Error::Unauthorized));
}

#[test]
fn test_get_milestone_nonexistent() {
    let c = setup();
    assert!(c.get_milestone(999).is_none());
}

#[test]
fn test_milestone_missed_after_deadline() {
    let mut c = setup();
    let id = create(&mut c, 0, MIN_DURATION_SECS).unwrap();
    assert_eq!(c.update_progress(MIN_DURATION_SECS + 1, ORACLE, id, 500), Ok(false));
    let m = c.get_milestone(id).unwrap();
    assert!(matches!(m.status, MilestoneStatus::Missed));
    assert_eq!(m.current_value, 500);
}

#[test]
fn test_deadline_is_computed_from_now_plus_duration() {
    let mut c = setup();
    let now = 1_000_000;
    let duration = 86_400;
    let id = create(&mut c, now, duration).unwrap();
    let m = c.get_milestone(id).unwrap();
    assert_eq!(m.deadline, now + duration);
    assert_eq!(m.created_at, now);
    c.update_progress(now, ORACLE, id, 1000).unwrap();
    let m = c.get_milestone(id).unwrap();
    assert!(m.achieved_at.unwrap() >= m.created_at);
    assert!(m.achieved_at.unwrap() <= m.deadline);
}

#[test]
fn test_create_milestone_rejects_zero_duration() {
    let mut c = setup();
    assert_eq!(create(&mut c, 0, 0), Err(Error::DurationTooShort));
}

#[test]
fn test_create_milestone_rejects_sub_minimum_duration() {
    let mut c = setup();
    assert_eq!(create(&mut c, 0, MIN_DURATION_SECS - 1), Err(Error::DurationTooShort));
    assert_eq!(create(&mut c, 0, MIN_DURATION_SECS), Ok(1));
}

#[test]
fn create_milestone_deadline_overflow() {
    let mut c = setup();
    assert_eq!(create(&mut c, u64::MAX - 10, MIN_DURATION_SECS), Err(Error::Overflow));
}

#[test]
fn milestone_counts_per_campaign() {
    let mut c = setup();
    create(&mut c, 0, 86_400).unwrap();
    create(&mut c, 0, 86_400).unwrap();
    let id3 = c
        .create_milestone(0, ADVERTISER, 7, "d".to_string(), "m".to_string(), 1, 1, 86_400)
        .unwrap();
    assert_eq!(id3, 3);
    assert_eq!(c.get_campaign_milestone_count(1), 2);
    assert_eq!(c.get_campaign_milestone_count(7), 1);
}
