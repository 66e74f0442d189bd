use pulsartrack::error::Error;
use pulsartrack::publisher_network::{NodeType, PublisherNetworkContract};
use pulsartrack::types::Address;

const ADMIN: Address = 1;
const FRAUD: Address = 2;
const PUB1: Address = 10;
const PUB2: Address = 11;

fn setup() -> PublisherNetworkContract {
    let mut c = PublisherNetworkContract::new();
    c.initialize(0, ADMIN).unwrap();
    c
}

fn cats(names: &[&str]) -> Vec<String> {
    names.iter().map(|n| n.to_string()).collect()
}

fn join(c: &mut PublisherNetworkContract, publisher: Address, capacity: u64) -> Result<(), Error> {
    c.join_network(5, publisher, NodeType::Standard, capacity, 100, "US".to_string(), cats(&["tech"]))
}

#[test]
fn publisher_network_test_initialize() {
    let mut c = PublisherNetworkContract::new();
    c.initialize(0, ADMIN).unwrap();
    assert_eq!(c.get_node_count(), 0);
    assert_eq!(c.get_network_stats().total_nodes, 0);
}

#[test]
fn publisher_network_test_initialize_twice() {
    let mut c = setup();
    assert_eq!(c.initialize(0, ADMIN), Err(Error::AlreadyInitialized));
}

#[test]
fn test_join_network() {
    let mut c = setup();
    c.join_network(
        3,
        PUB1,
        NodeType::Standard,
        10_000,
        100,
        "US-East".to_string(),
        cats(&["tech", "news"]),
    )
    .unwrap();
    assert_eq!(c.get_node_count(), 1);
    let node = c.get_node(PUB1).unwrap();
    assert!(node.is_active);
    assert_eq!(node.capacity, 10_000);
    assert_eq!(node.joined_at, 3);
    assert_eq!(node.content_categories, cats(&["tech", "news"]));
    let stats = c.get_network_stats();
    assert_eq!(stats.total_nodes, 1);
    assert_eq!(stats.active_nodes, 1);
    assert_eq!(stats.total_capacity, 10_000);
}

#[test]
fn test_join_network_duplicate() {
    let mut c = setup();
    join(&mut c, PUB1, 10_000).unwrap();
    let r = c.join_network(
        6,
        PUB1,
        NodeType::Premium,
        20_000,
        200,
        "EU-West".to_string(),
        cats(&["tech"]),
    );
    assert_eq!(r, Err(Error::AlreadyInNetwork));
    assert_eq!(c.get_network_stats().total_capacity, 10_000);
}

#[test]
fn join_before_initialize() {
    let mut c = PublisherNetworkContract::new();
    assert_eq!(join(&mut c, PUB1, 10), Err(Error::NotInitialized));
}

#[test]
fn test_heartbeat() {
    let mut c = setup();
    join(&mut c, PUB1, 10_000).unwrap();
    assert_eq!(c.heartbeat(42, PUB1), Ok(()));
    assert_eq!(c.get_node(PUB1).unwrap().last_heartbeat, 42);
}

#[test]
fn test_heartbeat_not_in_network() {
    let mut c = setup();
    assert_eq!(c.heartbeat(42, PUB2), Err(Error::NotInNetwork));
}

#[test]
fn test_deactivate() {
    let mut c = setup();
    join(&mut c, PUB1, 10_000).unwrap();
    c.deactivate(PUB1).unwrap();
    assert!(!c.get_node(PUB1).unwrap().is_active);
    let stats = c.get_network_stats();
    assert_eq!(stats.active_nodes, 0);
    assert_eq!(stats.total_capacity, 0);
    assert_eq!(stats.total_nodes, 1);
}

#[test]
fn deactivate_twice_changes_nothing_more() {
    let mut c = setup();
    join(&mut c, PUB1, 10_000).unwrap();
    join(&mut c, PUB2, 5_000).unwrap();
    c.deactivate(PUB1).unwrap();
    let once = c.get_network_stats();
    c.deactivate(PUB1).unwrap();
    assert_eq!(c.get_network_stats(), once);
    assert_eq!(once.active_nodes, 1);
    assert_eq!(once.total_capacity, 5_000);
    assert_eq!(c.deactivate(77), Err(Error::NotInNetwork));
}

#[test]
fn test_suspend_publisher() {
    let mut c = setup();
    c.set_fraud_contract(ADMIN, FRAUD).unwrap();
    join(&mut c, PUB1, 10_000).unwrap();
    assert_eq!(c.suspend_publisher(FRAUD, PUB1), Ok(()));
    assert!(!c.get_node(PUB1).unwrap().is_active);
    assert_eq!(c.get_network_stats().active_nodes, 0);
}

#[test]
fn test_suspend_publisher_wrong_fraud() {
    let mut c = setup();
    c.set_fraud_contract(ADMIN, FRAUD).unwrap();
    join(&mut c, PUB1, 10_000).unwrap();
    assert_eq!(c.suspend_publisher(99, PUB1), Err(Error::UnauthorizedFraudContract));
    assert!(c.get_node(PUB1).unwrap().is_active);
}

#[test]
fn suspend_without_fraud_contract() {
    let mut c = setup();
    join(&mut c, PUB1, 10_000).unwrap();
    assert_eq!(c.suspend_publisher(FRAUD, PUB1), Err(Error::FraudContractNotSet));
}

#[test]
fn test_record_impression() {
    let mut c = setup();
    join(&mut c, PUB1, 10_000).unwrap();
    c.record_impression(9, PUB1).unwrap();
    let stats = c.get_network_stats();
    assert_eq!(stats.total_impressions_served, 1);
    assert_eq!(stats.last_updated, 9);
}

#[test]
fn test_get_node_nonexistent() {
    let c = setup();
    assert!(c.get_node(PUB2).is_none());
}

#[test]
fn test_set_fraud_contract_unauthorized() {
    let mut c = setup();
    assert_eq!(c.set_fraud_contract(55, FRAUD), Err(Error::Unauthorized));
}

#[test]
fn publisher_network_admin_handover() {
    let mut c = setup();
    c.propose_admin(ADMIN, 3).unwrap();
    c.accept_admin(3).unwrap();
    assert_eq!(c.set_fraud_contract(ADMIN, FRAUD), Err(Error::Unauthorized));
    assert_eq!(c.set_fraud_contract(3, FRAUD), Ok(()));
}
