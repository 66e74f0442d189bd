//! Publisher network: publishers join as nodes with a daily capacity, send
//! heartbeats, and leave the active set on their own or when the fraud
//! contract suspends them; the network keeps running totals.
use vstd::prelude::*;
use vstd::hash_map::HashMapWithView;
use crate::types::Address;
use crate::error::Error;
use crate::admin::AdminRole;

verus! {

broadcast use vstd::std_specs::hash::group_hash_axioms;

#[derive(Clone, Copy, Debug, PartialEq, Eq, Structural)]
pub enum NodeType {
    Standard,
    Premium,
    Enterprise,
}

#[derive(Clone, Debug)]
pub struct NetworkNode {
    pub publisher: Address,
    pub node_type: NodeType,
    /// Most impressions a day.
    pub capacity: u64,
    /// Lowest cost per thousand impressions, in stroops.
    pub min_cpm: i128,
    pub geographic_zone: String,
    pub content_categories: Vec<String>,
    pub is_active: bool,
    pub joined_at: u64,
    pub last_heartbeat: u64,
}

#[derive(Clone, Copy, Debug, PartialEq, Eq)]
pub struct NetworkStats {
    pub total_nodes: u64,
    pub active_nodes: u64,
    pub total_capacity: u64,
    pub total_impressions_served: u64,
    pub last_updated: u64,
}

/// The network's storage as mathematical values.
#[verifier::ext_equal]
pub struct NetworkState {
    pub roles: AdminRole,
    pub fraud_contract: Option<Address>,
    pub node_count: u64,
    pub stats: Option<NetworkStats>,
    pub nodes: Map<Address, NetworkNode>,
}

pub struct PublisherNetworkContract {
    roles: AdminRole,
    fraud_contract: Option<Address>,
    node_count: u64,
    stats: Option<NetworkStats>,
    nodes: HashMapWithView<u64, NetworkNode>,
}

impl View for PublisherNetworkContract {
    type V = NetworkState;

    closed spec fn view(&self) -> NetworkState {
        NetworkState {
            roles: self.roles,
            fraud_contract: self.fraud_contract,
            node_count: self.node_count,
            stats: self.stats,
            nodes: self.nodes@,
        }
    }
}

/// The statistics of a network before any were recorded.
pub open spec fn empty_stats(now: u64) -> NetworkStats {
    NetworkStats {
        total_nodes: 0,
        active_nodes: 0,
        total_capacity: 0,
        total_impressions_served: 0,
        last_updated: now,
    }
}

impl NetworkState {
    pub open spec fn join_check(self, publisher: Address, capacity: u64) -> Option<Error> {
        if self.nodes.contains_key(publisher) {
            Some(Error::AlreadyInNetwork)
        } else if self.node_count == u64::MAX {
            Some(Error::Overflow)
        } else if self.stats is None {
            Some(Error::NotInitialized)
        } else {
            let st = self.stats.unwrap();
            if st.total_nodes == u64::MAX || st.active_nodes == u64::MAX || st.total_capacity
                + capacity > u64::MAX {
                Some(Error::Overflow)
            } else {
                None
            }
        }
    }

    /// The network after `node` joins: one more node, active, whose capacity
    /// adds to the total.
    pub open spec fn joined(self, node: NetworkNode) -> NetworkState {
        let st = self.stats.unwrap();
        NetworkState {
            nodes: self.nodes.insert(node.publisher, node),
            node_count: (self.node_count + 1) as u64,
            stats: Some(
                NetworkStats {
                    total_nodes: (st.total_nodes + 1) as u64,
                    active_nodes: (st.active_nodes + 1) as u64,
                    total_capacity: (st.total_capacity + node.capacity) as u64,
                    ..st
                },
            ),
            ..self
        }
    }

    /// The statistics count no more active nodes than nodes.
    pub open spec fn stats_consistent(self) -> bool {
        self.stats is Some ==> self.stats.unwrap().active_nodes <= self.stats.unwrap().total_nodes
    }

    pub open spec fn deactivate_check(self, publisher: Address) -> Option<Error> {
        if !self.nodes.contains_key(publisher) {
            Some(Error::NotInNetwork)
        } else if self.nodes[publisher].is_active && self.stats is None {
            Some(Error::NotInitialized)
        } else {
            None
        }
    }

    /// The network after `publisher`'s node leaves the active set: it counts
    /// as one active node less and its capacity is withdrawn (neither total
    /// going below zero). An inactive node changes nothing.
    pub open spec fn deactivated(self, publisher: Address) -> NetworkState {
        let node = self.nodes[publisher];
        if !node.is_active {
            self
        } else {
            let st = self.stats.unwrap();
            NetworkState {
                nodes: self.nodes.insert(publisher, NetworkNode { is_active: false, ..node }),
                stats: Some(
                    NetworkStats {
                        active_nodes: if st.active_nodes > 0 {
                            (st.active_nodes - 1) as u64
                        } else {
                            0
                        },
                        total_capacity: if st.total_capacity > node.capacity {
                            (st.total_capacity - node.capacity) as u64
                        } else {
                            0
                        },
                        ..st
                    },
                ),
                ..self
            }
        }
    }

    pub open spec fn suspend_check(self, fraud_contract: Address, publisher: Address) -> Option<Error> {
        match self.fraud_contract {
            None => Some(Error::FraudContractNotSet),
            Some(f) => if f != fraud_contract {
                Some(Error::UnauthorizedFraudContract)
            } else {
                self.deactivate_check(publisher)
            },
        }
    }
}

impl PublisherNetworkContract {
    /// A network that has not been initialized.
    pub fn new() -> (c: PublisherNetworkContract)
        ensures
            c@.roles.admin is None,
            c@.roles.pending_admin is None,
            c@.fraud_contract is None,
            c@.node_count == 0,
            c@.stats is None,
            c@.nodes.is_empty(),
    {
        PublisherNetworkContract {
            roles: AdminRole::new(),
            fraud_contract: None,
            node_count: 0,
            stats: None,
            nodes: HashMapWithView::new(),
        }
    }

    /// Makes `admin` the administrator and starts the statistics at zero.
    pub fn initialize(&mut self, now: u64, admin: Address) -> (r: Result<(), Error>)
        ensures
            r == (if old(self)@.roles.admin is Some {
                Err::<(), Error>(Error::AlreadyInitialized)
            } else {
                Ok(())
            }),
            final(self)@ == (if r is Ok {
                NetworkState {
                    roles: AdminRole { admin: Some(admin), ..old(self)@.roles },
                    node_count: 0,
                    stats: Some(empty_stats(now)),
                    ..old(self)@
                }
            } else {
                old(self)@
            }),
    {
        if self.roles.admin.is_some() {
            return Err(Error::AlreadyInitialized);
        }
        self.roles.admin = Some(admin);
        self.node_count = 0;
        self.stats = Some(
            NetworkStats {
                total_nodes: 0,
                active_nodes: 0,
                total_capacity: 0,
                total_impressions_served: 0,
                last_updated: now,
            },
        );
        Ok(())
    }

    /// `publisher` joins as an active node; the totals of nodes, active nodes
    /// and capacity grow accordingly.
    pub fn join_network(
        &mut self,
        now: u64,
        publisher: Address,
        node_type: NodeType,
        capacity: u64,
        min_cpm: i128,
        geographic_zone: String,
        content_categories: Vec<String>,
    ) -> (r: Result<(), Error>)
        ensures
            r == (match old(self)@.join_check(publisher, capacity) {
                Some(e) => Err(e),
                None => Ok(()),
            }),
            final(self)@ == (if r is Ok {
                old(self)@.joined(
                    NetworkNode {
                        publisher,
                        node_type,
                        capacity,
                        min_cpm,
                        geographic_zone,
                        content_categories,
                        is_active: true,
                        joined_at: now,
                        last_heartbeat: now,
                    },
                )
            } else {
                old(self)@
            }),
    {
        if self.nodes.contains_key(&publisher) {
            return Err(Error::AlreadyInNetwork);
        }
        let count = match self.node_count.checked_add(1) {
            Some(v) => v,
            None => return Err(Error::Overflow),
        };
        let st = match self.stats {
            Some(s) => s,
            None => return Err(Error::NotInitialized),
        };
        if st.total_nodes == u64::MAX || st.active_nodes == u64::MAX {
            return Err(Error::Overflow);
        }
        let total_capacity = match st.total_capacity.checked_add(capacity) {
            Some(v) => v,
            None => return Err(Error::Overflow),
        };
        self.nodes.insert(
            publisher,
            NetworkNode {
                publisher,
                node_type,
                capacity,
                min_cpm,
                geographic_zone,
                content_categories,
                is_active: true,
                joined_at: now,
                last_heartbeat: now,
            },
        );
        self.node_count = count;
        self.stats = Some(
            NetworkStats {
                total_nodes: st.total_nodes + 1,
                active_nodes: st.active_nodes + 1,
                total_capacity,
                ..st
            },
        );
        Ok(())
    }

    /// A node signals at `now` that it is alive.
    pub fn heartbeat(&mut self, now: u64, publisher: Address) -> (r: Result<(), Error>)
        ensures
            r == (if old(self)@.nodes.contains_key(publisher) {
                Ok::<(), Error>(())
            } else {
                Err(Error::NotInNetwork)
            }),
            final(self)@ == (if r is Ok {
                NetworkState {
                    nodes: old(self)@.nodes.insert(
                        publisher,
                        NetworkNode { last_heartbeat: now, ..old(self)@.nodes[publisher] },
                    ),
                    ..old(self)@
                }
            } else {
                old(self)@
            }),
    {
        let mut node = match self.nodes.remove(&publisher) {
            Some(n) => n,
            None => return Err(Error::NotInNetwork),
        };
        node.last_heartbeat = now;
        self.nodes.insert(publisher, node);
        Ok(())
    }

    /// A publisher takes its node out of the active set.
    pub fn deactivate(&mut self, publisher: Address) -> (r: Result<(), Error>)
        ensures
            r == (match old(self)@.deactivate_check(publisher) {
                Some(e) => Err(e),
                None => Ok(()),
            }),
            final(self)@ == (if r is Ok {
                old(self)@.deactivated(publisher)
            } else {
                old(self)@
            }),
    {
        self.deactivate_node(publisher)
    }

    fn deactivate_node(&mut self, publisher: Address) -> (r: Result<(), Error>)
        ensures
            r == (match old(self)@.deactivate_check(publisher) {
                Some(e) => Err(e),
                None => Ok(()),
            }),
            final(self)@ == (if r is Ok {
                old(self)@.deactivated(publisher)
            } else {
                old(self)@
            }),
    {
        let mut node = match self.nodes.remove(&publisher) {
            Some(n) => n,
            None => return Err(Error::NotInNetwork),
        };
        if !node.is_active {
            self.nodes.insert(publisher, node);
            return Ok(());
        }
        let st = match self.stats {
            Some(s) => s,
            None => {
                self.nodes.insert(publisher, node);
                return Err(Error::NotInitialized);
            },
        };
        let capacity = node.capacity;
        node.is_active = false;
        self.nodes.insert(publisher, node);
        self.stats = Some(
            NetworkStats {
                active_nodes: if st.active_nodes > 0 { st.active_nodes - 1 } else { 0 },
                total_capacity: st.total_capacity.saturating_sub(capacity),
                ..st
            },
        );
        Ok(())
    }

    /// The administrator records the fraud contract allowed to suspend
    /// publishers.
    pub fn set_fraud_contract(&mut self, admin: Address, fraud_contract: Address) -> (r: Result<(), Error>)
        ensures
            r == (match old(self)@.roles.admin_check(admin) {
                Some(e) => Err(e),
                None => Ok(()),
            }),
            final(self)@ == (if r is Ok {
                NetworkState { fraud_contract: Some(fraud_contract), ..old(self)@ }
            } else {
                old(self)@
            }),
    {
        self.roles.require_admin(admin)?;
        self.fraud_contract = Some(fraud_contract);
        Ok(())
    }

    /// The fraud contract takes a publisher's node out of the active set.
    pub fn suspend_publisher(&mut self, fraud_contract: Address, publisher: Address) -> (r: Result<(), Error>)
        ensures
            r == (match old(self)@.suspend_check(fraud_contract, publisher) {
                Some(e) => Err(e),
                None => Ok(()),
            }),
            final(self)@ == (if r is Ok {
                old(self)@.deactivated(publisher)
            } else {
                old(self)@
            }),
    {
        match self.fraud_contract {
            None => return Err(Error::FraudContractNotSet),
            Some(f) => {
                if f != fraud_contract {
                    return Err(Error::UnauthorizedFraudContract);
                }
            },
        }
        self.deactivate_node(publisher)
    }

    /// Counts one more impression served by the network at `now`.
    pub fn record_impression(&mut self, now: u64, publisher: Address) -> (r: Result<(), Error>)
        ensures
            r == (match old(self)@.stats {
                None => Err(Error::NotInitialized),
                Some(st) => if st.total_impressions_served == u64::MAX {
                    Err(Error::Overflow)
                } else {
                    Ok(())
                },
            }),
            final(self)@ == (if r is Ok {
                NetworkState {
                    stats: Some(
                        NetworkStats {
                            total_impressions_served: (old(self)@.stats.unwrap().total_impressions_served
                                + 1) as u64,
                            last_updated: now,
                            ..old(self)@.stats.unwrap()
                        },
                    ),
                    ..old(self)@
                }
            } else {
                old(self)@
            }),
    {
        let st = match self.stats {
            Some(s) => s,
            None => return Err(Error::NotInitialized),
        };
        if st.total_impressions_served == u64::MAX {
            return Err(Error::Overflow);
        }
        self.stats = Some(
            NetworkStats {
                total_impressions_served: st.total_impressions_served + 1,
                last_updated: now,
                ..st
            },
        );
        Ok(())
    }

    pub fn get_node(&self, publisher: Address) -> (r: Option<&NetworkNode>)
        ensures
            r == (if self@.nodes.contains_key(publisher) {
                Some(&self@.nodes[publisher])
            } else {
                None
            }),
    {
        self.nodes.get(&publisher)
    }

    /// The network's statistics; all zero before initialization.
    pub fn get_network_stats(&self) -> (r: NetworkStats)
        ensures
            r == (match self@.stats {
                Some(st) => st,
                None => empty_stats(0),
            }),
    {
        match self.stats {
            Some(s) => s,
            None => NetworkStats {
                total_nodes: 0,
                active_nodes: 0,
                total_capacity: 0,
                total_impressions_served: 0,
                last_updated: 0,
            },
        }
    }

    /// The number of publishers that ever joined.
    pub fn get_node_count(&self) -> (r: u64)
        ensures
            r == self@.node_count,
    {
        self.node_count
    }

    /// The administrator offers its role to `new_admin`.
    pub fn propose_admin(&mut self, current_admin: Address, new_admin: Address) -> (r: Result<(), Error>)
        ensures
            r == (match old(self)@.roles.propose_check(current_admin) {
                Some(e) => Err(e),
                None => Ok(()),
            }),
            final(self)@ == (if r is Ok {
                NetworkState { roles: old(self)@.roles.proposed(new_admin), ..old(self)@ }
            } else {
                old(self)@
            }),
    {
        self.roles.propose_admin(current_admin, new_admin)
    }

    /// The offered successor takes the administrator role.
    pub fn accept_admin(&mut self, new_admin: Address) -> (r: Result<(), Error>)
        ensures
            r == (match old(self)@.roles.accept_check(new_admin) {
                Some(e) => Err(e),
                None => Ok(()),
            }),
            final(self)@ == (if r is Ok {
                NetworkState { roles: old(self)@.roles.accepted(new_admin), ..old(self)@ }
            } else {
                old(self)@
            }),
    {
        self.roles.accept_admin(new_admin)
    }
}

/// Deactivating a node twice is the same as deactivating it once.
pub proof fn law_deactivate_idempotent(s: NetworkState, publisher: Address)
    requires
        s.deactivate_check(publisher) is None,
    ensures
        s.deactivated(publisher).deactivate_check(publisher) is None,
        s.deactivated(publisher).deactivated(publisher) == s.deactivated(publisher),
{
}

/// The network never counts more active nodes than nodes: the statistics
/// start consistent, and joining and deactivating keep them so.
pub proof fn law_active_within_total(s: NetworkState, now: u64, node: NetworkNode, publisher: Address)
    requires
        s.stats_consistent(),
    ensures
        (NetworkState { stats: Some(empty_stats(now)), ..s }).stats_consistent(),
        s.join_check(node.publisher, node.capacity) is None ==> s.joined(node).stats_consistent(),
        s.deactivate_check(publisher) is None ==> s.deactivated(publisher).stats_consistent(),
{
}

} // verus!
