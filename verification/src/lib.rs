//! PulsarTrack: the rules of the PulsarTrack advertising contracts on Stellar,
//! written as verified state machines.
//!
//! Each contract is a value that holds its storage as plain data. An entry
//! point takes the caller's address, the ledger time where the rules read it,
//! and the answers of any other contract that the rules consult; it returns
//! either an error (the transaction reverts and the state is unchanged) or its
//! result together with the token movements that the host must carry out.
//! Authentication of the caller, storage lifetimes, events and the token calls
//! themselves belong to the host.

pub mod types;
pub mod error;
pub mod admin;
pub mod ad_registry;
pub mod campaign_orchestrator;
pub mod dispute_resolution;
pub mod governance_dao;
pub mod governance_token;
pub mod liquidity_pool;
pub mod milestone_tracker;
pub mod performance_oracle;
pub mod publisher_network;
pub mod token_bridge;
