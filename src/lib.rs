//! Metrics aggregation engine of a terminal dashboard that watches blockchain
//! JSON-RPC nodes and a transaction-pool service.
//!
//! The library holds the decisions of each poll cycle, the bounded block
//! history, the fee estimator, the pool aggregator and the staleness rule.
//! Network calls are made by the caller, who hands their outcomes back in.

pub mod collector;
pub mod config;
pub mod dashboard;
pub mod fees;
pub mod history;
pub mod quantity;
pub mod status;
pub mod txpool;
pub mod wire;
