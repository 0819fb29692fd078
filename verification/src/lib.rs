//! The logic of a contract that administers the LumenJoule token: an oracle
//! price feed, the token's supply, and a stabilizer for its liquidity pool.
//!
//! The contract's storage is a [`state::RebalancerAdmin`]. Its operations
//! change that value, and return the [`effects::Effect`]s that the ledger has
//! to carry out for the change to become real. Where an operation would trap,
//! a function whose name starts with `check_` says so beforehand.
//!
//! What the operations are for is stated in the modules whose names end in
//! `laws`: each law speaks of what an operation is given and what it returns,
//! in terms of the stored fields.

pub mod address;
pub mod admin;
pub mod admin_laws;
pub mod base_laws;
pub mod effects;
pub mod errors;
pub mod feed;
pub mod feed_laws;
pub mod laws;
pub mod math;
pub mod oracle;
pub mod plain;
pub mod pool;
pub mod pool_laws;
pub mod rebalance;
pub mod rebalance_laws;
pub mod state;
pub mod status;
pub mod status_laws;
