//! A capped token-distribution ledger: each address may claim a fixed
//! allotment once, the running total never exceeds the configured supply,
//! and a single administrator may reconfigure it or take back what is left.

mod codec;
pub mod contract;
pub mod error;
pub mod laws;
pub mod msg;
pub mod state;
