//! Dispatch of a signed ledger transaction over an unreliable broadcast
//! channel: one blockhash, one signature, a fixed budget of resends.

pub mod config;
pub mod ledger;
pub mod dispatch;
pub mod guarantees;
