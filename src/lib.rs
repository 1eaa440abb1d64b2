//! A payments engine: applies an ordered stream of deposits, withdrawals,
//! disputes, resolves and chargebacks to per-client accounts held in
//! fixed-point units of 1/10,000, keeping a journal of applied transactions
//! and their dispute lifecycle.

pub mod client;
pub mod engine;
pub mod handlers;
pub mod laws;
pub mod transaction;
