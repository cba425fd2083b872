//! Simulated arbitrage agent for binary-outcome prediction markets: a signal
//! detector, an execution simulator, a position ledger, a risk manager and a
//! daily spending budget, with the dashboard's read model around them.
//!
//! All quantities are fixed-point integers: one dollar, one share, or a
//! price of 1.0 is `UNIT` (one million) in the library's integer types.

pub mod fixed;
pub mod market;
pub mod constraint;
pub mod execution;
pub mod positions;
pub mod risk;
pub mod permission_guard;
pub mod agent;
pub mod pricing;
pub mod config;
pub mod api;
pub mod metrics;
pub mod plugins;
pub mod health;
