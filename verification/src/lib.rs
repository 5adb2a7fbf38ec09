//! A verified fund-custody ledger: donations flow into a single escrow
//! account, per-donor donation counts are tracked in a durable counter
//! ledger, and depositors receive a deposit-only capability that can
//! increase, but never read or decrease, the escrow balance.

pub mod error;
pub mod escrow;
pub mod identity;
pub mod ledger;
pub mod service;
