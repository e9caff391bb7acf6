//! Compliance-controlled equity token engine: allowlist-based transfer control,
//! per-wallet transfer restrictions, interval vesting, pro-rata dividend
//! rounds, and corporate actions (stock splits, symbol changes).
//!
//! The engine decides and accounts; moving tokens on an actual ledger,
//! reading a clock, and persisting records are the surrounding runtime's
//! work. Every operation takes the records it touches and a single `now`
//! snapshot, and either fully applies or leaves state untouched.

pub mod allowlist;

pub mod config;

pub mod dividends;

pub mod errors;

pub mod restrictions;

pub mod transfer;

pub mod vesting;
