//! Pooled-capital reserve with compliance-gated deployment, governance, and
//! composite activity scoring.
//!
//! The crate models four interlocking concerns: a capital ledger
//! ([`reserve`]), an activity lifecycle state machine with profit/loss
//! settlement ([`reserve`]), a stateless compliance gate with score-impact
//! rules ([`compliance`]), a weighted composite scoring engine ([`hai`]), and
//! a proposal/voting governance module with a veto-capable review board
//! ([`dao`]). Wall-clock time and randomness are external oracles: every
//! window or sampling decision takes the oracle's value as an argument, so
//! each operation is a pure, verified state transition.

pub mod compliance;
pub mod dao;
pub mod errors;
pub mod hai;
pub mod identity;
pub mod private_ops;
pub mod reserve;
