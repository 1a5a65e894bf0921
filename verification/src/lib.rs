//! Parametric-insurance loan core.
//!
//! Short-term loans are underwritten against a parametric insurance policy:
//! when independently submitted oracle observations, collapsed into one
//! consensus reading, cross the thresholds configured in the policy, the loan
//! is satisfied by an insurance payout instead of borrower repayment.
//!
//! The crate holds the three verified pieces of that pipeline:
//! observation aggregation ([`aggregator`]), claim-trigger evaluation
//! ([`evaluator`]), and the loan lifecycle state machine ([`loan`]).
//! Token custody and identity checks are the caller's concern: every
//! function here is a pure computation over plain values.

pub mod aggregator;
pub mod errors;
pub mod evaluator;
pub mod loan;
pub mod observation;
pub mod policy;
pub mod sorting;
