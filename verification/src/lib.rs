//! Referral-matrix settlement engine.
//!
//! Users register under a sponsor and are placed into fixed-capacity chains of
//! three slots. Each slot carries a financial action (pool deposit, escrow and
//! reward mint, payout), and a completed chain triggers a bounded cascade up
//! the sponsor's ancestry. This crate holds the settlement logic itself: the
//! per-slot state machine, the upline propagation, the oracle-backed minimum
//! deposit, the AMM-derived reward pricing with its mint throttle, and the
//! validation of externally supplied ledger records. Reads from the ledger and
//! the cross-program calls that move funds are left to the embedding program,
//! which executes the actions this engine decides on.

pub mod keys;
pub mod errors;
pub mod accounts;
pub mod throttle;
pub mod verify;
pub mod oracle;
pub mod amm;
pub mod records;
pub mod token;
pub mod chain;
pub mod register;
pub mod decimal;
