//! Accounting core of a liquidity-pool marketplace for unique assets.
//!
//! A pool quotes continuously-moving prices for one asset collection from a
//! bonding curve, holds a payment-side and an asset-side escrow, and settles
//! trades while distributing fees.  This crate holds the pricing engine, the
//! fee and royalty calculus, the allowlist eligibility matcher, and the
//! state transitions on pool and inventory records, each with a verified
//! contract.  Custody transfers, storage reclamation and the host ledger's
//! account plumbing are external collaborators: the library computes every
//! amount and decision and hands them out as plain values.

pub mod allowlist;
pub mod constants;
pub mod curve;
pub mod errors;
pub mod fees;
pub mod ledger;
pub mod state;
