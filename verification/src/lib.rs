//! Referral-lineage bookkeeping for a transferable token.
//!
//! The crate tracks, per (asset, holder) pair, how tokens were obtained
//! (direct issuance, a tracked peer share, or outside the referral flow),
//! classifies every transfer event into one of six categories, apportions
//! redeemed referred value across referrer slots, accrues commission with
//! fixed-point dust carry, and arbitrates disputes over commission ledgers.
//!
//! All operations are pure state transitions on plain values: the host
//! environment supplies timestamps, slot numbers and registry facts, and
//! performs the actual asset movement; this crate only decides bookkeeping
//! outcomes and reports them, atomically (an operation either applies all of
//! its mutations or, on error, none).

pub mod types;
pub mod errors;
pub mod config;
pub mod holder;
pub mod events;
pub mod referral;
pub mod commission;
pub mod redemption;
pub mod classifier;
pub mod finalize;
pub mod dispute;
pub mod bond;
pub mod escrow;
pub mod session;
pub mod geo;
pub mod oracle;
