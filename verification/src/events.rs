//! Structured facts returned to the host for emission to external
//! observers. The core never reads them back.

use vstd::prelude::*;
use crate::types::{AccountId, GenSource};

verus! {

/// Value crossed an exchange-pool boundary and exited referral tracking.
#[derive(Clone, Copy, PartialEq, Eq, Structural, Debug)]
pub struct DexTransferDetected {
    pub from: AccountId,
    pub to: AccountId,
    pub amount: u64,
}

/// A redemption session opened on a holder's ledger.
#[derive(Clone, Copy, PartialEq, Eq, Structural, Debug)]
pub struct RedemptionDetected {
    pub redeemer: AccountId,
    pub amount: u64,
    pub gen2_consumed: u64,
    pub slot: u64,
}

/// A peer transfer was classified and applied.
#[derive(Clone, Copy, PartialEq, Eq, Structural, Debug)]
pub struct TransferExecuted {
    pub from: AccountId,
    pub to: AccountId,
    pub effective_referrer: Option<AccountId>,
    pub amount: u64,
    pub entry_type: GenSource,
    pub slot: u64,
}

/// A full inbound buffer degraded an inbound amount to the inert bucket.
#[derive(Clone, Copy, PartialEq, Eq, Structural, Debug)]
pub struct InboundBufferOverflow {
    pub recipient: AccountId,
    pub amount: u64,
    pub sender: Option<AccountId>,
}

/// A pending dispute timed out and was upheld against the merchant.
#[derive(Clone, Copy, PartialEq, Eq, Structural, Debug)]
pub struct DisputeAutoUpheld {
    pub merchant: AccountId,
    pub referral: AccountId,
    pub disputed_amount: u64,
    pub watchdog_reward: u64,
}

/// A merchant began the close-out window.
#[derive(Clone, Copy, PartialEq, Eq, Structural, Debug)]
pub struct MerchantCloseInitiated {
    pub merchant: AccountId,
    pub mint: AccountId,
    pub outstanding_tokens: u64,
    pub close_window_ends_at: i64,
}

/// A merchant's close-out window elapsed and the merchant closed.
#[derive(Clone, Copy, PartialEq, Eq, Structural, Debug)]
pub struct MerchantClosed {
    pub merchant: AccountId,
    pub mint: AccountId,
}

/// A holder redeemed its pro-rata share of a closed merchant's bond.
#[derive(Clone, Copy, PartialEq, Eq, Structural, Debug)]
pub struct BondShareRedeemed {
    pub holder: AccountId,
    pub lamports: u64,
}

} // verus!
