//! Error kinds reported by the bookkeeping operations.

use vstd::prelude::*;

verus! {

/// The specific reason an operation was rejected. Every failing operation
/// reports one of these kinds and leaves all records it was handed unchanged;
/// downstream tooling keys off the kind, so no two conditions share one
/// beyond what the operations' contracts state.
#[derive(Clone, Copy, PartialEq, Eq, Structural, Debug)]
pub enum ViralSyncError {
    /// The source ledger does not belong to the transfer's source holder.
    InvalidSourceGeneration,
    /// The destination ledger does not belong to the transfer's destination.
    InvalidDestGeneration,
    /// A token account's raw data is malformed.
    InvalidTokenAccount,
    /// An asset identity does not match between linked records.
    InvalidMint,
    /// The caller is not authorized for the requested operation.
    InvalidAuthority,
    /// A vault registry entry is missing, inactive or malformed.
    InvalidVaultEntry,
    /// The tokens' age exceeds the merchant's expiry policy, or a
    /// time-window condition is not met.
    TokensExpired,
    /// The inbound buffer must be finalized before a redemption can open.
    MustFinalizeBeforeRedeem,
    /// A previous redemption session is still pending on this holder.
    PreviousRedemptionUnprocessed,
    /// The minimum hold time since first receipt has not elapsed.
    HoldPeriodNotMet,
    /// The amount is below the merchant's minimum for a tracked share.
    BelowMinimum,
    /// The amount exceeds the merchant's maximum for a tracked share.
    ExceedsMaximum,
    /// The per-wallet daily share count is exhausted.
    DailyShareLimitExceeded,
    /// Second-generation resharing is disallowed by the merchant.
    MaxDepthReached,
    /// The inbound buffer is full; the write was refused.
    InboundBufferOverflow,
    /// An arithmetic step would overflow; the operation is aborted whole.
    MathOverflow,
    /// No redemption session is pending on this holder.
    NoRedemptionPending,
    /// The named referrer slot is absent, inactive or mislinked.
    InvalidReferrerSlot,
    /// The named referrer slot was already settled for this session.
    SlotAlreadySettled,
    /// The session cannot close while active slots remain unsettled.
    UnsettledSlotsRemain,
    /// The referral's commission cap leaves no headroom.
    ReferralCapReached,
    /// The commission ledger is frozen pending dispute arbitration.
    CommissionFrozenDictated,
    /// There is no claimable commission.
    NothingToClaim,
    /// The holder's balance does not cover the requested amount.
    InsufficientBalance,
    /// The configured fee does not leave a positive net rate.
    InvalidFeeConfig,
    /// The attested location falls outside the geofence radius.
    OutsideGeoFence,
    /// The attestation signer is not registered for this geofence.
    InvalidAttestation,
    /// The geolocation signature payload is malformed.
    InvalidSignature,
    /// Access denied.
    AccessDenied,
}

} // verus!
