//! The dispute engine: freeze/release arbitration over a commission
//! ledger, with automatic timeout resolution after the merchant's fixed
//! response window.

use vstd::prelude::*;
use crate::types::AccountId;
use crate::errors::ViralSyncError;
use crate::events::DisputeAutoUpheld;
use crate::commission::CommissionLedger;
use crate::oracle::MerchantReputation;

verus! {

/// How long the merchant has to respond before a pending dispute may be
/// upheld by timeout: fourteen days, in seconds.
pub const DISPUTE_MERCHANT_RESPONSE_SECS: i64 = 1_209_600;

/// The fixed reputation penalty a timeout-upheld dispute costs.
pub const TIMEOUT_REPUTATION_PENALTY: u32 = 500;

/// A dispute's lifecycle; every status but `Pending` is terminal.
#[derive(Clone, Copy, PartialEq, Eq, Structural, Debug)]
pub enum DisputeStatus {
    Pending,
    Dismissed,
    UpheldByTimeout,
    UpheldByVote,
}

/// One dispute raised by a watchdog over a (merchant, referral) pair.
#[derive(Clone, Copy, PartialEq, Eq, Structural, Debug)]
pub struct DisputeRecord {
    pub merchant: AccountId,
    pub referral: AccountId,
    pub watchdog: AccountId,
    pub status: DisputeStatus,
    pub stake_lamports: u64,
    pub raised_at: i64,
    pub resolved_at: Option<i64>,
}

/// Raises a dispute for `amount` against the commission ledger: the
/// claimable balance must cover the disputed amount, which moves from
/// claimable into the frozen amount, and the ledger freezes. A record
/// already pending cannot be raised again. On any error nothing changes.
pub fn raise_dispute(
    dispute: &mut DisputeRecord,
    ledger: &mut CommissionLedger,
    watchdog: AccountId,
    amount: u64,
    now: i64,
) -> (r: Result<(), ViralSyncError>)
    requires
        old(ledger).wf(),
    ensures
        final(ledger).wf(),
        r is Err ==> *final(dispute) == *old(dispute) && *final(ledger) == *old(ledger),
        amount == 0 ==> r == Result::<(), ViralSyncError>::Err(ViralSyncError::BelowMinimum),
        amount > 0 && old(dispute).status is Pending ==> r == Result::<(), ViralSyncError>::Err(
            ViralSyncError::AccessDenied,
        ),
        amount > 0 && !(old(dispute).status is Pending) && old(ledger).claimable < amount ==> r
            == Result::<(), ViralSyncError>::Err(ViralSyncError::InsufficientBalance),
        amount > 0 && !(old(dispute).status is Pending) && old(ledger).claimable >= amount && old(
            ledger,
        ).frozen_amount + amount > u64::MAX ==> r == Result::<(), ViralSyncError>::Err(
            ViralSyncError::MathOverflow,
        ),
        amount > 0 && !(old(dispute).status is Pending) && old(ledger).claimable >= amount && old(
            ledger,
        ).frozen_amount + amount <= u64::MAX ==> {
            &&& r is Ok
            &&& *final(dispute) == (DisputeRecord {
                status: DisputeStatus::Pending,
                watchdog,
                raised_at: now,
                resolved_at: Option::None,
                ..*old(dispute)
            })
            &&& *final(ledger) == (CommissionLedger {
                claimable: (old(ledger).claimable - amount) as u64,
                frozen: true,
                frozen_amount: (old(ledger).frozen_amount + amount) as u64,
                ..*old(ledger)
            })
        },
{
    if amount == 0 {
        return Result::Err(ViralSyncError::BelowMinimum);
    }
    if matches!(dispute.status, DisputeStatus::Pending) {
        return Result::Err(ViralSyncError::AccessDenied);
    }
    if ledger.claimable < amount {
        return Result::Err(ViralSyncError::InsufficientBalance);
    }
    if ledger.frozen_amount > u64::MAX - amount {
        return Result::Err(ViralSyncError::MathOverflow);
    }
    dispute.status = DisputeStatus::Pending;
    dispute.watchdog = watchdog;
    dispute.raised_at = now;
    dispute.resolved_at = Option::None;
    ledger.claimable = ledger.claimable - amount;
    ledger.frozen = true;
    ledger.frozen_amount = ledger.frozen_amount + amount;
    Result::Ok(())
}

/// Resolves a pending dispute whose response window has elapsed, in the
/// merchant's disfavor: the dispute is upheld by timeout, the ledger's
/// frozen state clears, half the disputed amount is earmarked as the
/// watchdog's reward, and the merchant's reputation is penalized by a
/// fixed amount, floored at zero. Anyone may trigger this once the
/// window has passed. On any error nothing changes.
pub fn resolve_expired_dispute(
    dispute: &mut DisputeRecord,
    ledger: &mut CommissionLedger,
    reputation: &mut MerchantReputation,
    now: i64,
) -> (r: Result<DisputeAutoUpheld, ViralSyncError>)
    requires
        old(ledger).wf(),
    ensures
        final(ledger).wf(),
        r is Err ==> *final(dispute) == *old(dispute) && *final(ledger) == *old(ledger)
            && *final(reputation) == *old(reputation),
        !(old(dispute).status is Pending) ==> r == Result::<DisputeAutoUpheld, ViralSyncError>::Err(
            ViralSyncError::AccessDenied,
        ),
        old(dispute).status is Pending && now <= old(dispute).raised_at
            + DISPUTE_MERCHANT_RESPONSE_SECS ==> r == Result::<DisputeAutoUpheld, ViralSyncError>::Err(
            ViralSyncError::TokensExpired,
        ),
        old(dispute).status is Pending && now > old(dispute).raised_at
            + DISPUTE_MERCHANT_RESPONSE_SECS && old(reputation).timeout_disputes == u32::MAX ==> r
            == Result::<DisputeAutoUpheld, ViralSyncError>::Err(ViralSyncError::MathOverflow),
        old(dispute).status is Pending && now > old(dispute).raised_at
            + DISPUTE_MERCHANT_RESPONSE_SECS && old(reputation).timeout_disputes < u32::MAX ==> {
            &&& r == Result::<DisputeAutoUpheld, ViralSyncError>::Ok(
                DisputeAutoUpheld {
                    merchant: old(dispute).merchant,
                    referral: old(dispute).referral,
                    disputed_amount: old(ledger).frozen_amount,
                    watchdog_reward: old(ledger).frozen_amount / 2,
                },
            )
            &&& *final(dispute) == (DisputeRecord {
                status: DisputeStatus::UpheldByTimeout,
                resolved_at: Option::Some(now),
                ..*old(dispute)
            })
            &&& *final(ledger) == (CommissionLedger {
                frozen: false,
                frozen_amount: 0,
                ..*old(ledger)
            })
            &&& *final(reputation) == (MerchantReputation {
                timeout_disputes: (old(reputation).timeout_disputes + 1) as u32,
                reputation_score: (if old(reputation).reputation_score
                    >= TIMEOUT_REPUTATION_PENALTY {
                    old(reputation).reputation_score - TIMEOUT_REPUTATION_PENALTY
                } else {
                    0int
                }) as u32,
                ..*old(reputation)
            })
        },
{
    if !matches!(dispute.status, DisputeStatus::Pending) {
        return Result::Err(ViralSyncError::AccessDenied);
    }
    let window_open: bool = (now as i128) > dispute.raised_at as i128
        + DISPUTE_MERCHANT_RESPONSE_SECS as i128;
    if !window_open {
        return Result::Err(ViralSyncError::TokensExpired);
    }
    if reputation.timeout_disputes == u32::MAX {
        return Result::Err(ViralSyncError::MathOverflow);
    }
    dispute.status = DisputeStatus::UpheldByTimeout;
    dispute.resolved_at = Option::Some(now);
    let disputed_amount: u64 = ledger.frozen_amount;
    let watchdog_share: u64 = disputed_amount / 2;
    ledger.frozen = false;
    ledger.frozen_amount = 0;
    reputation.timeout_disputes = reputation.timeout_disputes + 1;
    reputation.reputation_score = if reputation.reputation_score >= TIMEOUT_REPUTATION_PENALTY {
        reputation.reputation_score - TIMEOUT_REPUTATION_PENALTY
    } else {
        0
    };
    Result::Ok(
        DisputeAutoUpheld {
            merchant: dispute.merchant,
            referral: dispute.referral,
            disputed_amount,
            watchdog_reward: watchdog_share,
        },
    )
}

} // verus!
