//! The referral record: one committed commission agreement between a
//! referrer and a referred holder, for one merchant and asset.

use vstd::prelude::*;
use crate::types::AccountId;
use crate::errors::ViralSyncError;

verus! {

/// One referral agreement. Created when a first referred attribution is
/// finalized; closable only after every earned commission is settled and
/// its expiry has passed.
#[derive(Clone, Copy, PartialEq, Eq, Structural, Debug)]
pub struct ReferralRecord {
    /// The record's own address, as linked from a holder's referrer slot.
    pub record_id: AccountId,
    pub merchant: AccountId,
    pub mint: AccountId,

    pub referrer: AccountId,
    pub referred: AccountId,
    pub created_at: i64,
    pub expires_at: i64,

    /// Commission rate committed at creation, in basis points.
    pub committed_commission_bps: u16,
    /// Lifetime ceiling on commission earned through this referral.
    pub max_commission_cap: u64,

    pub commission_earned: u64,
    pub commission_settled: u64,
    pub is_active: bool,
}

impl ReferralRecord {
    /// The record's standing invariant: the committed rate is a valid
    /// basis-point fraction, earned commission never exceeds the cap, and
    /// settled commission never exceeds what was earned.
    pub open spec fn wf(self) -> bool {
        &&& self.committed_commission_bps <= 10_000
        &&& self.commission_earned <= self.max_commission_cap
        &&& self.commission_settled <= self.commission_earned
    }

    /// Whether the referral's validity window has passed at time `now`.
    /// A record with no expiry (`expires_at == 0`) never expires.
    pub open spec fn spec_is_expired(self, now: i64) -> bool {
        self.expires_at > 0 && now > self.expires_at
    }

    /// Decides whether the referral has expired at time `now`.
    pub fn is_expired(&self, now: i64) -> (r: bool)
        ensures
            r == self.spec_is_expired(now),
    {
        self.expires_at > 0 && now > self.expires_at
    }
}

/// Decides whether an expired referral record may be closed and its
/// storage reclaimed: only once its expiry has passed and every earned
/// commission has been settled, so closing can never strand an unpaid
/// commission. The host reclaims the record only on `Ok`.
pub fn close_expired_referral(referral: &ReferralRecord, now: i64) -> (r: Result<
    (),
    ViralSyncError,
>)
    ensures
        !referral.spec_is_expired(now) ==> r == Result::<(), ViralSyncError>::Err(
            ViralSyncError::TokensExpired,
        ),
        referral.spec_is_expired(now) && referral.commission_earned
            != referral.commission_settled ==> r == Result::<(), ViralSyncError>::Err(
            ViralSyncError::MathOverflow,
        ),
        referral.spec_is_expired(now) && referral.commission_earned
            == referral.commission_settled ==> r is Ok,
{
    if !referral.is_expired(now) {
        return Result::Err(ViralSyncError::TokensExpired);
    }
    if referral.commission_earned != referral.commission_settled {
        return Result::Err(ViralSyncError::MathOverflow);
    }
    Result::Ok(())
}

} // verus!
