//! The reputation record and the viral-metrics oracle: pure data sinks
//! filled by an external indexing pipeline, plus the one derived figure
//! the core computes — the merchant's reputation score.

use vstd::prelude::*;
use crate::types::AccountId;

verus! {

/// Hard-to-game reputation signals for one merchant, refreshed by the
/// indexing pipeline, plus the core-computed reputation score.
#[derive(Clone, Copy, PartialEq, Eq, Structural, Debug)]
pub struct MerchantReputation {
    pub merchant: AccountId,

    pub reputation_score: u32,
    pub timeout_disputes: u32,

    pub pct_redeemers_aged_over_30_days: u16,
    pub unique_attestation_servers_used: u8,
    pub commission_concentration_bps: u16,
    pub pct_redemptions_in_business_hours: u16,
    pub avg_poi_score_top_referrers: u32,

    pub suspicion_score: u32,
    pub suspicion_computed_at: i64,
}

/// The reputation score derived from the current counters: a base of
/// 10000, less a penalty of 500 per timeout-upheld dispute and a tenth
/// of the suspicion score, floored at zero.
pub open spec fn reputation_score_formula(timeout_disputes: u32, suspicion_score: u32) -> int {
    let penalty = timeout_disputes * 500 + suspicion_score / 10;
    if penalty >= 10_000 {
        0
    } else {
        10_000 - penalty
    }
}

/// Stores the pipeline-computed signals and recomputes the reputation
/// score from the stored timeout-dispute counter and the new suspicion
/// score.
pub fn compute_merchant_reputation(
    reputation: &mut MerchantReputation,
    pct_redeemers_aged_over_30_days: u16,
    unique_attestation_servers_used: u8,
    commission_concentration_bps: u16,
    pct_redemptions_in_business_hours: u16,
    avg_poi_score_top_referrers: u32,
    suspicion_score: u32,
    now: i64,
)
    ensures
        *final(reputation) == (MerchantReputation {
            pct_redeemers_aged_over_30_days,
            unique_attestation_servers_used,
            commission_concentration_bps,
            pct_redemptions_in_business_hours,
            avg_poi_score_top_referrers,
            suspicion_score,
            suspicion_computed_at: now,
            reputation_score: reputation_score_formula(
                old(reputation).timeout_disputes,
                suspicion_score,
            ) as u32,
            ..*old(reputation)
        }),
{
    reputation.pct_redeemers_aged_over_30_days = pct_redeemers_aged_over_30_days;
    reputation.unique_attestation_servers_used = unique_attestation_servers_used;
    reputation.commission_concentration_bps = commission_concentration_bps;
    reputation.pct_redemptions_in_business_hours = pct_redemptions_in_business_hours;
    reputation.avg_poi_score_top_referrers = avg_poi_score_top_referrers;
    reputation.suspicion_score = suspicion_score;
    reputation.suspicion_computed_at = now;
    let penalty: u64 = reputation.timeout_disputes as u64 * 500 + (suspicion_score / 10) as u64;
    reputation.reputation_score = if penalty >= 10_000 {
        0
    } else {
        10_000 - penalty as u32
    };
}

/// Distribution, funnel, timing and efficiency metrics for one
/// merchant's referral program, computed off-core and stored here.
#[derive(Clone, Copy, PartialEq, Eq, Structural, Debug)]
pub struct ViralOracle {
    pub merchant: AccountId,
    pub mint: AccountId,

    pub k_factor: u64,

    pub median_referrals_per_user: u32,
    pub p90_referrals_per_user: u32,
    pub p10_referrals_per_user: u32,
    pub referral_concentration_index: u32,

    pub share_rate: u32,
    pub claim_rate: u32,
    pub first_redeem_rate: u32,

    pub avg_time_share_to_claim_secs: u32,
    pub avg_time_claim_to_redeem_secs: u32,
    pub p50_time_share_to_claim_secs: u32,

    pub commission_per_new_customer_tokens: u64,
    pub vs_google_ads_efficiency_bps: u32,

    pub computed_at: i64,
    pub data_points: u32,
}

/// Stores one batch of pipeline-computed viral metrics, stamped `now`.
pub fn compute_viral_oracle(
    oracle: &mut ViralOracle,
    k_factor: u64,
    median_referrals_per_user: u32,
    p90_referrals_per_user: u32,
    p10_referrals_per_user: u32,
    referral_concentration_index: u32,
    share_rate: u32,
    claim_rate: u32,
    first_redeem_rate: u32,
    avg_time_share_to_claim_secs: u32,
    avg_time_claim_to_redeem_secs: u32,
    p50_time_share_to_claim_secs: u32,
    commission_per_new_customer_tokens: u64,
    vs_google_ads_efficiency_bps: u32,
    data_points: u32,
    now: i64,
)
    ensures
        *final(oracle) == (ViralOracle {
            k_factor,
            median_referrals_per_user,
            p90_referrals_per_user,
            p10_referrals_per_user,
            referral_concentration_index,
            share_rate,
            claim_rate,
            first_redeem_rate,
            avg_time_share_to_claim_secs,
            avg_time_claim_to_redeem_secs,
            p50_time_share_to_claim_secs,
            commission_per_new_customer_tokens,
            vs_google_ads_efficiency_bps,
            computed_at: now,
            data_points,
            ..*old(oracle)
        }),
{
    oracle.k_factor = k_factor;
    oracle.median_referrals_per_user = median_referrals_per_user;
    oracle.p90_referrals_per_user = p90_referrals_per_user;
    oracle.p10_referrals_per_user = p10_referrals_per_user;
    oracle.referral_concentration_index = referral_concentration_index;
    oracle.share_rate = share_rate;
    oracle.claim_rate = claim_rate;
    oracle.first_redeem_rate = first_redeem_rate;
    oracle.avg_time_share_to_claim_secs = avg_time_share_to_claim_secs;
    oracle.avg_time_claim_to_redeem_secs = avg_time_claim_to_redeem_secs;
    oracle.p50_time_share_to_claim_secs = p50_time_share_to_claim_secs;
    oracle.commission_per_new_customer_tokens = commission_per_new_customer_tokens;
    oracle.vs_google_ads_efficiency_bps = vs_google_ads_efficiency_bps;
    oracle.computed_at = now;
    oracle.data_points = data_points;
}

} // verus!
