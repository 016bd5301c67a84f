//! The commission ledger: per (referrer, merchant, asset) accrual of
//! claimable commission with fixed-point dust carry, periodic claim, and
//! the freeze state used by dispute arbitration.

use vstd::prelude::*;
use vstd::arithmetic::div_mod::{
    lemma_div_is_ordered,
    lemma_div_multiples_vanish,
    lemma_fundamental_div_mod,
};
use vstd::arithmetic::mul::lemma_mul_upper_bound;
use crate::types::AccountId;
use crate::errors::ViralSyncError;
use crate::referral::ReferralRecord;
use crate::config::MerchantConfig;

verus! {

/// One unit of the asset equals this many dust units; commission is
/// computed exactly in dust units and promoted once a whole unit accrues.
pub const DUST_UNITS_PER_TOKEN: u32 = 10_000;

/// Claimable commission accrued for one referrer with one merchant and
/// asset. Created lazily, mutated by redemption settlement and claims.
#[derive(Clone, Copy, PartialEq, Eq, Structural, Debug)]
pub struct CommissionLedger {
    pub referrer: AccountId,
    pub merchant: AccountId,
    pub mint: AccountId,

    pub claimable: u64,
    /// Fractional commission retained across settlements, in units of
    /// 1/10000 of the asset's smallest unit; always below 10000.
    pub dust_tenths_accumulated: u32,

    pub frozen: bool,
    /// Disputed amount moved out of `claimable` while frozen.
    pub frozen_amount: u64,

    pub total_earned: u64,
    pub total_claimed: u64,
    pub total_redemptions_driven: u64,
    pub highest_single_commission: u64,
}

impl CommissionLedger {
    /// The ledger's standing invariant: the dust accumulator holds less
    /// than one whole unit.
    pub open spec fn wf(self) -> bool {
        self.dust_tenths_accumulated < DUST_UNITS_PER_TOKEN
    }

    /// The empty ledger for one (referrer, merchant, asset) key.
    pub open spec fn spec_new(
        referrer: AccountId,
        merchant: AccountId,
        mint: AccountId,
    ) -> CommissionLedger {
        CommissionLedger {
            referrer,
            merchant,
            mint,
            claimable: 0,
            dust_tenths_accumulated: 0,
            frozen: false,
            frozen_amount: 0,
            total_earned: 0,
            total_claimed: 0,
            total_redemptions_driven: 0,
            highest_single_commission: 0,
        }
    }

    /// Creates the empty ledger for one (referrer, merchant, asset) key.
    pub fn new(referrer: AccountId, merchant: AccountId, mint: AccountId) -> (l: CommissionLedger)
        ensures
            l == CommissionLedger::spec_new(referrer, merchant, mint),
            l.wf(),
    {
        CommissionLedger {
            referrer,
            merchant,
            mint,
            claimable: 0,
            dust_tenths_accumulated: 0,
            frozen: false,
            frozen_amount: 0,
            total_earned: 0,
            total_claimed: 0,
            total_redemptions_driven: 0,
            highest_single_commission: 0,
        }
    }
}

/// The exact commission for a settled apportionment, in dust units.
pub open spec fn raw_commission_dust_units(apportioned: u64, bps: u16) -> int {
    apportioned * bps
}

/// The whole-unit part of the exact commission.
pub open spec fn commission_whole(apportioned: u64, bps: u16) -> int {
    raw_commission_dust_units(apportioned, bps) / (DUST_UNITS_PER_TOKEN as int)
}

/// The fractional remainder of the exact commission, in dust units.
pub open spec fn commission_dust(apportioned: u64, bps: u16) -> int {
    raw_commission_dust_units(apportioned, bps) % (DUST_UNITS_PER_TOKEN as int)
}

/// What a settlement actually credits: the whole-unit commission, capped
/// at the referral's remaining headroom.
pub open spec fn credit_amount(referral: ReferralRecord, apportioned: u64) -> int {
    let whole = commission_whole(apportioned, referral.committed_commission_bps);
    let headroom = referral.max_commission_cap - referral.commission_earned;
    if whole <= headroom {
        whole
    } else {
        headroom
    }
}

/// Dust units promoted to whole claimable units by this settlement.
pub open spec fn promoted_units(
    ledger: CommissionLedger,
    referral: ReferralRecord,
    apportioned: u64,
) -> int {
    (ledger.dust_tenths_accumulated + commission_dust(
        apportioned,
        referral.committed_commission_bps,
    )) / (DUST_UNITS_PER_TOKEN as int)
}

/// Whether crediting this settlement would overflow one of the ledger's
/// lifetime counters (the one condition on which a credit fails).
pub open spec fn commission_credit_overflows(
    ledger: CommissionLedger,
    referral: ReferralRecord,
    apportioned: u64,
) -> bool {
    let c = credit_amount(referral, apportioned);
    let p = promoted_units(ledger, referral, apportioned);
    c > 0 && (ledger.claimable + c + p > u64::MAX || ledger.total_earned + c + p > u64::MAX
        || ledger.total_redemptions_driven + 1 > u64::MAX)
}

/// The exact effect of one successful settlement credit on the ledger and
/// the referral record. A credit capped to zero changes nothing.
pub open spec fn commission_credited(
    l0: CommissionLedger,
    l1: CommissionLedger,
    r0: ReferralRecord,
    r1: ReferralRecord,
    apportioned: u64,
) -> bool {
    let c = credit_amount(r0, apportioned);
    let t = commission_dust(apportioned, r0.committed_commission_bps);
    let p = promoted_units(l0, r0, apportioned);
    if c > 0 {
        &&& l1 == (CommissionLedger {
            claimable: (l0.claimable + c + p) as u64,
            dust_tenths_accumulated: ((l0.dust_tenths_accumulated + t) % (
            DUST_UNITS_PER_TOKEN as int)) as u32,
            total_earned: (l0.total_earned + c + p) as u64,
            total_redemptions_driven: (l0.total_redemptions_driven + 1) as u64,
            highest_single_commission: if c > l0.highest_single_commission {
                c as u64
            } else {
                l0.highest_single_commission
            },
            ..l0
        })
        &&& r1 == (ReferralRecord {
            commission_earned: (r0.commission_earned + c) as u64,
            commission_settled: (r0.commission_settled + c) as u64,
            ..r0
        })
    } else {
        l1 == l0 && r1 == r0
    }
}

/// Credits one settled apportionment to the commission ledger: the exact
/// commission is `apportioned * bps` dust units; the whole-unit part is
/// capped at the referral's remaining headroom and credited; the
/// remainder joins the dust accumulator, which promotes a whole unit to
/// claimable as soon as it fills. On any overflow nothing changes.
pub fn credit_commission(
    ledger: &mut CommissionLedger,
    referral: &mut ReferralRecord,
    apportioned: u64,
) -> (r: Result<(), ViralSyncError>)
    requires
        old(ledger).wf(),
        old(referral).wf(),
    ensures
        final(ledger).wf(),
        final(referral).wf(),
        commission_credit_overflows(*old(ledger), *old(referral), apportioned) ==> r == Result::<
            (),
            ViralSyncError,
        >::Err(ViralSyncError::MathOverflow) && *final(ledger) == *old(ledger) && *final(referral)
            == *old(referral),
        !commission_credit_overflows(*old(ledger), *old(referral), apportioned) ==> {
            &&& r is Ok
            &&& commission_credited(
                *old(ledger),
                *final(ledger),
                *old(referral),
                *final(referral),
                apportioned,
            )
        },
        final(referral).commission_earned <= old(referral).max_commission_cap,
{
    let ghost c_spec = credit_amount(*old(referral), apportioned);
    proof {
        lemma_mul_upper_bound(
            apportioned as int,
            u64::MAX as int,
            referral.committed_commission_bps as int,
            u16::MAX as int,
        );
    }
    let raw: u128 = apportioned as u128 * referral.committed_commission_bps as u128;
    let whole128: u128 = raw / (DUST_UNITS_PER_TOKEN as u128);
    let dust_tenths: u32 = (raw % (DUST_UNITS_PER_TOKEN as u128)) as u32;
    proof {
        assert(apportioned * referral.committed_commission_bps <= apportioned * 10_000) by (
        nonlinear_arith)
            requires
                referral.committed_commission_bps <= 10_000,
        ;
        lemma_div_is_ordered(
            raw as int,
            apportioned as int * 10_000,
            DUST_UNITS_PER_TOKEN as int,
        );
        lemma_div_multiples_vanish(apportioned as int, DUST_UNITS_PER_TOKEN as int);
        assert(whole128 <= apportioned);
    }
    let whole: u64 = whole128 as u64;
    let headroom: u64 = referral.max_commission_cap - referral.commission_earned;
    let to_credit: u64 = if whole <= headroom {
        whole
    } else {
        headroom
    };
    assert(to_credit == c_spec);
    if to_credit == 0 {
        return Result::Ok(());
    }
    let dust_sum: u32 = ledger.dust_tenths_accumulated + dust_tenths;
    let bonus: u32 = dust_sum / DUST_UNITS_PER_TOKEN;
    let new_dust: u32 = dust_sum % DUST_UNITS_PER_TOKEN;
    if ledger.claimable > u64::MAX - to_credit {
        return Result::Err(ViralSyncError::MathOverflow);
    }
    let claim_plus_credit: u64 = ledger.claimable + to_credit;
    if claim_plus_credit > u64::MAX - bonus as u64 {
        return Result::Err(ViralSyncError::MathOverflow);
    }
    if ledger.total_earned > u64::MAX - to_credit {
        return Result::Err(ViralSyncError::MathOverflow);
    }
    let earned_plus_credit: u64 = ledger.total_earned + to_credit;
    if earned_plus_credit > u64::MAX - bonus as u64 {
        return Result::Err(ViralSyncError::MathOverflow);
    }
    if ledger.total_redemptions_driven == u64::MAX {
        return Result::Err(ViralSyncError::MathOverflow);
    }
    ledger.claimable = claim_plus_credit + bonus as u64;
    ledger.dust_tenths_accumulated = new_dust;
    ledger.total_earned = earned_plus_credit + bonus as u64;
    ledger.total_redemptions_driven = ledger.total_redemptions_driven + 1;
    if to_credit > ledger.highest_single_commission {
        ledger.highest_single_commission = to_credit;
    }
    referral.commission_earned = referral.commission_earned + to_credit;
    referral.commission_settled = referral.commission_settled + to_credit;
    Result::Ok(())
}

/// The cap holds across any run of settlements: one settlement credit
/// never lifts the referral's earned commission above its cap, and never
/// moves the cap itself, so repeated settlements stay capped by
/// induction on this step.
pub proof fn lemma_commission_cap_never_exceeded(
    l0: CommissionLedger,
    l1: CommissionLedger,
    r0: ReferralRecord,
    r1: ReferralRecord,
    apportioned: u64,
)
    requires
        r0.wf(),
        commission_credited(l0, l1, r0, r1, apportioned),
    ensures
        r1.max_commission_cap == r0.max_commission_cap,
        r1.commission_earned <= r1.max_commission_cap,
{
}

/// Promotion across the whole-unit boundary is exact: counted in dust
/// units, what a successful credit adds to the claimable balance and the
/// dust accumulator together is exactly the commission earned by the
/// settlement.
pub proof fn lemma_dust_promotion_exact(
    l0: CommissionLedger,
    l1: CommissionLedger,
    r0: ReferralRecord,
    r1: ReferralRecord,
    apportioned: u64,
)
    requires
        l0.wf(),
        r0.wf(),
        commission_credited(l0, l1, r0, r1, apportioned),
        credit_amount(r0, apportioned) > 0,
        !commission_credit_overflows(l0, r0, apportioned),
    ensures
        (DUST_UNITS_PER_TOKEN as int) * (l1.claimable - l0.claimable) + l1.dust_tenths_accumulated
            - l0.dust_tenths_accumulated == (DUST_UNITS_PER_TOKEN as int) * credit_amount(
            r0,
            apportioned,
        ) + commission_dust(apportioned, r0.committed_commission_bps),
{
    let t = commission_dust(apportioned, r0.committed_commission_bps);
    let d = l0.dust_tenths_accumulated as int;
    lemma_fundamental_div_mod(d + t, DUST_UNITS_PER_TOKEN as int);
}

/// The gross amount whose net after a proportional `fee_bps` deduction is
/// at least `claimable`: the claim rounds up so the referrer's receipt is
/// never short.
pub open spec fn gross_for_claim(claimable: u64, fee_bps: u16) -> int {
    (claimable * 10_000 + (10_000 - fee_bps) - 1) / (10_000 - fee_bps)
}

/// Pays out the whole claimable balance. Returns the gross amount the
/// host must send so the net receipt after the transfer fee is at least
/// the claimable amount; the claimable balance resets to zero and dust is
/// untouched. Rejected while frozen, when nothing is claimable, when the
/// fee leaves no positive net rate, or on counter overflow — each without
/// mutation.
pub fn claim_commission(ledger: &mut CommissionLedger, config: &MerchantConfig) -> (r: Result<
    u64,
    ViralSyncError,
>)
    requires
        old(ledger).wf(),
    ensures
        final(ledger).wf(),
        r is Err ==> *final(ledger) == *old(ledger),
        old(ledger).frozen ==> r == Result::<u64, ViralSyncError>::Err(
            ViralSyncError::CommissionFrozenDictated,
        ),
        !old(ledger).frozen && old(ledger).claimable == 0 ==> r == Result::<u64, ViralSyncError>::Err(
            ViralSyncError::NothingToClaim,
        ),
        !old(ledger).frozen && old(ledger).claimable > 0 && config.transfer_fee_bps >= 10_000 ==> r
            == Result::<u64, ViralSyncError>::Err(ViralSyncError::InvalidFeeConfig),
        !old(ledger).frozen && old(ledger).claimable > 0 && config.transfer_fee_bps < 10_000 ==> {
            let gross = gross_for_claim(old(ledger).claimable, config.transfer_fee_bps);
            if gross > u64::MAX || old(ledger).total_claimed + old(ledger).claimable > u64::MAX {
                r == Result::<u64, ViralSyncError>::Err(ViralSyncError::MathOverflow)
            } else {
                &&& r == Result::<u64, ViralSyncError>::Ok(gross as u64)
                &&& *final(ledger) == (CommissionLedger {
                    claimable: 0,
                    total_claimed: (old(ledger).total_claimed + old(ledger).claimable) as u64,
                    ..*old(ledger)
                })
            }
        },
{
    if ledger.frozen {
        return Result::Err(ViralSyncError::CommissionFrozenDictated);
    }
    let gross_claimable: u64 = ledger.claimable;
    if gross_claimable == 0 {
        return Result::Err(ViralSyncError::NothingToClaim);
    }
    if config.transfer_fee_bps >= 10_000 {
        return Result::Err(ViralSyncError::InvalidFeeConfig);
    }
    let denom: u128 = 10_000u128 - config.transfer_fee_bps as u128;
    let numerator: u128 = gross_claimable as u128 * 10_000u128;
    let gross128: u128 = (numerator + (denom - 1)) / denom;
    if gross128 > u64::MAX as u128 {
        return Result::Err(ViralSyncError::MathOverflow);
    }
    if ledger.total_claimed > u64::MAX - gross_claimable {
        return Result::Err(ViralSyncError::MathOverflow);
    }
    let gross: u64 = gross128 as u64;
    ledger.total_claimed = ledger.total_claimed + gross_claimable;
    ledger.claimable = 0;
    Result::Ok(gross)
}

} // verus!
