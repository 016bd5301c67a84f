//! The merchant bond: withdrawable collateral, the two-phase merchant
//! close-out, and holders' pro-rata bond share redemption after a close.

use vstd::prelude::*;
use vstd::arithmetic::div_mod::lemma_div_pos_is_pos;
use vstd::arithmetic::mul::lemma_mul_upper_bound;
use crate::types::AccountId;
use crate::errors::ViralSyncError;
use crate::events::{BondShareRedeemed, MerchantCloseInitiated, MerchantClosed};
use crate::config::MerchantConfig;
use crate::holder::TokenGeneration;

verus! {

/// How long the close-out window stays open: thirty days, in seconds.
pub const CLOSE_WINDOW_SECS: i64 = 2_592_000;

/// Collateral a merchant has bonded against its referral program.
#[derive(Clone, Copy, PartialEq, Eq, Structural, Debug)]
pub struct MerchantBond {
    pub merchant: AccountId,
    pub bonded_lamports: u64,
    pub min_required_lamports: u64,
    pub is_locked: bool,
    pub unlock_requested_at: i64,
}

/// Withdraws `amount` from an unlocked bond, but never below the
/// required minimum. On any error the bond is unchanged.
pub fn withdraw_bond(bond: &mut MerchantBond, amount: u64) -> (r: Result<(), ViralSyncError>)
    ensures
        r is Err ==> *final(bond) == *old(bond),
        old(bond).is_locked ==> r == Result::<(), ViralSyncError>::Err(ViralSyncError::AccessDenied),
        !old(bond).is_locked && (if amount <= old(bond).bonded_lamports {
            old(bond).bonded_lamports - amount
        } else {
            0int
        }) < old(bond).min_required_lamports ==> r == Result::<(), ViralSyncError>::Err(
            ViralSyncError::InsufficientBalance,
        ),
        !old(bond).is_locked && (if amount <= old(bond).bonded_lamports {
            old(bond).bonded_lamports - amount
        } else {
            0int
        }) >= old(bond).min_required_lamports && amount > old(bond).bonded_lamports ==> r
            == Result::<(), ViralSyncError>::Err(ViralSyncError::MathOverflow),
        !old(bond).is_locked && amount <= old(bond).bonded_lamports && old(bond).bonded_lamports
            - amount >= old(bond).min_required_lamports ==> {
            &&& r is Ok
            &&& *final(bond) == (MerchantBond {
                bonded_lamports: (old(bond).bonded_lamports - amount) as u64,
                ..*old(bond)
            })
        },
{
    if bond.is_locked {
        return Result::Err(ViralSyncError::AccessDenied);
    }
    let after: u64 = if amount <= bond.bonded_lamports {
        bond.bonded_lamports - amount
    } else {
        0
    };
    if after < bond.min_required_lamports {
        return Result::Err(ViralSyncError::InsufficientBalance);
    }
    if amount > bond.bonded_lamports {
        return Result::Err(ViralSyncError::MathOverflow);
    }
    bond.bonded_lamports = bond.bonded_lamports - amount;
    Result::Ok(())
}

/// Begins the merchant's close-out: deactivates the configuration and
/// opens the thirty-day window after which the close can be finalized
/// and holders can redeem bond shares.
pub fn initiate_close_merchant(config: &mut MerchantConfig, now: i64) -> (r: Result<
    MerchantCloseInitiated,
    ViralSyncError,
>)
    ensures
        r is Err ==> *final(config) == *old(config),
        !old(config).is_active ==> r == Result::<MerchantCloseInitiated, ViralSyncError>::Err(
            ViralSyncError::AccessDenied,
        ),
        old(config).is_active && now + CLOSE_WINDOW_SECS > i64::MAX ==> r == Result::<
            MerchantCloseInitiated,
            ViralSyncError,
        >::Err(ViralSyncError::MathOverflow),
        old(config).is_active && now + CLOSE_WINDOW_SECS <= i64::MAX ==> {
            &&& r == Result::<MerchantCloseInitiated, ViralSyncError>::Ok(
                MerchantCloseInitiated {
                    merchant: old(config).merchant,
                    mint: old(config).mint,
                    outstanding_tokens: old(config).current_supply,
                    close_window_ends_at: (now + CLOSE_WINDOW_SECS) as i64,
                },
            )
            &&& *final(config) == (MerchantConfig {
                is_active: false,
                close_initiated_at: now,
                close_window_ends_at: (now + CLOSE_WINDOW_SECS) as i64,
                ..*old(config)
            })
        },
{
    if !config.is_active {
        return Result::Err(ViralSyncError::AccessDenied);
    }
    if now > i64::MAX - CLOSE_WINDOW_SECS {
        return Result::Err(ViralSyncError::MathOverflow);
    }
    config.is_active = false;
    config.close_initiated_at = now;
    config.close_window_ends_at = now + CLOSE_WINDOW_SECS;
    Result::Ok(
        MerchantCloseInitiated {
            merchant: config.merchant,
            mint: config.mint,
            outstanding_tokens: config.current_supply,
            close_window_ends_at: config.close_window_ends_at,
        },
    )
}

/// Confirms that a merchant's close-out window has elapsed; the host
/// then releases the remaining bond to the merchant.
pub fn finalize_close_merchant(config: &MerchantConfig, now: i64) -> (r: Result<
    MerchantClosed,
    ViralSyncError,
>)
    ensures
        config.is_active ==> r == Result::<MerchantClosed, ViralSyncError>::Err(
            ViralSyncError::AccessDenied,
        ),
        !config.is_active && now <= config.close_window_ends_at ==> r == Result::<
            MerchantClosed,
            ViralSyncError,
        >::Err(ViralSyncError::TokensExpired),
        !config.is_active && now > config.close_window_ends_at ==> r == Result::<
            MerchantClosed,
            ViralSyncError,
        >::Ok(MerchantClosed { merchant: config.merchant, mint: config.mint }),
{
    if config.is_active {
        return Result::Err(ViralSyncError::AccessDenied);
    }
    if now <= config.close_window_ends_at {
        return Result::Err(ViralSyncError::TokensExpired);
    }
    Result::Ok(MerchantClosed { merchant: config.merchant, mint: config.mint })
}

/// The pro-rata bond share of a holder with `tokens` of a supply of
/// `supply`, out of `bonded` lamports.
pub open spec fn bond_share(bonded: u64, tokens: int, supply: u64) -> int {
    (bonded * tokens) / (supply as int)
}

/// Redeems a holder's pro-rata share of a closed merchant's bond: the
/// share is the bonded amount scaled by the holder's whole balance over
/// the outstanding supply; the holder's balances are zeroed so the claim
/// cannot repeat. On any error nothing changes.
pub fn redeem_bond_share(
    config: &MerchantConfig,
    gen: &mut TokenGeneration,
    bond: &mut MerchantBond,
    now: i64,
) -> (r: Result<BondShareRedeemed, ViralSyncError>)
    requires
        old(gen).wf(),
    ensures
        final(gen).wf(),
        r is Err ==> *final(gen) == *old(gen) && *final(bond) == *old(bond),
        config.is_active ==> r == Result::<BondShareRedeemed, ViralSyncError>::Err(
            ViralSyncError::AccessDenied,
        ),
        !config.is_active && now <= config.close_window_ends_at ==> r == Result::<
            BondShareRedeemed,
            ViralSyncError,
        >::Err(ViralSyncError::TokensExpired),
        !config.is_active && now > config.close_window_ends_at && config.current_supply == 0 ==> r
            == Result::<BondShareRedeemed, ViralSyncError>::Err(ViralSyncError::InsufficientBalance),
        !config.is_active && now > config.close_window_ends_at && config.current_supply > 0 ==> {
            let tokens = old(gen).total();
            let share = bond_share(old(bond).bonded_lamports, tokens, config.current_supply);
            if tokens > u64::MAX {
                r == Result::<BondShareRedeemed, ViralSyncError>::Err(ViralSyncError::MathOverflow)
            } else if tokens == 0 {
                r == Result::<BondShareRedeemed, ViralSyncError>::Err(ViralSyncError::NothingToClaim)
            } else if share > u64::MAX {
                r == Result::<BondShareRedeemed, ViralSyncError>::Err(ViralSyncError::MathOverflow)
            } else if share == 0 {
                r == Result::<BondShareRedeemed, ViralSyncError>::Err(ViralSyncError::NothingToClaim)
            } else if share > old(bond).bonded_lamports {
                r == Result::<BondShareRedeemed, ViralSyncError>::Err(ViralSyncError::MathOverflow)
            } else {
                &&& r == Result::<BondShareRedeemed, ViralSyncError>::Ok(
                    BondShareRedeemed { holder: old(gen).owner, lamports: share as u64 },
                )
                &&& *final(bond) == (MerchantBond {
                    bonded_lamports: (old(bond).bonded_lamports - share) as u64,
                    ..*old(bond)
                })
                &&& final(gen).gen1_balance == 0
                &&& final(gen).gen2_balance == 0
                &&& final(gen).dead_balance == 0
                &&& old(gen).same_except_balances(*final(gen))
            }
        },
{
    if config.is_active {
        return Result::Err(ViralSyncError::AccessDenied);
    }
    if now <= config.close_window_ends_at {
        return Result::Err(ViralSyncError::TokensExpired);
    }
    if config.current_supply == 0 {
        return Result::Err(ViralSyncError::InsufficientBalance);
    }
    let total: u128 = gen.total_balance();
    if total > u64::MAX as u128 {
        return Result::Err(ViralSyncError::MathOverflow);
    }
    if total == 0 {
        return Result::Err(ViralSyncError::NothingToClaim);
    }
    let holder_tokens: u64 = total as u64;
    proof {
        lemma_mul_upper_bound(
            bond.bonded_lamports as int,
            u64::MAX as int,
            holder_tokens as int,
            u64::MAX as int,
        );
    }
    let share_wide: u128 = (bond.bonded_lamports as u128 * holder_tokens as u128) / (
    config.current_supply as u128);
    proof {
        lemma_div_pos_is_pos(
            bond.bonded_lamports as int * holder_tokens as int,
            config.current_supply as int,
        );
    }
    if share_wide > u64::MAX as u128 {
        return Result::Err(ViralSyncError::MathOverflow);
    }
    let share: u64 = share_wide as u64;
    if share == 0 {
        return Result::Err(ViralSyncError::NothingToClaim);
    }
    if share > bond.bonded_lamports {
        return Result::Err(ViralSyncError::MathOverflow);
    }
    bond.bonded_lamports = bond.bonded_lamports - share;
    gen.gen1_balance = 0;
    gen.gen2_balance = 0;
    gen.dead_balance = 0;
    Result::Ok(BondShareRedeemed { holder: gen.owner, lamports: share })
}

} // verus!
