//! Merchant configuration and the settlement-vault registry fact.

use vstd::prelude::*;
use crate::types::AccountId;
use crate::errors::ViralSyncError;

verus! {

pub const DEFAULT_MIN_TOKENS_PER_REFERRAL: u64 = 1;
pub const DEFAULT_MAX_TOKENS_PER_REFERRAL: u64 = 1_000_000_000_000;
pub const DEFAULT_MAX_REFERRALS_PER_DAY: u16 = 100;
pub const DEFAULT_SLOTS_PER_DAY: u64 = 216_000;

/// Static per-merchant policy, consumed read-only by the transfer
/// classifier and the commission ledger.
#[derive(Clone, Copy, PartialEq, Eq, Structural, Debug)]
pub struct MerchantConfig {
    pub merchant: AccountId,
    pub mint: AccountId,
    pub is_active: bool,

    pub min_hold_before_share_secs: i64,
    pub min_tokens_per_referral: u64,
    pub max_tokens_per_referral: u64,

    pub max_referrals_per_wallet_per_day: u16,
    pub allow_second_gen_transfer: bool,
    pub slots_per_day: u64,

    pub token_expiry_days: u16,
    pub commission_rate_bps: u16,
    pub transfer_fee_bps: u16,

    pub first_issuance_done: bool,
    pub current_supply: u64,
    pub tokens_issued: u64,

    pub close_initiated_at: i64,
    pub close_window_ends_at: i64,
}

impl MerchantConfig {
    /// Bounds that every accepted configuration satisfies: rates are valid
    /// basis-point fractions and the hold time is non-negative.
    pub open spec fn wf(self) -> bool {
        &&& self.commission_rate_bps <= 10_000
        &&& self.transfer_fee_bps < 10_000
        &&& self.min_hold_before_share_secs >= 0
    }
}

/// Registry membership record for one settlement vault (or exchange
/// endpoint) of one merchant.
#[derive(Clone, Copy, PartialEq, Eq, Structural, Debug)]
pub struct VaultEntry {
    pub vault: AccountId,
    pub merchant: AccountId,
    pub is_active: bool,
    pub is_dex: bool,
}

/// Whether the registry recognizes `expected_vault_owner` as an active
/// settlement vault of `merchant`. `entry` is absent when no registry
/// record exists (or it could not be read).
pub open spec fn spec_is_registered_vault(
    entry: Option<VaultEntry>,
    merchant: AccountId,
    expected_vault_owner: AccountId,
) -> bool {
    match entry {
        Option::Some(e) => e.is_active && e.merchant == merchant && e.vault == expected_vault_owner,
        Option::None => false,
    }
}

/// Decides registry membership for a settlement vault.
pub fn is_registered_vault(
    entry: &Option<VaultEntry>,
    merchant: AccountId,
    expected_vault_owner: AccountId,
) -> (r: bool)
    ensures
        r == spec_is_registered_vault(*entry, merchant, expected_vault_owner),
{
    match entry {
        Option::Some(e) => e.is_active && e.merchant == merchant && e.vault == expected_vault_owner,
        Option::None => false,
    }
}

/// Validates the merchant-chosen rates and builds the initial
/// configuration, with conservative defaults for the share policy.
pub fn create_mint_and_config(
    merchant: AccountId,
    mint: AccountId,
    commission_rate_bps: u16,
    transfer_fee_bps: u16,
    min_hold_before_share_secs: i64,
) -> (r: Result<MerchantConfig, ViralSyncError>)
    ensures
        commission_rate_bps > 10_000 ==> r == Result::<MerchantConfig, ViralSyncError>::Err(
            ViralSyncError::InvalidFeeConfig,
        ),
        commission_rate_bps <= 10_000 && transfer_fee_bps >= 10_000 ==> r
            == Result::<MerchantConfig, ViralSyncError>::Err(ViralSyncError::InvalidFeeConfig),
        commission_rate_bps <= 10_000 && transfer_fee_bps < 10_000 && min_hold_before_share_secs
            < 0 ==> r == Result::<MerchantConfig, ViralSyncError>::Err(
            ViralSyncError::InvalidAuthority,
        ),
        commission_rate_bps <= 10_000 && transfer_fee_bps < 10_000 && min_hold_before_share_secs
            >= 0 ==> r == Result::<MerchantConfig, ViralSyncError>::Ok(
            initial_config(
                merchant,
                mint,
                commission_rate_bps,
                transfer_fee_bps,
                min_hold_before_share_secs,
            ),
        ),
        r is Ok ==> r->Ok_0.wf(),
{
    if commission_rate_bps > 10_000 {
        return Result::Err(ViralSyncError::InvalidFeeConfig);
    }
    if transfer_fee_bps >= 10_000 {
        return Result::Err(ViralSyncError::InvalidFeeConfig);
    }
    if min_hold_before_share_secs < 0 {
        return Result::Err(ViralSyncError::InvalidAuthority);
    }
    Result::Ok(
        MerchantConfig {
            merchant,
            mint,
            is_active: true,
            min_hold_before_share_secs,
            min_tokens_per_referral: DEFAULT_MIN_TOKENS_PER_REFERRAL,
            max_tokens_per_referral: DEFAULT_MAX_TOKENS_PER_REFERRAL,
            max_referrals_per_wallet_per_day: DEFAULT_MAX_REFERRALS_PER_DAY,
            allow_second_gen_transfer: false,
            slots_per_day: DEFAULT_SLOTS_PER_DAY,
            token_expiry_days: 0,
            commission_rate_bps,
            transfer_fee_bps,
            first_issuance_done: false,
            current_supply: 0,
            tokens_issued: 0,
            close_initiated_at: 0,
            close_window_ends_at: 0,
        },
    )
}

/// The configuration that `create_mint_and_config` accepts for valid rates.
pub open spec fn initial_config(
    merchant: AccountId,
    mint: AccountId,
    commission_rate_bps: u16,
    transfer_fee_bps: u16,
    min_hold_before_share_secs: i64,
) -> MerchantConfig {
    MerchantConfig {
        merchant,
        mint,
        is_active: true,
        min_hold_before_share_secs,
        min_tokens_per_referral: DEFAULT_MIN_TOKENS_PER_REFERRAL,
        max_tokens_per_referral: DEFAULT_MAX_TOKENS_PER_REFERRAL,
        max_referrals_per_wallet_per_day: DEFAULT_MAX_REFERRALS_PER_DAY,
        allow_second_gen_transfer: false,
        slots_per_day: DEFAULT_SLOTS_PER_DAY,
        token_expiry_days: 0,
        commission_rate_bps,
        transfer_fee_bps,
        first_issuance_done: false,
        current_supply: 0,
        tokens_issued: 0,
        close_initiated_at: 0,
        close_window_ends_at: 0,
    }
}

/// Records the one-time initial issuance and locks further first issues.
/// Both supply counters grow by `amount`; on any error the configuration
/// is unchanged.
pub fn issue_first_tokens_and_lock(config: &mut MerchantConfig, amount: u64) -> (r: Result<
    (),
    ViralSyncError,
>)
    ensures
        r is Err ==> *final(config) == *old(config),
        amount == 0 ==> r == Result::<(), ViralSyncError>::Err(ViralSyncError::BelowMinimum),
        amount > 0 && old(config).first_issuance_done ==> r == Result::<(), ViralSyncError>::Err(
            ViralSyncError::AccessDenied,
        ),
        amount > 0 && !old(config).first_issuance_done && (old(config).current_supply + amount
            > u64::MAX || old(config).tokens_issued + amount > u64::MAX) ==> r == Result::<
            (),
            ViralSyncError,
        >::Err(ViralSyncError::MathOverflow),
        amount > 0 && !old(config).first_issuance_done && old(config).current_supply + amount
            <= u64::MAX && old(config).tokens_issued + amount <= u64::MAX ==> {
            &&& r is Ok
            &&& *final(config) == (MerchantConfig {
                first_issuance_done: true,
                current_supply: (old(config).current_supply + amount) as u64,
                tokens_issued: (old(config).tokens_issued + amount) as u64,
                ..*old(config)
            })
        },
{
    if amount == 0 {
        return Result::Err(ViralSyncError::BelowMinimum);
    }
    if config.first_issuance_done {
        return Result::Err(ViralSyncError::AccessDenied);
    }
    if config.current_supply > u64::MAX - amount {
        return Result::Err(ViralSyncError::MathOverflow);
    }
    if config.tokens_issued > u64::MAX - amount {
        return Result::Err(ViralSyncError::MathOverflow);
    }
    config.first_issuance_done = true;
    config.current_supply = config.current_supply + amount;
    config.tokens_issued = config.tokens_issued + amount;
    Result::Ok(())
}

} // verus!
