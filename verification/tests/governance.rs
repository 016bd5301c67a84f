use viral_sync::bond::{
    finalize_close_merchant, initiate_close_merchant, redeem_bond_share, withdraw_bond,
    MerchantBond, CLOSE_WINDOW_SECS,
};
use viral_sync::commission::CommissionLedger;
use viral_sync::config::create_mint_and_config;
use viral_sync::dispute::{
    raise_dispute, resolve_expired_dispute, DisputeRecord, DisputeStatus,
    DISPUTE_MERCHANT_RESPONSE_SECS,
};
use viral_sync::errors::ViralSyncError;
use viral_sync::holder::TokenGeneration;
use viral_sync::oracle::MerchantReputation;
use viral_sync::types::AccountId;

fn acct(v: u64) -> AccountId {
    AccountId { value: v }
}

fn fresh_dispute() -> DisputeRecord {
    DisputeRecord {
        merchant: acct(1),
        referral: acct(77),
        watchdog: acct(0),
        status: DisputeStatus::Dismissed,
        stake_lamports: 0,
        raised_at: 0,
        resolved_at: None,
    }
}

fn reputation_of(score: u32) -> MerchantReputation {
    MerchantReputation {
        merchant: acct(1),
        reputation_score: score,
        timeout_disputes: 0,
        pct_redeemers_aged_over_30_days: 0,
        unique_attestation_servers_used: 0,
        commission_concentration_bps: 0,
        pct_redemptions_in_business_hours: 0,
        avg_poi_score_top_referrers: 0,
        suspicion_score: 0,
        suspicion_computed_at: 0,
    }
}

#[test]
fn dispute_freezes_and_timeout_resolution_releases() {
    let mut ledger = CommissionLedger::new(acct(20), acct(1), acct(2));
    ledger.claimable = 1000;
    let mut dispute = fresh_dispute();
    let mut reputation = reputation_of(10_000);
    let t0: i64 = 500_000;

    raise_dispute(&mut dispute, &mut ledger, acct(30), 1000, t0).unwrap();
    assert_eq!(ledger.claimable, 0);
    assert_eq!(ledger.frozen_amount, 1000);
    assert!(ledger.frozen);
    assert_eq!(dispute.status, DisputeStatus::Pending);
    assert_eq!(dispute.raised_at, t0);
    assert_eq!(dispute.watchdog, acct(30));

    let event = resolve_expired_dispute(
        &mut dispute,
        &mut ledger,
        &mut reputation,
        t0 + DISPUTE_MERCHANT_RESPONSE_SECS + 1,
    )
    .unwrap();

    assert_eq!(dispute.status, DisputeStatus::UpheldByTimeout);
    assert_eq!(dispute.resolved_at, Some(t0 + DISPUTE_MERCHANT_RESPONSE_SECS + 1));
    assert!(!ledger.frozen);
    assert_eq!(ledger.frozen_amount, 0);
    assert_eq!(event.disputed_amount, 1000);
    assert_eq!(event.watchdog_reward, 500);
    assert_eq!(reputation.reputation_score, 9500);
    assert_eq!(reputation.timeout_disputes, 1);
}

#[test]
fn reputation_penalty_floors_at_zero() {
    let mut ledger = CommissionLedger::new(acct(20), acct(1), acct(2));
    ledger.claimable = 10;
    let mut dispute = fresh_dispute();
    let mut reputation = reputation_of(300);
    raise_dispute(&mut dispute, &mut ledger, acct(30), 10, 0).unwrap();

    resolve_expired_dispute(
        &mut dispute,
        &mut ledger,
        &mut reputation,
        DISPUTE_MERCHANT_RESPONSE_SECS + 1,
    )
    .unwrap();

    assert_eq!(reputation.reputation_score, 0);
}

#[test]
fn dispute_rejections() {
    let mut ledger = CommissionLedger::new(acct(20), acct(1), acct(2));
    ledger.claimable = 100;
    let mut dispute = fresh_dispute();

    assert_eq!(
        raise_dispute(&mut dispute, &mut ledger, acct(30), 0, 0),
        Err(ViralSyncError::BelowMinimum)
    );
    assert_eq!(
        raise_dispute(&mut dispute, &mut ledger, acct(30), 500, 0),
        Err(ViralSyncError::InsufficientBalance)
    );
    assert_eq!(ledger.claimable, 100);

    raise_dispute(&mut dispute, &mut ledger, acct(30), 50, 0).unwrap();
    assert_eq!(
        raise_dispute(&mut dispute, &mut ledger, acct(30), 10, 0),
        Err(ViralSyncError::AccessDenied)
    );
}

#[test]
fn timeout_resolution_needs_an_elapsed_window() {
    let mut ledger = CommissionLedger::new(acct(20), acct(1), acct(2));
    ledger.claimable = 100;
    let mut dispute = fresh_dispute();
    let mut reputation = reputation_of(10_000);

    assert_eq!(
        resolve_expired_dispute(&mut dispute, &mut ledger, &mut reputation, 1),
        Err(ViralSyncError::AccessDenied)
    );

    raise_dispute(&mut dispute, &mut ledger, acct(30), 100, 0).unwrap();
    assert_eq!(
        resolve_expired_dispute(
            &mut dispute,
            &mut ledger,
            &mut reputation,
            DISPUTE_MERCHANT_RESPONSE_SECS,
        ),
        Err(ViralSyncError::TokensExpired)
    );
    assert!(ledger.frozen);
    assert_eq!(reputation.timeout_disputes, 0);
}

#[test]
fn bond_withdrawal_respects_lock_and_minimum() {
    let mut bond = MerchantBond {
        merchant: acct(1),
        bonded_lamports: 1000,
        min_required_lamports: 400,
        is_locked: true,
        unlock_requested_at: 0,
    };
    assert_eq!(withdraw_bond(&mut bond, 100), Err(ViralSyncError::AccessDenied));

    bond.is_locked = false;
    assert_eq!(withdraw_bond(&mut bond, 700), Err(ViralSyncError::InsufficientBalance));
    assert_eq!(bond.bonded_lamports, 1000);

    withdraw_bond(&mut bond, 600).unwrap();
    assert_eq!(bond.bonded_lamports, 400);
}

#[test]
fn bond_withdrawal_past_the_balance_is_an_overflow() {
    let mut bond = MerchantBond {
        merchant: acct(1),
        bonded_lamports: 100,
        min_required_lamports: 0,
        is_locked: false,
        unlock_requested_at: 0,
    };
    // The saturated minimum check passes, but the balance cannot cover it.
    assert_eq!(withdraw_bond(&mut bond, 200), Err(ViralSyncError::MathOverflow));
    assert_eq!(bond.bonded_lamports, 100);
}

#[test]
fn merchant_close_runs_through_its_window() {
    let mut config = create_mint_and_config(acct(1), acct(2), 250, 500, 0).unwrap();
    let t0: i64 = 1_000;

    let event = initiate_close_merchant(&mut config, t0).unwrap();
    assert!(!config.is_active);
    assert_eq!(config.close_initiated_at, t0);
    assert_eq!(config.close_window_ends_at, t0 + CLOSE_WINDOW_SECS);
    assert_eq!(event.close_window_ends_at, t0 + CLOSE_WINDOW_SECS);

    assert_eq!(
        initiate_close_merchant(&mut config, t0),
        Err(ViralSyncError::AccessDenied)
    );
    assert_eq!(
        finalize_close_merchant(&config, t0 + CLOSE_WINDOW_SECS),
        Err(ViralSyncError::TokensExpired)
    );
    let closed = finalize_close_merchant(&config, t0 + CLOSE_WINDOW_SECS + 1).unwrap();
    assert_eq!(closed.merchant, acct(1));
}

#[test]
fn bond_share_is_pro_rata_and_single_shot() {
    let mut config = create_mint_and_config(acct(1), acct(2), 250, 500, 0).unwrap();
    config.current_supply = 1000;
    initiate_close_merchant(&mut config, 0).unwrap();
    let after_window = CLOSE_WINDOW_SECS + 1;
    let mut bond = MerchantBond {
        merchant: acct(1),
        bonded_lamports: 5000,
        min_required_lamports: 0,
        is_locked: false,
        unlock_requested_at: 0,
    };
    let mut gen = TokenGeneration::init_token_generation(acct(2), acct(10));
    gen.gen1_balance = 60;
    gen.gen2_balance = 30;
    gen.dead_balance = 10;

    let event = redeem_bond_share(&config, &mut gen, &mut bond, after_window).unwrap();

    // 5000 * 100 / 1000 lamports.
    assert_eq!(event.lamports, 500);
    assert_eq!(bond.bonded_lamports, 4500);
    assert_eq!(gen.gen1_balance, 0);
    assert_eq!(gen.gen2_balance, 0);
    assert_eq!(gen.dead_balance, 0);

    // The zeroed ledger cannot claim again.
    assert_eq!(
        redeem_bond_share(&config, &mut gen, &mut bond, after_window),
        Err(ViralSyncError::NothingToClaim)
    );
}

#[test]
fn bond_share_rejections() {
    let mut config = create_mint_and_config(acct(1), acct(2), 250, 500, 0).unwrap();
    let mut bond = MerchantBond {
        merchant: acct(1),
        bonded_lamports: 5000,
        min_required_lamports: 0,
        is_locked: false,
        unlock_requested_at: 0,
    };
    let mut gen = TokenGeneration::init_token_generation(acct(2), acct(10));
    gen.gen1_balance = 100;

    assert_eq!(
        redeem_bond_share(&config, &mut gen, &mut bond, 1),
        Err(ViralSyncError::AccessDenied)
    );
    initiate_close_merchant(&mut config, 0).unwrap();
    assert_eq!(
        redeem_bond_share(&config, &mut gen, &mut bond, 1),
        Err(ViralSyncError::TokensExpired)
    );
    // Supply was never recorded: nothing to share against.
    assert_eq!(
        redeem_bond_share(&config, &mut gen, &mut bond, CLOSE_WINDOW_SECS + 1),
        Err(ViralSyncError::InsufficientBalance)
    );
    assert_eq!(gen.gen1_balance, 100);
    assert_eq!(bond.bonded_lamports, 5000);
}
