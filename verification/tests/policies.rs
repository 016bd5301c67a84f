use viral_sync::classifier::execute_transfer_hook;
use viral_sync::config::{
    create_mint_and_config, is_registered_vault, issue_first_tokens_and_lock, VaultEntry,
    DEFAULT_MAX_REFERRALS_PER_DAY, DEFAULT_MAX_TOKENS_PER_REFERRAL, DEFAULT_MIN_TOKENS_PER_REFERRAL,
    DEFAULT_SLOTS_PER_DAY,
};
use viral_sync::errors::ViralSyncError;
use viral_sync::escrow::{claim_escrow, create_escrow_share};
use viral_sync::finalize::finalize_inbound;
use viral_sync::geo::{redeem_with_geo, GeoFence};
use viral_sync::holder::{burn_tokens, ReferrerSlot, TokenGeneration};
use viral_sync::oracle::{
    compute_merchant_reputation, compute_viral_oracle, MerchantReputation, ViralOracle,
};
use viral_sync::referral::{close_expired_referral, ReferralRecord};
use viral_sync::session::{create_session_key, revoke_session_key};
use viral_sync::types::AccountId;

fn who(v: u64) -> AccountId {
    AccountId { value: v }
}

fn peer_share_into(dst_owner: u64) -> TokenGeneration {
    // Stage one referred entry of 300 from holder 10 into a fresh ledger.
    let config = create_mint_and_config(who(1), who(2), 250, 500, 0).unwrap();
    let mut src = TokenGeneration::init_token_generation(who(2), who(10));
    src.gen1_balance = 1000;
    let mut dst = TokenGeneration::init_token_generation(who(2), who(dst_owner));
    execute_transfer_hook(&mut src, &mut dst, &config, 300, false, 1000, 5).unwrap();
    dst
}

fn live_referral() -> ReferralRecord {
    ReferralRecord {
        record_id: who(77),
        merchant: who(1),
        mint: who(2),
        referrer: who(10),
        referred: who(11),
        created_at: 0,
        expires_at: 0,
        committed_commission_bps: 250,
        max_commission_cap: 1_000_000,
        commission_earned: 0,
        commission_settled: 0,
        is_active: true,
    }
}

#[test]
fn finalize_creates_a_referrer_slot() {
    let mut gen = peer_share_into(11);
    assert_eq!(gen.buffer_pending, 1);
    let referrals = vec![live_referral()];

    finalize_inbound(&mut gen, &referrals, 2000).unwrap();

    assert_eq!(gen.buffer_pending, 0);
    assert_eq!(gen.active_referrer_slots, 1);
    let slot = gen.referrer_slots[0];
    assert!(slot.is_active);
    assert_eq!(slot.referrer, who(10));
    assert_eq!(slot.referral_record, who(77));
    assert_eq!(slot.tokens_attributed, 300);
    assert_eq!(gen.gen2_balance, 300);
    assert_eq!(gen.dead_balance, 0);
    assert!(gen.inbound_buffer[0].processed);
    assert_eq!(gen.inbound_buffer[0].amount, 0);
}

#[test]
fn finalize_updates_an_existing_slot() {
    let mut gen = peer_share_into(11);
    gen.referrer_slots[0] = ReferrerSlot {
        referrer: who(10),
        referral_record: who(77),
        tokens_attributed: 40,
        tokens_redeemed_so_far: 0,
        is_active: true,
    };
    gen.active_referrer_slots = 1;
    let referrals = vec![live_referral()];

    finalize_inbound(&mut gen, &referrals, 2000).unwrap();

    assert_eq!(gen.active_referrer_slots, 1);
    assert_eq!(gen.referrer_slots[0].tokens_attributed, 340);
}

#[test]
fn finalize_reclassifies_expired_referrals_to_inert() {
    let mut gen = peer_share_into(11);
    let mut expired = live_referral();
    expired.expires_at = 100;
    let referrals = vec![expired];
    let total_before = gen.gen1_balance as u128 + gen.gen2_balance as u128 + gen.dead_balance as u128;

    finalize_inbound(&mut gen, &referrals, 2000).unwrap();

    assert_eq!(gen.gen2_balance, 0);
    assert_eq!(gen.dead_balance, 300);
    assert_eq!(gen.active_referrer_slots, 0);
    let total_after = gen.gen1_balance as u128 + gen.gen2_balance as u128 + gen.dead_balance as u128;
    assert_eq!(total_before, total_after);
}

#[test]
fn finalize_without_a_record_reclassifies() {
    let mut gen = peer_share_into(11);
    let referrals: Vec<ReferralRecord> = vec![];

    finalize_inbound(&mut gen, &referrals, 2000).unwrap();

    assert_eq!(gen.gen2_balance, 0);
    assert_eq!(gen.dead_balance, 300);
}

#[test]
fn finalize_with_full_slots_degrades_to_inert() {
    let mut gen = peer_share_into(11);
    for k in 0..4 {
        gen.referrer_slots[k] = ReferrerSlot {
            referrer: who(100 + k as u64),
            referral_record: who(200 + k as u64),
            tokens_attributed: 1,
            tokens_redeemed_so_far: 0,
            is_active: true,
        };
    }
    gen.active_referrer_slots = 4;
    let referrals = vec![live_referral()];

    finalize_inbound(&mut gen, &referrals, 2000).unwrap();

    assert_eq!(gen.active_referrer_slots, 4);
    assert_eq!(gen.gen2_balance, 0);
    assert_eq!(gen.dead_balance, 300);
}

#[test]
fn finalize_with_nothing_pending_is_a_no_op() {
    let mut gen = TokenGeneration::init_token_generation(who(2), who(11));
    gen.gen1_balance = 5;
    let referrals = vec![live_referral()];
    finalize_inbound(&mut gen, &referrals, 2000).unwrap();
    assert_eq!(gen.gen1_balance, 5);
    assert_eq!(gen.buffer_pending, 0);
}

#[test]
fn burn_consumes_buckets_in_reverse_order() {
    let mut gen = TokenGeneration::init_token_generation(who(2), who(11));
    gen.gen1_balance = 20;
    gen.gen2_balance = 10;
    gen.dead_balance = 5;

    burn_tokens(&mut gen, 12).unwrap();

    assert_eq!(gen.dead_balance, 0);
    assert_eq!(gen.gen2_balance, 3);
    assert_eq!(gen.gen1_balance, 20);

    assert_eq!(burn_tokens(&mut gen, 100), Err(ViralSyncError::InsufficientBalance));
    assert_eq!(gen.gen1_balance, 20);
}

#[test]
fn config_validation_and_defaults() {
    assert_eq!(
        create_mint_and_config(who(1), who(2), 10_001, 500, 0),
        Err(ViralSyncError::InvalidFeeConfig)
    );
    assert_eq!(
        create_mint_and_config(who(1), who(2), 250, 10_000, 0),
        Err(ViralSyncError::InvalidFeeConfig)
    );
    assert_eq!(
        create_mint_and_config(who(1), who(2), 250, 500, -1),
        Err(ViralSyncError::InvalidAuthority)
    );

    let config = create_mint_and_config(who(1), who(2), 250, 500, 7).unwrap();
    assert!(config.is_active);
    assert_eq!(config.min_tokens_per_referral, DEFAULT_MIN_TOKENS_PER_REFERRAL);
    assert_eq!(config.max_tokens_per_referral, DEFAULT_MAX_TOKENS_PER_REFERRAL);
    assert_eq!(config.max_referrals_per_wallet_per_day, DEFAULT_MAX_REFERRALS_PER_DAY);
    assert_eq!(config.slots_per_day, DEFAULT_SLOTS_PER_DAY);
    assert!(!config.allow_second_gen_transfer);
    assert_eq!(config.token_expiry_days, 0);
    assert_eq!(config.min_hold_before_share_secs, 7);
}

#[test]
fn issuance_counter_overflow_is_fatal_and_clean() {
    let mut config = create_mint_and_config(who(1), who(2), 250, 500, 0).unwrap();
    config.current_supply = u64::MAX - 5;
    assert_eq!(
        issue_first_tokens_and_lock(&mut config, 10),
        Err(ViralSyncError::MathOverflow)
    );
    assert!(!config.first_issuance_done);
    assert_eq!(config.current_supply, u64::MAX - 5);
    assert_eq!(config.tokens_issued, 0);
}

#[test]
fn first_issuance_locks() {
    let mut config = create_mint_and_config(who(1), who(2), 250, 500, 0).unwrap();
    assert_eq!(issue_first_tokens_and_lock(&mut config, 0), Err(ViralSyncError::BelowMinimum));

    issue_first_tokens_and_lock(&mut config, 900).unwrap();
    assert!(config.first_issuance_done);
    assert_eq!(config.current_supply, 900);
    assert_eq!(config.tokens_issued, 900);

    assert_eq!(issue_first_tokens_and_lock(&mut config, 1), Err(ViralSyncError::AccessDenied));
    assert_eq!(config.current_supply, 900);
}

#[test]
fn vault_registry_membership() {
    let entry = VaultEntry { vault: who(60), merchant: who(1), is_active: true, is_dex: false };
    assert!(is_registered_vault(&Some(entry), who(1), who(60)));
    assert!(!is_registered_vault(&Some(entry), who(2), who(60)));
    assert!(!is_registered_vault(&Some(entry), who(1), who(61)));
    let inactive = VaultEntry { is_active: false, ..entry };
    assert!(!is_registered_vault(&Some(inactive), who(1), who(60)));
    assert!(!is_registered_vault(&None, who(1), who(60)));
}

#[test]
fn escrow_share_binds_the_escrow_to_its_source() {
    let source = TokenGeneration::init_token_generation(who(2), who(10));
    let other = TokenGeneration::init_token_generation(who(2), who(12));
    let mut escrow = TokenGeneration::init_token_generation(who(2), who(40));

    assert_eq!(create_escrow_share(&source, &mut escrow, 0), Err(ViralSyncError::BelowMinimum));
    create_escrow_share(&source, &mut escrow, 100).unwrap();
    assert!(escrow.is_intermediary);
    assert_eq!(escrow.original_sender, Some(who(10)));

    create_escrow_share(&source, &mut escrow, 50).unwrap();
    assert_eq!(
        create_escrow_share(&other, &mut escrow, 50),
        Err(ViralSyncError::InvalidAuthority)
    );
}

#[test]
fn escrow_claim_gates() {
    let mut escrow = TokenGeneration::init_token_generation(who(2), who(40));
    assert_eq!(claim_escrow(&escrow, 10), Err(ViralSyncError::InvalidAuthority));
    assert_eq!(claim_escrow(&escrow, 0), Err(ViralSyncError::BelowMinimum));
    escrow.is_intermediary = true;
    claim_escrow(&escrow, 10).unwrap();
}

#[test]
fn session_keys_are_owner_bound_and_revocable() {
    let gen = TokenGeneration::init_token_generation(who(2), who(10));

    assert_eq!(
        create_session_key(&gen, who(5), who(12), who(13), 2000, 500, 1000),
        Err(ViralSyncError::AccessDenied)
    );
    assert_eq!(
        create_session_key(&gen, who(5), who(10), who(13), 900, 500, 1000),
        Err(ViralSyncError::TokensExpired)
    );

    let mut session = create_session_key(&gen, who(5), who(10), who(13), 2000, 500, 1000).unwrap();
    assert!(session.is_active);
    assert_eq!(session.tokens_spent, 0);
    assert!(session.is_valid(1500));
    assert!(!session.is_valid(2000));

    revoke_session_key(&mut session);
    assert!(!session.is_active);
    assert!(!session.is_valid(1500));
}

#[test]
fn referral_close_requires_expiry_and_full_settlement() {
    let mut referral = live_referral();
    referral.expires_at = 100;
    referral.commission_earned = 10;
    referral.commission_settled = 5;

    assert_eq!(close_expired_referral(&referral, 50), Err(ViralSyncError::TokensExpired));
    assert_eq!(close_expired_referral(&referral, 200), Err(ViralSyncError::MathOverflow));

    referral.commission_settled = 10;
    close_expired_referral(&referral, 200).unwrap();

    // A record without an expiry never closes.
    let open_ended = live_referral();
    assert_eq!(close_expired_referral(&open_ended, i64::MAX), Err(ViralSyncError::TokensExpired));
}

#[test]
fn geofence_validates_location_and_attestation() {
    let servers = vec![who(70), who(71), who(0), who(0)];
    let fence = GeoFence {
        vault: who(60),
        merchant: who(1),
        lat_micro: 0,
        lng_micro: 0,
        radius_meters: 1000,
        is_active: true,
        attestation_server_count: 2,
        attestation_servers: servers,
        allow_non_geo_redemption: false,
        non_geo_commission_penalty_bps: 0,
    };
    let sig = vec![0u8; 64];

    // 5000 micro-degrees is about 556 meters: inside the kilometer fence.
    redeem_with_geo(&fence, 5000, 0, &sig, who(71), true).unwrap();
    // 10000 micro-degrees is about 1113 meters: outside.
    assert_eq!(
        redeem_with_geo(&fence, 10_000, 0, &sig, who(71), true),
        Err(ViralSyncError::OutsideGeoFence)
    );
    assert_eq!(
        redeem_with_geo(&fence, 5000, 0, &vec![0u8; 10], who(71), true),
        Err(ViralSyncError::InvalidSignature)
    );
    assert_eq!(
        redeem_with_geo(&fence, 5000, 0, &sig, who(71), false),
        Err(ViralSyncError::InvalidAttestation)
    );
    // Only the first `attestation_server_count` entries are registered.
    assert_eq!(
        redeem_with_geo(&fence, 5000, 0, &sig, who(0), true),
        Err(ViralSyncError::InvalidAttestation)
    );
    assert_eq!(
        redeem_with_geo(&fence, 5000, 0, &vec![], who(71), true),
        Err(ViralSyncError::TokensExpired)
    );
}

#[test]
fn geofence_optional_attestation_and_inactive_fence() {
    let servers = vec![who(70), who(71), who(0), who(0)];
    let mut fence = GeoFence {
        vault: who(60),
        merchant: who(1),
        lat_micro: 0,
        lng_micro: 0,
        radius_meters: 1000,
        is_active: true,
        attestation_server_count: 2,
        attestation_servers: servers,
        allow_non_geo_redemption: true,
        non_geo_commission_penalty_bps: 0,
    };
    redeem_with_geo(&fence, 0, 0, &vec![], who(0), false).unwrap();

    fence.is_active = false;
    assert_eq!(
        redeem_with_geo(&fence, 0, 0, &vec![], who(0), false),
        Err(ViralSyncError::TokensExpired)
    );
}

#[test]
fn reputation_formula_penalizes_disputes_and_suspicion() {
    let mut rep = MerchantReputation {
        merchant: who(1),
        reputation_score: 0,
        timeout_disputes: 2,
        pct_redeemers_aged_over_30_days: 0,
        unique_attestation_servers_used: 0,
        commission_concentration_bps: 0,
        pct_redemptions_in_business_hours: 0,
        avg_poi_score_top_referrers: 0,
        suspicion_score: 0,
        suspicion_computed_at: 0,
    };

    compute_merchant_reputation(&mut rep, 40, 3, 1200, 70, 88, 5000, 999);

    // 10000 - (2 * 500 + 5000 / 10).
    assert_eq!(rep.reputation_score, 8500);
    assert_eq!(rep.suspicion_score, 5000);
    assert_eq!(rep.suspicion_computed_at, 999);
    assert_eq!(rep.pct_redeemers_aged_over_30_days, 40);
    assert_eq!(rep.unique_attestation_servers_used, 3);
    assert_eq!(rep.commission_concentration_bps, 1200);
    assert_eq!(rep.pct_redemptions_in_business_hours, 70);
    assert_eq!(rep.avg_poi_score_top_referrers, 88);

    rep.timeout_disputes = 25;
    compute_merchant_reputation(&mut rep, 40, 3, 1200, 70, 88, 0, 1000);
    assert_eq!(rep.reputation_score, 0);
}

#[test]
fn viral_oracle_stores_the_pipeline_metrics() {
    let mut oracle = ViralOracle {
        merchant: who(1),
        mint: who(2),
        k_factor: 0,
        median_referrals_per_user: 0,
        p90_referrals_per_user: 0,
        p10_referrals_per_user: 0,
        referral_concentration_index: 0,
        share_rate: 0,
        claim_rate: 0,
        first_redeem_rate: 0,
        avg_time_share_to_claim_secs: 0,
        avg_time_claim_to_redeem_secs: 0,
        p50_time_share_to_claim_secs: 0,
        commission_per_new_customer_tokens: 0,
        vs_google_ads_efficiency_bps: 0,
        computed_at: 0,
        data_points: 0,
    };

    compute_viral_oracle(&mut oracle, 12, 3, 9, 1, 4400, 510, 620, 730, 100, 200, 150, 42, 15000, 321, 777);

    assert_eq!(oracle.k_factor, 12);
    assert_eq!(oracle.median_referrals_per_user, 3);
    assert_eq!(oracle.p90_referrals_per_user, 9);
    assert_eq!(oracle.p10_referrals_per_user, 1);
    assert_eq!(oracle.referral_concentration_index, 4400);
    assert_eq!(oracle.share_rate, 510);
    assert_eq!(oracle.claim_rate, 620);
    assert_eq!(oracle.first_redeem_rate, 730);
    assert_eq!(oracle.avg_time_share_to_claim_secs, 100);
    assert_eq!(oracle.avg_time_claim_to_redeem_secs, 200);
    assert_eq!(oracle.p50_time_share_to_claim_secs, 150);
    assert_eq!(oracle.commission_per_new_customer_tokens, 42);
    assert_eq!(oracle.vs_google_ads_efficiency_bps, 15000);
    assert_eq!(oracle.data_points, 321);
    assert_eq!(oracle.computed_at, 777);
}
