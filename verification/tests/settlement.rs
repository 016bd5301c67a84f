use viral_sync::classifier::{execute_transfer_hook, TransferCategory};
use viral_sync::commission::{claim_commission, credit_commission, CommissionLedger};
use viral_sync::config::create_mint_and_config;
use viral_sync::errors::ViralSyncError;
use viral_sync::holder::{ReferrerSlot, TokenGeneration};
use viral_sync::redemption::{clear_redemption_pending, open_redemption, process_redemption_slot};
use viral_sync::referral::ReferralRecord;
use viral_sync::types::AccountId;

fn key(v: u64) -> AccountId {
    AccountId { value: v }
}

fn redeemer_gen() -> TokenGeneration {
    let mut gen = TokenGeneration::init_token_generation(key(2), key(10));
    gen.gen1_balance = 100;
    gen.gen2_balance = 900;
    gen.referrer_slots[0] = ReferrerSlot {
        referrer: key(20),
        referral_record: key(77),
        tokens_attributed: 300,
        tokens_redeemed_so_far: 0,
        is_active: true,
    };
    gen.referrer_slots[1] = ReferrerSlot {
        referrer: key(21),
        referral_record: key(88),
        tokens_attributed: 600,
        tokens_redeemed_so_far: 0,
        is_active: true,
    };
    gen.active_referrer_slots = 2;
    gen
}

fn referral_for(record: u64, referrer: u64) -> ReferralRecord {
    ReferralRecord {
        record_id: key(record),
        merchant: key(1),
        mint: key(2),
        referrer: key(referrer),
        referred: key(10),
        created_at: 0,
        expires_at: 0,
        committed_commission_bps: 250,
        max_commission_cap: 1_000_000,
        commission_earned: 0,
        commission_settled: 0,
        is_active: true,
    }
}

fn empty_ledger(referrer: u64) -> CommissionLedger {
    CommissionLedger::new(key(referrer), key(1), key(2))
}

#[test]
fn open_redemption_apportions_pro_rata() {
    let mut gen = redeemer_gen();

    let consumed = open_redemption(&mut gen, 400, 9).unwrap();

    assert_eq!(consumed, 300);
    assert_eq!(gen.gen1_balance, 0);
    assert_eq!(gen.gen2_balance, 600);
    assert!(gen.redemption_pending);
    assert_eq!(gen.redemption_slot, 9);
    assert_eq!(gen.redemption_gen2_consumed, 300);
    // 300 * 300 / 900 and 300 * 600 / 900 against the pre-deduction total.
    assert_eq!(gen.redemption_slot_consumed[0], 100);
    assert_eq!(gen.redemption_slot_consumed[1], 200);
    assert_eq!(gen.redemption_slot_consumed[2], 0);
    assert_eq!(gen.redemption_slot_consumed[3], 0);
    // The apportioned amounts never exceed the referred value consumed.
    let sum: u64 = gen.redemption_slot_consumed.iter().sum();
    assert!(sum <= consumed);
}

#[test]
fn open_redemption_requires_quiescent_buffer() {
    let mut gen = redeemer_gen();
    gen.buffer_pending = 1;
    assert_eq!(open_redemption(&mut gen, 400, 9), Err(ViralSyncError::MustFinalizeBeforeRedeem));

    let mut gen2 = redeemer_gen();
    gen2.redemption_pending = true;
    assert_eq!(
        open_redemption(&mut gen2, 400, 9),
        Err(ViralSyncError::PreviousRedemptionUnprocessed)
    );

    let mut gen3 = redeemer_gen();
    assert_eq!(open_redemption(&mut gen3, 5000, 9), Err(ViralSyncError::InsufficientBalance));
    assert_eq!(gen3.gen1_balance, 100);
}

#[test]
fn redemption_via_transfer_hook_opens_session() {
    let config = create_mint_and_config(key(1), key(2), 250, 500, 0).unwrap();
    let mut gen = redeemer_gen();
    let mut vault = TokenGeneration::init_token_generation(key(2), key(60));

    let outcome = execute_transfer_hook(&mut gen, &mut vault, &config, 400, true, 1000, 9).unwrap();

    assert_eq!(outcome.category, TransferCategory::Redemption);
    assert!(gen.redemption_pending);
    assert_eq!(outcome.redemption.unwrap().gen2_consumed, 300);
    // The vault's own ledger is untouched by a redemption.
    assert_eq!(vault.gen1_balance, 0);
    assert_eq!(vault.buffer_pending, 0);
}

#[test]
fn slot_settlement_credits_commission_once() {
    let mut gen = redeemer_gen();
    open_redemption(&mut gen, 400, 9).unwrap();
    let mut referral = referral_for(77, 20);
    let mut ledger = empty_ledger(20);

    process_redemption_slot(&mut gen, &mut referral, &mut ledger, 0).unwrap();

    // 100 * 250 bps = 2 whole units and 5000 dust units.
    assert_eq!(ledger.claimable, 2);
    assert_eq!(ledger.dust_tenths_accumulated, 5000);
    assert_eq!(ledger.total_earned, 2);
    assert_eq!(ledger.total_redemptions_driven, 1);
    assert_eq!(ledger.highest_single_commission, 2);
    assert_eq!(referral.commission_earned, 2);
    assert_eq!(referral.commission_settled, 2);

    // Settling the same slot again is rejected and changes nothing.
    let r = process_redemption_slot(&mut gen, &mut referral, &mut ledger, 0);
    assert_eq!(r, Err(ViralSyncError::SlotAlreadySettled));
    assert_eq!(ledger.claimable, 2);
    assert_eq!(ledger.dust_tenths_accumulated, 5000);
    assert_eq!(referral.commission_earned, 2);
}

#[test]
fn settlement_rejects_mislinked_slot() {
    let mut gen = redeemer_gen();
    open_redemption(&mut gen, 400, 9).unwrap();
    let mut wrong_record = referral_for(99, 20);
    let mut ledger = empty_ledger(20);
    assert_eq!(
        process_redemption_slot(&mut gen, &mut wrong_record, &mut ledger, 0),
        Err(ViralSyncError::InvalidReferrerSlot)
    );

    let mut wrong_referrer = referral_for(77, 21);
    assert_eq!(
        process_redemption_slot(&mut gen, &mut wrong_referrer, &mut ledger, 0),
        Err(ViralSyncError::InvalidReferrerSlot)
    );

    let mut referral = referral_for(77, 20);
    assert_eq!(
        process_redemption_slot(&mut gen, &mut referral, &mut ledger, 5),
        Err(ViralSyncError::InvalidReferrerSlot)
    );

    let mut idle = redeemer_gen();
    assert_eq!(
        process_redemption_slot(&mut idle, &mut referral, &mut ledger, 0),
        Err(ViralSyncError::NoRedemptionPending)
    );
}

#[test]
fn inactive_referral_settles_without_credit() {
    let mut gen = redeemer_gen();
    open_redemption(&mut gen, 400, 9).unwrap();
    let mut referral = referral_for(77, 20);
    referral.is_active = false;
    let mut ledger = empty_ledger(20);

    process_redemption_slot(&mut gen, &mut referral, &mut ledger, 0).unwrap();

    assert_eq!(ledger.claimable, 0);
    assert_eq!(referral.commission_earned, 0);
}

#[test]
fn session_clears_only_when_every_slot_is_settled() {
    let mut gen = redeemer_gen();
    open_redemption(&mut gen, 400, 9).unwrap();
    let mut referral0 = referral_for(77, 20);
    let mut ledger0 = empty_ledger(20);
    let mut referral1 = referral_for(88, 21);
    let mut ledger1 = empty_ledger(21);

    assert_eq!(clear_redemption_pending(&mut gen), Err(ViralSyncError::UnsettledSlotsRemain));
    process_redemption_slot(&mut gen, &mut referral0, &mut ledger0, 0).unwrap();
    assert_eq!(clear_redemption_pending(&mut gen), Err(ViralSyncError::UnsettledSlotsRemain));
    process_redemption_slot(&mut gen, &mut referral1, &mut ledger1, 1).unwrap();

    clear_redemption_pending(&mut gen).unwrap();
    assert!(!gen.redemption_pending);
    assert_eq!(gen.redemption_gen2_consumed, 0);
    assert_eq!(gen.redemption_slot, 0);
    assert_eq!(gen.redemption_slot_consumed, vec![0, 0, 0, 0]);

    // A cleared holder may open the next session.
    assert_eq!(clear_redemption_pending(&mut gen), Err(ViralSyncError::NoRedemptionPending));
    open_redemption(&mut gen, 100, 12).unwrap();
}

#[test]
fn dust_accumulates_and_promotes_exactly() {
    let mut referral = referral_for(77, 20);
    let mut ledger = empty_ledger(20);

    // 500 * 250 bps is 125000 dust units: 12 whole units and 5000 dust.
    credit_commission(&mut ledger, &mut referral, 500).unwrap();
    assert_eq!(ledger.claimable, 12);
    assert_eq!(ledger.dust_tenths_accumulated, 5000);

    credit_commission(&mut ledger, &mut referral, 500).unwrap();
    // The second 5000 dust units fill a whole unit: promoted, dust resets.
    assert_eq!(ledger.claimable, 25);
    assert_eq!(ledger.dust_tenths_accumulated, 0);
    assert_eq!(ledger.total_earned, 25);
    assert!(ledger.dust_tenths_accumulated < 10_000);
}

#[test]
fn commission_never_exceeds_the_cap() {
    let mut referral = referral_for(77, 20);
    referral.committed_commission_bps = 10_000;
    referral.max_commission_cap = 10;
    let mut ledger = empty_ledger(20);

    credit_commission(&mut ledger, &mut referral, 25).unwrap();
    assert_eq!(referral.commission_earned, 10);
    assert_eq!(ledger.claimable, 10);

    // No headroom is left: further settlements credit nothing.
    credit_commission(&mut ledger, &mut referral, 25).unwrap();
    assert_eq!(referral.commission_earned, 10);
    assert_eq!(ledger.claimable, 10);
    assert!(referral.commission_earned <= referral.max_commission_cap);
}

#[test]
fn claim_grosses_up_for_the_transfer_fee() {
    let config = create_mint_and_config(key(1), key(2), 250, 500, 0).unwrap();
    let mut ledger = empty_ledger(20);
    ledger.claimable = 13;
    ledger.dust_tenths_accumulated = 123;

    let gross = claim_commission(&mut ledger, &config).unwrap();

    // ceil(13 * 10000 / 9500) = 14.
    assert_eq!(gross, 14);
    assert_eq!(ledger.claimable, 0);
    assert_eq!(ledger.total_claimed, 13);
    assert_eq!(ledger.dust_tenths_accumulated, 123);
}

#[test]
fn claim_rejections_leave_the_ledger_alone() {
    let config = create_mint_and_config(key(1), key(2), 250, 500, 0).unwrap();

    let mut frozen = empty_ledger(20);
    frozen.claimable = 5;
    frozen.frozen = true;
    assert_eq!(
        claim_commission(&mut frozen, &config),
        Err(ViralSyncError::CommissionFrozenDictated)
    );
    assert_eq!(frozen.claimable, 5);

    let mut empty = empty_ledger(20);
    assert_eq!(claim_commission(&mut empty, &config), Err(ViralSyncError::NothingToClaim));

    let mut bad_fee_config = config;
    bad_fee_config.transfer_fee_bps = 10_000;
    let mut ledger = empty_ledger(20);
    ledger.claimable = 5;
    assert_eq!(
        claim_commission(&mut ledger, &bad_fee_config),
        Err(ViralSyncError::InvalidFeeConfig)
    );
    assert_eq!(ledger.claimable, 5);
}
