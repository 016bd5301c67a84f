//! The transfer classifier: maps one transfer event plus static merchant
//! configuration to one of six categories, and applies the balance
//! mutation each category implies — atomically across source and
//! destination, with the inbound buffer's degradation policy.

use vstd::prelude::*;
use crate::types::{AccountId, GenSource};
use crate::errors::ViralSyncError;
use crate::config::MerchantConfig;
use crate::events::{
    DexTransferDetected,
    InboundBufferOverflow,
    RedemptionDetected,
    TransferExecuted,
};
use crate::holder::{
    fifo_deducted,
    take_gen1,
    take_gen2,
    InboundEntry,
    TokenGeneration,
    INBOUND_BUFFER_SIZE,
};
use crate::redemption::{apportionment_overflows, open_redemption, redemption_opened};

verus! {

/// The six transfer categories, in the priority order the classifier
/// evaluates them: earlier rules pre-empt later ones.
#[derive(Clone, Copy, PartialEq, Eq, Structural, Debug)]
pub enum TransferCategory {
    /// The source is the designated treasury: a commission payout.
    TreasuryPayout,
    /// Either side is a registered exchange pool: value leaves tracking.
    DexTransfer,
    /// The destination is a registered settlement vault: a redemption.
    Redemption,
    /// The source is the merchant: fresh issuance.
    Issuance,
    /// The source is a flagged intermediary releasing escrowed value.
    IntermediaryRelease,
    /// An ordinary tracked share between two holders.
    PeerTransfer,
}

/// Which category a transfer event falls under, decided purely from the
/// two ledgers, the configuration and the vault-registry fact.
pub open spec fn category_spec(
    src: TokenGeneration,
    dst: TokenGeneration,
    config: MerchantConfig,
    is_to_vault: bool,
) -> TransferCategory {
    if src.is_treasury {
        TransferCategory::TreasuryPayout
    } else if src.is_dex_pool || dst.is_dex_pool {
        TransferCategory::DexTransfer
    } else if is_to_vault && src.owner != config.merchant {
        TransferCategory::Redemption
    } else if src.owner == config.merchant {
        TransferCategory::Issuance
    } else if src.is_intermediary {
        TransferCategory::IntermediaryRelease
    } else {
        TransferCategory::PeerTransfer
    }
}

/// Decides the transfer category without mutating anything.
pub fn classify_transfer(
    src: &TokenGeneration,
    dst: &TokenGeneration,
    config: &MerchantConfig,
    is_to_vault: bool,
) -> (c: TransferCategory)
    ensures
        c == category_spec(*src, *dst, *config, is_to_vault),
{
    if src.is_treasury {
        TransferCategory::TreasuryPayout
    } else if src.is_dex_pool || dst.is_dex_pool {
        TransferCategory::DexTransfer
    } else if is_to_vault && src.owner.value != config.merchant.value {
        TransferCategory::Redemption
    } else if src.owner.value == config.merchant.value {
        TransferCategory::Issuance
    } else if src.is_intermediary {
        TransferCategory::IntermediaryRelease
    } else {
        TransferCategory::PeerTransfer
    }
}

/// What one classified transfer reports back to the host: the category
/// and the structured facts to emit.
#[derive(Clone, Copy, PartialEq, Eq, Structural, Debug)]
pub struct TransferOutcome {
    pub category: TransferCategory,
    pub transfer: Option<TransferExecuted>,
    pub dex: Option<DexTransferDetected>,
    pub redemption: Option<RedemptionDetected>,
    pub overflow: Option<InboundBufferOverflow>,
}

/// The bucket an inbound delivery of `kind` credits grew by `amount` and
/// the other two are untouched.
pub open spec fn bucket_added(
    kind: GenSource,
    pre: TokenGeneration,
    post: TokenGeneration,
    amount: u64,
) -> bool {
    match kind {
        GenSource::Issuance => {
            &&& post.gen1_balance == pre.gen1_balance + amount
            &&& post.gen2_balance == pre.gen2_balance
            &&& post.dead_balance == pre.dead_balance
        },
        GenSource::ViralShare => {
            &&& post.gen1_balance == pre.gen1_balance
            &&& post.gen2_balance == pre.gen2_balance + amount
            &&& post.dead_balance == pre.dead_balance
        },
        GenSource::DeadPass => {
            &&& post.gen1_balance == pre.gen1_balance
            &&& post.gen2_balance == pre.gen2_balance
            &&& post.dead_balance == pre.dead_balance + amount
        },
    }
}

/// The balance a delivery would have to grow: the target bucket when the
/// buffer has room, the inert bucket when the write degrades.
pub open spec fn deliver_target_balance(pre: TokenGeneration, kind: GenSource) -> int {
    if pre.buffer_pending >= INBOUND_BUFFER_SIZE {
        pre.dead_balance as int
    } else {
        match kind {
            GenSource::Issuance => pre.gen1_balance as int,
            GenSource::ViralShare => pre.gen2_balance as int,
            GenSource::DeadPass => pre.dead_balance as int,
        }
    }
}

/// Whether an inbound delivery of `amount` with `kind` would overflow the
/// credited bucket — the one condition on which a delivery fails.
pub open spec fn deliver_overflow(pre: TokenGeneration, amount: u64, kind: GenSource) -> bool {
    deliver_target_balance(pre, kind) + amount > u64::MAX
}

/// The exact effect of a successful inbound delivery on the destination:
/// with buffer room, the staged entry is written at the head and the
/// kind's bucket is credited; with a full buffer, the buffer is untouched
/// and the full amount degrades to the inert bucket. Timestamps are
/// refreshed only when `touch` holds.
pub open spec fn delivered(
    pre: TokenGeneration,
    post: TokenGeneration,
    referrer: Option<AccountId>,
    amount: u64,
    kind: GenSource,
    slot: u64,
    touch: bool,
    now: i64,
) -> bool {
    &&& if pre.buffer_pending < INBOUND_BUFFER_SIZE {
        &&& post.inbound_buffer@ == pre.inbound_buffer@.update(
            pre.buffer_head as int,
            InboundEntry { referrer, amount, generation_source: kind, slot, processed: false },
        )
        &&& post.buffer_head == (pre.buffer_head + 1) % (INBOUND_BUFFER_SIZE as int)
        &&& post.buffer_pending == pre.buffer_pending + 1
        &&& bucket_added(kind, pre, post, amount)
    } else {
        &&& post.eq_buffer(pre)
        &&& post.gen1_balance == pre.gen1_balance
        &&& post.gen2_balance == pre.gen2_balance
        &&& post.dead_balance == pre.dead_balance + amount
    }
    &&& if touch {
        &&& post.first_received_at == (if pre.first_received_at == 0 {
            now
        } else {
            pre.first_received_at
        })
        &&& post.last_received_at == now
    } else {
        post.eq_timestamps(pre)
    }
    &&& post.eq_identity(pre)
    &&& post.eq_slots(pre)
    &&& post.eq_session(pre)
    &&& post.eq_share_counters(pre)
}

/// Delivers one inbound amount to `dst`: stages the attribution fact in
/// the inbound buffer and credits the kind's bucket, or — when the buffer
/// is full — degrades the whole amount to the inert bucket, reporting
/// `true` for the degradation. Only bucket overflow fails, mutating
/// nothing.
pub fn deliver_inbound(
    dst: &mut TokenGeneration,
    referrer: Option<AccountId>,
    amount: u64,
    kind: GenSource,
    slot: u64,
    touch: bool,
    now: i64,
) -> (r: Result<bool, ViralSyncError>)
    requires
        old(dst).wf(),
        kind is ViralShare ==> referrer is Some,
    ensures
        final(dst).wf(),
        deliver_overflow(*old(dst), amount, kind) ==> r == Result::<bool, ViralSyncError>::Err(
            ViralSyncError::MathOverflow,
        ) && *final(dst) == *old(dst),
        !deliver_overflow(*old(dst), amount, kind) ==> {
            &&& r == Result::<bool, ViralSyncError>::Ok(
                old(dst).buffer_pending >= INBOUND_BUFFER_SIZE,
            )
            &&& delivered(*old(dst), *final(dst), referrer, amount, kind, slot, touch, now)
        },
{
    if dst.buffer_pending >= INBOUND_BUFFER_SIZE as u8 {
        if dst.dead_balance > u64::MAX - amount {
            return Result::Err(ViralSyncError::MathOverflow);
        }
        dst.dead_balance = dst.dead_balance + amount;
        if touch {
            if dst.first_received_at == 0 {
                dst.first_received_at = now;
            }
            dst.last_received_at = now;
        }
        Result::Ok(true)
    } else {
        match kind {
            GenSource::Issuance => {
                if dst.gen1_balance > u64::MAX - amount {
                    return Result::Err(ViralSyncError::MathOverflow);
                }
            },
            GenSource::ViralShare => {
                if dst.gen2_balance > u64::MAX - amount {
                    return Result::Err(ViralSyncError::MathOverflow);
                }
            },
            GenSource::DeadPass => {
                if dst.dead_balance > u64::MAX - amount {
                    return Result::Err(ViralSyncError::MathOverflow);
                }
            },
        }
        let entry = InboundEntry { referrer, amount, generation_source: kind, slot, processed: false };
        match dst.write_inbound(entry) {
            Result::Ok(_) => {},
            Result::Err(e) => {
                proof {
                    assert(false);
                }
                return Result::Err(e);
            },
        }
        match kind {
            GenSource::Issuance => {
                dst.gen1_balance = dst.gen1_balance + amount;
            },
            GenSource::ViralShare => {
                dst.gen2_balance = dst.gen2_balance + amount;
            },
            GenSource::DeadPass => {
                dst.dead_balance = dst.dead_balance + amount;
            },
        }
        if touch {
            if dst.first_received_at == 0 {
                dst.first_received_at = now;
            }
            dst.last_received_at = now;
        }
        Result::Ok(false)
    }
}

/// A delivery never loses value: whether it lands in the kind's bucket or
/// degrades to the inert bucket on buffer overflow, the destination's
/// whole balance grows by exactly the amount — only the referral
/// attribution changes.
pub proof fn lemma_delivery_preserves_total(
    pre: TokenGeneration,
    post: TokenGeneration,
    referrer: Option<AccountId>,
    amount: u64,
    kind: GenSource,
    slot: u64,
    touch: bool,
    now: i64,
)
    requires
        delivered(pre, post, referrer, amount, kind, slot, touch, now),
    ensures
        post.total() == pre.total() + amount,
        pre.buffer_pending >= INBOUND_BUFFER_SIZE ==> post.dead_balance == pre.dead_balance
            + amount && post.gen1_balance == pre.gen1_balance && post.gen2_balance
            == pre.gen2_balance,
{
}

/// Whether the source's tokens have aged past the merchant's expiry
/// policy at time `now`. The policy only binds ordinary holders that
/// have received before: the merchant itself, intermediaries, holders
/// with no recorded first receipt, and merchants with no expiry policy
/// are exempt.
pub open spec fn tokens_expired(src: TokenGeneration, config: MerchantConfig, now: i64) -> bool {
    &&& src.owner != config.merchant
    &&& !src.is_intermediary
    &&& config.token_expiry_days > 0
    &&& src.first_received_at > 0
    &&& now > src.first_received_at
    &&& (now - src.first_received_at) / 86_400 > config.token_expiry_days
}

/// Decides the expiry policy for a source ledger at time `now`.
pub fn is_token_expired(src: &TokenGeneration, config: &MerchantConfig, now: i64) -> (r: bool)
    ensures
        r == tokens_expired(*src, *config, now),
{
    if src.owner.value == config.merchant.value {
        return false;
    }
    if src.is_intermediary {
        return false;
    }
    if config.token_expiry_days == 0 {
        return false;
    }
    if src.first_received_at <= 0 {
        return false;
    }
    if now <= src.first_received_at {
        return false;
    }
    let age_secs: u128 = (now as i128 - src.first_received_at as i128) as u128;
    let age_days: u128 = age_secs / 86_400;
    age_days > config.token_expiry_days as u128
}

/// The coarse day bucket of `slot` under the configured slots-per-day
/// rate (a zero rate counts as one slot per day).
pub open spec fn today_index(config: MerchantConfig, slot: u64) -> int {
    let spd: int = if config.slots_per_day >= 1 {
        config.slots_per_day as int
    } else {
        1
    };
    (slot as int) / spd
}

/// The generation tag of the outgoing entry of a peer transfer: referred
/// while any primary balance is consumed, a pass-through otherwise.
pub open spec fn peer_entry_kind(src: TokenGeneration, amount: u64) -> GenSource {
    if take_gen1(src, amount) > 0 {
        GenSource::ViralShare
    } else {
        GenSource::DeadPass
    }
}

/// The referrer credited by a peer transfer: the source holder when the
/// entry is referred, nobody otherwise.
pub open spec fn peer_referrer(src: TokenGeneration, amount: u64) -> Option<AccountId> {
    if take_gen1(src, amount) > 0 {
        Option::Some(src.owner)
    } else {
        Option::None
    }
}

/// Why a peer transfer is rejected, or nothing when it may proceed. The
/// conditions are evaluated in the fixed priority order of the policy.
pub open spec fn peer_rejection(
    src: TokenGeneration,
    dst: TokenGeneration,
    config: MerchantConfig,
    amount: u64,
    now: i64,
    slot: u64,
) -> Option<ViralSyncError> {
    if tokens_expired(src, config, now) {
        Option::Some(ViralSyncError::TokensExpired)
    } else if now - src.first_received_at < config.min_hold_before_share_secs {
        Option::Some(ViralSyncError::HoldPeriodNotMet)
    } else if amount < config.min_tokens_per_referral {
        Option::Some(ViralSyncError::BelowMinimum)
    } else if amount > config.max_tokens_per_referral {
        Option::Some(ViralSyncError::ExceedsMaximum)
    } else if src.share_limit_day == today_index(config, slot) && src.shares_today
        >= config.max_referrals_per_wallet_per_day {
        Option::Some(ViralSyncError::DailyShareLimitExceeded)
    } else if src.gen1_balance == 0 && !config.allow_second_gen_transfer {
        Option::Some(ViralSyncError::MaxDepthReached)
    } else if src.total() < amount {
        Option::Some(ViralSyncError::InsufficientBalance)
    } else if take_gen1(src, amount) == 0 && take_gen2(src, amount) > 0
        && !config.allow_second_gen_transfer {
        Option::Some(ViralSyncError::MaxDepthReached)
    } else if !dst.is_intermediary && deliver_overflow(dst, amount, peer_entry_kind(src, amount)) {
        Option::Some(ViralSyncError::MathOverflow)
    } else {
        Option::None
    }
}

/// The source side of a successful peer transfer: the amount FIFO-
/// deducted and the daily share counter advanced — incremented within
/// the same day bucket, reset to one on a fresh one.
pub open spec fn peer_src_applied(
    pre: TokenGeneration,
    post: TokenGeneration,
    amount: u64,
    today: int,
) -> bool {
    &&& post.gen1_balance == pre.gen1_balance - take_gen1(pre, amount)
    &&& post.gen2_balance == pre.gen2_balance - take_gen2(pre, amount)
    &&& post.dead_balance == pre.dead_balance - crate::holder::take_dead(pre, amount)
    &&& post.share_limit_day == today
    &&& post.shares_today == (if pre.share_limit_day == today {
        pre.shares_today + 1
    } else {
        1int
    })
    &&& post.eq_identity(pre)
    &&& post.eq_buffer(pre)
    &&& post.eq_slots(pre)
    &&& post.eq_session(pre)
    &&& post.eq_timestamps(pre)
}

/// The structured facts reported for each category's successful outcome.
pub open spec fn treasury_outcome(dst: TokenGeneration, amount: u64) -> TransferOutcome {
    TransferOutcome {
        category: TransferCategory::TreasuryPayout,
        transfer: Option::None,
        dex: Option::None,
        redemption: Option::None,
        overflow: if dst.buffer_pending >= INBOUND_BUFFER_SIZE {
            Option::Some(
                InboundBufferOverflow { recipient: dst.owner, amount, sender: Option::None },
            )
        } else {
            Option::None
        },
    }
}

pub open spec fn dex_outcome(src: TokenGeneration, dst: TokenGeneration, amount: u64) -> TransferOutcome {
    TransferOutcome {
        category: TransferCategory::DexTransfer,
        transfer: Option::None,
        dex: if !dst.is_dex_pool && !dst.is_intermediary {
            Option::Some(DexTransferDetected { from: src.owner, to: dst.owner, amount })
        } else {
            Option::None
        },
        redemption: Option::None,
        overflow: Option::None,
    }
}

pub open spec fn redemption_outcome(src: TokenGeneration, amount: u64, slot: u64) -> TransferOutcome {
    TransferOutcome {
        category: TransferCategory::Redemption,
        transfer: Option::None,
        dex: Option::None,
        redemption: Option::Some(
            RedemptionDetected {
                redeemer: src.owner,
                amount,
                gen2_consumed: take_gen2(src, amount) as u64,
                slot,
            },
        ),
        overflow: Option::None,
    }
}

pub open spec fn issuance_outcome(dst: TokenGeneration, amount: u64) -> TransferOutcome {
    TransferOutcome {
        category: TransferCategory::Issuance,
        transfer: Option::None,
        dex: Option::None,
        redemption: Option::None,
        overflow: if dst.buffer_pending >= INBOUND_BUFFER_SIZE {
            Option::Some(
                InboundBufferOverflow { recipient: dst.owner, amount, sender: Option::None },
            )
        } else {
            Option::None
        },
    }
}

pub open spec fn intermediary_outcome(
    src: TokenGeneration,
    dst: TokenGeneration,
    amount: u64,
) -> TransferOutcome {
    TransferOutcome {
        category: TransferCategory::IntermediaryRelease,
        transfer: Option::None,
        dex: Option::None,
        redemption: Option::None,
        overflow: if !dst.is_intermediary && dst.buffer_pending >= INBOUND_BUFFER_SIZE {
            Option::Some(
                InboundBufferOverflow {
                    recipient: dst.owner,
                    amount,
                    sender: src.original_sender,
                },
            )
        } else {
            Option::None
        },
    }
}

pub open spec fn peer_outcome(
    src: TokenGeneration,
    dst: TokenGeneration,
    amount: u64,
    slot: u64,
) -> TransferOutcome {
    TransferOutcome {
        category: TransferCategory::PeerTransfer,
        transfer: Option::Some(
            TransferExecuted {
                from: src.owner,
                to: dst.owner,
                effective_referrer: peer_referrer(src, amount),
                amount,
                entry_type: peer_entry_kind(src, amount),
                slot,
            },
        ),
        dex: Option::None,
        redemption: Option::None,
        overflow: if !dst.is_intermediary && dst.buffer_pending >= INBOUND_BUFFER_SIZE {
            Option::Some(
                InboundBufferOverflow {
                    recipient: dst.owner,
                    amount,
                    sender: peer_referrer(src, amount),
                },
            )
        } else {
            Option::None
        },
    }
}

/// Classifies one transfer event and applies the mutation its category
/// implies to both ledgers, atomically: on any error neither ledger
/// changes. `is_to_vault` is the registry's word that the destination is
/// a settlement vault of this merchant; `now` and `slot` are the host
/// clock readings for the event.
pub fn execute_transfer_hook(
    src: &mut TokenGeneration,
    dst: &mut TokenGeneration,
    config: &MerchantConfig,
    amount: u64,
    is_to_vault: bool,
    now: i64,
    slot: u64,
) -> (r: Result<TransferOutcome, ViralSyncError>)
    requires
        old(src).wf(),
        old(dst).wf(),
        config.wf(),
    ensures
        final(src).wf(),
        final(dst).wf(),
        r is Err ==> *final(src) == *old(src) && *final(dst) == *old(dst),
        match category_spec(*old(src), *old(dst), *config, is_to_vault) {
            TransferCategory::TreasuryPayout => {
                &&& *final(src) == *old(src)
                &&& if deliver_overflow(*old(dst), amount, GenSource::Issuance) {
                    r == Result::<TransferOutcome, ViralSyncError>::Err(
                        ViralSyncError::MathOverflow,
                    )
                } else {
                    &&& r == Result::<TransferOutcome, ViralSyncError>::Ok(
                        treasury_outcome(*old(dst), amount),
                    )
                    &&& delivered(
                        *old(dst),
                        *final(dst),
                        Option::None,
                        amount,
                        GenSource::Issuance,
                        slot,
                        false,
                        now,
                    )
                }
            },
            TransferCategory::DexTransfer => {
                let drain = !old(src).is_intermediary && old(src).owner != config.merchant;
                let credit = !old(dst).is_dex_pool && !old(dst).is_intermediary;
                if drain && old(src).total() < amount {
                    r == Result::<TransferOutcome, ViralSyncError>::Err(
                        ViralSyncError::InsufficientBalance,
                    )
                } else if credit && old(dst).dead_balance + amount > u64::MAX {
                    r == Result::<TransferOutcome, ViralSyncError>::Err(
                        ViralSyncError::MathOverflow,
                    )
                } else {
                    &&& r == Result::<TransferOutcome, ViralSyncError>::Ok(
                        dex_outcome(*old(src), *old(dst), amount),
                    )
                    &&& if drain {
                        fifo_deducted(*old(src), *final(src), amount)
                    } else {
                        *final(src) == *old(src)
                    }
                    &&& if credit {
                        &&& final(dst).dead_balance == old(dst).dead_balance + amount
                        &&& final(dst).gen1_balance == old(dst).gen1_balance
                        &&& final(dst).gen2_balance == old(dst).gen2_balance
                        &&& old(dst).same_except_balances(*final(dst))
                    } else {
                        *final(dst) == *old(dst)
                    }
                }
            },
            TransferCategory::Redemption => {
                &&& *final(dst) == *old(dst)
                &&& if tokens_expired(*old(src), *config, now) {
                    r == Result::<TransferOutcome, ViralSyncError>::Err(
                        ViralSyncError::TokensExpired,
                    )
                } else if old(src).buffer_pending != 0 {
                    r == Result::<TransferOutcome, ViralSyncError>::Err(
                        ViralSyncError::MustFinalizeBeforeRedeem,
                    )
                } else if old(src).redemption_pending {
                    r == Result::<TransferOutcome, ViralSyncError>::Err(
                        ViralSyncError::PreviousRedemptionUnprocessed,
                    )
                } else if old(src).total() < amount {
                    r == Result::<TransferOutcome, ViralSyncError>::Err(
                        ViralSyncError::InsufficientBalance,
                    )
                } else if apportionment_overflows(*old(src), amount) {
                    r == Result::<TransferOutcome, ViralSyncError>::Err(
                        ViralSyncError::MathOverflow,
                    )
                } else {
                    &&& r == Result::<TransferOutcome, ViralSyncError>::Ok(
                        redemption_outcome(*old(src), amount, slot),
                    )
                    &&& redemption_opened(*old(src), *final(src), amount, slot)
                }
            },
            TransferCategory::Issuance => {
                &&& *final(src) == *old(src)
                &&& if deliver_overflow(*old(dst), amount, GenSource::Issuance) {
                    r == Result::<TransferOutcome, ViralSyncError>::Err(
                        ViralSyncError::MathOverflow,
                    )
                } else {
                    &&& r == Result::<TransferOutcome, ViralSyncError>::Ok(
                        issuance_outcome(*old(dst), amount),
                    )
                    &&& delivered(
                        *old(dst),
                        *final(dst),
                        Option::None,
                        amount,
                        GenSource::Issuance,
                        slot,
                        true,
                        now,
                    )
                }
            },
            TransferCategory::IntermediaryRelease => {
                &&& *final(src) == *old(src)
                &&& if old(dst).is_intermediary {
                    &&& r == Result::<TransferOutcome, ViralSyncError>::Ok(
                        intermediary_outcome(*old(src), *old(dst), amount),
                    )
                    &&& *final(dst) == *old(dst)
                } else {
                    let kind = if old(src).original_sender is Some {
                        GenSource::ViralShare
                    } else {
                        GenSource::DeadPass
                    };
                    if deliver_overflow(*old(dst), amount, kind) {
                        r == Result::<TransferOutcome, ViralSyncError>::Err(
                            ViralSyncError::MathOverflow,
                        )
                    } else {
                        &&& r == Result::<TransferOutcome, ViralSyncError>::Ok(
                            intermediary_outcome(*old(src), *old(dst), amount),
                        )
                        &&& delivered(
                            *old(dst),
                            *final(dst),
                            old(src).original_sender,
                            amount,
                            kind,
                            slot,
                            true,
                            now,
                        )
                    }
                }
            },
            TransferCategory::PeerTransfer => {
                match peer_rejection(*old(src), *old(dst), *config, amount, now, slot) {
                    Option::Some(e) => r == Result::<TransferOutcome, ViralSyncError>::Err(e),
                    Option::None => {
                        &&& r == Result::<TransferOutcome, ViralSyncError>::Ok(
                            peer_outcome(*old(src), *old(dst), amount, slot),
                        )
                        &&& peer_src_applied(
                            *old(src),
                            *final(src),
                            amount,
                            today_index(*config, slot),
                        )
                        &&& if old(dst).is_intermediary {
                            *final(dst) == *old(dst)
                        } else {
                            delivered(
                                *old(dst),
                                *final(dst),
                                peer_referrer(*old(src), amount),
                                amount,
                                peer_entry_kind(*old(src), amount),
                                slot,
                                true,
                                now,
                            )
                        }
                    },
                }
            },
        },
{
    let src_owner = src.owner;
    let dst_owner = dst.owner;
    let is_from_merchant = src.owner.value == config.merchant.value;

    // Treasury payout.
    if src.is_treasury {
        match deliver_inbound(dst, Option::None, amount, GenSource::Issuance, slot, false, now) {
            Result::Ok(degraded) => {
                return Result::Ok(
                    TransferOutcome {
                        category: TransferCategory::TreasuryPayout,
                        transfer: Option::None,
                        dex: Option::None,
                        redemption: Option::None,
                        overflow: if degraded {
                            Option::Some(
                                InboundBufferOverflow {
                                    recipient: dst_owner,
                                    amount,
                                    sender: Option::None,
                                },
                            )
                        } else {
                            Option::None
                        },
                    },
                );
            },
            Result::Err(e) => {
                return Result::Err(e);
            },
        }
    }

    // Exchange-pool transfer.
    if src.is_dex_pool || dst.is_dex_pool {
        let drain = !src.is_intermediary && !is_from_merchant;
        let credit = !dst.is_dex_pool && !dst.is_intermediary;
        if drain {
            let total = src.total_balance();
            if total < amount as u128 {
                return Result::Err(ViralSyncError::InsufficientBalance);
            }
        }
        if credit {
            if dst.dead_balance > u64::MAX - amount {
                return Result::Err(ViralSyncError::MathOverflow);
            }
        }
        if drain {
            match src.fifo_deduct(amount) {
                Result::Ok(_) => {},
                Result::Err(e) => {
                    proof {
                        assert(false);
                    }
                    return Result::Err(e);
                },
            }
        }
        if credit {
            dst.dead_balance = dst.dead_balance + amount;
        }
        return Result::Ok(
            TransferOutcome {
                category: TransferCategory::DexTransfer,
                transfer: Option::None,
                dex: if credit {
                    Option::Some(
                        DexTransferDetected { from: src_owner, to: dst_owner, amount },
                    )
                } else {
                    Option::None
                },
                redemption: Option::None,
                overflow: Option::None,
            },
        );
    }

    // Redemption-directed transfer.
    if is_to_vault && !is_from_merchant {
        if is_token_expired(src, config, now) {
            return Result::Err(ViralSyncError::TokensExpired);
        }
        match open_redemption(src, amount, slot) {
            Result::Ok(consumed) => {
                return Result::Ok(
                    TransferOutcome {
                        category: TransferCategory::Redemption,
                        transfer: Option::None,
                        dex: Option::None,
                        redemption: Option::Some(
                            RedemptionDetected {
                                redeemer: src_owner,
                                amount,
                                gen2_consumed: consumed,
                                slot,
                            },
                        ),
                        overflow: Option::None,
                    },
                );
            },
            Result::Err(e) => {
                return Result::Err(e);
            },
        }
    }

    // Issuance.
    if is_from_merchant {
        match deliver_inbound(dst, Option::None, amount, GenSource::Issuance, slot, true, now) {
            Result::Ok(degraded) => {
                return Result::Ok(
                    TransferOutcome {
                        category: TransferCategory::Issuance,
                        transfer: Option::None,
                        dex: Option::None,
                        redemption: Option::None,
                        overflow: if degraded {
                            Option::Some(
                                InboundBufferOverflow {
                                    recipient: dst_owner,
                                    amount,
                                    sender: Option::None,
                                },
                            )
                        } else {
                            Option::None
                        },
                    },
                );
            },
            Result::Err(e) => {
                return Result::Err(e);
            },
        }
    }

    // Intermediary escrow release.
    if src.is_intermediary {
        if dst.is_intermediary {
            return Result::Ok(
                TransferOutcome {
                    category: TransferCategory::IntermediaryRelease,
                    transfer: Option::None,
                    dex: Option::None,
                    redemption: Option::None,
                    overflow: Option::None,
                },
            );
        }
        let effective_referrer = src.original_sender;
        let kind = if effective_referrer.is_some() {
            GenSource::ViralShare
        } else {
            GenSource::DeadPass
        };
        match deliver_inbound(dst, effective_referrer, amount, kind, slot, true, now) {
            Result::Ok(degraded) => {
                return Result::Ok(
                    TransferOutcome {
                        category: TransferCategory::IntermediaryRelease,
                        transfer: Option::None,
                        dex: Option::None,
                        redemption: Option::None,
                        overflow: if degraded {
                            Option::Some(
                                InboundBufferOverflow {
                                    recipient: dst_owner,
                                    amount,
                                    sender: effective_referrer,
                                },
                            )
                        } else {
                            Option::None
                        },
                    },
                );
            },
            Result::Err(e) => {
                return Result::Err(e);
            },
        }
    }

    // Peer transfer.
    if is_token_expired(src, config, now) {
        return Result::Err(ViralSyncError::TokensExpired);
    }
    let held_ok: bool = (now as i128 - src.first_received_at as i128)
        >= config.min_hold_before_share_secs as i128;
    if !held_ok {
        return Result::Err(ViralSyncError::HoldPeriodNotMet);
    }
    if amount < config.min_tokens_per_referral {
        return Result::Err(ViralSyncError::BelowMinimum);
    }
    if amount > config.max_tokens_per_referral {
        return Result::Err(ViralSyncError::ExceedsMaximum);
    }
    let spd: u64 = if config.slots_per_day >= 1 {
        config.slots_per_day
    } else {
        1
    };
    let today: u64 = slot / spd;
    let same_day = src.share_limit_day == today;
    if same_day && src.shares_today >= config.max_referrals_per_wallet_per_day {
        return Result::Err(ViralSyncError::DailyShareLimitExceeded);
    }
    if src.gen1_balance == 0 && !config.allow_second_gen_transfer {
        return Result::Err(ViralSyncError::MaxDepthReached);
    }
    let total = src.total_balance();
    if total < amount as u128 {
        return Result::Err(ViralSyncError::InsufficientBalance);
    }
    let from_gen1: u64 = if amount <= src.gen1_balance {
        amount
    } else {
        src.gen1_balance
    };
    let rest: u64 = amount - from_gen1;
    let from_gen2: u64 = if rest <= src.gen2_balance {
        rest
    } else {
        src.gen2_balance
    };
    if from_gen1 == 0 && from_gen2 > 0 && !config.allow_second_gen_transfer {
        return Result::Err(ViralSyncError::MaxDepthReached);
    }
    let (kind, effective_referrer) = if from_gen1 > 0 {
        (GenSource::ViralShare, Option::Some(src_owner))
    } else {
        (GenSource::DeadPass, Option::<AccountId>::None)
    };
    let mut degraded: bool = false;
    if !dst.is_intermediary {
        match deliver_inbound(dst, effective_referrer, amount, kind, slot, true, now) {
            Result::Ok(d) => {
                degraded = d;
            },
            Result::Err(e) => {
                return Result::Err(e);
            },
        }
    }
    if same_day {
        src.shares_today = src.shares_today + 1;
    } else {
        src.share_limit_day = today;
        src.shares_today = 1;
    }
    match src.fifo_deduct(amount) {
        Result::Ok(_) => {},
        Result::Err(e) => {
            proof {
                assert(false);
            }
            return Result::Err(e);
        },
    }
    Result::Ok(
        TransferOutcome {
            category: TransferCategory::PeerTransfer,
            transfer: Option::Some(
                TransferExecuted {
                    from: src_owner,
                    to: dst_owner,
                    effective_referrer,
                    amount,
                    entry_type: kind,
                    slot,
                },
            ),
            dex: Option::None,
            redemption: Option::None,
            overflow: if degraded {
                Option::Some(
                    InboundBufferOverflow { recipient: dst_owner, amount, sender: effective_referrer },
                )
            } else {
                Option::None
            },
        },
    )
}

/// Conservation for the default category: a peer transfer delivered to a
/// non-intermediary destination moves exactly `amount` from the source's
/// buckets to the destination's, so the two holders' combined balance is
/// unchanged — including when the destination's buffer overflowed and
/// the value degraded to inert.
pub proof fn lemma_peer_transfer_conserves_value(
    src0: TokenGeneration,
    src1: TokenGeneration,
    dst0: TokenGeneration,
    dst1: TokenGeneration,
    amount: u64,
    today: int,
    slot: u64,
    now: i64,
)
    requires
        src0.total() >= amount,
        peer_src_applied(src0, src1, amount, today),
        delivered(
            dst0,
            dst1,
            peer_referrer(src0, amount),
            amount,
            peer_entry_kind(src0, amount),
            slot,
            true,
            now,
        ),
    ensures
        src1.total() + dst1.total() == src0.total() + dst0.total(),
{
    lemma_delivery_preserves_total(
        dst0,
        dst1,
        peer_referrer(src0, amount),
        amount,
        peer_entry_kind(src0, amount),
        slot,
        true,
        now,
    );
}

/// Conservation across an escrow hop: a peer share into an intermediary
/// takes `amount` from the sender without crediting the escrow, and the
/// later release credits the destination without touching the escrow.
/// Neither event conserves on its own, but across the pair the three
/// holders' combined balance is unchanged.
pub proof fn lemma_escrow_pair_conserves_value(
    src0: TokenGeneration,
    src1: TokenGeneration,
    escrow0: TokenGeneration,
    escrow1: TokenGeneration,
    escrow2: TokenGeneration,
    dst0: TokenGeneration,
    dst1: TokenGeneration,
    referrer: Option<AccountId>,
    amount: u64,
    kind: GenSource,
    today: int,
    slot: u64,
    now: i64,
)
    requires
        src0.total() >= amount,
        peer_src_applied(src0, src1, amount, today),
        escrow1 == escrow0,
        escrow2 == escrow1,
        delivered(dst0, dst1, referrer, amount, kind, slot, true, now),
    ensures
        src1.total() + escrow2.total() + dst1.total() == src0.total() + escrow0.total()
            + dst0.total(),
{
    lemma_delivery_preserves_total(dst0, dst1, referrer, amount, kind, slot, true, now);
}

} // verus!
