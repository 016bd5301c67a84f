//! The redemption session: opening a session apportions the consumed
//! referred balance across active referrer slots; each slot is settled
//! exactly once into the commission ledger; the session clears when every
//! active slot's bit is set.

use vstd::prelude::*;
use vstd::arithmetic::div_mod::{
    lemma_div_is_ordered,
    lemma_div_multiples_vanish,
    lemma_div_nonincreasing,
    lemma_div_pos_is_pos,
    lemma_fundamental_div_mod,
};
use vstd::arithmetic::mul::{
    lemma_mul_inequality,
    lemma_mul_is_commutative,
    lemma_mul_is_distributive_add,
    lemma_mul_is_distributive_sub,
    lemma_mul_nonnegative,
    lemma_mul_upper_bound,
};
use crate::errors::ViralSyncError;
use crate::holder::{
    fifo_deducted,
    spec_bit_set,
    spec_low_mask,
    take_gen2,
    MAX_REFERRER_SLOTS,
    SlotBitset,
    TokenGeneration,
};
use crate::commission::{
    commission_credit_overflows,
    commission_credited,
    credit_commission,
    CommissionLedger,
};
use crate::referral::ReferralRecord;

verus! {

/// The amount apportioned to slot `i` when a session opens on `pre` for
/// `amount`: floor(consumed × attributed / referred-before-consumption)
/// for an active slot, zero otherwise.
pub open spec fn slot_apportionment(pre: TokenGeneration, amount: u64, i: int) -> int {
    let consumed = take_gen2(pre, amount);
    let total_before = pre.gen2_balance as int;
    if i < pre.active_referrer_slots && pre.referrer_slots@[i].is_active && total_before > 0 {
        (consumed * pre.referrer_slots@[i].tokens_attributed) / total_before
    } else {
        0
    }
}

/// Whether the apportionment arithmetic exceeds the 64-bit range for some
/// active slot (the one condition on which opening fails after its
/// balance checks pass).
pub open spec fn apportionment_overflows(pre: TokenGeneration, amount: u64) -> bool {
    exists|i: int|
        0 <= i < pre.active_referrer_slots && #[trigger] pre.referrer_slots@[i].is_active
            && pre.gen2_balance > 0 && take_gen2(pre, amount)
            * pre.referrer_slots@[i].tokens_attributed > u64::MAX
}

/// The ledger after a session opened: the amount FIFO-deducted, the
/// session marked pending with the consumed referred value recorded, the
/// settled bitset cleared, and every slot's apportionment written.
pub open spec fn redemption_opened(
    pre: TokenGeneration,
    post: TokenGeneration,
    amount: u64,
    slot: u64,
) -> bool {
    &&& post.gen1_balance == pre.gen1_balance - crate::holder::take_gen1(pre, amount)
    &&& post.gen2_balance == pre.gen2_balance - take_gen2(pre, amount)
    &&& post.dead_balance == pre.dead_balance - crate::holder::take_dead(pre, amount)
    &&& post.redemption_pending == true
    &&& post.redemption_slot == slot
    &&& post.redemption_gen2_consumed == take_gen2(pre, amount)
    &&& post.redemption_slots_settled == SlotBitset::spec_none_set()
    &&& post.redemption_slot_consumed@.len() == MAX_REFERRER_SLOTS
    &&& (forall|i: int| 0 <= i < MAX_REFERRER_SLOTS ==> #[trigger] post.redemption_slot_consumed@[i]
        == slot_apportionment(pre, amount, i))
    &&& pre.eq_identity(post)
    &&& pre.eq_buffer(post)
    &&& pre.eq_slots(post)
    &&& pre.eq_timestamps(post)
    &&& pre.eq_share_counters(post)
}

/// Opens a redemption session on `gen` for `amount` sent to a settlement
/// vault at `slot`. Requires a finalized inbound buffer and no session
/// already pending; FIFO-deducts the amount and apportions the consumed
/// referred value across the active referrer slots in proportion to each
/// slot's lifetime attribution against the pre-deduction referred total.
/// Returns the referred value consumed. On any error the ledger is
/// unchanged.
pub fn open_redemption(gen: &mut TokenGeneration, amount: u64, slot: u64) -> (r: Result<
    u64,
    ViralSyncError,
>)
    requires
        old(gen).wf(),
    ensures
        final(gen).wf(),
        r is Err ==> *final(gen) == *old(gen),
        old(gen).buffer_pending != 0 ==> r == Result::<u64, ViralSyncError>::Err(
            ViralSyncError::MustFinalizeBeforeRedeem,
        ),
        old(gen).buffer_pending == 0 && old(gen).redemption_pending ==> r == Result::<
            u64,
            ViralSyncError,
        >::Err(ViralSyncError::PreviousRedemptionUnprocessed),
        old(gen).buffer_pending == 0 && !old(gen).redemption_pending && old(gen).total()
            < amount ==> r == Result::<u64, ViralSyncError>::Err(
            ViralSyncError::InsufficientBalance,
        ),
        old(gen).buffer_pending == 0 && !old(gen).redemption_pending && old(gen).total() >= amount
            && apportionment_overflows(*old(gen), amount) ==> r == Result::<u64, ViralSyncError>::Err(
            ViralSyncError::MathOverflow,
        ),
        old(gen).buffer_pending == 0 && !old(gen).redemption_pending && old(gen).total() >= amount
            && !apportionment_overflows(*old(gen), amount) ==> {
            &&& r == Result::<u64, ViralSyncError>::Ok(take_gen2(*old(gen), amount) as u64)
            &&& redemption_opened(*old(gen), *final(gen), amount, slot)
        },
{
    if gen.buffer_pending != 0 {
        return Result::Err(ViralSyncError::MustFinalizeBeforeRedeem);
    }
    if gen.redemption_pending {
        return Result::Err(ViralSyncError::PreviousRedemptionUnprocessed);
    }
    let total = gen.total_balance();
    if total < amount as u128 {
        return Result::Err(ViralSyncError::InsufficientBalance);
    }
    let from_gen1: u64 = if amount <= gen.gen1_balance {
        amount
    } else {
        gen.gen1_balance
    };
    let rest: u64 = amount - from_gen1;
    let consumed: u64 = if rest <= gen.gen2_balance {
        rest
    } else {
        gen.gen2_balance
    };
    assert(consumed == take_gen2(*old(gen), amount));
    let total_before: u64 = gen.gen2_balance;
    let mut shares: Vec<u64> = Vec::new();
    let mut i: usize = 0;
    while i < MAX_REFERRER_SLOTS
        invariant
            *gen == *old(gen),
            gen.wf(),
            old(gen).buffer_pending == 0,
            !old(gen).redemption_pending,
            old(gen).total() >= amount,
            i <= MAX_REFERRER_SLOTS,
            shares@.len() == i,
            consumed == take_gen2(*old(gen), amount),
            total_before == gen.gen2_balance,
            forall|j: int| 0 <= j < i ==> #[trigger] shares@[j] == slot_apportionment(
                *old(gen),
                amount,
                j,
            ),
            forall|j: int|
                0 <= j < i && j < gen.active_referrer_slots
                    && #[trigger] gen.referrer_slots@[j].is_active && gen.gen2_balance > 0
                    ==> take_gen2(*old(gen), amount) * gen.referrer_slots@[j].tokens_attributed
                    <= u64::MAX,
        decreases MAX_REFERRER_SLOTS - i,
    {
        let mut val: u64 = 0;
        if i < gen.active_referrer_slots as usize {
            let s = gen.referrer_slots[i];
            if s.is_active && total_before > 0 {
                proof {
                    lemma_mul_upper_bound(
                        consumed as int,
                        u64::MAX as int,
                        s.tokens_attributed as int,
                        u64::MAX as int,
                    );
                }
                let prod: u128 = consumed as u128 * s.tokens_attributed as u128;
                if prod > u64::MAX as u128 {
                    return Result::Err(ViralSyncError::MathOverflow);
                }
                proof {
                    lemma_div_nonincreasing(prod as int, total_before as int);
                    lemma_div_pos_is_pos(prod as int, total_before as int);
                }
                val = (prod / (total_before as u128)) as u64;
            }
        }
        shares.push(val);
        i = i + 1;
    }
    match gen.fifo_deduct_redemption(amount) {
        Result::Ok(_) => {},
        Result::Err(e) => {
            proof {
                assert(false);
            }
            return Result::Err(e);
        },
    }
    gen.redemption_pending = true;
    gen.redemption_slot = slot;
    gen.redemption_gen2_consumed = consumed;
    gen.redemption_slots_settled = SlotBitset::none_set();
    gen.redemption_slot_consumed = shares;
    Result::Ok(consumed)
}

/// Why settling `slot_idx` is rejected against the given records, or
/// nothing when the settlement may proceed.
pub open spec fn settle_rejection(
    gen: TokenGeneration,
    referral: ReferralRecord,
    ledger: CommissionLedger,
    slot_idx: u8,
) -> Option<ViralSyncError> {
    if !gen.redemption_pending {
        Option::Some(ViralSyncError::NoRedemptionPending)
    } else if slot_idx >= gen.active_referrer_slots {
        Option::Some(ViralSyncError::InvalidReferrerSlot)
    } else if !gen.referrer_slots@[slot_idx as int].is_active {
        Option::Some(ViralSyncError::InvalidReferrerSlot)
    } else if gen.referrer_slots@[slot_idx as int].referral_record != referral.record_id {
        Option::Some(ViralSyncError::InvalidReferrerSlot)
    } else if gen.referrer_slots@[slot_idx as int].referrer != referral.referrer {
        Option::Some(ViralSyncError::InvalidReferrerSlot)
    } else if spec_bit_set(gen.redemption_slots_settled.bits, slot_idx) {
        Option::Some(ViralSyncError::SlotAlreadySettled)
    } else if gen.redemption_slot_consumed@[slot_idx as int] > 0 && referral.is_active
        && commission_credit_overflows(
        ledger,
        referral,
        gen.redemption_slot_consumed@[slot_idx as int],
    ) {
        Option::Some(ViralSyncError::MathOverflow)
    } else {
        Option::None
    }
}

/// Settles one referrer slot of the pending session, exactly once: a
/// non-zero apportioned amount on an active referral credits the
/// commission ledger; the slot's settled bit is then set. Settling an
/// already-settled slot is rejected with every record unchanged, so
/// retries and interleavings are safe.
pub fn process_redemption_slot(
    gen: &mut TokenGeneration,
    referral: &mut ReferralRecord,
    ledger: &mut CommissionLedger,
    slot_idx: u8,
) -> (r: Result<(), ViralSyncError>)
    requires
        old(gen).wf(),
        old(referral).wf(),
        old(ledger).wf(),
    ensures
        final(gen).wf(),
        final(referral).wf(),
        final(ledger).wf(),
        r is Err ==> *final(gen) == *old(gen) && *final(referral) == *old(referral)
            && *final(ledger) == *old(ledger),
        match settle_rejection(*old(gen), *old(referral), *old(ledger), slot_idx) {
            Option::Some(e) => r == Result::<(), ViralSyncError>::Err(e),
            Option::None => {
                &&& r is Ok
                &&& final(gen).redemption_slots_settled.bits == old(
                    gen,
                ).redemption_slots_settled.bits | (1u8 << slot_idx)
                &&& final(gen).eq_identity(*old(gen))
                &&& final(gen).eq_balances(*old(gen))
                &&& final(gen).eq_buffer(*old(gen))
                &&& final(gen).eq_slots(*old(gen))
                &&& final(gen).eq_timestamps(*old(gen))
                &&& final(gen).eq_share_counters(*old(gen))
                &&& final(gen).redemption_pending == old(gen).redemption_pending
                &&& final(gen).redemption_slot == old(gen).redemption_slot
                &&& final(gen).redemption_gen2_consumed == old(gen).redemption_gen2_consumed
                &&& final(gen).redemption_slot_consumed@ == old(gen).redemption_slot_consumed@
                &&& {
                    let apportioned = old(gen).redemption_slot_consumed@[slot_idx as int];
                    if apportioned > 0 && old(referral).is_active {
                        commission_credited(
                            *old(ledger),
                            *final(ledger),
                            *old(referral),
                            *final(referral),
                            apportioned as u64,
                        )
                    } else {
                        *final(ledger) == *old(ledger) && *final(referral) == *old(referral)
                    }
                }
            },
        },
{
    if !gen.redemption_pending {
        return Result::Err(ViralSyncError::NoRedemptionPending);
    }
    if slot_idx >= gen.active_referrer_slots {
        return Result::Err(ViralSyncError::InvalidReferrerSlot);
    }
    let slot = gen.referrer_slots[slot_idx as usize];
    if !slot.is_active {
        return Result::Err(ViralSyncError::InvalidReferrerSlot);
    }
    if slot.referral_record.value != referral.record_id.value {
        return Result::Err(ViralSyncError::InvalidReferrerSlot);
    }
    if slot.referrer.value != referral.referrer.value {
        return Result::Err(ViralSyncError::InvalidReferrerSlot);
    }
    if gen.redemption_slots_settled.is_set(slot_idx) {
        return Result::Err(ViralSyncError::SlotAlreadySettled);
    }
    let apportioned: u64 = gen.redemption_slot_consumed[slot_idx as usize];
    if apportioned > 0 && referral.is_active {
        match credit_commission(ledger, referral, apportioned) {
            Result::Ok(_) => {},
            Result::Err(e) => {
                return Result::Err(e);
            },
        }
    }
    gen.redemption_slots_settled.set(slot_idx);
    Result::Ok(())
}

/// Clears a fully settled session: every active slot's bit must be set,
/// after which the session fields are zeroed and the holder returns to
/// the idle state, free to open the next redemption.
pub fn clear_redemption_pending(gen: &mut TokenGeneration) -> (r: Result<(), ViralSyncError>)
    requires
        old(gen).wf(),
    ensures
        final(gen).wf(),
        r is Err ==> *final(gen) == *old(gen),
        !old(gen).redemption_pending ==> r == Result::<(), ViralSyncError>::Err(
            ViralSyncError::NoRedemptionPending,
        ),
        old(gen).redemption_pending && old(gen).redemption_slots_settled.bits != spec_low_mask(
            old(gen).active_referrer_slots,
        ) ==> r == Result::<(), ViralSyncError>::Err(ViralSyncError::UnsettledSlotsRemain),
        old(gen).redemption_pending && old(gen).redemption_slots_settled.bits == spec_low_mask(
            old(gen).active_referrer_slots,
        ) ==> {
            &&& r is Ok
            &&& final(gen).redemption_pending == false
            &&& final(gen).redemption_slot == 0
            &&& final(gen).redemption_gen2_consumed == 0
            &&& final(gen).redemption_slot_consumed@.len() == MAX_REFERRER_SLOTS
            &&& (forall|i: int| 0 <= i < MAX_REFERRER_SLOTS
                ==> #[trigger] final(gen).redemption_slot_consumed@[i] == 0)
            &&& final(gen).redemption_slots_settled == SlotBitset::spec_none_set()
            &&& final(gen).eq_identity(*old(gen))
            &&& final(gen).eq_balances(*old(gen))
            &&& final(gen).eq_buffer(*old(gen))
            &&& final(gen).eq_slots(*old(gen))
            &&& final(gen).eq_timestamps(*old(gen))
            &&& final(gen).eq_share_counters(*old(gen))
        },
{
    if !gen.redemption_pending {
        return Result::Err(ViralSyncError::NoRedemptionPending);
    }
    if !gen.redemption_slots_settled.all_set_for(gen.active_referrer_slots) {
        return Result::Err(ViralSyncError::UnsettledSlotsRemain);
    }
    let mut zeros: Vec<u64> = Vec::new();
    let mut k: usize = 0;
    while k < MAX_REFERRER_SLOTS
        invariant
            k <= MAX_REFERRER_SLOTS,
            zeros@.len() == k,
            forall|m: int| 0 <= m < k ==> #[trigger] zeros@[m] == 0,
        decreases MAX_REFERRER_SLOTS - k,
    {
        zeros.push(0);
        k = k + 1;
    }
    gen.redemption_pending = false;
    gen.redemption_slot = 0;
    gen.redemption_gen2_consumed = 0;
    gen.redemption_slot_consumed = zeros;
    gen.redemption_slots_settled = SlotBitset::none_set();
    Result::Ok(())
}

/// The lifetime attribution of slot `i`, counted only while the slot is
/// active and in range.
pub open spec fn attributed_if_active(g: TokenGeneration, i: int) -> int {
    if 0 <= i < g.active_referrer_slots && g.referrer_slots@[i].is_active {
        g.referrer_slots@[i].tokens_attributed as int
    } else {
        0
    }
}

/// For non-negative `x` and `y`, the floors of two shares of a common
/// divisor never exceed the floor of their sum.
proof fn lemma_div_sum(x: int, y: int, d: int)
    requires
        d > 0,
        x >= 0,
        y >= 0,
    ensures
        x / d + y / d <= (x + y) / d,
{
    lemma_fundamental_div_mod(x, d);
    lemma_fundamental_div_mod(y, d);
    lemma_fundamental_div_mod(x + y, d);
    let delta = (x + y) / d - x / d - y / d;
    assert(d * delta == x % d + y % d - (x + y) % d) by {
        lemma_mul_is_distributive_sub(d, (x + y) / d - x / d, y / d);
        lemma_mul_is_distributive_sub(d, (x + y) / d, x / d);
    }
    assert(d * delta > -d);
    assert(delta >= 0) by (nonlinear_arith)
        requires
            d > 0,
            d * delta > -d,
    ;
}

/// Apportionment never over-claims: when the active slots' lifetime
/// attribution is within the holder's referred balance, the per-slot
/// apportioned amounts of a freshly opened session sum to at most the
/// session's total referred-consumed figure.
pub proof fn lemma_apportionment_bounded(
    pre: TokenGeneration,
    post: TokenGeneration,
    amount: u64,
    slot: u64,
)
    requires
        pre.wf(),
        redemption_opened(pre, post, amount, slot),
        attributed_if_active(pre, 0) + attributed_if_active(pre, 1) + attributed_if_active(pre, 2)
            + attributed_if_active(pre, 3) <= pre.gen2_balance,
    ensures
        post.redemption_slot_consumed@[0] + post.redemption_slot_consumed@[1]
            + post.redemption_slot_consumed@[2] + post.redemption_slot_consumed@[3]
            <= post.redemption_gen2_consumed,
{
    let c = take_gen2(pre, amount);
    let t = pre.gen2_balance as int;
    assert(post.redemption_slot_consumed@[0] == slot_apportionment(pre, amount, 0));
    assert(post.redemption_slot_consumed@[1] == slot_apportionment(pre, amount, 1));
    assert(post.redemption_slot_consumed@[2] == slot_apportionment(pre, amount, 2));
    assert(post.redemption_slot_consumed@[3] == slot_apportionment(pre, amount, 3));
    if t == 0 {
        assert(forall|i: int| 0 <= i < 4 ==> slot_apportionment(pre, amount, i) == 0);
        assert(c >= 0);
    } else {
        let a0 = attributed_if_active(pre, 0);
        let a1 = attributed_if_active(pre, 1);
        let a2 = attributed_if_active(pre, 2);
        let a3 = attributed_if_active(pre, 3);
        let x0 = c * a0;
        let x1 = c * a1;
        let x2 = c * a2;
        let x3 = c * a3;
        assert(c >= 0);
        lemma_mul_nonnegative(c, a0);
        lemma_mul_nonnegative(c, a1);
        lemma_mul_nonnegative(c, a2);
        lemma_mul_nonnegative(c, a3);
        assert forall|i: int| 0 <= i < 4 implies slot_apportionment(pre, amount, i) <= (c
            * attributed_if_active(pre, i)) / t by {
            if i < pre.active_referrer_slots && pre.referrer_slots@[i].is_active {
                assert(attributed_if_active(pre, i) == pre.referrer_slots@[i].tokens_attributed);
            } else {
                assert(slot_apportionment(pre, amount, i) == 0);
                assert(attributed_if_active(pre, i) == 0);
                lemma_div_pos_is_pos(c * attributed_if_active(pre, i), t);
            }
        }
        lemma_div_sum(x0, x1, t);
        lemma_div_sum(x0 + x1, x2, t);
        lemma_div_sum(x0 + x1 + x2, x3, t);
        assert(x0 + x1 + x2 + x3 == c * (a0 + a1 + a2 + a3)) by {
            lemma_mul_is_distributive_add(c, a0, a1);
            lemma_mul_is_distributive_add(c, a0 + a1, a2);
            lemma_mul_is_distributive_add(c, a0 + a1 + a2, a3);
        }
        assert(c * (a0 + a1 + a2 + a3) <= c * t) by {
            lemma_mul_inequality(a0 + a1 + a2 + a3, t, c);
            lemma_mul_is_commutative(c, a0 + a1 + a2 + a3);
            lemma_mul_is_commutative(c, t);
        }
        lemma_div_is_ordered(x0 + x1 + x2 + x3, c * t, t);
        assert((c * t) / t == c) by {
            lemma_div_multiples_vanish(c, t);
            lemma_mul_is_commutative(c, t);
        }
    }
}

} // verus!
