//! Finalization: drains a holder's inbound buffer, resolving each staged
//! referred entry into the creation or update of a referrer slot when its
//! referral is still within its validity window, or reclassifying that
//! entry's value from the referred bucket to the inert bucket when it is
//! not. Pass-through and issuance entries only need their mark.

use vstd::prelude::*;
use crate::types::{AccountId, GenSource};
use crate::errors::ViralSyncError;
use crate::holder::{
    InboundEntry,
    ReferrerSlot,
    TokenGeneration,
    INBOUND_BUFFER_SIZE,
    MAX_REFERRER_SLOTS,
};
use crate::referral::ReferralRecord;

verus! {

/// The index of the first record in `rs` (from `i` on) that links
/// `referrer` to `referred` for `mint`, or -1 when there is none.
pub open spec fn find_referral_idx(
    rs: Seq<ReferralRecord>,
    referrer: AccountId,
    referred: AccountId,
    mint: AccountId,
    i: int,
) -> int
    decreases rs.len() - i,
{
    if i < 0 || i >= rs.len() {
        -1
    } else if rs[i].referrer == referrer && rs[i].referred == referred && rs[i].mint == mint {
        i
    } else {
        find_referral_idx(rs, referrer, referred, mint, i + 1)
    }
}

/// The index of the first active slot (from `i` on, among the first
/// `active`) already attributed to `referrer`, or -1 when there is none.
pub open spec fn find_slot_idx(
    slots: Seq<ReferrerSlot>,
    active: int,
    referrer: AccountId,
    i: int,
) -> int
    decreases active - i,
{
    if i < 0 || i >= active || i >= slots.len() {
        -1
    } else if slots[i].is_active && slots[i].referrer == referrer {
        i
    } else {
        find_slot_idx(slots, active, referrer, i + 1)
    }
}

/// The part of the holder state that finalization folds over.
pub struct FinalizeState {
    pub slots: Seq<ReferrerSlot>,
    pub active: int,
    pub gen2: int,
    pub dead: int,
}

/// Whether a buffered entry still awaits resolution.
pub open spec fn entry_pending(e: InboundEntry) -> bool {
    !e.processed && e.amount > 0
}

/// Whether the entry's referral still stands at `now`: a matching record
/// exists, is active, and its validity window has not passed.
pub open spec fn entry_referral_valid(
    e: InboundEntry,
    rs: Seq<ReferralRecord>,
    referred: AccountId,
    mint: AccountId,
    now: i64,
) -> bool {
    match e.referrer {
        Option::Some(r) => {
            let idx = find_referral_idx(rs, r, referred, mint, 0);
            idx >= 0 && rs[idx].is_active && !rs[idx].spec_is_expired(now)
        },
        Option::None => false,
    }
}

/// Moves as much of `amount` as the referred bucket still holds over to
/// the inert bucket: the entry's value exits referral tracking.
pub open spec fn reclassified(st: FinalizeState, amount: u64) -> FinalizeState {
    let m = if amount <= st.gen2 {
        amount as int
    } else {
        st.gen2
    };
    FinalizeState { gen2: st.gen2 - m, dead: st.dead + m, ..st }
}

/// Resolves one buffered entry against the fold state: referred entries
/// with a standing referral create or update a referrer slot (degrading
/// to inert only when all slots are taken); referred entries whose
/// referral lapsed reclassify their value to inert; all other entries
/// leave the state as it is.
pub open spec fn finalize_entry_step(
    st: FinalizeState,
    e: InboundEntry,
    rs: Seq<ReferralRecord>,
    referred: AccountId,
    mint: AccountId,
    now: i64,
) -> FinalizeState {
    if !entry_pending(e) || !(e.generation_source is ViralShare) {
        st
    } else {
        match e.referrer {
            Option::Some(r) => {
                if entry_referral_valid(e, rs, referred, mint, now) {
                    let k = find_slot_idx(st.slots, st.active, r, 0);
                    if k >= 0 {
                        FinalizeState {
                            slots: st.slots.update(
                                k,
                                ReferrerSlot {
                                    tokens_attributed: (st.slots[k].tokens_attributed
                                        + e.amount) as u64,
                                    ..st.slots[k]
                                },
                            ),
                            ..st
                        }
                    } else if st.active < MAX_REFERRER_SLOTS {
                        let ridx = find_referral_idx(rs, r, referred, mint, 0);
                        FinalizeState {
                            slots: st.slots.update(
                                st.active,
                                ReferrerSlot {
                                    referrer: r,
                                    referral_record: rs[ridx].record_id,
                                    tokens_attributed: e.amount,
                                    tokens_redeemed_so_far: 0,
                                    is_active: true,
                                },
                            ),
                            active: st.active + 1,
                            ..st
                        }
                    } else {
                        reclassified(st, e.amount)
                    }
                } else {
                    reclassified(st, e.amount)
                }
            },
            Option::None => st,
        }
    }
}

/// Whether resolving `e` against `st` would overflow a slot's lifetime
/// attribution or the inert bucket.
pub open spec fn finalize_step_overflows(
    st: FinalizeState,
    e: InboundEntry,
    rs: Seq<ReferralRecord>,
    referred: AccountId,
    mint: AccountId,
    now: i64,
) -> bool {
    if !entry_pending(e) || !(e.generation_source is ViralShare) {
        false
    } else {
        match e.referrer {
            Option::Some(r) => {
                let m = if e.amount <= st.gen2 {
                    e.amount as int
                } else {
                    st.gen2
                };
                if entry_referral_valid(e, rs, referred, mint, now) {
                    let k = find_slot_idx(st.slots, st.active, r, 0);
                    if k >= 0 {
                        st.slots[k].tokens_attributed + e.amount > u64::MAX
                    } else if st.active < MAX_REFERRER_SLOTS {
                        false
                    } else {
                        st.dead + m > u64::MAX
                    }
                } else {
                    st.dead + m > u64::MAX
                }
            },
            Option::None => false,
        }
    }
}

/// The fold state after the first `n` buffer cells of `g` are resolved,
/// in index order.
pub open spec fn finalize_fold(
    g: TokenGeneration,
    rs: Seq<ReferralRecord>,
    now: i64,
    n: int,
) -> FinalizeState
    decreases n,
{
    if n <= 0 {
        FinalizeState {
            slots: g.referrer_slots@,
            active: g.active_referrer_slots as int,
            gen2: g.gen2_balance as int,
            dead: g.dead_balance as int,
        }
    } else {
        finalize_entry_step(
            finalize_fold(g, rs, now, n - 1),
            g.inbound_buffer@[n - 1],
            rs,
            g.owner,
            g.mint,
            now,
        )
    }
}

/// Whether finalizing `g` against `rs` hits an overflow at any cell.
pub open spec fn finalize_overflows(g: TokenGeneration, rs: Seq<ReferralRecord>, now: i64) -> bool {
    exists|n: int|
        0 <= n < INBOUND_BUFFER_SIZE && #[trigger] finalize_step_overflows(
            finalize_fold(g, rs, now, n),
            g.inbound_buffer@[n],
            rs,
            g.owner,
            g.mint,
            now,
        )
}

/// A buffer cell after finalization: resolved cells are marked processed
/// and cleared; the rest keep their contents.
pub open spec fn cleared_entry(e: InboundEntry) -> InboundEntry {
    if entry_pending(e) {
        InboundEntry { processed: true, amount: 0, ..e }
    } else {
        e
    }
}

fn reclassify_to_inert(gen2: &mut u64, dead: &mut u64, amount: u64) -> (r: Result<
    (),
    ViralSyncError,
>)
    ensures
        ({
            let m: int = if amount <= *old(gen2) {
                amount as int
            } else {
                *old(gen2) as int
            };
            if *old(dead) + m > u64::MAX {
                r == Result::<(), ViralSyncError>::Err(ViralSyncError::MathOverflow) && *final(gen2)
                    == *old(gen2) && *final(dead) == *old(dead)
            } else {
                &&& r is Ok
                &&& *final(gen2) == *old(gen2) - m
                &&& *final(dead) == *old(dead) + m
            }
        }),
{
    let m: u64 = if amount <= *gen2 {
        amount
    } else {
        *gen2
    };
    if *dead > u64::MAX - m {
        return Result::Err(ViralSyncError::MathOverflow);
    }
    *gen2 = *gen2 - m;
    *dead = *dead + m;
    Result::Ok(())
}

/// Drains the inbound buffer against the supplied referral records
/// (`referrals` carries the records the host holds for this holder and
/// asset). Every pending entry is resolved as `finalize_entry_step`
/// describes and marked processed, and the pending count returns to
/// zero, after which a redemption may open. A ledger with nothing
/// pending is left untouched. On any overflow nothing changes.
pub fn finalize_inbound(
    gen: &mut TokenGeneration,
    referrals: &Vec<ReferralRecord>,
    now: i64,
) -> (r: Result<(), ViralSyncError>)
    requires
        old(gen).wf(),
    ensures
        final(gen).wf(),
        r is Err ==> *final(gen) == *old(gen),
        old(gen).buffer_pending == 0 ==> r is Ok && *final(gen) == *old(gen),
        old(gen).buffer_pending != 0 && finalize_overflows(*old(gen), referrals@, now) ==> r
            == Result::<(), ViralSyncError>::Err(ViralSyncError::MathOverflow),
        old(gen).buffer_pending != 0 && !finalize_overflows(*old(gen), referrals@, now) ==> {
            let st = finalize_fold(*old(gen), referrals@, now, INBOUND_BUFFER_SIZE as int);
            &&& r is Ok
            &&& final(gen).referrer_slots@ == st.slots
            &&& final(gen).active_referrer_slots == st.active
            &&& final(gen).gen2_balance == st.gen2
            &&& final(gen).dead_balance == st.dead
            &&& final(gen).gen1_balance == old(gen).gen1_balance
            &&& final(gen).buffer_pending == 0
            &&& final(gen).buffer_head == old(gen).buffer_head
            &&& final(gen).inbound_buffer@.len() == INBOUND_BUFFER_SIZE
            &&& (forall|i: int| 0 <= i < INBOUND_BUFFER_SIZE
                ==> #[trigger] final(gen).inbound_buffer@[i] == cleared_entry(
                    old(gen).inbound_buffer@[i],
                ))
            &&& final(gen).eq_identity(*old(gen))
            &&& final(gen).eq_session(*old(gen))
            &&& final(gen).eq_timestamps(*old(gen))
            &&& final(gen).eq_share_counters(*old(gen))
        },
{
    if gen.buffer_pending == 0 {
        return Result::Ok(());
    }
    let owner = gen.owner;
    let mint = gen.mint;
    let mut slots: Vec<ReferrerSlot> = Vec::new();
    let mut c: usize = 0;
    while c < MAX_REFERRER_SLOTS
        invariant
            gen.wf(),
            c <= MAX_REFERRER_SLOTS,
            slots@.len() == c,
            forall|j: int| 0 <= j < c ==> #[trigger] slots@[j] == gen.referrer_slots@[j],
        decreases MAX_REFERRER_SLOTS - c,
    {
        let s = gen.referrer_slots[c];
        slots.push(s);
        c = c + 1;
    }
    proof {
        assert(slots@ =~= gen.referrer_slots@);
    }
    let mut active: u8 = gen.active_referrer_slots;
    let mut gen2: u64 = gen.gen2_balance;
    let mut dead: u64 = gen.dead_balance;
    let mut i: usize = 0;
    while i < INBOUND_BUFFER_SIZE
        invariant
            *gen == *old(gen),
            gen.wf(),
            gen.buffer_pending != 0,
            owner == gen.owner,
            mint == gen.mint,
            i <= INBOUND_BUFFER_SIZE,
            slots@.len() == MAX_REFERRER_SLOTS,
            active <= MAX_REFERRER_SLOTS,
            ({
                let st = finalize_fold(*old(gen), referrals@, now, i as int);
                slots@ == st.slots && active == st.active && gen2 == st.gen2 && dead == st.dead
            }),
            forall|n: int|
                0 <= n < i ==> !#[trigger] finalize_step_overflows(
                    finalize_fold(*old(gen), referrals@, now, n),
                    old(gen).inbound_buffer@[n],
                    referrals@,
                    old(gen).owner,
                    old(gen).mint,
                    now,
                ),
        decreases INBOUND_BUFFER_SIZE - i,
    {
        let ghost st_pre = finalize_fold(*old(gen), referrals@, now, i as int);
        let e = gen.inbound_buffer[i];
        let viral = match e.generation_source {
            GenSource::ViralShare => true,
            _ => false,
        };
        if !e.processed && e.amount > 0 && viral {
            match e.referrer {
                Option::Some(rr) => {
                    // Look up the first matching referral record.
                    let mut ridx: usize = 0;
                    let mut rfound: bool = false;
                    while ridx < referrals.len() && !rfound
                        invariant
                            ridx <= referrals@.len(),
                            rfound ==> ridx < referrals@.len() && referrals@[ridx as int].referrer
                                == rr && referrals@[ridx as int].referred == owner
                                && referrals@[ridx as int].mint == mint,
                            rfound ==> find_referral_idx(referrals@, rr, owner, mint, 0)
                                == ridx as int,
                            !rfound ==> find_referral_idx(referrals@, rr, owner, mint, 0)
                                == find_referral_idx(referrals@, rr, owner, mint, ridx as int),
                        decreases referrals@.len() - ridx + (if rfound {
                            0int
                        } else {
                            1int
                        }),
                    {
                        if referrals[ridx].referrer.value == rr.value
                            && referrals[ridx].referred.value == owner.value
                            && referrals[ridx].mint.value == mint.value {
                            rfound = true;
                        } else {
                            ridx = ridx + 1;
                        }
                    }
                    let valid: bool = if rfound {
                        let rec = referrals[ridx];
                        rec.is_active && !rec.is_expired(now)
                    } else {
                        false
                    };
                    proof {
                        if !rfound {
                            assert(find_referral_idx(referrals@, rr, owner, mint, ridx as int)
                                == -1);
                        }
                        assert(valid == entry_referral_valid(e, referrals@, owner, mint, now));
                    }
                    if valid {
                        // Find an existing active slot for this referrer.
                        let mut k: usize = 0;
                        let mut kfound: bool = false;
                        while k < active as usize && !kfound
                            invariant
                                active <= MAX_REFERRER_SLOTS,
                                slots@.len() == MAX_REFERRER_SLOTS,
                                k <= active,
                                kfound ==> k < active && slots@[k as int].is_active
                                    && slots@[k as int].referrer == rr,
                                kfound ==> find_slot_idx(slots@, active as int, rr, 0) == k as int,
                                !kfound ==> find_slot_idx(slots@, active as int, rr, 0)
                                    == find_slot_idx(slots@, active as int, rr, k as int),
                            decreases active - k + (if kfound {
                                0int
                            } else {
                                1int
                            }),
                        {
                            if slots[k].is_active && slots[k].referrer.value == rr.value {
                                kfound = true;
                            } else {
                                k = k + 1;
                            }
                        }
                        if kfound {
                            let s = slots[k];
                            if s.tokens_attributed > u64::MAX - e.amount {
                                proof {
                                    assert(finalize_step_overflows(
                                        finalize_fold(*old(gen), referrals@, now, i as int),
                                        old(gen).inbound_buffer@[i as int],
                                        referrals@,
                                        old(gen).owner,
                                        old(gen).mint,
                                        now,
                                    ));
                                }
                                return Result::Err(ViralSyncError::MathOverflow);
                            }
                            slots.set(
                                k,
                                ReferrerSlot {
                                    tokens_attributed: s.tokens_attributed + e.amount,
                                    ..s
                                },
                            );
                        } else if (active as usize) < MAX_REFERRER_SLOTS {
                            proof {
                                assert(find_slot_idx(slots@, active as int, rr, active as int)
                                    == -1);
                            }
                            slots.set(
                                active as usize,
                                ReferrerSlot {
                                    referrer: rr,
                                    referral_record: referrals[ridx].record_id,
                                    tokens_attributed: e.amount,
                                    tokens_redeemed_so_far: 0,
                                    is_active: true,
                                },
                            );
                            active = active + 1;
                        } else {
                            proof {
                                assert(find_slot_idx(slots@, active as int, rr, active as int)
                                    == -1);
                            }
                            match reclassify_to_inert(&mut gen2, &mut dead, e.amount) {
                                Result::Ok(_) => {},
                                Result::Err(err) => {
                                    proof {
                                        assert(finalize_step_overflows(
                                            finalize_fold(*old(gen), referrals@, now, i as int),
                                            old(gen).inbound_buffer@[i as int],
                                            referrals@,
                                            old(gen).owner,
                                            old(gen).mint,
                                            now,
                                        ));
                                    }
                                    return Result::Err(err);
                                },
                            }
                        }
                    } else {
                        match reclassify_to_inert(&mut gen2, &mut dead, e.amount) {
                            Result::Ok(_) => {},
                            Result::Err(err) => {
                                proof {
                                    assert(finalize_step_overflows(
                                        finalize_fold(*old(gen), referrals@, now, i as int),
                                        old(gen).inbound_buffer@[i as int],
                                        referrals@,
                                        old(gen).owner,
                                        old(gen).mint,
                                        now,
                                    ));
                                }
                                return Result::Err(err);
                            },
                        }
                    }
                },
                Option::None => {
                    proof {
                        assert(gen.inbound_buffer@[i as int].well_tagged());
                        assert(false);
                    }
                },
            }
        }
        proof {
            assert(finalize_fold(*old(gen), referrals@, now, i as int + 1)
                == finalize_entry_step(st_pre, e, referrals@, owner, mint, now));
        }
        i = i + 1;
    }
    // All checks passed: commit the new state and clear the buffer marks.
    let mut b: usize = 0;
    while b < INBOUND_BUFFER_SIZE
        invariant
            gen.wf(),
            old(gen).wf(),
            gen.inbound_buffer@.len() == INBOUND_BUFFER_SIZE,
            b <= INBOUND_BUFFER_SIZE,
            forall|j: int| 0 <= j < b ==> #[trigger] gen.inbound_buffer@[j] == cleared_entry(
                old(gen).inbound_buffer@[j],
            ),
            forall|j: int| b <= j < INBOUND_BUFFER_SIZE ==> #[trigger] gen.inbound_buffer@[j]
                == old(gen).inbound_buffer@[j],
            gen.gen1_balance == old(gen).gen1_balance,
            gen.gen2_balance == old(gen).gen2_balance,
            gen.dead_balance == old(gen).dead_balance,
            gen.referrer_slots@ == old(gen).referrer_slots@,
            gen.active_referrer_slots == old(gen).active_referrer_slots,
            gen.buffer_head == old(gen).buffer_head,
            gen.buffer_pending == old(gen).buffer_pending,
            gen.eq_identity(*old(gen)),
            gen.eq_session(*old(gen)),
            gen.eq_timestamps(*old(gen)),
            gen.eq_share_counters(*old(gen)),
        decreases INBOUND_BUFFER_SIZE - b,
    {
        let e = gen.inbound_buffer[b];
        if !e.processed && e.amount > 0 {
            gen.inbound_buffer.set(b, InboundEntry { processed: true, amount: 0, ..e });
            proof {
                assert forall|j: int| 0 <= j < INBOUND_BUFFER_SIZE implies gen.inbound_buffer@[
                    j].well_tagged() by {
                    if j == b {
                        assert(e.well_tagged());
                    }
                }
            }
        }
        b = b + 1;
    }
    gen.gen2_balance = gen2;
    gen.dead_balance = dead;
    gen.referrer_slots = slots;
    gen.active_referrer_slots = active;
    gen.buffer_pending = 0;
    Result::Ok(())
}

} // verus!
