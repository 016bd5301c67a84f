//! The per-(asset, holder) generation ledger: balance buckets, the bounded
//! inbound buffer, referrer slots and the redemption-session fields.

use vstd::prelude::*;
use crate::types::{AccountId, GenSource};
use crate::errors::ViralSyncError;

verus! {

pub const INBOUND_BUFFER_SIZE: usize = 16;
pub const MAX_REFERRER_SLOTS: usize = 4;

/// One staged attribution fact, waiting in the inbound buffer until the
/// holder's buffer is finalized.
#[derive(Clone, Copy, PartialEq, Eq, Structural, Debug)]
pub struct InboundEntry {
    pub referrer: Option<AccountId>,
    pub amount: u64,
    pub generation_source: GenSource,
    pub slot: u64,
    pub processed: bool,
}

impl InboundEntry {
    /// The cleared state a buffer cell starts in (and returns to).
    pub open spec fn spec_empty() -> InboundEntry {
        InboundEntry {
            referrer: Option::None,
            amount: 0,
            generation_source: GenSource::DeadPass,
            slot: 0,
            processed: false,
        }
    }

    /// Builds a cleared buffer cell.
    pub fn empty() -> (e: InboundEntry)
        ensures
            e == InboundEntry::spec_empty(),
    {
        InboundEntry {
            referrer: Option::None,
            amount: 0,
            generation_source: GenSource::DeadPass,
            slot: 0,
            processed: false,
        }
    }

    /// A referred entry must always name its referrer.
    pub open spec fn well_tagged(self) -> bool {
        self.generation_source is ViralShare ==> self.referrer is Some
    }
}

/// One active referral attribution on a holder's ledger.
#[derive(Clone, Copy, PartialEq, Eq, Structural, Debug)]
pub struct ReferrerSlot {
    pub referrer: AccountId,
    pub referral_record: AccountId,
    pub tokens_attributed: u64,
    pub tokens_redeemed_so_far: u64,
    pub is_active: bool,
}

impl ReferrerSlot {
    /// The cleared state of an unused slot.
    pub open spec fn spec_empty() -> ReferrerSlot {
        ReferrerSlot {
            referrer: AccountId { value: 0 },
            referral_record: AccountId { value: 0 },
            tokens_attributed: 0,
            tokens_redeemed_so_far: 0,
            is_active: false,
        }
    }

    /// Builds a cleared slot.
    pub fn empty() -> (s: ReferrerSlot)
        ensures
            s == ReferrerSlot::spec_empty(),
    {
        ReferrerSlot {
            referrer: AccountId { value: 0 },
            referral_record: AccountId { value: 0 },
            tokens_attributed: 0,
            tokens_redeemed_so_far: 0,
            is_active: false,
        }
    }
}

/// Which referrer slots of the pending redemption session are settled,
/// as a fixed-width bitset with named operations.
#[derive(Clone, Copy, PartialEq, Eq, Structural, Debug)]
pub struct SlotBitset {
    pub bits: u8,
}

/// Whether bit `i` of `bits` is set.
pub open spec fn spec_bit_set(bits: u8, i: u8) -> bool {
    bits & (1u8 << i) != 0
}

/// The mask with exactly the `n` lowest bits set.
pub open spec fn spec_low_mask(n: u8) -> u8 {
    ((1u16 << n) - 1) as u8
}

impl SlotBitset {
    /// The bitset with no bit set.
    pub open spec fn spec_none_set() -> SlotBitset {
        SlotBitset { bits: 0 }
    }

    /// Builds the empty bitset.
    pub fn none_set() -> (s: SlotBitset)
        ensures
            s == SlotBitset::spec_none_set(),
    {
        SlotBitset { bits: 0 }
    }

    /// Whether slot `i` is marked settled.
    pub fn is_set(&self, i: u8) -> (r: bool)
        requires
            i < 8,
        ensures
            r == spec_bit_set(self.bits, i),
    {
        self.bits & (1u8 << i) != 0
    }

    /// Marks slot `i` settled, leaving every other bit as it was.
    pub fn set(&mut self, i: u8)
        requires
            i < 8,
        ensures
            final(self).bits == old(self).bits | (1u8 << i),
            spec_bit_set(final(self).bits, i),
            forall|j: u8| j < 8 && j != i ==> spec_bit_set(final(self).bits, j) == spec_bit_set(
                old(self).bits,
                j,
            ),
    {
        let ghost b = self.bits;
        self.bits = self.bits | (1u8 << i);
        proof {
            assert(spec_bit_set(b | (1u8 << i), i)) by (bit_vector)
                requires
                    i < 8,
            ;
            assert forall|j: u8| j < 8 && j != i implies spec_bit_set(b | (1u8 << i), j)
                == spec_bit_set(b, j) by {
                assert(spec_bit_set(b | (1u8 << i), j) == spec_bit_set(b, j)) by (bit_vector)
                    requires
                        i < 8,
                        j < 8,
                        i != j,
                ;
            }
        }
    }

    /// Whether every one of the `n` lowest bits is set and no higher bit is.
    pub fn all_set_for(&self, n: u8) -> (r: bool)
        requires
            n <= 8,
        ensures
            r == (self.bits == spec_low_mask(n)),
    {
        proof {
            assert(1u16 <= (1u16 << n) && (1u16 << n) <= 256) by (bit_vector)
                requires
                    n <= 8,
            ;
        }
        self.bits == ((1u16 << n) - 1) as u8
    }
}

/// The generation-tagged ledger owned by one (asset, holder) pair.
#[derive(PartialEq, Eq, Debug)]
pub struct TokenGeneration {
    pub mint: AccountId,
    pub owner: AccountId,

    /// Tokens from direct issuance or the holder's own unshared allocation.
    pub gen1_balance: u64,
    /// Tokens received via a tracked peer share.
    pub gen2_balance: u64,
    /// Tokens that have exited referral tracking.
    pub dead_balance: u64,

    pub is_intermediary: bool,
    /// Set once when the holder is flagged intermediary; names the sender
    /// whose referrer identity is preserved across the hop.
    pub original_sender: Option<AccountId>,

    pub inbound_buffer: Vec<InboundEntry>,
    pub buffer_head: u8,
    pub buffer_pending: u8,

    pub referrer_slots: Vec<ReferrerSlot>,
    pub active_referrer_slots: u8,

    pub first_received_at: i64,
    pub last_received_at: i64,

    pub share_limit_day: u64,
    pub shares_today: u16,

    pub redemption_pending: bool,
    pub redemption_slot: u64,
    pub redemption_gen2_consumed: u64,
    pub redemption_slot_consumed: Vec<u64>,
    pub redemption_slots_settled: SlotBitset,

    pub is_treasury: bool,
    pub is_dex_pool: bool,
}

impl TokenGeneration {
    /// Structural well-formedness: the fixed-capacity arrays have their
    /// fixed sizes, the ring-buffer cursor and counters are in range, and
    /// every buffered referred entry names its referrer.
    pub open spec fn wf(self) -> bool {
        &&& self.inbound_buffer@.len() == INBOUND_BUFFER_SIZE
        &&& self.buffer_head < INBOUND_BUFFER_SIZE
        &&& self.buffer_pending <= INBOUND_BUFFER_SIZE
        &&& self.referrer_slots@.len() == MAX_REFERRER_SLOTS
        &&& self.redemption_slot_consumed@.len() == MAX_REFERRER_SLOTS
        &&& self.active_referrer_slots <= MAX_REFERRER_SLOTS
        &&& forall|i: int| 0 <= i < self.inbound_buffer@.len()
            ==> #[trigger] self.inbound_buffer@[i].well_tagged()
    }

    /// The holder's whole balance across all three buckets.
    pub open spec fn total(self) -> int {
        self.gen1_balance + self.gen2_balance + self.dead_balance
    }

    /// Computes the whole balance, wide enough that it cannot overflow.
    pub fn total_balance(&self) -> (r: u128)
        ensures
            r == self.total(),
    {
        self.gen1_balance as u128 + self.gen2_balance as u128 + self.dead_balance as u128
    }

    /// The two ledgers agree on everything but the three balance buckets.
    pub open spec fn same_except_balances(self, other: TokenGeneration) -> bool {
        &&& self.eq_identity(other)
        &&& self.eq_buffer(other)
        &&& self.eq_slots(other)
        &&& self.eq_session(other)
        &&& self.eq_timestamps(other)
        &&& self.eq_share_counters(other)
    }

    pub open spec fn eq_identity(self, other: TokenGeneration) -> bool {
        &&& self.mint == other.mint
        &&& self.owner == other.owner
        &&& self.is_intermediary == other.is_intermediary
        &&& self.original_sender == other.original_sender
        &&& self.is_treasury == other.is_treasury
        &&& self.is_dex_pool == other.is_dex_pool
    }

    pub open spec fn eq_balances(self, other: TokenGeneration) -> bool {
        &&& self.gen1_balance == other.gen1_balance
        &&& self.gen2_balance == other.gen2_balance
        &&& self.dead_balance == other.dead_balance
    }

    pub open spec fn eq_buffer(self, other: TokenGeneration) -> bool {
        &&& self.inbound_buffer@ == other.inbound_buffer@
        &&& self.buffer_head == other.buffer_head
        &&& self.buffer_pending == other.buffer_pending
    }

    pub open spec fn eq_slots(self, other: TokenGeneration) -> bool {
        &&& self.referrer_slots@ == other.referrer_slots@
        &&& self.active_referrer_slots == other.active_referrer_slots
    }

    pub open spec fn eq_session(self, other: TokenGeneration) -> bool {
        &&& self.redemption_pending == other.redemption_pending
        &&& self.redemption_slot == other.redemption_slot
        &&& self.redemption_gen2_consumed == other.redemption_gen2_consumed
        &&& self.redemption_slot_consumed@ == other.redemption_slot_consumed@
        &&& self.redemption_slots_settled == other.redemption_slots_settled
    }

    pub open spec fn eq_timestamps(self, other: TokenGeneration) -> bool {
        &&& self.first_received_at == other.first_received_at
        &&& self.last_received_at == other.last_received_at
    }

    pub open spec fn eq_share_counters(self, other: TokenGeneration) -> bool {
        &&& self.share_limit_day == other.share_limit_day
        &&& self.shares_today == other.shares_today
    }

    /// A freshly created ledger: everything cleared, identity set.
    pub open spec fn is_fresh(self, mint: AccountId, owner: AccountId, treasury: bool) -> bool {
        &&& self.wf()
        &&& self.mint == mint
        &&& self.owner == owner
        &&& self.gen1_balance == (if treasury {
            u64::MAX
        } else {
            0u64
        })
        &&& self.gen2_balance == 0
        &&& self.dead_balance == 0
        &&& self.is_intermediary == false
        &&& self.original_sender is None
        &&& (forall|i: int| 0 <= i < self.inbound_buffer@.len()
            ==> #[trigger] self.inbound_buffer@[i] == InboundEntry::spec_empty())
        &&& self.buffer_head == 0
        &&& self.buffer_pending == 0
        &&& (forall|i: int| 0 <= i < self.referrer_slots@.len()
            ==> #[trigger] self.referrer_slots@[i] == ReferrerSlot::spec_empty())
        &&& self.active_referrer_slots == 0
        &&& self.first_received_at == 0
        &&& self.last_received_at == 0
        &&& self.share_limit_day == 0
        &&& self.shares_today == 0
        &&& self.redemption_pending == false
        &&& self.redemption_slot == 0
        &&& self.redemption_gen2_consumed == 0
        &&& (forall|i: int| 0 <= i < self.redemption_slot_consumed@.len()
            ==> #[trigger] self.redemption_slot_consumed@[i] == 0)
        &&& self.redemption_slots_settled == SlotBitset::spec_none_set()
        &&& self.is_treasury == treasury
        &&& self.is_dex_pool == false
    }

    /// Creates the ledger for one (asset, holder) pair, all buckets empty.
    pub fn init_token_generation(mint: AccountId, owner: AccountId) -> (g: TokenGeneration)
        ensures
            g.is_fresh(mint, owner, false),
    {
        TokenGeneration::fresh(mint, owner, false)
    }

    /// Creates the treasury's ledger: flagged as treasury, with a primary
    /// balance large enough that payouts never drain it.
    pub fn init_treasury_token_generation(mint: AccountId, owner: AccountId) -> (g:
        TokenGeneration)
        ensures
            g.is_fresh(mint, owner, true),
    {
        TokenGeneration::fresh(mint, owner, true)
    }

    fn fresh(mint: AccountId, owner: AccountId, treasury: bool) -> (g: TokenGeneration)
        ensures
            g.is_fresh(mint, owner, treasury),
    {
        let mut buffer: Vec<InboundEntry> = Vec::new();
        let mut i: usize = 0;
        while i < INBOUND_BUFFER_SIZE
            invariant
                i <= INBOUND_BUFFER_SIZE,
                buffer@.len() == i,
                forall|j: int| 0 <= j < i ==> #[trigger] buffer@[j] == InboundEntry::spec_empty(),
            decreases INBOUND_BUFFER_SIZE - i,
        {
            buffer.push(InboundEntry::empty());
            i = i + 1;
        }
        let mut slots: Vec<ReferrerSlot> = Vec::new();
        let mut j: usize = 0;
        while j < MAX_REFERRER_SLOTS
            invariant
                j <= MAX_REFERRER_SLOTS,
                slots@.len() == j,
                forall|k: int| 0 <= k < j ==> #[trigger] slots@[k] == ReferrerSlot::spec_empty(),
            decreases MAX_REFERRER_SLOTS - j,
        {
            slots.push(ReferrerSlot::empty());
            j = j + 1;
        }
        let mut consumed: Vec<u64> = Vec::new();
        let mut k: usize = 0;
        while k < MAX_REFERRER_SLOTS
            invariant
                k <= MAX_REFERRER_SLOTS,
                consumed@.len() == k,
                forall|m: int| 0 <= m < k ==> #[trigger] consumed@[m] == 0,
            decreases MAX_REFERRER_SLOTS - k,
        {
            consumed.push(0);
            k = k + 1;
        }
        TokenGeneration {
            mint,
            owner,
            gen1_balance: if treasury {
                u64::MAX
            } else {
                0
            },
            gen2_balance: 0,
            dead_balance: 0,
            is_intermediary: false,
            original_sender: Option::None,
            inbound_buffer: buffer,
            buffer_head: 0,
            buffer_pending: 0,
            referrer_slots: slots,
            active_referrer_slots: 0,
            first_received_at: 0,
            last_received_at: 0,
            share_limit_day: 0,
            shares_today: 0,
            redemption_pending: false,
            redemption_slot: 0,
            redemption_gen2_consumed: 0,
            redemption_slot_consumed: consumed,
            redemption_slots_settled: SlotBitset::none_set(),
            is_treasury: treasury,
            is_dex_pool: false,
        }
    }
}

/// How much of a FIFO deduction of `amount` comes out of the primary bucket.
pub open spec fn take_gen1(g: TokenGeneration, amount: u64) -> int {
    if amount <= g.gen1_balance {
        amount as int
    } else {
        g.gen1_balance as int
    }
}

/// How much of a FIFO deduction of `amount` comes out of the referred bucket.
pub open spec fn take_gen2(g: TokenGeneration, amount: u64) -> int {
    let rest = amount - take_gen1(g, amount);
    if rest <= g.gen2_balance {
        rest
    } else {
        g.gen2_balance as int
    }
}

/// How much of a FIFO deduction of `amount` comes out of the inert bucket.
pub open spec fn take_dead(g: TokenGeneration, amount: u64) -> int {
    amount - take_gen1(g, amount) - take_gen2(g, amount)
}

/// The ledger after a FIFO deduction succeeded: buckets drained
/// primary, then referred, then inert; nothing else touched.
pub open spec fn fifo_deducted(pre: TokenGeneration, post: TokenGeneration, amount: u64) -> bool {
    &&& post.gen1_balance == pre.gen1_balance - take_gen1(pre, amount)
    &&& post.gen2_balance == pre.gen2_balance - take_gen2(pre, amount)
    &&& post.dead_balance == pre.dead_balance - take_dead(pre, amount)
    &&& pre.same_except_balances(post)
}

impl TokenGeneration {
    /// Appends one staged attribution at the ring-buffer head. A full
    /// buffer refuses the write and leaves the ledger untouched; the
    /// caller degrades the value to the inert bucket instead.
    pub fn write_inbound(&mut self, entry: InboundEntry) -> (r: Result<(), ViralSyncError>)
        requires
            old(self).wf(),
            entry.well_tagged(),
        ensures
            final(self).wf(),
            old(self).buffer_pending >= INBOUND_BUFFER_SIZE ==> r == Result::<
                (),
                ViralSyncError,
            >::Err(ViralSyncError::InboundBufferOverflow) && *final(self) == *old(self),
            old(self).buffer_pending < INBOUND_BUFFER_SIZE ==> {
                &&& r is Ok
                &&& final(self).inbound_buffer@ == old(self).inbound_buffer@.update(
                    old(self).buffer_head as int,
                    entry,
                )
                &&& final(self).buffer_head == (old(self).buffer_head + 1) % (
                INBOUND_BUFFER_SIZE as int)
                &&& final(self).buffer_pending == old(self).buffer_pending + 1
                &&& final(self).eq_balances(*old(self))
                &&& final(self).eq_identity(*old(self))
                &&& final(self).eq_slots(*old(self))
                &&& final(self).eq_session(*old(self))
                &&& final(self).eq_timestamps(*old(self))
                &&& final(self).eq_share_counters(*old(self))
            },
    {
        if self.buffer_pending >= INBOUND_BUFFER_SIZE as u8 {
            return Result::Err(ViralSyncError::InboundBufferOverflow);
        }
        let idx: usize = self.buffer_head as usize;
        self.inbound_buffer.set(idx, entry);
        self.buffer_head = (self.buffer_head + 1) % (INBOUND_BUFFER_SIZE as u8);
        self.buffer_pending = self.buffer_pending + 1;
        Result::Ok(())
    }

    /// Drains `amount` from the buckets in FIFO order (primary, then
    /// referred, then inert) and reports the exact breakdown taken from
    /// each bucket. An insufficient balance rejects the deduction whole.
    pub fn deduct_with_breakdown(&mut self, amount: u64) -> (r: Result<
        (u64, u64, u64),
        ViralSyncError,
    >)
        requires
            old(self).wf(),
        ensures
            final(self).wf(),
            old(self).total() < amount ==> r == Result::<(u64, u64, u64), ViralSyncError>::Err(
                ViralSyncError::InsufficientBalance,
            ) && *final(self) == *old(self),
            old(self).total() >= amount ==> {
                &&& r == Result::<(u64, u64, u64), ViralSyncError>::Ok(
                    (
                        take_gen1(*old(self), amount) as u64,
                        take_gen2(*old(self), amount) as u64,
                        take_dead(*old(self), amount) as u64,
                    ),
                )
                &&& fifo_deducted(*old(self), *final(self), amount)
            },
    {
        let total = self.total_balance();
        if total < amount as u128 {
            return Result::Err(ViralSyncError::InsufficientBalance);
        }
        let from_gen1: u64 = if amount <= self.gen1_balance {
            amount
        } else {
            self.gen1_balance
        };
        let rest: u64 = amount - from_gen1;
        let from_gen2: u64 = if rest <= self.gen2_balance {
            rest
        } else {
            self.gen2_balance
        };
        let from_dead: u64 = rest - from_gen2;
        self.gen1_balance = self.gen1_balance - from_gen1;
        self.gen2_balance = self.gen2_balance - from_gen2;
        self.dead_balance = self.dead_balance - from_dead;
        Result::Ok((from_gen1, from_gen2, from_dead))
    }

    /// FIFO deduction where the caller does not need the breakdown.
    pub fn fifo_deduct(&mut self, amount: u64) -> (r: Result<(), ViralSyncError>)
        requires
            old(self).wf(),
        ensures
            final(self).wf(),
            old(self).total() < amount ==> r == Result::<(), ViralSyncError>::Err(
                ViralSyncError::InsufficientBalance,
            ) && *final(self) == *old(self),
            old(self).total() >= amount ==> r is Ok && fifo_deducted(
                *old(self),
                *final(self),
                amount,
            ),
    {
        match self.deduct_with_breakdown(amount) {
            Result::Ok(_) => Result::Ok(()),
            Result::Err(e) => Result::Err(e),
        }
    }

    /// FIFO deduction that reports how much referred value was consumed —
    /// the figure a redemption session apportions across referrer slots.
    pub fn fifo_deduct_redemption(&mut self, amount: u64) -> (r: Result<u64, ViralSyncError>)
        requires
            old(self).wf(),
        ensures
            final(self).wf(),
            old(self).total() < amount ==> r == Result::<u64, ViralSyncError>::Err(
                ViralSyncError::InsufficientBalance,
            ) && *final(self) == *old(self),
            old(self).total() >= amount ==> {
                &&& r == Result::<u64, ViralSyncError>::Ok(take_gen2(*old(self), amount) as u64)
                &&& fifo_deducted(*old(self), *final(self), amount)
            },
    {
        match self.deduct_with_breakdown(amount) {
            Result::Ok((_, from_gen2, _)) => Result::Ok(from_gen2),
            Result::Err(e) => Result::Err(e),
        }
    }
}

/// How much of a reverse-order burn of `amount` comes out of the inert bucket.
pub open spec fn burn_take_dead(g: TokenGeneration, amount: u64) -> int {
    if amount <= g.dead_balance {
        amount as int
    } else {
        g.dead_balance as int
    }
}

/// How much of a reverse-order burn of `amount` comes out of the referred bucket.
pub open spec fn burn_take_gen2(g: TokenGeneration, amount: u64) -> int {
    let rest = amount - burn_take_dead(g, amount);
    if rest <= g.gen2_balance {
        rest
    } else {
        g.gen2_balance as int
    }
}

/// How much of a reverse-order burn of `amount` comes out of the primary bucket.
pub open spec fn burn_take_gen1(g: TokenGeneration, amount: u64) -> int {
    amount - burn_take_dead(g, amount) - burn_take_gen2(g, amount)
}

/// Burns `amount` from the ledger in reverse FIFO order: inert first, then
/// referred, then primary, so tracked value is kept as long as possible.
/// The host destroys the underlying tokens only after this succeeds.
pub fn burn_tokens(gen: &mut TokenGeneration, amount: u64) -> (r: Result<(), ViralSyncError>)
    requires
        old(gen).wf(),
    ensures
        final(gen).wf(),
        old(gen).total() < amount ==> r == Result::<(), ViralSyncError>::Err(
            ViralSyncError::InsufficientBalance,
        ) && *final(gen) == *old(gen),
        old(gen).total() >= amount ==> {
            &&& r is Ok
            &&& final(gen).dead_balance == old(gen).dead_balance - burn_take_dead(*old(gen), amount)
            &&& final(gen).gen2_balance == old(gen).gen2_balance - burn_take_gen2(
                *old(gen),
                amount,
            )
            &&& final(gen).gen1_balance == old(gen).gen1_balance - burn_take_gen1(
                *old(gen),
                amount,
            )
            &&& old(gen).same_except_balances(*final(gen))
            &&& final(gen).total() == old(gen).total() - amount
        },
{
    let total = gen.total_balance();
    if total < amount as u128 {
        return Result::Err(ViralSyncError::InsufficientBalance);
    }
    let from_dead: u64 = if amount <= gen.dead_balance {
        amount
    } else {
        gen.dead_balance
    };
    let remaining: u64 = amount - from_dead;
    let from_gen2: u64 = if remaining <= gen.gen2_balance {
        remaining
    } else {
        gen.gen2_balance
    };
    let from_gen1: u64 = remaining - from_gen2;
    gen.dead_balance = gen.dead_balance - from_dead;
    gen.gen2_balance = gen.gen2_balance - from_gen2;
    gen.gen1_balance = gen.gen1_balance - from_gen1;
    Result::Ok(())
}

} // verus!
