//! Escrowed shares: a holder parks value with an intermediary that later
//! releases it transparently, preserving the original sender's referrer
//! identity across the hop. The asset movement itself runs through the
//! transfer classifier; these operations gate it and flag the escrow.

use vstd::prelude::*;
use crate::errors::ViralSyncError;
use crate::holder::TokenGeneration;

verus! {

/// Prepares an escrow ledger to receive a share from `source`: the first
/// share flags it as an intermediary bound to the source holder; later
/// shares must come from that same holder. The host performs the actual
/// transfer (which the classifier then sees with an intermediary
/// destination) only on `Ok`. On any error nothing changes.
pub fn create_escrow_share(
    source: &TokenGeneration,
    escrow: &mut TokenGeneration,
    amount: u64,
) -> (r: Result<(), ViralSyncError>)
    requires
        old(escrow).wf(),
    ensures
        final(escrow).wf(),
        r is Err ==> *final(escrow) == *old(escrow),
        amount == 0 ==> r == Result::<(), ViralSyncError>::Err(ViralSyncError::BelowMinimum),
        amount > 0 && old(escrow).is_intermediary && old(escrow).original_sender != Option::Some(
            source.owner,
        ) ==> r == Result::<(), ViralSyncError>::Err(ViralSyncError::InvalidAuthority),
        amount > 0 && old(escrow).is_intermediary && old(escrow).original_sender == Option::Some(
            source.owner,
        ) ==> r is Ok && *final(escrow) == *old(escrow),
        amount > 0 && !old(escrow).is_intermediary ==> {
            &&& r is Ok
            &&& final(escrow).is_intermediary == true
            &&& final(escrow).original_sender == Option::Some(source.owner)
            &&& final(escrow).eq_balances(*old(escrow))
            &&& final(escrow).eq_buffer(*old(escrow))
            &&& final(escrow).eq_slots(*old(escrow))
            &&& final(escrow).eq_session(*old(escrow))
            &&& final(escrow).eq_timestamps(*old(escrow))
            &&& final(escrow).eq_share_counters(*old(escrow))
            &&& final(escrow).mint == old(escrow).mint
            &&& final(escrow).owner == old(escrow).owner
            &&& final(escrow).is_treasury == old(escrow).is_treasury
            &&& final(escrow).is_dex_pool == old(escrow).is_dex_pool
        },
{
    if amount == 0 {
        return Result::Err(ViralSyncError::BelowMinimum);
    }
    if escrow.is_intermediary {
        let ok = match escrow.original_sender {
            Option::Some(s) => s.value == source.owner.value,
            Option::None => false,
        };
        if !ok {
            return Result::Err(ViralSyncError::InvalidAuthority);
        }
        return Result::Ok(());
    }
    escrow.is_intermediary = true;
    escrow.original_sender = Option::Some(source.owner);
    Result::Ok(())
}

/// Gates the release of an escrowed share to its destination: only a
/// flagged intermediary can release, and only a positive amount. The
/// host performs the transfer (an intermediary release to the
/// classifier) only on `Ok`.
pub fn claim_escrow(escrow: &TokenGeneration, amount: u64) -> (r: Result<(), ViralSyncError>)
    ensures
        amount == 0 ==> r == Result::<(), ViralSyncError>::Err(ViralSyncError::BelowMinimum),
        amount > 0 && !escrow.is_intermediary ==> r == Result::<(), ViralSyncError>::Err(
            ViralSyncError::InvalidAuthority,
        ),
        amount > 0 && escrow.is_intermediary ==> r is Ok,
{
    if amount == 0 {
        return Result::Err(ViralSyncError::BelowMinimum);
    }
    if !escrow.is_intermediary {
        return Result::Err(ViralSyncError::InvalidAuthority);
    }
    Result::Ok(())
}

} // verus!
