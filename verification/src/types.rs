//! Opaque identities shared by every record of the crate.

use vstd::prelude::*;

verus! {

/// An opaque on-ledger identity: a holder, merchant, referrer, vault,
/// asset mint or record address. The bookkeeping logic only ever compares
/// identities for equality, so one plain value is enough to stand for one.
#[derive(Clone, Copy, PartialEq, Eq, Structural, Debug)]
pub struct AccountId {
    pub value: u64,
}

/// How an inbound amount was obtained, as recorded in the inbound buffer.
#[derive(Clone, Copy, PartialEq, Eq, Structural, Debug)]
pub enum GenSource {
    /// Value that carries no referral attribution (pass-through or degraded).
    DeadPass,
    /// Value received through a tracked peer share, creditable to a referrer.
    ViralShare,
    /// Value issued directly by the merchant or paid out by the treasury.
    Issuance,
}

} // verus!
