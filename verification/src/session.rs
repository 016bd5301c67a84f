//! Delegated session keys: an ephemeral delegate a holder authorizes to
//! act on one generation ledger, bounded in time and spend.

use vstd::prelude::*;
use crate::types::AccountId;
use crate::errors::ViralSyncError;
use crate::holder::TokenGeneration;

verus! {

/// One delegated session: the holder's main wallet authorizes an
/// ephemeral delegate over one generation ledger until `expires_at`,
/// with a spend ceiling.
#[derive(Clone, Copy, PartialEq, Eq, Structural, Debug)]
pub struct SessionKey {
    /// The holder's main wallet.
    pub authority: AccountId,
    /// The generation ledger record this key acts on.
    pub target_generation: AccountId,
    /// The ephemeral key the holder stores locally.
    pub delegate: AccountId,
    pub expires_at: i64,
    pub max_tokens_per_session: u64,
    pub tokens_spent: u64,
    pub is_active: bool,
}

impl SessionKey {
    /// Whether the session may still act at time `now`.
    pub open spec fn spec_is_valid(self, now: i64) -> bool {
        self.is_active && self.expires_at > now
    }

    /// Decides whether the session may still act at time `now`.
    pub fn is_valid(&self, now: i64) -> (r: bool)
        ensures
            r == self.spec_is_valid(now),
    {
        self.is_active && self.expires_at > now
    }
}

/// Creates a session key: only the ledger's owner may delegate power
/// over it, and the session must expire in the future.
pub fn create_session_key(
    gen: &TokenGeneration,
    target_generation: AccountId,
    authority: AccountId,
    delegate: AccountId,
    expires_at: i64,
    max_tokens_per_session: u64,
    now: i64,
) -> (r: Result<SessionKey, ViralSyncError>)
    ensures
        gen.owner != authority ==> r == Result::<SessionKey, ViralSyncError>::Err(
            ViralSyncError::AccessDenied,
        ),
        gen.owner == authority && expires_at <= now ==> r == Result::<SessionKey, ViralSyncError>::Err(
            ViralSyncError::TokensExpired,
        ),
        gen.owner == authority && expires_at > now ==> r == Result::<SessionKey, ViralSyncError>::Ok(
            SessionKey {
                authority,
                target_generation,
                delegate,
                expires_at,
                max_tokens_per_session,
                tokens_spent: 0,
                is_active: true,
            },
        ),
{
    if gen.owner.value != authority.value {
        return Result::Err(ViralSyncError::AccessDenied);
    }
    if expires_at <= now {
        return Result::Err(ViralSyncError::TokensExpired);
    }
    Result::Ok(
        SessionKey {
            authority,
            target_generation,
            delegate,
            expires_at,
            max_tokens_per_session,
            tokens_spent: 0,
            is_active: true,
        },
    )
}

/// Revokes a session key: it can no longer act, whatever its expiry.
/// The host reclaims the record's storage afterwards.
pub fn revoke_session_key(session: &mut SessionKey)
    ensures
        *final(session) == (SessionKey { is_active: false, ..*old(session) }),
{
    session.is_active = false;
}

} // verus!
