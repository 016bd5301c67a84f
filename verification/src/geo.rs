//! Geofenced redemption: validates an attested location against a
//! merchant's registered fence with coarse integer geometry.

use vstd::prelude::*;
use vstd::arithmetic::div_mod::lemma_div_nonincreasing;
use vstd::arithmetic::mul::lemma_mul_upper_bound;
use crate::types::AccountId;
use crate::errors::ViralSyncError;

verus! {

pub const ATTESTATION_SERVER_SLOTS: usize = 4;

/// Meters per degree of latitude, scaled for micro-degree inputs.
pub const METERS_PER_DEGREE: u64 = 111_320;

/// One registered geofence around a merchant's settlement vault. Any of
/// the registered attestation servers may attest a redeemer's location.
#[derive(PartialEq, Eq, Debug)]
pub struct GeoFence {
    pub vault: AccountId,
    pub merchant: AccountId,
    pub lat_micro: i32,
    pub lng_micro: i32,
    pub radius_meters: u32,
    pub is_active: bool,

    pub attestation_server_count: u8,
    pub attestation_servers: Vec<AccountId>,

    pub allow_non_geo_redemption: bool,
    pub non_geo_commission_penalty_bps: u16,
}

impl GeoFence {
    /// The fixed attestation-server array has its fixed size.
    pub open spec fn wf(self) -> bool {
        self.attestation_servers@.len() == ATTESTATION_SERVER_SLOTS
    }
}

/// The absolute difference of two micro-degree coordinates.
pub open spec fn abs_delta_micro(a: i32, b: i32) -> int {
    if a >= b {
        a - b
    } else {
        b - a
    }
}

/// A micro-degree delta converted to whole meters.
pub open spec fn delta_meters(a: i32, b: i32) -> int {
    (abs_delta_micro(a, b) * METERS_PER_DEGREE) / 1_000_000
}

/// The squared planar distance, in square meters, between the attested
/// point and the fence's center.
pub open spec fn geo_dist_sq(fence: GeoFence, lat_micro: i32, lng_micro: i32) -> int {
    let dlat = delta_meters(lat_micro, fence.lat_micro);
    let dlng = delta_meters(lng_micro, fence.lng_micro);
    dlat * dlat + dlng * dlng
}

/// The registered server count, clamped to the array's capacity.
pub open spec fn clamped_server_count(fence: GeoFence) -> int {
    if fence.attestation_server_count <= ATTESTATION_SERVER_SLOTS {
        fence.attestation_server_count as int
    } else {
        ATTESTATION_SERVER_SLOTS as int
    }
}

/// Whether `server` is among the fence's registered attestation servers.
pub open spec fn server_allowed(fence: GeoFence, server: AccountId) -> bool {
    exists|i: int|
        0 <= i < clamped_server_count(fence) && #[trigger] fence.attestation_servers@[i] == server
}

/// Validates a redemption's location gate: an inactive fence rejects;
/// an empty signature passes only where the merchant allows non-geo
/// redemption; otherwise the signature must have the attestation shape,
/// its server must have signed and be registered, and the attested point
/// must lie within the fence's radius.
pub fn redeem_with_geo(
    fence: &GeoFence,
    lat_micro: i32,
    lng_micro: i32,
    signature: &Vec<u8>,
    attestation_server: AccountId,
    attestation_is_signer: bool,
) -> (r: Result<(), ViralSyncError>)
    requires
        fence.wf(),
    ensures
        !fence.is_active ==> r == Result::<(), ViralSyncError>::Err(ViralSyncError::TokensExpired),
        fence.is_active && signature@.len() == 0 ==> r == (if fence.allow_non_geo_redemption {
            Result::<(), ViralSyncError>::Ok(())
        } else {
            Result::<(), ViralSyncError>::Err(ViralSyncError::TokensExpired)
        }),
        fence.is_active && signature@.len() > 0 && signature@.len() != 64 ==> r == Result::<
            (),
            ViralSyncError,
        >::Err(ViralSyncError::InvalidSignature),
        fence.is_active && signature@.len() == 64 && !attestation_is_signer ==> r == Result::<
            (),
            ViralSyncError,
        >::Err(ViralSyncError::InvalidAttestation),
        fence.is_active && signature@.len() == 64 && attestation_is_signer && !server_allowed(
            *fence,
            attestation_server,
        ) ==> r == Result::<(), ViralSyncError>::Err(ViralSyncError::InvalidAttestation),
        fence.is_active && signature@.len() == 64 && attestation_is_signer && server_allowed(
            *fence,
            attestation_server,
        ) ==> r == (if geo_dist_sq(*fence, lat_micro, lng_micro) > fence.radius_meters
            * fence.radius_meters {
            Result::<(), ViralSyncError>::Err(ViralSyncError::OutsideGeoFence)
        } else {
            Result::<(), ViralSyncError>::Ok(())
        }),
{
    if !fence.is_active {
        return Result::Err(ViralSyncError::TokensExpired);
    }
    if signature.len() == 0 {
        if fence.allow_non_geo_redemption {
            return Result::Ok(());
        }
        return Result::Err(ViralSyncError::TokensExpired);
    }
    if signature.len() != 64 {
        return Result::Err(ViralSyncError::InvalidSignature);
    }
    if !attestation_is_signer {
        return Result::Err(ViralSyncError::InvalidAttestation);
    }
    let count: usize = if (fence.attestation_server_count as usize) <= ATTESTATION_SERVER_SLOTS {
        fence.attestation_server_count as usize
    } else {
        ATTESTATION_SERVER_SLOTS
    };
    let mut allowed: bool = false;
    let mut i: usize = 0;
    while i < count && !allowed
        invariant
            fence.wf(),
            count == clamped_server_count(*fence),
            i <= count,
            allowed ==> server_allowed(*fence, attestation_server),
            !allowed ==> forall|j: int|
                0 <= j < i ==> #[trigger] fence.attestation_servers@[j] != attestation_server,
        decreases count - i + (if allowed {
            0int
        } else {
            1int
        }),
    {
        if fence.attestation_servers[i].value == attestation_server.value {
            allowed = true;
        } else {
            i = i + 1;
        }
    }
    if !allowed {
        return Result::Err(ViralSyncError::InvalidAttestation);
    }
    let dlat: u64 = delta_meters_exec(lat_micro, fence.lat_micro);
    let dlng: u64 = delta_meters_exec(lng_micro, fence.lng_micro);
    proof {
        lemma_mul_upper_bound(dlat as int, 0xFFFF_FFFFint * 111_320, dlat as int, 0xFFFF_FFFFint * 111_320);
        lemma_mul_upper_bound(dlng as int, 0xFFFF_FFFFint * 111_320, dlng as int, 0xFFFF_FFFFint * 111_320);
    }
    let dist_sq: u128 = dlat as u128 * dlat as u128 + dlng as u128 * dlng as u128;
    proof {
        lemma_mul_upper_bound(
            fence.radius_meters as int,
            u32::MAX as int,
            fence.radius_meters as int,
            u32::MAX as int,
        );
    }
    let radius_sq: u128 = fence.radius_meters as u128 * fence.radius_meters as u128;
    if dist_sq > radius_sq {
        return Result::Err(ViralSyncError::OutsideGeoFence);
    }
    Result::Ok(())
}

/// Converts one micro-degree delta to whole meters, staying within the
/// 64-bit range for the whole 32-bit coordinate space.
fn delta_meters_exec(a: i32, b: i32) -> (r: u64)
    ensures
        r == delta_meters(a, b),
        r <= 0xFFFF_FFFFu64 * 111_320,
{
    let wide: i64 = a as i64 - b as i64;
    let ad: u64 = if wide >= 0 {
        wide as u64
    } else {
        (-wide) as u64
    };
    assert(ad == abs_delta_micro(a, b));
    assert(ad <= 0xFFFF_FFFFu64);
    proof {
        lemma_mul_upper_bound(ad as int, 0xFFFF_FFFFint, METERS_PER_DEGREE as int, 111_320);
        lemma_div_nonincreasing((ad * METERS_PER_DEGREE) as int, 1_000_000);
    }
    (ad * METERS_PER_DEGREE) / 1_000_000
}

} // verus!
