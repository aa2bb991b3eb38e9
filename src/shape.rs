use vstd::prelude::*;
use crate::key::{ZERO_KEY, non_negative, positive};

verus! {

/// Where a ray meets a sphere, given the squared distance from the centre to
/// the ray's line, the squared radius and the two parameters at which the
/// line crosses the sphere: no hit when the line passes outside the sphere,
/// else the nearer crossing that is not behind the ray's origin, if any.
pub open spec fn sphere_hit_spec(perp_sq: u64, radius_sq: u64, t0: u64, t1: u64) -> Option<u64> {
    let near = if t0 <= t1 { t0 } else { t1 };
    let far = if t0 <= t1 { t1 } else { t0 };
    if perp_sq > radius_sq {
        None
    } else if !non_negative(near) && !non_negative(far) {
        None
    } else if non_negative(near) {
        Some(near)
    } else {
        Some(far)
    }
}

/// Distance along the ray to a sphere, from the quantities described at
/// `sphere_hit_spec`: the ray's origin may lie inside the sphere, and then the
/// far crossing is the hit.
pub fn sphere_hit(perp_sq: u64, radius_sq: u64, t0: u64, t1: u64) -> (r: Option<u64>)
    ensures
        r == sphere_hit_spec(perp_sq, radius_sq, t0, t1),
{
    if perp_sq > radius_sq {
        return None;
    }
    let mut near = t0;
    let mut far = t1;
    if near > far {
        let tmp = near;
        near = far;
        far = tmp;
    }
    if near < ZERO_KEY && far < ZERO_KEY {
        None
    } else if near >= ZERO_KEY {
        Some(near)
    } else {
        Some(far)
    }
}

/// A ray whose line passes farther from the centre than the radius misses the
/// sphere; any other ray hits it at a distance of zero or more, unless both
/// crossings lie behind its origin.
pub proof fn lemma_sphere_hit_distance(perp_sq: u64, radius_sq: u64, t0: u64, t1: u64)
    ensures
        perp_sq > radius_sq ==> sphere_hit_spec(perp_sq, radius_sq, t0, t1) is None,
        perp_sq <= radius_sq && (non_negative(t0) || non_negative(t1)) ==> {
            &&& sphere_hit_spec(perp_sq, radius_sq, t0, t1) is Some
            &&& non_negative(sphere_hit_spec(perp_sq, radius_sq, t0, t1)->0)
        },
        perp_sq <= radius_sq && !non_negative(t0) && !non_negative(t1)
            ==> sphere_hit_spec(perp_sq, radius_sq, t0, t1) is None,
{
}

/// Where a ray meets a one-sided plane, given `denom`, the dot product of the
/// plane's normal with the ray's direction, and `distance`, the parameter at
/// which the ray's line crosses the plane: a hit only when the normal faces
/// along the ray and the crossing is not behind the ray's origin.
pub open spec fn plane_hit_spec(denom: u64, distance: u64) -> Option<u64> {
    if positive(denom) && non_negative(distance) {
        Some(distance)
    } else {
        None
    }
}

/// Distance along the ray to a plane, from the quantities described at
/// `plane_hit_spec`.
pub fn plane_hit(denom: u64, distance: u64) -> (r: Option<u64>)
    ensures
        r == plane_hit_spec(denom, distance),
{
    if denom > ZERO_KEY {
        if distance >= ZERO_KEY {
            return Some(distance);
        }
    }
    None
}

/// A plane is never hit by a ray whose direction does not point along the
/// plane's normal, however far the plane lies.
pub proof fn lemma_plane_one_sided(denom: u64, distance: u64)
    ensures
        !positive(denom) ==> plane_hit_spec(denom, distance) is None,
{
}

} // verus!
