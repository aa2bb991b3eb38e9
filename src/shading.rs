use vstd::prelude::*;
use crate::color::{Color, sat_add};
use crate::key::{ZERO_KEY, positive};

verus! {

/// How shading a ray begins, before any light is looked at.
#[derive(Clone, Copy, Debug, PartialEq, Eq, Structural)]
pub enum Shading {
    /// The ray's colour is known: the sky where nothing was hit, black where
    /// the reflection budget is spent.
    Finished(Color),
    /// The hit point is to be lit by the scene's lights.
    Lit,
}

/// First step of shading: a ray that hit nothing shows the sky colour, a hit
/// whose bounce budget is spent is opaque black, and any other hit is lit.
pub open spec fn shading_spec(sky_color: Color, hit: bool, depth: u8, max_depth: u8) -> Shading {
    if !hit {
        Shading::Finished(sky_color)
    } else if depth >= max_depth {
        Shading::Finished(Color { r: 0, g: 0, b: 0, a: 255 })
    } else {
        Shading::Lit
    }
}

/// First step of shading a ray at recursion depth `depth`: a miss shows
/// `sky_color` as it is, a hit at or past `max_depth` is black, and any other
/// hit is lit.
pub fn start_shading(sky_color: Color, hit: bool, depth: u8, max_depth: u8) -> (r: Shading)
    ensures
        r == shading_spec(sky_color, hit, depth, max_depth),
        !hit ==> r == Shading::Finished(sky_color),
        hit && depth == max_depth ==> r == Shading::Finished(Color::black_spec()),
{
    if !hit {
        Shading::Finished(sky_color)
    } else if depth >= max_depth {
        Shading::Finished(Color::black())
    } else {
        Shading::Lit
    }
}

/// The shadow ray toward a light met something closer than the light.
pub open spec fn occluded(shadow_hit: Option<u64>, light_distance: u64) -> bool {
    match shadow_hit {
        Some(d) => d < light_distance,
        None => false,
    }
}

/// Brightness that a light gives a point: `brightness` where the shadow ray
/// toward it is clear, zero where `shadow_hit`, the distance to the nearest
/// thing the shadow ray met, is closer than the light itself.
pub fn light_brightness(brightness: u64, shadow_hit: Option<u64>, light_distance: u64) -> (r: u64)
    ensures
        occluded(shadow_hit, light_distance) ==> r == ZERO_KEY,
        !occluded(shadow_hit, light_distance) ==> r == brightness,
{
    match shadow_hit {
        Some(d) => {
            if d < light_distance {
                ZERO_KEY
            } else {
                brightness
            }
        },
        None => brightness,
    }
}

/// Depth at which the mirror reflection of a lit hit is shaded: one deeper,
/// where the material reflects at all, and none where it does not.
pub fn reflection_depth(reflectiveness: u64, depth: u8, max_depth: u8) -> (r: Option<u8>)
    requires
        depth < max_depth,
    ensures
        positive(reflectiveness) ==> r == Some((depth + 1) as u8),
        !positive(reflectiveness) ==> r is None,
        r matches Some(d) ==> depth < d <= max_depth,
{
    if reflectiveness > ZERO_KEY {
        Some(depth + 1)
    } else {
        None
    }
}

/// A lit hit's colour, opaque, stays opaque once the reflected colour is added
/// to it, whatever that colour's alpha.
pub proof fn lemma_lit_color_opaque(direct: Color, reflected: Color)
    requires
        direct.a == 255,
    ensures
        sat_add(direct, reflected).a == 255,
{
}

} // verus!
