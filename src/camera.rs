use vstd::prelude::*;

verus! {

/// A primary ray can be made for pixel `(x, y)` of a `width` by `height`
/// image: the image is at least as wide as it is high, and the pixel lies
/// within it (its far edges included).
pub open spec fn prime_ray_allowed_spec(width: u32, height: u32, x: u32, y: u32) -> bool {
    width >= height && x <= width && y <= height
}

/// Tells whether a primary ray may be made for pixel `(x, y)`; making one
/// where it may not is a programming error.
pub fn prime_ray_allowed(width: u32, height: u32, x: u32, y: u32) -> (r: bool)
    ensures
        r == prime_ray_allowed_spec(width, height, x, y),
{
    width >= height && x <= width && y <= height
}

} // verus!
