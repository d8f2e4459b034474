//! How each kind of material decides what becomes of a ray that hits it.
use vstd::prelude::*;

verus! {

/// Where a scattered ray goes.
#[derive(Clone, Copy, Debug, PartialEq, Eq, Structural)]
pub enum Direction {
    /// The surface normal plus a random unit vector.
    Jittered,
    /// The surface normal itself.
    Normal,
    /// The mirror reflection of the incoming direction.
    Reflected,
    /// The incoming direction bent by Snell's law.
    Refracted,
}

/// A diffuse surface scatters along the normal plus a random unit vector,
/// unless that sum is near zero in every component: then along the normal.
/// It never absorbs.
pub fn diffuse_direction(jittered_near_zero: bool) -> (d: Direction)
    ensures
        d == (if jittered_near_zero { Direction::Normal } else { Direction::Jittered }),
{
    if jittered_near_zero {
        Direction::Normal
    } else {
        Direction::Jittered
    }
}

/// A metal surface sends the fuzzed reflection on only when it leaves the
/// surface (a positive dot product with the normal); otherwise the ray is
/// absorbed.
pub fn metal_direction(fuzzed_leaves_surface: bool) -> (d: Option<Direction>)
    ensures
        d == (if fuzzed_leaves_surface { Some(Direction::Reflected) } else { None::<Direction> }),
{
    if fuzzed_leaves_surface {
        Some(Direction::Reflected)
    } else {
        None
    }
}

/// A dielectric reflects when refraction is impossible (total internal
/// reflection) or when its reflectance exceeds a uniform random draw, and
/// refracts otherwise. It never absorbs.
pub fn dielectric_direction(cannot_refract: bool, reflectance_exceeds_draw: bool) -> (d: Direction)
    ensures
        d == (if cannot_refract || reflectance_exceeds_draw {
            Direction::Reflected
        } else {
            Direction::Refracted
        }),
{
    if cannot_refract || reflectance_exceeds_draw {
        Direction::Reflected
    } else {
        Direction::Refracted
    }
}

} // verus!
