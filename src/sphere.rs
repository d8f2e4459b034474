//! The decision of a ray-sphere intersection: which root of the quadratic
//! counts as the hit.
use vstd::prelude::*;

verus! {

/// One of the two roots of the intersection quadratic.
#[derive(Clone, Copy, Debug, PartialEq, Eq, Structural)]
pub enum Root {
    /// The smaller root, `(-b - sqrt(d)) / 2a`.
    Near,
    /// The larger root, `(-b + sqrt(d)) / 2a`.
    Far,
}

/// What a sphere reports about a ray, from three facts: whether the
/// discriminant is negative, and whether each root lies in `[t_min, t_max]`.
pub open spec fn root_choice(discriminant_negative: bool, near_in_range: bool, far_in_range: bool) -> Option<Root> {
    if discriminant_negative {
        None
    } else if near_in_range {
        Some(Root::Near)
    } else if far_in_range {
        Some(Root::Far)
    } else {
        None
    }
}

/// Which root is the hit: none when the discriminant is negative; else the
/// near root when it is in range, else the far root when that one is; else
/// none.
pub fn choose_root(discriminant_negative: bool, near_in_range: bool, far_in_range: bool) -> (r: Option<Root>)
    ensures
        r == root_choice(discriminant_negative, near_in_range, far_in_range),
        !near_in_range && !far_in_range ==> r is None,
{
    if discriminant_negative {
        None
    } else if near_in_range {
        Some(Root::Near)
    } else if far_in_range {
        Some(Root::Far)
    } else {
        None
    }
}

} // verus!
