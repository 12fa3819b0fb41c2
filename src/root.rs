//! Which root of the ray/sphere quadratic a hit uses.
//!
//! A ray `O + tD` meets a sphere of center `C` and radius `r` where
//! `|O + tD - C|² = r²`. With `a = D·D`, `half_b = (O - C)·D` and
//! `c = |O - C|² - r²`, the discriminant is `half_b² - a·c`; when it is not
//! negative the roots are `(-half_b ∓ √Δ) / a`, the near one first. A hit
//! is reported only for a root inside the caller's interval of
//! distances, and the near root wins whenever it qualifies.

use vstd::prelude::*;

verus! {

/// One of the two roots of the intersection quadratic.
#[derive(Clone, Copy, Debug, PartialEq, Eq, Structural)]
pub enum Root {
    /// `(-half_b - √Δ) / a`, the nearer distance along the ray.
    Near,
    /// `(-half_b + √Δ) / a`, the farther distance along the ray.
    Far,
}

/// The root a hit uses, given whether the discriminant is negative and
/// whether each root lies inside the interval of valid distances.
pub open spec fn root_choice(discriminant_negative: bool, near_inside: bool, far_inside: bool)
    -> Option<Root>
{
    if discriminant_negative {
        None
    } else if near_inside {
        Some(Root::Near)
    } else if far_inside {
        Some(Root::Far)
    } else {
        None
    }
}

/// Picks the root of a ray/sphere intersection, or `None` for a miss.
pub fn choose_root(discriminant_negative: bool, near_inside: bool, far_inside: bool)
    -> (r: Option<Root>)
    ensures
        r == root_choice(discriminant_negative, near_inside, far_inside),
        r is None <==> (discriminant_negative || (!near_inside && !far_inside)),
{
    if discriminant_negative {
        return None;
    }
    if near_inside {
        Some(Root::Near)
    } else if far_inside {
        Some(Root::Far)
    } else {
        None
    }
}

/// A reported hit always lies inside the interval it was asked for: the
/// root chosen is one that was found inside, and a negative discriminant
/// never yields a hit.
pub proof fn lemma_hit_inside_interval(
    discriminant_negative: bool,
    near_inside: bool,
    far_inside: bool,
)
    ensures
        root_choice(discriminant_negative, near_inside, far_inside) == Some(Root::Near)
            ==> near_inside && !discriminant_negative,
        root_choice(discriminant_negative, near_inside, far_inside) == Some(Root::Far)
            ==> far_inside && !discriminant_negative,
{
}

/// The nearer root is preferred: when it lies inside the interval it is the
/// one reported, whatever the farther root does.
pub proof fn lemma_near_root_preferred(near_inside: bool, far_inside: bool)
    requires
        near_inside,
    ensures
        root_choice(false, near_inside, far_inside) == Some(Root::Near),
{
}

} // verus!
