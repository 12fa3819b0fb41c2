//! The scattering rules of the three materials.
//!
//! A material receives a hit and the incoming ray and either absorbs the ray
//! or sends out a new one. The vector arithmetic belongs to the caller; what
//! each material decides from its results is stated here.

use vstd::prelude::*;

verus! {

/// The closed set of materials.
#[derive(Clone, Copy, Debug, PartialEq, Eq, Structural)]
pub enum MaterialKind {
    /// Diffuse: scatters around the normal, attenuated by its albedo.
    Lambertian,
    /// Reflective with fuzz: mirrors the ray, attenuated by its albedo.
    Metal,
    /// Refractive: reflects or refracts, with no loss of color.
    Dielectric,
}

/// What the caller measured at one scattering event. Each material reads
/// only its own fields.
#[derive(Clone, Copy, Debug, PartialEq, Eq, Structural)]
pub struct ScatterFacts {
    /// Lambertian: `normal + random_unit_vector()` is below the near-zero
    /// threshold on at least one axis.
    pub sample_near_zero: bool,
    /// Metal: the fuzzed reflection has a positive dot product with the normal.
    pub leaves_surface: bool,
    /// Dielectric: `ratio * sin_theta > 1`, so Snell's law has no solution.
    pub total_internal_reflection: bool,
    /// Dielectric: Schlick's reflectance exceeded a fresh uniform draw.
    pub fresnel_reflects: bool,
}

/// The outcome of one scattering event.
#[derive(Clone, Copy, Debug, PartialEq, Eq, Structural)]
pub enum Scatter {
    /// The ray is absorbed: the path contributes black.
    Absorbed,
    /// A new ray along `normal + random_unit_vector()`.
    Diffuse,
    /// A new ray along the bare normal, in place of a degenerate sample.
    AlongNormal,
    /// A new ray along the (fuzzed, for metal) mirror reflection.
    Reflect,
    /// A new ray along the refracted direction.
    Refract,
}

/// The outcome for a material given the facts of the event.
pub open spec fn scatter_rule(kind: MaterialKind, facts: ScatterFacts) -> Scatter {
    match kind {
        MaterialKind::Lambertian => if facts.sample_near_zero {
            Scatter::AlongNormal
        } else {
            Scatter::Diffuse
        },
        MaterialKind::Metal => if facts.leaves_surface {
            Scatter::Reflect
        } else {
            Scatter::Absorbed
        },
        MaterialKind::Dielectric => if facts.total_internal_reflection
            || facts.fresnel_reflects {
            Scatter::Reflect
        } else {
            Scatter::Refract
        },
    }
}

impl MaterialKind {
    /// Decides how this material scatters an incoming ray.
    pub fn scatter(&self, facts: &ScatterFacts) -> (r: Scatter)
        ensures
            r == scatter_rule(*self, *facts),
    {
        match self {
            MaterialKind::Lambertian => {
                if facts.sample_near_zero {
                    Scatter::AlongNormal
                } else {
                    Scatter::Diffuse
                }
            },
            MaterialKind::Metal => {
                if facts.leaves_surface {
                    Scatter::Reflect
                } else {
                    Scatter::Absorbed
                }
            },
            MaterialKind::Dielectric => {
                if facts.total_internal_reflection || facts.fresnel_reflects {
                    Scatter::Reflect
                } else {
                    Scatter::Refract
                }
            },
        }
    }

    /// True when the scattered ray is attenuated by the material's albedo;
    /// false for a dielectric, which attenuates by white.
    pub fn uses_albedo(&self) -> (r: bool)
        ensures
            r == (*self != MaterialKind::Dielectric),
    {
        match self {
            MaterialKind::Dielectric => false,
            _ => true,
        }
    }
}

/// Only a metal ever absorbs, and it does so exactly when its fuzzed
/// reflection does not leave the surface; diffuse and refractive materials
/// always scatter.
pub proof fn lemma_absorption(kind: MaterialKind, facts: ScatterFacts)
    ensures
        kind == MaterialKind::Lambertian ==> scatter_rule(kind, facts) != Scatter::Absorbed,
        kind == MaterialKind::Dielectric ==> scatter_rule(kind, facts) != Scatter::Absorbed,
        kind == MaterialKind::Metal ==> (scatter_rule(kind, facts) == Scatter::Absorbed
            <==> !facts.leaves_surface),
{
}

/// A dielectric facing total internal reflection reflects, whatever the
/// Fresnel draw was.
pub proof fn lemma_total_internal_reflection_reflects(facts: ScatterFacts)
    requires
        facts.total_internal_reflection,
    ensures
        scatter_rule(MaterialKind::Dielectric, facts) == Scatter::Reflect,
{
}

} // verus!
