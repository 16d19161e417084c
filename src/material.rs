use vstd::prelude::*;

use crate::binary32::{Binary32, ONE_BITS};
use crate::vector::Vector3;

verus! {

/// A diffuse surface: it scatters every ray, tinted by its albedo.
#[derive(Clone, Copy, Debug)]
pub struct Lambertian {
    pub albedo: Vector3,
}

/// A rough mirror: it reflects rays, jittered by its roughness, and absorbs
/// those whose jittered reflection points into the surface.
#[derive(Clone, Copy, Debug)]
pub struct Metallic {
    pub albedo: Vector3,
    pub roughness: Binary32,
}

/// Clear glass with an index of refraction.
#[derive(Clone, Copy, Debug)]
pub struct Dielectric {
    pub ior: Binary32,
}

/// The scattering policy of a surface.
#[derive(Clone, Copy, Debug)]
pub enum Material {
    Lambertian(Lambertian),
    Metallic(Metallic),
    Dielectric(Dielectric),
}

/// The color factor a material applies to the light it scatters.
pub open spec fn attenuation_of(m: Material) -> Vector3 {
    match m {
        Material::Lambertian(l) => l.albedo,
        Material::Metallic(mm) => mm.albedo,
        Material::Dielectric(_) => Vector3 {
            x: Binary32 { bits: ONE_BITS },
            y: Binary32 { bits: ONE_BITS },
            z: Binary32 { bits: ONE_BITS },
        },
    }
}

impl Material {
    /// The attenuation of a scattered ray: the albedo of a diffuse or
    /// metallic surface, whatever the incoming ray; white for glass.
    pub fn attenuation(&self) -> (r: Vector3)
        ensures
            r == attenuation_of(*self),
    {
        match self {
            Material::Lambertian(l) => l.albedo,
            Material::Metallic(m) => m.albedo,
            Material::Dielectric(_) => Vector3::splat(Binary32::one()),
        }
    }
}

impl Metallic {
    /// Whether the jittered reflection leaves the surface, from its dot
    /// product with the surface normal: it does exactly when that product is
    /// positive; otherwise the ray is absorbed.
    pub fn scatters(normal_dot_out: Binary32) -> (r: bool)
        ensures
            r == normal_dot_out.spec_positive(),
    {
        normal_dot_out.is_positive()
    }
}

/// Whether Snell's law has a solution, from the discriminant
/// `1 - (ni/nt)^2 (1 - dt^2)`: there is none exactly when it is negative
/// (total internal reflection).
pub fn refraction_exists(discriminant: Binary32) -> (r: bool)
    ensures
        r == !discriminant.spec_below_zero(),
{
    !discriminant.is_below_zero()
}

/// What a dielectric does with a ray.
#[derive(Clone, Copy, Debug, PartialEq, Eq, Structural)]
pub enum Bounce {
    Reflect,
    Refract,
}

/// The choice a dielectric makes: reflect when no refraction exists, else
/// reflect when the uniform draw falls below the reflectance, else refract.
pub open spec fn dielectric_bounce(refracts: bool, draw: Binary32, reflectance: Binary32) -> Bounce {
    if !refracts || draw.spec_lt(reflectance) {
        Bounce::Reflect
    } else {
        Bounce::Refract
    }
}

impl Dielectric {
    /// Whether a ray leaves the medium (rather than enters it), from the dot
    /// product of its direction with the outward surface normal: it leaves
    /// exactly when that product is positive.
    pub fn leaving(dir_dot_normal: Binary32) -> (r: bool)
        ensures
            r == dir_dot_normal.spec_positive(),
    {
        dir_dot_normal.is_positive()
    }

    /// Chooses between reflection and refraction, given whether a refraction
    /// exists, a uniform draw from `[0, 1)` and the Schlick reflectance.
    pub fn bounce(refracts: bool, draw: Binary32, reflectance: Binary32) -> (r: Bounce)
        ensures
            r == dielectric_bounce(refracts, draw, reflectance),
            !refracts ==> r == Bounce::Reflect,
    {
        if !refracts || draw.lt(&reflectance) {
            Bounce::Reflect
        } else {
            Bounce::Refract
        }
    }
}

} // verus!
