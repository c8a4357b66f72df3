//! Surface materials and the decisions they take when a ray scatters.
//!
//! A material decides whether a ray leaves the surface and along which of
//! the directions that the caller has worked out for it; the directions
//! themselves, and the numbers the decision rests on, are the caller's.

use crate::scalar::Scalar;
use crate::scalar::ONE_BITS;
use crate::vec3::Color;
use crate::vec3::Vec3;
use crate::HitRecord;
use crate::Ray;
use vstd::prelude::*;

verus! {

/// What leaves a surface: the scattered ray and the share of light it keeps.
#[derive(Clone, Copy, Debug, PartialEq, Eq, Structural)]
pub struct ScatterResult {
    pub scattered: Ray,
    pub attenuation: Color,
}

/// A diffuse surface.
#[derive(Clone, Copy, Debug, PartialEq, Eq, Structural)]
pub struct Lambertian {
    pub albedo: Color,
}

/// A mirror, blurred by `fuzz`.
#[derive(Clone, Copy, Debug, PartialEq, Eq, Structural)]
pub struct Metal {
    pub albedo: Color,
    pub fuzz: Scalar,
}

/// A transparent, refracting surface.
#[derive(Clone, Copy, Debug, PartialEq, Eq, Structural)]
pub struct Dialectric {
    pub index_of_refraction: Scalar,
}

/// What the caller has worked out for a ray that meets a
/// [`Dialectric`]: the two directions it may take and the numbers that
/// choose between them.
#[derive(Clone, Copy, Debug, PartialEq, Eq, Structural)]
pub struct Bend {
    /// The refraction ratio times the sine of the angle of incidence.
    pub ratio_sine: Scalar,
    /// The share of light that is reflected at this angle.
    pub reflectance: Scalar,
    /// A number drawn uniformly from `[0, 1)`.
    pub sample: Scalar,
    pub reflected: Vec3,
    pub refracted: Vec3,
}

/// The closed set of materials.
#[derive(Clone, Copy, Debug, PartialEq, Eq, Structural)]
pub enum Material {
    Lambertian(Lambertian),
    Metal(Metal),
    Dialectric(Dialectric),
}

impl Lambertian {
    pub fn new(albedo: Color) -> (m: Lambertian)
        ensures
            m.albedo == albedo,
    {
        Lambertian { albedo }
    }

    /// The ray that leaves along `candidate`, or along the surface normal
    /// where `candidate` is too short to be a direction.
    pub open spec fn spec_scatter(self, rec: HitRecord, candidate: Vec3) -> Option<ScatterResult> {
        Some(
            ScatterResult {
                scattered: Ray {
                    orig: rec.p,
                    dir: if candidate.spec_near_zero() {
                        rec.normal
                    } else {
                        candidate
                    },
                },
                attenuation: self.albedo,
            },
        )
    }

    /// Scatters at `rec`. `candidate` is the normal plus a random unit
    /// vector. A diffuse surface absorbs nothing: the result is never `None`.
    pub fn scatter(&self, rec: &HitRecord, candidate: Vec3) -> (out: Option<ScatterResult>)
        ensures
            out == self.spec_scatter(*rec, candidate),
            out.is_some(),
    {
        let dir = if candidate.near_zero() {
            rec.normal
        } else {
            candidate
        };
        Some(ScatterResult { scattered: Ray::new(rec.p, dir), attenuation: self.albedo })
    }
}

impl Metal {
    /// Whether `fuzz` lies in `[0, 1]`.
    pub open spec fn valid(self) -> bool {
        !self.fuzz.nan() && !self.fuzz.spec_lt(Scalar { bits: 0 }) && !(Scalar {
            bits: ONE_BITS,
        }).spec_lt(self.fuzz)
    }

    pub fn new(albedo: Color, fuzz: Scalar) -> (m: Metal)
        ensures
            m.albedo == albedo,
            m.fuzz == fuzz,
    {
        Metal { albedo, fuzz }
    }

    /// The ray that leaves along `direction` where that points away from the
    /// surface, and nothing where it does not.
    pub open spec fn spec_scatter(
        self,
        rec: HitRecord,
        direction: Vec3,
        facing: Scalar,
    ) -> Option<ScatterResult> {
        if (Scalar { bits: 0 }).spec_lt(facing) {
            Some(
                ScatterResult {
                    scattered: Ray { orig: rec.p, dir: direction },
                    attenuation: self.albedo,
                },
            )
        } else {
            None
        }
    }

    /// Scatters at `rec`. `direction` is the mirrored direction plus `fuzz`
    /// times a random point of the unit ball, and `facing` its dot product
    /// with the normal. The ray is absorbed unless `facing > 0`.
    pub fn scatter(&self, rec: &HitRecord, direction: Vec3, facing: Scalar) -> (out: Option<
        ScatterResult,
    >)
        ensures
            out == self.spec_scatter(*rec, direction, facing),
    {
        if facing.gt(Scalar::zero()) {
            Some(ScatterResult { scattered: Ray::new(rec.p, direction), attenuation: self.albedo })
        } else {
            None
        }
    }
}

impl Bend {
    /// Whether the ray cannot refract: the ratio times the sine exceeds 1.
    pub open spec fn spec_cannot_refract(self) -> bool {
        (Scalar { bits: ONE_BITS }).spec_lt(self.ratio_sine)
    }

    /// Whether the ray is reflected: it cannot refract, or the reflectance
    /// exceeds the sample.
    pub open spec fn reflects(self) -> bool {
        self.spec_cannot_refract() || self.sample.spec_lt(self.reflectance)
    }
}

impl Dialectric {
    /// Whether the index of refraction is above 0.
    pub open spec fn valid(self) -> bool {
        (Scalar { bits: 0 }).spec_lt(self.index_of_refraction)
    }

    pub fn new(index_of_refraction: Scalar) -> (m: Dialectric)
        ensures
            m.index_of_refraction == index_of_refraction,
    {
        Dialectric { index_of_refraction }
    }

    /// The ratio of the indices on the two sides of the surface, in the
    /// order in which the ray crosses it: `reciprocal`, which is 1 over the
    /// index of refraction, for a ray that enters, and the index itself for
    /// one that leaves.
    pub fn refraction_ratio(&self, front_face: bool, reciprocal: Scalar) -> (ratio: Scalar)
        ensures
            ratio == if front_face {
                reciprocal
            } else {
                self.index_of_refraction
            },
    {
        if front_face {
            reciprocal
        } else {
            self.index_of_refraction
        }
    }

    /// Whether a ray with this ratio times sine is reflected whatever the
    /// sample: no sample need be drawn for it.
    pub fn cannot_refract(ratio_sine: Scalar) -> (r: bool)
        ensures
            r == (Scalar { bits: ONE_BITS }).spec_lt(ratio_sine),
    {
        ratio_sine.gt(Scalar::one())
    }

    /// The ray that leaves along the reflected or the refracted direction,
    /// with all of its light.
    pub open spec fn spec_scatter(self, rec: HitRecord, bend: Bend) -> Option<ScatterResult> {
        Some(
            ScatterResult {
                scattered: Ray {
                    orig: rec.p,
                    dir: if bend.reflects() {
                        bend.reflected
                    } else {
                        bend.refracted
                    },
                },
                attenuation: Vec3 {
                    x: Scalar { bits: ONE_BITS },
                    y: Scalar { bits: ONE_BITS },
                    z: Scalar { bits: ONE_BITS },
                },
            },
        )
    }

    /// Scatters at `rec`: reflects where the ray cannot refract or the
    /// reflectance exceeds the sample, refracts otherwise. Glass absorbs
    /// nothing: the result is never `None` and the attenuation is white.
    pub fn scatter(&self, rec: &HitRecord, bend: &Bend) -> (out: Option<ScatterResult>)
        ensures
            out == self.spec_scatter(*rec, *bend),
            out.is_some(),
    {
        let dir = if Self::cannot_refract(bend.ratio_sine) || bend.reflectance.gt(bend.sample) {
            bend.reflected
        } else {
            bend.refracted
        };
        Some(ScatterResult { scattered: Ray::new(rec.p, dir), attenuation: Vec3::white() })
    }
}

impl Material {
    /// Whether the material's parameters are in their ranges: a fuzz in
    /// `[0, 1]`, an index of refraction above 0.
    pub open spec fn valid(self) -> bool {
        match self {
            Material::Lambertian(_) => true,
            Material::Metal(m) => m.valid(),
            Material::Dialectric(d) => d.valid(),
        }
    }

    pub fn is_valid(&self) -> (r: bool)
        ensures
            r == self.valid(),
    {
        match self {
            Material::Lambertian(_) => true,
            Material::Metal(m) => !m.fuzz.is_nan() && !m.fuzz.lt(Scalar::zero()) && !m.fuzz.gt(
                Scalar::one(),
            ),
            Material::Dialectric(d) => d.index_of_refraction.gt(Scalar::zero()),
        }
    }
}

} // verus!
