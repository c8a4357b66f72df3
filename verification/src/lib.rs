//! The decision kernel of a recursive Monte-Carlo path tracer.
//!
//! A path tracer alternates arithmetic on double-precision numbers with
//! decisions: which root of a quadratic is the hit, which of many hits is
//! the closest, which way a normal faces, whether a ray is absorbed,
//! reflected or refracted, when a path ends. This library takes the
//! decisions. Numbers reach it as [`scalar::Scalar`]s, which it compares but
//! never computes with; the caller does the arithmetic and draws the random
//! samples.

pub mod image;
pub mod material;
pub mod path;
pub mod scalar;
pub mod vec3;

use material::Material;
use scalar::Scalar;
use vec3::Point3;
use vec3::Vec3;
use vstd::prelude::*;

verus! {

/// A half-line: the points `orig + t * dir`.
#[derive(Clone, Copy, Debug, PartialEq, Eq, Structural)]
pub struct Ray {
    pub orig: Point3,
    pub dir: Vec3,
}

impl Ray {
    pub fn new(orig: Point3, dir: Vec3) -> (r: Ray)
        ensures
            r.orig == orig,
            r.dir == dir,
    {
        Ray { orig, dir }
    }
}

/// One meeting of a ray and a surface.
#[derive(Clone, Copy, Debug, PartialEq, Eq, Structural)]
pub struct HitRecord {
    /// Where the ray meets the surface.
    pub p: Point3,
    /// The unit normal there, on the side the ray came from.
    pub normal: Vec3,
    /// The ray's parameter at `p`.
    pub t: Scalar,
    /// Whether the ray came from outside the surface.
    pub front_face: bool,
    /// The surface's material, by its index in the scene.
    pub mat_ptr: usize,
}

impl HitRecord {
    /// The record with its normal turned against the ray.
    pub open spec fn spec_with_face_normal(
        self,
        facing: Scalar,
        outward_normal: Vec3,
        inward_normal: Vec3,
    ) -> HitRecord {
        if (Scalar { bits: 0 }).spec_lt(facing) {
            HitRecord { normal: inward_normal, front_face: false, ..self }
        } else {
            HitRecord { normal: outward_normal, front_face: true, ..self }
        }
    }

    /// Turns the normal against the ray. `facing` is the dot product of the
    /// ray's direction with `outward_normal`, and `inward_normal` the
    /// negation of `outward_normal`. Where `facing > 0` the ray comes from
    /// inside: the normal is the inward one and `front_face` is false.
    /// Otherwise the normal is the outward one and `front_face` is true.
    pub fn with_face_normal(self, facing: Scalar, outward_normal: Vec3, inward_normal: Vec3) -> (r:
        HitRecord)
        ensures
            r == self.spec_with_face_normal(facing, outward_normal, inward_normal),
    {
        let (normal, front_face) = if facing.gt(Scalar::zero()) {
            (inward_normal, false)
        } else {
            (outward_normal, true)
        };
        HitRecord { p: self.p, normal, t: self.t, front_face, mat_ptr: self.mat_ptr }
    }
}

/// One of the two points where a ray's line meets a sphere, as the caller
/// has worked it out.
#[derive(Clone, Copy, Debug, PartialEq, Eq, Structural)]
pub struct Crossing {
    /// The root: the ray's parameter at the point.
    pub t: Scalar,
    /// The point, `orig + t * dir`.
    pub p: Point3,
    /// The point minus the sphere's centre, over the radius.
    pub outward_normal: Vec3,
    /// The negation of `outward_normal`.
    pub inward_normal: Vec3,
    /// The dot product of the ray's direction with `outward_normal`.
    pub facing: Scalar,
}

/// What the caller has worked out of one ray and one sphere. With `oc` the
/// ray's origin minus the centre, `a = dir . dir`, `half_b = oc . dir` and
/// `c = oc . oc - radius^2`, the discriminant is `half_b^2 - a * c`, and the
/// two roots are `(-half_b - sqrt(discriminant)) / a`, the near one, and
/// `(-half_b + sqrt(discriminant)) / a`, the far one.
#[derive(Clone, Copy, Debug, PartialEq, Eq, Structural)]
pub struct SphereProbe {
    pub discriminant: Scalar,
    pub near: Crossing,
    pub far: Crossing,
}

/// Whether `root` lies outside `[t_min, t_max]`.
pub open spec fn out_of_range(root: Scalar, t_min: Scalar, t_max: Scalar) -> bool {
    root.spec_lt(t_min) || t_max.spec_lt(root)
}

/// A sphere. A negative radius turns the normals inward, which makes the
/// inner wall of a hollow shell; a radius of zero is no sphere.
#[derive(Clone, Copy, Debug, PartialEq, Eq, Structural)]
pub struct Sphere {
    pub center: Point3,
    pub radius: Scalar,
    /// The material, by its index in the scene.
    pub mat_ptr: usize,
}

/// The record of a hit at `crossing` on a surface of material `mat_ptr`.
pub open spec fn record_at(crossing: Crossing, mat_ptr: usize) -> HitRecord {
    (HitRecord {
        p: crossing.p,
        normal: crossing.outward_normal,
        t: crossing.t,
        front_face: false,
        mat_ptr,
    }).spec_with_face_normal(crossing.facing, crossing.outward_normal, crossing.inward_normal)
}

impl Sphere {
    /// Whether the radius is not zero.
    pub open spec fn valid(self) -> bool {
        self.radius.magnitude() != 0
    }

    pub fn new(center: Point3, radius: Scalar, mat_ptr: usize) -> (s: Sphere)
        ensures
            s.center == center,
            s.radius == radius,
            s.mat_ptr == mat_ptr,
    {
        Sphere { center, radius, mat_ptr }
    }

    pub fn is_valid(&self) -> (r: bool)
        ensures
            r == self.valid(),
    {
        self.radius.abs().to_bits() != 0
    }

    /// The hit of the probed ray on this sphere: none where the discriminant
    /// is negative; else at the near root unless that is out of range; else
    /// at the far root unless that is out of range too. The normal of the
    /// record is turned against the ray.
    pub open spec fn spec_hit(self, probe: SphereProbe, t_min: Scalar, t_max: Scalar) -> Option<
        HitRecord,
    > {
        if probe.discriminant.spec_lt(Scalar { bits: 0 }) {
            None
        } else if !out_of_range(probe.near.t, t_min, t_max) {
            Some(record_at(probe.near, self.mat_ptr))
        } else if !out_of_range(probe.far.t, t_min, t_max) {
            Some(record_at(probe.far, self.mat_ptr))
        } else {
            None
        }
    }

    /// Where the probed ray hits this sphere within `[t_min, t_max]`, if it
    /// does.
    pub fn hit(&self, probe: &SphereProbe, t_min: Scalar, t_max: Scalar) -> (r: Option<HitRecord>)
        ensures
            r == self.spec_hit(*probe, t_min, t_max),
    {
        if probe.discriminant.lt(Scalar::zero()) {
            return None;
        }
        let mut crossing = probe.near;
        if crossing.t.lt(t_min) || t_max.lt(crossing.t) {
            crossing = probe.far;
            if crossing.t.lt(t_min) || t_max.lt(crossing.t) {
                return None;
            }
        }
        let hr = HitRecord {
            t: crossing.t,
            p: crossing.p,
            normal: crossing.outward_normal,
            front_face: false,
            mat_ptr: self.mat_ptr,
        };
        Some(hr.with_face_normal(crossing.facing, crossing.outward_normal, crossing.inward_normal))
    }
}

/// A ray whose two roots both lie below `t_min` hits nothing, whatever
/// `t_max` is.
pub proof fn lemma_roots_below_range(
    sphere: Sphere,
    probe: SphereProbe,
    t_min: Scalar,
    t_max: Scalar,
)
    requires
        probe.near.t.spec_lt(t_min),
        probe.far.t.spec_lt(t_min),
    ensures
        sphere.spec_hit(probe, t_min, t_max).is_none(),
{
}

/// Where the discriminant is not negative and the near root is in range,
/// the hit is at the near root, wherever the far root lies.
pub proof fn lemma_near_root_first(sphere: Sphere, probe: SphereProbe, t_min: Scalar, t_max: Scalar)
    requires
        !probe.discriminant.spec_lt(Scalar { bits: 0 }),
        !out_of_range(probe.near.t, t_min, t_max),
    ensures
        sphere.spec_hit(probe, t_min, t_max) == Some(record_at(probe.near, sphere.mat_ptr)),
        sphere.spec_hit(probe, t_min, t_max).unwrap().t == probe.near.t,
{
}

/// A hit lies in range, is at one of the two roots, carries the sphere's
/// material, and faces front exactly when the ray does not run along the
/// outward normal.
pub proof fn lemma_hit_record(sphere: Sphere, probe: SphereProbe, t_min: Scalar, t_max: Scalar)
    requires
        sphere.spec_hit(probe, t_min, t_max).is_some(),
    ensures
        ({
            let rec = sphere.spec_hit(probe, t_min, t_max).unwrap();
            let crossing = if rec.t == probe.near.t && rec.p == probe.near.p {
                probe.near
            } else {
                probe.far
            };
            &&& !out_of_range(rec.t, t_min, t_max)
            &&& rec.t == crossing.t
            &&& rec.p == crossing.p
            &&& rec.mat_ptr == sphere.mat_ptr
            &&& rec.front_face == !(Scalar { bits: 0 }).spec_lt(crossing.facing)
            &&& rec.normal == if rec.front_face {
                crossing.outward_normal
            } else {
                crossing.inward_normal
            }
        }),
{
}

/// The number `x` held to `[min, max]`: `max` where `x > max`, else `min`
/// where `x < min`, else `x` itself. A NaN is handed back as it is.
pub open spec fn spec_clamp(x: Scalar, min: Scalar, max: Scalar) -> Scalar {
    if max.spec_lt(x) {
        max
    } else if x.spec_lt(min) {
        min
    } else {
        x
    }
}

pub fn clamp(x: Scalar, min: Scalar, max: Scalar) -> (r: Scalar)
    ensures
        r == spec_clamp(x, min, max),
{
    if x.gt(max) {
        return max;
    } else if x.lt(min) {
        return min;
    }
    x
}

/// With `min` not above `max` and a number for `x`, the clamped number
/// lies in `[min, max]`.
pub proof fn lemma_clamp_in_range(x: Scalar, min: Scalar, max: Scalar)
    requires
        !x.nan(),
        !min.nan(),
        !max.nan(),
        !max.spec_lt(min),
    ensures
        !spec_clamp(x, min, max).spec_lt(min),
        !max.spec_lt(spec_clamp(x, min, max)),
{
}

/// Why a scene refuses a sphere or a material.
#[derive(Clone, Copy, Debug, PartialEq, Eq, Structural)]
pub enum SceneError {
    /// The sphere's radius is zero.
    ZeroRadius,
    /// The sphere names a material that the scene does not hold.
    UnknownMaterial,
    /// The material's fuzz or index of refraction is out of its range.
    InvalidMaterial,
}

/// Whether `r` is the closest of `hits`, with `at` its place among them:
/// `r` is none where there is no hit at all; else it is the hit at `at`, no
/// hit has a smaller `t` in the total order, and every hit before `at` has
/// a larger one.
pub open spec fn closest_at(hits: Seq<Option<HitRecord>>, r: Option<HitRecord>, at: int) -> bool {
    match r {
        None => forall|j: int| 0 <= j < hits.len() ==> hits[j].is_none(),
        Some(rec) => {
            &&& 0 <= at < hits.len()
            &&& hits[at] == Some(rec)
            &&& forall|j: int|
                0 <= j < hits.len() && hits[j].is_some() ==> rec.t.total_rank()
                    <= hits[j].unwrap().t.total_rank()
            &&& forall|j: int|
                0 <= j < at && hits[j].is_some() ==> rec.t.total_rank()
                    < hits[j].unwrap().t.total_rank()
        },
    }
}

/// Whether `r` is the closest of `hits`: the one with the smallest `t`, and
/// of several with that `t` the first.
pub open spec fn is_closest(hits: Seq<Option<HitRecord>>, r: Option<HitRecord>) -> bool {
    exists|at: int| closest_at(hits, r, at)
}

/// A scene: spheres, and the materials they are made of. Several spheres
/// may share one material.
pub struct HitList {
    objects: Vec<Sphere>,
    materials: Vec<Material>,
}

impl HitList {
    /// The spheres, in the order in which they were added.
    pub closed spec fn spheres(&self) -> Seq<Sphere> {
        self.objects@
    }

    /// The materials, in the order in which they were added.
    pub closed spec fn materials(&self) -> Seq<Material> {
        self.materials@
    }

    /// Every sphere has a radius other than zero and a material that the
    /// scene holds, and every material is valid.
    pub open spec fn wf(&self) -> bool {
        &&& forall|i: int|
            0 <= i < self.spheres().len() ==> (#[trigger] self.spheres()[i]).valid()
                && self.spheres()[i].mat_ptr < self.materials().len()
        &&& forall|i: int|
            0 <= i < self.materials().len() ==> (#[trigger] self.materials()[i]).valid()
    }

    /// What each sphere reports for the ray that `probes` describes, sphere
    /// by sphere.
    pub open spec fn spec_hits(
        &self,
        probes: Seq<SphereProbe>,
        t_min: Scalar,
        t_max: Scalar,
    ) -> Seq<Option<HitRecord>> {
        Seq::new(
            self.spheres().len(),
            |i: int| self.spheres()[i].spec_hit(probes[i], t_min, t_max),
        )
    }

    /// The empty scene.
    pub fn new() -> (list: HitList)
        ensures
            list.spheres().len() == 0,
            list.materials().len() == 0,
            list.wf(),
    {
        HitList { objects: Vec::new(), materials: Vec::new() }
    }

    /// Removes every sphere. The materials stay.
    pub fn clear(&mut self)
        ensures
            final(self).spheres().len() == 0,
            final(self).materials() == old(self).materials(),
            old(self).wf() ==> final(self).wf(),
    {
        self.objects.clear();
    }

    /// Adds a material and gives back its index, or refuses it where it is
    /// not valid. A refusal leaves the scene as it was.
    pub fn add_material(&mut self, material: Material) -> (r: Result<usize, SceneError>)
        ensures
            final(self).spheres() == old(self).spheres(),
            old(self).wf() ==> final(self).wf(),
            match r {
                Ok(index) => {
                    &&& material.valid()
                    &&& index == old(self).materials().len()
                    &&& final(self).materials() == old(self).materials().push(material)
                },
                Err(e) => {
                    &&& !material.valid()
                    &&& e == SceneError::InvalidMaterial
                    &&& final(self).materials() == old(self).materials()
                },
            },
    {
        if !material.is_valid() {
            return Err(SceneError::InvalidMaterial);
        }
        let index = self.materials.len();
        self.materials.push(material);
        proof {
            assert forall|i: int| old(self).wf() && 0 <= i < self.spheres().len() implies (
            #[trigger] self.spheres()[i]).valid() && self.spheres()[i].mat_ptr
                < self.materials().len() by {
                assert(self.spheres()[i] == old(self).spheres()[i]);
            }
        }
        Ok(index)
    }

    /// Adds a sphere behind those that are there, or refuses it: with
    /// `ZeroRadius` where its radius is zero, else with `UnknownMaterial`
    /// where the scene holds no material of its index. A refusal leaves the
    /// scene as it was.
    pub fn add(&mut self, obj: Sphere) -> (r: Result<(), SceneError>)
        ensures
            final(self).materials() == old(self).materials(),
            old(self).wf() ==> final(self).wf(),
            match r {
                Ok(_) => {
                    &&& obj.valid()
                    &&& obj.mat_ptr < old(self).materials().len()
                    &&& final(self).spheres() == old(self).spheres().push(obj)
                },
                Err(e) => {
                    &&& final(self).spheres() == old(self).spheres()
                    &&& e == if !obj.valid() {
                        SceneError::ZeroRadius
                    } else {
                        SceneError::UnknownMaterial
                    }
                    &&& !obj.valid() || obj.mat_ptr >= old(self).materials().len()
                },
            },
    {
        if !obj.is_valid() {
            return Err(SceneError::ZeroRadius);
        }
        if obj.mat_ptr >= self.materials.len() {
            return Err(SceneError::UnknownMaterial);
        }
        self.objects.push(obj);
        proof {
            assert forall|i: int| old(self).wf() && 0 <= i < self.spheres().len() implies (
            #[trigger] self.spheres()[i]).valid() && self.spheres()[i].mat_ptr
                < self.materials().len() by {
                if i < old(self).spheres().len() {
                    assert(self.spheres()[i] == old(self).spheres()[i]);
                }
            }
        }
        Ok(())
    }

    /// The number of spheres.
    pub fn len(&self) -> (n: usize)
        ensures
            n == self.spheres().len(),
    {
        self.objects.len()
    }

    /// The sphere at `index`, if there is one.
    pub fn sphere(&self, index: usize) -> (s: Option<Sphere>)
        ensures
            s == if index < self.spheres().len() {
                Some(self.spheres()[index as int])
            } else {
                None
            },
    {
        if index < self.objects.len() {
            Some(self.objects[index])
        } else {
            None
        }
    }

    /// The material at `index`, if there is one.
    pub fn material(&self, index: usize) -> (m: Option<Material>)
        ensures
            m == if index < self.materials().len() {
                Some(self.materials()[index as int])
            } else {
                None
            },
    {
        if index < self.materials.len() {
            Some(self.materials[index])
        } else {
            None
        }
    }

    /// The closest hit of one ray in the scene. `probes` holds what the
    /// caller has worked out of the ray and each sphere, in the spheres'
    /// order. An empty scene gives none.
    pub fn hit(&self, probes: &Vec<SphereProbe>, t_min: Scalar, t_max: Scalar) -> (r: Option<
        HitRecord,
    >)
        requires
            probes@.len() == self.spheres().len(),
        ensures
            is_closest(self.spec_hits(probes@, t_min, t_max), r),
            r.is_some() ==> !out_of_range(r.unwrap().t, t_min, t_max),
            self.wf() && r.is_some() ==> r.unwrap().mat_ptr < self.materials().len(),
    {
        let ghost hits = self.spec_hits(probes@, t_min, t_max);
        let n = self.objects.len();
        let mut best: Option<HitRecord> = None;
        let ghost mut at: int = 0;
        let mut i: usize = 0;
        while i < n
            invariant
                i <= n,
                n == self.objects@.len(),
                probes@.len() == n,
                hits == self.spec_hits(probes@, t_min, t_max),
                closest_at(hits.take(i as int), best, at),
            decreases n - i,
        {
            let found = self.objects[i].hit(&probes[i], t_min, t_max);
            if let Some(rec) = found {
                let nearer = match best {
                    None => true,
                    Some(b) => rec.t.total_key() < b.t.total_key(),
                };
                if nearer {
                    best = Some(rec);
                    proof {
                        at = i as int;
                    }
                }
            }
            i += 1;
        }
        assert(hits.take(n as int) == hits);
        proof {
            if let Some(rec) = best {
                lemma_hit_record(self.objects@[at], probes@[at], t_min, t_max);
            }
        }
        best
    }
}

/// A list of hits has one closest hit and no more.
pub proof fn lemma_closest_unique(
    hits: Seq<Option<HitRecord>>,
    a: Option<HitRecord>,
    b: Option<HitRecord>,
)
    requires
        is_closest(hits, a),
        is_closest(hits, b),
    ensures
        a == b,
{
    let i = choose|at: int| closest_at(hits, a, at);
    let j = choose|at: int| closest_at(hits, b, at);
    assert(closest_at(hits, a, i) && closest_at(hits, b, j));
}

/// No hit lies nearer along the ray than the closest one.
pub proof fn lemma_closest_is_nearest(hits: Seq<Option<HitRecord>>, rec: HitRecord, j: int)
    requires
        is_closest(hits, Some(rec)),
        0 <= j < hits.len(),
        hits[j].is_some(),
    ensures
        !hits[j].unwrap().t.spec_lt(rec.t),
{
    let at = choose|at: int| closest_at(hits, Some(rec), at);
    assert(closest_at(hits, Some(rec), at));
    if hits[j].unwrap().t.spec_lt(rec.t) {
        crate::scalar::lemma_lt_implies_total(hits[j].unwrap().t, rec.t);
    }
}

/// The closest hit is none exactly where nothing is hit.
pub proof fn lemma_closest_none(hits: Seq<Option<HitRecord>>, r: Option<HitRecord>)
    requires
        is_closest(hits, r),
    ensures
        r.is_none() <==> (forall|j: int| 0 <= j < hits.len() ==> hits[j].is_none()),
{
    let at = choose|at: int| closest_at(hits, r, at);
    assert(closest_at(hits, r, at));
}

/// Of two hits along one ray, the closest is the one with the smaller `t`,
/// in whichever order the two come.
pub proof fn lemma_closest_of_two(near: HitRecord, far: HitRecord, r: Option<HitRecord>)
    requires
        near.t.spec_lt(far.t),
        is_closest(seq![Some(near), Some(far)], r) || is_closest(seq![Some(far), Some(near)], r),
    ensures
        r == Some(near),
{
    crate::scalar::lemma_lt_implies_total(near.t, far.t);
    let first = seq![Some(near), Some(far)];
    let second = seq![Some(far), Some(near)];
    assert(closest_at(first, Some(near), 0));
    assert(closest_at(second, Some(near), 1));
    if is_closest(first, r) {
        lemma_closest_unique(first, r, Some(near));
    } else {
        lemma_closest_unique(second, r, Some(near));
    }
}

} // verus!
