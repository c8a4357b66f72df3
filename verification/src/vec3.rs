//! Three-component vectors of scalars, used for points, directions and
//! colours alike.

use crate::scalar::Scalar;
use crate::scalar::ONE_BITS;
use vstd::prelude::*;

verus! {

/// The encoding of 1e-8, below which a component counts as zero.
pub const NEAR_ZERO_BITS: u64 = 0x3E45_798E_E230_8C3A;

#[derive(Clone, Copy, Debug, PartialEq, Eq, Structural)]
pub struct Vec3 {
    pub x: Scalar,
    pub y: Scalar,
    pub z: Scalar,
}

pub type Point3 = Vec3;

pub type Color = Vec3;

/// Whether `|s| < 1e-8`.
pub open spec fn tiny(s: Scalar) -> bool {
    s.spec_abs().spec_lt(Scalar { bits: NEAR_ZERO_BITS })
}

impl Vec3 {
    /// Whether every component is below 1e-8 in absolute value.
    pub open spec fn spec_near_zero(self) -> bool {
        tiny(self.x) && tiny(self.y) && tiny(self.z)
    }

    pub fn new(e0: Scalar, e1: Scalar, e2: Scalar) -> (v: Vec3)
        ensures
            v.x == e0,
            v.y == e1,
            v.z == e2,
    {
        Vec3 { x: e0, y: e1, z: e2 }
    }

    pub fn x(self) -> (s: Scalar)
        ensures
            s == self.x,
    {
        self.x
    }

    pub fn y(self) -> (s: Scalar)
        ensures
            s == self.y,
    {
        self.y
    }

    pub fn z(self) -> (s: Scalar)
        ensures
            s == self.z,
    {
        self.z
    }

    /// The colour black, `(0, 0, 0)`.
    pub fn black() -> (c: Color)
        ensures
            c.x.bits == 0,
            c.y.bits == 0,
            c.z.bits == 0,
    {
        Vec3 { x: Scalar::zero(), y: Scalar::zero(), z: Scalar::zero() }
    }

    /// The colour white, `(1, 1, 1)`.
    pub fn white() -> (c: Color)
        ensures
            c.x.bits == ONE_BITS,
            c.y.bits == ONE_BITS,
            c.z.bits == ONE_BITS,
    {
        Vec3 { x: Scalar::one(), y: Scalar::one(), z: Scalar::one() }
    }

    /// Whether a candidate point lies strictly inside the unit ball, or the
    /// unit disk: its squared length, which the caller has worked out, is
    /// below 1. Rejection sampling draws candidates until one does.
    pub fn inside_unit_ball(squared_length: Scalar) -> (r: bool)
        ensures
            r == squared_length.spec_lt(Scalar { bits: ONE_BITS }),
    {
        squared_length.lt(Scalar::one())
    }

    /// The one of a vector and its negation that lies in the hemisphere
    /// around a normal: the vector itself where `along`, its dot product
    /// with the normal, is above 0, and `opposite`, its negation, where not.
    pub fn in_hemisphere(self, opposite: Vec3, along: Scalar) -> (v: Vec3)
        ensures
            v == if (Scalar { bits: 0 }).spec_lt(along) {
                self
            } else {
                opposite
            },
    {
        if along.gt(Scalar::zero()) {
            self
        } else {
            opposite
        }
    }

    /// Whether the vector is too short to serve as a direction: every
    /// component is below 1e-8 in absolute value. A NaN component is not.
    pub fn near_zero(self) -> (r: bool)
        ensures
            r == self.spec_near_zero(),
    {
        let s = Scalar::from_bits(NEAR_ZERO_BITS);
        self.x.abs().lt(s) && self.y.abs().lt(s) && self.z.abs().lt(s)
    }
}

} // verus!
