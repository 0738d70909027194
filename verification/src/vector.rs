//! Three-component vectors of fixed-point scalars.

use vstd::prelude::*;
use crate::fixed::Fixed;

verus! {

/// A point or displacement in world space.
#[derive(Clone, Copy, Debug, PartialEq, Eq, Structural)]
pub struct Vec3 {
    pub x: Fixed,
    pub y: Fixed,
    pub z: Fixed,
}

impl Vec3 {
    pub open spec fn spec_new(x: Fixed, y: Fixed, z: Fixed) -> Vec3 {
        Vec3 { x, y, z }
    }

    #[verifier::when_used_as_spec(spec_new)]
    pub fn new(x: Fixed, y: Fixed, z: Fixed) -> (r: Vec3)
        ensures
            r == Vec3::spec_new(x, y, z),
    {
        Vec3 { x, y, z }
    }

    pub open spec fn spec_zero() -> Vec3 {
        Vec3 { x: Fixed { raw: 0 }, y: Fixed { raw: 0 }, z: Fixed { raw: 0 } }
    }

    /// The null vector.
    #[verifier::when_used_as_spec(spec_zero)]
    pub fn zero() -> (r: Vec3)
        ensures
            r == Vec3::spec_zero(),
    {
        Vec3 { x: Fixed { raw: 0 }, y: Fixed { raw: 0 }, z: Fixed { raw: 0 } }
    }

    pub open spec fn spec_plus(self, rhs: Vec3) -> Vec3 {
        Vec3 { x: self.x.plus(rhs.x), y: self.y.plus(rhs.y), z: self.z.plus(rhs.z) }
    }

    /// Component-wise saturating sum.
    #[verifier::when_used_as_spec(spec_plus)]
    pub fn plus(self, rhs: Vec3) -> (r: Vec3)
        ensures
            r == self.spec_plus(rhs),
    {
        Vec3 { x: self.x.plus(rhs.x), y: self.y.plus(rhs.y), z: self.z.plus(rhs.z) }
    }

    pub open spec fn spec_minus(self, rhs: Vec3) -> Vec3 {
        Vec3 { x: self.x.minus(rhs.x), y: self.y.minus(rhs.y), z: self.z.minus(rhs.z) }
    }

    /// Component-wise saturating difference.
    #[verifier::when_used_as_spec(spec_minus)]
    pub fn minus(self, rhs: Vec3) -> (r: Vec3)
        ensures
            r == self.spec_minus(rhs),
    {
        Vec3 { x: self.x.minus(rhs.x), y: self.y.minus(rhs.y), z: self.z.minus(rhs.z) }
    }

    pub open spec fn spec_scale(self, k: Fixed) -> Vec3 {
        Vec3 { x: self.x.times(k), y: self.y.times(k), z: self.z.times(k) }
    }

    /// Every component multiplied by `k`.
    #[verifier::when_used_as_spec(spec_scale)]
    pub fn scale(self, k: Fixed) -> (r: Vec3)
        ensures
            r == self.spec_scale(k),
    {
        Vec3 { x: self.x.times(k), y: self.y.times(k), z: self.z.times(k) }
    }

    pub open spec fn spec_div_int(self, n: i64) -> Vec3 {
        Vec3 { x: self.x.div_int(n), y: self.y.div_int(n), z: self.z.div_int(n) }
    }

    /// Every component divided by the positive whole number `n`.
    #[verifier::when_used_as_spec(spec_div_int)]
    pub fn div_int(self, n: i64) -> (r: Vec3)
        requires
            n > 0,
        ensures
            r == self.spec_div_int(n),
    {
        Vec3 { x: self.x.div_int(n), y: self.y.div_int(n), z: self.z.div_int(n) }
    }

    /// Square of the length of the horizontal part, in raw steps squared.
    pub open spec fn horizontal_len_sq(self) -> int {
        self.x@ * self.x@ + self.z@ * self.z@
    }

    pub open spec fn spec_horizontal_len_below(self, limit: Fixed) -> bool {
        limit@ > 0 && self.horizontal_len_sq() < limit@ * limit@
    }

    /// Whether the vector without its vertical component is shorter than `limit`.
    #[verifier::when_used_as_spec(spec_horizontal_len_below)]
    pub fn horizontal_len_below(self, limit: Fixed) -> (r: bool)
        ensures
            r == self.spec_horizontal_len_below(limit),
            r == (limit@ > 0 && self.x@ * self.x@ + self.z@ * self.z@ < limit@ * limit@),
    {
        if limit.raw <= 0 {
            return false;
        }
        let x: u128 = magnitude(self.x.raw);
        let z: u128 = magnitude(self.z.raw);
        let l: u128 = magnitude(limit.raw);
        assert(x * x <= 0x4000_0000_0000_0000_0000_0000_0000_0000
            && z * z <= 0x4000_0000_0000_0000_0000_0000_0000_0000
            && l * l <= 0x4000_0000_0000_0000_0000_0000_0000_0000) by (nonlinear_arith)
            requires
                x <= 0x8000_0000_0000_0000,
                z <= 0x8000_0000_0000_0000,
                l <= 0x8000_0000_0000_0000,
        ;
        assert(x * x == self.x@ * self.x@ && z * z == self.z@ * self.z@) by (nonlinear_arith)
            requires
                x == self.x@ || x == -self.x@,
                z == self.z@ || z == -self.z@,
        ;
        x * x + z * z < l * l
    }
}

/// The absolute value of `v`.
fn magnitude(v: i64) -> (r: u128)
    ensures
        r == if v < 0 { -(v as int) } else { v as int },
        r <= 0x8000_0000_0000_0000,
{
    if v < 0 {
        (-(v as i128)) as u128
    } else {
        v as u128
    }
}

} // verus!
