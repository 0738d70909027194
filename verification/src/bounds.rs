//! Axis-aligned boxes.

use vstd::prelude::*;
use crate::vector::Vec3;

verus! {

/// An axis-aligned box, given by its two extreme corners.
#[derive(Clone, Copy, Debug, PartialEq, Eq, Structural)]
pub struct BoundingBox {
    pub min: Vec3,
    pub max: Vec3,
}

impl BoundingBox {
    pub open spec fn spec_new(min: Vec3, max: Vec3) -> BoundingBox {
        BoundingBox { min, max }
    }

    #[verifier::when_used_as_spec(spec_new)]
    pub fn new(min: Vec3, max: Vec3) -> (r: BoundingBox)
        ensures
            r == BoundingBox::spec_new(min, max),
    {
        BoundingBox { min, max }
    }

    /// Two boxes overlap when their interiors share a point: on every axis
    /// each one begins before the other ends. Boxes that only touch do not.
    pub open spec fn spec_overlaps(&self, other: &BoundingBox) -> bool {
        &&& self.min.x@ < other.max.x@ && other.min.x@ < self.max.x@
        &&& self.min.y@ < other.max.y@ && other.min.y@ < self.max.y@
        &&& self.min.z@ < other.max.z@ && other.min.z@ < self.max.z@
    }

    #[verifier::when_used_as_spec(spec_overlaps)]
    pub fn overlaps(&self, other: &BoundingBox) -> (r: bool)
        ensures
            r == self.spec_overlaps(other),
    {
        self.min.x.raw < other.max.x.raw && other.min.x.raw < self.max.x.raw
            && self.min.y.raw < other.max.y.raw && other.min.y.raw < self.max.y.raw
            && self.min.z.raw < other.max.z.raw && other.min.z.raw < self.max.z.raw
    }
}

} // verus!
