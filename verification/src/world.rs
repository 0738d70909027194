//! Static world geometry, seen through a single collision query.

use vstd::prelude::*;
use crate::bounds::BoundingBox;
use crate::fixed::Fixed;

verus! {

/// Static geometry that can be asked whether a box touches anything solid.
///
/// The answer is a function of the world and the box alone: asking twice
/// gives the same answer, and asking changes nothing.
pub trait CollisionOracle {
    /// Whether `region` intersects solid geometry.
    spec fn solid(&self, region: BoundingBox) -> bool;

    fn collides(&self, region: &BoundingBox) -> (hit: bool)
        ensures
            hit == self.solid(*region),
    ;
}

/// A world without geometry.
#[derive(Clone, Copy, Debug, PartialEq, Eq, Structural)]
pub struct EmptyWorld {}

impl CollisionOracle for EmptyWorld {
    open spec fn solid(&self, region: BoundingBox) -> bool {
        false
    }

    fn collides(&self, region: &BoundingBox) -> (hit: bool) {
        false
    }
}

/// Flat ground without end: everything below the height `top` is solid, and
/// nothing else is.
#[derive(Clone, Copy, Debug, PartialEq, Eq, Structural)]
pub struct Ground {
    pub top: Fixed,
}

impl CollisionOracle for Ground {
    /// A region is blocked when it reaches below the top of the ground.
    open spec fn solid(&self, region: BoundingBox) -> bool {
        region.min.y@ < self.top@
    }

    fn collides(&self, region: &BoundingBox) -> (hit: bool) {
        region.min.y.raw < self.top.raw
    }
}

/// A world made of solid boxes.
#[derive(Clone, Debug)]
pub struct BoxWorld {
    pub solids: Vec<BoundingBox>,
}

impl BoxWorld {
    /// The world that holds exactly the given boxes.
    pub fn new(solids: Vec<BoundingBox>) -> (w: BoxWorld)
        ensures
            w.solids@ == solids@,
    {
        BoxWorld { solids }
    }
}

impl CollisionOracle for BoxWorld {
    /// A region is blocked when it overlaps one of the boxes.
    open spec fn solid(&self, region: BoundingBox) -> bool {
        exists|i: int| 0 <= i < self.solids@.len() && (#[trigger] self.solids@[i]).overlaps(&region)
    }

    fn collides(&self, region: &BoundingBox) -> (hit: bool) {
        let mut i: usize = 0;
        while i < self.solids.len()
            invariant
                i <= self.solids@.len(),
                forall|j: int| 0 <= j < i ==> !(#[trigger] self.solids@[j]).overlaps(region),
            decreases self.solids@.len() - i,
        {
            if self.solids[i].overlaps(region) {
                return true;
            }
            i += 1;
        }
        false
    }
}

} // verus!
