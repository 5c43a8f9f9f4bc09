use vstd::prelude::*;

use crate::vector::Vec3;
use crate::vector::fits;

verus! {

/// A parametric line: the set of points `origin + t * dir` as the scalar
/// parameter `t` ranges over the integers. The direction need not have unit
/// length, and `t` may be negative or zero.
#[derive(PartialEq, Eq, Structural, Debug)]
pub struct Ray {
    pub origin: Vec3,
    pub dir: Vec3,
}

impl Ray {
    /// The point reached from the origin after travelling `t` times the
    /// direction vector: exactly `origin + dir * t`, with no clamping of
    /// `t` in either direction.
    pub fn point_at(&self, t: i64) -> (r: Vec3)
        requires
            fits(self.dir@.x * (t as int)),
            fits(self.dir@.y * (t as int)),
            fits(self.dir@.z * (t as int)),
            fits(self.origin@.x + self.dir@.x * (t as int)),
            fits(self.origin@.y + self.dir@.y * (t as int)),
            fits(self.origin@.z + self.dir@.z * (t as int)),
        ensures
            r@ == self.origin@.add(self.dir@.scale(t as int)),
    {
        self.origin.add(&self.dir.mul(t))
    }
}

} // verus!
