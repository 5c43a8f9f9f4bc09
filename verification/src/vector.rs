use vstd::prelude::*;

verus! {

/// Mathematical model of a vector: three unbounded integer components.
pub ghost struct V3 {
    pub x: int,
    pub y: int,
    pub z: int,
}

impl V3 {
    /// Component-wise sum.
    pub open spec fn add(self, other: V3) -> V3 {
        V3 { x: self.x + other.x, y: self.y + other.y, z: self.z + other.z }
    }

    /// Component-wise difference.
    pub open spec fn sub(self, other: V3) -> V3 {
        V3 { x: self.x - other.x, y: self.y - other.y, z: self.z - other.z }
    }

    /// Each component multiplied by the scalar, vector on the left.
    pub open spec fn scale(self, s: int) -> V3 {
        V3 { x: self.x * s, y: self.y * s, z: self.z * s }
    }

    /// Sum of the products of corresponding components.
    pub open spec fn dot(self, other: V3) -> int {
        self.x * other.x + self.y * other.y + self.z * other.z
    }

    /// The right-handed cross product.
    pub open spec fn cross(self, other: V3) -> V3 {
        V3 {
            x: self.y * other.z - self.z * other.y,
            y: self.z * other.x - self.x * other.z,
            z: self.x * other.y - self.y * other.x,
        }
    }

    /// Squared Euclidean length: the dot product of the vector with itself.
    pub open spec fn len_sq(self) -> int {
        self.dot(self)
    }
}

/// Each component multiplied by the scalar, scalar on the left.
pub open spec fn smul(s: int, v: V3) -> V3 {
    V3 { x: s * v.x, y: s * v.y, z: s * v.z }
}

/// Whether a model value fits the machine scalar type.
pub open spec fn fits(v: int) -> bool {
    i64::MIN <= v <= i64::MAX
}

/// A point or free vector in three-dimensional space, with exact integer
/// components. Equality is exact and component-wise.
#[derive(PartialEq, Eq, Structural, Debug)]
pub struct Vec3 {
    pub x: i64,
    pub y: i64,
    pub z: i64,
}

impl View for Vec3 {
    type V = V3;

    open spec fn view(&self) -> V3 {
        V3 { x: self.x as int, y: self.y as int, z: self.z as int }
    }
}

impl Vec3 {
    /// Component-wise sum; both operands are left untouched.
    pub fn add(&self, other: &Vec3) -> (r: Vec3)
        requires
            fits(self@.x + other@.x),
            fits(self@.y + other@.y),
            fits(self@.z + other@.z),
        ensures
            r@ == self@.add(other@),
    {
        Vec3 { x: self.x + other.x, y: self.y + other.y, z: self.z + other.z }
    }

    /// Adds `other` into `self` component-wise, in place.
    pub fn add_assign(&mut self, other: &Vec3)
        requires
            fits(old(self)@.x + other@.x),
            fits(old(self)@.y + other@.y),
            fits(old(self)@.z + other@.z),
        ensures
            final(self)@ == old(self)@.add(other@),
    {
        self.x = self.x + other.x;
        self.y = self.y + other.y;
        self.z = self.z + other.z;
    }

    /// Component-wise difference; both operands are left untouched.
    pub fn sub(&self, other: &Vec3) -> (r: Vec3)
        requires
            fits(self@.x - other@.x),
            fits(self@.y - other@.y),
            fits(self@.z - other@.z),
        ensures
            r@ == self@.sub(other@),
    {
        Vec3 { x: self.x - other.x, y: self.y - other.y, z: self.z - other.z }
    }

    /// Subtracts `other` from `self` component-wise, in place.
    pub fn sub_assign(&mut self, other: &Vec3)
        requires
            fits(old(self)@.x - other@.x),
            fits(old(self)@.y - other@.y),
            fits(old(self)@.z - other@.z),
        ensures
            final(self)@ == old(self)@.sub(other@),
    {
        self.x = self.x - other.x;
        self.y = self.y - other.y;
        self.z = self.z - other.z;
    }

    /// Each component multiplied by the scalar, scalar on the right.
    pub fn mul(&self, s: i64) -> (r: Vec3)
        requires
            fits(self@.x * (s as int)),
            fits(self@.y * (s as int)),
            fits(self@.z * (s as int)),
        ensures
            r@ == self@.scale(s as int),
    {
        Vec3 { x: self.x * s, y: self.y * s, z: self.z * s }
    }

    /// Multiplies each component of `self` by the scalar, in place.
    pub fn mul_assign(&mut self, s: i64)
        requires
            fits(old(self)@.x * (s as int)),
            fits(old(self)@.y * (s as int)),
            fits(old(self)@.z * (s as int)),
        ensures
            final(self)@ == old(self)@.scale(s as int),
    {
        self.x = self.x * s;
        self.y = self.y * s;
        self.z = self.z * s;
    }

    /// Sum of the products of corresponding components.
    pub fn dot(&self, other: &Vec3) -> (r: i64)
        requires
            fits(self@.x * other@.x),
            fits(self@.y * other@.y),
            fits(self@.z * other@.z),
            fits(self@.x * other@.x + self@.y * other@.y),
            fits(self@.dot(other@)),
        ensures
            r == self@.dot(other@),
    {
        self.x * other.x + self.y * other.y + self.z * other.z
    }

    /// The right-handed cross product; perpendicular to both operands.
    pub fn cross(&self, other: &Vec3) -> (r: Vec3)
        requires
            fits(self@.y * other@.z),
            fits(self@.z * other@.y),
            fits(self@.y * other@.z - self@.z * other@.y),
            fits(self@.z * other@.x),
            fits(self@.x * other@.z),
            fits(self@.z * other@.x - self@.x * other@.z),
            fits(self@.x * other@.y),
            fits(self@.y * other@.x),
            fits(self@.x * other@.y - self@.y * other@.x),
        ensures
            r@ == self@.cross(other@),
    {
        Vec3 {
            x: self.y * other.z - self.z * other.y,
            y: self.z * other.x - self.x * other.z,
            z: self.x * other.y - self.y * other.x,
        }
    }

    /// Squared Euclidean length. Zero only for the zero vector, and never
    /// an error: the zero vector simply has squared length zero.
    pub fn length_squared(&self) -> (r: i64)
        requires
            fits(self@.len_sq()),
        ensures
            r == self@.len_sq(),
            r >= 0,
    {
        proof {
            assert(0 <= self@.x * self@.x) by (nonlinear_arith);
            assert(0 <= self@.y * self@.y) by (nonlinear_arith);
            assert(0 <= self@.z * self@.z) by (nonlinear_arith);
        }
        self.x * self.x + self.y * self.y + self.z * self.z
    }
}

/// Each component multiplied by the scalar, scalar on the left; the
/// counterpart of [`Vec3::mul`] with the operands the other way round.
pub fn scale(s: i64, v: &Vec3) -> (r: Vec3)
    requires
        fits((s as int) * v@.x),
        fits((s as int) * v@.y),
        fits((s as int) * v@.z),
    ensures
        r@ == smul(s as int, v@),
{
    Vec3 { x: s * v.x, y: s * v.y, z: s * v.z }
}

/// Adding a vector and then subtracting the same vector restores the
/// original vector exactly, component by component.
pub proof fn lemma_add_then_sub(a: V3, b: V3)
    ensures
        a.add(b).sub(b) == a,
{
}

/// The dot product does not depend on the order of its operands.
pub proof fn lemma_dot_commutative(a: V3, b: V3)
    ensures
        a.dot(b) == b.dot(a),
{
    assert(a.x * b.x == b.x * a.x) by (nonlinear_arith);
    assert(a.y * b.y == b.y * a.y) by (nonlinear_arith);
    assert(a.z * b.z == b.z * a.z) by (nonlinear_arith);
}

/// The cross product is perpendicular to both of its operands: its dot
/// product with either one is zero.
pub proof fn lemma_cross_perpendicular(a: V3, b: V3)
    ensures
        a.dot(a.cross(b)) == 0,
        b.dot(a.cross(b)) == 0,
{
    assert(a.x * (a.y * b.z - a.z * b.y) + a.y * (a.z * b.x - a.x * b.z) + a.z * (a.x * b.y
        - a.y * b.x) == 0) by (nonlinear_arith);
    assert(b.x * (a.y * b.z - a.z * b.y) + b.y * (a.z * b.x - a.x * b.z) + b.z * (a.x * b.y
        - a.y * b.x) == 0) by (nonlinear_arith);
}

/// Scaling a vector gives the same result whether the scalar stands on the
/// left or on the right of each component product.
pub proof fn lemma_scale_commutative(s: int, a: V3)
    ensures
        a.scale(s) == smul(s, a),
{
    assert(a.x * s == s * a.x) by (nonlinear_arith);
    assert(a.y * s == s * a.y) by (nonlinear_arith);
    assert(a.z * s == s * a.z) by (nonlinear_arith);
}

} // verus!
