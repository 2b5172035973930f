//! Vectors of three single-precision components.

use vstd::prelude::*;
use crate::scalar::Scalar;

verus! {

/// A vector of three components. A plain value: two vectors with the same
/// component bits are the same vector.
#[derive(Clone, Copy, Debug)]
pub struct Vec3 {
    pub x: Scalar,
    pub y: Scalar,
    pub z: Scalar,
}

impl Vec3 {
    /// The vector whose components are all positive zero.
    pub open spec fn spec_zero() -> Vec3 {
        Vec3 { x: Scalar::spec_zero(), y: Scalar::spec_zero(), z: Scalar::spec_zero() }
    }

    /// The vector whose components are all positive zero.
    #[verifier::when_used_as_spec(spec_zero)]
    pub fn zero() -> (r: Vec3)
        ensures
            r == Vec3::spec_zero(),
    {
        Vec3 { x: Scalar::zero(), y: Scalar::zero(), z: Scalar::zero() }
    }

    /// `x*x' + y*y' + z*z'`, summed from the left.
    pub open spec fn spec_dot(self, rhs: Vec3) -> Scalar {
        self.x.spec_mul(rhs.x).spec_add(self.y.spec_mul(rhs.y)).spec_add(self.z.spec_mul(rhs.z))
    }

    /// The scalar product of `self` and `rhs`.
    #[verifier::when_used_as_spec(spec_dot)]
    pub fn dot(self, rhs: Vec3) -> (r: Scalar)
        ensures
            r == self.spec_dot(rhs),
    {
        self.x.mul(rhs.x).add(self.y.mul(rhs.y)).add(self.z.mul(rhs.z))
    }

    /// The right-handed vector product.
    pub open spec fn spec_cross(self, rhs: Vec3) -> Vec3 {
        Vec3 {
            x: self.y.spec_mul(rhs.z).spec_sub(self.z.spec_mul(rhs.y)),
            y: self.z.spec_mul(rhs.x).spec_sub(self.x.spec_mul(rhs.z)),
            z: self.x.spec_mul(rhs.y).spec_sub(self.y.spec_mul(rhs.x)),
        }
    }

    /// The scalar product of the vector with itself.
    pub open spec fn spec_square_norm(self) -> Scalar {
        self.spec_dot(self)
    }

    /// The square root of the squared norm.
    pub open spec fn spec_norm(self) -> Scalar {
        self.spec_square_norm().spec_sqrt()
    }

    /// The vector scaled by the reciprocal of its norm.
    pub open spec fn spec_normal(self) -> Vec3 {
        self.spec_scale(Scalar::spec_one().spec_div(self.spec_norm()))
    }

    /// Each component multiplied, from the left, by `s`.
    pub open spec fn spec_scale(self, s: Scalar) -> Vec3 {
        Vec3 { x: s.spec_mul(self.x), y: s.spec_mul(self.y), z: s.spec_mul(self.z) }
    }

    /// The component-wise sum.
    pub open spec fn spec_add(self, rhs: Vec3) -> Vec3 {
        Vec3 { x: self.x.spec_add(rhs.x), y: self.y.spec_add(rhs.y), z: self.z.spec_add(rhs.z) }
    }

    /// The component-wise difference.
    pub open spec fn spec_sub(self, rhs: Vec3) -> Vec3 {
        Vec3 { x: self.x.spec_sub(rhs.x), y: self.y.spec_sub(rhs.y), z: self.z.spec_sub(rhs.z) }
    }

    /// The vector with the given component bit patterns.
    pub open spec fn spec_from_bits(v: [u32; 3]) -> Vec3 {
        Vec3 { x: Scalar { bits: v[0] }, y: Scalar { bits: v[1] }, z: Scalar { bits: v[2] } }
    }

    /// The vector product of `self` and `rhs`.
    #[verifier::when_used_as_spec(spec_cross)]
    pub fn cross(self, rhs: Vec3) -> (r: Vec3)
        ensures
            r == self.spec_cross(rhs),
    {
        Vec3 {
            x: self.y.mul(rhs.z).sub(self.z.mul(rhs.y)),
            y: self.z.mul(rhs.x).sub(self.x.mul(rhs.z)),
            z: self.x.mul(rhs.y).sub(self.y.mul(rhs.x)),
        }
    }

    /// The squared length: the scalar product of the vector with itself.
    #[verifier::when_used_as_spec(spec_square_norm)]
    pub fn square_norm(self) -> (r: Scalar)
        ensures
            r == self.spec_dot(self),
    {
        self.dot(self)
    }

    /// The length of the vector.
    #[verifier::when_used_as_spec(spec_norm)]
    pub fn norm(self) -> (r: Scalar)
        ensures
            r == self.spec_norm(),
    {
        self.square_norm().sqrt()
    }

    /// The vector scaled to unit length. A vector of norm zero is not
    /// guarded against: the reciprocal is then an infinity and the
    /// components come out as NaN.
    #[verifier::when_used_as_spec(spec_normal)]
    pub fn normal(self) -> (r: Vec3)
        ensures
            r == self.spec_normal(),
    {
        Scalar::one().div(self.norm()) * self
    }

    /// The bit patterns of the three components, in the order x, y, z.
    pub fn to_bits(self) -> (r: [u32; 3])
        ensures
            r@ == seq![self.x.bits, self.y.bits, self.z.bits],
    {
        [self.x.bits, self.y.bits, self.z.bits]
    }
}

impl core::default::Default for Vec3 {
    /// The zero vector.
    fn default() -> (r: Vec3)
        ensures
            r == Vec3::spec_zero(),
    {
        Vec3::zero()
    }
}

impl core::convert::From<[u32; 3]> for Vec3 {
    /// The vector whose components have the given bit patterns.
    fn from(v: [u32; 3]) -> (r: Vec3) {
        Vec3 {
            x: Scalar::from_bits(v[0]),
            y: Scalar::from_bits(v[1]),
            z: Scalar::from_bits(v[2]),
        }
    }
}

impl vstd::std_specs::convert::FromSpecImpl<[u32; 3]> for Vec3 {
    open spec fn obeys_from_spec() -> bool {
        true
    }

    open spec fn from_spec(v: [u32; 3]) -> Vec3 {
        Vec3::spec_from_bits(v)
    }
}

impl core::ops::Add<Vec3> for Vec3 {
    type Output = Vec3;

    fn add(self, rhs: Vec3) -> (r: Vec3) {
        Vec3 { x: self.x.add(rhs.x), y: self.y.add(rhs.y), z: self.z.add(rhs.z) }
    }
}

impl vstd::std_specs::ops::AddSpecImpl<Vec3> for Vec3 {
    open spec fn obeys_add_spec() -> bool {
        true
    }

    open spec fn add_req(self, rhs: Vec3) -> bool {
        true
    }

    open spec fn add_spec(self, rhs: Vec3) -> Vec3 {
        self.spec_add(rhs)
    }
}

impl core::ops::Sub<Vec3> for Vec3 {
    type Output = Vec3;

    fn sub(self, rhs: Vec3) -> (r: Vec3) {
        Vec3 { x: self.x.sub(rhs.x), y: self.y.sub(rhs.y), z: self.z.sub(rhs.z) }
    }
}

impl vstd::std_specs::ops::SubSpecImpl<Vec3> for Vec3 {
    open spec fn obeys_sub_spec() -> bool {
        true
    }

    open spec fn sub_req(self, rhs: Vec3) -> bool {
        true
    }

    open spec fn sub_spec(self, rhs: Vec3) -> Vec3 {
        self.spec_sub(rhs)
    }
}

impl core::ops::Mul<Vec3> for Scalar {
    type Output = Vec3;

    fn mul(self, rhs: Vec3) -> (r: Vec3) {
        Vec3 { x: self.mul(rhs.x), y: self.mul(rhs.y), z: self.mul(rhs.z) }
    }
}

impl vstd::std_specs::ops::MulSpecImpl<Vec3> for Scalar {
    open spec fn obeys_mul_spec() -> bool {
        true
    }

    open spec fn mul_req(self, rhs: Vec3) -> bool {
        true
    }

    open spec fn mul_spec(self, rhs: Vec3) -> Vec3 {
        rhs.spec_scale(self)
    }
}

} // verus!
