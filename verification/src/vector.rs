//! Three-component positions and offsets.

use vstd::prelude::*;
use vstd::std_specs::cmp::PartialEqSpecImpl;
use crate::scalar::Scalar;
use crate::scalar::lemma_same_number_symmetric;

verus! {

/// A position or an offset in space.
#[derive(Clone, Copy, Debug)]
pub struct Vector3 {
    pub x: Scalar,
    pub y: Scalar,
    pub z: Scalar,
}

impl Vector3 {
    /// The vector whose three components are positive zero.
    pub open spec fn spec_zero() -> Vector3 {
        Vector3 { x: Scalar::spec_zero(), y: Scalar::spec_zero(), z: Scalar::spec_zero() }
    }

    /// Exact equality of all three components, with no tolerance.
    pub open spec fn same_position(self, other: Vector3) -> bool {
        &&& self.x.same_number(other.x)
        &&& self.y.same_number(other.y)
        &&& self.z.same_number(other.z)
    }

    /// The vector with the sign of its first component flipped: the same
    /// offset seen in a coordinate system of the other handedness.
    pub open spec fn mirrored(self) -> Vector3 {
        Vector3 { x: self.x.negated(), y: self.y, z: self.z }
    }

    /// The component on `axis`: 0 for x, 1 for y, anything else for z.
    pub open spec fn component(self, axis: int) -> Scalar {
        if axis == 0 {
            self.x
        } else if axis == 1 {
            self.y
        } else {
            self.z
        }
    }

    pub fn new(x: Scalar, y: Scalar, z: Scalar) -> (r: Vector3)
        ensures
            r == (Vector3 { x, y, z }),
    {
        Vector3 { x, y, z }
    }

    #[verifier::when_used_as_spec(spec_zero)]
    pub fn zero() -> (r: Vector3)
        ensures
            r == Vector3::spec_zero(),
    {
        Vector3 { x: Scalar::zero(), y: Scalar::zero(), z: Scalar::zero() }
    }

    /// Overwrites the three components.
    pub fn update(&mut self, x: Scalar, y: Scalar, z: Scalar)
        ensures
            *final(self) == (Vector3 { x, y, z }),
    {
        self.x = x;
        self.y = y;
        self.z = z;
    }
}

impl Default for Vector3 {
    fn default() -> (r: Vector3)
        ensures
            r == Vector3::spec_zero(),
    {
        Vector3::zero()
    }
}

impl PartialEq for Vector3 {
    fn eq(&self, other: &Vector3) -> (r: bool) {
        self.x == other.x && self.y == other.y && self.z == other.z
    }
}

impl PartialEqSpecImpl for Vector3 {
    open spec fn obeys_eq_spec() -> bool {
        true
    }

    open spec fn eq_spec(&self, other: &Vector3) -> bool {
        self.same_position(*other)
    }
}

/// Whether two vertices share a position does not depend on which is asked first.
pub proof fn lemma_same_position_symmetric(a: Vector3, b: Vector3)
    ensures
        a.same_position(b) == b.same_position(a),
{
    lemma_same_number_symmetric(a.x, b.x);
    lemma_same_number_symmetric(a.y, b.y);
    lemma_same_number_symmetric(a.z, b.z);
}

} // verus!
