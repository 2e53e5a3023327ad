//! Three- and four-component vectors over bit-pattern scalars.
//!
//! Every operation mirrors the IEEE-754 evaluation order of its contract's
//! spec function exactly, so each exec function is pinned to one result for
//! each input.

use vstd::prelude::*;
use crate::scalar::{
    Scalar, BITS_ONE, spec_zero, scalar_zero, sadd, ssub, smul, sdiv, ssqrt, slt,
    scalar_add, scalar_sub, scalar_mul, scalar_div, scalar_sqrt, scalar_lt,
};

verus! {

/// A three-component vector of binary64 values.
#[derive(Clone, Copy, PartialEq, Eq, Structural, Debug)]
pub struct V3D {
    pub x: Scalar,
    pub y: Scalar,
    pub z: Scalar,
}

/// A four-component vector of binary64 values.
#[derive(Clone, Copy, PartialEq, Eq, Structural, Debug)]
pub struct V4D {
    pub x: Scalar,
    pub y: Scalar,
    pub z: Scalar,
    pub w: Scalar,
}

/// A four-by-four matrix of binary64 values, row major: `m[row][column]`.
pub type Matrix4 = [[Scalar; 4]; 4];

/// The zero vector.
pub open spec fn spec_v3d_zero() -> V3D {
    V3D { x: spec_zero(), y: spec_zero(), z: spec_zero() }
}

/// The magnitude of a three-vector: the square root of the sum of the
/// squares of its components, summed left to right.
pub open spec fn spec_magnitude3(v: V3D) -> Scalar {
    ssqrt(sadd(sadd(smul(v.x, v.x), smul(v.y, v.y)), smul(v.z, v.z)))
}

/// Normalization of a three-vector: each component divided by the
/// magnitude when the magnitude is strictly positive, and the vector
/// itself unchanged otherwise (so a zero vector stays zero instead of
/// poisoning the pipeline with a division by zero).
pub open spec fn spec_normalize3(v: V3D) -> V3D {
    let mag = spec_magnitude3(v);
    if slt(spec_zero(), mag) {
        V3D { x: sdiv(v.x, mag), y: sdiv(v.y, mag), z: sdiv(v.z, mag) }
    } else {
        v
    }
}

/// The right-handed cross product of two three-vectors.
pub open spec fn spec_cross(a: V3D, b: V3D) -> V3D {
    V3D {
        x: ssub(smul(a.y, b.z), smul(a.z, b.y)),
        y: ssub(smul(a.z, b.x), smul(a.x, b.z)),
        z: ssub(smul(a.x, b.y), smul(a.y, b.x)),
    }
}

/// The dot product of two three-vectors, summed left to right.
pub open spec fn spec_dot3(a: V3D, b: V3D) -> Scalar {
    sadd(sadd(smul(a.x, b.x), smul(a.y, b.y)), smul(a.z, b.z))
}

/// A three-vector scaled by a scalar on the left.
pub open spec fn spec_scale3(s: Scalar, v: V3D) -> V3D {
    V3D { x: smul(s, v.x), y: smul(s, v.y), z: smul(s, v.z) }
}

/// The affine transform of a point by a four-by-four matrix: rotation,
/// scale and translation, with an implied homogeneous coordinate of one
/// and no perspective divide (the last matrix row is ignored).
pub open spec fn spec_transform3(v: V3D, m: Matrix4) -> V3D {
    V3D {
        x: sadd(sadd(sadd(smul(m[0][0], v.x), smul(m[0][1], v.y)), smul(m[0][2], v.z)), m[0][3]),
        y: sadd(sadd(sadd(smul(m[1][0], v.x), smul(m[1][1], v.y)), smul(m[1][2], v.z)), m[1][3]),
        z: sadd(sadd(sadd(smul(m[2][0], v.x), smul(m[2][1], v.y)), smul(m[2][2], v.z)), m[2][3]),
    }
}

impl V3D {
    /// Builds a vector from its components.
    pub fn new(x: Scalar, y: Scalar, z: Scalar) -> (r: Self)
        ensures
            r == (V3D { x, y, z }),
    {
        Self { x, y, z }
    }

    /// The magnitude of this vector; the magnitude of the zero vector is
    /// exactly zero.
    pub fn magnitude(&self) -> (r: Scalar)
        ensures
            r == spec_magnitude3(*self),
            *self == spec_v3d_zero() ==> r == spec_zero(),
    {
        let xx = scalar_mul(self.x, self.x);
        let yy = scalar_mul(self.y, self.y);
        let zz = scalar_mul(self.z, self.z);
        scalar_sqrt(scalar_add(scalar_add(xx, yy), zz))
    }

    /// Normalizes this vector; the zero vector is returned unchanged.
    pub fn normalize(&self) -> (r: Self)
        ensures
            r == spec_normalize3(*self),
            *self == spec_v3d_zero() ==> r == *self,
    {
        let mag = self.magnitude();
        if scalar_lt(scalar_zero(), mag) {
            Self {
                x: scalar_div(self.x, mag),
                y: scalar_div(self.y, mag),
                z: scalar_div(self.z, mag),
            }
        } else {
            *self
        }
    }

    /// The right-handed cross product of this vector with another.
    pub fn cross(&self, other: &V3D) -> (r: V3D)
        ensures
            r == spec_cross(*self, *other),
    {
        V3D {
            x: scalar_sub(scalar_mul(self.y, other.z), scalar_mul(self.z, other.y)),
            y: scalar_sub(scalar_mul(self.z, other.x), scalar_mul(self.x, other.z)),
            z: scalar_sub(scalar_mul(self.x, other.y), scalar_mul(self.y, other.x)),
        }
    }

    /// The dot product of this vector with another.
    pub fn dot(&self, other: &V3D) -> (r: Scalar)
        ensures
            r == spec_dot3(*self, *other),
    {
        let xx = scalar_mul(self.x, other.x);
        let yy = scalar_mul(self.y, other.y);
        let zz = scalar_mul(self.z, other.z);
        scalar_add(scalar_add(xx, yy), zz)
    }

    /// Applies a four-by-four transformation matrix to this vector,
    /// treated as a point.
    pub fn transform(&self, matrix: &Matrix4) -> (r: V3D)
        ensures
            r == spec_transform3(*self, *matrix),
    {
        let x = scalar_add(
            scalar_add(
                scalar_add(scalar_mul(matrix[0][0], self.x), scalar_mul(matrix[0][1], self.y)),
                scalar_mul(matrix[0][2], self.z),
            ),
            matrix[0][3],
        );
        let y = scalar_add(
            scalar_add(
                scalar_add(scalar_mul(matrix[1][0], self.x), scalar_mul(matrix[1][1], self.y)),
                scalar_mul(matrix[1][2], self.z),
            ),
            matrix[1][3],
        );
        let z = scalar_add(
            scalar_add(
                scalar_add(scalar_mul(matrix[2][0], self.x), scalar_mul(matrix[2][1], self.y)),
                scalar_mul(matrix[2][2], self.z),
            ),
            matrix[2][3],
        );
        V3D::new(x, y, z)
    }

    /// This vector scaled by a scalar on the left.
    pub fn scale(&self, s: Scalar) -> (r: V3D)
        ensures
            r == spec_scale3(s, *self),
    {
        V3D { x: scalar_mul(s, self.x), y: scalar_mul(s, self.y), z: scalar_mul(s, self.z) }
    }
}

/// The zero four-vector.
pub open spec fn spec_v4d_zero() -> V4D {
    V4D { x: spec_zero(), y: spec_zero(), z: spec_zero(), w: spec_zero() }
}

/// The magnitude of a four-vector, components squared and summed left to
/// right.
pub open spec fn spec_magnitude4(v: V4D) -> Scalar {
    ssqrt(sadd(sadd(sadd(smul(v.x, v.x), smul(v.y, v.y)), smul(v.z, v.z)), smul(v.w, v.w)))
}

/// Normalization of a four-vector, with the same degenerate-case policy
/// as for three-vectors.
pub open spec fn spec_normalize4(v: V4D) -> V4D {
    let mag = spec_magnitude4(v);
    if slt(spec_zero(), mag) {
        V4D { x: sdiv(v.x, mag), y: sdiv(v.y, mag), z: sdiv(v.z, mag), w: sdiv(v.w, mag) }
    } else {
        v
    }
}

/// The dot product of two four-vectors, summed left to right.
pub open spec fn spec_dot4(a: V4D, b: V4D) -> Scalar {
    sadd(sadd(sadd(smul(a.x, b.x), smul(a.y, b.y)), smul(a.z, b.z)), smul(a.w, b.w))
}

/// A four-vector scaled by a scalar on the left.
pub open spec fn spec_scale4(s: Scalar, v: V4D) -> V4D {
    V4D { x: smul(s, v.x), y: smul(s, v.y), z: smul(s, v.z), w: smul(s, v.w) }
}

/// Stereographic projection of a four-vector to three dimensions: each of
/// the first three components multiplied by one over one minus the fourth.
/// At a fourth component of exactly one the scale is infinite; keeping the
/// fourth component bounded away from one is the caller's responsibility.
pub open spec fn spec_project_to_3d(v: V4D) -> V3D {
    let scale = sdiv(Scalar { bits: BITS_ONE }, ssub(Scalar { bits: BITS_ONE }, v.w));
    V3D { x: smul(v.x, scale), y: smul(v.y, scale), z: smul(v.z, scale) }
}

impl V4D {
    /// Builds a four-vector from its components.
    pub fn new(x: Scalar, y: Scalar, z: Scalar, w: Scalar) -> (r: Self)
        ensures
            r == (V4D { x, y, z, w }),
    {
        Self { x, y, z, w }
    }

    /// The magnitude of this vector; the magnitude of the zero vector is
    /// exactly zero.
    pub fn magnitude(&self) -> (r: Scalar)
        ensures
            r == spec_magnitude4(*self),
            *self == spec_v4d_zero() ==> r == spec_zero(),
    {
        let xx = scalar_mul(self.x, self.x);
        let yy = scalar_mul(self.y, self.y);
        let zz = scalar_mul(self.z, self.z);
        let ww = scalar_mul(self.w, self.w);
        scalar_sqrt(scalar_add(scalar_add(scalar_add(xx, yy), zz), ww))
    }

    /// Normalizes this vector; the zero vector is returned unchanged.
    pub fn normalize(&self) -> (r: Self)
        ensures
            r == spec_normalize4(*self),
            *self == spec_v4d_zero() ==> r == *self,
    {
        let mag = self.magnitude();
        if scalar_lt(scalar_zero(), mag) {
            Self {
                x: scalar_div(self.x, mag),
                y: scalar_div(self.y, mag),
                z: scalar_div(self.z, mag),
                w: scalar_div(self.w, mag),
            }
        } else {
            *self
        }
    }

    /// The dot product of this vector with another.
    pub fn dot(&self, other: &V4D) -> (r: Scalar)
        ensures
            r == spec_dot4(*self, *other),
    {
        let xx = scalar_mul(self.x, other.x);
        let yy = scalar_mul(self.y, other.y);
        let zz = scalar_mul(self.z, other.z);
        let ww = scalar_mul(self.w, other.w);
        scalar_add(scalar_add(scalar_add(xx, yy), zz), ww)
    }

    /// Projects this four-dimensional point to three dimensions using
    /// stereographic projection.
    pub fn project_to_3d(&self) -> (r: V3D)
        ensures
            r == spec_project_to_3d(*self),
    {
        let one = Scalar { bits: BITS_ONE };
        let scale = scalar_div(one, scalar_sub(one, self.w));
        V3D::new(
            scalar_mul(self.x, scale),
            scalar_mul(self.y, scale),
            scalar_mul(self.z, scale),
        )
    }

    /// This vector scaled by a scalar on the left.
    pub fn scale(&self, s: Scalar) -> (r: V4D)
        ensures
            r == spec_scale4(s, *self),
    {
        V4D {
            x: scalar_mul(s, self.x),
            y: scalar_mul(s, self.y),
            z: scalar_mul(s, self.z),
            w: scalar_mul(s, self.w),
        }
    }
}

} // verus!
