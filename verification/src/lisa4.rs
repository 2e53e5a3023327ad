//! The four-dimensional Lissajous curve.
//!
//! The curve generalizes the three-dimensional one with a third frequency
//! `c`. It exposes the position, the normalized analytic first derivative,
//! and the normalized analytic second derivative (in four dimensions there
//! is no unique binormal from two vectors, so no trihedron is defined);
//! a host views it through the stereographic projection of `V4D`. As in
//! the three-dimensional case, the curve is a function of `t` only through
//! the sines and cosines of `a t`, `b t` and `c t`, which the host hands
//! in as a [`Trig4`].

use vstd::prelude::*;
use crate::scalar::{
    Scalar, BITS_TWO, sadd, ssub, smul, sneg, is_finite, scalar_is_finite, scalar_add, scalar_sub,
    scalar_mul, scalar_neg,
};
use crate::math::{V4D, spec_normalize4, spec_scale4};
use crate::TunnelError;

verus! {

/// A four-dimensional Lissajous curve with frequencies `a`, `b` and `c`
/// and a uniform scale `r`.
#[derive(Clone, Copy, PartialEq, Eq, Structural, Debug)]
pub struct Lissajou4D {
    pub a: Scalar,
    pub b: Scalar,
    pub c: Scalar,
    pub r: Scalar,
}

/// The sines and cosines of `a t`, `b t` and `c t` at one curve parameter
/// `t`, as sampled by the host.
#[derive(Clone, Copy, PartialEq, Eq, Structural, Debug)]
pub struct Trig4 {
    pub sin_at: Scalar,
    pub cos_at: Scalar,
    pub sin_bt: Scalar,
    pub cos_bt: Scalar,
    pub sin_ct: Scalar,
    pub cos_ct: Scalar,
}

/// The curve position at a sample: the scale times the vector of
/// `sin(a t) cos(b t) sin(c t)`, `sin(a t) sin(b t) sin(c t)`,
/// `cos(a t) sin(c t)` and `cos(c t)`.
pub open spec fn spec_position4(c: Lissajou4D, s: Trig4) -> V4D {
    spec_scale4(
        c.r,
        V4D {
            x: smul(smul(s.sin_at, s.cos_bt), s.sin_ct),
            y: smul(smul(s.sin_at, s.sin_bt), s.sin_ct),
            z: smul(s.cos_at, s.sin_ct),
            w: s.cos_ct,
        },
    )
}

/// The analytic first derivative of the position with respect to `t`,
/// before normalization.
pub open spec fn spec_d1_raw4(c: Lissajou4D, s: Trig4) -> V4D {
    V4D {
        x: sadd(
            ssub(
                smul(smul(smul(c.a, s.cos_at), s.cos_bt), s.sin_ct),
                smul(smul(smul(c.b, s.sin_at), s.sin_bt), s.sin_ct),
            ),
            smul(smul(smul(c.c, s.sin_at), s.cos_bt), s.cos_ct),
        ),
        y: sadd(
            sadd(
                smul(smul(smul(c.a, s.cos_at), s.sin_bt), s.sin_ct),
                smul(smul(smul(c.b, s.sin_at), s.cos_bt), s.sin_ct),
            ),
            smul(smul(smul(c.c, s.sin_at), s.sin_bt), s.cos_ct),
        ),
        z: sadd(
            smul(smul(sneg(c.a), s.sin_at), s.sin_ct),
            smul(smul(c.c, s.cos_at), s.cos_ct),
        ),
        w: smul(sneg(c.c), s.sin_ct),
    }
}

/// The normalized analytic first derivative: the curve's tangent.
pub open spec fn spec_d1_4(c: Lissajou4D, s: Trig4) -> V4D {
    spec_normalize4(spec_d1_raw4(c, s))
}

/// The analytic second derivative of the position with respect to `t`,
/// before normalization.
pub open spec fn spec_d2_raw4(c: Lissajou4D, s: Trig4) -> V4D {
    let two = Scalar { bits: BITS_TWO };
    V4D {
        x: ssub(
            sadd(
                ssub(
                    ssub(
                        smul(smul(smul(smul(sneg(c.a), c.a), s.sin_at), s.cos_bt), s.sin_ct),
                        smul(smul(smul(smul(smul(two, c.a), c.b), s.cos_at), s.sin_bt), s.sin_ct),
                    ),
                    smul(smul(smul(smul(c.b, c.b), s.sin_at), s.cos_bt), s.sin_ct),
                ),
                smul(smul(smul(smul(smul(two, c.a), c.c), s.cos_at), s.cos_bt), s.cos_ct),
            ),
            smul(smul(smul(smul(c.c, c.c), s.sin_at), s.cos_bt), s.sin_ct),
        ),
        y: ssub(
            sadd(
                ssub(
                    sadd(
                        smul(smul(smul(smul(sneg(c.a), c.a), s.sin_at), s.sin_bt), s.sin_ct),
                        smul(smul(smul(smul(smul(two, c.a), c.b), s.cos_at), s.cos_bt), s.sin_ct),
                    ),
                    smul(smul(smul(smul(c.b, c.b), s.sin_at), s.sin_bt), s.sin_ct),
                ),
                smul(smul(smul(smul(smul(two, c.a), c.c), s.cos_at), s.sin_bt), s.cos_ct),
            ),
            smul(smul(smul(smul(c.c, c.c), s.sin_at), s.sin_bt), s.sin_ct),
        ),
        z: ssub(
            ssub(
                smul(smul(smul(sneg(c.a), c.a), s.cos_at), s.sin_ct),
                smul(smul(smul(smul(two, c.a), c.c), s.sin_at), s.cos_ct),
            ),
            smul(smul(smul(c.c, c.c), s.cos_at), s.sin_ct),
        ),
        w: smul(smul(sneg(c.c), c.c), s.cos_ct),
    }
}

/// The normalized analytic second derivative.
pub open spec fn spec_d2_4(c: Lissajou4D, s: Trig4) -> V4D {
    spec_normalize4(spec_d2_raw4(c, s))
}

impl Lissajou4D {
    /// Builds a curve from its three frequencies and its scale.
    /// Construction succeeds exactly when all four are finite; otherwise
    /// the arguments are rejected.
    pub fn new(a: Scalar, b: Scalar, c: Scalar, r: Scalar) -> (res: Result<Self, TunnelError>)
        ensures
            res is Ok <==> (is_finite(a) && is_finite(b) && is_finite(c) && is_finite(r)),
            res matches Ok(v) ==> v == (Lissajou4D { a, b, c, r }),
            res matches Err(e) ==> e == TunnelError::InvalidArgument,
    {
        if scalar_is_finite(a) && scalar_is_finite(b) && scalar_is_finite(c)
            && scalar_is_finite(r) {
            Ok(Self { a, b, c, r })
        } else {
            Err(TunnelError::InvalidArgument)
        }
    }

    /// The first frequency.
    pub fn a(&self) -> (r: Scalar)
        ensures
            r == self.a,
    {
        self.a
    }

    /// The second frequency.
    pub fn b(&self) -> (r: Scalar)
        ensures
            r == self.b,
    {
        self.b
    }

    /// The third frequency.
    pub fn c(&self) -> (r: Scalar)
        ensures
            r == self.c,
    {
        self.c
    }

    /// The uniform scale.
    pub fn r(&self) -> (r: Scalar)
        ensures
            r == self.r,
    {
        self.r
    }

    /// The curve position at a sample.
    pub fn position(&self, s: &Trig4) -> (r: V4D)
        ensures
            r == spec_position4(*self, *s),
    {
        let base = V4D::new(
            scalar_mul(scalar_mul(s.sin_at, s.cos_bt), s.sin_ct),
            scalar_mul(scalar_mul(s.sin_at, s.sin_bt), s.sin_ct),
            scalar_mul(s.cos_at, s.sin_ct),
            s.cos_ct,
        );
        base.scale(self.r)
    }

    /// The curve's tangent at a sample: the normalized analytic first
    /// derivative of the position.
    pub fn d1(&self, s: &Trig4) -> (r: V4D)
        ensures
            r == spec_d1_4(*self, *s),
    {
        let a = self.a;
        let b = self.b;
        let c = self.c;
        let raw = V4D::new(
            scalar_add(
                scalar_sub(
                    scalar_mul(scalar_mul(scalar_mul(a, s.cos_at), s.cos_bt), s.sin_ct),
                    scalar_mul(scalar_mul(scalar_mul(b, s.sin_at), s.sin_bt), s.sin_ct),
                ),
                scalar_mul(scalar_mul(scalar_mul(c, s.sin_at), s.cos_bt), s.cos_ct),
            ),
            scalar_add(
                scalar_add(
                    scalar_mul(scalar_mul(scalar_mul(a, s.cos_at), s.sin_bt), s.sin_ct),
                    scalar_mul(scalar_mul(scalar_mul(b, s.sin_at), s.cos_bt), s.sin_ct),
                ),
                scalar_mul(scalar_mul(scalar_mul(c, s.sin_at), s.sin_bt), s.cos_ct),
            ),
            scalar_add(
                scalar_mul(scalar_mul(scalar_neg(a), s.sin_at), s.sin_ct),
                scalar_mul(scalar_mul(c, s.cos_at), s.cos_ct),
            ),
            scalar_mul(scalar_neg(c), s.sin_ct),
        );
        raw.normalize()
    }

    /// The normalized analytic second derivative of the position at a
    /// sample.
    pub fn d2(&self, s: &Trig4) -> (r: V4D)
        ensures
            r == spec_d2_4(*self, *s),
    {
        let a = self.a;
        let b = self.b;
        let c = self.c;
        let two = Scalar { bits: BITS_TWO };
        let x = scalar_sub(
            scalar_add(
                scalar_sub(
                    scalar_sub(
                        scalar_mul(
                            scalar_mul(scalar_mul(scalar_mul(scalar_neg(a), a), s.sin_at), s.cos_bt),
                            s.sin_ct,
                        ),
                        scalar_mul(
                            scalar_mul(
                                scalar_mul(scalar_mul(scalar_mul(two, a), b), s.cos_at),
                                s.sin_bt,
                            ),
                            s.sin_ct,
                        ),
                    ),
                    scalar_mul(scalar_mul(scalar_mul(scalar_mul(b, b), s.sin_at), s.cos_bt), s.sin_ct),
                ),
                scalar_mul(
                    scalar_mul(scalar_mul(scalar_mul(scalar_mul(two, a), c), s.cos_at), s.cos_bt),
                    s.cos_ct,
                ),
            ),
            scalar_mul(scalar_mul(scalar_mul(scalar_mul(c, c), s.sin_at), s.cos_bt), s.sin_ct),
        );
        let y = scalar_sub(
            scalar_add(
                scalar_sub(
                    scalar_add(
                        scalar_mul(
                            scalar_mul(scalar_mul(scalar_mul(scalar_neg(a), a), s.sin_at), s.sin_bt),
                            s.sin_ct,
                        ),
                        scalar_mul(
                            scalar_mul(
                                scalar_mul(scalar_mul(scalar_mul(two, a), b), s.cos_at),
                                s.cos_bt,
                            ),
                            s.sin_ct,
                        ),
                    ),
                    scalar_mul(scalar_mul(scalar_mul(scalar_mul(b, b), s.sin_at), s.sin_bt), s.sin_ct),
                ),
                scalar_mul(
                    scalar_mul(scalar_mul(scalar_mul(scalar_mul(two, a), c), s.cos_at), s.sin_bt),
                    s.cos_ct,
                ),
            ),
            scalar_mul(scalar_mul(scalar_mul(scalar_mul(c, c), s.sin_at), s.sin_bt), s.sin_ct),
        );
        let z = scalar_sub(
            scalar_sub(
                scalar_mul(scalar_mul(scalar_mul(scalar_neg(a), a), s.cos_at), s.sin_ct),
                scalar_mul(
                    scalar_mul(scalar_mul(scalar_mul(two, a), c), s.sin_at),
                    s.cos_ct,
                ),
            ),
            scalar_mul(scalar_mul(scalar_mul(c, c), s.cos_at), s.sin_ct),
        );
        let w = scalar_mul(scalar_mul(scalar_neg(c), c), s.cos_ct);
        let raw = V4D::new(x, y, z, w);
        raw.normalize()
    }
}

} // verus!
