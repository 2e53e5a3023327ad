//! The three-dimensional Lissajous curve and the tunnel meshes swept
//! along it.
//!
//! The curve is a function of the parameter `t` only through the sines and
//! cosines of `a t` and `b t`. Those four values are sampled by the host
//! and handed in as a [`Trig3`]; every contract here is exact over the
//! samples, so the whole sweep from samples to index and vertex buffers is
//! verified.

use vstd::prelude::*;
use crate::scalar::{
    Scalar, Single, BITS_ZERO, BITS_ONE, BITS_FOUR, BITS_TWO_PI, spec_zero, sadd, ssub, smul,
    sdiv, sneg, snarrow, slt, u64_to_f64_bits, is_finite, scalar_is_finite, scalar_add,
    scalar_sub, scalar_mul, scalar_div, scalar_neg, scalar_zero, scalar_lt, scalar_from_u64,
    scalar_to_single,
};
use crate::math::{
    V3D, Matrix4, spec_normalize3, spec_cross, spec_dot3, spec_scale3,
};
use crate::polygon::{
    AngleTrig, Polygon3D, spec_polygon_vertices, spec_transformed_vertices,
};
use crate::{TunnelError, lemma_block_index};

verus! {

broadcast use vstd::arithmetic::mul::group_mul_basics, vstd::arithmetic::mul::lemma_mul_is_commutative;

/// A three-dimensional Lissajous curve with frequencies `a` and `b` and a
/// uniform scale `r`.
#[derive(Clone, Copy, PartialEq, Eq, Structural, Debug)]
pub struct Lissajou3D {
    pub a: Scalar,
    pub b: Scalar,
    pub r: Scalar,
}

/// The sines and cosines of `a t` and `b t` at one curve parameter `t`,
/// as sampled by the host.
#[derive(Clone, Copy, PartialEq, Eq, Structural, Debug)]
pub struct Trig3 {
    pub sin_at: Scalar,
    pub cos_at: Scalar,
    pub sin_bt: Scalar,
    pub cos_bt: Scalar,
}

/// The curve position at a sample: the scale times the vector of
/// `sin(a t) cos(b t)`, `sin(a t) sin(b t)` and `cos(a t)`.
pub open spec fn spec_position3(c: Lissajou3D, s: Trig3) -> V3D {
    spec_scale3(
        c.r,
        V3D {
            x: smul(s.sin_at, s.cos_bt),
            y: smul(s.sin_at, s.sin_bt),
            z: s.cos_at,
        },
    )
}

/// The analytic first derivative of the position with respect to `t`,
/// before normalization (the scale cancels in direction and is left out,
/// as only the direction is used).
pub open spec fn spec_d1_raw(c: Lissajou3D, s: Trig3) -> V3D {
    V3D {
        x: ssub(smul(smul(c.a, s.cos_at), s.cos_bt), smul(smul(c.b, s.sin_at), s.sin_bt)),
        y: sadd(smul(smul(c.a, s.cos_at), s.sin_bt), smul(smul(c.b, s.sin_at), s.cos_bt)),
        z: smul(sneg(c.a), s.sin_at),
    }
}

/// The tangent of the sweep frame: the normalized first derivative.
pub open spec fn spec_d1(c: Lissajou3D, s: Trig3) -> V3D {
    spec_normalize3(spec_d1_raw(c, s))
}

/// The normal of the sweep frame, by the radial-projection policy: the
/// normalized position (the radial direction) minus its component along
/// the tangent, normalized. This policy is twist free and is the one this
/// library commits to.
pub open spec fn spec_d2(c: Lissajou3D, s: Trig3) -> V3D {
    let radial = spec_normalize3(spec_position3(c, s));
    let tangent = spec_d1(c, s);
    let d = spec_dot3(radial, tangent);
    let projection = V3D {
        x: ssub(radial.x, smul(d, tangent.x)),
        y: ssub(radial.y, smul(d, tangent.y)),
        z: ssub(radial.z, smul(d, tangent.z)),
    };
    spec_normalize3(projection)
}

/// The binormal of the sweep frame: the cross product of the tangent and
/// the normal, completing a right-handed trihedron.
pub open spec fn spec_d3(c: Lissajou3D, s: Trig3) -> V3D {
    spec_cross(spec_d1(c, s), spec_d2(c, s))
}

/// The sweep-frame matrix at a sample: its columns are the normal, the
/// binormal, the tangent, and the curve position, so it carries the
/// polygon's local plane into the frame at that point of the curve.
pub open spec fn spec_frame_matrix(c: Lissajou3D, s: Trig3) -> Matrix4 {
    let pos = spec_position3(c, s);
    let t = spec_d1(c, s);
    let n = spec_d2(c, s);
    let bn = spec_d3(c, s);
    [
        [n.x, bn.x, t.x, pos.x],
        [n.y, bn.y, t.y, pos.y],
        [n.z, bn.z, t.z, pos.z],
        [
            Scalar { bits: BITS_ZERO },
            Scalar { bits: BITS_ZERO },
            Scalar { bits: BITS_ZERO },
            Scalar { bits: BITS_ONE },
        ],
    ]
}

/// The curve parameter of ring `i` out of `num_polygons`: two pi times `i`
/// divided by `num_polygons`, so that ring `num_polygons` closes the loop
/// one full revolution past ring zero.
pub open spec fn spec_ring_parameter(i: u64, num_polygons: u64) -> Scalar {
    sdiv(
        smul(Scalar { bits: BITS_TWO_PI }, Scalar { bits: u64_to_f64_bits(i) }),
        Scalar { bits: u64_to_f64_bits(num_polygons) },
    )
}

/// Computes the curve parameter of ring `i` out of `num_polygons`, so that
/// a host can sample the trigonometric functions at it.
pub fn ring_parameter(i: u64, num_polygons: u64) -> (r: Scalar)
    ensures
        r == spec_ring_parameter(i, num_polygons),
{
    let two_pi = Scalar { bits: BITS_TWO_PI };
    scalar_div(scalar_mul(two_pi, scalar_from_u64(i)), scalar_from_u64(num_polygons))
}

impl Lissajou3D {
    /// Builds a curve from its two frequencies and its scale. Construction
    /// succeeds exactly when all three are finite; otherwise the arguments
    /// are rejected.
    pub fn new(a: Scalar, b: Scalar, r: Scalar) -> (res: Result<Self, TunnelError>)
        ensures
            res is Ok <==> (is_finite(a) && is_finite(b) && is_finite(r)),
            res matches Ok(c) ==> c == (Lissajou3D { a, b, r }),
            res matches Err(e) ==> e == TunnelError::InvalidArgument,
    {
        if scalar_is_finite(a) && scalar_is_finite(b) && scalar_is_finite(r) {
            Ok(Self { a, b, r })
        } else {
            Err(TunnelError::InvalidArgument)
        }
    }

    /// The first frequency.
    pub fn a(&self) -> (r: Scalar)
        ensures
            r == self.a,
    {
        self.a
    }

    /// The second frequency.
    pub fn b(&self) -> (r: Scalar)
        ensures
            r == self.b,
    {
        self.b
    }

    /// The uniform scale.
    pub fn r(&self) -> (r: Scalar)
        ensures
            r == self.r,
    {
        self.r
    }

    /// The curve position at a sample.
    pub fn position(&self, s: &Trig3) -> (r: V3D)
        ensures
            r == spec_position3(*self, *s),
    {
        let base = V3D::new(
            scalar_mul(s.sin_at, s.cos_bt),
            scalar_mul(s.sin_at, s.sin_bt),
            s.cos_at,
        );
        base.scale(self.r)
    }

    /// The tangent of the sweep frame at a sample: the normalized analytic
    /// first derivative of the position.
    pub fn d1(&self, s: &Trig3) -> (r: V3D)
        ensures
            r == spec_d1(*self, *s),
    {
        let a = self.a;
        let b = self.b;
        let raw = V3D::new(
            scalar_sub(
                scalar_mul(scalar_mul(a, s.cos_at), s.cos_bt),
                scalar_mul(scalar_mul(b, s.sin_at), s.sin_bt),
            ),
            scalar_add(
                scalar_mul(scalar_mul(a, s.cos_at), s.sin_bt),
                scalar_mul(scalar_mul(b, s.sin_at), s.cos_bt),
            ),
            scalar_mul(scalar_neg(a), s.sin_at),
        );
        raw.normalize()
    }

    /// The normal of the sweep frame at a sample, by the radial-projection
    /// policy: the radial direction made orthogonal to the tangent, then
    /// normalized.
    pub fn d2(&self, s: &Trig3) -> (r: V3D)
        ensures
            r == spec_d2(*self, *s),
    {
        let p = self.position(s);
        let tangent = self.d1(s);
        let radial = p.normalize();
        let d = radial.dot(&tangent);
        let projection = V3D::new(
            scalar_sub(radial.x, scalar_mul(d, tangent.x)),
            scalar_sub(radial.y, scalar_mul(d, tangent.y)),
            scalar_sub(radial.z, scalar_mul(d, tangent.z)),
        );
        projection.normalize()
    }

    /// The binormal of the sweep frame at a sample.
    pub fn d3(&self, s: &Trig3) -> (r: V3D)
        ensures
            r == spec_d3(*self, *s),
    {
        let t = self.d1(s);
        let n = self.d2(s);
        t.cross(&n)
    }

    /// The sweep-frame matrix at a sample, with the normal, binormal,
    /// tangent and position as its columns.
    pub fn transform_matrix(&self, s: &Trig3) -> (r: Matrix4)
        ensures
            r == spec_frame_matrix(*self, *s),
    {
        let pos = self.position(s);
        let t = self.d1(s);
        let n = self.d2(s);
        let bn = self.d3(s);
        let zero = Scalar { bits: BITS_ZERO };
        let one = Scalar { bits: BITS_ONE };
        [
            [n.x, bn.x, t.x, pos.x],
            [n.y, bn.y, t.y, pos.y],
            [n.z, bn.z, t.z, pos.z],
            [zero, zero, zero, one],
        ]
    }
}

/// One mesh vertex: a position narrowed to binary32 and a color.
#[derive(Clone, Copy, PartialEq, Eq, Debug)]
pub struct Vertex {
    pub pos: [Single; 3],
    pub color: [Single; 4],
}

/// An indexed tunnel mesh: a shared vertex buffer and three independent
/// index buffers, so a renderer can toggle the triangles and the two line
/// overlays separately without touching vertex data.
#[derive(Clone, PartialEq, Debug)]
pub struct Mesh {
    pub vertices: Vec<Vertex>,
    pub triangles: Vec<u32>,
    pub long_lines: Vec<u32>,
    pub lat_lines: Vec<u32>,
}

/// The sines and cosines that one ring's color is computed from: the sine
/// of the ring's phase, the cosine of three times the phase, and the sine
/// of four times the phase, as sampled by the host.
#[derive(Clone, Copy, PartialEq, Eq, Structural, Debug)]
pub struct ColorTrig {
    pub sin_d: Scalar,
    pub cos_3d: Scalar,
    pub sin_4d: Scalar,
}

/// The host-sampled trigonometric inputs of one tunnel generation: the
/// cosine and sine of each polygon vertex angle, the frame samples of each
/// of the `num_polygons + 1` rings, and the color samples of each of the
/// first `num_polygons` rings (the closing ring reuses ring zero's color).
#[derive(Clone, Debug)]
pub struct TunnelSamples {
    pub angles: Vec<AngleTrig>,
    pub frames: Vec<Trig3>,
    pub colors: Vec<ColorTrig>,
}

/// Bit pattern of one half.
pub const BITS_HALF: u64 = 0x3FE0_0000_0000_0000;

/// Bit pattern of the double nearest to thirty-five hundredths, the base
/// and amplitude of the green channel.
pub const BITS_GREEN_COEFF: u64 = 0x3FD6_6666_6666_6666;

/// Bit pattern of three quarters, the base of the blue channel.
pub const BITS_THREE_QUARTERS: u64 = 0x3FE8_0000_0000_0000;

/// Bit pattern of one quarter, the amplitude of the blue channel.
pub const BITS_QUARTER: u64 = 0x3FD0_0000_0000_0000;

/// Bit pattern of one half in binary32: the fixed vertex alpha.
pub const BITS32_HALF: u32 = 0x3F00_0000;

/// A ring's color from its phase samples: an oscillating RGB with the red
/// channel half plus half the sine of the phase, the green channel with
/// base and amplitude thirty-five hundredths over the cosine of three
/// times the phase, the blue channel three quarters plus a quarter of the
/// sine of four times the phase, and a fixed alpha of one half.
pub open spec fn spec_ring_color(ct: ColorTrig) -> [Single; 4] {
    let half = Scalar { bits: BITS_HALF };
    let green_coeff = Scalar { bits: BITS_GREEN_COEFF };
    let red = sadd(half, smul(half, ct.sin_d));
    let green = sadd(green_coeff, smul(green_coeff, ct.cos_3d));
    let blue = sadd(
        Scalar { bits: BITS_THREE_QUARTERS },
        smul(Scalar { bits: BITS_QUARTER }, ct.sin_4d),
    );
    [snarrow(red), snarrow(green), snarrow(blue), Single { bits: BITS32_HALF }]
}

/// The color of ring `i` out of `num_polygons + 1` rings: computed from
/// that ring's own samples, except that the closing ring reuses, bit for
/// bit, the color of ring zero, which keeps the color loop seamless.
pub open spec fn spec_color_of_ring(i: int, num: int, colors: Seq<ColorTrig>) -> [Single; 4] {
    if i == num {
        spec_ring_color(colors[0])
    } else {
        spec_ring_color(colors[i])
    }
}

/// Ring `i` of the tunnel: the polygon's local vertices carried into the
/// curve's sweep frame at that ring's sample.
pub open spec fn spec_ring_points(
    c: Lissajou3D,
    radius: Scalar,
    angles: Seq<AngleTrig>,
    frame: Trig3,
) -> Seq<V3D> {
    spec_transformed_vertices(spec_polygon_vertices(radius, angles), spec_frame_matrix(c, frame))
}

/// All rings of the tunnel, one per frame sample.
pub open spec fn spec_rings(
    c: Lissajou3D,
    radius: Scalar,
    angles: Seq<AngleTrig>,
    frames: Seq<Trig3>,
) -> Seq<Seq<V3D>> {
    Seq::new(frames.len(), |i: int| spec_ring_points(c, radius, angles, frames[i]))
}

/// The views of a list of vertex lists.
pub open spec fn rings_views(s: Seq<Vec<V3D>>) -> Seq<Seq<V3D>> {
    Seq::new(s.len(), |i: int| s[i]@)
}

/// The mesh vertex buffer from the ring geometry and the color samples:
/// ring by ring, side by side, each vertex narrowed to binary32 and
/// colored by its ring.
pub open spec fn spec_vertices_from_rings(
    rings: Seq<Seq<V3D>>,
    colors: Seq<ColorTrig>,
    num: int,
    sides: int,
) -> Seq<Vertex> {
    Seq::new(
        ((num + 1) * sides) as nat,
        |k: int|
            {
                let i = k / sides;
                let j = k % sides;
                let p = rings[i][j];
                Vertex {
                    pos: [snarrow(p.x), snarrow(p.y), snarrow(p.z)],
                    color: spec_color_of_ring(i, num, colors),
                }
            },
    )
}

/// The mesh vertex buffer of a tunnel generation, as a function of the
/// curve, the polygon radius, and the host samples.
pub open spec fn spec_mesh_vertices(
    c: Lissajou3D,
    radius: Scalar,
    angles: Seq<AngleTrig>,
    frames: Seq<Trig3>,
    colors: Seq<ColorTrig>,
    num: int,
    sides: int,
) -> Seq<Vertex> {
    spec_vertices_from_rings(spec_rings(c, radius, angles, frames), colors, num, sides)
}

/// The triangle index buffer: for each ring pair and each side, the two
/// triangles covering that quad, with the fixed winding `a b c, b d c`
/// where `a` and `c` lie on ring `i` and `b` and `d` on ring `i + 1`.
pub open spec fn spec_triangles(num: int, sides: int) -> Seq<u32> {
    Seq::new(
        (6 * num * sides) as nat,
        |k: int|
            {
                let q = k / 6;
                let e = k % 6;
                let i = q / sides;
                let j = q % sides;
                let nj = (j + 1) % sides;
                (if e == 0 {
                    i * sides + j
                } else if e == 1 {
                    (i + 1) * sides + j
                } else if e == 2 {
                    i * sides + nj
                } else if e == 3 {
                    (i + 1) * sides + j
                } else if e == 4 {
                    (i + 1) * sides + nj
                } else {
                    i * sides + nj
                }) as u32
            },
    )
}

/// The longitude index buffer: for each side, line segments connecting
/// each ring to the next along the curve direction.
pub open spec fn spec_long_lines(num: int, sides: int) -> Seq<u32> {
    Seq::new(
        (2 * sides * num) as nat,
        |k: int|
            {
                let p = k / 2;
                let e = k % 2;
                let j = p / num;
                let i = p % num;
                (if e == 0 {
                    i * sides + j
                } else {
                    (i + 1) * sides + j
                }) as u32
            },
    )
}

/// The latitude index buffer: for each ring, including the closing ring,
/// line segments connecting each vertex to the next around the ring.
pub open spec fn spec_lat_lines(num: int, sides: int) -> Seq<u32> {
    Seq::new(
        (2 * (num + 1) * sides) as nat,
        |k: int|
            {
                let p = k / 2;
                let e = k % 2;
                let i = p / sides;
                let j = p % sides;
                let nj = (j + 1) % sides;
                (if e == 0 {
                    i * sides + j
                } else {
                    i * sides + nj
                }) as u32
            },
    )
}

/// When a tunnel generation accepts its arguments: a finite polygon
/// radius, at least three sides, at least one ring pair, one angle sample
/// per side, one frame sample per ring including the closing ring, one
/// color sample per ring except the closing ring, and a vertex count that
/// fits the renderer's 32-bit indices.
pub open spec fn spec_mesh_args_ok(
    radius: Scalar,
    sides: int,
    num: int,
    samples: TunnelSamples,
) -> bool {
    &&& is_finite(radius)
    &&& sides >= 3
    &&& num >= 1
    &&& samples.angles@.len() == sides
    &&& samples.frames@.len() == num + 1
    &&& samples.colors@.len() == num
    &&& (num + 1) * sides <= 0xFFFF_FFFF
}

/// A vertex index inside the grid of `rings` rings of `sides` vertices.
pub proof fn lemma_vidx_bound(i: int, j: int, rings: int, sides: int)
    by (nonlinear_arith)
    requires
        0 <= i < rings,
        0 <= j < sides,
    ensures
        0 <= i * sides + j,
        i * sides + j < rings * sides,
{
}

/// Splits an index below `n * d` into its quotient and remainder by `d`.
pub proof fn lemma_quotient_bound(q: int, n: int, d: int)
    requires
        0 <= q,
        0 < d,
        q < n * d,
    ensures
        0 <= q / d < n,
        0 <= q % d < d,
        q == d * (q / d) + q % d,
{
    vstd::arithmetic::div_mod::lemma_fundamental_div_mod(q, d);
    vstd::arithmetic::div_mod::lemma_mod_bound(q, d);
    let i: int = q / d;
    let r: int = q % d;
    assert(0 <= i && i < n) by (nonlinear_arith)
        requires
            q == d * i + r,
            0 <= r < d,
            0 < d,
            0 <= q,
            q < n * d,
    ;
}

/// Computes one ring's color from its phase samples.
pub fn ring_color(ct: &ColorTrig) -> (r: [Single; 4])
    ensures
        r == spec_ring_color(*ct),
{
    let half = Scalar { bits: BITS_HALF };
    let green_coeff = Scalar { bits: BITS_GREEN_COEFF };
    let red = scalar_add(half, scalar_mul(half, ct.sin_d));
    let green = scalar_add(green_coeff, scalar_mul(green_coeff, ct.cos_3d));
    let blue = scalar_add(
        Scalar { bits: BITS_THREE_QUARTERS },
        scalar_mul(Scalar { bits: BITS_QUARTER }, ct.sin_4d),
    );
    [
        scalar_to_single(red),
        scalar_to_single(green),
        scalar_to_single(blue),
        Single { bits: BITS32_HALF },
    ]
}

/// Builds the mesh vertex buffer from the computed rings and the color
/// samples.
fn build_vertices(
    all_polygons: &Vec<Vec<V3D>>,
    colors: &Vec<ColorTrig>,
    num_polygons: usize,
    polygon_sides: usize,
) -> (r: Vec<Vertex>)
    requires
        num_polygons >= 1,
        num_polygons <= 0xFFFF_FFFE,
        all_polygons@.len() == num_polygons + 1,
        colors@.len() == num_polygons,
        forall|i: int|
            0 <= i < all_polygons@.len() ==> all_polygons@[i]@.len() == polygon_sides,
    ensures
        r@ == spec_vertices_from_rings(
            rings_views(all_polygons@),
            colors@,
            num_polygons as int,
            polygon_sides as int,
        ),
{
    let ghost target = spec_vertices_from_rings(
        rings_views(all_polygons@),
        colors@,
        num_polygons as int,
        polygon_sides as int,
    );
    let first_color = ring_color(&colors[0]);
    let mut out: Vec<Vertex> = Vec::new();
    let rings = num_polygons + 1;
    for i in 0..rings
        invariant
            rings == num_polygons + 1,
            num_polygons >= 1,
            all_polygons@.len() == rings,
            colors@.len() == num_polygons,
            forall|ii: int|
                0 <= ii < all_polygons@.len() ==> all_polygons@[ii]@.len() == polygon_sides,
            first_color == spec_ring_color(colors@[0]),
            target == spec_vertices_from_rings(
                rings_views(all_polygons@),
                colors@,
                num_polygons as int,
                polygon_sides as int,
            ),
            out@.len() == i * polygon_sides,
            forall|k: int| 0 <= k < out@.len() ==> out@[k] == target[k],
    {
        let color = if i == num_polygons {
            first_color
        } else {
            ring_color(&colors[i])
        };
        proof {
            assert(color == spec_color_of_ring(i as int, num_polygons as int, colors@));
        }
        for j in 0..polygon_sides
            invariant
                rings == num_polygons + 1,
                i < rings,
                all_polygons@.len() == rings,
                forall|ii: int|
                    0 <= ii < all_polygons@.len() ==> all_polygons@[ii]@.len() == polygon_sides,
                color == spec_color_of_ring(i as int, num_polygons as int, colors@),
                target == spec_vertices_from_rings(
                    rings_views(all_polygons@),
                    colors@,
                    num_polygons as int,
                    polygon_sides as int,
                ),
                out@.len() == i * polygon_sides + j,
                forall|k: int| 0 <= k < out@.len() ==> out@[k] == target[k],
        {
            let p = all_polygons[i][j];
            out.push(
                Vertex {
                    pos: [scalar_to_single(p.x), scalar_to_single(p.y), scalar_to_single(p.z)],
                    color,
                },
            );
            proof {
                let sides: int = polygon_sides as int;
                let cnt: int = i as int * sides + j as int;
                lemma_vidx_bound(i as int, j as int, num_polygons as int + 1, sides);
                lemma_block_index(sides, i as int);
                assert forall|k: int| 0 <= k < out@.len() implies out@[k] == target[k] by {
                    if k >= cnt {
                        assert(k / sides == i as int && k % sides == k - (i as int) * sides);
                    }
                }
            }
        }
        proof {
            assert((i as int + 1) * (polygon_sides as int) == i as int * (polygon_sides as int)
                + polygon_sides as int) by (nonlinear_arith);
        }
    }
    proof {
        assert(out@ =~= target);
    }
    out
}

/// Builds the triangle index buffer for `num_polygons` ring pairs of
/// `polygon_sides` sides each.
fn build_triangle_indices(num_polygons: usize, polygon_sides: usize) -> (r: Vec<u32>)
    requires
        num_polygons >= 1,
        polygon_sides >= 1,
        (num_polygons + 1) * polygon_sides <= 0xFFFF_FFFF,
    ensures
        r@ == spec_triangles(num_polygons as int, polygon_sides as int),
{
    let ghost num = num_polygons as int;
    let ghost sides = polygon_sides as int;
    let ghost target = spec_triangles(num, sides);
    let mut out: Vec<u32> = Vec::new();
    for i in 0..num_polygons
        invariant
            num == num_polygons as int,
            sides == polygon_sides as int,
            num_polygons >= 1,
            polygon_sides >= 1,
            (num + 1) * sides <= 0xFFFF_FFFF,
            target == spec_triangles(num, sides),
            out@.len() == 6 * (i * polygon_sides),
            forall|k: int| 0 <= k < out@.len() ==> out@[k] == target[k],
    {
        for j in 0..polygon_sides
            invariant
                num == num_polygons as int,
                sides == polygon_sides as int,
                i < num_polygons,
                polygon_sides >= 1,
                (num + 1) * sides <= 0xFFFF_FFFF,
                target == spec_triangles(num, sides),
                out@.len() == 6 * (i * polygon_sides + j),
                forall|k: int| 0 <= k < out@.len() ==> out@[k] == target[k],
        {
            proof {
                lemma_vidx_bound(i as int, j as int, num + 1, sides);
                lemma_vidx_bound(i as int + 1, j as int, num + 1, sides);
            }
            let next_side = (j + 1) % polygon_sides;
            proof {
                lemma_vidx_bound(i as int, next_side as int, num + 1, sides);
                lemma_vidx_bound(i as int + 1, next_side as int, num + 1, sides);
            }
            let a = (i * polygon_sides + j) as u32;
            let b = ((i + 1) * polygon_sides + j) as u32;
            let c = (i * polygon_sides + next_side) as u32;
            let d = ((i + 1) * polygon_sides + next_side) as u32;
            out.push(a);
            out.push(b);
            out.push(c);
            out.push(b);
            out.push(d);
            out.push(c);
            proof {
                let cnt: int = i as int * sides + j as int;
                lemma_vidx_bound(i as int, j as int, num, sides);
                assert(6 * (num * sides) == 6 * num * sides) by (nonlinear_arith);
                lemma_block_index(6, cnt);
                lemma_block_index(sides, i as int);
                assert(cnt / sides == i as int);
                assert(cnt % sides == cnt - (i as int) * sides);
                assert forall|k: int| 0 <= k < out@.len() implies out@[k] == target[k] by {
                    if k >= 6 * cnt {
                        assert(k / 6 == cnt && k % 6 == k - 6 * cnt);
                    }
                }
            }
        }
        proof {
            assert((i as int + 1) * sides == i as int * sides + sides) by (nonlinear_arith);
        }
    }
    proof {
        assert(6 * (num * sides) == 6 * num * sides) by (nonlinear_arith);
        assert(out@ =~= target);
    }
    out
}

/// Builds the longitude index buffer: per side, each ring connected to
/// the next.
fn build_long_line_indices(num_polygons: usize, polygon_sides: usize) -> (r: Vec<u32>)
    requires
        num_polygons >= 1,
        polygon_sides >= 1,
        (num_polygons + 1) * polygon_sides <= 0xFFFF_FFFF,
    ensures
        r@ == spec_long_lines(num_polygons as int, polygon_sides as int),
{
    let ghost num = num_polygons as int;
    let ghost sides = polygon_sides as int;
    let ghost target = spec_long_lines(num, sides);
    let mut out: Vec<u32> = Vec::new();
    for j in 0..polygon_sides
        invariant
            num == num_polygons as int,
            sides == polygon_sides as int,
            num_polygons >= 1,
            polygon_sides >= 1,
            (num + 1) * sides <= 0xFFFF_FFFF,
            target == spec_long_lines(num, sides),
            out@.len() == 2 * (j * num_polygons),
            forall|k: int| 0 <= k < out@.len() ==> out@[k] == target[k],
    {
        for i in 0..num_polygons
            invariant
                num == num_polygons as int,
                sides == polygon_sides as int,
                j < polygon_sides,
                num_polygons >= 1,
                (num + 1) * sides <= 0xFFFF_FFFF,
                target == spec_long_lines(num, sides),
                out@.len() == 2 * (j * num_polygons + i),
                forall|k: int| 0 <= k < out@.len() ==> out@[k] == target[k],
        {
            proof {
                lemma_vidx_bound(i as int, j as int, num + 1, sides);
                lemma_vidx_bound(i as int + 1, j as int, num + 1, sides);
            }
            let a = (i * polygon_sides + j) as u32;
            let b = ((i + 1) * polygon_sides + j) as u32;
            out.push(a);
            out.push(b);
            proof {
                let cnt: int = j as int * num + i as int;
                lemma_vidx_bound(j as int, i as int, sides, num);
                assert(2 * (sides * num) == 2 * sides * num) by (nonlinear_arith);
                lemma_block_index(2, cnt);
                lemma_block_index(num, j as int);
                assert(cnt / num == j as int);
                assert(cnt % num == cnt - (j as int) * num);
                assert forall|k: int| 0 <= k < out@.len() implies out@[k] == target[k] by {
                    if k >= 2 * cnt {
                        assert(k / 2 == cnt && k % 2 == k - 2 * cnt);
                    }
                }
            }
        }
        proof {
            assert((j as int + 1) * num == j as int * num + num) by (nonlinear_arith);
        }
    }
    proof {
        assert(2 * (sides * num) == 2 * sides * num) by (nonlinear_arith);
        assert(out@ =~= target);
    }
    out
}

/// Builds the latitude index buffer: per ring, including the closing
/// ring, each vertex connected to the next around the ring.
fn build_lat_line_indices(num_polygons: usize, polygon_sides: usize) -> (r: Vec<u32>)
    requires
        num_polygons >= 1,
        num_polygons <= 0xFFFF_FFFE,
        polygon_sides >= 1,
        (num_polygons + 1) * polygon_sides <= 0xFFFF_FFFF,
    ensures
        r@ == spec_lat_lines(num_polygons as int, polygon_sides as int),
{
    let ghost num = num_polygons as int;
    let ghost sides = polygon_sides as int;
    let ghost target = spec_lat_lines(num, sides);
    let mut out: Vec<u32> = Vec::new();
    let rings = num_polygons + 1;
    for i in 0..rings
        invariant
            num == num_polygons as int,
            sides == polygon_sides as int,
            rings == num_polygons + 1,
            polygon_sides >= 1,
            (num + 1) * sides <= 0xFFFF_FFFF,
            target == spec_lat_lines(num, sides),
            out@.len() == 2 * (i * polygon_sides),
            forall|k: int| 0 <= k < out@.len() ==> out@[k] == target[k],
    {
        for j in 0..polygon_sides
            invariant
                num == num_polygons as int,
                sides == polygon_sides as int,
                rings == num_polygons + 1,
                i < rings,
                polygon_sides >= 1,
                (num + 1) * sides <= 0xFFFF_FFFF,
                target == spec_lat_lines(num, sides),
                out@.len() == 2 * (i * polygon_sides + j),
                forall|k: int| 0 <= k < out@.len() ==> out@[k] == target[k],
        {
            proof {
                lemma_vidx_bound(i as int, j as int, num + 1, sides);
            }
            let next_side = (j + 1) % polygon_sides;
            proof {
                lemma_vidx_bound(i as int, next_side as int, num + 1, sides);
            }
            let a = (i * polygon_sides + j) as u32;
            let b = (i * polygon_sides + next_side) as u32;
            out.push(a);
            out.push(b);
            proof {
                let cnt: int = i as int * sides + j as int;
                lemma_vidx_bound(i as int, j as int, num + 1, sides);
                assert(2 * ((num + 1) * sides) == 2 * (num + 1) * sides) by (nonlinear_arith);
                lemma_block_index(2, cnt);
                lemma_block_index(sides, i as int);
                assert(cnt / sides == i as int);
                assert(cnt % sides == cnt - (i as int) * sides);
                assert forall|k: int| 0 <= k < out@.len() implies out@[k] == target[k] by {
                    if k >= 2 * cnt {
                        assert(k / 2 == cnt && k % 2 == k - 2 * cnt);
                    }
                }
            }
        }
        proof {
            assert((i as int + 1) * sides == i as int * sides + sides) by (nonlinear_arith);
        }
    }
    proof {
        assert(2 * ((num + 1) * sides) == 2 * (num + 1) * sides) by (nonlinear_arith);
        assert(out@ =~= target);
    }
    out
}

impl Lissajou3D {
    /// Generates the indexed tunnel mesh: one ring of the polygon per
    /// frame sample, a shared colored vertex buffer, and the triangle,
    /// longitude and latitude index buffers over it.
    ///
    /// Generation succeeds exactly when the arguments and sample lengths
    /// fit together; the resulting buffers are a function of the curve,
    /// the arguments and the samples alone. The vertex buffer holds
    /// `(num_polygons + 1) * polygon_sides` vertices, every index points
    /// into it, and the closing ring reuses ring zero's color bit for bit.
    pub fn generate_tunnel_mesh(
        &self,
        polygon_radius: Scalar,
        polygon_sides: usize,
        num_polygons: usize,
        samples: &TunnelSamples,
    ) -> (res: Result<Mesh, TunnelError>)
        ensures
            res is Ok <==> spec_mesh_args_ok(
                polygon_radius,
                polygon_sides as int,
                num_polygons as int,
                *samples,
            ),
            res matches Ok(m) ==> ({
                &&& m.vertices@ == spec_mesh_vertices(
                    *self,
                    polygon_radius,
                    samples.angles@,
                    samples.frames@,
                    samples.colors@,
                    num_polygons as int,
                    polygon_sides as int,
                )
                &&& m.triangles@ == spec_triangles(num_polygons as int, polygon_sides as int)
                &&& m.long_lines@ == spec_long_lines(num_polygons as int, polygon_sides as int)
                &&& m.lat_lines@ == spec_lat_lines(num_polygons as int, polygon_sides as int)
                &&& m.vertices@.len() == (num_polygons + 1) * polygon_sides
                &&& forall|k: int|
                    0 <= k < m.triangles@.len() ==> (#[trigger] m.triangles@[k] as int)
                        < m.vertices@.len()
                &&& forall|k: int|
                    0 <= k < m.long_lines@.len() ==> (#[trigger] m.long_lines@[k] as int)
                        < m.vertices@.len()
                &&& forall|k: int|
                    0 <= k < m.lat_lines@.len() ==> (#[trigger] m.lat_lines@[k] as int)
                        < m.vertices@.len()
            }),
            res matches Err(e) ==> e == TunnelError::InvalidArgument,
    {
        if !scalar_is_finite(polygon_radius) || polygon_sides < 3 || num_polygons < 1 {
            return Err(TunnelError::InvalidArgument);
        }
        if num_polygons > 0xFFFF_FFFE {
            proof {
                assert((num_polygons as int + 1) * (polygon_sides as int) > 0xFFFF_FFFF)
                    by (nonlinear_arith)
                    requires
                        num_polygons as int >= 0xFFFF_FFFF,
                        polygon_sides as int >= 3,
                ;
            }
            return Err(TunnelError::InvalidArgument);
        }
        if polygon_sides > 0xFFFF_FFFF {
            proof {
                assert((num_polygons as int + 1) * (polygon_sides as int) > 0xFFFF_FFFF)
                    by (nonlinear_arith)
                    requires
                        num_polygons as int >= 1,
                        polygon_sides as int > 0xFFFF_FFFF,
                ;
            }
            return Err(TunnelError::InvalidArgument);
        }
        proof {
            assert((num_polygons as int + 1) * (polygon_sides as int) < 0xFFFF_FFFF_FFFF_FFFF)
                by (nonlinear_arith)
                requires
                    num_polygons as int <= 0xFFFF_FFFE,
                    polygon_sides as int <= 0xFFFF_FFFF,
            ;
        }
        let vcount64: u64 = (num_polygons as u64 + 1) * (polygon_sides as u64);
        if vcount64 > 0xFFFF_FFFF {
            return Err(TunnelError::InvalidArgument);
        }
        if samples.angles.len() != polygon_sides || samples.frames.len() != num_polygons + 1
            || samples.colors.len() != num_polygons {
            return Err(TunnelError::InvalidArgument);
        }
        let polygon = match Polygon3D::new(polygon_radius, polygon_sides, &samples.angles) {
            Ok(p) => p,
            Err(e) => {
                return Err(e);
            },
        };
        let rings = num_polygons + 1;
        let mut all_polygons: Vec<Vec<V3D>> = Vec::new();
        for i in 0..rings
            invariant
                rings == num_polygons + 1,
                samples.frames@.len() == rings,
                polygon.radius == polygon_radius,
                polygon.sides == polygon_sides,
                polygon.vertices@ == spec_polygon_vertices(polygon_radius, samples.angles@),
                all_polygons@.len() == i,
                forall|ii: int|
                    0 <= ii < i ==> all_polygons@[ii]@ == spec_ring_points(
                        *self,
                        polygon_radius,
                        samples.angles@,
                        samples.frames@[ii],
                    ),
        {
            let matrix = self.transform_matrix(&samples.frames[i]);
            all_polygons.push(polygon.transform(&matrix));
        }
        let vertices = build_vertices(&all_polygons, &samples.colors, num_polygons, polygon_sides);
        proof {
            assert(rings_views(all_polygons@) =~= spec_rings(
                *self,
                polygon_radius,
                samples.angles@,
                samples.frames@,
            ));
        }
        let triangles = build_triangle_indices(num_polygons, polygon_sides);
        let long_lines = build_long_line_indices(num_polygons, polygon_sides);
        let lat_lines = build_lat_line_indices(num_polygons, polygon_sides);
        proof {
            let num = num_polygons as int;
            let sides = polygon_sides as int;
            assert forall|k: int| 0 <= k < triangles@.len() implies (#[trigger] triangles@[k]
                as int) < (num + 1) * sides by {
                lemma_triangle_indices_in_bounds(num, sides, k);
            }
            assert forall|k: int| 0 <= k < long_lines@.len() implies (#[trigger] long_lines@[k]
                as int) < (num + 1) * sides by {
                lemma_long_line_indices_in_bounds(num, sides, k);
            }
            assert forall|k: int| 0 <= k < lat_lines@.len() implies (#[trigger] lat_lines@[k]
                as int) < (num + 1) * sides by {
                lemma_lat_line_indices_in_bounds(num, sides, k);
            }
        }
        Ok(Mesh { vertices, triangles, long_lines, lat_lines })
    }
}

/// The three flat vertex streams of the non-indexed tunnel: longitude
/// lines, latitude lines, and the winding-corrected triangle stream. Each
/// is a flat sequence of narrowed coordinate triples with no sharing
/// between streams.
#[derive(Clone, PartialEq, Debug)]
pub struct TunnelBuffers {
    pub longitude: Vec<Single>,
    pub latitude: Vec<Single>,
    pub tunnel: Vec<Single>,
}

/// The componentwise sum of two three-vectors.
pub open spec fn spec_vadd(a: V3D, b: V3D) -> V3D {
    V3D { x: sadd(a.x, b.x), y: sadd(a.y, b.y), z: sadd(a.z, b.z) }
}

/// The componentwise difference of two three-vectors.
pub open spec fn spec_vsub(a: V3D, b: V3D) -> V3D {
    V3D { x: ssub(a.x, b.x), y: ssub(a.y, b.y), z: ssub(a.z, b.z) }
}

/// The centroid of a quad: the componentwise sum of its four corners,
/// summed left to right, divided by four.
pub open spec fn spec_quad_center(v0: V3D, v1: V3D, v2: V3D, v3: V3D) -> V3D {
    let four = Scalar { bits: BITS_FOUR };
    let sum = spec_vadd(spec_vadd(spec_vadd(v0, v1), v2), v3);
    V3D { x: sdiv(sum.x, four), y: sdiv(sum.y, four), z: sdiv(sum.z, four) }
}

/// The geometric normal of a candidate triangle, from the cross product
/// of its two edges out of the first corner.
pub open spec fn spec_tri_normal(v0: V3D, v1: V3D, v2: V3D) -> V3D {
    spec_cross(spec_vsub(v1, v0), spec_vsub(v2, v0))
}

/// Whether a quad's candidate winding is kept: the quad's centroid minus
/// the curve point of its ring gives the locally outward direction, and
/// the winding is kept exactly when the candidate triangle's normal has a
/// strictly positive dot product with it. Otherwise the two triangles are
/// flipped, which keeps every emitted face outward under sign flips of
/// the sweep frame.
pub open spec fn spec_quad_keeps_winding(
    v0: V3D,
    v1: V3D,
    v2: V3D,
    v3: V3D,
    curve_center: V3D,
) -> bool {
    let outward = spec_vsub(spec_quad_center(v0, v1, v2, v3), curve_center);
    slt(spec_zero(), spec_dot3(spec_tri_normal(v0, v1, v2), outward))
}

/// The flat longitude stream: per side, each ring's vertex paired with
/// the next ring's, positions written inline as narrowed triples.
pub open spec fn spec_longitude_buffer(rings: Seq<Seq<V3D>>, num: int, sides: int) -> Seq<
    Single,
> {
    Seq::new(
        (6 * sides * num) as nat,
        |k: int|
            {
                let p = k / 6;
                let e = k % 6;
                let j = p / num;
                let i = p % num;
                let cur = rings[i][j];
                let nxt = rings[i + 1][j];
                if e == 0 {
                    snarrow(cur.x)
                } else if e == 1 {
                    snarrow(cur.y)
                } else if e == 2 {
                    snarrow(cur.z)
                } else if e == 3 {
                    snarrow(nxt.x)
                } else if e == 4 {
                    snarrow(nxt.y)
                } else {
                    snarrow(nxt.z)
                }
            },
    )
}

/// The flat latitude stream: per ring, including the closing ring, each
/// vertex paired with the next one around the ring, positions written
/// inline as narrowed triples.
pub open spec fn spec_latitude_buffer(rings: Seq<Seq<V3D>>, num: int, sides: int) -> Seq<
    Single,
> {
    Seq::new(
        (6 * (num + 1) * sides) as nat,
        |k: int|
            {
                let p = k / 6;
                let e = k % 6;
                let i = p / sides;
                let j = p % sides;
                let nj = (j + 1) % sides;
                let cur = rings[i][j];
                let nxt = rings[i][nj];
                if e == 0 {
                    snarrow(cur.x)
                } else if e == 1 {
                    snarrow(cur.y)
                } else if e == 2 {
                    snarrow(cur.z)
                } else if e == 3 {
                    snarrow(nxt.x)
                } else if e == 4 {
                    snarrow(nxt.y)
                } else {
                    snarrow(nxt.z)
                }
            },
    )
}

/// The flat triangle stream: per quad, the six corners of its two
/// triangles in the winding chosen by the outward test, written inline
/// as narrowed triples.
pub open spec fn spec_tunnel_buffer(
    rings: Seq<Seq<V3D>>,
    centers: Seq<V3D>,
    num: int,
    sides: int,
) -> Seq<Single> {
    Seq::new(
        (18 * num * sides) as nat,
        |k: int|
            {
                let q = k / 18;
                let e = k % 18;
                let i = q / sides;
                let j = q % sides;
                let nj = (j + 1) % sides;
                let v0 = rings[i][j];
                let v1 = rings[i + 1][j];
                let v2 = rings[i][nj];
                let v3 = rings[i + 1][nj];
                let keep = spec_quad_keeps_winding(v0, v1, v2, v3, centers[i]);
                let c1 = if keep { v1 } else { v2 };
                let c2 = if keep { v2 } else { v1 };
                let c4 = if keep { v3 } else { v2 };
                let c5 = if keep { v2 } else { v3 };
                if e == 0 {
                    snarrow(v0.x)
                } else if e == 1 {
                    snarrow(v0.y)
                } else if e == 2 {
                    snarrow(v0.z)
                } else if e == 3 {
                    snarrow(c1.x)
                } else if e == 4 {
                    snarrow(c1.y)
                } else if e == 5 {
                    snarrow(c1.z)
                } else if e == 6 {
                    snarrow(c2.x)
                } else if e == 7 {
                    snarrow(c2.y)
                } else if e == 8 {
                    snarrow(c2.z)
                } else if e == 9 {
                    snarrow(v1.x)
                } else if e == 10 {
                    snarrow(v1.y)
                } else if e == 11 {
                    snarrow(v1.z)
                } else if e == 12 {
                    snarrow(c4.x)
                } else if e == 13 {
                    snarrow(c4.y)
                } else if e == 14 {
                    snarrow(c4.z)
                } else if e == 15 {
                    snarrow(c5.x)
                } else if e == 16 {
                    snarrow(c5.y)
                } else {
                    snarrow(c5.z)
                }
            },
    )
}

/// The curve point of each ring, one per frame sample.
pub open spec fn spec_ring_centers(c: Lissajou3D, frames: Seq<Trig3>) -> Seq<V3D> {
    Seq::new(frames.len(), |i: int| spec_position3(c, frames[i]))
}

/// When a flat-buffer generation accepts its arguments: a finite polygon
/// radius, at least three sides, at least one ring pair but few enough
/// that the ring count still fits the machine word, one angle sample per
/// side and one frame sample per ring including the closing ring.
pub open spec fn spec_buffer_args_ok(
    radius: Scalar,
    sides: int,
    num: int,
    angles: Seq<AngleTrig>,
    frames: Seq<Trig3>,
) -> bool {
    &&& is_finite(radius)
    &&& sides >= 3
    &&& num >= 1
    &&& num < usize::MAX as int
    &&& angles.len() == sides
    &&& frames.len() == num + 1
}

/// The componentwise sum of two three-vectors.
fn vadd(a: V3D, b: V3D) -> (r: V3D)
    ensures
        r == spec_vadd(a, b),
{
    V3D { x: scalar_add(a.x, b.x), y: scalar_add(a.y, b.y), z: scalar_add(a.z, b.z) }
}

/// The componentwise difference of two three-vectors.
fn vsub(a: V3D, b: V3D) -> (r: V3D)
    ensures
        r == spec_vsub(a, b),
{
    V3D { x: scalar_sub(a.x, b.x), y: scalar_sub(a.y, b.y), z: scalar_sub(a.z, b.z) }
}

/// Builds the flat longitude stream from the computed rings.
fn build_longitude_buffer(
    all_polygons: &Vec<Vec<V3D>>,
    num_polygons: usize,
    polygon_sides: usize,
) -> (r: Vec<Single>)
    requires
        num_polygons >= 1,
        polygon_sides >= 1,
        all_polygons@.len() == num_polygons + 1,
        forall|i: int|
            0 <= i < all_polygons@.len() ==> all_polygons@[i]@.len() == polygon_sides,
    ensures
        r@ == spec_longitude_buffer(
            rings_views(all_polygons@),
            num_polygons as int,
            polygon_sides as int,
        ),
{
    let ghost num = num_polygons as int;
    let ghost sides = polygon_sides as int;
    let ghost target = spec_longitude_buffer(rings_views(all_polygons@), num, sides);
    let mut out: Vec<Single> = Vec::new();
    for j in 0..polygon_sides
        invariant
            num == num_polygons as int,
            sides == polygon_sides as int,
            num_polygons >= 1,
            polygon_sides >= 1,
            all_polygons@.len() == num_polygons + 1,
            forall|ii: int|
                0 <= ii < all_polygons@.len() ==> all_polygons@[ii]@.len() == polygon_sides,
            target == spec_longitude_buffer(rings_views(all_polygons@), num, sides),
            out@.len() == 6 * (j * num_polygons),
            forall|k: int| 0 <= k < out@.len() ==> out@[k] == target[k],
    {
        for i in 0..num_polygons
            invariant
                num == num_polygons as int,
                sides == polygon_sides as int,
                j < polygon_sides,
                num_polygons >= 1,
                all_polygons@.len() == num_polygons + 1,
                forall|ii: int|
                    0 <= ii < all_polygons@.len() ==> all_polygons@[ii]@.len() == polygon_sides,
                target == spec_longitude_buffer(rings_views(all_polygons@), num, sides),
                out@.len() == 6 * (j * num_polygons + i),
                forall|k: int| 0 <= k < out@.len() ==> out@[k] == target[k],
        {
            let cur = all_polygons[i][j];
            let nxt = all_polygons[i + 1][j];
            out.push(scalar_to_single(cur.x));
            out.push(scalar_to_single(cur.y));
            out.push(scalar_to_single(cur.z));
            out.push(scalar_to_single(nxt.x));
            out.push(scalar_to_single(nxt.y));
            out.push(scalar_to_single(nxt.z));
            proof {
                let cnt: int = j as int * num + i as int;
                lemma_vidx_bound(j as int, i as int, sides, num);
                assert(6 * (sides * num) == 6 * sides * num) by (nonlinear_arith);
                lemma_block_index(6, cnt);
                lemma_block_index(num, j as int);
                assert(cnt / num == j as int);
                assert(cnt % num == cnt - (j as int) * num);
                assert forall|k: int| 0 <= k < out@.len() implies out@[k] == target[k] by {
                    if k >= 6 * cnt {
                        assert(k / 6 == cnt && k % 6 == k - 6 * cnt);
                    }
                }
            }
        }
        proof {
            assert((j as int + 1) * num == j as int * num + num) by (nonlinear_arith);
        }
    }
    proof {
        assert(6 * (sides * num) == 6 * sides * num) by (nonlinear_arith);
        assert(out@ =~= target);
    }
    out
}

/// Builds the flat latitude stream from the computed rings.
fn build_latitude_buffer(
    all_polygons: &Vec<Vec<V3D>>,
    num_polygons: usize,
    polygon_sides: usize,
) -> (r: Vec<Single>)
    requires
        num_polygons >= 1,
        num_polygons < usize::MAX,
        polygon_sides >= 1,
        all_polygons@.len() == num_polygons + 1,
        forall|i: int|
            0 <= i < all_polygons@.len() ==> all_polygons@[i]@.len() == polygon_sides,
    ensures
        r@ == spec_latitude_buffer(
            rings_views(all_polygons@),
            num_polygons as int,
            polygon_sides as int,
        ),
{
    let ghost num = num_polygons as int;
    let ghost sides = polygon_sides as int;
    let ghost target = spec_latitude_buffer(rings_views(all_polygons@), num, sides);
    let mut out: Vec<Single> = Vec::new();
    let rings = num_polygons + 1;
    for i in 0..rings
        invariant
            num == num_polygons as int,
            sides == polygon_sides as int,
            rings == num_polygons + 1,
            polygon_sides >= 1,
            all_polygons@.len() == rings,
            forall|ii: int|
                0 <= ii < all_polygons@.len() ==> all_polygons@[ii]@.len() == polygon_sides,
            target == spec_latitude_buffer(rings_views(all_polygons@), num, sides),
            out@.len() == 6 * (i * polygon_sides),
            forall|k: int| 0 <= k < out@.len() ==> out@[k] == target[k],
    {
        for j in 0..polygon_sides
            invariant
                num == num_polygons as int,
                sides == polygon_sides as int,
                rings == num_polygons + 1,
                i < rings,
                polygon_sides >= 1,
                all_polygons@.len() == rings,
                forall|ii: int|
                    0 <= ii < all_polygons@.len() ==> all_polygons@[ii]@.len() == polygon_sides,
                target == spec_latitude_buffer(rings_views(all_polygons@), num, sides),
                out@.len() == 6 * (i * polygon_sides + j),
                forall|k: int| 0 <= k < out@.len() ==> out@[k] == target[k],
        {
            let next_side = (j + 1) % polygon_sides;
            let cur = all_polygons[i][j];
            let nxt = all_polygons[i][next_side];
            out.push(scalar_to_single(cur.x));
            out.push(scalar_to_single(cur.y));
            out.push(scalar_to_single(cur.z));
            out.push(scalar_to_single(nxt.x));
            out.push(scalar_to_single(nxt.y));
            out.push(scalar_to_single(nxt.z));
            proof {
                let cnt: int = i as int * sides + j as int;
                lemma_vidx_bound(i as int, j as int, num + 1, sides);
                assert(6 * ((num + 1) * sides) == 6 * (num + 1) * sides) by (nonlinear_arith);
                lemma_block_index(6, cnt);
                lemma_block_index(sides, i as int);
                assert(cnt / sides == i as int);
                assert(cnt % sides == cnt - (i as int) * sides);
                assert forall|k: int| 0 <= k < out@.len() implies out@[k] == target[k] by {
                    if k >= 6 * cnt {
                        assert(k / 6 == cnt && k % 6 == k - 6 * cnt);
                    }
                }
            }
        }
        proof {
            assert((i as int + 1) * sides == i as int * sides + sides) by (nonlinear_arith);
        }
    }
    proof {
        assert(6 * ((num + 1) * sides) == 6 * (num + 1) * sides) by (nonlinear_arith);
        assert(out@ =~= target);
    }
    out
}

/// Builds the flat winding-corrected triangle stream from the computed
/// rings and the curve point of each ring.
fn build_tunnel_stream(
    c: &Lissajou3D,
    all_polygons: &Vec<Vec<V3D>>,
    frames: &Vec<Trig3>,
    num_polygons: usize,
    polygon_sides: usize,
) -> (r: Vec<Single>)
    requires
        num_polygons >= 1,
        num_polygons < usize::MAX,
        polygon_sides >= 1,
        all_polygons@.len() == num_polygons + 1,
        frames@.len() == num_polygons + 1,
        forall|i: int|
            0 <= i < all_polygons@.len() ==> all_polygons@[i]@.len() == polygon_sides,
    ensures
        r@ == spec_tunnel_buffer(
            rings_views(all_polygons@),
            spec_ring_centers(*c, frames@),
            num_polygons as int,
            polygon_sides as int,
        ),
{
    let ghost num = num_polygons as int;
    let ghost sides = polygon_sides as int;
    let ghost centers = spec_ring_centers(*c, frames@);
    let ghost target = spec_tunnel_buffer(rings_views(all_polygons@), centers, num, sides);
    let mut out: Vec<Single> = Vec::new();
    for i in 0..num_polygons
        invariant
            num == num_polygons as int,
            sides == polygon_sides as int,
            num_polygons >= 1,
            num_polygons < usize::MAX,
            polygon_sides >= 1,
            all_polygons@.len() == num_polygons + 1,
            frames@.len() == num_polygons + 1,
            forall|ii: int|
                0 <= ii < all_polygons@.len() ==> all_polygons@[ii]@.len() == polygon_sides,
            centers == spec_ring_centers(*c, frames@),
            target == spec_tunnel_buffer(rings_views(all_polygons@), centers, num, sides),
            out@.len() == 18 * (i * polygon_sides),
            forall|k: int| 0 <= k < out@.len() ==> out@[k] == target[k],
    {
        let curve_center = c.position(&frames[i]);
        for j in 0..polygon_sides
            invariant
                num == num_polygons as int,
                sides == polygon_sides as int,
                i < num_polygons,
                polygon_sides >= 1,
                all_polygons@.len() == num_polygons + 1,
                forall|ii: int|
                    0 <= ii < all_polygons@.len() ==> all_polygons@[ii]@.len() == polygon_sides,
                centers == spec_ring_centers(*c, frames@),
                curve_center == centers[i as int],
                target == spec_tunnel_buffer(rings_views(all_polygons@), centers, num, sides),
                out@.len() == 18 * (i * polygon_sides + j),
                forall|k: int| 0 <= k < out@.len() ==> out@[k] == target[k],
        {
            let next_side = (j + 1) % polygon_sides;
            let v0 = all_polygons[i][j];
            let v1 = all_polygons[i + 1][j];
            let v2 = all_polygons[i][next_side];
            let v3 = all_polygons[i + 1][next_side];
            let four = Scalar { bits: BITS_FOUR };
            let sum = vadd(vadd(vadd(v0, v1), v2), v3);
            let quad_center = V3D::new(
                scalar_div(sum.x, four),
                scalar_div(sum.y, four),
                scalar_div(sum.z, four),
            );
            let outward = vsub(quad_center, curve_center);
            let normal = vsub(v1, v0).cross(&vsub(v2, v0));
            let keep = scalar_lt(scalar_zero(), normal.dot(&outward));
            proof {
                assert(keep == spec_quad_keeps_winding(v0, v1, v2, v3, centers[i as int]));
            }
            let c1 = if keep { v1 } else { v2 };
            let c2 = if keep { v2 } else { v1 };
            let c4 = if keep { v3 } else { v2 };
            let c5 = if keep { v2 } else { v3 };
            out.push(scalar_to_single(v0.x));
            out.push(scalar_to_single(v0.y));
            out.push(scalar_to_single(v0.z));
            out.push(scalar_to_single(c1.x));
            out.push(scalar_to_single(c1.y));
            out.push(scalar_to_single(c1.z));
            out.push(scalar_to_single(c2.x));
            out.push(scalar_to_single(c2.y));
            out.push(scalar_to_single(c2.z));
            out.push(scalar_to_single(v1.x));
            out.push(scalar_to_single(v1.y));
            out.push(scalar_to_single(v1.z));
            out.push(scalar_to_single(c4.x));
            out.push(scalar_to_single(c4.y));
            out.push(scalar_to_single(c4.z));
            out.push(scalar_to_single(c5.x));
            out.push(scalar_to_single(c5.y));
            out.push(scalar_to_single(c5.z));
            proof {
                let cnt: int = i as int * sides + j as int;
                lemma_vidx_bound(i as int, j as int, num, sides);
                assert(18 * (num * sides) == 18 * num * sides) by (nonlinear_arith);
                lemma_block_index(18, cnt);
                lemma_block_index(sides, i as int);
                assert(cnt / sides == i as int);
                assert(cnt % sides == cnt - (i as int) * sides);
                assert forall|k: int| 0 <= k < out@.len() implies out@[k] == target[k] by {
                    if k >= 18 * cnt {
                        assert(k / 18 == cnt && k % 18 == k - 18 * cnt);
                    }
                }
            }
        }
        proof {
            assert((i as int + 1) * sides == i as int * sides + sides) by (nonlinear_arith);
        }
    }
    proof {
        assert(18 * (num * sides) == 18 * num * sides) by (nonlinear_arith);
        assert(out@ =~= target);
    }
    out
}

impl Lissajou3D {
    /// Generates the three flat vertex streams of the tunnel: longitude
    /// lines, latitude lines, and the winding-corrected triangle stream.
    /// A stream whose toggle is off is returned empty rather than being
    /// an error.
    ///
    /// Generation succeeds exactly when the arguments and sample lengths
    /// fit together; each requested stream is a function of the curve,
    /// the arguments and the samples alone.
    pub fn generate_tunnel_buffers(
        &self,
        polygon_radius: Scalar,
        polygon_sides: usize,
        num_polygons: usize,
        angles: &Vec<AngleTrig>,
        frames: &Vec<Trig3>,
        show_longitude: bool,
        show_latitude: bool,
        show_tunnel: bool,
    ) -> (res: Result<TunnelBuffers, TunnelError>)
        ensures
            res is Ok <==> spec_buffer_args_ok(
                polygon_radius,
                polygon_sides as int,
                num_polygons as int,
                angles@,
                frames@,
            ),
            res matches Ok(b) ==> ({
                let rings = spec_rings(*self, polygon_radius, angles@, frames@);
                let centers = spec_ring_centers(*self, frames@);
                let num = num_polygons as int;
                let sides = polygon_sides as int;
                &&& b.longitude@ == (if show_longitude {
                    spec_longitude_buffer(rings, num, sides)
                } else {
                    Seq::<Single>::empty()
                })
                &&& b.latitude@ == (if show_latitude {
                    spec_latitude_buffer(rings, num, sides)
                } else {
                    Seq::<Single>::empty()
                })
                &&& b.tunnel@ == (if show_tunnel {
                    spec_tunnel_buffer(rings, centers, num, sides)
                } else {
                    Seq::<Single>::empty()
                })
            }),
            res matches Err(e) ==> e == TunnelError::InvalidArgument,
    {
        if !scalar_is_finite(polygon_radius) || polygon_sides < 3 || num_polygons < 1 {
            return Err(TunnelError::InvalidArgument);
        }
        if num_polygons == usize::MAX {
            return Err(TunnelError::InvalidArgument);
        }
        if angles.len() != polygon_sides || frames.len() != num_polygons + 1 {
            return Err(TunnelError::InvalidArgument);
        }
        let polygon = match Polygon3D::new(polygon_radius, polygon_sides, angles) {
            Ok(p) => p,
            Err(e) => {
                return Err(e);
            },
        };
        let rings_count = num_polygons + 1;
        let mut all_polygons: Vec<Vec<V3D>> = Vec::new();
        for i in 0..rings_count
            invariant
                rings_count == num_polygons + 1,
                frames@.len() == rings_count,
                polygon.radius == polygon_radius,
                polygon.sides == polygon_sides,
                polygon.vertices@ == spec_polygon_vertices(polygon_radius, angles@),
                all_polygons@.len() == i,
                forall|ii: int|
                    0 <= ii < i ==> all_polygons@[ii]@ == spec_ring_points(
                        *self,
                        polygon_radius,
                        angles@,
                        frames@[ii],
                    ),
        {
            let matrix = self.transform_matrix(&frames[i]);
            all_polygons.push(polygon.transform(&matrix));
        }
        proof {
            assert(rings_views(all_polygons@) =~= spec_rings(
                *self,
                polygon_radius,
                angles@,
                frames@,
            ));
        }
        let longitude = if show_longitude {
            build_longitude_buffer(&all_polygons, num_polygons, polygon_sides)
        } else {
            Vec::new()
        };
        let latitude = if show_latitude {
            build_latitude_buffer(&all_polygons, num_polygons, polygon_sides)
        } else {
            Vec::new()
        };
        let tunnel = if show_tunnel {
            build_tunnel_stream(self, &all_polygons, frames, num_polygons, polygon_sides)
        } else {
            Vec::new()
        };
        Ok(TunnelBuffers { longitude, latitude, tunnel })
    }
}

/// Loop closure: in the generated vertex buffer, every vertex of the
/// closing ring carries, bit for bit, the color of the matching vertex of
/// ring zero, because the closing ring reuses ring zero's color instead
/// of recomputing it from its own phase.
pub proof fn lemma_color_loop_closure(
    c: Lissajou3D,
    radius: Scalar,
    angles: Seq<AngleTrig>,
    frames: Seq<Trig3>,
    colors: Seq<ColorTrig>,
    num: int,
    sides: int,
    j: int,
)
    requires
        num >= 1,
        sides >= 1,
        0 <= j < sides,
    ensures
        spec_mesh_vertices(c, radius, angles, frames, colors, num, sides)[num * sides + j].color
            == spec_mesh_vertices(c, radius, angles, frames, colors, num, sides)[j].color,
{
    lemma_vidx_bound(num, j, num + 1, sides);
    lemma_vidx_bound(0, j, num + 1, sides);
    lemma_block_index(sides, num);
    lemma_block_index(sides, 0);
    assert((num * sides + j) / sides == num);
    assert(j / sides == 0);
}

/// Every triangle index of a generated mesh points into the vertex
/// buffer: it is below `(num + 1) * sides`, the vertex count.
pub proof fn lemma_triangle_indices_in_bounds(num: int, sides: int, k: int)
    requires
        num >= 1,
        sides >= 1,
        (num + 1) * sides <= 0xFFFF_FFFF,
        0 <= k < 6 * num * sides,
    ensures
        (spec_triangles(num, sides)[k] as int) < (num + 1) * sides,
{
    assert(6 * (num * sides) == 6 * num * sides) by (nonlinear_arith);
    lemma_quotient_bound(k, num * sides, 6);
    let q: int = k / 6;
    lemma_quotient_bound(q, num, sides);
    let i: int = q / sides;
    let j: int = q % sides;
    vstd::arithmetic::div_mod::lemma_mod_bound(j + 1, sides);
    let nj: int = (j + 1) % sides;
    lemma_vidx_bound(i, j, num + 1, sides);
    lemma_vidx_bound(i + 1, j, num + 1, sides);
    lemma_vidx_bound(i, nj, num + 1, sides);
    lemma_vidx_bound(i + 1, nj, num + 1, sides);
}

/// Every longitude line index of a generated mesh points into the vertex
/// buffer.
pub proof fn lemma_long_line_indices_in_bounds(num: int, sides: int, k: int)
    requires
        num >= 1,
        sides >= 1,
        (num + 1) * sides <= 0xFFFF_FFFF,
        0 <= k < 2 * sides * num,
    ensures
        (spec_long_lines(num, sides)[k] as int) < (num + 1) * sides,
{
    assert(2 * (sides * num) == 2 * sides * num) by (nonlinear_arith);
    lemma_quotient_bound(k, sides * num, 2);
    let p: int = k / 2;
    lemma_quotient_bound(p, sides, num);
    let j: int = p / num;
    let i: int = p % num;
    lemma_vidx_bound(i, j, num + 1, sides);
    lemma_vidx_bound(i + 1, j, num + 1, sides);
}

/// Every latitude line index of a generated mesh points into the vertex
/// buffer.
pub proof fn lemma_lat_line_indices_in_bounds(num: int, sides: int, k: int)
    requires
        num >= 1,
        sides >= 1,
        (num + 1) * sides <= 0xFFFF_FFFF,
        0 <= k < 2 * (num + 1) * sides,
    ensures
        (spec_lat_lines(num, sides)[k] as int) < (num + 1) * sides,
{
    assert(2 * ((num + 1) * sides) == 2 * (num + 1) * sides) by (nonlinear_arith);
    lemma_quotient_bound(k, (num + 1) * sides, 2);
    let p: int = k / 2;
    lemma_quotient_bound(p, num + 1, sides);
    let i: int = p / sides;
    let j: int = p % sides;
    vstd::arithmetic::div_mod::lemma_mod_bound(j + 1, sides);
    let nj: int = (j + 1) % sides;
    lemma_vidx_bound(i, j, num + 1, sides);
    lemma_vidx_bound(i, nj, num + 1, sides);
}

/// Determinism of regeneration: any two meshes that the generator's
/// contract ties to the same curve, the same arguments and the same
/// samples are equal, buffer for buffer and bit for bit.
pub proof fn lemma_regeneration_deterministic(
    m1: Mesh,
    m2: Mesh,
    c: Lissajou3D,
    radius: Scalar,
    angles: Seq<AngleTrig>,
    frames: Seq<Trig3>,
    colors: Seq<ColorTrig>,
    num: int,
    sides: int,
)
    requires
        m1.vertices@ == spec_mesh_vertices(c, radius, angles, frames, colors, num, sides),
        m1.triangles@ == spec_triangles(num, sides),
        m1.long_lines@ == spec_long_lines(num, sides),
        m1.lat_lines@ == spec_lat_lines(num, sides),
        m2.vertices@ == spec_mesh_vertices(c, radius, angles, frames, colors, num, sides),
        m2.triangles@ == spec_triangles(num, sides),
        m2.long_lines@ == spec_long_lines(num, sides),
        m2.lat_lines@ == spec_lat_lines(num, sides),
    ensures
        m1.vertices@ == m2.vertices@,
        m1.triangles@ == m2.triangles@,
        m1.long_lines@ == m2.long_lines@,
        m1.lat_lines@ == m2.lat_lines@,
{
}

} // verus!
