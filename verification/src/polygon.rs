//! A regular polygon in the local XY plane, and its transforms.
//!
//! The polygon's vertices lie at angles of `i` times two pi over `sides`.
//! The cosine and sine of those angles are handed in as samples (the host
//! evaluates the trigonometric functions); everything from the samples to
//! the vertex buffers is verified arithmetic.

use vstd::prelude::*;
use crate::scalar::{
    Scalar, Single, BITS_TWO_PI, spec_zero, scalar_zero, smul, sdiv, snarrow, u64_to_f64_bits,
    scalar_mul, scalar_div, scalar_from_u64, scalar_to_single, is_finite, scalar_is_finite,
};
use crate::math::{V3D, Matrix4, spec_transform3};
use crate::TunnelError;

verus! {

/// The cosine and sine of one angle, as sampled by the host.
#[derive(Clone, Copy, PartialEq, Eq, Structural, Debug)]
pub struct AngleTrig {
    pub cos: Scalar,
    pub sin: Scalar,
}

/// A regular polygon of `sides` vertices in the local XY plane.
#[derive(Clone, Debug)]
pub struct Polygon3D {
    pub radius: Scalar,
    pub sides: usize,
    pub vertices: Vec<V3D>,
}

/// A polygon is well formed when it holds exactly one vertex per side,
/// as every polygon built by [`Polygon3D::new`] does.
pub open spec fn spec_polygon_wf(p: Polygon3D) -> bool {
    p.vertices@.len() == p.sides
}

/// The angle of vertex `i` of a regular polygon: `i` times the step of
/// two pi divided by `sides`.
pub open spec fn spec_polygon_angle(i: u64, sides: u64) -> Scalar {
    smul(
        Scalar { bits: u64_to_f64_bits(i) },
        sdiv(Scalar { bits: BITS_TWO_PI }, Scalar { bits: u64_to_f64_bits(sides) }),
    )
}

/// Vertex `i` of a regular polygon, from the sampled cosine and sine of
/// its angle: the radius times the cosine, the radius times the sine, and
/// zero (the polygon starts out flat in the XY plane).
pub open spec fn spec_polygon_vertex(radius: Scalar, a: AngleTrig) -> V3D {
    V3D { x: smul(radius, a.cos), y: smul(radius, a.sin), z: spec_zero() }
}

/// The local-plane vertices of a polygon with the given radius, one per
/// angle sample.
pub open spec fn spec_polygon_vertices(radius: Scalar, angles: Seq<AngleTrig>) -> Seq<V3D> {
    Seq::new(angles.len(), |i: int| spec_polygon_vertex(radius, angles[i]))
}

/// A polygon's vertex list transformed by a matrix, pointwise.
pub open spec fn spec_transformed_vertices(pts: Seq<V3D>, m: Matrix4) -> Seq<V3D> {
    Seq::new(pts.len(), |i: int| spec_transform3(pts[i], m))
}

/// The outline of a transformed polygon as flat line segments: for each
/// vertex, the three narrowed components of that vertex followed by the
/// three narrowed components of the next one around (wrapping from the
/// last vertex back to the first).
pub open spec fn spec_line_vertices(pts: Seq<V3D>) -> Seq<Single> {
    Seq::new(
        pts.len() * 6,
        |k: int|
            {
                let cur = pts[k / 6];
                let nxt = pts[(k / 6 + 1) % (pts.len() as int)];
                let r = k % 6;
                if r == 0 {
                    snarrow(cur.x)
                } else if r == 1 {
                    snarrow(cur.y)
                } else if r == 2 {
                    snarrow(cur.z)
                } else if r == 3 {
                    snarrow(nxt.x)
                } else if r == 4 {
                    snarrow(nxt.y)
                } else {
                    snarrow(nxt.z)
                }
            },
    )
}

/// Computes the angle of vertex `i` of a regular polygon with `sides`
/// vertices, so that a host can sample its cosine and sine.
pub fn polygon_angle(i: u64, sides: u64) -> (r: Scalar)
    ensures
        r == spec_polygon_angle(i, sides),
{
    let step = scalar_div(Scalar { bits: BITS_TWO_PI }, scalar_from_u64(sides));
    scalar_mul(scalar_from_u64(i), step)
}

impl Polygon3D {
    /// Builds a regular polygon of `sides` vertices with the given radius
    /// from the sampled cosine and sine of each vertex angle.
    ///
    /// Construction succeeds exactly when the radius is finite, there are
    /// at least three sides, and one angle sample is given per side;
    /// otherwise the arguments are rejected.
    pub fn new(radius: Scalar, sides: usize, angles: &Vec<AngleTrig>) -> (r: Result<
        Self,
        TunnelError,
    >)
        ensures
            r is Ok <==> (is_finite(radius) && sides >= 3 && angles@.len() == sides),
            r matches Ok(p) ==> p.radius == radius && p.sides == sides && p.vertices@
                == spec_polygon_vertices(radius, angles@),
            r matches Ok(p) ==> spec_polygon_wf(p),
            r matches Err(e) ==> e == TunnelError::InvalidArgument,
    {
        if !scalar_is_finite(radius) || sides < 3 || angles.len() != sides {
            return Err(TunnelError::InvalidArgument);
        }
        let mut vertices: Vec<V3D> = Vec::with_capacity(sides);
        for i in 0..sides
            invariant
                angles@.len() == sides,
                vertices@.len() == i,
                forall|j: int|
                    0 <= j < i ==> vertices@[j] == spec_polygon_vertex(radius, angles@[j]),
        {
            let a = angles[i];
            vertices.push(V3D::new(scalar_mul(radius, a.cos), scalar_mul(radius, a.sin), scalar_zero()));
        }
        proof {
            assert(vertices@ =~= spec_polygon_vertices(radius, angles@));
        }
        Ok(Self { radius, sides, vertices })
    }

    /// Transforms every vertex of the polygon by a four-by-four matrix and
    /// returns the fresh vertex list; the polygon itself is not changed.
    /// For a well-formed polygon the result has exactly one vertex per
    /// side, whatever the matrix.
    pub fn transform(&self, matrix: &Matrix4) -> (r: Vec<V3D>)
        ensures
            r@ == spec_transformed_vertices(self.vertices@, *matrix),
            r@.len() == self.vertices@.len(),
            spec_polygon_wf(*self) ==> r@.len() == self.sides,
    {
        let n = self.vertices.len();
        let mut out: Vec<V3D> = Vec::with_capacity(n);
        for i in 0..n
            invariant
                n == self.vertices@.len(),
                out@.len() == i,
                forall|j: int|
                    0 <= j < i ==> out@[j] == spec_transform3(self.vertices@[j], *matrix),
        {
            out.push(self.vertices[i].transform(matrix));
        }
        proof {
            assert(out@ =~= spec_transformed_vertices(self.vertices@, *matrix));
        }
        out
    }

    /// Generates the transformed polygon's outline as flat line segments
    /// for rendering: two endpoints, of three narrowed components each,
    /// per edge, with the closing edge wrapping back to the first vertex.
    pub fn generate_line_vertices(&self, matrix: &Matrix4) -> (r: Vec<Single>)
        ensures
            r@ == spec_line_vertices(spec_transformed_vertices(self.vertices@, *matrix)),
    {
        let transformed = self.transform(matrix);
        let n = transformed.len();
        let ghost pts = spec_transformed_vertices(self.vertices@, *matrix);
        let mut out: Vec<Single> = Vec::new();
        for i in 0..n
            invariant
                pts == spec_transformed_vertices(self.vertices@, *matrix),
                transformed@ == pts,
                n == pts.len(),
                out@.len() == i * 6,
                forall|k: int| 0 <= k < i * 6 ==> out@[k] == spec_line_vertices(pts)[k],
        {
            let cur = transformed[i];
            let nxt = transformed[(i + 1) % n];
            out.push(scalar_to_single(cur.x));
            out.push(scalar_to_single(cur.y));
            out.push(scalar_to_single(cur.z));
            out.push(scalar_to_single(nxt.x));
            out.push(scalar_to_single(nxt.y));
            out.push(scalar_to_single(nxt.z));
            proof {
                crate::lemma_block_index(6, i as int);
            }
        }
        proof {
            assert(out@ =~= spec_line_vertices(pts));
        }
        out
    }
}

} // verus!
