//! A verified mesh-generation core for an animated Lissajous tunnel.
//!
//! The library evaluates a parametric curve and its derivatives, builds a
//! moving orthonormal frame along it, sweeps a regular polygon through the
//! frames, and emits colored, correctly indexed geometry buffers. All
//! floating-point values are carried as IEEE-754 bit patterns and all
//! arithmetic goes through a software float implementation behind exact
//! contracts, so the whole pipeline from samples to buffers is verified.
//! The host supplies only trigonometric samples, and rendering is left to
//! the caller.

use vstd::prelude::*;

pub mod lisa;
pub mod lisa4;
pub mod math;
pub mod polygon;
pub mod scalar;

verus! {

/// Why a construction or generation call rejected its arguments.
#[derive(Clone, Copy, PartialEq, Eq, Structural, Debug)]
pub enum TunnelError {
    InvalidArgument,
}

/// Clamps a requested ring count into the supported display range of ten
/// to one thousand, as the host does before regenerating the mesh.
pub fn clamp_polygon_count(num: usize) -> (r: usize)
    ensures
        r == (if num < 10 {
            10usize
        } else if num > 1000 {
            1000usize
        } else {
            num
        }),
        10 <= r <= 1000,
{
    if num < 10 {
        10
    } else if num > 1000 {
        1000
    } else {
        num
    }
}

/// Positions inside one block of `g` consecutive slots: for every index
/// `k` in block `i`, integer division by `g` recovers `i` and the
/// remainder recovers the offset inside the block.
pub proof fn lemma_block_index(g: int, i: int)
    requires
        g > 0,
    ensures
        forall|k: int|
            i * g <= k < i * g + g ==> #[trigger] (k / g) == i && k % g == k - i * g,
{
    assert forall|k: int| i * g <= k < i * g + g implies #[trigger] (k / g) == i && k % g == k
        - i * g by {
        vstd::arithmetic::div_mod::lemma_fundamental_div_mod_converse(k, g, i, k - i * g);
    }
}

} // verus!
