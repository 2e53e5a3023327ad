//! Double-precision scalars carried as raw IEEE-754 bit patterns.
//!
//! The geometry in this crate is computed over IEEE-754 binary64 values.
//! To keep every arithmetic step inside the verified library, a value is
//! held as its bit pattern (a `u64`), and each arithmetic operation goes
//! through one trusted call into a software implementation of IEEE-754
//! arithmetic (the `rustc_apfloat` crate, with `ieee-apsqrt` for the
//! square root), in round-to-nearest-even mode. What such an operation
//! returns is a function of the argument bits alone, so each result is
//! given a name (an uninterpreted spec function over bit patterns), and
//! all downstream logic is verified exactly against those names.

use vstd::prelude::*;
use rustc_apfloat::Float;
use rustc_apfloat::FloatConvert;
use rustc_apfloat::ieee::Double;

verus! {

/// An IEEE-754 binary64 value, held as its raw bit pattern.
#[derive(Clone, Copy, PartialEq, Eq, Structural, Debug)]
pub struct Scalar {
    pub bits: u64,
}

/// An IEEE-754 binary32 value, held as its raw bit pattern.
///
/// The mesh buffers hand single-precision components to the renderer;
/// a `Single` is produced from a `Scalar` by `scalar_to_single`.
#[derive(Clone, Copy, PartialEq, Eq, Structural, Debug)]
pub struct Single {
    pub bits: u32,
}

/// Bit pattern of positive zero.
pub const BITS_ZERO: u64 = 0x0000_0000_0000_0000;

/// Bit pattern of one.
pub const BITS_ONE: u64 = 0x3FF0_0000_0000_0000;

/// Bit pattern of two.
pub const BITS_TWO: u64 = 0x4000_0000_0000_0000;

/// Bit pattern of four.
pub const BITS_FOUR: u64 = 0x4010_0000_0000_0000;

/// Bit pattern of the double nearest to two times pi.
pub const BITS_TWO_PI: u64 = 0x4019_21FB_5444_2D18;

/// The sign bit of a binary64 pattern.
pub const SIGN_MASK: u64 = 0x8000_0000_0000_0000;

/// Positive zero as a `Scalar`.
pub open spec fn spec_zero() -> Scalar {
    Scalar { bits: BITS_ZERO }
}

/// Returns positive zero.
pub fn scalar_zero() -> (r: Scalar)
    ensures
        r == spec_zero(),
{
    Scalar { bits: BITS_ZERO }
}

/// What IEEE-754 addition returns, by argument bit patterns.
pub uninterp spec fn add_bits(x: u64, y: u64) -> u64;

/// What IEEE-754 subtraction returns, by argument bit patterns.
pub uninterp spec fn sub_bits(x: u64, y: u64) -> u64;

/// What IEEE-754 multiplication returns, by argument bit patterns.
pub uninterp spec fn mul_bits(x: u64, y: u64) -> u64;

/// What IEEE-754 division returns, by argument bit patterns.
pub uninterp spec fn div_bits(x: u64, y: u64) -> u64;

/// What IEEE-754 square root returns, by argument bit pattern.
pub uninterp spec fn sqrt_bits(x: u64) -> u64;

/// What the IEEE-754 less-than comparison returns, by argument bit patterns.
pub uninterp spec fn lt_bits(x: u64, y: u64) -> bool;

/// What conversion of an unsigned integer to binary64 returns.
pub uninterp spec fn u64_to_f64_bits(n: u64) -> u64;

/// What narrowing a binary64 value to binary32 returns.
pub uninterp spec fn narrow_bits(x: u64) -> u32;

/// The sum of two scalars.
pub open spec fn sadd(x: Scalar, y: Scalar) -> Scalar {
    Scalar { bits: add_bits(x.bits, y.bits) }
}

/// The difference of two scalars.
pub open spec fn ssub(x: Scalar, y: Scalar) -> Scalar {
    Scalar { bits: sub_bits(x.bits, y.bits) }
}

/// The product of two scalars.
pub open spec fn smul(x: Scalar, y: Scalar) -> Scalar {
    Scalar { bits: mul_bits(x.bits, y.bits) }
}

/// The quotient of two scalars.
pub open spec fn sdiv(x: Scalar, y: Scalar) -> Scalar {
    Scalar { bits: div_bits(x.bits, y.bits) }
}

/// The square root of a scalar.
pub open spec fn ssqrt(x: Scalar) -> Scalar {
    Scalar { bits: sqrt_bits(x.bits) }
}

/// Whether `x` is less than `y` in the IEEE-754 order.
pub open spec fn slt(x: Scalar, y: Scalar) -> bool {
    lt_bits(x.bits, y.bits)
}

/// The negation of a scalar: IEEE-754 negation flips the sign bit.
pub open spec fn sneg(x: Scalar) -> Scalar {
    Scalar { bits: x.bits ^ SIGN_MASK }
}

/// The binary32 value nearest to a scalar.
pub open spec fn snarrow(x: Scalar) -> Single {
    Single { bits: narrow_bits(x.bits) }
}

/// Whether a bit pattern encodes a finite value: its exponent field is
/// not all ones (all ones encodes an infinity or a NaN).
pub open spec fn is_finite(x: Scalar) -> bool {
    (x.bits >> 52) & 0x7FF != 0x7FF
}

/// Tests whether a scalar encodes a finite value.
pub fn scalar_is_finite(x: Scalar) -> (r: bool)
    ensures
        r == is_finite(x),
{
    (x.bits >> 52) & 0x7FF != 0x7FF
}

/// Negates a scalar by flipping its sign bit, which is exactly IEEE-754
/// negation.
pub fn scalar_neg(x: Scalar) -> (r: Scalar)
    ensures
        r == sneg(x),
{
    Scalar { bits: x.bits ^ SIGN_MASK }
}

/// Relies on the addition of `rustc_apfloat::ieee::Double`: IEEE-754
/// binary64 addition, round to nearest even; a function of the argument bits alone.
/// The sum of two positive zeros is positive zero.
#[verifier::external_body]
pub(crate) fn scalar_add(x: Scalar, y: Scalar) -> (r: Scalar)
    ensures
        r.bits == add_bits(x.bits, y.bits),
        x.bits == BITS_ZERO && y.bits == BITS_ZERO ==> r.bits == BITS_ZERO,
{
    let a = Double::from_bits(x.bits as u128);
    let b = Double::from_bits(y.bits as u128);
    Scalar { bits: (a + b).value.to_bits() as u64 }
}

/// Relies on the subtraction of `rustc_apfloat::ieee::Double`: IEEE-754
/// binary64 subtraction, round to nearest even; a function of the argument bits alone.
#[verifier::external_body]
pub(crate) fn scalar_sub(x: Scalar, y: Scalar) -> (r: Scalar)
    ensures
        r.bits == sub_bits(x.bits, y.bits),
{
    let a = Double::from_bits(x.bits as u128);
    let b = Double::from_bits(y.bits as u128);
    Scalar { bits: (a - b).value.to_bits() as u64 }
}

/// Relies on the multiplication of `rustc_apfloat::ieee::Double`: IEEE-754
/// binary64 multiplication, round to nearest even; a function of the argument bits
/// alone. The product of two positive zeros is positive zero.
#[verifier::external_body]
pub(crate) fn scalar_mul(x: Scalar, y: Scalar) -> (r: Scalar)
    ensures
        r.bits == mul_bits(x.bits, y.bits),
        x.bits == BITS_ZERO && y.bits == BITS_ZERO ==> r.bits == BITS_ZERO,
{
    let a = Double::from_bits(x.bits as u128);
    let b = Double::from_bits(y.bits as u128);
    Scalar { bits: (a * b).value.to_bits() as u64 }
}

/// Relies on the division of `rustc_apfloat::ieee::Double`: IEEE-754
/// binary64 division, round to nearest even; a function of the argument bits alone.
#[verifier::external_body]
pub(crate) fn scalar_div(x: Scalar, y: Scalar) -> (r: Scalar)
    ensures
        r.bits == div_bits(x.bits, y.bits),
{
    let a = Double::from_bits(x.bits as u128);
    let b = Double::from_bits(y.bits as u128);
    Scalar { bits: (a / b).value.to_bits() as u64 }
}

/// Relies on `ieee_apsqrt::sqrt_accurate`, on raw bit patterns: IEEE-754
/// binary64 square root, round to nearest even; a function of the argument bits
/// alone. The square root of positive zero is positive zero.
#[verifier::external_body]
pub(crate) fn scalar_sqrt(x: Scalar) -> (r: Scalar)
    ensures
        r.bits == sqrt_bits(x.bits),
        x.bits == BITS_ZERO ==> r.bits == BITS_ZERO,
{
    let (res, _iterations) = ieee_apsqrt::sqrt_accurate(x.bits, rustc_apfloat::Round::NearestTiesToEven);
    Scalar { bits: res.value }
}

/// Relies on the ordering of `rustc_apfloat::ieee::Double`: the IEEE-754
/// less-than predicate; a function of the argument bits alone. It is
/// irreflexive: on two equal bit patterns it returns false (also when they
/// encode a NaN).
#[verifier::external_body]
pub(crate) fn scalar_lt(x: Scalar, y: Scalar) -> (r: bool)
    ensures
        r == lt_bits(x.bits, y.bits),
        x == y ==> r == false,
{
    let a = Double::from_bits(x.bits as u128);
    let b = Double::from_bits(y.bits as u128);
    a < b
}

/// Relies on `rustc_apfloat::Float::from_u128`: conversion of an unsigned
/// integer to the nearest binary64 value; a function of the argument alone.
#[verifier::external_body]
pub(crate) fn scalar_from_u64(n: u64) -> (r: Scalar)
    ensures
        r.bits == u64_to_f64_bits(n),
{
    Scalar { bits: Double::from_u128(n as u128).value.to_bits() as u64 }
}

/// Relies on `rustc_apfloat::FloatConvert::convert` from binary64 to
/// binary32: the binary32 value nearest to a binary64 value, round to
/// nearest even; a function of the argument bits alone.
#[verifier::external_body]
pub(crate) fn scalar_to_single(x: Scalar) -> (r: Single)
    ensures
        r.bits == narrow_bits(x.bits),
{
    let a = Double::from_bits(x.bits as u128);
    let mut loses_info = false;
    let narrowed: rustc_apfloat::StatusAnd<rustc_apfloat::ieee::Single> = a.convert(&mut loses_info);
    Single { bits: narrowed.value.to_bits() as u32 }
}

} // verus!
