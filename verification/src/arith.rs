//! Rounded IEEE-754 arithmetic on the raw bit representation of binary32 and
//! binary64 values.
//!
//! Every operation here rounds to nearest, ties to even.  The exact rounded
//! result of an operation takes pages to state, so each operation's result is
//! given a name by an uninterpreted spec function: the surrounding algebra is
//! specified and verified as an exact composition of these named roundings.

use vstd::prelude::*;

use rustc_apfloat::Float;
use rustc_apfloat::FloatConvert;

verus! {

/// The binary32 sum of two values given by their bits, rounded to nearest even.
pub uninterp spec fn fadd32(a: u32, b: u32) -> u32;

/// The binary32 product of two values given by their bits, rounded to nearest even.
pub uninterp spec fn fmul32(a: u32, b: u32) -> u32;

/// The binary32 quotient of two values given by their bits, rounded to nearest even.
pub uninterp spec fn fdiv32(a: u32, b: u32) -> u32;

/// The binary32 square root of a value given by its bits, rounded to nearest even.
pub uninterp spec fn fsqrt32(a: u32) -> u32;

/// The binary32 fused multiply-add `a * b + c` with a single final rounding.
pub uninterp spec fn ffma32(a: u32, b: u32, c: u32) -> u32;

/// The binary64 sum of two values given by their bits, rounded to nearest even.
pub uninterp spec fn fadd64(a: u64, b: u64) -> u64;

/// The binary64 product of two values given by their bits, rounded to nearest even.
pub uninterp spec fn fmul64(a: u64, b: u64) -> u64;

/// The binary64 quotient of two values given by their bits, rounded to nearest even.
pub uninterp spec fn fdiv64(a: u64, b: u64) -> u64;

/// The binary64 square root of a value given by its bits, rounded to nearest even.
pub uninterp spec fn fsqrt64(a: u64) -> u64;

/// The binary64 fused multiply-add `a * b + c` with a single final rounding.
pub uninterp spec fn ffma64(a: u64, b: u64, c: u64) -> u64;

/// The binary64 value narrowed to binary32, rounded to nearest even.
pub uninterp spec fn fnarrow64(a: u64) -> u32;

/// The binary32 value widened to binary64; the widening is exact.
pub uninterp spec fn fwiden32(a: u32) -> u64;

/// Relies on const_soft_float's SoftF32::add: IEEE binary32 addition, round to
/// nearest even, computed on the bit representation.  The last two clauses are
/// the crate's explicit zero cases: adding positive zero to a finite nonzero
/// value returns it unchanged, and a sum of zeros is the AND of their bits.
#[verifier::external_body]
pub(crate) fn add32(a: u32, b: u32) -> (r: u32)
    ensures
        r == fadd32(a, b),
        b == 0 && (a & 0x7f80_0000) != 0x7f80_0000 && (a & 0x7fff_ffff) != 0 ==> r == a,
        b == 0 && (a & 0x7fff_ffff) == 0 ==> r == 0,
{
    const_soft_float::soft_f32::SoftF32::from_bits(a)
        .add(const_soft_float::soft_f32::SoftF32::from_bits(b))
        .to_bits()
}

/// Relies on const_soft_float's SoftF32::mul: IEEE binary32 multiplication,
/// round to nearest even, computed on the bit representation.
#[verifier::external_body]
pub(crate) fn mul32(a: u32, b: u32) -> (r: u32)
    ensures
        r == fmul32(a, b),
{
    const_soft_float::soft_f32::SoftF32::from_bits(a)
        .mul(const_soft_float::soft_f32::SoftF32::from_bits(b))
        .to_bits()
}

/// Relies on rustc_apfloat's Single::div_r: IEEE binary32 division, round to
/// nearest even, computed on the bit representation.
#[verifier::external_body]
pub(crate) fn div32(a: u32, b: u32) -> (r: u32)
    ensures
        r == fdiv32(a, b),
{
    let x = rustc_apfloat::ieee::Single::from_bits(a as u128);
    let y = rustc_apfloat::ieee::Single::from_bits(b as u128);
    x.div_r(y, rustc_apfloat::Round::NearestTiesToEven).value.to_bits() as u32
}

/// Relies on const_soft_float's SoftF32::sqrt: IEEE binary32 square root,
/// round to nearest even, computed on the bit representation.
#[verifier::external_body]
pub(crate) fn sqrt32(a: u32) -> (r: u32)
    ensures
        r == fsqrt32(a),
{
    const_soft_float::soft_f32::SoftF32::from_bits(a).sqrt().to_bits()
}

/// Relies on rustc_apfloat's Single::mul_add_r: fused multiply-add on IEEE
/// binary32 values, a single rounding to nearest even at the end.
#[verifier::external_body]
pub(crate) fn fma32(a: u32, b: u32, c: u32) -> (r: u32)
    ensures
        r == ffma32(a, b, c),
{
    let x = rustc_apfloat::ieee::Single::from_bits(a as u128);
    let y = rustc_apfloat::ieee::Single::from_bits(b as u128);
    let z = rustc_apfloat::ieee::Single::from_bits(c as u128);
    x.mul_add_r(y, z, rustc_apfloat::Round::NearestTiesToEven).value.to_bits() as u32
}

/// Relies on const_soft_float's SoftF64::add: IEEE binary64 addition, round to
/// nearest even, computed on the bit representation.  The last two clauses are
/// the crate's explicit zero cases: adding positive zero to a finite nonzero
/// value returns it unchanged, and a sum of zeros is the AND of their bits.
#[verifier::external_body]
pub(crate) fn add64(a: u64, b: u64) -> (r: u64)
    ensures
        r == fadd64(a, b),
        b == 0 && (a & 0x7ff0_0000_0000_0000) != 0x7ff0_0000_0000_0000
            && (a & 0x7fff_ffff_ffff_ffff) != 0 ==> r == a,
        b == 0 && (a & 0x7fff_ffff_ffff_ffff) == 0 ==> r == 0,
{
    const_soft_float::soft_f64::SoftF64::from_bits(a)
        .add(const_soft_float::soft_f64::SoftF64::from_bits(b))
        .to_bits()
}

/// Relies on const_soft_float's SoftF64::mul: IEEE binary64 multiplication,
/// round to nearest even, computed on the bit representation.
#[verifier::external_body]
pub(crate) fn mul64(a: u64, b: u64) -> (r: u64)
    ensures
        r == fmul64(a, b),
{
    const_soft_float::soft_f64::SoftF64::from_bits(a)
        .mul(const_soft_float::soft_f64::SoftF64::from_bits(b))
        .to_bits()
}

/// Relies on rustc_apfloat's Double::div_r: IEEE binary64 division, round to
/// nearest even, computed on the bit representation.
#[verifier::external_body]
pub(crate) fn div64(a: u64, b: u64) -> (r: u64)
    ensures
        r == fdiv64(a, b),
{
    let x = rustc_apfloat::ieee::Double::from_bits(a as u128);
    let y = rustc_apfloat::ieee::Double::from_bits(b as u128);
    x.div_r(y, rustc_apfloat::Round::NearestTiesToEven).value.to_bits() as u64
}

/// Relies on const_soft_float's SoftF64::sqrt: IEEE binary64 square root,
/// round to nearest even, computed on the bit representation.
#[verifier::external_body]
pub(crate) fn sqrt64(a: u64) -> (r: u64)
    ensures
        r == fsqrt64(a),
{
    const_soft_float::soft_f64::SoftF64::from_bits(a).sqrt().to_bits()
}

/// Relies on rustc_apfloat's FloatConvert from Double to Single: the rounded
/// narrowing of a binary64 value to binary32.
#[verifier::external_body]
pub(crate) fn narrow64(a: u64) -> (r: u32)
    ensures
        r == fnarrow64(a),
{
    let x = rustc_apfloat::ieee::Double::from_bits(a as u128);
    let mut lost = false;
    let y: rustc_apfloat::StatusAnd<rustc_apfloat::ieee::Single> =
        x.convert_r(rustc_apfloat::Round::NearestTiesToEven, &mut lost);
    y.value.to_bits() as u32
}

/// Relies on rustc_apfloat's FloatConvert from Single to Double: the exact
/// widening of a binary32 value to binary64.
#[verifier::external_body]
pub(crate) fn widen32(a: u32) -> (r: u64)
    ensures
        r == fwiden32(a),
{
    let x = rustc_apfloat::ieee::Single::from_bits(a as u128);
    let mut lost = false;
    let y: rustc_apfloat::StatusAnd<rustc_apfloat::ieee::Double> =
        x.convert_r(rustc_apfloat::Round::NearestTiesToEven, &mut lost);
    y.value.to_bits() as u64
}

/// Relies on rustc_apfloat's Double::mul_add_r: fused multiply-add on IEEE
/// binary64 values, a single rounding to nearest even at the end.
#[verifier::external_body]
pub(crate) fn fma64(a: u64, b: u64, c: u64) -> (r: u64)
    ensures
        r == ffma64(a, b, c),
{
    let x = rustc_apfloat::ieee::Double::from_bits(a as u128);
    let y = rustc_apfloat::ieee::Double::from_bits(b as u128);
    let z = rustc_apfloat::ieee::Double::from_bits(c as u128);
    x.mul_add_r(y, z, rustc_apfloat::Round::NearestTiesToEven).value.to_bits() as u64
}

} // verus!
