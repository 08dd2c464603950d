//! The 32-bit IEEE-754 element kind.

use vstd::prelude::*;

use crate::arith::{
    add32, add64, div32, fadd32, fadd64, fdiv32, ffma32, fma32, fmul32, fnarrow64, fsqrt32,
    fwiden32, mul32, narrow64, sqrt32, widen32,
};
use crate::double::F64;
use crate::{Check, CheckOrder, Doubled, Element, FromMask, Upper};

verus! {

/// A 32-bit IEEE-754 binary floating-point element, carried as its raw bit
/// representation: sign bit, 8 exponent bits, 23 mantissa bits.
#[derive(Clone, Copy, Debug, PartialEq, Eq, Structural)]
pub struct F32 {
    pub bits: u32,
}

/// The bits of `b` with the sign cleared: the magnitude's representation.
pub open spec fn abs_bits32(b: u32) -> u32 {
    b & 0x7fff_ffff
}

/// NaN: exponent all ones, mantissa nonzero.
pub open spec fn is_nan32(b: u32) -> bool {
    (b & 0x7f80_0000) == 0x7f80_0000 && (b & 0x007f_ffff) != 0
}

/// Infinity of either sign: exponent all ones, mantissa zero.
pub open spec fn is_infinite32(b: u32) -> bool {
    abs_bits32(b) == 0x7f80_0000
}

/// Finite: exponent not all ones.
pub open spec fn is_finite32(b: u32) -> bool {
    (b & 0x7f80_0000) != 0x7f80_0000
}

/// Strictly negative as a floating-point comparison with zero: sign set, not
/// a zero, not a NaN.
pub open spec fn lt_zero32(b: u32) -> bool {
    (b & 0x8000_0000) != 0 && abs_bits32(b) != 0 && !is_nan32(b)
}

impl F32 {
    pub fn from_bits(bits: u32) -> (r: Self)
        ensures
            r.bits == bits,
    {
        F32 { bits }
    }

    pub fn to_bits(self) -> (r: u32)
        ensures
            r == self.bits,
    {
        self.bits
    }

    pub fn is_nan(self) -> (r: bool)
        ensures
            r == is_nan32(self.bits),
    {
        (self.bits & 0x7f80_0000) == 0x7f80_0000 && (self.bits & 0x007f_ffff) != 0
    }

    pub fn is_infinite(self) -> (r: bool)
        ensures
            r == is_infinite32(self.bits),
    {
        (self.bits & 0x7fff_ffff) == 0x7f80_0000
    }
}

impl Upper for F32 {
    /// Clears the low 12 mantissa bits, leaving room for exact half products.
    open spec fn upper_spec(self) -> Self {
        F32 { bits: self.bits & 0xffff_f000 }
    }

    fn upper(self) -> (r: Self) {
        F32 { bits: self.bits & 0xffff_f000 }
    }
}

impl Element for F32 {
    open spec fn add_spec(a: Self, b: Self) -> Self {
        F32 { bits: fadd32(a.bits, b.bits) }
    }

    /// Subtraction is addition of the negation, exactly as in IEEE-754.
    open spec fn sub_spec(a: Self, b: Self) -> Self {
        Self::add_spec(a, Self::neg_spec(b))
    }

    open spec fn mul_spec(a: Self, b: Self) -> Self {
        F32 { bits: fmul32(a.bits, b.bits) }
    }

    open spec fn div_spec(a: Self, b: Self) -> Self {
        F32 { bits: fdiv32(a.bits, b.bits) }
    }

    open spec fn sqrt_spec(a: Self) -> Self {
        F32 { bits: fsqrt32(a.bits) }
    }

    /// Negation flips the sign bit and nothing else.
    open spec fn neg_spec(a: Self) -> Self {
        F32 { bits: a.bits ^ 0x8000_0000 }
    }

    open spec fn fma_spec(a: Self, b: Self, c: Self) -> Self {
        F32 { bits: ffma32(a.bits, b.bits, c.bits) }
    }

    open spec fn xor_sign_spec(a: Self, b: Self) -> Self {
        F32 { bits: a.bits ^ (b.bits & 0x8000_0000) }
    }

    open spec fn zero_spec() -> Self {
        F32 { bits: 0 }
    }

    open spec fn one_spec() -> Self {
        F32 { bits: 0x3f80_0000 }
    }

    open spec fn half_spec() -> Self {
        F32 { bits: 0x3f00_0000 }
    }

    open spec fn is_finite(self) -> bool {
        is_finite32(self.bits)
    }

    open spec fn is_zero(self) -> bool {
        abs_bits32(self.bits) == 0
    }

    fn add(self, other: Self) -> (r: Self) {
        F32 { bits: add32(self.bits, other.bits) }
    }

    fn sub(self, other: Self) -> (r: Self) {
        F32 { bits: add32(self.bits, other.bits ^ 0x8000_0000) }
    }

    fn mul(self, other: Self) -> (r: Self) {
        F32 { bits: mul32(self.bits, other.bits) }
    }

    fn div(self, other: Self) -> (r: Self) {
        F32 { bits: div32(self.bits, other.bits) }
    }

    fn sqrt(self) -> (r: Self) {
        F32 { bits: sqrt32(self.bits) }
    }

    fn neg(self) -> (r: Self) {
        F32 { bits: self.bits ^ 0x8000_0000 }
    }

    fn fma(self, b: Self, c: Self) -> (r: Self) {
        F32 { bits: fma32(self.bits, b.bits, c.bits) }
    }

    fn xor_sign(self, from: Self) -> (r: Self) {
        F32 { bits: self.bits ^ (from.bits & 0x8000_0000) }
    }

    fn zero() -> (r: Self) {
        F32 { bits: 0 }
    }

    fn one() -> (r: Self) {
        F32 { bits: 0x3f80_0000 }
    }

    fn half() -> (r: Self) {
        F32 { bits: 0x3f00_0000 }
    }
}

impl Check for F32 {
    open spec fn check_spec(self) -> bool {
        is_infinite32(self.bits) || is_nan32(self.bits)
    }

    fn check(self) -> (r: bool) {
        self.is_infinite() || self.is_nan()
    }
}

impl FromMask for Doubled<F32> {
    type Mask = u32;

    open spec fn from_mask_spec(u0: u32, u1: u32) -> Self {
        Doubled(F32 { bits: u0 }, F32 { bits: u1 })
    }

    fn from_mask(u0: u32, u1: u32) -> (r: Self) {
        Doubled(F32 { bits: u0 }, F32 { bits: u1 })
    }
}

impl Doubled<F32> {
    /// The mathematical value is unchanged when the leading component is
    /// nonnegative, and is negated componentwise when it is strictly negative,
    /// in the sense of the floating-point comparison with zero.
    pub open spec fn abs_spec(self) -> Self {
        if lt_zero32(self.0.bits) {
            Doubled(F32::neg_spec(self.0), F32::neg_spec(self.1))
        } else {
            self
        }
    }

    pub fn abs(self) -> (r: Self)
        ensures
            r == self.abs_spec(),
    {
        if (self.0.bits & 0x8000_0000) != 0 && (self.0.bits & 0x7fff_ffff) != 0
            && !self.0.is_nan() {
            Doubled(self.0.neg(), self.1.neg())
        } else {
            self
        }
    }

    /// Splits a 64-bit element across two 32-bit components: the leading one
    /// is the rounded narrowing, the trailing one the narrowed remainder of
    /// subtracting the widened leading component back out.
    pub fn from_f64(f: F64) -> (r: Self)
        ensures
            r.0.bits == fnarrow64(f.bits),
            r.1.bits == fnarrow64(
                fadd64(f.bits, fwiden32(fnarrow64(f.bits)) ^ 0x8000_0000_0000_0000),
            ),
    {
        let x = narrow64(f.bits);
        let rest = add64(f.bits, widen32(x) ^ 0x8000_0000_0000_0000);
        Doubled(F32 { bits: x }, F32 { bits: narrow64(rest) })
    }
}

impl CheckOrder<Doubled<F32>> for Doubled<F32> {
    /// The ordering precondition holds when either leading component is
    /// non-finite, or the magnitudes are ordered; magnitude order of
    /// non-NaN values is unsigned order of their sign-cleared bits.
    open spec fn order_ok(self, other: Self) -> bool {
        self.0.check_spec() || other.0.check_spec() || abs_bits32(self.0.bits) >= abs_bits32(
            other.0.bits,
        )
    }

    fn check_order(self, other: Self) -> (r: bool) {
        self.0.check() || other.0.check() || (self.0.bits & 0x7fff_ffff) >= (other.0.bits
            & 0x7fff_ffff)
    }
}

impl CheckOrder<F32> for Doubled<F32> {
    open spec fn order_ok(self, other: F32) -> bool {
        self.0.check_spec() || other.check_spec() || abs_bits32(self.0.bits) >= abs_bits32(
            other.bits,
        )
    }

    fn check_order(self, other: F32) -> (r: bool) {
        self.0.check() || other.check() || (self.0.bits & 0x7fff_ffff) >= (other.bits
            & 0x7fff_ffff)
    }
}

impl CheckOrder<Doubled<F32>> for F32 {
    open spec fn order_ok(self, other: Doubled<F32>) -> bool {
        self.check_spec() || other.0.check_spec() || abs_bits32(self.bits) >= abs_bits32(
            other.0.bits,
        )
    }

    fn check_order(self, other: Doubled<F32>) -> (r: bool) {
        self.check() || other.0.check() || (self.bits & 0x7fff_ffff) >= (other.0.bits
            & 0x7fff_ffff)
    }
}

impl CheckOrder<F32> for F32 {
    open spec fn order_ok(self, other: F32) -> bool {
        self.check_spec() || other.check_spec() || abs_bits32(self.bits) >= abs_bits32(other.bits)
    }

    fn check_order(self, other: F32) -> (r: bool) {
        self.check() || other.check() || (self.bits & 0x7fff_ffff) >= (other.bits & 0x7fff_ffff)
    }
}

} // verus!
