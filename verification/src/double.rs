//! The 64-bit IEEE-754 element kind.

use vstd::prelude::*;

use crate::arith::{add64, div64, fadd64, fdiv64, ffma64, fma64, fmul64, fsqrt64, mul64, sqrt64};
use crate::{Check, CheckOrder, Doubled, Element, FromMask, Upper};

verus! {

/// A 64-bit IEEE-754 binary floating-point element, carried as its raw bit
/// representation: sign bit, 11 exponent bits, 52 mantissa bits.
#[derive(Clone, Copy, Debug, PartialEq, Eq, Structural)]
pub struct F64 {
    pub bits: u64,
}

/// The bits of `b` with the sign cleared: the magnitude's representation.
pub open spec fn abs_bits64(b: u64) -> u64 {
    b & 0x7fff_ffff_ffff_ffff
}

/// NaN: exponent all ones, mantissa nonzero.
pub open spec fn is_nan64(b: u64) -> bool {
    (b & 0x7ff0_0000_0000_0000) == 0x7ff0_0000_0000_0000 && (b & 0x000f_ffff_ffff_ffff) != 0
}

/// Infinity of either sign: exponent all ones, mantissa zero.
pub open spec fn is_infinite64(b: u64) -> bool {
    abs_bits64(b) == 0x7ff0_0000_0000_0000
}

/// Finite: exponent not all ones.
pub open spec fn is_finite64(b: u64) -> bool {
    (b & 0x7ff0_0000_0000_0000) != 0x7ff0_0000_0000_0000
}

/// Strictly negative as a floating-point comparison with zero: sign set, not
/// a zero, not a NaN.
pub open spec fn lt_zero64(b: u64) -> bool {
    (b & 0x8000_0000_0000_0000) != 0 && abs_bits64(b) != 0 && !is_nan64(b)
}

/// The near-cancellation exemption of the 64-bit ordering discipline: the
/// rounded sum collapses to within both operands' magnitudes, so which operand
/// is larger is immaterial.
pub open spec fn near_cancel64(a: u64, b: u64) -> bool {
    abs_bits64(fadd64(a, b)) <= abs_bits64(a) && abs_bits64(fadd64(a, b)) <= abs_bits64(b)
}

impl F64 {
    pub fn from_bits(bits: u64) -> (r: Self)
        ensures
            r.bits == bits,
    {
        F64 { bits }
    }

    pub fn to_bits(self) -> (r: u64)
        ensures
            r == self.bits,
    {
        self.bits
    }

    pub fn is_nan(self) -> (r: bool)
        ensures
            r == is_nan64(self.bits),
    {
        (self.bits & 0x7ff0_0000_0000_0000) == 0x7ff0_0000_0000_0000 && (self.bits
            & 0x000f_ffff_ffff_ffff) != 0
    }

    pub fn is_infinite(self) -> (r: bool)
        ensures
            r == is_infinite64(self.bits),
    {
        (self.bits & 0x7fff_ffff_ffff_ffff) == 0x7ff0_0000_0000_0000
    }
}

impl Upper for F64 {
    /// Clears the low 27 mantissa bits, leaving room for exact half products.
    open spec fn upper_spec(self) -> Self {
        F64 { bits: self.bits & 0xffff_ffff_f800_0000 }
    }

    fn upper(self) -> (r: Self) {
        F64 { bits: self.bits & 0xffff_ffff_f800_0000 }
    }
}

impl Element for F64 {
    open spec fn add_spec(a: Self, b: Self) -> Self {
        F64 { bits: fadd64(a.bits, b.bits) }
    }

    /// Subtraction is addition of the negation, exactly as in IEEE-754.
    open spec fn sub_spec(a: Self, b: Self) -> Self {
        Self::add_spec(a, Self::neg_spec(b))
    }

    open spec fn mul_spec(a: Self, b: Self) -> Self {
        F64 { bits: fmul64(a.bits, b.bits) }
    }

    open spec fn div_spec(a: Self, b: Self) -> Self {
        F64 { bits: fdiv64(a.bits, b.bits) }
    }

    open spec fn sqrt_spec(a: Self) -> Self {
        F64 { bits: fsqrt64(a.bits) }
    }

    /// Negation flips the sign bit and nothing else.
    open spec fn neg_spec(a: Self) -> Self {
        F64 { bits: a.bits ^ 0x8000_0000_0000_0000 }
    }

    open spec fn fma_spec(a: Self, b: Self, c: Self) -> Self {
        F64 { bits: ffma64(a.bits, b.bits, c.bits) }
    }

    open spec fn xor_sign_spec(a: Self, b: Self) -> Self {
        F64 { bits: a.bits ^ (b.bits & 0x8000_0000_0000_0000) }
    }

    open spec fn zero_spec() -> Self {
        F64 { bits: 0 }
    }

    open spec fn one_spec() -> Self {
        F64 { bits: 0x3ff0_0000_0000_0000 }
    }

    open spec fn half_spec() -> Self {
        F64 { bits: 0x3fe0_0000_0000_0000 }
    }

    open spec fn is_finite(self) -> bool {
        is_finite64(self.bits)
    }

    open spec fn is_zero(self) -> bool {
        abs_bits64(self.bits) == 0
    }

    fn add(self, other: Self) -> (r: Self) {
        F64 { bits: add64(self.bits, other.bits) }
    }

    fn sub(self, other: Self) -> (r: Self) {
        F64 { bits: add64(self.bits, other.bits ^ 0x8000_0000_0000_0000) }
    }

    fn mul(self, other: Self) -> (r: Self) {
        F64 { bits: mul64(self.bits, other.bits) }
    }

    fn div(self, other: Self) -> (r: Self) {
        F64 { bits: div64(self.bits, other.bits) }
    }

    fn sqrt(self) -> (r: Self) {
        F64 { bits: sqrt64(self.bits) }
    }

    fn neg(self) -> (r: Self) {
        F64 { bits: self.bits ^ 0x8000_0000_0000_0000 }
    }

    fn fma(self, b: Self, c: Self) -> (r: Self) {
        F64 { bits: fma64(self.bits, b.bits, c.bits) }
    }

    fn xor_sign(self, from: Self) -> (r: Self) {
        F64 { bits: self.bits ^ (from.bits & 0x8000_0000_0000_0000) }
    }

    fn zero() -> (r: Self) {
        F64 { bits: 0 }
    }

    fn one() -> (r: Self) {
        F64 { bits: 0x3ff0_0000_0000_0000 }
    }

    fn half() -> (r: Self) {
        F64 { bits: 0x3fe0_0000_0000_0000 }
    }
}

impl Check for F64 {
    open spec fn check_spec(self) -> bool {
        is_infinite64(self.bits) || is_nan64(self.bits)
    }

    fn check(self) -> (r: bool) {
        self.is_infinite() || self.is_nan()
    }
}

impl FromMask for Doubled<F64> {
    type Mask = u64;

    open spec fn from_mask_spec(u0: u64, u1: u64) -> Self {
        Doubled(F64 { bits: u0 }, F64 { bits: u1 })
    }

    fn from_mask(u0: u64, u1: u64) -> (r: Self) {
        Doubled(F64 { bits: u0 }, F64 { bits: u1 })
    }
}

impl Doubled<F64> {
    /// The mathematical value is unchanged when the leading component is
    /// nonnegative, and is negated componentwise when it is strictly negative,
    /// in the sense of the floating-point comparison with zero.
    pub open spec fn abs_spec(self) -> Self {
        if lt_zero64(self.0.bits) {
            Doubled(F64::neg_spec(self.0), F64::neg_spec(self.1))
        } else {
            self
        }
    }

    pub fn abs(self) -> (r: Self)
        ensures
            r == self.abs_spec(),
    {
        if (self.0.bits & 0x8000_0000_0000_0000) != 0 && (self.0.bits & 0x7fff_ffff_ffff_ffff)
            != 0 && !self.0.is_nan() {
            Doubled(self.0.neg(), self.1.neg())
        } else {
            self
        }
    }
}

impl CheckOrder<Doubled<F64>> for Doubled<F64> {
    /// The ordering precondition holds when the first leading component is a
    /// zero, either leading component is non-finite, the magnitudes are
    /// ordered, or the rounded sum nearly cancels; magnitude order of non-NaN
    /// values is unsigned order of their sign-cleared bits.
    open spec fn order_ok(self, other: Self) -> bool {
        abs_bits64(self.0.bits) == 0 || self.0.check_spec() || other.0.check_spec() || abs_bits64(
            self.0.bits,
        ) >= abs_bits64(other.0.bits) || near_cancel64(self.0.bits, other.0.bits)
    }

    fn check_order(self, other: Self) -> (r: bool) {
        let s = self.0.add(other.0);
        (self.0.bits & 0x7fff_ffff_ffff_ffff) == 0 || self.0.check() || other.0.check() || (
        self.0.bits & 0x7fff_ffff_ffff_ffff) >= (other.0.bits & 0x7fff_ffff_ffff_ffff) || ((s.bits
            & 0x7fff_ffff_ffff_ffff) <= (self.0.bits & 0x7fff_ffff_ffff_ffff) && (s.bits
            & 0x7fff_ffff_ffff_ffff) <= (other.0.bits & 0x7fff_ffff_ffff_ffff))
    }
}

impl CheckOrder<F64> for Doubled<F64> {
    open spec fn order_ok(self, other: F64) -> bool {
        self.0.check_spec() || other.check_spec() || abs_bits64(self.0.bits) >= abs_bits64(
            other.bits,
        ) || near_cancel64(self.0.bits, other.bits)
    }

    fn check_order(self, other: F64) -> (r: bool) {
        let s = self.0.add(other);
        self.0.check() || other.check() || (self.0.bits & 0x7fff_ffff_ffff_ffff) >= (other.bits
            & 0x7fff_ffff_ffff_ffff) || ((s.bits & 0x7fff_ffff_ffff_ffff) <= (self.0.bits
            & 0x7fff_ffff_ffff_ffff) && (s.bits & 0x7fff_ffff_ffff_ffff) <= (other.bits
            & 0x7fff_ffff_ffff_ffff))
    }
}

impl CheckOrder<Doubled<F64>> for F64 {
    open spec fn order_ok(self, other: Doubled<F64>) -> bool {
        self.check_spec() || other.0.check_spec() || abs_bits64(self.bits) >= abs_bits64(
            other.0.bits,
        ) || near_cancel64(self.bits, other.0.bits)
    }

    fn check_order(self, other: Doubled<F64>) -> (r: bool) {
        let s = self.add(other.0);
        self.check() || other.0.check() || (self.bits & 0x7fff_ffff_ffff_ffff) >= (other.0.bits
            & 0x7fff_ffff_ffff_ffff) || ((s.bits & 0x7fff_ffff_ffff_ffff) <= (self.bits
            & 0x7fff_ffff_ffff_ffff) && (s.bits & 0x7fff_ffff_ffff_ffff) <= (other.0.bits
            & 0x7fff_ffff_ffff_ffff))
    }
}

impl CheckOrder<F64> for F64 {
    open spec fn order_ok(self, other: F64) -> bool {
        self.check_spec() || other.check_spec() || abs_bits64(self.bits) >= abs_bits64(other.bits)
            || near_cancel64(self.bits, other.bits)
    }

    fn check_order(self, other: F64) -> (r: bool) {
        let s = self.add(other);
        self.check() || other.check() || (self.bits & 0x7fff_ffff_ffff_ffff) >= (other.bits
            & 0x7fff_ffff_ffff_ffff) || ((s.bits & 0x7fff_ffff_ffff_ffff) <= (self.bits
            & 0x7fff_ffff_ffff_ffff) && (s.bits & 0x7fff_ffff_ffff_ffff) <= (other.bits
            & 0x7fff_ffff_ffff_ffff))
    }
}

} // verus!
