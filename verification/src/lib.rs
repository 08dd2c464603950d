//! Double-word floating-point arithmetic: a value is represented as an
//! unevaluated sum of a leading and a trailing component of the same element
//! kind, giving roughly twice the working precision.
//!
//! Element kinds carry the raw IEEE-754 bit representation, so the bit-level
//! pieces of the algorithms (mantissa splitting, sign transfer, classification
//! of infinities and NaNs) are verified exactly, and every double-word
//! operation's contract pins its components down as an exact composition of
//! named roundings (see `arith`).
//!
//! Where a fused multiply-add changes the algorithm, the fused form stands as
//! a sibling kernel (`square_fused`, `mul_fused`, ...) beside the portable
//! splitting form: a build selects one set once, at compile time, by which
//! methods it links.  The two paths agree up to the last-bit rounding
//! differences inherent in rounding fewer or more times.

use vstd::prelude::*;

pub mod arith;
pub mod double;
pub mod lanes;
pub mod single;

verus! {

/// A double-word value: the unevaluated sum `self.0 + self.1` of a leading
/// and a trailing component.
///
/// When built by an error-free transform or by `normalize`, the trailing
/// component is the exact rounding error of the leading one; when built
/// directly from two components the caller is responsible for that invariant.
#[derive(Clone, Copy, Debug, PartialEq, Eq, Structural)]
pub struct Doubled<T>(pub T, pub T);

impl<T> Doubled<T> {
    pub fn new(x0: T, x1: T) -> (r: Self)
        ensures
            r.0 == x0,
            r.1 == x1,
    {
        Doubled(x0, x1)
    }
}

/// Mantissa splitting: clears enough low-order mantissa bits that the result
/// multiplies exactly with another value split the same way.
pub trait Upper: Sized {
    spec fn upper_spec(self) -> Self;

    fn upper(self) -> (r: Self)
        ensures
            r == self.upper_spec(),
    ;
}

/// The capability set of an element kind: rounded arithmetic, a few constants,
/// and the classification the algorithms read.
///
/// Each exec operation returns exactly the value named by its spec companion,
/// so algorithms over any element kind are verified once, as exact
/// compositions of these operations.
pub trait Element: Upper + Copy + Sized {
    /// The rounded sum of `a` and `b`.
    spec fn add_spec(a: Self, b: Self) -> Self;

    /// The rounded difference of `a` and `b`.
    spec fn sub_spec(a: Self, b: Self) -> Self;

    /// The rounded product of `a` and `b`.
    spec fn mul_spec(a: Self, b: Self) -> Self;

    /// The rounded quotient of `a` and `b`.
    spec fn div_spec(a: Self, b: Self) -> Self;

    /// The rounded square root of `a`.
    spec fn sqrt_spec(a: Self) -> Self;

    /// `a` with its sign flipped; exact.
    spec fn neg_spec(a: Self) -> Self;

    /// The fused multiply-add `a * b + c`, rounded once.
    spec fn fma_spec(a: Self, b: Self, c: Self) -> Self;

    /// `a` with `b`'s sign bit XORed in; exact.
    spec fn xor_sign_spec(a: Self, b: Self) -> Self;

    /// Positive zero.
    spec fn zero_spec() -> Self;

    /// The constant one.
    spec fn one_spec() -> Self;

    /// The constant one half.
    spec fn half_spec() -> Self;

    /// True unless the value is an infinity or a NaN.
    spec fn is_finite(self) -> bool;

    /// True for a zero of either sign.
    spec fn is_zero(self) -> bool;

    /// Rounded addition.  Adding positive zero returns a finite nonzero value
    /// unchanged, and turns a zero of either sign into positive zero.
    fn add(self, other: Self) -> (r: Self)
        ensures
            r == Self::add_spec(self, other),
            other == Self::zero_spec() && self.is_finite() && !self.is_zero() ==> r == self,
            other == Self::zero_spec() && self.is_zero() ==> r == Self::zero_spec(),
    ;

    fn sub(self, other: Self) -> (r: Self)
        ensures
            r == Self::sub_spec(self, other),
    ;

    fn mul(self, other: Self) -> (r: Self)
        ensures
            r == Self::mul_spec(self, other),
    ;

    fn div(self, other: Self) -> (r: Self)
        ensures
            r == Self::div_spec(self, other),
    ;

    fn sqrt(self) -> (r: Self)
        ensures
            r == Self::sqrt_spec(self),
    ;

    fn neg(self) -> (r: Self)
        ensures
            r == Self::neg_spec(self),
    ;

    /// The fused multiply-add `self * b + c` with a single final rounding.
    fn fma(self, b: Self, c: Self) -> (r: Self)
        ensures
            r == Self::fma_spec(self, b, c),
    ;

    /// `self` with its sign flipped where `from` is negative: bitwise
    /// XOR of `from`'s sign bit into `self`; exact.
    fn xor_sign(self, from: Self) -> (r: Self)
        ensures
            r == Self::xor_sign_spec(self, from),
    ;

    fn zero() -> (r: Self)
        ensures
            r == Self::zero_spec(),
    ;

    fn one() -> (r: Self)
        ensures
            r == Self::one_spec(),
    ;

    fn half() -> (r: Self)
        ensures
            r == Self::half_spec(),
    ;
}

/// Building a double-word value from the raw bit patterns of its components.
pub trait FromMask: Sized {
    type Mask;

    spec fn from_mask_spec(u0: Self::Mask, u1: Self::Mask) -> Self;

    fn from_mask(u0: Self::Mask, u1: Self::Mask) -> (r: Self)
        ensures
            r == Self::from_mask_spec(u0, u1),
    ;
}

/// Classification used to exempt non-finite operands from the ordering
/// precondition of the checked additions.
pub trait Check: Sized {
    /// True when the value is an infinity or a NaN.
    spec fn check_spec(self) -> bool;

    fn check(self) -> (r: bool)
        ensures
            r == self.check_spec(),
    ;
}

/// The magnitude-ordering discipline of the checked additions.
///
/// `order_ok` is the precondition under which `add_checked` and `sub_checked`
/// may be called; `check_order` is its executable form, usable by callers as
/// a validation layer before entering the checked operations.
pub trait CheckOrder<T>: Sized {
    spec fn order_ok(self, other: T) -> bool;

    fn check_order(self, other: T) -> (r: bool)
        ensures
            r == self.order_ok(other),
    ;
}

/// Re-establishes the invariant that the trailing component is the rounding
/// error of the leading one, by one two-sum pass.
pub trait Normalize: Sized {
    spec fn normalize_spec(self) -> Self;

    fn normalize(self) -> (r: Self)
        ensures
            r == self.normalize_spec(),
    ;
}

/// Componentwise multiplication by a plain element; valid because scaling
/// never interacts with cross terms.
pub trait Scale<T>: Sized {
    spec fn scale_spec(self, other: T) -> Self;

    fn scale(self, other: T) -> (r: Self)
        ensures
            r == self.scale_spec(other),
    ;
}

/// Lossless widening of a plain element to a double-word value.
pub trait AsDoubled: Element {
    /// The result carries the value unchanged: the trailing component is zero.
    fn as_doubled(self) -> (r: Doubled<Self>)
        ensures
            r.0 == self,
            r.1 == Self::zero_spec(),
    ;
}

/// Two-sum: the error-free transform of the sum of two plain elements.
pub trait AddAsDoubled: Element {
    fn add_as_doubled(self, other: Self) -> (r: Doubled<Self>)
        ensures
            r == add_as_doubled_spec(self, other),
    ;
}

/// Fast two-sum: the cheaper error-free transform of the sum, valid only
/// under the magnitude-ordering precondition.
pub trait AddCheckedAsDoubled: CheckOrder<Self> + Element {
    fn add_checked_as_doubled(self, other: Self) -> (r: Doubled<Self>)
        requires
            self.order_ok(other),
        ensures
            r == add_checked_as_doubled_spec(self, other),
    ;
}

/// Two-product: the error-free transform of the product of two plain
/// elements, via mantissa splitting, or via a single fused multiply-add on
/// the fused code path.
pub trait MulAsDoubled: Element {
    fn mul_as_doubled(self, other: Self) -> (r: Doubled<Self>)
        ensures
            r == mul_as_doubled_spec(self, other),
    ;

    fn mul_as_doubled_fused(self, other: Self) -> (r: Doubled<Self>)
        ensures
            r == mul_as_doubled_fused_spec(self, other),
    ;
}

/// Reciprocal of a plain element as a double-word value: the rounded
/// reciprocal plus one Newton correction term, built by splitting or, on the
/// fused code path, by fused operations.
pub trait RecipAsDoubled: Element {
    fn recip_as_doubled(self) -> (r: Doubled<Self>)
        ensures
            r == recip_as_doubled_spec(self),
    ;

    fn recip_as_doubled_fused(self) -> (r: Doubled<Self>)
        ensures
            r == recip_as_doubled_fused_spec(self),
    ;
}

/// Addition valid only under the magnitude-ordering precondition
/// (`|first| >= |second|`, with non-finite and near-cancellation exemptions
/// per element kind).
pub trait AddChecked<T>: CheckOrder<T> {
    type Output;

    spec fn add_checked_spec(self, other: T) -> Self::Output;

    fn add_checked(self, other: T) -> (r: Self::Output)
        requires
            self.order_ok(other),
        ensures
            r == self.add_checked_spec(other),
    ;
}

/// Compound-assignment form of the checked addition.
pub trait AddCheckedAssign<T>: Sized {
    spec fn add_checked_assign_req(self, other: T) -> bool;

    spec fn add_checked_assign_spec(self, other: T) -> Self;

    fn add_checked_assign(&mut self, other: T)
        requires
            old(self).add_checked_assign_req(other),
        ensures
            *final(self) == old(self).add_checked_assign_spec(other),
    ;
}

/// Subtraction valid only under the magnitude-ordering precondition.
pub trait SubChecked<T>: CheckOrder<T> {
    type Output;

    spec fn sub_checked_spec(self, other: T) -> Self::Output;

    fn sub_checked(self, other: T) -> (r: Self::Output)
        requires
            self.order_ok(other),
        ensures
            r == self.sub_checked_spec(other),
    ;
}

/// The two-sum composition: rounded sum and reconstructed rounding error.
pub open spec fn add_as_doubled_spec<T: Element>(a: T, b: T) -> Doubled<T> {
    let r0 = T::add_spec(a, b);
    let v = T::sub_spec(r0, a);
    Doubled(r0, T::add_spec(T::sub_spec(a, T::sub_spec(r0, v)), T::sub_spec(b, v)))
}

/// The fast two-sum composition, valid under the ordering precondition.
pub open spec fn add_checked_as_doubled_spec<T: Element>(a: T, b: T) -> Doubled<T> {
    let r0 = T::add_spec(a, b);
    Doubled(r0, T::add_spec(T::sub_spec(a, r0), b))
}

/// The two-product composition via mantissa splitting: both operands are cut
/// into exactly-multipliable halves and the rounding error of the product is
/// rebuilt from the four partial products.
pub open spec fn mul_as_doubled_spec<T: Element>(a: T, b: T) -> Doubled<T> {
    let xh = a.upper_spec();
    let xl = T::sub_spec(a, xh);
    let yh = b.upper_spec();
    let yl = T::sub_spec(b, yh);
    let r0 = T::mul_spec(a, b);
    Doubled(
        r0,
        T::add_spec(
            T::add_spec(
                T::add_spec(
                    T::sub_spec(T::mul_spec(xh, yh), r0),
                    T::mul_spec(xl, yh),
                ),
                T::mul_spec(xh, yl),
            ),
            T::mul_spec(xl, yl),
        ),
    )
}

/// The reciprocal composition: hardware-style quotient `1 / d`, then one
/// splitting-based correction term capturing its residual error.
pub open spec fn recip_as_doubled_spec<T: Element>(d: T) -> Doubled<T> {
    let t = T::div_spec(T::one_spec(), d);
    let dh = d.upper_spec();
    let dl = T::sub_spec(d, dh);
    let th = t.upper_spec();
    let tl = T::sub_spec(t, th);
    Doubled(
        t,
        T::mul_spec(
            t,
            T::sub_spec(
                T::sub_spec(
                    T::sub_spec(
                        T::sub_spec(T::one_spec(), T::mul_spec(dh, th)),
                        T::mul_spec(dh, tl),
                    ),
                    T::mul_spec(dl, th),
                ),
                T::mul_spec(dl, tl),
            ),
        ),
    )
}

/// The two-product composition on the fused code path: the correction is a
/// single fused multiply-add.
pub open spec fn mul_as_doubled_fused_spec<T: Element>(a: T, b: T) -> Doubled<T> {
    let r0 = T::mul_spec(a, b);
    Doubled(r0, T::fma_spec(a, b, T::neg_spec(r0)))
}

/// The reciprocal composition on the fused code path.
pub open spec fn recip_as_doubled_fused_spec<T: Element>(d: T) -> Doubled<T> {
    let q0 = T::div_spec(T::one_spec(), d);
    Doubled(
        q0,
        T::mul_spec(q0, T::fma_spec(T::neg_spec(d), q0, T::one_spec())),
    )
}

impl<T: Element> AsDoubled for T {
    fn as_doubled(self) -> (r: Doubled<Self>) {
        Doubled(self, T::zero())
    }
}

impl<T: Element> AddAsDoubled for T {
    fn add_as_doubled(self, other: Self) -> (r: Doubled<Self>) {
        let r0 = self.add(other);
        let v = r0.sub(self);
        Doubled(r0, self.sub(r0.sub(v)).add(other.sub(v)))
    }
}

impl<T: Element + CheckOrder<T>> AddCheckedAsDoubled for T {
    fn add_checked_as_doubled(self, other: Self) -> (r: Doubled<Self>) {
        let r0 = self.add(other);
        Doubled(r0, self.sub(r0).add(other))
    }
}

impl<T: Element> MulAsDoubled for T {
    fn mul_as_doubled(self, other: Self) -> (r: Doubled<Self>) {
        let xh = self.upper();
        let xl = self.sub(xh);
        let yh = other.upper();
        let yl = other.sub(yh);
        let r0 = self.mul(other);
        Doubled(
            r0,
            xh.mul(yh).sub(r0).add(xl.mul(yh)).add(xh.mul(yl)).add(xl.mul(yl)),
        )
    }

    fn mul_as_doubled_fused(self, other: Self) -> (r: Doubled<Self>) {
        let r0 = self.mul(other);
        Doubled(r0, self.fma(other, r0.neg()))
    }
}

impl<T: Element> RecipAsDoubled for T {
    fn recip_as_doubled(self) -> (r: Doubled<Self>) {
        let t = T::one().div(self);
        let dh = self.upper();
        let dl = self.sub(dh);
        let th = t.upper();
        let tl = t.sub(th);
        Doubled(
            t,
            t.mul(
                T::one().sub(dh.mul(th)).sub(dh.mul(tl)).sub(dl.mul(th)).sub(dl.mul(tl)),
            ),
        )
    }

    fn recip_as_doubled_fused(self) -> (r: Doubled<Self>) {
        let q0 = T::one().div(self);
        Doubled(q0, q0.mul(self.neg().fma(q0, T::one())))
    }
}

impl<T: Element> Doubled<T> {
    /// Componentwise negation; exact.
    pub open spec fn neg_spec(self) -> Self {
        Doubled(T::neg_spec(self.0), T::neg_spec(self.1))
    }

    pub fn neg(self) -> (r: Self)
        ensures
            r == self.neg_spec(),
    {
        Doubled(self.0.neg(), self.1.neg())
    }

    /// Unchecked addition: a two-sum of the leading components with both
    /// trailing components folded into the correction; no magnitude-ordering
    /// requirement.
    pub open spec fn add_spec(self, other: Self) -> Self {
        let r0 = T::add_spec(self.0, other.0);
        let v = T::sub_spec(r0, self.0);
        Doubled(
            r0,
            T::add_spec(
                T::add_spec(
                    T::sub_spec(self.0, T::sub_spec(r0, v)),
                    T::sub_spec(other.0, v),
                ),
                T::add_spec(self.1, other.1),
            ),
        )
    }

    pub fn add(self, other: Self) -> (r: Self)
        ensures
            r == self.add_spec(other),
    {
        let r0 = self.0.add(other.0);
        let v = r0.sub(self.0);
        Doubled(
            r0,
            self.0.sub(r0.sub(v)).add(other.0.sub(v)).add(self.1.add(other.1)),
        )
    }

    /// Unchecked addition of a plain element.
    pub open spec fn add_f_spec(self, other: T) -> Self {
        let r0 = T::add_spec(self.0, other);
        let v = T::sub_spec(r0, self.0);
        Doubled(
            r0,
            T::add_spec(
                T::add_spec(T::sub_spec(self.0, T::sub_spec(r0, v)), T::sub_spec(other, v)),
                self.1,
            ),
        )
    }

    pub fn add_f(self, other: T) -> (r: Self)
        ensures
            r == self.add_f_spec(other),
    {
        let r0 = self.0.add(other);
        let v = r0.sub(self.0);
        Doubled(r0, self.0.sub(r0.sub(v)).add(other.sub(v)).add(self.1))
    }

    /// Subtraction is the unchecked addition of the negation.
    pub open spec fn sub_spec(self, other: Self) -> Self {
        self.add_spec(other.neg_spec())
    }

    pub fn sub(self, other: Self) -> (r: Self)
        ensures
            r == self.sub_spec(other),
    {
        self.add(other.neg())
    }

    /// Multiplication: the rounded product of the leading components plus a
    /// correction rebuilt from the split half products and both trailing
    /// cross terms.
    pub open spec fn mul_spec(self, other: Self) -> Self {
        let xh = self.0.upper_spec();
        let xl = T::sub_spec(self.0, xh);
        let yh = other.0.upper_spec();
        let yl = T::sub_spec(other.0, yh);
        let r0 = T::mul_spec(self.0, other.0);
        Doubled(
            r0,
            T::add_spec(
                T::add_spec(
                    T::add_spec(
                        T::add_spec(
                            T::add_spec(
                                T::sub_spec(T::mul_spec(xh, yh), r0),
                                T::mul_spec(xl, yh),
                            ),
                            T::mul_spec(xh, yl),
                        ),
                        T::mul_spec(xl, yl),
                    ),
                    T::mul_spec(self.0, other.1),
                ),
                T::mul_spec(self.1, other.0),
            ),
        )
    }

    pub fn mul(self, other: Self) -> (r: Self)
        ensures
            r == self.mul_spec(other),
    {
        let xh = self.0.upper();
        let xl = self.0.sub(xh);
        let yh = other.0.upper();
        let yl = other.0.sub(yh);
        let r0 = self.0.mul(other.0);
        Doubled(
            r0,
            xh.mul(yh).sub(r0).add(xl.mul(yh)).add(xh.mul(yl)).add(xl.mul(yl)).add(
                self.0.mul(other.1),
            ).add(self.1.mul(other.0)),
        )
    }

    /// Multiplication by a plain element.
    pub open spec fn mul_f_spec(self, other: T) -> Self {
        let xh = self.0.upper_spec();
        let xl = T::sub_spec(self.0, xh);
        let yh = other.upper_spec();
        let yl = T::sub_spec(other, yh);
        let r0 = T::mul_spec(self.0, other);
        Doubled(
            r0,
            T::add_spec(
                T::add_spec(
                    T::add_spec(
                        T::add_spec(
                            T::sub_spec(T::mul_spec(xh, yh), r0),
                            T::mul_spec(xl, yh),
                        ),
                        T::mul_spec(xh, yl),
                    ),
                    T::mul_spec(xl, yl),
                ),
                T::mul_spec(self.1, other),
            ),
        )
    }

    pub fn mul_f(self, other: T) -> (r: Self)
        ensures
            r == self.mul_f_spec(other),
    {
        let xh = self.0.upper();
        let xl = self.0.sub(xh);
        let yh = other.upper();
        let yl = other.sub(yh);
        let r0 = self.0.mul(other);
        Doubled(
            r0,
            xh.mul(yh).sub(r0).add(xl.mul(yh)).add(xh.mul(yl)).add(xl.mul(yl)).add(
                self.1.mul(other),
            ),
        )
    }

    /// Division: an approximate quotient from the rounded reciprocal of the
    /// divisor's leading component, refined by one splitting-based residual
    /// correction that folds in the divisor's trailing component.
    pub open spec fn div_spec(self, other: Self) -> Self {
        let t = T::div_spec(T::one_spec(), other.0);
        let dh = other.0.upper_spec();
        let dl = T::sub_spec(other.0, dh);
        let th = t.upper_spec();
        let tl = T::sub_spec(t, th);
        let nhh = self.0.upper_spec();
        let nhl = T::sub_spec(self.0, nhh);
        let q0 = T::mul_spec(self.0, t);
        let w = T::sub_spec(
            T::sub_spec(
                T::sub_spec(
                    T::sub_spec(T::one_spec(), T::mul_spec(dh, th)),
                    T::mul_spec(dh, tl),
                ),
                T::mul_spec(dl, th),
            ),
            T::mul_spec(dl, tl),
        );
        let u = T::add_spec(
            T::add_spec(
                T::add_spec(
                    T::add_spec(
                        T::add_spec(T::neg_spec(q0), T::mul_spec(nhh, th)),
                        T::mul_spec(nhh, tl),
                    ),
                    T::mul_spec(nhl, th),
                ),
                T::mul_spec(nhl, tl),
            ),
            T::mul_spec(q0, w),
        );
        Doubled(
            q0,
            T::add_spec(
                T::mul_spec(t, T::sub_spec(self.1, T::mul_spec(q0, other.1))),
                u,
            ),
        )
    }

    pub fn div(self, other: Self) -> (r: Self)
        ensures
            r == self.div_spec(other),
    {
        let t = T::one().div(other.0);
        let dh = other.0.upper();
        let dl = other.0.sub(dh);
        let th = t.upper();
        let tl = t.sub(th);
        let nhh = self.0.upper();
        let nhl = self.0.sub(nhh);
        let q0 = self.0.mul(t);
        let w = T::one().sub(dh.mul(th)).sub(dh.mul(tl)).sub(dl.mul(th)).sub(dl.mul(tl));
        let u = q0.neg().add(nhh.mul(th)).add(nhh.mul(tl)).add(nhl.mul(th)).add(
            nhl.mul(tl),
        ).add(q0.mul(w));
        Doubled(q0, t.mul(self.1.sub(q0.mul(other.1))).add(u))
    }

    /// Squaring: multiplication specialized to equal operands, saving one
    /// cross term.
    pub open spec fn square_spec(self) -> Self {
        let xh = self.0.upper_spec();
        let xl = T::sub_spec(self.0, xh);
        let r0 = T::mul_spec(self.0, self.0);
        Doubled(
            r0,
            T::add_spec(
                T::add_spec(
                    T::add_spec(
                        T::sub_spec(T::mul_spec(xh, xh), r0),
                        T::mul_spec(T::add_spec(xh, xh), xl),
                    ),
                    T::mul_spec(xl, xl),
                ),
                T::mul_spec(self.0, T::add_spec(self.1, self.1)),
            ),
        )
    }

    pub fn square(self) -> (r: Self)
        ensures
            r == self.square_spec(),
    {
        let xh = self.0.upper();
        let xl = self.0.sub(xh);
        let r0 = self.0.mul(self.0);
        Doubled(
            r0,
            xh.mul(xh).sub(r0).add(xh.add(xh).mul(xl)).add(xl.mul(xl)).add(
                self.0.mul(self.1.add(self.1)),
            ),
        )
    }

    /// The square collapsed directly to a plain element.
    pub open spec fn square_as_f_spec(self) -> T {
        let xh = self.0.upper_spec();
        let xl = T::sub_spec(self.0, xh);
        T::add_spec(
            T::add_spec(
                T::add_spec(
                    T::add_spec(T::mul_spec(xh, self.1), T::mul_spec(xh, self.1)),
                    T::mul_spec(xl, xl),
                ),
                T::add_spec(T::mul_spec(xh, xl), T::mul_spec(xh, xl)),
            ),
            T::mul_spec(xh, xh),
        )
    }

    pub fn square_as_f(self) -> (r: T)
        ensures
            r == self.square_as_f_spec(),
    {
        let xh = self.0.upper();
        let xl = self.0.sub(xh);
        xh.mul(self.1).add(xh.mul(self.1)).add(xl.mul(xl)).add(
            xh.mul(xl).add(xh.mul(xl)),
        ).add(xh.mul(xh))
    }

    /// The product collapsed directly to a plain element.
    pub open spec fn mul_as_f_spec(self, other: Self) -> T {
        let xh = self.0.upper_spec();
        let xl = T::sub_spec(self.0, xh);
        let yh = other.0.upper_spec();
        let yl = T::sub_spec(other.0, yh);
        T::add_spec(
            T::add_spec(
                T::add_spec(
                    T::add_spec(
                        T::add_spec(T::mul_spec(self.1, yh), T::mul_spec(xh, other.1)),
                        T::mul_spec(xl, yl),
                    ),
                    T::mul_spec(xh, yl),
                ),
                T::mul_spec(xl, yh),
            ),
            T::mul_spec(xh, yh),
        )
    }

    pub fn mul_as_f(self, other: Self) -> (r: T)
        ensures
            r == self.mul_as_f_spec(other),
    {
        let xh = self.0.upper();
        let xl = self.0.sub(xh);
        let yh = other.0.upper();
        let yl = other.0.sub(yh);
        self.1.mul(yh).add(xh.mul(other.1)).add(xl.mul(yl)).add(xh.mul(yl)).add(
            xl.mul(yh),
        ).add(xh.mul(yh))
    }

    /// Reciprocal of a double-word value: the rounded reciprocal of the
    /// leading component plus one Newton correction that also folds in the
    /// trailing component.
    pub open spec fn recip_spec(self) -> Self {
        let t = T::div_spec(T::one_spec(), self.0);
        let dh = self.0.upper_spec();
        let dl = T::sub_spec(self.0, dh);
        let th = t.upper_spec();
        let tl = T::sub_spec(t, th);
        Doubled(
            t,
            T::mul_spec(
                t,
                T::sub_spec(
                    T::sub_spec(
                        T::sub_spec(
                            T::sub_spec(
                                T::sub_spec(T::one_spec(), T::mul_spec(dh, th)),
                                T::mul_spec(dh, tl),
                            ),
                            T::mul_spec(dl, th),
                        ),
                        T::mul_spec(dl, tl),
                    ),
                    T::mul_spec(self.1, t),
                ),
            ),
        )
    }

    pub fn recip(self) -> (r: Self)
        ensures
            r == self.recip_spec(),
    {
        let t = T::one().div(self.0);
        let dh = self.0.upper();
        let dl = self.0.sub(dh);
        let th = t.upper();
        let tl = t.sub(th);
        Doubled(
            t,
            t.mul(
                T::one().sub(dh.mul(th)).sub(dh.mul(tl)).sub(dl.mul(th)).sub(
                    dl.mul(tl),
                ).sub(self.1.mul(t)),
            ),
        )
    }

    /// Square root by one Newton step expressed through the double-word
    /// reciprocal: `(self + t^2) * (1/t) / 2` with `t` the rounded square
    /// root of the collapsed value.
    pub open spec fn sqrt_spec(self) -> Self {
        let t = T::sqrt_spec(T::add_spec(self.0, self.1));
        self.add_spec(mul_as_doubled_spec(t, t)).mul_spec(recip_as_doubled_spec(t)).scale_spec(
            T::half_spec(),
        )
    }

    pub fn sqrt(self) -> (r: Self)
        ensures
            r == self.sqrt_spec(),
    {
        let t = self.0.add(self.1).sqrt();
        self.add(t.mul_as_doubled(t)).mul(t.recip_as_doubled()).scale(T::half())
    }

    /// Squaring on the fused code path: the correction is two fused
    /// operations instead of the split half products.
    pub open spec fn square_fused_spec(self) -> Self {
        let r0 = T::mul_spec(self.0, self.0);
        Doubled(
            r0,
            T::fma_spec(
                T::add_spec(self.0, self.0),
                self.1,
                T::fma_spec(self.0, self.0, T::neg_spec(r0)),
            ),
        )
    }

    pub fn square_fused(self) -> (r: Self)
        ensures
            r == self.square_fused_spec(),
    {
        let r0 = self.0.mul(self.0);
        Doubled(
            r0,
            self.0.add(self.0).fma(self.1, self.0.fma(self.0, r0.neg())),
        )
    }

    /// The square collapsed to a plain element on the fused code path.
    pub open spec fn square_as_f_fused_spec(self) -> T {
        T::fma_spec(
            self.0,
            self.0,
            T::add_spec(T::mul_spec(self.0, self.1), T::mul_spec(self.0, self.1)),
        )
    }

    pub fn square_as_f_fused(self) -> (r: T)
        ensures
            r == self.square_as_f_fused_spec(),
    {
        self.0.fma(self.0, self.0.mul(self.1).add(self.0.mul(self.1)))
    }

    /// Multiplication on the fused code path: the correction collapses to a
    /// chain of three fused operations.
    pub open spec fn mul_fused_spec(self, other: Self) -> Self {
        let r0 = T::mul_spec(self.0, other.0);
        Doubled(
            r0,
            T::fma_spec(
                self.0,
                other.1,
                T::fma_spec(
                    self.1,
                    other.0,
                    T::fma_spec(self.0, other.0, T::neg_spec(r0)),
                ),
            ),
        )
    }

    pub fn mul_fused(self, other: Self) -> (r: Self)
        ensures
            r == self.mul_fused_spec(other),
    {
        let r0 = self.0.mul(other.0);
        Doubled(
            r0,
            self.0.fma(other.1, self.1.fma(other.0, self.0.fma(other.0, r0.neg()))),
        )
    }

    /// Multiplication by a plain element on the fused code path.
    pub open spec fn mul_f_fused_spec(self, other: T) -> Self {
        let r0 = T::mul_spec(self.0, other);
        Doubled(
            r0,
            T::fma_spec(self.1, other, T::fma_spec(self.0, other, T::neg_spec(r0))),
        )
    }

    pub fn mul_f_fused(self, other: T) -> (r: Self)
        ensures
            r == self.mul_f_fused_spec(other),
    {
        let r0 = self.0.mul(other);
        Doubled(r0, self.1.fma(other, self.0.fma(other, r0.neg())))
    }

    /// Division on the fused code path: the residual of the approximate
    /// quotient is captured by fused operations instead of splitting.
    pub open spec fn div_fused_spec(self, other: Self) -> Self {
        let t = T::div_spec(T::one_spec(), other.0);
        let q0 = T::mul_spec(self.0, t);
        let u = T::fma_spec(t, self.0, T::neg_spec(q0));
        let w = T::fma_spec(
            T::neg_spec(other.1),
            t,
            T::fma_spec(T::neg_spec(other.0), t, T::one_spec()),
        );
        Doubled(q0, T::fma_spec(q0, w, T::fma_spec(self.1, t, u)))
    }

    pub fn div_fused(self, other: Self) -> (r: Self)
        ensures
            r == self.div_fused_spec(other),
    {
        let t = T::one().div(other.0);
        let q0 = self.0.mul(t);
        let u = t.fma(self.0, q0.neg());
        let w = other.1.neg().fma(t, other.0.neg().fma(t, T::one()));
        Doubled(q0, q0.fma(w, self.1.fma(t, u)))
    }

    /// Reciprocal on the fused code path: one fused Newton correction of the
    /// rounded reciprocal, folding in the trailing component.
    pub open spec fn recip_fused_spec(self) -> Self {
        let q0 = T::div_spec(T::one_spec(), self.0);
        Doubled(
            q0,
            T::mul_spec(
                q0,
                T::fma_spec(
                    T::neg_spec(self.1),
                    q0,
                    T::fma_spec(T::neg_spec(self.0), q0, T::one_spec()),
                ),
            ),
        )
    }

    pub fn recip_fused(self) -> (r: Self)
        ensures
            r == self.recip_fused_spec(),
    {
        let q0 = T::one().div(self.0);
        Doubled(
            q0,
            q0.mul(self.1.neg().fma(q0, self.0.neg().fma(q0, T::one()))),
        )
    }

    /// Narrowing conversion: the rounded sum of the components.
    ///
    /// A double-word value built by widening collapses back to the element it
    /// came from: with a zero trailing component, a finite nonzero leading
    /// component is returned exactly, and a leading zero of either sign comes
    /// back as positive zero.
    pub fn as_f(self) -> (r: T)
        ensures
            r == T::add_spec(self.0, self.1),
            self.1 == T::zero_spec() && self.0.is_finite() && !self.0.is_zero() ==> r == self.0,
            self.1 == T::zero_spec() && self.0.is_zero() ==> r == T::zero_spec(),
    {
        self.0.add(self.1)
    }

    /// Compound assignment by the unchecked addition.
    pub fn add_assign(&mut self, other: Self)
        ensures
            *final(self) == old(self).add_spec(other),
    {
        *self = (*self).add(other);
    }

    /// Compound assignment by the unchecked addition of a plain element.
    pub fn add_assign_f(&mut self, other: T)
        ensures
            *final(self) == old(self).add_f_spec(other),
    {
        *self = (*self).add_f(other);
    }

    /// Compound assignment by the multiplication.
    pub fn mul_assign(&mut self, other: Self)
        ensures
            *final(self) == old(self).mul_spec(other),
    {
        *self = (*self).mul(other);
    }

    /// Compound assignment by the multiplication with a plain element.
    pub fn mul_assign_f(&mut self, other: T)
        ensures
            *final(self) == old(self).mul_f_spec(other),
    {
        *self = (*self).mul_f(other);
    }
}

impl<T: Element> AddChecked<Doubled<T>> for Doubled<T> where Doubled<T>: CheckOrder<Doubled<T>> {
    type Output = Doubled<T>;

    open spec fn add_checked_spec(self, other: Doubled<T>) -> Doubled<T> {
        let r0 = T::add_spec(self.0, other.0);
        Doubled(
            r0,
            T::add_spec(
                T::add_spec(
                    T::add_spec(T::sub_spec(self.0, r0), other.0),
                    self.1,
                ),
                other.1,
            ),
        )
    }

    fn add_checked(self, other: Doubled<T>) -> (r: Doubled<T>) {
        let r0 = self.0.add(other.0);
        Doubled(r0, self.0.sub(r0).add(other.0).add(self.1).add(other.1))
    }
}

impl<T: Element> AddChecked<T> for Doubled<T> where Doubled<T>: CheckOrder<T> {
    type Output = Doubled<T>;

    open spec fn add_checked_spec(self, other: T) -> Doubled<T> {
        let r0 = T::add_spec(self.0, other);
        Doubled(
            r0,
            T::add_spec(T::add_spec(T::sub_spec(self.0, r0), other), self.1),
        )
    }

    fn add_checked(self, other: T) -> (r: Doubled<T>) {
        let r0 = self.0.add(other);
        Doubled(r0, self.0.sub(r0).add(other).add(self.1))
    }
}

impl<T: Element + CheckOrder<Doubled<T>>> AddChecked<Doubled<T>> for T {
    type Output = Doubled<T>;

    open spec fn add_checked_spec(self, other: Doubled<T>) -> Doubled<T> {
        let r0 = T::add_spec(self, other.0);
        Doubled(
            r0,
            T::add_spec(T::add_spec(T::sub_spec(self, r0), other.0), other.1),
        )
    }

    fn add_checked(self, other: Doubled<T>) -> (r: Doubled<T>) {
        let r0 = self.add(other.0);
        Doubled(r0, self.sub(r0).add(other.0).add(other.1))
    }
}

impl<T: Element> SubChecked<Doubled<T>> for Doubled<T> where Doubled<T>: CheckOrder<Doubled<T>> {
    type Output = Doubled<T>;

    open spec fn sub_checked_spec(self, other: Doubled<T>) -> Doubled<T> {
        let r0 = T::sub_spec(self.0, other.0);
        Doubled(
            r0,
            T::sub_spec(
                T::add_spec(
                    T::sub_spec(T::sub_spec(self.0, r0), other.0),
                    self.1,
                ),
                other.1,
            ),
        )
    }

    fn sub_checked(self, other: Doubled<T>) -> (r: Doubled<T>) {
        let r0 = self.0.sub(other.0);
        Doubled(r0, self.0.sub(r0).sub(other.0).add(self.1).sub(other.1))
    }
}

impl<T: Element> SubChecked<T> for Doubled<T> where Doubled<T>: CheckOrder<T> {
    type Output = Doubled<T>;

    open spec fn sub_checked_spec(self, other: T) -> Doubled<T> {
        let r0 = T::sub_spec(self.0, other);
        Doubled(
            r0,
            T::add_spec(T::sub_spec(T::sub_spec(self.0, r0), other), self.1),
        )
    }

    fn sub_checked(self, other: T) -> (r: Doubled<T>) {
        let r0 = self.0.sub(other);
        Doubled(r0, self.0.sub(r0).sub(other).add(self.1))
    }
}

impl<T: Element> AddCheckedAssign<Doubled<T>> for Doubled<T> where
    Doubled<T>: AddChecked<Doubled<T>, Output = Doubled<T>>,
 {
    open spec fn add_checked_assign_req(self, other: Doubled<T>) -> bool {
        self.order_ok(other)
    }

    open spec fn add_checked_assign_spec(self, other: Doubled<T>) -> Self {
        self.add_checked_spec(other)
    }

    fn add_checked_assign(&mut self, other: Doubled<T>) {
        *self = (*self).add_checked(other);
    }
}

impl<T: Element> AddCheckedAssign<T> for Doubled<T> where
    Doubled<T>: AddChecked<T, Output = Doubled<T>>,
 {
    open spec fn add_checked_assign_req(self, other: T) -> bool {
        self.order_ok(other)
    }

    open spec fn add_checked_assign_spec(self, other: T) -> Self {
        self.add_checked_spec(other)
    }

    fn add_checked_assign(&mut self, other: T) {
        *self = (*self).add_checked(other);
    }
}

impl<T: Element> Normalize for Doubled<T> {
    open spec fn normalize_spec(self) -> Self {
        let s0 = T::add_spec(self.0, self.1);
        Doubled(s0, T::add_spec(T::sub_spec(self.0, s0), self.1))
    }

    fn normalize(self) -> (r: Self) {
        let s0 = self.0.add(self.1);
        Doubled(s0, self.0.sub(s0).add(self.1))
    }
}

impl<T: Element> Scale<T> for Doubled<T> {
    open spec fn scale_spec(self, other: T) -> Self {
        Doubled(T::mul_spec(self.0, other), T::mul_spec(self.1, other))
    }

    fn scale(self, other: T) -> (r: Self) {
        Doubled(self.0.mul(other), self.1.mul(other))
    }
}

} // verus!
