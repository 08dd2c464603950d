//! Fixed-width vector instantiation: every double-word algorithm applied
//! independently to each lane of a vector of elements.
//!
//! Each operation's contract says that lane `i` of the result is exactly the
//! scalar composition applied to lane `i` of the operands, so the vector code
//! realizes the same algorithmic contract as the scalar code, width by width.
//! As in the scalar algebra, the fused-multiply-add code path is a sibling
//! kernel (`*_fused`), chosen once by the caller for a whole build.

use vstd::prelude::*;

use crate::double::F64;
use crate::single::F32;
use crate::{
    AddChecked, CheckOrder, Doubled, Element, MulAsDoubled, Normalize, RecipAsDoubled, Scale,
    SubChecked,
};

verus! {

broadcast use vstd::array::group_array_axioms;

/// A fixed-width vector of lanes of an element kind.
#[derive(Clone, Copy, Debug, PartialEq, Eq)]
pub struct Lanes<T, const N: usize> {
    pub lanes: [T; N],
}

/// Vectors of 32-bit IEEE-754 elements.
pub type F32x<const N: usize> = Lanes<F32, N>;

/// Vectors of 64-bit IEEE-754 elements.
pub type F64x<const N: usize> = Lanes<F64, N>;

/// The sign-transfer absolute value applied to one lane: the leading
/// component's sign is cleared and is XORed into the trailing component, so
/// the two stay consistent under negation of the pair.
pub open spec fn abs_lane_spec<T: Element>(d: Doubled<T>) -> Doubled<T> {
    Doubled(T::xor_sign_spec(d.0, d.0), T::xor_sign_spec(d.1, d.0))
}

impl<T: Element, const N: usize> Doubled<Lanes<T, N>> {
    /// Lane `i` as a scalar double-word value.
    pub open spec fn lane(self, i: int) -> Doubled<T> {
        Doubled(self.0.lanes[i], self.1.lanes[i])
    }

    /// Broadcasts one scalar double-word value to every lane.
    pub fn splat(value: Doubled<T>) -> (r: Self)
        ensures
            forall|i: int| 0 <= i < N ==> #[trigger] r.lane(i) == value,
    {
        Doubled(Lanes { lanes: [value.0; N] }, Lanes { lanes: [value.1; N] })
    }

    /// Sign-transfer absolute value, lane by lane.
    pub fn abs(self) -> (r: Self)
        ensures
            forall|i: int| 0 <= i < N ==> #[trigger] r.lane(i) == abs_lane_spec(self.lane(i)),
    {
        let mut out0: [T; N] = [T::zero(); N];
        let mut out1: [T; N] = [T::zero(); N];
        let mut i: usize = 0;
        while i < N
            invariant
                i <= N,
                forall|j: int| 0 <= j < i ==> #[trigger] out0@[j] == abs_lane_spec(self.lane(j)).0,
                forall|j: int| 0 <= j < i ==> #[trigger] out1@[j] == abs_lane_spec(self.lane(j)).1,
            decreases N - i,
        {
            out0[i] = self.0.lanes[i].xor_sign(self.0.lanes[i]);
            out1[i] = self.1.lanes[i].xor_sign(self.0.lanes[i]);
            i += 1;
        }
        Doubled(Lanes { lanes: out0 }, Lanes { lanes: out1 })
    }

    /// Squaring, lane by lane, on the portable code path.
    pub fn square(self) -> (r: Self)
        ensures
            forall|i: int| 0 <= i < N ==> #[trigger] r.lane(i) == self.lane(i).square_spec(),
    {
        let mut out0: [T; N] = [T::zero(); N];
        let mut out1: [T; N] = [T::zero(); N];
        let mut i: usize = 0;
        while i < N
            invariant
                i <= N,
                forall|j: int| 0 <= j < i ==> #[trigger] out0@[j] == self.lane(j).square_spec().0,
                forall|j: int| 0 <= j < i ==> #[trigger] out1@[j] == self.lane(j).square_spec().1,
            decreases N - i,
        {
            let d = Doubled(self.0.lanes[i], self.1.lanes[i]).square();
            out0[i] = d.0;
            out1[i] = d.1;
            i += 1;
        }
        Doubled(Lanes { lanes: out0 }, Lanes { lanes: out1 })
    }

    /// Squaring, lane by lane, on the fused code path.
    pub fn square_fused(self) -> (r: Self)
        ensures
            forall|i: int| 0 <= i < N ==> #[trigger] r.lane(i) == self.lane(i).square_fused_spec(),
    {
        let mut out0: [T; N] = [T::zero(); N];
        let mut out1: [T; N] = [T::zero(); N];
        let mut i: usize = 0;
        while i < N
            invariant
                i <= N,
                forall|j: int|
                    0 <= j < i ==> #[trigger] out0@[j] == self.lane(j).square_fused_spec().0,
                forall|j: int|
                    0 <= j < i ==> #[trigger] out1@[j] == self.lane(j).square_fused_spec().1,
            decreases N - i,
        {
            let d = Doubled(self.0.lanes[i], self.1.lanes[i]).square_fused();
            out0[i] = d.0;
            out1[i] = d.1;
            i += 1;
        }
        Doubled(Lanes { lanes: out0 }, Lanes { lanes: out1 })
    }

    /// The square collapsed to a plain element, lane by lane.
    pub fn square_as_f(self) -> (r: Lanes<T, N>)
        ensures
            forall|i: int| 0 <= i < N ==> #[trigger] r.lanes[i] == self.lane(i).square_as_f_spec(),
    {
        let mut out: [T; N] = [T::zero(); N];
        let mut i: usize = 0;
        while i < N
            invariant
                i <= N,
                forall|j: int| 0 <= j < i ==> #[trigger] out@[j] == self.lane(j).square_as_f_spec(),
            decreases N - i,
        {
            out[i] = Doubled(self.0.lanes[i], self.1.lanes[i]).square_as_f();
            i += 1;
        }
        Lanes { lanes: out }
    }

    /// The square collapsed to a plain element, lane by lane, fused path.
    pub fn square_as_f_fused(self) -> (r: Lanes<T, N>)
        ensures
            forall|i: int|
                0 <= i < N ==> #[trigger] r.lanes[i] == self.lane(i).square_as_f_fused_spec(),
    {
        let mut out: [T; N] = [T::zero(); N];
        let mut i: usize = 0;
        while i < N
            invariant
                i <= N,
                forall|j: int|
                    0 <= j < i ==> #[trigger] out@[j] == self.lane(j).square_as_f_fused_spec(),
            decreases N - i,
        {
            out[i] = Doubled(self.0.lanes[i], self.1.lanes[i]).square_as_f_fused();
            i += 1;
        }
        Lanes { lanes: out }
    }

    /// Square root, lane by lane: the scalar Newton step through the
    /// double-word reciprocal, applied to every lane.
    pub fn sqrt(self) -> (r: Self)
        ensures
            forall|i: int| 0 <= i < N ==> #[trigger] r.lane(i) == self.lane(i).sqrt_spec(),
    {
        let mut out0: [T; N] = [T::zero(); N];
        let mut out1: [T; N] = [T::zero(); N];
        let mut i: usize = 0;
        while i < N
            invariant
                i <= N,
                forall|j: int| 0 <= j < i ==> #[trigger] out0@[j] == self.lane(j).sqrt_spec().0,
                forall|j: int| 0 <= j < i ==> #[trigger] out1@[j] == self.lane(j).sqrt_spec().1,
            decreases N - i,
        {
            let d = Doubled(self.0.lanes[i], self.1.lanes[i]).sqrt();
            out0[i] = d.0;
            out1[i] = d.1;
            i += 1;
        }
        Doubled(Lanes { lanes: out0 }, Lanes { lanes: out1 })
    }

    /// Reciprocal, lane by lane, on the portable code path.
    pub fn recip(self) -> (r: Self)
        ensures
            forall|i: int| 0 <= i < N ==> #[trigger] r.lane(i) == self.lane(i).recip_spec(),
    {
        let mut out0: [T; N] = [T::zero(); N];
        let mut out1: [T; N] = [T::zero(); N];
        let mut i: usize = 0;
        while i < N
            invariant
                i <= N,
                forall|j: int| 0 <= j < i ==> #[trigger] out0@[j] == self.lane(j).recip_spec().0,
                forall|j: int| 0 <= j < i ==> #[trigger] out1@[j] == self.lane(j).recip_spec().1,
            decreases N - i,
        {
            let d = Doubled(self.0.lanes[i], self.1.lanes[i]).recip();
            out0[i] = d.0;
            out1[i] = d.1;
            i += 1;
        }
        Doubled(Lanes { lanes: out0 }, Lanes { lanes: out1 })
    }

    /// Reciprocal, lane by lane, on the fused code path.
    pub fn recip_fused(self) -> (r: Self)
        ensures
            forall|i: int| 0 <= i < N ==> #[trigger] r.lane(i) == self.lane(i).recip_fused_spec(),
    {
        let mut out0: [T; N] = [T::zero(); N];
        let mut out1: [T; N] = [T::zero(); N];
        let mut i: usize = 0;
        while i < N
            invariant
                i <= N,
                forall|j: int|
                    0 <= j < i ==> #[trigger] out0@[j] == self.lane(j).recip_fused_spec().0,
                forall|j: int|
                    0 <= j < i ==> #[trigger] out1@[j] == self.lane(j).recip_fused_spec().1,
            decreases N - i,
        {
            let d = Doubled(self.0.lanes[i], self.1.lanes[i]).recip_fused();
            out0[i] = d.0;
            out1[i] = d.1;
            i += 1;
        }
        Doubled(Lanes { lanes: out0 }, Lanes { lanes: out1 })
    }

    /// Componentwise negation, lane by lane; exact.
    pub fn neg(self) -> (r: Self)
        ensures
            forall|i: int| 0 <= i < N ==> #[trigger] r.lane(i) == self.lane(i).neg_spec(),
    {
        let mut out0: [T; N] = [T::zero(); N];
        let mut out1: [T; N] = [T::zero(); N];
        let mut i: usize = 0;
        while i < N
            invariant
                i <= N,
                forall|j: int| 0 <= j < i ==> #[trigger] out0@[j] == self.lane(j).neg_spec().0,
                forall|j: int| 0 <= j < i ==> #[trigger] out1@[j] == self.lane(j).neg_spec().1,
            decreases N - i,
        {
            let d = Doubled(self.0.lanes[i], self.1.lanes[i]).neg();
            out0[i] = d.0;
            out1[i] = d.1;
            i += 1;
        }
        Doubled(Lanes { lanes: out0 }, Lanes { lanes: out1 })
    }

    /// Re-establishes the trailing-is-rounding-error invariant, lane by lane.
    pub fn normalize(self) -> (r: Self)
        ensures
            forall|i: int| 0 <= i < N ==> #[trigger] r.lane(i) == self.lane(i).normalize_spec(),
    {
        let mut out0: [T; N] = [T::zero(); N];
        let mut out1: [T; N] = [T::zero(); N];
        let mut i: usize = 0;
        while i < N
            invariant
                i <= N,
                forall|j: int|
                    0 <= j < i ==> #[trigger] out0@[j] == self.lane(j).normalize_spec().0,
                forall|j: int|
                    0 <= j < i ==> #[trigger] out1@[j] == self.lane(j).normalize_spec().1,
            decreases N - i,
        {
            let d = Doubled(self.0.lanes[i], self.1.lanes[i]).normalize();
            out0[i] = d.0;
            out1[i] = d.1;
            i += 1;
        }
        Doubled(Lanes { lanes: out0 }, Lanes { lanes: out1 })
    }

    /// Unchecked addition, lane by lane.
    pub fn add(self, other: Self) -> (r: Self)
        ensures
            forall|i: int|
                0 <= i < N ==> #[trigger] r.lane(i) == self.lane(i).add_spec(other.lane(i)),
    {
        let mut out0: [T; N] = [T::zero(); N];
        let mut out1: [T; N] = [T::zero(); N];
        let mut i: usize = 0;
        while i < N
            invariant
                i <= N,
                forall|j: int|
                    0 <= j < i ==> #[trigger] out0@[j] == self.lane(j).add_spec(other.lane(j)).0,
                forall|j: int|
                    0 <= j < i ==> #[trigger] out1@[j] == self.lane(j).add_spec(other.lane(j)).1,
            decreases N - i,
        {
            let d = Doubled(self.0.lanes[i], self.1.lanes[i]).add(
                Doubled(other.0.lanes[i], other.1.lanes[i]),
            );
            out0[i] = d.0;
            out1[i] = d.1;
            i += 1;
        }
        Doubled(Lanes { lanes: out0 }, Lanes { lanes: out1 })
    }

    /// Subtraction, lane by lane: the unchecked addition of the negation.
    pub fn sub(self, other: Self) -> (r: Self)
        ensures
            forall|i: int|
                0 <= i < N ==> #[trigger] r.lane(i) == self.lane(i).sub_spec(other.lane(i)),
    {
        let mut out0: [T; N] = [T::zero(); N];
        let mut out1: [T; N] = [T::zero(); N];
        let mut i: usize = 0;
        while i < N
            invariant
                i <= N,
                forall|j: int|
                    0 <= j < i ==> #[trigger] out0@[j] == self.lane(j).sub_spec(other.lane(j)).0,
                forall|j: int|
                    0 <= j < i ==> #[trigger] out1@[j] == self.lane(j).sub_spec(other.lane(j)).1,
            decreases N - i,
        {
            let d = Doubled(self.0.lanes[i], self.1.lanes[i]).sub(
                Doubled(other.0.lanes[i], other.1.lanes[i]),
            );
            out0[i] = d.0;
            out1[i] = d.1;
            i += 1;
        }
        Doubled(Lanes { lanes: out0 }, Lanes { lanes: out1 })
    }

    /// Multiplication, lane by lane, on the portable code path.
    pub fn mul(self, other: Self) -> (r: Self)
        ensures
            forall|i: int|
                0 <= i < N ==> #[trigger] r.lane(i) == self.lane(i).mul_spec(other.lane(i)),
    {
        let mut out0: [T; N] = [T::zero(); N];
        let mut out1: [T; N] = [T::zero(); N];
        let mut i: usize = 0;
        while i < N
            invariant
                i <= N,
                forall|j: int|
                    0 <= j < i ==> #[trigger] out0@[j] == self.lane(j).mul_spec(other.lane(j)).0,
                forall|j: int|
                    0 <= j < i ==> #[trigger] out1@[j] == self.lane(j).mul_spec(other.lane(j)).1,
            decreases N - i,
        {
            let d = Doubled(self.0.lanes[i], self.1.lanes[i]).mul(
                Doubled(other.0.lanes[i], other.1.lanes[i]),
            );
            out0[i] = d.0;
            out1[i] = d.1;
            i += 1;
        }
        Doubled(Lanes { lanes: out0 }, Lanes { lanes: out1 })
    }

    /// Multiplication, lane by lane, on the fused code path.
    pub fn mul_fused(self, other: Self) -> (r: Self)
        ensures
            forall|i: int|
                0 <= i < N ==> #[trigger] r.lane(i) == self.lane(i).mul_fused_spec(other.lane(i)),
    {
        let mut out0: [T; N] = [T::zero(); N];
        let mut out1: [T; N] = [T::zero(); N];
        let mut i: usize = 0;
        while i < N
            invariant
                i <= N,
                forall|j: int|
                    0 <= j < i ==> #[trigger] out0@[j] == self.lane(j).mul_fused_spec(
                        other.lane(j),
                    ).0,
                forall|j: int|
                    0 <= j < i ==> #[trigger] out1@[j] == self.lane(j).mul_fused_spec(
                        other.lane(j),
                    ).1,
            decreases N - i,
        {
            let d = Doubled(self.0.lanes[i], self.1.lanes[i]).mul_fused(
                Doubled(other.0.lanes[i], other.1.lanes[i]),
            );
            out0[i] = d.0;
            out1[i] = d.1;
            i += 1;
        }
        Doubled(Lanes { lanes: out0 }, Lanes { lanes: out1 })
    }

    /// Division, lane by lane, on the portable code path.
    pub fn div(self, other: Self) -> (r: Self)
        ensures
            forall|i: int|
                0 <= i < N ==> #[trigger] r.lane(i) == self.lane(i).div_spec(other.lane(i)),
    {
        let mut out0: [T; N] = [T::zero(); N];
        let mut out1: [T; N] = [T::zero(); N];
        let mut i: usize = 0;
        while i < N
            invariant
                i <= N,
                forall|j: int|
                    0 <= j < i ==> #[trigger] out0@[j] == self.lane(j).div_spec(other.lane(j)).0,
                forall|j: int|
                    0 <= j < i ==> #[trigger] out1@[j] == self.lane(j).div_spec(other.lane(j)).1,
            decreases N - i,
        {
            let d = Doubled(self.0.lanes[i], self.1.lanes[i]).div(
                Doubled(other.0.lanes[i], other.1.lanes[i]),
            );
            out0[i] = d.0;
            out1[i] = d.1;
            i += 1;
        }
        Doubled(Lanes { lanes: out0 }, Lanes { lanes: out1 })
    }

    /// Division, lane by lane, on the fused code path.
    pub fn div_fused(self, other: Self) -> (r: Self)
        ensures
            forall|i: int|
                0 <= i < N ==> #[trigger] r.lane(i) == self.lane(i).div_fused_spec(other.lane(i)),
    {
        let mut out0: [T; N] = [T::zero(); N];
        let mut out1: [T; N] = [T::zero(); N];
        let mut i: usize = 0;
        while i < N
            invariant
                i <= N,
                forall|j: int|
                    0 <= j < i ==> #[trigger] out0@[j] == self.lane(j).div_fused_spec(
                        other.lane(j),
                    ).0,
                forall|j: int|
                    0 <= j < i ==> #[trigger] out1@[j] == self.lane(j).div_fused_spec(
                        other.lane(j),
                    ).1,
            decreases N - i,
        {
            let d = Doubled(self.0.lanes[i], self.1.lanes[i]).div_fused(
                Doubled(other.0.lanes[i], other.1.lanes[i]),
            );
            out0[i] = d.0;
            out1[i] = d.1;
            i += 1;
        }
        Doubled(Lanes { lanes: out0 }, Lanes { lanes: out1 })
    }

    /// Componentwise scaling by a vector of plain elements, lane by lane.
    pub fn scale(self, other: Lanes<T, N>) -> (r: Self)
        ensures
            forall|i: int|
                0 <= i < N ==> #[trigger] r.lane(i) == self.lane(i).scale_spec(other.lanes[i]),
    {
        let mut out0: [T; N] = [T::zero(); N];
        let mut out1: [T; N] = [T::zero(); N];
        let mut i: usize = 0;
        while i < N
            invariant
                i <= N,
                forall|j: int|
                    0 <= j < i ==> #[trigger] out0@[j] == self.lane(j).scale_spec(
                        other.lanes[j],
                    ).0,
                forall|j: int|
                    0 <= j < i ==> #[trigger] out1@[j] == self.lane(j).scale_spec(
                        other.lanes[j],
                    ).1,
            decreases N - i,
        {
            let d = Doubled(self.0.lanes[i], self.1.lanes[i]).scale(other.lanes[i]);
            out0[i] = d.0;
            out1[i] = d.1;
            i += 1;
        }
        Doubled(Lanes { lanes: out0 }, Lanes { lanes: out1 })
    }

    /// Multiplication by a vector of plain elements, lane by lane, on the
    /// portable code path.
    pub fn mul_f(self, other: Lanes<T, N>) -> (r: Self)
        ensures
            forall|i: int|
                0 <= i < N ==> #[trigger] r.lane(i) == self.lane(i).mul_f_spec(other.lanes[i]),
    {
        let mut out0: [T; N] = [T::zero(); N];
        let mut out1: [T; N] = [T::zero(); N];
        let mut i: usize = 0;
        while i < N
            invariant
                i <= N,
                forall|j: int|
                    0 <= j < i ==> #[trigger] out0@[j] == self.lane(j).mul_f_spec(
                        other.lanes[j],
                    ).0,
                forall|j: int|
                    0 <= j < i ==> #[trigger] out1@[j] == self.lane(j).mul_f_spec(
                        other.lanes[j],
                    ).1,
            decreases N - i,
        {
            let d = Doubled(self.0.lanes[i], self.1.lanes[i]).mul_f(other.lanes[i]);
            out0[i] = d.0;
            out1[i] = d.1;
            i += 1;
        }
        Doubled(Lanes { lanes: out0 }, Lanes { lanes: out1 })
    }

    /// Multiplication by a vector of plain elements, lane by lane, on the
    /// fused code path.
    pub fn mul_f_fused(self, other: Lanes<T, N>) -> (r: Self)
        ensures
            forall|i: int|
                0 <= i < N ==> #[trigger] r.lane(i) == self.lane(i).mul_f_fused_spec(
                    other.lanes[i],
                ),
    {
        let mut out0: [T; N] = [T::zero(); N];
        let mut out1: [T; N] = [T::zero(); N];
        let mut i: usize = 0;
        while i < N
            invariant
                i <= N,
                forall|j: int|
                    0 <= j < i ==> #[trigger] out0@[j] == self.lane(j).mul_f_fused_spec(
                        other.lanes[j],
                    ).0,
                forall|j: int|
                    0 <= j < i ==> #[trigger] out1@[j] == self.lane(j).mul_f_fused_spec(
                        other.lanes[j],
                    ).1,
            decreases N - i,
        {
            let d = Doubled(self.0.lanes[i], self.1.lanes[i]).mul_f_fused(other.lanes[i]);
            out0[i] = d.0;
            out1[i] = d.1;
            i += 1;
        }
        Doubled(Lanes { lanes: out0 }, Lanes { lanes: out1 })
    }

    /// Narrowing conversion, lane by lane: each lane is the rounded sum of
    /// its components.
    pub fn as_f(self) -> (r: Lanes<T, N>)
        ensures
            forall|i: int|
                0 <= i < N ==> #[trigger] r.lanes[i] == T::add_spec(
                    self.0.lanes[i],
                    self.1.lanes[i],
                ),
    {
        let mut out: [T; N] = [T::zero(); N];
        let mut i: usize = 0;
        while i < N
            invariant
                i <= N,
                forall|j: int|
                    0 <= j < i ==> #[trigger] out@[j] == T::add_spec(
                        self.0.lanes[j],
                        self.1.lanes[j],
                    ),
            decreases N - i,
        {
            out[i] = self.0.lanes[i].add(self.1.lanes[i]);
            i += 1;
        }
        Lanes { lanes: out }
    }

    /// The product collapsed to a plain element, lane by lane.
    pub fn mul_as_f(self, other: Self) -> (r: Lanes<T, N>)
        ensures
            forall|i: int|
                0 <= i < N ==> #[trigger] r.lanes[i] == self.lane(i).mul_as_f_spec(other.lane(i)),
    {
        let mut out: [T; N] = [T::zero(); N];
        let mut i: usize = 0;
        while i < N
            invariant
                i <= N,
                forall|j: int|
                    0 <= j < i ==> #[trigger] out@[j] == self.lane(j).mul_as_f_spec(other.lane(j)),
            decreases N - i,
        {
            out[i] = Doubled(self.0.lanes[i], self.1.lanes[i]).mul_as_f(
                Doubled(other.0.lanes[i], other.1.lanes[i]),
            );
            i += 1;
        }
        Lanes { lanes: out }
    }
}

impl<T: Element, const N: usize> Doubled<Lanes<T, N>> where
    Doubled<T>: AddChecked<Doubled<T>, Output = Doubled<T>> + SubChecked<
        Doubled<T>,
        Output = Doubled<T>,
    >,
 {
    /// Checked addition, lane by lane: each lane is the fast two-sum
    /// composition.  The per-lane magnitude-ordering precondition is not
    /// tested on the vector path — a documented gap — so callers must
    /// guarantee it lane by lane themselves.
    pub fn add_checked(self, other: Self) -> (r: Self)
        ensures
            forall|i: int|
                0 <= i < N ==> #[trigger] r.lane(i) == self.lane(i).add_checked_spec(
                    other.lane(i),
                ),
    {
        let mut out0: [T; N] = [T::zero(); N];
        let mut out1: [T; N] = [T::zero(); N];
        let mut i: usize = 0;
        while i < N
            invariant
                i <= N,
                forall|j: int|
                    0 <= j < i ==> #[trigger] out0@[j] == self.lane(j).add_checked_spec(
                        other.lane(j),
                    ).0,
                forall|j: int|
                    0 <= j < i ==> #[trigger] out1@[j] == self.lane(j).add_checked_spec(
                        other.lane(j),
                    ).1,
            decreases N - i,
        {
            let x0 = self.0.lanes[i];
            let x1 = self.1.lanes[i];
            let y0 = other.0.lanes[i];
            let y1 = other.1.lanes[i];
            let r0 = x0.add(y0);
            out0[i] = r0;
            out1[i] = x0.sub(r0).add(y0).add(x1).add(y1);
            i += 1;
        }
        Doubled(Lanes { lanes: out0 }, Lanes { lanes: out1 })
    }

    /// Checked subtraction, lane by lane, under the same documented gap.
    pub fn sub_checked(self, other: Self) -> (r: Self)
        ensures
            forall|i: int|
                0 <= i < N ==> #[trigger] r.lane(i) == self.lane(i).sub_checked_spec(
                    other.lane(i),
                ),
    {
        let mut out0: [T; N] = [T::zero(); N];
        let mut out1: [T; N] = [T::zero(); N];
        let mut i: usize = 0;
        while i < N
            invariant
                i <= N,
                forall|j: int|
                    0 <= j < i ==> #[trigger] out0@[j] == self.lane(j).sub_checked_spec(
                        other.lane(j),
                    ).0,
                forall|j: int|
                    0 <= j < i ==> #[trigger] out1@[j] == self.lane(j).sub_checked_spec(
                        other.lane(j),
                    ).1,
            decreases N - i,
        {
            let x0 = self.0.lanes[i];
            let x1 = self.1.lanes[i];
            let y0 = other.0.lanes[i];
            let y1 = other.1.lanes[i];
            let r0 = x0.sub(y0);
            out0[i] = r0;
            out1[i] = x0.sub(r0).sub(y0).add(x1).sub(y1);
            i += 1;
        }
        Doubled(Lanes { lanes: out0 }, Lanes { lanes: out1 })
    }
}

impl<T: Element, const N: usize> Lanes<T, N> {
    /// Lossless widening: every trailing lane is zero.
    pub fn as_doubled(self) -> (r: Doubled<Lanes<T, N>>)
        ensures
            forall|i: int| 0 <= i < N ==> #[trigger] r.0.lanes[i] == self.lanes[i],
            forall|i: int| 0 <= i < N ==> #[trigger] r.1.lanes[i] == T::zero_spec(),
    {
        Doubled(self, Lanes { lanes: [T::zero(); N] })
    }

    /// Two-product, lane by lane, on the portable code path.
    pub fn mul_as_doubled(self, other: Self) -> (r: Doubled<Lanes<T, N>>)
        ensures
            forall|i: int|
                0 <= i < N ==> #[trigger] r.lane(i) == crate::mul_as_doubled_spec(
                    self.lanes[i],
                    other.lanes[i],
                ),
    {
        let mut out0: [T; N] = [T::zero(); N];
        let mut out1: [T; N] = [T::zero(); N];
        let mut i: usize = 0;
        while i < N
            invariant
                i <= N,
                forall|j: int|
                    0 <= j < i ==> #[trigger] out0@[j] == crate::mul_as_doubled_spec(
                        self.lanes[j],
                        other.lanes[j],
                    ).0,
                forall|j: int|
                    0 <= j < i ==> #[trigger] out1@[j] == crate::mul_as_doubled_spec(
                        self.lanes[j],
                        other.lanes[j],
                    ).1,
            decreases N - i,
        {
            let d = self.lanes[i].mul_as_doubled(other.lanes[i]);
            out0[i] = d.0;
            out1[i] = d.1;
            i += 1;
        }
        Doubled(Lanes { lanes: out0 }, Lanes { lanes: out1 })
    }

    /// Two-product, lane by lane, on the fused code path.
    pub fn mul_as_doubled_fused(self, other: Self) -> (r: Doubled<Lanes<T, N>>)
        ensures
            forall|i: int|
                0 <= i < N ==> #[trigger] r.lane(i) == crate::mul_as_doubled_fused_spec(
                    self.lanes[i],
                    other.lanes[i],
                ),
    {
        let mut out0: [T; N] = [T::zero(); N];
        let mut out1: [T; N] = [T::zero(); N];
        let mut i: usize = 0;
        while i < N
            invariant
                i <= N,
                forall|j: int|
                    0 <= j < i ==> #[trigger] out0@[j] == crate::mul_as_doubled_fused_spec(
                        self.lanes[j],
                        other.lanes[j],
                    ).0,
                forall|j: int|
                    0 <= j < i ==> #[trigger] out1@[j] == crate::mul_as_doubled_fused_spec(
                        self.lanes[j],
                        other.lanes[j],
                    ).1,
            decreases N - i,
        {
            let d = self.lanes[i].mul_as_doubled_fused(other.lanes[i]);
            out0[i] = d.0;
            out1[i] = d.1;
            i += 1;
        }
        Doubled(Lanes { lanes: out0 }, Lanes { lanes: out1 })
    }

    /// Reciprocal as a double-word value, lane by lane, portable code path.
    pub fn recip_as_doubled(self) -> (r: Doubled<Lanes<T, N>>)
        ensures
            forall|i: int|
                0 <= i < N ==> #[trigger] r.lane(i) == crate::recip_as_doubled_spec(self.lanes[i]),
    {
        let mut out0: [T; N] = [T::zero(); N];
        let mut out1: [T; N] = [T::zero(); N];
        let mut i: usize = 0;
        while i < N
            invariant
                i <= N,
                forall|j: int|
                    0 <= j < i ==> #[trigger] out0@[j] == crate::recip_as_doubled_spec(
                        self.lanes[j],
                    ).0,
                forall|j: int|
                    0 <= j < i ==> #[trigger] out1@[j] == crate::recip_as_doubled_spec(
                        self.lanes[j],
                    ).1,
            decreases N - i,
        {
            let d = self.lanes[i].recip_as_doubled();
            out0[i] = d.0;
            out1[i] = d.1;
            i += 1;
        }
        Doubled(Lanes { lanes: out0 }, Lanes { lanes: out1 })
    }

    /// Reciprocal as a double-word value, lane by lane, fused code path.
    pub fn recip_as_doubled_fused(self) -> (r: Doubled<Lanes<T, N>>)
        ensures
            forall|i: int|
                0 <= i < N ==> #[trigger] r.lane(i) == crate::recip_as_doubled_fused_spec(
                    self.lanes[i],
                ),
    {
        let mut out0: [T; N] = [T::zero(); N];
        let mut out1: [T; N] = [T::zero(); N];
        let mut i: usize = 0;
        while i < N
            invariant
                i <= N,
                forall|j: int|
                    0 <= j < i ==> #[trigger] out0@[j] == crate::recip_as_doubled_fused_spec(
                        self.lanes[j],
                    ).0,
                forall|j: int|
                    0 <= j < i ==> #[trigger] out1@[j] == crate::recip_as_doubled_fused_spec(
                        self.lanes[j],
                    ).1,
            decreases N - i,
        {
            let d = self.lanes[i].recip_as_doubled_fused();
            out0[i] = d.0;
            out1[i] = d.1;
            i += 1;
        }
        Doubled(Lanes { lanes: out0 }, Lanes { lanes: out1 })
    }
}

impl<T: Element, const N: usize> CheckOrder<Doubled<Lanes<T, N>>> for Doubled<Lanes<T, N>> {
    /// The vector ordering check is a documented no-op: lane-wise conditional
    /// checking is not performed, and callers of checked operations must
    /// guarantee the ordering invariant per lane themselves.
    open spec fn order_ok(self, other: Doubled<Lanes<T, N>>) -> bool {
        true
    }

    fn check_order(self, other: Doubled<Lanes<T, N>>) -> (r: bool) {
        true
    }
}

impl<T: Element, const N: usize> CheckOrder<Lanes<T, N>> for Doubled<Lanes<T, N>> {
    /// A documented no-op, as for the double-word pair form.
    open spec fn order_ok(self, other: Lanes<T, N>) -> bool {
        true
    }

    fn check_order(self, other: Lanes<T, N>) -> (r: bool) {
        true
    }
}

impl<T: Element, const N: usize> CheckOrder<Doubled<Lanes<T, N>>> for Lanes<T, N> {
    /// A documented no-op, as for the double-word pair form.
    open spec fn order_ok(self, other: Doubled<Lanes<T, N>>) -> bool {
        true
    }

    fn check_order(self, other: Doubled<Lanes<T, N>>) -> (r: bool) {
        true
    }
}

impl<T: Element, const N: usize> CheckOrder<Lanes<T, N>> for Lanes<T, N> {
    /// A documented no-op, as for the double-word pair form.
    open spec fn order_ok(self, other: Lanes<T, N>) -> bool {
        true
    }

    fn check_order(self, other: Lanes<T, N>) -> (r: bool) {
        true
    }
}

} // verus!
