//! Scalar double-word arithmetic checked against native hardware floats.

use doubled::double::F64;
use doubled::single::F32;
use doubled::{
    AddAsDoubled, AddChecked, AddCheckedAsDoubled, AddCheckedAssign, AsDoubled, Check, CheckOrder,
    Doubled, FromMask, MulAsDoubled, Normalize, RecipAsDoubled, Scale, SubChecked, Upper,
};

fn e32(x: f32) -> F32 {
    F32::from_bits(x.to_bits())
}

fn n32(e: F32) -> f32 {
    f32::from_bits(e.to_bits())
}

fn e64(x: f64) -> F64 {
    F64::from_bits(x.to_bits())
}

fn n64(e: F64) -> f64 {
    f64::from_bits(e.to_bits())
}

fn d32(hi: f32, lo: f32) -> Doubled<F32> {
    Doubled::new(e32(hi), e32(lo))
}

fn d64(hi: f64, lo: f64) -> Doubled<F64> {
    Doubled::new(e64(hi), e64(lo))
}

#[test]
fn element_arithmetic_matches_hardware_f32() {
    let samples: [f32; 8] = [1.0, -2.5, 3.1415927, 0.1, 1.0e-10, -7.25e8, 1.5e-42, 123456.78];
    for &a in samples.iter() {
        for &b in samples.iter() {
            let s = d32(a, 0.0).add_f(e32(b));
            assert_eq!(n32(s.0).to_bits(), (a + b).to_bits());
            let p = e32(a).mul_as_doubled(e32(b));
            assert_eq!(n32(p.0).to_bits(), (a * b).to_bits());
            // The leading component of the reciprocal is the plain rounded
            // quotient 1 / b.
            let t = e32(b).recip_as_doubled();
            assert_eq!(n32(t.0).to_bits(), (1.0f32 / b).to_bits());
        }
    }
}

#[test]
fn element_arithmetic_matches_hardware_f64() {
    let samples: [f64; 8] =
        [1.0, -2.5, 3.141592653589793, 0.1, 1.0e-200, -7.25e8, 4.9e-324, 123456.789];
    for &a in samples.iter() {
        for &b in samples.iter() {
            let s = d64(a, 0.0).add_f(e64(b));
            assert_eq!(n64(s.0).to_bits(), (a + b).to_bits());
            let p = e64(a).mul_as_doubled(e64(b));
            assert_eq!(n64(p.0).to_bits(), (a * b).to_bits());
            let t = e64(b).recip_as_doubled();
            assert_eq!(n64(t.0).to_bits(), (1.0f64 / b).to_bits());
        }
    }
}

#[test]
fn two_sum_is_exact_f32() {
    // Two-sum exactness: leading + trailing reconstructs the exact sum, seen
    // in the wider f64 precision.
    let samples: [f32; 7] = [1.0, -2.5, 3.1415927, 0.1, 1.0e-5, -7.25e3, 0.033333335];
    for &a in samples.iter() {
        for &b in samples.iter() {
            let r = e32(a).add_as_doubled(e32(b));
            let wide = n32(r.0) as f64 + n32(r.1) as f64;
            assert_eq!(wide, a as f64 + b as f64);
        }
    }
}

#[test]
fn two_sum_is_exact_f64() {
    // The exact rounding error of a hardware sum, recovered by the classic
    // reference recurrence, must equal the trailing component.
    let samples: [f64; 7] =
        [1.0, -2.5, 3.141592653589793, 0.1, 1.0e-5, -7.25e3, 0.03333333333333333];
    for &a in samples.iter() {
        for &b in samples.iter() {
            let r = e64(a).add_as_doubled(e64(b));
            let s = a + b;
            let bb = s - a;
            let err = (a - (s - bb)) + (b - bb);
            assert_eq!(n64(r.0).to_bits(), s.to_bits());
            assert_eq!(n64(r.1).to_bits(), err.to_bits());
        }
    }
}

#[test]
fn two_sum_concrete_small_addend() {
    // 1.0f32 + (~2^-24) rounds to 1.0 alone, but the doubled result keeps the
    // small addend exactly in the trailing component.
    let b = f32::from_bits(0x3727_c5ac);
    let r = e32(1.0f32).add_as_doubled(e32(b));
    assert_eq!(n32(r.0), 1.0f32 + b);
    let wide = n32(r.0) as f64 + n32(r.1) as f64;
    assert_eq!(wide, 1.0f64 + b as f64);
    assert!(wide != (1.0f32 + b) as f64);
}

#[test]
fn two_product_is_exact_f32() {
    // Two-product exactness: a 24-bit by 24-bit product is exact in f64, and
    // leading + trailing must reconstruct it.
    let samples: [f32; 7] = [1.0, -2.5, 3.1415927, 0.1, 1.0e-5, -7.25e3, 0.3];
    for &a in samples.iter() {
        for &b in samples.iter() {
            let r = e32(a).mul_as_doubled(e32(b));
            let wide = n32(r.0) as f64 + n32(r.1) as f64;
            assert_eq!(wide, a as f64 * b as f64);
        }
    }
}

#[test]
fn two_product_is_exact_f64() {
    // The exact product error is a fused multiply-add away: err = fma(a, b, -a*b).
    let samples: [f64; 7] = [1.0, -2.5, 3.141592653589793, 0.1, 1.0e-5, -7.25e3, 0.3];
    for &a in samples.iter() {
        for &b in samples.iter() {
            let r = e64(a).mul_as_doubled(e64(b));
            let hi = a * b;
            let err = a.mul_add(b, -hi);
            assert_eq!(n64(r.0).to_bits(), hi.to_bits());
            assert_eq!(n64(r.1).to_bits(), err.to_bits());
        }
    }
}

#[test]
fn two_product_concrete_tenth_times_three_tenths() {
    // Neither 0.1 nor 0.3 is representable, yet the doubled product carries
    // the exact product of the two representable values: the trailing
    // component equals the fused-multiply-add error of the leading one.
    let a = 0.1f64;
    let b = 0.3f64;
    let r = e64(a).mul_as_doubled(e64(b));
    let hi = a * b;
    let err = a.mul_add(b, -hi);
    assert_eq!(n64(r.0).to_bits(), hi.to_bits());
    assert_eq!(n64(r.1).to_bits(), err.to_bits());
    // At doubled precision the value is within one double-precision ulp of
    // 0.03: collapsing the pair gives exactly the rounded 0.03.
    assert_eq!((n64(r.0) + n64(r.1)).to_bits(), (0.03f64).to_bits());
}

#[test]
fn round_trip_scalar_to_doubled_and_back() {
    let samples32: [f32; 8] =
        [0.0, 1.0, -1.0, 3.1415927, -0.1, 1.0e-42, f32::MAX, f32::MIN_POSITIVE];
    for &x in samples32.iter() {
        let d = e32(x).as_doubled();
        assert_eq!(n32(d.as_f()).to_bits(), x.to_bits());
    }
    let samples64: [f64; 8] =
        [0.0, 1.0, -1.0, 3.141592653589793, -0.1, 4.9e-324, f64::MAX, f64::MIN_POSITIVE];
    for &x in samples64.iter() {
        let d = e64(x).as_doubled();
        assert_eq!(n64(d.as_f()).to_bits(), x.to_bits());
    }
    // Negative zero comes back as positive zero: numerically equal.
    let z = e32(-0.0f32).as_doubled();
    assert_eq!(n32(z.as_f()), -0.0f32);
    assert_eq!(n32(z.as_f()).to_bits(), (0.0f32).to_bits());
}

#[test]
fn normalize_is_idempotent() {
    // Idempotence needs the leading component's magnitude not to be smaller:
    // the pass is a fast two-sum, whose error recovery assumes that order.
    // A misordered pair such as (0.1, 0.3) in 64 bits is a counterexample.
    let pairs32: [(f32, f32); 5] = [
        (1.0, 1.0),
        (3.0e7, -1.25),
        (0.3, 0.1),
        (1.0e20, 1.0e-20),
        (-2.5, 2.5),
    ];
    for &(a, b) in pairs32.iter() {
        let x = d32(a, b);
        let once = x.normalize();
        let twice = once.normalize();
        assert_eq!(n32(once.0).to_bits(), n32(twice.0).to_bits());
        assert_eq!(n32(once.1).to_bits(), n32(twice.1).to_bits());
    }
    let pairs64: [(f64, f64); 5] = [
        (1.0, 1.0),
        (3.0e7, -1.25),
        (0.3, 0.1),
        (1.0e200, 1.0e-200),
        (-2.5, 2.5),
    ];
    for &(a, b) in pairs64.iter() {
        let x = d64(a, b);
        let once = x.normalize();
        let twice = once.normalize();
        assert_eq!(n64(once.0).to_bits(), n64(twice.0).to_bits());
        assert_eq!(n64(once.1).to_bits(), n64(twice.1).to_bits());
    }
}

#[test]
fn checked_add_exact_under_ordering() {
    // With |a| >= |b| the fast two-sum reconstructs the exact sum.
    let pairs: [(f32, f32); 4] = [(1.0, 2.0e-8), (-4.0, 1.0), (3.0e7, -1.25), (2.0, -2.0)];
    for &(a, b) in pairs.iter() {
        assert!(a.abs() >= b.abs());
        let r = e32(a).add_checked_as_doubled(e32(b));
        let wide = n32(r.0) as f64 + n32(r.1) as f64;
        assert_eq!(wide, a as f64 + b as f64);
    }
}

#[test]
fn check_order_accepts_and_rejects() {
    // Ordered magnitudes pass.
    assert!(e32(2.0f32).check_order(e32(1.0f32)));
    assert!(e64(2.0f64).check_order(e64(1.0f64)));
    // Misordered finite magnitudes fail.
    assert!(!e32(1.0f32).check_order(e32(2.0f32)));
    assert!(!e64(1.0f64).check_order(e64(2.0f64)));
    // A non-finite operand is exempt.
    assert!(e32(f32::NAN).check_order(e32(2.0f32)));
    assert!(e32(1.0f32).check_order(e32(f32::INFINITY)));
    // The 64-bit discipline also exempts near cancellation, even when the
    // first magnitude is smaller.
    let a = 0.9999999f64;
    let b = -1.0f64;
    assert!(a.abs() < b.abs());
    assert!(e64(a).check_order(e64(b)));
    // The pair form additionally exempts a zero leading component.
    let z: Doubled<F64> = d64(0.0, 0.0);
    assert!(z.check_order(d64(5.0, 0.0)));
    // No such exemptions for 32-bit near cancellation.
    let a32 = 0.99999994f32;
    let b32 = -1.0f32;
    assert!(!e32(a32).check_order(e32(b32)));
}

#[test]
fn checked_add_and_sub_pair_forms() {
    let x = e64(1.0f64).add_as_doubled(e64(1.0e-20f64));
    let y = e64(0.25f64).add_as_doubled(e64(1.0e-22f64));
    let s = x.add_checked(y);
    let d = x.sub_checked(y);
    let sw = n64(s.0) + n64(s.1);
    let dw = n64(d.0) + n64(d.1);
    assert_eq!(sw, 1.25f64);
    assert_eq!(dw, 0.75f64);
    let sf = x.add_checked(e64(0.5f64));
    assert_eq!(n64(sf.0) + n64(sf.1), 1.5f64);
    let fs = e64(2.0f64).add_checked(y);
    assert_eq!(n64(fs.0) + n64(fs.1), 2.25f64);
    let df = x.sub_checked(e64(0.5f64));
    assert_eq!(n64(df.0) + n64(df.1), 0.5f64);
}

#[test]
fn add_checked_assign_matches_add_checked() {
    let x = e32(8.0f32).add_as_doubled(e32(1.0e-6f32));
    let y = e32(1.0f32).add_as_doubled(e32(-3.0e-7f32));
    let direct = x.add_checked(y);
    let mut acc = x;
    acc.add_checked_assign(y);
    assert_eq!(n32(acc.0).to_bits(), n32(direct.0).to_bits());
    assert_eq!(n32(acc.1).to_bits(), n32(direct.1).to_bits());
}

#[test]
fn reciprocal_accuracy_f32() {
    // Relative error of the doubled reciprocal, collapsed and measured in the
    // wider f64 precision, stays below 2^-46.
    let samples: [f32; 6] = [3.0, 7.0, 10.0, 0.001, 1.0e10, -6.55e-3];
    let bound = (2.0f64).powi(-46);
    for &x in samples.iter() {
        let r = e32(x).recip_as_doubled();
        let wide = n32(r.0) as f64 + n32(r.1) as f64;
        let exact = 1.0f64 / (x as f64);
        let rel = ((wide - exact) / exact).abs();
        assert!(rel < bound, "x = {x}, rel = {rel:e}");
    }
}

#[test]
fn reciprocal_accuracy_f64() {
    // Residual |x * (hi + lo) - 1| measured with fused multiply-adds stays
    // below 2^-102.
    let samples: [f64; 6] = [3.0, 7.0, 10.0, 0.001, 1.0e10, -6.55e-3];
    let bound = (2.0f64).powi(-102);
    for &x in samples.iter() {
        let r = e64(x).recip_as_doubled();
        let hi = n64(r.0);
        let lo = n64(r.1);
        let t1 = x.mul_add(hi, -1.0);
        let t2 = x.mul_add(lo, t1);
        assert!(t2.abs() < bound, "x = {x}, residual = {t2:e}");
    }
}

#[test]
fn division_refines_the_quotient() {
    // Doubled division of widened operands must be far closer to the real
    // quotient than one rounding.
    let x = d64(1.0, 0.0);
    let y = d64(3.0, 0.0);
    let q = x.div(y);
    let hi = n64(q.0);
    let lo = n64(q.1);
    assert_eq!(hi.to_bits(), (1.0f64 / 3.0f64).to_bits());
    // hi alone misses 1/3 by its rounding error; lo must recover most of it:
    // 3 * (hi + lo) - 1 is tiny.
    let t1 = 3.0f64.mul_add(hi, -1.0);
    let t2 = 3.0f64.mul_add(lo, t1);
    assert!(t2.abs() < (2.0f64).powi(-102));
}

#[test]
fn square_matches_mul() {
    let pairs: [(f64, f64); 3] = [(3.141592653589793, 1.2e-16), (-2.5, 0.0), (1.0e150, -1.0e130)];
    for &(a, b) in pairs.iter() {
        let x = d64(a, b);
        let s = x.square();
        let m = x.mul(x);
        assert_eq!(n64(s.0).to_bits(), n64(m.0).to_bits());
        // The specialized correction may round differently from the general
        // one in the very last bit, but only there.
        let diff = (n64(s.1) - n64(m.1)).abs();
        assert!(diff <= n64(s.0).abs() * (2.0f64).powi(-100));
    }
    let x = d64(1.5, 1.0e-18);
    let diff = (n64(x.square_as_f()) - n64(x.mul_as_f(x))).abs();
    assert!(diff <= 1.5 * (2.0f64).powi(-50));
}

#[test]
fn sqrt_of_two_is_tight() {
    let x = d64(2.0, 0.0);
    let r = x.sqrt();
    let hi = n64(r.0);
    let lo = n64(r.1);
    // The Newton step may move the leading component by at most an ulp off
    // the rounded sqrt(2); the pair as a whole must square back to 2 up to
    // doubled precision.
    assert!((hi - (2.0f64).sqrt()).abs() <= (2.0f64).sqrt() * (2.0f64).powi(-52));
    let t1 = hi.mul_add(hi, -2.0);
    let t2 = (2.0 * hi).mul_add(lo, t1);
    assert!(t2.abs() < (2.0f64).powi(-100));
}

#[test]
fn scale_and_neg_are_componentwise() {
    let x = d32(3.0, 1.5e-8);
    let s = x.scale(e32(0.5f32));
    assert_eq!(n32(s.0), 1.5f32);
    assert_eq!(n32(s.1), 0.75e-8f32);
    let n = x.neg();
    assert_eq!(n32(n.0), -3.0f32);
    assert_eq!(n32(n.1), -1.5e-8f32);
}

#[test]
fn abs_follows_the_leading_sign() {
    let x = d64(-3.0, 1.0e-17);
    let a = x.abs();
    assert_eq!(n64(a.0), 3.0f64);
    assert_eq!(n64(a.1), -1.0e-17f64);
    let y = d64(3.0, -1.0e-17);
    let b = y.abs();
    assert_eq!(n64(b.0), 3.0f64);
    assert_eq!(n64(b.1), -1.0e-17f64);
    // A negative zero leading component is not strictly negative, so the
    // scalar absolute value leaves the pair untouched.
    let z = d32(-0.0, 1.0);
    let c = z.abs();
    assert_eq!(n32(c.0).to_bits(), (-0.0f32).to_bits());
    assert_eq!(n32(c.1), 1.0f32);
}

#[test]
fn classification_and_from_mask() {
    assert!(e32(f32::NAN).is_nan());
    assert!(!e32(1.0f32).is_nan());
    assert!(e32(f32::INFINITY).is_infinite());
    assert!(e32(f32::NEG_INFINITY).is_infinite());
    assert!(!e32(f32::NAN).is_infinite());
    assert!(e64(f64::NAN).check());
    assert!(e64(f64::INFINITY).check());
    assert!(!e64(1.0e308f64).check());
    let m: Doubled<F32> = Doubled::from_mask(0x3f80_0000, 0x8000_0000);
    assert_eq!(n32(m.0), 1.0f32);
    assert_eq!(n32(m.1).to_bits(), (-0.0f32).to_bits());
    let m64: Doubled<F64> = Doubled::from_mask(0x3ff0_0000_0000_0000, 0);
    assert_eq!(n64(m64.0), 1.0f64);
}

#[test]
fn upper_clears_low_mantissa_bits() {
    let x = e32(3.1415927f32);
    let u = x.upper();
    assert_eq!(u.to_bits(), x.to_bits() & 0xffff_f000);
    // The split halves recombine exactly.
    let hi = f32::from_bits(u.to_bits());
    let lo = 3.1415927f32 - hi;
    assert_eq!(hi + lo, 3.1415927f32);
    let y = e64(3.141592653589793f64);
    let v = y.upper();
    assert_eq!(v.to_bits(), y.to_bits() & 0xffff_ffff_f800_0000);
}

#[test]
fn fused_and_portable_paths_agree_when_well_scaled() {
    let pairs: [(f64, f64); 3] = [(1.5, 1.0e-17), (-2.25, 3.0e-18), (1.0e10, -4.0e-7)];
    for &(a, b) in pairs.iter() {
        for &(c, d) in pairs.iter() {
            let x = d64(a, b);
            let y = d64(c, d);
            let p = x.mul(y);
            let f = x.mul_fused(y);
            assert_eq!(n64(p.0).to_bits(), n64(f.0).to_bits());
            assert_eq!(n64(p.1).to_bits(), n64(f.1).to_bits());
            let s = x.square();
            let sf = x.square_fused();
            assert_eq!(n64(s.0).to_bits(), n64(sf.0).to_bits());
            assert_eq!(n64(s.1).to_bits(), n64(sf.1).to_bits());
        }
    }
}

#[test]
fn fused_two_product_error_term() {
    // The fused two-product's trailing component is the exact fused
    // multiply-add error of the leading product, never the input echoed back.
    let a = 0.1f32;
    let b = 0.3f32;
    let r = e32(a).mul_as_doubled_fused(e32(b));
    let wide = n32(r.0) as f64 + n32(r.1) as f64;
    assert_eq!(wide, a as f64 * b as f64);
    let rf = e64(0.1f64).recip_as_doubled_fused();
    let t1 = 0.1f64.mul_add(n64(rf.0), -1.0);
    let t2 = 0.1f64.mul_add(n64(rf.1), t1);
    assert!(t2.abs() < (2.0f64).powi(-102));
}

#[test]
fn compound_assignments_match_direct_forms() {
    let x = d64(1.0, 1.0e-20);
    let y = d64(0.5, -2.0e-21);
    let mut a = x;
    a.add_assign(y);
    let direct = x.add(y);
    assert_eq!(n64(a.0).to_bits(), n64(direct.0).to_bits());
    assert_eq!(n64(a.1).to_bits(), n64(direct.1).to_bits());
    let mut m = x;
    m.mul_assign(y);
    let mdirect = x.mul(y);
    assert_eq!(n64(m.0).to_bits(), n64(mdirect.0).to_bits());
    assert_eq!(n64(m.1).to_bits(), n64(mdirect.1).to_bits());
    let mut mf = x;
    mf.mul_assign_f(e64(2.0f64));
    let mfdirect = x.mul_f(e64(2.0f64));
    assert_eq!(n64(mf.0).to_bits(), n64(mfdirect.0).to_bits());
    assert_eq!(n64(mf.1).to_bits(), n64(mfdirect.1).to_bits());
}

#[test]
fn splitting_a_double_across_two_singles() {
    let samples: [f64; 6] =
        [1.1, 3.141592653589793, -0.1, 1.0e30, 7.25e-12, 0.6931471805599453];
    for &f in samples.iter() {
        let r = Doubled::<F32>::from_f64(e64(f));
        let hi = f as f32;
        let lo = (f - (hi as f64)) as f32;
        assert_eq!(n32(r.0).to_bits(), hi.to_bits());
        assert_eq!(n32(r.1).to_bits(), lo.to_bits());
        // The two components reconstruct the double almost exactly.
        let wide = n32(r.0) as f64 + n32(r.1) as f64;
        assert!(((wide - f) / f).abs() < (2.0f64).powi(-45));
    }
}

#[test]
fn special_values_propagate() {
    // Infinities and NaNs are never rejected: they flow through every
    // operation by the ordinary floating-point rules.
    let inf = d64(f64::INFINITY, 0.0);
    let x = d64(1.5, 1.0e-17);
    let s = inf.add(x);
    assert!(n64(s.0).is_infinite());
    let m = inf.mul(x);
    assert!(n64(m.0).is_infinite());
    let nan = d64(f64::NAN, 0.0);
    assert!(n64(nan.add(x).0).is_nan());
    assert!(n64(nan.mul(x).0).is_nan());
    // Inf - Inf is a NaN.
    assert!(n64(inf.sub(inf).0).is_nan());
    // Overflow turns into an infinity.
    let big = d64(f64::MAX, 0.0);
    assert!(n64(big.square().0).is_infinite());
    let big32 = d32(f32::MAX, 0.0);
    assert!(n32(big32.square().0).is_infinite());
    // The square root of a negative value is a NaN.
    let neg = d64(-4.0, 0.0);
    assert!(n64(neg.sqrt().0).is_nan());
    // Division by zero gives an infinity of the quotient's sign.
    let q = x.div(d64(0.0, 0.0));
    assert!(n64(q.0).is_infinite());
}

#[test]
fn new_keeps_components() {
    let d = Doubled::new(e32(1.5f32), e32(-3.0f32));
    assert_eq!(n32(d.0), 1.5f32);
    assert_eq!(n32(d.1), -3.0f32);
}
