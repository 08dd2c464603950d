//! Vector lanes: every operation must act as the scalar algorithm applied to
//! each lane independently, on both the portable and the fused code path.

use doubled::double::F64;
use doubled::lanes::{F32x, F64x, Lanes};
use doubled::single::F32;
use doubled::{CheckOrder, Doubled, MulAsDoubled, Normalize, RecipAsDoubled};

fn e32(x: f32) -> F32 {
    F32::from_bits(x.to_bits())
}

fn n32(e: F32) -> f32 {
    f32::from_bits(e.to_bits())
}

fn e64(x: f64) -> F64 {
    F64::from_bits(x.to_bits())
}

fn n64(e: F64) -> f64 {
    f64::from_bits(e.to_bits())
}

fn v32(xs: [f32; 4]) -> F32x<4> {
    Lanes { lanes: [e32(xs[0]), e32(xs[1]), e32(xs[2]), e32(xs[3])] }
}

fn dv32(hi: [f32; 4], lo: [f32; 4]) -> Doubled<F32x<4>> {
    Doubled::new(v32(hi), v32(lo))
}

fn v64(xs: [f64; 2]) -> F64x<2> {
    Lanes { lanes: [e64(xs[0]), e64(xs[1])] }
}

fn dv64(hi: [f64; 2], lo: [f64; 2]) -> Doubled<F64x<2>> {
    Doubled::new(v64(hi), v64(lo))
}

#[test]
fn splat_broadcasts_every_lane() {
    let d = Doubled::new(e32(1.5f32), e32(-3.0e-8f32));
    let v: Doubled<F32x<8>> = Doubled::splat(d);
    for i in 0..8 {
        assert_eq!(n32(v.0.lanes[i]), 1.5f32);
        assert_eq!(n32(v.1.lanes[i]), -3.0e-8f32);
    }
}

#[test]
fn lanewise_square_matches_scalar() {
    let x = dv32([1.5, -2.25, 3.1415927, 0.1], [1.0e-9, 0.0, -8.7e-8, 2.0e-10]);
    let s = x.square();
    for i in 0..4 {
        let scalar = Doubled::new(x.0.lanes[i], x.1.lanes[i]).square();
        assert_eq!(s.0.lanes[i].to_bits(), scalar.0.to_bits());
        assert_eq!(s.1.lanes[i].to_bits(), scalar.1.to_bits());
    }
    let sf = x.square_fused();
    for i in 0..4 {
        let scalar = Doubled::new(x.0.lanes[i], x.1.lanes[i]).square_fused();
        assert_eq!(sf.0.lanes[i].to_bits(), scalar.0.to_bits());
        assert_eq!(sf.1.lanes[i].to_bits(), scalar.1.to_bits());
    }
}

#[test]
fn lanewise_mul_div_add_match_scalar() {
    let x = dv64([1.5, -2.25], [1.0e-17, 3.0e-18]);
    let y = dv64([0.1, 7.0], [-2.0e-18, 0.0]);
    let m = x.mul(y);
    let mf = x.mul_fused(y);
    let q = x.div(y);
    let qf = x.div_fused(y);
    let s = x.add(y);
    let d = x.sub(y);
    for i in 0..2 {
        let xs = Doubled::new(x.0.lanes[i], x.1.lanes[i]);
        let ys = Doubled::new(y.0.lanes[i], y.1.lanes[i]);
        assert_eq!(m.0.lanes[i].to_bits(), xs.mul(ys).0.to_bits());
        assert_eq!(m.1.lanes[i].to_bits(), xs.mul(ys).1.to_bits());
        assert_eq!(mf.1.lanes[i].to_bits(), xs.mul_fused(ys).1.to_bits());
        assert_eq!(q.0.lanes[i].to_bits(), xs.div(ys).0.to_bits());
        assert_eq!(qf.0.lanes[i].to_bits(), xs.div_fused(ys).0.to_bits());
        assert_eq!(s.0.lanes[i].to_bits(), xs.add(ys).0.to_bits());
        assert_eq!(s.1.lanes[i].to_bits(), xs.add(ys).1.to_bits());
        assert_eq!(d.0.lanes[i].to_bits(), xs.sub(ys).0.to_bits());
    }
}

#[test]
fn lanewise_sqrt_and_recip() {
    let x = dv64([2.0, 9.0], [0.0, 0.0]);
    let r = x.sqrt();
    for i in 0..2 {
        let xs = Doubled::new(x.0.lanes[i], x.1.lanes[i]);
        let rs = xs.sqrt();
        assert_eq!(r.0.lanes[i].to_bits(), rs.0.to_bits());
        assert_eq!(r.1.lanes[i].to_bits(), rs.1.to_bits());
    }
    let rec = x.recip();
    let recf = x.recip_fused();
    for i in 0..2 {
        let xs = Doubled::new(x.0.lanes[i], x.1.lanes[i]);
        assert_eq!(rec.0.lanes[i].to_bits(), xs.recip().0.to_bits());
        assert_eq!(rec.1.lanes[i].to_bits(), xs.recip().1.to_bits());
        assert_eq!(recf.1.lanes[i].to_bits(), xs.recip_fused().1.to_bits());
    }
}

#[test]
fn vector_abs_transfers_the_sign_bitwise() {
    // The vector absolute value clears the leading sign and XORs it into the
    // trailing lane: unlike the scalar compare-based form it also flips a
    // negative-zero leading lane.
    let x = dv32([-3.0, 3.0, -0.0, f32::NAN], [1.0e-9, -1.0e-9, 1.0, 1.0]);
    let a = x.abs();
    assert_eq!(n32(a.0.lanes[0]), 3.0f32);
    assert_eq!(n32(a.1.lanes[0]), -1.0e-9f32);
    assert_eq!(n32(a.0.lanes[1]), 3.0f32);
    assert_eq!(n32(a.1.lanes[1]), -1.0e-9f32);
    assert_eq!(n32(a.0.lanes[2]).to_bits(), (0.0f32).to_bits());
    assert_eq!(n32(a.1.lanes[2]), -1.0f32);
    // A NaN leading lane keeps its mantissa; only its sign bit is read.
    assert!(n32(a.0.lanes[3]).is_nan());
    assert_eq!(n32(a.1.lanes[3]), 1.0f32);
}

#[test]
fn vector_normalize_scale_neg() {
    let x = dv64([1.0, 3.0e7], [1.0, -1.25]);
    let n = x.normalize();
    let s = x.scale(v64([0.5, 2.0]));
    let g = x.neg();
    for i in 0..2 {
        let xs = Doubled::new(x.0.lanes[i], x.1.lanes[i]);
        let ns = xs.normalize();
        assert_eq!(n.0.lanes[i].to_bits(), ns.0.to_bits());
        assert_eq!(n.1.lanes[i].to_bits(), ns.1.to_bits());
        assert_eq!(g.0.lanes[i].to_bits(), xs.neg().0.to_bits());
    }
    assert_eq!(n64(s.0.lanes[0]), 0.5f64);
    assert_eq!(n64(s.1.lanes[0]), 0.5f64);
    assert_eq!(n64(s.0.lanes[1]), 6.0e7f64);
    assert_eq!(n64(s.1.lanes[1]), -2.5f64);
}

#[test]
fn vector_checked_ops_skip_the_ordering_check() {
    // The vector ordering discipline is a documented no-op: misordered lanes
    // are accepted and computed with the fast two-sum anyway.
    let x = dv64([1.0, 1.0e-20], [0.0, 0.0]);
    let y = dv64([0.5, 1.0], [0.0, 0.0]);
    assert!(x.check_order(y));
    assert!(x.0.check_order(y.0));
    let s = x.add_checked(y);
    assert_eq!(n64(s.0.lanes[0]) + n64(s.1.lanes[0]), 1.5f64);
    let d = x.sub_checked(y);
    assert_eq!(n64(d.0.lanes[0]) + n64(d.1.lanes[0]), 0.5f64);
}

#[test]
fn vector_element_transforms() {
    let a = v32([0.1, 0.3, -2.5, 1.0e-5]);
    let b = v32([0.3, 0.1, 4.0, 3.0e5]);
    let w = a.as_doubled();
    for i in 0..4 {
        assert_eq!(w.0.lanes[i].to_bits(), a.lanes[i].to_bits());
        assert_eq!(w.1.lanes[i].to_bits(), 0u32);
    }
    let p = a.mul_as_doubled(b);
    let pf = a.mul_as_doubled_fused(b);
    for i in 0..4 {
        let sp = a.lanes[i].mul_as_doubled(b.lanes[i]);
        assert_eq!(p.0.lanes[i].to_bits(), sp.0.to_bits());
        assert_eq!(p.1.lanes[i].to_bits(), sp.1.to_bits());
        let spf = a.lanes[i].mul_as_doubled_fused(b.lanes[i]);
        assert_eq!(pf.1.lanes[i].to_bits(), spf.1.to_bits());
        let wide = n32(p.0.lanes[i]) as f64 + n32(p.1.lanes[i]) as f64;
        assert_eq!(wide, n32(a.lanes[i]) as f64 * n32(b.lanes[i]) as f64);
    }
    let r = a.recip_as_doubled();
    let rf = a.recip_as_doubled_fused();
    for i in 0..4 {
        let sr = a.lanes[i].recip_as_doubled();
        assert_eq!(r.0.lanes[i].to_bits(), sr.0.to_bits());
        assert_eq!(r.1.lanes[i].to_bits(), sr.1.to_bits());
        let srf = a.lanes[i].recip_as_doubled_fused();
        assert_eq!(rf.0.lanes[i].to_bits(), srf.0.to_bits());
    }
}

#[test]
fn lanewise_element_multiplication_and_narrowing() {
    let x = dv64([1.5, -2.25], [1.0e-17, 3.0e-18]);
    let k = v64([0.5, 3.0]);
    let m = x.mul_f(k);
    let mf = x.mul_f_fused(k);
    let c = x.as_f();
    for i in 0..2 {
        let xs = Doubled::new(x.0.lanes[i], x.1.lanes[i]);
        let ms = xs.mul_f(k.lanes[i]);
        assert_eq!(m.0.lanes[i].to_bits(), ms.0.to_bits());
        assert_eq!(m.1.lanes[i].to_bits(), ms.1.to_bits());
        let mfs = xs.mul_f_fused(k.lanes[i]);
        assert_eq!(mf.0.lanes[i].to_bits(), mfs.0.to_bits());
        assert_eq!(mf.1.lanes[i].to_bits(), mfs.1.to_bits());
        assert_eq!(c.lanes[i].to_bits(), xs.as_f().to_bits());
    }
    assert_eq!(n64(c.lanes[0]), 1.5f64 + 1.0e-17f64);
}

#[test]
fn lanewise_collapse_forms() {
    let x = dv32([1.5, -2.25, 0.1, 7.0], [1.0e-9, 0.0, -8.7e-9, 2.0e-7]);
    let y = dv32([0.5, 3.0, 0.3, -1.0], [0.0, 1.0e-8, 0.0, 0.0]);
    let sq = x.square_as_f();
    let sqf = x.square_as_f_fused();
    let mf = x.mul_as_f(y);
    for i in 0..4 {
        let xs = Doubled::new(x.0.lanes[i], x.1.lanes[i]);
        let ys = Doubled::new(y.0.lanes[i], y.1.lanes[i]);
        assert_eq!(sq.lanes[i].to_bits(), xs.square_as_f().to_bits());
        assert_eq!(sqf.lanes[i].to_bits(), xs.square_as_f_fused().to_bits());
        assert_eq!(mf.lanes[i].to_bits(), xs.mul_as_f(ys).to_bits());
    }
}
