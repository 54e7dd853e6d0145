use bn254_precompiles::curve::{G1Projective, G2Affine, G2Projective};
use bn254_precompiles::field::{Fq, Fq12, Fq2, Fq6};
use bn254_precompiles::final_exp::{FinalExpEvaluation, FinalExpMethod};
use bn254_precompiles::line::LineFunctionEvaluation;
use bn254_precompiles::miller::MillerLoopEvaluation;
use bn254_precompiles::pairing::{ec_pairing, ec_pairing_torus, ecpairing_precompile_inner, is_on_twist};
use bn254_precompiles::ec_add::U256;
use bn254_precompiles::torus::TorusWrapper;
use pairing_ce::bn256 as ce;
use pairing_ce::ff::{Field, PrimeField};
use pairing_ce::{CurveAffine, CurveProjective, Engine};

fn to_ce(a: &Fq) -> ce::Fq {
    ce::Fq::from_repr(ce::FqRepr(a.limbs)).unwrap()
}

fn from_ce(a: &ce::Fq) -> Fq {
    Fq { limbs: a.into_repr().0 }
}

fn fq2_from(a: &ce::Fq2) -> Fq2 {
    Fq2 { c0: from_ce(&a.c0), c1: from_ce(&a.c1) }
}

fn fq2_to(a: &Fq2) -> ce::Fq2 {
    ce::Fq2 { c0: to_ce(&a.c0), c1: to_ce(&a.c1) }
}

fn fq6_to(a: &Fq6) -> ce::Fq6 {
    ce::Fq6 { c0: fq2_to(&a.c0), c1: fq2_to(&a.c1), c2: fq2_to(&a.c2) }
}

fn fq12_to(a: &Fq12) -> ce::Fq12 {
    ce::Fq12 { c0: fq6_to(&a.c0), c1: fq6_to(&a.c1) }
}

fn scalar(k: u64) -> ce::Fr {
    ce::Fr::from_str(&k.to_string()).unwrap()
}

fn g1(k: u64) -> (ce::G1Affine, G1Projective) {
    let a = ce::G1Affine::one().mul(scalar(k)).into_affine();
    let (x, y) = a.into_xy_unchecked();
    (a, G1Projective::from_xy_unchecked(from_ce(&x), from_ce(&y)))
}

fn g2(k: u64) -> (ce::G2Affine, G2Projective) {
    let a = ce::G2Affine::one().mul(scalar(k)).into_affine();
    let (x, y) = a.into_xy_unchecked();
    (a, G2Projective::from_xy_unchecked(fq2_from(&x), fq2_from(&y)))
}

/// Affine coordinates of a Jacobian point `(X, Y, Z)`: `(X / Z^2, Y / Z^3)`.
fn jacobian_to_affine(p: &G2Projective) -> (ce::Fq2, ce::Fq2) {
    let z = fq2_to(&p.z);
    let zi = z.inverse().unwrap();
    let mut zi2 = zi;
    zi2.square();
    let mut zi3 = zi2;
    zi3.mul_assign(&zi);
    let mut x = fq2_to(&p.x);
    x.mul_assign(&zi2);
    let mut y = fq2_to(&p.y);
    y.mul_assign(&zi3);
    (x, y)
}

fn affine_of(k: u64) -> (ce::Fq2, ce::Fq2) {
    ce::G2Affine::one().mul(scalar(k)).into_affine().into_xy_unchecked()
}

#[test]
fn test_doubling_step() {
    let (_, p) = g1(5);
    for k in [1u64, 7, 1234] {
        let (_, q) = g2(k);
        let doubling = LineFunctionEvaluation::doubling_step(&q, &p);
        assert_eq!(jacobian_to_affine(&doubling.point()), affine_of(2 * k));
        let (c0, c3, c4) = doubling.c0c3c4();
        assert!(!c0.is_zero() && !c3.is_zero() && !c4.is_zero());
    }
}

#[test]
fn test_addition_step() {
    let (_, p) = g1(11);
    for (a, b) in [(3u64, 5u64), (10, 1), (99, 100)] {
        let (_, q) = g2(a);
        let (_, r) = g2(b);
        let addition = LineFunctionEvaluation::addition_step(&q, &r, &p);
        assert_eq!(jacobian_to_affine(&addition.point()), affine_of(a + b));
    }
}

#[test]
fn test_double_and_addition_step() {
    let (_, p) = g1(3);
    for (a, b) in [(4u64, 9u64), (1, 3)] {
        let (_, q1) = g2(a);
        let (_, q2) = g2(b);
        let doubling = LineFunctionEvaluation::doubling_step(&q1, &p);
        let t = doubling.point();
        let addition = LineFunctionEvaluation::addition_step(&q2, &t, &p);
        assert_eq!(jacobian_to_affine(&addition.point()), affine_of(2 * a + b));
    }
}

#[test]
fn zero_line_is_at_infinity() {
    let l = LineFunctionEvaluation::zero();
    let (c0, c3, c4) = l.c0c3c4();
    assert!(c0.is_zero() && c3.is_zero() && c4.is_zero());
    assert!(l.point().z.is_zero());
}

#[test]
fn pairing_matches_reference_implementation() {
    for (a, b) in [(1u64, 1u64), (6, 13)] {
        let (pa, p) = g1(a);
        let (qa, q) = g2(b);
        let expected = ce::Bn256::pairing(pa, qa);
        assert_eq!(fq12_to(&ec_pairing(&p, &q)), expected);
    }
}

#[test]
fn torus_pairing_matches_classical_pairing() {
    let (_, p) = g1(2);
    let (_, q) = g2(3);
    assert!(ec_pairing_torus(&p, &q).equals(&ec_pairing(&p, &q)));
}

#[test]
fn pairing_is_bilinear() {
    let (_, p) = g1(1);
    let (_, q) = g2(1);
    let (_, ap) = g1(2);
    let (_, bq) = g2(3);
    let base = ec_pairing(&p, &q);
    assert!(ec_pairing(&ap, &bq).equals(&base.pow_u64(6)));
    assert!(!base.equals(&Fq12::one()));
}

#[test]
fn final_exponentiation_methods() {
    let (_, p) = g1(4);
    let (_, q) = g2(5);
    let f = MillerLoopEvaluation::evaluate(&p, &q).get_accumulated_f();
    let classical = FinalExpEvaluation::evaluate(&f, FinalExpMethod::ClassicalNoTorus).get();
    let torus = FinalExpEvaluation::evaluate(&f, FinalExpMethod::ClassicalWithTorus).get();
    assert!(classical.equals(&torus));
    assert!(FinalExpEvaluation::evaluate_without_torus(&f).get().equals(&classical));
    assert!(FinalExpEvaluation::evaluate_torus(&f).get().equals(&classical));
    assert_eq!(fq12_to(&classical), ce::Bn256::final_exponentiation(&fq12_to(&f)).unwrap());
    // the other chains give the same value
    let fc = FinalExpEvaluation::evaluate(&f, FinalExpMethod::FuentesCastanedaNoTorus).get();
    let dv = FinalExpEvaluation::evaluate(&f, FinalExpMethod::DevegiliNoTorus).get();
    let r = ce::Fr::char();
    assert_eq!(fq12_to(&fc).pow(r), ce::Fq12::one());
    assert_eq!(fq12_to(&dv).pow(r), ce::Fq12::one());
    assert!(dv.equals(&classical));
    assert!(fc.equals(&classical));
}

#[test]
fn test_torus_compression() {
    let (_, p) = g1(7);
    let (_, q) = g2(8);
    let f = MillerLoopEvaluation::evaluate(&p, &q).get_accumulated_f();
    let easy = FinalExpEvaluation::easy_part(&f);
    let torus = TorusWrapper::compress(&easy);
    assert!(torus.decompress().equals(&easy));
}

#[test]
fn test_torus_basic_arithmetic() {
    let (_, p) = g1(2);
    let (_, q1) = g2(3);
    let (_, q2) = g2(4);
    let a = FinalExpEvaluation::easy_part(&MillerLoopEvaluation::evaluate(&p, &q1).get_accumulated_f());
    let b = FinalExpEvaluation::easy_part(&MillerLoopEvaluation::evaluate(&p, &q2).get_accumulated_f());
    let ta = TorusWrapper::compress(&a);
    let tb = TorusWrapper::compress(&b);
    assert!(ta.mul(&tb).decompress().equals(&a.mul(&b)));
    assert!(ta.square().decompress().equals(&a.square()));
    assert!(ta.inverse().decompress().equals(&a.conjugate()));
    assert!(ta.conjugate().decompress().equals(&a.inverse()));
    assert!(ta.frobenius_map(1).decompress().equals(&a.frobenius_map(1)));
    assert!(ta.frobenius_map(2).decompress().equals(&a.frobenius_map(2)));
    assert!(ta.pow_naf_decomposition().decompress().equals(&a.pow_u64(4965661367192848881)));
}

fn word(a: &ce::Fq) -> U256 {
    U256 { limbs: a.into_repr().0 }
}

#[test]
fn pairing_check_precompile() {
    let (pa, _) = g1(1);
    let (qa, _) = g2(1);
    let (px, py) = pa.into_xy_unchecked();
    let (qx, qy) = qa.into_xy_unchecked();
    let (success, paired) = ecpairing_precompile_inner(&word(&px), &word(&py), &word(&qx.c0), &word(&qx.c1), &word(&qy.c0), &word(&qy.c1));
    assert!(success);
    assert!(!paired);
    // the point at infinity pairs to one
    let zero = U256 { limbs: [0; 4] };
    let (success, paired) = ecpairing_precompile_inner(&zero, &zero, &word(&qx.c0), &word(&qx.c1), &word(&qy.c0), &word(&qy.c1));
    assert!(success && paired);
    // a second point off the twist fails
    let (success, paired) = ecpairing_precompile_inner(&word(&px), &word(&py), &word(&qx.c0), &word(&qx.c1), &word(&qx.c0), &word(&qy.c1));
    assert!(!success && !paired);
    // a first point off the curve fails
    let (success, _) = ecpairing_precompile_inner(&word(&px), &word(&px), &word(&qx.c0), &word(&qx.c1), &word(&qy.c0), &word(&qy.c1));
    assert!(!success);
    let too_big = U256 { limbs: [u64::MAX; 4] };
    let (success, paired) = ecpairing_precompile_inner(&too_big, &word(&py), &word(&qx.c0), &word(&qx.c1), &word(&qy.c0), &word(&qy.c1));
    assert!(!success && !paired);
}

#[test]
fn twist_membership() {
    let (_, q) = g2(17);
    assert!(is_on_twist(&q.x, &q.y));
    assert!(!is_on_twist(&q.y, &q.x));
}

#[test]
fn affine_conversion_of_jacobian_points() {
    let (_, p) = g1(5);
    let (_, q) = g2(6);
    let doubling = LineFunctionEvaluation::doubling_step(&q, &p);
    let default = (Fq2::zero(), Fq2::one());
    let ((x, y), inf) = doubling.point().convert_to_affine_or_default(default);
    assert!(!inf);
    assert_eq!((fq2_to(&x), fq2_to(&y)), affine_of(12));
    let ((x, y), inf) = G2Projective::zero().convert_to_affine_or_default(default);
    assert!(inf);
    assert!(x.is_zero() && y.equals(&Fq2::one()));
}

#[test]
fn test_g2_curve() {
    // the sum of two points and the doubles of both, through the line steps
    let (_, p) = g1(1);
    for (a, b) in [(2u64, 7u64), (10, 3)] {
        let (_, q1) = g2(a);
        let (_, q2) = g2(b);
        let sum = LineFunctionEvaluation::addition_step(&q2, &q1, &p).point();
        assert_eq!(jacobian_to_affine(&sum), affine_of(a + b));
        let d1 = LineFunctionEvaluation::doubling_step(&q1, &p).point();
        assert_eq!(jacobian_to_affine(&d1), affine_of(2 * a));
        let d2 = LineFunctionEvaluation::doubling_step(&q2, &p).point();
        assert_eq!(jacobian_to_affine(&d2), affine_of(2 * b));
    }
}

#[test]
fn test_miller_loop() {
    // the Miller loop value differs from the reference one by factors that
    // the final exponentiation removes
    let (pa, p) = g1(9);
    let (qa, q) = g2(4);
    let f = MillerLoopEvaluation::evaluate(&p, &q).get_accumulated_f();
    assert!(!f.is_zero());
    let prepared = qa.prepare();
    let reference = ce::Bn256::miller_loop([(&pa.prepare(), &prepared)].iter());
    let lhs = ce::Bn256::final_exponentiation(&fq12_to(&f)).unwrap();
    let rhs = ce::Bn256::final_exponentiation(&reference).unwrap();
    assert_eq!(lhs, rhs);
}

#[test]
fn test_final_exponentiation() {
    let (_, p) = g1(3);
    let (_, q) = g2(8);
    let f = MillerLoopEvaluation::evaluate(&p, &q).get_accumulated_f();
    let actual = FinalExpEvaluation::evaluate_without_torus(&f).get();
    assert_eq!(fq12_to(&actual), ce::Bn256::final_exponentiation(&fq12_to(&f)).unwrap());
}

#[test]
fn test_final_exponentiation_torus() {
    let (_, p) = g1(5);
    let (_, q) = g2(2);
    let f = MillerLoopEvaluation::evaluate(&p, &q).get_accumulated_f();
    let actual = FinalExpEvaluation::evaluate_torus(&f).get();
    assert_eq!(fq12_to(&actual), ce::Bn256::final_exponentiation(&fq12_to(&f)).unwrap());
}

#[test]
fn test_ec_pairing() {
    let (pa, p) = g1(21);
    let (qa, q) = g2(34);
    assert_eq!(fq12_to(&ec_pairing(&p, &q)), ce::Bn256::pairing(pa, qa));
    assert_eq!(fq12_to(&ec_pairing_torus(&p, &q)), ce::Bn256::pairing(pa, qa));
}

fn g2_affine(k: u64) -> G2Affine {
    let (x, y) = affine_of(k);
    G2Affine { x: fq2_from(&x), y: fq2_from(&y), infinity: false }
}

fn g2_coords(a: &G2Affine) -> (ce::Fq2, ce::Fq2) {
    (fq2_to(&a.x), fq2_to(&a.y))
}

#[test]
fn twisted_affine_group_law() {
    let a = g2_affine(5);
    let b = g2_affine(11);
    assert_eq!(g2_coords(&a.add(&b)), affine_of(16));
    assert_eq!(g2_coords(&a.double()), affine_of(10));
    assert_eq!(g2_coords(&a.add(&a)), affine_of(10));
    let sum = a.add(&a.negated());
    assert!(sum.infinity);
    let inf = G2Affine::infinity();
    assert_eq!(g2_coords(&inf.add(&b)), affine_of(11));
    assert_eq!(g2_coords(&b.add(&inf)), affine_of(11));
}

#[test]
fn twisted_jacobian_double_and_mixed_add() {
    let (_, q) = g2(6);
    let (_, r) = g2(9);
    let d = q.double();
    assert_eq!(jacobian_to_affine(&d), affine_of(12));
    let s = d.add_mixed(&r);
    assert_eq!(jacobian_to_affine(&s), affine_of(21));
}

#[test]
fn fuentes_castaneda_hard_part_matches_classical() {
    let (_, p) = g1(13);
    let (_, q) = g2(2);
    let f = MillerLoopEvaluation::evaluate(&p, &q).get_accumulated_f();
    let easy = FinalExpEvaluation::easy_part(&f);
    let fc = FinalExpEvaluation::hard_part_fuentes_castaneda_no_torus(&easy);
    let classical = FinalExpEvaluation::hard_part_classical_no_torus(&easy);
    assert!(fc.equals(&classical));
    let dv = FinalExpEvaluation::hard_part_devegili_no_torus(&easy);
    assert!(dv.equals(&classical));
}
