use bn254_precompiles::ec_mul::{width_4_windowed_multiplication, Fr, G1Affine, ScalarDecomposition};
use bn254_precompiles::field::Fq;
use pairing_ce::bn256 as ce;
use pairing_ce::ff::{Field, PrimeField};
use pairing_ce::{CurveAffine, CurveProjective};

fn fr(a: &ce::Fr) -> Fr {
    Fr { limbs: a.into_repr().0 }
}

fn fr_dec(s: &str) -> Fr {
    fr(&ce::Fr::from_str(s).unwrap())
}

fn point(a: &ce::G1Affine) -> G1Affine {
    if a.is_zero() {
        return G1Affine::infinity();
    }
    let (x, y) = a.into_xy_unchecked();
    G1Affine { x: Fq { limbs: x.into_repr().0 }, y: Fq { limbs: y.into_repr().0 }, infinity: false }
}

fn assert_same(actual: &G1Affine, expected: &ce::G1Affine) {
    let e = point(expected);
    assert_eq!(actual.infinity, e.infinity);
    assert_eq!(actual.x.limbs, e.x.limbs);
    assert_eq!(actual.y.limbs, e.y.limbs);
}

#[test]
fn test_test_scalar_decomposition() {
    let k = fr_dec("9997758448649743481679332046642653083029331058711609633943349318238462807072");
    let d = ScalarDecomposition::from(&k);
    assert_eq!(d.k1.limbs, fr_dec("56507221619152889206123336271969597712").limbs);
    assert_eq!(d.k1_was_negated, false);
    assert_eq!(d.k2.limbs, fr_dec("111366987256442598357055499258064695755").limbs);
    assert_eq!(d.k2_was_negated, true);
}

#[test]
fn ec_mul_test_scalar_decomposition() {
    // k == (+/-) k1 + (+/-) k2 * lambda (mod r), with both halves below 2^128
    let lambda = ce::Fr::from_str("4407920970296243842393367215006156084916469457145843978461").unwrap();
    let mut seed = ce::Fr::multiplicative_generator().pow([77]);
    for _ in 0..10 {
        let d = ScalarDecomposition::from(&fr(&seed));
        let mut k1 = ce::Fr::from_repr(ce::FrRepr(d.k1.limbs)).unwrap();
        if d.k1_was_negated {
            k1.negate();
        }
        let mut k2 = ce::Fr::from_repr(ce::FrRepr(d.k2.limbs)).unwrap();
        if d.k2_was_negated {
            k2.negate();
        }
        k2.mul_assign(&lambda);
        k1.add_assign(&k2);
        assert_eq!(k1, seed);
        assert_eq!(d.k1.limbs[2..], [0, 0]);
        assert_eq!(d.k2.limbs[2..], [0, 0]);
        seed.square();
    }
}

#[test]
fn test_test_width_4_multiplication() {
    let mut seed_scalar = ce::Fr::multiplicative_generator().pow([1111]);
    let mut seed_base = ce::Fr::multiplicative_generator().pow([2222]);
    for _ in 0..16u8 {
        let point_raw = ce::G1Affine::one().mul(seed_base).into_affine();
        let actual = width_4_windowed_multiplication(&point(&point_raw), &fr(&seed_scalar));
        let expected = point_raw.mul(seed_scalar).into_affine();
        assert_same(&actual, &expected);
        seed_scalar.square();
        seed_base.square();
    }
}

#[test]
fn ec_mul_test_width_4_multiplication() {
    for (base, k) in [(1u64, 2u64), (5, 1), (3, 1000003), (12, 98765432123456789)] {
        let p = ce::G1Affine::one().mul(ce::Fr::from_str(&base.to_string()).unwrap()).into_affine();
        let s = ce::Fr::from_str(&k.to_string()).unwrap();
        let actual = width_4_windowed_multiplication(&point(&p), &fr(&s));
        assert_same(&actual, &p.mul(s).into_affine());
    }
}

#[test]
fn multiplication_by_zero_or_of_infinity_gives_infinity() {
    let g = point(&ce::G1Affine::one());
    let zero = Fr { limbs: [0; 4] };
    assert!(width_4_windowed_multiplication(&g, &zero).infinity);
    let k = fr_dec("123456789");
    assert!(width_4_windowed_multiplication(&G1Affine::infinity(), &k).infinity);
    // r - 1 times P is -P
    let minus_one = fr_dec("21888242871839275222246405745257275088548364400416034343698204186575808495616");
    let r = width_4_windowed_multiplication(&g, &minus_one);
    assert_same(&r, &{
        let mut n = ce::G1Affine::one();
        n.negate();
        n
    });
}

#[test]
fn endomorphism_is_multiplication_by_lambda() {
    let lambda = ce::Fr::from_str("4407920970296243842393367215006156084916469457145843978461").unwrap();
    let p = ce::G1Affine::one().mul(ce::Fr::from_str("31337").unwrap()).into_affine();
    assert_same(&point(&p).endomorphism(), &p.mul(lambda).into_affine());
}
