use bn254_precompiles::ec_add::{ec_add, is_affine_infinity, is_on_curve, lt_modulus, validate_in_field, U256};
use bn254_precompiles::field::Fq;
use pairing_ce::bn256 as ce;
use pairing_ce::ff::{Field, PrimeField};
use pairing_ce::{CurveAffine, CurveProjective};

fn word(dec: &str) -> U256 {
    U256 { limbs: ce::Fq::from_str(dec).unwrap().into_repr().0 }
}

fn word_of(a: &ce::Fq) -> U256 {
    U256 { limbs: a.into_repr().0 }
}

fn point(k: u64) -> ce::G1Affine {
    ce::G1Affine::one().mul(ce::Fr::from_str(&k.to_string()).unwrap()).into_affine()
}

fn coords(p: &ce::G1Affine) -> (U256, U256) {
    let (x, y) = p.into_xy_unchecked();
    (word_of(&x), word_of(&y))
}

const MODULUS: [u64; 4] = [0x3c208c16d87cfd47, 0x97816a916871ca8d, 0xb85045b68181585d, 0x30644e72e131a029];

#[test]
fn test_test_addition() {
    let x1 = word("10427591839758008194904206209576776002642396244985815734642327872507511451679");
    let y1 = word("7636615425298746878120246585210560605147292449856688181998147483645903757740");
    let x2 = word("5079615400120625967577872611520829322936839187315105706783827450466730000282");
    let y2 = word("10130758747227163499602368437255336991898808119637262386824177410977966112071");
    let x12 = word("13830304928143253030817203464067949762009877639643889333966531725855231388805");
    let y12 = word("17746262971018357685371317122061874723598233511610223591578743849381939828484");

    let (success, x, y) = ec_add(&x1, &y1, &x2, &y2);
    assert!(success);
    assert_eq!(x.limbs, x12.limbs);
    assert_eq!(y.limbs, y12.limbs);
}

#[test]
fn ec_add_test_addition() {
    for i in 1..11u64 {
        let a = point(1000 + 17 * i);
        let b = point(3 * i + 5);
        let (ax, ay) = coords(&a);
        let (bx, by) = coords(&b);
        let mut sum = a.into_projective();
        sum.add_assign_mixed(&b);
        let (ex, ey) = coords(&sum.into_affine());
        let (success, x, y) = ec_add(&ax, &ay, &bx, &by);
        assert!(success);
        assert_eq!(x.limbs, ex.limbs);
        assert_eq!(y.limbs, ey.limbs);
    }
}

#[test]
fn adding_a_point_to_itself_doubles_it() {
    let a = point(12345);
    let (ax, ay) = coords(&a);
    let (ex, ey) = coords(&point(24690));
    let (success, x, y) = ec_add(&ax, &ay, &ax, &ay);
    assert!(success);
    assert_eq!(x.limbs, ex.limbs);
    assert_eq!(y.limbs, ey.limbs);
}

#[test]
fn adding_the_negation_gives_infinity() {
    let a = point(777);
    let (ax, ay) = coords(&a);
    let mut neg = a;
    neg.negate();
    let (nx, ny) = coords(&neg);
    let (success, x, y) = ec_add(&ax, &ay, &nx, &ny);
    assert!(success);
    assert_eq!(x.limbs, [0; 4]);
    assert_eq!(y.limbs, [0; 4]);
}

#[test]
fn infinity_is_neutral() {
    let a = point(42);
    let (ax, ay) = coords(&a);
    let zero = U256 { limbs: [0; 4] };
    let (success, x, y) = ec_add(&ax, &ay, &zero, &zero);
    assert!(success);
    assert_eq!((x.limbs, y.limbs), (ax.limbs, ay.limbs));
    let (success, x, y) = ec_add(&zero, &zero, &ax, &ay);
    assert!(success);
    assert_eq!((x.limbs, y.limbs), (ax.limbs, ay.limbs));
    let (success, x, y) = ec_add(&zero, &zero, &zero, &zero);
    assert!(success);
    assert_eq!((x.limbs, y.limbs), ([0; 4], [0; 4]));
}

#[test]
fn invalid_inputs_fail() {
    let a = point(9);
    let (ax, ay) = coords(&a);
    // a coordinate equal to the modulus is out of range
    let p = U256 { limbs: MODULUS };
    let (success, x, y) = ec_add(&p, &ay, &ax, &ay);
    assert!(!success);
    assert_eq!((x.limbs, y.limbs), ([0; 4], [0; 4]));
    // (1, 1) is not on the curve
    let one = U256 { limbs: [1, 0, 0, 0] };
    let (success, _, _) = ec_add(&one, &one, &ax, &ay);
    assert!(!success);
}

#[test]
fn field_range_checks() {
    let p = U256 { limbs: MODULUS };
    let mut below = MODULUS;
    below[0] -= 1;
    let below = U256 { limbs: below };
    let max = U256 { limbs: [u64::MAX; 4] };
    assert!(!lt_modulus(&p));
    assert!(lt_modulus(&below));
    assert!(!lt_modulus(&max));
    assert!(lt_modulus(&U256 { limbs: [0; 4] }));

    let mut values = vec![p, below, max, U256 { limbs: [5, 0, 0, 0] }];
    let exceptions = validate_in_field(&mut values);
    assert_eq!(exceptions, vec![true, false, true, false]);
    assert_eq!(values[0].limbs, [0; 4]);
    assert_eq!(values[1].limbs, below.limbs);
    assert_eq!(values[2].limbs, [0; 4]);
    assert_eq!(values[3].limbs, [5, 0, 0, 0]);
}

#[test]
fn curve_membership_and_infinity_flags() {
    let g = ce::G1Affine::one();
    let (x, y) = g.into_xy_unchecked();
    let fx = Fq { limbs: x.into_repr().0 };
    let fy = Fq { limbs: y.into_repr().0 };
    assert!(is_on_curve(&fx, &fy));
    assert!(!is_on_curve(&fx, &Fq::from_u64(3)));
    // (1, 2) is the generator: 4 == 1 + 3
    assert!(is_on_curve(&Fq::from_u64(1), &Fq::from_u64(2)));
    let zero = U256 { limbs: [0; 4] };
    let one = U256 { limbs: [1, 0, 0, 0] };
    assert!(is_affine_infinity(&zero, &zero));
    assert!(is_affine_infinity(&zero, &one));
    assert!(is_affine_infinity(&one, &zero));
    assert!(!is_affine_infinity(&one, &one));
}
