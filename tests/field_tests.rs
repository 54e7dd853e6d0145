use bn254_precompiles::field::{Fq, Fq12, Fq2, Fq6};
use pairing_ce::bn256 as ce;
use pairing_ce::ff::{Field, PrimeField};

fn to_ce(a: &Fq) -> ce::Fq {
    ce::Fq::from_repr(ce::FqRepr(a.limbs)).unwrap()
}

fn from_ce(a: &ce::Fq) -> Fq {
    Fq { limbs: a.into_repr().0 }
}

fn fq2_from(a: &ce::Fq2) -> Fq2 {
    Fq2 { c0: from_ce(&a.c0), c1: from_ce(&a.c1) }
}

fn fq6_from(a: &ce::Fq6) -> Fq6 {
    Fq6 { c0: fq2_from(&a.c0), c1: fq2_from(&a.c1), c2: fq2_from(&a.c2) }
}

fn fq12_from(a: &ce::Fq12) -> Fq12 {
    Fq12 { c0: fq6_from(&a.c0), c1: fq6_from(&a.c1) }
}

fn fq2_to(a: &Fq2) -> ce::Fq2 {
    ce::Fq2 { c0: to_ce(&a.c0), c1: to_ce(&a.c1) }
}

fn fq6_to(a: &Fq6) -> ce::Fq6 {
    ce::Fq6 { c0: fq2_to(&a.c0), c1: fq2_to(&a.c1), c2: fq2_to(&a.c2) }
}

fn fq12_to(a: &Fq12) -> ce::Fq12 {
    ce::Fq12 { c0: fq6_to(&a.c0), c1: fq6_to(&a.c1) }
}

/// A deterministic, well-spread field element.
fn sample(seed: u64) -> ce::Fq {
    let g = ce::Fq::from_str("7").unwrap();
    g.pow([seed.wrapping_mul(0x9e37_79b9_7f4a_7c15) | 1])
}

fn sample2(seed: u64) -> ce::Fq2 {
    ce::Fq2 { c0: sample(2 * seed), c1: sample(2 * seed + 1) }
}

fn sample6(seed: u64) -> ce::Fq6 {
    ce::Fq6 { c0: sample2(3 * seed), c1: sample2(3 * seed + 1), c2: sample2(3 * seed + 2) }
}

fn sample12(seed: u64) -> ce::Fq12 {
    ce::Fq12 { c0: sample6(2 * seed), c1: sample6(2 * seed + 1) }
}

#[test]
fn fq2_test_fq2_operations() {
    for i in 0..10u64 {
        let a = sample2(i);
        let b = sample2(i + 100);
        let (x, y) = (fq2_from(&a), fq2_from(&b));

        let mut sum = a;
        sum.add_assign(&b);
        assert_eq!(fq2_to(&x.add(&y)), sum, "Sum test failed");

        let mut diff = a;
        diff.sub_assign(&b);
        assert_eq!(fq2_to(&x.sub(&y)), diff, "Diff test failed");

        let mut prod = a;
        prod.mul_assign(&b);
        assert_eq!(fq2_to(&x.mul(&y)), prod, "Prod test failed");

        let mut quot = a;
        quot.mul_assign(&b.inverse().unwrap());
        assert_eq!(fq2_to(&x.div(&y)), quot, "Quot test failed");
    }
}

#[test]
fn field_extensions_test_fq2_operations() {
    for i in 0..10u64 {
        let a = sample2(i + 7);
        let b = sample2(i + 70);
        let (x, y) = (fq2_from(&a), fq2_from(&b));

        let mut prod = a;
        prod.mul_assign(&b);
        assert_eq!(fq2_to(&x.mul(&y)), prod, "Product test failed");

        let mut quot = a;
        quot.mul_assign(&b.inverse().unwrap());
        assert_eq!(fq2_to(&x.mul(&y.inverse())), quot, "Quotient test failed");

        let mut nr = a;
        nr.mul_by_nonresidue();
        assert_eq!(fq2_to(&x.mul_by_nonresidue()), nr, "Scalar 1 non-residue test failed");

        let mut sq = a;
        sq.square();
        assert_eq!(fq2_to(&x.square()), sq);

        let mut conj = a;
        conj.conjugate();
        assert_eq!(fq2_to(&x.conjugate()), conj);
    }
}

#[test]
fn test_fq6_operations() {
    for i in 0..10u64 {
        let a = sample6(i);
        let b = sample6(i + 50);
        let (x, y) = (fq6_from(&a), fq6_from(&b));

        let mut sum = a;
        sum.add_assign(&b);
        assert_eq!(fq6_to(&x.add(&y)), sum, "Sum test failed");

        let mut diff = a;
        diff.sub_assign(&b);
        assert_eq!(fq6_to(&x.sub(&y)), diff, "Difference test failed");

        let mut prod = a;
        prod.mul_assign(&b);
        assert_eq!(fq6_to(&x.mul(&y)), prod, "Product test failed");

        let mut quot = a;
        quot.mul_assign(&b.inverse().unwrap());
        assert_eq!(fq6_to(&x.div(&y)), quot, "Quotient test failed");

        let c1 = sample2(i + 5);
        let mut p1 = a;
        p1.mul_by_1(&c1);
        assert_eq!(fq6_to(&x.mul_by_1(&fq2_from(&c1))), p1, "Product c1 test failed");

        let c0 = sample2(i + 9);
        let mut p01 = a;
        p01.mul_by_01(&c0, &c1);
        assert_eq!(
            fq6_to(&x.mul_by_01(&fq2_from(&c0), &fq2_from(&c1))),
            p01,
            "Product c0c1 test failed"
        );

        assert_eq!(fq6_to(&x.inverse()), a.inverse().unwrap(), "Scalar 1 inverse test failed");

        let mut sq = a;
        sq.square();
        assert_eq!(fq6_to(&x.square()), sq, "Scalar 1 square test failed");

        let mut nr = a;
        nr.mul_by_nonresidue();
        assert_eq!(fq6_to(&x.mul_by_nonresidue()), nr, "Scalar 1 non-residue test failed");

        for power in [1usize, 2, 3, 6] {
            let mut fr = a;
            fr.frobenius_map(power);
            assert_eq!(fq6_to(&x.frobenius_map(power)), fr);
        }
    }
}

#[test]
fn test_fq12_operations() {
    for i in 0..10u64 {
        let a = sample12(i);
        let b = sample12(i + 30);
        let (x, y) = (fq12_from(&a), fq12_from(&b));

        let mut sum = a;
        sum.add_assign(&b);
        assert_eq!(fq12_to(&x.add(&y)), sum, "Sum test failed");

        let mut diff = a;
        diff.sub_assign(&b);
        assert_eq!(fq12_to(&x.sub(&y)), diff, "Difference test failed");

        let mut prod = a;
        prod.mul_assign(&b);
        assert_eq!(fq12_to(&x.mul(&y)), prod, "Product test failed");

        let (c0, c3, c4) = (sample2(i + 1), sample2(i + 2), sample2(i + 3));
        let mut p034 = a;
        p034.mul_by_034(&c0, &c3, &c4);
        assert_eq!(
            fq12_to(&x.mul_by_c0c3c4(&fq2_from(&c0), &fq2_from(&c3), &fq2_from(&c4))),
            p034,
            "Product c0c3c4 test failed"
        );

        let mut p014 = a;
        p014.mul_by_014(&c0, &c3, &c4);
        assert_eq!(
            fq12_to(&x.mul_by_c0c1c4(&fq2_from(&c0), &fq2_from(&c3), &fq2_from(&c4))),
            p014,
            "Product c0c1c4 test failed"
        );

        let mut quot = a;
        quot.mul_assign(&b.inverse().unwrap());
        assert_eq!(fq12_to(&x.div(&y)), quot, "Quotient test failed");

        assert_eq!(fq12_to(&x.inverse()), a.inverse().unwrap(), "Scalar 1 inverse test failed");

        let mut sq = a;
        sq.square();
        assert_eq!(fq12_to(&x.square()), sq, "Scalar 1 square test failed");

        let mut conj = a;
        conj.conjugate();
        assert_eq!(fq12_to(&x.conjugate()), conj);

        for power in [1usize, 2, 3, 6, 7, 11] {
            let mut fr = a;
            fr.frobenius_map(power);
            assert_eq!(fq12_to(&x.frobenius_map(power)), fr);
        }

        let e = 0x1234_5678_9abc_def0u64 ^ i;
        assert_eq!(fq12_to(&x.pow_u64(e)), a.pow([e]));
    }
}

#[test]
fn quotient_by_divisor_gives_back_dividend() {
    for i in 0..5u64 {
        let a = fq12_from(&sample12(i + 3));
        let b = fq12_from(&sample12(i + 300));
        assert!(a.mul(&b).div(&b).equals(&a));
        let (c, d) = (fq2_from(&sample2(i + 40)), fq2_from(&sample2(i + 41)));
        assert!(c.mul(&d).div(&d).equals(&c));
        let n = a.neg();
        assert!(n.add(&a).is_zero());
    }
}

#[test]
fn frobenius_twelve_is_identity_and_conjugate_is_involutive() {
    for i in 0..5u64 {
        let a = fq12_from(&sample12(i + 11));
        assert!(a.frobenius_map(12).equals(&a));
        assert!(a.frobenius_map(24).equals(&a));
        assert!(a.conjugate().conjugate().equals(&a));
        // applying the p-power map twelve times also comes back
        let mut x = a;
        for _ in 0..12 {
            x = x.frobenius_map(1);
        }
        assert!(x.equals(&a));
    }
}

#[test]
fn sparse_products_match_full_products() {
    for i in 0..5u64 {
        let a = fq12_from(&sample12(i + 21));
        let (c0, c3, c4) = (fq2_from(&sample2(i)), fq2_from(&sample2(i + 1)), fq2_from(&sample2(i + 2)));
        let z = Fq2::zero();
        let sparse = Fq12 { c0: Fq6 { c0: c0, c1: z, c2: z }, c1: Fq6 { c0: c3, c1: c4, c2: z } };
        assert!(a.mul_by_c0c3c4(&c0, &c3, &c4).equals(&a.mul(&sparse)));
        let sparse = Fq12 { c0: Fq6 { c0: c0, c1: c3, c2: z }, c1: Fq6 { c0: z, c1: c4, c2: z } };
        assert!(a.mul_by_c0c1c4(&c0, &c3, &c4).equals(&a.mul(&sparse)));
    }
}

#[test]
fn base_field_edge_cases() {
    let zero = Fq::zero();
    let one = Fq::one();
    assert!(zero.inverse().is_zero());
    assert!(one.inverse().equals(&one));
    // -1 + 1 == 0
    assert!(one.neg().add(&one).is_zero());
    // 2 * 2^-1 == 1
    let two = Fq::from_u64(2);
    assert!(two.mul(&two.inverse()).equals(&one));
    assert!(!two.equals(&one));
    assert!(Fq2::zero().inverse().is_zero());
    assert!(Fq12::zero().inverse().is_zero());
}
