//! Scalar multiplication on the base curve by the GLV method: the scalar is
//! split along the endomorphism `(x, y) -> (beta * x, y)`, which acts as
//! multiplication by `lambda`, and both halves are consumed together, four
//! bits at a time.
use crate::ec_add::{affine_infinity, g1_add, g1_add_finite, g1_neg, AffineSpec};
use crate::field::{fmul, fneg, limbs_value, p, Fq};
use crypto_bigint::{NonZero, U256, U512};
use pairing_ce::bn256 as ce;
use pairing_ce::ff::{Field, PrimeField};
use vstd::arithmetic::div_mod::{
    lemma_add_mod_noop, lemma_mod_multiples_vanish, lemma_mul_mod_noop_left, lemma_small_mod,
    lemma_sub_mod_noop,
};
use vstd::arithmetic::power2::pow2;
use vstd::bits::lemma_u64_shr_is_div;
use vstd::prelude::*;

verus! {

/// The order of the group of points.
pub open spec fn r_order() -> int {
    21888242871839275222246405745257275088548364400416034343698204186575808495617int
}

/// The eigenvalue of the endomorphism on the group.
pub open spec fn glv_lambda() -> int {
    4407920970296243842393367215006156084916469457145843978461int
}

/// The short lattice basis `(a1, b1) = (A1, -NB1)`, `(a2, b2) = (A2, B2)`,
/// with `a + b * lambda == 0 (mod r)` for both vectors.
pub open spec fn glv_a1() -> int {
    9931322734385697763int
}

pub open spec fn glv_nb1() -> int {
    147946756881789319000765030803803410728int
}

pub open spec fn glv_a2() -> int {
    147946756881789319010696353538189108491int
}

pub open spec fn glv_b2() -> int {
    9931322734385697763int
}

pub open spec fn frsub(a: int, b: int) -> int {
    (a - b) % r_order()
}

pub open spec fn frmul(a: int, b: int) -> int {
    (a * b) % r_order()
}

/// Value of eight little-endian 64-bit limbs.
pub open spec fn limbs8_value(l: [u64; 8]) -> int {
    l[0] + l[1] * 0x1_0000_0000_0000_0000int + l[2] * 0x1_0000_0000_0000_0000_0000_0000_0000_0000int
        + l[3] * 0x1_0000_0000_0000_0000_0000_0000_0000_0000_0000_0000_0000_0000int + l[4]
        * 0x1_0000_0000_0000_0000_0000_0000_0000_0000_0000_0000_0000_0000_0000_0000_0000_0000int
        + l[5]
        * 0x1_0000_0000_0000_0000_0000_0000_0000_0000_0000_0000_0000_0000_0000_0000_0000_0000_0000_0000int
        + l[6]
        * 0x1_0000_0000_0000_0000_0000_0000_0000_0000_0000_0000_0000_0000_0000_0000_0000_0000_0000_0000_0000_0000int
        + l[7]
        * 0x1_0000_0000_0000_0000_0000_0000_0000_0000_0000_0000_0000_0000_0000_0000_0000_0000_0000_0000_0000_0000_0000_0000int
}

/// An element of the scalar field, as a canonical residue in four
/// little-endian 64-bit limbs.
#[derive(Clone, Copy, Debug)]
pub struct Fr {
    pub limbs: [u64; 4],
}

impl View for Fr {
    type V = int;

    open spec fn view(&self) -> int {
        limbs_value(self.limbs)
    }
}

impl Fr {
    pub open spec fn wf(&self) -> bool {
        self@ < r_order()
    }
}

/// Relies on pairing_ce's `Fr::sub_assign`: subtraction modulo the group order.
#[verifier::external_body]
fn fr_sub_raw(a: &Fr, b: &Fr) -> (r: Fr)
    requires
        a.wf(),
        b.wf(),
    ensures
        r@ == frsub(a@, b@),
{
    let mut x = ce::Fr::from_repr(ce::FrRepr(a.limbs)).unwrap();
    x.sub_assign(&ce::Fr::from_repr(ce::FrRepr(b.limbs)).unwrap());
    Fr { limbs: x.into_repr().0 }
}

/// Relies on pairing_ce's `Fr::mul_assign`: multiplication modulo the group order.
#[verifier::external_body]
fn fr_mul_raw(a: &Fr, b: &Fr) -> (r: Fr)
    requires
        a.wf(),
        b.wf(),
    ensures
        r@ == frmul(a@, b@),
{
    let mut x = ce::Fr::from_repr(ce::FrRepr(a.limbs)).unwrap();
    x.mul_assign(&ce::Fr::from_repr(ce::FrRepr(b.limbs)).unwrap());
    Fr { limbs: x.into_repr().0 }
}

/// Relies on crypto_bigint's `Uint::mul` from 256 to 512 bits: the full product.
#[verifier::external_body]
fn mul_256_raw(a: &[u64; 4], b: &[u64; 4]) -> (r: [u64; 8])
    ensures
        limbs8_value(r) == limbs_value(*a) * limbs_value(*b),
{
    U256::from_words(*a).mul(&U256::from_words(*b)).to_words()
}

/// Relies on crypto_bigint's `Uint::div_rem` on 512 bits: the quotient by a
/// nonzero divisor.
#[verifier::external_body]
fn div_512_raw(a: &[u64; 8], d: &[u64; 8]) -> (q: [u64; 8])
    requires
        limbs8_value(*d) > 0,
    ensures
        limbs8_value(q) == limbs8_value(*a) / limbs8_value(*d),
{
    let d = NonZero::new(U512::from_words(*d)).unwrap();
    U512::from_words(*a).div_rem(&d).0.to_words()
}

/// `floor(c * k / r)`, for `c < 2^128`.
fn mul_div_order(k: &Fr, c: &Fr) -> (q: Fr)
    requires
        k.wf(),
        c@ < 0x1_0000_0000_0000_0000_0000_0000_0000_0000int,
    ensures
        q.wf(),
        q@ == (c@ * k@) / r_order(),
{
    let prod = mul_256_raw(&c.limbs, &k.limbs);
    let r8: [u64; 8] = [
        0x43e1f593f0000001,
        0x2833e84879b97091,
        0xb85045b68181585d,
        0x30644e72e131a029,
        0,
        0,
        0,
        0,
    ];
    assert(limbs8_value(r8) == r_order());
    let q8 = div_512_raw(&prod, &r8);
    proof {
        let ck = c@ * k@;
        assert(0 <= k@);
        assert(ck <= c@ * r_order()) by (nonlinear_arith)
            requires
                0 <= k@ < r_order(),
                0 <= c@,
                ck == c@ * k@,
        ;
        assert(ck / r_order() <= c@) by (nonlinear_arith)
            requires
                0 <= ck <= c@ * r_order(),
        ;
        assert(ck / r_order() >= 0) by (nonlinear_arith)
            requires
                0 <= ck,
        ;
    }
    Fr { limbs: [q8[0], q8[1], q8[2], q8[3]] }
}

/// `(r - 1) / 2`: residues above it stand for negative numbers.
pub open spec fn half_order() -> int {
    (r_order() - 1) / 2
}

pub open spec fn glv_c1(k: int) -> int {
    (glv_b2() * k) / r_order()
}

pub open spec fn glv_c2(k: int) -> int {
    (glv_nb1() * k) / r_order()
}

/// `k - c1 * a1 - c2 * a2 (mod r)`.
pub open spec fn glv_k1(k: int) -> int {
    frsub(frsub(k, frmul(glv_c1(k), glv_a1())), frmul(glv_c2(k), glv_a2()))
}

/// `-c1 * b1 - c2 * b2 (mod r)`.
pub open spec fn glv_k2(k: int) -> int {
    frsub(frmul(glv_c1(k), glv_nb1()), frmul(glv_c2(k), glv_b2()))
}

pub open spec fn magnitude(x: int) -> int {
    if x > half_order() {
        r_order() - x
    } else {
        x
    }
}

pub open spec fn signed(negated: bool, v: int) -> int {
    if negated {
        -v
    } else {
        v
    }
}

/// `k = (+/-) k1 + (+/-) k2 * lambda (mod r)` with half-length `k1`, `k2`.
pub struct ScalarDecomposition {
    pub k1: Fr,
    pub k2: Fr,
    pub k1_was_negated: bool,
    pub k2_was_negated: bool,
}

fn gt_half_order(a: &Fr) -> (r: bool)
    ensures
        r == (a@ > half_order()),
{
    let h: [u64; 4] = [0xa1f0fac9f8000000, 0x9419f4243cdcb848, 0xdc2822db40c0ac2e, 0x183227397098d014];
    assert(limbs_value(h) == half_order());
    let l = a.limbs;
    if l[3] != h[3] {
        l[3] > h[3]
    } else if l[2] != h[2] {
        l[2] > h[2]
    } else if l[1] != h[1] {
        l[1] > h[1]
    } else {
        l[0] > h[0]
    }
}

/// A residue and its sign: `(r - x, true)` above half the order.
fn signed_magnitude(x: &Fr) -> (r: (Fr, bool))
    requires
        x.wf(),
    ensures
        r.0.wf(),
        r.1 == (x@ > half_order()),
        r.0@ == magnitude(x@),
{
    let neg = gt_half_order(x);
    if neg {
        let zero = Fr { limbs: [0, 0, 0, 0] };
        let m = fr_sub_raw(&zero, x);
        (m, true)
    } else {
        (*x, false)
    }
}

impl ScalarDecomposition {
    /// Splits `k` by rounding against the short lattice basis (quotients
    /// taken with floor).
    pub fn from(k: &Fr) -> (r: ScalarDecomposition)
        requires
            k.wf(),
        ensures
            r.k1.wf() && r.k2.wf(),
            r.k1@ == magnitude(glv_k1(k@)),
            r.k2@ == magnitude(glv_k2(k@)),
            r.k1_was_negated == (glv_k1(k@) > half_order()),
            r.k2_was_negated == (glv_k2(k@) > half_order()),
    {
        let a1 = Fr { limbs: [0x89d3256894d213e3, 0, 0, 0] };
        let nb1 = Fr { limbs: [0x8211bbeb7d4f1128, 0x6f4d8248eeb859fc, 0, 0] };
        let a2 = Fr { limbs: [0x0be4e1541221250b, 0x6f4d8248eeb859fd, 0, 0] };
        let b2 = a1;
        assert(a1@ == glv_a1() && nb1@ == glv_nb1() && a2@ == glv_a2() && b2@ == glv_b2());
        let c1 = mul_div_order(k, &b2);
        let c2 = mul_div_order(k, &nb1);
        let k1 = fr_sub_raw(&fr_sub_raw(k, &fr_mul_raw(&c1, &a1)), &fr_mul_raw(&c2, &a2));
        let k2 = fr_sub_raw(&fr_mul_raw(&c1, &nb1), &fr_mul_raw(&c2, &b2));
        let (m1, n1) = signed_magnitude(&k1);
        let (m2, n2) = signed_magnitude(&k2);
        ScalarDecomposition { k1: m1, k2: m2, k1_was_negated: n1, k2_was_negated: n2 }
    }
}

/// A residue with its sign restored is congruent to the residue.
proof fn lemma_signed_magnitude(x: int)
    requires
        0 <= x < r_order(),
    ensures
        signed(x > half_order(), magnitude(x)) % r_order() == x,
{
    let r = r_order();
    if x > half_order() {
        assert(signed(true, r - x) == x - r);
        lemma_mod_multiples_vanish(-1, x, r);
    }
    lemma_small_mod(x as nat, r as nat);
}

#[verifier::rlimit(80)]
#[verifier::spinoff_prover]
/// The decomposition recombines to the scalar:
/// `(+/-) k1 + (+/-) k2 * lambda == k (mod r)`.
pub proof fn lemma_decomposition_recombines(k: int)
    requires
        0 <= k < r_order(),
    ensures
        ({
            let k1 = glv_k1(k);
            let k2 = glv_k2(k);
            (signed(k1 > half_order(), magnitude(k1)) + signed(k2 > half_order(), magnitude(k2))
                * glv_lambda()) % r_order() == k
        }),
{
    let r = r_order();
    let c1 = glv_c1(k);
    let c2 = glv_c2(k);
    let k1 = glv_k1(k);
    let k2 = glv_k2(k);
    let big1 = k - c1 * glv_a1() - c2 * glv_a2();
    let big2 = c1 * glv_nb1() - c2 * glv_b2();
    // k1 == big1 (mod r), k2 == big2 (mod r)
    lemma_sub_mod_noop(k, c1 * glv_a1(), r);
    lemma_sub_mod_noop(k - c1 * glv_a1(), c2 * glv_a2(), r);
    lemma_sub_mod_noop(frsub(k, frmul(c1, glv_a1())) + 0, c2 * glv_a2(), r);
    assert(k1 == big1 % r) by {
        lemma_sub_mod_noop(k, c1 * glv_a1(), r);
        lemma_sub_mod_noop(k - c1 * glv_a1(), c2 * glv_a2(), r);
        vstd::arithmetic::div_mod::lemma_mod_twice(k - c1 * glv_a1(), r);
        lemma_sub_mod_noop((k - c1 * glv_a1()) % r, c2 * glv_a2(), r);
    }
    assert(k2 == big2 % r) by {
        lemma_sub_mod_noop(c1 * glv_nb1(), c2 * glv_b2(), r);
    }
    let s1 = signed(k1 > half_order(), magnitude(k1));
    let s2 = signed(k2 > half_order(), magnitude(k2));
    lemma_signed_magnitude(k1);
    lemma_signed_magnitude(k2);
    // s1 + s2 * lambda == big1 + big2 * lambda (mod r)
    lemma_mul_mod_noop_left(s2, glv_lambda(), r);
    lemma_mul_mod_noop_left(big2, glv_lambda(), r);
    lemma_add_mod_noop(s1, s2 * glv_lambda(), r);
    lemma_add_mod_noop(big1, big2 * glv_lambda(), r);
    vstd::arithmetic::div_mod::lemma_mod_twice(big1, r);
    vstd::arithmetic::div_mod::lemma_mod_twice(big2, r);
    // big1 + big2 * lambda == k + r * (29793968203157093285 * c1 - 2 * c2)
    assert(big1 + big2 * glv_lambda() == k + (29793968203157093285 * c1 - 2 * c2) * r);
    lemma_mod_multiples_vanish(29793968203157093285 * c1 - 2 * c2, k, r);
    lemma_small_mod(k as nat, r as nat);
}

/// The cube root of unity `beta` in Fq with `lambda * (x, y) == (beta * x, y)`.
pub open spec fn glv_beta() -> int {
    2203960485148121921418603742825762020974279258880205651966int
}

/// The endomorphism `(x, y) -> (beta * x, y)`.
pub open spec fn g1_endo(a: AffineSpec) -> AffineSpec {
    if a.infinity {
        a
    } else {
        AffineSpec { x: fmul(glv_beta(), a.x), y: a.y, infinity: false }
    }
}

/// Reduced coordinates, zero for the point at infinity.
pub open spec fn point_is_valid(a: AffineSpec) -> bool {
    if a.infinity {
        a.x == 0 && a.y == 0
    } else {
        0 <= a.x < p() && 0 <= a.y < p()
    }
}

/// A point of the base curve in affine form, with a flag for the point at
/// infinity (whose coordinates are then zero).
#[derive(Clone, Copy, Debug)]
pub struct G1Affine {
    pub x: Fq,
    pub y: Fq,
    pub infinity: bool,
}

impl View for G1Affine {
    type V = AffineSpec;

    open spec fn view(&self) -> AffineSpec {
        AffineSpec { x: self.x@, y: self.y@, infinity: self.infinity }
    }
}

impl G1Affine {
    pub open spec fn wf(&self) -> bool {
        self.x.wf() && self.y.wf() && point_is_valid(self@)
    }

    pub fn infinity() -> (r: G1Affine)
        ensures
            r.wf(),
            r@ == affine_infinity(),
    {
        G1Affine { x: Fq::zero(), y: Fq::zero(), infinity: true }
    }

    /// `P + Q` by the group law.
    pub fn add(&self, other: &G1Affine) -> (r: G1Affine)
        requires
            self.wf(),
            other.wf(),
        ensures
            r.wf(),
            r@ == g1_add(self@, other@),
    {
        proof {
            reveal(g1_add);
        }
        if self.infinity {
            *other
        } else if other.infinity {
            *self
        } else {
            let (x, y, inf) = g1_add_finite(&self.x, &self.y, &other.x, &other.y);
            if inf {
                G1Affine::infinity()
            } else {
                G1Affine { x, y, infinity: false }
            }
        }
    }

    pub fn negated(&self) -> (r: G1Affine)
        requires
            self.wf(),
        ensures
            r.wf(),
            r@ == g1_neg(self@),
    {
        if self.infinity {
            *self
        } else {
            G1Affine { x: self.x, y: self.y.neg(), infinity: false }
        }
    }

    /// `lambda * P`, as `(beta * x, y)`.
    pub fn endomorphism(&self) -> (r: G1Affine)
        requires
            self.wf(),
        ensures
            r.wf(),
            r@ == g1_endo(self@),
    {
        if self.infinity {
            *self
        } else {
            let beta = Fq { limbs: [0x5763473177fffffe, 0xd4f263f1acdb5c4f, 0x59e26bcea0d48bac, 0] };
            assert(beta@ == glv_beta());
            G1Affine { x: beta.mul(&self.x), y: self.y, infinity: false }
        }
    }
}

/// The 64-bit limb `q` (0 to 3) of a value below `2^256`.
pub open spec fn limb_of(v: int, q: int) -> int {
    if q == 0 {
        v % 0x1_0000_0000_0000_0000int
    } else if q == 1 {
        (v / 0x1_0000_0000_0000_0000int) % 0x1_0000_0000_0000_0000int
    } else if q == 2 {
        (v / 0x1_0000_0000_0000_0000_0000_0000_0000_0000int) % 0x1_0000_0000_0000_0000int
    } else {
        v / 0x1_0000_0000_0000_0000_0000_0000_0000_0000_0000_0000_0000_0000int
    }
}

#[verifier::spinoff_prover]
proof fn lemma_limb_of(l: [u64; 4])
    ensures
        limb_of(limbs_value(l), 0) == l[0],
        limb_of(limbs_value(l), 1) == l[1],
        limb_of(limbs_value(l), 2) == l[2],
        limb_of(limbs_value(l), 3) == l[3],
{
}

/// The 4-bit window `w` (0 to 63) of a value below `2^256`.
pub open spec fn window_digit(v: int, w: int) -> int {
    (limb_of(v, w / 16) / pow2((4 * (w % 16)) as nat) as int) % 16
}

/// `i * P` by repeated addition.
pub open spec fn mul_table(a: AffineSpec, i: nat) -> AffineSpec
    decreases i,
{
    if i == 0 {
        affine_infinity()
    } else {
        g1_add(mul_table(a, (i - 1) as nat), a)
    }
}

pub open spec fn double4(a: AffineSpec) -> AffineSpec {
    let d1 = g1_add(a, a);
    let d2 = g1_add(d1, d1);
    let d3 = g1_add(d2, d2);
    g1_add(d3, d3)
}

/// The accumulator after the windows 63 down to `64 - n`: sixteen times the
/// previous one, plus the table entries of both window digits.
#[verifier::opaque]
pub open spec fn windowed_acc(pt1: AffineSpec, pt2: AffineSpec, k1: int, k2: int, n: nat) -> AffineSpec
    decreases n,
{
    if n == 0 {
        affine_infinity()
    } else {
        let w = 64 - n;
        let acc = double4(windowed_acc(pt1, pt2, k1, k2, (n - 1) as nat));
        g1_add(
            g1_add(acc, mul_table(pt1, window_digit(k1, w) as nat)),
            mul_table(pt2, window_digit(k2, w) as nat),
        )
    }
}

proof fn lemma_windowed_step(pt1: AffineSpec, pt2: AffineSpec, k1: int, k2: int, n: nat)
    requires
        n < 64,
    ensures
        windowed_acc(pt1, pt2, k1, k2, n + 1) == g1_add(
            g1_add(
                double4(windowed_acc(pt1, pt2, k1, k2, n)),
                mul_table(pt1, window_digit(k1, 63 - n) as nat),
            ),
            mul_table(pt2, window_digit(k2, 63 - n) as nat),
        ),
{
    reveal(windowed_acc);
}

proof fn lemma_windowed_start(pt1: AffineSpec, pt2: AffineSpec, k1: int, k2: int)
    ensures
        windowed_acc(pt1, pt2, k1, k2, 0) == affine_infinity(),
{
    reveal(windowed_acc);
}

/// The result of the windowed multiplication of `P` by `k`: the windowed
/// double-and-add over the halves of the decomposition of `k`, on `(+/-) P`
/// and `(+/-) lambda * P`.
pub open spec fn glv_mul_spec(a: AffineSpec, k: int) -> AffineSpec {
    let k1 = glv_k1(k);
    let k2 = glv_k2(k);
    let pt1 = if k1 > half_order() {
        g1_neg(a)
    } else {
        a
    };
    let pt2 = if k2 > half_order() {
        g1_neg(g1_endo(a))
    } else {
        g1_endo(a)
    };
    windowed_acc(pt1, pt2, magnitude(k1), magnitude(k2), 64)
}

/// The multiples `0 * P, ..., 15 * P`.
fn mul_table_16(a: &G1Affine) -> (t: Vec<G1Affine>)
    requires
        a.wf(),
    ensures
        t@.len() == 16,
        forall|i: int| 0 <= i < 16 ==> (#[trigger] t@[i]).wf(),
        forall|i: int| 0 <= i < 16 ==> (#[trigger] t@[i])@ == mul_table(a@, i as nat),
{
    let mut t: Vec<G1Affine> = Vec::new();
    t.push(G1Affine::infinity());
    let mut i: usize = 1;
    while i < 16
        invariant
            1 <= i <= 16,
            a.wf(),
            t@.len() == i,
            forall|j: int| 0 <= j < i ==> (#[trigger] t@[j]).wf(),
            forall|j: int| 0 <= j < i ==> (#[trigger] t@[j])@ == mul_table(a@, j as nat),
        decreases 16 - i,
    {
        let prev = t[i - 1];
        let next = prev.add(a);
        assert(next@ == mul_table(a@, i as nat));
        t.push(next);
        i = i + 1;
    }
    t
}

fn digit_at(k: &Fr, w: usize) -> (d: usize)
    requires
        w < 64,
    ensures
        d < 16,
        d as int == window_digit(k@, w as int),
{
    let limb = k.limbs[w / 16];
    let shift = (4 * (w % 16)) as u64;
    let s = limb >> shift;
    proof {
        lemma_limb_of(k.limbs);
        lemma_u64_shr_is_div(limb, shift);
        assert(s & 15 == s % 16) by (bit_vector);
    }
    (s & 15) as usize
}

fn double4_exec(a: &G1Affine) -> (r: G1Affine)
    requires
        a.wf(),
    ensures
        r.wf(),
        r@ == double4(a@),
{
    let d1 = a.add(a);
    let d2 = d1.add(&d1);
    let d3 = d2.add(&d2);
    d3.add(&d3)
}

/// Windowed double-and-add over both halves of a decomposed scalar, four
/// bits at a time from the most significant window.
pub fn width_4_windowed_multiplication(point: &G1Affine, scalar: &Fr) -> (r: G1Affine)
    requires
        point.wf(),
        scalar.wf(),
    ensures
        r.wf(),
        r@ == glv_mul_spec(point@, scalar@),
        point@.infinity ==> r@ == affine_infinity(),
        scalar@ == 0 ==> r@ == affine_infinity(),
{
    proof {
        if point@.infinity || scalar@ == 0 {
            lemma_glv_mul_infinity(point@, scalar@);
        }
    }
    let d = ScalarDecomposition::from(scalar);
    let pt1 = if d.k1_was_negated {
        point.negated()
    } else {
        *point
    };
    let endo = point.endomorphism();
    let pt2 = if d.k2_was_negated {
        endo.negated()
    } else {
        endo
    };
    let t1 = mul_table_16(&pt1);
    let t2 = mul_table_16(&pt2);
    let mut acc = G1Affine::infinity();
    let mut n: usize = 0;
    proof {
        lemma_windowed_start(pt1@, pt2@, d.k1@, d.k2@);
    }
    while n < 64
        invariant
            n <= 64,
            acc.wf(),
            t1@.len() == 16,
            t2@.len() == 16,
            forall|i: int| 0 <= i < 16 ==> (#[trigger] t1@[i]).wf(),
            forall|i: int| 0 <= i < 16 ==> (#[trigger] t1@[i])@ == mul_table(pt1@, i as nat),
            forall|i: int| 0 <= i < 16 ==> (#[trigger] t2@[i]).wf(),
            forall|i: int| 0 <= i < 16 ==> (#[trigger] t2@[i])@ == mul_table(pt2@, i as nat),
            acc@ == windowed_acc(pt1@, pt2@, d.k1@, d.k2@, n as nat),
        decreases 64 - n,
    {
        let w = 63 - n;
        let a16 = double4_exec(&acc);
        let d1 = digit_at(&d.k1, w);
        let d2 = digit_at(&d.k2, w);
        let e1 = t1[d1];
        let e2 = t2[d2];
        proof {
            lemma_windowed_step(pt1@, pt2@, d.k1@, d.k2@, n as nat);
        }
        acc = a16.add(&e1).add(&e2);
        n = n + 1;
    }
    acc
}

proof fn lemma_mul_table_infinity(i: nat)
    ensures
        mul_table(affine_infinity(), i) == affine_infinity(),
    decreases i,
{
    reveal(g1_add);
    if i > 0 {
        lemma_mul_table_infinity((i - 1) as nat);
    }
}

proof fn lemma_window_digit_zero(w: int)
    requires
        0 <= w < 64,
    ensures
        window_digit(0, w) == 0,
{
    vstd::arithmetic::power2::lemma_pow2_pos((4 * (w % 16)) as nat);
    assert(limb_of(0, w / 16) == 0);
}

proof fn lemma_windowed_acc_infinity(pt1: AffineSpec, pt2: AffineSpec, k1: int, k2: int, n: nat)
    requires
        n <= 64,
        (pt1 == affine_infinity() && pt2 == affine_infinity()) || (k1 == 0 && k2 == 0),
    ensures
        windowed_acc(pt1, pt2, k1, k2, n) == affine_infinity(),
    decreases n,
{
    if n == 0 {
        lemma_windowed_start(pt1, pt2, k1, k2);
    } else {
        let m = (n - 1) as nat;
        lemma_windowed_acc_infinity(pt1, pt2, k1, k2, m);
        lemma_windowed_step(pt1, pt2, k1, k2, m);
        reveal(g1_add);
        if k1 == 0 && k2 == 0 {
            lemma_window_digit_zero(63 - m);
        } else {
            lemma_mul_table_infinity(window_digit(k1, 63 - m) as nat);
            lemma_mul_table_infinity(window_digit(k2, 63 - m) as nat);
        }
    }
}

/// The multiplication gives the point at infinity for the scalar zero and
/// for the point at infinity.
pub proof fn lemma_glv_mul_infinity(a: AffineSpec, k: int)
    requires
        point_is_valid(a),
        a.infinity || k == 0,
    ensures
        glv_mul_spec(a, k) == affine_infinity(),
{
    if k == 0 {
        assert(glv_c1(0) == 0 && glv_c2(0) == 0);
        assert(glv_k1(0) == 0);
        assert(glv_k2(0) == 0);
    }
    let k1 = glv_k1(k);
    let k2 = glv_k2(k);
    let pt1 = if k1 > half_order() {
        g1_neg(a)
    } else {
        a
    };
    let pt2 = if k2 > half_order() {
        g1_neg(g1_endo(a))
    } else {
        g1_endo(a)
    };
    lemma_windowed_acc_infinity(pt1, pt2, magnitude(k1), magnitude(k2), 64);
}

} // verus!
