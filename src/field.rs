//! The base field of BN254 and its tower of extensions.
//!
//! `Fq` holds a canonical residue as four little-endian `u64` limbs. The
//! extensions are built as
//!   Fq2  = Fq[u]  / (u^2 + 1),
//!   Fq6  = Fq2[v] / (v^3 - xi),  xi = 9 + u,
//!   Fq12 = Fq6[w] / (w^2 - v).
//! Each exec type has a view in the mathematical model below, and every
//! operation is specified as the corresponding operation of the model.
use pairing_ce::ff::{Field, PrimeField};
use pairing_ce::bn256 as ce;
use vstd::prelude::*;

verus! {

/// The characteristic of the base field.
pub open spec fn p() -> int {
    21888242871839275222246405745257275088696311157297823662689037894645226208583int
}

pub open spec fn fadd(a: int, b: int) -> int {
    (a + b) % p()
}

pub open spec fn fsub(a: int, b: int) -> int {
    (a - b) % p()
}

pub open spec fn fmul(a: int, b: int) -> int {
    (a * b) % p()
}

pub open spec fn fneg(a: int) -> int {
    (0 - a) % p()
}

/// Value of four little-endian 64-bit limbs.
pub open spec fn limbs_value(l: [u64; 4]) -> int {
    l[0] + l[1] * 0x1_0000_0000_0000_0000int + l[2] * 0x1_0000_0000_0000_0000_0000_0000_0000_0000int
        + l[3] * 0x1_0000_0000_0000_0000_0000_0000_0000_0000_0000_0000_0000_0000int
}

/// Element of the quadratic extension in the model: `c0 + c1 * u`.
pub struct Fq2Spec {
    pub c0: int,
    pub c1: int,
}

/// Element of the sextic extension in the model: `c0 + c1 * v + c2 * v^2`.
pub struct Fq6Spec {
    pub c0: Fq2Spec,
    pub c1: Fq2Spec,
    pub c2: Fq2Spec,
}

/// Element of the degree-12 extension in the model: `c0 + c1 * w`.
pub struct Fq12Spec {
    pub c0: Fq6Spec,
    pub c1: Fq6Spec,
}

// ---------------------------------------------------------------- Fq2 model
pub open spec fn fq2(c0: int, c1: int) -> Fq2Spec {
    Fq2Spec { c0, c1 }
}

pub open spec fn fq2_zero() -> Fq2Spec {
    fq2(0, 0)
}

pub open spec fn fq2_one() -> Fq2Spec {
    fq2(1, 0)
}

/// The cubic non-residue `xi = 9 + u` of the tower.
pub open spec fn xi() -> Fq2Spec {
    fq2(9, 1)
}

pub open spec fn fq2_add(a: Fq2Spec, b: Fq2Spec) -> Fq2Spec {
    fq2(fadd(a.c0, b.c0), fadd(a.c1, b.c1))
}

pub open spec fn fq2_sub(a: Fq2Spec, b: Fq2Spec) -> Fq2Spec {
    fq2(fsub(a.c0, b.c0), fsub(a.c1, b.c1))
}

pub open spec fn fq2_neg(a: Fq2Spec) -> Fq2Spec {
    fq2(fneg(a.c0), fneg(a.c1))
}

pub open spec fn fq2_mul(a: Fq2Spec, b: Fq2Spec) -> Fq2Spec {
    fq2(fsub(fmul(a.c0, b.c0), fmul(a.c1, b.c1)), fadd(fmul(a.c0, b.c1), fmul(a.c1, b.c0)))
}

pub open spec fn fq2_scale(a: Fq2Spec, s: int) -> Fq2Spec {
    fq2(fmul(a.c0, s), fmul(a.c1, s))
}

pub open spec fn fq2_conj(a: Fq2Spec) -> Fq2Spec {
    fq2(a.c0, fneg(a.c1))
}

pub open spec fn fq2_is_wf(a: Fq2Spec) -> bool {
    0 <= a.c0 < p() && 0 <= a.c1 < p()
}

/// `a^n` by repeated multiplication.
pub open spec fn fq2_pow(a: Fq2Spec, n: nat) -> Fq2Spec
    decreases n,
{
    if n == 0 {
        fq2_one()
    } else {
        fq2_mul(a, fq2_pow(a, (n - 1) as nat))
    }
}

/// The inverse of `a` in the model: `conj(a) / (c0^2 + c1^2)`, with the
/// base-field inverse given by Fermat's little theorem.
pub open spec fn fq_inv(a: int) -> int {
    vstd::arithmetic::power::pow(a, (p() - 2) as nat) % p()
}

pub open spec fn fq2_inv(a: Fq2Spec) -> Fq2Spec {
    let n = fq_inv(fadd(fmul(a.c0, a.c0), fmul(a.c1, a.c1)));
    fq2(fmul(a.c0, n), fmul(fneg(a.c1), n))
}

/// The `p^power` Frobenius endomorphism of Fq2: conjugation for odd powers.
pub open spec fn fq2_frobenius(a: Fq2Spec, power: nat) -> Fq2Spec {
    if power % 2 == 1 {
        fq2_conj(a)
    } else {
        a
    }
}

// ---------------------------------------------------------------- Fq6 model
pub open spec fn fq6(c0: Fq2Spec, c1: Fq2Spec, c2: Fq2Spec) -> Fq6Spec {
    Fq6Spec { c0, c1, c2 }
}

pub open spec fn fq6_zero() -> Fq6Spec {
    fq6(fq2_zero(), fq2_zero(), fq2_zero())
}

pub open spec fn fq6_one() -> Fq6Spec {
    fq6(fq2_one(), fq2_zero(), fq2_zero())
}

pub open spec fn fq6_add(a: Fq6Spec, b: Fq6Spec) -> Fq6Spec {
    fq6(fq2_add(a.c0, b.c0), fq2_add(a.c1, b.c1), fq2_add(a.c2, b.c2))
}

pub open spec fn fq6_sub(a: Fq6Spec, b: Fq6Spec) -> Fq6Spec {
    fq6(fq2_sub(a.c0, b.c0), fq2_sub(a.c1, b.c1), fq2_sub(a.c2, b.c2))
}

pub open spec fn fq6_neg(a: Fq6Spec) -> Fq6Spec {
    fq6(fq2_neg(a.c0), fq2_neg(a.c1), fq2_neg(a.c2))
}

/// Schoolbook product, reducing with `v^3 = xi`.
pub open spec fn fq6_mul(a: Fq6Spec, b: Fq6Spec) -> Fq6Spec {
    fq6(
        fq2_add(
            fq2_mul(a.c0, b.c0),
            fq2_mul(xi(), fq2_add(fq2_mul(a.c1, b.c2), fq2_mul(a.c2, b.c1))),
        ),
        fq2_add(fq2_add(fq2_mul(a.c0, b.c1), fq2_mul(a.c1, b.c0)), fq2_mul(xi(), fq2_mul(a.c2, b.c2))),
        fq2_add(fq2_add(fq2_mul(a.c0, b.c2), fq2_mul(a.c1, b.c1)), fq2_mul(a.c2, b.c0)),
    )
}

/// Multiplication by `v`.
pub open spec fn fq6_mul_by_v(a: Fq6Spec) -> Fq6Spec {
    fq6(fq2_mul(xi(), a.c2), a.c0, a.c1)
}

pub open spec fn fq6_inv(a: Fq6Spec) -> Fq6Spec {
    let t0 = fq2_sub(fq2_mul(a.c0, a.c0), fq2_mul(xi(), fq2_mul(a.c1, a.c2)));
    let t1 = fq2_sub(fq2_mul(xi(), fq2_mul(a.c2, a.c2)), fq2_mul(a.c0, a.c1));
    let t2 = fq2_sub(fq2_mul(a.c1, a.c1), fq2_mul(a.c0, a.c2));
    let d = fq2_add(
        fq2_mul(a.c0, t0),
        fq2_mul(xi(), fq2_add(fq2_mul(a.c2, t1), fq2_mul(a.c1, t2))),
    );
    let di = fq2_inv(d);
    fq6(fq2_mul(t0, di), fq2_mul(t1, di), fq2_mul(t2, di))
}

// --------------------------------------------------------------- Fq12 model
pub open spec fn fq12(c0: Fq6Spec, c1: Fq6Spec) -> Fq12Spec {
    Fq12Spec { c0, c1 }
}

pub open spec fn fq12_zero() -> Fq12Spec {
    fq12(fq6_zero(), fq6_zero())
}

pub open spec fn fq12_one() -> Fq12Spec {
    fq12(fq6_one(), fq6_zero())
}

pub open spec fn fq12_add(a: Fq12Spec, b: Fq12Spec) -> Fq12Spec {
    fq12(fq6_add(a.c0, b.c0), fq6_add(a.c1, b.c1))
}

pub open spec fn fq12_sub(a: Fq12Spec, b: Fq12Spec) -> Fq12Spec {
    fq12(fq6_sub(a.c0, b.c0), fq6_sub(a.c1, b.c1))
}

/// Schoolbook product, reducing with `w^2 = v`.
pub open spec fn fq12_mul(a: Fq12Spec, b: Fq12Spec) -> Fq12Spec {
    fq12(
        fq6_add(fq6_mul(a.c0, b.c0), fq6_mul_by_v(fq6_mul(a.c1, b.c1))),
        fq6_add(fq6_mul(a.c0, b.c1), fq6_mul(a.c1, b.c0)),
    )
}

pub open spec fn fq12_square(a: Fq12Spec) -> Fq12Spec {
    fq12_mul(a, a)
}

pub open spec fn fq12_conj(a: Fq12Spec) -> Fq12Spec {
    fq12(a.c0, fq6_neg(a.c1))
}

pub open spec fn fq12_inv(a: Fq12Spec) -> Fq12Spec {
    let d = fq6_sub(fq6_mul(a.c0, a.c0), fq6_mul_by_v(fq6_mul(a.c1, a.c1)));
    let di = fq6_inv(d);
    fq12(fq6_mul(a.c0, di), fq6_neg(fq6_mul(a.c1, di)))
}

/// `a^e`, by left-to-right square and multiply over the bits of `e`.
pub open spec fn fq12_pow(a: Fq12Spec, e: nat) -> Fq12Spec
    decreases e,
{
    if e == 0 {
        fq12_one()
    } else {
        let h = fq12_pow(a, e / 2);
        let sq = fq12_square(h);
        if e % 2 == 1 {
            fq12_mul(sq, a)
        } else {
            sq
        }
    }
}

/// The sparse element `c0 + (c3 + c4 * v) * w` that a line function yields.
pub open spec fn fq12_from_c0c3c4(c0: Fq2Spec, c3: Fq2Spec, c4: Fq2Spec) -> Fq12Spec {
    fq12(fq6(c0, fq2_zero(), fq2_zero()), fq6(c3, c4, fq2_zero()))
}

/// The sparse element `(c0 + c1 * v) + (c4 * v) * w`.
pub open spec fn fq12_from_c0c1c4(c0: Fq2Spec, c1: Fq2Spec, c4: Fq2Spec) -> Fq12Spec {
    fq12(fq6(c0, c1, fq2_zero()), fq6(fq2_zero(), c4, fq2_zero()))
}

/// `p^i`.
pub open spec fn p_pow(i: nat) -> int {
    vstd::arithmetic::power::pow(p(), i)
}

/// The constants of the Frobenius map, indexed by the power `i`:
/// `xi^((p^i - 1) / 3)`.
#[verifier::opaque]
pub open spec fn frobenius_coeff_fq6_c1(i: nat) -> Fq2Spec {
    fq2_pow(xi(), ((p_pow(i) - 1) / 3) as nat)
}

/// `xi^((2 p^i - 2) / 3)`.
#[verifier::opaque]
pub open spec fn frobenius_coeff_fq6_c2(i: nat) -> Fq2Spec {
    fq2_pow(xi(), ((2 * p_pow(i) - 2) / 3) as nat)
}

/// `xi^((p^i - 1) / 6)`.
#[verifier::opaque]
pub open spec fn frobenius_coeff_fq12_c1(i: nat) -> Fq2Spec {
    fq2_pow(xi(), ((p_pow(i) - 1) / 6) as nat)
}

pub open spec fn fq6_frobenius(a: Fq6Spec, power: nat) -> Fq6Spec {
    fq6(
        fq2_frobenius(a.c0, power),
        fq2_mul(fq2_frobenius(a.c1, power), frobenius_coeff_fq6_c1(power % 6)),
        fq2_mul(fq2_frobenius(a.c2, power), frobenius_coeff_fq6_c2(power % 6)),
    )
}

pub open spec fn fq12_frobenius(a: Fq12Spec, power: nat) -> Fq12Spec {
    let c = frobenius_coeff_fq12_c1(power % 12);
    let b1 = fq6_frobenius(a.c1, power);
    fq12(fq6_frobenius(a.c0, power), fq6(fq2_mul(b1.c0, c), fq2_mul(b1.c1, c), fq2_mul(b1.c2, c)))
}

// ------------------------------------------------------------ exec types
/// An element of the base field, as a canonical residue in four
/// little-endian 64-bit limbs.
#[derive(Clone, Copy, Debug)]
pub struct Fq {
    pub limbs: [u64; 4],
}

#[derive(Clone, Copy, Debug)]
pub struct Fq2 {
    pub c0: Fq,
    pub c1: Fq,
}

#[derive(Clone, Copy, Debug)]
pub struct Fq6 {
    pub c0: Fq2,
    pub c1: Fq2,
    pub c2: Fq2,
}

#[derive(Clone, Copy, Debug)]
pub struct Fq12 {
    pub c0: Fq6,
    pub c1: Fq6,
}

impl View for Fq {
    type V = int;

    open spec fn view(&self) -> int {
        limbs_value(self.limbs)
    }
}

impl View for Fq2 {
    type V = Fq2Spec;

    open spec fn view(&self) -> Fq2Spec {
        fq2(self.c0@, self.c1@)
    }
}

impl View for Fq6 {
    type V = Fq6Spec;

    open spec fn view(&self) -> Fq6Spec {
        fq6(self.c0@, self.c1@, self.c2@)
    }
}

impl View for Fq12 {
    type V = Fq12Spec;

    open spec fn view(&self) -> Fq12Spec {
        fq12(self.c0@, self.c1@)
    }
}

impl Fq {
    /// A canonical residue: below the characteristic.
    pub open spec fn wf(&self) -> bool {
        self@ < p()
    }
}

impl Fq2 {
    pub open spec fn wf(&self) -> bool {
        self.c0.wf() && self.c1.wf()
    }
}

impl Fq6 {
    pub open spec fn wf(&self) -> bool {
        self.c0.wf() && self.c1.wf() && self.c2.wf()
    }
}

impl Fq12 {
    pub open spec fn wf(&self) -> bool {
        self.c0.wf() && self.c1.wf()
    }
}

// ------------------------------------------- base field, through pairing_ce
/// Relies on pairing_ce's `Fq::add_assign`: addition modulo the characteristic.
#[verifier::external_body]
fn fq_add_raw(a: &Fq, b: &Fq) -> (r: Fq)
    requires
        a.wf(),
        b.wf(),
    ensures
        r@ == fadd(a@, b@),
{
    let mut x = ce::Fq::from_repr(ce::FqRepr(a.limbs)).unwrap();
    let y = ce::Fq::from_repr(ce::FqRepr(b.limbs)).unwrap();
    x.add_assign(&y);
    Fq { limbs: x.into_repr().0 }
}

/// Relies on pairing_ce's `Fq::sub_assign`: subtraction modulo the characteristic.
#[verifier::external_body]
fn fq_sub_raw(a: &Fq, b: &Fq) -> (r: Fq)
    requires
        a.wf(),
        b.wf(),
    ensures
        r@ == fsub(a@, b@),
{
    let mut x = ce::Fq::from_repr(ce::FqRepr(a.limbs)).unwrap();
    let y = ce::Fq::from_repr(ce::FqRepr(b.limbs)).unwrap();
    x.sub_assign(&y);
    Fq { limbs: x.into_repr().0 }
}

/// Relies on pairing_ce's `Fq::mul_assign`: multiplication modulo the characteristic.
#[verifier::external_body]
fn fq_mul_raw(a: &Fq, b: &Fq) -> (r: Fq)
    requires
        a.wf(),
        b.wf(),
    ensures
        r@ == fmul(a@, b@),
{
    let mut x = ce::Fq::from_repr(ce::FqRepr(a.limbs)).unwrap();
    let y = ce::Fq::from_repr(ce::FqRepr(b.limbs)).unwrap();
    x.mul_assign(&y);
    Fq { limbs: x.into_repr().0 }
}

/// Relies on pairing_ce's `Fq::inverse`: the multiplicative inverse of a
/// nonzero element, which is `a^(p - 2)`; `None` for zero (mapped here to zero).
#[verifier::external_body]
fn fq_inv_raw(a: &Fq) -> (r: Fq)
    requires
        a.wf(),
    ensures
        r@ == fq_inv(a@),
        a@ != 0 ==> fmul(a@, r@) == 1,
        a@ == 0 ==> r@ == 0,
{
    let x = ce::Fq::from_repr(ce::FqRepr(a.limbs)).unwrap();
    match x.inverse() {
        Some(y) => Fq { limbs: y.into_repr().0 },
        None => Fq { limbs: [0, 0, 0, 0] },
    }
}

/// Relies on pairing_ce's `FROBENIUS_COEFF_FQ6_C1` table: entry `i` is
/// `xi^((p^i - 1) / 3)`, so the first entry is one.
#[verifier::external_body]
pub(crate) fn frobenius_coeff_fq6_c1_raw(i: usize) -> (r: Fq2)
    requires
        i < 6,
    ensures
        r.wf(),
        r@ == frobenius_coeff_fq6_c1(i as nat),
        i == 0 ==> r@ == fq2_one(),
{
    let c = ce::FROBENIUS_COEFF_FQ6_C1[i];
    Fq2 { c0: Fq { limbs: c.c0.into_repr().0 }, c1: Fq { limbs: c.c1.into_repr().0 } }
}

/// Relies on pairing_ce's `FROBENIUS_COEFF_FQ6_C2` table: entry `i` is
/// `xi^((2 p^i - 2) / 3)` (the table's comments write the base as `u + 1`; the
/// entries are the powers of `xi = u + 9`), so the first entry is one.
#[verifier::external_body]
pub(crate) fn frobenius_coeff_fq6_c2_raw(i: usize) -> (r: Fq2)
    requires
        i < 6,
    ensures
        r.wf(),
        r@ == frobenius_coeff_fq6_c2(i as nat),
        i == 0 ==> r@ == fq2_one(),
{
    let c = ce::fq::FROBENIUS_COEFF_FQ6_C2[i];
    Fq2 { c0: Fq { limbs: c.c0.into_repr().0 }, c1: Fq { limbs: c.c1.into_repr().0 } }
}

/// Relies on pairing_ce's `FROBENIUS_COEFF_FQ12_C1` table: entry `i` is
/// `xi^((p^i - 1) / 6)` (the table's comments write the base as `u + 1`; the
/// entries are the powers of `xi = u + 9`), so the first entry is one.
#[verifier::external_body]
pub(crate) fn frobenius_coeff_fq12_c1_raw(i: usize) -> (r: Fq2)
    requires
        i < 12,
    ensures
        r.wf(),
        r@ == frobenius_coeff_fq12_c1(i as nat),
        i == 0 ==> r@ == fq2_one(),
{
    let c = ce::fq::FROBENIUS_COEFF_FQ12_C1[i];
    Fq2 { c0: Fq { limbs: c.c0.into_repr().0 }, c1: Fq { limbs: c.c1.into_repr().0 } }
}

/// Relies on pairing_ce's `XI_TO_Q_MINUS_1_OVER_2`: `xi^((p - 1) / 2)`.
#[verifier::external_body]
pub(crate) fn xi_to_q_minus_1_over_2_raw() -> (r: Fq2)
    ensures
        r.wf(),
        r@ == fq2_pow(xi(), ((p() - 1) / 2) as nat),
{
    let c = ce::XI_TO_Q_MINUS_1_OVER_2;
    Fq2 { c0: Fq { limbs: c.c0.into_repr().0 }, c1: Fq { limbs: c.c1.into_repr().0 } }
}

proof fn lemma_mod_range(x: int)
    ensures
        0 <= x % p() < p(),
{
}

impl Fq {
    pub fn zero() -> (r: Fq)
        ensures
            r.wf(),
            r@ == 0,
    {
        Fq { limbs: [0, 0, 0, 0] }
    }

    pub fn one() -> (r: Fq)
        ensures
            r.wf(),
            r@ == 1,
    {
        Fq { limbs: [1, 0, 0, 0] }
    }

    /// The residue of a small integer.
    pub fn from_u64(v: u64) -> (r: Fq)
        ensures
            r.wf(),
            r@ == v,
    {
        Fq { limbs: [v, 0, 0, 0] }
    }

    pub fn add(&self, b: &Fq) -> (r: Fq)
        requires
            self.wf(),
            b.wf(),
        ensures
            r.wf(),
            r@ == fadd(self@, b@),
    {
        let r = fq_add_raw(self, b);
        proof { lemma_mod_range(self@ + b@); }
        r
    }

    pub fn sub(&self, b: &Fq) -> (r: Fq)
        requires
            self.wf(),
            b.wf(),
        ensures
            r.wf(),
            r@ == fsub(self@, b@),
    {
        let r = fq_sub_raw(self, b);
        proof { lemma_mod_range(self@ - b@); }
        r
    }

    pub fn mul(&self, b: &Fq) -> (r: Fq)
        requires
            self.wf(),
            b.wf(),
        ensures
            r.wf(),
            r@ == fmul(self@, b@),
    {
        let r = fq_mul_raw(self, b);
        proof { lemma_mod_range(self@ * b@); }
        r
    }

    pub fn neg(&self) -> (r: Fq)
        requires
            self.wf(),
        ensures
            r.wf(),
            r@ == fneg(self@),
    {
        let z = Fq::zero();
        let r = fq_sub_raw(&z, self);
        proof { lemma_mod_range(0 - self@); }
        r
    }

    /// The inverse of a nonzero element; zero for zero.
    pub fn inverse(&self) -> (r: Fq)
        requires
            self.wf(),
        ensures
            r.wf(),
            r@ == fq_inv(self@),
            self@ != 0 ==> fmul(self@, r@) == 1,
            self@ == 0 ==> r@ == 0,
    {
        let r = fq_inv_raw(self);
        proof { lemma_mod_range(vstd::arithmetic::power::pow(self@, (p() - 2) as nat)); }
        r
    }

    pub fn is_zero(&self) -> (r: bool)
        ensures
            r == (self@ == 0),
    {
        self.limbs[0] == 0 && self.limbs[1] == 0 && self.limbs[2] == 0 && self.limbs[3] == 0
    }

    pub fn equals(&self, b: &Fq) -> (r: bool)
        ensures
            r == (self@ == b@),
    {
        let r = self.limbs[0] == b.limbs[0] && self.limbs[1] == b.limbs[1] && self.limbs[2]
            == b.limbs[2] && self.limbs[3] == b.limbs[3];
        proof {
            if self@ == b@ {
                lemma_limbs_value_injective(self.limbs, b.limbs);
            }
        }
        r
    }
}

/// Dividing a product by one factor gives back the other: for `bi` the
/// inverse of `b` (as `Fq::inverse` returns it for nonzero `b`),
/// `(a * b) * bi == a`.
pub proof fn lemma_mul_div_cancel(a: int, b: int, bi: int)
    requires
        0 <= a < p(),
        fmul(b, bi) == 1,
    ensures
        fmul(fmul(a, b), bi) == a,
{
    let pp = p();
    vstd::arithmetic::div_mod::lemma_mul_mod_noop_left(a * b, bi, pp);
    vstd::arithmetic::mul::lemma_mul_is_associative(a, b, bi);
    vstd::arithmetic::div_mod::lemma_mul_mod_noop_right(a, b * bi, pp);
    vstd::arithmetic::div_mod::lemma_small_mod(a as nat, pp as nat);
}

proof fn lemma_limbs_value_injective(a: [u64; 4], b: [u64; 4])
    requires
        limbs_value(a) == limbs_value(b),
    ensures
        a[0] == b[0] && a[1] == b[1] && a[2] == b[2] && a[3] == b[3],
{
}

} // verus!
