//! Arithmetic in the degree-12 extension `Fq12 = Fq6[w] / (w^2 - v)`.
use crate::field::{
    fq12, fq12_add, fq12_conj, fq12_frobenius, fq12_from_c0c1c4, fq12_from_c0c3c4, fq12_inv,
    fq12_mul, fq12_one, fq12_pow, fq12_square, fq12_sub, fq12_zero, fq2_is_wf, fq6_neg,
    frobenius_coeff_fq12_c1_raw, Fq12, Fq12Spec, Fq2, Fq6,
};
use crate::fq6::{lemma_fq2_mul_one, lemma_fq2_wf};
use vstd::prelude::*;

verus! {

/// `t^(2^64)`.
pub open spec fn fq12_pow_2_64(t: Fq12Spec) -> Fq12Spec {
    fq12_square(fq12_pow(t, 0x8000_0000_0000_0000))
}

/// `a^e` for `e = e0 + e1 * 2^64 + e2 * 2^128 + e3 * 2^192`, by Horner's
/// rule in base `2^64`.
pub open spec fn fq12_pow_wide(a: Fq12Spec, e: [u64; 4]) -> Fq12Spec {
    let t = fq12_pow(a, e[3] as nat);
    let t = fq12_mul(fq12_pow_2_64(t), fq12_pow(a, e[2] as nat));
    let t = fq12_mul(fq12_pow_2_64(t), fq12_pow(a, e[1] as nat));
    fq12_mul(fq12_pow_2_64(t), fq12_pow(a, e[0] as nat))
}

impl Fq12 {
    pub fn new(c0: Fq6, c1: Fq6) -> (r: Fq12)
        ensures
            r@ == fq12(c0@, c1@),
            r.c0 == c0 && r.c1 == c1,
    {
        Fq12 { c0, c1 }
    }

    pub fn zero() -> (r: Fq12)
        ensures
            r.wf(),
            r@ == fq12_zero(),
    {
        Fq12 { c0: Fq6::zero(), c1: Fq6::zero() }
    }

    pub fn one() -> (r: Fq12)
        ensures
            r.wf(),
            r@ == fq12_one(),
    {
        Fq12 { c0: Fq6::one(), c1: Fq6::zero() }
    }

    pub fn add(&self, b: &Fq12) -> (r: Fq12)
        requires
            self.wf(),
            b.wf(),
        ensures
            r.wf(),
            r@ == fq12_add(self@, b@),
    {
        Fq12 { c0: self.c0.add(&b.c0), c1: self.c1.add(&b.c1) }
    }

    pub fn sub(&self, b: &Fq12) -> (r: Fq12)
        requires
            self.wf(),
            b.wf(),
        ensures
            r.wf(),
            r@ == fq12_sub(self@, b@),
    {
        Fq12 { c0: self.c0.sub(&b.c0), c1: self.c1.sub(&b.c1) }
    }

    /// Schoolbook product, reducing with `w^2 = v`.
    pub fn mul(&self, b: &Fq12) -> (r: Fq12)
        requires
            self.wf(),
            b.wf(),
        ensures
            r.wf(),
            r@ == fq12_mul(self@, b@),
    {
        let c0 = self.c0.mul(&b.c0).add(&self.c1.mul(&b.c1).mul_by_nonresidue());
        let c1 = self.c0.mul(&b.c1).add(&self.c1.mul(&b.c0));
        Fq12 { c0, c1 }
    }

    pub fn square(&self) -> (r: Fq12)
        requires
            self.wf(),
        ensures
            r.wf(),
            r@ == fq12_square(self@),
    {
        self.mul(self)
    }

    /// `c0 - c1 * w`: the `p^6` Frobenius map.
    pub fn conjugate(&self) -> (r: Fq12)
        requires
            self.wf(),
        ensures
            r.wf(),
            r@ == fq12_conj(self@),
    {
        Fq12 { c0: self.c0, c1: self.c1.neg() }
    }

    /// `(c0 - c1 * w) / (c0^2 - v * c1^2)`: the inverse of a nonzero element,
    /// zero for zero.
    pub fn inverse(&self) -> (r: Fq12)
        requires
            self.wf(),
        ensures
            r.wf(),
            r@ == fq12_inv(self@),
    {
        let d = self.c0.square().sub(&self.c1.square().mul_by_nonresidue());
        let di = d.inverse();
        Fq12 { c0: self.c0.mul(&di), c1: self.c1.mul(&di).neg() }
    }

    /// `self / b`, as the product with the inverse of `b`.
    pub fn div(&self, b: &Fq12) -> (r: Fq12)
        requires
            self.wf(),
            b.wf(),
        ensures
            r.wf(),
            r@ == fq12_mul(self@, fq12_inv(b@)),
    {
        self.mul(&b.inverse())
    }

    pub fn neg(&self) -> (r: Fq12)
        requires
            self.wf(),
        ensures
            r.wf(),
            r@ == fq12(fq6_neg(self@.c0), fq6_neg(self@.c1)),
    {
        Fq12 { c0: self.c0.neg(), c1: self.c1.neg() }
    }

    /// The `p^power` Frobenius endomorphism; the identity when twelve
    /// divides `power`.
    pub fn frobenius_map(&self, power: usize) -> (r: Fq12)
        requires
            self.wf(),
        ensures
            r.wf(),
            r@ == fq12_frobenius(self@, power as nat),
            power % 12 == 0 ==> r@ == self@,
    {
        let k = frobenius_coeff_fq12_c1_raw(power % 12);
        let c0 = self.c0.frobenius_map(power);
        let b1 = self.c1.frobenius_map(power);
        let r = Fq12 { c0, c1: Fq6 { c0: b1.c0.mul(&k), c1: b1.c1.mul(&k), c2: b1.c2.mul(&k) } };
        proof {
            if power % 12 == 0 {
                lemma_fq2_wf(self.c1.c0);
                lemma_fq2_wf(self.c1.c1);
                lemma_fq2_wf(self.c1.c2);
                lemma_fq2_mul_one(self.c1.c0@);
                lemma_fq2_mul_one(self.c1.c1@);
                lemma_fq2_mul_one(self.c1.c2@);
            }
        }
        r
    }

    /// Product with the sparse element `c0 + (c3 + c4 * v) * w` that a line
    /// function yields; equal to the full product with that element.
    pub fn mul_by_c0c3c4(&self, c0: &Fq2, c3: &Fq2, c4: &Fq2) -> (r: Fq12)
        requires
            self.wf(),
            c0.wf(),
            c3.wf(),
            c4.wf(),
        ensures
            r.wf(),
            r@ == fq12_mul(self@, fq12_from_c0c3c4(c0@, c3@, c4@)),
    {
        let aa = self.c0.mul_by_0(c0);
        let bb = self.c1.mul_by_01(c3, c4);
        let r0 = aa.add(&bb.mul_by_nonresidue());
        let x = self.c0.mul_by_01(c3, c4);
        let y = self.c1.mul_by_0(c0);
        let r1 = x.add(&y);
        Fq12 { c0: r0, c1: r1 }
    }

    /// Product with the sparse element `(c0 + c1 * v) + (c4 * v) * w`; equal to
    /// the full product with that element.
    pub fn mul_by_c0c1c4(&self, c0: &Fq2, c1: &Fq2, c4: &Fq2) -> (r: Fq12)
        requires
            self.wf(),
            c0.wf(),
            c1.wf(),
            c4.wf(),
        ensures
            r.wf(),
            r@ == fq12_mul(self@, fq12_from_c0c1c4(c0@, c1@, c4@)),
    {
        let aa = self.c0.mul_by_01(c0, c1);
        let bb = self.c1.mul_by_1(c4);
        let r0 = aa.add(&bb.mul_by_nonresidue());
        let x = self.c0.mul_by_1(c4);
        let y = self.c1.mul_by_01(c0, c1);
        let r1 = x.add(&y);
        Fq12 { c0: r0, c1: r1 }
    }

    /// `self^e`, by square and multiply from the most significant bit.
    pub fn pow_u64(&self, e: u64) -> (r: Fq12)
        requires
            self.wf(),
        ensures
            r.wf(),
            r@ == fq12_pow(self@, e as nat),
        decreases e,
    {
        if e == 0 {
            Fq12::one()
        } else {
            let h = self.pow_u64(e / 2);
            let sq = h.square();
            if e % 2 == 1 {
                sq.mul(self)
            } else {
                sq
            }
        }
    }

    /// `self^e` for a 256-bit exponent `e = e0 + e1 * 2^64 + e2 * 2^128 +
    /// e3 * 2^192`, by Horner's rule in base `2^64`.
    pub fn pow_wide(&self, e: &[u64; 4]) -> (r: Fq12)
        requires
            self.wf(),
        ensures
            r.wf(),
            r@ == fq12_pow_wide(self@, *e),
    {
        let t = self.pow_u64(e[3]);
        let t = t.pow_u64(0x8000_0000_0000_0000).square().mul(&self.pow_u64(e[2]));
        let t = t.pow_u64(0x8000_0000_0000_0000).square().mul(&self.pow_u64(e[1]));
        t.pow_u64(0x8000_0000_0000_0000).square().mul(&self.pow_u64(e[0]))
    }

    pub fn is_zero(&self) -> (r: bool)
        ensures
            r == (self@ == fq12_zero()),
    {
        self.c0.is_zero() && self.c1.is_zero()
    }

    pub fn equals(&self, b: &Fq12) -> (r: bool)
        ensures
            r == (self@ == b@),
    {
        self.c0.equals(&b.c0) && self.c1.equals(&b.c1)
    }
}

} // verus!

verus! {

pub open spec fn fq12_spec_wf(a: Fq12Spec) -> bool {
    &&& fq2_is_wf(a.c0.c0) && fq2_is_wf(a.c0.c1) && fq2_is_wf(a.c0.c2)
    &&& fq2_is_wf(a.c1.c0) && fq2_is_wf(a.c1.c1) && fq2_is_wf(a.c1.c2)
}

proof fn lemma_fneg_involutive(a: int)
    requires
        0 <= a < crate::field::p(),
    ensures
        crate::field::fneg(crate::field::fneg(a)) == a,
{
    let p = crate::field::p();
    if a == 0 {
        assert(crate::field::fneg(0) == 0);
    } else {
        assert(crate::field::fneg(a) == p - a);
        assert(crate::field::fneg(p - a) == a);
    }
}

/// Conjugation is an involution: `conj(conj(x)) == x`.
pub proof fn lemma_conjugate_involutive(x: Fq12Spec)
    requires
        fq12_spec_wf(x),
    ensures
        fq12_conj(fq12_conj(x)) == x,
{
    lemma_fneg_involutive(x.c1.c0.c0);
    lemma_fneg_involutive(x.c1.c0.c1);
    lemma_fneg_involutive(x.c1.c1.c0);
    lemma_fneg_involutive(x.c1.c1.c1);
    lemma_fneg_involutive(x.c1.c2.c0);
    lemma_fneg_involutive(x.c1.c2.c1);
}

} // verus!
