//! Arithmetic in the quadratic extension `Fq2 = Fq[u] / (u^2 + 1)`.
use crate::field::{
    fq2, fq2_add, fq2_conj, fq2_frobenius, fq2_inv, fq2_mul, fq2_neg, fq2_one, fq2_scale, fq2_sub,
    fq2_zero, xi, Fq, Fq2,
};
use vstd::prelude::*;

verus! {

impl Fq2 {
    pub fn new(c0: Fq, c1: Fq) -> (r: Fq2)
        ensures
            r@ == fq2(c0@, c1@),
            r.c0 == c0 && r.c1 == c1,
    {
        Fq2 { c0, c1 }
    }

    pub fn zero() -> (r: Fq2)
        ensures
            r.wf(),
            r@ == fq2_zero(),
    {
        Fq2 { c0: Fq::zero(), c1: Fq::zero() }
    }

    pub fn one() -> (r: Fq2)
        ensures
            r.wf(),
            r@ == fq2_one(),
    {
        Fq2 { c0: Fq::one(), c1: Fq::zero() }
    }

    pub fn add(&self, b: &Fq2) -> (r: Fq2)
        requires
            self.wf(),
            b.wf(),
        ensures
            r.wf(),
            r@ == fq2_add(self@, b@),
    {
        Fq2 { c0: self.c0.add(&b.c0), c1: self.c1.add(&b.c1) }
    }

    pub fn sub(&self, b: &Fq2) -> (r: Fq2)
        requires
            self.wf(),
            b.wf(),
        ensures
            r.wf(),
            r@ == fq2_sub(self@, b@),
    {
        Fq2 { c0: self.c0.sub(&b.c0), c1: self.c1.sub(&b.c1) }
    }

    pub fn neg(&self) -> (r: Fq2)
        requires
            self.wf(),
        ensures
            r.wf(),
            r@ == fq2_neg(self@),
    {
        Fq2 { c0: self.c0.neg(), c1: self.c1.neg() }
    }

    pub fn double(&self) -> (r: Fq2)
        requires
            self.wf(),
        ensures
            r.wf(),
            r@ == fq2_add(self@, self@),
    {
        self.add(self)
    }

    /// Schoolbook product, with `u^2 = -1`.
    pub fn mul(&self, b: &Fq2) -> (r: Fq2)
        requires
            self.wf(),
            b.wf(),
        ensures
            r.wf(),
            r@ == fq2_mul(self@, b@),
    {
        let a0b0 = self.c0.mul(&b.c0);
        let a1b1 = self.c1.mul(&b.c1);
        let a0b1 = self.c0.mul(&b.c1);
        let a1b0 = self.c1.mul(&b.c0);
        Fq2 { c0: a0b0.sub(&a1b1), c1: a0b1.add(&a1b0) }
    }

    pub fn square(&self) -> (r: Fq2)
        requires
            self.wf(),
        ensures
            r.wf(),
            r@ == fq2_mul(self@, self@),
    {
        self.mul(self)
    }

    /// Multiplication by an element of the base field.
    pub fn mul_by_fq(&self, s: &Fq) -> (r: Fq2)
        requires
            self.wf(),
            s.wf(),
        ensures
            r.wf(),
            r@ == fq2_scale(self@, s@),
    {
        Fq2 { c0: self.c0.mul(s), c1: self.c1.mul(s) }
    }

    pub fn conjugate(&self) -> (r: Fq2)
        requires
            self.wf(),
        ensures
            r.wf(),
            r@ == fq2_conj(self@),
    {
        Fq2 { c0: self.c0, c1: self.c1.neg() }
    }

    /// Multiplication by the non-residue `xi = 9 + u`.
    pub fn mul_by_nonresidue(&self) -> (r: Fq2)
        requires
            self.wf(),
        ensures
            r.wf(),
            r@ == fq2_mul(xi(), self@),
    {
        let x = Fq2 { c0: Fq::from_u64(9), c1: Fq::one() };
        x.mul(self)
    }

    /// `conj(a) / (c0^2 + c1^2)`: the inverse of a nonzero element, zero for zero.
    pub fn inverse(&self) -> (r: Fq2)
        requires
            self.wf(),
        ensures
            r.wf(),
            r@ == fq2_inv(self@),
    {
        let n = self.c0.mul(&self.c0).add(&self.c1.mul(&self.c1));
        let ni = n.inverse();
        Fq2 { c0: self.c0.mul(&ni), c1: self.c1.neg().mul(&ni) }
    }

    /// `self / b`, as the product with the inverse of `b`.
    pub fn div(&self, b: &Fq2) -> (r: Fq2)
        requires
            self.wf(),
            b.wf(),
        ensures
            r.wf(),
            r@ == fq2_mul(self@, fq2_inv(b@)),
    {
        self.mul(&b.inverse())
    }

    /// The `p^power` Frobenius endomorphism.
    pub fn frobenius_map(&self, power: usize) -> (r: Fq2)
        requires
            self.wf(),
        ensures
            r.wf(),
            r@ == fq2_frobenius(self@, power as nat),
    {
        if power % 2 == 1 {
            self.conjugate()
        } else {
            *self
        }
    }

    pub fn is_zero(&self) -> (r: bool)
        ensures
            r == (self@ == fq2_zero()),
    {
        self.c0.is_zero() && self.c1.is_zero()
    }

    pub fn equals(&self, b: &Fq2) -> (r: bool)
        ensures
            r == (self@ == b@),
    {
        self.c0.equals(&b.c0) && self.c1.equals(&b.c1)
    }
}

} // verus!
