//! Arithmetic in the sextic extension `Fq6 = Fq2[v] / (v^3 - xi)`.
use crate::field::{
    fq2_add, fq2_is_wf, fq2_mul, fq2_one, fq2_zero, fq6, fq6_add, fq6_frobenius, fq6_inv, fq6_mul,
    fq6_mul_by_v, fq6_neg, fq6_one, fq6_sub, fq6_zero, fadd, fmul, fsub, frobenius_coeff_fq6_c1_raw,
    frobenius_coeff_fq6_c2_raw, xi, Fq2, Fq2Spec, Fq6,
};
use vstd::prelude::*;

verus! {

/// `a * 0 == 0` and `0 * a == 0` in Fq2.
pub proof fn lemma_fq2_mul_zero(a: Fq2Spec)
    ensures
        fq2_mul(a, fq2_zero()) == fq2_zero(),
        fq2_mul(fq2_zero(), a) == fq2_zero(),
{
    assert(fmul(a.c0, 0) == 0);
    assert(fmul(a.c1, 0) == 0);
    assert(fmul(0, a.c0) == 0);
    assert(fmul(0, a.c1) == 0);
    assert(fsub(0, 0) == 0);
    assert(fadd(0, 0) == 0);
}

/// `a + 0 == a` and `0 + a == a` for a reduced element of Fq2.
pub proof fn lemma_fq2_add_zero(a: Fq2Spec)
    requires
        fq2_is_wf(a),
    ensures
        fq2_add(a, fq2_zero()) == a,
        fq2_add(fq2_zero(), a) == a,
{
    assert(fadd(a.c0, 0) == a.c0);
    assert(fadd(a.c1, 0) == a.c1);
    assert(fadd(0, a.c0) == a.c0);
    assert(fadd(0, a.c1) == a.c1);
}

/// `a * 1 == a` for a reduced element of Fq2.
pub proof fn lemma_fq2_mul_one(a: Fq2Spec)
    requires
        fq2_is_wf(a),
    ensures
        fq2_mul(a, fq2_one()) == a,
{
    assert(fmul(a.c0, 1) == a.c0);
    assert(fmul(a.c1, 0) == 0);
    assert(fmul(a.c0, 0) == 0);
    assert(fmul(a.c1, 1) == a.c1);
    assert(fsub(a.c0, 0) == a.c0);
    assert(fadd(0, a.c1) == a.c1);
}

pub proof fn lemma_fq2_wf(a: Fq2)
    requires
        a.wf(),
    ensures
        fq2_is_wf(a@),
{
}

impl Fq6 {
    pub fn new(c0: Fq2, c1: Fq2, c2: Fq2) -> (r: Fq6)
        ensures
            r@ == fq6(c0@, c1@, c2@),
            r.c0 == c0 && r.c1 == c1 && r.c2 == c2,
    {
        Fq6 { c0, c1, c2 }
    }

    pub fn zero() -> (r: Fq6)
        ensures
            r.wf(),
            r@ == fq6_zero(),
    {
        Fq6 { c0: Fq2::zero(), c1: Fq2::zero(), c2: Fq2::zero() }
    }

    pub fn one() -> (r: Fq6)
        ensures
            r.wf(),
            r@ == fq6_one(),
    {
        Fq6 { c0: Fq2::one(), c1: Fq2::zero(), c2: Fq2::zero() }
    }

    pub fn add(&self, b: &Fq6) -> (r: Fq6)
        requires
            self.wf(),
            b.wf(),
        ensures
            r.wf(),
            r@ == fq6_add(self@, b@),
    {
        Fq6 { c0: self.c0.add(&b.c0), c1: self.c1.add(&b.c1), c2: self.c2.add(&b.c2) }
    }

    pub fn sub(&self, b: &Fq6) -> (r: Fq6)
        requires
            self.wf(),
            b.wf(),
        ensures
            r.wf(),
            r@ == fq6_sub(self@, b@),
    {
        Fq6 { c0: self.c0.sub(&b.c0), c1: self.c1.sub(&b.c1), c2: self.c2.sub(&b.c2) }
    }

    pub fn neg(&self) -> (r: Fq6)
        requires
            self.wf(),
        ensures
            r.wf(),
            r@ == fq6_neg(self@),
    {
        Fq6 { c0: self.c0.neg(), c1: self.c1.neg(), c2: self.c2.neg() }
    }

    /// Schoolbook product, reducing with `v^3 = xi`.
    pub fn mul(&self, b: &Fq6) -> (r: Fq6)
        requires
            self.wf(),
            b.wf(),
        ensures
            r.wf(),
            r@ == fq6_mul(self@, b@),
    {
        let c0 = self.c0.mul(&b.c0).add(
            &self.c1.mul(&b.c2).add(&self.c2.mul(&b.c1)).mul_by_nonresidue(),
        );
        let c1 = self.c0.mul(&b.c1).add(&self.c1.mul(&b.c0)).add(
            &self.c2.mul(&b.c2).mul_by_nonresidue(),
        );
        let c2 = self.c0.mul(&b.c2).add(&self.c1.mul(&b.c1)).add(&self.c2.mul(&b.c0));
        Fq6 { c0, c1, c2 }
    }

    pub fn square(&self) -> (r: Fq6)
        requires
            self.wf(),
        ensures
            r.wf(),
            r@ == fq6_mul(self@, self@),
    {
        self.mul(self)
    }

    /// Product with `b0 + b1 * v`: the schoolbook product without the terms
    /// of the absent coefficient.
    pub fn mul_by_01(&self, b0: &Fq2, b1: &Fq2) -> (r: Fq6)
        requires
            self.wf(),
            b0.wf(),
            b1.wf(),
        ensures
            r.wf(),
            r@ == fq6_mul(self@, fq6(b0@, b1@, fq2_zero())),
    {
        let c0 = self.c0.mul(b0).add(&self.c2.mul(b1).mul_by_nonresidue());
        let c1 = self.c0.mul(b1).add(&self.c1.mul(b0));
        let c2 = self.c1.mul(b1).add(&self.c2.mul(b0));
        proof {
            let a = self@;
            lemma_fq2_mul_zero(a.c0);
            lemma_fq2_mul_zero(a.c1);
            lemma_fq2_mul_zero(a.c2);
            lemma_fq2_mul_zero(xi());
            lemma_fq2_add_zero(fq2_mul(a.c2, b1@));
            lemma_fq2_add_zero(fq2_add(fq2_mul(a.c0, b1@), fq2_mul(a.c1, b0@)));
            lemma_fq2_add_zero(fq2_mul(a.c1, b1@));
        }
        Fq6 { c0, c1, c2 }
    }

    /// Product with `b1 * v`.
    pub fn mul_by_1(&self, b1: &Fq2) -> (r: Fq6)
        requires
            self.wf(),
            b1.wf(),
        ensures
            r.wf(),
            r@ == fq6_mul(self@, fq6(fq2_zero(), b1@, fq2_zero())),
    {
        let c0 = self.c2.mul(b1).mul_by_nonresidue();
        let c1 = self.c0.mul(b1);
        let c2 = self.c1.mul(b1);
        proof {
            let a = self@;
            lemma_fq2_mul_zero(a.c0);
            lemma_fq2_mul_zero(a.c1);
            lemma_fq2_mul_zero(a.c2);
            lemma_fq2_mul_zero(xi());
            lemma_fq2_add_zero(fq2_mul(a.c2, b1@));
            lemma_fq2_add_zero(fq2_mul(xi(), fq2_mul(a.c2, b1@)));
            lemma_fq2_add_zero(fq2_mul(a.c0, b1@));
            lemma_fq2_add_zero(fq2_mul(a.c1, b1@));
        }
        Fq6 { c0, c1, c2 }
    }

    /// Product with `b0`, an element of Fq2.
    pub fn mul_by_0(&self, b0: &Fq2) -> (r: Fq6)
        requires
            self.wf(),
            b0.wf(),
        ensures
            r.wf(),
            r@ == fq6_mul(self@, fq6(b0@, fq2_zero(), fq2_zero())),
    {
        let c0 = self.c0.mul(b0);
        let c1 = self.c1.mul(b0);
        let c2 = self.c2.mul(b0);
        proof {
            let a = self@;
            lemma_fq2_mul_zero(a.c0);
            lemma_fq2_mul_zero(a.c1);
            lemma_fq2_mul_zero(a.c2);
            lemma_fq2_mul_zero(xi());
            lemma_fq2_add_zero(fq2_zero());
            lemma_fq2_add_zero(fq2_mul(a.c0, b0@));
            lemma_fq2_add_zero(fq2_mul(a.c1, b0@));
            lemma_fq2_add_zero(fq2_mul(a.c2, b0@));
        }
        Fq6 { c0, c1, c2 }
    }

    /// Multiplication by `v`.
    pub fn mul_by_nonresidue(&self) -> (r: Fq6)
        requires
            self.wf(),
        ensures
            r.wf(),
            r@ == fq6_mul_by_v(self@),
    {
        Fq6 { c0: self.c2.mul_by_nonresidue(), c1: self.c0, c2: self.c1 }
    }

    /// The inverse of a nonzero element, through the norm to Fq2; zero for zero.
    pub fn inverse(&self) -> (r: Fq6)
        requires
            self.wf(),
        ensures
            r.wf(),
            r@ == fq6_inv(self@),
    {
        let t0 = self.c0.square().sub(&self.c1.mul(&self.c2).mul_by_nonresidue());
        let t1 = self.c2.square().mul_by_nonresidue().sub(&self.c0.mul(&self.c1));
        let t2 = self.c1.square().sub(&self.c0.mul(&self.c2));
        let d = self.c0.mul(&t0).add(
            &self.c2.mul(&t1).add(&self.c1.mul(&t2)).mul_by_nonresidue(),
        );
        let di = d.inverse();
        Fq6 { c0: t0.mul(&di), c1: t1.mul(&di), c2: t2.mul(&di) }
    }

    /// `self / b`, as the product with the inverse of `b`.
    pub fn div(&self, b: &Fq6) -> (r: Fq6)
        requires
            self.wf(),
            b.wf(),
        ensures
            r.wf(),
            r@ == fq6_mul(self@, fq6_inv(b@)),
    {
        self.mul(&b.inverse())
    }

    /// The `p^power` Frobenius endomorphism.
    pub fn frobenius_map(&self, power: usize) -> (r: Fq6)
        requires
            self.wf(),
        ensures
            r.wf(),
            r@ == fq6_frobenius(self@, power as nat),
            power % 6 == 0 ==> r@ == self@,
    {
        let k1 = frobenius_coeff_fq6_c1_raw(power % 6);
        let k2 = frobenius_coeff_fq6_c2_raw(power % 6);
        let r = Fq6 {
            c0: self.c0.frobenius_map(power),
            c1: self.c1.frobenius_map(power).mul(&k1),
            c2: self.c2.frobenius_map(power).mul(&k2),
        };
        proof {
            lemma_fq2_wf(self.c1);
            lemma_fq2_wf(self.c2);
            if power % 6 == 0 {
                lemma_fq2_mul_one(self.c1@);
                lemma_fq2_mul_one(self.c2@);
            }
        }
        r
    }

    pub fn is_zero(&self) -> (r: bool)
        ensures
            r == (self@ == fq6_zero()),
    {
        self.c0.is_zero() && self.c1.is_zero() && self.c2.is_zero()
    }

    pub fn equals(&self, b: &Fq6) -> (r: bool)
        ensures
            r == (self@ == b@),
    {
        self.c0.equals(&b.c0) && self.c1.equals(&b.c1) && self.c2.equals(&b.c2)
    }
}

} // verus!
