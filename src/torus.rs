//! Algebraic torus (T2) compression of cyclotomic Fq12 elements: an element
//! `c0 + c1 * w` with `c1 != 0` is represented by `g = (1 + c0) / c1` in Fq6,
//! and the group law is carried out on these half-size representatives.
use crate::field::{
    fq12, fq12_inv, fq12_mul, fq2, fq2_inv, fq2_mul, fq2_one, fq2_zero, fq6, fq6_add,
    fq6_frobenius, fq6_inv, fq6_mul, fq6_neg, fq6_one, fq_inv, frobenius_coeff_fq12_c1,
    frobenius_coeff_fq12_c1_raw, Fq, Fq12, Fq12Spec, Fq2, Fq6, Fq6Spec,
};
use vstd::prelude::*;

verus! {

/// `gamma = v`, with `w^2 = gamma`.
pub open spec fn gamma() -> Fq6Spec {
    fq6(fq2_zero(), fq2_one(), fq2_zero())
}

#[verifier::opaque]
pub open spec fn torus_compress_spec(f: Fq12Spec) -> Fq6Spec {
    fq6_mul(fq6_add(fq6_one(), f.c0), fq6_inv(f.c1))
}

/// `(g + w) / (g - w)`.
#[verifier::opaque]
pub open spec fn torus_decompress_spec(g: Fq6Spec) -> Fq12Spec {
    fq12_mul(fq12(g, fq6_one()), fq12_inv(fq12(g, fq6_neg(fq6_one()))))
}

/// `(g * h + gamma) / (g + h)`.
#[verifier::opaque]
pub open spec fn torus_mul_spec(g: Fq6Spec, h: Fq6Spec) -> Fq6Spec {
    fq6_mul(fq6_add(fq6_mul(g, h), gamma()), fq6_inv(fq6_add(g, h)))
}

/// `(g + gamma / g) / 2`.
#[verifier::opaque]
pub open spec fn torus_square_spec(g: Fq6Spec) -> Fq6Spec {
    fq6_mul(
        fq6_add(g, fq6_mul(gamma(), fq6_inv(g))),
        fq6(fq2(fq_inv(2), 0), fq2_zero(), fq2_zero()),
    )
}

/// Inverse and conjugate: `-g`.
pub open spec fn torus_conj_spec(g: Fq6Spec) -> Fq6Spec {
    fq6_neg(g)
}

/// The `p^power` Frobenius map: `frob(g) / c` where `frob(w) = c * w`.
#[verifier::opaque]
pub open spec fn torus_frobenius_spec(g: Fq6Spec, power: nat) -> Fq6Spec {
    let f = fq6_frobenius(g, power);
    let ci = fq2_inv(frobenius_coeff_fq12_c1(power % 12));
    fq6(fq2_mul(f.c0, ci), fq2_mul(f.c1, ci), fq2_mul(f.c2, ci))
}

/// The signed digits of the curve parameter `u`, most significant first.
pub open spec fn u_wnaf() -> Seq<int> {
    seq![
        1, 0, 0, 0, 1, 0, 1, 0, 0, -1, 0, 1, 0, 0, 1, 1, 0, 0, 1, 0, 0, 1, 0, 1, 0, 1, 1, 0, 1, 0,
        0, 0, 1, 0, 0, 1, 0, 1, 0, 0, 1, 1, 0, 1, 0, 0, 1, 0, 0, 0, 0, 1, 0, 1, 0, 0, 0, 0, -1, 0,
        0, 0, 1,
    ]
}

fn u_wnaf_digit(i: usize) -> (r: i8)
    requires
        i < 63,
    ensures
        r as int == u_wnaf()[i as int],
{
    let digits: [i8; 63] = [
        1, 0, 0, 0, 1, 0, 1, 0, 0, -1, 0, 1, 0, 0, 1, 1, 0, 0, 1, 0, 0, 1, 0, 1, 0, 1, 1, 0, 1, 0,
        0, 0, 1, 0, 0, 1, 0, 1, 0, 0, 1, 1, 0, 1, 0, 0, 1, 0, 0, 0, 0, 1, 0, 1, 0, 0, 0, 0, -1, 0,
        0, 0, 1,
    ];
    digits[i]
}

/// The exponentiation by the signed digits `u_wnaf()[0..k]`: start from `g`
/// for the leading digit, then square and multiply by `g` or its inverse.
pub open spec fn torus_pow_naf_prefix(g: Fq6Spec, k: int) -> Fq6Spec
    decreases k,
{
    if k <= 1 {
        g
    } else {
        let s = torus_square_spec(torus_pow_naf_prefix(g, k - 1));
        let d = u_wnaf()[k - 1];
        if d == 1 {
            torus_mul_spec(s, g)
        } else if d == -1 {
            torus_mul_spec(s, torus_conj_spec(g))
        } else {
            s
        }
    }
}

/// `g^u` on the torus.
pub open spec fn torus_pow_u_spec(g: Fq6Spec) -> Fq6Spec {
    torus_pow_naf_prefix(g, 63)
}

/// A compressed representative of a cyclotomic element of Fq12.
#[derive(Clone, Copy, Debug)]
pub struct TorusWrapper {
    pub encoding: Fq6,
}

impl TorusWrapper {
    pub open spec fn wf(&self) -> bool {
        self.encoding.wf()
    }

    pub fn new(encoding: Fq6) -> (r: TorusWrapper)
        ensures
            r.encoding == encoding,
    {
        TorusWrapper { encoding }
    }

    /// `g = (1 + c0) / c1`; an element with `c1 == 0` (only `-1` among
    /// cyclotomic elements) is sent to zero.
    pub fn compress(f: &Fq12) -> (r: TorusWrapper)
        requires
            f.wf(),
        ensures
            r.wf(),
            r.encoding@ == torus_compress_spec(f@),
    {
        let num = Fq6::one().add(&f.c0);
        proof {
            reveal(torus_compress_spec);
        }
        TorusWrapper { encoding: num.mul(&f.c1.inverse()) }
    }

    /// `(g + w) / (g - w)`.
    pub fn decompress(&self) -> (r: Fq12)
        requires
            self.wf(),
        ensures
            r.wf(),
            r@ == torus_decompress_spec(self.encoding@),
    {
        let one = Fq6::one();
        let numerator = Fq12 { c0: self.encoding, c1: one };
        let denominator = Fq12 { c0: self.encoding, c1: one.neg() };
        proof {
            reveal(torus_decompress_spec);
        }
        numerator.mul(&denominator.inverse())
    }

    /// Inverse, which is also the conjugate: `-g`.
    pub fn conjugate(&self) -> (r: TorusWrapper)
        requires
            self.wf(),
        ensures
            r.wf(),
            r.encoding@ == torus_conj_spec(self.encoding@),
    {
        TorusWrapper { encoding: self.encoding.neg() }
    }

    pub fn inverse(&self) -> (r: TorusWrapper)
        requires
            self.wf(),
        ensures
            r.wf(),
            r.encoding@ == torus_conj_spec(self.encoding@),
    {
        self.conjugate()
    }

    /// `(g * h + gamma) / (g + h)`; zero when `g + h == 0`.
    pub fn mul(&self, other: &TorusWrapper) -> (r: TorusWrapper)
        requires
            self.wf(),
            other.wf(),
        ensures
            r.wf(),
            r.encoding@ == torus_mul_spec(self.encoding@, other.encoding@),
    {
        let gamma = Fq6 { c0: Fq2::zero(), c1: Fq2::one(), c2: Fq2::zero() };
        let num = self.encoding.mul(&other.encoding).add(&gamma);
        let den = self.encoding.add(&other.encoding);
        proof {
            reveal(torus_mul_spec);
        }
        TorusWrapper { encoding: num.mul(&den.inverse()) }
    }

    /// `(g + gamma / g) / 2`; zero for zero.
    pub fn square(&self) -> (r: TorusWrapper)
        requires
            self.wf(),
        ensures
            r.wf(),
            r.encoding@ == torus_square_spec(self.encoding@),
    {
        let gamma = Fq6 { c0: Fq2::zero(), c1: Fq2::one(), c2: Fq2::zero() };
        let half = Fq::from_u64(2).inverse();
        let half6 = Fq6 { c0: Fq2 { c0: half, c1: Fq::zero() }, c1: Fq2::zero(), c2: Fq2::zero() };
        let sum = self.encoding.add(&gamma.mul(&self.encoding.inverse()));
        proof {
            reveal(torus_square_spec);
        }
        TorusWrapper { encoding: sum.mul(&half6) }
    }

    /// The `p^power` Frobenius map.
    pub fn frobenius_map(&self, power: usize) -> (r: TorusWrapper)
        requires
            self.wf(),
        ensures
            r.wf(),
            r.encoding@ == torus_frobenius_spec(self.encoding@, power as nat),
    {
        let f = self.encoding.frobenius_map(power);
        let ci = frobenius_coeff_fq12_c1_raw(power % 12).inverse();
        proof {
            reveal(torus_frobenius_spec);
        }
        TorusWrapper { encoding: Fq6 { c0: f.c0.mul(&ci), c1: f.c1.mul(&ci), c2: f.c2.mul(&ci) } }
    }

    /// `g^u` by the signed digits of `u`.
    pub fn pow_naf_decomposition(&self) -> (r: TorusWrapper)
        requires
            self.wf(),
        ensures
            r.wf(),
            r.encoding@ == torus_pow_u_spec(self.encoding@),
    {
        let inverse = self.conjugate();
        let mut result = *self;
        let mut k: usize = 1;
        while k < 63
            invariant
                1 <= k <= 63,
                self.wf(),
                inverse.wf(),
                inverse.encoding@ == torus_conj_spec(self.encoding@),
                result.wf(),
                result.encoding@ == torus_pow_naf_prefix(self.encoding@, k as int),
            decreases 63 - k,
        {
            result = result.square();
            let d = u_wnaf_digit(k);
            if d == 1 {
                result = result.mul(self);
            } else if d == -1 {
                result = result.mul(&inverse);
            }
            k = k + 1;
        }
        result
    }
}

} // verus!
