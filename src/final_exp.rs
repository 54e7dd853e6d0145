//! Final exponentiation of the pairing: `f^((p^12 - 1) / r)`, split into the
//! easy part `f^((p^6 - 1)(p^2 + 1))` and a hard part computed by one of
//! several addition chains in the curve parameter `u`.
use crate::field::{
    fq12_conj, fq12_frobenius, fq12_inv, fq12_mul, fq12_pow, fq12_square, Fq12, Fq12Spec,
};
use crate::fq12::{
    fq12_pow_wide,
};
use crate::torus::{
    torus_compress_spec, torus_conj_spec, torus_decompress_spec, torus_frobenius_spec,
    torus_mul_spec, torus_pow_u_spec, torus_square_spec, TorusWrapper,
};
use vstd::prelude::*;

verus! {

/// The BN curve parameter `u`.
pub const CURVE_U_PARAMETER: u64 = 4965661367192848881;

pub open spec fn curve_u() -> nat {
    4965661367192848881
}

pub open spec fn frob(a: Fq12Spec, k: nat) -> Fq12Spec {
    fq12_frobenius(a, k)
}

pub open spec fn pow_u(a: Fq12Spec) -> Fq12Spec {
    fq12_pow(a, curve_u())
}

/// The easy part: `f^(p^6 - 1)` as `conj(f) / f`, then `g^(p^2 + 1)` as
/// `frob(g, 2) * g`.
#[verifier::opaque]
pub open spec fn easy_part_spec(f: Fq12Spec) -> Fq12Spec {
    let r = fq12_mul(fq12_conj(f), fq12_inv(f));
    fq12_mul(frob(r, 2), r)
}

/// The hard part by the classical chain of Scott et al., with powers
/// `f^u, f^(u^2), f^(u^3)` and their Frobenius twists.
#[verifier::opaque]
pub open spec fn hard_part_classical_spec(r: Fq12Spec) -> Fq12Spec {
    let fp = frob(r, 1);
    let fp2 = frob(r, 2);
    let fp3 = frob(fp2, 1);
    let fu = pow_u(r);
    let fu2 = pow_u(fu);
    let fu3 = pow_u(fu2);
    let y3 = frob(fu, 1);
    let fu2p = frob(fu2, 1);
    let fu3p = frob(fu3, 1);
    let y2 = frob(fu2, 2);
    let y0 = fq12_mul(fq12_mul(fp, fp2), fp3);
    let y1 = fq12_conj(r);
    let y5 = fq12_conj(fu2);
    let y3 = fq12_conj(y3);
    let y4 = fq12_conj(fq12_mul(fu, fu2p));
    let y6 = fq12_square(fq12_conj(fq12_mul(fu3, fu3p)));
    let y6 = fq12_mul(fq12_mul(y6, y4), y5);
    let t1 = fq12_mul(fq12_mul(y3, y5), y6);
    let y6 = fq12_mul(y6, y2);
    let t1 = fq12_mul(fq12_square(t1), y6);
    let t1 = fq12_square(t1);
    let t0 = fq12_mul(t1, y1);
    let t1 = fq12_mul(t1, y0);
    fq12_mul(fq12_square(t0), t1)
}

/// The hard part by the chain of Fuentes-Castaneda, Knapp and
/// Rodriguez-Henriquez, which computes `f^(m * (p^4 - p^2 + 1) / r)` for
/// `m = 2u(6u^2 + 3u + 1)`, followed by the power `m^-1 mod r` (in 64-bit
/// limbs) that brings it back to the canonical value on the cyclotomic
/// subgroup.
pub open spec fn hard_part_fuentes_castaneda_spec(f: Fq12Spec) -> Fq12Spec {
    fq12_pow_wide(
        fuentes_castaneda_chain_spec(f),
        [0xb8ca0b2d36636f22, 0xcc37a73fec2bc5e9, 0x048b6e193fd84104, 0x30644e72e131a029],
    )
}

/// The addition chain of Fuentes-Castaneda, Knapp and Rodriguez-Henriquez.
#[verifier::opaque]
pub open spec fn fuentes_castaneda_chain_spec(f: Fq12Spec) -> Fq12Spec {
    let a = fq12_square(pow_u(f));
    let b = fq12_mul(fq12_square(a), a);
    let t = pow_u(b);
    let f = fq12_mul(f, frob(fq12_conj(f), 3));
    let f = fq12_mul(f, t);
    let b = fq12_mul(b, t);
    let t = pow_u(fq12_square(t));
    let b = fq12_mul(b, t);
    let t = fq12_mul(b, fq12_conj(a));
    let f = fq12_mul(f, frob(t, 3));
    let f = fq12_mul(f, frob(t, 1));
    let f = fq12_mul(f, b);
    fq12_mul(f, frob(b, 2))
}

/// The hard part by the chain of Devegili, Scott and Dahab.
#[verifier::opaque]
pub open spec fn hard_part_devegili_spec(f: Fq12Spec) -> Fq12Spec {
    let a = pow_u(f);
    let b = fq12_square(a);
    let f2 = fq12_square(f);
    let a = fq12_mul(b, f2);
    let a = fq12_mul(fq12_mul(fq12_square(a), b), f);
    let a = fq12_conj(a);
    let b = fq12_mul(a, frob(a, 1));
    let a = fq12_mul(a, b);
    let t0 = frob(f, 1);
    let t1 = fq12_mul(t0, f);
    let t1 = fq12_mul(fq12_square(fq12_square(fq12_square(t1))), t1);
    let a = fq12_mul(t1, a);
    let t1 = fq12_square(f2);
    let a = fq12_mul(a, t1);
    let t0 = fq12_square(t0);
    let b = fq12_mul(b, t0);
    let t0 = frob(f, 2);
    let b = fq12_mul(b, t0);
    let t0 = pow_u(b);
    let t1 = fq12_square(t0);
    let t0 = fq12_mul(fq12_square(t1), t1);
    let t0 = pow_u(t0);
    let t0 = fq12_mul(t0, b);
    let a = fq12_mul(t0, a);
    fq12_mul(frob(f, 3), a)
}

/// The classical chain carried out on torus representatives: compress,
/// run the chain with the torus group law, decompress.
#[verifier::opaque]
pub open spec fn hard_part_torus_spec(r: Fq12Spec) -> Fq12Spec {
    let torus = torus_compress_spec(r);
    let fp = torus_frobenius_spec(torus, 1);
    let fp2 = torus_frobenius_spec(torus, 2);
    let fp3 = torus_frobenius_spec(fp2, 1);
    let fu = torus_pow_u_spec(torus);
    let fu2 = torus_pow_u_spec(fu);
    let fu3 = torus_pow_u_spec(fu2);
    let y3 = torus_frobenius_spec(fu, 1);
    let fu2p = torus_frobenius_spec(fu2, 1);
    let fu3p = torus_frobenius_spec(fu3, 1);
    let y2 = torus_frobenius_spec(fu2, 2);
    let y0 = torus_mul_spec(torus_mul_spec(fp, fp2), fp3);
    let y1 = torus_conj_spec(torus);
    let y5 = torus_conj_spec(fu2);
    let y3 = torus_conj_spec(y3);
    let y4 = torus_conj_spec(torus_mul_spec(fu, fu2p));
    let y6 = torus_square_spec(torus_conj_spec(torus_mul_spec(fu3, fu3p)));
    let y6 = torus_mul_spec(torus_mul_spec(y6, y4), y5);
    let t1 = torus_mul_spec(torus_mul_spec(y3, y5), y6);
    let y6 = torus_mul_spec(y6, y2);
    let t1 = torus_mul_spec(torus_square_spec(t1), y6);
    let t1 = torus_square_spec(t1);
    let t0 = torus_mul_spec(t1, y1);
    let t1 = torus_mul_spec(t1, y0);
    torus_decompress_spec(torus_mul_spec(torus_square_spec(t0), t1))
}

/// The hard-part algorithms on offer; on the output of the easy part all give
/// the same value.
#[derive(Clone, Copy, Debug, PartialEq, Eq)]
pub enum FinalExpMethod {
    ClassicalNoTorus,
    ClassicalWithTorus,
    FuentesCastanedaNoTorus,
    DevegiliNoTorus,
}

/// The value of a pairing after final exponentiation.
pub struct FinalExpEvaluation {
    pub resultant_f: Fq12,
}

/// The final exponentiation by the chosen method: the easy part, then the
/// hard part.
pub open spec fn final_exp_spec(f: Fq12Spec, method: FinalExpMethod) -> Fq12Spec {
    let easy = easy_part_spec(f);
    match method {
        FinalExpMethod::ClassicalNoTorus => hard_part_classical_spec(easy),
        FinalExpMethod::ClassicalWithTorus => hard_part_torus_spec(easy),
        FinalExpMethod::FuentesCastanedaNoTorus => hard_part_fuentes_castaneda_spec(easy),
        FinalExpMethod::DevegiliNoTorus => hard_part_devegili_spec(easy),
    }
}

impl FinalExpEvaluation {
    /// `r^((p^6 - 1)(p^2 + 1))`, which lands in the cyclotomic subgroup.
    pub fn easy_part(r: &Fq12) -> (res: Fq12)
        requires
            r.wf(),
        ensures
            res.wf(),
            res@ == easy_part_spec(r@),
    {
        // 1-4. f <- conj(r) * r^-1
        let f1 = r.conjugate();
        let f2 = r.inverse();
        let f = f1.mul(&f2);
        // 5-6. f <- frob(f, 2) * f
        let res = f.frobenius_map(2).mul(&f);
        proof {
            reveal(easy_part_spec);
        }
        res
    }

    pub fn hard_part_classical_no_torus(r: &Fq12) -> (res: Fq12)
        requires
            r.wf(),
        ensures
            res.wf(),
            res@ == hard_part_classical_spec(r@),
    {
        let u = CURVE_U_PARAMETER;
        // 7-9. fpk <- f^(p^k), k = 1, 2, 3
        let fp = r.frobenius_map(1);
        let fp2 = r.frobenius_map(2);
        let fp3 = fp2.frobenius_map(1);
        // 10-12. fuk <- f^(u^k), k = 1, 2, 3
        let fu = r.pow_u64(u);
        let fu2 = fu.pow_u64(u);
        let fu3 = fu2.pow_u64(u);
        // 13-16. y3 <- fu^p; fu2p <- fu2^p; fu3p <- fu3^p; y2 <- fu2^(p^2)
        let y3 = fu.frobenius_map(1);
        let fu2p = fu2.frobenius_map(1);
        let fu3p = fu3.frobenius_map(1);
        let y2 = fu2.frobenius_map(2);
        // 17-19. y0 <- fp * fp2 * fp3; y1 <- conj(r); y5 <- conj(fu2)
        let y0 = fp.mul(&fp2).mul(&fp3);
        let y1 = r.conjugate();
        let y5 = fu2.conjugate();
        // 20-22. y3 <- conj(y3); y4 <- conj(fu * fu2p)
        let y3 = y3.conjugate();
        let y4 = fu.mul(&fu2p).conjugate();
        // 23-25. y6 <- conj(fu3 * fu3p)^2
        let y6 = fu3.mul(&fu3p).conjugate().square();
        // 26-28. y6 <- y6 * y4 * y5; t1 <- y3 * y5
        let y6 = y6.mul(&y4).mul(&y5);
        let t1 = y3.mul(&y5);
        // 29-32. t1 <- t1 * y6; y6 <- y6 * y2; t1 <- t1^2 * y6
        let t1 = t1.mul(&y6);
        let y6 = y6.mul(&y2);
        let t1 = t1.square().mul(&y6);
        // 33-35. t1 <- t1^2; t0 <- t1 * y1; t1 <- t1 * y0
        let t1 = t1.square();
        let t0 = t1.mul(&y1);
        let t1 = t1.mul(&y0);
        // 36-37. t0 <- t0^2 * t1
        let res = t0.square().mul(&t1);
        proof {
            reveal(hard_part_classical_spec);
        }
        res
    }

    pub fn hard_part_fuentes_castaneda_no_torus(f: &Fq12) -> (res: Fq12)
        requires
            f.wf(),
        ensures
            res.wf(),
            res@ == hard_part_fuentes_castaneda_spec(f@),
    {
        let u = CURVE_U_PARAMETER;
        // 1-3. a <- (f^u)^2; b <- a^2
        let a = f.pow_u64(u).square();
        let b = a.square();
        // 4-5. b <- b * a; t <- b^u
        let b = b.mul(&a);
        let t = b.pow_u64(u);
        // 6. f <- f * frob(conj(f), 3)
        let g = f.mul(&f.conjugate().frobenius_map(3));
        // 7-9. g <- g * t; b <- b * t; t <- t^2
        let g = g.mul(&t);
        let b = b.mul(&t);
        let t = t.square();
        // 10-12. t <- t^u; b <- b * t; t <- b * conj(a)
        let t = t.pow_u64(u);
        let b = b.mul(&t);
        let t = b.mul(&a.conjugate());
        // 13-14. g <- g * frob(t, 3) * frob(t, 1)
        let g = g.mul(&t.frobenius_map(3));
        let g = g.mul(&t.frobenius_map(1));
        // 15-16. g <- g * b * frob(b, 2)
        let g = g.mul(&b);
        let chain = g.mul(&b.frobenius_map(2));
        proof {
            reveal(fuentes_castaneda_chain_spec);
        }
        // 17. undo the extra factor m of the exponent
        let correction: [u64; 4] = [
            0xb8ca0b2d36636f22,
            0xcc37a73fec2bc5e9,
            0x048b6e193fd84104,
            0x30644e72e131a029,
        ];
        chain.pow_wide(&correction)
    }

    pub fn hard_part_devegili_no_torus(f: &Fq12) -> (res: Fq12)
        requires
            f.wf(),
        ensures
            res.wf(),
            res@ == hard_part_devegili_spec(f@),
    {
        let u = CURVE_U_PARAMETER;
        // 1-3. a <- f^u; b <- a^2; a <- b * f^2
        let a = f.pow_u64(u);
        let b = a.square();
        let f2 = f.square();
        let a = b.mul(&f2);
        // 4-6. a <- a^2 * b * f
        let a = a.square().mul(&b).mul(f);
        // 7-9. a <- conj(a); b <- a * frob(a)
        let a = a.conjugate();
        let b = a.mul(&a.frobenius_map(1));
        // 10-12. a <- a * b; t0 <- frob(f); t1 <- t0 * f
        let a = a.mul(&b);
        let t0 = f.frobenius_map(1);
        let t1 = t0.mul(f);
        // 13. t1 <- t1^9
        let t1 = t1.square().square().square().mul(&t1);
        // 14-16. a <- t1 * a; t1 <- f^4; a <- a * t1
        let a = t1.mul(&a);
        let t1 = f2.square();
        let a = a.mul(&t1);
        // 17-19. t0 <- t0^2; b <- b * t0; t0 <- frob(f, 2)
        let t0 = t0.square();
        let b = b.mul(&t0);
        let t0 = f.frobenius_map(2);
        // 20-22. b <- b * t0; t0 <- b^u; t1 <- t0^2
        let b = b.mul(&t0);
        let t0 = b.pow_u64(u);
        let t1 = t0.square();
        // 23-25. t0 <- (t1^2 * t1)^u
        let t0 = t1.square().mul(&t1);
        let t0 = t0.pow_u64(u);
        // 26-27. t0 <- t0 * b; a <- t0 * a
        let t0 = t0.mul(&b);
        let a = t0.mul(&a);
        // 28-29. result <- frob(f, 3) * a
        let res = f.frobenius_map(3).mul(&a);
        proof {
            reveal(hard_part_devegili_spec);
        }
        res
    }

    /// The classical chain on torus representatives of the easy part's
    /// output.
    pub fn hard_part_with_torus(r: &Fq12) -> (res: Fq12)
        requires
            r.wf(),
        ensures
            res.wf(),
            res@ == hard_part_torus_spec(r@),
    {
        let torus = TorusWrapper::compress(r);
        // 7-9. fpk <- f^(p^k), k = 1, 2, 3
        let fp = torus.frobenius_map(1);
        let fp2 = torus.frobenius_map(2);
        let fp3 = fp2.frobenius_map(1);
        // 10-12. fuk <- f^(u^k), k = 1, 2, 3
        let fu = torus.pow_naf_decomposition();
        let fu2 = fu.pow_naf_decomposition();
        let fu3 = fu2.pow_naf_decomposition();
        // 13-16. y3 <- fu^p; fu2p <- fu2^p; fu3p <- fu3^p; y2 <- fu2^(p^2)
        let y3 = fu.frobenius_map(1);
        let fu2p = fu2.frobenius_map(1);
        let fu3p = fu3.frobenius_map(1);
        let y2 = fu2.frobenius_map(2);
        // 17-19. y0 <- fp * fp2 * fp3; y1 <- conj(r); y5 <- conj(fu2)
        let y0 = fp.mul(&fp2).mul(&fp3);
        let y1 = torus.conjugate();
        let y5 = fu2.conjugate();
        // 20-22. y3 <- conj(y3); y4 <- conj(fu * fu2p)
        let y3 = y3.conjugate();
        let y4 = fu.mul(&fu2p).conjugate();
        // 23-25. y6 <- conj(fu3 * fu3p)^2
        let y6 = fu3.mul(&fu3p).conjugate().square();
        // 26-28. y6 <- y6 * y4 * y5; t1 <- y3 * y5
        let y6 = y6.mul(&y4).mul(&y5);
        let t1 = y3.mul(&y5);
        // 29-32. t1 <- t1 * y6; y6 <- y6 * y2; t1 <- t1^2 * y6
        let t1 = t1.mul(&y6);
        let y6 = y6.mul(&y2);
        let t1 = t1.square().mul(&y6);
        // 33-35. t1 <- t1^2; t0 <- t1 * y1; t1 <- t1 * y0
        let t1 = t1.square();
        let t0 = t1.mul(&y1);
        let t1 = t1.mul(&y0);
        // 36-37. t0 <- t0^2 * t1, back in Fq12
        let res = t0.square().mul(&t1).decompress();
        proof {
            reveal(hard_part_torus_spec);
        }
        res
    }

    /// Easy part, then the hard part by `method`.
    pub fn evaluate(r: &Fq12, method: FinalExpMethod) -> (res: FinalExpEvaluation)
        requires
            r.wf(),
        ensures
            res.resultant_f.wf(),
            res.resultant_f@ == final_exp_spec(r@, method),
    {
        let easy = Self::easy_part(r);
        let hard = match method {
            FinalExpMethod::ClassicalNoTorus => Self::hard_part_classical_no_torus(&easy),
            FinalExpMethod::ClassicalWithTorus => Self::hard_part_with_torus(&easy),
            FinalExpMethod::FuentesCastanedaNoTorus => Self::hard_part_fuentes_castaneda_no_torus(
                &easy,
            ),
            FinalExpMethod::DevegiliNoTorus => Self::hard_part_devegili_no_torus(&easy),
        };
        FinalExpEvaluation { resultant_f: hard }
    }

    /// The final exponentiation with the classical chain in Fq12.
    pub fn evaluate_without_torus(r: &Fq12) -> (res: FinalExpEvaluation)
        requires
            r.wf(),
        ensures
            res.resultant_f.wf(),
            res.resultant_f@ == final_exp_spec(r@, FinalExpMethod::ClassicalNoTorus),
    {
        Self::evaluate(r, FinalExpMethod::ClassicalNoTorus)
    }

    /// The final exponentiation with the classical chain on the torus.
    pub fn evaluate_torus(r: &Fq12) -> (res: FinalExpEvaluation)
        requires
            r.wf(),
        ensures
            res.resultant_f.wf(),
            res.resultant_f@ == final_exp_spec(r@, FinalExpMethod::ClassicalWithTorus),
    {
        Self::evaluate(r, FinalExpMethod::ClassicalWithTorus)
    }

    /// The value after the final exponentiation.
    pub fn get(&self) -> (r: Fq12)
        ensures
            r == self.resultant_f,
    {
        self.resultant_f
    }
}

} // verus!
