//! The Miller loop of the optimal-ate pairing on BN254 (Aranha et al.,
//! "Faster explicit formulas for computing pairings over ordinary curves",
//! Algorithm 1), with the Frobenius twists of `Q` for the closing steps.
use crate::curve::{g2_is_normalized, g2_neg, G1Projective, G2Projective, G2Spec};
use crate::field::{
    fq12_mul, fq12_one, fq12_square, fq2_conj, fq2_mul, fq2_pow, frobenius_coeff_fq6_c1,
    frobenius_coeff_fq6_c1_raw, p, xi, xi_to_q_minus_1_over_2_raw, Fq12, Fq12Spec,
};
use crate::line::{
    addition_step_spec, doubling_step_spec, line_value, LineFunctionEvaluation,
};
use vstd::prelude::*;

verus! {

/// The digits of `6u + 2` in non-adjacent form, least significant first,
/// for the curve parameter `u = 4965661367192848881`.
pub open spec fn six_u_plus_two_naf() -> Seq<int> {
    seq![
        0, 0, 0, 1, 0, 1, 0, -1, 0, 0, 1, -1, 0, 0, 1, 0, 0, 1, 1, 0, -1, 0, 0, 1, 0, -1, 0, 0, 0,
        0, 1, 1, 1, 0, 0, -1, 0, 0, 1, 0, 0, 0, 0, 0, -1, 0, 0, 1, 1, 0, 0, -1, 0, 0, 0, 1, 1, 0,
        -1, 0, 0, 1, 0, 1, 1,
    ]
}

fn naf_digit(i: usize) -> (r: i8)
    requires
        i < 65,
    ensures
        r as int == six_u_plus_two_naf()[i as int],
{
    let digits: [i8; 65] = [
        0, 0, 0, 1, 0, 1, 0, -1, 0, 0, 1, -1, 0, 0, 1, 0, 0, 1, 1, 0, -1, 0, 0, 1, 0, -1, 0, 0, 0,
        0, 1, 1, 1, 0, 0, -1, 0, 0, 1, 0, 0, 0, 0, 0, -1, 0, 0, 1, 1, 0, 0, -1, 0, 0, 0, 1, 1, 0,
        -1, 0, 0, 1, 0, 1, 1,
    ];
    digits[i]
}

/// The accumulator and the moving point of the Miller loop.
pub struct MillerState {
    pub f: Fq12Spec,
    pub t: G2Spec,
}

/// The iteration of the main loop at digit position `i` (from 64 down to 1):
/// square (but on the first iteration), double `T` and fold in the tangent,
/// then for a digit `+1` or `-1` add `Q` or `-Q` and fold in that line.
pub open spec fn miller_step(s: MillerState, i: int, q: G2Spec, xp: int, yp: int) -> MillerState {
    let f0 = if i == 64 {
        s.f
    } else {
        fq12_square(s.f)
    };
    let d = doubling_step_spec(s.t, xp, yp);
    let f1 = fq12_mul(f0, line_value(d));
    let digit = six_u_plus_two_naf()[i - 1];
    if digit == 1 {
        let a = addition_step_spec(q, d.point, xp, yp);
        MillerState { f: fq12_mul(f1, line_value(a)), t: a.point }
    } else if digit == -1 {
        let a = addition_step_spec(g2_neg(q), d.point, xp, yp);
        MillerState { f: fq12_mul(f1, line_value(a)), t: a.point }
    } else {
        MillerState { f: f1, t: d.point }
    }
}

/// The state after the iterations at positions 64 down to `k`.
pub open spec fn miller_prefix(q: G2Spec, xp: int, yp: int, k: int) -> MillerState
    decreases 65 - k,
{
    if k >= 65 {
        MillerState { f: fq12_one(), t: q }
    } else {
        miller_step(miller_prefix(q, xp, yp, k + 1), k, q, xp, yp)
    }
}

/// `pi(Q)`: the Frobenius of `Q` carried back to the twist.
pub open spec fn frobenius_point_1(q: G2Spec) -> G2Spec {
    G2Spec {
        x: fq2_mul(fq2_conj(q.x), frobenius_coeff_fq6_c1(1)),
        y: fq2_mul(fq2_conj(q.y), fq2_pow(xi(), ((p() - 1) / 2) as nat)),
        z: q.z,
    }
}

/// `-pi^2(Q)` on the twist.
pub open spec fn frobenius_point_2(q: G2Spec) -> G2Spec {
    G2Spec { x: fq2_mul(q.x, frobenius_coeff_fq6_c1(2)), y: q.y, z: q.z }
}

/// The Miller loop value: the main loop followed by the two addition steps
/// with `pi(Q)` and `-pi^2(Q)`.
pub open spec fn miller_loop_spec(q: G2Spec, xp: int, yp: int) -> Fq12Spec {
    let s = miller_prefix(q, xp, yp, 1);
    let a1 = addition_step_spec(frobenius_point_1(q), s.t, xp, yp);
    let f1 = fq12_mul(s.f, line_value(a1));
    let a2 = addition_step_spec(frobenius_point_2(q), a1.point, xp, yp);
    fq12_mul(f1, line_value(a2))
}

/// The accumulated value of the Miller loop, before final exponentiation.
pub struct MillerLoopEvaluation {
    pub accumulated_f: Fq12,
}

impl MillerLoopEvaluation {
    pub fn get_accumulated_f(&self) -> (r: Fq12)
        ensures
            r == self.accumulated_f,
    {
        self.accumulated_f
    }

    fn mul_f12_by_line_fn(f: &Fq12, line: &LineFunctionEvaluation) -> (r: Fq12)
        requires
            f.wf(),
            line.wf(),
        ensures
            r.wf(),
            r@ == fq12_mul(f@, line_value(line@)),
    {
        f.mul_by_c0c3c4(&line.c0, &line.c3, &line.c4)
    }

    /// One iteration of the main loop, at digit position `i`.
    fn iteration(
        f: &Fq12,
        t: &G2Projective,
        i: usize,
        q: &G2Projective,
        q_negated: &G2Projective,
        p: &G1Projective,
    ) -> (r: (Fq12, G2Projective))
        requires
            1 <= i <= 64,
            f.wf(),
            t.wf(),
            q.wf(),
            p.wf(),
            q_negated.wf(),
            q_negated@ == g2_neg(q@),
        ensures
            r.0.wf(),
            r.1.wf(),
            r.0@ == miller_step(MillerState { f: f@, t: t@ }, i as int, q@, p.x@, p.y@).f,
            r.1@ == miller_step(MillerState { f: f@, t: t@ }, i as int, q@, p.x@, p.y@).t,
    {
        let mut f = *f;
        if i != 64 {
            f = f.square();
        }
        let doubling = LineFunctionEvaluation::doubling_step(t, p);
        f = Self::mul_f12_by_line_fn(&f, &doubling);
        let mut t = doubling.point;
        let digit = naf_digit(i - 1);
        if digit == 1 {
            let addition = LineFunctionEvaluation::addition_step(q, &t, p);
            f = Self::mul_f12_by_line_fn(&f, &addition);
            t = addition.point;
        } else if digit == -1 {
            let addition = LineFunctionEvaluation::addition_step(q_negated, &t, p);
            f = Self::mul_f12_by_line_fn(&f, &addition);
            t = addition.point;
        }
        (f, t)
    }

    /// Runs the Miller loop on `p` and `q`; `q` must be normalized (`z == 1`).
    pub fn evaluate(p: &G1Projective, q: &G2Projective) -> (r: MillerLoopEvaluation)
        requires
            p.wf(),
            q.wf(),
            g2_is_normalized(q@),
        ensures
            r.accumulated_f.wf(),
            r.accumulated_f@ == miller_loop_spec(q@, p.x@, p.y@),
    {
        let mut t = *q;
        let mut f = Fq12::one();
        let q_negated = q.negated();
        let mut i: usize = 64;
        while i > 0
            invariant
                i <= 64,
                p.wf(),
                q.wf(),
                t.wf(),
                f.wf(),
                q_negated.wf(),
                q_negated@ == g2_neg(q@),
                f@ == miller_prefix(q@, p.x@, p.y@, i + 1).f,
                t@ == miller_prefix(q@, p.x@, p.y@, i + 1).t,
            decreases i,
        {
            let (f1, t1) = Self::iteration(&f, &t, i, q, &q_negated, p);
            f = f1;
            t = t1;
            i = i - 1;
        }
        // Q1 = pi(Q), Q2 = -pi^2(Q)
        let q1_mul_factor = frobenius_coeff_fq6_c1_raw(1);
        let q2_mul_factor = frobenius_coeff_fq6_c1_raw(2);
        let xi_to_q_minus_1_over_2 = xi_to_q_minus_1_over_2_raw();
        let q1 = G2Projective {
            x: q.x.conjugate().mul(&q1_mul_factor),
            y: q.y.conjugate().mul(&xi_to_q_minus_1_over_2),
            z: q.z,
        };
        let q2 = G2Projective { x: q.x.mul(&q2_mul_factor), y: q.y, z: q.z };
        let addition = LineFunctionEvaluation::addition_step(&q1, &t, p);
        f = Self::mul_f12_by_line_fn(&f, &addition);
        t = addition.point;
        let addition = LineFunctionEvaluation::addition_step(&q2, &t, p);
        f = Self::mul_f12_by_line_fn(&f, &addition);
        MillerLoopEvaluation { accumulated_f: f }
    }
}

} // verus!

verus! {

/// Value of signed digits, least significant first, from position `i` on.
pub open spec fn signed_digits_value(d: Seq<int>, i: int) -> int
    decreases d.len() - i,
{
    if i < 0 || i >= d.len() {
        0
    } else {
        d[i] + 2 * signed_digits_value(d, i + 1)
    }
}

/// The digits of the loop encode `6u + 2`.
pub proof fn lemma_six_u_plus_two_naf()
    ensures
        signed_digits_value(six_u_plus_two_naf(), 0) == 6 * 4965661367192848881 + 2,
{
    reveal_with_fuel(signed_digits_value, 66);
}

} // verus!
