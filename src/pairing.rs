//! The optimal-ate pairing `e(P, Q)` of a point of the base curve and a
//! point of the twist, and the pairing check of the precompile.
use crate::curve::{g2_is_normalized, G1Projective, G2Projective, G2Spec};
use crate::ec_add::{is_on_curve, lt_modulus, on_curve, U256};
use crate::field::{
    fq12_one, fq2, fq2_add, fq2_inv, fq2_mul, fq2_zero, p, xi, Fq, Fq12, Fq12Spec, Fq2, Fq2Spec,
};
use crate::final_exp::{final_exp_spec, FinalExpEvaluation, FinalExpMethod};
use crate::miller::{miller_loop_spec, MillerLoopEvaluation};
use vstd::prelude::*;

verus! {

/// `e(P, Q)`: the Miller loop followed by final exponentiation by `method`.
pub open spec fn pairing_spec(q: G2Spec, xp: int, yp: int, method: FinalExpMethod) -> Fq12Spec {
    final_exp_spec(miller_loop_spec(q, xp, yp), method)
}

/// The pairing, with the classical final exponentiation in Fq12. `q` must be
/// in normalized form (`z == 1`).
pub fn ec_pairing(p: &G1Projective, q: &G2Projective) -> (r: Fq12)
    requires
        p.wf(),
        q.wf(),
        g2_is_normalized(q@),
    ensures
        r.wf(),
        r@ == pairing_spec(q@, p.x@, p.y@, FinalExpMethod::ClassicalNoTorus),
{
    let miller_loop = MillerLoopEvaluation::evaluate(p, q);
    let final_exp = FinalExpEvaluation::evaluate_without_torus(&miller_loop.accumulated_f);
    final_exp.resultant_f
}

/// The pairing, with the hard part of the final exponentiation on torus
/// representatives. `q` must be in normalized form (`z == 1`).
pub fn ec_pairing_torus(p: &G1Projective, q: &G2Projective) -> (r: Fq12)
    requires
        p.wf(),
        q.wf(),
        g2_is_normalized(q@),
    ensures
        r.wf(),
        r@ == pairing_spec(q@, p.x@, p.y@, FinalExpMethod::ClassicalWithTorus),
{
    let miller_loop = MillerLoopEvaluation::evaluate(p, q);
    let final_exp = FinalExpEvaluation::evaluate_torus(&miller_loop.accumulated_f);
    final_exp.resultant_f
}

/// The twisted point with coordinates `x = x0 + x1 * u`, `y = y0 + y1 * u`
/// and `z = 1`.
pub open spec fn input_twisted_point(x0: int, x1: int, y0: int, y1: int) -> G2Spec {
    G2Spec {
        x: crate::field::fq2(x0, x1),
        y: crate::field::fq2(y0, y1),
        z: crate::field::fq2_one(),
    }
}

/// The constant `3 / xi` of the twisted curve `y^2 = x^3 + 3 / xi`.
pub open spec fn twist_b() -> Fq2Spec {
    fq2_mul(fq2(3, 0), fq2_inv(xi()))
}

pub open spec fn on_twist(x: Fq2Spec, y: Fq2Spec) -> bool {
    fq2_mul(y, y) == fq2_add(fq2_mul(fq2_mul(x, x), x), twist_b())
}

/// Whether `(x, y)` satisfies the twisted curve equation.
pub fn is_on_twist(x: &Fq2, y: &Fq2) -> (r: bool)
    requires
        x.wf(),
        y.wf(),
    ensures
        r == on_twist(x@, y@),
{
    let xi = Fq2::new(Fq::from_u64(9), Fq::one());
    let b = Fq2::new(Fq::from_u64(3), Fq::zero()).mul(&xi.inverse());
    let rhs = x.square().mul(x).add(&b);
    y.square().equals(&rhs)
}

/// The single-pair pairing check of the precompile. Every word must be a
/// field element and each point the point at infinity (a zero coordinate)
/// or a point of its curve; otherwise the check fails. A point at infinity
/// pairs to one.
pub open spec fn ecpairing_spec(
    p_x: int,
    p_y: int,
    q_x_c0: int,
    q_x_c1: int,
    q_y_c0: int,
    q_y_c1: int,
) -> (bool, bool) {
    let in_range = p_x < p() && p_y < p() && q_x_c0 < p() && q_x_c1 < p() && q_y_c0 < p()
        && q_y_c1 < p();
    let qx = fq2(q_x_c0, q_x_c1);
    let qy = fq2(q_y_c0, q_y_c1);
    let p_inf = p_x == 0 || p_y == 0;
    let q_inf = qx == fq2_zero() || qy == fq2_zero();
    if !in_range || !(p_inf || on_curve(p_x, p_y)) || !(q_inf || on_twist(qx, qy)) {
        (false, false)
    } else if p_inf || q_inf {
        (true, true)
    } else {
        (
            true,
            pairing_spec(
                input_twisted_point(q_x_c0, q_x_c1, q_y_c0, q_y_c1),
                p_x,
                p_y,
                FinalExpMethod::ClassicalNoTorus,
            ) == fq12_one(),
        )
    }
}

/// The pairing check of the precompile on six input words: a success flag
/// and whether the pairing of the two points is one.
pub fn ecpairing_precompile_inner(
    p_x: &U256,
    p_y: &U256,
    q_x_c0: &U256,
    q_x_c1: &U256,
    q_y_c0: &U256,
    q_y_c1: &U256,
) -> (r: (bool, bool))
    ensures
        r == ecpairing_spec(p_x@, p_y@, q_x_c0@, q_x_c1@, q_y_c0@, q_y_c1@),
{
    if !(lt_modulus(p_x) && lt_modulus(p_y) && lt_modulus(q_x_c0) && lt_modulus(q_x_c1)
        && lt_modulus(q_y_c0) && lt_modulus(q_y_c1)) {
        return (false, false);
    }
    let px = Fq { limbs: p_x.limbs };
    let py = Fq { limbs: p_y.limbs };
    let q_x = Fq2::new(Fq { limbs: q_x_c0.limbs }, Fq { limbs: q_x_c1.limbs });
    let q_y = Fq2::new(Fq { limbs: q_y_c0.limbs }, Fq { limbs: q_y_c1.limbs });
    let p_inf = px.is_zero() || py.is_zero();
    let q_inf = q_x.is_zero() || q_y.is_zero();
    if !(p_inf || is_on_curve(&px, &py)) || !(q_inf || is_on_twist(&q_x, &q_y)) {
        return (false, false);
    }
    if p_inf || q_inf {
        return (true, true);
    }
    let p = G1Projective::from_xy_unchecked(px, py);
    let q = G2Projective::from_xy_unchecked(q_x, q_y);
    let result = ec_pairing(&p, &q);
    let one = Fq12::one();
    (true, result.equals(&one))
}

} // verus!
