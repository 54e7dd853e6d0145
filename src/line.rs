//! Line functions of the Miller loop: the doubling and addition steps of
//! Aranha et al., "Faster explicit formulas for computing pairings over
//! ordinary curves" (Algorithms 26 and 27), for a point `Q` of the twisted
//! curve in Jacobian coordinates and a point `P` of the base curve.
use crate::curve::{G1Projective, G2Projective, G2Spec};
use crate::field::Fq;
use crate::field::{
    fq2_add, fq2_mul, fq2_neg, fq2_scale, fq2_sub, fq2_zero, fq12_from_c0c3c4, Fq12Spec, Fq2,
    Fq2Spec,
};
use vstd::prelude::*;

verus! {

/// The sparse line value `c0 + (c3 + c4 * v) * w` together with the point
/// that the step moved the accumulator to.
pub struct LineSpec {
    pub c0: Fq2Spec,
    pub c3: Fq2Spec,
    pub c4: Fq2Spec,
    pub point: G2Spec,
}

pub open spec fn fq2_double(a: Fq2Spec) -> Fq2Spec {
    fq2_add(a, a)
}

pub open spec fn fq2_square(a: Fq2Spec) -> Fq2Spec {
    fq2_mul(a, a)
}

/// The line value as an element of Fq12.
pub open spec fn line_value(l: LineSpec) -> Fq12Spec {
    fq12_from_c0c3c4(l.c0, l.c3, l.c4)
}

/// The doubling step: the tangent line at `Q` evaluated at `P = (xp, yp)`,
/// and `T = 2Q`.
#[verifier::opaque]
pub open spec fn doubling_step_spec(q: G2Spec, xp: int, yp: int) -> LineSpec {
    let tmp0 = fq2_square(q.x);
    let tmp1 = fq2_square(q.y);
    let tmp2 = fq2_square(tmp1);
    let tmp3 = fq2_double(fq2_sub(fq2_sub(fq2_square(fq2_add(tmp1, q.x)), tmp0), tmp2));
    let tmp4 = fq2_add(fq2_double(tmp0), tmp0);
    let tmp6 = fq2_add(q.x, tmp4);
    let tmp5 = fq2_square(tmp4);
    let x_t = fq2_sub(tmp5, fq2_double(tmp3));
    let z_q_square = fq2_square(q.z);
    let z_t = fq2_sub(fq2_sub(fq2_square(fq2_add(q.y, q.z)), tmp1), z_q_square);
    let y_t = fq2_sub(
        fq2_mul(fq2_sub(tmp3, x_t), tmp4),
        fq2_double(fq2_double(fq2_double(tmp2))),
    );
    let c3 = fq2_scale(fq2_neg(fq2_double(fq2_mul(tmp4, z_q_square))), xp);
    let c4 = fq2_sub(
        fq2_sub(fq2_sub(fq2_square(tmp6), tmp0), tmp5),
        fq2_double(fq2_double(tmp1)),
    );
    let c0 = fq2_scale(fq2_double(fq2_mul(z_t, z_q_square)), yp);
    LineSpec { c0, c3, c4, point: G2Spec { x: x_t, y: y_t, z: z_t } }
}

/// The addition step: the line through `Q` and `R` evaluated at
/// `P = (xp, yp)`, and `T = Q + R`; `Q` is taken in affine form.
#[verifier::opaque]
pub open spec fn addition_step_spec(q: G2Spec, r: G2Spec, xp: int, yp: int) -> LineSpec {
    let z_r_square = fq2_square(r.z);
    let y_q_square = fq2_square(q.y);
    let t0 = fq2_mul(q.x, z_r_square);
    let t1 = fq2_mul(
        fq2_sub(fq2_sub(fq2_square(fq2_add(q.y, r.z)), y_q_square), z_r_square),
        z_r_square,
    );
    let t2 = fq2_sub(t0, r.x);
    let t3 = fq2_square(t2);
    let t4 = fq2_double(fq2_double(t3));
    let t5 = fq2_mul(t4, t2);
    let y_r_2 = fq2_double(r.y);
    let t6 = fq2_sub(t1, y_r_2);
    let t9 = fq2_mul(t6, q.x);
    let t7 = fq2_mul(r.x, t4);
    let x_t = fq2_sub(fq2_sub(fq2_square(t6), t5), fq2_double(t7));
    let z_t = fq2_sub(fq2_sub(fq2_square(fq2_add(r.z, t2)), z_r_square), t3);
    let t10 = fq2_add(q.y, z_t);
    let t8 = fq2_mul(fq2_sub(t7, x_t), t6);
    let y_t = fq2_sub(t8, fq2_mul(y_r_2, t5));
    let t10 = fq2_sub(fq2_sub(fq2_square(t10), y_q_square), fq2_square(z_t));
    let c4 = fq2_sub(fq2_double(t9), t10);
    let c0 = fq2_double(fq2_scale(z_t, yp));
    let c3 = fq2_double(fq2_scale(fq2_neg(t6), xp));
    LineSpec { c0, c3, c4, point: G2Spec { x: x_t, y: y_t, z: z_t } }
}

/// One step of the Miller loop: a sparse line value and the moved point.
pub struct LineFunctionEvaluation {
    pub c0: Fq2,
    pub c3: Fq2,
    pub c4: Fq2,
    pub point: G2Projective,
}

impl View for LineFunctionEvaluation {
    type V = LineSpec;

    open spec fn view(&self) -> LineSpec {
        LineSpec { c0: self.c0@, c3: self.c3@, c4: self.c4@, point: self.point@ }
    }
}

impl LineFunctionEvaluation {
    pub open spec fn wf(&self) -> bool {
        self.c0.wf() && self.c3.wf() && self.c4.wf() && self.point.wf()
    }

    /// All coefficients zero, at the point at infinity.
    pub fn zero() -> (r: LineFunctionEvaluation)
        ensures
            r.wf(),
            r@.c0 == fq2_zero() && r@.c3 == fq2_zero() && r@.c4 == fq2_zero(),
            r@.point == G2Projective::zero_spec(),
    {
        LineFunctionEvaluation {
            c0: Fq2::zero(),
            c3: Fq2::zero(),
            c4: Fq2::zero(),
            point: G2Projective::zero(),
        }
    }

    /// The point that the step moved the accumulator to.
    pub fn point(&self) -> (r: G2Projective)
        ensures
            r@ == self@.point,
            r == self.point,
    {
        self.point
    }

    /// The coefficients `(c0, c3, c4)` of the line value.
    pub fn c0c3c4(&self) -> (r: (Fq2, Fq2, Fq2))
        ensures
            r.0@ == self@.c0 && r.1@ == self@.c3 && r.2@ == self@.c4,
            r.0 == self.c0 && r.1 == self.c3 && r.2 == self.c4,
    {
        (self.c0, self.c3, self.c4)
    }

    /// Tangent line at `q` evaluated at `p`, together with `2q`.
    pub fn doubling_step(q: &G2Projective, p: &G1Projective) -> (r: LineFunctionEvaluation)
        requires
            q.wf(),
            p.wf(),
        ensures
            r.wf(),
            r@ == doubling_step_spec(q@, p.x@, p.y@),
    {
        // 1-3. tmp0 <- X^2; tmp1 <- Y^2; tmp2 <- tmp1^2
        let tmp0 = q.x.square();
        let tmp1 = q.y.square();
        let tmp2 = tmp1.square();
        // 4-5. tmp3 <- 2 * ((tmp1 + X)^2 - tmp0 - tmp2)
        let tmp3 = tmp1.add(&q.x).square().sub(&tmp0).sub(&tmp2).double();
        // 6-7. tmp4 <- 3 * tmp0; tmp6 <- X + tmp4
        let tmp4 = tmp0.double().add(&tmp0);
        let tmp6 = q.x.add(&tmp4);
        // 8-9. tmp5 <- tmp4^2; X_T <- tmp5 - 2 * tmp3
        let tmp5 = tmp4.square();
        let x_t = tmp5.sub(&tmp3.double());
        // 10. Z_T <- (Y + Z)^2 - tmp1 - Z^2
        let z_q_square = q.z.square();
        let z_t = q.y.add(&q.z).square().sub(&tmp1).sub(&z_q_square);
        // 11. Y_T <- (tmp3 - X_T) * tmp4 - 8 * tmp2
        let y_t = tmp3.sub(&x_t).mul(&tmp4).sub(&tmp2.double().double().double());
        // 12-13. c3 <- -2 * tmp4 * Z^2 * xP
        let c3 = tmp4.mul(&z_q_square).double().neg().mul_by_fq(&p.x);
        // 14. c4 <- tmp6^2 - tmp0 - tmp5 - 4 * tmp1
        let c4 = tmp6.square().sub(&tmp0).sub(&tmp5).sub(&tmp1.double().double());
        // 15-16. c0 <- 2 * Z_T * Z^2 * yP
        let c0 = z_t.mul(&z_q_square).double().mul_by_fq(&p.y);
        proof {
            reveal(doubling_step_spec);
        }
        LineFunctionEvaluation { c0, c3, c4, point: G2Projective { x: x_t, y: y_t, z: z_t } }
    }

    /// Line through `q` and `r` evaluated at `p`, together with `q + r`;
    /// `q` is read in affine form.
    pub fn addition_step(q: &G2Projective, r: &G2Projective, p: &G1Projective) -> (res:
        LineFunctionEvaluation)
        requires
            q.wf(),
            r.wf(),
            p.wf(),
        ensures
            res.wf(),
            res@ == addition_step_spec(q@, r@, p.x@, p.y@),
    {
        let z_r_square = r.z.square();
        let y_q_square = q.y.square();
        // 1-3. t0 <- X_Q * Z_R^2; t1 <- ((Y_Q + Z_R)^2 - Y_Q^2 - Z_R^2) * Z_R^2
        let t0 = q.x.mul(&z_r_square);
        let t1 = q.y.add(&r.z).square().sub(&y_q_square).sub(&z_r_square).mul(&z_r_square);
        // 4-5. t2 <- t0 - X_R; t3 <- t2^2
        let t2 = t0.sub(&r.x);
        let t3 = t2.square();
        // 6-8. t4 <- 4 * t3; t5 <- t4 * t2; t6 <- t1 - 2 * Y_R
        let t4 = t3.double().double();
        let t5 = t4.mul(&t2);
        let y_r_2 = r.y.double();
        let t6 = t1.sub(&y_r_2);
        // 9-11. t9 <- t6 * X_Q; t7 <- X_R * t4; X_T <- t6^2 - t5 - 2 * t7
        let t9 = t6.mul(&q.x);
        let t7 = r.x.mul(&t4);
        let x_t = t6.square().sub(&t5).sub(&t7.double());
        // 12. Z_T <- (Z_R + t2)^2 - Z_R^2 - t3
        let z_t = r.z.add(&t2).square().sub(&z_r_square).sub(&t3);
        // 13-16. t10 <- Y_Q + Z_T; t8 <- (t7 - X_T) * t6; Y_T <- t8 - 2 * Y_R * t5
        let t10 = q.y.add(&z_t);
        let t8 = t7.sub(&x_t).mul(&t6);
        let y_t = t8.sub(&y_r_2.mul(&t5));
        // 17-18. t10 <- t10^2 - Y_Q^2 - Z_T^2; c4 <- 2 * t9 - t10
        let t10 = t10.square().sub(&y_q_square).sub(&z_t.square());
        let c4 = t9.double().sub(&t10);
        // 19-21. c0 <- 2 * Z_T * yP; c3 <- 2 * (-t6) * xP
        let c0 = z_t.mul_by_fq(&p.y).double();
        let c3 = t6.neg().mul_by_fq(&p.x).double();
        proof {
            reveal(addition_step_spec);
        }
        LineFunctionEvaluation { c0, c3, c4, point: G2Projective { x: x_t, y: y_t, z: z_t } }
    }
}

impl G2Projective {
    /// `2T` in Jacobian coordinates, by the point part of the doubling step.
    pub fn double(&self) -> (r: G2Projective)
        requires
            self.wf(),
        ensures
            r.wf(),
            r@ == doubling_step_spec(self@, 0, 0).point,
    {
        let origin = G1Projective { x: Fq::zero(), y: Fq::zero(), z: Fq::zero() };
        LineFunctionEvaluation::doubling_step(self, &origin).point
    }

    /// `T + Q` for `Q` in affine form (`z == 1`), in Jacobian coordinates, by
    /// the point part of the addition step.
    pub fn add_mixed(&self, q: &G2Projective) -> (r: G2Projective)
        requires
            self.wf(),
            q.wf(),
        ensures
            r.wf(),
            r@ == addition_step_spec(q@, self@, 0, 0).point,
    {
        let origin = G1Projective { x: Fq::zero(), y: Fq::zero(), z: Fq::zero() };
        LineFunctionEvaluation::addition_step(q, self, &origin).point
    }
}

/// The point that a step moves to does not depend on the point of the base
/// curve at which the line is evaluated.
pub proof fn lemma_step_points_ignore_base_point(q: G2Spec, r: G2Spec, xp: int, yp: int)
    ensures
        doubling_step_spec(q, xp, yp).point == doubling_step_spec(q, 0, 0).point,
        addition_step_spec(q, r, xp, yp).point == addition_step_spec(q, r, 0, 0).point,
{
    reveal(doubling_step_spec);
    reveal(addition_step_spec);
}

} // verus!
