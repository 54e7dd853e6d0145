//! Points of BN254 over the base field (G1) and of its sextic twist over
//! Fq2 (G2), in projective coordinates.
use crate::field::{
    fadd, fneg, fq2, fq2_add, fq2_inv, fq2_is_wf, fq2_mul, fq2_neg, fq2_one, fq2_sub, fq2_zero, p,
    Fq, Fq2, Fq2Spec,
};
use vstd::prelude::*;

verus! {

/// A point of the twisted curve in the model.
pub struct G2Spec {
    pub x: Fq2Spec,
    pub y: Fq2Spec,
    pub z: Fq2Spec,
}

/// A point of the base curve in the model.
pub struct G1Spec {
    pub x: int,
    pub y: int,
    pub z: int,
}

pub open spec fn g2_neg(q: G2Spec) -> G2Spec {
    G2Spec { x: q.x, y: fq2_neg(q.y), z: q.z }
}

/// `(x, y, z)` with `z == 1`: the form the pairing takes its second input in.
pub open spec fn g2_is_normalized(q: G2Spec) -> bool {
    q.z == fq2_one()
}

/// A projective point of the base curve `y^2 = x^3 + 3`.
#[derive(Clone, Copy, Debug)]
pub struct G1Projective {
    pub x: Fq,
    pub y: Fq,
    pub z: Fq,
}

/// A projective point of the twisted curve over Fq2.
#[derive(Clone, Copy, Debug)]
pub struct G2Projective {
    pub x: Fq2,
    pub y: Fq2,
    pub z: Fq2,
}

impl View for G1Projective {
    type V = G1Spec;

    open spec fn view(&self) -> G1Spec {
        G1Spec { x: self.x@, y: self.y@, z: self.z@ }
    }
}

impl View for G2Projective {
    type V = G2Spec;

    open spec fn view(&self) -> G2Spec {
        G2Spec { x: self.x@, y: self.y@, z: self.z@ }
    }
}

impl G1Projective {
    pub open spec fn wf(&self) -> bool {
        self.x.wf() && self.y.wf() && self.z.wf()
    }

    /// The projective point `(x, y, 1)`, with no check that it is on the curve.
    pub fn from_xy_unchecked(x: Fq, y: Fq) -> (r: G1Projective)
        ensures
            r.x == x && r.y == y,
            r.z@ == 1,
            r.z.wf(),
    {
        G1Projective { x, y, z: Fq::one() }
    }
}

impl G2Projective {
    pub open spec fn wf(&self) -> bool {
        self.x.wf() && self.y.wf() && self.z.wf()
    }

    /// The projective point `(x, y, 1)`, with no check that it is on the curve.
    pub fn from_xy_unchecked(x: Fq2, y: Fq2) -> (r: G2Projective)
        ensures
            r.x == x && r.y == y,
            r.z.wf(),
            g2_is_normalized(r@),
    {
        G2Projective { x, y, z: Fq2::one() }
    }

    /// The point at infinity `(0, 1, 0)` in the model.
    pub open spec fn zero_spec() -> G2Spec {
        G2Spec { x: fq2(0, 0), y: fq2(1, 0), z: fq2(0, 0) }
    }

    /// The point at infinity `(0, 1, 0)`.
    pub fn zero() -> (r: G2Projective)
        ensures
            r.wf(),
            r@ == Self::zero_spec(),
    {
        G2Projective { x: Fq2::zero(), y: Fq2::one(), z: Fq2::zero() }
    }

    pub fn negated(&self) -> (r: G2Projective)
        requires
            self.wf(),
        ensures
            r.wf(),
            r@ == g2_neg(self@),
    {
        G2Projective { x: self.x, y: self.y.neg(), z: self.z }
    }

    /// Whether `z == 1`.
    pub fn is_normalized(&self) -> (r: bool)
        ensures
            r == g2_is_normalized(self@),
    {
        let one = Fq2::one();
        self.z.equals(&one)
    }
}

/// Affine coordinates `(X / Z^2, Y / Z^3)` of a Jacobian point with `Z != 0`.
pub open spec fn g2_jacobian_to_affine(q: G2Spec) -> (Fq2Spec, Fq2Spec) {
    let zi = fq2_inv(q.z);
    let zi2 = fq2_mul(zi, zi);
    (fq2_mul(q.x, zi2), fq2_mul(q.y, fq2_mul(zi2, zi)))
}

impl G2Projective {
    /// The affine coordinates of a Jacobian point, or `default` together
    /// with `true` for the point at infinity (`Z == 0`), where no division
    /// takes place.
    pub fn convert_to_affine_or_default(&self, default: (Fq2, Fq2)) -> (r: ((Fq2, Fq2), bool))
        requires
            self.wf(),
        ensures
            r.1 == (self.z@ == fq2_zero()),
            r.1 ==> r.0 == default,
            !r.1 ==> (r.0.0@, r.0.1@) == g2_jacobian_to_affine(self@),
    {
        if self.z.is_zero() {
            (default, true)
        } else {
            let zi = self.z.inverse();
            let zi2 = zi.square();
            ((self.x.mul(&zi2), self.y.mul(&zi2.mul(&zi))), false)
        }
    }
}

/// A point of the twisted curve in affine form, with a flag for the point at
/// infinity (whose coordinates are then zero).
pub struct G2AffineSpec {
    pub x: Fq2Spec,
    pub y: Fq2Spec,
    pub infinity: bool,
}

pub open spec fn g2_affine_infinity() -> G2AffineSpec {
    G2AffineSpec { x: fq2_zero(), y: fq2_zero(), infinity: true }
}

pub open spec fn fq2_div(a: Fq2Spec, b: Fq2Spec) -> Fq2Spec {
    fq2_mul(a, fq2_inv(b))
}

/// The chord-and-tangent point with slope `l` through `(x1, y1)` and `x2`.
pub open spec fn g2_chord_point(l: Fq2Spec, x1: Fq2Spec, y1: Fq2Spec, x2: Fq2Spec) -> G2AffineSpec {
    let x3 = fq2_sub(fq2_sub(fq2_mul(l, l), x1), x2);
    G2AffineSpec { x: x3, y: fq2_sub(fq2_mul(l, fq2_sub(x1, x3)), y1), infinity: false }
}

/// `2P` by the tangent line, for a finite point `P`.
pub open spec fn g2_double(a: G2AffineSpec) -> G2AffineSpec {
    if a.y == fq2_zero() {
        g2_affine_infinity()
    } else {
        let xx = fq2_mul(a.x, a.x);
        g2_chord_point(fq2_div(fq2_add(fq2_add(xx, xx), xx), fq2_add(a.y, a.y)), a.x, a.y, a.x)
    }
}

/// `-P`.
pub open spec fn g2_affine_neg(a: G2AffineSpec) -> G2AffineSpec {
    if a.infinity {
        a
    } else {
        G2AffineSpec { x: a.x, y: fq2_neg(a.y), infinity: false }
    }
}

/// `P + Q` by the affine group law on the twist.
pub open spec fn g2_add(a: G2AffineSpec, b: G2AffineSpec) -> G2AffineSpec {
    if a.infinity {
        b
    } else if b.infinity {
        a
    } else if a.x == b.x {
        if fq2_add(a.y, b.y) == fq2_zero() {
            g2_affine_infinity()
        } else {
            g2_double(a)
        }
    } else {
        g2_chord_point(fq2_div(fq2_sub(b.y, a.y), fq2_sub(b.x, a.x)), a.x, a.y, b.x)
    }
}

/// A point of the twisted curve in affine form.
#[derive(Clone, Copy, Debug)]
pub struct G2Affine {
    pub x: Fq2,
    pub y: Fq2,
    pub infinity: bool,
}

impl View for G2Affine {
    type V = G2AffineSpec;

    open spec fn view(&self) -> G2AffineSpec {
        G2AffineSpec { x: self.x@, y: self.y@, infinity: self.infinity }
    }
}

impl G2Affine {
    pub open spec fn wf(&self) -> bool {
        self.x.wf() && self.y.wf() && (self.infinity ==> self.x@ == fq2_zero() && self.y@
            == fq2_zero())
    }

    pub fn infinity() -> (r: G2Affine)
        ensures
            r.wf(),
            r@ == g2_affine_infinity(),
    {
        G2Affine { x: Fq2::zero(), y: Fq2::zero(), infinity: true }
    }

    fn chord_point(l: &Fq2, x1: &Fq2, y1: &Fq2, x2: &Fq2) -> (r: G2Affine)
        requires
            l.wf() && x1.wf() && y1.wf() && x2.wf(),
        ensures
            r.wf(),
            r@ == g2_chord_point(l@, x1@, y1@, x2@),
    {
        let x3 = l.square().sub(x1).sub(x2);
        let y3 = l.mul(&x1.sub(&x3)).sub(y1);
        G2Affine { x: x3, y: y3, infinity: false }
    }

    /// `2P` by the tangent line; never by the chord formula, which is
    /// singular on equal points.
    pub fn double(&self) -> (r: G2Affine)
        requires
            self.wf(),
            !self.infinity,
        ensures
            r.wf(),
            r@ == g2_double(self@),
    {
        if self.y.is_zero() {
            G2Affine::infinity()
        } else {
            let xx = self.x.square();
            let l = xx.add(&xx).add(&xx).div(&self.y.add(&self.y));
            G2Affine::chord_point(&l, &self.x, &self.y, &self.x)
        }
    }

    pub fn negated(&self) -> (r: G2Affine)
        requires
            self.wf(),
        ensures
            r.wf(),
            r@ == g2_affine_neg(self@),
    {
        if self.infinity {
            *self
        } else {
            G2Affine { x: self.x, y: self.y.neg(), infinity: false }
        }
    }

    /// `P + Q` by the group law: the chord for distinct `x`, the tangent for
    /// equal points, infinity for opposite points.
    pub fn add(&self, other: &G2Affine) -> (r: G2Affine)
        requires
            self.wf(),
            other.wf(),
        ensures
            r.wf(),
            r@ == g2_add(self@, other@),
    {
        if self.infinity {
            *other
        } else if other.infinity {
            *self
        } else if self.x.equals(&other.x) {
            if self.y.add(&other.y).is_zero() {
                G2Affine::infinity()
            } else {
                self.double()
            }
        } else {
            let l = other.y.sub(&self.y).div(&other.x.sub(&self.x));
            G2Affine::chord_point(&l, &self.x, &self.y, &other.x)
        }
    }
}

/// Adding a finite point with `y != 0` to itself is doubling it.
pub proof fn lemma_g2_add_self_is_double(a: G2AffineSpec)
    requires
        !a.infinity,
        fq2_is_wf(a.y),
        a.y != fq2_zero(),
    ensures
        g2_add(a, a) == g2_double(a),
{
    assert(fadd(a.y.c0, a.y.c0) != 0 || fadd(a.y.c1, a.y.c1) != 0);
}

/// A point plus its negation is the point at infinity.
pub proof fn lemma_g2_add_negation_is_infinity(a: G2AffineSpec)
    requires
        !a.infinity,
        fq2_is_wf(a.y),
    ensures
        g2_add(a, g2_affine_neg(a)) == g2_affine_infinity(),
{
    let y = a.y;
    if y.c0 != 0 {
        assert(fneg(y.c0) == p() - y.c0);
    }
    if y.c1 != 0 {
        assert(fneg(y.c1) == p() - y.c1);
    }
    assert(fq2_add(y, fq2_neg(y)) == fq2_zero());
}

} // verus!
