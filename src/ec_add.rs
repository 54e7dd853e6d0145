//! The group law of the base curve `y^2 = x^3 + 3` over Fq, the input
//! checks of the point-addition precompile and the precompile itself.
use crate::field::{fadd, fmul, fq_inv, fsub, limbs_value, p, Fq};
use vstd::prelude::*;

verus! {

/// A 256-bit machine word as the precompile reads it, not yet known to be
/// a field element.
#[derive(Clone, Copy, Debug)]
pub struct U256 {
    pub limbs: [u64; 4],
}

impl View for U256 {
    type V = int;

    open spec fn view(&self) -> int {
        limbs_value(self.limbs)
    }
}

/// A point of the base curve in affine form, with an explicit flag for the
/// point at infinity (whose coordinates are then `(0, 0)`).
pub struct AffineSpec {
    pub x: int,
    pub y: int,
    pub infinity: bool,
}

pub open spec fn affine_infinity() -> AffineSpec {
    AffineSpec { x: 0, y: 0, infinity: true }
}

/// `y^2 == x^3 + 3`.
pub open spec fn on_curve(x: int, y: int) -> bool {
    fmul(y, y) == fadd(fmul(fmul(x, x), x), 3)
}

pub open spec fn fdiv(a: int, b: int) -> int {
    fmul(a, fq_inv(b))
}

/// The chord-and-tangent point with slope `l` through `(x1, y1)` and `x2`.
pub open spec fn chord_point(l: int, x1: int, y1: int, x2: int) -> AffineSpec {
    let x3 = fsub(fsub(fmul(l, l), x1), x2);
    AffineSpec { x: x3, y: fsub(fmul(l, fsub(x1, x3)), y1), infinity: false }
}

/// `2P` for a finite point `P`.
pub open spec fn g1_double(a: AffineSpec) -> AffineSpec {
    if a.y == 0 {
        affine_infinity()
    } else {
        chord_point(fdiv(fmul(3, fmul(a.x, a.x)), fadd(a.y, a.y)), a.x, a.y, a.x)
    }
}

/// `-P`.
pub open spec fn g1_neg(a: AffineSpec) -> AffineSpec {
    if a.infinity {
        a
    } else {
        AffineSpec { x: a.x, y: (0 - a.y) % p(), infinity: false }
    }
}

/// `P + Q` by the affine group law.
#[verifier::opaque]
pub open spec fn g1_add(a: AffineSpec, b: AffineSpec) -> AffineSpec {
    if a.infinity {
        b
    } else if b.infinity {
        a
    } else if a.x == b.x {
        if fadd(a.y, b.y) == 0 {
            affine_infinity()
        } else {
            g1_double(a)
        }
    } else {
        chord_point(fdiv(fsub(b.y, a.y), fsub(b.x, a.x)), a.x, a.y, b.x)
    }
}

pub open spec fn finite(x: int, y: int) -> AffineSpec {
    AffineSpec { x, y, infinity: false }
}

/// The point with slope `l` through `(x1, y1)` and abscissa `x2`.
fn chord_point_exec(l: &Fq, x1: &Fq, y1: &Fq, x2: &Fq) -> (r: (Fq, Fq))
    requires
        l.wf() && x1.wf() && y1.wf() && x2.wf(),
    ensures
        r.0.wf() && r.1.wf(),
        r.0@ == chord_point(l@, x1@, y1@, x2@).x,
        r.1@ == chord_point(l@, x1@, y1@, x2@).y,
{
    let x3 = l.mul(l).sub(x1).sub(x2);
    let y3 = l.mul(&x1.sub(&x3)).sub(y1);
    (x3, y3)
}

/// The group law on two finite points: the chord for distinct `x`, the
/// tangent for equal points, infinity (with zero coordinates) for opposite
/// points.
pub(crate) fn g1_add_finite(x1: &Fq, y1: &Fq, x2: &Fq, y2: &Fq) -> (r: (Fq, Fq, bool))
    requires
        x1.wf() && y1.wf() && x2.wf() && y2.wf(),
    ensures
        r.0.wf() && r.1.wf(),
        r.2 == g1_add(finite(x1@, y1@), finite(x2@, y2@)).infinity,
        r.0@ == g1_add(finite(x1@, y1@), finite(x2@, y2@)).x,
        r.1@ == g1_add(finite(x1@, y1@), finite(x2@, y2@)).y,
{
    proof {
        reveal(g1_add);
    }
    let zero = Fq::zero();
    if x1.equals(x2) {
        if y1.add(y2).is_zero() || y1.is_zero() {
            (zero, zero, true)
        } else {
            // tangent: l = 3 x^2 / 2y
            let xx = x1.mul(x1);
            let l = Fq::from_u64(3).mul(&xx).mul(&y1.add(y1).inverse());
            let (x, y) = chord_point_exec(&l, x1, y1, x1);
            (x, y, false)
        }
    } else {
        // chord: l = (y2 - y1) / (x2 - x1)
        let l = y2.sub(y1).mul(&x2.sub(x1).inverse());
        let (x, y) = chord_point_exec(&l, x1, y1, x2);
        (x, y, false)
    }
}

/// Whether a word is a canonical field element, i.e. below the characteristic.
pub fn lt_modulus(a: &U256) -> (r: bool)
    ensures
        r == (a@ < p()),
{
    let m: [u64; 4] = [
        0x3c208c16d87cfd47,
        0x97816a916871ca8d,
        0xb85045b68181585d,
        0x30644e72e131a029,
    ];
    let l = a.limbs;
    if l[3] != m[3] {
        l[3] < m[3]
    } else if l[2] != m[2] {
        l[2] < m[2]
    } else if l[1] != m[1] {
        l[1] < m[1]
    } else {
        l[0] < m[0]
    }
}

/// A word kept if it is a field element, else zero.
pub open spec fn masked_value(x: int) -> int {
    if x < p() {
        x
    } else {
        0
    }
}

/// Checks that each word is a field element; a word that is not is replaced
/// by zero, and its entry in the result is `true`.
pub fn validate_in_field(values: &mut Vec<U256>) -> (exceptions: Vec<bool>)
    ensures
        final(values)@.len() == old(values)@.len(),
        exceptions@.len() == old(values)@.len(),
        forall|i: int|
            0 <= i < old(values)@.len() ==> exceptions@[i] == (old(values)@[i]@ >= p()),
        forall|i: int|
            0 <= i < old(values)@.len() ==> final(values)@[i]@ == masked_value(old(values)@[i]@),
{
    let ghost orig = values@;
    let mut exceptions: Vec<bool> = Vec::new();
    let mut i: usize = 0;
    while i < values.len()
        invariant
            i <= values@.len(),
            values@.len() == orig.len(),
            orig == old(values)@,
            exceptions@.len() == i,
            forall|j: int| i <= j < values@.len() ==> values@[j] == orig[j],
            forall|j: int| 0 <= j < i ==> exceptions@[j] == (orig[j]@ >= p()),
            forall|j: int| 0 <= j < i ==> values@[j]@ == masked_value(orig[j]@),
        decreases values@.len() - i,
    {
        let ghost before = values@;
        let ghost ex_before = exceptions@;
        let in_range = lt_modulus(&values[i]);
        if !in_range {
            let z = U256 { limbs: [0, 0, 0, 0] };
            assert(z@ == 0);
            values.set(i, z);
        }
        exceptions.push(!in_range);
        assert(forall|j: int| 0 <= j < i ==> values@[j] == before[j]);
        assert(forall|j: int| 0 <= j < i ==> exceptions@[j] == ex_before[j]);
        assert(values@[i as int]@ == masked_value(orig[i as int]@));
        i = i + 1;
    }
    exceptions
}

/// Whether `(x, y)` satisfies the curve equation `y^2 = x^3 + 3`.
pub fn is_on_curve(x: &Fq, y: &Fq) -> (r: bool)
    requires
        x.wf(),
        y.wf(),
    ensures
        r == on_curve(x@, y@),
{
    let three = Fq::from_u64(3);
    let x_cubed_plus_three = x.mul(x).mul(x).add(&three);
    let y_squared = y.mul(y);
    y_squared.equals(&x_cubed_plus_three)
}

/// Whether an input point stands for the point at infinity: either of its
/// coordinates is zero.
pub fn is_affine_infinity(x: &U256, y: &U256) -> (r: bool)
    ensures
        r == (x@ == 0 || y@ == 0),
{
    let fx = Fq { limbs: x.limbs };
    let fy = Fq { limbs: y.limbs };
    fx.is_zero() || fy.is_zero()
}

/// The point that an input pair stands for, once its words are known to
/// be field elements.
pub open spec fn input_point(x: int, y: int) -> AffineSpec {
    if x == 0 || y == 0 {
        affine_infinity()
    } else {
        finite(x, y)
    }
}

/// Whether an input pair is acceptable: both words in the field, and the
/// point at infinity or a point of the curve.
pub open spec fn input_is_valid(x: int, y: int) -> bool {
    &&& x < p()
    &&& y < p()
    &&& (x == 0 || y == 0 || on_curve(x, y))
}

/// What the addition precompile returns: a success flag and the affine sum,
/// `(0, 0)` for the point at infinity and on failure.
pub open spec fn ec_add_spec(x1: int, y1: int, x2: int, y2: int) -> (bool, int, int) {
    if input_is_valid(x1, y1) && input_is_valid(x2, y2) {
        let s = g1_add(input_point(x1, y1), input_point(x2, y2));
        if s.infinity {
            (true, 0, 0)
        } else {
            (true, s.x, s.y)
        }
    } else {
        (false, 0, 0)
    }
}

/// The point-addition precompile on four input words.
pub fn ec_add(x1: &U256, y1: &U256, x2: &U256, y2: &U256) -> (r: (bool, U256, U256))
    ensures
        (r.0, r.1@, r.2@) == ec_add_spec(x1@, y1@, x2@, y2@),
{
    proof {
        reveal(g1_add);
    }
    let zero = U256 { limbs: [0, 0, 0, 0] };
    let mut words: Vec<U256> = vec![*x1, *y1, *x2, *y2];
    let exceptions = validate_in_field(&mut words);
    if exceptions[0] || exceptions[1] || exceptions[2] || exceptions[3] {
        return (false, zero, zero);
    }
    let ax = Fq { limbs: x1.limbs };
    let ay = Fq { limbs: y1.limbs };
    let bx = Fq { limbs: x2.limbs };
    let by = Fq { limbs: y2.limbs };
    let a_inf = is_affine_infinity(x1, y1);
    let b_inf = is_affine_infinity(x2, y2);
    if (!a_inf && !is_on_curve(&ax, &ay)) || (!b_inf && !is_on_curve(&bx, &by)) {
        return (false, zero, zero);
    }
    if a_inf && b_inf {
        (true, zero, zero)
    } else if a_inf {
        (true, *x2, *y2)
    } else if b_inf {
        (true, *x1, *y1)
    } else {
        let (x, y, inf) = g1_add_finite(&ax, &ay, &bx, &by);
        if inf {
            (true, zero, zero)
        } else {
            (true, U256 { limbs: x.limbs }, U256 { limbs: y.limbs })
        }
    }
}

/// Adding a point to itself is doubling it.
pub proof fn lemma_add_self_is_double(x: int, y: int)
    requires
        0 <= x < p(),
        0 < y < p(),
    ensures
        g1_add(finite(x, y), finite(x, y)) == g1_double(finite(x, y)),
{
    reveal(g1_add);
    assert(fadd(y, y) != 0);
}

/// A point plus its negation is the point at infinity.
pub proof fn lemma_add_negation_is_infinity(x: int, y: int)
    requires
        0 <= x < p(),
        0 <= y < p(),
    ensures
        g1_add(finite(x, y), g1_neg(finite(x, y))).infinity,
{
    reveal(g1_add);
    let ny = (0 - y) % p();
    if y == 0 {
        assert(ny == 0);
    } else {
        assert(ny == p() - y);
    }
    assert(fadd(y, ny) == 0);
}

/// The point at infinity is neutral on either side.
pub proof fn lemma_add_infinity(a: AffineSpec)
    ensures
        g1_add(a, affine_infinity()) == (if a.infinity {
            affine_infinity()
        } else {
            a
        }),
        g1_add(affine_infinity(), a) == a,
{
    reveal(g1_add);
}

} // verus!
