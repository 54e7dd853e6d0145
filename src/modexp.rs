//! Modular exponentiation on 2048-bit integers, with the semantics of the
//! EIP-198 precompile: left-to-right square and multiply over the bits of
//! the exponent, computing both branches at every bit.
use crypto_bigint::U2048;
use vstd::arithmetic::div_mod::{
    lemma_div_denominator, lemma_fundamental_div_mod, lemma_mul_mod_noop, lemma_mul_mod_noop_left,
};
use vstd::arithmetic::power::{lemma_pow1, lemma_pow_adds, pow};
use vstd::arithmetic::power2::{lemma2_to64, lemma_pow2_pos, lemma_pow2_unfold, pow2};
use vstd::bits::lemma_u64_shr_is_div;
use vstd::prelude::*;

verus! {

pub const U2048_MAX_LIMBS: usize = 32;

pub const U2048_MAX_BITS: usize = 2048;

/// Value of the little-endian 64-bit limbs `s[i..]`.
pub open spec fn limbs_from(s: Seq<u64>, i: int) -> int
    decreases s.len() - i,
{
    if i < 0 || i >= s.len() {
        0
    } else {
        s[i] + 0x1_0000_0000_0000_0000int * limbs_from(s, i + 1)
    }
}

pub proof fn lemma_limbs_from_nonneg(s: Seq<u64>, i: int)
    ensures
        limbs_from(s, i) >= 0,
    decreases s.len() - i,
{
    if !(i < 0 || i >= s.len()) {
        lemma_limbs_from_nonneg(s, i + 1);
    }
}

/// An unsigned integer of 2048 bits, in 32 little-endian 64-bit limbs.
#[derive(Clone, Copy, Debug)]
pub struct UInt2048 {
    pub limbs: [u64; 32],
}

impl View for UInt2048 {
    type V = int;

    open spec fn view(&self) -> int {
        limbs_from(self.limbs@, 0)
    }
}

/// Relies on crypto_bigint's `Uint::mul_wide`: the full product, as low and
/// high halves.
#[verifier::external_body]
fn mul_wide_raw(a: &[u64; 32], b: &[u64; 32]) -> (r: ([u64; 32], [u64; 32]))
    ensures
        limbs_from(r.0@, 0) + limbs_from(r.1@, 0) * pow2(2048) == limbs_from(a@, 0) * limbs_from(
            b@,
            0,
        ),
{
    let (lo, hi) = U2048::from_words(*a).mul_wide(&U2048::from_words(*b));
    (lo.to_words(), hi.to_words())
}

/// Relies on crypto_bigint's `Uint::const_rem_wide`: the remainder of a
/// double-width value by a nonzero modulus.
#[verifier::external_body]
fn rem_wide_raw(lo: &[u64; 32], hi: &[u64; 32], m: &[u64; 32]) -> (r: [u64; 32])
    requires
        limbs_from(m@, 0) > 0,
    ensures
        limbs_from(r@, 0) == (limbs_from(lo@, 0) + limbs_from(hi@, 0) * pow2(2048)) % limbs_from(
            m@,
            0,
        ),
{
    let pair = (U2048::from_words(*lo), U2048::from_words(*hi));
    U2048::const_rem_wide(pair, &U2048::from_words(*m)).0.to_words()
}

impl UInt2048 {
    pub fn zero() -> (r: UInt2048)
        ensures
            r@ == 0,
    {
        let r = UInt2048 { limbs: [0u64; 32] };
        proof {
            lemma_zero_limbs(r.limbs@, 0);
        }
        r
    }

    pub fn one() -> (r: UInt2048)
        ensures
            r@ == 1,
    {
        let mut limbs = [0u64; 32];
        limbs[0] = 1;
        proof {
            lemma_zero_limbs(limbs@, 1);
        }
        UInt2048 { limbs }
    }

    /// `self * other mod modulus`, reducing the full 4096-bit product.
    pub fn modmul(&self, other: &UInt2048, modulus: &UInt2048) -> (r: UInt2048)
        requires
            modulus@ > 0,
        ensures
            r@ == (self@ * other@) % modulus@,
            r@ < modulus@,
    {
        let (lo, hi) = mul_wide_raw(&self.limbs, &other.limbs);
        UInt2048 { limbs: rem_wide_raw(&lo, &hi, &modulus.limbs) }
    }
}

proof fn lemma_zero_limbs(s: Seq<u64>, i: int)
    requires
        0 <= i,
        forall|k: int| i <= k < s.len() ==> s[k] == 0,
    ensures
        limbs_from(s, i) == 0,
    decreases s.len() - i,
{
    if i < s.len() {
        lemma_zero_limbs(s, i + 1);
    }
}

/// One square-and-multiply step on residues of powers of `b`.
proof fn lemma_square_step(a: int, b: int, n: nat, m: int)
    requires
        m > 0,
        a % m == pow(b, n) % m,
    ensures
        (a * a) % m == pow(b, 2 * n) % m,
        (((a * a) % m) * b) % m == pow(b, 2 * n + 1) % m,
{
    lemma_mul_mod_noop(a, a, m);
    lemma_mul_mod_noop(pow(b, n), pow(b, n), m);
    lemma_pow_adds(b, n, n);
    assert(n + n == 2 * n);
    lemma_mul_mod_noop_left(pow(b, 2 * n), b, m);
    lemma_mul_mod_noop_left(a * a, b, m);
    lemma_pow_adds(b, 2 * n, 1);
    lemma_pow1(b);
}

/// The exponent bits read so far, when limbs above `i` are done and limb
/// `i - 1` is read down to bit `j`.
pub open spec fn prefix_exponent(e: Seq<u64>, i: int, limb: u64, j: nat) -> int {
    limbs_from(e, i) * pow2((64 - j) as nat) + limb as int / pow2(j) as int
}

proof fn lemma_next_bit(e: Seq<u64>, i: int, limb: u64, j: nat)
    requires
        1 <= j <= 64,
        0 <= i,
    ensures
        prefix_exponent(e, i, limb, (j - 1) as nat) == 2 * prefix_exponent(e, i, limb, j) + (limb as int
            / pow2((j - 1) as nat) as int) % 2,
{
    let h = limbs_from(e, i);
    let y = limb as int / pow2((j - 1) as nat) as int;
    lemma_pow2_unfold((65 - j) as nat);
    lemma_pow2_unfold(j);
    lemma_pow2_pos((j - 1) as nat);
    lemma_pow2_pos((64 - j) as nat);
    lemma_div_denominator(limb as int, pow2((j - 1) as nat) as int, 2);
    lemma_fundamental_div_mod(y, 2);
    assert(h * (2 * pow2((64 - j) as nat)) == 2 * (h * pow2((64 - j) as nat))) by (nonlinear_arith);
    assert(pow2((j - 1) as nat) * 2 == pow2(j));
}

proof fn lemma_limb_done(e: Seq<u64>, i: int, limb: u64)
    requires
        1 <= i <= e.len(),
        limb == e[i - 1],
    ensures
        prefix_exponent(e, i, limb, 0) == limbs_from(e, i - 1),
{
    lemma2_to64();
    let h = limbs_from(e, i);
    assert(pow2(0) == 1);
    assert(limb as int / pow2(0) as int == limb as int);
    assert(prefix_exponent(e, i, limb, 0) == h * 0x1_0000_0000_0000_0000int + limb);
    assert(limbs_from(e, i - 1) == e[i - 1] + 0x1_0000_0000_0000_0000int * h);
}

proof fn lemma_limb_start(e: Seq<u64>, i: int, limb: u64)
    ensures
        prefix_exponent(e, i, limb, 64) == limbs_from(e, i),
{
    lemma2_to64();
    let h = limbs_from(e, i);
    assert(limb as int / 0x1_0000_0000_0000_0000int == 0);
    assert(prefix_exponent(e, i, limb, 64) == h * 1 + 0);
}

/// `base^exponent mod modulus` for a nonzero modulus.
pub fn modexp_256_bytes(base: &UInt2048, exponent: &UInt2048, modulus: &UInt2048) -> (r: UInt2048)
    requires
        modulus@ > 0,
    ensures
        r@ == pow(base@, exponent@ as nat) % modulus@,
        r@ < modulus@,
{
    let ghost e = exponent.limbs@;
    let ghost b = base@;
    let ghost m = modulus@;
    let mut a = UInt2048::one();
    let mut i: usize = 32;
    proof {
        lemma_limbs_from_nonneg(e, 32);
        assert(limbs_from(e, 32) == 0);
        vstd::arithmetic::power::lemma_pow0(b);
    }
    while i > 0
        invariant
            i <= 32,
            e == exponent.limbs@,
            b == base@,
            m == modulus@,
            m > 0,
            a@ % m == pow(b, limbs_from(e, i as int) as nat) % m,
            i < 32 ==> a@ < m,
            i == 32 ==> a@ == 1,
        decreases i,
    {
        let limb = exponent.limbs[i - 1];
        let mut j: usize = 64;
        proof {
            lemma_limb_start(e, i as int, limb);
            lemma_limbs_from_nonneg(e, i as int);
        }
        while j > 0
            invariant
                1 <= i <= 32,
                j <= 64,
                e == exponent.limbs@,
                b == base@,
                m == modulus@,
                m > 0,
                limb == e[i - 1],
                prefix_exponent(e, i as int, limb, j as nat) >= 0,
                a@ % m == pow(b, prefix_exponent(e, i as int, limb, j as nat) as nat) % m,
                (i < 32 || j < 64) ==> a@ < m,
                (i == 32 && j == 64) ==> a@ == 1,
            decreases j,
        {
            let bit = (limb >> ((j - 1) as u64)) & 1;
            // a <- a^2 mod modulus; a <- a^2 * base mod modulus; keep one by the bit
            let a_squared = a.modmul(&a, modulus);
            let a_base = a_squared.modmul(base, modulus);
            proof {
                let n = prefix_exponent(e, i as int, limb, j as nat);
                lemma_square_step(a@, b, n as nat, m);
                lemma_next_bit(e, i as int, limb, j as nat);
                lemma_u64_shr_is_div(limb, (j - 1) as u64);
                let s = limb >> ((j - 1) as u64);
                assert(s & 1 == s % 2) by (bit_vector);
                vstd::arithmetic::div_mod::lemma_mod_twice(a@ * a@, m);
                vstd::arithmetic::div_mod::lemma_mod_twice(a_squared@ * b, m);
                let n1 = prefix_exponent(e, i as int, limb, (j - 1) as nat);
                if bit == 1 {
                    assert(n1 == 2 * n + 1);
                } else {
                    assert(n1 == 2 * n);
                }
            }
            a = if bit == 1 {
                a_base
            } else {
                a_squared
            };
            j = j - 1;
        }
        proof {
            lemma_limb_done(e, i as int, limb);
        }
        i = i - 1;
    }
    proof {
        lemma_limbs_from_nonneg(a.limbs@, 0);
        vstd::arithmetic::div_mod::lemma_small_mod(a@ as nat, m as nat);
    }
    a
}

} // verus!

verus! {

/// With a zero exponent the result is one, reduced by the modulus: `1` for
/// every modulus above one, `0` for the modulus one.
pub proof fn lemma_zero_exponent(b: int, m: int)
    requires
        m > 0,
    ensures
        pow(b, 0) % m == 1int % m,
        m > 1 ==> pow(b, 0) % m == 1,
{
    vstd::arithmetic::power::lemma_pow0(b);
    if m > 1 {
        vstd::arithmetic::div_mod::lemma_small_mod(1, m as nat);
    }
}

} // verus!
