use bn254_precompiles::modexp::{modexp_256_bytes, UInt2048};

fn small(v: u64) -> UInt2048 {
    let mut limbs = [0u64; 32];
    limbs[0] = v;
    UInt2048 { limbs }
}

fn from_be_hex(s: &str) -> UInt2048 {
    let s = s.trim_start_matches("0x");
    let mut limbs = [0u64; 32];
    let digits: Vec<u8> = s.bytes().rev().collect();
    for (i, chunk) in digits.chunks(16).enumerate() {
        let mut v = 0u64;
        for (j, d) in chunk.iter().enumerate() {
            let n = (*d as char).to_digit(16).unwrap() as u64;
            v |= n << (4 * j);
        }
        limbs[i] = v;
    }
    UInt2048 { limbs }
}

fn naive_modexp(b: u64, e: u64, m: u64) -> u64 {
    let mut r: u128 = 1 % m as u128;
    for _ in 0..e {
        r = r * b as u128 % m as u128;
    }
    r as u64
}

#[test]
fn test_modmul() {
    let r = small(3).modmul(&small(5), &small(7));
    assert_eq!(r.limbs, small(1).limbs);
    // 2^2047 * 2 == 2^2048 == 1 mod 2^2048 - 1
    let mut a = [0u64; 32];
    a[31] = 1 << 63;
    let m = UInt2048 { limbs: [u64::MAX; 32] };
    let r = UInt2048 { limbs: a }.modmul(&small(2), &m);
    assert_eq!(r.limbs, small(1).limbs);
    // (m - 1)^2 == 1 mod m
    let mut mm1 = [u64::MAX; 32];
    mm1[0] -= 1;
    let r = UInt2048 { limbs: mm1 }.modmul(&UInt2048 { limbs: mm1 }, &m);
    assert_eq!(r.limbs, small(1).limbs);
}

#[test]
fn modexp_small_values_match_naive_exponentiation() {
    for (b, e, m) in [(3u64, 5u64, 7u64), (123, 45, 1009)] {
        let r = modexp_256_bytes(&small(b), &small(e), &small(m));
        assert_eq!(r.limbs, small(naive_modexp(b, e, m)).limbs, "{}^{} mod {}", b, e, m);
    }
}

#[test]
fn modexp_more_small_values() {
    for (b, e, m) in [(65537u64, 3u64, 4294967291u64), (0, 3, 5)] {
        let r = modexp_256_bytes(&small(b), &small(e), &small(m));
        assert_eq!(r.limbs, small(naive_modexp(b, e, m)).limbs, "{}^{} mod {}", b, e, m);
    }
}

#[test]
fn modexp_zero_exponent_is_one() {
    let r = modexp_256_bytes(&small(987654321), &small(0), &small(1000));
    assert_eq!(r.limbs, small(1).limbs);
}

#[test]
fn modexp_modulus_one_gives_zero() {
    let r = modexp_256_bytes(&small(5), &small(0), &small(1));
    assert_eq!(r.limbs, small(0).limbs);
}

#[test]
fn test_modexp() {
    // 3^(p - 1) mod p == 1 for p = 2^256 - 2^32 - 977
    let base = small(3);
    let exponent = from_be_hex("fffffffffffffffffffffffffffffffffffffffffffffffffffffffefffffc2e");
    let modulus = from_be_hex("fffffffffffffffffffffffffffffffffffffffffffffffffffffffefffffc2f");
    let r = modexp_256_bytes(&base, &exponent, &modulus);
    assert_eq!(r.limbs, small(1).limbs);
}

#[test]
fn modexp_full_width_operands() {
    // with modulus 2^2048 - 1, 2^(2048 * k + j) == 2^j
    let m = UInt2048 { limbs: [u64::MAX; 32] };
    let r = modexp_256_bytes(&small(2), &small(2048 * 3 + 5), &m);
    assert_eq!(r.limbs, small(32).limbs);
    // a base above the modulus is reduced
    let mut big = [0u64; 32];
    big[1] = 1;
    let r = modexp_256_bytes(&UInt2048 { limbs: big }, &small(2), &small(1_000_003));
    let b = ((1u128 << 64) % 1_000_003) as u64;
    assert_eq!(r.limbs, small(naive_modexp(b, 2, 1_000_003)).limbs);
}
