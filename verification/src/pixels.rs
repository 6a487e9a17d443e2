//! Lengths in abstract pixels.
//!
//! A length is a 32-bit IEEE-754 measurement carried by its bit pattern, so
//! that the crate can reason about it exactly. The model reads a bit pattern
//! as sign, biased exponent and significand, and gives every finite value an
//! exact integer numerator at the fixed scale 2^-150. Lengths are compared
//! with the NaN-aware approximate comparator: two NaNs are equal, a NaN and a
//! number are not, and two numbers are equal when they differ by less than
//! the machine epsilon 2^-23 (the smallest increment near 1.0), computed in
//! exact arithmetic. Any comparison against an infinity is false, an infinity
//! against itself included.

use vstd::prelude::*;
use vstd::arithmetic::power2::*;
use vstd::arithmetic::mul::*;

verus! {

/// Number of fraction values: 2^23.
pub const FRAC_LIM: u32 = 0x80_0000;

/// Number of exponent-field values: 2^8.
pub const EXP_LIM: u32 = 0x100;

/// A length in abstract pixels, carried as the bit pattern of a 32-bit
/// IEEE-754 value.
#[derive(Clone, Copy, Debug)]
pub struct Px {
    pub bits: u32,
}

/// The exponent field of a bit pattern: bits 23 to 30.
pub open spec fn f32_exp(bits: u32) -> nat {
    (((bits / FRAC_LIM) % EXP_LIM)) as nat
}

/// The fraction field of a bit pattern: bits 0 to 22.
pub open spec fn f32_frac(bits: u32) -> nat {
    (bits % FRAC_LIM) as nat
}

/// The sign bit of a bit pattern: bit 31.
pub open spec fn f32_is_neg(bits: u32) -> bool {
    bits >= 0x8000_0000
}

/// A NaN: exponent field all ones, fraction nonzero.
pub open spec fn f32_is_nan(bits: u32) -> bool {
    f32_exp(bits) == 255 && f32_frac(bits) != 0
}

/// An infinity: exponent field all ones, fraction zero.
pub open spec fn f32_is_inf(bits: u32) -> bool {
    f32_exp(bits) == 255 && f32_frac(bits) == 0
}

/// The integer significand: the fraction with the hidden bit added for
/// normal values; subnormal values (exponent field zero) have none.
pub open spec fn f32_mantissa(bits: u32) -> nat {
    if f32_exp(bits) == 0 {
        f32_frac(bits)
    } else {
        (f32_frac(bits) + FRAC_LIM) as nat
    }
}

/// The effective binary exponent of the significand, before the fixed
/// bias of 150: subnormal values share the exponent of the smallest
/// normal ones.
pub open spec fn f32_scale(bits: u32) -> nat {
    if f32_exp(bits) == 0 {
        1
    } else {
        f32_exp(bits)
    }
}

/// The exact value of a finite bit pattern, as an integer numerator at the
/// fixed scale 2^-150: the value is `f32_num(bits) * 2^-150`.
pub open spec fn f32_num(bits: u32) -> int {
    if f32_is_neg(bits) {
        -((f32_mantissa(bits) * pow2(f32_scale(bits))) as int)
    } else {
        (f32_mantissa(bits) * pow2(f32_scale(bits))) as int
    }
}

/// Two finite bit patterns differ by less than the machine epsilon 2^-23,
/// which is 2^127 at the fixed scale 2^-150.
pub open spec fn f32_close(a: u32, b: u32) -> bool {
    -(pow2(127) as int) < f32_num(a) - f32_num(b) < pow2(127) as int
}

/// The NaN-aware approximate equality on bit patterns.
pub open spec fn nan_aware_eq_spec(a: u32, b: u32) -> bool {
    if f32_is_nan(a) && f32_is_nan(b) {
        true
    } else if f32_is_nan(a) || f32_is_nan(b) {
        false
    } else if f32_is_inf(a) || f32_is_inf(b) {
        false
    } else {
        f32_close(a, b)
    }
}

/// 2^k as a 128-bit value.
fn pow2_u128(k: u32) -> (r: u128)
    requires
        k <= 127,
    ensures
        r == pow2(k as nat),
{
    proof {
        lemma2_to64();
        lemma2_to64_rest();
    }
    let mut r: u128 = 1;
    let mut i: u32 = 0;
    while i < k
        invariant
            i <= k,
            k <= 127,
            r == pow2(i as nat),
        decreases k - i,
    {
        proof {
            lemma_pow2_adds(i as nat, 1nat);
            lemma2_to64();
            let next: nat = i as nat + 1;
            assert(r * 2 == pow2(next));
            if next < 127 {
                lemma_pow2_strictly_increases(next, 127);
            }
            lemma2_to64_rest();
            lemma_pow2_adds(64, 63);
            assert(pow2(127) == 0x8000_0000_0000_0000_0000_0000_0000_0000);
        }
        r = r * 2;
        i = i + 1;
    }
    r
}

/// Splits a power: `m * 2^s1 == (m * 2^(s1-s2)) * 2^s2` for `s2 <= s1`.
proof fn lemma_mag_split(m: nat, s1: nat, s2: nat)
    requires
        s2 <= s1,
    ensures
        m * pow2(s1) == (m * pow2((s1 - s2) as nat)) * pow2(s2),
{
    lemma_pow2_adds((s1 - s2) as nat, s2);
    lemma_mul_is_associative(m as int, pow2((s1 - s2) as nat) as int, pow2(s2) as int);
}

/// A scaled magnitude is below 2^127 exactly when the bare magnitude is
/// below 2^(127-s); for scales past 127 only zero is.
proof fn lemma_scaled_lt(d: nat, s: nat)
    ensures
        s <= 127 ==> ((d * pow2(s) < pow2(127)) <==> d < pow2((127 - s) as nat)),
        s > 127 ==> ((d * pow2(s) < pow2(127)) <==> d == 0),
{
    lemma_pow2_pos(s);
    if s <= 127 {
        lemma_pow2_adds((127 - s) as nat, s);
        if d < pow2((127 - s) as nat) {
            lemma_mul_strict_inequality(d as int, pow2((127 - s) as nat) as int, pow2(s) as int);
        }
        if d * pow2(s) < pow2(127) {
            if d >= pow2((127 - s) as nat) {
                lemma_mul_inequality(pow2((127 - s) as nat) as int, d as int, pow2(s) as int);
            }
        }
    } else {
        lemma_pow2_strictly_increases(127, s);
        lemma_pow2_pos(127);
        if d == 0 {
            lemma_mul_by_zero_is_zero(pow2(s) as int);
        } else {
            lemma_mul_inequality(1, d as int, pow2(s) as int);
            assert(1 * (pow2(s) as int) == pow2(s) as int);
        }
    }
}

/// Two finite values whose effective exponents differ by 104 or more are
/// never close: the larger one dwarfs both the smaller one and the epsilon.
proof fn lemma_far(x: u32, y: u32)
    requires
        !f32_is_nan(x),
        !f32_is_inf(x),
        !f32_is_nan(y),
        !f32_is_inf(y),
        f32_scale(x) >= f32_scale(y) + 104,
    ensures
        !f32_close(x, y),
        !f32_close(y, x),
{
    let xs = f32_scale(x);
    let ys = f32_scale(y);
    let xm = f32_mantissa(x);
    let ym = f32_mantissa(y);
    assert(xs >= 105);
    assert(f32_exp(x) == xs);
    assert(xm >= FRAC_LIM);
    // |x| = xm * 2^xs >= 2^23 * 2^xs = 2^(23 + xs) >= 2^(ys + 127)
    lemma_mul_inequality(FRAC_LIM as int, xm as int, pow2(xs) as int);
    lemma2_to64();
    lemma_pow2_adds(23, xs);
    if 23 + xs > ys + 127 {
        lemma_pow2_strictly_increases((ys + 127) as nat, (23 + xs) as nat);
    }
    assert(xm * pow2(xs) >= pow2((ys + 127) as nat));
    // |y| = ym * 2^ys < 2^24 * 2^ys = 2^(ys + 24) <= 2^(ys + 126)
    assert(ym < 2 * FRAC_LIM);
    lemma_pow2_pos(ys);
    lemma_mul_strict_inequality(ym as int, (2 * FRAC_LIM) as int, pow2(ys) as int);
    lemma_pow2_adds(24, ys);
    assert(ym * pow2(ys) < pow2((ys + 24) as nat));
    lemma_pow2_strictly_increases((ys + 24) as nat, (ys + 126) as nat);
    // 2^(ys + 127) - 2^(ys + 126) == 2^(ys + 126) >= 2^127
    lemma_pow2_adds((ys + 126) as nat, 1);
    lemma2_to64();
    lemma_pow2_strictly_increases(127, (ys + 127) as nat);
    if (ys + 126) as nat > 127 {
        lemma_pow2_strictly_increases(127, (ys + 126) as nat);
    }
    assert(xm * pow2(xs) - ym * pow2(ys) >= pow2(127));
    lemma_mul_nonnegative(xm as int, pow2(xs) as int);
    lemma_mul_nonnegative(ym as int, pow2(ys) as int);
}

/// After aligning the significands to the smaller effective exponent, the
/// closeness of two finite values is decided by the aligned magnitude of
/// their difference.
proof fn lemma_close_by_parts(x: u32, y: u32, vx: nat, d: nat)
    requires
        !f32_is_nan(x),
        !f32_is_inf(x),
        !f32_is_nan(y),
        !f32_is_inf(y),
        f32_scale(y) <= f32_scale(x),
        vx == f32_mantissa(x) * pow2((f32_scale(x) - f32_scale(y)) as nat),
        d == if f32_is_neg(x) == f32_is_neg(y) {
            if vx >= f32_mantissa(y) {
                (vx - f32_mantissa(y)) as nat
            } else {
                (f32_mantissa(y) - vx) as nat
            }
        } else {
            (vx + f32_mantissa(y)) as nat
        },
    ensures
        f32_scale(y) <= 127 ==> (f32_close(x, y) <==> d < pow2((127 - f32_scale(y)) as nat)),
        f32_scale(y) > 127 ==> (f32_close(x, y) <==> d == 0),
        f32_close(x, y) == f32_close(y, x),
{
    let xs = f32_scale(x);
    let ys = f32_scale(y);
    let xm = f32_mantissa(x);
    let ym = f32_mantissa(y);
    let p = pow2(ys) as int;
    lemma_pow2_pos(ys);
    lemma_mag_split(xm, xs, ys);
    assert(f32_num(x) == vx * p || f32_num(x) == -(vx * p));
    assert(f32_num(y) == ym * p || f32_num(y) == -(ym * p));
    lemma_mul_is_distributive_sub_other_way(p, vx as int, ym as int);
    lemma_mul_is_distributive_sub_other_way(p, ym as int, vx as int);
    lemma_mul_is_distributive_add_other_way(p, vx as int, ym as int);
    lemma_mul_unary_negation((vx + ym) as int, p);
    assert(f32_num(x) - f32_num(y) == d * p || f32_num(x) - f32_num(y) == -(d * p));
    lemma_mul_nonnegative(d as int, p);
    lemma_scaled_lt(d, ys);
}

/// Decodes a bit pattern into its sign, effective exponent and integer
/// significand.
fn decode(bits: u32) -> (r: (bool, u32, u32))
    ensures
        r.0 == f32_is_neg(bits),
        r.1 == f32_scale(bits),
        r.2 == f32_mantissa(bits),
        1 <= r.1 < EXP_LIM,
        r.2 < 2 * FRAC_LIM,
{
    let e: u32 = (bits / FRAC_LIM) % EXP_LIM;
    let f: u32 = bits % FRAC_LIM;
    let neg: bool = bits >= 0x8000_0000;
    if e == 0 {
        (neg, 1, f)
    } else {
        (neg, e, f + FRAC_LIM)
    }
}

/// The NaN-aware approximate equality on bit patterns: two NaNs are equal, a
/// NaN and a number are not, any comparison against an infinity is false, and
/// two finite values are equal when they differ by less than 2^-23 in exact
/// arithmetic.
pub fn nan_aware_eq_bits(a: u32, b: u32) -> (r: bool)
    ensures
        r == nan_aware_eq_spec(a, b),
{
    let ea: u32 = (a / FRAC_LIM) % EXP_LIM;
    let fa: u32 = a % FRAC_LIM;
    let eb: u32 = (b / FRAC_LIM) % EXP_LIM;
    let fb: u32 = b % FRAC_LIM;
    let a_nan: bool = ea == 255 && fa != 0;
    let b_nan: bool = eb == 255 && fb != 0;
    if a_nan && b_nan {
        return true;
    }
    if a_nan || b_nan {
        return false;
    }
    if ea == 255 || eb == 255 {
        return false;
    }
    // Both values are finite. Order them by effective exponent, align the
    // significands, and compare the exact difference against 2^-23, which is
    // 2^127 at the common fixed scale.
    let sa: u32 = if ea == 0 { 1 } else { ea };
    let sb: u32 = if eb == 0 { 1 } else { eb };
    let (x, y) = if sa >= sb { (a, b) } else { (b, a) };
    let (xn, xs, xm) = decode(x);
    let (yn, ys, ym) = decode(y);
    let shift: u32 = xs - ys;
    if shift >= 104 {
        proof {
            lemma_far(x, y);
        }
        return false;
    }
    proof {
        lemma2_to64();
        lemma2_to64_rest();
        lemma_pow2_adds(64, 39);
        lemma_pow2_adds(64, 63);
        if (shift as nat) < 103 {
            lemma_pow2_strictly_increases(shift as nat, 103);
        }
        lemma_mul_upper_bound(
            xm as int,
            (2 * FRAC_LIM - 1) as int,
            pow2(shift as nat) as int,
            pow2(103) as int,
        );
    }
    let vx: u128 = (xm as u128) * pow2_u128(shift);
    let vy: u128 = ym as u128;
    let d_abs: u128 = if xn == yn {
        if vx >= vy {
            vx - vy
        } else {
            vy - vx
        }
    } else {
        vx + vy
    };
    proof {
        lemma_close_by_parts(x, y, vx as nat, d_abs as nat);
    }
    if ys >= 127 {
        d_abs == 0
    } else {
        d_abs < pow2_u128(127 - ys)
    }
}

/// The position of the highest set bit of a positive number.
pub open spec fn log2(n: nat) -> nat
    decreases n,
{
    if n < 2 {
        0
    } else {
        1 + log2((n / 2) as nat)
    }
}

proof fn lemma_log2_bounds(n: nat)
    requires
        n >= 1,
    ensures
        pow2(log2(n)) <= n < pow2(log2(n) + 1),
    decreases n,
{
    lemma2_to64();
    if n >= 2 {
        let h = (n / 2) as nat;
        lemma_log2_bounds(h);
        let l = log2(h);
        lemma_pow2_adds(l, 1);
        lemma_pow2_adds(l + 1, 1);
        assert(n == 2 * h + (n % 2));
        assert(2 * pow2(l) <= 2 * h) by {
            lemma_mul_inequality(pow2(l) as int, h as int, 2);
        }
        assert(2 * h <= 2 * (pow2(l + 1) - 1)) by {
            lemma_mul_inequality(h as int, pow2(l + 1) - 1, 2);
        }
    }
}

proof fn lemma_log2_unique(n: nat, k: nat)
    requires
        1 <= n,
        pow2(k) <= n < pow2(k + 1),
    ensures
        log2(n) == k,
{
    lemma_log2_bounds(n);
    let l = log2(n);
    if l < k {
        if l + 1 < k {
            lemma_pow2_strictly_increases(l + 1, k);
        }
        assert(pow2(l + 1) <= pow2(k));
    }
    if k < l {
        if k + 1 < l {
            lemma_pow2_strictly_increases(k + 1, l);
        }
        assert(pow2(k + 1) <= pow2(l));
    }
}

/// The bit pattern of the 32-bit IEEE-754 value nearest to the whole number
/// `v`, ties going to the even significand: whole numbers up to 2^24 convert
/// exactly, and above that the significand is rounded to its top 24 bits.
pub open spec fn f32_bits_of_u32(v: u32) -> u32 {
    if v == 0 {
        0u32
    } else {
        let e = log2(v as nat);
        if e <= 23 {
            (((e + 127) * FRAC_LIM) + (v * pow2((23 - e) as nat) - FRAC_LIM)) as u32
        } else {
            let t = (e - 23) as nat;
            let q = (v as nat) / pow2(t);
            let rem = (v as nat) % pow2(t);
            let half = pow2((t - 1) as nat);
            let q2: nat = if rem > half || (rem == half && q % 2 == 1) {
                (q + 1) as nat
            } else {
                q
            };
            if q2 == 2 * FRAC_LIM {
                ((e + 128) * FRAC_LIM) as u32
            } else {
                (((e + 127) * FRAC_LIM) + (q2 - FRAC_LIM)) as u32
            }
        }
    }
}

/// 2^k as a 32-bit value.
fn pow2_u32(k: u32) -> (r: u32)
    requires
        k <= 31,
    ensures
        r == pow2(k as nat),
{
    proof {
        lemma2_to64();
    }
    let mut r: u32 = 1;
    let mut i: u32 = 0;
    while i < k
        invariant
            i <= k,
            k <= 31,
            r == pow2(i as nat),
        decreases k - i,
    {
        proof {
            lemma_pow2_adds(i as nat, 1nat);
            lemma2_to64();
            let next: nat = i as nat + 1;
            if next < 31 {
                lemma_pow2_strictly_increases(next, 31);
            }
        }
        r = r * 2;
        i = i + 1;
    }
    r
}

/// Converts a whole number of pixels to the nearest 32-bit IEEE-754 length,
/// ties going to the even significand. Numbers up to 2^24 convert exactly;
/// the result is never negative, never a NaN and never an infinity.
pub fn px_from_u32(v: u32) -> (p: Px)
    ensures
        p.bits == f32_bits_of_u32(v),
        !f32_is_nan(p.bits),
        !f32_is_inf(p.bits),
        !f32_is_neg(p.bits),
        v <= 2 * FRAC_LIM ==> f32_num(p.bits) == v * pow2(150),
{
    proof {
        lemma2_to64();
        lemma2_to64_rest();
    }
    if v == 0 {
        proof {
            lemma_mul_by_zero_is_zero(pow2(150) as int);
            lemma_mul_by_zero_is_zero(pow2(1) as int);
        }
        return Px { bits: 0 };
    }
    let mut e: u32 = 0;
    let mut m: u32 = v;
    while m >= 2
        invariant
            1 <= m,
            e <= 31,
            v >= 1,
            m * pow2(e as nat) <= v < (m + 1) * pow2(e as nat),
        decreases m,
    {
        proof {
            let p = pow2(e as nat) as int;
            let m2 = (m / 2) as int;
            lemma_pow2_pos(e as nat);
            lemma2_to64();
            lemma_pow2_adds(e as nat, 1);
            // lower bound: m2 * 2^(e+1) == (2 * m2) * 2^e <= m * 2^e <= v
            lemma_mul_is_associative(m2, 2, p);
            lemma_mul_inequality(2 * m2, m as int, p);
            // upper bound: v < (m + 1) * 2^e <= (2 * m2 + 2) * 2^e == (m2 + 1) * 2^(e+1)
            lemma_mul_inequality(m as int + 1, 2 * m2 + 2, p);
            lemma_mul_is_associative(m2 + 1, 2, p);
            lemma_mul_is_distributive_add_other_way(p, 2 * m2, 2);
            lemma_mul_is_distributive_add_other_way(2 * p, m2, 1);
            // e stays below 31: 2 * 2^e <= m * 2^e <= v < 2^32
            lemma_mul_inequality(2, m as int, p);
            lemma_pow2_adds(e as nat, 1);
            if e as nat + 1 > 32 {
                lemma_pow2_strictly_increases(32, e as nat + 1);
            }
        }
        m = m / 2;
        e = e + 1;
    }
    proof {
        // 2^e <= v < 2^(e + 1), so e is the highest set bit of v.
        lemma_pow2_pos(e as nat);
        lemma_pow2_adds(e as nat, 1);
        lemma2_to64();
        assert(m == 1);
        assert(m * pow2(e as nat) == 1 * pow2(e as nat));
        assert(1 * pow2(e as nat) == pow2(e as nat));
        assert(pow2(e as nat) <= v);
        assert((m + 1) * pow2(e as nat) == 2 * pow2(e as nat));
        assert(v < 2 * pow2(e as nat));
        assert(pow2(e as nat + 1) == pow2(e as nat) * 2);
        assert(v < pow2(e as nat + 1));
        lemma_log2_unique(v as nat, e as nat);
    }
    if e <= 23 {
        // Exact: the significand is v shifted up to 24 bits.
        let pw: u32 = pow2_u32(23 - e);
        proof {
            let sh = (23 - e) as nat;
            lemma_pow2_pos(sh);
            lemma2_to64();
            // lower bound: 2^23 == 2^e * 2^(23 - e) <= v * 2^(23 - e)
            lemma_pow2_adds(e as nat, sh);
            lemma_mul_inequality(pow2(e as nat) as int, v as int, pow2(sh) as int);
            assert(FRAC_LIM <= v * pow2(sh));
            // upper bound: v * 2^(23 - e) < 2^(e + 1) * 2^(23 - e) == 2^24
            lemma_pow2_adds(e as nat + 1, sh);
            lemma_mul_strict_inequality(v as int, pow2(e as nat + 1) as int, pow2(sh) as int);
            assert(v * pow2(sh) < 2 * FRAC_LIM);
        }
        let frac_full: u32 = v * pw;
        let bits: u32 = (e + 127) * FRAC_LIM + (frac_full - FRAC_LIM);
        proof {
            assert(FRAC_LIM <= frac_full < 2 * FRAC_LIM);
            vstd::arithmetic::div_mod::lemma_small_mod((e + 127) as nat, EXP_LIM as nat);
            vstd::arithmetic::div_mod::lemma_fundamental_div_mod_converse(
                bits as int,
                FRAC_LIM as int,
                (e + 127) as int,
                (frac_full - FRAC_LIM) as int,
            );
            assert(f32_exp(bits) == e + 127);
            assert(f32_frac(bits) == frac_full - FRAC_LIM);
            assert(f32_mantissa(bits) == frac_full);
            // value: (v * 2^(23 - e)) * 2^(e + 127) == v * 2^150
            lemma_mag_split(v as nat, 150, (e + 127) as nat);
        }
        Px { bits }
    } else {
        // Rounding: keep the top 24 bits of v, round to nearest, ties to the
        // even significand.
        let t: u32 = e - 23;
        let pt: u32 = pow2_u32(t);
        let q: u32 = v / pt;
        let rem: u32 = v % pt;
        let half: u32 = pow2_u32(t - 1);
        proof {
            lemma_pow2_pos(t as nat);
            lemma_pow2_pos((t - 1) as nat);
            lemma_pow2_adds(23, t as nat);
            lemma_pow2_adds(24, t as nat);
            // 2^23 <= q < 2^24
            vstd::arithmetic::div_mod::lemma_div_by_multiple(pow2(23) as int, pt as int);
            vstd::arithmetic::div_mod::lemma_div_is_ordered(
                (pow2(23) * pt) as int,
                v as int,
                pt as int,
            );
            vstd::arithmetic::div_mod::lemma_multiply_divide_lt(
                v as int,
                pt as int,
                pow2(24) as int,
            );
            assert(pow2(23) <= q < pow2(24));
            lemma2_to64();
        }
        let up: bool = rem > half || (rem == half && q % 2 == 1);
        let q2: u32 = if up {
            q + 1
        } else {
            q
        };
        let bits: u32 = if q2 == 2 * FRAC_LIM {
            (e + 128) * FRAC_LIM
        } else {
            (e + 127) * FRAC_LIM + (q2 - FRAC_LIM)
        };
        proof {
            lemma2_to64();
            if q2 == 2 * FRAC_LIM {
                vstd::arithmetic::div_mod::lemma_fundamental_div_mod_converse(
                    bits as int,
                    FRAC_LIM as int,
                    (e + 128) as int,
                    0,
                );
                assert(f32_exp(bits) == e + 128);
                assert(f32_frac(bits) == 0);
            } else {
                vstd::arithmetic::div_mod::lemma_fundamental_div_mod_converse(
                    bits as int,
                    FRAC_LIM as int,
                    (e + 127) as int,
                    (q2 - FRAC_LIM) as int,
                );
                assert(f32_exp(bits) == e + 127);
                assert(f32_frac(bits) == q2 - FRAC_LIM);
            }
            // Whole numbers up to 2^24 reach this branch only as exactly 2^24.
            if v <= 2 * FRAC_LIM {
                assert(v == 2 * FRAC_LIM && e == 24) by {
                    if e >= 25 {
                        lemma_pow2_strictly_increases(24, e as nat);
                    }
                    assert(pow2(24) <= v);
                }
                assert(q == pow2(23)) by {
                    vstd::arithmetic::div_mod::lemma_div_by_multiple(pow2(23) as int, 2);
                }
                assert(rem == 0) by {
                    vstd::arithmetic::div_mod::lemma_mod_multiples_basic(pow2(23) as int, 2);
                }
                assert(f32_mantissa(bits) * pow2(f32_scale(bits)) == pow2(23) * pow2(151));
                lemma_pow2_adds(23, 151);
                lemma_pow2_adds(24, 150);
                assert((2 * FRAC_LIM) * pow2(150) == pow2(24) * pow2(150));
            }
        }
        Px { bits }
    }
}

/// The bit pattern of the 32-bit IEEE-754 value nearest to the signed whole
/// number `v`: the magnitude converts as for unsigned numbers, and negative
/// inputs carry the sign bit.
pub open spec fn f32_bits_of_i32(v: i32) -> u32 {
    if v >= 0 {
        f32_bits_of_u32(v as u32)
    } else {
        (f32_bits_of_u32((-(v as int)) as u32) + 0x8000_0000) as u32
    }
}

/// Converts a signed whole number of pixels to the nearest 32-bit IEEE-754
/// length. Magnitudes up to 2^24 convert exactly; the result is never a NaN
/// and never an infinity.
pub fn px_from_i32(v: i32) -> (p: Px)
    ensures
        p.bits == f32_bits_of_i32(v),
        !f32_is_nan(p.bits),
        !f32_is_inf(p.bits),
        -2 * FRAC_LIM <= v <= 2 * FRAC_LIM ==> f32_num(p.bits) == v * pow2(150),
{
    if v >= 0 {
        px_from_u32(v as u32)
    } else {
        let mag: u32 = (-(v as i64)) as u32;
        let pos = px_from_u32(mag);
        let bits: u32 = pos.bits + 0x8000_0000;
        proof {
            let ex = f32_exp(pos.bits) as int;
            let fr = f32_frac(pos.bits) as int;
            assert(pos.bits == ex * (FRAC_LIM as int) + fr && 0 <= fr < FRAC_LIM && 0 <= ex
                < EXP_LIM) by {
                vstd::arithmetic::div_mod::lemma_fundamental_div_mod(
                    pos.bits as int,
                    FRAC_LIM as int,
                );
                vstd::arithmetic::div_mod::lemma_small_mod(
                    (pos.bits / FRAC_LIM) as nat,
                    EXP_LIM as nat,
                );
                assert(pos.bits / FRAC_LIM < EXP_LIM);
            }
            vstd::arithmetic::div_mod::lemma_fundamental_div_mod_converse(
                bits as int,
                FRAC_LIM as int,
                ex + 0x100,
                fr,
            );
            vstd::arithmetic::div_mod::lemma_mod_add_multiples_vanish(ex, EXP_LIM as int);
            vstd::arithmetic::div_mod::lemma_small_mod(ex as nat, EXP_LIM as nat);
            assert(f32_exp(bits) == f32_exp(pos.bits));
            assert(f32_frac(bits) == f32_frac(pos.bits));
            if -2 * FRAC_LIM <= v {
                lemma_mul_unary_negation(mag as int, pow2(150) as int);
            }
        }
        Px { bits }
    }
}

/// NaN-aware equality is reflexive on every value that is not an infinity,
/// NaN included; an infinity does not compare equal even to itself.
pub proof fn lemma_nan_aware_eq_reflexive(a: u32)
    requires
        !f32_is_inf(a),
    ensures
        nan_aware_eq_spec(a, a),
{
    if !f32_is_nan(a) {
        lemma_pow2_pos(127);
    }
}

/// NaN-aware equality is symmetric.
pub proof fn lemma_nan_aware_eq_symmetric(a: u32, b: u32)
    ensures
        nan_aware_eq_spec(a, b) == nan_aware_eq_spec(b, a),
{
}

impl Px {
    /// The length whose IEEE-754 bit pattern is `bits`.
    pub fn from_bits(bits: u32) -> (p: Px)
        ensures
            p.bits == bits,
    {
        Px { bits }
    }

    /// The IEEE-754 bit pattern of this length.
    pub fn to_bits(&self) -> (bits: u32)
        ensures
            bits == self.bits,
    {
        self.bits
    }

    /// Whether this length is a NaN.
    pub fn is_nan(&self) -> (r: bool)
        ensures
            r == f32_is_nan(self.bits),
    {
        let e: u32 = (self.bits / FRAC_LIM) % EXP_LIM;
        let f: u32 = self.bits % FRAC_LIM;
        e == 255 && f != 0
    }
}

/// The NaN-aware approximate equality on lengths.
pub fn nan_aware_eq(a: Px, b: Px) -> (r: bool)
    ensures
        r == nan_aware_eq_spec(a.bits, b.bits),
{
    nan_aware_eq_bits(a.bits, b.bits)
}

impl PartialEq for Px {
    fn eq(&self, other: &Px) -> (r: bool) {
        nan_aware_eq_bits(self.bits, other.bits)
    }
}

impl vstd::std_specs::cmp::PartialEqSpecImpl for Px {
    open spec fn obeys_eq_spec() -> bool {
        true
    }

    open spec fn eq_spec(&self, other: &Px) -> bool {
        nan_aware_eq_spec(self.bits, other.bits)
    }
}

} // verus!
