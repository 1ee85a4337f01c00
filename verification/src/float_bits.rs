use vstd::prelude::*;
use vstd::arithmetic::power2::{pow2, lemma2_to64, lemma2_to64_rest, lemma_pow2_adds,
    lemma_pow2_pos, lemma_pow2_strictly_increases};
use vstd::arithmetic::div_mod::{lemma_fundamental_div_mod, lemma_small_mod};

verus! {

// The library's two floating-point payloads are IEEE 754 binary32 and
// binary64 bit patterns held as plain integers. Everything the conversion
// engine needs of them — is the value a mathematical integer, which one,
// and which integers a format can hold exactly — is integer arithmetic on
// the sign, exponent and fraction fields, stated and proved here.

/// The sign bit of a binary32 pattern.
pub open spec fn f32_sign(b: u32) -> bool {
    b / 0x8000_0000 == 1
}

/// The exponent field of a binary32 pattern.
pub open spec fn f32_exp(b: u32) -> int {
    (b as int / 0x80_0000) % 256
}

/// The fraction field of a binary32 pattern.
pub open spec fn f32_frac(b: u32) -> int {
    b as int % 0x80_0000
}

/// A binary32 pattern that is neither an infinity nor a NaN.
pub open spec fn f32_is_finite(b: u32) -> bool {
    f32_exp(b) != 255
}

/// The sign bit of a binary64 pattern.
pub open spec fn f64_sign(b: u64) -> bool {
    b / 0x8000_0000_0000_0000 == 1
}

/// The exponent field of a binary64 pattern.
pub open spec fn f64_exp(b: u64) -> int {
    (b as int / 0x10_0000_0000_0000) % 2048
}

/// The fraction field of a binary64 pattern.
pub open spec fn f64_frac(b: u64) -> int {
    b as int % 0x10_0000_0000_0000
}

/// A binary64 pattern that is neither an infinity nor a NaN.
pub open spec fn f64_is_finite(b: u64) -> bool {
    f64_exp(b) != 2047
}

/// `m` with a sign applied.
pub open spec fn apply_sign(negative: bool, m: int) -> int {
    if negative {
        -m
    } else {
        m
    }
}

/// The mathematical integer a binary32 pattern denotes: `Some(n)` exactly
/// when the pattern is finite and its value has a zero fractional part.
/// Both zeros denote 0.
pub open spec fn f32_int_val(b: u32) -> Option<int> {
    let e = f32_exp(b) - 150;
    let m = 0x80_0000 + f32_frac(b);
    if !f32_is_finite(b) {
        None
    } else if f32_exp(b) == 0 {
        if f32_frac(b) == 0 {
            Some(0)
        } else {
            None
        }
    } else if e >= 0 {
        Some(apply_sign(f32_sign(b), m * pow2(e as nat)))
    } else if m % (pow2((-e) as nat) as int) == 0 {
        Some(apply_sign(f32_sign(b), m / pow2((-e) as nat) as int))
    } else {
        None
    }
}

/// The mathematical integer a binary64 pattern denotes.
pub open spec fn f64_int_val(b: u64) -> Option<int> {
    let e = f64_exp(b) - 1075;
    let m = 0x10_0000_0000_0000 + f64_frac(b);
    if !f64_is_finite(b) {
        None
    } else if f64_exp(b) == 0 {
        if f64_frac(b) == 0 {
            Some(0)
        } else {
            None
        }
    } else if e >= 0 {
        Some(apply_sign(f64_sign(b), m * pow2(e as nat)))
    } else if m % (pow2((-e) as nat) as int) == 0 {
        Some(apply_sign(f64_sign(b), m / pow2((-e) as nat) as int))
    } else {
        None
    }
}

/// The number of binary digits of `n`.
pub open spec fn bit_len(n: nat) -> nat
    decreases n,
{
    if n == 0 {
        0
    } else {
        1 + bit_len(n / 2)
    }
}

/// A magnitude binary32 holds exactly: at most 24 significant bits, and
/// small enough that the trailing zeros fit the exponent range (every
/// 128-bit magnitude with at most 24 significant bits does).
pub open spec fn f32_representable_mag(a: nat) -> bool {
    a < pow2(128) && (a == 0 || bit_len(a) <= 24 || a % pow2((bit_len(a) - 24) as nat) == 0)
}

/// A magnitude binary64 holds exactly: at most 53 significant bits.
pub open spec fn f64_representable_mag(a: nat) -> bool {
    a < pow2(128) && (a == 0 || bit_len(a) <= 53 || a % pow2((bit_len(a) - 53) as nat) == 0)
}

/// The binary32 pattern with the given fields.
pub open spec fn f32_bits_of(negative: bool, e: int, f: int) -> u32 {
    ((if negative {
        0x8000_0000int
    } else {
        0int
    }) + e * 0x80_0000 + f) as u32
}

/// The binary64 pattern with the given fields.
pub open spec fn f64_bits_of(negative: bool, e: int, f: int) -> u64 {
    ((if negative {
        0x8000_0000_0000_0000int
    } else {
        0int
    }) + e * 0x10_0000_0000_0000 + f) as u64
}

/// The binary32 pattern that denotes the integer of the given sign and
/// magnitude; meaningful when `f32_representable_mag(a)` holds.
pub open spec fn f32_encode_int(negative: bool, a: nat) -> u32 {
    if a == 0 {
        f32_bits_of(negative, 0, 0)
    } else {
        let l = bit_len(a);
        if l <= 24 {
            f32_bits_of(negative, l as int + 126, (a as int) * pow2((24 - l) as nat) - pow2(23))
        } else {
            f32_bits_of(negative, l as int + 126, a / pow2((l - 24) as nat) - pow2(23))
        }
    }
}

/// The binary64 pattern that denotes the integer of the given sign and
/// magnitude; meaningful when `f64_representable_mag(a)` holds.
pub open spec fn f64_encode_int(negative: bool, a: nat) -> u64 {
    if a == 0 {
        f64_bits_of(negative, 0, 0)
    } else {
        let l = bit_len(a);
        if l <= 53 {
            f64_bits_of(negative, l as int + 1022, a * pow2((53 - l) as nat) - pow2(52))
        } else {
            f64_bits_of(negative, l as int + 1022, a / pow2((l - 53) as nat) - pow2(52))
        }
    }
}

/// The binary64 pattern denoting exactly what the binary32 pattern does:
/// infinities and NaNs carry over field by field, a subnormal is
/// normalized, and both zeros keep their sign.
pub open spec fn f32_to_f64_bits(b: u32) -> u64 {
    let s = f32_sign(b);
    let e = f32_exp(b);
    let f = f32_frac(b);
    if e == 255 {
        f64_bits_of(s, 2047, f * pow2(29))
    } else if e == 0 && f == 0 {
        f64_bits_of(s, 0, 0)
    } else if e == 0 {
        let l = bit_len(f as nat);
        f64_bits_of(s, l as int + 873, f * pow2((53 - l) as nat) - pow2(52))
    } else {
        f64_bits_of(s, e + 896, f * pow2(29))
    }
}

proof fn lemma_bit_len_bounds(a: nat)
    requires
        a > 0,
    ensures
        bit_len(a) >= 1,
        pow2((bit_len(a) - 1) as nat) <= a < pow2(bit_len(a)),
    decreases a,
{
    if a == 1 {
        lemma2_to64();
        assert(bit_len(0) == 0);
        assert(bit_len(1) == 1 + bit_len(0));
    } else {
        lemma_bit_len_bounds(a / 2);
        let l = bit_len(a);
        assert(l == 1 + bit_len(a / 2));
        assert(pow2((l - 1) as nat) == 2 * pow2((l - 2) as nat)) by {
            lemma_pow2_adds(1, (l - 2) as nat);
            lemma2_to64();
        }
        assert(pow2(l) == 2 * pow2((l - 1) as nat)) by {
            lemma_pow2_adds(1, (l - 1) as nat);
            lemma2_to64();
        }
        assert(a == 2 * (a / 2) + a % 2);
        assert(a >= 2 * pow2((l - 2) as nat));
        assert(a < 2 * pow2((l - 1) as nat));
    }
}

proof fn lemma_bit_len_at_most(a: nat, l: nat)
    requires
        a < pow2(l),
    ensures
        bit_len(a) <= l,
{
    if a > 0 {
        lemma_bit_len_bounds(a);
        if bit_len(a) > l {
            lemma_pow2_adds(l, (bit_len(a) - 1 - l) as nat);
            lemma_pow2_pos((bit_len(a) - 1 - l) as nat);
            assert(pow2((bit_len(a) - 1) as nat) >= pow2(l)) by (nonlinear_arith)
                requires
                    pow2((bit_len(a) - 1) as nat) == pow2(l) * pow2((bit_len(a) - 1 - l) as nat),
                    pow2((bit_len(a) - 1 - l) as nat) >= 1,
                    pow2(l) >= 0,
            ;
        }
    }
}

/// 2^e for exponents below the width of the widest payload.
pub fn pow2_u128(e: u32) -> (r: u128)
    requires
        e <= 127,
    ensures
        r == pow2(e as nat),
        r >= 1,
{
    proof {
        lemma2_to64();
    }
    let mut acc: u128 = 1;
    let mut i: u32 = 0;
    while i < e
        invariant
            i <= e <= 127,
            acc == pow2(i as nat),
        decreases e - i,
    {
        proof {
            lemma_pow2_adds(1, i as nat);
            lemma2_to64();
            if i + 1 <= 127 {
                lemma_pow2_strictly_increases((i + 1) as nat, 128);
            }
            lemma_pow2_adds(64, 64);
            lemma2_to64_rest();
        }
        acc = acc * 2;
        i = i + 1;
    }
    proof {
        lemma_pow2_pos(e as nat);
    }
    acc
}

proof fn lemma_u128_lt_pow2_128(a: nat)
    requires
        a <= u128::MAX,
    ensures
        a < pow2(128),
        bit_len(a) <= 128,
{
    lemma_pow2_adds(64, 64);
    lemma2_to64();
    lemma_bit_len_at_most(a, 128);
}

proof fn lemma_bit_len_prefix(x: nat, l: nat, a: nat)
    requires
        l + bit_len(x) == bit_len(a),
        a <= u128::MAX,
    ensures
        l <= 128,
{
    lemma_u128_lt_pow2_128(a);
}

/// The number of binary digits of `a`.
pub fn bit_len_u128(a: u128) -> (l: u32)
    ensures
        l == bit_len(a as nat),
        l <= 128,
{
    let mut x = a;
    let mut l: u32 = 0;
    loop
        invariant
            l + bit_len(x as nat) == bit_len(a as nat),
            l <= 128,
        decreases x,
    {
        if x == 0 {
            proof {
                lemma_u128_lt_pow2_128(a as nat);
            }
            return l;
        }
        x = x / 2;
        l = l + 1;
        proof {
            lemma_bit_len_prefix(x as nat, l as nat, a as nat);
        }
    }
}

} // verus!

verus! {

proof fn lemma_pow2_le(a: nat, b: nat)
    requires
        a <= b,
    ensures
        pow2(a) <= pow2(b),
{
    if a < b {
        lemma_pow2_strictly_increases(a, b);
    }
}

/// The sign and magnitude of the integer a binary32 pattern denotes, when
/// it denotes one.
pub fn f32_integer_parts(b: u32) -> (r: Option<(bool, u128)>)
    ensures
        match r {
            Some(p) => f32_int_val(b) == Some(apply_sign(p.0, p.1 as int)) && p.0 == f32_sign(b),
            None => f32_int_val(b) is None,
        },
{
    let sign = b / 0x8000_0000 == 1;
    let exp = (b / 0x80_0000) % 256;
    let frac = b % 0x80_0000;
    if exp == 255 {
        return None;
    }
    if exp == 0 {
        if frac == 0 {
            return Some((sign, 0));
        } else {
            return None;
        }
    }
    let m: u128 = (0x80_0000 + frac) as u128;
    if exp >= 150 {
        let e = exp - 150;
        let p = pow2_u128(e);
        proof {
            lemma_pow2_le(e as nat, 104);
            lemma_pow2_adds(64, 40);
            lemma_pow2_adds(64, 64);
            lemma2_to64();
            lemma2_to64_rest();
            assert(m * p < pow2(128)) by (nonlinear_arith)
                requires
                    0 <= m < 0x1000000,
                    0 < p <= pow2(104),
                    pow2(128) == 0x1000000 * pow2(104),
            ;
        }
        Some((sign, m * p))
    } else {
        let ne = 150 - exp;
        if ne >= 24 {
            proof {
                lemma_pow2_le(24, ne as nat);
                lemma2_to64();
                lemma_small_mod(m as nat, pow2(ne as nat));
            }
            None
        } else {
            let p = pow2_u128(ne);
            if m % p == 0 {
                Some((sign, m / p))
            } else {
                None
            }
        }
    }
}

/// The sign and magnitude of the integer a binary64 pattern denotes, when
/// it denotes one that any integer payload could hold; a value at or past
/// 2^128 in magnitude comes back as `None` too.
pub fn f64_integer_parts(b: u64) -> (r: Option<(bool, u128)>)
    ensures
        match r {
            Some(p) => f64_int_val(b) == Some(apply_sign(p.0, p.1 as int)) && p.0 == f64_sign(b),
            None => match f64_int_val(b) {
                None => true,
                Some(v) => v >= pow2(128) || v <= -(pow2(128) as int),
            },
        },
{
    let sign = b / 0x8000_0000_0000_0000 == 1;
    let exp = (b / 0x10_0000_0000_0000) % 2048;
    let frac = b % 0x10_0000_0000_0000;
    if exp == 2047 {
        return None;
    }
    if exp == 0 {
        if frac == 0 {
            return Some((sign, 0));
        } else {
            return None;
        }
    }
    let m: u128 = (0x10_0000_0000_0000 + frac) as u128;
    if exp >= 1075 {
        let e = exp - 1075;
        if e >= 76 {
            proof {
                lemma_pow2_le(76, e as nat);
                lemma_pow2_adds(52, 76);
                lemma_pow2_adds(64, 64);
                lemma2_to64();
                lemma2_to64_rest();
                assert(m * pow2(e as nat) >= pow2(128)) by (nonlinear_arith)
                    requires
                        m >= 0x10_0000_0000_0000,
                        pow2(e as nat) >= pow2(76),
                        pow2(128) == 0x10_0000_0000_0000 * pow2(76),
                        pow2(76) > 0,
                ;
            }
            None
        } else {
            let p = pow2_u128(e as u32);
            proof {
                lemma_pow2_le(e as nat, 75);
                lemma_pow2_adds(53, 75);
                lemma_pow2_adds(64, 64);
                lemma2_to64();
                lemma2_to64_rest();
                assert(m * p < pow2(128)) by (nonlinear_arith)
                    requires
                        0 <= m < 0x20_0000_0000_0000,
                        0 < p <= pow2(75),
                        pow2(128) == 0x20_0000_0000_0000 * pow2(75),
                ;
            }
            Some((sign, m * p))
        }
    } else {
        let ne = 1075 - exp;
        if ne >= 53 {
            proof {
                lemma_pow2_le(53, ne as nat);
                lemma2_to64_rest();
                lemma_small_mod(m as nat, pow2(ne as nat));
            }
            None
        } else {
            let p = pow2_u128(ne as u32);
            if m % p == 0 {
                Some((sign, m / p))
            } else {
                None
            }
        }
    }
}

/// The binary32 pattern denoting the integer of the given sign and
/// magnitude, or `None` when binary32 cannot hold that integer exactly.
pub fn f32_encode(negative: bool, a: u128) -> (r: Option<u32>)
    ensures
        match r {
            Some(bits) => f32_representable_mag(a as nat) && bits == f32_encode_int(
                negative,
                a as nat,
            ),
            None => !f32_representable_mag(a as nat),
        },
{
    proof {
        lemma_u128_lt_pow2_128(a as nat);
    }
    if a == 0 {
        let bits: u32 = if negative {
            0x8000_0000
        } else {
            0
        };
        return Some(bits);
    }
    let l = bit_len_u128(a);
    proof {
        lemma_bit_len_bounds(a as nat);
    }
    let sign_part: u32 = if negative {
        0x8000_0000
    } else {
        0
    };
    if l <= 24 {
        let p = pow2_u128(24 - l);
        proof {
            lemma_pow2_adds((l - 1) as nat, (24 - l) as nat);
            lemma_pow2_adds(l as nat, (24 - l) as nat);
            lemma2_to64();
            assert(a * p >= pow2(23)) by (nonlinear_arith)
                requires
                    a >= pow2((l - 1) as nat),
                    p == pow2((24 - l) as nat),
                    pow2(23) == pow2((l - 1) as nat) * pow2((24 - l) as nat),
                    p > 0,
            ;
            assert(a * p < pow2(24)) by (nonlinear_arith)
                requires
                    a < pow2(l as nat),
                    p == pow2((24 - l) as nat),
                    pow2(24) == pow2(l as nat) * pow2((24 - l) as nat),
                    p > 0,
            ;
        }
        let m = a * p;
        let bits: u32 = sign_part + (l + 126) * 0x80_0000 + (m as u32 - 0x80_0000);
        Some(bits)
    } else {
        let p = pow2_u128(l - 24);
        if a % p == 0 {
            let m = a / p;
            proof {
                lemma_fundamental_div_mod(a as int, p as int);
                lemma_pow2_adds((l - 24) as nat, 23);
                lemma_pow2_adds((l - 24) as nat, 24);
                lemma2_to64();
                assert(m >= pow2(23)) by (nonlinear_arith)
                    requires
                        a == p * m,
                        a >= pow2((l - 1) as nat),
                        pow2((l - 1) as nat) == p * pow2(23),
                        p == pow2((l - 24) as nat),
                        p > 0,
                ;
                assert(m < pow2(24)) by (nonlinear_arith)
                    requires
                        a == p * m,
                        a < pow2(l as nat),
                        pow2(l as nat) == p * pow2(24),
                        p > 0,
                ;
            }
            let bits: u32 = sign_part + (l + 126) * 0x80_0000 + (m as u32 - 0x80_0000);
            Some(bits)
        } else {
            None
        }
    }
}

/// The binary64 pattern denoting the integer of the given sign and
/// magnitude, or `None` when binary64 cannot hold that integer exactly.
pub fn f64_encode(negative: bool, a: u128) -> (r: Option<u64>)
    ensures
        match r {
            Some(bits) => f64_representable_mag(a as nat) && bits == f64_encode_int(
                negative,
                a as nat,
            ),
            None => !f64_representable_mag(a as nat),
        },
{
    proof {
        lemma_u128_lt_pow2_128(a as nat);
    }
    if a == 0 {
        let bits: u64 = if negative {
            0x8000_0000_0000_0000
        } else {
            0
        };
        return Some(bits);
    }
    let l = bit_len_u128(a);
    proof {
        lemma_bit_len_bounds(a as nat);
    }
    let sign_part: u64 = if negative {
        0x8000_0000_0000_0000
    } else {
        0
    };
    if l <= 53 {
        let p = pow2_u128(53 - l);
        proof {
            lemma_pow2_adds((l - 1) as nat, (53 - l) as nat);
            lemma_pow2_adds(l as nat, (53 - l) as nat);
            lemma2_to64();
            lemma2_to64_rest();
            assert(a * p >= pow2(52)) by (nonlinear_arith)
                requires
                    a >= pow2((l - 1) as nat),
                    p == pow2((53 - l) as nat),
                    pow2(52) == pow2((l - 1) as nat) * pow2((53 - l) as nat),
                    p > 0,
            ;
            assert(a * p < pow2(53)) by (nonlinear_arith)
                requires
                    a < pow2(l as nat),
                    p == pow2((53 - l) as nat),
                    pow2(53) == pow2(l as nat) * pow2((53 - l) as nat),
                    p > 0,
            ;
        }
        let m = a * p;
        let bits: u64 = sign_part + ((l + 1022) as u64) * 0x10_0000_0000_0000 + (m as u64
            - 0x10_0000_0000_0000);
        Some(bits)
    } else {
        let p = pow2_u128(l - 53);
        if a % p == 0 {
            let m = a / p;
            proof {
                lemma_fundamental_div_mod(a as int, p as int);
                lemma_pow2_adds((l - 53) as nat, 52);
                lemma_pow2_adds((l - 53) as nat, 53);
                lemma2_to64();
                lemma2_to64_rest();
                assert(m >= pow2(52)) by (nonlinear_arith)
                    requires
                        a == p * m,
                        a >= pow2((l - 1) as nat),
                        pow2((l - 1) as nat) == p * pow2(52),
                        p == pow2((l - 53) as nat),
                        p > 0,
                ;
                assert(m < pow2(53)) by (nonlinear_arith)
                    requires
                        a == p * m,
                        a < pow2(l as nat),
                        pow2(l as nat) == p * pow2(53),
                        p > 0,
                ;
            }
            let bits: u64 = sign_part + ((l + 1022) as u64) * 0x10_0000_0000_0000 + (m as u64
                - 0x10_0000_0000_0000);
            Some(bits)
        } else {
            None
        }
    }
}

/// The binary64 pattern denoting exactly the value of a binary32 pattern.
pub fn f32_widen(b: u32) -> (r: u64)
    ensures
        r == f32_to_f64_bits(b),
{
    let sign = b / 0x8000_0000 == 1;
    let exp = (b / 0x80_0000) % 256;
    let frac = b % 0x80_0000;
    let sign_part: u64 = if sign {
        0x8000_0000_0000_0000
    } else {
        0
    };
    proof {
        lemma2_to64();
        lemma2_to64_rest();
    }
    if exp == 255 {
        sign_part + 2047 * 0x10_0000_0000_0000 + (frac as u64) * 0x2000_0000
    } else if exp == 0 && frac == 0 {
        sign_part
    } else if exp == 0 {
        let l = bit_len_u128(frac as u128);
        proof {
            lemma_bit_len_bounds(frac as nat);
            lemma_bit_len_at_most(frac as nat, 23);
            lemma_pow2_adds((l - 1) as nat, (53 - l) as nat);
            lemma_pow2_adds(l as nat, (53 - l) as nat);
            let p = pow2((53 - l) as nat);
            assert((frac as nat) * p >= pow2(52)) by (nonlinear_arith)
                requires
                    frac as nat >= pow2((l - 1) as nat),
                    pow2(52) == pow2((l - 1) as nat) * p,
                    p > 0,
            ;
            assert((frac as nat) * p < pow2(53)) by (nonlinear_arith)
                requires
                    (frac as nat) < pow2(l as nat),
                    pow2(53) == pow2(l as nat) * p,
                    p > 0,
            ;
        }
        let p = pow2_u128(53 - l);
        let m = (frac as u128) * p;
        sign_part + ((l + 873) as u64) * 0x10_0000_0000_0000 + (m as u64 - 0x10_0000_0000_0000)
    } else {
        sign_part + ((exp + 896) as u64) * 0x10_0000_0000_0000 + (frac as u64) * 0x2000_0000
    }
}

} // verus!

verus! {

/// The binary32 pattern built for an integer denotes exactly that integer:
/// decoding `f32_encode_int` recovers the sign and magnitude it was given.
pub proof fn lemma_f32_encode_decode(negative: bool, a: nat)
    requires
        f32_representable_mag(a),
    ensures
        f32_int_val(f32_encode_int(negative, a)) == Some(apply_sign(negative, a as int)),
{
    lemma2_to64();
    let s: int = if negative {
        1
    } else {
        0
    };
    if a == 0 {
        let b = f32_bits_of(negative, 0, 0);
        assert(b == s * 0x8000_0000);
        vstd::arithmetic::div_mod::lemma_fundamental_div_mod_converse(
            b as int,
            0x8000_0000,
            s,
            0,
        );
        vstd::arithmetic::div_mod::lemma_fundamental_div_mod_converse(
            b as int,
            0x80_0000,
            s * 256,
            0,
        );
        vstd::arithmetic::div_mod::lemma_fundamental_div_mod_converse(s * 256, 256, s, 0);
    } else {
        lemma_bit_len_bounds(a);
        let l = bit_len(a);
        let e: int = l as int + 126;
        let m24: int = if l <= 24 {
            (a as int) * (pow2((24 - l) as nat) as int)
        } else {
            (a as int) / (pow2((l - 24) as nat) as int)
        };
        if l <= 24 {
            lemma_pow2_adds((l - 1) as nat, (24 - l) as nat);
            lemma_pow2_adds(l as nat, (24 - l) as nat);
            let p = pow2((24 - l) as nat) as int;
            assert(m24 >= pow2(23)) by (nonlinear_arith)
                requires
                    m24 == a * p,
                    a >= pow2((l - 1) as nat),
                    pow2(23) == pow2((l - 1) as nat) * p,
                    p > 0,
            ;
            assert(m24 < pow2(24)) by (nonlinear_arith)
                requires
                    m24 == a * p,
                    a < pow2(l as nat),
                    pow2(24) == pow2(l as nat) * p,
                    p > 0,
            ;
        } else {
            let p = pow2((l - 24) as nat) as int;
            lemma_pow2_pos((l - 24) as nat);
            vstd::arithmetic::div_mod::lemma_fundamental_div_mod(a as int, p);
            lemma_pow2_adds((l - 24) as nat, 23);
            lemma_pow2_adds((l - 24) as nat, 24);
            assert(m24 >= pow2(23)) by (nonlinear_arith)
                requires
                    a == p * m24,
                    a >= pow2((l - 1) as nat),
                    pow2((l - 1) as nat) == p * pow2(23),
                    p > 0,
            ;
            assert(m24 < pow2(24)) by (nonlinear_arith)
                requires
                    a == p * m24,
                    a < pow2(l as nat),
                    pow2(l as nat) == p * pow2(24),
                    p > 0,
            ;
        }
        let f: int = m24 - pow2(23);
        assert(l <= 128) by {
            lemma_bit_len_at_most(a, 128);
        }
        assert(127 <= e <= 254);
        let b = f32_bits_of(negative, e, f);
        let body: int = e * 0x80_0000 + f;
        assert(body < 0x8000_0000);
        assert(b == s * 0x8000_0000 + body);
        vstd::arithmetic::div_mod::lemma_fundamental_div_mod_converse(
            b as int,
            0x8000_0000,
            s,
            body,
        );
        vstd::arithmetic::div_mod::lemma_fundamental_div_mod_converse(
            b as int,
            0x80_0000,
            s * 256 + e,
            f,
        );
        vstd::arithmetic::div_mod::lemma_fundamental_div_mod_converse(s * 256 + e, 256, s, e);
        assert(f32_exp(b) == e);
        assert(f32_frac(b) == f);
        assert(f32_sign(b) == negative);
        let m: int = 0x80_0000 + f;
        assert(m == m24);
        let ee: int = e - 150;
        assert(ee == l - 24);
        if l < 24 {
            let p = pow2((24 - l) as nat) as int;
            lemma_pow2_pos((24 - l) as nat);
            vstd::arithmetic::div_mod::lemma_fundamental_div_mod_converse(m, p, a as int, 0);
        } else if l == 24 {
            assert(m == a) by (nonlinear_arith)
                requires
                    m == (a as int) * (pow2(0) as int),
                    pow2(0) == 1,
            ;
            assert(m * (pow2(0) as int) == a) by (nonlinear_arith)
                requires
                    m == a,
                    pow2(0) == 1,
            ;
        } else {
            let p = pow2((l - 24) as nat) as int;
            vstd::arithmetic::div_mod::lemma_fundamental_div_mod(a as int, p);
            assert((a as int) % p == 0) by {
                assert(f32_representable_mag(a));
            }
            assert(m * p == a) by (nonlinear_arith)
                requires
                    a as int == p * m + (a as int) % p,
                    (a as int) % p == 0,
            ;
        }
    }
}

/// The binary64 pattern built for an integer denotes exactly that integer.
pub proof fn lemma_f64_encode_decode(negative: bool, a: nat)
    requires
        f64_representable_mag(a),
    ensures
        f64_int_val(f64_encode_int(negative, a)) == Some(apply_sign(negative, a as int)),
{
    lemma2_to64();
    lemma2_to64_rest();
    let s: int = if negative {
        1
    } else {
        0
    };
    if a == 0 {
        let b = f64_bits_of(negative, 0, 0);
        assert(b == s * 0x8000_0000_0000_0000);
        vstd::arithmetic::div_mod::lemma_fundamental_div_mod_converse(
            b as int,
            0x8000_0000_0000_0000,
            s,
            0,
        );
        vstd::arithmetic::div_mod::lemma_fundamental_div_mod_converse(
            b as int,
            0x10_0000_0000_0000,
            s * 2048,
            0,
        );
        vstd::arithmetic::div_mod::lemma_fundamental_div_mod_converse(s * 2048, 2048, s, 0);
    } else {
        lemma_bit_len_bounds(a);
        let l = bit_len(a);
        let e: int = l as int + 1022;
        let m53: int = if l <= 53 {
            (a as int) * (pow2((53 - l) as nat) as int)
        } else {
            (a as int) / (pow2((l - 53) as nat) as int)
        };
        if l <= 53 {
            lemma_pow2_adds((l - 1) as nat, (53 - l) as nat);
            lemma_pow2_adds(l as nat, (53 - l) as nat);
            let p = pow2((53 - l) as nat) as int;
            assert(m53 >= pow2(52)) by (nonlinear_arith)
                requires
                    m53 == a * p,
                    a >= pow2((l - 1) as nat),
                    pow2(52) == pow2((l - 1) as nat) * p,
                    p > 0,
            ;
            assert(m53 < pow2(53)) by (nonlinear_arith)
                requires
                    m53 == a * p,
                    a < pow2(l as nat),
                    pow2(53) == pow2(l as nat) * p,
                    p > 0,
            ;
        } else {
            let p = pow2((l - 53) as nat) as int;
            lemma_pow2_pos((l - 53) as nat);
            vstd::arithmetic::div_mod::lemma_fundamental_div_mod(a as int, p);
            lemma_pow2_adds((l - 53) as nat, 52);
            lemma_pow2_adds((l - 53) as nat, 53);
            assert(m53 >= pow2(52)) by (nonlinear_arith)
                requires
                    a as int == p * m53 + (a as int) % p,
                    a >= pow2((l - 1) as nat),
                    pow2((l - 1) as nat) == p * pow2(52),
                    p > 0,
            ;
            assert(m53 < pow2(53)) by (nonlinear_arith)
                requires
                    a as int == p * m53 + (a as int) % p,
                    (a as int) % p >= 0,
                    a < pow2(l as nat),
                    pow2(l as nat) == p * pow2(53),
                    p > 0,
            ;
        }
        let f: int = m53 - pow2(52);
        assert(l <= 128) by {
            lemma_bit_len_at_most(a, 128);
        }
        assert(1023 <= e <= 1150);
        let b = f64_bits_of(negative, e, f);
        let body: int = e * 0x10_0000_0000_0000 + f;
        assert(body < 0x8000_0000_0000_0000);
        assert(b == s * 0x8000_0000_0000_0000 + body);
        vstd::arithmetic::div_mod::lemma_fundamental_div_mod_converse(
            b as int,
            0x8000_0000_0000_0000,
            s,
            body,
        );
        vstd::arithmetic::div_mod::lemma_fundamental_div_mod_converse(
            b as int,
            0x10_0000_0000_0000,
            s * 2048 + e,
            f,
        );
        vstd::arithmetic::div_mod::lemma_fundamental_div_mod_converse(s * 2048 + e, 2048, s, e);
        assert(f64_exp(b) == e);
        assert(f64_frac(b) == f);
        assert(f64_sign(b) == negative);
        let m: int = 0x10_0000_0000_0000 + f;
        assert(m == m53);
        let ee: int = e - 1075;
        assert(ee == l - 53);
        if l < 53 {
            let p = pow2((53 - l) as nat) as int;
            lemma_pow2_pos((53 - l) as nat);
            vstd::arithmetic::div_mod::lemma_fundamental_div_mod_converse(m, p, a as int, 0);
        } else if l == 53 {
            assert(m == a) by (nonlinear_arith)
                requires
                    m == (a as int) * (pow2(0) as int),
                    pow2(0) == 1,
            ;
            assert(m * (pow2(0) as int) == a) by (nonlinear_arith)
                requires
                    m == a,
                    pow2(0) == 1,
            ;
        } else {
            let p = pow2((l - 53) as nat) as int;
            vstd::arithmetic::div_mod::lemma_fundamental_div_mod(a as int, p);
            assert((a as int) % p == 0) by {
                assert(f64_representable_mag(a));
            }
            assert(m * p == a) by (nonlinear_arith)
                requires
                    a as int == p * m + (a as int) % p,
                    (a as int) % p == 0,
            ;
        }
    }
}

} // verus!

verus! {

/// Scaling by 2^k shifts divisibility and quotients: `x * 2^k` modulo
/// `2^(k+j)` vanishes exactly when `x` modulo `2^j` does, and the
/// quotients agree.
proof fn lemma_scaled_div_mod(x: int, k: nat, j: nat)
    requires
        x >= 0,
    ensures
        ((x * pow2(k)) % (pow2((k + j) as nat) as int) == 0) == (x % (pow2(j) as int) == 0),
        (x * pow2(k)) / (pow2((k + j) as nat) as int) == x / (pow2(j) as int),
{
    let pk = pow2(k) as int;
    let pj = pow2(j) as int;
    lemma_pow2_pos(k);
    lemma_pow2_pos(j);
    lemma_pow2_adds(k, j);
    assert(x * pk >= 0) by (nonlinear_arith)
        requires
            x >= 0,
            pk > 0,
    ;
    vstd::arithmetic::div_mod::lemma_mod_breakdown(x * pk, pk, pj);
    vstd::arithmetic::div_mod::lemma_mod_multiples_basic(x, pk);
    vstd::arithmetic::div_mod::lemma_div_multiples_vanish(x, pk);
    assert((x * pk) % (pk * pj) == pk * ((x * pk / pk) % pj) + (x * pk) % pk);
    assert((x * pk) % (pk * pj) == pk * (x % pj));
    assert((pk * (x % pj) == 0) == (x % pj == 0)) by (nonlinear_arith)
        requires
            pk > 0,
    ;
    vstd::arithmetic::div_mod::lemma_div_denominator(x * pk, pk, pj);
}

/// Widening preserves the denoted integer: for a finite binary32 pattern,
/// the binary64 pattern of `f32_widen` denotes an integer exactly when the
/// original does, and then the same one.
pub proof fn lemma_f32_widen_preserves_value(b: u32)
    requires
        f32_is_finite(b),
    ensures
        f64_int_val(f32_to_f64_bits(b)) == f32_int_val(b),
{
    lemma2_to64();
    lemma2_to64_rest();
    let s: int = if f32_sign(b) {
        1
    } else {
        0
    };
    let e32 = f32_exp(b);
    let fr = f32_frac(b);
    if e32 == 0 && fr == 0 {
        let w = f64_bits_of(f32_sign(b), 0, 0);
        assert(w == s * 0x8000_0000_0000_0000);
        vstd::arithmetic::div_mod::lemma_fundamental_div_mod_converse(
            w as int,
            0x8000_0000_0000_0000,
            s,
            0,
        );
        vstd::arithmetic::div_mod::lemma_fundamental_div_mod_converse(
            w as int,
            0x10_0000_0000_0000,
            s * 2048,
            0,
        );
        vstd::arithmetic::div_mod::lemma_fundamental_div_mod_converse(s * 2048, 2048, s, 0);
    } else {
        // The widened exponent field and 52-bit fraction.
        let ew: int = if e32 == 0 {
            bit_len(fr as nat) as int + 873
        } else {
            e32 + 896
        };
        let mw: int = if e32 == 0 {
            fr * pow2((53 - bit_len(fr as nat)) as nat)
        } else {
            (0x80_0000 + fr) * pow2(29)
        };
        if e32 == 0 {
            lemma_bit_len_bounds(fr as nat);
            lemma_bit_len_at_most(fr as nat, 23);
            let l = bit_len(fr as nat);
            lemma_pow2_adds((l - 1) as nat, (53 - l) as nat);
            lemma_pow2_adds(l as nat, (53 - l) as nat);
            let p = pow2((53 - l) as nat) as int;
            assert(mw >= pow2(52)) by (nonlinear_arith)
                requires
                    mw == fr * p,
                    fr >= pow2((l - 1) as nat),
                    pow2(52) == pow2((l - 1) as nat) * p,
                    p > 0,
            ;
            assert(mw < pow2(53)) by (nonlinear_arith)
                requires
                    mw == fr * p,
                    fr < pow2(l as nat),
                    pow2(53) == pow2(l as nat) * p,
                    p > 0,
            ;
        } else {
            assert(pow2(52) == 0x80_0000 * pow2(29));
            assert(pow2(53) == 0x100_0000 * pow2(29));
            assert(mw >= pow2(52)) by (nonlinear_arith)
                requires
                    mw == (0x80_0000 + fr) * pow2(29),
                    fr >= 0,
                    pow2(52) == 0x80_0000 * pow2(29),
                    pow2(29) > 0,
            ;
            assert(mw < pow2(53)) by (nonlinear_arith)
                requires
                    mw == (0x80_0000 + fr) * pow2(29),
                    fr < 0x80_0000,
                    pow2(53) == 0x100_0000 * pow2(29),
                    pow2(29) > 0,
            ;
        }
        let fw: int = mw - pow2(52);
        assert(874 <= ew <= 1150);
        let w = f64_bits_of(f32_sign(b), ew, fw);
        let body: int = ew * 0x10_0000_0000_0000 + fw;
        assert(body < 0x8000_0000_0000_0000);
        assert(w == s * 0x8000_0000_0000_0000 + body);
        vstd::arithmetic::div_mod::lemma_fundamental_div_mod_converse(
            w as int,
            0x8000_0000_0000_0000,
            s,
            body,
        );
        vstd::arithmetic::div_mod::lemma_fundamental_div_mod_converse(
            w as int,
            0x10_0000_0000_0000,
            s * 2048 + ew,
            fw,
        );
        vstd::arithmetic::div_mod::lemma_fundamental_div_mod_converse(s * 2048 + ew, 2048, s, ew);
        assert(f64_exp(w) == ew);
        assert(f64_frac(w) == fw);
        assert(f64_sign(w) == f32_sign(b));
        assert(f64_is_finite(w));
        if e32 == 0 {
            // A nonzero subnormal denotes no integer on either side.
            let l = bit_len(fr as nat);
            let ne: nat = (1075 - ew) as nat;
            assert(ne == 202 - l);
            lemma_pow2_le(53, ne);
            lemma_small_mod(mw as nat, pow2(ne));
            assert(f64_int_val(w) is None);
            assert(f32_int_val(b) is None);
        } else {
            let m32: int = 0x80_0000 + fr;
            let e: int = e32 - 150;
            // The widened pattern reads m32 * 2^29 at exponent e - 29.
            assert(ew - 1075 == e - 29);
            if e >= 29 {
                lemma_pow2_adds(29, (e - 29) as nat);
                assert(mw * pow2((e - 29) as nat) == m32 * pow2(e as nat)) by (nonlinear_arith)
                    requires
                        mw == m32 * pow2(29),
                        pow2(e as nat) == pow2(29) * pow2((e - 29) as nat),
                ;
            } else if e >= 0 {
                // 0 <= e < 29: the wide mantissa sheds the factor exactly.
                let ne: nat = (29 - e) as nat;
                lemma_pow2_adds(e as nat, ne);
                assert(mw == (m32 * pow2(e as nat)) * pow2(ne)) by (nonlinear_arith)
                    requires
                        mw == m32 * pow2(29),
                        pow2(29) == pow2(e as nat) * pow2(ne),
                ;
                lemma_scaled_div_mod(m32 * pow2(e as nat), ne, 0);
                assert(pow2(0) == 1);
                assert((mw % (pow2(ne) as int) == 0) && mw / (pow2(ne) as int) == m32 * pow2(
                    e as nat,
                )) by {
                    lemma_pow2_pos(ne);
                    vstd::arithmetic::div_mod::lemma_mod_multiples_basic(
                        m32 * pow2(e as nat),
                        pow2(ne) as int,
                    );
                    vstd::arithmetic::div_mod::lemma_div_multiples_vanish(
                        m32 * pow2(e as nat),
                        pow2(ne) as int,
                    );
                }
            } else {
                // e < 0: divisibility by 2^(-e) carries across the widening.
                let t: nat = (-e) as nat;
                lemma_scaled_div_mod(m32, 29, t);
                assert(29 + t == 1075 - ew);
            }
        }
    }
}

} // verus!
