//! Numeric conversion between signed words and single-precision values,
//! computed on the bit patterns.
use crate::alu::{float_is_nan, float_magnitude, magnitude};
use vstd::arithmetic::power2::{
    lemma2_to64, lemma_pow2_pos, lemma_pow2_strictly_increases, lemma_pow2_unfold, pow2,
};
use vstd::prelude::*;

verus! {

/// The exponent field of a single-precision pattern.
pub open spec fn float_exponent(x: u32) -> int {
    float_magnitude(x) / 0x80_0000
}

/// The significand of a normal single-precision pattern, as an integer of
/// 24 bits: the value is this times two to the `float_exponent` less 150.
pub open spec fn float_significand(x: u32) -> int {
    0x80_0000 + float_magnitude(x) % 0x80_0000
}

/// The signed word nearest to the value of a single-precision pattern, going
/// toward zero: no number gives zero, and a value beyond the words gives the
/// last word on its side.
pub open spec fn int_of_float(x: u32) -> i32 {
    let e = float_exponent(x);
    let whole: int = if float_is_nan(x) || e < 127 {
        0
    } else if e >= 158 {
        if x >= 0x8000_0000 {
            0x8000_0000
        } else {
            0x7fff_ffff
        }
    } else if e >= 150 {
        float_significand(x) * pow2((e - 150) as nat)
    } else {
        float_significand(x) / (pow2((150 - e) as nat) as int)
    };
    if x >= 0x8000_0000 {
        (-whole) as i32
    } else {
        whole as i32
    }
}

/// The position of the highest set bit of `m`: the `k` with
/// `2^k <= m < 2^(k+1)`, and zero for zero.
pub open spec fn highest_bit(m: nat) -> nat
    decreases m,
{
    if m <= 1 {
        0
    } else {
        1 + highest_bit(m / 2)
    }
}

/// The integer nearest to `m / unit`, the even one of two that are equally
/// near.
pub open spec fn round_half_even(m: nat, unit: nat) -> nat {
    let q = m / unit;
    let r = m % unit;
    if 2 * r > unit || (2 * r == unit && q % 2 == 1) {
        q + 1
    } else {
        q
    }
}

/// The single-precision pattern of the value nearest to a signed word, the
/// one with an even significand of two that are equally near.
pub open spec fn float_of_int(v: i32) -> u32 {
    if v == 0 {
        0
    } else {
        let m = magnitude(v as int) as nat;
        let k = highest_bit(m);
        let significand: int = if k <= 23 {
            (m * pow2((23 - k) as nat)) as int
        } else {
            round_half_even(m, pow2((k - 23) as nat)) as int
        };
        let sign: int = if v < 0 {
            0x8000_0000
        } else {
            0
        };
        (sign + (k + 127) * 0x80_0000 + (significand - 0x80_0000)) as u32
    }
}

/// Two to the `k`.
pub fn power_of_two(k: u32) -> (r: u64)
    requires
        k <= 32,
    ensures
        r == pow2(k as nat),
{
    let mut r: u64 = 1;
    let mut i: u32 = 0;
    proof {
        lemma2_to64();
    }
    while i < k
        invariant
            i <= k <= 32,
            r == pow2(i as nat),
        decreases k - i,
    {
        proof {
            lemma2_to64();
            lemma_pow2_unfold((i + 1) as nat);
            lemma_pow2_strictly_increases(i as nat, 32);
        }
        r = r * 2;
        i = i + 1;
    }
    r
}

/// A number between two neighbouring powers of two has its highest bit at
/// the lower one.
pub proof fn lemma_highest_bit(m: nat, k: nat)
    requires
        pow2(k) <= m < pow2(k + 1),
    ensures
        highest_bit(m) == k,
    decreases k,
{
    lemma2_to64();
    if k == 0 {
        lemma_pow2_unfold(1);
    } else {
        lemma_pow2_unfold(k);
        lemma_pow2_unfold(k + 1);
        lemma_highest_bit(m / 2, (k - 1) as nat);
    }
}

/// Converts the value of a single-precision pattern to a signed word.
pub fn float_to_int(x: u32) -> (r: i32)
    ensures
        r == int_of_float(x),
{
    let negative: bool = x >= 0x8000_0000;
    let bits: u32 = if negative {
        x - 0x8000_0000
    } else {
        x
    };
    let exponent: u32 = bits / 0x80_0000;
    let significand: u64 = (0x80_0000 + bits % 0x80_0000) as u64;
    if bits > 0x7f80_0000 || exponent < 127 {
        return 0;
    }
    if exponent >= 158 {
        if negative {
            return i32::MIN;
        } else {
            return i32::MAX;
        }
    }
    proof {
        lemma2_to64();
    }
    let whole: u64 = if exponent >= 150 {
        let scale: u64 = power_of_two(exponent - 150);
        proof {
            if exponent > 150 {
                lemma_pow2_strictly_increases((exponent - 150) as nat, 8);
            }
        }
        assert(significand * scale < 0x8000_0000) by (nonlinear_arith)
            requires
                significand < 0x100_0000,
                scale <= 0x80,
        ;
        significand * scale
    } else {
        let scale: u64 = power_of_two(150 - exponent);
        proof {
            lemma_pow2_pos((150 - exponent) as nat);
        }
        assert(0 <= significand / scale <= significand) by (nonlinear_arith)
            requires
                0 <= significand,
                scale >= 1,
        ;
        significand / scale
    };
    if negative {
        0 - (whole as i32)
    } else {
        whole as i32
    }
}

/// Converts a signed word to the pattern of the nearest single-precision
/// value.
pub fn int_to_float(v: i32) -> (r: u32)
    ensures
        r == float_of_int(v),
{
    if v == 0 {
        return 0;
    }
    let m: u64 = if v < 0 {
        (0 - (v as i64)) as u64
    } else {
        v as u64
    };
    let mut k: u32 = 0;
    let mut top: u64 = 1;
    proof {
        lemma2_to64();
    }
    while top * 2 <= m
        invariant
            1 <= m <= 0x8000_0000,
            k <= 31,
            top == pow2(k as nat),
            top <= m,
        decreases 32 - k,
    {
        proof {
            lemma2_to64();
            lemma_pow2_unfold((k + 1) as nat);
            if k == 31 {
                assert(false);
            }
        }
        top = top * 2;
        k = k + 1;
    }
    proof {
        lemma_pow2_unfold((k + 1) as nat);
        lemma_highest_bit(m as nat, k as nat);
    }
    let significand: u64 = if k <= 23 {
        let scale: u64 = power_of_two(23 - k);
        proof {
            lemma_pow2_unfold((k + 1) as nat);
            vstd::arithmetic::power2::lemma_pow2_adds((k + 1) as nat, (23 - k) as nat);
            assert(m * scale < 0x100_0000 && m * scale >= 0x80_0000) by (nonlinear_arith)
                requires
                    top <= m < 2 * top,
                    2 * top * scale == 0x100_0000,
                    scale >= 1,
                    top >= 1,
            ;
        }
        m * scale
    } else {
        let unit: u64 = power_of_two(k - 23);
        proof {
            lemma_pow2_pos((k - 23) as nat);
            vstd::arithmetic::power2::lemma_pow2_adds(23, (k - 23) as nat);
            assert(0x80_0000 <= m / unit < 0x100_0000 && m % unit < unit) by (nonlinear_arith)
                requires
                    top <= m < 2 * top,
                    0x80_0000 * unit == top,
                    unit >= 1,
            ;
        }
        let q: u64 = m / unit;
        let r: u64 = m % unit;
        if 2 * r > unit || (2 * r == unit && q % 2 == 1) {
            q + 1
        } else {
            q
        }
    };
    let sign: u64 = if v < 0 {
        0x8000_0000
    } else {
        0
    };
    let bits: u64 = sign + (k as u64 + 127) * 0x80_0000 + (significand - 0x80_0000);
    bits as u32
}

} // verus!
