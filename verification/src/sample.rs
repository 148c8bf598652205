use vstd::prelude::*;
use vstd::arithmetic::div_mod::{lemma_basic_div, lemma_div_is_ordered_by_denominator,
    lemma_multiply_divide_lt};
use vstd::arithmetic::power2::{pow2, lemma_pow2_pos, lemma_pow2_strictly_increases, lemma2_to64};
use vstd::bits::lemma_u64_shr_is_div;

verus! {

// A captured sample travels through the library as the raw 32-bit pattern of
// an IEEE 754 single-precision number, little-endian on the wire.  All of the
// quantization below is integer arithmetic on that pattern, so the exact
// value of every output sample is pinned down without any machine
// floating-point operation.

/// Largest magnitude a quantized sample can take; quantization scales by this
/// factor, so a full-scale input maps to 32767 and its negation to -32767.
pub const MAX_AMPLITUDE: u16 = 32767;

/// Sign field of an IEEE 754 single-precision bit pattern: 1 means negative.
pub open spec fn f32_sign(bits: u32) -> int {
    bits as int / 0x8000_0000
}

/// Biased exponent field of an IEEE 754 single-precision bit pattern.
pub open spec fn f32_exp(bits: u32) -> int {
    (bits as int / 0x80_0000) % 0x100
}

/// Fraction field of an IEEE 754 single-precision bit pattern.
pub open spec fn f32_frac(bits: u32) -> int {
    bits as int % 0x80_0000
}

/// Magnitude of the quantized value of the sample with the given bit pattern:
/// the encoded magnitude is clamped to 1, scaled by `MAX_AMPLITUDE` and
/// truncated toward zero.
///
/// A normal number with exponent field `e < 127` has magnitude
/// `(2^23 + frac) * 2^(e - 150) < 1`, so its scaled, truncated value is
/// `(2^23 + frac) * 32767 / 2^(150 - e)`.  Any exponent field of 127 or more
/// means a magnitude of at least 1 (or an infinity), which clamps to full
/// scale.  A NaN quantizes to 0, and a subnormal (`e == 0`) has magnitude
/// below `2^-126`, far below the smallest value that scales to 1.
pub open spec fn quant_mag(bits: u32) -> int {
    let e = f32_exp(bits);
    let m = f32_frac(bits);
    if e == 0xFF && m != 0 {
        0
    } else if e >= 127 {
        MAX_AMPLITUDE as int
    } else if e == 0 {
        0
    } else {
        ((0x80_0000 + m) * (MAX_AMPLITUDE as int)) / pow2((150 - e) as nat) as int
    }
}

/// The quantized value of the sample with the given bit pattern: its
/// magnitude with the encoded sign applied.
pub open spec fn quantize_spec(bits: u32) -> int {
    if f32_sign(bits) == 1 {
        -quant_mag(bits)
    } else {
        quant_mag(bits)
    }
}

/// The quantized magnitude never exceeds full scale.
pub proof fn lemma_quant_mag_bound(bits: u32)
    ensures
        0 <= quant_mag(bits) <= MAX_AMPLITUDE as int,
{
    let e = f32_exp(bits);
    let m = f32_frac(bits);
    if 1 <= e < 127 {
        let sh = (150 - e) as nat;
        let prod = (0x80_0000 + m) * (MAX_AMPLITUDE as int);
        lemma_pow2_pos(sh);
        assert(prod < pow2(24) as int * (MAX_AMPLITUDE as int)) by {
            lemma2_to64();
        }
        if sh > 24 {
            lemma_pow2_strictly_increases(24, sh);
        }
        lemma_div_is_ordered_by_denominator(prod, pow2(24) as int, pow2(sh) as int);
        lemma_multiply_divide_lt(prod, pow2(24) as int, MAX_AMPLITUDE as int);
        assert(prod / pow2(sh) as int >= 0) by {
            vstd::arithmetic::div_mod::lemma_div_pos_is_pos(prod, pow2(sh) as int);
        }
    }
}

/// Quantizes one sample: the IEEE 754 magnitude is clamped to full scale,
/// scaled by `MAX_AMPLITUDE` and truncated toward zero, and the sign is
/// applied.  A NaN pattern quantizes to 0.
pub fn quantize_sample(bits: u32) -> (r: i16)
    ensures
        r as int == quantize_spec(bits),
{
    let sign: u32 = bits / 0x8000_0000;
    let e: u32 = (bits / 0x80_0000) % 0x100;
    let m: u32 = bits % 0x80_0000;
    proof {
        lemma_quant_mag_bound(bits);
    }
    let mag: u16 = if e == 0xFF && m != 0 {
        0
    } else if e >= 127 {
        MAX_AMPLITUDE
    } else if e == 0 {
        0
    } else {
        // e in 1..=126, so the scaling divides by 2^shift with shift in 24..=149.
        let shift: u64 = (150 - e) as u64;
        let prod: u64 = (0x80_0000u64 + m as u64) * (MAX_AMPLITUDE as u64);
        proof {
            lemma2_to64();
            assert(prod < pow2(39)) by {
                assert(0x80_0000 + m < 0x100_0000 == pow2(24));
                assert((0x80_0000 + m as int) * (MAX_AMPLITUDE as int)
                    < pow2(24) * (MAX_AMPLITUDE as int))
                by {
                    vstd::arithmetic::mul::lemma_mul_strict_inequality(
                        0x80_0000 + m as int, pow2(24) as int, MAX_AMPLITUDE as int);
                }
                assert(pow2(24) * (MAX_AMPLITUDE as int) < pow2(24) * pow2(15)) by {
                    vstd::arithmetic::mul::lemma_mul_strict_inequality(
                        MAX_AMPLITUDE as int, pow2(15) as int, pow2(24) as int);
                }
                vstd::arithmetic::power2::lemma_pow2_adds(24, 15);
            }
        }
        if shift >= 40 {
            proof {
                lemma_pow2_strictly_increases(39, shift as nat);
                lemma_basic_div(prod as int, pow2(shift as nat) as int);
            }
            0
        } else {
            let sh: u64 = prod >> shift;
            proof {
                lemma_u64_shr_is_div(prod, shift);
            }
            sh as u16
        }
    };
    if sign == 1 {
        -(mag as i16)
    } else {
        mag as i16
    }
}

} // verus!
