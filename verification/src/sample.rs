//! Interpretation of 64-bit IEEE 754 patterns, and the conversion of
//! real-valued audio samples into signed 16-bit PCM.
//!
//! Real numbers cross this library's boundary as the 64-bit patterns that
//! encode them, so the conversion of a synthesized sample into a PCM value is
//! stated and verified directly over the pattern's sign, exponent and
//! mantissa fields.
use vstd::prelude::*;

verus! {

/// Mantissa field of a 64-bit IEEE 754 pattern (low 52 bits).
pub const F64_MANTISSA_MASK: u64 = 0x000F_FFFF_FFFF_FFFF;

/// A pattern whose sign bit is set and whose magnitude bits are all zero:
/// negative zero.
pub const F64_NEGATIVE_ZERO_BITS: u64 = 0x8000_0000_0000_0000;

/// The pattern of 1.0.
pub const F64_ONE_BITS: u64 = 0x3FF0_0000_0000_0000;

/// The pattern of 0.000001, the smallest speech speed the acoustic engine
/// will store.
pub const F64_ONE_MILLIONTH_BITS: u64 = 0x3EB0_C6F7_A0B5_ED8D;

/// The implicit leading bit of a normal IEEE 754 number, in mantissa
/// position: 2^52.
pub const F64_IMPLICIT_BIT: u64 = 0x0010_0000_0000_0000;

/// The exponent field of a 64-bit IEEE 754 pattern (11 bits).
pub open spec fn f64_bits_exponent(bits: u64) -> u64 {
    (bits >> 52) & 0x7FF
}

/// The mantissa field of a 64-bit IEEE 754 pattern (52 bits).
pub open spec fn f64_bits_mantissa(bits: u64) -> u64 {
    bits & F64_MANTISSA_MASK
}

/// Whether the sign bit of a 64-bit IEEE 754 pattern is set.
pub open spec fn f64_bits_is_negative(bits: u64) -> bool {
    bits >> 63 == 1
}

/// Whether a 64-bit IEEE 754 pattern encodes a NaN: exponent field all ones
/// and a non-zero mantissa.
pub open spec fn f64_bits_is_nan(bits: u64) -> bool {
    f64_bits_exponent(bits) == 0x7FF && f64_bits_mantissa(bits) != 0
}

/// The integer part of the magnitude of a normal number with unbiased
/// exponent in [0, 15]: the significand (implicit bit plus mantissa) shifted
/// down to drop the fractional bits. Always below 65536.
pub open spec fn f64_bits_small_integer_part(bits: u64) -> u64 {
    (F64_IMPLICIT_BIT | f64_bits_mantissa(bits)) >> ((1075 - f64_bits_exponent(bits)) as u64)
}

/// The signed 16-bit PCM value of one real sample, given as its IEEE 754
/// pattern: saturating clamp then truncation toward zero.
///
/// - NaN converts to 0, as both saturation comparisons are false and the
///   integer cast of NaN is 0.
/// - Magnitudes below 1 (exponent field under the bias 1023, including both
///   zeros and subnormals) truncate to 0.
/// - Magnitudes of 65536 and above (unbiased exponent 16 or more, including
///   the infinities) saturate to -32768 or 32767.
/// - Everything else truncates toward zero, then saturates to the same
///   bounds.
pub open spec fn spec_clamp_sample(bits: u64) -> int {
    if f64_bits_is_nan(bits) {
        0
    } else if f64_bits_exponent(bits) < 1023 {
        0
    } else if f64_bits_exponent(bits) >= 1039 {
        if f64_bits_is_negative(bits) {
            -32768
        } else {
            32767
        }
    } else {
        let t = f64_bits_small_integer_part(bits) as int;
        if f64_bits_is_negative(bits) {
            if t >= 32768 {
                -32768
            } else {
                -t
            }
        } else {
            if t >= 32767 {
                32767
            } else {
                t
            }
        }
    }
}

/// Every converted sample lies in the signed 16-bit range.
pub proof fn lemma_clamp_sample_in_range(bits: u64)
    ensures
        -32768 <= spec_clamp_sample(bits) <= 32767,
{
}

/// Converts one real sample, given as its IEEE 754 pattern, to a signed
/// 16-bit PCM value by saturating clamp then truncation toward zero.
pub fn clamp_sample(bits: u64) -> (r: i16)
    ensures
        r as int == spec_clamp_sample(bits),
{
    let exponent: u64 = (bits >> 52) & 0x7FF;
    let mantissa: u64 = bits & F64_MANTISSA_MASK;
    let negative: bool = (bits >> 63) == 1;
    if exponent == 0x7FF && mantissa != 0 {
        0
    } else if exponent < 1023 {
        0
    } else if exponent >= 1039 {
        if negative {
            -32768
        } else {
            32767
        }
    } else {
        let shift: u64 = 1075 - exponent;
        let t: u64 = (F64_IMPLICIT_BIT | mantissa) >> shift;
        proof {
            assert(t < 65536) by (bit_vector)
                requires
                    t == (0x0010_0000_0000_0000u64 | (bits & 0x000F_FFFF_FFFF_FFFFu64)) >> shift,
                    37 <= shift <= 52,
            ;
        }
        if negative {
            if t >= 32768 {
                -32768
            } else {
                -(t as i16)
            }
        } else {
            if t >= 32767 {
                32767
            } else {
                t as i16
            }
        }
    }
}

/// Whether a PCM sequence is the converted image of a raw sample sequence:
/// same length, each element the saturating conversion of its counterpart.
pub open spec fn spec_converted(out: Seq<i16>, raw: Seq<u64>) -> bool {
    &&& out.len() == raw.len()
    &&& forall|i: int| 0 <= i < raw.len() ==> out[i] as int == spec_clamp_sample(raw[i])
}

/// Converts every real sample of a buffer, given as IEEE 754 patterns, to
/// signed 16-bit PCM, in order, one output sample per input sample.
pub fn convert_samples(samples: &Vec<u64>) -> (out: Vec<i16>)
    ensures
        spec_converted(out@, samples@),
{
    let mut out: Vec<i16> = Vec::new();
    let mut idx: usize = 0;
    while idx < samples.len()
        invariant
            idx <= samples@.len(),
            out@.len() == idx,
            forall|i: int| 0 <= i < idx ==> out@[i] as int == spec_clamp_sample(samples@[i]),
        decreases samples@.len() - idx,
    {
        let converted = clamp_sample(samples[idx]);
        out.push(converted);
        idx = idx + 1;
    }
    out
}

/// What the acoustic engine stores when a unit-interval parameter (the
/// spectral warping alpha, the postfilter beta, a voiced/unvoiced threshold)
/// is set: the value clamped into [0.0, 1.0]. NaN is kept as it is, negative
/// values (negative zero excepted) become 0.0, values above 1.0 become 1.0.
pub open spec fn clamp_unit_bits(bits: u64) -> u64 {
    if f64_bits_is_nan(bits) {
        bits
    } else if bits > F64_NEGATIVE_ZERO_BITS {
        0
    } else if bits < F64_NEGATIVE_ZERO_BITS && bits > F64_ONE_BITS {
        F64_ONE_BITS
    } else {
        bits
    }
}

/// What the acoustic engine stores when the speech speed is set: the value
/// or 0.000001, whichever is greater; NaN also becomes 0.000001.
pub open spec fn speed_stored_bits(bits: u64) -> u64 {
    if f64_bits_is_nan(bits) {
        F64_ONE_MILLIONTH_BITS
    } else if bits < F64_NEGATIVE_ZERO_BITS && bits > F64_ONE_MILLIONTH_BITS {
        bits
    } else {
        F64_ONE_MILLIONTH_BITS
    }
}

/// What the engine stores when a sampling frequency or frame period is set:
/// the value, raised to at least 1.
pub open spec fn at_least_one(i: usize) -> u64 {
    if i == 0 {
        1
    } else {
        i as u64
    }
}

} // verus!
