//! Amplitude quantization for the sink: clamp a fixed-point sample to full
//! scale, then scale it to a signed 16-bit integer. A fixed-point sample is
//! an `i32` holding `amplitude * SAMPLE_ONE`, so `SAMPLE_ONE` stands for
//! amplitude `1.0` and the quantization step is `SAMPLE_ONE / 32767` of a
//! fixed-point unit.

use vstd::prelude::*;
use vstd::arithmetic::div_mod::lemma_fundamental_div_mod;
use vstd::arithmetic::div_mod::lemma_mod_bound;

verus! {

/// Fixed-point value of full-scale amplitude `1.0`.
pub const SAMPLE_ONE: i32 = 32768;

/// A sample clamped to full scale, `[-1.0, 1.0]` in fixed point.
pub open spec fn clamped(s: int) -> int {
    if s < -32768 {
        -32768
    } else if s > 32768 {
        32768
    } else {
        s
    }
}

/// Quantization of a non-negative in-range magnitude: scale full scale
/// `32768` down to the 16-bit maximum `32767`, truncating toward zero.
pub open spec fn quantize_mag(m: int) -> int {
    (m * 32767) / 32768
}

/// What the sink stores for a fixed-point sample: clamp, then scale to a
/// signed 16-bit integer, truncating toward zero as the cast does.
pub open spec fn quantize_spec(s: int) -> int {
    if clamped(s) >= 0 {
        quantize_mag(clamped(s))
    } else {
        -quantize_mag(-clamped(s))
    }
}

/// Decoding of a non-negative stored magnitude back to fixed point.
pub open spec fn dequantize_mag(m: int) -> int {
    (m * 32768) / 32767
}

/// The fixed-point sample a stored 16-bit value decodes back to,
/// truncating toward zero.
pub open spec fn dequantize_spec(q: int) -> int {
    if q >= 0 {
        dequantize_mag(q)
    } else {
        -dequantize_mag(-q)
    }
}

proof fn lemma_quantize_mag_bounds(m: int)
    requires
        0 <= m <= 32768,
    ensures
        0 <= quantize_mag(m) <= 32767,
        0 <= m * 32767 - 32768 * quantize_mag(m) < 32768,
{
    lemma_fundamental_div_mod(m * 32767, 32768);
    lemma_mod_bound(m * 32767, 32768);
}

/// The stored value always fits a signed 16-bit integer.
pub proof fn lemma_quantize_in_range(s: int)
    ensures
        -32767 <= quantize_spec(s) <= 32767,
{
    if clamped(s) >= 0 {
        lemma_quantize_mag_bounds(clamped(s));
    } else {
        lemma_quantize_mag_bounds(-clamped(s));
    }
}

proof fn lemma_dequantize_mag_bounds(m: int)
    requires
        0 <= m <= 32767,
    ensures
        0 <= dequantize_mag(m) <= 32768,
        0 <= m * 32768 - 32767 * dequantize_mag(m) < 32767,
{
    lemma_fundamental_div_mod(m * 32768, 32767);
    lemma_mod_bound(m * 32768, 32767);
}

proof fn lemma_round_trip_mag(m: int)
    requires
        0 <= m <= 32768,
    ensures
        0 <= m - dequantize_mag(quantize_mag(m)) <= 1,
{
    let q = quantize_mag(m);
    lemma_quantize_mag_bounds(m);
    let d = dequantize_mag(q);
    lemma_dequantize_mag_bounds(q);
    let r1 = m * 32767 - 32768 * q;
    let r2 = q * 32768 - 32767 * d;
    assert(32767 * (m - d) == r1 + r2) by (nonlinear_arith)
        requires
            m * 32767 == 32768 * q + r1,
            q * 32768 == 32767 * d + r2,
    ;
}

/// Quantization loses at most one step: a clamped sample, stored and
/// decoded back, lands within one fixed-point quantization step of where
/// it started, and the decoding error never grows a sample's magnitude.
/// Equivalently, the ideal decoded amplitude `q / 32767` differs from the
/// clamped amplitude `s / 32768` by less than `1 / 32767`.
pub proof fn lemma_quantize_round_trip(s: int)
    requires
        -32768 <= s <= 32768,
    ensures
        -1 <= s - dequantize_spec(quantize_spec(s)) <= 1,
        -32768 < s * 32767 - quantize_spec(s) * 32768 < 32768,
{
    if s >= 0 {
        lemma_round_trip_mag(s);
        lemma_quantize_mag_bounds(s);
        lemma_quantize_in_range(s);
        assert(dequantize_spec(quantize_spec(s)) == dequantize_mag(quantize_mag(s)));
    } else {
        lemma_round_trip_mag(-s);
        lemma_quantize_mag_bounds(-s);
        lemma_quantize_in_range(s);
        assert(quantize_spec(s) == -quantize_mag(-s));
        if quantize_mag(-s) == 0 {
            assert(dequantize_spec(quantize_spec(s)) == dequantize_mag(0));
        } else {
            assert(dequantize_spec(quantize_spec(s)) == -dequantize_mag(quantize_mag(-s)));
        }
    }
}

/// Quantize one fixed-point sample for the sink: clamp to full scale, then
/// scale to a signed 16-bit integer, truncating toward zero.
pub fn quantize(s: i32) -> (q: i16)
    ensures
        q as int == quantize_spec(s as int),
{
    proof {
        lemma_quantize_in_range(s as int);
    }
    if s >= 0 {
        let mag: u64 = if s > 32768 {
            32768
        } else {
            s as u64
        };
        proof {
            lemma_quantize_mag_bounds(mag as int);
        }
        ((mag * 32767) / 32768) as i16
    } else {
        let neg: i64 = -(s as i64);
        let mag: u64 = if neg > 32768 {
            32768
        } else {
            neg as u64
        };
        proof {
            lemma_quantize_mag_bounds(mag as int);
        }
        let qm: u64 = (mag * 32767) / 32768;
        (-(qm as i64)) as i16
    }
}

/// Decode one stored 16-bit value back to a fixed-point sample,
/// truncating toward zero.
pub fn dequantize(q: i16) -> (s: i32)
    ensures
        s as int == dequantize_spec(q as int),
{
    if q >= 0 {
        let mag: u64 = q as u64;
        proof {
            lemma_dequantize_mag_bounds(mag as int);
        }
        ((mag * 32768) / 32767) as i32
    } else {
        let neg: i64 = -(q as i64);
        let mag: u64 = neg as u64;
        proof {
            lemma_fundamental_div_mod(mag as int * 32768, 32767);
            lemma_mod_bound(mag as int * 32768, 32767);
        }
        let dm: u64 = (mag * 32768) / 32767;
        (-(dm as i64)) as i32
    }
}

/// Quantize a whole drained span for the sink, sample by sample, in order.
pub fn quantize_frame(samples: &Vec<i32>) -> (out: Vec<i16>)
    ensures
        out@.len() == samples@.len(),
        forall|i: int|
            0 <= i < samples@.len() ==> out@[i] as int == quantize_spec(samples@[i] as int),
{
    let n = samples.len();
    let mut out: Vec<i16> = Vec::new();
    for i in 0..n
        invariant
            n == samples@.len(),
            out@.len() == i,
            forall|k: int| 0 <= k < i ==> out@[k] as int == quantize_spec(samples@[k] as int),
    {
        let q = quantize(samples[i]);
        out.push(q);
    }
    out
}

} // verus!
