use speech_sampler::codec::dequantize;
use speech_sampler::codec::quantize;
use speech_sampler::codec::quantize_frame;
use speech_sampler::codec::SAMPLE_ONE;

#[test]
fn quantize_exact_values() {
    assert_eq!(quantize(0), 0);
    assert_eq!(quantize(SAMPLE_ONE), 32767);
    assert_eq!(quantize(-SAMPLE_ONE), -32767);
    // 16384 * 32767 / 32768 = 16383.5, truncated toward zero
    assert_eq!(quantize(16384), 16383);
    assert_eq!(quantize(-16384), -16383);
    // 1 * 32767 / 32768 truncates to zero
    assert_eq!(quantize(1), 0);
    assert_eq!(quantize(2), 1);
}

#[test]
fn quantize_clamps_out_of_range_amplitudes() {
    assert_eq!(quantize(40_000), 32767);
    assert_eq!(quantize(i32::MAX), 32767);
    assert_eq!(quantize(-40_000), -32767);
    assert_eq!(quantize(i32::MIN), -32767);
}

#[test]
fn dequantize_exact_values() {
    assert_eq!(dequantize(0), 0);
    assert_eq!(dequantize(32767), 32768);
    assert_eq!(dequantize(-32767), -32768);
    assert_eq!(dequantize(1), 1);
}

#[test]
fn round_trip_fixed_point_within_one_step() {
    let mut s = -32768i32;
    while s <= 32768 {
        let back = dequantize(quantize(s));
        let diff = (s - back).abs();
        assert!(diff <= 1, "sample {} came back as {}", s, back);
        s += 7;
    }
}

#[test]
fn round_trip_float_within_one_quantization_step() {
    // Amplitudes exactly representable in fixed point: the decoded value
    // must land within one quantization step, 1/32767, of the original.
    for k in -32768i32..=32768 {
        if k % 97 != 0 && k.abs() != 32768 && k != 1 {
            continue;
        }
        let x = k as f64 / 32768.0;
        let fixed = (x * 32768.0) as i32;
        let q = quantize(fixed);
        let decoded = q as f64 / 32767.0;
        assert!(
            (decoded - x).abs() <= 1.0 / 32767.0,
            "amplitude {} decoded to {}",
            x,
            decoded
        );
    }
}

#[test]
fn round_trip_arbitrary_float_within_step_plus_rounding() {
    // Arbitrary amplitudes pick up at most half a fixed-point unit on the
    // way in, on top of the quantization step itself.
    let tolerance = 1.0 / 32767.0 + 1.0 / 65536.0;
    let mut x = -1.0f64;
    while x <= 1.0 {
        let fixed = (x * 32768.0).round() as i32;
        let q = quantize(fixed);
        let decoded = q as f64 / 32767.0;
        assert!(
            (decoded - x).abs() <= tolerance,
            "amplitude {} decoded to {}",
            x,
            decoded
        );
        x += 0.000_37;
    }
}

#[test]
fn quantize_frame_maps_each_sample_in_order() {
    let samples = vec![0, SAMPLE_ONE, -SAMPLE_ONE, 16384, 40_000];
    let out = quantize_frame(&samples);
    assert_eq!(out, vec![0, 32767, -32767, 16383, 32767]);
}
