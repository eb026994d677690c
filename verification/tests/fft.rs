use spectrum_fft::fft::microfft_complex::FftImpl;
use spectrum_fft::fft::FftError;

const SUPPORTED_LENS: [usize; 12] = [2, 4, 8, 16, 32, 64, 128, 256, 512, 1024, 2048, 4096];

fn bits_of(samples: &[f32]) -> Vec<u32> {
    samples.iter().map(|x| x.to_bits()).collect()
}

#[test]
fn relevant_bin_count_small() {
    assert_eq!(FftImpl::fft_relevant_res_samples_count(8), 5);
    assert_eq!(FftImpl::fft_relevant_res_samples_count(2), 2);
    assert_eq!(FftImpl::fft_relevant_res_samples_count(7), 4);
}

#[test]
fn relevant_bin_count_large() {
    assert_eq!(FftImpl::fft_relevant_res_samples_count(1024), 513);
    assert_eq!(FftImpl::fft_relevant_res_samples_count(4096), 2049);
}

#[test]
fn magnitude_three_four_five() {
    let r = FftImpl::fft_map_result_to_f32(&(3.0f32.to_bits(), 4.0f32.to_bits()));
    assert_eq!(f32::from_bits(r), 5.0);
}

#[test]
fn magnitude_of_zero_is_zero() {
    let r = FftImpl::fft_map_result_to_f32(&(0.0f32.to_bits(), 0.0f32.to_bits()));
    assert_eq!(f32::from_bits(r), 0.0);
}

#[test]
fn samples_to_complex_pairs_each_sample_with_zero() {
    let samples = bits_of(&[1.5, -2.25, 0.0, 42.0]);
    let buffer = FftImpl::samples_to_complex(&samples);
    assert_eq!(buffer.len(), 4);
    for (i, &(re, im)) in buffer.iter().enumerate() {
        assert_eq!(re, samples[i]);
        assert_eq!(im, 0);
    }
}

#[test]
fn transform_rejects_unsupported_lengths() {
    for len in [0usize, 1, 3, 5, 6, 100, 4095, 8192] {
        let samples = vec![1.0f32.to_bits(); len];
        let r = FftImpl::fft_apply(&samples);
        assert!(matches!(r, Err(FftError::UnsupportedLength)));
    }
}

#[test]
fn transform_accepts_every_supported_length() {
    for &len in SUPPORTED_LENS.iter() {
        let samples = vec![1.0f32.to_bits(); len];
        let r = FftImpl::fft_apply(&samples);
        assert_eq!(r.unwrap().len(), len);
    }
}

#[test]
fn transform_of_zeros_is_zero() {
    for &len in SUPPORTED_LENS.iter() {
        let samples = vec![0.0f32.to_bits(); len];
        let result = FftImpl::fft_apply(&samples).unwrap();
        assert_eq!(result.len(), len);
        for &(re, im) in &result {
            assert_eq!(f32::from_bits(re), 0.0);
            assert_eq!(f32::from_bits(im), 0.0);
            let mag = FftImpl::fft_map_result_to_f32(&(re, im));
            assert_eq!(f32::from_bits(mag), 0.0);
        }
    }
}

#[test]
fn transform_two_points_exactly() {
    let samples = bits_of(&[1.0, 2.0]);
    let result = FftImpl::fft_apply(&samples).unwrap();
    assert_eq!(result.len(), 2);
    assert_eq!(f32::from_bits(result[0].0), 3.0);
    assert_eq!(f32::from_bits(result[0].1), 0.0);
    assert_eq!(f32::from_bits(result[1].0), -1.0);
    assert_eq!(f32::from_bits(result[1].1), 0.0);
}

#[test]
fn transform_of_impulse_is_flat() {
    // The transform of a unit impulse is exactly one in every bin, for
    // every kernel size.
    for &len in SUPPORTED_LENS.iter() {
        let mut samples = vec![0.0f32; len];
        samples[0] = 1.0;
        let result = FftImpl::fft_apply(&bits_of(&samples)).unwrap();
        assert_eq!(result.len(), len);
        for &(re, im) in &result {
            assert_eq!(f32::from_bits(re), 1.0);
            assert_eq!(f32::from_bits(im), 0.0);
        }
    }
}

#[test]
fn transform_of_sinusoid_peaks_at_its_bin() {
    // A sinusoid completing 5 cycles over 64 samples concentrates its
    // energy in bin 5 of the truncated magnitude spectrum.
    let n: usize = 64;
    let cycles = 5.0f32;
    let samples: Vec<f32> = (0..n)
        .map(|i| (2.0 * std::f32::consts::PI * cycles * i as f32 / n as f32).sin())
        .collect();
    let result = FftImpl::fft_apply(&bits_of(&samples)).unwrap();
    let relevant = FftImpl::fft_relevant_res_samples_count(n);
    assert_eq!(relevant, 33);
    let magnitudes: Vec<f32> = result[..relevant]
        .iter()
        .map(|val| f32::from_bits(FftImpl::fft_map_result_to_f32(val)))
        .collect();
    let mut peak_bin = 0usize;
    for (i, &m) in magnitudes.iter().enumerate() {
        if m > magnitudes[peak_bin] {
            peak_bin = i;
        }
    }
    assert_eq!(peak_bin, 5);
    // The peak carries nearly all the energy: n/2 up to rounding.
    assert!((magnitudes[5] - 32.0).abs() < 0.01);
}

#[test]
fn transform_is_deterministic() {
    let samples: Vec<f32> = (0..32).map(|i| (i as f32 * 0.37).cos() - 0.25).collect();
    let first = FftImpl::fft_apply(&bits_of(&samples)).unwrap();
    let second = FftImpl::fft_apply(&bits_of(&samples)).unwrap();
    assert_eq!(first, second);
}
