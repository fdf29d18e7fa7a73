use acoustic_modem::array::multiply;
use acoustic_modem::convolve::{correct_group_delay, zero_pad, ConvolutionPlan, ConvolveError};
use realfft::num_complex::Complex32;
use realfft::RealFftPlanner;

#[test]
fn plan_gives_the_padded_length_and_the_delay() {
    assert_eq!(ConvolutionPlan::new(3, 2), Ok(ConvolutionPlan { size: 4, shift: 1 }));
    assert_eq!(ConvolutionPlan::new(5, 5), Ok(ConvolutionPlan { size: 9, shift: 2 }));
    assert_eq!(ConvolutionPlan::new(1, 1), Ok(ConvolutionPlan { size: 1, shift: 0 }));
    assert_eq!(
        ConvolutionPlan::new(119070, 1152),
        Ok(ConvolutionPlan { size: 120221, shift: 576 })
    );
}

#[test]
fn plan_refuses_empty_inputs() {
    assert_eq!(ConvolutionPlan::new(0, 5), Err(ConvolveError::EmptySignal));
    assert_eq!(ConvolutionPlan::new(0, 0), Err(ConvolveError::EmptySignal));
    assert_eq!(ConvolutionPlan::new(5, 0), Err(ConvolveError::EmptyKernel));
}

#[test]
fn plan_refuses_lengths_that_do_not_fit() {
    assert_eq!(ConvolutionPlan::new(usize::MAX, 2), Err(ConvolveError::TooLong));
    assert_eq!(ConvolutionPlan::new(2, usize::MAX), Err(ConvolveError::TooLong));
    assert_eq!(
        ConvolutionPlan::new(usize::MAX, 1),
        Ok(ConvolutionPlan { size: usize::MAX, shift: 0 })
    );
}

#[test]
fn plan_counts_bins_and_valid_samples() {
    let plan = ConvolutionPlan::new(5, 4).unwrap();
    assert_eq!(plan.size, 8);
    assert_eq!(plan.spectrum_len(), 5);
    assert_eq!(plan.valid_len(), 6);
    let odd = ConvolutionPlan::new(5, 5).unwrap();
    assert_eq!(odd.spectrum_len(), 5);
    assert_eq!(odd.valid_len(), 7);
}

#[test]
fn zero_pad_appends_zeros() {
    let mut v = vec![1, 2, 3];
    zero_pad(&mut v, 6, 0);
    assert_eq!(v, vec![1, 2, 3, 0, 0, 0]);
    let mut empty: Vec<f32> = Vec::new();
    zero_pad(&mut empty, 2, 0.0);
    assert_eq!(empty, vec![0.0, 0.0]);
}

#[test]
fn zero_pad_cuts_what_is_longer() {
    let mut v = vec![1, 2, 3];
    zero_pad(&mut v, 2, 0);
    assert_eq!(v, vec![1, 2]);
    let mut same = vec![1, 2, 3];
    zero_pad(&mut same, 3, 0);
    assert_eq!(same, vec![1, 2, 3]);
}

#[test]
fn delay_correction_shifts_and_divides() {
    let mut raw = [10, 20, 30, 40, 50];
    correct_group_delay(&mut raw, 2, 10);
    assert_eq!(raw, [3, 4, 5, 40, 50]);
}

#[test]
fn delay_correction_without_delay_only_divides() {
    let mut raw = [2.0f32, 4.0, 8.0];
    correct_group_delay(&mut raw, 0, 2.0);
    assert_eq!(raw, [1.0, 2.0, 4.0]);
}

#[test]
fn delay_correction_by_the_whole_length_changes_nothing() {
    let mut raw = [7, 8, 9];
    correct_group_delay(&mut raw, 3, 2);
    assert_eq!(raw, [7, 8, 9]);
}

fn forward(planner: &mut RealFftPlanner<f32>, mut a: Vec<f32>) -> Vec<Complex32> {
    let fft = planner.plan_fft_forward(a.len());
    let mut output = fft.make_output_vec();
    fft.process(&mut a, &mut output).unwrap();
    output
}

fn inverse(planner: &mut RealFftPlanner<f32>, mut a: Vec<Complex32>, size: usize) -> Vec<f32> {
    let fft = planner.plan_fft_inverse(size);
    let mut output = fft.make_output_vec();
    fft.process(&mut a, &mut output).unwrap();
    for sample in output.iter_mut() {
        *sample /= size as f32;
    }
    output
}

fn convolve(mut signal: Vec<f32>, mut kernel: Vec<f32>) -> (Vec<f32>, ConvolutionPlan) {
    let mut planner = RealFftPlanner::<f32>::new();
    let plan = ConvolutionPlan::new(signal.len(), kernel.len()).unwrap();
    let gain: f32 = kernel.iter().sum();
    zero_pad(&mut signal, plan.size, 0.0);
    zero_pad(&mut kernel, plan.size, 0.0);
    let mut spectrum = forward(&mut planner, signal);
    let shaped = forward(&mut planner, kernel);
    assert_eq!(spectrum.len(), plan.spectrum_len());
    multiply(&mut spectrum, &shaped);
    let mut result = inverse(&mut planner, spectrum, plan.size);
    correct_group_delay(&mut result, plan.shift, gain);
    (result, plan)
}

#[test]
fn convolution_has_the_planned_length() {
    for (m, k) in [(5usize, 5usize), (8, 3), (7, 4), (16, 1), (2, 9)] {
        let (result, plan) = convolve(vec![1.0; m], vec![0.5; k]);
        assert_eq!(result.len(), m + k - 1);
        assert_eq!(plan.size, m + k - 1);
    }
}

#[test]
fn impulse_reproduces_the_kernel() {
    let kernel = vec![1.0f32, 2.0, 4.0, 2.0, 1.0];
    let total: f32 = 10.0;
    let mut impulse = vec![0.0f32; 5];
    impulse[2] = 1.0;
    let (result, plan) = convolve(impulse, kernel.clone());
    assert_eq!(plan.shift, 2);
    // The impulse sits at the group delay, so the kernel comes out in place.
    for i in 0..kernel.len() {
        assert!((result[i] - kernel[i] / total).abs() < 1e-5);
    }
    for i in kernel.len()..plan.valid_len() {
        assert!(result[i].abs() < 1e-5);
    }
}

#[test]
fn impulse_at_the_start_shifts_the_kernel_left() {
    let kernel = vec![3.0f32, 1.0, 2.0, 5.0];
    let total: f32 = 11.0;
    let mut impulse = vec![0.0f32; 4];
    impulse[0] = 1.0;
    let (result, plan) = convolve(impulse, kernel.clone());
    assert_eq!(plan.shift, 2);
    assert_eq!(plan.valid_len(), 5);
    assert!((result[0] - kernel[2] / total).abs() < 1e-5);
    assert!((result[1] - kernel[3] / total).abs() < 1e-5);
    for i in 2..plan.valid_len() {
        assert!(result[i].abs() < 1e-5);
    }
}

#[test]
fn constant_signal_keeps_its_level() {
    let (result, plan) = convolve(vec![1.0; 32], vec![0.25, 0.5, 1.0, 0.5, 0.25]);
    // Away from both ends every output sample sees the whole kernel.
    for i in 2..30 {
        assert!((result[i] - 1.0).abs() < 1e-5);
    }
    assert_eq!(plan.valid_len(), 34);
}
