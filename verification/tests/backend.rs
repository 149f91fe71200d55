use ndarray::ArrayView1;
use ndarray_conv::get_fft_processor;
use ndarray_conv::ConvExt;
use ndarray_conv::ConvFFTExt;
use ndarray_conv::ConvMode;
use ndarray_conv::PaddingMode;
use sci_rs_core::num_rs::convolve;
use sci_rs_core::num_rs::ConvolveMode;

const MODES: [ConvolveMode; 3] = [ConvolveMode::Full, ConvolveMode::Same, ConvolveMode::Valid];

fn named(mode: ConvolveMode) -> ConvMode<1> {
    match mode {
        ConvolveMode::Full => ConvMode::Full,
        ConvolveMode::Same => ConvMode::Same,
        ConvolveMode::Valid => ConvMode::Valid,
    }
}

fn prescribed(mode: ConvolveMode, v_len: usize) -> ConvMode<1> {
    let (front, back) = mode.padding(v_len);
    ConvMode::Explicit {
        padding: [[front, back]],
        strides: [1],
    }
}

fn signal(len: usize) -> Vec<i64> {
    (0..len as i64).map(|x| (x * 7 + 3) % 11 - 5).collect()
}

fn kernel(len: usize) -> Vec<i64> {
    (0..len as i64).map(|x| (x * 5 + 1) % 7 - 3).collect()
}

fn close(r: f64, e: f64) -> bool {
    let diff = (r - e).abs();
    diff <= 1e-12 || diff <= 1e-7 * r.abs().max(e.abs())
}

#[test]
fn agrees_with_the_named_modes_of_the_backend() {
    for a_len in 1..14usize {
        for v_len in 1..=a_len {
            let a = signal(a_len);
            let v = kernel(v_len);
            for mode in MODES {
                let expected = ArrayView1::from(&a)
                    .conv(&ArrayView1::from(&v), named(mode), PaddingMode::Zeros)
                    .unwrap()
                    .to_vec();
                assert_eq!(convolve(&a, &v, mode).unwrap(), expected);
            }
        }
    }
}

#[test]
fn agrees_with_the_frequency_domain_backend() {
    let mut proc = get_fft_processor::<f64, f64>();
    for a_len in 1..14usize {
        for v_len in 1..=a_len {
            let a = signal(a_len);
            let v = kernel(v_len);
            let a_real: Vec<f64> = a.iter().map(|x| *x as f64).collect();
            let v_real: Vec<f64> = v.iter().map(|x| *x as f64).collect();
            for mode in MODES {
                let direct = convolve(&a, &v, mode).unwrap();
                let transformed = ArrayView1::from(&a_real)
                    .conv_fft_with_processor(
                        &ArrayView1::from(&v_real),
                        prescribed(mode, v_len),
                        PaddingMode::Zeros,
                        &mut proc,
                    )
                    .unwrap()
                    .to_vec();
                assert_eq!(direct.len(), transformed.len());
                for (d, t) in direct.iter().zip(transformed.iter()) {
                    assert!(close(*t, *d as f64), "{} against {}", t, d);
                }
            }
        }
    }
}

#[test]
fn scenario_in_the_frequency_domain() {
    let a = vec![1., 2., 3.];
    let v = vec![0., 1., 0.5];
    let mut proc = get_fft_processor::<f64, f64>();
    let expected: [(ConvolveMode, Vec<f64>); 3] = [
        (ConvolveMode::Full, vec![0., 1., 2.5, 4., 1.5]),
        (ConvolveMode::Same, vec![1., 2.5, 4.]),
        (ConvolveMode::Valid, vec![2.5]),
    ];
    for (mode, expected) in expected {
        let result = ArrayView1::from(&a)
            .conv_fft_with_processor(
                &ArrayView1::from(&v),
                prescribed(mode, v.len()),
                PaddingMode::Zeros,
                &mut proc,
            )
            .unwrap()
            .to_vec();
        assert_eq!(result.len(), expected.len());
        for (r, e) in result.iter().zip(expected.iter()) {
            assert!(close(*r, *e), "{} against {}", r, e);
        }
    }
}
