//! Exact-arithmetic tests of the cascade sweep.

use candle_core::{Device, Tensor};
use momentum_cascade::cascade::cascade_sweep;

fn vect(vals: &[f64]) -> Tensor {
    Tensor::from_vec(vals.to_vec(), vals.len(), &Device::Cpu).unwrap()
}

fn scalar(v: f64) -> Tensor {
    vect(&[v])
}

fn read(t: &Tensor) -> Vec<f64> {
    t.to_vec1::<f64>().unwrap()
}

#[test]
fn single_level_sweep_is_plain_ema() {
    let alpha = 0.8f64;
    let s = [1.5f64, -2.0, 0.25];
    let v = [0.5f64, 4.0, -1.0];
    let mut levels = vec![vect(&s)];
    cascade_sweep(&mut levels, &vect(&v), &scalar(alpha), &scalar(1.0 - alpha)).unwrap();
    assert_eq!(levels.len(), 1);
    let got = read(&levels[0]);
    for i in 0..3 {
        let expected = s[i] * alpha + v[i] * (1.0 - alpha);
        assert_eq!(got[i].to_bits(), expected.to_bits());
    }
}

#[test]
fn sweep_updates_top_down_each_level_once() {
    let alpha = 0.75f64;
    let beta = 1.0 - alpha;
    let l0 = [1.0f64, 10.0];
    let l1 = [2.0f64, 20.0];
    let l2 = [3.0f64, 30.0];
    let v = [4.0f64, 40.0];
    let mut levels = vec![vect(&l0), vect(&l1), vect(&l2)];
    cascade_sweep(&mut levels, &vect(&v), &scalar(alpha), &scalar(beta)).unwrap();
    assert_eq!(levels.len(), 3);
    for i in 0..2 {
        // The top level mixes with the driving value; each level below mixes
        // with the already-updated level above it from the same sweep.
        let n2 = l2[i] * alpha + v[i] * beta;
        let n1 = l1[i] * alpha + n2 * beta;
        let n0 = l0[i] * alpha + n1 * beta;
        assert_eq!(read(&levels[2])[i].to_bits(), n2.to_bits());
        assert_eq!(read(&levels[1])[i].to_bits(), n1.to_bits());
        assert_eq!(read(&levels[0])[i].to_bits(), n0.to_bits());
    }
}

#[test]
fn mismatched_driving_value_reports_a_tensor_error() {
    let mut levels = vec![vect(&[1.0, 2.0])];
    let r = cascade_sweep(&mut levels, &vect(&[1.0, 2.0, 3.0]), &scalar(0.5), &scalar(0.5));
    assert!(matches!(r, Err(momentum_cascade::tensor_ops::NumericError::Tensor(_))));
}

#[test]
fn sweep_keeps_level_count_and_dims() {
    let alpha = 0.9f64;
    let mut levels = vec![vect(&[0.0, 0.0, 0.0, 0.0]); 5];
    cascade_sweep(
        &mut levels,
        &vect(&[1.0, 2.0, 3.0, 4.0]),
        &scalar(alpha),
        &scalar(1.0 - alpha),
    )
    .unwrap();
    assert_eq!(levels.len(), 5);
    for l in &levels {
        assert_eq!(read(l).len(), 4);
    }
}
