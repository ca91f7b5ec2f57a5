//! The learner's prediction and update law.

use candle_core::{Device, Tensor};
use momentum_cascade::momentum_model::MomentumModel;

fn scalar(v: f64) -> Tensor {
    Tensor::from_vec(vec![v], 1, &Device::Cpu).unwrap()
}

fn vect(vals: &[f64]) -> Tensor {
    Tensor::from_vec(vals.to_vec(), vals.len(), &Device::Cpu).unwrap()
}

fn read(t: &Tensor) -> Vec<f64> {
    t.to_vec1::<f64>().unwrap()
}

#[test]
fn inference_only_step_returns_no_loss_and_keeps_weights() {
    let mut m = MomentumModel::new(Device::Cpu, 2, 3, scalar(0.9), scalar(0.01), 5).unwrap();
    let w0 = read(&m.weights_vector());
    let (yp, loss) = m.step(&vect(&[1.0, -1.0]), None).unwrap();
    assert!(loss.is_none());
    assert_eq!(read(&m.weights_vector()), w0);
    // The prediction is the dot product of (x, 1) with the weights.
    let expected = 1.0 * w0[0] + (-1.0) * w0[1] + 1.0 * w0[2];
    assert!((read(&yp)[0] - expected).abs() < 1e-12);
}

#[test]
fn single_step_update_matches_closed_form() {
    let dim = 2usize;
    let alpha = 0.5f64;
    let lr = 0.1f64;
    let mut m = MomentumModel::new(Device::Cpu, dim, 1, scalar(alpha), scalar(lr), 42).unwrap();
    let w0 = read(&m.weights_vector());
    let x = [1.0f64, 2.0];
    let y = 3.0f64;
    let (yp, loss) = m.step(&vect(&x), Some(&scalar(y))).unwrap();

    let x_aug = [x[0], x[1], 1.0];
    let mut pred = 0.0f64;
    for i in 0..3 {
        pred += x_aug[i] * w0[i];
    }
    assert!((read(&yp)[0] - pred).abs() < 1e-12);
    assert!((read(&loss.unwrap())[0] - (pred - y) * (pred - y)).abs() < 1e-12);

    // With a single zeroed buffer the swept buffer is
    // alpha * 0 + (1 - alpha) * gradient, and the weights descend along it.
    let w1 = read(&m.weights_vector());
    for i in 0..3 {
        let grad = 2.0 * (pred - y) * x_aug[i];
        let buf = alpha * 0.0 + (1.0 - alpha) * grad;
        let expected = w0[i] - lr * buf;
        assert!((w1[i] - expected).abs() < 1e-12);
    }
}

#[test]
fn deeper_cascade_slows_the_update() {
    // With two levels only the top buffer receives the gradient this tick;
    // level 0 gets beta * beta of it, so the step is smaller.
    let alpha = 0.5f64;
    let lr = 0.1f64;
    let x = [1.0f64, 2.0];
    let y = 3.0f64;
    let mut shallow = MomentumModel::new(Device::Cpu, 2, 1, scalar(alpha), scalar(lr), 9).unwrap();
    let mut deep = MomentumModel::new(Device::Cpu, 2, 2, scalar(alpha), scalar(lr), 9).unwrap();
    let w0 = read(&shallow.weights_vector());
    assert_eq!(w0, read(&deep.weights_vector()));
    shallow.step(&vect(&x), Some(&scalar(y))).unwrap();
    deep.step(&vect(&x), Some(&scalar(y))).unwrap();
    let ws = read(&shallow.weights_vector());
    let wd = read(&deep.weights_vector());
    for i in 0..3 {
        assert!((wd[i] - w0[i]).abs() <= (ws[i] - w0[i]).abs());
    }
}
