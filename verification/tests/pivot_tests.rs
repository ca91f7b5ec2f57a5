//! Reshaping the result matrix into observation rows.

use candle_core::{Device, Tensor};
use momentum_cascade::meta_analysis::pivot;

fn scalar(v: f64) -> Tensor {
    Tensor::from_vec(vec![v], 1, &Device::Cpu).unwrap()
}

fn value(t: &Tensor) -> f64 {
    t.to_vec1::<f64>().unwrap()[0]
}

#[test]
fn pivot_lists_cells_row_major() {
    let rows = vec![scalar(1.0), scalar(2.0)];
    let cols = vec![scalar(10.0), scalar(20.0), scalar(30.0)];
    let matrix = vec![
        vec![scalar(0.1), scalar(0.2), scalar(0.3)],
        vec![scalar(0.4), scalar(0.5), scalar(0.6)],
    ];
    let out = pivot(&cols, &rows, &matrix).unwrap();
    assert_eq!(out.len(), 6);
    let expected = [
        (1.0, 10.0, 0.1),
        (1.0, 20.0, 0.2),
        (1.0, 30.0, 0.3),
        (2.0, 10.0, 0.4),
        (2.0, 20.0, 0.5),
        (2.0, 30.0, 0.6),
    ];
    for (k, obs) in out.iter().enumerate() {
        assert_eq!(obs.len(), 3);
        assert_eq!(value(&obs[0]), expected[k].0);
        assert_eq!(value(&obs[1]), expected[k].1);
        assert_eq!(value(&obs[2]), expected[k].2);
    }
}

#[test]
fn pivot_rejects_row_count_mismatch() {
    let rows = vec![scalar(1.0), scalar(2.0)];
    let cols = vec![scalar(10.0)];
    let matrix = vec![vec![scalar(0.1)]];
    let err = pivot(&cols, &rows, &matrix).unwrap_err();
    assert_eq!(err, "Rows and matrix must have the same length");
}

#[test]
fn pivot_rejects_column_count_mismatch() {
    let rows = vec![scalar(1.0)];
    let cols = vec![scalar(10.0), scalar(20.0)];
    let matrix = vec![vec![scalar(0.1)]];
    let err = pivot(&cols, &rows, &matrix).unwrap_err();
    assert_eq!(err, "Columns and row must have the same length");
}
