//! The grid runner: completeness, determinism, and the warm-up boundary.

use candle_core::{Device, Tensor};
use momentum_cascade::config_step::Config;
use momentum_cascade::input_producer::InputProducer;
use momentum_cascade::model_running::{RunConfiguration, assemble_matrix, run_case, run_step};
use momentum_cascade::momentum_model::MomentumModel;

fn scalar(v: f64) -> Tensor {
    Tensor::from_vec(vec![v], 1, &Device::Cpu).unwrap()
}

fn cell_value(t: &Tensor) -> f64 {
    t.to_vec1::<f64>().unwrap()[0]
}

fn config(model_levels: Vec<usize>, data_levels: Vec<usize>, samples: usize, warm_up: usize) -> Config {
    Config {
        model_levels,
        data_levels,
        dim: 2,
        alpha: scalar(0.9),
        dev: Device::Cpu,
        samples,
        warm_up,
        model_seed: 1,
        data_seed: 2,
        lr: scalar(0.01),
        n_threads: 2,
    }
}

#[test]
fn grid_is_complete_and_every_cell_finite() {
    let conf = config(vec![1, 2], vec![1, 2, 3], 20, 5);
    let matrix = run_step(&conf).unwrap();
    assert_eq!(matrix.len(), 2);
    for row in &matrix {
        assert_eq!(row.len(), 3);
        for cell in row {
            let v = cell_value(cell.as_ref().unwrap());
            assert!(v.is_finite());
            assert!(v >= 0.0);
        }
    }
}

#[test]
fn end_to_end_scenario_is_reproducible() {
    let conf = config(vec![1], vec![1], 100, 10);
    let m1 = run_step(&conf).unwrap();
    let m2 = run_step(&conf).unwrap();
    assert_eq!(m1.len(), 1);
    assert_eq!(m1[0].len(), 1);
    let v1 = cell_value(m1[0][0].as_ref().unwrap());
    let v2 = cell_value(m2[0][0].as_ref().unwrap());
    assert!(v1.is_finite());
    assert!(v1 >= 0.0);
    assert_eq!(v1.to_bits(), v2.to_bits());
}

#[test]
fn warm_up_of_samples_minus_one_keeps_only_the_last_loss() {
    let samples = 12usize;
    let rc = RunConfiguration {
        ml: 2,
        dl: 2,
        dev: Device::Cpu,
        dim: 3,
        alpha: scalar(0.9),
        model_seed: 11,
        data_seed: 22,
        lr: scalar(0.05),
        samples,
        warm_up: samples - 1,
    };
    let cell = run_case(rc).unwrap();

    // Replay the same run and keep the loss of the last tick only.
    let mut producer = InputProducer::new(Device::Cpu, 3, 2, scalar(0.9), 22).unwrap();
    let mut model = MomentumModel::new(Device::Cpu, 3, 2, scalar(0.9), scalar(0.05), 11).unwrap();
    let mut last = None;
    for _ in 0..samples {
        let (x, y) = producer.next().unwrap();
        let (_yp, loss) = model.step(&x, Some(&y)).unwrap();
        last = loss;
    }
    let expected = cell_value(&last.unwrap());
    assert_eq!(cell_value(&cell).to_bits(), expected.to_bits());
}

#[test]
fn run_case_mean_is_the_mean_of_recorded_losses() {
    let samples = 9usize;
    let warm_up = 4usize;
    let rc = RunConfiguration {
        ml: 1,
        dl: 1,
        dev: Device::Cpu,
        dim: 2,
        alpha: scalar(0.8),
        model_seed: 3,
        data_seed: 4,
        lr: scalar(0.01),
        samples,
        warm_up,
    };
    let cell = run_case(rc).unwrap();

    let mut producer = InputProducer::new(Device::Cpu, 2, 1, scalar(0.8), 4).unwrap();
    let mut model = MomentumModel::new(Device::Cpu, 2, 1, scalar(0.8), scalar(0.01), 3).unwrap();
    let mut losses = Vec::new();
    for i in 0..samples {
        let (x, y) = producer.next().unwrap();
        let (_yp, loss) = model.step(&x, Some(&y)).unwrap();
        if i >= warm_up {
            losses.push(cell_value(&loss.unwrap()));
        }
    }
    let mean: f64 = losses.iter().sum::<f64>() / losses.len() as f64;
    assert!((cell_value(&cell) - mean).abs() < 1e-12);
}

#[test]
fn assemble_matrix_scatters_each_result_once() {
    let model_levels = vec![1usize, 5];
    let data_levels = vec![2usize, 4, 6];
    let results = vec![(5usize, 2usize, scalar(0.25)), (1usize, 6usize, scalar(0.75))];
    let m = assemble_matrix(&model_levels, &data_levels, &results);
    assert_eq!(m.len(), 2);
    for row in &m {
        assert_eq!(row.len(), 3);
    }
    assert_eq!(cell_value(m[1][0].as_ref().unwrap()), 0.25);
    assert_eq!(cell_value(m[0][2].as_ref().unwrap()), 0.75);
    assert!(m[0][0].is_none());
    assert!(m[0][1].is_none());
    assert!(m[1][1].is_none());
    assert!(m[1][2].is_none());
}
