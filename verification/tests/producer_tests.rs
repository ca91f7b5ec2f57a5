//! Determinism and exact output semantics of the signal generator.

use candle_core::{Device, Tensor};
use momentum_cascade::input_producer::InputProducer;
use rand::SeedableRng;
use rand::distributions::Distribution;
use rand::rngs::StdRng;

fn scalar(v: f64) -> Tensor {
    Tensor::from_vec(vec![v], 1, &Device::Cpu).unwrap()
}

fn read(t: &Tensor) -> Vec<f64> {
    t.to_vec1::<f64>().unwrap()
}

fn bits(t: &Tensor) -> Vec<u64> {
    read(t).iter().map(|v| v.to_bits()).collect()
}

#[test]
fn identical_producers_give_bit_identical_sequences() {
    let mut g1 = InputProducer::new(Device::Cpu, 4, 3, scalar(0.9), 1234).unwrap();
    let mut g2 = InputProducer::new(Device::Cpu, 4, 3, scalar(0.9), 1234).unwrap();
    for _ in 0..5 {
        let (x1, y1) = g1.next().unwrap();
        let (x2, y2) = g2.next().unwrap();
        assert_eq!(bits(&x1), bits(&x2));
        assert_eq!(bits(&y1), bits(&y2));
    }
}

#[test]
fn different_seeds_give_different_sequences() {
    let mut g1 = InputProducer::new(Device::Cpu, 4, 1, scalar(0.9), 1).unwrap();
    let mut g2 = InputProducer::new(Device::Cpu, 4, 1, scalar(0.9), 2).unwrap();
    let (x1, _) = g1.next().unwrap();
    let (x2, _) = g2.next().unwrap();
    assert_ne!(bits(&x1), bits(&x2));
}

#[test]
fn producer_outputs_match_the_closed_form() {
    let dim = 3usize;
    let levels = 2usize;
    let alpha = 0.95f64;
    let beta = 1.0 - alpha;
    let seed = 77u64;

    let mut g = InputProducer::new(Device::Cpu, dim, levels, scalar(alpha), seed).unwrap();

    // Replay the same draw stream: every draw of the producer is one
    // standard-normal sample from the seeded stream, in a fixed order.
    let mut rng = StdRng::seed_from_u64(seed);
    let normal = statrs::distribution::Normal::standard();
    let mut draw = |n: usize| -> Vec<f64> { (0..n).map(|_| normal.sample(&mut rng)).collect() };

    let mut cascade: Vec<Vec<f64>> = (0..levels).map(|_| draw(dim)).collect();

    for _ in 0..3 {
        let dw = draw(dim);
        // One top-down sweep of the hidden cascade.
        for i in 0..dim {
            cascade[levels - 1][i] = cascade[levels - 1][i] * alpha + dw[i] * beta;
        }
        for l in (0..levels - 1).rev() {
            for i in 0..dim {
                cascade[l][i] = cascade[l][i] * alpha + cascade[l + 1][i] * beta;
            }
        }
        let x = draw(dim);
        let z = draw(1)[0];
        let mut dot = 0.0f64;
        for i in 0..dim {
            dot += x[i] * cascade[0][i];
        }
        let y = dot + z * (1.0 / 10.0);

        let (gx, gy) = g.next().unwrap();
        let got_x = read(&gx);
        for i in 0..dim {
            assert_eq!(got_x[i].to_bits(), x[i].to_bits());
        }
        assert_eq!(read(&gy)[0].to_bits(), y.to_bits());
    }
}
