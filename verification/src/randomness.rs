//! A seeded stream of standard-normal draws.
//!
//! Both state machines draw their randomness from a `rand::rngs::StdRng`
//! seeded once at construction. A seeded generator yields one fixed stream,
//! so the `k`-th standard-normal draw is a function of the seed and `k`
//! alone; `std_normal` names that function, and a `RandomSource` tracks how
//! many draws have been taken.

use crate::tensor_ops::tdata;
use crate::tensor_ops::tensor_wf;
use crate::tensor_ops::device_wf;
use rand::SeedableRng;
use rand::distributions::Distribution;
use vstd::prelude::*;

verus! {

#[verifier::external_type_specification]
#[verifier::external_body]
pub struct ExStdRng(rand::rngs::StdRng);

/// The bits of the `idx`-th standard-normal f64 drawn from the stream that
/// `rand::rngs::StdRng::seed_from_u64(seed)` opens. The sampler's rare tail
/// path goes through the platform's math library, so the stream is fixed
/// within any one build of this crate, which is what the determinism
/// contracts speak of.
pub uninterp spec fn std_normal(seed: u64, idx: int) -> u64;

/// A seeded random stream together with its position.
pub struct RandomSource {
    inner: rand::rngs::StdRng,
    seed: u64,
    taken: Ghost<int>,
}

/// Relies on rand's StdRng::seed_from_u64: a fixed seed opens a fixed stream.
#[verifier::external_body]
fn seed_stdrng(seed: u64) -> rand::rngs::StdRng {
    rand::rngs::StdRng::seed_from_u64(seed)
}

impl RandomSource {
    /// The seed the stream was opened with.
    pub closed spec fn seed(self) -> u64 {
        self.seed
    }

    /// How many standard-normal draws have been taken so far.
    pub closed spec fn taken(self) -> int {
        self.taken@
    }

    /// Opens the stream of the given seed, positioned at its start.
    pub fn new(seed: u64) -> (r: RandomSource)
        ensures
            r.seed() == seed,
            r.taken() == 0,
    {
        RandomSource { inner: seed_stdrng(seed), seed, taken: Ghost(0int) }
    }
}

/// Relies on statrs's standard Normal distribution sampled from the StdRng
/// stream (a deterministic function of the stream position), and on
/// candle_core::Tensor::from_vec to hold the `n` draws. Sampling cannot
/// fail, and from_vec is given exactly `n` values, so the call succeeds.
#[verifier::external_body]
pub(crate) fn draw_std_normals(src: &mut RandomSource, n: usize, dev: &candle_core::Device) -> (r:
    Result<candle_core::Tensor, candle_core::Error>)
    requires
        device_wf(*dev),
    ensures
        final (src).seed() == old(src).seed(),
        final (src).taken() == old(src).taken() + n,
        r is Ok,
        r matches Ok(t) ==> tensor_wf(t) && tdata(t) == Seq::new(
            n as nat,
            |i: int| std_normal(old(src).seed(), old(src).taken() + i),
        ),
{
    let normal = statrs::distribution::Normal::standard();
    let mut data = Vec::with_capacity(n);
    for _ in 0..n {
        data.push(normal.sample(&mut src.inner));
    }
    candle_core::Tensor::from_vec(data, n, dev)
}

} // verus!
