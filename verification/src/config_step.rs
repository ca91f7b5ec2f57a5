//! The shared experiment configuration.

use crate::tensor_ops::tdata;
use crate::tensor_ops::tensor_wf;
use crate::tensor_ops::device_wf;
use vstd::prelude::*;

verus! {

/// Everything a grid run needs: the two depth lists, the shared scalar
/// coefficients (one-element tensors), the seeds, and the tick counts.
pub struct Config {
    pub model_levels: Vec<usize>,
    pub data_levels: Vec<usize>,
    pub dim: usize,
    pub alpha: candle_core::Tensor,
    pub dev: candle_core::Device,
    pub samples: usize,
    pub warm_up: usize,
    pub model_seed: u64,
    pub data_seed: u64,
    pub lr: candle_core::Tensor,
    pub n_threads: usize,
}

impl Config {
    /// A usable configuration: positive dimension, non-empty depth lists of
    /// positive depths, scalar coefficients, and a warm-up shorter than the
    /// run.
    pub open spec fn wf(self) -> bool {
        &&& self.dim >= 1
        &&& self.dim + 1 <= usize::MAX
        &&& self.model_levels@.len() >= 1
        &&& self.data_levels@.len() >= 1
        &&& (forall|i: int| 0 <= i < self.model_levels@.len() ==> self.model_levels@[i] >= 1)
        &&& (forall|j: int| 0 <= j < self.data_levels@.len() ==> self.data_levels@[j] >= 1)
        &&& self.warm_up < self.samples
        &&& device_wf(self.dev)
        &&& tensor_wf(self.alpha)
        &&& tensor_wf(self.lr)
        &&& tdata(self.alpha).len() == 1
        &&& tdata(self.lr).len() == 1
    }
}

} // verus!
