//! The online learner with cascaded gradient momentum.
//!
//! A `MomentumModel` owns one trainable weight vector of length `dim + 1`
//! (features plus a bias term) and a cascade of gradient buffers of the same
//! length. Each supervised step predicts, computes the squared residual and
//! its closed-form gradient, smooths the gradient through the cascade, and
//! descends along the cascade's most-smoothed level.

use crate::cascade::cascade_sweep;
use crate::cascade::lemma_sweep_preserves_dims;
use crate::cascade::sweep_spec;
use crate::cascade::complement_of;
use crate::cascade::one_bits;
use crate::randomness::RandomSource;
use crate::randomness::draw_std_normals;
use crate::randomness::std_normal;
use crate::tensor_ops::NumericError;
use crate::tensor_ops::datas;
use crate::tensor_ops::ew_mul;
use crate::tensor_ops::ew_sub;
use crate::tensor_ops::f64_from_u32;
use crate::tensor_ops::mul_val;
use crate::tensor_ops::scale_seq;
use crate::tensor_ops::scale_val;
use crate::tensor_ops::sqr_val;
use crate::tensor_ops::sub_val;
use crate::tensor_ops::sum_val;
use crate::tensor_ops::t_cat;
use crate::tensor_ops::t_full_u32;
use crate::tensor_ops::t_mul;
use crate::tensor_ops::t_scale;
use crate::tensor_ops::t_sqr;
use crate::tensor_ops::t_sub;
use crate::tensor_ops::t_sum;
use crate::tensor_ops::tdata;
use crate::tensor_ops::tensor_wf;
use crate::tensor_ops::device_wf;
use crate::tensor_ops::neg_zero_bits;
use vstd::prelude::*;

verus! {

/// The bits of the f64 value two, the constant of the squared-error
/// gradient.
pub open spec fn two_bits() -> u64 {
    f64_from_u32(2)
}

/// The bits of the f64 value zero, the initial gradient-buffer content.
pub open spec fn zero_bits() -> u64 {
    f64_from_u32(0)
}

/// `x` with the constant one appended: the augmented feature vector that
/// carries the bias term.
pub open spec fn aug(x: Seq<u64>) -> Seq<u64> {
    x.push(one_bits())
}

/// The model's prediction: the dot product of the augmented features with
/// the weights.
pub open spec fn pred_of(xa: Seq<u64>, w: Seq<u64>) -> u64 {
    sum_val(ew_mul(xa, w))
}

/// The squared residual of a prediction against the target `y`.
pub open spec fn loss_of(xa: Seq<u64>, w: Seq<u64>, y: u64) -> u64 {
    sqr_val(sub_val(pred_of(xa, w), y))
}

/// The closed-form gradient of the squared residual with respect to the
/// weights: `2 * (prediction - y) * xa`.
pub open spec fn grad_of(xa: Seq<u64>, w: Seq<u64>, y: u64) -> Seq<u64> {
    scale_seq(xa, mul_val(two_bits(), sub_val(pred_of(xa, w), y)))
}

/// The initial weight vector: `dim + 1` standard-normal draws from the
/// stream of `seed`, scaled by two.
pub open spec fn init_weights(seed: u64, dim: nat) -> Seq<u64> {
    Seq::new(dim + 1, |i: int| scale_val(std_normal(seed, i), two_bits()))
}

/// The initial gradient buffers: `levels` vectors of `dim + 1` zeros.
pub open spec fn init_buffers(levels: nat, dim: nat) -> Seq<Seq<u64>> {
    Seq::new(levels, |j: int| Seq::new(dim + 1, |i: int| zero_bits()))
}

/// One supervised update: the buffers after sweeping in the gradient, and
/// the weights after descending along the swept buffers' level 0 scaled by
/// the learning rate.
pub open spec fn stepped_buffers(
    ms: Seq<Seq<u64>>,
    xa: Seq<u64>,
    w: Seq<u64>,
    y: u64,
    alfa: u64,
) -> Seq<Seq<u64>> {
    sweep_spec(ms, grad_of(xa, w, y), alfa, complement_of(alfa))
}

/// The weights after one supervised update.
pub open spec fn stepped_weights(
    ms: Seq<Seq<u64>>,
    xa: Seq<u64>,
    w: Seq<u64>,
    y: u64,
    alfa: u64,
    lr: u64,
) -> Seq<u64> {
    ew_sub(w, scale_seq(stepped_buffers(ms, xa, w, y, alfa)[0], lr))
}

/// A well-formed learner's visible model is consistent: there is one buffer
/// per cascade level and one weight per feature plus the bias.
pub proof fn lemma_model_shape(m: MomentumModel)
    requires
        m.wf(),
    ensures
        m.buffers().len() == m.levels_spec(),
        m.levels_spec() >= 1,
        m.weights().len() == m.dim_spec() + 1,
        m.dim_spec() >= 1,
{
}

/// The online learner: weights plus a cascade of gradient buffers.
pub struct MomentumModel {
    dev: candle_core::Device,
    ws: candle_core::Tensor,
    ms: Vec<candle_core::Tensor>,
    alfa: candle_core::Tensor,
    beta: candle_core::Tensor,
    lr: candle_core::Tensor,
    two: candle_core::Tensor,
    one: candle_core::Tensor,
    dim: usize,
}

impl MomentumModel {
    /// The feature dimension (the weight vector has one more entry).
    pub closed spec fn dim_spec(self) -> nat {
        self.dim as nat
    }

    /// The number of cascade levels.
    pub closed spec fn levels_spec(self) -> nat {
        self.ms@.len()
    }

    /// The bits of the mixing coefficient.
    pub closed spec fn alfa_bits(self) -> u64 {
        tdata(self.alfa)[0]
    }

    /// The bits of the learning rate.
    pub closed spec fn lr_bits(self) -> u64 {
        tdata(self.lr)[0]
    }

    /// The current weight vector.
    pub closed spec fn weights(self) -> Seq<u64> {
        tdata(self.ws)
    }

    /// The current gradient buffers, most smoothed first.
    pub closed spec fn buffers(self) -> Seq<Seq<u64>> {
        datas(self.ms@)
    }

    /// Shape and constant invariants of a well-formed learner.
    pub closed spec fn wf(self) -> bool {
        &&& self.dim >= 1
        &&& self.ms@.len() >= 1
        &&& tensor_wf(self.ws)
        &&& tensor_wf(self.alfa)
        &&& tensor_wf(self.beta)
        &&& tensor_wf(self.lr)
        &&& tensor_wf(self.two)
        &&& tensor_wf(self.one)
        &&& (forall|i: int| 0 <= i < self.ms@.len() ==> #[trigger] tensor_wf(self.ms@[i]))
        &&& tdata(self.ws).len() == self.dim + 1
        &&& tdata(self.alfa).len() == 1
        &&& tdata(self.beta) == seq![complement_of(self.alfa_bits())]
        &&& tdata(self.lr).len() == 1
        &&& tdata(self.two) == seq![two_bits()]
        &&& tdata(self.one) == seq![one_bits()]
        &&& forall|i: int|
            0 <= i < self.ms@.len() ==> #[trigger] tdata(self.ms@[i]).len() == self.dim + 1
    }

    /// Builds a learner for `dim` features with `levels` gradient buffers.
    /// The weights are drawn once from the stream of `seed`, standard-normal
    /// scaled by two; the buffers start at zero. `alfa` is the mixing
    /// coefficient and `lr` the learning rate, one-element tensors.
    pub fn new(
        dev: candle_core::Device,
        dim: usize,
        levels: usize,
        alfa: candle_core::Tensor,
        lr: candle_core::Tensor,
        seed: u64,
    ) -> (r: Result<MomentumModel, NumericError>)
        requires
            dim >= 1,
            levels >= 1,
            dim + 1 <= usize::MAX,
            device_wf(dev),
            tensor_wf(alfa),
            tensor_wf(lr),
            tdata(alfa).len() == 1,
            tdata(lr).len() == 1,
        ensures
            r is Ok,
            r matches Ok(m) ==> {
                &&& m.wf()
                &&& m.dim_spec() == dim
                &&& m.levels_spec() == levels
                &&& m.alfa_bits() == tdata(alfa)[0]
                &&& m.lr_bits() == tdata(lr)[0]
                &&& m.weights() == init_weights(seed, dim as nat)
                &&& m.buffers() == init_buffers(levels as nat, dim as nat)
            },
    {
        let mut rng = RandomSource::new(seed);
        let z = draw_std_normals(&mut rng, dim + 1, &dev)?;
        let one = t_full_u32(1, 1, &dev)?;
        let two = t_full_u32(2, 1, &dev)?;
        let beta = t_sub(&one, &alfa)?;
        let ws = t_scale(&z, &two)?;
        proof {
            assert(tdata(ws) =~= init_weights(seed, dim as nat));
            assert(tdata(beta) =~= seq![complement_of(tdata(alfa)[0])]);
            assert(tdata(one) =~= seq![one_bits()]);
            assert(tdata(two) =~= seq![two_bits()]);
        }
        let mut ms: Vec<candle_core::Tensor> = Vec::new();
        let mut j: usize = 0;
        while j < levels
            invariant
                dim + 1 <= usize::MAX,
                device_wf(dev),
                ms@.len() == j,
                j <= levels,
                forall|k: int|
                    0 <= k < j ==> #[trigger] datas(ms@)[k] == Seq::new(
                        (dim + 1) as nat,
                        |i: int| zero_bits(),
                    ),
                forall|k: int| 0 <= k < j ==> #[trigger] tdata(ms@[k]).len() == dim + 1,
                forall|k: int| 0 <= k < j ==> #[trigger] tensor_wf(ms@[k]),
            decreases levels - j,
        {
            let zeros = t_full_u32(0, dim + 1, &dev)?;
            proof {
                assert(tdata(zeros) =~= Seq::new((dim + 1) as nat, |i: int| zero_bits()));
            }
            let ghost msb = ms@;
            ms.push(zeros);
            proof {
                assert forall|k: int| 0 <= k < j + 1 implies #[trigger] datas(ms@)[k] == Seq::new(
                    (dim + 1) as nat,
                    |i: int| zero_bits(),
                ) by {
                    assert(datas(ms@)[k] == tdata(ms@[k]));
                    if k < j {
                        assert(ms@[k] == msb[k]);
                        assert(datas(msb)[k] == tdata(msb[k]));
                    }
                }
                assert forall|k: int| 0 <= k < j + 1 implies #[trigger] tdata(ms@[k]).len() == dim
                    + 1 by {
                    if k < j {
                        assert(ms@[k] == msb[k]);
                    }
                }
                assert forall|k: int| 0 <= k < j + 1 implies #[trigger] tensor_wf(ms@[k]) by {
                    if k < j {
                        assert(ms@[k] == msb[k]);
                    }
                }
            }
            j = j + 1;
        }
        proof {
            assert(datas(ms@) =~~= init_buffers(levels as nat, dim as nat));
        }
        Ok(MomentumModel { dev, ws, ms, alfa, beta, lr, two, one, dim })
    }

    /// The current weight vector, as a tensor sharing the model's storage.
    pub fn weights_vector(&self) -> (r: candle_core::Tensor)
        ensures
            tdata(r) == self.weights(),
    {
        self.ws.clone()
    }

    /// Predicts from the augmented features and, when a target is given,
    /// updates the model: the squared residual is returned as the loss, its
    /// closed-form gradient is swept into the buffers, and the weights
    /// descend along the swept buffers' most-smoothed level scaled by the
    /// learning rate. Without a target nothing is mutated and no loss is
    /// returned.
    pub fn step(&mut self, x: &candle_core::Tensor, y: Option<&candle_core::Tensor>) -> (r: Result<
        (candle_core::Tensor, Option<candle_core::Tensor>),
        NumericError,
    >)
        requires
            old(self).wf(),
            tensor_wf(*x),
            tdata(*x).len() == old(self).dim_spec(),
            y matches Some(t) ==> tensor_wf(*t) && tdata(*t).len() == 1,
        ensures
            r is Ok,
            final (self).dim_spec() == old(self).dim_spec(),
            final (self).levels_spec() == old(self).levels_spec(),
            final (self).alfa_bits() == old(self).alfa_bits(),
            final (self).lr_bits() == old(self).lr_bits(),
            r matches Ok(out) ==> {
                &&& final (self).wf()
                &&& tensor_wf(out.0)
                &&& tdata(out.0) == seq![pred_of(aug(tdata(*x)), old(self).weights())]
                &&& (y is None ==> {
                    &&& out.1 is None
                    &&& final (self).weights() == old(self).weights()
                    &&& final (self).buffers() == old(self).buffers()
                })
                &&& (y matches Some(yt) ==> {
                    &&& out.1 matches Some(l) && tensor_wf(l) && tdata(l) == seq![
                        loss_of(aug(tdata(*x)), old(self).weights(), tdata(*yt)[0]),
                    ]
                    &&& loss_of(aug(tdata(*x)), old(self).weights(), tdata(*yt)[0])
                        != neg_zero_bits()
                    &&& final (self).buffers() == stepped_buffers(
                        old(self).buffers(),
                        aug(tdata(*x)),
                        old(self).weights(),
                        tdata(*yt)[0],
                        old(self).alfa_bits(),
                    )
                    &&& final (self).weights() == stepped_weights(
                        old(self).buffers(),
                        aug(tdata(*x)),
                        old(self).weights(),
                        tdata(*yt)[0],
                        old(self).alfa_bits(),
                        old(self).lr_bits(),
                    )
                })
            },
    {
        let ghost w0 = old(self).weights();
        let ghost xa = aug(tdata(*x));
        let x_aug = t_cat(x, &self.one)?;
        proof {
            assert(tdata(x_aug) =~= xa);
        }
        let prod = t_mul(&x_aug, &self.ws)?;
        let yp = t_sum(&prod)?;
        proof {
            assert(tdata(yp) =~= seq![pred_of(xa, w0)]);
        }
        match y {
            None => Ok((yp, None)),
            Some(yt) => {
                let ghost yv = tdata(*yt)[0];
                let diff = t_sub(&yp, yt)?;
                let loss = t_sqr(&diff)?;
                let d2 = t_mul(&self.two, &diff)?;
                let grad = t_scale(&x_aug, &d2)?;
                proof {
                    assert(tdata(loss) =~= seq![loss_of(xa, w0, yv)]);
                    assert(tdata(loss)[0] != neg_zero_bits());
                    assert(tdata(grad) =~= grad_of(xa, w0, yv));
                }
                cascade_sweep(&mut self.ms, &grad, &self.alfa, &self.beta)?;
                proof {
                    let ghost swept = sweep_spec(
                        datas(old(self).ms@),
                        grad_of(xa, w0, yv),
                        old(self).alfa_bits(),
                        complement_of(old(self).alfa_bits()),
                    );
                    assert(datas(self.ms@) == swept);
                    lemma_sweep_preserves_dims(
                        datas(old(self).ms@),
                        grad_of(xa, w0, yv),
                        old(self).alfa_bits(),
                        complement_of(old(self).alfa_bits()),
                        (old(self).dim_spec() + 1) as nat,
                    );
                    assert forall|i: int| 0 <= i < self.ms@.len() implies #[trigger] tdata(
                        self.ms@[i],
                    ).len() == self.dim + 1 by {
                        assert(datas(self.ms@)[i] == swept[i]);
                    }
                }
                let upd = t_scale(&self.ms[0], &self.lr)?;
                let new_w = t_sub(&self.ws, &upd)?;
                self.ws = new_w;
                proof {
                    assert(datas(self.ms@)[0] == tdata(self.ms@[0]));
                    assert(tdata(self.ws) =~= stepped_weights(
                        datas(old(self).ms@),
                        xa,
                        w0,
                        yv,
                        old(self).alfa_bits(),
                        old(self).lr_bits(),
                    ));
                }
                Ok((yp, Some(loss)))
            },
        }
    }
}

} // verus!
