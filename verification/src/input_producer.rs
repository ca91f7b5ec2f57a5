//! The non-stationary signal generator.
//!
//! An `InputProducer` owns a hidden cascade of weight vectors. Each tick it
//! drives the cascade with a fresh standard-normal vector, draws a fresh
//! feature vector, and returns the feature vector together with a noisy
//! linear target computed from the cascade's most-smoothed level. Every
//! output is a function of the constructor arguments and the tick index
//! alone, which the spec model below makes explicit.

use crate::cascade::cascade_sweep;
use crate::cascade::complement_of;
use crate::cascade::one_bits;
use crate::cascade::lemma_sweep_preserves_dims;
use crate::cascade::sweep_spec;
use crate::randomness::RandomSource;
use crate::randomness::draw_std_normals;
use crate::randomness::std_normal;
use crate::tensor_ops::NumericError;
use crate::tensor_ops::add_val;
use crate::tensor_ops::datas;
use crate::tensor_ops::div_val;
use crate::tensor_ops::ew_mul;
use crate::tensor_ops::f64_from_u32;
use crate::tensor_ops::scale_val;
use crate::tensor_ops::sub_val;
use crate::tensor_ops::sum_val;
use crate::tensor_ops::t_add;
use crate::tensor_ops::t_div;
use crate::tensor_ops::t_full_u32;
use crate::tensor_ops::t_mul;
use crate::tensor_ops::t_scale;
use crate::tensor_ops::t_sub;
use crate::tensor_ops::t_sum;
use crate::tensor_ops::tdata;
use crate::tensor_ops::tensor_wf;
use crate::tensor_ops::device_wf;
use vstd::prelude::*;

verus! {

/// The constructor arguments that determine every output of a producer.
pub struct ProducerParams {
    pub seed: u64,
    pub dim: nat,
    pub levels: nat,
    /// The mixing coefficient, as the bits of its f64 value.
    pub alfa: u64,
}

/// The standard deviation of the target noise: one tenth.
pub open spec fn noise_std_bits() -> u64 {
    div_val(f64_from_u32(1), f64_from_u32(10))
}

/// Level `j` of the cascade at construction: the `j`-th block of `dim`
/// standard-normal draws.
pub open spec fn init_level(p: ProducerParams, j: int) -> Seq<u64> {
    Seq::new(p.dim, |i: int| std_normal(p.seed, j * p.dim + i))
}

/// The whole cascade at construction.
pub open spec fn init_cascade(p: ProducerParams) -> Seq<Seq<u64>> {
    Seq::new(p.levels, |j: int| init_level(p, j))
}

/// How many standard-normal draws the producer has taken when tick `t`
/// begins: `dim * levels` at construction, then `2 * dim + 1` per tick.
pub open spec fn draws_before(p: ProducerParams, t: nat) -> int {
    (p.dim * p.levels + t * (2 * p.dim + 1)) as int
}

/// The driving noise vector of tick `t`.
pub open spec fn dw_at(p: ProducerParams, t: nat) -> Seq<u64> {
    Seq::new(p.dim, |i: int| std_normal(p.seed, draws_before(p, t) + i))
}

/// The hidden cascade after `t` ticks.
pub open spec fn cascade_at(p: ProducerParams, t: nat) -> Seq<Seq<u64>>
    decreases t,
{
    if t == 0 {
        init_cascade(p)
    } else {
        sweep_spec(
            cascade_at(p, (t - 1) as nat),
            dw_at(p, (t - 1) as nat),
            p.alfa,
            complement_of(p.alfa),
        )
    }
}

/// The feature vector returned by tick `t`.
pub open spec fn x_at(p: ProducerParams, t: nat) -> Seq<u64> {
    Seq::new(p.dim, |i: int| std_normal(p.seed, draws_before(p, t) + p.dim + i))
}

/// The target noise of tick `t`: a standard-normal draw scaled by one tenth.
pub open spec fn eps_at(p: ProducerParams, t: nat) -> u64 {
    scale_val(std_normal(p.seed, draws_before(p, t) + 2 * p.dim), noise_std_bits())
}

/// The target scalar returned by tick `t`: the dot product of the feature
/// vector with the cascade's level 0 after this tick's sweep, plus noise.
pub open spec fn y_at(p: ProducerParams, t: nat) -> u64 {
    add_val(sum_val(ew_mul(x_at(p, t), cascade_at(p, (t + 1) as nat)[0])), eps_at(p, t))
}

/// Two producers built from the same arguments produce the same outputs at
/// every tick: the output model is a function of the parameters alone.
/// Together with the contract of [`InputProducer::next`], which pins each
/// call's outputs to this model, identically constructed producers return
/// bit-identical `(x, y)` sequences.
pub proof fn lemma_producer_deterministic(p: ProducerParams, q: ProducerParams, t: nat)
    requires
        p == q,
    ensures
        x_at(p, t) == x_at(q, t),
        y_at(p, t) == y_at(q, t),
{
}

/// The generator of feature vectors and drifting noisy targets.
pub struct InputProducer {
    dev: candle_core::Device,
    ws: Vec<candle_core::Tensor>,
    alfa: candle_core::Tensor,
    beta: candle_core::Tensor,
    noise_std: candle_core::Tensor,
    rng: RandomSource,
    dim: usize,
    ticks: Ghost<nat>,
}

impl InputProducer {
    /// The parameters this producer was built from.
    pub closed spec fn params(self) -> ProducerParams {
        ProducerParams {
            seed: self.rng.seed(),
            dim: self.dim as nat,
            levels: self.ws@.len(),
            alfa: tdata(self.alfa)[0],
        }
    }

    /// How many ticks have been produced so far.
    pub closed spec fn tick_count(self) -> nat {
        self.ticks@
    }

    /// The producer's state is exactly the model's state after
    /// `tick_count()` ticks.
    pub closed spec fn wf(self) -> bool {
        &&& self.dim >= 1
        &&& self.ws@.len() >= 1
        &&& device_wf(self.dev)
        &&& tensor_wf(self.alfa)
        &&& tensor_wf(self.beta)
        &&& tensor_wf(self.noise_std)
        &&& (forall|i: int| 0 <= i < self.ws@.len() ==> #[trigger] tensor_wf(self.ws@[i]))
        &&& tdata(self.alfa).len() == 1
        &&& tdata(self.beta) == seq![complement_of(self.params().alfa)]
        &&& tdata(self.noise_std) == seq![noise_std_bits()]
        &&& self.rng.taken() == draws_before(self.params(), self.ticks@)
        &&& datas(self.ws@) == cascade_at(self.params(), self.ticks@)
        &&& forall|i: int| 0 <= i < self.ws@.len() ==> #[trigger] tdata(self.ws@[i]).len() == self.dim
    }

    /// Builds a producer over `dim`-vectors with a cascade of `levels`
    /// stages, every stage initialized with standard-normal draws from the
    /// stream of `seed`. `alfa` is the mixing coefficient, a one-element
    /// tensor.
    pub fn new(
        dev: candle_core::Device,
        dim: usize,
        levels: usize,
        alfa: candle_core::Tensor,
        seed: u64,
    ) -> (r: Result<InputProducer, NumericError>)
        requires
            dim >= 1,
            levels >= 1,
            device_wf(dev),
            tensor_wf(alfa),
            tdata(alfa).len() == 1,
        ensures
            r is Ok,
            r matches Ok(g) ==> {
                &&& g.wf()
                &&& g.tick_count() == 0
                &&& g.params() == (ProducerParams {
                    seed,
                    dim: dim as nat,
                    levels: levels as nat,
                    alfa: tdata(alfa)[0],
                })
            },
    {
        let ghost p = ProducerParams {
            seed,
            dim: dim as nat,
            levels: levels as nat,
            alfa: tdata(alfa)[0],
        };
        let mut rng = RandomSource::new(seed);
        let mut ws: Vec<candle_core::Tensor> = Vec::new();
        let mut j: usize = 0;
        while j < levels
            invariant
                dim >= 1,
                device_wf(dev),
                p == (ProducerParams {
                    seed,
                    dim: dim as nat,
                    levels: levels as nat,
                    alfa: tdata(alfa)[0],
                }),
                rng.seed() == seed,
                rng.taken() == j * dim,
                ws@.len() == j,
                j <= levels,
                forall|k: int| 0 <= k < j ==> #[trigger] datas(ws@)[k] == init_level(p, k),
                forall|k: int| 0 <= k < j ==> #[trigger] tdata(ws@[k]).len() == dim,
                forall|k: int| 0 <= k < j ==> #[trigger] tensor_wf(ws@[k]),
            decreases levels - j,
        {
            let ghost taken0 = rng.taken();
            let w = draw_std_normals(&mut rng, dim, &dev)?;
            proof {
                let jj = j as int;
                let d = dim as int;
                assert((jj + 1) * d == jj * d + d) by (nonlinear_arith);
                assert forall|i: int| 0 <= i < d implies tdata(w)[i] == init_level(p, jj)[i] by {
                    assert(tdata(w)[i] == std_normal(seed, taken0 + i));
                    assert(init_level(p, jj)[i] == std_normal(p.seed, jj * p.dim + i));
                    assert(taken0 == jj * p.dim);
                }
                assert(tdata(w) =~= init_level(p, jj));
            }
            let ghost wsb = ws@;
            ws.push(w);
            proof {
                assert forall|k: int| 0 <= k < j + 1 implies #[trigger] datas(ws@)[k]
                    == init_level(p, k) by {
                    assert(datas(ws@)[k] == tdata(ws@[k]));
                    if k < j {
                        assert(ws@[k] == wsb[k]);
                        assert(datas(wsb)[k] == tdata(wsb[k]));
                    }
                }
                assert forall|k: int| 0 <= k < j + 1 implies #[trigger] tdata(ws@[k]).len()
                    == dim by {
                    if k < j {
                        assert(ws@[k] == wsb[k]);
                    }
                }
                assert forall|k: int| 0 <= k < j + 1 implies #[trigger] tensor_wf(ws@[k]) by {
                    if k < j {
                        assert(ws@[k] == wsb[k]);
                    }
                }
            }
            j = j + 1;
        }
        let one = t_full_u32(1, 1, &dev)?;
        let ten = t_full_u32(10, 1, &dev)?;
        let beta = t_sub(&one, &alfa)?;
        let noise_std = t_div(&one, &ten)?;
        proof {
            assert(datas(ws@) =~= init_cascade(p));
            assert(tdata(beta) =~= seq![complement_of(p.alfa)]);
            assert(tdata(noise_std) =~= seq![noise_std_bits()]);
            let d = dim as int;
            let l = levels as int;
            assert(d * l == l * d) by (nonlinear_arith);
            assert(0 * (2 * d + 1) == 0) by (nonlinear_arith);
        }
        Ok(InputProducer { dev, ws, alfa, beta, noise_std, rng, dim, ticks: Ghost(0nat) })
    }

    /// Advances the hidden cascade by one tick and returns the fresh feature
    /// vector together with the noisy target derived from the cascade's
    /// most-smoothed level after the sweep. The outputs of tick `t` are
    /// `x_at(params, t)` and `y_at(params, t)`: functions of the
    /// construction parameters and the tick index alone.
    pub fn next(&mut self) -> (r: Result<(candle_core::Tensor, candle_core::Tensor), NumericError>)
        requires
            old(self).wf(),
        ensures
            r is Ok,
            final (self).params() == old(self).params(),
            r matches Ok(xy) ==> {
                &&& final (self).wf()
                &&& final (self).tick_count() == old(self).tick_count() + 1
                &&& tensor_wf(xy.0)
                &&& tensor_wf(xy.1)
                &&& tdata(xy.0) == x_at(old(self).params(), old(self).tick_count())
                &&& tdata(xy.1) == seq![y_at(old(self).params(), old(self).tick_count())]
            },
    {
        let ghost p = old(self).params();
        let ghost t = old(self).tick_count();
        let ghost d = self.dim as int;
        let dw = draw_std_normals(&mut self.rng, self.dim, &self.dev)?;
        proof {
            assert(tdata(dw) =~= dw_at(p, t));
        }
        cascade_sweep(&mut self.ws, &dw, &self.alfa, &self.beta)?;
        proof {
            let ghost swept = sweep_spec(cascade_at(p, t), dw_at(p, t), p.alfa, complement_of(p.alfa));
            assert(datas(self.ws@) == swept);
            assert(cascade_at(p, (t + 1) as nat) == swept);
            lemma_sweep_preserves_dims(
                cascade_at(p, t),
                dw_at(p, t),
                p.alfa,
                complement_of(p.alfa),
                p.dim,
            );
            assert forall|i: int| 0 <= i < self.ws@.len() implies #[trigger] tdata(
                self.ws@[i],
            ).len() == p.dim by {
                assert(datas(self.ws@)[i] == swept[i]);
            }
        }
        let x = draw_std_normals(&mut self.rng, self.dim, &self.dev)?;
        proof {
            assert(tdata(x) =~= x_at(p, t));
        }
        let z = draw_std_normals(&mut self.rng, 1, &self.dev)?;
        let noise = t_scale(&z, &self.noise_std)?;
        let prod = t_mul(&x, &self.ws[0])?;
        let dot = t_sum(&prod)?;
        let y = t_add(&dot, &noise)?;
        proof {
            assert(tdata(noise) =~= seq![eps_at(p, t)]);
            assert(tdata(prod) =~= ew_mul(x_at(p, t), cascade_at(p, (t + 1) as nat)[0]));
            assert(tdata(y) =~= seq![y_at(p, t)]);
            let tt = t as int;
            assert((tt + 1) * (2 * d + 1) == tt * (2 * d + 1) + 2 * d + 1) by (nonlinear_arith);
        }
        self.ticks = Ghost((t + 1) as nat);
        Ok((x, y))
    }
}

} // verus!
