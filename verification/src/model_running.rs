//! The grid runner: one simulation per (model depth, data depth) pair.
//!
//! A cell's run is fully deterministic: `sim_state` below folds the producer
//! and learner models over the ticks, so the mean post-warm-up loss of a
//! cell is a function of the configuration alone. `run_case` drives one cell
//! and is proved to return exactly that value; `run_step` fills the whole
//! matrix cell by cell; `assemble_matrix` scatters independently computed
//! cells (for a driver that runs them concurrently) into the same matrix
//! shape.

use crate::config_step::Config;
use crate::input_producer::InputProducer;
use crate::input_producer::ProducerParams;
use crate::input_producer::x_at;
use crate::input_producer::y_at;
use crate::momentum_model::MomentumModel;
use crate::momentum_model::aug;
use crate::momentum_model::init_buffers;
use crate::momentum_model::init_weights;
use crate::momentum_model::loss_of;
use crate::momentum_model::stepped_buffers;
use crate::momentum_model::stepped_weights;
use crate::tensor_ops::NumericError;
use crate::tensor_ops::mean_val;
use crate::tensor_ops::t_cat;
use crate::tensor_ops::t_mean;
use crate::tensor_ops::neg_zero_bits;
use crate::tensor_ops::tdata;
use crate::tensor_ops::tensor_wf;
use crate::tensor_ops::device_wf;
use vstd::prelude::*;

verus! {

/// Everything that determines one grid cell's simulation.
pub struct CaseParams {
    pub dim: nat,
    /// The learner's cascade depth.
    pub ml: nat,
    /// The generator's cascade depth.
    pub dl: nat,
    pub alfa: u64,
    pub lr: u64,
    pub model_seed: u64,
    pub data_seed: u64,
}

/// The generator parameters of a cell.
pub open spec fn producer_of(c: CaseParams) -> ProducerParams {
    ProducerParams { seed: c.data_seed, dim: c.dim, levels: c.dl, alfa: c.alfa }
}

/// The learner's (weights, buffers) after `t` supervised ticks on the
/// generator's outputs.
pub open spec fn sim_state(c: CaseParams, t: nat) -> (Seq<u64>, Seq<Seq<u64>>)
    decreases t,
{
    if t == 0 {
        (init_weights(c.model_seed, c.dim), init_buffers(c.ml, c.dim))
    } else {
        let prev = sim_state(c, (t - 1) as nat);
        let xa = aug(x_at(producer_of(c), (t - 1) as nat));
        let y = y_at(producer_of(c), (t - 1) as nat);
        (
            stepped_weights(prev.1, xa, prev.0, y, c.alfa, c.lr),
            stepped_buffers(prev.1, xa, prev.0, y, c.alfa),
        )
    }
}

/// The loss recorded at tick `t` of a cell's run.
pub open spec fn loss_at(c: CaseParams, t: nat) -> u64 {
    loss_of(aug(x_at(producer_of(c), t)), sim_state(c, t).0, y_at(producer_of(c), t))
}

/// The losses kept after discarding the first `warm_up` ticks.
pub open spec fn recorded_losses(c: CaseParams, samples: nat, warm_up: nat) -> Seq<u64> {
    Seq::new((samples - warm_up) as nat, |i: int| loss_at(c, (warm_up + i) as nat))
}

/// A cell's value: the mean of its recorded losses.
pub open spec fn case_mean(c: CaseParams, samples: nat, warm_up: nat) -> u64 {
    mean_val(recorded_losses(c, samples, warm_up))
}

/// One grid cell's run configuration.
pub struct RunConfiguration {
    pub ml: usize,
    pub dl: usize,
    pub dev: candle_core::Device,
    pub dim: usize,
    pub alpha: candle_core::Tensor,
    pub model_seed: u64,
    pub data_seed: u64,
    pub lr: candle_core::Tensor,
    pub samples: usize,
    pub warm_up: usize,
}

/// Whether `key` occurs in `keys`.
pub open spec fn key_present(keys: Seq<usize>, key: usize) -> bool {
    exists|i: int| 0 <= i < keys.len() && keys[i] == key
}

/// The simulation parameters a run configuration denotes.
pub open spec fn case_of(rc: RunConfiguration) -> CaseParams {
    CaseParams {
        dim: rc.dim as nat,
        ml: rc.ml as nat,
        dl: rc.dl as nat,
        alfa: tdata(rc.alpha)[0],
        lr: tdata(rc.lr)[0],
        model_seed: rc.model_seed,
        data_seed: rc.data_seed,
    }
}

/// A usable run configuration.
pub open spec fn rc_wf(rc: RunConfiguration) -> bool {
    &&& rc.dim >= 1
    &&& rc.dim + 1 <= usize::MAX
    &&& rc.ml >= 1
    &&& rc.dl >= 1
    &&& rc.warm_up < rc.samples
    &&& device_wf(rc.dev)
    &&& tensor_wf(rc.alpha)
    &&& tensor_wf(rc.lr)
    &&& tdata(rc.alpha).len() == 1
    &&& tdata(rc.lr).len() == 1
}

/// Runs one grid cell: a fresh learner of depth `ml` against a fresh
/// generator of depth `dl`, both seeded from the configured fixed seeds,
/// for `samples` supervised ticks; the losses of the ticks at index
/// `warm_up` and beyond are kept and their mean is returned.
pub fn run_case(rc: RunConfiguration) -> (r: Result<candle_core::Tensor, NumericError>)
    requires
        rc_wf(rc),
    ensures
        r is Ok,
        r matches Ok(t) ==> tdata(t) == seq![
            case_mean(case_of(rc), rc.samples as nat, rc.warm_up as nat),
        ],
        r matches Ok(t) ==> (rc.samples == rc.warm_up + 1 ==> tdata(t) == seq![
            loss_at(case_of(rc), rc.warm_up as nat),
        ]),
{
    let ghost c = case_of(rc);
    let mut model = MomentumModel::new(
        rc.dev.clone(),
        rc.dim,
        rc.ml,
        rc.alpha.clone(),
        rc.lr.clone(),
        rc.model_seed,
    )?;
    let mut producer = InputProducer::new(rc.dev.clone(), rc.dim, rc.dl, rc.alpha.clone(), rc.data_seed)?;
    let mut acc: Option<candle_core::Tensor> = None;
    let mut i: usize = 0;
    while i < rc.samples
        invariant
            rc_wf(rc),
            c == case_of(rc),
            i <= rc.samples,
            producer.wf(),
            model.wf(),
            producer.params() == producer_of(c),
            producer.tick_count() == i,
            model.dim_spec() == c.dim,
            model.levels_spec() == c.ml,
            model.alfa_bits() == c.alfa,
            model.lr_bits() == c.lr,
            model.weights() == sim_state(c, i as nat).0,
            model.buffers() == sim_state(c, i as nat).1,
            i <= rc.warm_up ==> acc is None,
            i > rc.warm_up ==> (acc matches Some(a) && tensor_wf(a) && tdata(a)
                == recorded_losses(c, i as nat, rc.warm_up as nat)),
            forall|k: int|
                rc.warm_up <= k < i ==> #[trigger] loss_at(c, k as nat) != neg_zero_bits(),
        decreases rc.samples - i,
    {
        let xy = producer.next()?;
        let out = model.step(&xy.0, Some(&xy.1))?;
        proof {
            assert(sim_state(c, (i + 1) as nat).0 == stepped_weights(
                sim_state(c, i as nat).1,
                aug(x_at(producer_of(c), i as nat)),
                sim_state(c, i as nat).0,
                y_at(producer_of(c), i as nat),
                c.alfa,
                c.lr,
            ));
            assert(tdata(xy.1)[0] == y_at(producer_of(c), i as nat));
        }
        if i >= rc.warm_up {
            let l = out.1.unwrap();
            proof {
                assert(tdata(l) == seq![loss_at(c, i as nat)]);
            }
            acc = match acc {
                None => {
                    proof {
                        assert(i == rc.warm_up);
                    }
                    Some(l)
                },
                Some(a) => Some(t_cat(&a, &l)?),
            };
            proof {
                let a = acc->Some_0;
                assert(tdata(a) =~= recorded_losses(c, (i + 1) as nat, rc.warm_up as nat));
            }
        }
        i = i + 1;
    }
    let losses = acc.unwrap();
    let mean = t_mean(&losses)?;
    proof {
        if rc.samples == rc.warm_up + 1 {
            assert(recorded_losses(c, rc.samples as nat, rc.warm_up as nat) =~= seq![
                loss_at(c, rc.warm_up as nat),
            ]);
            assert(tdata(losses)[0] != neg_zero_bits());
            assert(tdata(mean) =~= seq![loss_at(c, rc.warm_up as nat)]);
        }
    }
    Ok(mean)
}

/// The parameters of the grid cell at row `i`, column `j` of a
/// configuration's result matrix.
pub open spec fn cell_params(conf: Config, i: int, j: int) -> CaseParams {
    CaseParams {
        dim: conf.dim as nat,
        ml: conf.model_levels@[i] as nat,
        dl: conf.data_levels@[j] as nat,
        alfa: tdata(conf.alpha)[0],
        lr: tdata(conf.lr)[0],
        model_seed: conf.model_seed,
        data_seed: conf.data_seed,
    }
}

/// What a grid cell must hold: it is filled, with the mean recorded loss of
/// that cell's deterministic simulation. A cell could stay empty only if its
/// run failed, and on a usable configuration no run fails.
pub open spec fn cell_ok(conf: Config, i: int, j: int, cell: Option<candle_core::Tensor>) -> bool {
    cell matches Some(t) && tdata(t) == seq![
        case_mean(cell_params(conf, i, j), conf.samples as nat, conf.warm_up as nat),
    ]
}

/// Runs every (model depth, data depth) combination of the configuration,
/// one cell at a time, and returns the depth-by-depth matrix of mean
/// post-warm-up losses: on a usable configuration no cell's run can fail,
/// so every cell is filled with exactly its simulation's mean recorded
/// loss, each written once.
pub fn run_step(conf: &Config) -> (r: Result<
    Vec<Vec<Option<candle_core::Tensor>>>,
    NumericError,
>)
    requires
        conf.wf(),
    ensures
        r is Ok,
        r matches Ok(m) ==> {
            &&& m@.len() == conf.model_levels@.len()
            &&& (forall|i: int|
                0 <= i < m@.len() ==> #[trigger] m@[i]@.len() == conf.data_levels@.len())
            &&& (forall|i: int, j: int|
                0 <= i < m@.len() && 0 <= j < m@[i]@.len() ==> #[trigger] cell_ok(
                    *conf,
                    i,
                    j,
                    m@[i]@[j],
                ))
        },
{
    let mut matrix: Vec<Vec<Option<candle_core::Tensor>>> = Vec::new();
    let mut i: usize = 0;
    while i < conf.model_levels.len()
        invariant
            conf.wf(),
            i <= conf.model_levels@.len(),
            matrix@.len() == i,
            forall|a: int| 0 <= a < i ==> #[trigger] matrix@[a]@.len() == conf.data_levels@.len(),
            forall|a: int, b: int|
                0 <= a < i && 0 <= b < matrix@[a]@.len() ==> #[trigger] cell_ok(
                    *conf,
                    a,
                    b,
                    matrix@[a]@[b],
                ),
        decreases conf.model_levels@.len() - i,
    {
        let mut row: Vec<Option<candle_core::Tensor>> = Vec::new();
        let mut j: usize = 0;
        while j < conf.data_levels.len()
            invariant
                conf.wf(),
                0 <= i < conf.model_levels@.len(),
                j <= conf.data_levels@.len(),
                row@.len() == j,
                forall|b: int|
                    0 <= b < j ==> #[trigger] cell_ok(*conf, i as int, b, row@[b]),
            decreases conf.data_levels@.len() - j,
        {
            let rc = RunConfiguration {
                ml: conf.model_levels[i],
                dl: conf.data_levels[j],
                dev: conf.dev.clone(),
                dim: conf.dim,
                alpha: conf.alpha.clone(),
                model_seed: conf.model_seed,
                data_seed: conf.data_seed,
                lr: conf.lr.clone(),
                samples: conf.samples,
                warm_up: conf.warm_up,
            };
            let cell = Some(run_case(rc)?);
            row.push(cell);
            j = j + 1;
        }
        matrix.push(row);
        i = i + 1;
    }
    Ok(matrix)
}

/// The first index of `key` in `keys`, if it occurs.
pub fn position_of(keys: &Vec<usize>, key: usize) -> (r: Option<usize>)
    ensures
        r matches Some(i) ==> i < keys@.len() && keys@[i as int] == key && (forall|k: int|
            0 <= k < i ==> keys@[k] != key),
        r is None ==> forall|k: int| 0 <= k < keys@.len() ==> keys@[k] != key,
{
    let mut i: usize = 0;
    while i < keys.len()
        invariant
            i <= keys@.len(),
            forall|k: int| 0 <= k < i ==> keys@[k] != key,
        decreases keys@.len() - i,
    {
        if keys[i] == key {
            return Some(i);
        }
        i = i + 1;
    }
    None
}

/// Scatters independently computed cells into the matrix: each `(ml, dl,
/// value)` triple lands at the row of `ml` and the column of `dl`; cells
/// that no triple names stay empty. This is what a concurrent driver uses
/// after collecting its workers' results.
pub fn assemble_matrix(
    model_levels: &Vec<usize>,
    data_levels: &Vec<usize>,
    results: &Vec<(usize, usize, candle_core::Tensor)>,
) -> (m: Vec<Vec<Option<candle_core::Tensor>>>)
    requires
        forall|i: int, j: int|
            0 <= i < j < model_levels@.len() ==> model_levels@[i] != model_levels@[j],
        forall|i: int, j: int|
            0 <= i < j < data_levels@.len() ==> data_levels@[i] != data_levels@[j],
        forall|k: int|
            0 <= k < results@.len() ==> key_present(model_levels@, (#[trigger] results@[k]).0)
                && key_present(data_levels@, results@[k].1),
    ensures
        m@.len() == model_levels@.len(),
        forall|i: int| 0 <= i < m@.len() ==> #[trigger] m@[i]@.len() == data_levels@.len(),
        forall|i: int, j: int|
            0 <= i < m@.len() && 0 <= j < m@[i]@.len() ==> {
                &&& (m@[i]@[j] matches Some(t) ==> exists|k: int|
                    0 <= k < results@.len() && (#[trigger] results@[k]).0 == model_levels@[i]
                        && results@[k].1 == data_levels@[j] && tdata(t) == tdata(results@[k].2))
                &&& (m@[i]@[j] is None ==> forall|k: int|
                    0 <= k < results@.len() ==> !((#[trigger] results@[k]).0 == model_levels@[i]
                        && results@[k].1 == data_levels@[j]))
            },
{
    let mut m: Vec<Vec<Option<candle_core::Tensor>>> = Vec::new();
    let mut i: usize = 0;
    while i < model_levels.len()
        invariant
            i <= model_levels@.len(),
            m@.len() == i,
            forall|a: int| 0 <= a < i ==> #[trigger] m@[a]@.len() == data_levels@.len(),
            forall|a: int, b: int|
                0 <= a < i && 0 <= b < data_levels@.len() ==> #[trigger] m@[a]@[b] is None,
        decreases model_levels@.len() - i,
    {
        let mut row: Vec<Option<candle_core::Tensor>> = Vec::new();
        let mut j: usize = 0;
        while j < data_levels.len()
            invariant
                j <= data_levels@.len(),
                row@.len() == j,
                forall|b: int| 0 <= b < j ==> #[trigger] row@[b] is None,
            decreases data_levels@.len() - j,
        {
            row.push(None);
            j = j + 1;
        }
        m.push(row);
        i = i + 1;
    }
    let mut k: usize = 0;
    while k < results.len()
        invariant
            k <= results@.len(),
            forall|a: int, b: int|
                0 <= a < b < model_levels@.len() ==> model_levels@[a] != model_levels@[b],
            forall|a: int, b: int|
                0 <= a < b < data_levels@.len() ==> data_levels@[a] != data_levels@[b],
            forall|kk: int|
                0 <= kk < results@.len() ==> key_present(model_levels@, (#[trigger] results@[kk]).0)
                    && key_present(data_levels@, results@[kk].1),
            m@.len() == model_levels@.len(),
            forall|a: int| 0 <= a < m@.len() ==> #[trigger] m@[a]@.len() == data_levels@.len(),
            forall|a: int, b: int|
                0 <= a < m@.len() && 0 <= b < m@[a]@.len() ==> {
                    &&& (m@[a]@[b] matches Some(t) ==> exists|kk: int|
                        0 <= kk < k && (#[trigger] results@[kk]).0 == model_levels@[a]
                            && results@[kk].1 == data_levels@[b] && tdata(t) == tdata(
                            results@[kk].2,
                        ))
                    &&& (m@[a]@[b] is None ==> forall|kk: int|
                        0 <= kk < k ==> !((#[trigger] results@[kk]).0 == model_levels@[a]
                            && results@[kk].1 == data_levels@[b]))
                },
        decreases results@.len() - k,
    {
        let ml = results[k].0;
        let dl = results[k].1;
        proof {
            assert(key_present(model_levels@, results@[k as int].0));
            assert(key_present(data_levels@, results@[k as int].1));
        }
        let r = position_of(model_levels, ml).unwrap();
        let c = position_of(data_levels, dl).unwrap();
        let v = results[k].2.clone();
        let ghost mb = m@;
        m[r][c] = Some(v);
        proof {
            assert(m@[r as int]@ =~= mb[r as int]@.update(c as int, Some(v)));
            assert forall|a: int, b: int|
                0 <= a < m@.len() && 0 <= b < m@[a]@.len() implies {
                &&& (m@[a]@[b] matches Some(t) ==> exists|kk: int|
                    0 <= kk < k + 1 && (#[trigger] results@[kk]).0 == model_levels@[a]
                        && results@[kk].1 == data_levels@[b] && tdata(t) == tdata(results@[kk].2))
                &&& (m@[a]@[b] is None ==> forall|kk: int|
                    0 <= kk < k + 1 ==> !((#[trigger] results@[kk]).0 == model_levels@[a]
                        && results@[kk].1 == data_levels@[b]))
            } by {
                if a == r && b == c {
                    assert(m@[a]@[b] == Some(v));
                    assert(results@[k as int].0 == model_levels@[a] && results@[k as int].1
                        == data_levels@[b] && tdata(v) == tdata(results@[k as int].2));
                } else {
                    assert(m@[a]@[b] == mb[a]@[b]);
                    if m@[a]@[b] is None {
                        assert forall|kk: int| 0 <= kk < k + 1 implies !((#[trigger] results@[kk]).0
                            == model_levels@[a] && results@[kk].1 == data_levels@[b]) by {
                            if kk == k {
                                if results@[kk].0 == model_levels@[a] && results@[kk].1
                                    == data_levels@[b] {
                                    assert(model_levels@[a] == model_levels@[r as int]);
                                    assert(a == r as int);
                                    assert(data_levels@[b] == data_levels@[c as int]);
                                    assert(b == c as int);
                                    assert(false);
                                }
                            }
                        }
                    }
                }
            }
        }
        k = k + 1;
    }
    m
}

} // verus!
