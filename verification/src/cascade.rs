//! The hierarchical cascade: an ordered stack of exponential smoothers.
//!
//! A sweep injects a fresh driving value at the top level (the highest
//! index) and diffuses it downward one level per tick: each level is mixed
//! with the already-updated value of the level above it from the same sweep.
//! Level 0 is the most smoothed state and is what callers consume.

use crate::tensor_ops::NumericError;
use crate::tensor_ops::f64_from_u32;
use crate::tensor_ops::sub_val;
use crate::tensor_ops::datas;
use crate::tensor_ops::ew_add;
use crate::tensor_ops::scale_seq;
use crate::tensor_ops::t_add;
use crate::tensor_ops::t_scale;
use crate::tensor_ops::tdata;
use crate::tensor_ops::tensor_wf;
use vstd::prelude::*;

verus! {

/// The bits of the f64 value one.
pub open spec fn one_bits() -> u64 {
    f64_from_u32(1)
}

/// The complement `1 - alfa` that weights the incoming value of each mix.
pub open spec fn complement_of(alfa: u64) -> u64 {
    sub_val(one_bits(), alfa)
}

/// One exponential-smoothing step: `a * prev + b * incoming`, elementwise,
/// where `a` is the mixing coefficient and `b` its complement.
pub open spec fn mix(prev: Seq<u64>, incoming: Seq<u64>, a: u64, b: u64) -> Seq<u64> {
    ew_add(scale_seq(prev, a), scale_seq(incoming, b))
}

/// Level `i` after a sweep of the stack `levels` driven by `v`: the top
/// level mixes with `v`, every other level with the post-sweep value of the
/// level above it.
pub open spec fn swept_level(levels: Seq<Seq<u64>>, v: Seq<u64>, a: u64, b: u64, i: int) -> Seq<
    u64,
>
    decreases levels.len() - i,
{
    if i >= levels.len() - 1 {
        mix(levels[i], v, a, b)
    } else {
        mix(levels[i], swept_level(levels, v, a, b, i + 1), a, b)
    }
}

/// The whole stack after one sweep driven by `v`.
pub open spec fn sweep_spec(levels: Seq<Seq<u64>>, v: Seq<u64>, a: u64, b: u64) -> Seq<Seq<u64>> {
    Seq::new(levels.len(), |i: int| swept_level(levels, v, a, b, i))
}

/// A sweep touches every level exactly once, top-down: the stack keeps its
/// length, the top level is the mix of its pre-sweep value with the driving
/// value, and every level below depends only on its own pre-sweep value and
/// the post-sweep value of the level directly above it.
pub proof fn lemma_sweep_levels(levels: Seq<Seq<u64>>, v: Seq<u64>, a: u64, b: u64, i: int)
    requires
        levels.len() >= 1,
        0 <= i < levels.len(),
    ensures
        sweep_spec(levels, v, a, b).len() == levels.len(),
        sweep_spec(levels, v, a, b)[levels.len() - 1] == mix(levels[levels.len() - 1], v, a, b),
        i < levels.len() - 1 ==> sweep_spec(levels, v, a, b)[i] == mix(
            levels[i],
            sweep_spec(levels, v, a, b)[i + 1],
            a,
            b,
        ),
{
}

/// With a single level the sweep reduces to a plain exponential moving
/// average of the driving value: `S[0] <- a * S[0] + b * v`.
pub proof fn lemma_single_level_sweep(levels: Seq<Seq<u64>>, v: Seq<u64>, a: u64, b: u64)
    requires
        levels.len() == 1,
    ensures
        sweep_spec(levels, v, a, b) == seq![mix(levels[0], v, a, b)],
{
    assert(sweep_spec(levels, v, a, b) =~= seq![mix(levels[0], v, a, b)]);
}

/// A sweep keeps the length of every level: if all levels hold `dim`
/// elements and the driving value does too, so do all post-sweep levels.
pub proof fn lemma_sweep_preserves_dims(
    levels: Seq<Seq<u64>>,
    v: Seq<u64>,
    a: u64,
    b: u64,
    dim: nat,
)
    requires
        levels.len() >= 1,
        v.len() == dim,
        forall|i: int| 0 <= i < levels.len() ==> levels[i].len() == dim,
    ensures
        forall|i: int|
            0 <= i < levels.len() ==> #[trigger] sweep_spec(levels, v, a, b)[i].len() == dim,
{
    assert forall|i: int| levels.len() - 1 >= i >= 0 implies #[trigger] swept_level(
        levels,
        v,
        a,
        b,
        i,
    ).len() == dim by {
        lemma_swept_level_len(levels, v, a, b, dim, i);
    }
}

proof fn lemma_swept_level_len(levels: Seq<Seq<u64>>, v: Seq<u64>, a: u64, b: u64, dim: nat, i: int)
    requires
        levels.len() >= 1,
        v.len() == dim,
        0 <= i < levels.len(),
        forall|j: int| 0 <= j < levels.len() ==> levels[j].len() == dim,
    ensures
        swept_level(levels, v, a, b, i).len() == dim,
    decreases levels.len() - i,
{
    if i < levels.len() - 1 {
        lemma_swept_level_len(levels, v, a, b, dim, i + 1);
    }
}

/// Mixes `prev` with `incoming`: `a * prev + b * incoming`, elementwise.
fn mix_exec(
    prev: &candle_core::Tensor,
    incoming: &candle_core::Tensor,
    a: &candle_core::Tensor,
    b: &candle_core::Tensor,
) -> (r: Result<candle_core::Tensor, candle_core::Error>)
    requires
        tensor_wf(*prev),
        tensor_wf(*incoming),
        tensor_wf(*a),
        tensor_wf(*b),
        tdata(*a).len() == 1,
        tdata(*b).len() == 1,
        tdata(*prev).len() >= 1,
        tdata(*prev).len() == tdata(*incoming).len(),
    ensures
        r is Ok,
        r matches Ok(t) ==> tensor_wf(t) && tdata(t) == mix(
            tdata(*prev),
            tdata(*incoming),
            tdata(*a)[0],
            tdata(*b)[0],
        ),
{
    let scaled_prev = t_scale(prev, a)?;
    let scaled_in = t_scale(incoming, b)?;
    t_add(&scaled_prev, &scaled_in)
}

/// Runs one cascade sweep in place: injects `v` at the top level and
/// diffuses it downward, each level mixed with the already-updated level
/// above it. `a` is the mixing coefficient, `b` its complement.
pub fn cascade_sweep(
    levels: &mut Vec<candle_core::Tensor>,
    v: &candle_core::Tensor,
    a: &candle_core::Tensor,
    b: &candle_core::Tensor,
) -> (r: Result<(), NumericError>)
    requires
        old(levels)@.len() >= 1,
        tensor_wf(*v),
        tensor_wf(*a),
        tensor_wf(*b),
        tdata(*a).len() == 1,
        tdata(*b).len() == 1,
        tdata(*v).len() >= 1,
        forall|i: int| 0 <= i < old(levels)@.len() ==> #[trigger] tensor_wf(old(levels)@[i]),
        forall|i: int|
            0 <= i < old(levels)@.len() ==> #[trigger] tdata(old(levels)@[i]).len() == tdata(
                *v,
            ).len(),
    ensures
        r is Ok,
        final (levels)@.len() == old(levels)@.len(),
        forall|i: int| 0 <= i < final (levels)@.len() ==> #[trigger] tensor_wf(final (levels)@[i]),
        r is Ok ==> datas(final (levels)@) == sweep_spec(
            datas(old(levels)@),
            tdata(*v),
            tdata(*a)[0],
            tdata(*b)[0],
        ),
{
    let ghost pre = datas(levels@);
    let ghost av = tdata(*a)[0];
    let ghost bv = tdata(*b)[0];
    let last = levels.len() - 1;
    let top = match mix_exec(&levels[last], v, a, b) {
        Ok(t) => t,
        Err(e) => {
            return Err(NumericError::Tensor(e));
        },
    };
    let ghost at_top = levels@;
    levels[last] = top;
    proof {
        assert(datas(levels@)[last as int] == swept_level(pre, tdata(*v), av, bv, last as int));
        assert forall|j: int| 0 <= j < levels@.len() implies #[trigger] tensor_wf(levels@[j]) by {
            if j != last {
                assert(levels@[j] == at_top[j]);
            }
        }
    }
    let mut i = last;
    while i > 0
        invariant
            0 <= i <= last,
            last == levels@.len() - 1,
            tensor_wf(*a),
            tensor_wf(*b),
            tdata(*a).len() == 1,
            tdata(*b).len() == 1,
            tdata(*v).len() >= 1,
            av == tdata(*a)[0],
            bv == tdata(*b)[0],
            pre == datas(old(levels)@),
            pre.len() == levels@.len(),
            forall|j: int| 0 <= j < pre.len() ==> #[trigger] pre[j].len() == tdata(*v).len(),
            forall|j: int| 0 <= j < levels@.len() ==> #[trigger] tensor_wf(levels@[j]),
            forall|j: int| 0 <= j < i ==> #[trigger] datas(levels@)[j] == pre[j],
            forall|j: int|
                i <= j < levels@.len() ==> #[trigger] datas(levels@)[j] == swept_level(
                    pre,
                    tdata(*v),
                    av,
                    bv,
                    j,
                ),
        decreases i,
    {
        proof {
            lemma_swept_level_len(pre, tdata(*v), av, bv, tdata(*v).len(), i as int);
            assert(tdata(levels@[i - 1]) == datas(levels@)[i - 1]);
            assert(tdata(levels@[i as int]) == datas(levels@)[i as int]);
        }
        let ghost before = levels@;
        let mixed = match mix_exec(&levels[i - 1], &levels[i], a, b) {
            Ok(t) => t,
            Err(e) => {
                return Err(NumericError::Tensor(e));
            },
        };
        levels[i - 1] = mixed;
        proof {
            assert(levels@ =~= before.update(i - 1, mixed));
            assert forall|j: int| 0 <= j < levels@.len() implies #[trigger] tensor_wf(
                levels@[j],
            ) by {
                if j != i - 1 {
                    assert(levels@[j] == before[j]);
                }
            }
            assert(tdata(mixed) == mix(pre[i - 1], swept_level(pre, tdata(*v), av, bv, i as int), av, bv));
            assert forall|j: int| 0 <= j < i - 1 implies #[trigger] datas(levels@)[j] == pre[j] by {
                assert(levels@[j] == before[j]);
                assert(datas(before)[j] == pre[j]);
            }
            assert(datas(levels@)[i - 1] == tdata(mixed));
            assert(datas(levels@)[i - 1] == swept_level(pre, tdata(*v), av, bv, i - 1));
            assert forall|j: int| i - 1 <= j < levels@.len() implies #[trigger] datas(levels@)[j]
                == swept_level(pre, tdata(*v), av, bv, j) by {
                if j > i - 1 {
                    assert(levels@[j] == before[j]);
                    assert(datas(before)[j] == swept_level(pre, tdata(*v), av, bv, j));
                }
            }
        }
        i = i - 1;
    }
    assert(datas(levels@) =~= sweep_spec(pre, tdata(*v), av, bv));
    Ok(())
}

} // verus!
