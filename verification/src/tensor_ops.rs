//! Trusted boundary around candle's tensors.
//!
//! Every numeric value of this library lives inside a `candle_core::Tensor`
//! of 64-bit floats. A tensor is opaque to the verifier; its contents are
//! modelled by `tdata`, the sequence of its elements' bit patterns. Each
//! arithmetic operation of candle that the library calls gets a wrapper
//! whose contract names the operation's per-element result.

use vstd::prelude::*;

verus! {

#[verifier::external_type_specification]
#[verifier::external_body]
pub struct ExTensor(candle_core::Tensor);

#[verifier::external_type_specification]
#[verifier::external_body]
pub struct ExDevice(candle_core::Device);

#[verifier::external_type_specification]
#[verifier::external_body]
pub struct ExError(candle_core::Error);

/// An operation on tensors failed inside candle.
#[derive(Debug)]
pub enum NumericError {
    Tensor(candle_core::Error),
}

impl From<candle_core::Error> for NumericError {
    fn from(e: candle_core::Error) -> (r: NumericError) {
        NumericError::Tensor(e)
    }
}

impl vstd::std_specs::convert::FromSpecImpl<candle_core::Error> for NumericError {
    open spec fn obeys_from_spec() -> bool {
        true
    }

    open spec fn from_spec(e: candle_core::Error) -> NumericError {
        NumericError::Tensor(e)
    }
}

/// The elements a tensor holds, flattened, each a 64-bit float given by its
/// bit pattern. Nothing is assumed of the values themselves: every operation
/// below states its result through this model.
pub uninterp spec fn tdata(t: candle_core::Tensor) -> Seq<u64>;

/// Whether a tensor is one-dimensional, holds 64-bit floats none of them a
/// signaling NaN, and lives in processor memory. Every tensor the creation
/// wrappers below return satisfies this, every operation preserves it, and
/// under it the operations cannot fail: their only error conditions are
/// rank, length, dtype and device mismatches, all excluded by `requires`.
pub uninterp spec fn tensor_wf(t: candle_core::Tensor) -> bool;

/// Whether a device is the processor, the one backend this crate compiles.
/// Nothing in the library establishes this: the code that builds a `Device`
/// (the binary, the tests) checks the value it made, and `Device::clone`
/// keeps it. Tensor creation on any other device fails inside candle, so
/// the creating wrappers require it before promising success.
pub uninterp spec fn device_wf(d: candle_core::Device) -> bool;

/// The bit pattern of the IEEE double negative zero, the one value whose
/// identity a one-element mean does not keep.
pub open spec fn neg_zero_bits() -> u64 {
    0x8000000000000000u64
}

/// The bits of the IEEE double sum `a + b`.
pub uninterp spec fn add_val(a: u64, b: u64) -> u64;

/// The bits of the IEEE double difference `a - b`.
pub uninterp spec fn sub_val(a: u64, b: u64) -> u64;

/// The bits of the IEEE double product `a * b`.
pub uninterp spec fn mul_val(a: u64, b: u64) -> u64;

/// The bits of the IEEE double quotient `a / b`.
pub uninterp spec fn div_val(a: u64, b: u64) -> u64;

/// The bits of the IEEE double product `x * s`, as computed by a broadcast
/// multiplication with a one-element tensor: the very same multiply as
/// `mul_val`, applied to every element.
pub open spec fn scale_val(x: u64, s: u64) -> u64 {
    mul_val(x, s)
}

/// The bits of the IEEE double square `x * x`.
pub uninterp spec fn sqr_val(x: u64) -> u64;

/// The bits of the IEEE double sum of all elements: candle's CPU backend
/// reduces with a left fold from positive zero, in element order.
pub open spec fn sum_val(a: Seq<u64>) -> u64
    decreases a.len(),
{
    if a.len() == 0 {
        0u64
    } else {
        add_val(sum_val(a.drop_last()), a.last())
    }
}

/// The bits of the IEEE double arithmetic mean of all elements.
pub uninterp spec fn mean_val(a: Seq<u64>) -> u64;

/// The bits of the IEEE double that a `u32` converts to (exact, since every
/// `u32` is representable).
pub uninterp spec fn f64_from_u32(x: u32) -> u64;

/// Elementwise `add_val` of two equally long sequences.
pub open spec fn ew_add(a: Seq<u64>, b: Seq<u64>) -> Seq<u64> {
    Seq::new(a.len(), |i: int| add_val(a[i], b[i]))
}

/// Elementwise `sub_val` of two equally long sequences.
pub open spec fn ew_sub(a: Seq<u64>, b: Seq<u64>) -> Seq<u64> {
    Seq::new(a.len(), |i: int| sub_val(a[i], b[i]))
}

/// Elementwise `mul_val` of two equally long sequences.
pub open spec fn ew_mul(a: Seq<u64>, b: Seq<u64>) -> Seq<u64> {
    Seq::new(a.len(), |i: int| mul_val(a[i], b[i]))
}

/// Every element of `v` scaled by the scalar `s`.
pub open spec fn scale_seq(v: Seq<u64>, s: u64) -> Seq<u64> {
    Seq::new(v.len(), |i: int| scale_val(v[i], s))
}

/// The contents of each tensor of a sequence.
pub open spec fn datas(ts: Seq<candle_core::Tensor>) -> Seq<Seq<u64>> {
    ts.map_values(|t: candle_core::Tensor| tdata(t))
}

/// Relies on candle_core::Tensor::add: elementwise addition of two
/// same-shape f64 tensors.
#[verifier::external_body]
pub(crate) fn t_add(a: &candle_core::Tensor, b: &candle_core::Tensor) -> (r: Result<
    candle_core::Tensor,
    candle_core::Error,
>)
    requires
        tensor_wf(*a),
        tensor_wf(*b),
        tdata(*a).len() == tdata(*b).len(),
    ensures
        r is Ok,
        r matches Ok(t) ==> tensor_wf(t) && tdata(t) == Seq::new(
            tdata(*a).len(),
            |i: int| add_val(tdata(*a)[i], tdata(*b)[i]),
        ),
        r matches Ok(t) ==> tdata(t) == ew_add(tdata(*a), tdata(*b)),
{
    a.add(b)
}

/// Relies on candle_core::Tensor::sub: elementwise subtraction of two
/// same-shape f64 tensors.
#[verifier::external_body]
pub(crate) fn t_sub(a: &candle_core::Tensor, b: &candle_core::Tensor) -> (r: Result<
    candle_core::Tensor,
    candle_core::Error,
>)
    requires
        tensor_wf(*a),
        tensor_wf(*b),
        tdata(*a).len() == tdata(*b).len(),
    ensures
        r is Ok,
        r matches Ok(t) ==> tensor_wf(t) && tdata(t) == Seq::new(
            tdata(*a).len(),
            |i: int| sub_val(tdata(*a)[i], tdata(*b)[i]),
        ),
        r matches Ok(t) ==> tdata(t) == ew_sub(tdata(*a), tdata(*b)),
{
    a.sub(b)
}

/// Relies on candle_core::Tensor::mul: elementwise multiplication of two
/// same-shape f64 tensors.
#[verifier::external_body]
pub(crate) fn t_mul(a: &candle_core::Tensor, b: &candle_core::Tensor) -> (r: Result<
    candle_core::Tensor,
    candle_core::Error,
>)
    requires
        tensor_wf(*a),
        tensor_wf(*b),
        tdata(*a).len() == tdata(*b).len(),
    ensures
        r is Ok,
        r matches Ok(t) ==> tensor_wf(t) && tdata(t) == Seq::new(
            tdata(*a).len(),
            |i: int| mul_val(tdata(*a)[i], tdata(*b)[i]),
        ),
        r matches Ok(t) ==> tdata(t) == ew_mul(tdata(*a), tdata(*b)),
{
    a.mul(b)
}

/// Relies on candle_core::Tensor::div: elementwise division of two
/// same-shape f64 tensors.
#[verifier::external_body]
pub(crate) fn t_div(a: &candle_core::Tensor, b: &candle_core::Tensor) -> (r: Result<
    candle_core::Tensor,
    candle_core::Error,
>)
    requires
        tensor_wf(*a),
        tensor_wf(*b),
        tdata(*a).len() == tdata(*b).len(),
    ensures
        r is Ok,
        r matches Ok(t) ==> tensor_wf(t) && tdata(t) == Seq::new(
            tdata(*a).len(),
            |i: int| div_val(tdata(*a)[i], tdata(*b)[i]),
        ),
{
    a.div(b)
}

/// Relies on candle_core::Tensor::broadcast_mul: multiplies every element of
/// `v` by the single element of `s`.
#[verifier::external_body]
pub(crate) fn t_scale(v: &candle_core::Tensor, s: &candle_core::Tensor) -> (r: Result<
    candle_core::Tensor,
    candle_core::Error,
>)
    requires
        tensor_wf(*v),
        tensor_wf(*s),
        tdata(*v).len() >= 1,
        tdata(*s).len() == 1,
    ensures
        r is Ok,
        r matches Ok(t) ==> tensor_wf(t) && tdata(t) == Seq::new(
            tdata(*v).len(),
            |i: int| scale_val(tdata(*v)[i], tdata(*s)[0]),
        ),
        r matches Ok(t) ==> tdata(t) == scale_seq(tdata(*v), tdata(*s)[0]),
{
    v.broadcast_mul(s)
}

/// Relies on candle_core::Tensor::sqr: squares every element. An IEEE
/// square is never negative zero.
#[verifier::external_body]
pub(crate) fn t_sqr(a: &candle_core::Tensor) -> (r: Result<
    candle_core::Tensor,
    candle_core::Error,
>)
    requires
        tensor_wf(*a),
    ensures
        r is Ok,
        r matches Ok(t) ==> tensor_wf(t) && tdata(t) == Seq::new(
            tdata(*a).len(),
            |i: int| sqr_val(tdata(*a)[i]),
        ),
        r matches Ok(t) ==> forall|i: int|
            0 <= i < tdata(t).len() ==> #[trigger] tdata(t)[i] != neg_zero_bits(),
{
    a.sqr()
}

/// Relies on candle_core::Tensor::sum_all (and reshape, which keeps the
/// single element): the sum of all elements, as a one-element tensor, added
/// in the backend's fixed order.
#[verifier::external_body]
pub(crate) fn t_sum(a: &candle_core::Tensor) -> (r: Result<
    candle_core::Tensor,
    candle_core::Error,
>)
    requires
        tensor_wf(*a),
    ensures
        r is Ok,
        r matches Ok(t) ==> tensor_wf(t) && tdata(t) == seq![sum_val(tdata(*a))],
{
    a.sum_all()?.reshape(1)
}

/// Relies on candle_core::Tensor::mean_all (and reshape, which keeps the
/// single element): the arithmetic mean of all elements, as a one-element
/// tensor, summed in the backend's fixed order.
/// The mean of a one-element tensor is that element bit-for-bit (the sum is
/// folded from zero and multiplied by one), except for negative zero, which
/// the fold from zero turns positive.
#[verifier::external_body]
pub(crate) fn t_mean(a: &candle_core::Tensor) -> (r: Result<
    candle_core::Tensor,
    candle_core::Error,
>)
    requires
        tensor_wf(*a),
        tdata(*a).len() >= 1,
    ensures
        r is Ok,
        r matches Ok(t) ==> tensor_wf(t) && tdata(t) == seq![mean_val(tdata(*a))],
        r matches Ok(t) ==> (tdata(*a).len() == 1 && tdata(*a)[0] != neg_zero_bits() ==> tdata(t)
            == tdata(*a)),
{
    a.mean_all()?.reshape(1)
}

/// Relies on candle_core::Tensor::cat along the first axis: the result holds
/// the elements of `a` followed by those of `b`.
#[verifier::external_body]
pub(crate) fn t_cat(a: &candle_core::Tensor, b: &candle_core::Tensor) -> (r: Result<
    candle_core::Tensor,
    candle_core::Error,
>)
    requires
        tensor_wf(*a),
        tensor_wf(*b),
    ensures
        r is Ok,
        r matches Ok(t) ==> tensor_wf(t) && tdata(t) == tdata(*a) + tdata(*b),
{
    candle_core::Tensor::cat(&[a, b], 0)
}

/// Relies on candle_core::Tensor::from_vec and to_dtype: a tensor of `n`
/// copies of the f64 that `x` converts to.
#[verifier::external_body]
pub(crate) fn t_full_u32(x: u32, n: usize, dev: &candle_core::Device) -> (r: Result<
    candle_core::Tensor,
    candle_core::Error,
>)
    requires
        n >= 1,
        device_wf(*dev),
    ensures
        r is Ok,
        r matches Ok(t) ==> tensor_wf(t) && tdata(t) == Seq::new(n as nat, |i: int| f64_from_u32(x)),
{
    let data = vec![x; n];
    candle_core::Tensor::from_vec(data, n, dev)?.to_dtype(candle_core::DType::F64)
}

/// Relies on candle_core::Tensor::clone: clones share the same storage, so
/// the contents are the same.
pub assume_specification[ <candle_core::Tensor as Clone>::clone ](t: &candle_core::Tensor) -> (r:
    candle_core::Tensor)
    ensures
        tdata(r) == tdata(*t),
        tensor_wf(*t) ==> tensor_wf(r),
;

/// Relies on candle_core::Device::clone: a handle to the same device, so a
/// processor device stays one.
pub assume_specification[ <candle_core::Device as Clone>::clone ](d: &candle_core::Device) -> (r:
    candle_core::Device)
    ensures
        device_wf(*d) ==> device_wf(r),
;

} // verus!
