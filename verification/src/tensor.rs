//! The trusted interface to the tensor backend (candle).
//!
//! Tensors, devices and gradient stores are opaque to the verifier; the
//! library reasons about them through [`dims_of`], the dimension list a
//! tensor reports, which is fixed at tensor creation and never mutated by
//! the backend, and through success predicates such as
//! [`matmul_succeeds`], which depend only on equally immutable aspects of
//! a tensor (shape, layout, element type, device).  Nothing is claimed
//! about the numeric contents of any tensor: trainable tensors are
//! mutated in place by optimizer steps behind shared handles, so a value
//! that the verifier sees as unchanged can hold different numbers before
//! and after a step, and naming a value-dependent result (the product's
//! numbers, a gradient) would state an equality that such a step
//! falsifies.  Numeric behaviour is exercised by the test suite instead.
use vstd::prelude::*;

use crate::error::ModelError;
use crate::shape::ActivationFn;
use crate::shape::Dtype;

verus! {

/// The candle tensor: an opaque, device-resident n-dimensional array.
#[verifier::external_type_specification]
#[verifier::external_body]
pub struct ExTensor(candle_core::Tensor);

/// The candle error type, carried opaquely: the library maps backend
/// errors to its own [`ModelError`] kinds at each trusted call.
#[verifier::external_type_specification]
#[verifier::external_body]
pub struct ExCandleError(candle_core::Error);

/// The candle device tag (CPU or an accelerator).
#[verifier::external_type_specification]
#[verifier::external_body]
pub struct ExDevice(candle_core::Device);

/// The dimension list of a tensor, as `Tensor::dims` reports it.  A
/// tensor's shape is fixed when it is created and is never changed by any
/// backend operation, so this is a function of the tensor alone.
pub uninterp spec fn dims_of(t: candle_core::Tensor) -> Seq<usize>;

/// Whether a device is the CPU, as `Device::is_cpu` reports it.  On the
/// CPU, creation of fresh float tensors cannot fail.
pub uninterp spec fn device_is_cpu(d: candle_core::Device) -> bool;

/// Whether the matrix product of two given matrices succeeds.  For fixed
/// operands, success is decided by their shapes, layouts, element types
/// and device alone, none of which changes after a tensor is created, so
/// it is a function of the operands.
pub uninterp spec fn matmul_succeeds(a: candle_core::Tensor, b: candle_core::Tensor) -> bool;

/// Whether applying an activation function to a tensor succeeds.
/// Success is decided by the tensor's shape, layout, element type and
/// device, all fixed at creation, so it is a function of the arguments.
pub uninterp spec fn activation_succeeds(f: ActivationFn, x: candle_core::Tensor) -> bool;

/// Right-aligned broadcast of two dimension lists, as the backend's
/// pointwise broadcast operations perform it: missing leading dimensions
/// count as one, and in every position the sizes must agree or one of them
/// must be one.
pub open spec fn broadcast_len(a: Seq<usize>, b: Seq<usize>) -> int {
    if a.len() >= b.len() {
        a.len() as int
    } else {
        b.len() as int
    }
}

/// The size contributed by `d` at reverse position `k` (counted from the
/// end), or one where `d` is too short.
pub open spec fn bc_at(d: Seq<usize>, n: int, k: int) -> usize {
    if k < n - d.len() {
        1usize
    } else {
        d[k - (n - d.len())]
    }
}

/// Whether two dimension lists agree, or one is one, at reverse position
/// `k`.
pub open spec fn bc_pos_ok(a: Seq<usize>, b: Seq<usize>, k: int) -> bool {
    bc_at(a, broadcast_len(a, b), k) == bc_at(b, broadcast_len(a, b), k) || bc_at(
        a,
        broadcast_len(a, b),
        k,
    ) == 1 || bc_at(b, broadcast_len(a, b), k) == 1
}

/// Whether two dimension lists are broadcast-compatible.
pub open spec fn broadcast_ok(a: Seq<usize>, b: Seq<usize>) -> bool {
    forall|k: int| 0 <= k < broadcast_len(a, b) ==> #[trigger] bc_pos_ok(a, b, k)
}

/// The broadcast result shape of two compatible dimension lists.
pub open spec fn broadcast_dims(a: Seq<usize>, b: Seq<usize>) -> Seq<usize> {
    Seq::new(
        broadcast_len(a, b) as nat,
        |k: int|
            {
                let n = broadcast_len(a, b);
                if bc_at(a, n, k) == 1 {
                    bc_at(b, n, k)
                } else {
                    bc_at(a, n, k)
                }
            },
    )
}

/// Relies on `Tensor::dims`: returns the tensor's dimension list.
#[verifier::external_body]
pub fn tensor_dims(t: &candle_core::Tensor) -> (r: Vec<usize>)
    ensures
        r@ == dims_of(*t),
{
    t.dims().to_vec()
}

/// Relies on `Tensor::clone`: returns another handle to the same tensor.
#[verifier::external_body]
pub fn clone_tensor(t: &candle_core::Tensor) -> (r: candle_core::Tensor)
    ensures
        r == *t,
{
    t.clone()
}

/// Relies on `Device::clone`: returns the same device tag.
#[verifier::external_body]
pub fn clone_device(d: &candle_core::Device) -> (r: candle_core::Device)
    ensures
        r == *d,
{
    d.clone()
}

/// Relies on `Tensor::matmul` for two matrices: on success the result has
/// the left operand's rows and the right operand's columns.  Whether the
/// backend accepts a given pair (it refuses some layouts) is the fixed
/// property of the operands named by `matmul_succeeds`.
#[verifier::external_body]
pub fn matmul(a: &candle_core::Tensor, b: &candle_core::Tensor) -> (r: Result<
    candle_core::Tensor,
    ModelError,
>)
    requires
        dims_of(*a).len() == 2,
        dims_of(*b).len() == 2,
        dims_of(*a)[1] == dims_of(*b)[0],
    ensures
        r matches Ok(t) ==> dims_of(t) == seq![dims_of(*a)[0], dims_of(*b)[1]],
        r matches Err(e) ==> e == ModelError::ForwardFailure,
        r is Ok <==> matmul_succeeds(*a, *b),
{
    a.matmul(b).map_err(|_| ModelError::ForwardFailure)
}

/// Relies on `Tensor::broadcast_add`: pointwise addition after broadcast.
/// Incompatible shapes are refused; on success the result has the
/// broadcast shape.
#[verifier::external_body]
pub fn broadcast_add(a: &candle_core::Tensor, b: &candle_core::Tensor) -> (r: Result<
    candle_core::Tensor,
    ModelError,
>)
    ensures
        r matches Ok(t) ==> broadcast_ok(dims_of(*a), dims_of(*b)) && dims_of(t) == broadcast_dims(
            dims_of(*a),
            dims_of(*b),
        ),
        r is Err || broadcast_ok(dims_of(*a), dims_of(*b)),
        r matches Err(e) ==> e == ModelError::ForwardFailure,
{
    a.broadcast_add(b).map_err(|_| ModelError::ForwardFailure)
}

/// Relies on `Tensor::broadcast_sub`: pointwise subtraction after
/// broadcast, with the same shape discipline as `broadcast_add`.
#[verifier::external_body]
pub fn broadcast_sub(a: &candle_core::Tensor, b: &candle_core::Tensor) -> (r: Result<
    candle_core::Tensor,
    ModelError,
>)
    ensures
        r matches Ok(t) ==> broadcast_ok(dims_of(*a), dims_of(*b)) && dims_of(t) == broadcast_dims(
            dims_of(*a),
            dims_of(*b),
        ),
        r is Err || broadcast_ok(dims_of(*a), dims_of(*b)),
        r matches Err(e) ==> e == ModelError::ForwardFailure,
{
    a.broadcast_sub(b).map_err(|_| ModelError::ForwardFailure)
}

/// Relies on `Tensor::add`: pointwise addition of two tensors of one
/// shape; differing shapes are refused.
#[verifier::external_body]
pub fn tensor_add(a: &candle_core::Tensor, b: &candle_core::Tensor) -> (r: Result<
    candle_core::Tensor,
    ModelError,
>)
    ensures
        r matches Ok(t) ==> dims_of(t) == dims_of(*a) && dims_of(*a) == dims_of(*b),
        r is Err || dims_of(*a) == dims_of(*b),
        r matches Err(e) ==> e == ModelError::ForwardFailure,
{
    a.add(b).map_err(|_| ModelError::ForwardFailure)
}

/// Relies on `Tensor::mul`: pointwise multiplication of two tensors of one
/// shape; differing shapes are refused.
#[verifier::external_body]
pub fn tensor_mul(a: &candle_core::Tensor, b: &candle_core::Tensor) -> (r: Result<
    candle_core::Tensor,
    ModelError,
>)
    ensures
        r matches Ok(t) ==> dims_of(t) == dims_of(*a) && dims_of(*a) == dims_of(*b),
        r is Err || dims_of(*a) == dims_of(*b),
        r matches Err(e) ==> e == ModelError::ForwardFailure,
{
    a.mul(b).map_err(|_| ModelError::ForwardFailure)
}

/// Relies on `Tensor::div`: pointwise division of two tensors of one
/// shape; differing shapes are refused.
#[verifier::external_body]
pub fn tensor_div(a: &candle_core::Tensor, b: &candle_core::Tensor) -> (r: Result<
    candle_core::Tensor,
    ModelError,
>)
    ensures
        r matches Ok(t) ==> dims_of(t) == dims_of(*a) && dims_of(*a) == dims_of(*b),
        r is Err || dims_of(*a) == dims_of(*b),
        r matches Err(e) ==> e == ModelError::ForwardFailure,
{
    a.div(b).map_err(|_| ModelError::ForwardFailure)
}

/// Relies on `Tensor::abs`: elementwise absolute value, shape preserved.
#[verifier::external_body]
pub fn tensor_abs(a: &candle_core::Tensor) -> (r: Result<candle_core::Tensor, ModelError>)
    ensures
        r matches Ok(t) ==> dims_of(t) == dims_of(*a),
        r matches Err(e) ==> e == ModelError::ForwardFailure,
{
    a.abs().map_err(|_| ModelError::ForwardFailure)
}

/// Relies on `Tensor::sqr`: elementwise square, shape preserved.
#[verifier::external_body]
pub fn tensor_sqr(a: &candle_core::Tensor) -> (r: Result<candle_core::Tensor, ModelError>)
    ensures
        r matches Ok(t) ==> dims_of(t) == dims_of(*a),
        r matches Err(e) ==> e == ModelError::ForwardFailure,
{
    a.sqr().map_err(|_| ModelError::ForwardFailure)
}

/// Relies on `Tensor::sum_all`: reduction of every dimension, producing a
/// scalar (rank-zero) tensor.
#[verifier::external_body]
pub fn tensor_sum_all(a: &candle_core::Tensor) -> (r: Result<candle_core::Tensor, ModelError>)
    ensures
        r matches Ok(t) ==> dims_of(t) == Seq::<usize>::empty(),
        r matches Err(e) ==> e == ModelError::ForwardFailure,
{
    a.sum_all().map_err(|_| ModelError::ForwardFailure)
}

/// Relies on `candle_nn::Activation::forward`: the selected activation
/// functions are elementwise and preserve the input shape.
#[verifier::external_body]
pub fn apply_activation(f: &ActivationFn, x: &candle_core::Tensor) -> (r: Result<
    candle_core::Tensor,
    ModelError,
>)
    ensures
        r matches Ok(t) ==> dims_of(t) == dims_of(*x),
        r matches Err(e) ==> e == ModelError::ForwardFailure,
        r is Ok <==> activation_succeeds(*f, *x),
{
    let act = match f {
        ActivationFn::Relu => candle_nn::Activation::Relu,
        ActivationFn::Gelu => candle_nn::Activation::Gelu,
        ActivationFn::Sigmoid => candle_nn::Activation::Sigmoid,
    };
    candle_core::Module::forward(&act, x).map_err(|_| ModelError::ForwardFailure)
}

/// Relies on `Tensor::new` and `Tensor::to_dtype`: a scalar tensor holding
/// the given integer, converted to the given element type, on the given
/// device.  On the CPU this cannot fail.
#[verifier::external_body]
pub fn scalar_from_u32(v: u32, dtype: &Dtype, dev: &candle_core::Device) -> (r: Result<
    candle_core::Tensor,
    ModelError,
>)
    ensures
        r matches Ok(t) ==> dims_of(t) == Seq::<usize>::empty(),
        r matches Err(e) ==> e == ModelError::ForwardFailure,
        r is Ok || !(device_is_cpu(*dev) && (*dtype == Dtype::F32 || *dtype == Dtype::F64)),
{
    let dt = match dtype {
        Dtype::U8 => candle_core::DType::U8,
        Dtype::U32 => candle_core::DType::U32,
        Dtype::I64 => candle_core::DType::I64,
        Dtype::F32 => candle_core::DType::F32,
        Dtype::F64 => candle_core::DType::F64,
    };
    let t = candle_core::Tensor::new(v, dev).map_err(|_| ModelError::ForwardFailure)?;
    t.to_dtype(dt).map_err(|_| ModelError::ForwardFailure)
}

/// Relies on `Tensor::new` and `Tensor::to_dtype`: a scalar tensor holding
/// the given integer, with the device and element type of the reference
/// tensor.
#[verifier::external_body]
pub fn scalar_like_u32(v: u32, like: &candle_core::Tensor) -> (r: Result<
    candle_core::Tensor,
    ModelError,
>)
    ensures
        r matches Ok(t) ==> dims_of(t) == Seq::<usize>::empty(),
        r matches Err(e) ==> e == ModelError::ForwardFailure,
{
    let t = candle_core::Tensor::new(v, like.device()).map_err(|_| ModelError::ForwardFailure)?;
    t.to_dtype(like.dtype()).map_err(|_| ModelError::ForwardFailure)
}

} // verus!
