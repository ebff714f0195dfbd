use vstd::prelude::*;

use crate::device::{Dev, ElemType};
use crate::shape::{bcast_ok, bcast_shape, mm_compatible, mm_out_dims, swap_last2};
use crate::BackendError;

verus! {

// ---------------------------------------------------------------------------
// The tensor type of the underlying compute library, declared opaquely.
//
// A tensor is modelled by five observations:
//   - `t_dims`:    its shape, as the sequence of dimension sizes;
//   - `t_val`:     its contents, as the row-major sequence of element bit
//                  patterns (each element widened to 64 bits);
//   - `t_strides`: its memory layout, as the stride of each dimension in
//                  elements;
//   - `t_device`:  the class of device holding it;
//   - `t_dtype`:   its element type.
//
// The operation wrappers below pin the contents of a result only for tensors
// on the general-purpose host (`Dev::Cpu`). The elementwise kernels there
// apply one scalar map per element, so their results are functions of the
// operands' contents, shapes and element type alone; the matrix product also
// chooses its accumulation order by the operands' strides, so its contents
// are a function of the layouts as well. On accelerators the kernels differ,
// so only shape, device and element type are stated of their results.
// ---------------------------------------------------------------------------

#[verifier::external_type_specification]
#[verifier::external_body]
pub struct ExTensor(candle_core::Tensor);

// No contract here mentions the library's error type, but declaring `Tensor`
// makes Verus read the operator impls on it (`Add<f64>` and the like), whose
// signatures name `candle_core::Error`; without this declaration the `Tensor`
// one is rejected.
#[verifier::external_type_specification]
#[verifier::external_body]
pub struct ExError(candle_core::Error);

/// The shape of a tensor: what `candle_core::Tensor::dims` returns.
pub uninterp spec fn t_dims(t: candle_core::Tensor) -> Seq<usize>;

/// The contents of a tensor, row-major, one 64-bit pattern per element.
pub uninterp spec fn t_val(t: candle_core::Tensor) -> Seq<u64>;

/// The device class holding a tensor: what `candle_core::Tensor::device` returns.
pub uninterp spec fn t_device(t: candle_core::Tensor) -> Dev;

/// The element type of a tensor: what `candle_core::Tensor::dtype` returns.
pub uninterp spec fn t_dtype(t: candle_core::Tensor) -> ElemType;

/// The memory layout of a tensor: the stride of each dimension in elements,
/// one per dimension — what `candle_core::Tensor::stride` returns.
pub uninterp spec fn t_strides(t: candle_core::Tensor) -> Seq<usize>;

// ---------------------------------------------------------------------------
// The contents computed by the host kernels. The numeric ones are names
// without definitions, since each stands for a kernel of the compute
// library; the two layout-only ones (`tr_val`, `repeat_val`) move elements
// without arithmetic and are defined outright.
// ---------------------------------------------------------------------------

/// Contents of the host matrix product of `(av, ad)` laid out with strides
/// `asd` and `(bv, bd)` laid out with strides `bsd`. The layouts are
/// arguments because the host kernel picks bitwise-different accumulation
/// orders by the operands' strides: equal contents in different layouts may
/// multiply to different low-order bits.
pub uninterp spec fn mm_val(
    av: Seq<u64>,
    ad: Seq<usize>,
    asd: Seq<usize>,
    bv: Seq<u64>,
    bd: Seq<usize>,
    bsd: Seq<usize>,
    et: ElemType,
) -> Seq<u64>;

/// Contents of the host broadcasting addition of `(av, ad)` and `(bv, bd)`.
pub uninterp spec fn badd_val(av: Seq<u64>, ad: Seq<usize>, bv: Seq<u64>, bd: Seq<usize>, et: ElemType) -> Seq<u64>;

/// Contents of the host elementwise gelu of `v`.
pub uninterp spec fn gelu_val(v: Seq<u64>, et: ElemType) -> Seq<u64>;

/// Contents of the host elementwise relu of `v`.
pub uninterp spec fn relu_val(v: Seq<u64>, et: ElemType) -> Seq<u64>;

/// Contents of the host elementwise silu of `v`.
pub uninterp spec fn silu_val(v: Seq<u64>, et: ElemType) -> Seq<u64>;

/// Contents of the host swiglu of `(v, d)`: the first half of the trailing
/// dimension gates the second half.
pub uninterp spec fn swiglu_val(v: Seq<u64>, d: Seq<usize>, et: ElemType) -> Seq<u64>;

/// Contents of `(v, d)` with its two trailing dimensions transposed: the
/// element at row `k`, column `i` of each trailing matrix moves to row `i`,
/// column `k`. Transposition only rearranges, so this is a plain index
/// permutation of the row-major contents.
pub open spec fn tr_val(v: Seq<u64>, d: Seq<usize>) -> Seq<u64> {
    let rows = d[d.len() - 2] as int;
    let cols = d[d.len() - 1] as int;
    Seq::new(
        v.len(),
        |j: int|
            {
                let per_matrix = rows * cols;
                let m = j / per_matrix;
                let o = j % per_matrix;
                let i = o / rows;
                let k = o % rows;
                v[m * per_matrix + k * cols + i]
            },
    )
}

/// `v` repeated `n` times, end to end: the contents of a tensor whose leading
/// dimension replicates it `n` times.
pub open spec fn repeat_val(v: Seq<u64>, n: nat) -> Seq<u64>
    decreases n,
{
    if n == 0 {
        Seq::empty()
    } else {
        repeat_val(v, (n - 1) as nat) + v
    }
}

// ---------------------------------------------------------------------------
// Wrappers around the compute library.
// ---------------------------------------------------------------------------

/// Relies on `candle_core::Tensor::dims`: the dimension sizes of the shape.
#[verifier::external_body]
pub fn dims_of(t: &candle_core::Tensor) -> (r: Vec<usize>)
    ensures
        r@ == t_dims(*t),
{
    t.dims().to_vec()
}

/// Relies on `candle_core::Tensor::device`: the device holding the tensor,
/// reduced to its class.
#[verifier::external_body]
pub fn device_of(t: &candle_core::Tensor) -> (r: Dev)
    ensures
        r == t_device(*t),
{
    match t.device() {
        candle_core::Device::Cpu => Dev::Cpu,
        candle_core::Device::Cuda(_) => Dev::Cuda,
        candle_core::Device::Metal(_) => Dev::Metal,
    }
}

/// Relies on `candle_core::Tensor::matmul`. For same-rank operands of rank 2
/// or 3 with agreeing inner and batch dimensions, on the host, with both
/// operands `F32`, the call completes; the result keeps the left operand's
/// batch and row dimensions and takes the right operand's column dimension,
/// and it stays on the left operand's device with its element type.
#[verifier::external_body]
pub fn matmul(a: &candle_core::Tensor, b: &candle_core::Tensor) -> (r: Result<
    candle_core::Tensor,
    BackendError,
>)
    requires
        mm_compatible(t_dims(*a), t_dims(*b)),
    ensures
        r matches Ok(t) ==> t_dims(t) == mm_out_dims(t_dims(*a), t_dims(*b)) && t_device(t)
            == t_device(*a) && t_dtype(t) == t_dtype(*a),
        r matches Ok(t) ==> t_device(*a) == Dev::Cpu ==> t_val(t) == mm_val(
            t_val(*a),
            t_dims(*a),
            t_strides(*a),
            t_val(*b),
            t_dims(*b),
            t_strides(*b),
            t_dtype(*a),
        ),
        t_device(*a) == Dev::Cpu && t_device(*b) == Dev::Cpu && t_dtype(*a) == ElemType::F32
            && t_dtype(*b) == ElemType::F32 && t_dims(*a).len() <= 3 ==> r is Ok,
{
    a.matmul(b).map_err(|_| BackendError::Device)
}

/// Relies on `candle_core::Tensor::t`: a view that swaps the two trailing
/// dimensions — and the strides beside them — without touching the data;
/// never fails on a tensor of rank at least 2.
#[verifier::external_body]
pub fn transpose(a: &candle_core::Tensor) -> (r: Result<candle_core::Tensor, BackendError>)
    requires
        t_dims(*a).len() >= 2,
    ensures
        r is Ok,
        r matches Ok(t) ==> t_dims(t) == swap_last2(t_dims(*a)) && t_strides(t) == swap_last2(
            t_strides(*a),
        ) && t_val(t) == tr_val(t_val(*a), t_dims(*a)) && t_device(t) == t_device(*a) && t_dtype(t)
            == t_dtype(*a),
{
    a.t().map_err(|_| BackendError::Device)
}

/// Relies on `candle_core::Tensor::broadcast_left` with a single left
/// dimension: prepends a dimension of size `n` that replicates the tensor as
/// a stride-0 view, not a copy, keeping the existing strides; never fails.
#[verifier::external_body]
pub fn broadcast_left(a: &candle_core::Tensor, n: usize) -> (r: Result<
    candle_core::Tensor,
    BackendError,
>)
    ensures
        r is Ok,
        r matches Ok(t) ==> t_dims(t) == seq![n] + t_dims(*a) && t_strides(t) == seq![0usize]
            + t_strides(*a) && t_val(t) == repeat_val(t_val(*a), n as nat) && t_device(t)
            == t_device(*a) && t_dtype(t) == t_dtype(*a),
{
    a.broadcast_left(n).map_err(|_| BackendError::Device)
}

/// Relies on `candle_core::Tensor::contiguous`: a row-major copy (or the
/// tensor itself if already row-major), with contents, shape, device and
/// element type unchanged. Completes on the host for single-precision
/// elements; the host kernels do not cover every element type, so nothing is
/// promised of the others.
#[verifier::external_body]
pub fn contiguous(a: &candle_core::Tensor) -> (r: Result<candle_core::Tensor, BackendError>)
    ensures
        r matches Ok(t) ==> t_dims(t) == t_dims(*a) && t_val(t) == t_val(*a) && t_device(t)
            == t_device(*a) && t_dtype(t) == t_dtype(*a),
        t_device(*a) == Dev::Cpu && t_dtype(*a) == ElemType::F32 ==> r is Ok,
{
    a.contiguous().map_err(|_| BackendError::Device)
}

/// Relies on `candle_core::Tensor::broadcast_add`: broadcasts both operands
/// to their common shape and adds them. Completes on the host when the
/// shapes broadcast together and both operands carry single-precision
/// elements (an addition that cannot overflow and a kernel the host backend
/// covers; neither holds of every element type).
#[verifier::external_body]
pub fn broadcast_add(a: &candle_core::Tensor, b: &candle_core::Tensor) -> (r: Result<
    candle_core::Tensor,
    BackendError,
>)
    requires
        bcast_ok(t_dims(*a), t_dims(*b)),
    ensures
        r matches Ok(t) ==> t_dims(t) == bcast_shape(t_dims(*a), t_dims(*b)) && t_device(t)
            == t_device(*a) && t_dtype(t) == t_dtype(*a),
        r matches Ok(t) ==> t_device(*a) == Dev::Cpu ==> t_val(t) == badd_val(
            t_val(*a),
            t_dims(*a),
            t_val(*b),
            t_dims(*b),
            t_dtype(*a),
        ),
        t_device(*a) == Dev::Cpu && t_device(*b) == Dev::Cpu && t_dtype(*a) == ElemType::F32
            && t_dtype(*b) == ElemType::F32 ==> r is Ok,
{
    a.broadcast_add(b).map_err(|_| BackendError::Device)
}

/// Relies on `candle_core::Tensor::gelu` (tanh approximation): elementwise,
/// shape-preserving; completes on the host for single-precision elements.
#[verifier::external_body]
pub fn gelu(a: &candle_core::Tensor) -> (r: Result<candle_core::Tensor, BackendError>)
    ensures
        r matches Ok(t) ==> t_dims(t) == t_dims(*a) && t_device(t) == t_device(*a) && t_dtype(t)
            == t_dtype(*a),
        r matches Ok(t) ==> t_device(*a) == Dev::Cpu ==> t_val(t) == gelu_val(t_val(*a), t_dtype(*a)),
        t_device(*a) == Dev::Cpu && t_dtype(*a) == ElemType::F32 ==> r is Ok,
{
    a.gelu().map_err(|_| BackendError::Device)
}

/// Relies on `candle_core::Tensor::relu`: elementwise, shape-preserving;
/// completes on the host for single-precision elements.
#[verifier::external_body]
pub fn relu(a: &candle_core::Tensor) -> (r: Result<candle_core::Tensor, BackendError>)
    ensures
        r matches Ok(t) ==> t_dims(t) == t_dims(*a) && t_device(t) == t_device(*a) && t_dtype(t)
            == t_dtype(*a),
        r matches Ok(t) ==> t_device(*a) == Dev::Cpu ==> t_val(t) == relu_val(t_val(*a), t_dtype(*a)),
        t_device(*a) == Dev::Cpu && t_dtype(*a) == ElemType::F32 ==> r is Ok,
{
    a.relu().map_err(|_| BackendError::Device)
}

/// Relies on `candle_core::Tensor::silu`: elementwise, shape-preserving;
/// completes on the host for single-precision elements.
#[verifier::external_body]
pub fn silu(a: &candle_core::Tensor) -> (r: Result<candle_core::Tensor, BackendError>)
    ensures
        r matches Ok(t) ==> t_dims(t) == t_dims(*a) && t_device(t) == t_device(*a) && t_dtype(t)
            == t_dtype(*a),
        r matches Ok(t) ==> t_device(*a) == Dev::Cpu ==> t_val(t) == silu_val(t_val(*a), t_dtype(*a)),
        t_device(*a) == Dev::Cpu && t_dtype(*a) == ElemType::F32 ==> r is Ok,
{
    a.silu().map_err(|_| BackendError::Device)
}

/// Relies on `candle_nn::ops::swiglu`: splits the trailing dimension in two
/// halves and multiplies the silu of the first half by the second. It splits
/// unevenly when the trailing dimension is odd, and the elementwise product
/// then rejects the unequal shapes, so a completed call implies an even
/// trailing dimension, halved in the result. It indexes out of bounds on a
/// trailing dimension below 2, which the precondition excludes. Completes on
/// the host for single-precision elements when the trailing dimension is
/// even.
#[verifier::external_body]
pub fn swiglu(a: &candle_core::Tensor) -> (r: Result<candle_core::Tensor, BackendError>)
    requires
        t_dims(*a).len() >= 1,
        t_dims(*a).last() >= 2,
    ensures
        r matches Ok(t) ==> t_dims(*a).last() % 2 == 0 && t_dims(t) == t_dims(*a).update(
            t_dims(*a).len() - 1,
            (t_dims(*a).last() / 2) as usize,
        ) && t_device(t) == t_device(*a) && t_dtype(t) == t_dtype(*a),
        r matches Ok(t) ==> t_device(*a) == Dev::Cpu ==> t_val(t) == swiglu_val(
            t_val(*a),
            t_dims(*a),
            t_dtype(*a),
        ),
        t_device(*a) == Dev::Cpu && t_dtype(*a) == ElemType::F32 && t_dims(*a).last() % 2 == 0
            ==> r is Ok,
{
    candle_nn::ops::swiglu(a).map_err(|_| BackendError::Device)
}

} // verus!
