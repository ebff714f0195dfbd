use vstd::prelude::*;

verus! {

/// The class of compute device a tensor lives on.
///
/// `Cpu` is the general-purpose host. `Cuda` is the accelerator class that may
/// offer a fused matmul+bias+activation engine. `Metal` is the accelerator
/// class that requires contiguous memory for 2-D matrix multiplication.
#[derive(Clone, Copy, Debug, PartialEq, Eq, Structural)]
pub enum Dev {
    Cpu,
    Cuda,
    Metal,
}

/// The element type a tensor carries, mirroring the element types the tensor
/// library distinguishes. Contracts in this crate promise completed compute
/// calls only for `F32`; the other variants exist so that contracts can state
/// that operations preserve the element type, whatever it is.
#[derive(Clone, Copy, Debug, PartialEq, Eq, Structural)]
pub enum ElemType {
    U8,
    U32,
    I16,
    I32,
    I64,
    BF16,
    F16,
    F32,
    F64,
    F8E4M3,
    F6E2M3,
    F6E3M2,
    F4,
    F8E8M0,
}

} // verus!
