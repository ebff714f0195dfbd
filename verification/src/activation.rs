use vstd::prelude::*;

use crate::device::{Dev, ElemType};
use crate::tensor::{
    gelu, gelu_val, relu, relu_val, silu, silu_val, swiglu, swiglu_val, t_device, t_dims, t_dtype,
    t_val,
};
use crate::BackendError;

verus! {

/// The enumerated nonlinearities a projection layer can end with. Stateless;
/// compared by value. All preserve the shape except `Swiglu`, which halves
/// the trailing dimension by gating one half against the silu of the other.
#[derive(Clone, Copy, Debug, PartialEq, Eq, Structural)]
pub enum HiddenAct {
    Gelu,
    Relu,
    Silu,
    Swiglu,
}

/// The shape an activation turns `d` into: unchanged, except that `Swiglu`
/// halves the trailing dimension.
pub open spec fn act_out_dims(a: HiddenAct, d: Seq<usize>) -> Seq<usize> {
    match a {
        HiddenAct::Swiglu => d.update(d.len() - 1, (d.last() / 2) as usize),
        _ => d,
    }
}

/// The shapes an activation accepts: any for the shape-preserving ones;
/// `Swiglu` needs a trailing dimension that is even and at least 2.
pub open spec fn act_ok(a: HiddenAct, d: Seq<usize>) -> bool {
    match a {
        HiddenAct::Swiglu => d.len() >= 1 && d.last() >= 2 && d.last() % 2 == 0,
        _ => true,
    }
}

/// The contents an activation computes on the host from contents `v` of
/// shape `d`.
pub open spec fn act_val(a: HiddenAct, v: Seq<u64>, d: Seq<usize>, et: ElemType) -> Seq<u64> {
    match a {
        HiddenAct::Gelu => gelu_val(v, et),
        HiddenAct::Relu => relu_val(v, et),
        HiddenAct::Silu => silu_val(v, et),
        HiddenAct::Swiglu => swiglu_val(v, d, et),
    }
}

impl HiddenAct {
    /// Whether this activation accepts the shape `d`; decides `act_ok`.
    pub fn accepts(&self, d: &Vec<usize>) -> (r: bool)
        ensures
            r == act_ok(*self, d@),
    {
        match self {
            HiddenAct::Swiglu => d.len() >= 1 && d[d.len() - 1] >= 2 && d[d.len() - 1] % 2 == 0,
            _ => true,
        }
    }

    /// Applies the activation. Pure and device/dtype-preserving; `Swiglu`
    /// halves the trailing dimension. On the host the contents are the named
    /// kernel of the input contents, and for single-precision input the call
    /// completes (the host kernels do not cover every element type).
    pub fn forward(&self, x: &candle_core::Tensor) -> (r: Result<candle_core::Tensor, BackendError>)
        requires
            act_ok(*self, t_dims(*x)),
        ensures
            r matches Ok(t) ==> t_dims(t) == act_out_dims(*self, t_dims(*x)) && t_device(t)
                == t_device(*x) && t_dtype(t) == t_dtype(*x),
            r matches Ok(t) ==> t_device(*x) == Dev::Cpu ==> t_val(t) == act_val(
                *self,
                t_val(*x),
                t_dims(*x),
                t_dtype(*x),
            ),
            t_device(*x) == Dev::Cpu && t_dtype(*x) == ElemType::F32 ==> r is Ok,
    {
        match self {
            HiddenAct::Gelu => gelu(x),
            HiddenAct::Relu => relu(x),
            HiddenAct::Silu => silu(x),
            HiddenAct::Swiglu => swiglu(x),
        }
    }
}

} // verus!
