use vstd::prelude::*;

use crate::activation::{act_ok, act_out_dims, act_val, HiddenAct};
use crate::device::{Dev, ElemType};
use crate::probe::{select_path, CapabilityProbe, Path};
use crate::shape::{
    bcast_dim_ok, bcast_ok, bcast_shape, max_len, mm_compatible, pad_left, swap_last2,
};
use crate::tensor::{
    badd_val, broadcast_add, broadcast_left, contiguous, device_of, dims_of, matmul, mm_val,
    repeat_val, t_device, t_dims, t_dtype, t_strides, t_val, transpose, tr_val,
};
use crate::BackendError;

verus! {

/// A projection layer: a weight matrix `[out_features, in_features]`, an
/// optional bias `[out_features]`, and an optional trailing nonlinearity.
/// Immutable after construction; a forward call never mutates it, so any
/// number of forward calls may run concurrently over one layer.
pub struct Linear {
    pub weight: candle_core::Tensor,
    pub bias: Option<candle_core::Tensor>,
    pub act: Option<HiddenAct>,
}

impl Linear {
    /// Builds the layer from its parts, exactly as given.
    pub fn new(weight: candle_core::Tensor, bias: Option<candle_core::Tensor>, act: Option<
        HiddenAct,
    >) -> (r: Linear)
        ensures
            r.weight == weight,
            r.bias == bias,
            r.act == act,
    {
        Linear { weight, bias, act }
    }

    /// The weight's shape.
    pub open spec fn w_dims(self) -> Seq<usize> {
        t_dims(self.weight)
    }

    /// Rows of the weight: the width the projection maps onto.
    pub open spec fn out_features(self) -> usize {
        self.w_dims()[0]
    }

    /// Columns of the weight: the width the input must end with.
    pub open spec fn in_features(self) -> usize {
        self.w_dims()[1]
    }

    /// The input's trailing dimension matches the weight's inner dimension.
    pub open spec fn inner_ok(self, xd: Seq<usize>) -> bool {
        xd.last() == self.in_features()
    }

    /// Shape after the matrix product: the input shape with its trailing
    /// dimension replaced by `out_features`.
    pub open spec fn mm_dims(self, xd: Seq<usize>) -> Seq<usize> {
        xd.update(xd.len() - 1, self.out_features())
    }

    /// The bias, when present, broadcasts over the matrix product's shape.
    pub open spec fn bias_ok(self, xd: Seq<usize>) -> bool {
        match self.bias {
            Some(b) => bcast_ok(self.mm_dims(xd), t_dims(b)),
            None => true,
        }
    }

    /// Shape after the bias addition.
    pub open spec fn biased_dims(self, xd: Seq<usize>) -> Seq<usize> {
        match self.bias {
            Some(b) => bcast_shape(self.mm_dims(xd), t_dims(b)),
            None => self.mm_dims(xd),
        }
    }

    /// The activation, when present, accepts the shape it is applied to.
    pub open spec fn act_shape_ok(self, xd: Seq<usize>) -> bool {
        match self.act {
            Some(a) => act_ok(a, self.biased_dims(xd)),
            None => true,
        }
    }

    /// All dimensions agree: the forward call owes a result rather than a
    /// `ShapeMismatch`.
    pub open spec fn shapes_ok(self, xd: Seq<usize>) -> bool {
        self.inner_ok(xd) && self.bias_ok(xd) && self.act_shape_ok(xd)
    }

    /// The output shape of a forward call on input shape `xd`.
    pub open spec fn out_dims(self, xd: Seq<usize>) -> Seq<usize> {
        match self.act {
            Some(a) => act_out_dims(a, self.biased_dims(xd)),
            None => self.biased_dims(xd),
        }
    }

    /// Shape of the operand the generic path multiplies the input by: the
    /// transposed weight, replicated over the batch dimension for rank-3
    /// input.
    pub open spec fn gen_w_dims(self, xd: Seq<usize>) -> Seq<usize> {
        if xd.len() == 3 {
            seq![xd[0], self.in_features(), self.out_features()]
        } else {
            seq![self.in_features(), self.out_features()]
        }
    }

    /// Contents of that operand.
    pub open spec fn gen_w_val(self, xd: Seq<usize>) -> Seq<u64> {
        if xd.len() == 3 {
            tr_val(repeat_val(t_val(self.weight), xd[0] as nat), seq![xd[0]] + self.w_dims())
        } else {
            tr_val(t_val(self.weight), self.w_dims())
        }
    }

    /// Strides of that operand: the weight's strides, prefixed with the
    /// stride-0 batch replication for rank-3 input, with the trailing pair
    /// exchanged by the transposition.
    pub open spec fn gen_w_strides(self, xd: Seq<usize>) -> Seq<usize> {
        if xd.len() == 3 {
            swap_last2(seq![0usize] + t_strides(self.weight))
        } else {
            swap_last2(t_strides(self.weight))
        }
    }

    /// Contents after the matrix product, on the host.
    pub open spec fn mm_out_val(self, x: candle_core::Tensor) -> Seq<u64> {
        mm_val(
            t_val(x),
            t_dims(x),
            t_strides(x),
            self.gen_w_val(t_dims(x)),
            self.gen_w_dims(t_dims(x)),
            self.gen_w_strides(t_dims(x)),
            t_dtype(x),
        )
    }

    /// Contents after the bias addition, on the host.
    pub open spec fn biased_val(self, x: candle_core::Tensor) -> Seq<u64> {
        match self.bias {
            Some(b) => badd_val(
                self.mm_out_val(x),
                self.mm_dims(t_dims(x)),
                t_val(b),
                t_dims(b),
                t_dtype(x),
            ),
            None => self.mm_out_val(x),
        }
    }

    /// Contents of the forward output, on the host: the matrix product with
    /// the transposed weight, then the bias, then the activation — each taken
    /// only when present.
    pub open spec fn out_val(self, x: candle_core::Tensor) -> Seq<u64> {
        match self.act {
            Some(a) => act_val(a, self.biased_val(x), self.biased_dims(t_dims(x)), t_dtype(x)),
            None => self.biased_val(x),
        }
    }

    /// Input, weight and bias all live on the general-purpose host.
    pub open spec fn all_on_host(self, x: candle_core::Tensor) -> bool {
        &&& t_device(x) == Dev::Cpu
        &&& t_device(self.weight) == Dev::Cpu
        &&& match self.bias {
            Some(b) => t_device(b) == Dev::Cpu,
            None => true,
        }
    }

    /// Input, weight and bias all carry single-precision elements.
    pub open spec fn all_f32(self, x: candle_core::Tensor) -> bool {
        &&& t_dtype(x) == ElemType::F32
        &&& t_dtype(self.weight) == ElemType::F32
        &&& match self.bias {
            Some(b) => t_dtype(b) == ElemType::F32,
            None => true,
        }
    }

    /// A well-formed layer, as construction intends it: a 2-D weight, and
    /// the bias, when present, a vector of exactly `out_features`.
    pub open spec fn wf(self) -> bool {
        &&& self.w_dims().len() == 2
        &&& match self.bias {
            Some(b) => t_dims(b) == seq![self.out_features()],
            None => true,
        }
    }

    /// Projects one batch. The capability probe is consulted first; with no
    /// fused engine in this build every call runs the generic path: transpose
    /// the weight (replicated across the batch dimension for rank-3 input),
    /// force a contiguous input copy on the contiguity-constrained device
    /// class, multiply, broadcast-add the bias if present, apply the
    /// activation if present. Dimension disagreements fail with
    /// `ShapeMismatch` before any compute call; a failing compute call fails
    /// with `Device`.
    #[verifier::loop_isolation(false)]
    pub fn forward(&self, x: &candle_core::Tensor) -> (r: Result<
        candle_core::Tensor,
        BackendError,
    >)
        requires
            t_dims(self.weight).len() == 2,
            t_dims(*x).len() == 2 || t_dims(*x).len() == 3,
        ensures
            r == Err::<candle_core::Tensor, BackendError>(BackendError::ShapeMismatch) <==> !self.shapes_ok(t_dims(*x)),
            r matches Ok(t) ==> t_dims(t) == self.out_dims(t_dims(*x)) && t_device(t) == t_device(
                *x,
            ) && t_dtype(t) == t_dtype(*x),
            r matches Ok(t) ==> t_device(*x) == Dev::Cpu ==> t_val(t) == self.out_val(*x),
            self.shapes_ok(t_dims(*x)) && self.all_on_host(*x) && self.all_f32(*x) ==> r is Ok,
            r is Err ==> r == Err::<candle_core::Tensor, BackendError>(BackendError::ShapeMismatch)
                || r == Err::<candle_core::Tensor, BackendError>(BackendError::Device),
    {
        let probe = CapabilityProbe::resolve();
        let dev = device_of(x);
        let xd = dims_of(x);
        let wd = dims_of(&self.weight);
        let rank3: bool = xd.len() == 3;
        let force_contig: bool = match select_path(&probe, dev, rank3) {
            Path::Generic { force_contiguous } => force_contiguous,
            Path::Fused { .. } => {
                // resolve() reports no engine in this build, so the fused
                // strategy cannot have been selected
                proof {
                    assert(false);
                }
                vstd::pervasive::unreached()
            },
        };
        // the input's trailing dimension must match the weight's inner one
        if xd[xd.len() - 1] != wd[1] {
            return Err(BackendError::ShapeMismatch);
        }
        // shape after the matrix product: input shape, trailing dimension
        // replaced by the weight's leading one
        let mut mm_d: Vec<usize> = Vec::new();
        let mut i: usize = 0;
        while i < xd.len() - 1
            invariant
                i <= xd@.len() - 1,
                mm_d@ == xd@.take(i as int),
            decreases xd@.len() - 1 - i,
        {
            mm_d.push(xd[i]);
            i = i + 1;
        }
        mm_d.push(wd[0]);
        proof {
            assert(mm_d@ =~= self.mm_dims(xd@));
        }
        // the bias, when present, must broadcast over that shape
        let biased_d: Vec<usize> = match &self.bias {
            None => mm_d,
            Some(b) => {
                let bd = dims_of(b);
                match crate::shape::broadcast_shape_of(&mm_d, &bd) {
                    None => {
                        return Err(BackendError::ShapeMismatch);
                    },
                    Some(v) => v,
                }
            },
        };
        proof {
            assert(biased_d@ == self.biased_dims(xd@));
        }
        // the activation, when present, must accept the resulting shape
        if let Some(a) = &self.act {
            if !a.accepts(&biased_d) {
                return Err(BackendError::ShapeMismatch);
            }
        }
        assert(self.shapes_ok(t_dims(*x)));
        // transposed weight, batch-replicated for rank-3 input
        let wt: candle_core::Tensor = if rank3 {
            let wb = match broadcast_left(&self.weight, xd[0]) {
                Ok(t) => t,
                Err(_) => {
                    return Err(BackendError::Device);
                },
            };
            match transpose(&wb) {
                Ok(t) => t,
                Err(_) => {
                    return Err(BackendError::Device);
                },
            }
        } else {
            match transpose(&self.weight) {
                Ok(t) => t,
                Err(_) => {
                    return Err(BackendError::Device);
                },
            }
        };
        proof {
            assert(t_dims(wt) =~= self.gen_w_dims(xd@));
            assert(t_strides(wt) == self.gen_w_strides(xd@));
            assert(mm_compatible(t_dims(*x), t_dims(wt))) by {
                assert(t_dims(*x).take(t_dims(*x).len() - 2) =~= t_dims(wt).take(
                    t_dims(wt).len() - 2,
                ));
            }
        }
        // multiply, after a contiguous copy where the device class needs one
        let prod = if force_contig {
            let xc = match contiguous(x) {
                Ok(t) => t,
                Err(_) => {
                    return Err(BackendError::Device);
                },
            };
            match matmul(&xc, &wt) {
                Ok(t) => t,
                Err(_) => {
                    return Err(BackendError::Device);
                },
            }
        } else {
            match matmul(x, &wt) {
                Ok(t) => t,
                Err(_) => {
                    return Err(BackendError::Device);
                },
            }
        };
        proof {
            assert(t_dims(prod) =~= self.mm_dims(xd@));
        }
        // broadcast the bias over the product
        let biased = match &self.bias {
            None => prod,
            Some(b) => match broadcast_add(&prod, b) {
                Ok(t) => t,
                Err(_) => {
                    return Err(BackendError::Device);
                },
            },
        };
        // trailing nonlinearity
        let out = match &self.act {
            None => biased,
            Some(a) => match a.forward(&biased) {
                Ok(t) => t,
                Err(_) => {
                    return Err(BackendError::Device);
                },
            },
        };
        Ok(out)
    }
}

/// Forward is deterministic: two layers with identical weight and bias (as
/// contents, shapes, layouts and element types) and the same activation,
/// applied to identical inputs, have the identical specified host output —
/// contents and shape. Together with `forward`'s postcondition this pins
/// repeated calls to bit-identical results on the host; one tensor has one
/// layout, so repeating a call trivially meets these premises.
pub proof fn lemma_forward_deterministic(
    a: Linear,
    b: Linear,
    x: candle_core::Tensor,
    y: candle_core::Tensor,
)
    requires
        t_val(a.weight) == t_val(b.weight),
        t_dims(a.weight) == t_dims(b.weight),
        t_strides(a.weight) == t_strides(b.weight),
        match (a.bias, b.bias) {
            (Some(ab), Some(bb)) => t_val(ab) == t_val(bb) && t_dims(ab) == t_dims(bb),
            (None, None) => true,
            _ => false,
        },
        a.act == b.act,
        t_val(x) == t_val(y),
        t_dims(x) == t_dims(y),
        t_strides(x) == t_strides(y),
        t_dtype(x) == t_dtype(y),
    ensures
        a.out_val(x) == b.out_val(y),
        a.out_dims(t_dims(x)) == b.out_dims(t_dims(y)),
{
}

/// Swiglu halves the trailing dimension: the output shape is the pre-activation
/// shape with its trailing dimension halved and nothing else changed; with no
/// bias, input shape `[.., k]` comes out `[.., out_features / 2]`.
pub proof fn lemma_swiglu_halves_trailing(l: Linear, xd: Seq<usize>)
    requires
        l.act == Some(HiddenAct::Swiglu),
        l.w_dims().len() == 2,
        xd.len() == 2 || xd.len() == 3,
        l.shapes_ok(xd),
    ensures
        l.out_dims(xd) == l.biased_dims(xd).update(
            l.biased_dims(xd).len() - 1,
            (l.biased_dims(xd).last() / 2) as usize,
        ),
        l.out_dims(xd).len() == l.biased_dims(xd).len(),
        l.bias is None ==> l.out_dims(xd) == xd.update(
            xd.len() - 1,
            (l.out_features() / 2) as usize,
        ),
{
    if l.bias is None {
        assert(l.out_dims(xd) =~= xd.update(xd.len() - 1, (l.out_features() / 2) as usize));
    }
}

/// For a well-formed layer whose input ends in `in_features`, the bias never
/// reshapes anything: the shape after the bias addition is exactly the matrix
/// product's shape, so the output keeps the input's rank and its trailing
/// dimension is `out_features` — halved when the activation is swiglu.
pub proof fn lemma_wf_output_shape(l: Linear, xd: Seq<usize>)
    requires
        l.wf(),
        xd.len() == 2 || xd.len() == 3,
        l.inner_ok(xd),
    ensures
        l.bias_ok(xd),
        l.biased_dims(xd) == l.mm_dims(xd),
        l.out_dims(xd).len() == xd.len(),
        l.act == Some(HiddenAct::Swiglu) ==> l.out_dims(xd).last() == l.out_features() / 2,
        (match l.act {
            Some(HiddenAct::Swiglu) => false,
            _ => true,
        }) ==> l.out_dims(xd).last() == l.out_features(),
{
    let md = l.mm_dims(xd);
    assert(md.last() == l.out_features());
    match l.bias {
        Some(b) => {
            let bd = t_dims(b);
            let n = max_len(md, bd);
            assert(n == md.len());
            assert forall|i: int| 0 <= i < n implies bcast_dim_ok(
                #[trigger] pad_left(md, n)[i],
                pad_left(bd, n)[i],
            ) by {
                if i < n - 1 {
                    assert(pad_left(bd, n)[i] == 1usize);
                } else {
                    assert(pad_left(bd, n)[i] == l.out_features());
                    assert(pad_left(md, n)[i] == l.out_features());
                }
            }
            assert(bcast_shape(md, bd) =~= md);
        },
        None => {},
    }
}

/// With no bias the specified host output is exactly the activation of the
/// matrix product with the transposed weight — or that product itself when no
/// activation is set: no bias term enters.
pub proof fn lemma_no_bias_output(l: Linear, x: candle_core::Tensor)
    requires
        l.bias is None,
    ensures
        l.act matches Some(a) ==> l.out_val(x) == act_val(
            a,
            l.mm_out_val(x),
            l.mm_dims(t_dims(x)),
            t_dtype(x),
        ),
        l.act is None ==> l.out_val(x) == l.mm_out_val(x),
{
}

} // verus!
