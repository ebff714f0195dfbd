use vstd::prelude::*;

use crate::BackendError;

verus! {

/// One inference batch, as the serving layer hands it over: token ids with
/// their positions, the cumulative per-sequence offsets, and which sequences
/// want a pooled or a raw output.
pub struct Batch {
    pub input_ids: Vec<u32>,
    pub token_type_ids: Vec<u32>,
    pub position_ids: Vec<u32>,
    pub cumulative_seq_lengths: Vec<u32>,
    pub max_length: u32,
    pub pooled_indices: Vec<u32>,
    pub raw_indices: Vec<u32>,
}

impl Batch {
    /// The number of sequences in the batch: one fewer than the cumulative
    /// offsets, which start at 0 and end at the total token count.
    pub fn len(&self) -> (r: usize)
        requires
            self.cumulative_seq_lengths@.len() >= 1,
        ensures
            r == self.cumulative_seq_lengths@.len() - 1,
    {
        self.cumulative_seq_lengths.len() - 1
    }
}

/// The answer of a variant that offers no embedding output: always the
/// explicit `UnsupportedOperation`, never a crash or a silent empty result.
pub fn default_embed() -> (r: Result<
    (Option<candle_core::Tensor>, Option<candle_core::Tensor>),
    BackendError,
>)
    ensures
        r is Err,
        r matches Err(e) ==> e == BackendError::UnsupportedOperation,
{
    Err(BackendError::UnsupportedOperation)
}

/// The answer of a variant that offers no classification or regression head:
/// always the explicit `UnsupportedOperation`, never a crash or a silent
/// empty result.
pub fn default_predict() -> (r: Result<candle_core::Tensor, BackendError>)
    ensures
        r is Err,
        r matches Err(e) ==> e == BackendError::UnsupportedOperation,
{
    Err(BackendError::UnsupportedOperation)
}

/// The capability interface every architecture variant exposes to the serving
/// layer. A variant that offers no embedding output or no prediction head
/// reports so with an explicit `UnsupportedOperation` failure — never a crash
/// or a silent empty result — so the serving layer can probe capability
/// uniformly before dispatching.
pub trait Model {
    /// Whether the variant consumes fixed-size padded batches (needing
    /// attention masks) rather than ragged packed batches.
    fn is_padded(&self) -> bool;

    /// The pooled and/or per-token embedding tensors for a batch.
    fn embed(&self, _batch: Batch) -> Result<
        (Option<candle_core::Tensor>, Option<candle_core::Tensor>),
        BackendError,
    > {
        default_embed()
    }

    /// The classification or regression output for a batch.
    fn predict(&self, _batch: Batch) -> Result<candle_core::Tensor, BackendError> {
        default_predict()
    }
}

} // verus!
