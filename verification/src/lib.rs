pub mod activation;
pub mod device;
pub mod linear;
pub mod model;
pub mod probe;
pub mod shape;
pub mod tensor;

use vstd::prelude::*;

verus! {

/// Failure taxonomy of the projection core.
///
/// `ShapeMismatch` is deterministic and caller-caused: the dimensions of
/// weight, bias and input disagree. `UnsupportedOperation` is returned by a
/// `Model` method that an architecture does not implement. `Device` covers a
/// failing underlying compute call (environment-caused).
#[derive(Clone, Copy, Debug, PartialEq, Eq, Structural)]
pub enum BackendError {
    ShapeMismatch,
    UnsupportedOperation,
    Device,
}

} // verus!
