use vstd::prelude::*;

use crate::device::Dev;

verus! {

/// The strategy a forward call executes.
///
/// `Fused` invokes the accelerated engine's fused matmul+bias+activation
/// primitive, batched for rank-3 input. `Generic` multiplies by the
/// transposed weight with generic tensor primitives, forcing a contiguous
/// copy of the input first where the device class requires one.
#[derive(Clone, Copy, Debug, PartialEq, Eq, Structural)]
pub enum Path {
    Fused { batched: bool },
    Generic { force_contiguous: bool },
}

/// The process-wide capability fact: either no fused accelerated engine is
/// usable, or one is, bound to a device class. Resolved at most once and
/// read-only thereafter; a failed resolution degrades to "no engine" rather
/// than erroring, so callers always have the generic fallback.
#[derive(Clone, Copy, Debug, PartialEq, Eq, Structural)]
pub struct CapabilityProbe {
    pub fused_device: Option<Dev>,
}

impl CapabilityProbe {
    /// Resolves the capability for this build. The fused engine is a
    /// link-time capability of accelerator builds; this build links none, so
    /// the probe reports no engine and every forward call takes the generic
    /// path.
    pub fn resolve() -> (r: CapabilityProbe)
        ensures
            r.fused_device is None,
    {
        CapabilityProbe { fused_device: None }
    }

    /// A probe reporting exactly `fused_device`, for exercising the dispatch
    /// policy as a probe of another build would drive it.
    pub fn reported(fused_device: Option<Dev>) -> (r: CapabilityProbe)
        ensures
            r.fused_device == fused_device,
    {
        CapabilityProbe { fused_device }
    }

    /// Whether the fused engine is usable for a tensor on device class `d`.
    pub fn fused_available_for(&self, d: Dev) -> (r: bool)
        ensures
            r == (self.fused_device == Some(d)),
    {
        match self.fused_device {
            Some(fd) => fd == d,
            None => false,
        }
    }
}

/// The dispatch policy, as a function of the capability fact.
pub open spec fn spec_select_path(fused: bool, dev: Dev, rank3: bool) -> Path {
    if fused {
        Path::Fused { batched: rank3 }
    } else {
        Path::Generic { force_contiguous: dev == Dev::Metal && !rank3 }
    }
}

/// Selects the strategy for one forward call: the fused engine when the probe
/// reports it usable on the input's device class (batched for rank-3 input),
/// and otherwise the generic path, with a contiguous copy forced for rank-2
/// input on the contiguity-constrained device class. The choice itself never
/// fails: a missing engine is a capability fact, not an error.
pub fn select_path(probe: &CapabilityProbe, dev: Dev, rank3: bool) -> (r: Path)
    ensures
        r == spec_select_path(probe.fused_device == Some(dev), dev, rank3),
{
    if probe.fused_available_for(dev) {
        Path::Fused { batched: rank3 }
    } else {
        let metal: bool = match dev {
            Dev::Metal => true,
            _ => false,
        };
        Path::Generic { force_contiguous: metal && !rank3 }
    }
}

/// A probe that reports no engine routes every call, on every device class,
/// to the generic path: forcing the capability off cannot make dispatch fail,
/// it only selects the fallback.
pub proof fn lemma_unavailable_routes_generic(probe: CapabilityProbe, dev: Dev, rank3: bool)
    requires
        probe.fused_device is None,
    ensures
        spec_select_path(probe.fused_device == Some(dev), dev, rank3) matches Path::Generic {
            force_contiguous,
        } && force_contiguous == (dev == Dev::Metal && !rank3),
{
}

} // verus!
