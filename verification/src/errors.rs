//! The fatal bring-up failures.
//!
//! Per-device suitability failures are not here: they are carried by
//! `SuitabilityError`, recorded, and treated as a skip during selection.

use vstd::prelude::*;

verus! {

/// A failure that aborts the whole bring-up sequence.
#[derive(Clone, Copy, Debug, PartialEq, Eq, Structural)]
pub enum BackendError {
    /// Device enumeration found no device passing the suitability predicate.
    NoSuitableDevice,
    /// A validation layer was requested but is absent from the available
    /// layers.
    ValidationLayerUnavailable,
}

} // verus!
