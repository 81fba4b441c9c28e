//! The failures the engine knows about.

use vstd::prelude::*;

verus! {

/// What can go wrong around the engine.
#[derive(Clone, Copy, Debug, PartialEq, Eq, Structural)]
pub enum EngineError {
    /// The metrics source produced no reading for a tick.
    MetricsUnavailable,
    /// A smoothing window of zero slots was asked for.
    InvalidWindowSize,
}

} // verus!
