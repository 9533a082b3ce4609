//! Configuration errors raised at construction time, so that a bad
//! threshold is rejected up front instead of surfacing as silent
//! misbehaviour during a flight.

use vstd::prelude::*;

verus! {

/// Why a configuration record was rejected.
#[derive(Clone, Copy, Debug, PartialEq, Eq, Structural)]
pub enum ConfigError {
    /// The innovation ratio threshold is NaN, zero or negative.
    InnovationThresholdNotPositive,
    /// The accumulated-excess threshold is NaN, zero or negative.
    IntegrationThresholdNotPositive,
}

} // verus!
