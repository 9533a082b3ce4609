//! Per-cycle airspeed-sensor validity checking for a fixed-wing
//! flight-control system.
//!
//! The library verifies the decision logic of the checker: NaN-aware
//! single- and double-precision comparisons over bit patterns, the
//! clamping of filtered quantities, the innovation-check state machine,
//! and the top-level validity hysteresis driven by caller-supplied
//! microsecond timestamps.  Floating-point arithmetic itself (air
//! density, airspeed conversions, filter updates) cannot be carried out
//! here; the embedding application computes those values and hands them
//! in as bit patterns, and every decision taken on them is verified.
//!
//! NaN policy: values propagate untouched, and a comparison against
//! NaN is false, as in IEEE-754; at the two verdict comparisons — the
//! load-factor limit and the innovation-integrator threshold — a NaN
//! counts as a failed check rather than a silent pass.

pub mod airspeed;
pub mod errors;
pub mod extensions;
pub mod scalar;
pub mod wind_estimator;
