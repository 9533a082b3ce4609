//! Read-only snapshot of the wind-estimation subsystem, refreshed by
//! its owner once per cycle and only read here.

use vstd::prelude::*;
use crate::scalar::Scalar;

verus! {

/// True-airspeed scale factor and innovation statistics produced by
/// the external wind estimator.
#[derive(Clone, Copy, Debug, PartialEq, Eq, Structural)]
pub struct WindEstimator {
    pub tas_scale: Scalar,
    pub tas_innovation: Scalar,
    pub tas_innovation_var: Scalar,
}

} // verus!
