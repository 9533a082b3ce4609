//! The airspeed validity checker: estimator test-ratio comparisons,
//! the innovation-check state machine, and the top-level validity
//! hysteresis.
//!
//! All timestamps and delays are monotonic microsecond counts supplied
//! by the caller, never sampled internally, so every time-based
//! decision is deterministic and provable.  Scalar quantities arrive
//! as IEEE-754 bit patterns; the few products and quotients the checks
//! need (equivalent/true airspeed, the load-factor filter value, the
//! innovation test ratio and its integral) are computed by the
//! embedding application and handed in, and every comparison and state
//! transition taken on them is verified here.

use vstd::prelude::*;
use crate::errors::ConfigError;
use crate::extensions::FloatExt;
use crate::extensions::constrain_single;
use crate::scalar::Scalar;
use crate::scalar::Wide;
use crate::scalar::eq_single;
use crate::scalar::ge_single;
use crate::scalar::gt_single;
use crate::scalar::is_nan_single;
use crate::scalar::le_single;
use crate::scalar::lt_single;
use crate::scalar::lt_wide;
use crate::wind_estimator::WindEstimator;

verus! {

/// Debounce window of the innovation verdict, in microseconds.
pub const TAS_INNOVATION_FAIL_DELAY_US: u64 = 1_000_000;

/// A fresh sample older than this is reported as missing.
pub const MISSING_DATA_DELAY_US: u64 = 200_000;

/// A fresh sample older than this is a hard data stop.
pub const DATA_STOPPED_DELAY_US: u64 = 1_000_000;

/// Bit pattern of one half, the neutral load-factor ratio.
pub const HALF_BITS: u32 = 0x3f00_0000;

/// Bit pattern of one quarter, the lower load-factor clamp.
pub const QUARTER_BITS: u32 = 0x3e80_0000;

/// Bit pattern of two, the upper clamp of both the load-factor ratio
/// and the equivalent-airspeed scale.
pub const TWO_BITS: u32 = 0x4000_0000;

/// Bit pattern of eleven tenths, the load-factor failure limit.
pub const LOAD_FACTOR_LIMIT_BITS: u32 = 0x3f8c_cccd;

/// Bit pattern of one, in single precision.
pub const ONE_BITS: u32 = 0x3f80_0000;

/// Bit pattern of one, in double precision: the elapsed-time bound
/// above which a cycle is treated as a data gap.
pub const ONE_WIDE_BITS: u64 = 0x3ff0_0000_0000_0000;

/// Which airspeed source the surrounding system has selected.
#[derive(Clone, Copy, Debug, PartialEq, Eq, Structural)]
pub enum AirspeedIndex {
    Disabled,
    GroundMinusWind,
    FirstSensor,
    SecondSensor,
    ThirdSensor,
}

/// Placeholder for the surrounding module glue; the checker itself
/// lives in `AirSpeedValidator`.
#[derive(Clone, Copy, Debug, PartialEq, Eq, Structural)]
pub struct AirSpeedModule {}

/// Navigation velocity estimate: three velocity components and the
/// horizontal and vertical estimate variances.  Read-only input.
#[derive(Clone, Copy, Debug, PartialEq, Eq, Structural)]
pub struct Lpos {
    pub vx: Scalar,
    pub vy: Scalar,
    pub vz: Scalar,
    pub evh: Scalar,
    pub evv: Scalar,
}

/// One cycle's external inputs, produced fresh by the caller each
/// cycle and never retained.
#[derive(Clone, Copy, Debug, PartialEq, Eq, Structural)]
pub struct UpdaterData {
    pub timestamp: u64,
    pub airspeed_indicated_raw: Scalar,
    pub airspeed_true_raw: Scalar,
    pub airspeed_timestamp: u64,
    pub lpos: Lpos,
    pub air_pressure: Scalar,
    pub air_temperature: Scalar,
    pub acceleration: Scalar,
    pub velocity_test_ratio: Scalar,
    pub magnitude_test_ratio: Scalar,
    pub in_fixed_wing_flight: bool,
}

/// Three-way classification of a test-ratio pair against a scalar
/// threshold.
#[derive(Clone, Copy, Debug, PartialEq, Eq, Structural)]
pub enum ThresholdComparison {
    Below,
    Equal,
    Above,
}

/// How far a state-estimator innovation is from nominal, as a pair of
/// a velocity ratio and a magnitude ratio.
///
/// The comparison semantics are deliberately asymmetric and therefore
/// spelled out as named functions: equality against a threshold holds
/// only when *both* components equal it, while ordering is decided by
/// the magnitude component alone.
#[derive(Clone, Copy, Debug, PartialEq, Eq, Structural)]
pub struct EstimatorStatusTestRatio {
    pub velocity: Scalar,
    pub magnitude: Scalar,
}

impl EstimatorStatusTestRatio {
    /// Equality against a threshold: both components must equal it.
    pub fn eq_threshold(&self, other: Scalar) -> (r: bool)
        ensures
            r == (eq_single(self.velocity.bits, other.bits) && eq_single(
                self.magnitude.bits,
                other.bits,
            )),
    {
        self.velocity.eq_val(&other) && self.magnitude.eq_val(&other)
    }

    /// Strict order against a threshold: the magnitude component alone
    /// decides, and NaN compares false.
    pub fn lt_threshold(&self, other: Scalar) -> (r: bool)
        ensures
            r == lt_single(self.magnitude.bits, other.bits),
    {
        self.magnitude.lt_val(&other)
    }

    pub fn le_threshold(&self, other: Scalar) -> (r: bool)
        ensures
            r == le_single(self.magnitude.bits, other.bits),
    {
        self.magnitude.le_val(&other)
    }

    pub fn gt_threshold(&self, other: Scalar) -> (r: bool)
        ensures
            r == gt_single(self.magnitude.bits, other.bits),
    {
        self.magnitude.gt_val(&other)
    }

    pub fn ge_threshold(&self, other: Scalar) -> (r: bool)
        ensures
            r == ge_single(self.magnitude.bits, other.bits),
    {
        self.magnitude.ge_val(&other)
    }

    /// Classify the pair against a threshold: `Equal` when both
    /// components equal it, otherwise `Below` or `Above` by the
    /// magnitude component, and `None` when neither holds (a NaN
    /// anywhere, or a magnitude that matches the threshold while the
    /// velocity does not).
    pub fn classify(&self, other: Scalar) -> (r: Option<ThresholdComparison>)
        ensures
            r == Some(ThresholdComparison::Equal) <==> (eq_single(self.velocity.bits, other.bits)
                && eq_single(self.magnitude.bits, other.bits)),
            !(eq_single(self.velocity.bits, other.bits) && eq_single(self.magnitude.bits, other.bits))
                ==> {
                &&& r == Some(ThresholdComparison::Below) <==> lt_single(self.magnitude.bits, other.bits)
                &&& r == Some(ThresholdComparison::Above) <==> gt_single(self.magnitude.bits, other.bits)
            },
    {
        if self.eq_threshold(other) {
            Some(ThresholdComparison::Equal)
        } else if self.lt_threshold(other) {
            Some(ThresholdComparison::Below)
        } else if self.gt_threshold(other) {
            Some(ThresholdComparison::Above)
        } else {
            None
        }
    }
}

/// Innovation-check configuration and its running timestamps.
///
/// The ratio threshold is held in double precision because every use
/// of it compares or folds it against double-precision quantities; the
/// accumulated-excess threshold stays single precision, as the
/// integrator is narrowed before it is tested.
#[derive(Clone, Copy, Debug, PartialEq, Eq, Structural)]
pub struct Tas {
    pub gate: Scalar,
    pub innovation_threshold: Wide,
    pub innovation_integration_threshold: Scalar,
    pub last_timestamp: u64,
    pub last_pass: u64,
    pub last_fail: u64,
}

impl Tas {
    /// Build a configuration record, rejecting a NaN or non-positive
    /// threshold up front.
    pub fn new(
        gate: Scalar,
        innovation_threshold: Wide,
        innovation_integration_threshold: Scalar,
    ) -> (r: Result<Tas, ConfigError>)
        ensures
            r is Ok <==> (lt_wide(0u64, innovation_threshold.bits) && gt_single(
                innovation_integration_threshold.bits,
                0u32,
            )),
            !lt_wide(0u64, innovation_threshold.bits) ==> r == Err::<Tas, ConfigError>(
                ConfigError::InnovationThresholdNotPositive,
            ),
            (lt_wide(0u64, innovation_threshold.bits) && !gt_single(
                innovation_integration_threshold.bits,
                0u32,
            )) ==> r == Err::<Tas, ConfigError>(ConfigError::IntegrationThresholdNotPositive),
            r matches Ok(t) ==> t == (Tas {
                gate,
                innovation_threshold,
                innovation_integration_threshold,
                last_timestamp: 0u64,
                last_pass: 0u64,
                last_fail: 0u64,
            }),
    {
        if !Wide::zero().lt_val(&innovation_threshold) {
            Err(ConfigError::InnovationThresholdNotPositive)
        } else if !innovation_integration_threshold.gt_val(&Scalar::zero()) {
            Err(ConfigError::IntegrationThresholdNotPositive)
        } else {
            Ok(
                Tas {
                    gate,
                    innovation_threshold,
                    innovation_integration_threshold,
                    last_timestamp: 0,
                    last_pass: 0,
                    last_fail: 0,
                },
            )
        }
    }

    /// Whether the accumulated innovation excess has crossed the
    /// configured threshold.  A disabled (NaN or non-positive)
    /// threshold never passes; with the check enabled, a NaN
    /// integrator counts as crossed rather than silently passing.
    pub fn check_if_innovation_state_passes(&self, innovation_state: Scalar) -> (r: bool)
        ensures
            r == innovation_state_passes(*self, innovation_state),
    {
        self.innovation_integration_threshold.gt_val(&Scalar::zero()) && (innovation_state.is_nan()
            || innovation_state.gt_val(&self.innovation_integration_threshold))
    }
}

/// What `check_if_innovation_state_passes` decides.
pub open spec fn innovation_state_passes(tas: Tas, innovation_state: Scalar) -> bool {
    &&& gt_single(tas.innovation_integration_threshold.bits, 0u32)
    &&& (is_nan_single(innovation_state.bits) || gt_single(
        innovation_state.bits,
        tas.innovation_integration_threshold.bits,
    ))
}

/// The double-precision quantities of one innovation-check cycle.
///
/// The caller derives them from the validator's state and the wind
/// estimator snapshot before the call:
/// - `dt_seconds`: the elapsed time since `previous_timestamp`,
///   converted to seconds on the configured timebase and clamped below
///   to a hundredth of a second;
/// - `tas_test_ratio`: the squared innovation, normalized by the
///   square of the configured gate raised to at least one, folded with
///   the innovation variance;
/// - `accumulated_state`: the current integrator plus
///   `dt_seconds * (tas_test_ratio - innovation_threshold)`;
/// - `accumulated_state_narrow`: `accumulated_state` rounded to single
///   precision, for the threshold test.
#[derive(Clone, Copy, Debug, PartialEq, Eq, Structural)]
pub struct InnovationArithmetic {
    pub dt_seconds: Wide,
    pub tas_test_ratio: Wide,
    pub accumulated_state: Wide,
    pub accumulated_state_narrow: Scalar,
}

/// Statistical consistency check between the true-airspeed estimate
/// and the wind estimator's innovation: a leaky integrator with an
/// asymmetric debounce on the verdict.
#[derive(Clone, Copy, Debug, PartialEq, Eq, Structural)]
pub struct InnovationCheck {
    pub previous_timestamp: u64,
    pub wind_estimator: WindEstimator,
    pub tas: Tas,
    pub in_fixed_wing_flight: bool,
    pub airspeed_innovation_state: Wide,
    pub failed: bool,
    pub airspeed_valid: bool,
}

/// The verdict, debounced: once failed, the check clears only after
/// the last clean pass has aged beyond the fail delay; while clean, it
/// newly fails if the last recorded failure is recent relative to a
/// hundred fail delays.
pub open spec fn debounced_failed(was_failed: bool, now: u64, tas: Tas) -> bool {
    if was_failed {
        now - tas.last_pass > TAS_INNOVATION_FAIL_DELAY_US
    } else {
        now - tas.last_fail < TAS_INNOVATION_FAIL_DELAY_US * 100
    }
}

/// Whether the cycle resets the integrator: the normalized test ratio
/// sits below the configured threshold (NaN does not reset).
pub open spec fn innovation_resets(check: InnovationCheck, arithmetic: InnovationArithmetic) -> bool {
    lt_wide(arithmetic.tas_test_ratio.bits, check.tas.innovation_threshold.bits)
}

/// The integrator value a cycle leaves behind: zero on a reset,
/// otherwise the accumulated value.
pub open spec fn next_innovation_state(check: InnovationCheck, arithmetic: InnovationArithmetic) -> Wide {
    if innovation_resets(check, arithmetic) {
        Wide { bits: 0 }
    } else {
        arithmetic.accumulated_state
    }
}

/// The single-precision image of the integrator a cycle leaves
/// behind: exactly zero on a reset, otherwise the narrowed
/// accumulated value.
pub open spec fn next_innovation_state_narrow(
    check: InnovationCheck,
    arithmetic: InnovationArithmetic,
) -> Scalar {
    if innovation_resets(check, arithmetic) {
        Scalar { bits: 0 }
    } else {
        arithmetic.accumulated_state_narrow
    }
}

/// The full effect of one innovation-check cycle on the check's
/// state.
///
/// Out of fixed-wing flight the check resets unconditionally: verdict
/// clean, the clean point moved to now, the failure point cleared.
/// In fixed-wing flight, a cycle whose clamped elapsed time reaches
/// one second is a data gap that only advances the previous
/// timestamp; otherwise the integrator resets or accumulates, the
/// candidate fail point is recorded when the estimator-level ratio is
/// below one and the integrator has crossed its threshold, and the
/// verdict is debounced.
pub open spec fn innovation_check_step(
    pre: InnovationCheck,
    now: u64,
    estimator_status_test_ratio: EstimatorStatusTestRatio,
    arithmetic: InnovationArithmetic,
) -> InnovationCheck {
    if !pre.in_fixed_wing_flight {
        InnovationCheck {
            failed: false,
            airspeed_valid: true,
            previous_timestamp: now,
            tas: Tas { last_pass: now, last_fail: 0u64, ..pre.tas },
            ..pre
        }
    } else if !lt_wide(arithmetic.dt_seconds.bits, ONE_WIDE_BITS) {
        InnovationCheck { previous_timestamp: now, ..pre }
    } else {
        InnovationCheck {
            previous_timestamp: now,
            airspeed_innovation_state: next_innovation_state(pre, arithmetic),
            failed: debounced_failed(pre.failed, now, pre.tas),
            tas: Tas {
                last_timestamp: if lt_single(estimator_status_test_ratio.magnitude.bits, ONE_BITS)
                    && innovation_state_passes(
                    pre.tas,
                    next_innovation_state_narrow(pre, arithmetic),
                ) {
                    now
                } else {
                    pre.tas.last_timestamp
                },
                ..pre.tas
            },
            ..pre
        }
    }
}

impl InnovationCheck {
    /// Start a check with a validated configuration and the current
    /// wind-estimator snapshot: integrator at zero, verdict clean.
    pub fn new(tas: Tas, wind_estimator: WindEstimator, in_fixed_wing_flight: bool) -> (r:
        InnovationCheck)
        ensures
            r == (InnovationCheck {
                previous_timestamp: 0u64,
                wind_estimator,
                tas,
                in_fixed_wing_flight,
                airspeed_innovation_state: Wide { bits: 0u64 },
                failed: false,
                airspeed_valid: true,
            }),
    {
        InnovationCheck {
            previous_timestamp: 0,
            wind_estimator,
            tas,
            in_fixed_wing_flight,
            airspeed_innovation_state: Wide { bits: 0 },
            failed: false,
            airspeed_valid: true,
        }
    }

    /// Replace the cached wind-estimator snapshot for the coming
    /// cycle.
    pub fn set_wind_estimator(&mut self, wind_estimator: WindEstimator)
        ensures
            *final(self) == (InnovationCheck { wind_estimator, ..*old(self) }),
    {
        self.wind_estimator = wind_estimator;
    }

    /// Record whether the vehicle is currently in fixed-wing flight.
    pub fn set_in_fixed_wing_flight(&mut self, in_fixed_wing_flight: bool)
        ensures
            *final(self) == (InnovationCheck { in_fixed_wing_flight, ..*old(self) }),
    {
        self.in_fixed_wing_flight = in_fixed_wing_flight;
    }

    /// Run one cycle of the innovation check.
    ///
    /// In fixed-wing flight, a cycle whose elapsed time reaches one
    /// second is a data gap and leaves everything but the previous
    /// timestamp unchanged.  Otherwise the integrator resets to zero
    /// on a clean ratio and takes the accumulated value on a divergent
    /// one; if the estimator-level test ratio is below one and the
    /// integrator has crossed its threshold, the current time is
    /// recorded as the candidate fail point; and the verdict is
    /// debounced asymmetrically.  Out of fixed-wing flight the check
    /// resets unconditionally and the verdict is forced clean.
    pub fn check_airspeed_innovation(
        &mut self,
        now: u64,
        estimator_status_test_ratio: EstimatorStatusTestRatio,
        arithmetic: InnovationArithmetic,
    )
        requires
            (old(self).in_fixed_wing_flight && lt_wide(arithmetic.dt_seconds.bits, ONE_WIDE_BITS))
                ==> (if old(self).failed {
                now >= old(self).tas.last_pass
            } else {
                now >= old(self).tas.last_fail
            }),
        ensures
            *final(self) == innovation_check_step(
                *old(self),
                now,
                estimator_status_test_ratio,
                arithmetic,
            ),
    {
        if self.in_fixed_wing_flight {
            if arithmetic.dt_seconds.lt_val(&Wide { bits: ONE_WIDE_BITS }) {
                let state_narrow: Scalar;
                if arithmetic.tas_test_ratio.lt_val(&self.tas.innovation_threshold) {
                    self.previous_timestamp = now;
                    self.airspeed_innovation_state = Wide::zero();
                    state_narrow = Scalar::zero();
                } else {
                    self.airspeed_innovation_state = arithmetic.accumulated_state;
                    state_narrow = arithmetic.accumulated_state_narrow;
                }
                if estimator_status_test_ratio.lt_threshold(Scalar { bits: ONE_BITS }) {
                    if self.tas.check_if_innovation_state_passes(state_narrow) {
                        self.tas.last_timestamp = now;
                    }
                }
                self.failed = if self.failed {
                    (now - self.tas.last_pass) > TAS_INNOVATION_FAIL_DELAY_US
                } else {
                    (now - self.tas.last_fail) < TAS_INNOVATION_FAIL_DELAY_US * 100
                };
            }
        } else {
            self.failed = false;
            self.tas.last_pass = now;
            self.tas.last_fail = 0;
            self.airspeed_valid = true;
            self.previous_timestamp = now;
        }
        self.previous_timestamp = now;
    }
}

/// The equivalent-airspeed scale the next `update_eas_scale` will
/// install: the wind estimator's scale clamped between one half and
/// two when an estimator is attached, otherwise the manual scale,
/// unclamped.
pub open spec fn eas_scale_after_update(validator: AirSpeedValidator) -> Scalar {
    match validator.wind_estimator {
        Some(w) => Scalar { bits: constrain_single(w.tas_scale.bits, HALF_BITS, TWO_BITS) },
        None => validator.airspeed_scale_manual,
    }
}

/// The effect of noting a cycle's input: a timestamp that differs
/// from the previous one and is not zero counts as fresh airspeed
/// data.
pub open spec fn updater_step(pre: AirSpeedValidator, input: UpdaterData) -> AirSpeedValidator {
    if input.timestamp != pre.previous_timestamp && input.timestamp > 0 {
        AirSpeedValidator {
            time_last_airspeed: input.timestamp,
            previous_timestamp: input.airspeed_timestamp,
            ..pre
        }
    } else {
        pre
    }
}

/// The effect of the load-factor check: in fixed-wing flight the
/// ratio becomes the raw filter value clamped between one quarter and
/// two and the check fails exactly when the clamped ratio exceeds the
/// limit; otherwise the ratio is forced neutral and the flag keeps
/// its prior value.
pub open spec fn load_factor_step(pre: AirSpeedValidator, load_factor_raw: Scalar) -> AirSpeedValidator {
    if pre.innovation_check.in_fixed_wing_flight {
        let ratio = Scalar { bits: constrain_single(load_factor_raw.bits, QUARTER_BITS, TWO_BITS) };
        AirSpeedValidator {
            load_factor_ratio: ratio,
            load_factor_check_failed: is_nan_single(ratio.bits) || gt_single(
                ratio.bits,
                LOAD_FACTOR_LIMIT_BITS,
            ),
            ..pre
        }
    } else {
        AirSpeedValidator { load_factor_ratio: Scalar { bits: HALF_BITS }, ..pre }
    }
}

/// The effect of the overall validity update: staleness is measured
/// against the last fresh sample, the failing flag combines the two
/// check verdicts with the missing-data condition, and validity moves
/// through the hysteresis: a valid sensor is invalidated by a hard
/// data stop or by both checks failing together, an invalid one
/// recovers once the last recorded failure has aged beyond the clear
/// delay.
pub open spec fn validation_status_step(pre: AirSpeedValidator, timestamp: u64) -> AirSpeedValidator {
    let missing = timestamp - pre.time_last_airspeed > MISSING_DATA_DELAY_US;
    let stopped = timestamp - pre.time_last_airspeed > DATA_STOPPED_DELAY_US;
    let failing = pre.innovation_check.failed || pre.load_factor_check_failed || missing;
    let valid = if pre.airspeed_valid {
        !(stopped || (pre.innovation_check.failed && pre.load_factor_check_failed))
    } else {
        timestamp - pre.time_checks_failed > pre.checks_clear_delay
    };
    AirSpeedValidator {
        data_stopped_failed: stopped,
        airspeed_failing: failing,
        time_checks_passed: timestamp,
        airspeed_valid: valid,
        ..pre
    }
}

/// The estimator-level test-ratio pair carried by a cycle's input.
pub open spec fn test_ratio_of(input: UpdaterData) -> EstimatorStatusTestRatio {
    EstimatorStatusTestRatio {
        velocity: input.velocity_test_ratio,
        magnitude: input.magnitude_test_ratio,
    }
}

/// One whole cycle, in the fixed order: note the input, record the
/// flight phase, refresh the scale, install the airspeeds, run the
/// load-factor check, run the innovation check, and fold everything
/// into the validity hysteresis.
pub open spec fn validator_cycle(
    pre: AirSpeedValidator,
    input: UpdaterData,
    arithmetic: CycleArithmetic,
) -> AirSpeedValidator {
    let noted = updater_step(pre, input);
    let phased = AirSpeedValidator {
        innovation_check: InnovationCheck {
            in_fixed_wing_flight: input.in_fixed_wing_flight,
            ..noted.innovation_check
        },
        ..noted
    };
    let scaled = AirSpeedValidator { eas_scale: eas_scale_after_update(phased), ..phased };
    let sped = AirSpeedValidator {
        ias: input.airspeed_indicated_raw,
        eas: arithmetic.eas,
        tas: arithmetic.tas,
        ..scaled
    };
    let loaded = load_factor_step(sped, arithmetic.load_factor_raw);
    let checked = AirSpeedValidator {
        innovation_check: innovation_check_step(
            loaded.innovation_check,
            input.timestamp,
            test_ratio_of(input),
            arithmetic.innovation,
        ),
        ..loaded
    };
    validation_status_step(checked, input.timestamp)
}

/// The scalar quantities of one whole cycle, derived by the caller
/// before the cycle runs:
/// - `eas`: the indicated airspeed times the scale that
///   `next_eas_scale` reports for the coming cycle;
/// - `tas`: that equivalent airspeed times the ratio of sea-level
///   density to the air density at the cycle's pressure and
///   temperature;
/// - `load_factor_raw`: the unclamped exponential-filter update of
///   the load-factor ratio;
/// - `innovation`: the innovation-check quantities.
#[derive(Clone, Copy, Debug, PartialEq, Eq, Structural)]
pub struct CycleArithmetic {
    pub eas: Scalar,
    pub tas: Scalar,
    pub load_factor_raw: Scalar,
    pub innovation: InnovationArithmetic,
}

/// Top-level aggregator: equivalent/true airspeed bookkeeping, the
/// load-factor plausibility check, the embedded innovation check, data
/// staleness, and the overall valid/invalid hysteresis.
#[derive(Clone, Copy, Debug)]
pub struct AirSpeedValidator {
    pub previous_timestamp: u64,
    pub time_last_airspeed: u64,
    pub wind_estimator: Option<WindEstimator>,
    pub eas_scale: Scalar,
    pub airspeed_scale_manual: Scalar,
    pub ias: Scalar,
    pub eas: Scalar,
    pub tas: Scalar,
    pub innovation_check: InnovationCheck,
    pub airspeed_stall: Scalar,
    pub load_factor_ratio: Scalar,
    pub load_factor_check_failed: bool,
    pub data_stopped_failed: bool,
    pub airspeed_valid: bool,
    pub airspeed_failing: bool,
    pub time_checks_passed: u64,
    pub time_checks_failed: u64,
    pub checks_fail_delay: u64,
    pub checks_clear_delay: u64,
}

impl AirSpeedValidator {
    /// Build a validator around an already-validated innovation check.
    ///
    /// Delays are unsigned microsecond counts, so a negative delay is
    /// unrepresentable; the thresholds were screened when the `Tas`
    /// record inside the innovation check was built.  The validator
    /// starts trusting its sensor, with a neutral load-factor ratio
    /// and zeroed airspeeds and timestamps.
    pub fn new(
        airspeed_scale_manual: Scalar,
        airspeed_stall: Scalar,
        checks_fail_delay: u64,
        checks_clear_delay: u64,
        innovation_check: InnovationCheck,
        wind_estimator: Option<WindEstimator>,
    ) -> (r: AirSpeedValidator)
        ensures
            r == (AirSpeedValidator {
                previous_timestamp: 0u64,
                time_last_airspeed: 0u64,
                wind_estimator,
                eas_scale: airspeed_scale_manual,
                airspeed_scale_manual,
                ias: Scalar { bits: 0u32 },
                eas: Scalar { bits: 0u32 },
                tas: Scalar { bits: 0u32 },
                innovation_check,
                airspeed_stall,
                load_factor_ratio: Scalar { bits: HALF_BITS },
                load_factor_check_failed: false,
                data_stopped_failed: false,
                airspeed_valid: true,
                airspeed_failing: false,
                time_checks_passed: 0u64,
                time_checks_failed: 0u64,
                checks_fail_delay,
                checks_clear_delay,
            }),
    {
        AirSpeedValidator {
            previous_timestamp: 0,
            time_last_airspeed: 0,
            wind_estimator,
            eas_scale: airspeed_scale_manual,
            airspeed_scale_manual,
            ias: Scalar { bits: 0 },
            eas: Scalar { bits: 0 },
            tas: Scalar { bits: 0 },
            innovation_check,
            airspeed_stall,
            load_factor_ratio: Scalar { bits: HALF_BITS },
            load_factor_check_failed: false,
            data_stopped_failed: false,
            airspeed_valid: true,
            airspeed_failing: false,
            time_checks_passed: 0,
            time_checks_failed: 0,
            checks_fail_delay,
            checks_clear_delay,
        }
    }

    /// Replace the wind-estimator handle for the coming cycle.
    pub fn set_wind_estimator(&mut self, wind_estimator: Option<WindEstimator>)
        ensures
            *final(self) == (AirSpeedValidator { wind_estimator, ..*old(self) }),
    {
        self.wind_estimator = wind_estimator;
    }

    /// Note the arrival of a cycle's input: a timestamp that differs
    /// from the previous one and is not zero counts as fresh airspeed
    /// data, and the measurement's own timestamp becomes the new
    /// reference point.
    pub fn update_validator(&mut self, input: UpdaterData)
        ensures
            *final(self) == updater_step(*old(self), input),
    {
        if input.timestamp != self.previous_timestamp && input.timestamp > 0 {
            self.time_last_airspeed = input.timestamp;
            self.previous_timestamp = input.airspeed_timestamp;
        }
    }

    /// Refresh the equivalent-airspeed scale: the wind estimator's
    /// scale, clamped between one half and two, when an estimator is
    /// attached; the manual scale, unclamped, otherwise.
    pub fn update_eas_scale(&mut self)
        ensures
            *final(self) == (AirSpeedValidator {
                eas_scale: eas_scale_after_update(*old(self)),
                ..*old(self)
            }),
    {
        self.eas_scale = match self.wind_estimator {
            Some(w) => w.tas_scale.constrain(Scalar { bits: HALF_BITS }, Scalar { bits: TWO_BITS }),
            None => self.airspeed_scale_manual,
        };
    }

    /// Install the cycle's airspeeds.
    ///
    /// The caller derives the equivalent airspeed from the indicated
    /// one and the refreshed scale, and the true airspeed from the
    /// equivalent one and the air-density ratio; both are
    /// single-precision products computed outside the verified core,
    /// so this method records them as given.
    pub fn update_eas_tas(&mut self, ias: Scalar, eas: Scalar, tas: Scalar)
        ensures
            *final(self) == (AirSpeedValidator { ias, eas, tas, ..*old(self) }),
    {
        self.ias = ias;
        self.eas = eas;
        self.tas = tas;
    }

    /// Run the load-factor plausibility check.
    ///
    /// `load_factor_raw` is the unclamped filter update computed by
    /// the caller from the previous ratio, the acceleration magnitude
    /// and the lift-ratio normalizer.  In fixed-wing flight the ratio
    /// becomes that value clamped between one quarter and two, and the
    /// check fails exactly when the clamped ratio exceeds the limit of
    /// eleven tenths or is NaN: a NaN-contaminated ratio is an
    /// explicit failure, never a silent pass.  Out of fixed-wing
    /// flight the ratio is forced to
    /// the neutral one half and the failure flag keeps its prior
    /// value: the check is suspended, not failed.
    pub fn check_load_factor(&mut self, load_factor_raw: Scalar)
        ensures
            old(self).innovation_check.in_fixed_wing_flight ==> {
                &&& final(self).load_factor_ratio.bits == constrain_single(
                    load_factor_raw.bits,
                    QUARTER_BITS,
                    TWO_BITS,
                )
                &&& final(self).load_factor_check_failed == (is_nan_single(
                    final(self).load_factor_ratio.bits,
                ) || gt_single(final(self).load_factor_ratio.bits, LOAD_FACTOR_LIMIT_BITS))
            },
            !old(self).innovation_check.in_fixed_wing_flight ==> {
                &&& final(self).load_factor_ratio.bits == HALF_BITS
                &&& final(self).load_factor_check_failed == old(self).load_factor_check_failed
            },
            *final(self) == load_factor_step(*old(self), load_factor_raw),
    {
        if self.innovation_check.in_fixed_wing_flight {
            self.load_factor_ratio = load_factor_raw.constrain(
                Scalar { bits: QUARTER_BITS },
                Scalar { bits: TWO_BITS },
            );
            self.load_factor_check_failed = self.load_factor_ratio.is_nan()
                || self.load_factor_ratio.gt_val(&Scalar { bits: LOAD_FACTOR_LIMIT_BITS });
        } else {
            self.load_factor_ratio = Scalar { bits: HALF_BITS };
        }
    }

    /// Combine staleness and the two check verdicts into the overall
    /// validity, with hysteresis.
    ///
    /// A valid sensor is invalidated by a hard data stop or by both
    /// checks failing together; an invalid one recovers only once the
    /// last recorded check failure has aged beyond the clear delay.
    pub fn update_airspeed_validation_status(&mut self, timestamp: u64)
        requires
            timestamp >= old(self).time_last_airspeed,
            !old(self).airspeed_valid ==> timestamp >= old(self).time_checks_failed,
        ensures
            final(self).data_stopped_failed == (timestamp - old(self).time_last_airspeed
                > DATA_STOPPED_DELAY_US),
            final(self).airspeed_failing == (old(self).innovation_check.failed || old(self).load_factor_check_failed || timestamp - old(self).time_last_airspeed
                > MISSING_DATA_DELAY_US),
            final(self).time_checks_passed == timestamp,
            old(self).airspeed_valid ==> final(self).airspeed_valid == !(final(self).data_stopped_failed || (old(self).innovation_check.failed && old(self).load_factor_check_failed)),
            !old(self).airspeed_valid ==> (final(self).airspeed_valid <==> timestamp - old(self).time_checks_failed > old(self).checks_clear_delay),
            old(self).airspeed_valid && final(self).data_stopped_failed ==> !final(self).airspeed_valid,
            *final(self) == validation_status_step(*old(self), timestamp),
    {
        let missing: bool = timestamp - self.time_last_airspeed > MISSING_DATA_DELAY_US;
        self.data_stopped_failed = timestamp - self.time_last_airspeed > DATA_STOPPED_DELAY_US;

        self.airspeed_failing = self.innovation_check.failed || self.load_factor_check_failed
            || missing;
        self.time_checks_passed = timestamp;

        if self.airspeed_valid {
            let single_check_failed_timeout: bool = timestamp - self.time_checks_passed
                > self.checks_fail_delay;
            if self.data_stopped_failed || self.innovation_check.failed
                && self.load_factor_check_failed || single_check_failed_timeout {
                self.airspeed_valid = false;
            }
        } else if timestamp - self.time_checks_failed > self.checks_clear_delay {
            self.airspeed_valid = true;
        }
    }

    /// The equivalent-airspeed scale the coming cycle will install,
    /// so that the caller can derive the cycle's equivalent airspeed
    /// without re-implementing the clamp.
    pub fn next_eas_scale(&self) -> (r: Scalar)
        ensures
            r == eas_scale_after_update(*self),
    {
        match self.wind_estimator {
            Some(w) => w.tas_scale.constrain(Scalar { bits: HALF_BITS }, Scalar { bits: TWO_BITS }),
            None => self.airspeed_scale_manual,
        }
    }

    /// Run one whole cycle in the fixed order: note the input, record
    /// the flight phase, refresh the scale, install the airspeeds,
    /// run the load-factor check, run the innovation check, and fold
    /// everything into the validity hysteresis.
    ///
    /// The caller supplies the cycle's timestamp inside `input` —
    /// time is never sampled here — and the derived scalar quantities
    /// in `arithmetic`.
    pub fn run_cycle(&mut self, input: UpdaterData, arithmetic: CycleArithmetic)
        requires
            input.timestamp >= old(self).time_last_airspeed,
            !old(self).airspeed_valid ==> input.timestamp >= old(self).time_checks_failed,
            (input.in_fixed_wing_flight && lt_wide(
                arithmetic.innovation.dt_seconds.bits,
                ONE_WIDE_BITS,
            )) ==> (if old(self).innovation_check.failed {
                input.timestamp >= old(self).innovation_check.tas.last_pass
            } else {
                input.timestamp >= old(self).innovation_check.tas.last_fail
            }),
        ensures
            *final(self) == validator_cycle(*old(self), input, arithmetic),
    {
        self.update_validator(input);
        self.innovation_check.set_in_fixed_wing_flight(input.in_fixed_wing_flight);
        self.update_eas_scale();
        self.update_eas_tas(input.airspeed_indicated_raw, arithmetic.eas, arithmetic.tas);
        self.check_load_factor(arithmetic.load_factor_raw);
        let test_ratio = EstimatorStatusTestRatio {
            velocity: input.velocity_test_ratio,
            magnitude: input.magnitude_test_ratio,
        };
        self.innovation_check.check_airspeed_innovation(
            input.timestamp,
            test_ratio,
            arithmetic.innovation,
        );
        self.update_airspeed_validation_status(input.timestamp);
    }
}

} // verus!
