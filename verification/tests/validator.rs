use airspeed_validator::airspeed::AirSpeedValidator;
use airspeed_validator::airspeed::AirspeedIndex;
use airspeed_validator::airspeed::CycleArithmetic;
use airspeed_validator::airspeed::EstimatorStatusTestRatio;
use airspeed_validator::airspeed::InnovationArithmetic;
use airspeed_validator::airspeed::InnovationCheck;
use airspeed_validator::airspeed::Lpos;
use airspeed_validator::airspeed::Tas;
use airspeed_validator::airspeed::ThresholdComparison;
use airspeed_validator::airspeed::UpdaterData;
use airspeed_validator::errors::ConfigError;
use airspeed_validator::scalar::Scalar;
use airspeed_validator::scalar::Wide;
use airspeed_validator::wind_estimator::WindEstimator;

fn s(x: f32) -> Scalar {
    Scalar { bits: x.to_bits() }
}

fn f(x: Scalar) -> f32 {
    f32::from_bits(x.bits)
}

fn w(x: f64) -> Wide {
    Wide { bits: x.to_bits() }
}

fn wind(scale: f32) -> WindEstimator {
    WindEstimator { tas_scale: s(scale), tas_innovation: s(0.0), tas_innovation_var: s(0.1) }
}

fn ratio(velocity: f32, magnitude: f32) -> EstimatorStatusTestRatio {
    EstimatorStatusTestRatio { velocity: s(velocity), magnitude: s(magnitude) }
}

fn arith(dt: f64, test_ratio: f64, accumulated: f64) -> InnovationArithmetic {
    InnovationArithmetic {
        dt_seconds: w(dt),
        tas_test_ratio: w(test_ratio),
        accumulated_state: w(accumulated),
        accumulated_state_narrow: s(accumulated as f32),
    }
}

fn validator(fixed_wing: bool, fail_delay_us: u64, clear_delay_us: u64) -> AirSpeedValidator {
    let tas = Tas::new(s(1.0), w(0.5), s(1.0)).unwrap();
    let check = InnovationCheck::new(tas, wind(1.0), fixed_wing);
    AirSpeedValidator::new(s(1.0), s(10.0), fail_delay_us, clear_delay_us, check, None)
}

fn input_at(timestamp: u64, airspeed_timestamp: u64, fixed_wing: bool) -> UpdaterData {
    UpdaterData {
        timestamp,
        airspeed_indicated_raw: s(20.0),
        airspeed_true_raw: s(21.0),
        airspeed_timestamp,
        lpos: Lpos { vx: s(0.0), vy: s(0.0), vz: s(0.0), evh: s(0.1), evv: s(0.1) },
        air_pressure: s(101325.0),
        air_temperature: s(15.0),
        acceleration: s(9.81),
        velocity_test_ratio: s(0.1),
        magnitude_test_ratio: s(0.1),
        in_fixed_wing_flight: fixed_wing,
    }
}

#[test]
fn test_ratio_ordering_uses_magnitude_only() {
    let r = ratio(1.0, 0.5);
    assert!(!r.eq_threshold(s(1.0)));
    assert!(r.lt_threshold(s(1.0)));
    assert!(r.le_threshold(s(1.0)));
    assert!(!r.gt_threshold(s(1.0)));
    assert!(!r.ge_threshold(s(1.0)));
    assert_eq!(r.classify(s(1.0)), Some(ThresholdComparison::Below));
}

#[test]
fn test_ratio_equality_needs_both_components() {
    let equal = ratio(2.0, 2.0);
    assert!(equal.eq_threshold(s(2.0)));
    assert_eq!(equal.classify(s(2.0)), Some(ThresholdComparison::Equal));

    let mixed = ratio(0.5, 2.0);
    assert!(!mixed.eq_threshold(s(2.0)));
    assert_eq!(mixed.classify(s(2.0)), None);
    assert!(mixed.gt_threshold(s(1.0)));
    assert_eq!(mixed.classify(s(1.0)), Some(ThresholdComparison::Above));

    let with_nan = ratio(f32::NAN, 0.5);
    assert!(!with_nan.eq_threshold(s(0.5)));
    assert_eq!(with_nan.classify(s(0.5)), None);
}

#[test]
fn tas_configuration_rejects_bad_thresholds() {
    assert_eq!(
        Tas::new(s(1.0), w(0.0), s(0.5)),
        Err(ConfigError::InnovationThresholdNotPositive)
    );
    assert_eq!(
        Tas::new(s(1.0), w(-1.0), s(0.5)),
        Err(ConfigError::InnovationThresholdNotPositive)
    );
    assert_eq!(
        Tas::new(s(1.0), w(f64::NAN), s(0.5)),
        Err(ConfigError::InnovationThresholdNotPositive)
    );
    assert_eq!(
        Tas::new(s(1.0), w(0.5), s(-0.5)),
        Err(ConfigError::IntegrationThresholdNotPositive)
    );
    assert_eq!(
        Tas::new(s(1.0), w(0.5), s(0.0)),
        Err(ConfigError::IntegrationThresholdNotPositive)
    );
    assert_eq!(
        Tas::new(s(1.0), w(0.5), s(f32::NAN)),
        Err(ConfigError::IntegrationThresholdNotPositive)
    );

    let t = Tas::new(s(1.0), w(0.5), s(1.0)).unwrap();
    assert_eq!(t.last_timestamp, 0);
    assert_eq!(t.last_pass, 0);
    assert_eq!(t.last_fail, 0);
    assert_eq!(f(t.gate), 1.0);
}

#[test]
fn innovation_state_threshold_crossing() {
    let t = Tas::new(s(1.0), w(0.5), s(1.0)).unwrap();
    assert!(!t.check_if_innovation_state_passes(s(0.5)));
    assert!(!t.check_if_innovation_state_passes(s(1.0)));
    assert!(t.check_if_innovation_state_passes(s(1.5)));
    assert!(t.check_if_innovation_state_passes(s(f32::NAN)));

    let disabled = Tas { innovation_integration_threshold: s(0.0), ..t };
    assert!(!disabled.check_if_innovation_state_passes(s(5.0)));
    assert!(!disabled.check_if_innovation_state_passes(s(f32::NAN)));
}

#[test]
fn updater_notes_fresh_timestamps() {
    let mut v = validator(true, 1_000_000, 1_000_000);
    v.update_validator(input_at(1_000, 900, true));
    assert_eq!(v.time_last_airspeed, 1_000);
    assert_eq!(v.previous_timestamp, 900);

    // a repeat of the previous timestamp is not fresh data
    v.update_validator(input_at(900, 800, true));
    assert_eq!(v.time_last_airspeed, 1_000);
    assert_eq!(v.previous_timestamp, 900);

    // a zero timestamp is never fresh data
    v.update_validator(input_at(0, 700, true));
    assert_eq!(v.time_last_airspeed, 1_000);
    assert_eq!(v.previous_timestamp, 900);
}

#[test]
fn eas_scale_clamped_with_estimator_manual_otherwise() {
    let tas = Tas::new(s(1.0), w(0.5), s(1.0)).unwrap();
    let check = InnovationCheck::new(tas, wind(1.0), true);
    let mut v = AirSpeedValidator::new(s(7.5), s(10.0), 1_000_000, 1_000_000, check, None);

    // without an estimator the manual scale is taken, unclamped
    v.update_eas_scale();
    assert_eq!(f(v.eas_scale), 7.5);

    v.set_wind_estimator(Some(wind(3.0)));
    v.update_eas_scale();
    assert_eq!(f(v.eas_scale), 2.0);

    v.set_wind_estimator(Some(wind(0.1)));
    v.update_eas_scale();
    assert_eq!(f(v.eas_scale), 0.5);

    v.set_wind_estimator(Some(wind(1.2)));
    v.update_eas_scale();
    assert_eq!(f(v.eas_scale), 1.2);
    assert_eq!(f(v.next_eas_scale()), 1.2);
}

#[test]
fn load_factor_ratio_neutral_outside_fixed_wing() {
    let mut v = validator(false, 1_000_000, 1_000_000);
    v.load_factor_ratio = s(1.9);
    v.check_load_factor(s(123.0));
    assert_eq!(f(v.load_factor_ratio), 0.5);
    assert!(!v.load_factor_check_failed);

    v.check_load_factor(s(f32::NAN));
    assert_eq!(f(v.load_factor_ratio), 0.5);
}

#[test]
fn load_factor_check_clamps_and_flags() {
    let mut v = validator(true, 1_000_000, 1_000_000);
    v.check_load_factor(s(3.0));
    assert_eq!(f(v.load_factor_ratio), 2.0);
    assert!(v.load_factor_check_failed);

    v.check_load_factor(s(1.0));
    assert_eq!(f(v.load_factor_ratio), 1.0);
    assert!(!v.load_factor_check_failed);

    v.check_load_factor(s(0.1));
    assert_eq!(f(v.load_factor_ratio), 0.25);
    assert!(!v.load_factor_check_failed);

    // a NaN-contaminated ratio is an explicit failure, never a pass
    v.check_load_factor(s(f32::NAN));
    assert!(f(v.load_factor_ratio).is_nan());
    assert!(v.load_factor_check_failed);
}

#[test]
fn data_stop_invalidates_same_cycle() {
    let mut v = validator(true, 1_000_000, 1_000_000);
    v.update_validator(input_at(1_000_000, 1_000_000, true));
    v.update_airspeed_validation_status(1_000_000);
    assert!(v.airspeed_valid);
    assert!(!v.data_stopped_failed);

    v.update_airspeed_validation_status(2_100_000);
    assert!(v.data_stopped_failed);
    assert!(!v.airspeed_valid);
}

#[test]
fn missing_data_flags_failing_then_stops() {
    let mut v = validator(true, 1_000_000, 1_000_000);
    v.update_validator(input_at(1_000_000, 1_000_000, true));

    // a quarter second without fresh data: missing, failing, still valid
    v.update_airspeed_validation_status(1_250_000);
    assert!(v.airspeed_failing);
    assert!(!v.data_stopped_failed);
    assert!(v.airspeed_valid);

    // just over a second without fresh data: hard stop, invalid
    v.update_airspeed_validation_status(2_050_000);
    assert!(v.data_stopped_failed);
    assert!(v.airspeed_failing);
    assert!(!v.airspeed_valid);
}

#[test]
fn recovery_exactly_after_clear_delay() {
    let mut v = validator(true, 1_000_000, 5_000_000);
    v.update_validator(input_at(1_000, 1_000, true));
    v.update_airspeed_validation_status(2_000_000);
    assert!(!v.airspeed_valid);

    // the last recorded failure time is still zero, so recovery comes
    // exactly when the clear delay has fully elapsed, not one tick
    // before
    v.update_airspeed_validation_status(5_000_000);
    assert!(!v.airspeed_valid);
    v.update_airspeed_validation_status(5_000_001);
    assert!(v.airspeed_valid);
}

#[test]
fn sustained_dual_failure_invalidates() {
    let mut v = validator(true, 1_000_000, 10_000_000);
    for k in 0..12u64 {
        let now = 1_000_000 + k * 100_000;
        v.update_validator(input_at(now, now, true));
        v.check_load_factor(s(5.0));
        v.innovation_check.check_airspeed_innovation(now, ratio(0.1, 0.1), arith(0.1, 5.0, 0.45));
        v.update_airspeed_validation_status(now);
    }
    assert!(v.innovation_check.failed);
    assert!(v.load_factor_check_failed);
    assert!(!v.airspeed_valid);
}

#[test]
fn innovation_integrator_resets_and_accumulates() {
    let tas = Tas::new(s(1.0), w(0.5), s(1.0)).unwrap();
    let mut c = InnovationCheck::new(tas, wind(1.0), true);

    // a divergent ratio stores the accumulated value
    c.check_airspeed_innovation(200_000_000, ratio(0.1, 0.1), arith(0.01, 2.0, 0.015));
    assert_eq!(c.airspeed_innovation_state.bits, (0.015f64).to_bits());
    assert_eq!(c.previous_timestamp, 200_000_000);
    assert_eq!(c.tas.last_timestamp, 0);

    // a clean ratio resets the integrator to exactly zero
    c.check_airspeed_innovation(200_100_000, ratio(0.1, 0.1), arith(0.01, 0.1, 0.03));
    assert_eq!(c.airspeed_innovation_state.bits, 0);

    // a crossing with a nominal estimator records the fail point
    c.check_airspeed_innovation(200_200_000, ratio(0.1, 0.1), arith(0.01, 2.0, 1.5));
    assert_eq!(c.tas.last_timestamp, 200_200_000);

    // a crossing with a divergent estimator does not record it
    c.check_airspeed_innovation(200_300_000, ratio(0.1, 1.5), arith(0.01, 2.0, 1.6));
    assert_eq!(c.tas.last_timestamp, 200_200_000);

    // a long gap leaves everything but the timestamp unchanged
    let state_before = c.airspeed_innovation_state;
    c.check_airspeed_innovation(300_000_000, ratio(0.1, 0.1), arith(1.5, 2.0, 9.9));
    assert_eq!(c.airspeed_innovation_state.bits, state_before.bits);
    assert_eq!(c.previous_timestamp, 300_000_000);

    // out of fixed-wing flight the check resets unconditionally
    c.failed = true;
    c.set_in_fixed_wing_flight(false);
    c.check_airspeed_innovation(400_000_000, ratio(0.1, 0.1), arith(0.01, 2.0, 9.9));
    assert!(!c.failed);
    assert!(c.airspeed_valid);
    assert_eq!(c.tas.last_pass, 400_000_000);
    assert_eq!(c.tas.last_fail, 0);
}

#[test]
fn innovation_verdict_debounce_is_asymmetric() {
    let tas = Tas::new(s(1.0), w(0.5), s(1.0)).unwrap();
    let mut c = InnovationCheck::new(tas, wind(1.0), true);

    // clean, but the zeroed fail point counts as recent: sticky fail
    c.check_airspeed_innovation(1_000_000, ratio(0.1, 0.1), arith(0.01, 0.1, 0.0));
    assert!(c.failed);

    // failed, with a pass recorded within the delay: the verdict clears
    c.failed = true;
    c.tas.last_pass = 500_000_000;
    c.check_airspeed_innovation(501_000_000, ratio(0.1, 0.1), arith(0.01, 0.1, 0.0));
    assert!(!c.failed);

    // clean long after any recorded failure: stays clean
    c.check_airspeed_innovation(601_000_001, ratio(0.1, 0.1), arith(0.01, 0.1, 0.0));
    assert!(!c.failed);

    // failed, with the pass older than the delay: stays failed
    c.failed = true;
    c.tas.last_pass = 500_000_000;
    c.check_airspeed_innovation(501_000_001, ratio(0.1, 0.1), arith(0.01, 0.1, 0.0));
    assert!(c.failed);
}

#[test]
fn run_cycle_composes_the_checks() {
    let mut v = validator(false, 1_000_000, 1_000_000);
    let quantities = CycleArithmetic {
        eas: s(20.0),
        tas: s(22.0),
        load_factor_raw: s(0.9),
        innovation: arith(0.01, 0.0, 0.0),
    };
    v.run_cycle(input_at(1_000_000, 999_000, true), quantities);

    assert_eq!(v.time_last_airspeed, 1_000_000);
    assert_eq!(v.previous_timestamp, 999_000);
    assert!(v.innovation_check.in_fixed_wing_flight);
    assert_eq!(f(v.ias), 20.0);
    assert_eq!(f(v.eas), 20.0);
    assert_eq!(f(v.tas), 22.0);
    assert_eq!(f(v.load_factor_ratio), 0.9);
    assert!(!v.load_factor_check_failed);

    // the zeroed fail point counts as recent, so the innovation
    // verdict starts failed and the failing flag follows it
    assert!(v.innovation_check.failed);
    assert!(v.airspeed_failing);
    // a single failing check does not yet invalidate
    assert!(v.airspeed_valid);

    let _ = AirspeedIndex::FirstSensor;
}
