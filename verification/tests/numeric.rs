use rs_opw_kinematics::kinematic_traits::CONSTRAINT_CENTERED;
use spherical_wrist::error::ValueError;
use spherical_wrist::validate::{
    validate_f32, validate_joints, validate_nonnegative_f32, validate_positive_f32,
    validate_previous_joints,
};
use std::f64::consts::{FRAC_PI_2, FRAC_PI_4, PI, TAU};

fn assert_value_error<T>(result: Result<T, ValueError>, expected_message: &str) {
    let error = match result {
        Ok(_) => panic!("expected ValueError containing {expected_message:?}"),
        Err(error) => error,
    };
    let message = error.message();
    assert!(
        message.contains(expected_message),
        "expected {message:?} to contain {expected_message:?}"
    );
}

/// The binary64 bit patterns of six joint values.
fn bits6(values: [f64; 6]) -> [u64; 6] {
    values.map(f64::to_bits)
}

/// A binary64 value narrowed to binary32, as the front end narrows it
/// before validation, given as its bit pattern.
fn narrow(value: f64) -> u32 {
    (value as f32).to_bits()
}

#[test]
fn f32_conversion_accepts_finite_boundaries_and_preserves_signed_zero() {
    for expected in [
        -f32::MAX,
        -1.5,
        -0.0,
        0.0,
        f32::from_bits(1),
        f32::MIN_POSITIVE,
        1.5,
        f32::MAX,
    ] {
        let actual = validate_f32(narrow(f64::from(expected)), "distance").unwrap();
        assert_eq!(actual, expected.to_bits());
    }

    // Finite values may underflow when narrowing unless positivity is required.
    assert_eq!(f32::from_bits(validate_f32(narrow(f64::MIN_POSITIVE), "distance").unwrap()), 0.0);
}

#[test]
fn f32_conversion_rejects_nonfinite_values_and_overflow() {
    for value in [
        f64::NAN,
        f64::INFINITY,
        f64::NEG_INFINITY,
        f64::from(f32::MAX) * 2.0,
        -f64::from(f32::MAX) * 2.0,
        f64::MAX,
        -f64::MAX,
    ] {
        assert_value_error(
            validate_f32(narrow(value), "distance"),
            "distance values must be finite f32 values",
        );
    }
}

#[test]
fn positive_f32_accepts_smallest_subnormal_normal_and_largest_values() {
    for expected in [f32::from_bits(1), f32::MIN_POSITIVE, 1.0, f32::MAX] {
        assert_eq!(
            f32::from_bits(validate_positive_f32(narrow(f64::from(expected)), "radius").unwrap()),
            expected,
        );
    }
}

#[test]
fn positive_f32_rejects_zero_negative_and_values_that_underflow_to_zero() {
    for value in [
        0.0,
        -0.0,
        -1.0,
        -f64::from(f32::from_bits(1)),
        f64::MIN_POSITIVE,
        f64::from(f32::from_bits(1)) / 4.0,
    ] {
        assert_value_error(
            validate_positive_f32(narrow(value), "radius"),
            "radius must be positive",
        );
    }

    for value in [f64::NAN, f64::INFINITY, f64::NEG_INFINITY, f64::MAX] {
        assert_value_error(
            validate_positive_f32(narrow(value), "radius"),
            "radius values must be finite f32 values",
        );
    }
}

#[test]
fn nonnegative_f32_accepts_zero_and_positive_values() {
    for expected in [-0.0, 0.0, f32::from_bits(1), 0.25, f32::MAX] {
        assert_eq!(
            validate_nonnegative_f32(narrow(f64::from(expected)), "margin").unwrap(),
            expected.to_bits(),
        );
    }
}

#[test]
fn nonnegative_f32_rejects_negative_nonfinite_and_overflowing_values() {
    for value in [-f64::from(f32::from_bits(1)), -1.0, -f64::from(f32::MAX)] {
        assert_value_error(
            validate_nonnegative_f32(narrow(value), "margin"),
            "margin must be non-negative",
        );
    }

    for value in [f64::NAN, f64::INFINITY, f64::NEG_INFINITY, f64::MAX] {
        assert_value_error(
            validate_nonnegative_f32(narrow(value), "margin"),
            "margin values must be finite f32 values",
        );
    }
}

#[test]
fn joint_conversion_handles_degrees_and_preserves_radians() {
    let degrees = [0.0, 45.0, -90.0, 180.0, -180.0, 360.0];
    let radians = [0.0, FRAC_PI_4, -FRAC_PI_2, PI, -PI, TAU];
    assert!(validate_joints(&bits6(degrees)).is_ok());
    assert!(validate_joints(&bits6([-f64::MAX, f64::MAX, -0.0, 0.0, 1.0, -1.0])).is_ok());
    assert!(validate_joints(&bits6(radians)).is_ok());
    assert!(validate_previous_joints(&bits6(radians)).is_ok());
    assert!(validate_previous_joints(&bits6(degrees)).is_ok());
}

#[test]
fn ordinary_joints_reject_nonfinite_values_in_every_position() {
    for position in 0..6 {
        for invalid in [f64::NAN, f64::INFINITY, f64::NEG_INFINITY] {
            let mut joints = [0.0; 6];
            joints[position] = invalid;
            assert_value_error(validate_joints(&bits6(joints)), "joint values must be finite");
        }
    }
}

#[test]
fn previous_joints_accept_constraint_centered_and_nan_with_finite_tail() {
    for joints in [
        CONSTRAINT_CENTERED,
        [f64::NAN, 45.0, -90.0, 180.0, -180.0, 360.0],
        [f64::NAN, -f64::MAX, f64::MAX, -0.0, 0.0, 1.0],
    ] {
        assert!(validate_previous_joints(&bits6(joints)).is_ok());
    }

    // The NaN marker is only valid for previous joints.
    assert_value_error(
        validate_joints(&bits6(CONSTRAINT_CENTERED)),
        "joint values must be finite",
    );
}

#[test]
fn previous_joints_reject_nonfinite_values_outside_the_j1_nan_marker() {
    for position in 0..6 {
        for invalid in [f64::NAN, f64::INFINITY, f64::NEG_INFINITY] {
            if position == 0 && invalid.is_nan() {
                continue;
            }
            let mut joints = [0.0; 6];
            joints[position] = invalid;
            assert_value_error(
                validate_previous_joints(&bits6(joints)),
                "joint values must be finite",
            );
        }
    }
}

#[test]
fn previous_nan_marker_does_not_bypass_validation_of_the_remaining_joints() {
    for position in 1..6 {
        for invalid in [f64::NAN, f64::INFINITY, f64::NEG_INFINITY] {
            let mut joints = CONSTRAINT_CENTERED;
            joints[position] = invalid;
            let message =
                "CONSTRAINT_CENTERED previous joints marker must have finite values after J1";
            assert_value_error(validate_previous_joints(&bits6(joints)), message);
        }
    }
}
