use spherical_wrist::annotated_joints::{move_kind_name, AnnotatedJoints, MoveKind};
use spherical_wrist::kinematic_model::KinematicModel;
use spherical_wrist::parallelogram::Parallelogram;
use spherical_wrist::planners::{
    require_constraints_for_cartesian, require_constraints_for_rrt, validate_cartesian_settings,
    validate_rrt_settings,
};
use spherical_wrist::constraints::validate_constraint_limits;
use spherical_wrist::robot::{
    first_solution, gantry_plan, linear_axis_plan, linear_axis_translation, select_tool,
    transpose_option, AxisMove, ToolSource,
};

fn bits6(values: [f64; 6]) -> [u64; 6] {
    values.map(f64::to_bits)
}

#[test]
fn kinematic_model_requires_finite_parameters_and_offsets() {
    let one = 1.0f64.to_bits();
    let model = KinematicModel::new(
        400.0f64.to_bits(),
        (-250.0f64).to_bits(),
        0,
        830.0f64.to_bits(),
        1175.0f64.to_bits(),
        1444.0f64.to_bits(),
        230.0f64.to_bits(),
        bits6([0.0, 0.0, -90.0, 0.0, 0.0, 0.0]),
        [true, false, true, true, false, true],
    )
    .unwrap();
    assert_eq!(f64::from_bits(model.parameter_values()[1]), -250.0);
    assert_eq!(model.offsets()[2], (-90.0f64).to_bits());
    assert_eq!(model.sign_corrections(), [-1, 1, -1, -1, 1, -1]);
    assert_eq!(model.flip_axes(), [true, false, true, true, false, true]);

    for position in 0..13 {
        let mut values = [one; 13];
        values[position] = f64::INFINITY.to_bits();
        let mut offsets = [one; 6];
        offsets.copy_from_slice(&values[7..]);
        let error = KinematicModel::new(
            values[0], values[1], values[2], values[3], values[4], values[5], values[6], offsets,
            [false; 6],
        )
        .err()
        .unwrap();
        assert_eq!(error.message(), "kinematic parameters and offsets must be finite");
    }
}

#[test]
fn parallelogram_rules_are_checked_in_order() {
    let p = Parallelogram::new(1.0f64.to_bits(), 1, 2).unwrap();
    assert_eq!((p.driven(), p.coupled()), (1, 2));
    assert_eq!(f64::from_bits(p.scaling()), 1.0);
    assert!(p.validate().is_ok());

    let nan = f64::NAN.to_bits();
    assert_eq!(
        Parallelogram::new(nan, 6, 6).err().unwrap().message(),
        "parallelogram scaling must be finite"
    );
    assert_eq!(
        Parallelogram::new(0, 6, 6).err().unwrap().message(),
        "parallelogram joint indices must be in the range 0..6"
    );
    assert_eq!(
        Parallelogram::new(0, 1, 6).err().unwrap().message(),
        "parallelogram joint indices must be in the range 0..6"
    );
    assert_eq!(
        Parallelogram::new(0, 3, 3).err().unwrap().message(),
        "parallelogram driven and coupled joints must be different"
    );
}

#[test]
fn annotated_joints_flags_and_motion() {
    let joints = bits6([1.0, 2.0, 3.0, 4.0, 5.0, 6.0]);
    let step = AnnotatedJoints::new(joints, 0b1010_0100, MoveKind::Cartesian);
    assert_eq!(step.joints(), joints);
    assert_eq!(step.flags(), 0b1010_0100);
    assert_eq!(step.move_into(), "cartesian");
    assert!(step.has_flag(0));
    assert!(step.has_flag(0b100));
    assert!(step.has_flag(0b1000_0100));
    assert!(step.has_flag(0b1010_0100));
    assert!(!step.has_flag(0b10));
    assert!(!step.has_flag(0b110));
    assert_eq!(move_kind_name(MoveKind::Joint), "joint");
    assert_eq!(AnnotatedJoints::new(joints, 0, MoveKind::Joint).move_into(), "joint");
}

#[test]
fn rrt_settings_need_positive_step_and_attempts() {
    assert!(validate_rrt_settings(3.0f64.to_bits(), 2000).is_ok());
    for step in [0.0, -0.0, -3.0, f64::NAN, f64::INFINITY] {
        assert_eq!(
            validate_rrt_settings(step.to_bits(), 0).unwrap_err().message(),
            "step_size_joint_space must be positive"
        );
    }
    assert_eq!(
        validate_rrt_settings(f64::MIN_POSITIVE.to_bits(), 0).unwrap_err().message(),
        "max_try must be positive"
    );
}

#[test]
fn cartesian_settings_are_checked_in_order() {
    let coefficients = bits6([1.2, 1.1, 1.1, 0.9, 0.9, 0.8]);
    let three = 3.0f64.to_bits();
    assert!(validate_cartesian_settings(0.02f64.to_bits(), &coefficients, three, three).is_ok());
    let nan = f64::NAN.to_bits();
    let bad_coefficients = bits6([1.0, 1.0, f64::INFINITY, 1.0, 1.0, 1.0]);
    assert_eq!(
        validate_cartesian_settings(0, &bad_coefficients, nan, nan).unwrap_err().message(),
        "check_step_m must be positive"
    );
    assert_eq!(
        validate_cartesian_settings(three, &bad_coefficients, nan, nan).unwrap_err().message(),
        "joint values must be finite"
    );
    assert_eq!(
        validate_cartesian_settings(three, &coefficients, nan, nan).unwrap_err().message(),
        "check_step_rad must be positive"
    );
    assert_eq!(
        validate_cartesian_settings(three, &coefficients, three, (-1.0f64).to_bits())
            .unwrap_err()
            .message(),
        "max_transition_cost must be positive"
    );
}

#[test]
fn planning_requires_constraints() {
    assert!(require_constraints_for_rrt(true).is_ok());
    assert!(require_constraints_for_cartesian(true).is_ok());
    assert_eq!(
        require_constraints_for_rrt(false).unwrap_err().message(),
        "RRT planning requires KinematicsWithShape configured with Constraints"
    );
    assert_eq!(
        require_constraints_for_cartesian(false).unwrap_err().message(),
        "Cartesian planning requires KinematicsWithShape configured with Constraints"
    );
}

#[test]
fn constraint_limits_check_the_weight_first() {
    let limits = bits6([-90.0, -90.0, -90.0, -90.0, -90.0, -90.0]);
    let bad = bits6([0.0, 0.0, 0.0, f64::NAN, 0.0, 0.0]);
    assert!(validate_constraint_limits(&limits, &limits, 0.5f64.to_bits()).is_ok());
    assert_eq!(
        validate_constraint_limits(&bad, &bad, f64::INFINITY.to_bits()).unwrap_err().message(),
        "sorting_weight must be finite"
    );
    assert_eq!(
        validate_constraint_limits(&limits, &bad, 0).unwrap_err().message(),
        "joint values must be finite"
    );
}

#[test]
fn a_call_tool_and_a_constructor_tool_exclude_each_other() {
    let error = select_tool(Some("ctor"), Some(7)).err().unwrap();
    assert_eq!(
        error.message(),
        "robot already has a constructor tool; pass either constructor tool or per-call tool/ee_transform"
    );
    assert!(matches!(select_tool(Some("ctor"), None::<i32>), Ok(Some(ToolSource::Constructor("ctor")))));
    assert!(matches!(select_tool(None::<&str>, Some(7)), Ok(Some(ToolSource::Call(7)))));
    assert!(matches!(select_tool(None::<&str>, None::<i32>), Ok(None)));
}

#[test]
fn gantry_translation_needs_a_gantry() {
    assert!(matches!(gantry_plan(Some(1), Some(2)), Ok(Some(AxisMove::Moved(1, 2)))));
    assert!(matches!(gantry_plan(Some(1), None::<i32>), Ok(Some(AxisMove::Fixed(1)))));
    assert!(matches!(gantry_plan(None::<i32>, None::<i32>), Ok(None)));
    assert_eq!(
        gantry_plan(None::<i32>, Some(2)).err().unwrap().message(),
        "gantry_translation requires a Robot configured with gantry"
    );
}

#[test]
fn linear_axis_distance_needs_an_axis_and_a_finite_value() {
    let d = 250.0f64.to_bits();
    assert!(matches!(linear_axis_plan(Some('x'), Some(d)), Ok(Some(AxisMove::Moved('x', v))) if v == d));
    assert!(matches!(linear_axis_plan(Some('x'), None), Ok(Some(AxisMove::Fixed('x')))));
    assert!(matches!(linear_axis_plan(None::<char>, None), Ok(None)));
    assert_eq!(
        linear_axis_plan(Some('x'), Some(f64::NAN.to_bits())).err().unwrap().message(),
        "linear_axis_distance must be finite"
    );
    assert_eq!(
        linear_axis_plan(None::<char>, Some(d)).err().unwrap().message(),
        "linear_axis_distance requires a Robot configured with linear_axis"
    );
    assert_eq!(linear_axis_translation(0, d), [d, 0, 0]);
    assert_eq!(linear_axis_translation(1, d), [0, d, 0]);
    assert_eq!(linear_axis_translation(2, d), [0, 0, d]);
}

#[test]
fn transpose_option_applies_the_conversion_to_present_values() {
    let double = |x: i32| -> Result<i32, String> { Ok(x * 2) };
    assert_eq!(transpose_option(Some(21), double), Ok(Some(42)));
    assert_eq!(transpose_option(None, double), Ok(None));
    let refuse = |_: i32| -> Result<i32, String> { Err("no".to_string()) };
    assert_eq!(transpose_option(Some(1), refuse), Err("no".to_string()));
}

#[test]
fn the_first_solution_is_displayed() {
    assert_eq!(first_solution(vec![[1u64; 6], [2u64; 6]]).unwrap(), [1u64; 6]);
    assert_eq!(
        first_solution(Vec::<[u64; 6]>::new()).unwrap_err().message(),
        "pose cannot be resolved to a collision-free joint position"
    );
}
