//! The settings rules of the joint-space (RRT) and Cartesian path planners.
use vstd::prelude::*;
use crate::error::ValueError;
use crate::ieee754::{finite64, is_finite64, is_positive64, positive64};
use crate::validate::{all_finite64, validate_joints, validate_positive_angle};

verus! {

/// Why RRT planner settings are refused, if they are.
pub open spec fn rrt_settings_error(step_size_joint_space: u64, max_try: usize) -> Option<
    Seq<char>,
> {
    if !(finite64(step_size_joint_space) && positive64(step_size_joint_space)) {
        Some("step_size_joint_space"@ + " must be positive"@)
    } else if max_try == 0 {
        Some("max_try must be positive"@)
    } else {
        None
    }
}

/// Checks RRT planner settings as given by the caller: a positive, finite
/// step in joint space, and at least one expansion attempt.
pub fn validate_rrt_settings(step_size_joint_space: u64, max_try: usize) -> (r: Result<
    (),
    ValueError,
>)
    ensures
        match rrt_settings_error(step_size_joint_space, max_try) {
            Some(m) => r matches Err(e) && e@ == m,
            None => r is Ok,
        },
{
    validate_positive_angle(step_size_joint_space, "step_size_joint_space")?;
    if max_try == 0 {
        return Err(ValueError::new("max_try must be positive"));
    }
    Ok(())
}

/// Why Cartesian planner settings are refused, if they are.
pub open spec fn cartesian_settings_error(
    check_step_m: u64,
    transition_coefficients: Seq<u64>,
    check_step_rad: u64,
    max_transition_cost: u64,
) -> Option<Seq<char>> {
    if !(finite64(check_step_m) && positive64(check_step_m)) {
        Some("check_step_m must be positive"@)
    } else if !all_finite64(transition_coefficients) {
        Some("joint values must be finite"@)
    } else if !(finite64(check_step_rad) && positive64(check_step_rad)) {
        Some("check_step_rad"@ + " must be positive"@)
    } else if !(finite64(max_transition_cost) && positive64(max_transition_cost)) {
        Some("max_transition_cost"@ + " must be positive"@)
    } else {
        None
    }
}

/// Checks Cartesian planner settings as given by the caller: a positive
/// linear check step, finite transition coefficients, and a positive
/// angular check step and transition cost bound.
pub fn validate_cartesian_settings(
    check_step_m: u64,
    transition_coefficients: &[u64; 6],
    check_step_rad: u64,
    max_transition_cost: u64,
) -> (r: Result<(), ValueError>)
    ensures
        match cartesian_settings_error(
            check_step_m,
            transition_coefficients@,
            check_step_rad,
            max_transition_cost,
        ) {
            Some(m) => r matches Err(e) && e@ == m,
            None => r is Ok,
        },
{
    if !is_finite64(check_step_m) || !is_positive64(check_step_m) {
        return Err(ValueError::new("check_step_m must be positive"));
    }
    validate_joints(transition_coefficients)?;
    validate_positive_angle(check_step_rad, "check_step_rad")?;
    validate_positive_angle(max_transition_cost, "max_transition_cost")?;
    Ok(())
}

/// Path planning needs a robot with joint constraints; refuses RRT planning
/// on a robot without them.
pub fn require_constraints_for_rrt(has_constraints: bool) -> (r: Result<(), ValueError>)
    ensures
        r is Ok <==> has_constraints,
        r matches Err(e) ==> e@
            == "RRT planning requires KinematicsWithShape configured with Constraints"@,
{
    if !has_constraints {
        return Err(
            ValueError::new("RRT planning requires KinematicsWithShape configured with Constraints"),
        );
    }
    Ok(())
}

/// Path planning needs a robot with joint constraints; refuses Cartesian
/// planning on a robot without them.
pub fn require_constraints_for_cartesian(has_constraints: bool) -> (r: Result<(), ValueError>)
    ensures
        r is Ok <==> has_constraints,
        r matches Err(e) ==> e@
            == "Cartesian planning requires KinematicsWithShape configured with Constraints"@,
{
    if !has_constraints {
        return Err(
            ValueError::new(
                "Cartesian planning requires KinematicsWithShape configured with Constraints",
            ),
        );
    }
    Ok(())
}

/// With a finite positive step, every positive number of attempts is
/// accepted, and only zero attempts are refused.
pub proof fn lemma_rrt_refuses_only_zero_attempts(step_size_joint_space: u64, max_try: usize)
    requires
        finite64(step_size_joint_space),
        positive64(step_size_joint_space),
    ensures
        rrt_settings_error(step_size_joint_space, max_try) is None <==> max_try >= 1,
{
}

/// Two positive attempt counts get the same verdict.
pub proof fn lemma_rrt_attempt_count_beyond_one_is_irrelevant(
    step_size_joint_space: u64,
    a: usize,
    b: usize,
)
    requires
        a >= 1,
        b >= 1,
    ensures
        rrt_settings_error(step_size_joint_space, a) == rrt_settings_error(step_size_joint_space, b),
{
}

/// Finite positive steps and cost bound with finite transition coefficients
/// are always accepted by the Cartesian planner, however small or large.
pub proof fn lemma_cartesian_accepts_positive_settings(
    check_step_m: u64,
    transition_coefficients: Seq<u64>,
    check_step_rad: u64,
    max_transition_cost: u64,
)
    requires
        finite64(check_step_m) && positive64(check_step_m),
        forall|i: int|
            0 <= i < transition_coefficients.len() ==> finite64(#[trigger] transition_coefficients[i]),
        finite64(check_step_rad) && positive64(check_step_rad),
        finite64(max_transition_cost) && positive64(max_transition_cost),
    ensures
        cartesian_settings_error(check_step_m, transition_coefficients, check_step_rad, max_transition_cost)
            is None,
{
}

} // verus!
