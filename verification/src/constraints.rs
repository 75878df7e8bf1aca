//! Joint constraints: per-joint rotation limits and the weight that ranks
//! inverse-kinematics solutions.
use vstd::prelude::*;
use rs_opw_kinematics::constraints::Constraints as EngineConstraints;
use crate::error::ValueError;
use crate::ieee754::{finite64, is_finite64};
use crate::validate::{all_finite64, validate_joints};

verus! {

#[verifier::external_type_specification]
#[verifier::external_body]
pub struct ExEngineConstraints(EngineConstraints);

/// Why constraint limits are refused, if they are.
pub open spec fn constraints_error(
    from_limits: Seq<u64>,
    to_limits: Seq<u64>,
    sorting_weight: u64,
) -> Option<Seq<char>> {
    if !finite64(sorting_weight) {
        Some("sorting_weight must be finite"@)
    } else if !all_finite64(from_limits) || !all_finite64(to_limits) {
        Some("joint values must be finite"@)
    } else {
        None
    }
}

/// Checks the limits and sorting weight of joint constraints as given by
/// the caller: all finite, the weight checked first.
pub fn validate_constraint_limits(
    from_limits: &[u64; 6],
    to_limits: &[u64; 6],
    sorting_weight: u64,
) -> (r: Result<(), ValueError>)
    ensures
        match constraints_error(from_limits@, to_limits@, sorting_weight) {
            Some(m) => r matches Err(e) && e@ == m,
            None => r is Ok,
        },
{
    if !is_finite64(sorting_weight) {
        return Err(ValueError::new("sorting_weight must be finite"));
    }
    validate_joints(from_limits)?;
    validate_joints(to_limits)?;
    Ok(())
}

/// Joint constraints as the kinematics engine holds them.
#[derive(Clone, Copy)]
pub struct Constraints {
    constraints: EngineConstraints,
}

impl Constraints {
    /// The engine's constraints.
    pub closed spec fn engine(self) -> EngineConstraints {
        self.constraints
    }

    /// Wraps constraints built by the engine.
    pub fn from_engine(constraints: EngineConstraints) -> (c: Constraints)
        ensures
            c.engine() == constraints,
    {
        Constraints { constraints }
    }

    /// The engine's constraints, to configure a solver with.
    pub fn to_rs_constraints(self) -> (c: EngineConstraints)
        ensures
            c == self.engine(),
    {
        self.constraints
    }
}

/// Finite limits are accepted whatever their order: a from limit above its
/// to limit, a range that wraps around zero, is as valid as one below it.
pub proof fn lemma_finite_limits_are_accepted(
    from_limits: Seq<u64>,
    to_limits: Seq<u64>,
    sorting_weight: u64,
)
    requires
        finite64(sorting_weight),
        forall|i: int| 0 <= i < from_limits.len() ==> finite64(#[trigger] from_limits[i]),
        forall|i: int| 0 <= i < to_limits.len() ==> finite64(#[trigger] to_limits[i]),
    ensures
        constraints_error(from_limits, to_limits, sorting_weight) is None,
{
}

/// Swapping the from and to limits never changes whether the constraints
/// are accepted, nor the refusal.
pub proof fn lemma_limit_order_is_irrelevant(
    from_limits: Seq<u64>,
    to_limits: Seq<u64>,
    sorting_weight: u64,
)
    ensures
        constraints_error(from_limits, to_limits, sorting_weight) == constraints_error(
            to_limits,
            from_limits,
            sorting_weight,
        ),
{
}

} // verus!
