//! A Jacobian computed at a joint position, with the joint unit of the
//! robot it was computed for.
use vstd::prelude::*;
use rs_opw_kinematics::jacobian::Jacobian as EngineJacobian;
use crate::text::{bool_text, push_bool};

verus! {

#[verifier::external_type_specification]
#[verifier::external_body]
pub struct ExEngineJacobian(EngineJacobian);

/// A 6x6 Jacobian of the engine, and whether the robot it belongs to takes
/// joints in degrees.
pub struct Jacobian {
    jacobian: EngineJacobian,
    degrees: bool,
}

impl Jacobian {
    /// The engine's Jacobian.
    pub closed spec fn engine(&self) -> &EngineJacobian {
        &self.jacobian
    }

    /// Whether joint values are in degrees.
    pub closed spec fn in_degrees(&self) -> bool {
        self.degrees
    }

    /// A Jacobian computed by the engine, for a robot with the given unit.
    pub fn from_parts(jacobian: EngineJacobian, degrees: bool) -> (j: Jacobian)
        ensures
            *j.engine() == jacobian,
            j.in_degrees() == degrees,
    {
        Jacobian { jacobian, degrees }
    }

    /// The engine's Jacobian.
    pub fn engine_jacobian(&self) -> (j: &EngineJacobian)
        ensures
            j == self.engine(),
    {
        &self.jacobian
    }

    /// Whether joint values are in degrees.
    pub fn degrees(&self) -> (d: bool)
        ensures
            d == self.in_degrees(),
    {
        self.degrees
    }

    /// Whether joint-space results must be turned from radians into degrees:
    /// the robot works in degrees and the caller did not ask for radians.
    pub fn converts_to_degrees(&self, radians: bool) -> (c: bool)
        ensures
            c == (self.in_degrees() && !radians),
    {
        self.degrees && !radians
    }

    /// `Jacobian(degrees=true)` or `Jacobian(degrees=false)`.
    #[allow(non_snake_case)]
    pub fn __repr__(&self) -> (s: String)
        ensures
            s@ == "Jacobian(degrees="@ + bool_text(self.in_degrees()) + ")"@,
    {
        let mut s = String::new();
        s.append("Jacobian(degrees=");
        push_bool(&mut s, self.degrees);
        s.append(")");
        s
    }
}

} // verus!
