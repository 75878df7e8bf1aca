//! The configuration rules of a kinematics-only robot: which tool
//! transform applies to a call, and how external axes (a gantry or a linear
//! axis) enter a pose.
use vstd::prelude::*;
use crate::error::ValueError;
use crate::ieee754::{finite64, is_finite64};

verus! {

/// Applies a fallible conversion to an optional value: `None` stays `None`,
/// `Some(v)` becomes `Some(f(v))` or the error of `f(v)`.
pub fn transpose_option<T, U, E, F: FnOnce(T) -> Result<U, E>>(value: Option<T>, f: F) -> (r:
    Result<Option<U>, E>)
    requires
        value matches Some(v) ==> f.requires((v,)),
    ensures
        match value {
            None => r matches Ok(None),
            Some(v) => match r {
                Ok(Some(u)) => f.ensures((v,), Ok::<U, E>(u)),
                Err(e) => f.ensures((v,), Err::<U, E>(e)),
                Ok(None) => false,
            },
        },
{
    match value {
        None => Ok(None),
        Some(v) => match f(v) {
            Ok(u) => Ok(Some(u)),
            Err(e) => Err(e),
        },
    }
}

/// Where the tool transform of a call comes from.
pub enum ToolSource<A, B> {
    /// The tool given when the robot was built.
    Constructor(A),
    /// The tool given to this call.
    Call(B),
}

/// Chooses the tool transform of a call: the robot's own tool or the one
/// given to the call, never both.
pub fn select_tool<A, B>(constructor_tool: Option<A>, call_tool: Option<B>) -> (r: Result<
    Option<ToolSource<A, B>>,
    ValueError,
>)
    ensures
        match (constructor_tool, call_tool) {
            (Some(_), Some(_)) => r matches Err(e) && e@
                == "robot already has a constructor tool; pass either constructor tool or per-call tool/ee_transform"@,
            (Some(t), None) => r matches Ok(Some(ToolSource::Constructor(c))) && c == t,
            (None, Some(t)) => r matches Ok(Some(ToolSource::Call(c))) && c == t,
            (None, None) => r matches Ok(None),
        },
{
    match (constructor_tool, call_tool) {
        (Some(_), Some(_)) => Err(
            ValueError::new(
                "robot already has a constructor tool; pass either constructor tool or per-call tool/ee_transform",
            ),
        ),
        (Some(t), None) => Ok(Some(ToolSource::Constructor(t))),
        (None, Some(t)) => Ok(Some(ToolSource::Call(t))),
        (None, None) => Ok(None),
    }
}

/// The transform of an external axis in one call: its base alone, or its
/// base followed by the position given to the call.
pub enum AxisMove<A, B> {
    Fixed(A),
    Moved(A, B),
}

/// The gantry transform of a call: the configured gantry base, moved by the
/// translation given to the call if any. A translation without a gantry is
/// refused.
pub fn gantry_plan<A, B>(base: Option<A>, translation: Option<B>) -> (r: Result<
    Option<AxisMove<A, B>>,
    ValueError,
>)
    ensures
        match (base, translation) {
            (Some(g), Some(t)) => r matches Ok(Some(AxisMove::Moved(x, y))) && x == g && y == t,
            (Some(g), None) => r matches Ok(Some(AxisMove::Fixed(x))) && x == g,
            (None, Some(_)) => r matches Err(e) && e@
                == "gantry_translation requires a Robot configured with gantry"@,
            (None, None) => r matches Ok(None),
        },
{
    match (base, translation) {
        (Some(g), Some(t)) => Ok(Some(AxisMove::Moved(g, t))),
        (Some(g), None) => Ok(Some(AxisMove::Fixed(g))),
        (None, Some(_)) => Err(
            ValueError::new("gantry_translation requires a Robot configured with gantry"),
        ),
        (None, None) => Ok(None),
    }
}

/// The linear-axis transform of a call: the configured axis, moved by the
/// (binary64) distance given to the call if any. A distance without a
/// configured axis, or a distance that is not finite, is refused.
pub fn linear_axis_plan<A>(config: Option<A>, distance: Option<u64>) -> (r: Result<
    Option<AxisMove<A, u64>>,
    ValueError,
>)
    ensures
        match (config, distance) {
            (Some(c), Some(d)) => if finite64(d) {
                r matches Ok(Some(AxisMove::Moved(x, y))) && x == c && y == d
            } else {
                r matches Err(e) && e@ == "linear_axis_distance must be finite"@
            },
            (Some(c), None) => r matches Ok(Some(AxisMove::Fixed(x))) && x == c,
            (None, Some(_)) => r matches Err(e) && e@
                == "linear_axis_distance requires a Robot configured with linear_axis"@,
            (None, None) => r matches Ok(None),
        },
{
    match (config, distance) {
        (Some(c), Some(d)) => {
            if !is_finite64(d) {
                return Err(ValueError::new("linear_axis_distance must be finite"));
            }
            Ok(Some(AxisMove::Moved(c, d)))
        },
        (Some(c), None) => Ok(Some(AxisMove::Fixed(c))),
        (None, Some(_)) => Err(
            ValueError::new("linear_axis_distance requires a Robot configured with linear_axis"),
        ),
        (None, None) => Ok(None),
    }
}

/// The translation (binary64 x, y, z) of a linear axis moved by `distance`
/// along axis `axis`: `distance` on that axis and 0.0 on the others.
pub fn linear_axis_translation(axis: usize, distance: u64) -> (t: [u64; 3])
    requires
        axis < 3,
    ensures
        forall|i: int| 0 <= i < 3 ==> #[trigger] t[i] == if i == axis {
            distance
        } else {
            0u64
        },
{
    if axis == 0 {
        [distance, 0, 0]
    } else if axis == 1 {
        [0, distance, 0]
    } else {
        [0, 0, distance]
    }
}


/// The first inverse-kinematics solution, the one that a pose is displayed
/// with; refused when there is none.
pub fn first_solution<T>(solutions: Vec<T>) -> (r: Result<T, ValueError>)
    ensures
        r is Ok <==> solutions@.len() > 0,
        r matches Ok(s) ==> s == solutions@[0],
        r matches Err(e) ==> e@ == "pose cannot be resolved to a collision-free joint position"@,
{
    if solutions.len() == 0 {
        return Err(ValueError::new("pose cannot be resolved to a collision-free joint position"));
    }
    let mut rest = solutions;
    Ok(rest.remove(0))
}

} // verus!
