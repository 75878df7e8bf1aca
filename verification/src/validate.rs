use vstd::prelude::*;
use crate::error::ValueError;
use crate::ieee754::{
    finite64, finite32, is_finite32, is_finite64, is_less32, is_less64, is_nan64, is_positive64,
    key64, lemma_negation64, less64, nan64, negative32, positive64, zero32,
};

verus! {

/// Every entry of the sequence is a finite binary64 value.
pub open spec fn all_finite64(values: Seq<u64>) -> bool {
    forall|i: int| 0 <= i < values.len() ==> finite64(#[trigger] values[i])
}

/// The index of the first non-finite entry at or after `from`, if any.
pub(crate) fn first_non_finite(values: &[u64], from: usize) -> (r: Option<usize>)
    requires
        from <= values@.len(),
    ensures
        match r {
            Some(i) => from <= i < values@.len() && !finite64(values@[i as int]) && forall|
                j: int,
            |
                from <= j < i ==> finite64(#[trigger] values@[j]),
            None => forall|j: int| from <= j < values@.len() ==> finite64(#[trigger] values@[j]),
        },
{
    let mut i = from;
    while i < values.len()
        invariant
            from <= i <= values@.len(),
            forall|j: int| from <= j < i ==> finite64(#[trigger] values@[j]),
        decreases values@.len() - i,
    {
        if !is_finite64(values[i]) {
            return Some(i);
        }
        i = i + 1;
    }
    None
}

/// Checks that every joint value is finite.
pub fn validate_joints(joints: &[u64; 6]) -> (r: Result<(), ValueError>)
    ensures
        r is Ok <==> all_finite64(joints@),
        r matches Err(e) ==> e@ == "joint values must be finite"@,
{
    match first_non_finite(joints.as_slice(), 0) {
        Some(_) => Err(ValueError::new("joint values must be finite")),
        None => Ok(()),
    }
}


/// Entries `1..` of the sequence are finite binary64 values.
pub open spec fn tail_finite64(values: Seq<u64>) -> bool {
    forall|i: int| 1 <= i < values.len() ==> finite64(#[trigger] values[i])
}

/// Whether `joints` are acceptable as previous joints: all finite, or a NaN
/// in J1 (the marker for "no previous position, prefer the constraint
/// centers") followed by finite values.
pub open spec fn previous_joints_ok(joints: Seq<u64>) -> bool {
    if nan64(joints[0]) {
        tail_finite64(joints)
    } else {
        all_finite64(joints)
    }
}

/// Checks joints given as the previous position of the robot. A NaN in J1
/// is accepted as the constraint-centered marker when the other values are
/// finite.
pub fn validate_previous_joints(joints: &[u64; 6]) -> (r: Result<(), ValueError>)
    ensures
        r is Ok <==> previous_joints_ok(joints@),
        r matches Err(e) ==> e@ == (if nan64(joints@[0]) {
            "CONSTRAINT_CENTERED previous joints marker must have finite values after J1"@
        } else {
            "joint values must be finite"@
        }),
{
    if is_nan64(joints[0]) {
        match first_non_finite(joints.as_slice(), 1) {
            Some(_) => {
                return Err(
                    ValueError::new(
                        "CONSTRAINT_CENTERED previous joints marker must have finite values after J1",
                    ),
                );
            },
            None => {
                return Ok(());
            },
        }
    }
    validate_joints(joints)
}

/// Checks that every entry of a six-value vector is finite.
pub fn validate_vector6(values: &[u64; 6], name: &str) -> (r: Result<(), ValueError>)
    ensures
        r is Ok <==> all_finite64(values@),
        r matches Err(e) ==> e@ == name@ + " values must be finite"@,
{
    match first_non_finite(values.as_slice(), 0) {
        Some(_) => Err(ValueError::named(name, " values must be finite")),
        None => Ok(()),
    }
}

/// Checks that every entry of a three-value vector is finite.
pub fn validate_vector3_values(values: &[u64; 3], name: &str) -> (r: Result<(), ValueError>)
    ensures
        r is Ok <==> all_finite64(values@),
        r matches Err(e) ==> e@ == name@ + " values must be finite"@,
{
    match first_non_finite(values.as_slice(), 0) {
        Some(_) => Err(ValueError::named(name, " values must be finite")),
        None => Ok(()),
    }
}

/// Checks the finite-difference step of a Jacobian: finite and greater
/// than zero. Returns the step unchanged.
pub fn validate_jacobian_epsilon(epsilon: u64) -> (r: Result<u64, ValueError>)
    ensures
        r is Ok <==> finite64(epsilon) && positive64(epsilon),
        r matches Ok(v) ==> v == epsilon,
        r matches Err(e) ==> e@ == "epsilon must be positive"@,
{
    if !is_finite64(epsilon) || !is_positive64(epsilon) {
        return Err(ValueError::new("epsilon must be positive"));
    }
    Ok(epsilon)
}

/// Checks an angle given by the caller: it must be finite.
pub fn validate_angle(angle: u64, name: &str) -> (r: Result<u64, ValueError>)
    ensures
        r is Ok <==> finite64(angle),
        r matches Ok(v) ==> v == angle,
        r matches Err(e) ==> e@ == name@ + " must be finite"@,
{
    if !is_finite64(angle) {
        return Err(ValueError::named(name, " must be finite"));
    }
    Ok(angle)
}

/// Checks an angle that must be finite and greater than zero.
pub fn validate_positive_angle(angle: u64, name: &str) -> (r: Result<u64, ValueError>)
    ensures
        r is Ok <==> finite64(angle) && positive64(angle),
        r matches Ok(v) ==> v == angle,
        r matches Err(e) ==> e@ == name@ + " must be positive"@,
{
    if !is_finite64(angle) || !is_positive64(angle) {
        return Err(ValueError::named(name, " must be positive"));
    }
    Ok(angle)
}

/// Checks an index that identifies a collision body: collision reports
/// carry indices as unsigned 16-bit values.
pub fn validate_collision_index(index: usize) -> (r: Result<(), ValueError>)
    ensures
        r is Ok <==> index <= u16::MAX,
        r matches Err(e) ==> e@ == "collision indices must fit in an unsigned 16-bit value"@,
{
    if index > 0xffff {
        return Err(ValueError::new("collision indices must fit in an unsigned 16-bit value"));
    }
    Ok(())
}

/// Checks the axis index of an external linear axis (x, y or z).
pub fn validate_linear_axis(axis: usize) -> (r: Result<(), ValueError>)
    ensures
        r is Ok <==> axis < 3,
        r matches Err(e) ==> e@ == "linear axis index must be in the range 0..3"@,
{
    if axis >= 3 {
        return Err(ValueError::new("linear axis index must be in the range 0..3"));
    }
    Ok(())
}

/// Whether `(from, to)` is an acceptable closed interval: both bounds finite
/// and `from` not greater than `to`.
pub open spec fn range_ok(range: (u64, u64)) -> bool {
    finite64(range.0) && finite64(range.1) && !less64(range.1, range.0)
}

/// The error for a rejected interval.
pub open spec fn range_error(range: (u64, u64), name: Seq<char>) -> Seq<char> {
    if !finite64(range.0) || !finite64(range.1) {
        name + " values must be finite"@
    } else {
        name + " lower bound must not exceed upper bound"@
    }
}

/// Checks one axis of a TCP bounding box, given as `(from, to)`. Returns the
/// interval unchanged.
pub fn tcp_range(range: (u64, u64), name: &str) -> (r: Result<(u64, u64), ValueError>)
    ensures
        r is Ok <==> range_ok(range),
        r matches Ok(v) ==> v == range,
        r matches Err(e) ==> e@ == range_error(range, name@),
{
    let (from, to) = range;
    if !is_finite64(from) || !is_finite64(to) {
        return Err(ValueError::named(name, " values must be finite"));
    }
    if is_less64(to, from) {
        return Err(ValueError::named(name, " lower bound must not exceed upper bound"));
    }
    Ok((from, to))
}

/// Checks the three axes of a TCP bounding box, in order; the first
/// rejected axis is reported as `tcp_box[i]`.
pub fn tcp_box_to_ranges(tcp_box: [(u64, u64); 3]) -> (r: Result<[(u64, u64); 3], ValueError>)
    ensures
        r is Ok <==> forall|i: int| 0 <= i < 3 ==> range_ok(#[trigger] tcp_box[i]),
        r matches Ok(v) ==> v == tcp_box,
        r matches Err(e) ==> (if !range_ok(tcp_box[0]) {
            e@ == range_error(tcp_box[0], "tcp_box[0]"@)
        } else if !range_ok(tcp_box[1]) {
            e@ == range_error(tcp_box[1], "tcp_box[1]"@)
        } else {
            e@ == range_error(tcp_box[2], "tcp_box[2]"@)
        }),
{
    let r0 = tcp_range(tcp_box[0], "tcp_box[0]")?;
    let r1 = tcp_range(tcp_box[1], "tcp_box[1]")?;
    let r2 = tcp_range(tcp_box[2], "tcp_box[2]")?;
    let r = [r0, r1, r2];
    assert(r@ =~= tcp_box@);
    Ok(r)
}

/// Checks a value already narrowed to binary32: it must be finite.
pub fn validate_f32(narrowed: u32, name: &str) -> (r: Result<u32, ValueError>)
    ensures
        r is Ok <==> finite32(narrowed),
        r matches Ok(v) ==> v == narrowed,
        r matches Err(e) ==> e@ == name@ + " values must be finite f32 values"@,
{
    if !is_finite32(narrowed) {
        return Err(ValueError::named(name, " values must be finite f32 values"));
    }
    Ok(narrowed)
}

/// Checks a value already narrowed to binary32: finite and greater than zero.
pub fn validate_positive_f32(narrowed: u32, name: &str) -> (r: Result<u32, ValueError>)
    ensures
        r is Ok <==> finite32(narrowed) && !negative32(narrowed) && !zero32(narrowed),
        r matches Ok(v) ==> v == narrowed,
        r matches Err(e) ==> e@ == (if !finite32(narrowed) {
            name@ + " values must be finite f32 values"@
        } else {
            name@ + " must be positive"@
        }),
{
    let value = validate_f32(narrowed, name)?;
    if is_less32(0, value) {
        Ok(value)
    } else {
        Err(ValueError::named(name, " must be positive"))
    }
}

/// Checks a value already narrowed to binary32: finite and not below zero
/// (-0.0 is accepted).
pub fn validate_nonnegative_f32(narrowed: u32, name: &str) -> (r: Result<u32, ValueError>)
    ensures
        r is Ok <==> finite32(narrowed) && (!negative32(narrowed) || zero32(narrowed)),
        r matches Ok(v) ==> v == narrowed,
        r matches Err(e) ==> e@ == (if !finite32(narrowed) {
            name@ + " values must be finite f32 values"@
        } else {
            name@ + " must be non-negative"@
        }),
{
    let value = validate_f32(narrowed, name)?;
    if is_less32(value, 0) {
        Err(ValueError::named(name, " must be non-negative"))
    } else {
        Ok(value)
    }
}


/// Joints that pass as ordinary joints pass as previous joints too.
pub proof fn lemma_valid_joints_are_valid_previous_joints(joints: Seq<u64>)
    requires
        joints.len() == 6,
        all_finite64(joints),
    ensures
        previous_joints_ok(joints),
{
    assert(finite64(joints[0]));
}

/// The constraint-centered marker (a NaN in J1, finite values after it) is
/// accepted only as previous joints: ordinary joints refuse it.
pub proof fn lemma_nan_marker_only_for_previous_joints(joints: Seq<u64>)
    requires
        joints.len() == 6,
        nan64(joints[0]),
        tail_finite64(joints),
    ensures
        previous_joints_ok(joints),
        !all_finite64(joints),
{
    assert(!finite64(joints[0]));
}

/// A single finite point is an acceptable interval.
pub proof fn lemma_point_range_ok(x: u64)
    requires
        finite64(x),
    ensures
        range_ok((x, x)),
{
}

/// An interval is accepted exactly when both bounds are finite and the
/// lower one does not exceed the upper one in numeric order (the two zeros
/// being equal).
pub proof fn lemma_range_ok_is_numeric_order(from: u64, to: u64)
    ensures
        range_ok((from, to)) <==> finite64(from) && finite64(to) && key64(from) <= key64(to),
{
    if finite64(from) {
        lemma_nan64_unordered_if_finite(from);
    }
    if finite64(to) {
        lemma_nan64_unordered_if_finite(to);
    }
}

proof fn lemma_nan64_unordered_if_finite(x: u64)
    requires
        finite64(x),
    ensures
        !nan64(x),
{
}

/// Mirroring an interval about zero, `(from, to)` into `(-to, -from)`,
/// never changes whether it is accepted.
pub proof fn lemma_range_ok_mirrored(from: u64, to: u64)
    ensures
        range_ok((to ^ 0x8000_0000_0000_0000, from ^ 0x8000_0000_0000_0000)) == range_ok((from, to)),
{
    lemma_negation64(from, to);
    lemma_negation64(to, from);
}

/// Previous joints are refused when any of J2..J6 is not finite, or when J1
/// is an infinity: only a NaN in J1 is taken as the marker.
pub proof fn lemma_previous_joints_refusals(joints: Seq<u64>, i: int)
    requires
        joints.len() == 6,
    ensures
        1 <= i < 6 && !finite64(joints[i]) ==> !previous_joints_ok(joints),
        !finite64(joints[0]) && !nan64(joints[0]) ==> !previous_joints_ok(joints),
        previous_joints_ok(joints) ==> forall|j: int| 1 <= j < 6 ==> finite64(#[trigger] joints[j]),
{
}

} // verus!
