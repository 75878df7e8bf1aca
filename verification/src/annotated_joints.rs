//! Waypoints of a planned path: joint values with flags that name the part
//! of the path they belong to, and the kind of motion that reaches them.
use vstd::prelude::*;

verus! {

/// The motion by which a waypoint is entered.
#[derive(Clone, Copy, Debug, PartialEq, Eq, Structural)]
pub enum MoveKind {
    /// Joint-space motion.
    Joint,
    /// Cartesian motion of the tool center point.
    Cartesian,
}

/// The name of a motion kind.
pub open spec fn move_kind_label(kind: MoveKind) -> Seq<char> {
    match kind {
        MoveKind::Joint => "joint"@,
        MoveKind::Cartesian => "cartesian"@,
    }
}

/// The name of a motion kind: `joint` or `cartesian`.
pub fn move_kind_name(kind: MoveKind) -> (r: &'static str)
    ensures
        r@ == move_kind_label(kind),
{
    match kind {
        MoveKind::Joint => "joint",
        MoveKind::Cartesian => "cartesian",
    }
}

/// Whether every bit of `flag` is set in `flags`.
pub open spec fn flag_set(flags: u32, flag: u32) -> bool {
    flags & flag == flag
}

/// A waypoint: six joint values (binary64 bit patterns, in the robot's
/// joint unit), path flags, and the name of the motion that enters it.
#[derive(Clone, Debug)]
pub struct AnnotatedJoints {
    joints: [u64; 6],
    flags: u32,
    move_into: String,
}

impl AnnotatedJoints {
    /// The joint values.
    pub closed spec fn joint_values(self) -> Seq<u64> {
        self.joints@
    }

    /// The path flags.
    pub closed spec fn flag_bits(self) -> u32 {
        self.flags
    }

    /// The name of the motion that enters the waypoint.
    pub closed spec fn motion(self) -> Seq<char> {
        self.move_into@
    }

    /// A waypoint entered by motion of kind `move_into`.
    pub fn new(joints: [u64; 6], flags: u32, move_into: MoveKind) -> (a: AnnotatedJoints)
        ensures
            a.joint_values() == joints@,
            a.flag_bits() == flags,
            a.motion() == move_kind_label(move_into),
    {
        let name = move_kind_name(move_into);
        AnnotatedJoints { joints, flags, move_into: name.to_owned() }
    }

    /// The joint values.
    pub fn joints(&self) -> (j: [u64; 6])
        ensures
            j@ == self.joint_values(),
    {
        self.joints
    }

    /// The path flags.
    pub fn flags(&self) -> (f: u32)
        ensures
            f == self.flag_bits(),
    {
        self.flags
    }

    /// The name of the motion that enters the waypoint.
    pub fn move_into(&self) -> (m: String)
        ensures
            m@ == self.motion(),
    {
        self.move_into.clone()
    }

    /// Whether every bit of `flag` is set in the waypoint's flags.
    pub fn has_flag(&self, flag: u32) -> (r: bool)
        ensures
            r == flag_set(self.flag_bits(), flag),
    {
        self.flags & flag == flag
    }
}

/// No flags are always set, and a waypoint has all of its own flags.
pub proof fn lemma_flag_set_trivial(flags: u32)
    ensures
        flag_set(flags, 0),
        flag_set(flags, flags),
{
    assert(flags & 0 == 0) by (bit_vector);
    assert(flags & flags == flags) by (bit_vector);
}

/// A combination of flags is set exactly when each of them is set.
pub proof fn lemma_flag_set_union(flags: u32, a: u32, b: u32)
    ensures
        flag_set(flags, a | b) <==> flag_set(flags, a) && flag_set(flags, b),
{
    assert((flags & (a | b) == (a | b)) <==> (flags & a == a && flags & b == b)) by (bit_vector);
}

/// A flag bit that is clear in a waypoint's flags is never reported as set.
pub proof fn lemma_clear_bit_is_not_set(flags: u32, k: u32)
    requires
        k < 32,
        flags & (1u32 << k) == 0,
    ensures
        !flag_set(flags, 1u32 << k),
{
    assert(k < 32 && flags & (1u32 << k) == 0 ==> flags & (1u32 << k) != (1u32 << k))
        by (bit_vector);
}

/// A waypoint without flags has no flag but the empty one.
pub proof fn lemma_unflagged_has_no_flag(flag: u32)
    ensures
        flag_set(0, flag) <==> flag == 0,
{
    assert((0u32 & flag == flag) <==> flag == 0) by (bit_vector);
}

/// A flag is reported exactly when none of its bits is missing from the
/// waypoint's flags.
pub proof fn lemma_flag_set_iff_no_bit_missing(flags: u32, flag: u32)
    ensures
        flag_set(flags, flag) <==> flag & !flags == 0,
{
    assert((flags & flag == flag) <==> (flag & !flags == 0)) by (bit_vector);
}

} // verus!
