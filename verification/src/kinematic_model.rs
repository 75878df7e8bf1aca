//! OPW geometric parameters of a robot arm, with joint offsets and axis
//! direction flips.
use vstd::prelude::*;
use crate::error::ValueError;
use crate::validate::{all_finite64, first_non_finite};

verus! {

/// The rotation direction correction of a joint: -1 when its axis is
/// flipped, 1 otherwise.
pub open spec fn sign_correction(flip: bool) -> i8 {
    if flip {
        -1i8
    } else {
        1i8
    }
}

/// The OPW parameters a1, a2, b, c1, c2, c3, c4 (binary64 bit patterns),
/// six joint offsets (binary64, in the unit the robot is built with) and six
/// axis flip flags. Every parameter and offset is finite.
#[derive(Clone, Copy, Debug)]
pub struct KinematicModel {
    a1: u64,
    a2: u64,
    b: u64,
    c1: u64,
    c2: u64,
    c3: u64,
    c4: u64,
    offsets: [u64; 6],
    flip_axes: [bool; 6],
}

impl KinematicModel {
    #[verifier::type_invariant]
    spec fn finite(self) -> bool {
        all_finite64(self.parameters()) && all_finite64(self.offsets@)
    }

    /// The seven geometric parameters, in the order a1, a2, b, c1, c2, c3, c4.
    pub closed spec fn parameters(self) -> Seq<u64> {
        seq![self.a1, self.a2, self.b, self.c1, self.c2, self.c3, self.c4]
    }

    /// The six joint offsets.
    pub closed spec fn joint_offsets(self) -> Seq<u64> {
        self.offsets@
    }

    /// The six axis flip flags.
    pub closed spec fn flips(self) -> Seq<bool> {
        self.flip_axes@
    }

    /// A model from its parameters; refused when a parameter or an offset is
    /// not finite.
    pub fn new(
        a1: u64,
        a2: u64,
        b: u64,
        c1: u64,
        c2: u64,
        c3: u64,
        c4: u64,
        offsets: [u64; 6],
        flip_axes: [bool; 6],
    ) -> (r: Result<KinematicModel, ValueError>)
        ensures
            r is Ok <==> all_finite64(seq![a1, a2, b, c1, c2, c3, c4]) && all_finite64(offsets@),
            r matches Ok(m) ==> m.parameters() == seq![a1, a2, b, c1, c2, c3, c4]
                && m.joint_offsets() == offsets@ && m.flips() == flip_axes@,
            r matches Err(e) ==> e@ == "kinematic parameters and offsets must be finite"@,
    {
        let values = [
            a1,
            a2,
            b,
            c1,
            c2,
            c3,
            c4,
            offsets[0],
            offsets[1],
            offsets[2],
            offsets[3],
            offsets[4],
            offsets[5],
        ];
        let first = first_non_finite(values.as_slice(), 0);
        proof {
            let p = seq![a1, a2, b, c1, c2, c3, c4];
            if all_finite64(p) && all_finite64(offsets@) {
                assert forall|j: int| 0 <= j < 13 implies crate::ieee754::finite64(
                    #[trigger] values@[j],
                ) by {
                    if j < 7 {
                        assert(values@[j] == p[j]);
                    } else {
                        assert(values@[j] == offsets@[j - 7]);
                    }
                }
            }
            if first is None {
                assert forall|j: int| 0 <= j < 7 implies crate::ieee754::finite64(#[trigger] p[j]) by {
                    assert(values@[j] == p[j]);
                }
                assert forall|j: int| 0 <= j < 6 implies crate::ieee754::finite64(
                    #[trigger] offsets@[j],
                ) by {
                    assert(values@[j + 7] == offsets@[j]);
                }
            }
        }
        if first.is_some() {
            return Err(ValueError::new("kinematic parameters and offsets must be finite"));
        }
        let m = KinematicModel { a1, a2, b, c1, c2, c3, c4, offsets, flip_axes };
        assert(m.parameters() =~= seq![a1, a2, b, c1, c2, c3, c4]);
        Ok(m)
    }

    /// The seven geometric parameters, in the order a1, a2, b, c1, c2, c3, c4.
    pub fn parameter_values(&self) -> (p: [u64; 7])
        ensures
            p@ == self.parameters(),
    {
        let p = [self.a1, self.a2, self.b, self.c1, self.c2, self.c3, self.c4];
        assert(p@ =~= self.parameters());
        p
    }

    /// The six joint offsets.
    pub fn offsets(&self) -> (o: [u64; 6])
        ensures
            o@ == self.joint_offsets(),
    {
        self.offsets
    }

    /// The six axis flip flags.
    pub fn flip_axes(&self) -> (f: [bool; 6])
        ensures
            f@ == self.flips(),
    {
        self.flip_axes
    }

    /// The rotation direction of each joint as the solver takes it: -1 for a
    /// flipped axis, 1 otherwise.
    pub fn sign_corrections(&self) -> (s: [i8; 6])
        ensures
            forall|i: int| 0 <= i < 6 ==> #[trigger] s[i] == sign_correction(self.flips()[i]),
    {
        let mut s: [i8; 6] = [1; 6];
        let mut i: usize = 0;
        while i < 6
            invariant
                i <= 6,
                forall|j: int| 0 <= j < i ==> #[trigger] s[j] == sign_correction(self.flip_axes@[j]),
            decreases 6 - i,
        {
            s[i] = if self.flip_axes[i] {
                -1
            } else {
                1
            };
            i = i + 1;
        }
        s
    }
}

} // verus!
