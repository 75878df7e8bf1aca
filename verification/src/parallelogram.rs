//! A parallelogram mechanism: a coupling between two joints by which the
//! driven joint moves the coupled one.
use vstd::prelude::*;
use crate::error::ValueError;
use crate::ieee754::{finite64, is_finite64, lemma_negation64};

verus! {

/// Why a parallelogram is refused, if it is.
pub open spec fn parallelogram_error(scaling: u64, driven: usize, coupled: usize) -> Option<
    Seq<char>,
> {
    if !finite64(scaling) {
        Some("parallelogram scaling must be finite"@)
    } else if driven >= 6 || coupled >= 6 {
        Some("parallelogram joint indices must be in the range 0..6"@)
    } else if driven == coupled {
        Some("parallelogram driven and coupled joints must be different"@)
    } else {
        None
    }
}

/// A parallelogram coupling: `joints[driven]` influences `joints[coupled]`
/// in proportion `scaling` (a binary64 bit pattern).
#[derive(Clone, Copy, Debug)]
pub struct Parallelogram {
    scaling: u64,
    driven: usize,
    coupled: usize,
}

impl Parallelogram {
    /// The proportion of the coupling.
    pub closed spec fn scaling_value(self) -> u64 {
        self.scaling
    }

    /// The index of the driven joint.
    pub closed spec fn driven_joint(self) -> usize {
        self.driven
    }

    /// The index of the coupled joint.
    pub closed spec fn coupled_joint(self) -> usize {
        self.coupled
    }

    /// A parallelogram; refused when the scaling is not finite, a joint
    /// index is not below 6, or both indices are the same.
    pub fn new(scaling: u64, driven: usize, coupled: usize) -> (r: Result<
        Parallelogram,
        ValueError,
    >)
        ensures
            match parallelogram_error(scaling, driven, coupled) {
                Some(m) => r matches Err(e) && e@ == m,
                None => r matches Ok(p) && p.scaling_value() == scaling && p.driven_joint()
                    == driven && p.coupled_joint() == coupled,
            },
    {
        let p = Parallelogram { scaling, driven, coupled };
        p.validate()?;
        Ok(p)
    }

    /// Checks the coupling, with the rules of `new`.
    pub fn validate(&self) -> (r: Result<(), ValueError>)
        ensures
            match parallelogram_error(self.scaling_value(), self.driven_joint(), self.coupled_joint()) {
                Some(m) => r matches Err(e) && e@ == m,
                None => r is Ok,
            },
    {
        if !is_finite64(self.scaling) {
            return Err(ValueError::new("parallelogram scaling must be finite"));
        }
        if self.driven >= 6 || self.coupled >= 6 {
            return Err(ValueError::new("parallelogram joint indices must be in the range 0..6"));
        }
        if self.driven == self.coupled {
            return Err(
                ValueError::new("parallelogram driven and coupled joints must be different"),
            );
        }
        Ok(())
    }

    /// The proportion of the coupling.
    pub fn scaling(&self) -> (s: u64)
        ensures
            s == self.scaling_value(),
    {
        self.scaling
    }

    /// The index of the driven joint.
    pub fn driven(&self) -> (d: usize)
        ensures
            d == self.driven_joint(),
    {
        self.driven
    }

    /// The index of the coupled joint.
    pub fn coupled(&self) -> (c: usize)
        ensures
            c == self.coupled_joint(),
    {
        self.coupled
    }
}

/// Every finite scaling is accepted, negative ones included, when the two
/// joint indices are distinct and below 6.
pub proof fn lemma_finite_scaling_is_accepted(scaling: u64, driven: usize, coupled: usize)
    requires
        finite64(scaling),
        driven < 6,
        coupled < 6,
        driven != coupled,
    ensures
        parallelogram_error(scaling, driven, coupled) is None,
{
}

/// The sign of the scaling never decides: negating it (flipping its sign
/// bit) gives the same verdict.
pub proof fn lemma_scaling_sign_is_irrelevant(scaling: u64, driven: usize, coupled: usize)
    ensures
        parallelogram_error(scaling ^ 0x8000_0000_0000_0000, driven, coupled)
            == parallelogram_error(scaling, driven, coupled),
{
    lemma_negation64(scaling, scaling);
}

} // verus!
