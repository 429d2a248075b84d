//! The sizing policy of a widget along one axis.

use vstd::prelude::*;
use crate::hasher::{spec_mix, Hasher};

verus! {

/// The strategy used to fill space along one axis.
#[derive(Clone, Copy, Debug, PartialEq, Eq, Structural)]
pub enum Length {
    /// Fill all the remaining space.
    Fill,
    /// Fill a weighted portion of the remaining space.
    FillPortion(u32),
    /// Shrink to the content's natural size.
    Shrink,
    /// A fixed amount of units.
    Units(u32),
}

impl Length {
    /// Whether the policy is well formed: a weighted fill carries a positive
    /// weight.
    pub open spec fn wf(self) -> bool {
        self matches Length::FillPortion(weight) ==> weight > 0
    }

    /// The hash state after folding this policy in: a tag telling the
    /// variants apart, then the payload.
    pub open spec fn spec_hash(self, state: u64) -> u64 {
        match self {
            Length::Fill => spec_mix(spec_mix(state, 0), 0),
            Length::FillPortion(weight) => spec_mix(spec_mix(state, 1), weight as u64),
            Length::Shrink => spec_mix(spec_mix(state, 2), 0),
            Length::Units(units) => spec_mix(spec_mix(state, 3), units as u64),
        }
    }

    /// Folds the policy into `state`.
    pub fn hash(&self, state: &mut Hasher)
        ensures
            final(state).state == self.spec_hash(old(state).state),
    {
        match self {
            Length::Fill => {
                state.write_u64(0);
                state.write_u64(0);
            },
            Length::FillPortion(weight) => {
                state.write_u64(1);
                state.write_u64(*weight as u64);
            },
            Length::Shrink => {
                state.write_u64(2);
                state.write_u64(0);
            },
            Length::Units(units) => {
                state.write_u64(3);
                state.write_u64(*units as u64);
            },
        }
    }
}

} // verus!
