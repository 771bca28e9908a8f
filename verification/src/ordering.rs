//! The order of amounts: by their number of units.
//!
//! With these impls `<`, `<=`, `>` and `>=` on two amounts mean in verified
//! code what they mean on the views.

use crate::amount::Amount;
use crate::positive::Positive;
use core::cmp::Ordering;
use vstd::prelude::*;
use vstd::std_specs::cmp::PartialOrdSpecImpl;

verus! {

impl PartialOrd for Amount {
    fn partial_cmp(&self, other: &Amount) -> (r: Option<Ordering>) {
        if self.units < other.units {
            Some(Ordering::Less)
        } else if self.units > other.units {
            Some(Ordering::Greater)
        } else {
            Some(Ordering::Equal)
        }
    }
}

impl PartialOrdSpecImpl for Amount {
    open spec fn obeys_partial_cmp_spec() -> bool {
        true
    }

    open spec fn partial_cmp_spec(&self, other: &Amount) -> Option<Ordering> {
        if self.units < other.units {
            Some(Ordering::Less)
        } else if self.units > other.units {
            Some(Ordering::Greater)
        } else {
            Some(Ordering::Equal)
        }
    }
}

impl PartialOrd for Positive {
    fn partial_cmp(&self, other: &Positive) -> (r: Option<Ordering>) {
        if self.units < other.units {
            Some(Ordering::Less)
        } else if self.units > other.units {
            Some(Ordering::Greater)
        } else {
            Some(Ordering::Equal)
        }
    }
}

impl PartialOrdSpecImpl for Positive {
    open spec fn obeys_partial_cmp_spec() -> bool {
        true
    }

    open spec fn partial_cmp_spec(&self, other: &Positive) -> Option<Ordering> {
        if self.units < other.units {
            Some(Ordering::Less)
        } else if self.units > other.units {
            Some(Ordering::Greater)
        } else {
            Some(Ordering::Equal)
        }
    }
}

} // verus!
