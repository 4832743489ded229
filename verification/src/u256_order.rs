//! Numeric ordering of `U256`.
use vstd::prelude::*;
use core::cmp::Ordering;
use crate::u256::U256;

verus! {

impl PartialOrd for U256 {
    fn partial_cmp(&self, other: &Self) -> (r: Option<Ordering>) {
        if self.high < other.high {
            Some(Ordering::Less)
        } else if self.high > other.high {
            Some(Ordering::Greater)
        } else if self.low < other.low {
            Some(Ordering::Less)
        } else if self.low > other.low {
            Some(Ordering::Greater)
        } else {
            Some(Ordering::Equal)
        }
    }
}

impl vstd::std_specs::cmp::PartialOrdSpecImpl for U256 {
    open spec fn obeys_partial_cmp_spec() -> bool {
        true
    }

    open spec fn partial_cmp_spec(&self, other: &Self) -> Option<Ordering> {
        if self.high < other.high {
            Some(Ordering::Less)
        } else if self.high > other.high {
            Some(Ordering::Greater)
        } else if self.low < other.low {
            Some(Ordering::Less)
        } else if self.low > other.low {
            Some(Ordering::Greater)
        } else {
            Some(Ordering::Equal)
        }
    }
}

} // verus!
