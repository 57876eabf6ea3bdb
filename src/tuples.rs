use vstd::prelude::*;

verus! {

/// Approximate equality of scalar values, within a fixed tolerance chosen by the
/// implementing type.
pub trait FEquals {
    type Rhs;

    fn eps_eq(&self, rhs: Self::Rhs) -> bool;
}

} // verus!
