//! Floating-point type specifications.

use vstd::prelude::*;

verus! {

/// Layout of a floating-point type.
#[derive(Clone, Copy, PartialEq, Eq, Structural, Hash, Debug)]
pub struct FloatSpec {
    /// Count of valued bits.
    pub value_width: u8,
    /// Count of stored bits.
    pub store_width: u8,
}

} // verus!
