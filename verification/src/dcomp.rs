//! Composition-tree value types of the binding layer.

use vstd::prelude::*;

verus! {

/// Where to place a visual relative to its reference sibling. The native
/// call encodes the choice as a boolean: above is true, below is false.
#[derive(Clone, Copy, Debug, PartialEq, Eq, Structural, PartialOrd, Ord)]
pub enum Insert {
    Below,
    Above,
}

impl Insert {
    /// The boolean the native call expects: 1 for above, 0 for below.
    pub open spec fn spec_value(self) -> i32 {
        match self {
            Insert::Below => 0i32,
            Insert::Above => 1i32,
        }
    }

    pub fn value(self) -> (v: i32)
        ensures
            v == self.spec_value(),
    {
        match self {
            Insert::Below => 0,
            Insert::Above => 1,
        }
    }
}

} // verus!
