//! The two mutually exclusive native identifiers for a program object.

use vstd::prelude::*;

verus! {

/// Identifier of a GPU-resident program object.
///
/// A context either supports the modern integer-handle calls, in which case
/// every object it hands out is an `Id`, or only the legacy object extension,
/// in which case every object is an `Object`. The two variants never mix
/// within one context.
#[derive(Clone, Copy, PartialEq, Eq, Structural, Debug)]
pub enum Handle {
    /// Modern integer handle.
    Id(u32),
    /// Legacy extension object, pointer-sized on the native side.
    Object(u64),
}

impl Handle {
    /// A null handle: the value the native create call returns on failure,
    /// and the value that stands for "no program bound".
    pub open spec fn spec_is_null(self) -> bool {
        match self {
            Handle::Id(v) => v == 0,
            Handle::Object(v) => v == 0,
        }
    }

    /// Whether this is the modern integer-handle variant.
    pub open spec fn spec_is_id(self) -> bool {
        self is Id
    }

    /// Runtime check for the null handle.
    pub fn is_null(&self) -> (r: bool)
        ensures
            r == self.spec_is_null(),
    {
        match self {
            Handle::Id(v) => *v == 0,
            Handle::Object(v) => *v == 0,
        }
    }
}

} // verus!
