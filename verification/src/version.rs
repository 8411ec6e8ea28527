//! The graphics API version reported by a context.

use vstd::prelude::*;

verus! {

/// Which API family the context implements.
#[derive(Clone, Copy, PartialEq, Eq, Structural, Debug)]
pub enum Api {
    /// Desktop API.
    Gl,
    /// Embedded-systems API.
    GlEs,
}

/// An API version: family plus major and minor number.
#[derive(Clone, Copy, PartialEq, Eq, Structural, Debug)]
pub struct Version {
    pub api: Api,
    pub major: u16,
    pub minor: u16,
}

impl Version {
    /// Whether this version belongs to `api` and is at least `major.minor`.
    pub open spec fn spec_at_least(self, api: Api, major: u16, minor: u16) -> bool {
        self.api == api && (self.major > major || (self.major == major && self.minor >= minor))
    }

    /// Runtime counterpart of [`Version::spec_at_least`].
    pub fn at_least(&self, api: Api, major: u16, minor: u16) -> (r: bool)
        ensures
            r == self.spec_at_least(api, major, minor),
    {
        self.api == api && (self.major > major || (self.major == major && self.minor >= minor))
    }
}

} // verus!
