//! The capability profile of a context: version, extensions, and the
//! support predicates every operation switches on.

use vstd::prelude::*;

use crate::handle::Handle;
use crate::version::{Api, Version};

verus! {

/// The extension flags this subsystem consults.
#[derive(Clone, Copy, PartialEq, Eq, Structural, Debug)]
pub struct Extensions {
    /// Legacy object-based shader API.
    pub gl_arb_shader_objects: bool,
    /// Transform feedback as an extension.
    pub gl_ext_transform_feedback: bool,
    /// Retrieving a linked program's binary as an extension.
    pub gl_arb_get_program_binary: bool,
}

/// Everything a context reports that this subsystem's decisions depend on.
#[derive(Clone, Copy, PartialEq, Eq, Structural, Debug)]
pub struct Capabilities {
    pub version: Version,
    pub extensions: Extensions,
}

impl Capabilities {
    /// The modern integer-handle calls are available.
    pub open spec fn spec_supports_modern(self) -> bool {
        self.version.spec_at_least(Api::Gl, 2, 0)
    }

    /// Only the legacy object extension is available.
    pub open spec fn spec_supports_legacy(self) -> bool {
        self.extensions.gl_arb_shader_objects
    }

    /// Program objects can be created at all.
    pub open spec fn spec_supports_programs(self) -> bool {
        self.spec_supports_modern() || self.spec_supports_legacy()
    }

    /// Transform feedback is available, by version or by extension.
    pub open spec fn spec_supports_transform_feedback(self) -> bool {
        self.version.spec_at_least(Api::Gl, 3, 0) || self.extensions.gl_ext_transform_feedback
    }

    /// A linked program's binary can be retrieved, by version or by extension.
    pub open spec fn spec_supports_binary(self) -> bool {
        self.version.spec_at_least(Api::Gl, 4, 1) || self.extensions.gl_arb_get_program_binary
    }

    /// The handle variant this profile hands out: `Id` when the modern calls
    /// are available, `Object` when only the legacy extension is.
    pub open spec fn spec_handle_matches(self, h: Handle) -> bool {
        match h {
            Handle::Id(_) => self.spec_supports_modern(),
            Handle::Object(_) => !self.spec_supports_modern() && self.spec_supports_legacy(),
        }
    }

    /// Runtime counterpart of [`Capabilities::spec_supports_modern`].
    pub fn supports_modern(&self) -> (r: bool)
        ensures
            r == self.spec_supports_modern(),
    {
        self.version.at_least(Api::Gl, 2, 0)
    }

    /// Runtime counterpart of [`Capabilities::spec_supports_legacy`].
    pub fn supports_legacy(&self) -> (r: bool)
        ensures
            r == self.spec_supports_legacy(),
    {
        self.extensions.gl_arb_shader_objects
    }

    /// Runtime counterpart of [`Capabilities::spec_supports_programs`].
    pub fn supports_programs(&self) -> (r: bool)
        ensures
            r == self.spec_supports_programs(),
    {
        self.supports_modern() || self.supports_legacy()
    }

    /// Runtime counterpart of [`Capabilities::spec_supports_transform_feedback`].
    pub fn supports_transform_feedback(&self) -> (r: bool)
        ensures
            r == self.spec_supports_transform_feedback(),
    {
        self.version.at_least(Api::Gl, 3, 0) || self.extensions.gl_ext_transform_feedback
    }

    /// Runtime counterpart of [`Capabilities::spec_supports_binary`].
    pub fn supports_binary(&self) -> (r: bool)
        ensures
            r == self.spec_supports_binary(),
    {
        self.version.at_least(Api::Gl, 4, 1) || self.extensions.gl_arb_get_program_binary
    }

    /// Runtime counterpart of [`Capabilities::spec_handle_matches`].
    pub fn handle_matches(&self, h: &Handle) -> (r: bool)
        ensures
            r == self.spec_handle_matches(*h),
    {
        match h {
            Handle::Id(_) => self.supports_modern(),
            Handle::Object(_) => !self.supports_modern() && self.supports_legacy(),
        }
    }
}

} // verus!
