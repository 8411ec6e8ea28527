//! Lifecycle of a GPU shader program object: building a program from source
//! text or from a precompiled binary blob, link-error diagnosis, reflection
//! storage, lazily cached fragment-output queries, and ordered teardown.
//!
//! The library contains the decision logic only. Every native call that the
//! logic would issue is recorded as a [`commands::GlCommand`] value, and every
//! reply the driver would give is taken as a plain argument, so that the whole
//! state machine is verified; a thin host loop performs the recorded commands
//! against a real driver and feeds the replies back.

pub mod builder;
pub mod capabilities;
pub mod commands;
pub mod error;
pub mod handle;
pub mod input;
pub mod laws;
pub mod link;
pub mod program;
pub mod reflection;
pub mod table;
pub mod version;

use vstd::prelude::*;

verus! {

} // verus!
