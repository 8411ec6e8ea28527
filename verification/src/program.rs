//! The program object: the owning handle, the immutable reflection tables,
//! the lazily populated fragment-location cache, and ordered teardown.

use vstd::prelude::*;

use crate::capabilities::Capabilities;
use crate::commands::GlCommand;
use crate::handle::Handle;
use crate::input::{Binary, TransformFeedbackMode};
use crate::reflection::{
    varyings_view,
    Attribute,
    Reflection,
    TransformFeedbackVarying,
    Uniform,
    UniformBlock,
};
use crate::table::NamedTable;

verus! {

/// A combination of shaders linked together, owning its native handle.
///
/// Created only by the builder or the binary loader, mutated only through
/// the fragment-location cache, and torn down by [`Program::destroy`].
#[derive(Debug)]
pub struct Program {
    caps: Capabilities,
    id: Handle,
    uniforms: NamedTable<Uniform>,
    uniform_blocks: NamedTable<UniformBlock>,
    attributes: NamedTable<Attribute>,
    frag_data_locations: NamedTable<Option<u32>>,
    varyings: Option<(Vec<TransformFeedbackVarying>, TransformFeedbackMode)>,
    has_tessellation_shaders: bool,
}

/// The null handle of the same variant as `h`: what "no program bound"
/// reads as after unbinding `h`.
pub open spec fn spec_null_of(h: Handle) -> Handle {
    match h {
        Handle::Id(_) => Handle::Id(0),
        Handle::Object(_) => Handle::Object(0),
    }
}

/// How a raw fragment-location reply is interpreted: the negative sentinel
/// means "not found", anything else is the output slot.
pub open spec fn spec_frag_interp(raw: i32) -> Option<u32>
    recommends
        raw >= -1,
{
    if raw == -1 {
        None
    } else {
        Some(raw as u32)
    }
}

/// The exact teardown command order: purge dependents, unbind if the
/// program is the one currently bound, then delete.
pub open spec fn spec_destroy_trace(id: Handle, current_program: Handle) -> Seq<GlCommand> {
    seq![GlCommand::PurgeVertexArrayObjects { program: id }] + (if current_program == id {
        seq![GlCommand::UnbindProgram]
    } else {
        Seq::empty()
    }) + seq![GlCommand::DeleteProgram { program: id }]
}

/// What one `get_frag_data_location` call does: a cache hit returns the
/// cached value and changes nothing; a miss interprets the live reply
/// (always "not found" under the legacy variant, which cannot be queried)
/// and writes the result into the cache before returning it. Entries are
/// only ever added, never removed or changed.
pub open spec fn spec_frag_step(
    pre: Program,
    name: Seq<char>,
    raw: i32,
    post: Program,
    r: Option<u32>,
) -> bool {
    &&& post.spec_caps() == pre.spec_caps()
    &&& post.spec_id() == pre.spec_id()
    &&& post.spec_uniforms() == pre.spec_uniforms()
    &&& post.spec_uniform_blocks() == pre.spec_uniform_blocks()
    &&& post.spec_attributes() == pre.spec_attributes()
    &&& post.spec_varyings() == pre.spec_varyings()
    &&& post.spec_has_tessellation() == pre.spec_has_tessellation()
    &&& match pre.spec_frag_cache().spec_lookup(name) {
        Some(cached) => {
            &&& r == cached
            &&& post.spec_frag_cache() == pre.spec_frag_cache()
        },
        None => {
            &&& r == (if pre.spec_id() is Id {
                spec_frag_interp(raw)
            } else {
                None::<u32>
            })
            &&& post.spec_frag_cache().spec_lookup(name) == Some(r)
            &&& forall|other: Seq<char>|
                other != name ==> post.spec_frag_cache().spec_lookup(other)
                    == pre.spec_frag_cache().spec_lookup(other)
        },
    }
}

/// The fields a freshly built program holds: the creating profile and
/// handle, the harvester's tables entry for entry, an empty fragment
/// cache, and the tessellation flag the path decided on.
pub open spec fn spec_assembled(
    p: Program,
    caps: Capabilities,
    id: Handle,
    refl: Reflection,
    has_tess: bool,
) -> bool {
    &&& p.wf()
    &&& p.spec_caps() == caps
    &&& p.spec_id() == id
    &&& p.spec_uniforms()@ == refl.uniforms@
    &&& p.spec_uniform_blocks()@ == refl.uniform_blocks@
    &&& p.spec_attributes()@ == refl.attributes@
    &&& p.spec_varyings() == refl.spec_varyings()
    &&& p.spec_has_tessellation() == has_tess
    &&& p.spec_frag_cache()@ == Seq::<(String, Option<u32>)>::empty()
}

impl Program {
    /// The capability profile of the owning context.
    pub closed spec fn spec_caps(self) -> Capabilities {
        self.caps
    }

    /// The owned native handle.
    pub closed spec fn spec_id(self) -> Handle {
        self.id
    }

    /// The uniform table.
    pub closed spec fn spec_uniforms(self) -> NamedTable<Uniform> {
        self.uniforms
    }

    /// The uniform-block table.
    pub closed spec fn spec_uniform_blocks(self) -> NamedTable<UniformBlock> {
        self.uniform_blocks
    }

    /// The attribute table.
    pub closed spec fn spec_attributes(self) -> NamedTable<Attribute> {
        self.attributes
    }

    /// The fragment-location cache.
    pub closed spec fn spec_frag_cache(self) -> NamedTable<Option<u32>> {
        self.frag_data_locations
    }

    /// The transform-feedback varyings and mode, as plain values.
    pub closed spec fn spec_varyings(self) -> Option<
        (Seq<(Seq<char>, u32)>, TransformFeedbackMode),
    > {
        match self.varyings {
            Some((vs, mode)) => Some((varyings_view(vs@), mode)),
            None => None,
        }
    }

    /// Whether a tessellation stage was part of the build.
    pub closed spec fn spec_has_tessellation(self) -> bool {
        self.has_tessellation_shaders
    }

    /// The program's invariant: the handle matches the profile it was
    /// created under, is not null, and every table has distinct keys.
    pub open spec fn wf(self) -> bool {
        &&& self.spec_caps().spec_supports_programs()
        &&& self.spec_caps().spec_handle_matches(self.spec_id())
        &&& !self.spec_id().spec_is_null()
        &&& self.spec_uniforms().wf()
        &&& self.spec_uniform_blocks().wf()
        &&& self.spec_attributes().wf()
        &&& self.spec_frag_cache().wf()
    }

    /// Builds the program object once a path has linked successfully:
    /// stores the harvester's tables immutably and starts with an empty
    /// fragment-location cache.
    pub fn assemble(
        caps: &Capabilities,
        id: Handle,
        reflection: &Reflection,
        has_tessellation_shaders: bool,
    ) -> (r: Program)
        requires
            caps.spec_supports_programs(),
            caps.spec_handle_matches(id),
            !id.spec_is_null(),
            reflection.wf(),
        ensures
            spec_assembled(r, *caps, id, *reflection, has_tessellation_shaders),
    {
        let varyings = match &reflection.transform_feedback {
            Some((vs, mode)) => Some((crate::reflection::duplicate_varyings(vs), *mode)),
            None => None,
        };
        let r = Program {
            caps: *caps,
            id,
            uniforms: reflection.uniforms.duplicate(),
            uniform_blocks: reflection.uniform_blocks.duplicate(),
            attributes: reflection.attributes.duplicate(),
            frag_data_locations: NamedTable::new(),
            varyings,
            has_tessellation_shaders,
        };
        r
    }

    /// Returns the program's native handle.
    pub fn get_id(&self) -> (r: Handle)
        ensures
            r == self.spec_id(),
    {
        self.id
    }

    /// Returns information about a uniform variable, if it exists.
    /// Absence is "not found", never an error.
    pub fn get_uniform(&self, name: &str) -> (r: Option<Uniform>)
        ensures
            r == self.spec_uniforms().spec_lookup(name@),
    {
        self.uniforms.get(name)
    }

    /// Read-only view of the uniform table.
    pub fn uniforms(&self) -> (r: &NamedTable<Uniform>)
        ensures
            *r == self.spec_uniforms(),
    {
        &self.uniforms
    }

    /// Read-only view of the uniform-block table.
    pub fn get_uniform_blocks(&self) -> (r: &NamedTable<UniformBlock>)
        ensures
            *r == self.spec_uniform_blocks(),
    {
        &self.uniform_blocks
    }

    /// Returns information about an attribute, if it exists.
    /// Absence is "not found", never an error.
    pub fn get_attribute(&self, name: &str) -> (r: Option<Attribute>)
        ensures
            r == self.spec_attributes().spec_lookup(name@),
    {
        self.attributes.get(name)
    }

    /// Read-only view of the attribute table.
    pub fn attributes(&self) -> (r: &NamedTable<Attribute>)
        ensures
            *r == self.spec_attributes(),
    {
        &self.attributes
    }

    /// Returns the list of transform-feedback varyings; empty when
    /// transform feedback was not requested or not supported.
    pub fn get_transform_feedback_varyings(&self) -> (r: Vec<TransformFeedbackVarying>)
        ensures
            varyings_view(r@) == (match self.spec_varyings() {
                Some((vs, _)) => vs,
                None => Seq::<(Seq<char>, u32)>::empty(),
            }),
    {
        match &self.varyings {
            Some((vs, _)) => crate::reflection::duplicate_varyings(vs),
            None => {
                let r: Vec<TransformFeedbackVarying> = Vec::new();
                proof {
                    assert(varyings_view(r@) =~= Seq::<(Seq<char>, u32)>::empty());
                }
                r
            },
        }
    }

    /// Returns the transform-feedback mode, or `None` when transform
    /// feedback is not enabled in this program.
    pub fn get_transform_feedback_mode(&self) -> (r: Option<TransformFeedbackMode>)
        ensures
            r == (match self.spec_varyings() {
                Some((_, mode)) => Some(mode),
                None => None,
            }),
    {
        match &self.varyings {
            Some((_, mode)) => Some(*mode),
            None => None,
        }
    }

    /// Returns true if the program contains a tessellation stage.
    pub fn has_tessellation_shaders(&self) -> (r: bool)
        ensures
            r == self.spec_has_tessellation(),
    {
        self.has_tessellation_shaders
    }

    /// Whether retrieving the compiled binary is supported at all under
    /// the owning context's profile.
    pub fn binary_supported(&self) -> (r: bool)
        ensures
            r == self.spec_caps().spec_supports_binary(),
    {
        self.caps.supports_binary()
    }

    /// Returns the program's compiled binary when the context supports
    /// retrieving one, else `None` (not an error), together with the
    /// ask-size-then-fetch commands issued. `length` and `content` are
    /// the two replies of that protocol.
    pub fn get_binary_if_supported(&self, length: i32, content: &Vec<u8>, format: u32) -> (r: (
        Option<Binary>,
        Vec<GlCommand>,
    ))
        requires
            self.wf(),
            self.spec_caps().spec_supports_binary() ==> self.spec_id() is Id,
        ensures
            !self.spec_caps().spec_supports_binary() ==> r.0 is None && r.1@
                == Seq::<GlCommand>::empty(),
            self.spec_caps().spec_supports_binary() ==> (match r.0 {
                Some(b) => b.format == format && b.content@ == content@,
                None => false,
            }) && r.1@ == seq![
                GlCommand::QueryBinaryLength { program: self.spec_id()->Id_0 },
                GlCommand::FetchBinary {
                    program: self.spec_id()->Id_0,
                    buffer_len: length,
                },
            ],
    {
        let mut trace: Vec<GlCommand> = Vec::new();
        if self.caps.supports_binary() {
            let raw = match self.id {
                Handle::Id(raw) => raw,
                Handle::Object(_) => {
                    proof {
                        assert(false);
                    }
                    0
                },
            };
            trace.push(GlCommand::QueryBinaryLength { program: raw });
            trace.push(GlCommand::FetchBinary { program: raw, buffer_len: length });
            proof {
                assert(trace@ =~= seq![
                    GlCommand::QueryBinaryLength { program: self.spec_id()->Id_0 },
                    GlCommand::FetchBinary { program: self.spec_id()->Id_0, buffer_len: length },
                ]);
            }
            (Some(Binary { format, content: content.clone() }), trace)
        } else {
            proof {
                assert(trace@ =~= Seq::<GlCommand>::empty());
            }
            (None, trace)
        }
    }

    /// Returns the program's compiled binary. Only callable when the
    /// context supports retrieving one.
    pub fn get_binary(&self, length: i32, content: &Vec<u8>, format: u32) -> (r: (
        Binary,
        Vec<GlCommand>,
    ))
        requires
            self.wf(),
            self.spec_caps().spec_supports_binary(),
            self.spec_id() is Id,
        ensures
            r.0.format == format && r.0.content@ == content@,
            r.1@ == seq![
                GlCommand::QueryBinaryLength { program: self.spec_id()->Id_0 },
                GlCommand::FetchBinary {
                    program: self.spec_id()->Id_0,
                    buffer_len: length,
                },
            ],
    {
        let (binary, trace) = self.get_binary_if_supported(length, content, format);
        match binary {
            Some(b) => (b, trace),
            None => {
                proof {
                    assert(false);
                }
                (Binary { format, content: Vec::new() }, trace)
            },
        }
    }

    /// Whether a `get_frag_data_location` call for `name` would have to
    /// ask the live context: only on a cache miss under the modern handle
    /// variant (the legacy variant cannot be queried and always yields
    /// "not found").
    pub fn needs_frag_data_query(&self, name: &str) -> (r: bool)
        ensures
            r == (self.spec_frag_cache().spec_lookup(name@) is None && self.spec_id() is Id),
    {
        match self.frag_data_locations.get(name) {
            Some(_) => false,
            None => match self.id {
                Handle::Id(_) => true,
                Handle::Object(_) => false,
            },
        }
    }

    /// Returns the output slot of a named fragment output, if it exists.
    ///
    /// Cache-first: a hit returns the cached value. On a miss, `raw` is
    /// the live context's reply (obtained only when
    /// [`Program::needs_frag_data_query`] says so; it is ignored on a hit
    /// and under the legacy variant), the negative sentinel reads as "not
    /// found", and the result is written into the cache before returning,
    /// so repeated queries for absent names stay cheap.
    pub fn get_frag_data_location(&mut self, name: &str, raw: i32) -> (r: Option<u32>)
        requires
            old(self).wf(),
            raw >= -1,
        ensures
            final(self).wf(),
            spec_frag_step(*old(self), name@, raw, *final(self), r),
    {
        match self.frag_data_locations.get(name) {
            Some(cached) => cached,
            None => {
                let value: i32 = match self.id {
                    Handle::Id(_) => raw,
                    Handle::Object(_) => -1,
                };
                let location: Option<u32> = if value == -1 {
                    None
                } else {
                    Some(value as u32)
                };
                self.frag_data_locations.insert(name.to_owned(), location);
                location
            },
        }
    }

    /// Tears the program down, given which program the context currently
    /// has bound. Purges the vertex-array-object cache of bindings that
    /// reference this handle, unbinds the program if it is the current
    /// one, then deletes it — in exactly that order. Returns the commands
    /// and what the current binding reads as afterwards.
    pub fn destroy(self, current_program: Handle) -> (r: (Vec<GlCommand>, Handle))
        requires
            self.wf(),
        ensures
            r.0@ == spec_destroy_trace(self.spec_id(), current_program),
            r.1 == (if current_program == self.spec_id() {
                spec_null_of(self.spec_id())
            } else {
                current_program
            }),
    {
        let mut trace: Vec<GlCommand> = Vec::new();
        trace.push(GlCommand::PurgeVertexArrayObjects { program: self.id });
        let bound_here = current_program == self.id;
        if bound_here {
            trace.push(GlCommand::UnbindProgram);
        }
        trace.push(GlCommand::DeleteProgram { program: self.id });
        let after = if bound_here {
            match self.id {
                Handle::Id(_) => Handle::Id(0),
                Handle::Object(_) => Handle::Object(0),
            }
        } else {
            current_program
        };
        proof {
            assert(trace@ =~= spec_destroy_trace(self.spec_id(), current_program));
        }
        (trace, after)
    }
}

} // verus!
