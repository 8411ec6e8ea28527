//! The reflection records harvested once after a successful link, and the
//! bundle the harvester collaborator hands back.

use vstd::prelude::*;

use crate::input::TransformFeedbackMode;
use crate::table::NamedTable;

verus! {

/// An active uniform variable: its assigned location and, for arrays, the
/// element count.
#[derive(Clone, Copy, PartialEq, Eq, Structural, Debug)]
pub struct Uniform {
    pub location: i32,
    pub size: i32,
}

/// An active uniform block: its binding index and its byte size.
#[derive(Clone, Copy, PartialEq, Eq, Structural, Debug)]
pub struct UniformBlock {
    pub binding: i32,
    pub size: i32,
}

/// An active vertex attribute: its assigned location and element count.
#[derive(Clone, Copy, PartialEq, Eq, Structural, Debug)]
pub struct Attribute {
    pub location: i32,
    pub size: i32,
}

/// One transform-feedback output: its name and its byte size within the
/// capture buffer.
#[derive(Clone, Debug)]
pub struct TransformFeedbackVarying {
    pub name: String,
    pub size: u32,
}

impl TransformFeedbackVarying {
    /// The record as plain values: name characters and size.
    pub open spec fn view(self) -> (Seq<char>, u32) {
        (self.name@, self.size)
    }
}

/// A varying list as plain values, record by record.
pub open spec fn varyings_view(vs: Seq<TransformFeedbackVarying>) -> Seq<(Seq<char>, u32)> {
    Seq::new(vs.len(), |i: int| (vs[i].name@, vs[i].size))
}

/// What the reflection harvester returns for a linked program: four
/// independent tables, stored immutably by the program object.
#[derive(Debug)]
pub struct Reflection {
    pub uniforms: NamedTable<Uniform>,
    pub uniform_blocks: NamedTable<UniformBlock>,
    pub attributes: NamedTable<Attribute>,
    pub transform_feedback: Option<(Vec<TransformFeedbackVarying>, TransformFeedbackMode)>,
}

impl Reflection {
    /// All three name-keyed tables have distinct keys.
    pub open spec fn wf(self) -> bool {
        self.uniforms.wf() && self.uniform_blocks.wf() && self.attributes.wf()
    }

    /// The varying list and mode as plain values.
    pub open spec fn spec_varyings(self) -> Option<(Seq<(Seq<char>, u32)>, TransformFeedbackMode)> {
        match self.transform_feedback {
            Some((vs, mode)) => Some((varyings_view(vs@), mode)),
            None => None,
        }
    }
}

/// Copies a varying list entry for entry.
pub fn duplicate_varyings(vs: &Vec<TransformFeedbackVarying>) -> (r: Vec<TransformFeedbackVarying>)
    ensures
        varyings_view(r@) == varyings_view(vs@),
{
    let mut r: Vec<TransformFeedbackVarying> = Vec::new();
    let n = vs.len();
    let mut i: usize = 0;
    while i < n
        invariant
            n == vs@.len(),
            i <= n,
            r@.len() == i,
            forall|j: int| 0 <= j < i ==> (#[trigger] r@[j]).name@ == vs@[j].name@ && r@[j].size
                == vs@[j].size,
        decreases n - i,
    {
        let v = &vs[i];
        r.push(TransformFeedbackVarying { name: v.name.clone(), size: v.size });
        i = i + 1;
    }
    proof {
        assert(varyings_view(r@) =~= varyings_view(vs@));
    }
    r
}

} // verus!
