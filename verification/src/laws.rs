//! The cross-function guarantees of the library, stated and proved once:
//! what a built program exposes, what a binary round trip preserves, that
//! the fragment-location cache makes repeated queries free, and how often
//! the link check and the teardown purge run.

use vstd::prelude::*;

use crate::builder::{
    spec_first_failure,
    spec_link_cmds,
    spec_source_trace,
    spec_tf_unsupported,
    DriverScript,
};
use crate::capabilities::Capabilities;
use crate::commands::GlCommand;
use crate::handle::Handle;
use crate::input::ProgramCreationInput;
use crate::program::{spec_assembled, spec_destroy_trace, spec_frag_step, Program};
use crate::table::seq_lookup;

verus! {

/// A program built from a successful link exposes through `get_uniform`
/// and `get_attribute` exactly the names of the harvester's tables: a name
/// is found if and only if the reflection tables hold it.
pub proof fn lemma_built_program_exposes_reflection(
    p: Program,
    caps: Capabilities,
    id: Handle,
    refl: crate::reflection::Reflection,
    has_tess: bool,
    name: Seq<char>,
)
    requires
        spec_assembled(p, caps, id, refl, has_tess),
    ensures
        p.spec_uniforms().spec_lookup(name) == seq_lookup(refl.uniforms@, name),
        p.spec_attributes().spec_lookup(name) == seq_lookup(refl.attributes@, name),
        p.spec_uniform_blocks().spec_lookup(name) == seq_lookup(refl.uniform_blocks@, name),
{
}

/// Round trip: a program rebuilt through the binary path exposes the same
/// uniform and attribute name set as the program whose binary was taken,
/// provided the driver's reflection of the reloaded program matches — the
/// two are the same linked program on the GPU side.
pub proof fn lemma_binary_round_trip_preserves_names(
    p1: Program,
    caps1: Capabilities,
    script1: DriverScript,
    has_tess: bool,
    p2: Program,
    caps2: Capabilities,
    script2: DriverScript,
)
    requires
        spec_assembled(p1, caps1, script1.created_program, script1.reflection, has_tess),
        spec_assembled(p2, caps2, script2.created_program, script2.reflection, true),
        script2.reflection.uniforms@ == script1.reflection.uniforms@,
        script2.reflection.attributes@ == script1.reflection.attributes@,
    ensures
        forall|name: Seq<char>|
            #[trigger] p2.spec_uniforms().spec_contains(name) == p1.spec_uniforms().spec_contains(
                name,
            ),
        forall|name: Seq<char>|
            #[trigger] p2.spec_attributes().spec_contains(name)
                == p1.spec_attributes().spec_contains(name),
{
}

/// Idempotence of the fragment-location query: a second call with the
/// same name returns the same result whatever reply it is handed, changes
/// nothing, and needs no live query — the first call cached the answer.
pub proof fn lemma_frag_data_location_idempotent(
    p0: Program,
    p1: Program,
    p2: Program,
    name: Seq<char>,
    raw1: i32,
    raw2: i32,
    r1: Option<u32>,
    r2: Option<u32>,
)
    requires
        spec_frag_step(p0, name, raw1, p1, r1),
        spec_frag_step(p1, name, raw2, p2, r2),
    ensures
        r2 == r1,
        p2.spec_frag_cache() == p1.spec_frag_cache(),
        !(p1.spec_frag_cache().spec_lookup(name) is None && p1.spec_id() is Id),
{
}

/// How many times a command sequence reads the link-status flag.
pub open spec fn spec_count_link_status_queries(tr: Seq<GlCommand>) -> int
    decreases tr.len(),
{
    if tr.len() == 0 {
        0
    } else {
        (if tr[0] is QueryLinkStatus {
            1int
        } else {
            0int
        }) + spec_count_link_status_queries(tr.drop_first())
    }
}

/// The count distributes over concatenation.
pub proof fn lemma_count_link_status_concat(a: Seq<GlCommand>, b: Seq<GlCommand>)
    ensures
        spec_count_link_status_queries(a + b) == spec_count_link_status_queries(a)
            + spec_count_link_status_queries(b),
    decreases a.len(),
{
    if a.len() == 0 {
        assert(a + b =~= b);
    } else {
        assert((a + b).drop_first() =~= a.drop_first() + b);
        lemma_count_link_status_concat(a.drop_first(), b);
    }
}

/// A sequence without a status read counts zero.
pub proof fn lemma_count_link_status_zero(s: Seq<GlCommand>)
    requires
        forall|i: int| 0 <= i < s.len() ==> !((#[trigger] s[i]) is QueryLinkStatus),
    ensures
        spec_count_link_status_queries(s) == 0,
    decreases s.len(),
{
    if s.len() > 0 {
        assert forall|i: int| 0 <= i < s.drop_first().len() implies !((#[trigger] s.drop_first()[i]) is QueryLinkStatus) by {
            assert(s.drop_first()[i] == s[i + 1]);
        }
        lemma_count_link_status_zero(s.drop_first());
    }
}

/// The link phase reads the status flag exactly once, whatever the
/// outcome.
pub proof fn lemma_link_cmds_check_once(id: Handle, script: DriverScript)
    ensures
        spec_count_link_status_queries(spec_link_cmds(id, script)) == 1,
{
    let head = seq![
        GlCommand::LinkProgram { program: id },
        GlCommand::QueryLinkStatus { program: id },
    ];
    assert(spec_link_cmds(id, script) =~= head + (if script.link_status == 0 {
        seq![GlCommand::QueryErrorFlag] + (
        if crate::link::spec_link_failure_needs_log(script.error_flag) {
            seq![
                GlCommand::QueryInfoLogLength { program: id },
                GlCommand::FetchInfoLog { program: id, buffer_len: script.info_log_length },
            ]
        } else {
            Seq::empty()
        })
    } else {
        Seq::empty()
    }));
    let tail = if script.link_status == 0 {
        seq![GlCommand::QueryErrorFlag] + (
        if crate::link::spec_link_failure_needs_log(script.error_flag) {
            seq![
                GlCommand::QueryInfoLogLength { program: id },
                GlCommand::FetchInfoLog { program: id, buffer_len: script.info_log_length },
            ]
        } else {
            Seq::empty()
        })
    } else {
        Seq::empty()
    };
    lemma_count_link_status_concat(head, tail);
    assert(head.drop_first() =~= seq![GlCommand::QueryLinkStatus { program: id }]);
    assert(head.drop_first().drop_first() =~= Seq::<GlCommand>::empty());
    assert(spec_count_link_status_queries(head.drop_first().drop_first()) == 0);
    assert(spec_count_link_status_queries(head.drop_first()) == 1);
    assert(spec_count_link_status_queries(head) == 1);
    assert forall|i: int| 0 <= i < tail.len() implies !((#[trigger] tail[i]) is QueryLinkStatus) by {}
    lemma_count_link_status_zero(tail);
}

/// Whenever the source path reaches the link — every stage compiled, so
/// the link call was issued — its command sequence reads the link-status
/// flag exactly once, on success and on link failure alike.
pub proof fn lemma_source_path_checks_link_once(
    caps: Capabilities,
    input: ProgramCreationInput,
    script: DriverScript,
)
    requires
        input is SourceCode,
        !spec_tf_unsupported(caps, input),
        spec_first_failure(script.compile_results@, input.spec_stage_kinds().len() as int)
            == input.spec_stage_kinds().len() as int,
    ensures
        spec_count_link_status_queries(spec_source_trace(caps, input, script)) == 1,
{
    let stages = input.spec_stage_kinds();
    let n = stages.len() as int;
    let prefix = crate::builder::spec_compile_cmds(stages, n) + seq![GlCommand::CreateProgram]
        + crate::builder::spec_attach_cmds(
        script.created_program,
        crate::builder::spec_ok_handles(script.compile_results@, n),
    ) + crate::builder::spec_tf_cmds(caps, input, script.created_program);
    lemma_count_link_status_concat(prefix, spec_link_cmds(script.created_program, script));
    assert forall|i: int| 0 <= i < prefix.len() implies !((#[trigger] prefix[i]) is QueryLinkStatus) by {}
    lemma_count_link_status_zero(prefix);
    lemma_link_cmds_check_once(script.created_program, script);
    assert(spec_source_trace(caps, input, script) =~= prefix + spec_link_cmds(
        script.created_program,
        script,
    ));
    assert(spec_count_link_status_queries(spec_source_trace(caps, input, script)) == 1);
}

/// How many times a command sequence purges the vertex-array-object cache
/// for handle `h`.
pub open spec fn spec_count_purges(tr: Seq<GlCommand>, h: Handle) -> int
    decreases tr.len(),
{
    if tr.len() == 0 {
        0
    } else {
        (if tr[0] == (GlCommand::PurgeVertexArrayObjects { program: h }) {
            1int
        } else {
            0int
        }) + spec_count_purges(tr.drop_first(), h)
    }
}

/// Destroying a program purges the vertex-array-object cache exactly
/// once, with the program's own handle, and before any other teardown
/// command.
pub proof fn lemma_destroy_purges_exactly_once(id: Handle, current_program: Handle)
    ensures
        spec_count_purges(spec_destroy_trace(id, current_program), id) == 1,
        spec_destroy_trace(id, current_program)[0] == (GlCommand::PurgeVertexArrayObjects {
            program: id,
        }),
{
    let tr = spec_destroy_trace(id, current_program);
    if current_program == id {
        assert(tr =~= seq![
            GlCommand::PurgeVertexArrayObjects { program: id },
            GlCommand::UnbindProgram,
            GlCommand::DeleteProgram { program: id },
        ]);
        assert(tr.drop_first() =~= seq![
            GlCommand::UnbindProgram,
            GlCommand::DeleteProgram { program: id },
        ]);
        assert(tr.drop_first().drop_first() =~= seq![GlCommand::DeleteProgram { program: id }]);
        assert(tr.drop_first().drop_first().drop_first() =~= Seq::<GlCommand>::empty());
        assert(spec_count_purges(tr.drop_first().drop_first().drop_first(), id) == 0);
        assert(spec_count_purges(tr.drop_first().drop_first(), id) == 0);
        assert(spec_count_purges(tr.drop_first(), id) == 0);
        assert(spec_count_purges(tr, id) == 1);
    } else {
        assert(tr =~= seq![
            GlCommand::PurgeVertexArrayObjects { program: id },
            GlCommand::DeleteProgram { program: id },
        ]);
        assert(tr.drop_first() =~= seq![GlCommand::DeleteProgram { program: id }]);
        assert(tr.drop_first().drop_first() =~= Seq::<GlCommand>::empty());
        assert(spec_count_purges(tr.drop_first().drop_first(), id) == 0);
        assert(spec_count_purges(tr.drop_first(), id) == 0);
        assert(spec_count_purges(tr, id) == 1);
    }
}

/// The source path issues no command at all — in particular no
/// create-program call — when transform feedback is requested but
/// unsupported: the failure comes before any driver work.
pub proof fn lemma_tf_failure_before_any_work(
    caps: Capabilities,
    input: ProgramCreationInput,
    script: DriverScript,
)
    requires
        spec_tf_unsupported(caps, input),
    ensures
        spec_source_trace(caps, input, script) == Seq::<GlCommand>::empty(),
{
}

} // verus!
