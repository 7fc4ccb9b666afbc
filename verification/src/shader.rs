//! The shader build protocol.
//!
//! The GPU variant builds its program from a fixed pair of stages: each
//! shader object is created, given its source behind a version-prefix line,
//! compiled and checked; the two are linked and the link checked; then the
//! shader objects are detached and released — they are no longer needed once
//! the program is linked. A failed compile or link is fatal, and the first
//! failure in this order is the one surfaced.

use vstd::prelude::*;

verus! {

/// The line-feed byte placed between the version prefix and the source.
pub const NEWLINE: u8 = 10;

/// The two shader stages of the fixed pipeline, in build order.
#[derive(Clone, Copy, Debug, PartialEq, Eq)]
pub enum ShaderStage {
    Vertex,
    Fragment,
}

/// One step of the program build.
#[derive(Clone, Copy, Debug, PartialEq, Eq)]
pub enum BuildStep {
    /// Create the stage's shader object.
    CreateShader { stage: ShaderStage },
    /// Hand the stage its prefixed source text.
    SourceShader { stage: ShaderStage },
    /// Compile the stage.
    CompileShader { stage: ShaderStage },
    /// Read the stage's compile status; abort with its log on failure.
    CheckCompile { stage: ShaderStage },
    /// Attach the compiled stage to the program.
    AttachShader { stage: ShaderStage },
    /// Link the program from the attached stages.
    LinkProgram,
    /// Read the link status; abort with the program log on failure.
    CheckLink,
    /// Detach one stage from the linked program.
    DetachShader { stage: ShaderStage },
    /// Release one stage's shader object.
    DeleteShader { stage: ShaderStage },
}

/// The five steps that bring one stage from nothing to attached.
pub open spec fn stage_steps(stage: ShaderStage) -> Seq<BuildStep> {
    seq![
        BuildStep::CreateShader { stage },
        BuildStep::SourceShader { stage },
        BuildStep::CompileShader { stage },
        BuildStep::CheckCompile { stage },
        BuildStep::AttachShader { stage },
    ]
}

/// The whole build: the vertex stage, the fragment stage, the link and its
/// check, then the hygiene steps that detach and release both stages.
pub open spec fn build_steps_spec() -> Seq<BuildStep> {
    stage_steps(ShaderStage::Vertex) + stage_steps(ShaderStage::Fragment) + seq![
        BuildStep::LinkProgram,
        BuildStep::CheckLink,
        BuildStep::DetachShader { stage: ShaderStage::Vertex },
        BuildStep::DeleteShader { stage: ShaderStage::Vertex },
        BuildStep::DetachShader { stage: ShaderStage::Fragment },
        BuildStep::DeleteShader { stage: ShaderStage::Fragment },
    ]
}

/// The ordered steps that build the triangle program.
pub fn build_steps() -> (r: Vec<BuildStep>)
    ensures
        r@ == build_steps_spec(),
{
    let mut r: Vec<BuildStep> = Vec::new();
    r.push(BuildStep::CreateShader { stage: ShaderStage::Vertex });
    r.push(BuildStep::SourceShader { stage: ShaderStage::Vertex });
    r.push(BuildStep::CompileShader { stage: ShaderStage::Vertex });
    r.push(BuildStep::CheckCompile { stage: ShaderStage::Vertex });
    r.push(BuildStep::AttachShader { stage: ShaderStage::Vertex });
    r.push(BuildStep::CreateShader { stage: ShaderStage::Fragment });
    r.push(BuildStep::SourceShader { stage: ShaderStage::Fragment });
    r.push(BuildStep::CompileShader { stage: ShaderStage::Fragment });
    r.push(BuildStep::CheckCompile { stage: ShaderStage::Fragment });
    r.push(BuildStep::AttachShader { stage: ShaderStage::Fragment });
    r.push(BuildStep::LinkProgram);
    r.push(BuildStep::CheckLink);
    r.push(BuildStep::DetachShader { stage: ShaderStage::Vertex });
    r.push(BuildStep::DeleteShader { stage: ShaderStage::Vertex });
    r.push(BuildStep::DetachShader { stage: ShaderStage::Fragment });
    r.push(BuildStep::DeleteShader { stage: ShaderStage::Fragment });
    proof {
        assert(r@ =~= build_steps_spec());
    }
    r
}

/// Which failure aborts the build, given the three status checks in build
/// order: a vertex compile failure is surfaced first, then a fragment
/// compile failure, then a link failure.
#[derive(Clone, Copy, Debug, PartialEq, Eq)]
pub enum BuildFailure {
    VertexCompile,
    FragmentCompile,
    Link,
}

/// The outcome of the three status checks: the build succeeds exactly when
/// all three pass, and otherwise surfaces the first failure in build order,
/// whose diagnostic log the caller reports.
pub fn build_outcome(vertex_ok: bool, fragment_ok: bool, link_ok: bool) -> (r: Result<
    (),
    BuildFailure,
>)
    ensures
        r is Ok <==> vertex_ok && fragment_ok && link_ok,
        r == Result::<(), BuildFailure>::Err(BuildFailure::VertexCompile) <==> !vertex_ok,
        r == Result::<(), BuildFailure>::Err(BuildFailure::FragmentCompile) <==> (vertex_ok
            && !fragment_ok),
        r == Result::<(), BuildFailure>::Err(BuildFailure::Link) <==> (vertex_ok && fragment_ok
            && !link_ok),
{
    if !vertex_ok {
        Err(BuildFailure::VertexCompile)
    } else if !fragment_ok {
        Err(BuildFailure::FragmentCompile)
    } else if !link_ok {
        Err(BuildFailure::Link)
    } else {
        Ok(())
    }
}

/// Joins the fixed version-prefix line and a stage's source text: the
/// prefix, one line feed, then the source, unchanged.
pub fn prefixed_source(prefix: &Vec<u8>, source: &Vec<u8>) -> (r: Vec<u8>)
    ensures
        r@ == prefix@ + seq![NEWLINE] + source@,
{
    let mut r: Vec<u8> = Vec::new();
    let np = prefix.len();
    let mut i: usize = 0;
    while i < np
        invariant
            i <= np,
            np == prefix@.len(),
            r@ =~= prefix@.take(i as int),
        decreases np - i,
    {
        r.push(prefix[i]);
        proof {
            assert(r@ =~= prefix@.take(i as int + 1));
        }
        i += 1;
    }
    proof {
        assert(prefix@.take(np as int) =~= prefix@);
    }
    r.push(NEWLINE);
    let ghost mid = prefix@ + seq![NEWLINE];
    proof {
        assert(r@ =~= mid);
    }
    let ns = source.len();
    let mut j: usize = 0;
    while j < ns
        invariant
            j <= ns,
            ns == source@.len(),
            r@ =~= mid + source@.take(j as int),
        decreases ns - j,
    {
        r.push(source[j]);
        proof {
            assert(r@ =~= mid + source@.take(j as int + 1));
        }
        j += 1;
    }
    proof {
        assert(source@.take(ns as int) =~= source@);
        assert(r@ =~= prefix@ + seq![NEWLINE] + source@);
    }
    r
}

} // verus!
