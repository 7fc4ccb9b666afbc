//! The per-frame draw plan.
//!
//! A redraw turns one window's state and the UI library's texture delta
//! into the ordered list of graphics calls the driver must issue: set the
//! viewport, clear, draw the triangle, upload the frame's new textures,
//! paint the overlay on top, free the retired textures, and present once.
//! The ordering invariant of the overlay — uploads strictly before the
//! overlay paint, frees strictly after it, the present last — is proved
//! below of every plan.

use vstd::prelude::*;

use crate::color::Rgb;
use crate::controller::WindowState;

verus! {

/// Number of vertices of the fixed triangle.
pub const TRIANGLE_VERTICES: u32 = 3;

/// One graphics call of a frame.
#[derive(Clone, Copy, Debug, PartialEq, Eq)]
pub enum GlCall {
    /// Set the viewport to the window size.
    Viewport { width: u32, height: u32 },
    /// Set the fixed clear color.
    SetClearColor,
    /// Clear the color buffer.
    Clear,
    /// Bind the triangle's shader program.
    UseProgram,
    /// Bind the triangle's vertex array.
    BindVertexArray,
    /// Push the picked color into the program's uniform.
    SetColorUniform { color: Rgb },
    /// Rasterize the fixed triangle.
    DrawTriangles { vertices: u32 },
    /// Upload one new or changed texture of this frame.
    UploadTexture { texture: u64 },
    /// Paint the tessellated overlay primitives.
    PaintOverlay,
    /// Free one texture the overlay no longer references.
    FreeTexture { texture: u64 },
    /// Present the finished frame.
    Present,
}

/// The discriminant of a call, for counting and ordering statements.
#[derive(Clone, Copy, Debug, PartialEq, Eq)]
pub enum CallKind {
    Viewport,
    SetClearColor,
    Clear,
    UseProgram,
    BindVertexArray,
    SetColorUniform,
    DrawTriangles,
    UploadTexture,
    PaintOverlay,
    FreeTexture,
    Present,
}

/// The kind of a call.
pub open spec fn kind(c: GlCall) -> CallKind {
    match c {
        GlCall::Viewport { .. } => CallKind::Viewport,
        GlCall::SetClearColor => CallKind::SetClearColor,
        GlCall::Clear => CallKind::Clear,
        GlCall::UseProgram => CallKind::UseProgram,
        GlCall::BindVertexArray => CallKind::BindVertexArray,
        GlCall::SetColorUniform { .. } => CallKind::SetColorUniform,
        GlCall::DrawTriangles { .. } => CallKind::DrawTriangles,
        GlCall::UploadTexture { .. } => CallKind::UploadTexture,
        GlCall::PaintOverlay => CallKind::PaintOverlay,
        GlCall::FreeTexture { .. } => CallKind::FreeTexture,
        GlCall::Present => CallKind::Present,
    }
}

/// How many calls of a kind a plan holds.
pub open spec fn count_kind(s: Seq<GlCall>, k: CallKind) -> nat
    decreases s.len(),
{
    if s.len() == 0 {
        0
    } else {
        (if kind(s[0]) == k {
            1nat
        } else {
            0nat
        }) + count_kind(s.skip(1), k)
    }
}

/// The texture delta of one frame: the textures to upload before the
/// overlay paint, and the textures to free after it.
#[derive(Clone, Debug, PartialEq, Eq)]
pub struct TextureDelta {
    pub set: Vec<u64>,
    pub free: Vec<u64>,
}

impl TextureDelta {
    /// A frame with no new and no retired textures.
    pub fn empty() -> (r: TextureDelta)
        ensures
            r.set@ == Seq::<u64>::empty(),
            r.free@ == Seq::<u64>::empty(),
    {
        let r = TextureDelta { set: Vec::new(), free: Vec::new() };
        proof {
            assert(r.set@ =~= Seq::<u64>::empty());
            assert(r.free@ =~= Seq::<u64>::empty());
        }
        r
    }
}

/// The fixed head of every plan: viewport, clear, and the triangle draw,
/// colored by the window's picked color.
pub open spec fn plan_head(st: WindowState) -> Seq<GlCall> {
    seq![
        GlCall::Viewport { width: st.width, height: st.height },
        GlCall::SetClearColor,
        GlCall::Clear,
        GlCall::UseProgram,
        GlCall::BindVertexArray,
        GlCall::SetColorUniform { color: st.overlay.color },
        GlCall::DrawTriangles { vertices: TRIANGLE_VERTICES },
    ]
}

/// The uploads of a delta, in order.
pub open spec fn upload_calls(ts: Seq<u64>) -> Seq<GlCall> {
    Seq::new(ts.len(), |i: int| GlCall::UploadTexture { texture: ts[i] })
}

/// The frees of a delta, in order.
pub open spec fn free_calls(ts: Seq<u64>) -> Seq<GlCall> {
    Seq::new(ts.len(), |i: int| GlCall::FreeTexture { texture: ts[i] })
}

/// The whole plan of one redraw.
pub open spec fn redraw_calls(st: WindowState, set: Seq<u64>, free: Seq<u64>) -> Seq<GlCall> {
    plan_head(st) + upload_calls(set) + seq![GlCall::PaintOverlay] + free_calls(free) + seq![
        GlCall::Present,
    ]
}

/// Builds the draw plan of one redraw of the given window.
pub fn redraw_plan(st: &WindowState, delta: &TextureDelta) -> (r: Vec<GlCall>)
    ensures
        r@ == redraw_calls(*st, delta.set@, delta.free@),
{
    let mut r: Vec<GlCall> = Vec::new();
    r.push(GlCall::Viewport { width: st.width, height: st.height });
    r.push(GlCall::SetClearColor);
    r.push(GlCall::Clear);
    r.push(GlCall::UseProgram);
    r.push(GlCall::BindVertexArray);
    r.push(GlCall::SetColorUniform { color: st.overlay.color });
    r.push(GlCall::DrawTriangles { vertices: TRIANGLE_VERTICES });
    proof {
        assert(r@ =~= plan_head(*st));
    }
    let ns = delta.set.len();
    let mut i: usize = 0;
    while i < ns
        invariant
            i <= ns,
            ns == delta.set@.len(),
            r@ =~= plan_head(*st) + upload_calls(delta.set@.take(i as int)),
        decreases ns - i,
    {
        r.push(GlCall::UploadTexture { texture: delta.set[i] });
        proof {
            assert(r@ =~= plan_head(*st) + upload_calls(delta.set@.take(i as int + 1)));
        }
        i += 1;
    }
    proof {
        assert(delta.set@.take(ns as int) =~= delta.set@);
        assert(r@ =~= plan_head(*st) + upload_calls(delta.set@));
    }
    r.push(GlCall::PaintOverlay);
    let ghost mid = plan_head(*st) + upload_calls(delta.set@) + seq![GlCall::PaintOverlay];
    proof {
        assert(r@ =~= mid);
    }
    let nf = delta.free.len();
    let mut j: usize = 0;
    while j < nf
        invariant
            j <= nf,
            nf == delta.free@.len(),
            r@ =~= mid + free_calls(delta.free@.take(j as int)),
        decreases nf - j,
    {
        r.push(GlCall::FreeTexture { texture: delta.free[j] });
        proof {
            assert(r@ =~= mid + free_calls(delta.free@.take(j as int + 1)));
        }
        j += 1;
    }
    proof {
        assert(delta.free@.take(nf as int) =~= delta.free@);
    }
    r.push(GlCall::Present);
    proof {
        assert(r@ =~= redraw_calls(*st, delta.set@, delta.free@));
    }
    r
}

/// Where each call of a plan stands: the positions that every ordering law
/// below reads off.
pub proof fn lemma_plan_shape(st: WindowState, set: Seq<u64>, free: Seq<u64>)
    ensures
        redraw_calls(st, set, free).len() == 9 + set.len() + free.len(),
        redraw_calls(st, set, free)[0] == (GlCall::Viewport {
            width: st.width,
            height: st.height,
        }),
        redraw_calls(st, set, free)[1] == GlCall::SetClearColor,
        redraw_calls(st, set, free)[2] == GlCall::Clear,
        redraw_calls(st, set, free)[3] == GlCall::UseProgram,
        redraw_calls(st, set, free)[4] == GlCall::BindVertexArray,
        redraw_calls(st, set, free)[5] == (GlCall::SetColorUniform { color: st.overlay.color }),
        redraw_calls(st, set, free)[6] == (GlCall::DrawTriangles { vertices: TRIANGLE_VERTICES }),
        forall|i: int|
            7 <= i < 7 + set.len() ==> redraw_calls(st, set, free)[i] == (GlCall::UploadTexture {
                texture: set[i - 7],
            }),
        redraw_calls(st, set, free)[7 + set.len() as int] == GlCall::PaintOverlay,
        forall|i: int|
            8 + set.len() <= i < 8 + set.len() + free.len() ==> redraw_calls(st, set, free)[i]
                == (GlCall::FreeTexture { texture: free[i - 8 - set.len()] }),
        redraw_calls(st, set, free)[8 + set.len() as int + free.len() as int] == GlCall::Present,
{
}

/// Counts a kind that fills exactly the positions `[lo, hi)` of a plan.
proof fn lemma_count_range(s: Seq<GlCall>, k: CallKind, lo: int, hi: int)
    requires
        0 <= lo <= hi <= s.len(),
        forall|i: int| lo <= i < hi ==> kind(s[i]) == k,
        forall|i: int| 0 <= i < s.len() && !(lo <= i < hi) ==> kind(s[i]) != k,
    ensures
        count_kind(s, k) == hi - lo,
    decreases s.len(),
{
    if s.len() > 0 {
        let t = s.skip(1);
        assert forall|i: int| 0 <= i < t.len() implies t[i] == s[i + 1] by {}
        if kind(s[0]) == k {
            lemma_count_range(t, k, 0, hi - 1);
        } else if lo == hi {
            lemma_count_range(t, k, 0, 0);
        } else {
            lemma_count_range(t, k, lo - 1, hi - 1);
        }
    }
}

/// Which positions of a plan hold which kind of call: the triangle draw is
/// the single position 6, the uploads fill the block after the head, the
/// overlay paint follows them, the frees follow it, and the present closes
/// the plan.
pub proof fn lemma_plan_kind_positions(st: WindowState, set: Seq<u64>, free: Seq<u64>)
    ensures
        forall|i: int|
            0 <= i < redraw_calls(st, set, free).len() ==> (kind(redraw_calls(st, set, free)[i])
                == CallKind::DrawTriangles <==> i == 6),
        forall|i: int|
            0 <= i < redraw_calls(st, set, free).len() ==> (kind(redraw_calls(st, set, free)[i])
                == CallKind::UploadTexture <==> 7 <= i < 7 + set.len() as int),
        forall|i: int|
            0 <= i < redraw_calls(st, set, free).len() ==> (kind(redraw_calls(st, set, free)[i])
                == CallKind::PaintOverlay <==> i == 7 + set.len() as int),
        forall|i: int|
            0 <= i < redraw_calls(st, set, free).len() ==> (kind(redraw_calls(st, set, free)[i])
                == CallKind::FreeTexture <==> 8 + set.len() as int <= i < 8 + set.len() as int
                + free.len() as int),
        forall|i: int|
            0 <= i < redraw_calls(st, set, free).len() ==> (kind(redraw_calls(st, set, free)[i])
                == CallKind::Present <==> i == 8 + set.len() as int + free.len() as int),
{
    lemma_plan_shape(st, set, free);
}

/// Law: a plan uploads exactly the delta's new textures and frees exactly
/// its retired ones — in particular, a frame with an empty delta performs
/// zero upload calls and zero free calls.
pub proof fn lemma_texture_counts(st: WindowState, set: Seq<u64>, free: Seq<u64>)
    ensures
        count_kind(redraw_calls(st, set, free), CallKind::UploadTexture) == set.len(),
        count_kind(redraw_calls(st, set, free), CallKind::FreeTexture) == free.len(),
{
    let p = redraw_calls(st, set, free);
    lemma_plan_kind_positions(st, set, free);
    lemma_plan_shape(st, set, free);
    lemma_count_range(p, CallKind::UploadTexture, 7, 7 + set.len() as int);
    lemma_count_range(
        p,
        CallKind::FreeTexture,
        8 + set.len() as int,
        8 + set.len() as int + free.len() as int,
    );
}

/// Law: every plan draws the fixed triangle of 3 vertices exactly once,
/// before any overlay paint; it paints the overlay exactly once; every
/// texture upload comes before the overlay paint and every texture free
/// after it; and the plan presents exactly once, as its last call.
pub proof fn lemma_frame_order(st: WindowState, set: Seq<u64>, free: Seq<u64>)
    ensures
        count_kind(redraw_calls(st, set, free), CallKind::DrawTriangles) == 1,
        redraw_calls(st, set, free)[6] == (GlCall::DrawTriangles { vertices: TRIANGLE_VERTICES }),
        count_kind(redraw_calls(st, set, free), CallKind::PaintOverlay) == 1,
        count_kind(redraw_calls(st, set, free), CallKind::Present) == 1,
        redraw_calls(st, set, free).last() == GlCall::Present,
        forall|i: int, j: int|
            0 <= i < redraw_calls(st, set, free).len() && 0 <= j < redraw_calls(
                st,
                set,
                free,
            ).len() && kind(redraw_calls(st, set, free)[i]) == CallKind::DrawTriangles && kind(
                redraw_calls(st, set, free)[j],
            ) == CallKind::PaintOverlay ==> i < j,
        forall|i: int, j: int|
            0 <= i < redraw_calls(st, set, free).len() && 0 <= j < redraw_calls(
                st,
                set,
                free,
            ).len() && kind(redraw_calls(st, set, free)[i]) == CallKind::UploadTexture && kind(
                redraw_calls(st, set, free)[j],
            ) == CallKind::PaintOverlay ==> i < j,
        forall|i: int, j: int|
            0 <= i < redraw_calls(st, set, free).len() && 0 <= j < redraw_calls(
                st,
                set,
                free,
            ).len() && kind(redraw_calls(st, set, free)[i]) == CallKind::FreeTexture && kind(
                redraw_calls(st, set, free)[j],
            ) == CallKind::PaintOverlay ==> j < i,
        forall|i: int, j: int|
            0 <= i < redraw_calls(st, set, free).len() && 0 <= j < redraw_calls(
                st,
                set,
                free,
            ).len() && kind(redraw_calls(st, set, free)[i]) == CallKind::FreeTexture && kind(
                redraw_calls(st, set, free)[j],
            ) == CallKind::Present ==> i < j,
{
    let p = redraw_calls(st, set, free);
    lemma_plan_kind_positions(st, set, free);
    lemma_plan_shape(st, set, free);
    lemma_count_range(p, CallKind::DrawTriangles, 6, 7);
    lemma_count_range(p, CallKind::PaintOverlay, 7 + set.len() as int, 8 + set.len() as int);
    lemma_count_range(
        p,
        CallKind::Present,
        8 + set.len() as int + free.len() as int,
        9 + set.len() as int + free.len() as int,
    );
}

} // verus!
