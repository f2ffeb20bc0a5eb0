use vstd::prelude::*;

use crate::renderer::{
    acquire_m, begin_frame_m, note_resize_m, present_ack_m, present_m, rebuild_m, submit_info_m,
    submit_m, AcquireOutcome, PresentOutcome, Renderer, SchedModel, SubmitInfo,
};
use crate::swapchain::{resolved_extent, Extent2D};

verus! {

/// One full successful frame from an idle scheduler: begin, acquire a
/// usable image, submit, enqueue the present, acknowledge its outcome.
/// Yields the state after the frame and the submission it enqueued.
pub open spec fn successful_frame_m(
    m: SchedModel,
    image_index: u32,
    suboptimal: bool,
    outcome: PresentOutcome,
) -> (SchedModel, SubmitInfo) {
    let acquired = acquire_m(begin_frame_m(m), AcquireOutcome::Ready { image_index, suboptimal });
    let info = submit_info_m(acquired);
    let submitted = submit_m(acquired);
    let presented = present_m(submitted);
    (present_ack_m(presented, outcome), info)
}

/// For every successful frame N, the completion token consumed at the
/// start of frame N+1 — the one joined into frame N+1's submission as its
/// wait dependency — is exactly the token frame N's submit step produced:
/// chaining skips nothing and duplicates nothing.
pub proof fn lemma_token_chain(m: SchedModel, image1: u32, image2: u32)
    requires
        m.phase is Idle,
        !m.rebuild_pending,
        m.next_token_id < u64::MAX,
        m.frames_completed < u64::MAX,
    ensures
        ({
            let (after1, info1) = successful_frame_m(m, image1, false, PresentOutcome::Presented);
            let acquired2 = acquire_m(
                begin_frame_m(after1),
                AcquireOutcome::Ready { image_index: image2, suboptimal: false },
            );
            let info2 = submit_info_m(acquired2);
            &&& after1.prev_token == info1.signal_token
            &&& info2.wait_token == info1.signal_token
        }),
{
}

/// A rebuild between two frames — owed, for instance, after a present
/// that reported the chain suboptimal — does not disturb the chaining:
/// the next frame's submission still waits on exactly the token the last
/// frame produced.
pub proof fn lemma_token_chain_across_rebuild(
    m: SchedModel,
    image1: u32,
    image2: u32,
    current: Option<Extent2D>,
    has_format: bool,
)
    requires
        m.phase is Idle,
        !m.rebuild_pending,
        m.next_token_id < u64::MAX,
        m.frames_completed < u64::MAX,
        m.swapchain.generation < u64::MAX,
    ensures
        ({
            let (after1, info1) = successful_frame_m(m, image1, false, PresentOutcome::Suboptimal);
            let rebuilt = rebuild_m(after1, current, has_format);
            let acquired2 = acquire_m(
                begin_frame_m(rebuilt),
                AcquireOutcome::Ready { image_index: image2, suboptimal: false },
            );
            let info2 = submit_info_m(acquired2);
            &&& rebuilt.prev_token == info1.signal_token
            &&& info2.wait_token == info1.signal_token
        }),
{
}

/// Rebuild is idempotent under repeated invalidation: two out-of-date
/// signals in immediate succession collapse into exactly one rebuild
/// before the next successful frame, using the most recent extent, and
/// the chain generation grows by exactly one.
pub proof fn lemma_rebuild_coalesces(
    m: SchedModel,
    e1: Extent2D,
    e2: Extent2D,
    current: Option<Extent2D>,
    has_format: bool,
)
    requires
        m.swapchain.generation < u64::MAX,
    ensures
        note_resize_m(note_resize_m(m, e1), e2) == note_resize_m(m, e2),
        rebuild_m(note_resize_m(note_resize_m(m, e1), e2), current, has_format) == rebuild_m(
            note_resize_m(m, e2),
            current,
            has_format,
        ),
        !resolved_extent(current, e2).is_degenerate() && has_format ==> rebuild_m(
            note_resize_m(m, e2),
            current,
            has_format,
        ).swapchain.generation == m.swapchain.generation + 1,
{
}

/// In every reachable scheduler state — in particular right after any
/// rebuild — the framebuffer set is 1:1 with the swapchain's images,
/// every framebuffer's bound extent equals the chain's current extent,
/// and the pipeline's baked viewport matches it too.
pub proof fn lemma_graphics_track_chain(r: Renderer)
    requires
        r.wf(),
    ensures
        r.graphics.framebuffers@.len() == r.swapchain.image_count,
        forall|i: int|
            0 <= i < r.graphics.framebuffers@.len() ==> r.graphics.framebuffers@[i].extent
                == r.swapchain.extent,
        r.graphics.pipeline.viewport == r.swapchain.extent,
{
}

} // verus!
