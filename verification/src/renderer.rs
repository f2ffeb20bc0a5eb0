use vstd::prelude::*;

use crate::error::RenderError;
use crate::graphics::FrameGraphics;
use crate::mesh::{create_cube, cube_indices};
use crate::swapchain::{
    clamped_image_count, chosen_format, create_swapchain, recreate_swapchain, resolved_extent,
    Extent2D, SurfaceCaps, Swapchain,
};
use crate::uniform::{uniform_params, update_uniform, UniformParams, ANGLE_URAD_PER_MS};

verus! {

/// An opaque handle for "all GPU work from one submission has finished".
///
/// Tokens are minted by the scheduler with strictly growing identifiers.
/// An `immediate` token is satisfied the moment it is minted: it guards
/// no outstanding work. Whether a submission token is satisfied is known
/// only to the GPU; the shell keeps that association and queries or waits
/// on it under the token's identifier.
#[derive(Clone, Copy, Debug, PartialEq, Eq, Structural)]
pub struct CompletionToken {
    pub id: u64,
    /// Satisfied from birth: no submission stands behind it.
    pub immediate: bool,
}

/// What the presentation engine answered when asked for the next image.
#[derive(Clone, Copy, Debug, PartialEq, Eq, Structural)]
pub enum AcquireOutcome {
    /// An image is available. `suboptimal` warns that the chain no longer
    /// matches the surface perfectly, though the image is still usable.
    Ready { image_index: u32, suboptimal: bool },
    /// The surface no longer matches the chain; nothing was acquired.
    OutOfDate,
    /// Any other acquire failure.
    Failed,
}

/// What the presentation engine answered to the present request.
#[derive(Clone, Copy, Debug, PartialEq, Eq, Structural)]
pub enum PresentOutcome {
    /// The image was presented.
    Presented,
    /// The image was presented, but the chain no longer matches the
    /// surface perfectly.
    Suboptimal,
    /// The surface no longer matches the chain; nothing was presented.
    OutOfDate,
    /// Any other present failure.
    Failed,
}

/// Where the per-frame protocol stands.
#[derive(Clone, Copy, Debug, PartialEq, Eq, Structural)]
pub enum Phase {
    /// Between frames.
    Idle,
    /// An acquire request is outstanding.
    Acquiring,
    /// An image is acquired and the frame's commands are being recorded.
    Recording { image_index: u32 },
    /// The recorded work was submitted, minting the token `token_id`.
    Submitted { image_index: u32, token_id: u64 },
    /// The present request for the acquired image is being enqueued.
    Presenting { image_index: u32, token_id: u64 },
    /// A surface mismatch was detected. The only way back to `Idle` is a
    /// full rebuild of the swapchain and its graphics state.
    Invalidated,
}

/// What the shell must do with the current tick after an acquire.
#[derive(Clone, Copy, Debug, PartialEq, Eq, Structural)]
pub enum FrameDirective {
    /// Record and submit the frame for the acquired image.
    Draw { image_index: u32 },
    /// Skip this tick without drawing; rebuild, then start the next frame.
    Skip,
}

/// The one submission of a frame, as handed to the queue: it may execute
/// only once both wait dependencies are ordered before it, and it signals
/// `signal_token` on completion.
#[derive(Clone, Copy, Debug, PartialEq, Eq, Structural)]
pub struct SubmitInfo {
    /// Image whose acquire signal the submission waits on.
    pub image_index: u32,
    /// The previous frame's completion token, joined in as the second
    /// wait dependency. This chains submissions: frame N's work is
    /// ordered after frame N-1's, so two in-flight submissions never
    /// write the same resources concurrently.
    pub wait_token: CompletionToken,
    /// Token the submission signals when all its GPU work has finished.
    pub signal_token: CompletionToken,
}

/// Red component of the fixed clear color, in thousandths.
pub const CLEAR_R_MILLI: u32 = 0;

/// Green component of the fixed clear color, in thousandths.
pub const CLEAR_G_MILLI: u32 = 0;

/// Blue component of the fixed clear color, in thousandths.
pub const CLEAR_B_MILLI: u32 = 200;

/// Alpha component of the fixed clear color, in thousandths.
pub const CLEAR_A_MILLI: u32 = 1000;

/// One step of the single-use command sequence recorded for a frame.
#[derive(Clone, Copy, Debug, PartialEq, Eq, Structural)]
pub enum DrawCommand {
    /// Begin the render pass, bound to the framebuffer of the acquired
    /// image, clearing the color attachment to the fixed clear color
    /// (RGBA components in thousandths).
    BeginRenderPass { framebuffer_index: u32, r_milli: u32, g_milli: u32, b_milli: u32, a_milli: u32 },
    /// Bind the graphics pipeline of the given chain generation.
    BindPipeline { generation: u64 },
    /// Bind the static vertex buffer.
    BindVertexBuffer,
    /// Bind the static index buffer.
    BindIndexBuffer,
    /// One indexed draw covering the full static mesh.
    DrawIndexed { index_count: u32 },
    /// End the render pass.
    EndRenderPass,
}

/// How a rebuild request ended.
#[derive(Clone, Copy, Debug, PartialEq, Eq, Structural)]
pub enum RebuildOutcome {
    /// The swapchain and its graphics state were replaced by the next
    /// generation.
    Rebuilt,
    /// The surface currently has zero area (for instance, a minimized
    /// window); nothing was replaced, and a later tick retries.
    Skipped,
}

/// Everything a law observes of the scheduler. The framebuffer and
/// pipeline details are omitted: well-formedness pins them to the
/// swapchain exactly.
#[derive(Clone, Copy, Debug, PartialEq, Eq, Structural)]
pub struct SchedModel {
    pub swapchain: Swapchain,
    pub phase: Phase,
    pub frames_completed: u64,
    pub prev_token: CompletionToken,
    pub next_token_id: u64,
    pub rebuild_pending: bool,
    pub fallback_extent: Extent2D,
    pub index_count: u32,
}

/// Starting a frame: the scheduler moves to `Acquiring` while the shell
/// asks the presentation engine for the next image.
pub open spec fn begin_frame_m(m: SchedModel) -> SchedModel
    recommends
        m.phase is Idle,
{
    SchedModel { phase: Phase::Acquiring, ..m }
}

/// Interpreting the acquire outcome. A usable image starts recording —
/// a suboptimal warning additionally schedules a rebuild for the next
/// tick. An out-of-date surface invalidates the chain without drawing.
/// Any other failure is fatal and leaves the scheduler idle.
pub open spec fn acquire_m(m: SchedModel, outcome: AcquireOutcome) -> SchedModel
    recommends
        m.phase is Acquiring,
{
    match outcome {
        AcquireOutcome::Ready { image_index, suboptimal } => SchedModel {
            phase: Phase::Recording { image_index },
            rebuild_pending: m.rebuild_pending || suboptimal,
            ..m
        },
        AcquireOutcome::OutOfDate => SchedModel { phase: Phase::Invalidated, ..m },
        AcquireOutcome::Failed => SchedModel { phase: Phase::Idle, ..m },
    }
}

/// The submission a frame in recording hands to the queue: it waits on
/// the acquired image's signal and on the previous frame's completion
/// token, and signals a token minted fresh from the counter.
pub open spec fn submit_info_m(m: SchedModel) -> SubmitInfo
    recommends
        m.phase is Recording,
{
    SubmitInfo {
        image_index: m.phase->Recording_image_index,
        wait_token: m.prev_token,
        signal_token: CompletionToken { id: m.next_token_id, immediate: false },
    }
}

/// Submitting: the frame's recorded work is enqueued and the minted
/// token's identifier is carried to the present step.
pub open spec fn submit_m(m: SchedModel) -> SchedModel
    recommends
        m.phase is Recording,
        m.next_token_id < u64::MAX,
{
    SchedModel {
        phase: Phase::Submitted {
            image_index: m.phase->Recording_image_index,
            token_id: m.next_token_id,
        },
        next_token_id: (m.next_token_id + 1) as u64,
        ..m
    }
}

/// Enqueueing the present request for the submitted image.
pub open spec fn present_m(m: SchedModel) -> SchedModel
    recommends
        m.phase is Submitted,
{
    SchedModel {
        phase: Phase::Presenting {
            image_index: m.phase->Submitted_image_index,
            token_id: m.phase->Submitted_token_id,
        },
        ..m
    }
}

/// Interpreting the present outcome. A presented frame — suboptimal or
/// not — completes: its submission's token becomes the previous token the
/// next frame chains on; a suboptimal warning additionally schedules a
/// rebuild. An out-of-date surface invalidates the chain, and the stale
/// token is replaced by an immediately satisfied one, since the rebuild's
/// device-idle wait subsumes any outstanding work; so does any other
/// failure, which is fatal.
pub open spec fn present_ack_m(m: SchedModel, outcome: PresentOutcome) -> SchedModel
    recommends
        m.phase is Presenting,
        m.next_token_id < u64::MAX,
        m.frames_completed < u64::MAX,
{
    match outcome {
        PresentOutcome::Presented => SchedModel {
            phase: Phase::Idle,
            prev_token: CompletionToken { id: m.phase->Presenting_token_id, immediate: false },
            frames_completed: (m.frames_completed + 1) as u64,
            ..m
        },
        PresentOutcome::Suboptimal => SchedModel {
            phase: Phase::Idle,
            prev_token: CompletionToken { id: m.phase->Presenting_token_id, immediate: false },
            frames_completed: (m.frames_completed + 1) as u64,
            rebuild_pending: true,
            ..m
        },
        PresentOutcome::OutOfDate => SchedModel {
            phase: Phase::Invalidated,
            prev_token: CompletionToken { id: m.next_token_id, immediate: true },
            next_token_id: (m.next_token_id + 1) as u64,
            ..m
        },
        PresentOutcome::Failed => SchedModel {
            phase: Phase::Idle,
            prev_token: CompletionToken { id: m.next_token_id, immediate: true },
            next_token_id: (m.next_token_id + 1) as u64,
            ..m
        },
    }
}

/// Noting a resize: the latest extent is remembered and a rebuild is
/// scheduled. Several resizes before the next tick coalesce, the latest
/// extent winning.
pub open spec fn note_resize_m(m: SchedModel, extent: Extent2D) -> SchedModel {
    SchedModel { fallback_extent: extent, rebuild_pending: true, ..m }
}

/// Rebuilding: the chain is replaced by its next generation at the extent
/// the surface reports (falling back to the latest known window extent),
/// and the scheduler returns to `Idle`. A degenerate extent skips the
/// rebuild wholesale, and a surface without formats leaves the state
/// unchanged while the caller aborts.
pub open spec fn rebuild_m(m: SchedModel, current: Option<Extent2D>, has_format: bool) -> SchedModel
    recommends
        m.swapchain.generation < u64::MAX,
{
    let resolved = resolved_extent(current, m.fallback_extent);
    if resolved.is_degenerate() || !has_format {
        m
    } else {
        SchedModel {
            swapchain: Swapchain {
                format: m.swapchain.format,
                extent: resolved,
                image_count: m.swapchain.image_count,
                generation: (m.swapchain.generation + 1) as u64,
            },
            phase: Phase::Idle,
            rebuild_pending: false,
            ..m
        }
    }
}

/// The commands of one frame: begin the render pass on the acquired
/// image's framebuffer with the fixed clear color, bind the pipeline and
/// the static buffers, draw the full mesh once, end the pass.
pub open spec fn frame_commands(image_index: u32, generation: u64, index_count: u32) -> Seq<
    DrawCommand,
> {
    seq![
        DrawCommand::BeginRenderPass {
            framebuffer_index: image_index,
            r_milli: CLEAR_R_MILLI,
            g_milli: CLEAR_G_MILLI,
            b_milli: CLEAR_B_MILLI,
            a_milli: CLEAR_A_MILLI,
        },
        DrawCommand::BindPipeline { generation },
        DrawCommand::BindVertexBuffer,
        DrawCommand::BindIndexBuffer,
        DrawCommand::DrawIndexed { index_count },
        DrawCommand::EndRenderPass,
    ]
}

/// The frame scheduler: owns the swapchain generation and its graphics
/// state, sequences acquire, record, submit and present for each frame,
/// chains each submission on the previous frame's completion token, and
/// rebuilds both owned components whenever the surface is invalidated.
#[derive(Clone, Debug)]
pub struct Renderer {
    /// Metadata of the current swapchain generation.
    pub swapchain: Swapchain,
    /// Render pass, framebuffers and pipeline of the current generation.
    pub graphics: FrameGraphics,
    /// Where the per-frame protocol stands.
    pub phase: Phase,
    /// Frames successfully presented so far.
    pub frames_completed: u64,
    /// Token guarding the resources of the previous submission.
    pub prev_token: CompletionToken,
    /// Identifier the next minted token receives.
    pub next_token_id: u64,
    /// A rebuild is owed before the next frame begins.
    pub rebuild_pending: bool,
    /// Latest drawable size known from the window, used whenever the
    /// surface does not report one.
    pub fallback_extent: Extent2D,
    /// Number of indices of the static mesh, covered by each frame's one
    /// indexed draw.
    pub index_count: u32,
}

impl Renderer {
    /// The scheduler's observable state.
    pub open spec fn model(self) -> SchedModel {
        SchedModel {
            swapchain: self.swapchain,
            phase: self.phase,
            frames_completed: self.frames_completed,
            prev_token: self.prev_token,
            next_token_id: self.next_token_id,
            rebuild_pending: self.rebuild_pending,
            fallback_extent: self.fallback_extent,
            index_count: self.index_count,
        }
    }

    /// Well-formedness, established by `new` and preserved by every
    /// method: the graphics state belongs to the current chain exactly,
    /// token identifiers grow, and whatever the phase carries is valid
    /// for the current chain.
    pub open spec fn wf(self) -> bool {
        &&& self.graphics.matches_swapchain(self.swapchain)
        &&& self.prev_token.id < self.next_token_id
        &&& match self.phase {
            Phase::Idle => true,
            Phase::Acquiring => true,
            Phase::Recording { image_index } => image_index < self.swapchain.image_count,
            Phase::Submitted { image_index, token_id } => {
                &&& image_index < self.swapchain.image_count
                &&& self.prev_token.id < token_id < self.next_token_id
            },
            Phase::Presenting { image_index, token_id } => {
                &&& image_index < self.swapchain.image_count
                &&& self.prev_token.id < token_id < self.next_token_id
            },
            Phase::Invalidated => true,
        }
    }

    /// A rebuild must run before the next frame may begin.
    pub open spec fn needs_rebuild_spec(self) -> bool {
        self.phase is Invalidated || self.rebuild_pending
    }

    /// Executable check matching `needs_rebuild_spec`.
    pub fn needs_rebuild(&self) -> (r: bool)
        ensures
            r == self.needs_rebuild_spec(),
    {
        matches!(self.phase, Phase::Invalidated) || self.rebuild_pending
    }

    /// The scheduler's observable state, for callers outside the library.
    pub fn snapshot(&self) -> (m: SchedModel)
        ensures
            m == self.model(),
    {
        SchedModel {
            swapchain: self.swapchain,
            phase: self.phase,
            frames_completed: self.frames_completed,
            prev_token: self.prev_token,
            next_token_id: self.next_token_id,
            rebuild_pending: self.rebuild_pending,
            fallback_extent: self.fallback_extent,
            index_count: self.index_count,
        }
    }

    /// Builds the scheduler and its first swapchain generation against
    /// the given surface report: format per `chosen_format`, extent per
    /// `resolved_extent` with the window size as fallback, image count
    /// per `clamped_image_count`. The previous-token slot starts with an
    /// immediately satisfied token, as nothing is in flight yet. Fails
    /// with `DeviceError` exactly when the surface reports no format.
    pub fn new(caps: &SurfaceCaps, requested_images: u32, window_extent: Extent2D) -> (r: Result<
        Renderer,
        RenderError,
    >)
        requires
            caps.wf(),
        ensures
            r is Ok <==> caps.formats@.len() > 0,
            r matches Err(e) ==> e == RenderError::DeviceError,
            r matches Ok(rd) ==> {
                &&& rd.wf()
                &&& rd.phase is Idle
                &&& rd.frames_completed == 0
                &&& !rd.rebuild_pending
                &&& rd.prev_token == (CompletionToken { id: 0, immediate: true })
                &&& rd.next_token_id == 1
                &&& rd.fallback_extent == window_extent
                &&& rd.index_count == cube_indices().len()
                &&& rd.swapchain.generation == 0
                &&& rd.swapchain.format == chosen_format(caps.formats@)
                &&& rd.swapchain.extent == resolved_extent(caps.current_extent, window_extent)
                &&& rd.swapchain.image_count == clamped_image_count(
                    requested_images,
                    caps.min_image_count,
                    caps.max_image_count,
                )
            },
    {
        let bundle = create_swapchain(caps, requested_images, window_extent)?;
        let graphics = FrameGraphics::build(&bundle);
        let (_vertices, indices) = create_cube();
        let index_count = indices.len() as u32;
        Ok(
            Renderer {
                swapchain: bundle.swapchain,
                graphics,
                phase: Phase::Idle,
                frames_completed: 0,
                prev_token: CompletionToken { id: 0, immediate: true },
                next_token_id: 1,
                rebuild_pending: false,
                fallback_extent: window_extent,
                index_count,
            },
        )
    }

    /// Starts a frame. Returns the previous frame's completion token so
    /// the shell can prune CPU bookkeeping for work that token no longer
    /// guards — a non-blocking reclaim; the scheduler never waits here.
    pub fn begin_frame(&mut self) -> (t: CompletionToken)
        requires
            old(self).wf(),
            old(self).phase is Idle,
            !old(self).needs_rebuild_spec(),
        ensures
            final(self).wf(),
            final(self).model() == begin_frame_m(old(self).model()),
            t == old(self).prev_token,
    {
        self.phase = Phase::Acquiring;
        self.prev_token
    }

    /// Feeds back what the acquire returned and decides the tick: draw on
    /// a usable image (scheduling a rebuild for the next tick when it was
    /// suboptimal), skip and invalidate on an out-of-date surface, and
    /// fail with `DeviceError` on anything else.
    pub fn on_acquire(&mut self, outcome: AcquireOutcome) -> (r: Result<
        FrameDirective,
        RenderError,
    >)
        requires
            old(self).wf(),
            old(self).phase is Acquiring,
            outcome matches AcquireOutcome::Ready { image_index, .. } ==> image_index < old(
                self,
            ).swapchain.image_count,
        ensures
            final(self).wf(),
            final(self).model() == acquire_m(old(self).model(), outcome),
            match outcome {
                AcquireOutcome::Ready { image_index, .. } => r == Ok::<
                    FrameDirective,
                    RenderError,
                >(FrameDirective::Draw { image_index }),
                AcquireOutcome::OutOfDate => r == Ok::<FrameDirective, RenderError>(
                    FrameDirective::Skip,
                ),
                AcquireOutcome::Failed => r == Err::<FrameDirective, RenderError>(
                    RenderError::DeviceError,
                ),
            },
    {
        match outcome {
            AcquireOutcome::Ready { image_index, suboptimal } => {
                self.phase = Phase::Recording { image_index };
                if suboptimal {
                    self.rebuild_pending = true;
                }
                Ok(FrameDirective::Draw { image_index })
            },
            AcquireOutcome::OutOfDate => {
                self.phase = Phase::Invalidated;
                Ok(FrameDirective::Skip)
            },
            AcquireOutcome::Failed => {
                self.phase = Phase::Idle;
                Err(RenderError::DeviceError)
            },
        }
    }

    /// Records the frame's single-use command sequence. Recording has no
    /// GPU-visible side effect until the sequence is submitted.
    pub fn record_commands(&self) -> (cmds: Vec<DrawCommand>)
        requires
            self.wf(),
            self.phase is Recording,
        ensures
            cmds@ == frame_commands(
                self.phase->Recording_image_index,
                self.swapchain.generation,
                self.index_count,
            ),
    {
        let image_index = match self.phase {
            Phase::Recording { image_index } => image_index,
            _ => {
                assert(false);
                0
            },
        };
        let mut cmds: Vec<DrawCommand> = Vec::new();
        cmds.push(
            DrawCommand::BeginRenderPass {
                framebuffer_index: image_index,
                r_milli: CLEAR_R_MILLI,
                g_milli: CLEAR_G_MILLI,
                b_milli: CLEAR_B_MILLI,
                a_milli: CLEAR_A_MILLI,
            },
        );
        cmds.push(DrawCommand::BindPipeline { generation: self.swapchain.generation });
        cmds.push(DrawCommand::BindVertexBuffer);
        cmds.push(DrawCommand::BindIndexBuffer);
        cmds.push(DrawCommand::DrawIndexed { index_count: self.index_count });
        cmds.push(DrawCommand::EndRenderPass);
        proof {
            assert(cmds@ =~= frame_commands(
                self.phase->Recording_image_index,
                self.swapchain.generation,
                self.index_count,
            ));
        }
        cmds
    }

    /// Submits the recorded frame: one submission waiting on both the
    /// image-acquired signal and the previous frame's completion token,
    /// signalling a token minted fresh from the counter.
    pub fn submit(&mut self) -> (info: SubmitInfo)
        requires
            old(self).wf(),
            old(self).phase is Recording,
            old(self).next_token_id < u64::MAX,
        ensures
            final(self).wf(),
            final(self).model() == submit_m(old(self).model()),
            info == submit_info_m(old(self).model()),
            info.wait_token == old(self).prev_token,
            info.signal_token.id == old(self).next_token_id,
    {
        let image_index = match self.phase {
            Phase::Recording { image_index } => image_index,
            _ => {
                assert(false);
                0
            },
        };
        let info = SubmitInfo {
            image_index,
            wait_token: self.prev_token,
            signal_token: CompletionToken { id: self.next_token_id, immediate: false },
        };
        self.phase = Phase::Submitted { image_index, token_id: self.next_token_id };
        self.next_token_id = self.next_token_id + 1;
        info
    }

    /// Enqueues the present request for the submitted image on the same
    /// queue; returns the image index to present.
    pub fn present(&mut self) -> (image_index: u32)
        requires
            old(self).wf(),
            old(self).phase is Submitted,
        ensures
            final(self).wf(),
            final(self).model() == present_m(old(self).model()),
            image_index == old(self).phase->Submitted_image_index,
    {
        let (image_index, token_id) = match self.phase {
            Phase::Submitted { image_index, token_id } => (image_index, token_id),
            _ => {
                assert(false);
                (0, 0)
            },
        };
        self.phase = Phase::Presenting { image_index, token_id };
        image_index
    }

    /// Feeds back what the present returned. A presented frame completes
    /// and its token becomes the one the next frame chains on; suboptimal
    /// additionally schedules a rebuild before the next frame. Out-of-date
    /// invalidates the chain and replaces the stale token with an
    /// immediately satisfied one. Anything else fails with `DeviceError`.
    pub fn on_present(&mut self, outcome: PresentOutcome) -> (r: Result<(), RenderError>)
        requires
            old(self).wf(),
            old(self).phase is Presenting,
            old(self).next_token_id < u64::MAX,
            old(self).frames_completed < u64::MAX,
        ensures
            final(self).wf(),
            final(self).model() == present_ack_m(old(self).model(), outcome),
            match outcome {
                PresentOutcome::Failed => r == Err::<(), RenderError>(RenderError::DeviceError),
                _ => r == Ok::<(), RenderError>(()),
            },
            (outcome == PresentOutcome::Presented || outcome == PresentOutcome::Suboptimal)
                ==> final(self).prev_token == (CompletionToken {
                id: old(self).phase->Presenting_token_id,
                immediate: false,
            }),
    {
        let token_id = match self.phase {
            Phase::Presenting { token_id, .. } => token_id,
            _ => {
                assert(false);
                0
            },
        };
        match outcome {
            PresentOutcome::Presented => {
                self.phase = Phase::Idle;
                self.prev_token = CompletionToken { id: token_id, immediate: false };
                self.frames_completed = self.frames_completed + 1;
                Ok(())
            },
            PresentOutcome::Suboptimal => {
                self.phase = Phase::Idle;
                self.prev_token = CompletionToken { id: token_id, immediate: false };
                self.frames_completed = self.frames_completed + 1;
                self.rebuild_pending = true;
                Ok(())
            },
            PresentOutcome::OutOfDate => {
                self.phase = Phase::Invalidated;
                self.prev_token = CompletionToken { id: self.next_token_id, immediate: true };
                self.next_token_id = self.next_token_id + 1;
                Ok(())
            },
            PresentOutcome::Failed => {
                self.phase = Phase::Idle;
                self.prev_token = CompletionToken { id: self.next_token_id, immediate: true };
                self.next_token_id = self.next_token_id + 1;
                Err(RenderError::DeviceError)
            },
        }
    }

    /// Notes a window resize. Resizes are coalesced: however many arrive
    /// before the next tick, one rebuild runs, using the latest extent.
    pub fn note_resize(&mut self, extent: Extent2D)
        requires
            old(self).wf(),
        ensures
            final(self).wf(),
            final(self).model() == note_resize_m(old(self).model(), extent),
    {
        self.fallback_extent = extent;
        self.rebuild_pending = true;
    }

    /// Rebuilds the swapchain and its graphics state as one new
    /// generation, against a fresh surface report. The caller must have
    /// ordered all GPU work referencing the old chain before this call
    /// (a device-idle wait); the old chain's images and framebuffers are
    /// invalid the instant it returns. A degenerate resolved extent skips
    /// the rebuild (`Skipped`); a surface without formats fails with
    /// `DeviceError` and leaves the state unchanged.
    pub fn rebuild(&mut self, caps: &SurfaceCaps) -> (r: Result<RebuildOutcome, RenderError>)
        requires
            old(self).wf(),
            caps.wf(),
            old(self).phase is Idle || old(self).phase is Invalidated,
            old(self).swapchain.generation < u64::MAX,
        ensures
            final(self).wf(),
            final(self).model() == rebuild_m(
                old(self).model(),
                caps.current_extent,
                caps.formats@.len() > 0,
            ),
            ({
                let resolved = resolved_extent(caps.current_extent, old(self).fallback_extent);
                &&& (r == Ok::<RebuildOutcome, RenderError>(RebuildOutcome::Skipped)
                    <==> resolved.is_degenerate())
                &&& (r == Err::<RebuildOutcome, RenderError>(RenderError::DeviceError)
                    <==> !resolved.is_degenerate() && caps.formats@.len() == 0)
                &&& r == Ok::<RebuildOutcome, RenderError>(RebuildOutcome::Rebuilt) ==> {
                    &&& final(self).swapchain.generation == old(self).swapchain.generation + 1
                    &&& final(self).swapchain.extent == resolved
                    &&& final(self).phase is Idle
                    &&& !final(self).rebuild_pending
                    &&& final(self).prev_token == old(self).prev_token
                }
            }),
    {
        let resolved = match caps.current_extent {
            Some(e) => e,
            None => self.fallback_extent,
        };
        if resolved.is_zero() {
            return Ok(RebuildOutcome::Skipped);
        }
        let bundle = recreate_swapchain(caps, &self.swapchain, self.fallback_extent)?;
        let graphics = FrameGraphics::build(&bundle);
        self.swapchain = bundle.swapchain;
        self.graphics = graphics;
        self.phase = Phase::Idle;
        self.rebuild_pending = false;
        Ok(RebuildOutcome::Rebuilt)
    }

    /// The uniform block owed for this frame, from the wall-clock time
    /// elapsed since startup: written from the CPU strictly before the
    /// frame's recording. The aspect ratio is re-derived from the current
    /// extent, so it tracks every rebuild exactly.
    pub fn frame_uniform(&self, elapsed_ms: u64) -> (u: UniformParams)
        requires
            elapsed_ms <= u64::MAX / ANGLE_URAD_PER_MS,
        ensures
            u == uniform_params(elapsed_ms, self.swapchain.extent),
    {
        update_uniform(elapsed_ms, self.swapchain.extent)
    }
}

} // verus!
