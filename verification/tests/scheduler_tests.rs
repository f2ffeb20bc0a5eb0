use frameloop::error::RenderError;
use frameloop::renderer::{
    AcquireOutcome, CompletionToken, DrawCommand, FrameDirective, Phase, PresentOutcome,
    RebuildOutcome, Renderer, SubmitInfo, CLEAR_A_MILLI, CLEAR_B_MILLI, CLEAR_G_MILLI,
    CLEAR_R_MILLI,
};
use frameloop::swapchain::{Extent2D, SurfaceCaps, SurfaceFormat};

fn caps_with_extent(width: u32, height: u32) -> SurfaceCaps {
    SurfaceCaps {
        min_image_count: 2,
        max_image_count: Some(8),
        current_extent: Some(Extent2D { width, height }),
        formats: vec![SurfaceFormat { format: 50, color_space: 0 }],
    }
}

fn caps_without_extent() -> SurfaceCaps {
    SurfaceCaps {
        min_image_count: 2,
        max_image_count: Some(8),
        current_extent: None,
        formats: vec![SurfaceFormat { format: 50, color_space: 0 }],
    }
}

fn fresh_renderer() -> Renderer {
    Renderer::new(&caps_with_extent(800, 600), 3, Extent2D { width: 800, height: 600 }).unwrap()
}

/// Drives one successful frame and returns the submission it enqueued.
fn draw_one_frame(r: &mut Renderer, image_index: u32) -> SubmitInfo {
    assert!(!r.needs_rebuild());
    r.begin_frame();
    let directive = r
        .on_acquire(AcquireOutcome::Ready { image_index, suboptimal: false })
        .unwrap();
    assert_eq!(directive, FrameDirective::Draw { image_index });
    let _cmds = r.record_commands();
    let info = r.submit();
    let presented_index = r.present();
    assert_eq!(presented_index, image_index);
    r.on_present(PresentOutcome::Presented).unwrap();
    info
}

#[test]
fn first_frame_consumes_startup_token() {
    let mut r = fresh_renderer();
    let t0 = r.begin_frame();
    assert_eq!(t0, CompletionToken { id: 0, immediate: true });
    r.on_acquire(AcquireOutcome::Ready { image_index: 0, suboptimal: false })
        .unwrap();
    let info = r.submit();
    assert_eq!(info.wait_token, t0);
    assert_eq!(info.signal_token, CompletionToken { id: 1, immediate: false });
    r.present();
    r.on_present(PresentOutcome::Presented).unwrap();
    assert_eq!(r.prev_token, info.signal_token);
    assert_eq!(r.frames_completed, 1);
}

#[test]
fn tokens_chain_across_successive_frames() {
    let mut r = fresh_renderer();
    let mut previous_signal = r.prev_token;
    for frame in 0..5u32 {
        let info = draw_one_frame(&mut r, frame % 2);
        assert_eq!(info.wait_token, previous_signal);
        assert!(!info.signal_token.immediate);
        assert!(info.signal_token.id > info.wait_token.id);
        previous_signal = info.signal_token;
    }
    assert_eq!(r.frames_completed, 5);
}

#[test]
fn out_of_date_acquire_skips_frame_and_rebuilds() {
    let mut r = fresh_renderer();
    for frame in 0..4u32 {
        draw_one_frame(&mut r, frame % 2);
    }
    let generation_at_frame_4 = r.swapchain.generation;
    let frames_before = r.frames_completed;

    // Frame 5: the surface reports out-of-date on acquire.
    r.begin_frame();
    let directive = r.on_acquire(AcquireOutcome::OutOfDate).unwrap();
    assert_eq!(directive, FrameDirective::Skip);
    assert_eq!(r.phase, Phase::Invalidated);
    assert_eq!(r.frames_completed, frames_before, "the frame is skipped, not drawn");
    assert!(r.needs_rebuild());

    let outcome = r.rebuild(&caps_with_extent(1024, 768)).unwrap();
    assert_eq!(outcome, RebuildOutcome::Rebuilt);
    assert_eq!(r.phase, Phase::Idle);
    assert_eq!(r.swapchain.generation, generation_at_frame_4 + 1);
    assert_eq!(r.swapchain.extent, Extent2D { width: 1024, height: 768 });

    // Frame 6 proceeds normally against the new generation.
    draw_one_frame(&mut r, 0);
    assert_eq!(r.frames_completed, frames_before + 1);
}

#[test]
fn suboptimal_present_still_draws_then_rebuilds_before_next_acquire() {
    let mut r = fresh_renderer();
    for frame in 0..9u32 {
        draw_one_frame(&mut r, frame % 2);
    }
    let generation_at_frame_10 = r.swapchain.generation;

    // Frame 10: present reports suboptimal; the frame still presents
    // using the pre-rebuild chain.
    r.begin_frame();
    r.on_acquire(AcquireOutcome::Ready { image_index: 0, suboptimal: false })
        .unwrap();
    let info = r.submit();
    r.present();
    r.on_present(PresentOutcome::Suboptimal).unwrap();
    assert_eq!(r.frames_completed, 10, "frame 10 completed");
    assert_eq!(r.prev_token, info.signal_token, "its token enters the chain");
    assert_eq!(r.swapchain.generation, generation_at_frame_10, "drawn pre-rebuild");

    // The rebuild is owed before frame 11's acquire.
    assert!(r.needs_rebuild());
    let outcome = r.rebuild(&caps_with_extent(800, 600)).unwrap();
    assert_eq!(outcome, RebuildOutcome::Rebuilt);
    assert_eq!(r.swapchain.generation, generation_at_frame_10 + 1);
    draw_one_frame(&mut r, 1);
    assert_eq!(r.frames_completed, 11);
}

#[test]
fn suboptimal_acquire_draws_this_frame_and_schedules_rebuild() {
    let mut r = fresh_renderer();
    r.begin_frame();
    let directive = r
        .on_acquire(AcquireOutcome::Ready { image_index: 1, suboptimal: true })
        .unwrap();
    assert_eq!(directive, FrameDirective::Draw { image_index: 1 });
    r.submit();
    r.present();
    r.on_present(PresentOutcome::Presented).unwrap();
    assert_eq!(r.frames_completed, 1, "the usable image is not discarded");
    assert!(r.needs_rebuild(), "but a rebuild is owed before the next frame");
}

#[test]
fn acquire_failure_is_fatal() {
    let mut r = fresh_renderer();
    r.begin_frame();
    let err = r.on_acquire(AcquireOutcome::Failed).unwrap_err();
    assert_eq!(err, RenderError::DeviceError);
}

#[test]
fn present_failure_is_fatal() {
    let mut r = fresh_renderer();
    r.begin_frame();
    r.on_acquire(AcquireOutcome::Ready { image_index: 0, suboptimal: false })
        .unwrap();
    r.submit();
    r.present();
    let err = r.on_present(PresentOutcome::Failed).unwrap_err();
    assert_eq!(err, RenderError::DeviceError);
}

#[test]
fn out_of_date_present_drops_stale_token_for_an_immediate_one() {
    let mut r = fresh_renderer();
    r.begin_frame();
    r.on_acquire(AcquireOutcome::Ready { image_index: 0, suboptimal: false })
        .unwrap();
    let info = r.submit();
    r.present();
    r.on_present(PresentOutcome::OutOfDate).unwrap();
    assert_eq!(r.phase, Phase::Invalidated);
    assert!(r.prev_token.immediate, "the stale token is replaced");
    assert_ne!(r.prev_token, info.signal_token);
    assert_eq!(r.frames_completed, 0, "the frame did not present");

    r.rebuild(&caps_with_extent(800, 600)).unwrap();
    let replacement = r.prev_token;
    let next_info = draw_one_frame(&mut r, 0);
    assert_eq!(next_info.wait_token, replacement);
}

#[test]
fn resize_signals_coalesce_into_one_rebuild_with_latest_extent() {
    let mut twice = fresh_renderer();
    twice.note_resize(Extent2D { width: 300, height: 200 });
    twice.note_resize(Extent2D { width: 1920, height: 1080 });
    let mut once = fresh_renderer();
    once.note_resize(Extent2D { width: 1920, height: 1080 });

    // The surface reports no extent, so the rebuild resolves the latest
    // noted window extent.
    let outcome = twice.rebuild(&caps_without_extent()).unwrap();
    assert_eq!(outcome, RebuildOutcome::Rebuilt);
    once.rebuild(&caps_without_extent()).unwrap();

    assert_eq!(twice.snapshot(), once.snapshot());
    assert_eq!(twice.swapchain.extent, Extent2D { width: 1920, height: 1080 });
    assert_eq!(twice.swapchain.generation, 1, "exactly one rebuild");
    assert!(!twice.needs_rebuild());
}

#[test]
fn rebuild_skips_while_the_surface_has_zero_area() {
    let mut r = fresh_renderer();
    r.note_resize(Extent2D { width: 0, height: 600 });
    let outcome = r.rebuild(&caps_without_extent()).unwrap();
    assert_eq!(outcome, RebuildOutcome::Skipped);
    assert_eq!(r.swapchain.generation, 0, "nothing was replaced");
    assert!(r.needs_rebuild(), "the rebuild stays owed");
    r.note_resize(Extent2D { width: 640, height: 480 });
    let outcome = r.rebuild(&caps_without_extent()).unwrap();
    assert_eq!(outcome, RebuildOutcome::Rebuilt);
    assert_eq!(r.swapchain.extent, Extent2D { width: 640, height: 480 });
}

#[test]
fn recorded_commands_are_the_fixed_single_use_sequence() {
    let mut r = fresh_renderer();
    r.begin_frame();
    r.on_acquire(AcquireOutcome::Ready { image_index: 2, suboptimal: false })
        .unwrap();
    let cmds = r.record_commands();
    assert_eq!(
        cmds,
        vec![
            DrawCommand::BeginRenderPass {
                framebuffer_index: 2,
                r_milli: CLEAR_R_MILLI,
                g_milli: CLEAR_G_MILLI,
                b_milli: CLEAR_B_MILLI,
                a_milli: CLEAR_A_MILLI,
            },
            DrawCommand::BindPipeline { generation: 0 },
            DrawCommand::BindVertexBuffer,
            DrawCommand::BindIndexBuffer,
            DrawCommand::DrawIndexed { index_count: 36 },
            DrawCommand::EndRenderPass,
        ]
    );
    assert_eq!((CLEAR_R_MILLI, CLEAR_G_MILLI, CLEAR_B_MILLI, CLEAR_A_MILLI), (0, 0, 200, 1000));
}

#[test]
fn framebuffers_track_the_swapchain_after_every_rebuild() {
    let mut r = fresh_renderer();
    assert_eq!(r.graphics.framebuffers.len() as u32, r.swapchain.image_count);
    r.note_resize(Extent2D { width: 500, height: 400 });
    r.rebuild(&caps_without_extent()).unwrap();
    assert_eq!(r.graphics.framebuffers.len() as u32, r.swapchain.image_count);
    for fb in &r.graphics.framebuffers {
        assert_eq!(fb.extent, r.swapchain.extent);
        assert_eq!(fb.generation, r.swapchain.generation);
    }
    assert_eq!(r.graphics.pipeline.viewport, r.swapchain.extent);
}
