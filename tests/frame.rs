use vkframe::frame::{draw_commands, DrawCommands, FrameAction, FrameController, FrameEvent, Phase};
use vkframe::swapchain::{
    choose_swap_extent, Extent2D, SharingMode, SurfaceCapabilities, SurfaceFormat, SwapchainPlan,
    SwapchainState,
};

fn window(width: u32, height: u32) -> Extent2D {
    Extent2D { width, height }
}

/// Runs one full cycle from Idle and returns the action after presenting.
fn run_cycle(c: &mut FrameController, image_index: u32) -> FrameAction {
    let slot = c.current_frame();
    assert_eq!(c.step(FrameEvent::Redraw), FrameAction::WaitForFence { slot });
    assert_eq!(c.step(FrameEvent::FenceSignaled), FrameAction::AcquireImage { slot });
    assert_eq!(
        c.step(FrameEvent::Acquired { image_index }),
        FrameAction::RecordAndSubmit { slot, image_index }
    );
    assert_eq!(c.step(FrameEvent::Submitted), FrameAction::Present { slot, image_index });
    c.step(FrameEvent::Presented { suboptimal: false })
}

#[test]
fn cycles_alternate_between_two_slots() {
    let mut c = FrameController::new(window(800, 600), 3);
    assert_eq!(c.current_frame(), 0);
    assert_eq!(run_cycle(&mut c, 0), FrameAction::Nothing);
    assert_eq!(c.current_frame(), 1);
    assert_eq!(run_cycle(&mut c, 1), FrameAction::Nothing);
    assert_eq!(c.current_frame(), 0);
    assert_eq!(run_cycle(&mut c, 2), FrameAction::Nothing);
    assert_eq!(c.current_frame(), 1);
}

#[test]
fn slot_is_recorded_only_after_its_fence_is_seen() {
    let mut c = FrameController::new(window(800, 600), 3);
    run_cycle(&mut c, 0);
    run_cycle(&mut c, 1);
    // both slots now have a submission outstanding
    assert!(c.slot_in_flight(0));
    assert!(c.slot_in_flight(1));
    assert_eq!(c.step(FrameEvent::Redraw), FrameAction::WaitForFence { slot: 0 });
    // an acquire result before the fence was seen is ignored
    assert_eq!(c.step(FrameEvent::Acquired { image_index: 0 }), FrameAction::Nothing);
    assert_eq!(c.step(FrameEvent::Submitted), FrameAction::Nothing);
    assert!(c.slot_in_flight(0));
    assert_eq!(c.step(FrameEvent::FenceSignaled), FrameAction::AcquireImage { slot: 0 });
    assert!(!c.slot_in_flight(0));
    assert!(c.slot_in_flight(1));
    assert_eq!(
        c.step(FrameEvent::Acquired { image_index: 0 }),
        FrameAction::RecordAndSubmit { slot: 0, image_index: 0 }
    );
}

#[test]
fn zero_sized_window_submits_nothing() {
    let mut c = FrameController::new(window(800, 600), 3);
    run_cycle(&mut c, 0);
    assert_eq!(c.current_frame(), 1);
    assert_eq!(c.step(FrameEvent::Resized { width: 0, height: 600 }), FrameAction::Nothing);
    for _ in 0..5 {
        assert_eq!(c.step(FrameEvent::Redraw), FrameAction::Nothing);
    }
    assert_eq!(c.step(FrameEvent::Resized { width: 640, height: 0 }), FrameAction::Nothing);
    assert_eq!(c.step(FrameEvent::Redraw), FrameAction::Nothing);
    assert_eq!(c.phase(), Phase::Idle);
    assert_eq!(c.current_frame(), 1);
    assert_eq!(c.step(FrameEvent::Resized { width: 640, height: 480 }), FrameAction::Nothing);
    assert_eq!(c.step(FrameEvent::Redraw), FrameAction::WaitForFence { slot: 1 });
}

#[test]
fn out_of_date_acquire_does_not_advance() {
    let mut c = FrameController::new(window(800, 600), 3);
    assert_eq!(c.step(FrameEvent::Redraw), FrameAction::WaitForFence { slot: 0 });
    assert_eq!(c.step(FrameEvent::FenceSignaled), FrameAction::AcquireImage { slot: 0 });
    assert_eq!(c.step(FrameEvent::AcquireOutOfDate), FrameAction::RecreateSwapchain);
    assert_eq!(c.current_frame(), 0);
    assert_eq!(c.phase(), Phase::Recreating);
    // nothing is submitted or presented for the aborted cycle
    assert_eq!(c.step(FrameEvent::Redraw), FrameAction::Nothing);
    assert_eq!(c.step(FrameEvent::Acquired { image_index: 0 }), FrameAction::Nothing);
    assert_eq!(c.step(FrameEvent::Submitted), FrameAction::Nothing);
    assert_eq!(c.step(FrameEvent::Recreated { image_count: 2 }), FrameAction::Nothing);
    assert_eq!(c.current_frame(), 0);
    assert_eq!(c.step(FrameEvent::Redraw), FrameAction::WaitForFence { slot: 0 });
}

#[test]
fn resize_is_picked_up_at_next_present() {
    let mut c = FrameController::new(window(800, 600), 3);
    assert_eq!(c.step(FrameEvent::Resized { width: 1024, height: 768 }), FrameAction::Nothing);
    assert!(c.resize_pending());
    assert_eq!(run_cycle(&mut c, 0), FrameAction::RecreateSwapchain);
    assert!(!c.resize_pending());
    assert_eq!(c.current_frame(), 1);
    assert_eq!(c.step(FrameEvent::Recreated { image_count: 3 }), FrameAction::Nothing);
    assert_eq!(run_cycle(&mut c, 0), FrameAction::Nothing);
}

#[test]
fn suboptimal_or_out_of_date_present_recreates_and_advances() {
    let mut c = FrameController::new(window(800, 600), 3);
    c.step(FrameEvent::Redraw);
    c.step(FrameEvent::FenceSignaled);
    c.step(FrameEvent::Acquired { image_index: 1 });
    c.step(FrameEvent::Submitted);
    assert_eq!(c.step(FrameEvent::Presented { suboptimal: true }), FrameAction::RecreateSwapchain);
    assert_eq!(c.current_frame(), 1);
    c.step(FrameEvent::Recreated { image_count: 3 });
    c.step(FrameEvent::Redraw);
    c.step(FrameEvent::FenceSignaled);
    c.step(FrameEvent::Acquired { image_index: 0 });
    c.step(FrameEvent::Submitted);
    assert_eq!(c.step(FrameEvent::PresentOutOfDate), FrameAction::RecreateSwapchain);
    assert_eq!(c.current_frame(), 0);
}

#[test]
fn failures_abort_and_stop() {
    let mut c = FrameController::new(window(800, 600), 3);
    c.step(FrameEvent::Redraw);
    c.step(FrameEvent::FenceSignaled);
    assert_eq!(c.step(FrameEvent::AcquireFailed), FrameAction::Abort);
    assert_eq!(c.phase(), Phase::Failed);
    assert_eq!(c.step(FrameEvent::Redraw), FrameAction::Nothing);

    let mut d = FrameController::new(window(800, 600), 3);
    d.step(FrameEvent::Redraw);
    d.step(FrameEvent::FenceSignaled);
    assert_eq!(d.step(FrameEvent::Acquired { image_index: 3 }), FrameAction::Abort);

    let mut e = FrameController::new(window(800, 600), 3);
    e.step(FrameEvent::Redraw);
    e.step(FrameEvent::FenceSignaled);
    e.step(FrameEvent::Acquired { image_index: 0 });
    e.step(FrameEvent::Submitted);
    assert_eq!(e.step(FrameEvent::PresentFailed), FrameAction::Abort);
    assert_eq!(e.current_frame(), 0);
}

#[test]
fn close_tears_down_once() {
    let mut c = FrameController::new(window(800, 600), 3);
    c.step(FrameEvent::Redraw);
    assert_eq!(c.step(FrameEvent::CloseRequested), FrameAction::Teardown);
    assert_eq!(c.phase(), Phase::Closed);
    assert_eq!(c.step(FrameEvent::CloseRequested), FrameAction::Nothing);
    assert_eq!(c.step(FrameEvent::Redraw), FrameAction::Nothing);
}

fn sample_state() -> SwapchainState {
    let caps = SurfaceCapabilities {
        min_image_count: 2,
        max_image_count: 0,
        current_extent: Extent2D { width: 800, height: 600 },
        min_image_extent: Extent2D { width: 1, height: 1 },
        max_image_extent: Extent2D { width: 4096, height: 4096 },
        current_transform: 1,
    };
    let plan = SwapchainPlan {
        format: SurfaceFormat { format: 50, color_space: 0 },
        present_mode: 2,
        extent: choose_swap_extent(&caps, Extent2D { width: 800, height: 600 }),
        image_count: 3,
        sharing: SharingMode::Exclusive,
        pre_transform: 1,
    };
    SwapchainState::new(5, plan, vec![1, 2, 3], vec![11, 12, 13], vec![21, 22, 23]).unwrap()
}

#[test]
fn draw_commands_target_acquired_framebuffer() {
    let st = sample_state();
    assert_eq!(
        draw_commands(&st, 1, 2, 6),
        Some(DrawCommands { slot: 1, framebuffer: 23, extent: Extent2D { width: 800, height: 600 }, index_count: 6 })
    );
    assert_eq!(draw_commands(&st, 0, 3, 6), None);
    assert_eq!(draw_commands(&st, 2, 0, 6), None);
}
