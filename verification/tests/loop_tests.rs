use frame_loop::frame::{
    AcquireOutcome, FrameFuture, PointerPos, PresentOutcome, WindowEvent,
};
use frame_loop::presentation::{
    AcquireStep, Phase, PresentationLoop, RecreateStep, SubmitInfo, TickStart,
};
use frame_loop::swapchain::{Extent, PresentMode, RecreateOutcome, SwapchainState};

fn fresh_loop(width: u32, height: u32, image_count: u32) -> PresentationLoop {
    let extent = Extent { width, height };
    let chain = SwapchainState::new(extent, image_count, 44, PresentMode::Fifo);
    PresentationLoop::new(chain, extent, 0)
}

/// Drives one tick in which the backend acquires `image_index` cleanly and
/// the present flush succeeds. Returns the submission info.
fn clean_tick(lp: &mut PresentationLoop, now_micros: u64, image_index: u32) -> SubmitInfo {
    match lp.begin_tick(now_micros) {
        TickStart::Compute { step } => assert!(step.delta_micros >= 1),
        TickStart::Exit => panic!("loop exited during a normal tick"),
    }
    assert!(matches!(lp.phase, Phase::Acquiring));
    let step = lp.apply_acquire(AcquireOutcome::Acquired { image_index, suboptimal: false });
    assert_eq!(step, AcquireStep::Render { image_index });
    let info = lp.submit_frame();
    assert_eq!(info.image_index, image_index);
    lp.apply_present(PresentOutcome::Presented);
    info
}

#[test]
fn three_ticks_present_in_submission_order() {
    let mut lp = fresh_loop(640, 480, 2);
    let mut now: u64 = 0;
    for &idx in [0u32, 1, 0].iter() {
        now += 16_000;
        clean_tick(&mut lp, now, idx);
    }
    assert_eq!(lp.submitted, vec![0u32, 1, 0]);
    assert_eq!(lp.presented, vec![0u32, 1, 0]);
}

#[test]
fn resize_event_rebuilds_before_the_next_render() {
    let mut lp = fresh_loop(640, 480, 2);
    clean_tick(&mut lp, 16_000, 0);
    clean_tick(&mut lp, 32_000, 1);
    // Tick 2's frame completed its present against the old dimensions.
    assert_eq!(lp.presented, vec![0u32, 1]);
    assert_eq!(lp.swapchain.extent, Extent { width: 640, height: 480 });

    lp.handle_event(WindowEvent::Resized { width: 800, height: 600 });
    assert!(lp.resize_needed);

    // Tick 3 rebuilds to (800, 600) before acquiring and rendering.
    match lp.begin_tick(48_000) {
        TickStart::Compute { .. } => {},
        TickStart::Exit => panic!("loop exited on resize"),
    }
    assert!(matches!(lp.phase, Phase::Resizing { resume: true }));
    assert_eq!(lp.resize_target(), Extent { width: 800, height: 600 });
    let step = lp.apply_recreate(RecreateOutcome::Created { image_count: 2 });
    assert_eq!(step, RecreateStep::AcquireNow);
    assert_eq!(lp.swapchain.extent, Extent { width: 800, height: 600 });
    assert_eq!(lp.swapchain.framebuffers.len(), 2);
    for fb in lp.swapchain.framebuffers.iter() {
        assert_eq!(fb.extent, Extent { width: 800, height: 600 });
    }
    let step = lp.apply_acquire(AcquireOutcome::Acquired { image_index: 0, suboptimal: false });
    assert_eq!(step, AcquireStep::Render { image_index: 0 });
    lp.submit_frame();
    lp.apply_present(PresentOutcome::Presented);
    assert_eq!(lp.presented, vec![0u32, 1, 0]);
}

#[test]
fn out_of_date_acquisition_causes_exactly_one_recreate() {
    let mut lp = fresh_loop(640, 480, 2);
    let mut recreate_calls: u32 = 0;

    // Tick 1: acquisition reports out-of-date; the tick renders nothing.
    match lp.begin_tick(16_000) {
        TickStart::Compute { .. } => {},
        TickStart::Exit => panic!("loop exited"),
    }
    let step = lp.apply_acquire(AcquireOutcome::OutOfDate);
    assert_eq!(step, AcquireStep::Rebuild);
    recreate_calls += 1;
    let step = lp.apply_recreate(RecreateOutcome::Created { image_count: 2 });
    assert_eq!(step, RecreateStep::SkipTick);
    assert!(matches!(lp.phase, Phase::Idle));
    assert!(lp.submitted.is_empty());
    assert!(lp.presented.is_empty());

    // Tick 2: acquisition is clean; no further rebuild is asked for, and
    // normal frame production resumes.
    match lp.begin_tick(32_000) {
        TickStart::Compute { .. } => {},
        TickStart::Exit => panic!("loop exited"),
    }
    assert!(matches!(lp.phase, Phase::Acquiring));
    let step = lp.apply_acquire(AcquireOutcome::Acquired { image_index: 0, suboptimal: false });
    assert_eq!(step, AcquireStep::Render { image_index: 0 });
    lp.submit_frame();
    lp.apply_present(PresentOutcome::Presented);
    assert_eq!(recreate_calls, 1);
    assert_eq!(lp.presented, vec![0u32]);
}

#[test]
fn unsupported_dimensions_skip_the_tick_and_keep_the_chain() {
    let mut lp = fresh_loop(640, 480, 2);
    lp.handle_event(WindowEvent::Resized { width: 0, height: 0 });
    match lp.begin_tick(16_000) {
        TickStart::Compute { .. } => {},
        TickStart::Exit => panic!("loop exited"),
    }
    let old_extent = lp.swapchain.extent;
    let old_count = lp.swapchain.image_count;
    let step = lp.apply_recreate(RecreateOutcome::UnsupportedDimensions);
    assert_eq!(step, RecreateStep::SkipTick);
    assert!(matches!(lp.phase, Phase::Idle));
    assert_eq!(lp.swapchain.extent, old_extent);
    assert_eq!(lp.swapchain.image_count, old_count);
    // Nothing was rendered or presented this tick.
    assert!(lp.submitted.is_empty());
    assert!(lp.presented.is_empty());
    // The rebuild stays pending for a later tick.
    assert!(lp.resize_needed);
}

#[test]
fn close_request_terminates_on_the_next_tick() {
    let mut lp = fresh_loop(640, 480, 2);
    clean_tick(&mut lp, 16_000, 0);
    lp.handle_event(WindowEvent::CloseRequested);
    let start = lp.begin_tick(32_000);
    assert_eq!(start, TickStart::Exit);
    assert!(matches!(lp.phase, Phase::Terminated));
    // No new frame was issued.
    assert_eq!(lp.submitted, vec![0u32]);
    assert_eq!(lp.presented, vec![0u32]);
}

#[test]
fn suboptimal_image_still_renders_and_flags_a_rebuild() {
    let mut lp = fresh_loop(640, 480, 2);
    match lp.begin_tick(16_000) {
        TickStart::Compute { .. } => {},
        TickStart::Exit => panic!("loop exited"),
    }
    let step = lp.apply_acquire(AcquireOutcome::Acquired { image_index: 1, suboptimal: true });
    assert_eq!(step, AcquireStep::Render { image_index: 1 });
    lp.submit_frame();
    lp.apply_present(PresentOutcome::Presented);
    assert_eq!(lp.presented, vec![1u32]);
    assert!(lp.resize_needed);
}

#[test]
fn present_out_of_date_resets_the_token_and_flags_a_rebuild() {
    let mut lp = fresh_loop(640, 480, 2);
    match lp.begin_tick(16_000) {
        TickStart::Compute { .. } => {},
        TickStart::Exit => panic!("loop exited"),
    }
    lp.apply_acquire(AcquireOutcome::Acquired { image_index: 0, suboptimal: false });
    lp.submit_frame();
    lp.apply_present(PresentOutcome::OutOfDate);
    assert_eq!(lp.previous_frame_end, FrameFuture::Completed);
    assert!(lp.resize_needed);
    // The present request was still issued in order.
    assert_eq!(lp.presented, vec![0u32]);
}

#[test]
fn other_present_failure_is_recoverable() {
    let mut lp = fresh_loop(640, 480, 2);
    match lp.begin_tick(16_000) {
        TickStart::Compute { .. } => {},
        TickStart::Exit => panic!("loop exited"),
    }
    lp.apply_acquire(AcquireOutcome::Acquired { image_index: 0, suboptimal: false });
    lp.submit_frame();
    lp.apply_present(PresentOutcome::OtherError);
    assert_eq!(lp.previous_frame_end, FrameFuture::Completed);
    assert!(!lp.resize_needed);
    // The loop goes on producing frames.
    clean_tick(&mut lp, 32_000, 1);
    assert_eq!(lp.presented, vec![0u32, 1]);
}

#[test]
fn successful_present_stores_the_frame_token() {
    let mut lp = fresh_loop(640, 480, 2);
    let info = clean_tick(&mut lp, 16_000, 0);
    assert_eq!(info.precondition, FrameFuture::Completed);
    assert_eq!(lp.previous_frame_end, FrameFuture::Pending(0));
    let info = clean_tick(&mut lp, 32_000, 1);
    // The next submission consumes frame 0's token as its precondition.
    assert_eq!(info.precondition, FrameFuture::Pending(0));
    assert_eq!(lp.previous_frame_end, FrameFuture::Pending(1));
}

#[test]
fn pointer_events_feed_the_next_uniform_state() {
    let mut lp = fresh_loop(640, 480, 2);
    lp.handle_event(WindowEvent::PointerMoved { x: 320, y: 200 });
    match lp.begin_tick(16_000) {
        TickStart::Compute { step } => {
            assert_eq!(step.pointer, PointerPos { x: 320, y: 200 });
            assert_eq!(step.delta_micros, 16_000);
        },
        TickStart::Exit => panic!("loop exited"),
    }
}
