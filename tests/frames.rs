use mercurian::frame::{FrameAction, FrameEvent, FrameLoop, PresentOutcome, Stage, MAX_FRAMES_IN_FLIGHT};

/// Drives one frame that acquires `image` and presents with `outcome`,
/// returning the actions in order.
fn render(frames: &mut FrameLoop, image: usize, outcome: PresentOutcome) -> Vec<FrameAction> {
    let mut actions = vec![frames.step(FrameEvent::Tick)];
    actions.push(frames.step(FrameEvent::FenceSignaled));
    let mut a = frames.step(FrameEvent::ImageAcquired(image));
    if let FrameAction::WaitFence(_) = a {
        actions.push(a);
        a = frames.step(FrameEvent::FenceSignaled);
    }
    actions.push(a);
    actions.push(frames.step(FrameEvent::Recorded));
    actions.push(frames.step(FrameEvent::Submitted));
    actions.push(frames.step(FrameEvent::Presented(outcome)));
    actions
}

#[test]
fn one_frame_walks_every_stage() {
    let mut frames = FrameLoop::new(3);
    assert_eq!(frames.stage(), Stage::Idle);
    let actions = render(&mut frames, 2, PresentOutcome::Optimal);
    assert_eq!(
        actions,
        vec![
            FrameAction::WaitFence(0),
            FrameAction::AcquireImage(0),
            FrameAction::Record(2),
            FrameAction::Submit { slot: 0, image: 2 },
            FrameAction::Present { slot: 0, image: 2 },
            FrameAction::FrameDone,
        ]
    );
    assert_eq!(frames.frame(), 1);
    assert_eq!(frames.stage(), Stage::Idle);
}

#[test]
fn slots_cycle_and_an_image_waits_for_the_other_slot() {
    let mut frames = FrameLoop::new(2);
    let mut submitted = vec![];
    for n in 0..6 {
        let actions = render(&mut frames, 0, PresentOutcome::Optimal);
        for a in &actions {
            if let FrameAction::Submit { slot, .. } = a {
                submitted.push(*slot);
            }
        }
        // From the second frame on, image 0 was last used by the other slot,
        // whose fence is waited on after the slot's own.
        let slot = n % MAX_FRAMES_IN_FLIGHT;
        let waits: Vec<&FrameAction> = actions.iter().filter(|a| matches!(a, FrameAction::WaitFence(_))).collect();
        if n == 0 {
            assert_eq!(waits, vec![&FrameAction::WaitFence(0)]);
        } else {
            assert_eq!(waits, vec![&FrameAction::WaitFence(slot), &FrameAction::WaitFence(1 - slot)]);
        }
    }
    assert_eq!(submitted, vec![0, 1, 0, 1, 0, 1]);
}

#[test]
fn submitting_without_the_fence_wait_is_refused() {
    let mut frames = FrameLoop::new(2);
    assert_eq!(frames.step(FrameEvent::Tick), FrameAction::WaitFence(0));
    // Reporting a recording before the fence and the image is a protocol error.
    assert_eq!(frames.step(FrameEvent::Recorded), FrameAction::Fatal);
    assert_eq!(frames.stage(), Stage::Stopped);
    assert_eq!(frames.step(FrameEvent::Tick), FrameAction::Fatal);
}

#[test]
fn zero_area_resize_pauses_without_rebuilding_then_resumes() {
    let mut frames = FrameLoop::new(2);
    render(&mut frames, 0, PresentOutcome::Optimal);
    assert_eq!(frames.step(FrameEvent::Resized { width: 0, height: 0 }), FrameAction::Idle);
    // Minimized: ticks render nothing and nothing is rebuilt.
    for _ in 0..3 {
        assert_eq!(frames.step(FrameEvent::Tick), FrameAction::Idle);
    }
    assert_eq!(frames.step(FrameEvent::Resized { width: 640, height: 0 }), FrameAction::Idle);
    assert_eq!(frames.step(FrameEvent::Tick), FrameAction::Idle);
    assert_eq!(frames.step(FrameEvent::Resized { width: 800, height: 600 }), FrameAction::Idle);
    let actions = render(&mut frames, 1, PresentOutcome::Optimal);
    assert_eq!(actions.last(), Some(&FrameAction::RecreateSwapchain));
    assert_eq!(frames.stage(), Stage::AwaitResize);
    assert_eq!(frames.step(FrameEvent::Recreated(3)), FrameAction::FrameDone);
    assert_eq!(frames.frame(), 0);
    let actions = render(&mut frames, 2, PresentOutcome::Optimal);
    assert_eq!(actions.last(), Some(&FrameAction::FrameDone));
}

#[test]
fn stale_swapchain_triggers_a_rebuild() {
    let mut frames = FrameLoop::new(2);
    let actions = render(&mut frames, 0, PresentOutcome::Suboptimal);
    assert_eq!(actions.last(), Some(&FrameAction::RecreateSwapchain));
    assert_eq!(frames.step(FrameEvent::Recreated(2)), FrameAction::FrameDone);
    assert_eq!(frames.frame(), 1);
    assert_eq!(frames.step(FrameEvent::Tick), FrameAction::WaitFence(1));
    assert_eq!(frames.step(FrameEvent::FenceSignaled), FrameAction::AcquireImage(1));
    assert_eq!(frames.step(FrameEvent::AcquireOutOfDate), FrameAction::RecreateSwapchain);
    assert_eq!(frames.step(FrameEvent::Recreated(2)), FrameAction::FrameDone);
    // The acquire never submitted, so the slot stays.
    assert_eq!(frames.frame(), 1);
}

#[test]
fn must_resize_rebuilds_after_the_next_present() {
    let mut frames = FrameLoop::new(2);
    frames.must_resize();
    let actions = render(&mut frames, 0, PresentOutcome::Optimal);
    assert_eq!(actions.last(), Some(&FrameAction::RecreateSwapchain));
}

#[test]
fn present_failure_and_device_loss_are_fatal() {
    let mut frames = FrameLoop::new(2);
    let actions = render(&mut frames, 0, PresentOutcome::Failed);
    assert_eq!(actions.last(), Some(&FrameAction::Fatal));
    let mut frames = FrameLoop::new(2);
    frames.step(FrameEvent::Tick);
    assert_eq!(frames.step(FrameEvent::Failed), FrameAction::Fatal);
    let mut frames = FrameLoop::new(2);
    frames.step(FrameEvent::Tick);
    frames.step(FrameEvent::FenceSignaled);
    assert_eq!(frames.step(FrameEvent::ImageAcquired(5)), FrameAction::Fatal);
}
