use game_client::events::{handle_window_event, AppAction, WindowEvent};
use game_client::graphics::{
    AcquireOutcome, AlphaMode, FrameAction, InitError, PresentCycle, PresentError, PresentMode,
    Renderer,
};

#[test]
fn init_selects_first_format() {
    let formats: Vec<u32> = vec![7, 3, 5];
    let renderer = Renderer::new(&formats, 800, 600).unwrap();
    assert_eq!(renderer.config.format, 7);
    assert_eq!(renderer.config.width, 800);
    assert_eq!(renderer.config.height, 600);
    assert_eq!(renderer.config.present_mode, PresentMode::VsyncLocked);
    assert_eq!(renderer.config.alpha_mode, AlphaMode::Automatic);
    assert_eq!(renderer.config.frame_latency, 2);
}

#[test]
fn init_single_format_is_chosen() {
    let formats: Vec<u32> = vec![42];
    let renderer = Renderer::new(&formats, 1, 1).unwrap();
    assert_eq!(renderer.config.format, 42);
}

#[test]
fn init_empty_formats_fails() {
    let formats: Vec<u32> = Vec::new();
    let result = Renderer::new(&formats, 800, 600);
    assert_eq!(result, Err(InitError::NoSupportedSurfaceFormat));
}

#[test]
fn resize_stores_most_recent_size() {
    let formats: Vec<u32> = vec![1];
    let mut renderer = Renderer::new(&formats, 800, 600).unwrap();
    renderer.resize(400, 300);
    renderer.resize(1024, 768);
    renderer.resize(640, 480);
    assert_eq!(renderer.config.width, 640);
    assert_eq!(renderer.config.height, 480);
    assert_eq!(renderer.config.format, 1);
    assert_eq!(renderer.config.frame_latency, 2);
}

#[test]
fn resize_to_zero_is_accepted_and_recoverable() {
    let formats: Vec<u32> = vec![1];
    let mut renderer = Renderer::new(&formats, 800, 600).unwrap();
    renderer.resize(0, 0);
    assert_eq!(renderer.config.width, 0);
    assert_eq!(renderer.config.height, 0);
    let mut cycle = PresentCycle::begin();
    let action = cycle.step(AcquireOutcome::Outdated);
    assert_eq!(action, FrameAction::ReconfigureAndRetry);
}

#[test]
fn retry_happens_exactly_once() {
    let mut cycle = PresentCycle::begin();
    let first = cycle.step(AcquireOutcome::Outdated);
    assert_eq!(first, FrameAction::ReconfigureAndRetry);
    let second = cycle.step(AcquireOutcome::Outdated);
    assert_eq!(
        second,
        FrameAction::Fail(PresentError::FrameAcquisitionFailed)
    );
    let third = cycle.step(AcquireOutcome::Lost);
    assert_eq!(
        third,
        FrameAction::Fail(PresentError::FrameAcquisitionFailed)
    );
}

#[test]
fn lost_surface_also_triggers_retry() {
    let mut cycle = PresentCycle::begin();
    let action = cycle.step(AcquireOutcome::Lost);
    assert_eq!(action, FrameAction::ReconfigureAndRetry);
}

#[test]
fn retry_that_acquires_presents() {
    let mut cycle = PresentCycle::begin();
    assert_eq!(
        cycle.step(AcquireOutcome::Outdated),
        FrameAction::ReconfigureAndRetry
    );
    assert_eq!(cycle.step(AcquireOutcome::Acquired), FrameAction::Present);
}

#[test]
fn device_loss_on_retry_is_reported_as_device_loss() {
    let mut cycle = PresentCycle::begin();
    assert_eq!(
        cycle.step(AcquireOutcome::Outdated),
        FrameAction::ReconfigureAndRetry
    );
    assert_eq!(
        cycle.step(AcquireOutcome::OtherFailure),
        FrameAction::Fail(PresentError::DeviceLost)
    );
}

#[test]
fn device_loss_is_not_retried() {
    let mut cycle = PresentCycle::begin();
    let action = cycle.step(AcquireOutcome::OtherFailure);
    assert_eq!(action, FrameAction::Fail(PresentError::DeviceLost));
}

#[test]
fn scenario_window_lifecycle() {
    // Window created with size 800x600; initialization succeeds.
    let formats: Vec<u32> = vec![9, 2];
    let mut renderer = Renderer::new(&formats, 800, 600).unwrap();
    assert_eq!(renderer.config.format, 9);

    // A redraw request presents one image.
    let mut cycle = PresentCycle::begin();
    assert_eq!(cycle.step(AcquireOutcome::Acquired), FrameAction::Present);

    // Resize to 400x300; the next presentation uses the new size.
    assert_eq!(
        handle_window_event(&WindowEvent::Resized(400, 300)),
        AppAction::ResizeSurface(400, 300)
    );
    renderer.resize(400, 300);
    assert_eq!(renderer.config.width, 400);
    assert_eq!(renderer.config.height, 300);
    let mut next_cycle = PresentCycle::begin();
    assert_eq!(
        next_cycle.step(AcquireOutcome::Acquired),
        FrameAction::Present
    );

    // Window closed: the loop exits and the context is dropped.
    assert_eq!(
        handle_window_event(&WindowEvent::CloseRequested),
        AppAction::Exit
    );
    drop(renderer);
}

#[test]
fn redraw_request_drives_presentation() {
    assert_eq!(
        handle_window_event(&WindowEvent::RedrawRequested),
        AppAction::RenderFrame
    );
}

#[test]
fn unhandled_events_are_ignored() {
    assert_eq!(handle_window_event(&WindowEvent::Other), AppAction::Ignore);
}
