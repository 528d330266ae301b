use atom::error::VulkanError;
use atom::scheduler::{AcquireOutcome, BeginStep, FrameScheduler, FrameState, FrameToken, PresentOutcome};
use atom::surface::{CompositeAlpha, Extent, SurfaceCapabilities, SurfaceConfig};

fn caps(alphas: Vec<CompositeAlpha>) -> SurfaceCapabilities {
    SurfaceCapabilities { min_image_count: 2, supported_composite_alpha: alphas }
}

const E0: Extent = Extent { width: 800, height: 600 };

#[test]
fn surface_takes_minimum_images_and_first_modes() {
    let c = SurfaceConfig::create(&caps(vec![CompositeAlpha::PreMultiplied, CompositeAlpha::Opaque]), 3, E0).unwrap();
    assert_eq!(c.image_count, 2);
    assert_eq!(c.format_index, 0);
    assert_eq!(c.composite_alpha, CompositeAlpha::PreMultiplied);
    assert_eq!(c.extent, E0);
    assert_eq!(c.depth_extent(), E0);
    let d = SurfaceConfig::create(&caps(vec![]), 1, E0).unwrap();
    assert_eq!(d.composite_alpha, CompositeAlpha::Opaque);
}

#[test]
fn surface_without_formats_is_a_swapchain_error() {
    let r = SurfaceConfig::create(&caps(vec![CompositeAlpha::Opaque]), 0, E0);
    assert!(matches!(r, Err(VulkanError::SwapchainError(_))));
}

#[test]
fn resize_round_trip_keeps_configuration() {
    let c = SurfaceConfig::create(&caps(vec![CompositeAlpha::Inherit]), 2, E0).unwrap();
    let e = Extent { width: 1024, height: 300 };
    let mid = c.recreate(e);
    assert_eq!(mid.extent, e);
    assert_eq!(mid.depth_extent(), e);
    assert_eq!((mid.image_count, mid.format_index, mid.composite_alpha), (c.image_count, c.format_index, c.composite_alpha));
    assert_eq!(mid.recreate(E0), c);
}

#[test]
fn zero_area_skips_the_frame() {
    let mut s = FrameScheduler::new();
    assert_eq!(s.begin_frame(Extent { width: 0, height: 600 }), BeginStep::Skip);
    assert_eq!(s.begin_frame(Extent { width: 800, height: 0 }), BeginStep::Skip);
    assert_eq!(s, FrameScheduler::new());
    assert!(Extent { width: 0, height: 0 }.is_zero_area());
    assert!(!E0.is_zero_area());
}

#[test]
fn out_of_date_acquire_is_no_error_and_leaves_idle() {
    let mut s = FrameScheduler::new();
    assert_eq!(s.begin_frame(E0), BeginStep::Acquire { wait_previous: false, recreate_surface: false });
    assert_eq!(s.acquired(AcquireOutcome::OutOfDate).unwrap(), None);
    assert_eq!(s.state, FrameState::Idle);
    assert!(s.needs_recreate);
    assert_eq!(s.begin_frame(E0), BeginStep::Acquire { wait_previous: false, recreate_surface: true });
    assert!(!s.needs_recreate);
}

#[test]
fn full_frame_leaves_token_in_flight() {
    let mut s = FrameScheduler::new();
    s.begin_frame(E0);
    assert_eq!(s.acquired(AcquireOutcome::Acquired { image_index: 2, suboptimal: true }).unwrap(), Some(2));
    assert_eq!(s.state, FrameState::Recording);
    assert!(s.needs_recreate);
    s.submitted();
    assert_eq!(s.state, FrameState::Submitted);
    assert!(s.presented(PresentOutcome::Presented).is_ok());
    assert_eq!(s.state, FrameState::Idle);
    assert_eq!(s.token, FrameToken::InFlight);
    assert_eq!(s.begin_frame(E0), BeginStep::Acquire { wait_previous: true, recreate_surface: true });
    assert_eq!(s.token, FrameToken::Ready);
}

#[test]
fn present_out_of_date_resets_token() {
    let mut s = FrameScheduler::new();
    s.begin_frame(E0);
    s.acquired(AcquireOutcome::Acquired { image_index: 0, suboptimal: false }).unwrap();
    assert!(!s.needs_recreate);
    s.submitted();
    assert!(s.presented(PresentOutcome::OutOfDate).is_ok());
    assert_eq!(s.token, FrameToken::Ready);
    assert!(s.needs_recreate);
    assert_eq!(s.state, FrameState::Idle);
}

#[test]
fn failures_become_typed_errors() {
    let mut s = FrameScheduler::new();
    s.begin_frame(E0);
    let r = s.acquired(AcquireOutcome::Failed("lost".to_string()));
    assert!(matches!(r, Err(VulkanError::SwapchainError(ref m)) if m == "lost"));
    assert_eq!(s.state, FrameState::Idle);
    s.begin_frame(E0);
    s.acquired(AcquireOutcome::Acquired { image_index: 1, suboptimal: false }).unwrap();
    s.submitted();
    let r = s.presented(PresentOutcome::Failed("flush".to_string()));
    assert!(matches!(r, Err(VulkanError::CommandBufferError(ref m)) if m == "flush"));
    assert_eq!(s.token, FrameToken::Ready);
    s.begin_frame(E0);
    s.acquired(AcquireOutcome::Acquired { image_index: 1, suboptimal: false }).unwrap();
    s.abort_frame();
    assert_eq!(s.state, FrameState::Idle);
}

#[test]
fn resize_requests_recreation_before_next_acquire() {
    let mut s = FrameScheduler::new();
    s.request_recreate();
    assert_eq!(s.state, FrameState::Idle);
    assert_eq!(s.begin_frame(E0), BeginStep::Acquire { wait_previous: false, recreate_surface: true });
}
