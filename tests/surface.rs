use poprustica::{
    create_surface_configuration, AcquireAction, AcquireStatus, SurfaceConfig, SurfaceError,
    SurfaceState, FRAME_LATENCY,
};

fn config(width: u32, height: u32) -> SurfaceConfig {
    SurfaceConfig { format: 0, present_mode: 0, alpha_mode: 0, width, height, frame_latency: 2 }
}

#[test]
fn configuration_prefers_first_srgb_format() {
    let c = create_surface_configuration(&vec![false, true, true], 3, 2, 800, 600).unwrap();
    assert_eq!(
        c,
        SurfaceConfig { format: 1, present_mode: 0, alpha_mode: 0, width: 800, height: 600, frame_latency: FRAME_LATENCY }
    );
    assert_eq!(FRAME_LATENCY, 2);
}

#[test]
fn configuration_falls_back_to_first_format() {
    let c = create_surface_configuration(&vec![false, false], 1, 1, 640, 480).unwrap();
    assert_eq!(c.format, 0);
    assert_eq!((c.width, c.height), (640, 480));
}

#[test]
fn configuration_needs_capabilities() {
    assert_eq!(create_surface_configuration(&vec![], 1, 1, 640, 480), None);
    assert_eq!(create_surface_configuration(&vec![true], 0, 1, 640, 480), None);
    assert_eq!(create_surface_configuration(&vec![true], 1, 0, 640, 480), None);
}

#[test]
fn resize_round_trip() {
    let mut s = SurfaceState::new(config(800, 600));
    assert_eq!(s.check_acquire(), Ok(()));
    s.window_resized(1024, 768);
    assert_eq!(s.check_acquire(), Err(SurfaceError::StaleSize));
    let c = s.reconfigure(1024, 768);
    assert_eq!(c, config(1024, 768));
    assert_eq!(s.active_size(), (1024, 768));
    assert_eq!(s.check_acquire(), Ok(()));
}

#[test]
fn acquire_failures_recover_then_escalate() {
    let mut s = SurfaceState::new(config(800, 600));
    assert_eq!(s.after_acquire(AcquireStatus::Timeout), AcquireAction::Retry);
    assert_eq!(s.after_acquire(AcquireStatus::Lost), AcquireAction::Reconfigure);
    assert_eq!(s.failures, 2);
    assert_eq!(s.after_acquire(AcquireStatus::Outdated), AcquireAction::Fatal);
}

#[test]
fn acquire_success_clears_failures() {
    let mut s = SurfaceState::new(config(800, 600));
    assert_eq!(s.after_acquire(AcquireStatus::Lost), AcquireAction::Reconfigure);
    assert_eq!(s.after_acquire(AcquireStatus::Ready), AcquireAction::Render);
    assert_eq!(s.failures, 0);
    assert_eq!(s.after_acquire(AcquireStatus::Failed), AcquireAction::Fatal);
}
