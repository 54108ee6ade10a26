use liquid_glass::{FrameRate, PerformanceMonitor};

// Timestamps are in microseconds.

#[test]
fn fps_is_zero_before_first_window() {
    let mut m = PerformanceMonitor::new();
    assert_eq!(m.get_fps().frames, 0);
    m.update(0);
    m.update(999_999);
    assert_eq!(m.get_fps().frames, 0);
    assert_eq!(m.frame_count(), 2);
}

#[test]
fn fps_over_exactly_one_second_equals_frame_count() {
    let mut m = PerformanceMonitor::new();
    m.update(0);
    m.update(1_000_000);
    assert_eq!(m.get_fps(), FrameRate { frames: 2, elapsed_us: 1_000_000 });
    assert_eq!(m.frame_count(), 0);
}

#[test]
fn window_restarts_after_closing() {
    let mut m = PerformanceMonitor::new();
    m.update(0);
    m.update(1_000_000);
    m.update(1_500_000);
    assert_eq!(m.frame_count(), 1);
    assert_eq!(m.get_fps(), FrameRate { frames: 2, elapsed_us: 1_000_000 });
    m.update(2_500_000);
    assert_eq!(m.get_fps(), FrameRate { frames: 2, elapsed_us: 1_500_000 });
    assert_eq!(m.frame_count(), 0);
}

#[test]
fn sixty_frames_in_a_second() {
    let mut m = PerformanceMonitor::new();
    m.update(0);
    m.update(1_000);
    for i in 1..=59 {
        m.update(i * 16_000);
    }
    m.update(1_000_000);
    let r = m.get_fps();
    assert_eq!(r, FrameRate { frames: 62, elapsed_us: 1_000_000 });
}
