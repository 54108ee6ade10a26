use liquid_glass::{throttle_should_update, GlassState};

// Positions and pointer coordinates below are in half pixels.

#[test]
fn new_panel_starts_centered_and_idle() {
    let g = GlassState::new(200, 100);
    assert_eq!(g.get_position_x(), 0);
    assert_eq!(g.get_position_y(), 0);
    assert!(!g.is_dragging());
    assert_eq!(g.mouse_x(), 32768);
    assert_eq!(g.mouse_y(), 32768);
    assert_eq!(g.time(), 0);
}

#[test]
fn drag_moves_by_pointer_delta() {
    let mut g = GlassState::new(200, 100);
    g.start_drag(20, 40);
    assert!(g.is_dragging());
    g.update_drag(120, 10);
    assert_eq!((g.get_position_x(), g.get_position_y()), (100, -30));
    g.update_drag(-60, 80);
    assert_eq!((g.get_position_x(), g.get_position_y()), (-80, 40));
}

#[test]
fn drag_is_clamped_to_viewport() {
    // 1920 x 1080 viewport, 200 x 100 panel, margin 10:
    // x within [-850, 850] px, y within [-480, 480] px.
    let mut g = GlassState::new(200, 100);
    g.start_drag(0, 0);
    g.update_drag(10000, -10000);
    assert_eq!((g.get_position_x(), g.get_position_y()), (1700, -960));
    g.update_drag(-10000, 10000);
    assert_eq!((g.get_position_x(), g.get_position_y()), (-1700, 960));
}

#[test]
fn drag_with_odd_panel_stops_on_half_pixel_bound() {
    // 1920 / 2 - 201 / 2 - 10 = 849.5 px
    let mut g = GlassState::new(201, 100);
    g.start_drag(0, 0);
    g.update_drag(100000, 0);
    assert_eq!(g.get_position_x(), 1699);
    g.update_drag(-100000, 0);
    assert_eq!(g.get_position_x(), -1699);
}

#[test]
fn reanchored_drag_with_odd_panel_stops_on_half_pixel_bound() {
    let mut g = GlassState::new(201, 100);
    g.start_drag(0, 0);
    g.update_drag(10, 0);
    g.start_drag(500, 0);
    g.update_drag(100000, 0);
    assert_eq!(g.get_position_x(), 1699);
}

#[test]
fn drag_from_moved_position_adds_delta_then_clamps() {
    let mut g = GlassState::new(200, 100);
    g.start_drag(0, 0);
    g.update_drag(1600, 0);
    g.stop_drag();
    g.start_drag(200, 200);
    g.update_drag(400, 300);
    assert_eq!((g.get_position_x(), g.get_position_y()), (1700, 100));
}

#[test]
fn restarting_a_drag_reanchors() {
    let mut g = GlassState::new(200, 100);
    g.start_drag(0, 0);
    g.update_drag(60, 60);
    g.start_drag(1000, 1000);
    g.update_drag(1020, 980);
    assert_eq!((g.get_position_x(), g.get_position_y()), (80, 40));
}

#[test]
fn update_drag_without_drag_does_nothing() {
    let mut g = GlassState::new(200, 100);
    g.update_drag(300, 300);
    assert_eq!((g.get_position_x(), g.get_position_y()), (0, 0));
}

#[test]
fn stop_drag_keeps_position() {
    let mut g = GlassState::new(200, 100);
    g.start_drag(0, 0);
    g.update_drag(246, -91);
    g.stop_drag();
    assert!(!g.is_dragging());
    assert_eq!((g.get_position_x(), g.get_position_y()), (246, -91));
    g.update_drag(0, 0);
    assert_eq!((g.get_position_x(), g.get_position_y()), (246, -91));
}

#[test]
fn viewport_resize_pulls_panel_back() {
    let mut g = GlassState::new(200, 100);
    g.start_drag(0, 0);
    g.update_drag(10000, -10000);
    g.update_viewport(400, 300);
    // 400 / 2 - 200 / 2 - 10 = 90 px and 300 / 2 - 100 / 2 - 10 = 90 px
    assert_eq!((g.get_position_x(), g.get_position_y()), (180, -180));
}

#[test]
fn odd_viewport_gives_half_pixel_bound() {
    let mut g = GlassState::new(200, 100);
    g.start_drag(0, 0);
    g.update_drag(10000, 10000);
    g.update_viewport(401, 301);
    // 90.5 px on both axes
    assert_eq!((g.get_position_x(), g.get_position_y()), (181, 181));
    g.update_viewport(1921, 1080);
    g.update_drag(10000, 0);
    // 1921 / 2 - 200 / 2 - 10 = 850.5 px
    assert_eq!(g.get_position_x(), 1701);
}

#[test]
fn panel_larger_than_viewport_pins_to_upper_bound() {
    let mut g = GlassState::new(500, 100);
    g.update_viewport(300, 1080);
    // 300 / 2 - 500 / 2 - 10 = -110 px
    assert_eq!(g.get_position_x(), -220);
    assert_eq!(g.get_position_y(), 0);
}

#[test]
fn odd_panel_larger_than_viewport_pins_to_half_pixel_upper_bound() {
    // 300 / 2 - 501 / 2 - 10 = -110.5 px, whatever the position before
    for target in [-5000i64, 0, 5000] {
        let mut g = GlassState::new(501, 100);
        g.start_drag(0, 0);
        g.update_drag(target, 0);
        g.update_viewport(300, 1080);
        assert_eq!(g.get_position_x(), -221);
        g.update_drag(target + 77, 0);
        assert_eq!(g.get_position_x(), -221);
    }
}

#[test]
fn clamp_invariant_over_a_sequence() {
    let mut g = GlassState::new(121, 80);
    let moves: [(i64, i64); 5] = [(1800, 1800), (-4000, 20), (10, -1400), (0, 0), (6000, -6000)];
    let viewports: [(u32, u32); 3] = [(800, 601), (1025, 768), (300, 200)];
    g.start_drag(0, 0);
    for (i, (mx, my)) in moves.iter().enumerate() {
        g.update_drag(*mx, *my);
        let (vw, vh) = viewports[i % 3];
        g.update_viewport(vw, vh);
        let x = g.get_position_x();
        let y = g.get_position_y();
        // doubled bounds: view - panel - 2 * margin
        let (rx, ry) = (vw as i64 - 121 - 20, vh as i64 - 80 - 20);
        assert!(-rx <= x && x <= rx);
        assert!(-ry <= y && y <= ry);
    }
}

#[test]
fn mouse_and_time_are_recorded() {
    let mut g = GlassState::new(200, 100);
    g.update_mouse(32768, -5);
    assert_eq!((g.mouse_x(), g.mouse_y()), (32768, -5));
    g.update_time(16);
    g.update_time(-4);
    g.update_time(0);
    assert_eq!(g.time(), 12);
    assert_eq!((g.get_position_x(), g.get_position_y()), (0, 0));
}

#[test]
fn throttle_compares_elapsed_with_delay() {
    assert!(throttle_should_update(0, 16, 16));
    assert!(!throttle_should_update(0, 15, 16));
    assert!(throttle_should_update(100, 50, -60));
    assert!(throttle_should_update(i64::MIN, i64::MAX, 1));
    assert!(!throttle_should_update(i64::MAX, i64::MIN, 0));
}
