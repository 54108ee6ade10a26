use liquid_glass::calculate_transform_matrix;

// Positions are in half pixels, sizes in whole pixels.

#[test]
fn idle_preset() {
    assert_eq!(
        calculate_transform_matrix(200, 100, 200, 100, false, false),
        "perspective(1500px) translate3d(0px, 0px, 0) rotateX(2deg) rotateY(-1deg)"
    );
}

#[test]
fn dragging_preset() {
    assert_eq!(
        calculate_transform_matrix(200, 100, 200, 100, true, false),
        "perspective(1500px) translate3d(0px, 0px, 0) rotateX(3deg) rotateY(-2deg) scale(0.995)"
    );
}

#[test]
fn hovering_preset() {
    assert_eq!(
        calculate_transform_matrix(200, 100, 200, 100, false, true),
        "perspective(1500px) translate3d(0px, 0px, 0) rotateX(3deg) rotateY(-2deg) scale(1.02)"
    );
}

#[test]
fn dragging_wins_over_hovering() {
    assert_eq!(
        calculate_transform_matrix(0, 0, 0, 0, true, true),
        "perspective(1500px) translate3d(0px, 0px, 0) rotateX(3deg) rotateY(-2deg) scale(0.995)"
    );
}

#[test]
fn half_pixel_translation() {
    assert_eq!(
        calculate_transform_matrix(0, 0, 201, 101, false, false),
        "perspective(1500px) translate3d(-100.5px, -50.5px, 0) rotateX(2deg) rotateY(-1deg)"
    );
    assert_eq!(
        calculate_transform_matrix(-6, 14, 0, 1, false, false),
        "perspective(1500px) translate3d(-3px, 6.5px, 0) rotateX(2deg) rotateY(-1deg)"
    );
    assert_eq!(
        calculate_transform_matrix(0, 0, 1, 0, false, false),
        "perspective(1500px) translate3d(-0.5px, 0px, 0) rotateX(2deg) rotateY(-1deg)"
    );
}

#[test]
fn large_translation() {
    assert_eq!(
        calculate_transform_matrix(2469134, 2000, 10, 0, false, false),
        "perspective(1500px) translate3d(1234562px, 1000px, 0) rotateX(2deg) rotateY(-1deg)"
    );
}

#[test]
fn half_pixel_position() {
    // position (300.5, -10) px, panel 100 x 30
    assert_eq!(
        calculate_transform_matrix(601, -20, 100, 30, false, false),
        "perspective(1500px) translate3d(250.5px, -25px, 0) rotateX(2deg) rotateY(-1deg)"
    );
}
