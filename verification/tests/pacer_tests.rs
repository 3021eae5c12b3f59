use frame_loop::pacer::FramePacer;

#[test]
fn first_tick_is_strictly_positive_even_on_a_stalled_clock() {
    let mut pacer = FramePacer::new(1_000);
    let delta = pacer.tick(1_000);
    assert!(delta >= 1);
}

#[test]
fn first_tick_frame_rate_is_finite() {
    let mut pacer = FramePacer::new(5_000);
    let delta = pacer.tick(5_000);
    let delta_seconds = delta as f64 / 1_000_000.0;
    let fps = 1.0 / delta_seconds;
    assert!(fps.is_finite());
}

#[test]
fn tick_reports_elapsed_microseconds() {
    let mut pacer = FramePacer::new(1_000);
    assert_eq!(pacer.tick(4_500), 3_500);
    assert_eq!(pacer.tick(4_500), 1);
    assert_eq!(pacer.tick(6_000), 1_500);
}

#[test]
fn stalled_clock_does_not_move_the_reference_point() {
    let mut pacer = FramePacer::new(2_000);
    assert_eq!(pacer.tick(1_500), 1);
    assert_eq!(pacer.last_micros, 2_000);
    assert_eq!(pacer.tick(2_600), 600);
    assert_eq!(pacer.last_micros, 2_600);
}
