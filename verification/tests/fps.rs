use raytracer::fps::FpsCounter;

#[test]
fn no_report_inside_the_window() {
    let mut c = FpsCounter::new(0);
    assert_eq!(c.get_fps(0), None);
    assert_eq!(c.get_fps(500), None);
    assert_eq!(c.get_fps(1000), None);
}

#[test]
fn report_counts_frames_of_the_window() {
    let mut c = FpsCounter::new(0);
    assert_eq!(c.get_fps(300), None);
    assert_eq!(c.get_fps(600), None);
    assert_eq!(c.get_fps(1200), Some(3));
}

#[test]
fn window_restarts_after_a_report() {
    let mut c = FpsCounter::new(0);
    assert_eq!(c.get_fps(1500), Some(1));
    assert_eq!(c.get_fps(2000), None);
    assert_eq!(c.get_fps(2501), Some(2));
}

#[test]
fn exactly_one_window_is_not_enough() {
    let mut c = FpsCounter::new(100);
    assert_eq!(c.get_fps(1100), None);
    assert_eq!(c.get_fps(1101), Some(2));
}
