use led_controller::rate::RateState;

#[test]
fn first_observation_gives_no_sample() {
    let mut r = RateState::new();
    assert_eq!(r.observe(1_000), None);
    assert_eq!(r.frame_count, 1);
    assert_eq!(r.last_timestamp, Some(1_000));
}

#[test]
fn half_second_apart_gives_half_second_interval() {
    let mut r = RateState::new();
    assert_eq!(r.observe(0), None);
    assert_eq!(r.observe(500_000_000), Some(500_000_000));
    assert_eq!(r.frame_count, 2);
}

#[test]
fn non_positive_interval_gives_no_sample() {
    let mut r = RateState::new();
    r.observe(100);
    assert_eq!(r.observe(100), None);
    assert_eq!(r.observe(50), None);
    assert_eq!(r.frame_count, 3);
    assert_eq!(r.last_timestamp, Some(50));
    assert_eq!(r.observe(80), Some(30));
}
