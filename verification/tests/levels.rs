use led_engine::levels::{classify_sample, width_of_level, ChannelSample};

#[test]
fn width_boundary_levels() {
    assert_eq!(width_of_level(0), 0);
    assert_eq!(width_of_level(255), 15);
}

#[test]
fn width_of_half_scale_is_seven() {
    assert_eq!(width_of_level(127), 7);
    assert_eq!(width_of_level(128), 7);
}

#[test]
fn width_rounds_down() {
    // 16 * 15 = 240 < 255: still nothing lit.
    assert_eq!(width_of_level(16), 0);
    // 17 * 15 = 255: exactly one LED.
    assert_eq!(width_of_level(17), 1);
    assert_eq!(width_of_level(254), 14);
}

#[test]
fn width_never_exceeds_half_meter() {
    for level in 0u16..=255 {
        assert!(width_of_level(level as u8) <= 15);
    }
}

#[test]
fn sentinel_reading_is_unavailable() {
    assert_eq!(classify_sample(-1), ChannelSample::Unavailable);
}

#[test]
fn in_range_readings_are_levels() {
    assert_eq!(classify_sample(0), ChannelSample::Level(0));
    assert_eq!(classify_sample(100), ChannelSample::Level(100));
    assert_eq!(classify_sample(255), ChannelSample::Level(255));
}
