use led_engine::color::hsv_to_rgb;
use led_engine::engine::{tick, AnimationState, CPU_ZONE_DEVICE, FRONT_BAR_DEVICE};
use led_engine::gateway::{protocol_compatible, wire_entries, Device};
use led_engine::levels::ChannelSample;

#[test]
fn hue_advances_by_one_each_call() {
    let mut st = AnimationState::new();
    assert_eq!(st.angle(), 0);
    assert_eq!(st.advance(), 1);
    assert_eq!(st.advance(), 2);
    assert_eq!(st.angle(), 2);
}

#[test]
fn hue_wraps_from_359_to_zero() {
    let mut st = AnimationState::new();
    for _ in 0..359 {
        st.advance();
    }
    assert_eq!(st.angle(), 359);
    assert_eq!(st.advance(), 0);
    assert!(st.angle() < 360);
}

#[test]
fn hue_stays_in_range_over_many_ticks() {
    let mut st = AnimationState::new();
    for _ in 0..1000 {
        let h = st.advance();
        assert!(h < 360);
    }
}

#[test]
fn unavailable_sample_skips_the_whole_tick() {
    let mut st = AnimationState::new();
    st.advance();
    let before = st.angle();

    let skipped = tick(&mut st, ChannelSample::Unavailable, ChannelSample::Level(9));
    assert!(skipped.is_none());
    assert_eq!(st.angle(), before);

    let skipped = tick(&mut st, ChannelSample::Level(9), ChannelSample::Unavailable);
    assert!(skipped.is_none());
    assert_eq!(st.angle(), before);

    let skipped = tick(&mut st, ChannelSample::Unavailable, ChannelSample::Unavailable);
    assert!(skipped.is_none());
    assert_eq!(st.angle(), before);
}

#[test]
fn successful_tick_advances_hue_and_renders_both_zones() {
    let mut st = AnimationState::new();
    let frame = tick(&mut st, ChannelSample::Level(127), ChannelSample::Level(64))
        .expect("both channels sampled, a frame is owed");
    assert_eq!(st.angle(), 1);
    assert_eq!(frame.front.len(), 30);
    assert_eq!(frame.cpu.len(), 12);
    // The cpu zone's brightness follows the louder channel at the new hue.
    let expected = hsv_to_rgb(1, 255, 127);
    for entry in &frame.cpu {
        assert_eq!(entry.1, expected);
    }
}

#[test]
fn frame_device_indices_are_distinct() {
    assert_eq!(FRONT_BAR_DEVICE, 1);
    assert_eq!(CPU_ZONE_DEVICE, 0);
}

#[test]
fn handshake_accepts_only_nonzero_protocol_versions() {
    assert!(!protocol_compatible(0));
    assert!(protocol_compatible(1));
    assert!(protocol_compatible(-3));
}

#[test]
fn wire_entries_widen_each_channel_in_order() {
    let buf = vec![
        (200, led_engine::Color::new(1, 2, 3)),
        (229, led_engine::Color::new(255, 0, 128)),
    ];
    let wire = wire_entries(&buf);
    assert_eq!(wire, vec![(200, 1, 2, 3), (229, 255, 0, 128)]);
}

#[test]
fn device_records_enumeration_facts() {
    let dev = Device { id: 0, name: String::from("strip"), leds_count: 30 };
    assert_eq!(dev.id, 0);
    assert_eq!(dev.name, "strip");
    assert_eq!(dev.leds_count, 30);
}
