use led_engine::color::{hsv_to_rgb, Color};
use led_engine::zones::{
    render_cpu_zone, render_front_bar, CPU_ZONE_BASE, CPU_ZONE_LEN, FRONT_BAR_BASE, FRONT_BAR_LEN,
};

#[test]
fn silent_front_bar_is_all_white() {
    let white = Color::new(255, 255, 255);
    let buf = render_front_bar(0, 0, 0);
    assert_eq!(buf.len(), FRONT_BAR_LEN);
    for (_, color) in &buf {
        assert_eq!(*color, white);
    }
    // Left half ascends from the zone base.
    for (i, entry) in buf.iter().take(15).enumerate() {
        assert_eq!(entry.0, FRONT_BAR_BASE + i as i32);
    }
    // Right half descends from the zone's last id toward the middle.
    for (i, entry) in buf.iter().skip(15).enumerate() {
        assert_eq!(entry.0, 229 - i as i32);
    }
}

#[test]
fn full_scale_front_bar_is_all_hue_colored() {
    let hue = 42;
    let active = hsv_to_rgb(hue, 255, 255);
    let buf = render_front_bar(255, 255, hue);
    assert_eq!(buf.len(), FRONT_BAR_LEN);
    for (i, entry) in buf.iter().enumerate() {
        assert_eq!(entry.0, FRONT_BAR_BASE + i as i32);
        assert_eq!(entry.1, active);
    }
}

#[test]
fn half_left_front_bar_segments() {
    let white = Color::new(255, 255, 255);
    // Level 127 is half scale: a left meter of width 7, an empty right
    // meter, so 8 white, 7 colored, 15 white — 30 entries in all.
    let hue = 300;
    let active = hsv_to_rgb(hue, 255, 255);
    let buf = render_front_bar(127, 0, hue);
    assert_eq!(buf.len(), 30);
    for entry in &buf[..8] {
        assert_eq!(entry.1, white);
    }
    for entry in &buf[8..15] {
        assert_eq!(entry.1, active);
    }
    for entry in &buf[15..] {
        assert_eq!(entry.1, white);
    }
}

#[test]
fn uneven_meters_meet_in_the_middle() {
    // Left width floor(200*15/255) = 11, right width floor(64*15/255) = 3.
    let hue = 10;
    let active = hsv_to_rgb(hue, 255, 255);
    let buf = render_front_bar(200, 64, hue);
    assert_eq!(buf.len(), 30);
    let colored: Vec<i32> =
        buf.iter().filter(|e| e.1 == active).map(|e| e.0).collect();
    // The active segment covers ids 204..=217: 11 LEDs left of the middle
    // and 3 right of it.
    assert_eq!(colored, (204..=217).collect::<Vec<i32>>());
}

#[test]
fn cpu_zone_is_twelve_identical_entries() {
    let hue = 77;
    let expected = hsv_to_rgb(hue, 255, 200);
    let buf = render_cpu_zone(hue, 200);
    assert_eq!(buf.len(), CPU_ZONE_LEN);
    for (i, entry) in buf.iter().enumerate() {
        assert_eq!(entry.0, CPU_ZONE_BASE + i as i32);
        assert_eq!(entry.1, expected);
    }
}

#[test]
fn silent_cpu_zone_is_black() {
    let buf = render_cpu_zone(123, 0);
    assert_eq!(buf.len(), 12);
    for (_, color) in &buf {
        assert_eq!(*color, Color::new(0, 0, 0));
    }
}
