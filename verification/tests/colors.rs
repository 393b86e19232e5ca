use airmon::leds::{scale_channel, Color};
use airmon::utils::{get_co2_color, get_pm25_color};

fn rgb(c: Color) -> (u8, u8, u8) {
    (c.r, c.g, c.b)
}

#[test]
fn test_co2_thresholds_are_closed_intervals() {
    assert_eq!(rgb(get_co2_color(0)), (0, 255, 255));
    assert_eq!(rgb(get_co2_color(400)), (0, 255, 255)); // aqua
    assert_eq!(rgb(get_co2_color(401)), (0, 255, 0)); // green
    assert_eq!(rgb(get_co2_color(1000)), (0, 255, 0));
    assert_eq!(rgb(get_co2_color(1001)), (255, 255, 0)); // yellow
    assert_eq!(rgb(get_co2_color(1500)), (255, 255, 0));
    assert_eq!(rgb(get_co2_color(1501)), (255, 69, 0)); // orange
    assert_eq!(rgb(get_co2_color(2000)), (255, 69, 0));
    assert_eq!(rgb(get_co2_color(2001)), (255, 0, 0)); // red
    assert_eq!(rgb(get_co2_color(u16::MAX)), (255, 0, 0));
}

#[test]
fn test_pm25_thresholds_are_closed_intervals() {
    assert_eq!(rgb(get_pm25_color(0)), (0, 255, 0));
    assert_eq!(rgb(get_pm25_color(12)), (0, 255, 0)); // green
    assert_eq!(rgb(get_pm25_color(13)), (255, 255, 0)); // yellow
    assert_eq!(rgb(get_pm25_color(35)), (255, 255, 0));
    assert_eq!(rgb(get_pm25_color(36)), (255, 69, 0)); // orange
    assert_eq!(rgb(get_pm25_color(55)), (255, 69, 0));
    assert_eq!(rgb(get_pm25_color(56)), (255, 0, 0)); // red
    assert_eq!(rgb(get_pm25_color(150)), (255, 0, 0));
    assert_eq!(rgb(get_pm25_color(151)), (128, 0, 0)); // dark red
    assert_eq!(rgb(get_pm25_color(u16::MAX)), (128, 0, 0));
}

#[test]
fn test_policy_colors_carry_no_override() {
    assert!(get_co2_color(500).brightness.is_none());
    assert!(get_pm25_color(20).brightness.is_none());
}

#[test]
fn test_brightness_scaling() {
    assert_eq!(scale_channel(255, 255), 255);
    assert_eq!(scale_channel(0, 255), 0);
    assert_eq!(scale_channel(0, 0), 0);
    assert_eq!(scale_channel(0, 123), 0);
    // channel * (brightness + 1) / 256, truncating
    assert_eq!(scale_channel(100, 127), 50);
    assert_eq!(scale_channel(255, 0), 0);
    assert_eq!(scale_channel(255, 20), 20);
    assert_eq!(scale_channel(128, 255), 128);
}

#[test]
fn test_render_uses_override_or_full_brightness() {
    let c = Color::new(255, 100, 0);
    let full = c.render();
    assert_eq!((full.r, full.g, full.b), (255, 100, 0));

    let dimmed = c.brightness(127).render();
    assert_eq!((dimmed.r, dimmed.g, dimmed.b), (127, 50, 0));
}

#[test]
fn test_mix_is_truncating_average() {
    let yellow = Color::new(255, 255, 0);
    let green = Color::new(0, 255, 0);
    let mixed = yellow.mix(&green);
    assert_eq!(rgb(mixed), (127, 255, 0));
    assert!(mixed.brightness.is_none());

    // Mixing drops any overrides of the inputs.
    let a = Color::new(10, 20, 30).brightness(5);
    let b = Color::new(11, 21, 31).brightness(250);
    let m = a.mix(&b);
    assert_eq!(rgb(m), (10, 20, 30));
    assert!(m.brightness.is_none());
}

#[test]
fn test_color_new_has_no_override() {
    let c = Color::new(1, 2, 3);
    assert_eq!((c.r, c.g, c.b), (1, 2, 3));
    assert!(c.brightness.is_none());
    let d = c.brightness(9);
    assert_eq!(d.brightness, Some(9));
    assert_eq!((d.r, d.g, d.b), (1, 2, 3));
}
