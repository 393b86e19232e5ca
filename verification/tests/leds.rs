use airmon::leds::{Color, LedPosition, Leds, Rgb, INITIAL_BRIGHTNESS};

#[test]
fn test_new_leds_start_black_at_initial_brightness() {
    let leds = Leds::new();
    assert_eq!(leds.get_brightness(), INITIAL_BRIGHTNESS);
    assert_eq!(INITIAL_BRIGHTNESS, 20);
    let pixels = leds.pixels();
    assert_eq!(pixels, vec![
        Rgb { r: 0, g: 0, b: 0 },
        Rgb { r: 0, g: 0, b: 0 },
        Rgb { r: 0, g: 0, b: 0 },
    ]);
}

#[test]
fn test_set_color_applies_global_brightness_only_when_unset() {
    let mut leds = Leds::new();
    // No override: the global brightness 20 scales 255 down to 20.
    leds.set_color(LedPosition::Top, Color::new(255, 0, 255));
    assert_eq!(leds.pixels()[2], Rgb { r: 20, g: 0, b: 20 });
    // An explicit override wins over the global brightness.
    leds.set_color(LedPosition::Top, Color::new(255, 0, 255).brightness(255));
    assert_eq!(leds.pixels()[2], Rgb { r: 255, g: 0, b: 255 });
}

#[test]
fn test_set_brightness_leaves_center_untouched() {
    let mut leds = Leds::new();
    leds.set_color(LedPosition::Bottom, Color::new(255, 255, 0));
    leds.set_color(LedPosition::Center, Color::new(255, 255, 0));
    leds.set_color(LedPosition::Top, Color::new(255, 255, 0));
    let before = leds.pixels();
    assert_eq!(before[1], Rgb { r: 20, g: 20, b: 0 });

    leds.set_brightness(255);
    assert_eq!(leds.get_brightness(), 255);
    let after = leds.pixels();
    // Bottom and Top picked up the new brightness ...
    assert_eq!(after[0], Rgb { r: 255, g: 255, b: 0 });
    assert_eq!(after[2], Rgb { r: 255, g: 255, b: 0 });
    // ... while Center still renders exactly as before.
    assert_eq!(after[1], before[1]);
}

#[test]
fn test_set_initial_color_is_fuchsia_everywhere() {
    let mut leds = Leds::new();
    leds.set_initial_color();
    let pixels = leds.pixels();
    let fuchsia = Rgb { r: 20, g: 0, b: 20 };
    assert_eq!(pixels, vec![fuchsia, fuchsia, fuchsia]);
}

#[test]
fn test_set_waiting_color_is_cyan_everywhere() {
    let mut leds = Leds::new();
    leds.set_waiting_color();
    let pixels = leds.pixels();
    let cyan = Rgb { r: 0, g: 20, b: 20 };
    assert_eq!(pixels, vec![cyan, cyan, cyan]);
}

#[test]
fn test_visualize_measures_end_to_end() {
    // CO2 500 ppm is green, PM2.5 20 ug/m3 is yellow; at brightness 10 the
    // strip shows Top green, Bottom yellow, Center their mix, all scaled
    // by (10 + 1) / 256.
    let mut leds = Leds::new();
    leds.set_brightness(10);
    leds.visualize_measures(500, 20);
    let pixels = leds.pixels();
    // yellow (255, 255, 0) scaled: 255 * 11 / 256 = 10
    assert_eq!(pixels[0], Rgb { r: 10, g: 10, b: 0 });
    // mix(yellow, green) = (127, 255, 0) scaled: 127 * 11 / 256 = 5
    assert_eq!(pixels[1], Rgb { r: 5, g: 10, b: 0 });
    // green (0, 255, 0) scaled
    assert_eq!(pixels[2], Rgb { r: 0, g: 10, b: 0 });
}
