use airmon::control::{
    apply_night_mode, night_mode_brightness, run_cycle, CYCLE_SLEEP_MS, NIGHT_BRIGHTNESS, PURGE_MS,
};
use airmon::http::{apply_brightness, parse_brightness};
use airmon::leds::{Leds, Rgb, INITIAL_BRIGHTNESS};
use airmon::logging::LogEntry;
use airmon::scd41::{Scd41Command, Scd41Init};
use airmon::store::SharedStore;

#[test]
fn test_cycle_durations() {
    assert_eq!(PURGE_MS, 10_000);
    assert_eq!(CYCLE_SLEEP_MS, 50_000);
}

#[test]
fn test_night_mode_brightness_window() {
    assert_eq!(night_mode_brightness(22), NIGHT_BRIGHTNESS);
    assert_eq!(night_mode_brightness(23), NIGHT_BRIGHTNESS);
    assert_eq!(night_mode_brightness(0), NIGHT_BRIGHTNESS);
    assert_eq!(night_mode_brightness(5), NIGHT_BRIGHTNESS);
    assert_eq!(night_mode_brightness(6), INITIAL_BRIGHTNESS);
    assert_eq!(night_mode_brightness(12), INITIAL_BRIGHTNESS);
    assert_eq!(night_mode_brightness(21), INITIAL_BRIGHTNESS);
}

#[test]
fn test_apply_night_mode_only_on_change() {
    let mut leds = Leds::new();
    // Daytime at the initial brightness: nothing to do.
    assert!(!apply_night_mode(&mut leds, 12));
    assert_eq!(leds.get_brightness(), INITIAL_BRIGHTNESS);
    // Nightfall dims the strip.
    assert!(apply_night_mode(&mut leds, 23));
    assert_eq!(leds.get_brightness(), NIGHT_BRIGHTNESS);
    // A second firing in the same window changes nothing.
    assert!(!apply_night_mode(&mut leds, 23));
    // Morning restores the daytime level.
    assert!(apply_night_mode(&mut leds, 6));
    assert_eq!(leds.get_brightness(), INITIAL_BRIGHTNESS);
}

#[test]
fn test_run_cycle_commits_and_visualizes() {
    let store = SharedStore::new(20);
    let mut leds = Leds::new();
    leds.set_brightness(10);

    let entry = run_cycle(&store, &mut leds, Some(500), Some(20), Some(4242));
    assert_eq!(entry, LogEntry { co2: 500, pm25: 20 });

    let state = store.snapshot();
    assert_eq!(state.measured_data.co2, 500);
    assert_eq!(state.measured_data.pm25, 20);
    assert_eq!(state.measured_data.timestamp, Some(4242));

    let pixels = leds.pixels();
    assert_eq!(pixels[0], Rgb { r: 10, g: 10, b: 0 }); // PM2.5 yellow
    assert_eq!(pixels[1], Rgb { r: 5, g: 10, b: 0 }); // mix
    assert_eq!(pixels[2], Rgb { r: 0, g: 10, b: 0 }); // CO2 green
}

#[test]
fn test_run_cycle_substitutes_zero_for_failed_reads() {
    let store = SharedStore::new(20);
    let mut leds = Leds::new();
    let entry = run_cycle(&store, &mut leds, None, None, None);
    assert_eq!(entry, LogEntry { co2: 0, pm25: 0 });
    let state = store.snapshot();
    assert_eq!(state.measured_data.co2, 0);
    assert_eq!(state.measured_data.pm25, 0);
    assert_eq!(state.measured_data.timestamp, None);
    // CO2 0 is aqua, PM2.5 0 is green, both scaled by the default 20.
    let pixels = leds.pixels();
    assert_eq!(pixels[2], Rgb { r: 0, g: 20, b: 20 });
    assert_eq!(pixels[0], Rgb { r: 0, g: 20, b: 0 });
}

#[test]
fn test_scd41_bring_up_in_order() {
    let mut init = Scd41Init::new();
    assert_eq!(init.next_command(), Some(Scd41Command::WakeUp));
    init.apply_result(true);
    assert_eq!(init.next_command(), Some(Scd41Command::StopPeriodicMeasurement));
    init.apply_result(true);
    assert_eq!(init.next_command(), Some(Scd41Command::Reinit));
    init.apply_result(true);
    assert_eq!(init.next_command(), Some(Scd41Command::StartPeriodicMeasurement));
    init.apply_result(true);
    assert_eq!(init.next_command(), None);
}

#[test]
fn test_scd41_failure_is_terminal() {
    let mut init = Scd41Init::new();
    init.apply_result(true);
    init.apply_result(false);
    assert_eq!(init.next_command(), None);
    // A later success does not revive a failed bring-up.
    init.apply_result(true);
    assert_eq!(init.next_command(), None);
}

#[test]
fn test_parse_brightness_accepts_json_u8() {
    assert_eq!(parse_brightness(b"123"), Some(123));
    assert_eq!(parse_brightness(b"0"), Some(0));
    assert_eq!(parse_brightness(b"255"), Some(255));
    assert_eq!(parse_brightness(b" \t\n\r42 "), Some(42));
}

#[test]
fn test_parse_brightness_rejects_everything_else() {
    assert_eq!(parse_brightness(b""), None);
    assert_eq!(parse_brightness(b"   "), None);
    assert_eq!(parse_brightness(b"256"), None);
    assert_eq!(parse_brightness(b"2555"), None);
    assert_eq!(parse_brightness(b"007"), None);
    assert_eq!(parse_brightness(b"-1"), None);
    assert_eq!(parse_brightness(b"12a"), None);
    assert_eq!(parse_brightness(b"1 2"), None);
    assert_eq!(parse_brightness(b"\"12\""), None);
}

#[test]
fn test_apply_brightness_updates_settings_and_strip() {
    let store = SharedStore::new(20);
    let mut leds = Leds::new();
    leds.set_color(airmon::leds::LedPosition::Center, airmon::leds::Color::new(255, 0, 0));
    let center_before = leds.pixels()[1];

    apply_brightness(&store, &mut leds, 99);
    assert_eq!(store.get_brightness(), 99);
    assert_eq!(leds.get_brightness(), 99);
    // The bulk change leaves Center's stored color untouched.
    assert_eq!(leds.pixels()[1], center_before);
}
