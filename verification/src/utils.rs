//! The color policy: the fixed mapping from CO2 and PM2.5 readings to
//! status colors. The breakpoints are closed intervals and are an exact
//! contract of the device's visual language.

use vstd::prelude::*;
use crate::leds::Color;

verus! {

/// The color the CO2 policy assigns to a reading, in parts per million:
/// aqua up to 400, green up to 1000, yellow up to 1500, orange up to 2000,
/// red above.
pub open spec fn co2_color(co2: u16) -> Color {
    if co2 <= 400 {
        Color { r: 0, g: 255, b: 255, brightness: None }
    } else if co2 <= 1000 {
        Color { r: 0, g: 255, b: 0, brightness: None }
    } else if co2 <= 1500 {
        Color { r: 255, g: 255, b: 0, brightness: None }
    } else if co2 <= 2000 {
        Color { r: 255, g: 69, b: 0, brightness: None }
    } else {
        Color { r: 255, g: 0, b: 0, brightness: None }
    }
}

/// The color the PM2.5 policy assigns to a reading, in micrograms per cubic
/// meter: green up to 12, yellow up to 35, orange up to 55, red up to 150,
/// dark red above.
pub open spec fn pm25_color(pm25: u16) -> Color {
    if pm25 <= 12 {
        Color { r: 0, g: 255, b: 0, brightness: None }
    } else if pm25 <= 35 {
        Color { r: 255, g: 255, b: 0, brightness: None }
    } else if pm25 <= 55 {
        Color { r: 255, g: 69, b: 0, brightness: None }
    } else if pm25 <= 150 {
        Color { r: 255, g: 0, b: 0, brightness: None }
    } else {
        Color { r: 128, g: 0, b: 0, brightness: None }
    }
}

/// Maps a CO2 reading to its status color.
pub fn get_co2_color(co2: u16) -> (c: Color)
    ensures
        c == co2_color(co2),
{
    if co2 <= 400 {
        Color::new(0, 255, 255)
    } else if co2 <= 1000 {
        Color::new(0, 255, 0)
    } else if co2 <= 1500 {
        Color::new(255, 255, 0)
    } else if co2 <= 2000 {
        Color::new(255, 69, 0)
    } else {
        Color::new(255, 0, 0)
    }
}

/// Maps a PM2.5 reading to its status color.
pub fn get_pm25_color(pm25: u16) -> (c: Color)
    ensures
        c == pm25_color(pm25),
{
    if pm25 <= 12 {
        Color::new(0, 255, 0)
    } else if pm25 <= 35 {
        Color::new(255, 255, 0)
    } else if pm25 <= 55 {
        Color::new(255, 69, 0)
    } else if pm25 <= 150 {
        Color::new(255, 0, 0)
    } else {
        Color::new(128, 0, 0)
    }
}

} // verus!
