//! Core logic of an indoor air-quality monitor: the PM2.5 sensor's framed
//! serial protocol, the CO2 sensor's initialization sequence, the color
//! policy that maps readings to LED colors, the LED visualization state,
//! the shared measurement/settings store, and the decisions of the control
//! loop and its periodic timers. Hardware buses, Wi-Fi, HTTP transport and
//! process bootstrap live outside this crate and hand plain values in.

pub mod clock;
pub mod control;
pub mod http;
pub mod leds;
pub mod logging;
pub mod pm1006;
pub mod scd41;
pub mod store;
pub mod utils;
