//! The decisions of the control loop and the night-mode timer.
//!
//! The loop itself runs outside this crate: it drives the fan, sleeps, and
//! reads the two sensor buses. What it hands in are the outcomes — a
//! reading or `None` for a failed read, and the clock's timestamp — and
//! this module turns them into the one commit and LED update of the
//! iteration. A failed read is substituted with 0 so the feedback loop
//! stays alive; downstream consumers cannot tell that sentinel from a real
//! zero reading.

use vstd::prelude::*;
use crate::leds::Color;
use crate::leds::LedPosition;
use crate::leds::Leds;
use crate::leds::INITIAL_BRIGHTNESS;
use crate::leds::mixed;
use crate::leds::stored_color;
use crate::logging::LogEntry;
use crate::store::SharedStore;
use crate::utils::co2_color;
use crate::utils::pm25_color;

verus! {

/// How long the fan purges air before the sensors are read, in
/// milliseconds.
pub const PURGE_MS: u64 = 10000;

/// How long the loop sleeps after an iteration, in milliseconds.
pub const CYCLE_SLEEP_MS: u64 = 50000;

/// The LED brightness during configured night hours.
pub const NIGHT_BRIGHTNESS: u8 = 1;

/// The first hour of the night window (inclusive).
pub const NIGHT_FROM_HOUR: u8 = 22;

/// The first morning hour outside the night window (exclusive upper end).
pub const NIGHT_UNTIL_HOUR: u8 = 6;

/// A sensor outcome folded to the committed reading: the value read, or
/// the 0 sentinel for a failed read.
pub open spec fn reading_or_zero(reading: Option<u16>) -> u16 {
    match reading {
        Some(v) => v,
        None => 0,
    }
}

/// The brightness the night-mode policy wants at a local hour: dim from
/// 22:00 until before 6:00, the initial daytime level otherwise.
pub open spec fn spec_night_mode_brightness(hour: u8) -> u8 {
    if hour >= NIGHT_FROM_HOUR || hour < NIGHT_UNTIL_HOUR {
        NIGHT_BRIGHTNESS
    } else {
        INITIAL_BRIGHTNESS
    }
}

/// The brightness the night-mode policy wants at a local hour.
pub fn night_mode_brightness(hour: u8) -> (r: u8)
    requires
        hour < 24,
    ensures
        r == spec_night_mode_brightness(hour),
{
    if hour >= NIGHT_FROM_HOUR || hour < NIGHT_UNTIL_HOUR {
        NIGHT_BRIGHTNESS
    } else {
        INITIAL_BRIGHTNESS
    }
}

/// One firing of the night-mode timer: moves the LED state to the policy
/// brightness for the given local hour, touching nothing when it is
/// already there. Returns whether anything changed, so the caller knows to
/// flush the strip.
pub fn apply_night_mode(leds: &mut Leds, hour: u8) -> (changed: bool)
    requires
        hour < 24,
    ensures
        changed == (spec_night_mode_brightness(hour) != old(leds).spec_brightness()),
        !changed ==> *final(leds) == *old(leds),
        changed ==> {
            &&& final(leds).spec_brightness() == spec_night_mode_brightness(hour)
            &&& final(leds).color_at(LedPosition::Bottom) == (Color {
                brightness: Some(spec_night_mode_brightness(hour)),
                ..old(leds).color_at(LedPosition::Bottom)
            })
            &&& final(leds).color_at(LedPosition::Top) == (Color {
                brightness: Some(spec_night_mode_brightness(hour)),
                ..old(leds).color_at(LedPosition::Top)
            })
            &&& final(leds).color_at(LedPosition::Center) == old(leds).color_at(
                LedPosition::Center,
            )
        },
{
    let target = night_mode_brightness(hour);
    if target != leds.get_brightness() {
        leds.set_brightness(target);
        true
    } else {
        false
    }
}

/// One control-loop iteration's bookkeeping, after the purge and the two
/// bus reads: substitutes the 0 sentinel for failed reads, commits the
/// measurement triple atomically to the shared store, updates the LED
/// visualization, and returns the entry for the best-effort remote report.
/// The caller flushes the LED buffer and performs transport.
pub fn run_cycle(
    store: &SharedStore,
    leds: &mut Leds,
    co2_reading: Option<u16>,
    pm25_reading: Option<u16>,
    timestamp: Option<i64>,
) -> (entry: LogEntry)
    ensures
        entry == (LogEntry {
            co2: reading_or_zero(co2_reading),
            pm25: reading_or_zero(pm25_reading),
        }),
        final(leds).color_at(LedPosition::Top) == stored_color(
            co2_color(reading_or_zero(co2_reading)),
            old(leds).spec_brightness(),
        ),
        final(leds).color_at(LedPosition::Center) == stored_color(
            mixed(
                pm25_color(reading_or_zero(pm25_reading)),
                co2_color(reading_or_zero(co2_reading)),
            ),
            old(leds).spec_brightness(),
        ),
        final(leds).color_at(LedPosition::Bottom) == stored_color(
            pm25_color(reading_or_zero(pm25_reading)),
            old(leds).spec_brightness(),
        ),
        final(leds).spec_brightness() == old(leds).spec_brightness(),
{
    let co2 = match co2_reading {
        Some(v) => v,
        None => 0,
    };
    let pm25 = match pm25_reading {
        Some(v) => v,
        None => 0,
    };

    store.commit(co2, pm25, timestamp);
    leds.visualize_measures(co2, pm25);
    LogEntry::new(co2, pm25)
}

} // verus!
