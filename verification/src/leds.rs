//! Colors and the LED visualization state.
//!
//! A [`Color`] is a raw RGB triple plus an optional brightness override;
//! the override is applied only when the color is rendered to a physical
//! pixel ([`Rgb`]). [`Leds`] holds the three logical light positions of the
//! device, applies the global brightness policy when colors are stored, and
//! renders the fixed-order pixel buffer that the strip driver transmits.

use vstd::prelude::*;

verus! {

/// Brightness every `Leds` starts with, and the daytime brightness of the
/// night-mode policy.
pub const INITIAL_BRIGHTNESS: u8 = 20;

/// An RGB color with an optional brightness override.
///
/// While `brightness` is `None` the raw channels stand unscaled; scaling
/// happens only when the color is rendered, using the override (or full
/// brightness) via the formula `channel * (brightness + 1) / 256`.
#[derive(Debug, Clone, Copy)]
pub struct Color {
    pub r: u8,
    pub g: u8,
    pub b: u8,
    pub brightness: Option<u8>,
}

/// A physical pixel: the scaled channels actually sent to the strip.
#[derive(Debug, Clone, Copy, PartialEq, Eq, Structural)]
pub struct Rgb {
    pub r: u8,
    pub g: u8,
    pub b: u8,
}

/// The luminance scaling rule: `channel * (brightness + 1) / 256`, with
/// truncating integer division.
pub open spec fn scaled(channel: u8, brightness: u8) -> int {
    (channel * (brightness + 1)) / 256
}

/// Channel-wise truncating average of two colors, with no brightness
/// override.
pub open spec fn mixed(a: Color, b: Color) -> Color {
    Color {
        r: ((a.r + b.r) / 2) as u8,
        g: ((a.g + b.g) / 2) as u8,
        b: ((a.b + b.b) / 2) as u8,
        brightness: None,
    }
}

/// The brightness a color is rendered with: its override, or full.
pub open spec fn effective_brightness(c: Color) -> u8 {
    match c.brightness {
        Some(level) => level,
        None => 255,
    }
}

/// The pixel a color renders to.
pub open spec fn rendered(c: Color) -> Rgb {
    Rgb {
        r: scaled(c.r, effective_brightness(c)) as u8,
        g: scaled(c.g, effective_brightness(c)) as u8,
        b: scaled(c.b, effective_brightness(c)) as u8,
    }
}

/// Scales one channel by a brightness level.
pub fn scale_channel(channel: u8, brightness: u8) -> (r: u8)
    ensures
        r == scaled(channel, brightness),
{
    proof {
        assert(channel * (brightness + 1) <= 255 * 256) by (nonlinear_arith)
            requires
                channel <= 255,
                brightness <= 255,
        ;
    }
    ((channel as u16) * (brightness as u16 + 1) / 256) as u8
}

impl Color {
    /// A raw color with no brightness override.
    pub fn new(r: u8, g: u8, b: u8) -> (c: Color)
        ensures
            c == (Color { r, g, b, brightness: None }),
    {
        Color { r, g, b, brightness: None }
    }

    /// The same channels with the brightness override set to `brightness`.
    pub fn brightness(&self, brightness: u8) -> (c: Color)
        ensures
            c == (Color { brightness: Some(brightness), ..*self }),
    {
        Color { r: self.r, g: self.g, b: self.b, brightness: Some(brightness) }
    }

    /// Channel-wise truncating average of two colors; the result carries no
    /// brightness override.
    pub fn mix(&self, other: &Color) -> (c: Color)
        ensures
            c == mixed(*self, *other),
    {
        Color {
            r: ((self.r as u16 + other.r as u16) / 2) as u8,
            g: ((self.g as u16 + other.g as u16) / 2) as u8,
            b: ((self.b as u16 + other.b as u16) / 2) as u8,
            brightness: None,
        }
    }

    /// The physical pixel this color renders to.
    pub fn render(&self) -> (p: Rgb)
        ensures
            p == rendered(*self),
    {
        let level = match self.brightness {
            Some(level) => level,
            None => 255,
        };
        Rgb {
            r: scale_channel(self.r, level),
            g: scale_channel(self.g, level),
            b: scale_channel(self.b, level),
        }
    }
}

impl Default for Color {
    /// Black, with no brightness override.
    fn default() -> (c: Color)
        ensures
            c == (Color { r: 0, g: 0, b: 0, brightness: None }),
    {
        Color { r: 0, g: 0, b: 0, brightness: None }
    }
}

/// The three fixed physical light slots, in wiring order: `Bottom` is pixel
/// 0, `Center` pixel 1, `Top` pixel 2.
#[derive(Debug, Clone, Copy, PartialEq, Eq, Structural)]
pub enum LedPosition {
    Bottom,
    Center,
    Top,
}

/// The visualization state: one stored color per slot and the global
/// brightness that is applied to incoming colors.
///
/// Flushing to the strip is the caller's step: [`Leds::pixels`] renders the
/// buffer in wiring order and the hardware driver outside this crate
/// transmits it.
pub struct Leds {
    bottom: Color,
    center: Color,
    top: Color,
    brightness: u8,
}

/// The color stored in a slot after `set_color` stores `color` there while
/// the global brightness is `global`: the global level is applied only when
/// the incoming color does not already request an override.
pub open spec fn stored_color(color: Color, global: u8) -> Color {
    match color.brightness {
        Some(_) => color,
        None => Color { brightness: Some(global), ..color },
    }
}

impl Leds {
    pub closed spec fn color_at(&self, position: LedPosition) -> Color {
        match position {
            LedPosition::Bottom => self.bottom,
            LedPosition::Center => self.center,
            LedPosition::Top => self.top,
        }
    }

    pub closed spec fn spec_brightness(&self) -> u8 {
        self.brightness
    }

    /// All slots black, global brightness at its initial level.
    pub fn new() -> (leds: Leds)
        ensures
            leds.spec_brightness() == INITIAL_BRIGHTNESS,
            forall|p: LedPosition| leds.color_at(p) == (Color {
                r: 0,
                g: 0,
                b: 0,
                brightness: None,
            }),
    {
        Leds {
            bottom: Color::new(0, 0, 0),
            center: Color::new(0, 0, 0),
            top: Color::new(0, 0, 0),
            brightness: INITIAL_BRIGHTNESS,
        }
    }

    pub fn get_brightness(&self) -> (r: u8)
        ensures
            r == self.spec_brightness(),
    {
        self.brightness
    }

    /// Stores `color` in the slot at `position`; the current global
    /// brightness is applied only when the color has no override of its
    /// own. The other slots and the global brightness are untouched.
    pub fn set_color(&mut self, position: LedPosition, color: Color)
        ensures
            final(self).color_at(position) == stored_color(color, old(self).spec_brightness()),
            forall|p: LedPosition|
                p != position ==> final(self).color_at(p) == old(self).color_at(p),
            final(self).spec_brightness() == old(self).spec_brightness(),
    {
        let applied = match color.brightness {
            Some(_) => color,
            None => color.brightness(self.brightness),
        };
        match position {
            LedPosition::Bottom => self.bottom = applied,
            LedPosition::Center => self.center = applied,
            LedPosition::Top => self.top = applied,
        }
    }

    /// Sets the global brightness and re-applies it to the stored Bottom
    /// and Top colors. The Center slot keeps its color untouched by this
    /// bulk operation: its brightness changes only through an explicit
    /// `set_color` call.
    pub fn set_brightness(&mut self, brightness: u8)
        ensures
            final(self).spec_brightness() == brightness,
            final(self).color_at(LedPosition::Bottom) == (Color {
                brightness: Some(brightness),
                ..old(self).color_at(LedPosition::Bottom)
            }),
            final(self).color_at(LedPosition::Top) == (Color {
                brightness: Some(brightness),
                ..old(self).color_at(LedPosition::Top)
            }),
            final(self).color_at(LedPosition::Center) == old(self).color_at(LedPosition::Center),
    {
        self.brightness = brightness;
        self.bottom = self.bottom.brightness(brightness);
        self.top = self.top.brightness(brightness);
    }

    /// Shows the startup color: all three slots fuchsia, at the current
    /// global brightness. The caller flushes the buffer to the strip.
    pub fn set_initial_color(&mut self)
        ensures
            forall|p: LedPosition| final(self).color_at(p) == stored_color(
                Color { r: 255, g: 0, b: 255, brightness: None },
                old(self).spec_brightness(),
            ),
            final(self).spec_brightness() == old(self).spec_brightness(),
    {
        let initial_color = Color::new(255, 0, 255);
        self.set_color(LedPosition::Top, initial_color);
        self.set_color(LedPosition::Bottom, initial_color);
        self.set_color(LedPosition::Center, initial_color);
    }

    /// Shows the waiting-for-data color: all three slots cyan, at the
    /// current global brightness. The caller flushes the buffer to the
    /// strip.
    pub fn set_waiting_color(&mut self)
        ensures
            forall|p: LedPosition| final(self).color_at(p) == stored_color(
                Color { r: 0, g: 255, b: 255, brightness: None },
                old(self).spec_brightness(),
            ),
            final(self).spec_brightness() == old(self).spec_brightness(),
    {
        let waiting_color = Color::new(0, 255, 255);
        self.set_color(LedPosition::Top, waiting_color);
        self.set_color(LedPosition::Bottom, waiting_color);
        self.set_color(LedPosition::Center, waiting_color);
    }

    /// The steady-state update of each control-loop iteration: Top shows
    /// the CO2 color, Bottom the PM2.5 color, Center their mix, each stored
    /// at the current global brightness (the policy colors carry no
    /// override of their own). The caller flushes the buffer to the strip.
    pub fn visualize_measures(&mut self, co2: u16, pm25: u16)
        ensures
            final(self).color_at(LedPosition::Top) == stored_color(
                crate::utils::co2_color(co2),
                old(self).spec_brightness(),
            ),
            final(self).color_at(LedPosition::Center) == stored_color(
                mixed(crate::utils::pm25_color(pm25), crate::utils::co2_color(co2)),
                old(self).spec_brightness(),
            ),
            final(self).color_at(LedPosition::Bottom) == stored_color(
                crate::utils::pm25_color(pm25),
                old(self).spec_brightness(),
            ),
            final(self).spec_brightness() == old(self).spec_brightness(),
    {
        let co2_color = crate::utils::get_co2_color(co2);
        let pm25_color = crate::utils::get_pm25_color(pm25);
        self.set_color(LedPosition::Top, co2_color);
        self.set_color(LedPosition::Center, pm25_color.mix(&co2_color));
        self.set_color(LedPosition::Bottom, pm25_color);
    }

    /// The pixel buffer in wiring order Bottom, Center, Top, each stored
    /// color rendered with its brightness. The strip driver outside this
    /// crate transmits exactly this buffer.
    pub fn pixels(&self) -> (buf: Vec<Rgb>)
        ensures
            buf@.len() == 3,
            buf@[0] == rendered(self.color_at(LedPosition::Bottom)),
            buf@[1] == rendered(self.color_at(LedPosition::Center)),
            buf@[2] == rendered(self.color_at(LedPosition::Top)),
    {
        let mut buf: Vec<Rgb> = Vec::new();
        buf.push(self.bottom.render());
        buf.push(self.center.render());
        buf.push(self.top.render());
        buf
    }
}

} // verus!
