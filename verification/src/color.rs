//! From a hue to the levels that are written to the lamp.
//!
//! The conversions are `smart_leds`': the hue circle at full saturation and
//! value, its gamma table, and its brightness scaling, applied in that
//! order.

use vstd::prelude::*;

verus! {

/// Saturation of every colour the lamp shows.
pub const LAMP_SATURATION: u8 = 255;

/// Value (brightness in the hue colour space) of every colour the lamp
/// shows.
pub const LAMP_VALUE: u8 = 255;

/// Brightness setting that limits the intensity of the lamp.
pub const LAMP_BRIGHTNESS: u8 = 10;

/// One colour: the levels of the red, green and blue channels.
#[derive(Clone, Copy, Debug, PartialEq, Eq, Structural)]
pub struct Rgb {
    /// Red.
    pub r: u8,
    /// Green.
    pub g: u8,
    /// Blue.
    pub b: u8,
}

/// The red, green and blue levels that `smart_leds::hsv::hsv2rgb` computes
/// for a hue, a saturation and a value.
pub uninterp spec fn hsv_levels(hue: u8, sat: u8, val: u8) -> (u8, u8, u8);

/// The entry of `smart_leds`' gamma table for one channel level.
pub uninterp spec fn gamma_level(level: u8) -> u8;

/// A channel level scaled down by a brightness setting: `brightness + 1`
/// parts in 256, rounded down.
pub open spec fn dimmed_level(level: u8, brightness: u8) -> u8 {
    (level as int * (brightness as int + 1) / 256) as u8
}

/// How far a hue lies into its sixth of the circle, from 0 at the start of
/// a sixth to 252 at its end.
pub open spec fn hue_ramp(hue: u8) -> u8 {
    ((hue as int * 2 % 85) * 3) as u8
}

/// The colour of a hue at full saturation and value. In every sixth of the
/// circle one channel is full, one is off, and the third rises or falls
/// with the hue.
#[verifier::opaque]
pub open spec fn full_color_of(hue: u8) -> Rgb {
    let rising = hue_ramp(hue);
    let falling = (255 - hue_ramp(hue)) as u8;
    if hue <= 42 {
        Rgb { r: 255, g: rising, b: 0 }
    } else if hue <= 84 {
        Rgb { r: falling, g: 255, b: 0 }
    } else if hue <= 127 {
        Rgb { r: 0, g: 255, b: rising }
    } else if hue <= 169 {
        Rgb { r: 0, g: falling, b: 255 }
    } else if hue <= 212 {
        Rgb { r: rising, g: 0, b: 255 }
    } else if hue <= 254 {
        Rgb { r: 255, g: 0, b: falling }
    } else {
        Rgb { r: 255, g: 0, b: 0 }
    }
}

/// A colour with every channel scaled down by [`LAMP_BRIGHTNESS`].
pub open spec fn limited(color: Rgb) -> Rgb {
    Rgb {
        r: dimmed_level(color.r, LAMP_BRIGHTNESS),
        g: dimmed_level(color.g, LAMP_BRIGHTNESS),
        b: dimmed_level(color.b, LAMP_BRIGHTNESS),
    }
}

/// A colour after gamma correction of every channel.
pub open spec fn gamma_corrected(color: Rgb) -> Rgb {
    Rgb { r: gamma_level(color.r), g: gamma_level(color.g), b: gamma_level(color.b) }
}

/// What the lamp is driven with for a colour: gamma correction first, then
/// the intensity limit.
pub open spec fn drive_levels_of(color: Rgb) -> Rgb {
    limited(gamma_corrected(color))
}

/// What the lamp is driven with for a hue.
pub open spec fn lamp_color_of(hue: u8) -> Rgb {
    drive_levels_of(full_color_of(hue))
}

/// `smart_leds::hsv::hsv2rgb`: a pure function of hue, saturation and value.
/// At saturation and value 255 its three intermediate levels come to 0, to
/// the ramp of the hue and to 255 less the ramp, and the sixth of the circle
/// decides which channel gets which.
#[verifier::external_body]
fn hsv_to_rgb(hue: u8, sat: u8, val: u8) -> (color: Rgb)
    ensures
        (color.r, color.g, color.b) == hsv_levels(hue, sat, val),
        sat == 255 && val == 255 ==> color == full_color_of(hue),
{
    let c = smart_leds::hsv::hsv2rgb(smart_leds::hsv::Hsv { hue, sat, val });
    Rgb { r: c.r, g: c.g, b: c.b }
}

/// `smart_leds::gamma` on one colour: each channel is replaced by its entry
/// in the gamma table, independently of the other two.
#[verifier::external_body]
fn gamma_correct(color: Rgb) -> (corrected: Rgb)
    ensures
        corrected.r == gamma_level(color.r),
        corrected.g == gamma_level(color.g),
        corrected.b == gamma_level(color.b),
{
    let source = core::iter::once(smart_leds::RGB8 { r: color.r, g: color.g, b: color.b });
    smart_leds::gamma(source).map(|c| Rgb { r: c.r, g: c.g, b: c.b }).next().unwrap_or(color)
}

/// `smart_leds::brightness` on one colour: each channel is multiplied by
/// `brightness + 1` and divided by 256, rounding down.
#[verifier::external_body]
fn scale_brightness(color: Rgb, brightness: u8) -> (scaled: Rgb)
    ensures
        scaled.r == dimmed_level(color.r, brightness),
        scaled.g == dimmed_level(color.g, brightness),
        scaled.b == dimmed_level(color.b, brightness),
{
    let source = core::iter::once(smart_leds::RGB8 { r: color.r, g: color.g, b: color.b });
    smart_leds::brightness(source, brightness).map(|c| Rgb { r: c.r, g: c.g, b: c.b }).next()
        .unwrap_or(color)
}

/// The colour of `hue` at full saturation and value.
pub fn full_color(hue: u8) -> (color: Rgb)
    ensures
        color == full_color_of(hue),
        color.r == 255 || color.g == 255 || color.b == 255,
        color.r == 0 || color.g == 0 || color.b == 0,
{
    proof {
        reveal(full_color_of);
    }
    hsv_to_rgb(hue, LAMP_SATURATION, LAMP_VALUE)
}

/// Scales every channel of `color` down by [`LAMP_BRIGHTNESS`]: to 11 parts
/// in 256, which is never more than 10.
pub fn limit_intensity(color: Rgb) -> (dimmed: Rgb)
    ensures
        dimmed == limited(color),
        dimmed.r as int == color.r as int * 11 / 256,
        dimmed.g as int == color.g as int * 11 / 256,
        dimmed.b as int == color.b as int * 11 / 256,
        dimmed.r <= 10 && dimmed.g <= 10 && dimmed.b <= 10,
{
    scale_brightness(color, LAMP_BRIGHTNESS)
}

/// Gamma-corrects `color` and then limits its intensity.
pub fn drive_levels(color: Rgb) -> (levels: Rgb)
    ensures
        levels == drive_levels_of(color),
        levels.r <= 10 && levels.g <= 10 && levels.b <= 10,
{
    limit_intensity(gamma_correct(color))
}

/// The levels to write to the lamp for `hue`.
pub fn lamp_color(hue: u8) -> (color: Rgb)
    ensures
        color == lamp_color_of(hue),
        color.r <= 10 && color.g <= 10 && color.b <= 10,
{
    drive_levels(full_color(hue))
}

} // verus!
