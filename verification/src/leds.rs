//! The LED strip worker's logic: turn the latest distance into a colour on a
//! red-to-green scale, and drive the strip only when the reading has moved
//! by at least half a centimetre, so a noisy sensor cannot flood the driver.
//!
//! All arithmetic is exact and integer. Distances are millimetres; colours
//! use the full 0..=255 channel range across the first metre; perceived
//! brightness weights the channels 2126 : 7152 : 722 in ten-thousandths;
//! the weights sum to one, so it never exceeds 255.

use vstd::prelude::*;

use crate::event::Led;

verus! {

/// The distance as far as the colour scale cares: capped at one metre.
pub open spec fn capped_mm(distance_mm: u32) -> int {
    if distance_mm > 1000 {
        1000
    } else {
        distance_mm as int
    }
}

/// Red fades out linearly over the first metre.
pub open spec fn red_for(distance_mm: u32) -> int {
    255 * (1000 - capped_mm(distance_mm)) / 1000
}

/// Green fades in linearly over the first metre.
pub open spec fn green_for(distance_mm: u32) -> int {
    255 * capped_mm(distance_mm) / 1000
}

/// Perceived brightness of a colour, on the same 0..=255 scale.
pub open spec fn brightness_of(red: int, green: int, blue: int) -> int {
    (2126 * red + 7152 * green + 722 * blue) / 10000
}

/// The LED event the strip is driven with at a given distance.
pub open spec fn led_for(distance_mm: u32) -> Led {
    Led {
        red: red_for(distance_mm) as u8,
        green: green_for(distance_mm) as u8,
        blue: 0,
        brightness: brightness_of(red_for(distance_mm), green_for(distance_mm), 0) as u8,
    }
}

/// Map a distance to the red-to-green pair of the scale: near is red, a
/// metre or more is green, and the two channels always sum to at most 255.
pub fn distance_to_rgb(distance_mm: u32) -> (rgb: (u8, u8, u8))
    ensures
        rgb.0 == red_for(distance_mm),
        rgb.1 == green_for(distance_mm),
        rgb.2 == 0,
        rgb.0 + rgb.1 <= 255,
{
    let d: u32 = if distance_mm > 1000 {
        1000
    } else {
        distance_mm
    };
    let red: u32 = 255 * (1000 - d) / 1000;
    let green: u32 = 255 * d / 1000;
    (red as u8, green as u8, 0)
}

/// Perceived brightness of a colour; never more than the brightest channel
/// scale, since the three weights sum to exactly one.
pub fn calculate_brightness(red: u8, green: u8, blue: u8) -> (b: u8)
    ensures
        b == brightness_of(red as int, green as int, blue as int),
{
    let weighted: u32 = 2126 * (red as u32) + 7152 * (green as u32) + 722 * (blue as u32);
    (weighted / 10000) as u8
}

/// The worker's memory of the last half-centimetre step it drove the strip
/// with. A fresh monitor remembers step zero, as if the robot started flush
/// against an obstacle.
pub struct LedMonitor {
    pub last_step: u32,
}

/// The monitor's transition on one reading: the step the reading falls in,
/// and the LED update to publish, if the step changed.
pub open spec fn monitor_step(m: LedMonitor, distance_mm: u32) -> (LedMonitor, Option<Led>) {
    if m.last_step == distance_mm / 5 {
        (m, None)
    } else {
        (LedMonitor { last_step: distance_mm / 5 }, Some(led_for(distance_mm)))
    }
}

impl LedMonitor {
    /// A monitor remembering step zero.
    pub fn new() -> (m: LedMonitor)
        ensures
            m.last_step == 0,
    {
        LedMonitor { last_step: 0 }
    }

    /// Take one distance reading. The strip is driven, and the LED state
    /// event published, exactly when the reading falls into a different
    /// half-centimetre step than the one last applied.
    pub fn on_distance(&mut self, distance_mm: u32) -> (out: Option<Led>)
        ensures
            (*final(self), out) == monitor_step(*old(self), distance_mm),
    {
        let step = distance_mm / 5;
        if step == self.last_step {
            None
        } else {
            self.last_step = step;
            let (red, green, blue) = distance_to_rgb(distance_mm);
            let brightness = calculate_brightness(red, green, blue);
            Some(Led { red, green, blue, brightness })
        }
    }
}

/// Driving the strip is debounced just like the motors: any two consecutive
/// readings within the same half-centimetre step produce at most one LED
/// update — the second is always swallowed.
pub proof fn lemma_led_debounce(m: LedMonitor, d1: u32, d2: u32)
    requires
        d1 / 5 == d2 / 5,
    ensures
        monitor_step(monitor_step(m, d1).0, d2).1 is None,
{
}

} // verus!
