//! Exact integer arithmetic behind the PWM servo driver.
//!
//! The driver chip takes a prescaler derived from its 25 MHz oscillator and
//! a 4096-step PWM resolution, and four register writes per channel for the
//! on and off counts. The blocking worker performs the bus writes; the
//! values it writes are computed and proved here.

use vstd::prelude::*;

verus! {

/// The oscillator frequency of the PWM chip, in hertz.
pub const OSC_CLOCK_HZ: u32 = 25000000;

/// The counter resolution of the PWM chip.
pub const PWM_RESOLUTION: u32 = 4096;

/// The first on-low register; each channel occupies the four registers
/// starting at this base plus four times the channel number.
pub const LED0_ON_L: u8 = 6;

/// The prescaler register value for a PWM frequency: the oscillator rate
/// over resolution times frequency, rounded to nearest, less one.
pub open spec fn prescale_spec(freq_hz: u32) -> int {
    (OSC_CLOCK_HZ + (PWM_RESOLUTION * freq_hz) / 2) as int / (PWM_RESOLUTION * freq_hz) as int - 1
}

/// Compute the prescaler for a PWM frequency the chip can express.
pub fn prescale_for_freq(freq_hz: u32) -> (p: u8)
    requires
        24 <= freq_hz <= 1526,
    ensures
        p == prescale_spec(freq_hz),
{
    let denom: u32 = PWM_RESOLUTION * freq_hz;
    let rounded: u32 = (OSC_CLOCK_HZ + denom / 2) / denom;
    proof {
        assert(denom == 4096 * freq_hz);
        assert(98304 <= denom <= 6250496) by (nonlinear_arith)
            requires
                denom == 4096 * freq_hz && 24 <= freq_hz <= 1526,
        ;
        assert(2 <= (25000000 + denom as int / 2) / denom as int <= 255) by (nonlinear_arith)
            requires
                98304 <= denom <= 6250496,
        ;
    }
    (rounded - 1) as u8
}

/// The pulse width for a position on the 0..=100 scale, linearly between
/// the calibrated minimum and maximum counts.
pub open spec fn pulse_spec(percent: u8, min: u16, max: u16) -> int {
    min + (max - min) * percent / 100
}

/// Map a position on the 0..=100 scale to an off-count between the servo's
/// calibrated minimum and maximum pulse widths.
pub fn servo_pulse(percent: u8, min: u16, max: u16) -> (pulse: u16)
    requires
        percent <= 100,
        min <= max,
    ensures
        pulse == pulse_spec(percent, min, max),
        min <= pulse <= max,
{
    let span: u32 = (max - min) as u32;
    proof {
        assert(span * percent <= 65535 * 100) by (nonlinear_arith)
            requires
                span <= 65535 && percent <= 100,
        ;
        assert(span * percent / 100 <= span) by (nonlinear_arith)
            requires
                percent <= 100,
        ;
    }
    let scaled: u32 = span * (percent as u32) / 100;
    min + (scaled as u16)
}

/// A commanded angle on the 0..=180 range, as a position on the 0..=100
/// scale the pulse map takes.
pub fn angle_to_percent(angle: u8) -> (percent: u8)
    requires
        angle <= 180,
    ensures
        percent == angle * 100 / 180,
        percent <= 100,
{
    ((angle as u32) * 100 / 180) as u8
}

/// The four writes that set one channel's on and off counts: register and
/// value pairs, low byte then high byte of each count, the registers being
/// the channel's four starting at the base.
pub open spec fn pwm_writes_spec(channel: u8, on: u16, off: u16) -> Seq<(u8, u8)> {
    let base = LED0_ON_L + 4 * channel;
    seq![
        ((base) as u8, (on % 256) as u8),
        ((base + 1) as u8, (on / 256) as u8),
        ((base + 2) as u8, (off % 256) as u8),
        ((base + 3) as u8, (off / 256) as u8),
    ]
}

/// Compute the register/value pairs the worker must write, in order, to set
/// one channel's PWM on and off counts.
pub fn pwm_register_writes(channel: u8, on: u16, off: u16) -> (writes: Vec<(u8, u8)>)
    requires
        channel <= 15,
    ensures
        writes@ == pwm_writes_spec(channel, on, off),
{
    let base: u8 = LED0_ON_L + 4 * channel;
    proof {
        assert((on & 0xff) == on % 256) by (bit_vector);
        assert((on >> 8) == on / 256) by (bit_vector);
        assert((off & 0xff) == off % 256) by (bit_vector);
        assert((off >> 8) == off / 256) by (bit_vector);
    }
    let mut writes: Vec<(u8, u8)> = Vec::new();
    writes.push((base, (on & 0xff) as u8));
    writes.push((base + 1, (on >> 8) as u8));
    writes.push((base + 2, (off & 0xff) as u8));
    writes.push((base + 3, (off >> 8) as u8));
    proof {
        assert(writes@ =~= pwm_writes_spec(channel, on, off));
    }
    writes
}

} // verus!
