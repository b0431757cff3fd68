//! Percentage to 8-bit PWM duty cycle.
use vstd::prelude::*;

verus! {

/// The percentage actually used: anything above 100 counts as 100.
pub open spec fn clamped_percentage(p: int) -> int {
    if p > 100 {
        100
    } else {
        p
    }
}

/// The duty cycle for percentage `p`: the clamped percentage times 2.55,
/// truncated toward zero.
pub open spec fn duty_cycle(p: int) -> int {
    clamped_percentage(p) * 255 / 100
}

/// Converts a fan speed in percent into a duty cycle byte in `0..=255`.
pub fn convert_percentage_to_pwm_duty_cycle(percentage: u8) -> (r: u8)
    ensures
        r as int == duty_cycle(percentage as int),
{
    let speed: u8 = if percentage > 100 {
        100
    } else {
        percentage
    };
    let scaled: u16 = speed as u16 * 255;
    assert(scaled as int / 100 <= 255) by (nonlinear_arith)
        requires
            scaled as int == speed as int * 255,
            speed <= 100,
    ;
    (scaled / 100) as u8
}

/// The duty cycle never decreases as the percentage grows, starts at 0 for
/// 0 percent, reaches 255 at 100 percent, and stays at 255 above 100 percent.
pub proof fn lemma_duty_cycle_monotonic(a: int, b: int)
    requires
        0 <= a <= b,
    ensures
        duty_cycle(a) <= duty_cycle(b),
        duty_cycle(0) == 0,
        duty_cycle(100) == 255,
        b > 100 ==> duty_cycle(b) == duty_cycle(100),
{
    let ca = clamped_percentage(a);
    let cb = clamped_percentage(b);
    assert(ca <= cb);
    assert(ca * 255 <= cb * 255) by (nonlinear_arith)
        requires
            ca <= cb,
    ;
    assert(ca * 255 / 100 <= cb * 255 / 100) by (nonlinear_arith)
        requires
            ca * 255 <= cb * 255,
    ;
}

/// For every byte-sized input, above 100 or not, the duty cycle is a byte.
pub proof fn lemma_duty_cycle_in_byte_range(p: int)
    requires
        0 <= p <= 255,
    ensures
        0 <= duty_cycle(p) <= 255,
{
    let c = clamped_percentage(p);
    assert(0 <= c * 255 / 100 <= 255) by (nonlinear_arith)
        requires
            0 <= c <= 100,
    ;
}

} // verus!
