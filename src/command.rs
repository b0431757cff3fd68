//! The bytes written to the TX characteristic.
use vstd::prelude::*;

use crate::duty::{convert_percentage_to_pwm_duty_cycle, duty_cycle};

verus! {

/// The ASCII code of decimal digit `d`.
pub open spec fn digit_byte(d: nat) -> u8 {
    (48 + d) as u8
}

/// The decimal text of `n`, most significant digit first, with no leading
/// zeros ("0" for zero).
pub open spec fn decimal(n: nat) -> Seq<u8>
    decreases n,
{
    if n < 10 {
        seq![digit_byte(n)]
    } else {
        decimal(n / 10).push(digit_byte(n % 10))
    }
}

/// The command payload for `value`: its decimal text in ASCII digits.
pub fn encode_command(value: u8) -> (r: Vec<u8>)
    ensures
        r@ == decimal(value as nat),
{
    let ones: u8 = 48 + value % 10;
    let mut r: Vec<u8> = Vec::new();
    if value >= 100 {
        r.push(48 + value / 100);
        r.push(48 + value / 10 % 10);
    } else if value >= 10 {
        r.push(48 + value / 10);
    }
    r.push(ones);
    proof {
        let n = value as nat;
        if n >= 100 {
            assert(decimal(n / 100) == seq![digit_byte(n / 100)]);
            assert(n / 10 / 10 == n / 100);
            assert(decimal(n / 10) == seq![digit_byte(n / 100)].push(digit_byte((n / 10) % 10)));
        } else if n >= 10 {
            assert(decimal(n / 10) == seq![digit_byte(n / 10)]);
        }
        assert(r@ =~= decimal(n));
    }
    r
}

/// The payload sent for a fan speed of `percentage`: the decimal text of its
/// duty cycle.
pub fn speed_command(percentage: u8) -> (r: Vec<u8>)
    ensures
        0 <= duty_cycle(percentage as int) <= 255,
        r@ == decimal(duty_cycle(percentage as int) as nat),
{
    let duty = convert_percentage_to_pwm_duty_cycle(percentage);
    encode_command(duty)
}

} // verus!
