use fanctl::command::{encode_command, speed_command};
use fanctl::duty::convert_percentage_to_pwm_duty_cycle;

#[test]
fn duty_cycle_endpoints() {
    assert_eq!(convert_percentage_to_pwm_duty_cycle(0), 0);
    assert_eq!(convert_percentage_to_pwm_duty_cycle(100), 255);
}

#[test]
fn duty_cycle_truncates() {
    assert_eq!(convert_percentage_to_pwm_duty_cycle(50), 127);
    assert_eq!(convert_percentage_to_pwm_duty_cycle(10), 25);
    assert_eq!(convert_percentage_to_pwm_duty_cycle(1), 2);
    assert_eq!(convert_percentage_to_pwm_duty_cycle(99), 252);
}

#[test]
fn duty_cycle_clamps_above_hundred() {
    for p in 101..=255u8 {
        assert_eq!(convert_percentage_to_pwm_duty_cycle(p), 255);
    }
}

#[test]
fn duty_cycle_monotonic_on_percent_range() {
    let mut last = 0u8;
    for p in 0..=100u8 {
        let d = convert_percentage_to_pwm_duty_cycle(p);
        assert!(d >= last);
        last = d;
    }
}

#[test]
fn duty_cycle_matches_float_scaling() {
    for p in 0..=255u8 {
        let speed = if p > 100 { 100 } else { p };
        let expected = (speed as f32 * 2.55) as u8;
        assert_eq!(convert_percentage_to_pwm_duty_cycle(p), expected);
    }
}

#[test]
fn encode_command_is_plain_decimal() {
    assert_eq!(encode_command(0), b"0".to_vec());
    assert_eq!(encode_command(7), b"7".to_vec());
    assert_eq!(encode_command(26), b"26".to_vec());
    assert_eq!(encode_command(127), b"127".to_vec());
    assert_eq!(encode_command(255), b"255".to_vec());
    for v in 0..=255u8 {
        assert_eq!(encode_command(v), v.to_string().into_bytes());
    }
}

#[test]
fn speed_command_payloads() {
    assert_eq!(speed_command(50), b"127".to_vec());
    assert_eq!(speed_command(150), b"255".to_vec());
    assert_eq!(speed_command(10), b"25".to_vec());
}
