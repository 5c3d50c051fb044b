use robot_core::event::{Mode, ModeCommand, MotorCommand, MotorDirection, ServoCommand};
use robot_core::servo::{angle_to_percent, prescale_for_freq, pwm_register_writes, servo_pulse};
use robot_core::web::{
    decimal_bytes, make_led_command, make_mode_command, make_motor_command, make_servo_command,
    mjpeg_chunk, mjpeg_step, preset_motor_command, CommandError, StreamStep, SERVO_DOWN_ANGLE,
    SERVO_UP_ANGLE,
};

#[test]
fn motor_commands_are_validated_at_the_boundary() {
    assert_eq!(
        make_motor_command(MotorDirection::Forward, 100),
        Ok(MotorCommand { direction: MotorDirection::Forward, speed: 100 })
    );
    assert_eq!(
        make_motor_command(MotorDirection::Stop, 0),
        Ok(MotorCommand { direction: MotorDirection::Stop, speed: 0 })
    );
    assert_eq!(
        make_motor_command(MotorDirection::Left, 101),
        Err(CommandError::InvalidSpeed)
    );
    assert_eq!(
        make_motor_command(MotorDirection::Right, 255),
        Err(CommandError::InvalidSpeed)
    );
}

#[test]
fn servo_commands_are_validated_at_the_boundary() {
    assert_eq!(make_servo_command(0), Ok(ServoCommand { angle: 0 }));
    assert_eq!(make_servo_command(180), Ok(ServoCommand { angle: 180 }));
    assert_eq!(make_servo_command(181), Err(CommandError::InvalidAngle));
}

#[test]
fn led_commands_are_answered_not_supported() {
    assert_eq!(make_led_command(10, 20, 30), Err(CommandError::NotSupported));
}

#[test]
fn mode_commands_always_pass() {
    assert_eq!(make_mode_command(Mode::Manual), ModeCommand { mode: Mode::Manual });
    assert_eq!(make_mode_command(Mode::Automatic), ModeCommand { mode: Mode::Automatic });
}

#[test]
fn refusals_carry_a_structured_reason() {
    assert_eq!(CommandError::InvalidSpeed.reason(), "speed must be between 0 and 100");
    assert_eq!(CommandError::InvalidAngle.reason(), "angle must be between 0 and 180");
    assert_eq!(CommandError::NotSupported.reason(), "command not yet supported");
}

#[test]
fn preset_endpoints_use_their_fixed_speeds() {
    assert_eq!(preset_motor_command(MotorDirection::Forward).speed, 100);
    assert_eq!(preset_motor_command(MotorDirection::Backward).speed, 90);
    assert_eq!(preset_motor_command(MotorDirection::Left).speed, 100);
    assert_eq!(preset_motor_command(MotorDirection::Right).speed, 100);
    assert_eq!(preset_motor_command(MotorDirection::Stop).speed, 0);
    assert_eq!(SERVO_UP_ANGLE, 170);
    assert_eq!(SERVO_DOWN_ANGLE, 10);
}

#[test]
fn lengths_render_in_plain_decimal() {
    assert_eq!(decimal_bytes(0), b"0");
    assert_eq!(decimal_bytes(7), b"7");
    assert_eq!(decimal_bytes(10), b"10");
    assert_eq!(decimal_bytes(409), b"409");
    assert_eq!(decimal_bytes(65535), b"65535");
}

#[test]
fn a_frame_is_framed_byte_for_byte() {
    let jpeg = vec![1u8, 2, 3];
    let chunk = mjpeg_chunk(&jpeg);
    let mut expected = Vec::new();
    expected.extend_from_slice(b"--frame\r\n");
    expected.extend_from_slice(b"Content-Type: image/jpeg\r\n");
    expected.extend_from_slice(b"Content-Length: 3\r\n\r\n");
    expected.extend_from_slice(&[1, 2, 3]);
    expected.extend_from_slice(b"\r\n");
    assert_eq!(chunk, expected);
}

#[test]
fn the_stream_ends_only_on_shutdown() {
    let frame = vec![9u8, 9, 9];
    assert_eq!(mjpeg_step(true, &frame), StreamStep::End);
    assert_eq!(mjpeg_step(true, &Vec::new()), StreamStep::End);
    // no frame stored yet: the cycle yields nothing, the stream goes on
    assert_eq!(mjpeg_step(false, &Vec::new()), StreamStep::Idle);
    assert_eq!(mjpeg_step(false, &frame), StreamStep::Chunk(mjpeg_chunk(&frame)));
}

#[test]
fn prescaler_matches_the_chip_formula() {
    // 25 MHz over 4096 steps at 50 Hz is 122.07; rounded, less one
    assert_eq!(prescale_for_freq(50), 121);
    assert_eq!(prescale_for_freq(24), 253);
    assert_eq!(prescale_for_freq(60), 101);
    assert_eq!(prescale_for_freq(1526), 3);
}

#[test]
fn servo_pulse_maps_the_percent_scale_linearly() {
    assert_eq!(servo_pulse(0, 150, 600), 150);
    assert_eq!(servo_pulse(50, 150, 600), 375);
    assert_eq!(servo_pulse(100, 150, 600), 600);
    assert_eq!(servo_pulse(10, 0, 4095), 409);
}

#[test]
fn angles_scale_down_to_the_percent_range() {
    assert_eq!(angle_to_percent(0), 0);
    assert_eq!(angle_to_percent(10), 5);
    assert_eq!(angle_to_percent(90), 50);
    assert_eq!(angle_to_percent(170), 94);
    assert_eq!(angle_to_percent(180), 100);
}

#[test]
fn pwm_writes_split_counts_into_the_channel_registers() {
    assert_eq!(
        pwm_register_writes(0, 0, 0x1234),
        vec![(6, 0), (7, 0), (8, 0x34), (9, 0x12)]
    );
    assert_eq!(
        pwm_register_writes(15, 0x0102, 0x0a0b),
        vec![(66, 2), (67, 1), (68, 0x0b), (69, 0x0a)]
    );
}
