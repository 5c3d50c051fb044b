use robot_core::event::{
    Event, Led, Ldr, MotorCommand, MotorDirection, MotorState, ServoCommand, Ultrasound,
};
use robot_core::leds::{calculate_brightness, distance_to_rgb, LedMonitor};
use robot_core::nodes::{
    camera_node_exits, led_node_step, motor_node_step, servo_node_step, LedAction, MotorAction,
    MotorWorker, SaveTimer, ServoAction, ServoWorker,
};
use robot_core::shutdown::ShutdownLatch;
use robot_core::telemetry::{
    socket_session_step, telemetry_for, SessionAction, SessionRecv, Telemetry,
};

fn drive(direction: MotorDirection, speed: u8) -> MotorCommand {
    MotorCommand { direction, speed }
}

#[test]
fn motor_node_reacts_only_to_drive_orders_and_shutdown() {
    let cmd = drive(MotorDirection::Forward, 100);
    assert_eq!(motor_node_step(&Event::MotorCommand(cmd)), MotorAction::Drive(cmd));
    assert_eq!(motor_node_step(&Event::Shutdown), MotorAction::Exit);
    assert_eq!(motor_node_step(&Event::CameraFrameReady), MotorAction::Ignore);
    assert_eq!(
        motor_node_step(&Event::Ultrasound(Ultrasound { distance_mm: 80 })),
        MotorAction::Ignore
    );
}

#[test]
fn motor_worker_coalesces_repeated_orders() {
    let mut w = MotorWorker::new();
    let cmd = drive(MotorDirection::Forward, 100);
    assert_eq!(w.apply(cmd), Some(MotorState::Driving(MotorDirection::Forward)));
    assert_eq!(w.apply(cmd), None);
    assert_eq!(w.apply(cmd), None);
    let left = drive(MotorDirection::Left, 100);
    assert_eq!(w.apply(left), Some(MotorState::Driving(MotorDirection::Left)));
}

#[test]
fn motor_worker_reports_stopped_for_stop_or_zero_speed() {
    let mut w = MotorWorker::new();
    assert_eq!(w.apply(drive(MotorDirection::Stop, 0)), Some(MotorState::Stopped));
    assert_eq!(w.apply(drive(MotorDirection::Forward, 0)), Some(MotorState::Stopped));
}

#[test]
fn servo_node_reacts_only_to_servo_orders_and_shutdown() {
    assert_eq!(
        servo_node_step(&Event::ServoCommand(ServoCommand { angle: 170 })),
        ServoAction::SetAngle(170)
    );
    assert_eq!(servo_node_step(&Event::Shutdown), ServoAction::Exit);
    assert_eq!(
        servo_node_step(&Event::MotorCommand(drive(MotorDirection::Left, 10))),
        ServoAction::Ignore
    );
}

#[test]
fn servo_worker_writes_only_on_a_changed_angle() {
    let mut w = ServoWorker::new();
    assert!(w.apply(170));
    assert!(!w.apply(170));
    assert!(w.apply(10));
    assert!(!w.apply(10));
}

#[test]
fn led_node_tracks_distance_and_leaves_on_shutdown() {
    let reading = Ultrasound { distance_mm: 300 };
    assert_eq!(led_node_step(&Event::Ultrasound(reading)), LedAction::Track(reading));
    assert_eq!(led_node_step(&Event::Shutdown), LedAction::Exit);
    assert_eq!(led_node_step(&Event::CameraFrameReady), LedAction::Ignore);
}

#[test]
fn camera_loop_exits_only_on_shutdown() {
    assert!(camera_node_exits(&Event::Shutdown));
    assert!(!camera_node_exits(&Event::CameraFrameReady));
}

#[test]
fn distance_colour_scale_is_red_near_and_green_far() {
    assert_eq!(distance_to_rgb(0), (255, 0, 0));
    assert_eq!(distance_to_rgb(500), (127, 127, 0));
    assert_eq!(distance_to_rgb(1000), (0, 255, 0));
    // capped at one metre
    assert_eq!(distance_to_rgb(4000), (0, 255, 0));
}

#[test]
fn brightness_weights_the_channels_and_never_overflows() {
    assert_eq!(calculate_brightness(255, 0, 0), 54);
    assert_eq!(calculate_brightness(0, 255, 0), 182);
    assert_eq!(calculate_brightness(0, 0, 255), 18);
    assert_eq!(calculate_brightness(255, 255, 255), 255);
    assert_eq!(calculate_brightness(127, 127, 0), 117);
}

#[test]
fn led_monitor_updates_only_across_half_centimetre_steps() {
    let mut m = LedMonitor::new();
    assert_eq!(
        m.on_distance(500),
        Some(Led { red: 127, green: 127, blue: 0, brightness: 117 })
    );
    // 501 and 503 mm fall in the same half-centimetre step as 500
    assert_eq!(m.on_distance(501), None);
    assert_eq!(m.on_distance(503), None);
    // 505 mm crosses into the next step
    assert!(m.on_distance(505).is_some());
}

#[test]
fn led_monitor_starts_at_step_zero() {
    let mut m = LedMonitor::new();
    // a reading within the first half centimetre matches the initial step
    assert_eq!(m.on_distance(3), None);
    assert!(m.on_distance(8).is_some());
}

#[test]
fn save_timer_allows_one_save_per_second() {
    let mut t = SaveTimer::new(0);
    assert!(!t.should_save(999));
    assert!(t.should_save(1000));
    assert!(!t.should_save(1500));
    assert!(t.should_save(2100));
}

#[test]
fn shutdown_latch_fires_once_and_stays_fired() {
    let mut latch = ShutdownLatch::new();
    assert!(!latch.observe(&Event::CameraFrameReady));
    assert!(latch.observe(&Event::Shutdown));
    assert!(latch.observe(&Event::CameraFrameReady));
    assert!(latch.observe(&Event::Shutdown));
}

#[test]
fn telemetry_bridge_passes_sensor_readings_only() {
    let ultrasound = Ultrasound { distance_mm: 123 };
    let ldr = Ldr { left: 1, middle: 0, right: 1 };
    assert_eq!(
        telemetry_for(&Event::Ultrasound(ultrasound)),
        Some(Telemetry::Ultrasound(ultrasound))
    );
    assert_eq!(telemetry_for(&Event::Ldr(ldr)), Some(Telemetry::Ldr(ldr)));
    assert_eq!(telemetry_for(&Event::MotorCommand(drive(MotorDirection::Left, 5))), None);
    assert_eq!(telemetry_for(&Event::Shutdown), None);
    assert_eq!(telemetry_for(&Event::CameraFrameReady), None);
}

#[test]
fn a_client_session_pushes_frames_and_reports_lag() {
    let frame = Telemetry::Ultrasound(Ultrasound { distance_mm: 321 });
    assert_eq!(
        socket_session_step(&SessionRecv::Frame(frame)),
        SessionAction::Send(frame)
    );
    // a stalled client is told the exact skip count and keeps its session
    assert_eq!(
        socket_session_step(&SessionRecv::Lagged(17)),
        SessionAction::NotifySkipped(17)
    );
    // only a closed channel ends the session
    assert_eq!(socket_session_step(&SessionRecv::Closed), SessionAction::End);
}
