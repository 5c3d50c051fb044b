//! The closed set of events carried by the bus, and the value types they hold.
//!
//! Distances are carried as whole millimetres so that every consumer can
//! reason about them with exact integer arithmetic; one centimetre is ten
//! millimetres.

use vstd::prelude::*;

verus! {

/// Distance below which an obstacle is considered "near" (10 cm).
pub const OBSTACLE_THRESHOLD_MM: u32 = 100;

/// Sentinel distance reported before the first real reading (999.9 cm).
pub const NO_READING_MM: u32 = 9999;

/// Speed used for every autonomously issued drive command.
pub const AUTO_SPEED: u8 = 100;

/// Top speed accepted on the 0..=100 command scale.
pub const MAX_SPEED: u8 = 100;

/// Largest servo angle accepted at the command boundary.
pub const MAX_SERVO_ANGLE: u8 = 180;

/// Who holds control authority over the motors.
#[derive(Clone, Copy, Debug, PartialEq, Eq, Structural)]
pub enum Mode {
    Manual,
    Automatic,
}

/// The direction half of a drive order.
#[derive(Clone, Copy, Debug, PartialEq, Eq, Structural)]
pub enum MotorDirection {
    Forward,
    Backward,
    Left,
    Right,
    Stop,
}

/// A drive order: direction plus a speed on the 0..=100 scale.
#[derive(Clone, Copy, Debug, PartialEq, Eq, Structural)]
pub struct MotorCommand {
    pub direction: MotorDirection,
    pub speed: u8,
}

/// What the motor worker last applied, published back as a state event.
#[derive(Clone, Copy, Debug, PartialEq, Eq, Structural)]
pub enum MotorState {
    Stopped,
    Driving(MotorDirection),
}

/// An order to move the camera servo to an absolute angle.
#[derive(Clone, Copy, Debug, PartialEq, Eq, Structural)]
pub struct ServoCommand {
    pub angle: u8,
}

/// A requested LED colour. No node acts on it yet; the command boundary
/// answers it with an explicit "not supported" rather than dropping it.
#[derive(Clone, Copy, Debug, PartialEq, Eq, Structural)]
pub enum LedCommand {
    SetColor { red: u8, green: u8, blue: u8 },
}

/// A request to hand control to an operator or to the behaviour engine.
#[derive(Clone, Copy, Debug, PartialEq, Eq, Structural)]
pub struct ModeCommand {
    pub mode: Mode,
}

/// One ultrasound range reading, in whole millimetres.
#[derive(Clone, Copy, Debug, PartialEq, Eq, Structural)]
pub struct Ultrasound {
    pub distance_mm: u32,
}

/// One reading of the three light-dependent resistors.
#[derive(Clone, Copy, Debug, PartialEq, Eq, Structural)]
pub struct Ldr {
    pub left: u8,
    pub middle: u8,
    pub right: u8,
}

/// The colour and brightness the LED strip was just driven with.
#[derive(Clone, Copy, Debug, PartialEq, Eq, Structural)]
pub struct Led {
    pub red: u8,
    pub green: u8,
    pub blue: u8,
    pub brightness: u8,
}

/// Every message the bus can carry. The set is closed on purpose: each
/// consumer matches exhaustively, so a new kind of event cannot be ignored
/// silently.
#[derive(Clone, Copy, Debug, PartialEq, Eq, Structural)]
pub enum Event {
    MotorCommand(MotorCommand),
    MotorState(MotorState),
    ServoCommand(ServoCommand),
    LedCommand(LedCommand),
    ModeCommand(ModeCommand),
    Ultrasound(Ultrasound),
    Ldr(Ldr),
    CameraFrameReady,
    Led(Led),
    Shutdown,
}

} // verus!
