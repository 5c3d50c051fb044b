//! Decision logic of the hardware nodes.
//!
//! Each node runs two loops outside this library: an async side that reads
//! the bus, and a blocking worker that owns the hardware. Both are driven by
//! the functions here: a step function says what the async side does with
//! each bus event, and a worker state says when a driver call is actually
//! due. Only the latest intent matters to a continuously driven actuator,
//! so a worker applies a command only when it differs from the last one.

use vstd::prelude::*;

use crate::event::{Event, MotorCommand, MotorState, ServoCommand, Ultrasound};

verus! {

/// What the motor node's async loop does with one bus event.
#[derive(Clone, Copy, Debug, PartialEq, Eq, Structural)]
pub enum MotorAction {
    /// Hand this drive order to the blocking worker.
    Drive(MotorCommand),
    /// Leave the loop and let the worker wind down.
    Exit,
    /// Not for this node.
    Ignore,
}

/// The motor node forwards drive orders, leaves on shutdown, ignores the rest.
pub open spec fn motor_step(event: Event) -> MotorAction {
    match event {
        Event::MotorCommand(cmd) => MotorAction::Drive(cmd),
        Event::Shutdown => MotorAction::Exit,
        _ => MotorAction::Ignore,
    }
}

/// Decide the motor node's reaction to one bus event.
pub fn motor_node_step(event: &Event) -> (action: MotorAction)
    ensures
        action == motor_step(*event),
{
    match event {
        Event::MotorCommand(cmd) => MotorAction::Drive(*cmd),
        Event::Shutdown => MotorAction::Exit,
        _ => MotorAction::Ignore,
    }
}

/// The drive state a command leaves the motors in.
pub open spec fn motor_state_of(cmd: MotorCommand) -> MotorState {
    if cmd.direction is Stop || cmd.speed == 0 {
        MotorState::Stopped
    } else {
        MotorState::Driving(cmd.direction)
    }
}

/// The motor worker's memory of the command last applied.
pub struct MotorWorker {
    pub applied: Option<MotorCommand>,
}

impl MotorWorker {
    /// A worker that has driven nothing yet.
    pub fn new() -> (w: MotorWorker)
        ensures
            w.applied is None,
    {
        MotorWorker { applied: None }
    }

    /// Take one drive order. The driver is written, and a state event is
    /// published, exactly when the order differs from the one last applied.
    pub fn apply(&mut self, cmd: MotorCommand) -> (out: Option<MotorState>)
        ensures
            final(self).applied == Some(cmd),
            old(self).applied == Some(cmd) ==> out is None,
            old(self).applied != Some(cmd) ==> out == Some(motor_state_of(cmd)),
    {
        let repeated = match self.applied {
            Some(last) => last == cmd,
            None => false,
        };
        self.applied = Some(cmd);
        if repeated {
            None
        } else if matches!(cmd.direction, crate::event::MotorDirection::Stop) || cmd.speed == 0 {
            Some(MotorState::Stopped)
        } else {
            Some(MotorState::Driving(cmd.direction))
        }
    }
}

/// What the servo node's async loop does with one bus event.
#[derive(Clone, Copy, Debug, PartialEq, Eq, Structural)]
pub enum ServoAction {
    /// Hand this target angle to the blocking worker.
    SetAngle(u8),
    /// Leave the loop and let the worker wind down.
    Exit,
    /// Not for this node.
    Ignore,
}

/// The servo node forwards target angles, leaves on shutdown, ignores the rest.
pub open spec fn servo_step(event: Event) -> ServoAction {
    match event {
        Event::ServoCommand(cmd) => ServoAction::SetAngle(cmd.angle),
        Event::Shutdown => ServoAction::Exit,
        _ => ServoAction::Ignore,
    }
}

/// Decide the servo node's reaction to one bus event.
pub fn servo_node_step(event: &Event) -> (action: ServoAction)
    ensures
        action == servo_step(*event),
{
    match event {
        Event::ServoCommand(ServoCommand { angle }) => ServoAction::SetAngle(*angle),
        Event::Shutdown => ServoAction::Exit,
        _ => ServoAction::Ignore,
    }
}

/// The servo worker's memory of the angle last written to the driver.
pub struct ServoWorker {
    pub last_angle: Option<u8>,
}

impl ServoWorker {
    /// A worker that has moved the servo nowhere yet.
    pub fn new() -> (w: ServoWorker)
        ensures
            w.last_angle is None,
    {
        ServoWorker { last_angle: None }
    }

    /// Take one target angle; true exactly when the driver must be written,
    /// that is, when the target differs from the angle last applied.
    pub fn apply(&mut self, angle: u8) -> (drive: bool)
        ensures
            final(self).last_angle == Some(angle),
            drive == (old(self).last_angle != Some(angle)),
    {
        let repeated = match self.last_angle {
            Some(last) => last == angle,
            None => false,
        };
        self.last_angle = Some(angle);
        !repeated
    }
}

/// What the LED node's async loop does with one bus event.
#[derive(Clone, Copy, Debug, PartialEq, Eq, Structural)]
pub enum LedAction {
    /// Hand this distance reading to the blocking worker.
    Track(Ultrasound),
    /// Leave the loop and let the worker wind down.
    Exit,
    /// Not for this node.
    Ignore,
}

/// The LED node tracks distance readings, leaves on shutdown, ignores the rest.
pub open spec fn led_step(event: Event) -> LedAction {
    match event {
        Event::Ultrasound(reading) => LedAction::Track(reading),
        Event::Shutdown => LedAction::Exit,
        _ => LedAction::Ignore,
    }
}

/// Decide the LED node's reaction to one bus event.
pub fn led_node_step(event: &Event) -> (action: LedAction)
    ensures
        action == led_step(*event),
{
    match event {
        Event::Ultrasound(reading) => LedAction::Track(*reading),
        Event::Shutdown => LedAction::Exit,
        _ => LedAction::Ignore,
    }
}

/// True exactly when the camera node's bus loop must leave: the camera reads
/// no commands, so only shutdown ends it.
pub fn camera_node_exits(event: &Event) -> (exit: bool)
    ensures
        exit == (*event is Shutdown),
{
    matches!(event, Event::Shutdown)
}

/// Rate limit on writing captured frames to disk: at most one save per
/// second, measured on the clock the caller reads.
pub struct SaveTimer {
    pub last_save_ms: u64,
}

impl SaveTimer {
    /// A timer that treats `now_ms` as the moment of the last save, so the
    /// first save is due one second from now.
    pub fn new(now_ms: u64) -> (t: SaveTimer)
        ensures
            t.last_save_ms == now_ms,
    {
        SaveTimer { last_save_ms: now_ms }
    }

    /// True exactly when a full second has passed since the last save; the
    /// save is then recorded at `now_ms`.
    pub fn should_save(&mut self, now_ms: u64) -> (save: bool)
        requires
            now_ms >= old(self).last_save_ms,
        ensures
            save == (now_ms - old(self).last_save_ms >= 1000),
            save ==> final(self).last_save_ms == now_ms,
            !save ==> final(self).last_save_ms == old(self).last_save_ms,
    {
        if now_ms - self.last_save_ms >= 1000 {
            self.last_save_ms = now_ms;
            true
        } else {
            false
        }
    }
}

} // verus!
