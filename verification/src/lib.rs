//! Verified control core of a small mobile robot.
//!
//! The crate models the robot's event bus, its autonomous behaviour state
//! machine, and the per-node decision logic that bridges the bus to blocking
//! hardware workers. Asynchronous transport, HTTP handlers and the hardware
//! drivers themselves live outside this library and only feed it plain values.

pub mod behaviour;
pub mod bus;
pub mod event;
pub mod leds;
pub mod nodes;
pub mod servo;
pub mod shutdown;
pub mod telemetry;
pub mod web;
