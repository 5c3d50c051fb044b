//! The shutdown coordinator.
//!
//! Shutdown is published on the bus at most once per process lifetime; the
//! coordinator turns its first occurrence into a persistent signal that any
//! number of loops can poll cheaply, including ones that never subscribe to
//! the bus. The latch is idempotent and monotone: once set it stays set,
//! however many more events are observed.

use vstd::prelude::*;

use crate::event::Event;
use crate::nodes::{led_step, motor_step, servo_step, LedAction, MotorAction, ServoAction};

verus! {

/// The persistent shutdown signal.
pub struct ShutdownLatch {
    pub fired: bool,
}

/// The latch's transition: it fires on `Shutdown` and holds whatever it had.
pub open spec fn latch_step(fired: bool, event: Event) -> bool {
    fired || event is Shutdown
}

impl ShutdownLatch {
    /// A latch that has seen no shutdown yet.
    pub fn new() -> (latch: ShutdownLatch)
        ensures
            !latch.fired,
    {
        ShutdownLatch { fired: false }
    }

    /// Observe one bus event; returns the signal's new state. The latch
    /// fires on the first `Shutdown` and never resets.
    pub fn observe(&mut self, event: &Event) -> (fired: bool)
        ensures
            final(self).fired == latch_step(old(self).fired, *event),
            fired == final(self).fired,
    {
        if matches!(event, Event::Shutdown) {
            self.fired = true;
        }
        self.fired
    }
}

/// Once fired, the latch stays fired whatever is observed next, and a second
/// `Shutdown` changes nothing: the signal is monotone and idempotent, so the
/// at-most-once event may safely be seen by any number of observers in any
/// interleaving.
pub proof fn lemma_latch_monotone(fired: bool, event: Event)
    ensures
        fired ==> latch_step(fired, event),
        latch_step(latch_step(fired, event), event) == latch_step(fired, event),
{
}

/// Shutdown reaches every subscribed loop within one receive: the moment a
/// node's step function sees the `Shutdown` event, it decides to leave, so
/// each async loop ends on the very event that announced shutdown, and each
/// worker ends when its intent channel is dropped right after.
pub proof fn lemma_shutdown_stops_every_node(event: Event)
    requires
        event is Shutdown,
    ensures
        motor_step(event) is Exit,
        servo_step(event) is Exit,
        led_step(event) is Exit,
{
}

} // verus!
