//! The telemetry bridge: the one-way valve between the internal bus and
//! external observers.
//!
//! Only sensor readings cross it, re-tagged into their own closed set, so
//! the bus's event set can evolve without changing the outward schema, and
//! external sessions can never push anything back onto the bus.

use vstd::prelude::*;

use crate::event::{Event, Ldr, Ultrasound};

verus! {

/// One outward telemetry frame.
#[derive(Clone, Copy, Debug, PartialEq, Eq, Structural)]
pub enum Telemetry {
    Ultrasound(Ultrasound),
    Ldr(Ldr),
}

/// The frame a bus event is re-published as: distance and light readings
/// cross the bridge, everything else stays internal.
pub open spec fn telemetry_of(event: Event) -> Option<Telemetry> {
    match event {
        Event::Ultrasound(reading) => Some(Telemetry::Ultrasound(reading)),
        Event::Ldr(reading) => Some(Telemetry::Ldr(reading)),
        _ => None,
    }
}

/// Decide what, if anything, one bus event contributes to the outward
/// telemetry channel.
pub fn telemetry_for(event: &Event) -> (frame: Option<Telemetry>)
    ensures
        frame == telemetry_of(*event),
{
    match event {
        Event::Ultrasound(reading) => Some(Telemetry::Ultrasound(*reading)),
        Event::Ldr(reading) => Some(Telemetry::Ldr(*reading)),
        _ => None,
    }
}

/// What one receive attempt on the outward channel yielded, as the
/// per-client session loop sees it.
#[derive(Clone, Copy, Debug, PartialEq, Eq, Structural)]
pub enum SessionRecv {
    /// The next telemetry frame, in order.
    Frame(Telemetry),
    /// The client stalled past the backlog; this many frames were skipped.
    Lagged(u64),
    /// The distribution channel is gone.
    Closed,
}

/// What the session loop must do with one receive outcome.
#[derive(Clone, Copy, Debug, PartialEq, Eq, Structural)]
pub enum SessionAction {
    /// Push this frame to the client.
    Send(Telemetry),
    /// Tell the client how many frames it missed, then keep going.
    NotifySkipped(u64),
    /// End the session.
    End,
}

/// The session's transition: frames are pushed, a lag is reported with its
/// exact count and the session resumes, and only a closed channel ends it.
pub open spec fn session_step(received: SessionRecv) -> SessionAction {
    match received {
        SessionRecv::Frame(frame) => SessionAction::Send(frame),
        SessionRecv::Lagged(missed) => SessionAction::NotifySkipped(missed),
        SessionRecv::Closed => SessionAction::End,
    }
}

/// Decide what one receive outcome means for a client session.
pub fn socket_session_step(received: &SessionRecv) -> (action: SessionAction)
    ensures
        action == session_step(*received),
{
    match received {
        SessionRecv::Frame(frame) => SessionAction::Send(*frame),
        SessionRecv::Lagged(missed) => SessionAction::NotifySkipped(*missed),
        SessionRecv::Closed => SessionAction::End,
    }
}

/// A lagging client is never silently frozen or dropped: the session ends
/// exactly when the channel closes, and a lag notice carries the exact
/// number of skipped frames before delivery resumes.
pub proof fn lemma_session_ends_only_when_closed(received: SessionRecv)
    ensures
        session_step(received) is End <==> received is Closed,
        received matches SessionRecv::Lagged(missed) ==> session_step(received)
            == SessionAction::NotifySkipped(missed),
{
}

/// Commands never leak outward: whatever a command event carries, the
/// bridge re-publishes nothing for it.
pub proof fn lemma_commands_stay_internal(event: Event)
    requires
        event is MotorCommand || event is ServoCommand || event is LedCommand
            || event is ModeCommand || event is Shutdown,
    ensures
        telemetry_of(event) is None,
{
}

} // verus!
