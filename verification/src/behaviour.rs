//! The autonomous behaviour engine.
//!
//! The engine is a state machine over three pieces of state: the control
//! mode, the latest ultrasound distance, and the drive intent last applied.
//! Bus events and periodic ticks are fed in as plain calls; each call says
//! exactly what the next state is and which motor command, if any, must be
//! published. Publishing only on a change of intent is what keeps the
//! actuators from flapping.

use vstd::prelude::*;

use crate::event::{
    Event, Mode, MotorCommand, MotorDirection, AUTO_SPEED, NO_READING_MM, OBSTACLE_THRESHOLD_MM,
};

verus! {

/// True of the three directions an obstacle is dodged with.
pub open spec fn is_avoidance(d: MotorDirection) -> bool {
    d is Left || d is Right || d is Backward
}

/// Mode, latest distance and last applied intent of the engine.
pub struct BehaviourEngine {
    pub mode: Mode,
    pub last_distance_mm: u32,
    pub last_intent: Option<MotorDirection>,
}

/// The drive intent a tick computes: forward while the way is clear; on
/// first falling below the threshold, the freshly drawn avoidance direction;
/// afterwards, the avoidance direction already chosen (hysteresis).
pub open spec fn auto_intent(
    last_intent: Option<MotorDirection>,
    distance_mm: u32,
    pick: MotorDirection,
) -> Option<MotorDirection> {
    if distance_mm >= OBSTACLE_THRESHOLD_MM {
        Some(MotorDirection::Forward)
    } else if last_intent == Some(MotorDirection::Forward) {
        Some(pick)
    } else {
        last_intent
    }
}

/// Next state and published command of one tick, given the avoidance
/// direction `pick` that would be used were one needed. In Manual mode a
/// tick does nothing; in Automatic mode a command goes out if and only if
/// the computed intent differs from the last applied one.
pub open spec fn tick_step(
    s: BehaviourEngine,
    pick: MotorDirection,
) -> (BehaviourEngine, Option<MotorCommand>) {
    if s.mode is Manual {
        (s, None)
    } else {
        let intent = auto_intent(s.last_intent, s.last_distance_mm, pick);
        if intent == s.last_intent {
            (s, None)
        } else {
            (
                BehaviourEngine { last_intent: intent, ..s },
                match intent {
                    Some(d) => Some(MotorCommand { direction: d, speed: AUTO_SPEED }),
                    None => None,
                },
            )
        }
    }
}

/// Next state and published command when a bus event arrives. A switch to
/// Manual clears the intent and orders an immediate stop; a switch to
/// Automatic clears the intent so nothing of an earlier session is resumed;
/// a distance reading is remembered; everything else is ignored.
pub open spec fn event_step(
    s: BehaviourEngine,
    event: Event,
) -> (BehaviourEngine, Option<MotorCommand>) {
    match event {
        Event::ModeCommand(mc) => {
            let cleared = BehaviourEngine { mode: mc.mode, last_intent: None, ..s };
            if mc.mode is Manual {
                (cleared, Some(MotorCommand { direction: MotorDirection::Stop, speed: 0 }))
            } else {
                (cleared, None)
            }
        },
        Event::Ultrasound(u) => (
            BehaviourEngine { last_distance_mm: u.distance_mm, ..s },
            None,
        ),
        _ => (s, None),
    }
}

/// Draws the avoidance index. Relies on rand::random_range: the result of
/// sampling `0..3` lies in that range; the range is non-empty, so the call
/// does not panic.
#[verifier::external_body]
fn pick_avoidance_index() -> (i: usize)
    ensures
        i < 3,
{
    rand::random_range(0..3usize)
}

/// One avoidance direction, drawn uniformly from left, right and backward.
/// Which of the three comes back is deliberately unspecified: every caller
/// must be correct for each of them.
pub fn random_avoidance_intent() -> (d: MotorDirection)
    ensures
        is_avoidance(d),
{
    let i = pick_avoidance_index();
    if i == 0 {
        MotorDirection::Left
    } else if i == 1 {
        MotorDirection::Right
    } else {
        MotorDirection::Backward
    }
}

impl BehaviourEngine {
    /// A fresh engine: manual control, no reading yet, no intent.
    pub fn new() -> (s: BehaviourEngine)
        ensures
            s.mode is Manual,
            s.last_distance_mm == NO_READING_MM,
            s.last_intent is None,
    {
        BehaviourEngine {
            mode: Mode::Manual,
            last_distance_mm: NO_READING_MM,
            last_intent: None,
        }
    }

    /// Feed one bus event through the engine.
    pub fn on_event(&mut self, event: &Event) -> (cmd: Option<MotorCommand>)
        ensures
            (*final(self), cmd) == event_step(*old(self), *event),
    {
        match event {
            Event::ModeCommand(mc) => {
                self.mode = mc.mode;
                self.last_intent = None;
                match mc.mode {
                    Mode::Manual => Some(MotorCommand { direction: MotorDirection::Stop, speed: 0 }),
                    Mode::Automatic => None,
                }
            },
            Event::Ultrasound(u) => {
                self.last_distance_mm = u.distance_mm;
                None
            },
            _ => None,
        }
    }

    /// One tick with the avoidance direction supplied by the caller, so that
    /// the source of randomness stays injectable.
    pub fn on_tick_with(&mut self, pick: MotorDirection) -> (cmd: Option<MotorCommand>)
        requires
            is_avoidance(pick),
        ensures
            (*final(self), cmd) == tick_step(*old(self), pick),
    {
        match self.mode {
            Mode::Manual => None,
            Mode::Automatic => {
                let intent = if self.last_distance_mm < OBSTACLE_THRESHOLD_MM {
                    if is_forward_opt(&self.last_intent) {
                        Some(pick)
                    } else {
                        self.last_intent
                    }
                } else {
                    Some(MotorDirection::Forward)
                };
                if same_intent(&intent, &self.last_intent) {
                    None
                } else {
                    self.last_intent = intent;
                    match intent {
                        Some(d) => Some(MotorCommand { direction: d, speed: AUTO_SPEED }),
                        None => None,
                    }
                }
            },
        }
    }

    /// One tick of the running engine, drawing the avoidance direction from
    /// the random source. Everything but the draw is pinned down: the
    /// outcome is that of `tick_step` for some avoidance direction.
    pub fn on_tick(&mut self) -> (cmd: Option<MotorCommand>)
        ensures
            exists|pick: MotorDirection|
                is_avoidance(pick) && (*final(self), cmd) == tick_step(*old(self), pick),
    {
        let pick = random_avoidance_intent();
        let cmd = self.on_tick_with(pick);
        cmd
    }
}

/// True exactly when the remembered intent is `Forward`.
fn is_forward_opt(o: &Option<MotorDirection>) -> (r: bool)
    ensures
        r == (*o == Some(MotorDirection::Forward)),
{
    match o {
        Some(MotorDirection::Forward) => true,
        _ => false,
    }
}

/// Equality on optional directions, stated so callers can rely on it.
fn same_intent(a: &Option<MotorDirection>, b: &Option<MotorDirection>) -> (r: bool)
    ensures
        r == (*a == *b),
{
    match (a, b) {
        (None, None) => true,
        (Some(x), Some(y)) => *x == *y,
        _ => false,
    }
}

/// Debounce: in Automatic mode, when two consecutive ticks compute the same
/// intent, only the first may publish; the second publishes nothing.
pub proof fn lemma_debounce(s: BehaviourEngine, pick1: MotorDirection, pick2: MotorDirection)
    requires
        s.mode is Automatic,
        is_avoidance(pick1),
        is_avoidance(pick2),
        ({
            let s1 = tick_step(s, pick1).0;
            auto_intent(s1.last_intent, s1.last_distance_mm, pick2)
                == auto_intent(s.last_intent, s.last_distance_mm, pick1)
        }),
    ensures
        tick_step(tick_step(s, pick1).0, pick2).1 is None,
{
}

/// Hysteresis: while an avoidance intent is active and the distance stays
/// below the threshold, a tick re-publishes nothing and keeps the intent
/// exactly as it is — the avoidance direction is not drawn again.
pub proof fn lemma_hysteresis(s: BehaviourEngine, pick: MotorDirection)
    requires
        s.mode is Automatic,
        s.last_distance_mm < OBSTACLE_THRESHOLD_MM,
        s.last_intent matches Some(d) && is_avoidance(d),
        is_avoidance(pick),
    ensures
        tick_step(s, pick).0 == s,
        tick_step(s, pick).1 is None,
{
}

/// Hysteresis over a whole stall: however many ticks pass, and whatever the
/// random source would have offered at each, the engine holds its avoidance
/// intent and publishes not a single command until the distance changes.
pub proof fn lemma_hysteresis_run(s: BehaviourEngine, picks: Seq<MotorDirection>)
    requires
        s.mode is Automatic,
        s.last_distance_mm < OBSTACLE_THRESHOLD_MM,
        s.last_intent matches Some(d) && is_avoidance(d),
        forall|i: int| 0 <= i < picks.len() ==> is_avoidance(#[trigger] picks[i]),
    ensures
        run_ticks(s, picks) == s,
        run_ticks_published(s, picks) == 0,
    decreases picks.len(),
{
    if picks.len() > 0 {
        lemma_hysteresis(s, picks[0]);
        lemma_hysteresis_run(s, picks.drop_first());
    }
}

/// The state after feeding each pick of `picks` to one tick, in order.
pub open spec fn run_ticks(s: BehaviourEngine, picks: Seq<MotorDirection>) -> BehaviourEngine
    decreases picks.len(),
{
    if picks.len() == 0 {
        s
    } else {
        run_ticks(tick_step(s, picks[0]).0, picks.drop_first())
    }
}

/// How many commands that run of ticks publishes.
pub open spec fn run_ticks_published(s: BehaviourEngine, picks: Seq<MotorDirection>) -> nat
    decreases picks.len(),
{
    if picks.len() == 0 {
        0
    } else {
        (if tick_step(s, picks[0]).1 is Some {
            1nat
        } else {
            0nat
        }) + run_ticks_published(tick_step(s, picks[0]).0, picks.drop_first())
    }
}

/// Mode-switch safety: whatever the engine was doing, the event that hands
/// control to Manual makes it emit exactly one all-stop command and forget
/// its intent.
pub proof fn lemma_manual_stop(s: BehaviourEngine)
    ensures
        ({
            let (s2, cmd) = event_step(
                s,
                Event::ModeCommand(crate::event::ModeCommand { mode: Mode::Manual }),
            );
            &&& cmd == Some(MotorCommand { direction: MotorDirection::Stop, speed: 0 })
            &&& s2.mode is Manual
            &&& s2.last_intent is None
            &&& s2.last_distance_mm == s.last_distance_mm
        }),
{
}

/// Entering Automatic starts from a neutral intent: the first command of the
/// new session is computed from the distance alone, never resumed from a
/// remembered avoidance direction.
pub proof fn lemma_automatic_fresh_start(s: BehaviourEngine)
    ensures
        ({
            let (s2, cmd) = event_step(
                s,
                Event::ModeCommand(crate::event::ModeCommand { mode: Mode::Automatic }),
            );
            &&& cmd is None
            &&& s2.mode is Automatic
            &&& s2.last_intent is None
            &&& s2.last_distance_mm == s.last_distance_mm
        }),
{
}

} // verus!
