//! Triggers: what comes in from outside.

use vstd::prelude::*;
use crate::participant::Participant;

verus! {

/// What a trigger asks a turret to do.
#[derive(Clone, Copy, Debug, PartialEq, Eq, Structural)]
pub enum TriggerType {
    /// Double the stored charge.
    Multiply,
    /// Accepted, and without effect.
    BurstShot,
    /// Fire one projectile that carries a copy of the stored charge.
    ChargedShot,
}

/// One input from outside: a participant and what their turret is to do.
#[derive(Clone, Copy, Debug, PartialEq, Eq, Structural)]
pub struct TriggerEvent {
    pub participant: Participant,
    pub trigger_type: TriggerType,
}

/// The trigger that a repeating timer sends: each time the timer has just
/// run out, participant A is asked to multiply.
pub fn auto_multiply(just_finished: bool) -> (event: Option<TriggerEvent>)
    ensures
        event == if just_finished {
            Some(TriggerEvent { participant: Participant::A, trigger_type: TriggerType::Multiply })
        } else {
            None
        },
{
    if just_finished {
        Some(TriggerEvent { participant: Participant::A, trigger_type: TriggerType::Multiply })
    } else {
        None
    }
}

} // verus!
