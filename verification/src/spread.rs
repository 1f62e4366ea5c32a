//! Which of a weapon's inaccuracy figures a stance draws on.
use vstd::prelude::*;
use crate::player::PlayerStance;

verus! {

/// The inaccuracy figure a stance uses: the crouched one, the airborne one,
/// three quarters of the jump one while landing, or the standing one.
#[derive(Debug, Clone, Copy, PartialEq, Eq, Structural)]
pub enum StancePenalty {
    Crouch,
    Air,
    Landing,
    Stand,
}

pub open spec fn penalty_of(s: PlayerStance) -> StancePenalty {
    match s {
        PlayerStance::Crouched | PlayerStance::Crouching => StancePenalty::Crouch,
        PlayerStance::Airborne | PlayerStance::Jumping => StancePenalty::Air,
        PlayerStance::Landing => StancePenalty::Landing,
        _ => StancePenalty::Stand,
    }
}

pub struct SpreadSimulator;

impl SpreadSimulator {
    /// The inaccuracy figure `stance` draws on.
    pub fn stance_penalty(stance: PlayerStance) -> (p: StancePenalty)
        ensures
            p == penalty_of(stance),
    {
        match stance {
            PlayerStance::Crouched | PlayerStance::Crouching => StancePenalty::Crouch,
            PlayerStance::Airborne | PlayerStance::Jumping => StancePenalty::Air,
            PlayerStance::Landing => StancePenalty::Landing,
            _ => StancePenalty::Stand,
        }
    }
}

} // verus!
