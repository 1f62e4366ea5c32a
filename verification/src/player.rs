//! The player's stance and the name under which a shot's stance is stored.
use vstd::prelude::*;

verus! {

#[derive(Debug, Clone, Copy, PartialEq, Eq, Structural)]
pub enum PlayerStance {
    Standing,
    Walking,
    Running,
    Crouching,
    Crouched,
    Jumping,
    Airborne,
    Landing,
    CounterStrafing,
}

pub open spec fn stance_name(s: PlayerStance) -> Seq<char> {
    match s {
        PlayerStance::Standing => "Standing"@,
        PlayerStance::Walking => "Walking"@,
        PlayerStance::Running => "Running"@,
        PlayerStance::Crouching => "Crouching"@,
        PlayerStance::Crouched => "Crouched"@,
        PlayerStance::Jumping => "Jumping"@,
        PlayerStance::Airborne => "Airborne"@,
        PlayerStance::Landing => "Landing"@,
        PlayerStance::CounterStrafing => "CounterStrafing"@,
    }
}

/// What the stance rule reads after a movement step: whether the player is
/// in the air or crouching, whether the step braked by pressing against
/// the velocity (counter-strafing), how the speed compares with the
/// standing threshold (above it, below it) and with the running threshold,
/// and whether the player landed within the landing window.
#[derive(Debug, Clone, Copy, PartialEq, Eq, Structural)]
pub struct MotionReading {
    pub is_airborne: bool,
    pub is_crouching: bool,
    pub braked_against_velocity: bool,
    pub above_still_speed: bool,
    pub below_still_speed: bool,
    pub below_run_speed: bool,
    pub landed_recently: bool,
}

/// The stance after a movement step: airborne in the air; on the ground
/// landing within the landing window, otherwise counter-strafing when the
/// step braked against the velocity, otherwise crouching or crouched by
/// speed when crouching, else standing, walking or running by speed.
pub open spec fn settled_stance(m: MotionReading) -> PlayerStance {
    if m.is_airborne {
        PlayerStance::Airborne
    } else if m.landed_recently {
        PlayerStance::Landing
    } else if m.braked_against_velocity {
        PlayerStance::CounterStrafing
    } else if m.is_crouching {
        if m.above_still_speed {
            PlayerStance::Crouching
        } else {
            PlayerStance::Crouched
        }
    } else if m.below_still_speed {
        PlayerStance::Standing
    } else if m.below_run_speed {
        PlayerStance::Walking
    } else {
        PlayerStance::Running
    }
}

impl PlayerStance {
    /// The stance a movement step settles in.
    pub fn settle(m: &MotionReading) -> (s: PlayerStance)
        ensures
            s == settled_stance(*m),
    {
        let mut stance = if m.is_airborne {
            PlayerStance::Airborne
        } else if m.braked_against_velocity {
            PlayerStance::CounterStrafing
        } else if m.is_crouching {
            if m.above_still_speed {
                PlayerStance::Crouching
            } else {
                PlayerStance::Crouched
            }
        } else if m.below_still_speed {
            PlayerStance::Standing
        } else if m.below_run_speed {
            PlayerStance::Walking
        } else {
            PlayerStance::Running
        };
        if !m.is_airborne && m.landed_recently {
            stance = PlayerStance::Landing;
        }
        stance
    }

    /// The variant's name, as the shot store writes it.
    pub fn name(&self) -> (s: &'static str)
        ensures
            s@ == stance_name(*self),
    {
        match self {
            PlayerStance::Standing => "Standing",
            PlayerStance::Walking => "Walking",
            PlayerStance::Running => "Running",
            PlayerStance::Crouching => "Crouching",
            PlayerStance::Crouched => "Crouched",
            PlayerStance::Jumping => "Jumping",
            PlayerStance::Airborne => "Airborne",
            PlayerStance::Landing => "Landing",
            PlayerStance::CounterStrafing => "CounterStrafing",
        }
    }
}

/// A step in the air leaves the player airborne and a step on the ground
/// never does; a braking step on the ground, outside the landing window,
/// shows as counter-strafing, and only a braking step does.
pub proof fn lemma_counter_strafe_shows_when_braking(m: MotionReading)
    ensures
        m.is_airborne <==> settled_stance(m) == PlayerStance::Airborne,
        (!m.is_airborne && !m.landed_recently && m.braked_against_velocity) ==> settled_stance(m)
            == PlayerStance::CounterStrafing,
        settled_stance(m) == PlayerStance::CounterStrafing ==> m.braked_against_velocity,
        settled_stance(m) != PlayerStance::Jumping,
{
}

} // verus!
