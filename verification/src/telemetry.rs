//! What the session tally reads of each shot, and the direction in which
//! a session's aim leaned.
use vstd::prelude::*;

verus! {

/// The side of the target towards which the mean aim error leans, in
/// screen coordinates (negative y is up).
#[derive(Debug, Clone, Copy, PartialEq, Eq, Structural)]
pub enum DirectionBias {
    Center,
    High,
    Low,
    Left,
    Right,
    HighLeft,
    HighRight,
    LowLeft,
    LowRight,
}

/// The name under which a bias is stored.
pub open spec fn bias_name(b: DirectionBias) -> Seq<char> {
    match b {
        DirectionBias::Center => "Center"@,
        DirectionBias::High => "High"@,
        DirectionBias::Low => "Low"@,
        DirectionBias::Left => "Left"@,
        DirectionBias::Right => "Right"@,
        DirectionBias::HighLeft => "HighLeft"@,
        DirectionBias::HighRight => "HighRight"@,
        DirectionBias::LowLeft => "LowLeft"@,
        DirectionBias::LowRight => "LowRight"@,
    }
}

/// The bias a stored name stands for; an unknown name reads as `Center`.
pub open spec fn bias_from_name(s: Seq<char>) -> DirectionBias {
    if s == "High"@ {
        DirectionBias::High
    } else if s == "Low"@ {
        DirectionBias::Low
    } else if s == "Left"@ {
        DirectionBias::Left
    } else if s == "Right"@ {
        DirectionBias::Right
    } else if s == "HighLeft"@ {
        DirectionBias::HighLeft
    } else if s == "HighRight"@ {
        DirectionBias::HighRight
    } else if s == "LowLeft"@ {
        DirectionBias::LowLeft
    } else if s == "LowRight"@ {
        DirectionBias::LowRight
    } else {
        DirectionBias::Center
    }
}

/// Whether two character sequences are equal, for stored names.
pub(crate) fn same_text(a: &str, b: &str) -> (r: bool)
    ensures
        r == (a@ == b@),
{
    let x = a.to_owned();
    let y = b.to_owned();
    x == y
}

impl DirectionBias {
    /// The variant's name, as the session store writes it.
    pub fn name(&self) -> (s: &'static str)
        ensures
            s@ == bias_name(*self),
    {
        match self {
            DirectionBias::Center => "Center",
            DirectionBias::High => "High",
            DirectionBias::Low => "Low",
            DirectionBias::Left => "Left",
            DirectionBias::Right => "Right",
            DirectionBias::HighLeft => "HighLeft",
            DirectionBias::HighRight => "HighRight",
            DirectionBias::LowLeft => "LowLeft",
            DirectionBias::LowRight => "LowRight",
        }
    }

    /// Reads a stored name back; anything unknown reads as `Center`.
    pub fn from_name(s: &str) -> (b: DirectionBias)
        ensures
            b == bias_from_name(s@),
    {
        if same_text(s, "High") {
            DirectionBias::High
        } else if same_text(s, "Low") {
            DirectionBias::Low
        } else if same_text(s, "Left") {
            DirectionBias::Left
        } else if same_text(s, "Right") {
            DirectionBias::Right
        } else if same_text(s, "HighLeft") {
            DirectionBias::HighLeft
        } else if same_text(s, "HighRight") {
            DirectionBias::HighRight
        } else if same_text(s, "LowLeft") {
            DirectionBias::LowLeft
        } else if same_text(s, "LowRight") {
            DirectionBias::LowRight
        } else {
            DirectionBias::Center
        }
    }
}

/// A stored name reads back as the bias that was written.
pub proof fn lemma_bias_name_round_trip(b: DirectionBias)
    ensures
        bias_from_name(bias_name(b)) == b,
{
    reveal_strlit("Center");
    reveal_strlit("High");
    reveal_strlit("Low");
    reveal_strlit("Left");
    reveal_strlit("Right");
    reveal_strlit("HighLeft");
    reveal_strlit("HighRight");
    reveal_strlit("LowLeft");
    reveal_strlit("LowRight");
    assert("Center"@.len() == 6 && "Center"@[0] == 'C');
    assert("High"@.len() == 4 && "High"@[0] == 'H');
    assert("Low"@.len() == 3 && "Low"@[0] == 'L');
    assert("Left"@.len() == 4 && "Left"@[0] == 'L');
    assert("Right"@.len() == 5 && "Right"@[0] == 'R');
    assert("HighLeft"@.len() == 8 && "HighLeft"@[0] == 'H');
    assert("HighRight"@.len() == 9 && "HighRight"@[0] == 'H');
    assert("LowLeft"@.len() == 7 && "LowLeft"@[0] == 'L');
    assert("LowRight"@.len() == 8 && "LowRight"@[0] == 'L');
}

/// What the session tally reads of one shot: whether it hit, whether it
/// was a headshot, the rounds in the magazine before it, the reaction time
/// if it was the first shot at a target, whether the player was moving
/// faster than the steady-aim threshold, and whether an aim error was
/// recorded for it.
#[derive(Debug, Clone, Copy, PartialEq, Eq, Structural)]
pub struct ShotOutcome {
    pub hit: bool,
    pub headshot: bool,
    pub ammo_before: u32,
    pub reaction_time_ms: Option<u32>,
    pub moving: bool,
    pub has_aim_error: bool,
}

} // verus!
