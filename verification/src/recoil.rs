//! Spray progression: which step of a weapon's recoil pattern each shot
//! takes, and when the spray has recovered.
use vstd::prelude::*;
use crate::weapon::{RecoilPoint, WeaponDefinition};

verus! {

/// Where a spray stands: the number of shots since it last recovered and
/// the time of the last shot.
#[derive(Debug, Clone, Copy, PartialEq, Eq, Structural)]
pub struct RecoilState {
    pub shot_index: usize,
    pub last_shot_time_ms: u64,
}

/// What a recovery update found: no spray under way, a spray that has
/// fully recovered (the offset returns to zero), or one still recovering,
/// with the time since the last shot and the recovery time it decays over.
#[derive(Debug, Clone, Copy, PartialEq, Eq, Structural)]
pub enum RecoveryStep {
    Idle,
    Recovered,
    Decaying { elapsed_ms: u64, recovery_time_ms: u64 },
}

/// The pattern step taken by the shot with the given index: the step at
/// that index, or the last step once the pattern is exhausted.
pub open spec fn pattern_step(pattern: Seq<RecoilPoint>, shot_index: int) -> RecoilPoint
    recommends
        pattern.len() > 0,
{
    if shot_index < pattern.len() - 1 {
        pattern[shot_index]
    } else {
        pattern[pattern.len() - 1]
    }
}

/// The state after a shot at `now` with a non-empty pattern.
pub open spec fn after_shot(s: RecoilState, now: u64) -> RecoilState {
    RecoilState { shot_index: (s.shot_index + 1) as usize, last_shot_time_ms: now }
}

/// Time since the last shot, zero if the clock reads earlier.
pub open spec fn elapsed_since(s: RecoilState, now: u64) -> u64 {
    if now >= s.last_shot_time_ms {
        (now - s.last_shot_time_ms) as u64
    } else {
        0
    }
}

/// The recovery time that applies in the given stance.
pub open spec fn recovery_time(w: WeaponDefinition, is_crouching: bool) -> u64 {
    if is_crouching {
        w.recovery_time_crouch_ms
    } else {
        w.recovery_time_stand_ms
    }
}

/// What a recovery update at `now` finds.
pub open spec fn recovery_step(s: RecoilState, w: WeaponDefinition, now: u64, is_crouching: bool) -> RecoveryStep {
    if s.shot_index == 0 {
        RecoveryStep::Idle
    } else if elapsed_since(s, now) >= recovery_time(w, is_crouching) {
        RecoveryStep::Recovered
    } else {
        RecoveryStep::Decaying {
            elapsed_ms: elapsed_since(s, now),
            recovery_time_ms: recovery_time(w, is_crouching),
        }
    }
}

/// The state after a recovery update: a recovered spray starts over.
pub open spec fn after_recovery(s: RecoilState, step: RecoveryStep) -> RecoilState {
    match step {
        RecoveryStep::Recovered => RecoilState { shot_index: 0, last_shot_time_ms: s.last_shot_time_ms },
        _ => s,
    }
}

impl RecoilState {
    /// A spray that has not started.
    pub fn new() -> (s: Self)
        ensures
            s.shot_index == 0,
            s.last_shot_time_ms == 0,
    {
        RecoilState { shot_index: 0, last_shot_time_ms: 0 }
    }

    /// Fires one shot at `current_time_ms`: returns the offsets of the
    /// pattern step it takes and moves to the next step. A weapon without a
    /// pattern gives no offset and leaves the spray as it is.
    pub fn advance_shot(&mut self, weapon: &WeaponDefinition, current_time_ms: u64) -> (r: (i32, i32))
        requires
            weapon.recoil_pattern@.len() > 0 ==> old(self).shot_index < usize::MAX,
        ensures
            weapon.recoil_pattern@.len() == 0 ==> r == (0i32, 0i32) && *final(self) == *old(self),
            weapon.recoil_pattern@.len() > 0 ==> {
                let p = pattern_step(weapon.recoil_pattern@, old(self).shot_index as int);
                &&& r == (p.dx_x100, p.dy_x100)
                &&& *final(self) == after_shot(*old(self), current_time_ms)
            },
    {
        let pattern_len = weapon.recoil_pattern.len();
        if pattern_len == 0 {
            return (0, 0);
        }
        let idx = if self.shot_index < pattern_len - 1 {
            self.shot_index
        } else {
            pattern_len - 1
        };
        let point = weapon.recoil_pattern[idx];
        self.shot_index = self.shot_index + 1;
        self.last_shot_time_ms = current_time_ms;
        (point.dx_x100, point.dy_x100)
    }

    /// Lets the spray recover up to `current_time_ms`: once the recovery
    /// time of the stance has passed since the last shot the spray starts
    /// over; before that it is still decaying.
    pub fn update_recovery(&mut self, weapon: &WeaponDefinition, current_time_ms: u64, is_crouching: bool) -> (step:
        RecoveryStep)
        ensures
            step == recovery_step(*old(self), *weapon, current_time_ms, is_crouching),
            *final(self) == after_recovery(*old(self), step),
    {
        if self.shot_index == 0 {
            return RecoveryStep::Idle;
        }
        let recovery_time_ms = if is_crouching {
            weapon.recovery_time_crouch_ms
        } else {
            weapon.recovery_time_stand_ms
        };
        let elapsed_ms = current_time_ms.saturating_sub(self.last_shot_time_ms);
        if elapsed_ms >= recovery_time_ms {
            self.shot_index = 0;
            RecoveryStep::Recovered
        } else {
            RecoveryStep::Decaying { elapsed_ms, recovery_time_ms }
        }
    }
}

impl Default for RecoilState {
    fn default() -> (s: Self)
        ensures
            s.shot_index == 0,
            s.last_shot_time_ms == 0,
    {
        Self::new()
    }
}

/// Once a spray has recovered, the next shot takes the first step of the
/// pattern again.
pub proof fn lemma_recovered_spray_restarts(s: RecoilState, w: WeaponDefinition, now: u64, crouching: bool)
    requires
        recovery_step(s, w, now, crouching) == RecoveryStep::Recovered,
        w.recoil_pattern@.len() > 0,
    ensures
        after_recovery(s, RecoveryStep::Recovered).shot_index == 0,
        pattern_step(w.recoil_pattern@, after_recovery(s, RecoveryStep::Recovered).shot_index as int)
            == w.recoil_pattern@[0],
{
}

/// A spray that has not started is idle, whatever the time.
pub proof fn lemma_fresh_spray_idle(w: WeaponDefinition, now: u64, crouching: bool)
    ensures
        recovery_step(RecoilState { shot_index: 0, last_shot_time_ms: 0 }, w, now, crouching)
            == RecoveryStep::Idle,
{
}

/// Recovery is monotone in time: a spray recovered at some time would also
/// be recovered at any later time.
pub proof fn lemma_recovery_monotone(s: RecoilState, w: WeaponDefinition, t1: u64, t2: u64, crouching: bool)
    requires
        t1 <= t2,
        recovery_step(s, w, t1, crouching) == RecoveryStep::Recovered,
    ensures
        recovery_step(s, w, t2, crouching) == RecoveryStep::Recovered,
{
}

/// Shots past the end of the pattern keep taking its last step.
pub proof fn lemma_pattern_holds_last_step(pattern: Seq<RecoilPoint>, k: int)
    requires
        pattern.len() > 0,
        k >= pattern.len() - 1,
    ensures
        pattern_step(pattern, k) == pattern[pattern.len() - 1],
{
}

} // verus!
